//! Descriptors for the operations the plugin exposes.

use vstd::prelude::*;

verus! {

/// The declared type contract of an operation's input or output.
#[derive(Clone, Copy, PartialEq, Eq, Structural, Debug)]
pub enum IoType {
    Any,
    Binary,
}

/// The stability category an operation is listed under.
#[derive(Clone, Copy, PartialEq, Eq, Structural, Debug)]
pub enum CommandCategory {
    Experimental,
}

/// What an operation declares about itself for discovery: its name, its
/// input/output type contract, whether it takes the optional integer
/// `level` flag, and its listing category.
pub struct CommandSignature {
    pub name: String,
    pub input: IoType,
    pub output: IoType,
    pub has_level_flag: bool,
    pub category: CommandCategory,
}

} // verus!
