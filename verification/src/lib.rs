//! Streaming compression and decompression pipelines.
//!
//! The crate exposes two symmetric families of operations, compressors and
//! decompressors, over four codecs (gzip, zstd, xz, bzip2). Caller input —
//! either a materialized byte buffer or an open byte stream — is normalized
//! into one readable source, wrapped by a codec transform, and handed back
//! as a lazy, cancellable output stream that produces bytes only when
//! pulled. The codec algorithms themselves are outside libraries; their
//! container formats are taken as given, and the contracts here state how
//! the pipeline adapts input, selects transforms, defaults the compression
//! level, and reports every failure as a value.

use vstd::prelude::*;

pub mod cancel;
pub mod codecs;
pub mod compress;
pub mod decompress;
pub mod error;
pub mod input;
pub mod laws;
pub mod signature;
pub mod stream;

use crate::compress::CompressCommand;
use crate::decompress::DecompressCommand;

verus! {

/// One entry of the operation registry.
#[derive(Clone, Copy, PartialEq, Eq, Structural, Debug)]
pub enum PluginCommandKind {
    Compress(CompressCommand),
    Decompress(DecompressCommand),
}

/// The fixed registry: four compressors followed by four decompressors.
pub open spec fn commands_spec() -> Seq<PluginCommandKind> {
    seq![
        PluginCommandKind::Compress(CompressCommand::Gzip),
        PluginCommandKind::Compress(CompressCommand::Zstd),
        PluginCommandKind::Compress(CompressCommand::Xz),
        PluginCommandKind::Compress(CompressCommand::Bzip2),
        PluginCommandKind::Decompress(DecompressCommand::Gzip),
        PluginCommandKind::Decompress(DecompressCommand::Zstd),
        PluginCommandKind::Decompress(DecompressCommand::Xz),
        PluginCommandKind::Decompress(DecompressCommand::Bzip2),
    ]
}

/// The host-facing plugin: a fixed registry of the eight supported
/// operations. Immutable for the process lifetime; no dynamic
/// registration, and no failure mode — listing it is a pure lookup.
pub struct CompressPlugin;

impl CompressPlugin {
    /// The plugin's version string.
    pub fn version(&self) -> (r: String)
        ensures
            r@ == "0.1.0"@,
    {
        "0.1.0".to_owned()
    }

    /// Every operation the plugin exposes, always the same eight.
    pub fn commands(&self) -> (r: Vec<PluginCommandKind>)
        ensures
            r@ == commands_spec(),
    {
        let v: Vec<PluginCommandKind> = vec![
            PluginCommandKind::Compress(CompressCommand::Gzip),
            PluginCommandKind::Compress(CompressCommand::Zstd),
            PluginCommandKind::Compress(CompressCommand::Xz),
            PluginCommandKind::Compress(CompressCommand::Bzip2),
            PluginCommandKind::Decompress(DecompressCommand::Gzip),
            PluginCommandKind::Decompress(DecompressCommand::Zstd),
            PluginCommandKind::Decompress(DecompressCommand::Xz),
            PluginCommandKind::Decompress(DecompressCommand::Bzip2),
        ];
        proof {
            assert(v@ =~= commands_spec());
        }
        v
    }
}

/// Registry idempotence law: the registry is a constant of the process,
/// so any two query results are equal, element for element.
pub proof fn lemma_registry_stable(a: Seq<PluginCommandKind>, b: Seq<PluginCommandKind>)
    requires
        a == commands_spec(),
        b == commands_spec(),
    ensures
        a == b,
{
}

} // verus!
