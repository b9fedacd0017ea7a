//! The cancellation signal shared between a stream and its consumer.

use vstd::prelude::*;

verus! {

/// A shared flag that the host or a consumer raises to request early
/// termination of stream production. Clones observe the same flag.
/// Whether it is raised at a given moment depends on other parties, so
/// nothing is claimed about what [`CancelToken::is_raised`] returns; the
/// stream's contract instead states what holds on either answer.
#[verifier::external_body]
pub struct CancelToken {
    flag: std::sync::Arc<std::sync::atomic::AtomicBool>,
}

impl CancelToken {
    /// A fresh, unraised token.
    ///
    /// Relies on `std::sync::atomic::AtomicBool`: a plain shared flag.
    #[verifier::external_body]
    pub fn new() -> CancelToken {
        CancelToken { flag: std::sync::Arc::new(std::sync::atomic::AtomicBool::new(false)) }
    }

    /// Another handle on the same flag.
    ///
    /// Relies on `std::sync::Arc::clone`: the clone shares the flag, so
    /// as a cancellation signal it is the same token.
    #[verifier::external_body]
    pub fn share(&self) -> (r: CancelToken)
        ensures
            r == *self,
    {
        CancelToken { flag: std::sync::Arc::clone(&self.flag) }
    }

    /// Requests cancellation: every holder of the token sees it raised
    /// from now on.
    ///
    /// Relies on `std::sync::atomic::AtomicBool::store`.
    #[verifier::external_body]
    pub fn raise(&self) {
        self.flag.store(true, std::sync::atomic::Ordering::Relaxed);
    }

    /// Whether cancellation has been requested.
    ///
    /// Relies on `std::sync::atomic::AtomicBool::load`.
    #[verifier::external_body]
    pub fn is_raised(&self) -> bool {
        self.flag.load(std::sync::atomic::Ordering::Relaxed)
    }
}

} // verus!
