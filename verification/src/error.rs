//! Classification of stream failures.
//!
//! The adapter distinguishes exactly two families of stream errors: the
//! retriable ones (the operation may be attempted again later, signalled to
//! the foreign library through its retry flags) and everything else, which
//! is fatal for the current call but is still stored for the owner to
//! inspect afterwards.

use vstd::prelude::*;

verus! {

/// The kinds of stream failure the adapter tells apart.
#[derive(Clone, Copy, Debug, PartialEq, Eq, Structural)]
pub enum StreamErrorKind {
    /// The operation would have to block; retry later.
    WouldBlock,
    /// The stream is not connected yet; retry later.
    NotConnected,
    /// Any other failure; fatal for this call.
    Other,
}

/// One captured stream failure, as stored in the adapter's error slot.
#[derive(Clone, Copy, Debug, PartialEq, Eq, Structural)]
pub struct StreamError {
    pub kind: StreamErrorKind,
}

/// Whether an error kind belongs to the retriable family.
pub open spec fn is_retriable(k: StreamErrorKind) -> bool {
    k == StreamErrorKind::WouldBlock || k == StreamErrorKind::NotConnected
}

/// True exactly for the would-block and not-connected conditions: the two
/// failures the foreign retry-flag protocol asks to have re-driven later.
pub fn retriable_error(err: &StreamError) -> (r: bool)
    ensures
        r == is_retriable(err.kind),
{
    match err.kind {
        StreamErrorKind::WouldBlock | StreamErrorKind::NotConnected => true,
        StreamErrorKind::Other => false,
    }
}

} // verus!
