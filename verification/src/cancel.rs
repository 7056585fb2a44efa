//! The cancellation signal of large transfers.
//!
//! One signal gates every large transfer that shares it: a transfer clears
//! it when it starts, and each of its segment workers looks at it before it
//! requests its range and before it takes each chunk. Transfers that are to
//! be cancelled independently each get a signal of their own.

use vstd::prelude::*;

verus! {

/// A cancellation signal: set or clear.
#[derive(Clone, Copy, Debug, PartialEq, Eq, Structural)]
pub struct CancelFlag {
    pub cancelled: bool,
}

impl CancelFlag {
    /// A clear signal.
    pub fn new() -> (flag: Self)
        ensures
            !flag.cancelled,
    {
        CancelFlag { cancelled: false }
    }
}

/// Clears the signal.
pub fn reset_java_download_cancel(flag: &mut CancelFlag)
    ensures
        !final(flag).cancelled,
{
    flag.cancelled = false;
}

/// Sets the signal.
pub fn cancel_java_download(flag: &mut CancelFlag)
    ensures
        final(flag).cancelled,
{
    flag.cancelled = true;
}

/// Whether the signal is set.
pub fn is_java_download_cancelled(flag: &CancelFlag) -> (cancelled: bool)
    ensures
        cancelled == flag.cancelled,
{
    flag.cancelled
}

/// Cancels the large transfer that is under way.
pub fn cancel_current_download(flag: &mut CancelFlag)
    ensures
        final(flag).cancelled,
{
    cancel_java_download(flag);
}

} // verus!
