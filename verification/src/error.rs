use vstd::prelude::*;

verus! {

/// Errors a feed can report to the pipeline.
///
/// `InvalidStateByte` is an invariant violation: the source handed over a
/// value the feed's state cannot represent.  `SourceReadFailed` stands for a
/// transient failure of the source itself (an unreadable file, a failed
/// request); the driving loop logs it and drops the cycle.
#[derive(Clone, Copy, PartialEq, Eq, Structural, Debug)]
pub enum FeedError {
    InvalidStateByte(u8),
    SourceReadFailed,
}

} // verus!
