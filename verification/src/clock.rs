//! Timestamps of received market events.

use vstd::prelude::*;

verus! {

/// The moment `secs` seconds and `subsec_nanos` nanoseconds after the Unix epoch,
/// in nanoseconds.
pub fn epoch_nanos(secs: u64, subsec_nanos: u32) -> (res: u64)
    requires
        secs * 1_000_000_000 + subsec_nanos <= u64::MAX,
    ensures
        res == secs * 1_000_000_000 + subsec_nanos,
{
    secs * 1_000_000_000 + subsec_nanos as u64
}

} // verus!
