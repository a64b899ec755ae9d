use vstd::prelude::*;

verus! {

/// The total duration reported by a workload run, in milliseconds, from the
/// elapsed time measured around it.  The value is narrowed the way an `as`
/// conversion narrows it: the low 64 bits, read as a signed integer.
pub fn total_millis(elapsed_millis: u128) -> (ms: i64)
    ensures
        ms == elapsed_millis as i64,
        elapsed_millis <= i64::MAX ==> ms == elapsed_millis,
{
    elapsed_millis as i64
}

} // verus!
