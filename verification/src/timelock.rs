use vstd::prelude::*;

use crate::arith::checked_add_i64;

verus! {

/// The time gate between a proposal being queued and becoming executable:
/// `queued_at + delay`, with checked addition.  There is no background
/// timer; execution is admitted by comparing the current time against
/// this precomputed value.
pub fn ready_to_execute_at(queued_at: i64, delay: i64) -> (r: Option<i64>)
    ensures
        i64::MIN <= queued_at + delay <= i64::MAX ==> r == Some((queued_at + delay) as i64),
        !(i64::MIN <= queued_at + delay <= i64::MAX) ==> r is None,
{
    checked_add_i64(queued_at, delay)
}

} // verus!
