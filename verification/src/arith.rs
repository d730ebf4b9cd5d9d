use vstd::prelude::*;

verus! {

/// Overflow-checked addition of two `u64` tally counters.
pub fn checked_add_u64(a: u64, b: u64) -> (r: Option<u64>)
    ensures
        a + b <= u64::MAX ==> r == Some((a + b) as u64),
        a + b > u64::MAX ==> r is None,
{
    if a <= u64::MAX - b {
        Some(a + b)
    } else {
        None
    }
}

/// Underflow-checked subtraction of two `u64` tally counters.
pub fn checked_sub_u64(a: u64, b: u64) -> (r: Option<u64>)
    ensures
        b <= a ==> r == Some((a - b) as u64),
        b > a ==> r is None,
{
    if b <= a {
        Some(a - b)
    } else {
        None
    }
}

/// Overflow-checked addition of two `i64` timestamps or durations.
pub fn checked_add_i64(a: i64, b: i64) -> (r: Option<i64>)
    ensures
        i64::MIN <= a + b <= i64::MAX ==> r == Some((a + b) as i64),
        !(i64::MIN <= a + b <= i64::MAX) ==> r is None,
{
    if b >= 0 {
        if a <= i64::MAX - b {
            Some(a + b)
        } else {
            None
        }
    } else {
        if a >= i64::MIN - b {
            Some(a + b)
        } else {
            None
        }
    }
}

} // verus!
