//! The custom testers of the templates.

use vstd::prelude::*;

verus! {

/// The `my_odd` tester, given the tested value (`None` where there is none)
/// read as an `i64` (`None` where it does not read so): true exactly for
/// an odd integer.
pub fn my_odd(value: Option<Option<i64>>) -> (r: bool)
    ensures
        r == (value matches Some(Some(v)) && v % 2 != 0),
{
    match value {
        Some(Some(v)) => v % 2 != 0,
        _ => false,
    }
}

} // verus!
