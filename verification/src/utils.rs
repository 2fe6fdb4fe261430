//! Comparing versions.

use crate::signs::{sign_of_texts, version_sign};
use std::cmp::Ordering;
use vstd::prelude::*;
use vstd::string::StringSliceAdditionalSpecFns;

verus! {

/// Compares two versions number by number, a missing number counting as
/// zero. A text that is not a version compares equal to everything.
pub fn compare_version(version1: &str, version2: &str) -> (r: Ordering)
    ensures
        r == Ordering::Less <==> version_sign(version1.spec_bytes(), version2.spec_bytes()) == -1,
        r == Ordering::Greater <==> version_sign(version1.spec_bytes(), version2.spec_bytes())
            == 1,
        r == Ordering::Equal <==> version_sign(version1.spec_bytes(), version2.spec_bytes()) == 0,
{
    let sign = sign_of_texts(version1.as_bytes(), version2.as_bytes());
    if sign < 0 {
        Ordering::Less
    } else if sign > 0 {
        Ordering::Greater
    } else {
        Ordering::Equal
    }
}

} // verus!
