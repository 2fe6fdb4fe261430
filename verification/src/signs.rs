//! How two versions stand to each other, as a sign.

use crate::version::{numbers_view, parse_version, version_numbers};
use vstd::prelude::*;

verus! {

/// The number at `i`, or zero past the end.
pub open spec fn number_at(numbers: Seq<nat>, i: int) -> nat {
    if 0 <= i < numbers.len() {
        numbers[i]
    } else {
        0
    }
}

/// How two versions stand from the number at `i` on: -1 if the first is
/// older, 1 if it is newer, 0 if they are the same, where a missing number
/// counts as zero.
pub open spec fn sign_from(a: Seq<nat>, b: Seq<nat>, i: int) -> int
    decreases a.len() + b.len() - i,
{
    if i < 0 || (i >= a.len() && i >= b.len()) {
        0
    } else if number_at(a, i) < number_at(b, i) {
        -1
    } else if number_at(a, i) > number_at(b, i) {
        1
    } else {
        sign_from(a, b, i + 1)
    }
}

/// How two texts stand as versions; 0 if either is not a version.
pub open spec fn version_sign(version1: Seq<u8>, version2: Seq<u8>) -> int {
    match (version_numbers(version1), version_numbers(version2)) {
        (Some(a), Some(b)) => sign_from(a, b, 0),
        _ => 0,
    }
}

/// How two versions stand: -1, 0 or 1.
pub fn sign_of(v1: &Vec<u64>, v2: &Vec<u64>) -> (s: i8)
    ensures
        s == sign_from(numbers_view(v1@), numbers_view(v2@), 0),
        -1 <= s <= 1,
{
    let ghost a = numbers_view(v1@);
    let ghost b = numbers_view(v2@);
    let mut i: usize = 0;
    while i < v1.len() || i < v2.len()
        invariant
            a == numbers_view(v1@),
            b == numbers_view(v2@),
            sign_from(a, b, 0) == sign_from(a, b, i as int),
        decreases v1.len() + v2.len() - i,
    {
        let n1: u64 = if i < v1.len() {
            v1[i]
        } else {
            0
        };
        let n2: u64 = if i < v2.len() {
            v2[i]
        } else {
            0
        };
        if n1 > n2 {
            return 1;
        }
        if n1 < n2 {
            return -1;
        }
        i += 1;
    }
    0
}

/// How two texts stand as versions: -1, 0 or 1.
pub fn sign_of_texts(version1: &[u8], version2: &[u8]) -> (s: i8)
    ensures
        s == version_sign(version1@, version2@),
        -1 <= s <= 1,
{
    let v1 = match parse_version(version1) {
        Some(v) => v,
        None => {
            return 0;
        },
    };
    let v2 = match parse_version(version2) {
        Some(v) => v,
        None => {
            return 0;
        },
    };
    sign_of(&v1, &v2)
}

} // verus!
