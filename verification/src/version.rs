//! Version strings: numbers separated by dots.

use vstd::prelude::*;

verus! {

/// Whether the byte is a decimal digit.
pub open spec fn is_digit(b: u8) -> bool {
    48 <= b <= 57
}

/// Whether the byte is the dot between two numbers.
pub open spec fn is_dot(b: u8) -> bool {
    b == 46
}

/// Whether the text is a version: digits and dots only, with a digit
/// first, a digit last, and a digit after every dot.
pub open spec fn well_formed(text: Seq<u8>) -> bool {
    &&& text.len() > 0
    &&& forall|i: int| 0 <= i < text.len() ==> is_digit(#[trigger] text[i]) || is_dot(text[i])
    &&& is_digit(text[0])
    &&& is_digit(text.last())
    &&& forall|i: int| 0 < i < text.len() && is_dot(#[trigger] text[i]) ==> is_digit(text[i - 1])
}

/// The numbers of a text of digits and dots, read in decimal: a dot
/// begins a new number, which is zero until a digit follows.
pub open spec fn fields(text: Seq<u8>) -> Seq<nat>
    decreases text.len(),
{
    if text.len() == 0 {
        seq![0nat]
    } else {
        let before = fields(text.drop_last());
        if is_dot(text.last()) {
            before.push(0nat)
        } else {
            before.update(
                before.len() - 1,
                before.last() * 10 + (text.last() - 48) as nat,
            )
        }
    }
}

/// Every number fits 64 bits.
pub open spec fn fits(numbers: Seq<nat>) -> bool {
    forall|i: int| 0 <= i < numbers.len() ==> #[trigger] numbers[i] <= u64::MAX
}

/// The numbers of a version, if the text is one and each number fits 64 bits.
pub open spec fn version_numbers(text: Seq<u8>) -> Option<Seq<nat>> {
    if well_formed(text) && fits(fields(text)) {
        Some(fields(text))
    } else {
        None
    }
}

/// The numbers of a sequence by their values.
pub open spec fn numbers_view(numbers: Seq<u64>) -> Seq<nat> {
    Seq::new(numbers.len(), |i: int| numbers[i] as nat)
}

/// The numbers only grow while digits follow: a number that exceeds 64
/// bits in a prefix exceeds them in the whole text.
proof fn lemma_fields_grow(text: Seq<u8>, n: int)
    requires
        0 <= n <= text.len(),
    ensures
        fields(text.subrange(0, n)).len() <= fields(text).len(),
        forall|i: int|
            0 <= i < fields(text.subrange(0, n)).len() ==> fields(text.subrange(0, n))[i]
                <= #[trigger] fields(text)[i],
    decreases text.len() - n,
{
    if n < text.len() {
        let head = text.subrange(0, n);
        let next = text.subrange(0, n + 1);
        assert(next.drop_last() =~= head);
        lemma_fields_grow(text, n + 1);
    } else {
        assert(text.subrange(0, n) =~= text);
    }
}

/// Reads a version: `None` unless the text is numbers separated by
/// dots, each within 64 bits.
pub fn parse_version(text: &[u8]) -> (r: Option<Vec<u64>>)
    ensures
        match version_numbers(text@) {
            Some(numbers) => r matches Some(v) && numbers_view(v@) == numbers,
            None => r is None,
        },
{
    let n = text.len();
    if n == 0 {
        return None;
    }
    let mut done: Vec<u64> = Vec::new();
    let mut current: u64 = 0;
    let mut after_digit = false;
    let mut i: usize = 0;
    proof {
        assert(text@.subrange(0, 0) =~= Seq::<u8>::empty());
    }
    while i < n
        invariant
            i <= n,
            n == text@.len(),
            forall|j: int| 0 <= j < i ==> is_digit(#[trigger] text@[j]) || is_dot(text@[j]),
            i > 0 ==> is_digit(text@[0]),
            i > 0 ==> (after_digit <==> is_digit(text@[i - 1])),
            i == 0 ==> !after_digit,
            forall|j: int| 0 < j < i && is_dot(#[trigger] text@[j]) ==> is_digit(text@[j - 1]),
            fields(text@.subrange(0, i as int)) == numbers_view(done@).push(current as nat),
        decreases n - i,
    {
        let b = text[i];
        let ghost head = text@.subrange(0, i as int);
        let ghost next = text@.subrange(0, i + 1);
        proof {
            assert(next.drop_last() =~= head);
            assert(next.last() == b);
        }
        if 48 <= b && b <= 57 {
            let digit: u64 = (b - 48) as u64;
            if current > (u64::MAX - digit) / 10 {
                proof {
                    lemma_fields_grow(text@, i + 1);
                    let k = done@.len() as int;
                    assert(fields(next)[k] == current * 10 + digit);
                    assert(fields(text@)[k] > u64::MAX);
                }
                return None;
            }
            current = current * 10 + digit;
            after_digit = true;
            proof {
                assert(fields(next) =~= numbers_view(done@).push(current as nat));
            }
        } else if b == 46 {
            if !after_digit {
                proof {
                    if i > 0 {
                        assert(is_dot(text@[i as int]));
                    }
                }
                return None;
            }
            proof {
                assert(numbers_view(done@.push(current)) =~= numbers_view(done@).push(
                    current as nat,
                ));
            }
            done.push(current);
            current = 0;
            after_digit = false;
        } else {
            return None;
        }
        i += 1;
    }
    if !after_digit {
        return None;
    }
    proof {
        assert(text@.subrange(0, n as int) =~= text@);
        assert(numbers_view(done@.push(current)) =~= numbers_view(done@).push(current as nat));
        assert(fits(fields(text@)));
    }
    done.push(current);
    Some(done)
}

} // verus!
