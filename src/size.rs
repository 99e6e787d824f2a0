//! Normalisation of the `size` query parameter: a decimal count, or the
//! default when the parameter is absent or is not such a count.
use vstd::prelude::*;

verus! {

/// The count used when no valid `size` is given.
pub const DEFAULT_SIZE: usize = 10_000_000;

pub open spec fn is_digit(c: char) -> bool {
    '0' <= c <= '9'
}

pub open spec fn digit_value(c: char) -> nat {
    (c as int - '0' as int) as nat
}

/// The number written by a string of decimal digits, most significant first.
pub open spec fn digits_value(s: Seq<char>) -> nat
    decreases s.len(),
{
    if s.len() == 0 {
        0
    } else {
        digits_value(s.drop_last()) * 10 + digit_value(s.last())
    }
}

pub open spec fn all_digits(s: Seq<char>) -> bool {
    forall|i: int| 0 <= i < s.len() ==> is_digit(#[trigger] s[i])
}

/// The digits of an unsigned number: the text without one leading `+`.
pub open spec fn unsigned_digits(s: Seq<char>) -> Seq<char> {
    if s.len() > 0 && s[0] == '+' {
        s.drop_first()
    } else {
        s
    }
}

/// The value of an unsigned decimal number: an optional `+` and then one or
/// more digits. Anything else (empty, a sign alone, `-`, spaces, letters) has none.
pub open spec fn unsigned_value(s: Seq<char>) -> Option<nat> {
    let d = unsigned_digits(s);
    if d.len() > 0 && all_digits(d) {
        Some(digits_value(d))
    } else {
        None
    }
}

/// `s` is an unsigned decimal number that fits in `usize`.
pub open spec fn is_valid_size(s: Seq<char>) -> bool {
    unsigned_value(s) is Some && unsigned_value(s)->0 <= usize::MAX
}

/// The count that a raw `size` parameter stands for.
pub open spec fn resolved_size(raw: Option<Seq<char>>) -> nat {
    match raw {
        Some(s) => if is_valid_size(s) {
            unsigned_value(s)->0
        } else {
            DEFAULT_SIZE as nat
        },
        None => DEFAULT_SIZE as nat,
    }
}

/// Among digit strings, a prefix never has a larger value than the whole.
pub proof fn lemma_prefix_value_le(s: Seq<char>, k: int)
    requires
        0 <= k <= s.len(),
        all_digits(s),
    ensures
        digits_value(s.take(k)) <= digits_value(s),
    decreases s.len() - k,
{
    if k < s.len() {
        let t = s.take(k + 1);
        assert(t.drop_last() =~= s.take(k));
        assert(all_digits(t));
        lemma_prefix_value_le(s, k + 1);
    } else {
        assert(s.take(k) =~= s);
    }
}

/// Reads `s` as an unsigned decimal number; `None` when it is not one or
/// when its value does not fit in `usize`.
pub fn parse_size(s: &str) -> (r: Option<usize>)
    ensures
        r is Some <==> is_valid_size(s@),
        r is Some ==> r->0 == unsigned_value(s@)->0,
{
    let n = s.unicode_len();
    let start: usize = if n > 0 && s.get_char(0) == '+' {
        1
    } else {
        0
    };
    let ghost d = unsigned_digits(s@);
    assert(d =~= s@.skip(start as int));
    if start == n {
        return None;
    }
    let mut value: usize = 0;
    let mut i: usize = start;
    while i < n
        invariant
            n == s@.len(),
            start <= i <= n,
            d == s@.skip(start as int),
            d == unsigned_digits(s@),
            all_digits(d.take(i - start)),
            value == digits_value(d.take(i - start)),
        decreases n - i,
    {
        let c = s.get_char(i);
        assert(c == d[i - start]);
        if c < '0' || c > '9' {
            assert(!all_digits(d));
            return None;
        }
        let ghost next = d.take(i + 1 - start);
        assert(next.drop_last() =~= d.take(i - start));
        assert(all_digits(next));
        let digit = (c as u32 - '0' as u32) as usize;
        let scaled = value.checked_mul(10);
        if scaled.is_none() {
            proof {
                if all_digits(d) {
                    lemma_prefix_value_le(d, i + 1 - start);
                }
            }
            return None;
        }
        let sum = scaled.unwrap().checked_add(digit);
        if sum.is_none() {
            proof {
                if all_digits(d) {
                    lemma_prefix_value_le(d, i + 1 - start);
                }
            }
            return None;
        }
        value = sum.unwrap();
        i = i + 1;
    }
    assert(d.take(n - start) =~= d);
    Some(value)
}

/// The count that a raw `size` parameter stands for: its value when it is an
/// unsigned decimal number that fits in `usize`, else `DEFAULT_SIZE`.
pub fn resolve_size(raw: Option<&str>) -> (r: usize)
    ensures
        r == resolved_size(
            match raw {
                Some(s) => Some(s@),
                None => None,
            },
        ),
{
    match raw {
        Some(s) => match parse_size(s) {
            Some(v) => v,
            None => DEFAULT_SIZE,
        },
        None => DEFAULT_SIZE,
    }
}

} // verus!
