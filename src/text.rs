//! The plain-text answer of the compute route.
use vstd::prelude::*;
use vstd::string::StringExecFns;

verus! {

pub open spec fn digit_char(d: nat) -> char {
    ('0' as int + d) as char
}

/// The decimal digits of `n`, most significant first, without leading zeros
/// (`0` is written as one digit).
pub open spec fn decimal(n: nat) -> Seq<char>
    decreases n,
{
    if n < 10 {
        seq![digit_char(n)]
    } else {
        decimal(n / 10).push(digit_char(n % 10))
    }
}

/// The three lines of the answer: the count, the sum and the elapsed time.
pub open spec fn response_text(size: nat, sum: nat, time: Seq<char>) -> Seq<char> {
    "Processed "@ + decimal(size) + " numbers\nResult: "@ + decimal(sum) + "\nTime: "@ + time
}

/// The one-character text of a decimal digit.
fn digit_str(d: u64) -> (r: &'static str)
    requires
        d < 10,
    ensures
        r@ == seq![digit_char(d as nat)],
{
    proof {
        reveal_strlit("0");
        reveal_strlit("1");
        reveal_strlit("2");
        reveal_strlit("3");
        reveal_strlit("4");
        reveal_strlit("5");
        reveal_strlit("6");
        reveal_strlit("7");
        reveal_strlit("8");
        reveal_strlit("9");
    }
    let r = match d {
        0 => "0",
        1 => "1",
        2 => "2",
        3 => "3",
        4 => "4",
        5 => "5",
        6 => "6",
        7 => "7",
        8 => "8",
        _ => "9",
    };
    assert(r@ =~= seq![digit_char(d as nat)]);
    r
}

/// Appends the decimal digits of `n` to `out`.
pub fn push_decimal(out: &mut String, n: u64)
    ensures
        final(out)@ == old(out)@ + decimal(n as nat),
    decreases n,
{
    if n >= 10 {
        push_decimal(out, n / 10);
        out.append(digit_str(n % 10));
        assert(final(out)@ =~= old(out)@ + decimal(n as nat));
    } else {
        out.append(digit_str(n));
    }
}

/// The answer of the compute route for `size` values whose filter-square-sum
/// is `sum`, the elapsed time being written as `time`.
pub fn render_response(size: usize, sum: u64, time: &str) -> (r: String)
    ensures
        r@ == response_text(size as nat, sum as nat, time@),
{
    let mut out = String::new();
    out.append("Processed ");
    push_decimal(&mut out, size as u64);
    out.append(" numbers\nResult: ");
    push_decimal(&mut out, sum);
    out.append("\nTime: ");
    out.append(time);
    assert(out@ =~= response_text(size as nat, sum as nat, time@));
    out
}

} // verus!
