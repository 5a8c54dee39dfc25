//! Decimal text of fixed-point coordinates.

use vstd::prelude::*;

use crate::geometry::abs;

verus! {

/// The character of the decimal digit `d`.
pub open spec fn digit_char(d: int) -> char
    recommends
        0 <= d < 10,
{
    seq!['0', '1', '2', '3', '4', '5', '6', '7', '8', '9'][d]
}

/// The decimal digits of `n`, without leading zeros.
pub open spec fn nat_text(n: nat) -> Seq<char>
    decreases n,
{
    if n < 10 {
        seq![digit_char(n as int)]
    } else {
        nat_text(n / 10).push(digit_char((n % 10) as int))
    }
}

/// The fractional part of `f` hundredths (`f < 100`): empty where `f` is
/// zero, else a point and one or two digits, with no trailing zero.
pub open spec fn fraction_text(f: nat) -> Seq<char> {
    if f == 0 {
        Seq::empty()
    } else if f % 10 == 0 {
        seq!['.', digit_char((f / 10) as int)]
    } else {
        seq!['.', digit_char((f / 10) as int), digit_char((f % 10) as int)]
    }
}

/// The shortest decimal text of `c` hundredths: a minus sign where `c` is
/// negative, the whole part, and the fraction where it is not zero
/// (`150` reads "1.5", `-20` reads "-0.2", `300` reads "3").
pub open spec fn coord_text(c: int) -> Seq<char> {
    let m = abs(c) as nat;
    let sign = if c < 0 {
        seq!['-']
    } else {
        Seq::<char>::empty()
    };
    sign + nat_text(m / 100) + fraction_text(m % 100)
}

/// Whether `ch` can occur in the text of a number.
pub open spec fn is_number_char(ch: char) -> bool {
    ch == '-' || ch == '.' || seq!['0', '1', '2', '3', '4', '5', '6', '7', '8', '9'].contains(ch)
}

/// The text of a number holds digits, a minus sign and a point only.
pub proof fn lemma_coord_text_chars(c: int)
    ensures
        forall|j: int| 0 <= j < coord_text(c).len() ==> is_number_char(#[trigger] coord_text(c)[j]),
{
    let m = abs(c) as nat;
    lemma_nat_text_chars(m / 100);
    let f = m % 100;
    let digits = seq!['0', '1', '2', '3', '4', '5', '6', '7', '8', '9'];
    assert(digits[(f / 10) as int] == digit_char((f / 10) as int));
    assert(digits.contains(digit_char((f / 10) as int)));
    assert(digits[(f % 10) as int] == digit_char((f % 10) as int));
    assert(digits.contains(digit_char((f % 10) as int)));
}

proof fn lemma_nat_text_chars(n: nat)
    ensures
        forall|j: int| 0 <= j < nat_text(n).len() ==> is_number_char(#[trigger] nat_text(n)[j]),
    decreases n,
{
    let digits = seq!['0', '1', '2', '3', '4', '5', '6', '7', '8', '9'];
    assert(digits[(n % 10) as int] == digit_char((n % 10) as int));
    assert(digits.contains(digit_char((n % 10) as int)));
    if n >= 10 {
        lemma_nat_text_chars(n / 10);
        let t = nat_text(n);
        assert forall|j: int| 0 <= j < t.len() implies is_number_char(#[trigger] t[j]) by {
            if j < t.len() - 1 {
                assert(t[j] == nat_text(n / 10)[j]);
            }
        }
    } else {
        assert(digits[n as int] == digit_char(n as int));
    }
}

/// The text of one decimal digit.
fn digit_str(d: u128) -> (s: &'static str)
    requires
        d < 10,
    ensures
        s@ == seq![digit_char(d as int)],
{
    proof {
        reveal_strlit("0");
        reveal_strlit("1");
        reveal_strlit("2");
        reveal_strlit("3");
        reveal_strlit("4");
        reveal_strlit("5");
        reveal_strlit("6");
        reveal_strlit("7");
        reveal_strlit("8");
        reveal_strlit("9");
    }
    let s = if d == 0 {
        "0"
    } else if d == 1 {
        "1"
    } else if d == 2 {
        "2"
    } else if d == 3 {
        "3"
    } else if d == 4 {
        "4"
    } else if d == 5 {
        "5"
    } else if d == 6 {
        "6"
    } else if d == 7 {
        "7"
    } else if d == 8 {
        "8"
    } else {
        "9"
    };
    assert(s@ =~= seq![digit_char(d as int)]);
    s
}

/// Appends the decimal digits of `n`.
fn push_nat(out: &mut String, n: u128)
    ensures
        final(out)@ == old(out)@ + nat_text(n as nat),
    decreases n,
{
    if n >= 10 {
        push_nat(out, n / 10);
    }
    out.append(digit_str(n % 10));
    proof {
        if n >= 10 {
            assert(final(out)@ =~= old(out)@ + nat_text(n as nat));
        } else {
            assert(final(out)@ =~= old(out)@ + nat_text(n as nat));
        }
    }
}

/// Appends the decimal text of `c` hundredths.
pub(crate) fn push_coord(out: &mut String, c: i128)
    ensures
        final(out)@ == old(out)@ + coord_text(c as int),
{
    let m: u128 = if c < 0 {
        (-(c + 1)) as u128 + 1
    } else {
        c as u128
    };
    proof {
        reveal_strlit("-");
        reveal_strlit(".");
    }
    if c < 0 {
        out.append("-");
    }
    push_nat(out, m / 100);
    let f: u128 = m % 100;
    if f != 0 {
        out.append(".");
        out.append(digit_str(f / 10));
        if f % 10 != 0 {
            out.append(digit_str(f % 10));
        }
    }
    assert(final(out)@ =~= old(out)@ + coord_text(c as int));
}

} // verus!
