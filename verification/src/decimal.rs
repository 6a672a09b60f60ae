//! Integers written in decimal, as they appear in a query string.

use vstd::prelude::*;
use vstd::string::*;

verus! {

/// The character for one decimal digit.
pub open spec fn digit(d: int) -> char
    recommends
        0 <= d < 10,
{
    if d == 0 {
        '0'
    } else if d == 1 {
        '1'
    } else if d == 2 {
        '2'
    } else if d == 3 {
        '3'
    } else if d == 4 {
        '4'
    } else if d == 5 {
        '5'
    } else if d == 6 {
        '6'
    } else if d == 7 {
        '7'
    } else if d == 8 {
        '8'
    } else {
        '9'
    }
}

/// The digits of a natural number, most significant first, without
/// leading zeros; zero is the single digit `0`.
pub open spec fn digits(n: nat) -> Seq<char>
    decreases n,
{
    if n < 10 {
        seq![digit(n as int)]
    } else {
        digits(n / 10).push(digit((n % 10) as int))
    }
}

/// An integer in decimal: a minus sign for a negative number, then the
/// digits of its magnitude.
pub open spec fn decimal(n: int) -> Seq<char> {
    if n < 0 {
        seq!['-'] + digits((-n) as nat)
    } else {
        digits(n as nat)
    }
}

fn digit_str(d: u64) -> (s: &'static str)
    requires
        d < 10,
    ensures
        s@ == seq![digit(d as int)],
{
    proof {
        reveal_strlit("0");
        reveal_strlit("1");
        reveal_strlit("2");
        reveal_strlit("3");
        reveal_strlit("4");
        reveal_strlit("5");
        reveal_strlit("6");
        reveal_strlit("7");
        reveal_strlit("8");
        reveal_strlit("9");
    }
    let s = if d == 0 {
        "0"
    } else if d == 1 {
        "1"
    } else if d == 2 {
        "2"
    } else if d == 3 {
        "3"
    } else if d == 4 {
        "4"
    } else if d == 5 {
        "5"
    } else if d == 6 {
        "6"
    } else if d == 7 {
        "7"
    } else if d == 8 {
        "8"
    } else {
        "9"
    };
    assert(s@ =~= seq![digit(d as int)]);
    s
}

fn push_digits(out: &mut String, n: u64)
    ensures
        final(out)@ == old(out)@ + digits(n as nat),
    decreases n,
{
    if n >= 10 {
        push_digits(out, n / 10);
    }
    out.append(digit_str(n % 10));
    assert(final(out)@ =~= old(out)@ + digits(n as nat));
}

/// Appends `n` in decimal to `out`.
pub fn push_decimal(out: &mut String, n: i64)
    ensures
        final(out)@ == old(out)@ + decimal(n as int),
{
    if n < 0 {
        proof {
            reveal_strlit("-");
        }
        out.append("-");
        let magnitude: u64 = if n == i64::MIN {
            9223372036854775808u64
        } else {
            (-n) as u64
        };
        push_digits(out, magnitude);
        assert(final(out)@ =~= old(out)@ + decimal(n as int));
    } else {
        push_digits(out, n as u64);
    }
}

/// The digits of a number are at least one, and none of them is a sign.
pub proof fn lemma_digits_are_digits(n: nat)
    ensures
        digits(n).len() >= 1,
        forall|i: int| 0 <= i < digits(n).len() ==> digits(n)[i] != '-',
    decreases n,
{
    if n >= 10 {
        lemma_digits_are_digits(n / 10);
    }
}

/// Two digits written alike are the same digit.
pub proof fn lemma_digit_decides_the_digit(d: int, e: int)
    requires
        0 <= d < 10,
        0 <= e < 10,
        digit(d) == digit(e),
    ensures
        d == e,
{
}

/// Two numbers with the same digits are the same number.
pub proof fn lemma_digits_decide_the_number(a: nat, b: nat)
    requires
        digits(a) == digits(b),
    ensures
        a == b,
    decreases a,
{
    lemma_digits_are_digits(a / 10);
    lemma_digits_are_digits(b / 10);
    if a >= 10 && b >= 10 {
        let x = digits(a / 10);
        let y = digits(b / 10);
        assert(x.push(digit((a % 10) as int)).drop_last() == x);
        assert(y.push(digit((b % 10) as int)).drop_last() == y);
        assert(x.push(digit((a % 10) as int)).last() == digit((a % 10) as int));
        assert(y.push(digit((b % 10) as int)).last() == digit((b % 10) as int));
        lemma_digits_decide_the_number(a / 10, b / 10);
        assert(digit((a % 10) as int) == digit((b % 10) as int));
        lemma_digit_decides_the_digit((a % 10) as int, (b % 10) as int);
        assert(a == 10 * (a / 10) + a % 10);
        assert(b == 10 * (b / 10) + b % 10);
    } else if a < 10 && b < 10 {
        assert(digits(a)[0] == digit(a as int));
        assert(digits(b)[0] == digit(b as int));
        lemma_digit_decides_the_digit(a as int, b as int);
    } else if a < 10 {
        assert(digits(a).len() == 1);
        assert(digits(b).len() == digits(b / 10).len() + 1);
    } else {
        assert(digits(b).len() == 1);
        assert(digits(a).len() == digits(a / 10).len() + 1);
    }
}

/// Two integers written alike in decimal are the same integer.
pub proof fn lemma_decimal_decides_the_number(a: int, b: int)
    requires
        decimal(a) == decimal(b),
    ensures
        a == b,
{
    if a < 0 {
        lemma_digits_are_digits((-a) as nat);
    } else {
        lemma_digits_are_digits(a as nat);
    }
    if b < 0 {
        lemma_digits_are_digits((-b) as nat);
    } else {
        lemma_digits_are_digits(b as nat);
    }
    assert(decimal(a)[0] == decimal(b)[0]);
    if a < 0 {
        assert(decimal(a)[0] == '-');
        assert(b < 0);
        let x = digits((-a) as nat);
        let y = digits((-b) as nat);
        let written = decimal(a);
        assert(written == seq!['-'] + x);
        assert(written == seq!['-'] + y);
        assert(written.subrange(1, written.len() as int) == x);
        assert(written.subrange(1, written.len() as int) == y);
        lemma_digits_decide_the_number((-a) as nat, (-b) as nat);
    } else {
        assert(decimal(a)[0] != '-');
        assert(b < 0 ==> decimal(b)[0] == '-');
        lemma_digits_decide_the_number(a as nat, b as nat);
    }
}

} // verus!
