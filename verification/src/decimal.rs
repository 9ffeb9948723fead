//! Integers written in decimal.

use vstd::prelude::*;
use vstd::string::StringExecFns;

verus! {

/// The character of one decimal digit.
pub open spec fn digit(d: int) -> char
    recommends
        0 <= d < 10,
{
    if d == 0 {
        '0'
    } else if d == 1 {
        '1'
    } else if d == 2 {
        '2'
    } else if d == 3 {
        '3'
    } else if d == 4 {
        '4'
    } else if d == 5 {
        '5'
    } else if d == 6 {
        '6'
    } else if d == 7 {
        '7'
    } else if d == 8 {
        '8'
    } else {
        '9'
    }
}

/// The digits of a natural number, most significant first, without leading
/// zeros; zero is written `0`.
pub open spec fn digits(n: nat) -> Seq<char>
    decreases n,
{
    if n < 10 {
        seq![digit(n as int)]
    } else {
        digits(n / 10).push(digit((n % 10) as int))
    }
}

/// An integer in decimal, with a minus sign in front of a negative one.
pub open spec fn decimal(v: int) -> Seq<char> {
    if v < 0 {
        seq!['-'] + digits((-v) as nat)
    } else {
        digits(v as nat)
    }
}

/// Whether a character is one of the ten digits.
pub open spec fn is_digit(c: char) -> bool {
    exists|d: int| 0 <= d < 10 && c == #[trigger] digit(d)
}

/// The number that a digit stands for.
pub open spec fn digit_value(c: char) -> int {
    choose|d: int| 0 <= d < 10 && c == #[trigger] digit(d)
}

/// The number that a sequence of digits stands for, read as decimal.
pub open spec fn number(s: Seq<char>) -> int
    decreases s.len(),
{
    if s.len() == 0 {
        0
    } else {
        10 * number(s.drop_last()) + digit_value(s.last())
    }
}

/// `digits(n)` is the decimal notation of `n`: it holds digits only, at least
/// one, starts with `0` only for zero itself, and read as decimal it gives `n`
/// back.
pub proof fn lemma_digits_denote(n: nat)
    ensures
        digits(n).len() >= 1,
        forall|i: int| 0 <= i < digits(n).len() ==> is_digit(#[trigger] digits(n)[i]),
        digits(n)[0] == '0' <==> n == 0,
        number(digits(n)) == n,
    decreases n,
{
    if n < 10 {
        assert(number(digits(n)) == 10 * number(digits(n).drop_last()) + digit_value(
            digits(n).last(),
        ));
    } else {
        lemma_digits_denote(n / 10);
        assert(digits(n).drop_last() =~= digits(n / 10));
    }
}

/// `decimal(v)` is not empty, it starts with a minus sign exactly if `v` is
/// negative, and every other character of it is a digit.
pub proof fn lemma_decimal_chars(v: int)
    ensures
        decimal(v).len() >= 1,
        decimal(v)[0] == '-' <==> v < 0,
        forall|i: int|
            0 <= i < decimal(v).len() ==> is_digit(#[trigger] decimal(v)[i]) || (i == 0 && v < 0),
{
    if v < 0 {
        lemma_digits_denote((-v) as nat);
    } else {
        lemma_digits_denote(v as nat);
    }
}

/// Integers that are written alike are equal.
pub proof fn lemma_decimal_injective(a: int, b: int)
    requires
        decimal(a) == decimal(b),
    ensures
        a == b,
{
    lemma_decimal_chars(a);
    lemma_decimal_chars(b);
    if a < 0 {
        let da = digits((-a) as nat);
        let db = digits((-b) as nat);
        assert(da =~= decimal(a).subrange(1, decimal(a).len() as int));
        assert(db =~= decimal(b).subrange(1, decimal(b).len() as int));
        lemma_digits_denote((-a) as nat);
        lemma_digits_denote((-b) as nat);
    } else {
        lemma_digits_denote(a as nat);
        lemma_digits_denote(b as nat);
    }
}

fn digit_str(d: u64) -> (s: &'static str)
    requires
        d < 10,
    ensures
        s@ == seq![digit(d as int)],
{
    proof {
        reveal_strlit("0");
        reveal_strlit("1");
        reveal_strlit("2");
        reveal_strlit("3");
        reveal_strlit("4");
        reveal_strlit("5");
        reveal_strlit("6");
        reveal_strlit("7");
        reveal_strlit("8");
        reveal_strlit("9");
    }
    let s = if d == 0 {
        "0"
    } else if d == 1 {
        "1"
    } else if d == 2 {
        "2"
    } else if d == 3 {
        "3"
    } else if d == 4 {
        "4"
    } else if d == 5 {
        "5"
    } else if d == 6 {
        "6"
    } else if d == 7 {
        "7"
    } else if d == 8 {
        "8"
    } else {
        "9"
    };
    s
}

/// Appends the digits of `n` to `out`.
pub fn push_digits(out: &mut String, n: u64)
    ensures
        final(out)@ == old(out)@ + digits(n as nat),
    decreases n,
{
    if n >= 10 {
        push_digits(out, n / 10);
    }
    out.append(digit_str(n % 10));
}

/// Appends `v` in decimal to `out`.
pub fn push_decimal(out: &mut String, v: i32)
    ensures
        final(out)@ == old(out)@ + decimal(v as int),
{
    if v < 0 {
        proof {
            reveal_strlit("-");
        }
        out.append("-");
        let magnitude: u64 = (-(v as i64)) as u64;
        push_digits(out, magnitude);
    } else {
        push_digits(out, v as u64);
    }
}

} // verus!
