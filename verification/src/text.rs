//! Decimal rendering of integers and small string helpers.

use vstd::prelude::*;
use vstd::string::*;

verus! {

/// The character of a decimal digit `d` (`0 <= d < 10`).
pub open spec fn digit_char(d: nat) -> char {
    (48 + d) as char
}

/// The decimal representation of `n`, most significant digit first, without
/// leading zeros (as `{}` formatting renders an unsigned integer).
pub open spec fn decimal(n: nat) -> Seq<char>
    decreases n,
{
    if n < 10 {
        seq![digit_char(n)]
    } else {
        decimal(n / 10) + seq![digit_char(n % 10)]
    }
}

/// Every decimal rendering is non-empty and made of digit characters.
pub proof fn lemma_decimal_digits(n: nat)
    ensures
        decimal(n).len() >= 1,
        forall|i: int| 0 <= i < decimal(n).len() ==> '0' <= #[trigger] decimal(n)[i] <= '9',
    decreases n,
{
    if n >= 10 {
        lemma_decimal_digits(n / 10);
    }
}

/// Different numbers have different decimal renderings.
pub proof fn lemma_decimal_injective(n: nat, m: nat)
    ensures
        decimal(n) == decimal(m) <==> n == m,
    decreases n + m,
{
    if decimal(n) == decimal(m) {
        lemma_decimal_digits(n);
        lemma_decimal_digits(m);
        if n >= 10 && m >= 10 {
            let a = decimal(n / 10);
            let b = decimal(m / 10);
            assert((a + seq![digit_char(n % 10)]).drop_last() =~= a);
            assert((b + seq![digit_char(m % 10)]).drop_last() =~= b);
            assert(decimal(n).last() == digit_char(n % 10));
            assert(decimal(m).last() == digit_char(m % 10));
            lemma_decimal_injective(n / 10, m / 10);
        } else if n >= 10 {
            lemma_decimal_digits(n / 10);
            assert(decimal(n).len() >= 2);
        } else if m >= 10 {
            lemma_decimal_digits(m / 10);
            assert(decimal(m).len() >= 2);
        } else {
            assert(decimal(n)[0] == decimal(m)[0]);
        }
    }
}

/// Ten to the power `k`.
pub open spec fn pow10(k: nat) -> nat
    decreases k,
{
    if k == 0 {
        1
    } else {
        10 * pow10((k - 1) as nat)
    }
}

/// The number that a string of decimal digits denotes, the first character
/// being the most significant digit.
pub open spec fn digits_value(s: Seq<char>) -> int
    decreases s.len(),
{
    if s.len() == 0 {
        0
    } else {
        (s[0] as int - 48) * pow10((s.len() - 1) as nat) + digits_value(s.drop_first())
    }
}

/// Appending a digit on the right multiplies the value by ten and adds it.
proof fn lemma_digits_value_push(s: Seq<char>, c: char)
    ensures
        digits_value(s.push(c)) == 10 * digits_value(s) + (c as int - 48),
    decreases s.len(),
{
    let t = s.push(c);
    if s.len() > 0 {
        assert(t.drop_first() =~= s.drop_first().push(c));
        lemma_digits_value_push(s.drop_first(), c);
        let k = (s.len() - 1) as nat;
        let d = s[0] as int - 48;
        assert(t[0] == s[0]);
        assert(pow10(k + 1) == 10 * pow10(k));
        assert(digits_value(t) == d * pow10(k + 1) + digits_value(s.drop_first().push(c)));
        assert(digits_value(s) == d * pow10(k) + digits_value(s.drop_first()));
        assert(d * (10 * pow10(k)) == 10 * (d * pow10(k))) by (nonlinear_arith);
        assert(digits_value(t) == 10 * digits_value(s) + (c as int - 48));
    } else {
        assert(t.drop_first() =~= Seq::<char>::empty());
        assert(t[0] == c);
        assert(digits_value(t) == (c as int - 48) * pow10(0) + digits_value(t.drop_first()));
        assert(digits_value(t.drop_first()) == 0);
        assert(pow10(0) == 1);
        assert((c as int - 48) * pow10(0) == c as int - 48) by (nonlinear_arith)
            requires
                pow10(0) == 1,
        ;
        assert(digits_value(s) == 0);
    }
}

/// The decimal rendering of `n` reads back as `n`, has no leading zero
/// (except for zero itself), and only digit characters.
pub proof fn lemma_decimal_reads_back(n: nat)
    ensures
        digits_value(decimal(n)) == n,
        decimal(n).len() >= 1,
        n > 0 ==> decimal(n)[0] != '0',
        n == 0 ==> decimal(n) == seq!['0'],
        forall|i: int| 0 <= i < decimal(n).len() ==> '0' <= #[trigger] decimal(n)[i] <= '9',
    decreases n,
{
    lemma_decimal_digits(n);
    assert(digit_char(n % 10) as int == 48 + n % 10);
    if n < 10 {
        let t = seq![digit_char(n)];
        assert(t.drop_first() =~= Seq::<char>::empty());
        assert(digits_value(t) == (t[0] as int - 48) * pow10(0) + digits_value(t.drop_first()));
        assert(pow10(0) == 1);
        assert((t[0] as int - 48) * pow10(0) == t[0] as int - 48) by (nonlinear_arith)
            requires
                pow10(0) == 1,
        ;
    } else {
        lemma_decimal_reads_back(n / 10);
        lemma_digits_value_push(decimal(n / 10), digit_char(n % 10));
        assert(decimal(n / 10) + seq![digit_char(n % 10)] == decimal(n / 10).push(digit_char(n % 10)));
    }
}

/// The one-character string of digit `d`.
fn digit_str(d: u32) -> (s: &'static str)
    requires
        d < 10,
    ensures
        s@ == seq![digit_char(d as nat)],
{
    proof {
        reveal_strlit("0");
        reveal_strlit("1");
        reveal_strlit("2");
        reveal_strlit("3");
        reveal_strlit("4");
        reveal_strlit("5");
        reveal_strlit("6");
        reveal_strlit("7");
        reveal_strlit("8");
        reveal_strlit("9");
    }
    match d {
        0 => "0",
        1 => "1",
        2 => "2",
        3 => "3",
        4 => "4",
        5 => "5",
        6 => "6",
        7 => "7",
        8 => "8",
        _ => "9",
    }
}

/// Renders `n` in decimal.
pub fn u32_to_decimal(n: u32) -> (s: String)
    ensures
        s@ == decimal(n as nat),
    decreases n,
{
    if n < 10 {
        String::from_str(digit_str(n))
    } else {
        let mut s = u32_to_decimal(n / 10);
        s.append(digit_str(n % 10));
        s
    }
}

} // verus!
