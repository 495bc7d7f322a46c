//! Writing numbers as text, in the forms the kernel's messages use:
//! decimal, zero-padded hexadecimal and binary.

use vstd::prelude::*;

verus! {

/// The character of the digit `d` (0 to 15); digits past 9 are lower-case
/// letters.
pub open spec fn digit_char(d: nat) -> char {
    if d == 0 { '0' }
    else if d == 1 { '1' }
    else if d == 2 { '2' }
    else if d == 3 { '3' }
    else if d == 4 { '4' }
    else if d == 5 { '5' }
    else if d == 6 { '6' }
    else if d == 7 { '7' }
    else if d == 8 { '8' }
    else if d == 9 { '9' }
    else if d == 10 { 'a' }
    else if d == 11 { 'b' }
    else if d == 12 { 'c' }
    else if d == 13 { 'd' }
    else if d == 14 { 'e' }
    else { 'f' }
}

/// The last `count` digits of `n` in base `base`, the most significant
/// first (with leading zeros where `n` has fewer digits).
pub open spec fn digits(n: nat, base: nat, count: nat) -> Seq<char>
    decreases count,
{
    if count == 0 {
        Seq::empty()
    } else {
        digits(n / base, base, (count - 1) as nat).push(digit_char(n % base))
    }
}

/// How many digits `n` has in base `base`: one for zero.
pub open spec fn digit_count(n: nat, base: nat) -> nat
    decreases n,
{
    if base < 2 || n < base {
        1
    } else {
        proof {
            assert(n / base < n) by (nonlinear_arith)
                requires base >= 2, n >= base;
        }
        1 + digit_count(n / base, base)
    }
}

/// `n` in base `base`, padded with zeros on the left to at least `width`
/// digits.
pub open spec fn padded_digits(n: nat, base: nat, width: nat) -> Seq<char> {
    digits(n, base, if width > digit_count(n, base) { width } else { digit_count(n, base) })
}

/// `n` in decimal, as `{}` writes it.
pub open spec fn decimal_chars(n: nat) -> Seq<char> {
    padded_digits(n, 10, 0)
}

/// `n` in hexadecimal after `0x`, as `{:#x}` writes it.
pub open spec fn hex_prefixed_chars(n: nat) -> Seq<char> {
    seq!['0', 'x'] + padded_digits(n, 16, 0)
}

/// `b` as `{}` writes it.
pub open spec fn bool_chars(b: bool) -> Seq<char> {
    if b { seq!['t', 'r', 'u', 'e'] } else { seq!['f', 'a', 'l', 's', 'e'] }
}

/// A number has no more digits than its value plus one.
proof fn lemma_digit_count_bound(n: nat, base: nat)
    requires
        base >= 2,
    ensures
        1 <= digit_count(n, base) <= n + 1,
    decreases n,
{
    if n >= base {
        assert(n / base < n) by (nonlinear_arith)
            requires base >= 2, n >= base;
        lemma_digit_count_bound(n / base, base);
    }
}

/// `digits` gives exactly `count` characters.
proof fn lemma_digits_len(n: nat, base: nat, count: nat)
    requires
        base >= 2,
    ensures
        digits(n, base, count).len() == count,
    decreases count,
{
    if count > 0 {
        lemma_digits_len(n / base, base, (count - 1) as nat);
    }
}

/// A number of two or more decimal digits is the text of its tenth
/// followed by its last digit.
proof fn lemma_decimal_step(n: nat)
    requires
        n >= 10,
    ensures
        decimal_chars(n) == decimal_chars(n / 10).push(digit_char(n % 10)),
{
    assert(digit_count(n, 10) == 1 + digit_count(n / 10, 10));
}

/// Different numbers have different decimal texts.
pub proof fn lemma_decimal_injective(a: nat, b: nat)
    requires
        decimal_chars(a) == decimal_chars(b),
    ensures
        a == b,
    decreases a,
{
    lemma_digits_len(a, 10, digit_count(a, 10));
    lemma_digits_len(b, 10, digit_count(b, 10));
    if a < 10 && b < 10 {
        assert(digit_count(a, 10) == 1);
        assert(digit_count(b, 10) == 1);
        assert(decimal_chars(a) =~= seq![digit_char(a)]);
        assert(decimal_chars(b) =~= seq![digit_char(b)]);
        assert(decimal_chars(a)[0] == digit_char(a));
        assert(decimal_chars(b)[0] == digit_char(b));
    } else if a >= 10 && b >= 10 {
        lemma_decimal_step(a);
        lemma_decimal_step(b);
        lemma_digits_len(a / 10, 10, digit_count(a / 10, 10));
        lemma_digits_len(b / 10, 10, digit_count(b / 10, 10));
        let sa = decimal_chars(a);
        let sb = decimal_chars(b);
        assert(sa.last() == digit_char(a % 10));
        assert(sb.last() == digit_char(b % 10));
        assert(sa.drop_last() =~= decimal_chars(a / 10));
        assert(sb.drop_last() =~= decimal_chars(b / 10));
        lemma_decimal_injective(a / 10, b / 10);
    } else {
        lemma_digit_count_bound(a / 10, 10);
        lemma_digit_count_bound(b / 10, 10);
    }
}

/// The one-character text of the digit `d`.
fn digit_str(d: u64) -> (r: &'static str)
    requires
        d < 16,
    ensures
        r@ == seq![digit_char(d as nat)],
{
    if d == 0 { proof { reveal_strlit("0"); } "0" }
    else if d == 1 { proof { reveal_strlit("1"); } "1" }
    else if d == 2 { proof { reveal_strlit("2"); } "2" }
    else if d == 3 { proof { reveal_strlit("3"); } "3" }
    else if d == 4 { proof { reveal_strlit("4"); } "4" }
    else if d == 5 { proof { reveal_strlit("5"); } "5" }
    else if d == 6 { proof { reveal_strlit("6"); } "6" }
    else if d == 7 { proof { reveal_strlit("7"); } "7" }
    else if d == 8 { proof { reveal_strlit("8"); } "8" }
    else if d == 9 { proof { reveal_strlit("9"); } "9" }
    else if d == 10 { proof { reveal_strlit("a"); } "a" }
    else if d == 11 { proof { reveal_strlit("b"); } "b" }
    else if d == 12 { proof { reveal_strlit("c"); } "c" }
    else if d == 13 { proof { reveal_strlit("d"); } "d" }
    else if d == 14 { proof { reveal_strlit("e"); } "e" }
    else { proof { reveal_strlit("f"); } "f" }
}

/// The number of digits of `n` in base `base`.
fn count_digits(n: u64, base: u64) -> (r: u64)
    requires
        2 <= base <= 16,
    ensures
        r == digit_count(n as nat, base as nat),
    decreases n,
{
    if n < base {
        1
    } else {
        proof {
            assert(n / base < n) by (nonlinear_arith)
                requires base >= 2, n >= base;
            assert(n / base <= n / 2) by (nonlinear_arith)
                requires base >= 2;
            lemma_digit_count_bound((n / base) as nat, base as nat);
        }
        1 + count_digits(n / base, base)
    }
}

/// Appends the last `count` digits of `n` in base `base` to `s`.
fn push_digits(s: &mut String, n: u64, base: u64, count: u64)
    requires
        2 <= base <= 16,
    ensures
        final(s)@ == old(s)@ + digits(n as nat, base as nat, count as nat),
    decreases count,
{
    if count > 0 {
        push_digits(s, n / base, base, count - 1);
        let d = digit_str(n % base);
        let ghost before = s@;
        s.append(d);
        proof {
            let rest = digits((n / base) as nat, base as nat, (count - 1) as nat);
            assert(before + seq![digit_char((n % base) as nat)] =~= old(s)@ + rest.push(digit_char((n % base) as nat)));
        }
    }
}

/// `n` in base `base` (2 to 16, lower-case letters), padded with zeros on
/// the left to at least `width` digits: `{:0width$x}` for base 16,
/// `{:0width$b}` for base 2, `{}` for base 10 and width 0.
pub fn format_padded(n: u64, base: u64, width: u64) -> (r: String)
    requires
        2 <= base <= 16,
    ensures
        r@ == padded_digits(n as nat, base as nat, width as nat),
{
    let count = count_digits(n, base);
    let total = if width > count { width } else { count };
    let mut s = String::new();
    push_digits(&mut s, n, base, total);
    proof {
        assert(s@ =~= padded_digits(n as nat, base as nat, width as nat));
    }
    s
}

/// `n` in decimal.
pub fn format_decimal(n: u64) -> (r: String)
    ensures
        r@ == decimal_chars(n as nat),
{
    format_padded(n, 10, 0)
}

/// `n` in hexadecimal after `0x`.
pub fn format_hex_prefixed(n: u64) -> (r: String)
    ensures
        r@ == hex_prefixed_chars(n as nat),
{
    let mut s = String::from_str("0x");
    proof {
        reveal_strlit("0x");
    }
    let digits = format_padded(n, 16, 0);
    let ghost before = s@;
    s.append(digits.as_str());
    proof {
        assert(s@ =~= hex_prefixed_chars(n as nat));
    }
    s
}

/// `b` as `true` or `false`.
pub fn format_bool(b: bool) -> (r: &'static str)
    ensures
        r@ == bool_chars(b),
{
    if b {
        proof {
            reveal_strlit("true");
        }
        "true"
    } else {
        proof {
            reveal_strlit("false");
        }
        "false"
    }
}

} // verus!
