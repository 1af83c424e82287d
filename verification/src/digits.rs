//! Decimal rendering of unsigned integers as character sequences.
//!
//! The spec functions here define what a decimal rendering is: `dec_str`
//! gives the digits of a number at natural width, `zero_pad` left-pads
//! them with `'0'` up to a requested width, and `parse_dec` reads a digit
//! sequence back as a number. The executable functions build `String`s
//! whose views equal those sequences exactly.

use vstd::prelude::*;
use vstd::string::StringExecFns;

verus! {

/// The character for a single decimal digit.
pub open spec fn digit_char(d: nat) -> char {
    if d == 0 {
        '0'
    } else if d == 1 {
        '1'
    } else if d == 2 {
        '2'
    } else if d == 3 {
        '3'
    } else if d == 4 {
        '4'
    } else if d == 5 {
        '5'
    } else if d == 6 {
        '6'
    } else if d == 7 {
        '7'
    } else if d == 8 {
        '8'
    } else {
        '9'
    }
}

/// The numeric value of a decimal digit character.
pub open spec fn digit_val(c: char) -> nat {
    if c == '0' {
        0
    } else if c == '1' {
        1
    } else if c == '2' {
        2
    } else if c == '3' {
        3
    } else if c == '4' {
        4
    } else if c == '5' {
        5
    } else if c == '6' {
        6
    } else if c == '7' {
        7
    } else if c == '8' {
        8
    } else {
        9
    }
}

/// Whether a character is a decimal digit.
pub open spec fn is_digit(c: char) -> bool {
    c == '0' || c == '1' || c == '2' || c == '3' || c == '4' || c == '5' || c == '6' || c == '7'
        || c == '8' || c == '9'
}

/// The decimal digits of `n` at natural width (no leading zeros except
/// for `n == 0`, which is the single digit `'0'`).
pub open spec fn dec_str(n: nat) -> Seq<char>
    decreases n,
{
    if n < 10 {
        seq![digit_char(n)]
    } else {
        dec_str(n / 10).push(digit_char(n % 10))
    }
}

/// The decimal digits of `n`, left-padded with `'0'` to width `w`; the
/// natural-width digits when they already fill `w` characters.
pub open spec fn zero_pad(n: nat, w: nat) -> Seq<char> {
    if dec_str(n).len() >= w {
        dec_str(n)
    } else {
        Seq::new((w - dec_str(n).len()) as nat, |i: int| '0') + dec_str(n)
    }
}

/// The number a digit sequence denotes, read most significant first.
pub open spec fn parse_dec(s: Seq<char>) -> nat
    decreases s.len(),
{
    if s.len() == 0 {
        0
    } else {
        parse_dec(s.drop_last()) * 10 + digit_val(s.last())
    }
}

/// The power `10^w`.
pub open spec fn pow10(w: nat) -> nat
    decreases w,
{
    if w == 0 {
        1
    } else {
        10 * pow10((w - 1) as nat)
    }
}

/// A decimal rendering is never empty.
pub proof fn lemma_dec_str_len_pos(n: nat)
    ensures
        dec_str(n).len() >= 1,
{
    if n < 10 {
        assert(dec_str(n).len() == 1);
    } else {
        assert(dec_str(n) == dec_str(n / 10).push(digit_char(n % 10)));
    }
}

/// A number below `10^w` needs at most `w` digits.
pub proof fn lemma_dec_str_len_le(n: nat, w: nat)
    requires
        1 <= w,
        n < pow10(w),
    ensures
        1 <= dec_str(n).len() <= w,
    decreases w,
{
    lemma_dec_str_len_pos(n);
    if n >= 10 {
        assert(pow10(w) == 10 * pow10((w - 1) as nat));
        assert(w >= 2) by {
            if w == 1 {
                assert(pow10(0nat) == 1);
            }
        }
        assert(n / 10 < pow10((w - 1) as nat)) by (nonlinear_arith)
            requires
                n < 10 * pow10((w - 1) as nat),
        ;
        lemma_dec_str_len_le(n / 10, (w - 1) as nat);
        assert(dec_str(n) == dec_str(n / 10).push(digit_char(n % 10)));
    }
}

/// A number of at least `10^(w-1)` needs at least `w` digits.
pub proof fn lemma_dec_str_len_ge(n: nat, w: nat)
    requires
        1 <= w,
        n >= pow10((w - 1) as nat),
    ensures
        dec_str(n).len() >= w,
    decreases w,
{
    lemma_dec_str_len_pos(n);
    if w >= 2 {
        assert(pow10((w - 1) as nat) == 10 * pow10((w - 2) as nat));
        assert(pow10((w - 2) as nat) >= 1) by {
            lemma_pow10_pos((w - 2) as nat);
        }
        assert(n >= 10);
        assert(n / 10 >= pow10((w - 2) as nat)) by (nonlinear_arith)
            requires
                n >= 10 * pow10((w - 2) as nat),
        ;
        lemma_dec_str_len_ge(n / 10, (w - 1) as nat);
        assert(dec_str(n) == dec_str(n / 10).push(digit_char(n % 10)));
    }
}

/// Powers of ten are positive.
pub proof fn lemma_pow10_pos(w: nat)
    ensures
        pow10(w) >= 1,
    decreases w,
{
    if w > 0 {
        lemma_pow10_pos((w - 1) as nat);
    }
}

/// A padded rendering of a number below `10^w` is exactly `w` characters.
pub proof fn lemma_zero_pad_len(n: nat, w: nat)
    requires
        1 <= w,
        n < pow10(w),
    ensures
        zero_pad(n, w).len() == w,
{
    lemma_dec_str_len_le(n, w);
}

/// Every character of a decimal rendering is a digit.
pub proof fn lemma_dec_str_digits(n: nat)
    ensures
        forall|i: int| 0 <= i < dec_str(n).len() ==> is_digit(#[trigger] dec_str(n)[i]),
    decreases n,
{
    if n >= 10 {
        lemma_dec_str_digits(n / 10);
        assert(dec_str(n) == dec_str(n / 10).push(digit_char(n % 10)));
    }
}

/// Every character of a padded rendering is a digit.
pub proof fn lemma_zero_pad_digits(n: nat, w: nat)
    ensures
        forall|i: int| 0 <= i < zero_pad(n, w).len() ==> is_digit(#[trigger] zero_pad(n, w)[i]),
{
    lemma_dec_str_digits(n);
}

/// Reading the digits of `n` back yields `n`.
pub proof fn lemma_parse_dec_str(n: nat)
    ensures
        parse_dec(dec_str(n)) == n,
    decreases n,
{
    if n < 10 {
        let s = dec_str(n);
        assert(s.drop_last() =~= Seq::<char>::empty());
        assert(parse_dec(s) == parse_dec(s.drop_last()) * 10 + digit_val(s.last()));
    } else {
        lemma_parse_dec_str(n / 10);
        let s = dec_str(n);
        assert(s == dec_str(n / 10).push(digit_char(n % 10)));
        assert(s.drop_last() =~= dec_str(n / 10));
        assert(s.last() == digit_char(n % 10));
        assert(digit_val(digit_char(n % 10)) == n % 10);
        assert(parse_dec(s) == (n / 10) * 10 + n % 10);
        assert((n / 10) * 10 + n % 10 == n) by (nonlinear_arith);
    }
}

/// A sequence of zero digits denotes zero.
pub proof fn lemma_parse_dec_zeros(k: nat)
    ensures
        parse_dec(Seq::new(k, |i: int| '0')) == 0,
    decreases k,
{
    let z = Seq::new(k, |i: int| '0');
    if k > 0 {
        assert(z.drop_last() =~= Seq::new((k - 1) as nat, |i: int| '0'));
        assert(z.last() == '0');
        lemma_parse_dec_zeros((k - 1) as nat);
    }
}

/// Leading zeros do not change the number a digit sequence denotes.
pub proof fn lemma_parse_dec_leading_zeros(k: nat, s: Seq<char>)
    ensures
        parse_dec(Seq::new(k, |i: int| '0') + s) == parse_dec(s),
    decreases s.len(),
{
    let z = Seq::new(k, |i: int| '0');
    if s.len() == 0 {
        assert(z + s =~= z);
        lemma_parse_dec_zeros(k);
    } else {
        assert((z + s).drop_last() =~= z + s.drop_last());
        assert((z + s).last() == s.last());
        lemma_parse_dec_leading_zeros(k, s.drop_last());
    }
}

/// Reading a padded rendering of `n` back yields `n`.
pub proof fn lemma_parse_zero_pad(n: nat, w: nat)
    ensures
        parse_dec(zero_pad(n, w)) == n,
{
    lemma_parse_dec_str(n);
    if dec_str(n).len() < w {
        lemma_parse_dec_leading_zeros((w - dec_str(n).len()) as nat, dec_str(n));
    }
}

/// Any `u64` needs at most 20 digits.
proof fn lemma_dec_str_len_le_20(n: u64)
    ensures
        dec_str(n as nat).len() <= 20,
{
    reveal_with_fuel(pow10, 21);
    assert(pow10(20nat) == 100_000_000_000_000_000_000);
    lemma_dec_str_len_le(n as nat, 20);
}

/// The one-character string for a decimal digit.
fn digit_str(d: u64) -> (r: &'static str)
    requires
        d < 10,
    ensures
        r@ =~= seq![digit_char(d as nat)],
{
    proof {
        reveal_strlit("0");
        reveal_strlit("1");
        reveal_strlit("2");
        reveal_strlit("3");
        reveal_strlit("4");
        reveal_strlit("5");
        reveal_strlit("6");
        reveal_strlit("7");
        reveal_strlit("8");
        reveal_strlit("9");
    }
    match d {
        0 => "0",
        1 => "1",
        2 => "2",
        3 => "3",
        4 => "4",
        5 => "5",
        6 => "6",
        7 => "7",
        8 => "8",
        _ => "9",
    }
}

/// Appends the natural-width decimal digits of `n` to `s`.
pub fn push_dec(s: &mut String, n: u64)
    ensures
        final(s)@ == old(s)@ + dec_str(n as nat),
    decreases n,
{
    if n < 10 {
        s.append(digit_str(n));
        assert(s@ =~= old(s)@ + dec_str(n as nat));
    } else {
        push_dec(s, n / 10);
        s.append(digit_str(n % 10));
        assert(s@ =~= old(s)@ + dec_str(n as nat));
    }
}

/// The number of characters in the natural-width rendering of `n`.
fn dec_len(n: u64) -> (r: usize)
    ensures
        r == dec_str(n as nat).len(),
{
    proof {
        lemma_dec_str_len_le_20(n);
    }
    let mut count: usize = 1;
    let mut m: u64 = n;
    while m >= 10
        invariant
            dec_str(n as nat).len() == count + dec_str(m as nat).len() - 1,
            dec_str(m as nat).len() >= 1,
            dec_str(n as nat).len() <= 20,
        decreases m,
    {
        assert(dec_str(m as nat) == dec_str(m as nat / 10).push(digit_char(m as nat % 10)));
        proof {
            lemma_dec_str_len_pos(m as nat / 10);
        }
        m = m / 10;
        count = count + 1;
    }
    assert(dec_str(m as nat).len() == 1);
    count
}

/// Appends the decimal digits of `n`, left-padded with `'0'` to width
/// `w`, to `s`.
pub fn push_zero_pad(s: &mut String, n: u64, w: usize)
    ensures
        final(s)@ == old(s)@ + zero_pad(n as nat, w as nat),
{
    proof {
        reveal_strlit("0");
    }
    let len = dec_len(n);
    let mut i: usize = len;
    while i < w
        invariant
            len <= i,
            i <= w || i == len,
            len == dec_str(n as nat).len(),
            s@ == old(s)@ + Seq::new((i - len) as nat, |j: int| '0'),
        decreases w - i,
    {
        s.append("0");
        proof {
            reveal_strlit("0");
            assert("0"@ =~= seq!['0']);
            assert(old(s)@ + Seq::new((i - len) as nat, |j: int| '0') + seq!['0'] =~= old(s)@
                + Seq::new((i + 1 - len) as nat, |j: int| '0'));
        }
        i = i + 1;
    }
    push_dec(s, n);
    proof {
        if dec_str(n as nat).len() >= w {
            assert(i == len);
            assert(Seq::new(0nat, |j: int| '0') =~= Seq::<char>::empty());
            assert(s@ =~= old(s)@ + zero_pad(n as nat, w as nat));
        } else {
            assert(i == w);
            assert(old(s)@ + Seq::new((w - len) as nat, |j: int| '0') + dec_str(n as nat) =~= old(
                s,
            )@ + (Seq::new((w - len) as nat, |j: int| '0') + dec_str(n as nat)));
            assert(s@ =~= old(s)@ + zero_pad(n as nat, w as nat));
        }
    }
}

/// The natural-width decimal rendering of `n` as a fresh string.
pub fn dec_string(n: u64) -> (r: String)
    ensures
        r@ == dec_str(n as nat),
{
    let mut s = String::new();
    push_dec(&mut s, n);
    assert(s@ =~= dec_str(n as nat));
    s
}

/// The decimal rendering of `n`, zero-padded to width `w`, as a fresh
/// string.
pub fn zero_pad_string(n: u64, w: usize) -> (r: String)
    ensures
        r@ == zero_pad(n as nat, w as nat),
{
    let mut s = String::new();
    push_zero_pad(&mut s, n, w);
    assert(s@ =~= zero_pad(n as nat, w as nat));
    s
}

} // verus!
