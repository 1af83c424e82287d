//! Proved properties that relate the decomposition and the renderings.

use vstd::prelude::*;
use vstd::arithmetic::div_mod::{lemma_fundamental_div_mod, lemma_div_denominator};
use crate::digits::{
    dec_str, parse_dec, pow10, is_digit, lemma_dec_str_digits, lemma_zero_pad_digits,
    lemma_zero_pad_len, lemma_dec_str_len_ge, lemma_dec_str_len_pos, lemma_parse_zero_pad,
};
use crate::duration::Duration;
use crate::fracts::FractPartOfDuration;

verus! {

/// Whether a character sequence contains no minus sign.
pub open spec fn no_minus(s: Seq<char>) -> bool {
    forall|i: int| 0 <= i < s.len() ==> s[i] != '-'
}

/// The powers of ten that bound the rendered field widths.
proof fn lemma_pow10_vals()
    ensures
        pow10(2) == 100,
        pow10(3) == 1000,
        pow10(6) == 1_000_000,
        pow10(9) == 1_000_000_000,
{
    reveal_with_fuel(pow10, 11);
}

/// Round-trip magnitude invariant: the bounded fields of the
/// decomposition, reassembled at their scales, give back the magnitude
/// of the span exactly — no information is lost.
pub proof fn lemma_round_trip(d: Duration)
    requires
        d.wf(),
    ensures
        (d.spec_hours() * 3600 + d.spec_minutes() * 60 + d.spec_seconds()) * 1_000_000_000
            + d.spec_millis() * 1_000_000 + d.spec_micros() * 1_000 + d.spec_nanos()
            == d.abs_nanos(),
{
    let s = d.secs as int;
    lemma_fundamental_div_mod(s, 60);
    lemma_fundamental_div_mod(s / 60, 60);
    lemma_div_denominator(s, 60, 60);
    assert(s == (s / 3600) * 3600 + ((s / 60) % 60) * 60 + s % 60);
    let n = d.subsec_nanos as int;
    lemma_fundamental_div_mod(n, 1000);
    lemma_fundamental_div_mod(n / 1000, 1000);
    lemma_div_denominator(n, 1000, 1000);
    assert(n == (n / 1_000_000) * 1_000_000 + ((n / 1000) % 1000) * 1000 + n % 1000);
}

/// Sign isolation: the sign of a span appears in exactly one place.
/// The magnitude-only renderings never contain a minus sign; a signed
/// rendering starts with one exactly when the sign flag is set, and
/// carries none beyond its first character; the adaptive rendering
/// contains one exactly when the flag is set.
pub proof fn lemma_sign_isolation(d: Duration)
    requires
        d.wf(),
    ensures
        no_minus(d.spec_unsigned_hhmmss()),
        no_minus(d.spec_unsigned_hmmss()),
        no_minus(d.spec_unsigned_mmss()),
        no_minus(d.spec_unsigned_mss()),
        no_minus(d.spec_fract(FractPartOfDuration::Milliseconds)),
        no_minus(d.spec_fract(FractPartOfDuration::Microseconds)),
        no_minus(d.spec_fract(FractPartOfDuration::Nanoseconds)),
        d.negative <==> (d.spec_sign() + d.spec_unsigned_hhmmss())[0] == '-',
        d.negative <==> (d.spec_sign() + d.spec_unsigned_hmmss())[0] == '-',
        d.negative <==> (d.spec_sign() + d.spec_unsigned_mmss())[0] == '-',
        d.negative <==> (d.spec_sign() + d.spec_unsigned_mss())[0] == '-',
        no_minus((d.spec_sign() + d.spec_unsigned_hhmmss()).skip(1)),
        no_minus((d.spec_sign() + d.spec_unsigned_hmmss()).skip(1)),
        no_minus((d.spec_sign() + d.spec_unsigned_mmss()).skip(1)),
        no_minus((d.spec_sign() + d.spec_unsigned_mss()).skip(1)),
        d.negative <==> !no_minus(d.spec_smart()),
{
    lemma_no_minus_fields(d);
    lemma_pow10_vals();
    lemma_zero_pad_len(d.spec_minutes() as nat, 2);
    lemma_dec_str_len_pos(d.spec_hours() as nat);
    lemma_dec_str_len_pos(d.spec_minutes() as nat);
    lemma_one_signed_layout(d, d.spec_unsigned_hhmmss());
    lemma_one_signed_layout(d, d.spec_unsigned_hmmss());
    lemma_one_signed_layout(d, d.spec_unsigned_mmss());
    lemma_one_signed_layout(d, d.spec_unsigned_mss());
    lemma_smart_minus(d);
}

/// A signed rendering of a non-empty minus-free body starts with `'-'`
/// exactly when the sign flag is set, and carries no minus beyond its
/// first character.
proof fn lemma_one_signed_layout(d: Duration, body: Seq<char>)
    requires
        body.len() > 0,
        no_minus(body),
    ensures
        d.negative <==> (d.spec_sign() + body)[0] == '-',
        no_minus((d.spec_sign() + body).skip(1)),
{
    let signed = d.spec_sign() + body;
    if d.negative {
        assert(signed[0] == '-');
        assert(no_minus(signed.skip(1))) by {
            assert(forall|i: int|
                0 <= i < signed.skip(1).len() ==> signed.skip(1)[i] == body[i]);
        }
    } else {
        assert(signed =~= body);
        assert(signed[0] != '-');
        assert(no_minus(signed.skip(1))) by {
            assert(forall|i: int|
                0 <= i < signed.skip(1).len() ==> signed.skip(1)[i] == body[i + 1]);
        }
    }
}

/// The decomposition fields never render a minus sign.
proof fn lemma_no_minus_fields(d: Duration)
    ensures
        no_minus(d.spec_unsigned_hh()),
        no_minus(d.spec_unsigned_mm()),
        no_minus(d.spec_unsigned_ss()),
        no_minus(d.spec_unsigned_xxx()),
        no_minus(dec_str(d.spec_hours() as nat)),
        no_minus(dec_str(d.spec_minutes() as nat)),
        no_minus(dec_str(d.secs as nat)),
        no_minus(d.spec_fract(FractPartOfDuration::Milliseconds)),
        no_minus(d.spec_fract(FractPartOfDuration::Microseconds)),
        no_minus(d.spec_fract(FractPartOfDuration::Nanoseconds)),
        no_minus(d.spec_unsigned_hhmmss()),
        no_minus(d.spec_unsigned_hmmss()),
        no_minus(d.spec_unsigned_mmss()),
        no_minus(d.spec_unsigned_mss()),
        no_minus(d.spec_unsigned_mmss_and_fract(FractPartOfDuration::Milliseconds)),
        no_minus(d.spec_unsigned_mss_and_fract(FractPartOfDuration::Milliseconds)),
        no_minus(d.spec_unsigned_hmmss_and_fract(FractPartOfDuration::Milliseconds)),
{
    lemma_zero_pad_digits(d.spec_hours() as nat, 2);
    lemma_zero_pad_digits(d.spec_minutes() as nat, 2);
    lemma_zero_pad_digits(d.spec_seconds() as nat, 2);
    lemma_zero_pad_digits(d.spec_millis() as nat, 3);
    lemma_zero_pad_digits((d.subsec_nanos / 1_000_000) as nat, 3);
    lemma_zero_pad_digits((d.subsec_nanos / 1_000) as nat, 6);
    lemma_zero_pad_digits(d.subsec_nanos as nat, 9);
    lemma_dec_str_digits(d.spec_hours() as nat);
    lemma_dec_str_digits(d.spec_minutes() as nat);
    lemma_dec_str_digits(d.secs as nat);
    assert(forall|c: char| is_digit(c) ==> c != '-');
}

/// The adaptive rendering contains a minus sign exactly when the span
/// is negative.
proof fn lemma_smart_minus(d: Duration)
    requires
        d.wf(),
    ensures
        d.negative <==> !no_minus(d.spec_smart()),
{
    lemma_no_minus_fields(d);
    let body = d.spec_smart_body();
    assert(d.negative <==> !no_minus(body)) by {
        if d.secs == 0 && d.subsec_nanos == 0 {
            assert(!d.negative);
            assert(no_minus(body));
        } else if d.negative {
            assert(body[0] == '-');
            assert(!no_minus(body));
        } else {
            assert(d.spec_sign() =~= Seq::<char>::empty());
            assert(no_minus(body));
        }
    }
    if d.subsec_nanos % 1_000_000 != 0 {
        let about = seq!['a', 'b', 'o', 'u', 't', ' '];
        assert(no_minus(about));
        assert(d.spec_smart() == about + body);
        assert(forall|i: int|
            0 <= i < body.len() ==> (about + body)[i + about.len()] == body[i]);
        assert(!no_minus(body) ==> !no_minus(about + body));
        assert(no_minus(body) ==> no_minus(about + body));
    }
}

/// Padding invariant: the minutes, seconds, and milliseconds fields are
/// always exactly two, two, and three characters, whatever the
/// magnitude; the hours field is exactly two characters exactly as long
/// as the hours part fits in two digits.
pub proof fn lemma_padding(d: Duration)
    requires
        d.wf(),
    ensures
        d.spec_unsigned_mm().len() == 2,
        d.spec_unsigned_ss().len() == 2,
        d.spec_unsigned_xxx().len() == 3,
        d.spec_hours() < 100 <==> d.spec_unsigned_hh().len() == 2,
        d.spec_hours() >= 100 ==> d.spec_unsigned_hh().len() >= 3,
{
    lemma_pow10_vals();
    lemma_zero_pad_len(d.spec_minutes() as nat, 2);
    lemma_zero_pad_len(d.spec_seconds() as nat, 2);
    lemma_zero_pad_len(d.spec_millis() as nat, 3);
    if d.spec_hours() < 100 {
        lemma_zero_pad_len(d.spec_hours() as nat, 2);
    } else {
        lemma_dec_str_len_ge(d.spec_hours() as nat, 3);
    }
}

/// Exactness of fractional digit rendering: at each precision the
/// rendering has exactly the precision's number of digits, and reading
/// it back as a number gives the truncated sub-second magnitude at that
/// scale — millisecond and microsecond digits are the nanosecond count
/// divided down, nanosecond digits are the count itself.
pub proof fn lemma_fract_exact(d: Duration)
    requires
        d.wf(),
    ensures
        d.spec_fract(FractPartOfDuration::Milliseconds).len() == 3,
        d.spec_fract(FractPartOfDuration::Microseconds).len() == 6,
        d.spec_fract(FractPartOfDuration::Nanoseconds).len() == 9,
        parse_dec(d.spec_fract(FractPartOfDuration::Milliseconds)) == d.subsec_nanos / 1_000_000,
        parse_dec(d.spec_fract(FractPartOfDuration::Microseconds)) == d.subsec_nanos / 1_000,
        parse_dec(d.spec_fract(FractPartOfDuration::Nanoseconds)) == d.subsec_nanos,
{
    lemma_pow10_vals();
    lemma_zero_pad_len((d.subsec_nanos / 1_000_000) as nat, 3);
    lemma_zero_pad_len((d.subsec_nanos / 1_000) as nat, 6);
    lemma_zero_pad_len(d.subsec_nanos as nat, 9);
    lemma_parse_zero_pad((d.subsec_nanos / 1_000_000) as nat, 3);
    lemma_parse_zero_pad((d.subsec_nanos / 1_000) as nat, 6);
    lemma_parse_zero_pad(d.subsec_nanos as nat, 9);
}

} // verus!
