//! Rendering of durations in the fixed `HH:MM:SS`-style layouts and by
//! the adaptive formatter.
//!
//! Every method's contract pins the exact character sequence of its
//! result through a spec function of the same shape: zero-padded fields
//! joined by `':'`, a `'.'` before the fractional digits, a leading
//! `'-'` exactly when the span is negative, and for the adaptive
//! formatter an `"about "` prefix exactly when sub-millisecond magnitude
//! is discarded.

use vstd::prelude::*;
use vstd::string::StringExecFns;
use crate::digits::{dec_str, zero_pad, push_dec, push_zero_pad, zero_pad_string};
use crate::duration::Duration;
use crate::fracts::FractPartOfDuration;

verus! {

impl Duration {
    /// The sign prefix: `"-"` for negative spans, empty otherwise.
    pub open spec fn spec_sign(self) -> Seq<char> {
        if self.negative {
            seq!['-']
        } else {
            Seq::<char>::empty()
        }
    }

    /// The hours field, zero-padded to two digits.
    pub open spec fn spec_unsigned_hh(self) -> Seq<char> {
        zero_pad(self.spec_hours() as nat, 2)
    }

    /// The minutes field, zero-padded to two digits.
    pub open spec fn spec_unsigned_mm(self) -> Seq<char> {
        zero_pad(self.spec_minutes() as nat, 2)
    }

    /// The seconds field, zero-padded to two digits.
    pub open spec fn spec_unsigned_ss(self) -> Seq<char> {
        zero_pad(self.spec_seconds() as nat, 2)
    }

    /// The milliseconds field, zero-padded to three digits.
    pub open spec fn spec_unsigned_xxx(self) -> Seq<char> {
        zero_pad(self.spec_millis() as nat, 3)
    }

    /// The sub-second magnitude truncated to the digits of the given
    /// precision: 3, 6, or 9 digits.
    pub open spec fn spec_fract(self, p: FractPartOfDuration) -> Seq<char> {
        match p {
            FractPartOfDuration::Milliseconds => zero_pad((self.subsec_nanos / 1_000_000) as nat, 3),
            FractPartOfDuration::Microseconds => zero_pad((self.subsec_nanos / 1_000) as nat, 6),
            FractPartOfDuration::Nanoseconds => zero_pad(self.subsec_nanos as nat, 9),
        }
    }

    /// `MM:SS`, magnitude only.
    pub open spec fn spec_unsigned_mmss(self) -> Seq<char> {
        self.spec_unsigned_mm() + seq![':'] + self.spec_unsigned_ss()
    }

    /// `MM:SS` with fractional digits, magnitude only.
    pub open spec fn spec_unsigned_mmss_and_fract(self, p: FractPartOfDuration) -> Seq<char> {
        self.spec_unsigned_mmss() + seq!['.'] + self.spec_fract(p)
    }

    /// `M:SS` (minutes at natural width), magnitude only.
    pub open spec fn spec_unsigned_mss(self) -> Seq<char> {
        dec_str(self.spec_minutes() as nat) + seq![':'] + self.spec_unsigned_ss()
    }

    /// `M:SS` with fractional digits, magnitude only.
    pub open spec fn spec_unsigned_mss_and_fract(self, p: FractPartOfDuration) -> Seq<char> {
        self.spec_unsigned_mss() + seq!['.'] + self.spec_fract(p)
    }

    /// `HH:MM:SS`, magnitude only.
    pub open spec fn spec_unsigned_hhmmss(self) -> Seq<char> {
        self.spec_unsigned_hh() + seq![':'] + self.spec_unsigned_mm() + seq![':']
            + self.spec_unsigned_ss()
    }

    /// `HH:MM:SS` with fractional digits, magnitude only.
    pub open spec fn spec_unsigned_hhmmss_and_fract(self, p: FractPartOfDuration) -> Seq<char> {
        self.spec_unsigned_hhmmss() + seq!['.'] + self.spec_fract(p)
    }

    /// `H:MM:SS` (hours at natural width), magnitude only.
    pub open spec fn spec_unsigned_hmmss(self) -> Seq<char> {
        dec_str(self.spec_hours() as nat) + seq![':'] + self.spec_unsigned_mm() + seq![':']
            + self.spec_unsigned_ss()
    }

    /// `H:MM:SS` with fractional digits, magnitude only.
    pub open spec fn spec_unsigned_hmmss_and_fract(self, p: FractPartOfDuration) -> Seq<char> {
        self.spec_unsigned_hmmss() + seq!['.'] + self.spec_fract(p)
    }

    /// The adaptive rendering before the `"about "` prefix: `"0"` for a
    /// zero span; `"S"`/`"S.xxx"` seconds-only below one minute;
    /// `M:SS[.xxx]` below one hour; `H:MM:SS[.xxx]` above, each with the
    /// sign prefix and with fractional digits exactly when any
    /// sub-second magnitude is present.
    pub open spec fn spec_smart_body(self) -> Seq<char> {
        if self.secs == 0 && self.subsec_nanos == 0 {
            seq!['0']
        } else if self.secs < 60 {
            if self.subsec_nanos == 0 {
                self.spec_sign() + dec_str(self.secs as nat) + seq!['s']
            } else {
                self.spec_sign() + dec_str(self.secs as nat) + seq!['.'] + self.spec_fract(
                    FractPartOfDuration::Milliseconds,
                ) + seq!['s']
            }
        } else if self.secs < 3600 {
            if self.subsec_nanos == 0 {
                self.spec_sign() + self.spec_unsigned_mss()
            } else {
                self.spec_sign() + self.spec_unsigned_mss_and_fract(
                    FractPartOfDuration::Milliseconds,
                )
            }
        } else {
            if self.subsec_nanos == 0 {
                self.spec_sign() + self.spec_unsigned_hmmss()
            } else {
                self.spec_sign() + self.spec_unsigned_hmmss_and_fract(
                    FractPartOfDuration::Milliseconds,
                )
            }
        }
    }

    /// The adaptive rendering: the body, prefixed with `"about "`
    /// exactly when the span carries sub-millisecond magnitude that the
    /// displayed precision discards.
    pub open spec fn spec_smart(self) -> Seq<char> {
        if self.subsec_nanos % 1_000_000 != 0 {
            seq!['a', 'b', 'o', 'u', 't', ' '] + self.spec_smart_body()
        } else {
            self.spec_smart_body()
        }
    }

    /// The sign of the span as a string: `"-"` or `""`.
    pub fn get_sign(&self) -> (r: String)
        ensures
            r@ == self.spec_sign(),
    {
        proof {
            reveal_strlit("-");
            reveal_strlit("");
        }
        if self.negative {
            let r = String::from_str("-");
            assert(r@ =~= self.spec_sign());
            r
        } else {
            let r = String::from_str("");
            assert(r@ =~= self.spec_sign());
            r
        }
    }

    /// The absolute hours as two zero-padded digits.
    pub fn unsigned_hh(&self) -> (r: String)
        ensures
            r@ == self.spec_unsigned_hh(),
    {
        zero_pad_string(self.part_of_hours_abs(), 2)
    }

    /// The absolute minutes as two zero-padded digits.
    pub fn unsigned_mm(&self) -> (r: String)
        ensures
            r@ == self.spec_unsigned_mm(),
    {
        zero_pad_string(self.part_of_minutes_abs(), 2)
    }

    /// The absolute seconds as two zero-padded digits.
    pub fn unsigned_ss(&self) -> (r: String)
        ensures
            r@ == self.spec_unsigned_ss(),
    {
        zero_pad_string(self.part_of_seconds_abs(), 2)
    }

    /// The absolute milliseconds as three zero-padded digits.
    pub fn unsigned_xxx(&self) -> (r: String)
        ensures
            r@ == self.spec_unsigned_xxx(),
    {
        zero_pad_string((self.subsec_nanos / 1_000_000) as u64, 3)
    }

    /// The hours field with the sign prefix.
    pub fn fmt_hh(&self) -> (r: String)
        ensures
            r@ == self.spec_sign() + self.spec_unsigned_hh(),
    {
        let mut s = self.get_sign();
        push_zero_pad(&mut s, self.part_of_hours_abs(), 2);
        s
    }

    /// The minutes field with the sign prefix.
    pub fn fmt_mm(&self) -> (r: String)
        ensures
            r@ == self.spec_sign() + self.spec_unsigned_mm(),
    {
        let mut s = self.get_sign();
        push_zero_pad(&mut s, self.part_of_minutes_abs(), 2);
        s
    }

    /// The seconds field with the sign prefix.
    pub fn fmt_ss(&self) -> (r: String)
        ensures
            r@ == self.spec_sign() + self.spec_unsigned_ss(),
    {
        let mut s = self.get_sign();
        push_zero_pad(&mut s, self.part_of_seconds_abs(), 2);
        s
    }

    /// The milliseconds field with the sign prefix.
    pub fn fmt_xxx(&self) -> (r: String)
        ensures
            r@ == self.spec_sign() + self.spec_unsigned_xxx(),
    {
        let mut s = self.get_sign();
        push_zero_pad(&mut s, (self.subsec_nanos / 1_000_000) as u64, 3);
        s
    }

    /// The sub-second magnitude truncated to the selected precision's
    /// digits, by pure integer arithmetic on the nanosecond count.
    pub fn fmt_fract(&self, included: FractPartOfDuration) -> (r: String)
        ensures
            r@ == self.spec_fract(included),
    {
        match included {
            FractPartOfDuration::Milliseconds => zero_pad_string(
                (self.subsec_nanos / 1_000_000) as u64,
                3,
            ),
            FractPartOfDuration::Microseconds => zero_pad_string(
                (self.subsec_nanos / 1_000) as u64,
                6,
            ),
            FractPartOfDuration::Nanoseconds => zero_pad_string(self.subsec_nanos as u64, 9),
        }
    }

    /// The whole sub-second remainder as nine zero-padded digits.
    pub fn fmt_fract_all(&self) -> (r: String)
        ensures
            r@ == self.spec_fract(FractPartOfDuration::Nanoseconds),
    {
        self.fmt_fract(FractPartOfDuration::Nanoseconds)
    }

    /// `MM:SS`, magnitude only.
    pub fn unsigned_mmss(&self) -> (r: String)
        ensures
            r@ == self.spec_unsigned_mmss(),
    {
        proof {
            reveal_strlit(":");
        }
        let mut s = zero_pad_string(self.part_of_minutes_abs(), 2);
        s.append(":");
        push_zero_pad(&mut s, self.part_of_seconds_abs(), 2);
        assert(s@ =~= self.spec_unsigned_mmss());
        s
    }

    /// `MM:SS.fract` at the given precision, magnitude only.
    pub fn unsigned_mmss_and_fract(&self, included: FractPartOfDuration) -> (r: String)
        ensures
            r@ == self.spec_unsigned_mmss_and_fract(included),
    {
        proof {
            reveal_strlit(".");
        }
        let mut s = self.unsigned_mmss();
        s.append(".");
        let f = self.fmt_fract(included);
        s.append(f.as_str());
        assert(s@ =~= self.spec_unsigned_mmss_and_fract(included));
        s
    }

    /// `MM:SS.xxx` with exact millisecond digits, magnitude only.
    pub fn unsigned_mmssxxx(&self) -> (r: String)
        ensures
            r@ == self.spec_unsigned_mmss_and_fract(FractPartOfDuration::Milliseconds),
    {
        self.unsigned_mmss_and_fract(FractPartOfDuration::Milliseconds)
    }

    /// `M:SS` with minutes at natural width, magnitude only.
    pub fn unsigned_mss(&self) -> (r: String)
        ensures
            r@ == self.spec_unsigned_mss(),
    {
        proof {
            reveal_strlit(":");
        }
        let mut s = String::new();
        push_dec(&mut s, self.part_of_minutes_abs());
        s.append(":");
        push_zero_pad(&mut s, self.part_of_seconds_abs(), 2);
        assert(s@ =~= self.spec_unsigned_mss());
        s
    }

    /// `M:SS.fract` at the given precision, magnitude only.
    pub fn unsigned_mss_and_fract(&self, included: FractPartOfDuration) -> (r: String)
        ensures
            r@ == self.spec_unsigned_mss_and_fract(included),
    {
        proof {
            reveal_strlit(".");
        }
        let mut s = self.unsigned_mss();
        s.append(".");
        let f = self.fmt_fract(included);
        s.append(f.as_str());
        assert(s@ =~= self.spec_unsigned_mss_and_fract(included));
        s
    }

    /// `M:SS.xxx` with exact millisecond digits, magnitude only.
    pub fn unsigned_mssxxx(&self) -> (r: String)
        ensures
            r@ == self.spec_unsigned_mss_and_fract(FractPartOfDuration::Milliseconds),
    {
        self.unsigned_mss_and_fract(FractPartOfDuration::Milliseconds)
    }

    /// `HH:MM:SS`, magnitude only.
    pub fn unsigned_hhmmss(&self) -> (r: String)
        ensures
            r@ == self.spec_unsigned_hhmmss(),
    {
        proof {
            reveal_strlit(":");
        }
        let mut s = zero_pad_string(self.part_of_hours_abs(), 2);
        s.append(":");
        push_zero_pad(&mut s, self.part_of_minutes_abs(), 2);
        s.append(":");
        push_zero_pad(&mut s, self.part_of_seconds_abs(), 2);
        assert(s@ =~= self.spec_unsigned_hhmmss());
        s
    }

    /// `HH:MM:SS.fract` at the given precision, magnitude only.
    pub fn unsigned_hhmmss_and_fract(&self, included: FractPartOfDuration) -> (r: String)
        ensures
            r@ == self.spec_unsigned_hhmmss_and_fract(included),
    {
        proof {
            reveal_strlit(".");
        }
        let mut s = self.unsigned_hhmmss();
        s.append(".");
        let f = self.fmt_fract(included);
        s.append(f.as_str());
        assert(s@ =~= self.spec_unsigned_hhmmss_and_fract(included));
        s
    }

    /// `HH:MM:SS.xxx` with exact millisecond digits, magnitude only.
    pub fn unsigned_hhmmssxxx(&self) -> (r: String)
        ensures
            r@ == self.spec_unsigned_hhmmss_and_fract(FractPartOfDuration::Milliseconds),
    {
        self.unsigned_hhmmss_and_fract(FractPartOfDuration::Milliseconds)
    }

    /// `H:MM:SS` with hours at natural width, magnitude only.
    pub fn unsigned_hmmss(&self) -> (r: String)
        ensures
            r@ == self.spec_unsigned_hmmss(),
    {
        proof {
            reveal_strlit(":");
        }
        let mut s = String::new();
        push_dec(&mut s, self.part_of_hours_abs());
        s.append(":");
        push_zero_pad(&mut s, self.part_of_minutes_abs(), 2);
        s.append(":");
        push_zero_pad(&mut s, self.part_of_seconds_abs(), 2);
        assert(s@ =~= self.spec_unsigned_hmmss());
        s
    }

    /// `H:MM:SS.fract` at the given precision, magnitude only.
    pub fn unsigned_hmmss_and_fract(&self, included: FractPartOfDuration) -> (r: String)
        ensures
            r@ == self.spec_unsigned_hmmss_and_fract(included),
    {
        proof {
            reveal_strlit(".");
        }
        let mut s = self.unsigned_hmmss();
        s.append(".");
        let f = self.fmt_fract(included);
        s.append(f.as_str());
        assert(s@ =~= self.spec_unsigned_hmmss_and_fract(included));
        s
    }

    /// `H:MM:SS.xxx` with exact millisecond digits, magnitude only.
    pub fn unsigned_hmmssxxx(&self) -> (r: String)
        ensures
            r@ == self.spec_unsigned_hmmss_and_fract(FractPartOfDuration::Milliseconds),
    {
        self.unsigned_hmmss_and_fract(FractPartOfDuration::Milliseconds)
    }

    /// `MM:SS` with the sign prefix.
    pub fn mmss(&self) -> (r: String)
        ensures
            r@ == self.spec_sign() + self.spec_unsigned_mmss(),
    {
        let mut s = self.get_sign();
        let u = self.unsigned_mmss();
        s.append(u.as_str());
        s
    }

    /// `MM:SS.xxx` with the sign prefix.
    pub fn mmssxxx(&self) -> (r: String)
        ensures
            r@ == self.spec_sign() + self.spec_unsigned_mmss_and_fract(
                FractPartOfDuration::Milliseconds,
            ),
    {
        self.mmss_and_fract(FractPartOfDuration::Milliseconds)
    }

    /// `MM:SS.fract` at the given precision, with the sign prefix.
    pub fn mmss_and_fract(&self, included: FractPartOfDuration) -> (r: String)
        ensures
            r@ == self.spec_sign() + self.spec_unsigned_mmss_and_fract(included),
    {
        let mut s = self.get_sign();
        let u = self.unsigned_mmss_and_fract(included);
        s.append(u.as_str());
        s
    }

    /// `M:SS` with the sign prefix.
    pub fn mss(&self) -> (r: String)
        ensures
            r@ == self.spec_sign() + self.spec_unsigned_mss(),
    {
        let mut s = self.get_sign();
        let u = self.unsigned_mss();
        s.append(u.as_str());
        s
    }

    /// `M:SS.xxx` with the sign prefix.
    pub fn mssxxx(&self) -> (r: String)
        ensures
            r@ == self.spec_sign() + self.spec_unsigned_mss_and_fract(
                FractPartOfDuration::Milliseconds,
            ),
    {
        self.mss_and_fract(FractPartOfDuration::Milliseconds)
    }

    /// `M:SS.fract` at the given precision, with the sign prefix.
    pub fn mss_and_fract(&self, included: FractPartOfDuration) -> (r: String)
        ensures
            r@ == self.spec_sign() + self.spec_unsigned_mss_and_fract(included),
    {
        let mut s = self.get_sign();
        let u = self.unsigned_mss_and_fract(included);
        s.append(u.as_str());
        s
    }

    /// `HH:MM:SS` with the sign prefix.
    pub fn hhmmss(&self) -> (r: String)
        ensures
            r@ == self.spec_sign() + self.spec_unsigned_hhmmss(),
    {
        let mut s = self.get_sign();
        let u = self.unsigned_hhmmss();
        s.append(u.as_str());
        s
    }

    /// `HH:MM:SS.xxx` with the sign prefix.
    pub fn hhmmssxxx(&self) -> (r: String)
        ensures
            r@ == self.spec_sign() + self.spec_unsigned_hhmmss_and_fract(
                FractPartOfDuration::Milliseconds,
            ),
    {
        self.hhmmss_and_fract(FractPartOfDuration::Milliseconds)
    }

    /// `HH:MM:SS.fract` at the given precision, with the sign prefix.
    pub fn hhmmss_and_fract(&self, included: FractPartOfDuration) -> (r: String)
        ensures
            r@ == self.spec_sign() + self.spec_unsigned_hhmmss_and_fract(included),
    {
        let mut s = self.get_sign();
        let u = self.unsigned_hhmmss_and_fract(included);
        s.append(u.as_str());
        s
    }

    /// `H:MM:SS` with the sign prefix.
    pub fn hmmss(&self) -> (r: String)
        ensures
            r@ == self.spec_sign() + self.spec_unsigned_hmmss(),
    {
        let mut s = self.get_sign();
        let u = self.unsigned_hmmss();
        s.append(u.as_str());
        s
    }

    /// `H:MM:SS.xxx` with the sign prefix.
    pub fn hmmssxxx(&self) -> (r: String)
        ensures
            r@ == self.spec_sign() + self.spec_unsigned_hmmss_and_fract(
                FractPartOfDuration::Milliseconds,
            ),
    {
        self.hmmss_and_fract(FractPartOfDuration::Milliseconds)
    }

    /// `H:MM:SS.fract` at the given precision, with the sign prefix.
    pub fn hmmss_and_fract(&self, included: FractPartOfDuration) -> (r: String)
        ensures
            r@ == self.spec_sign() + self.spec_unsigned_hmmss_and_fract(included),
    {
        let mut s = self.get_sign();
        let u = self.unsigned_hmmss_and_fract(included);
        s.append(u.as_str());
        s
    }

    /// The adaptive rendering: the most compact of the layouts for the
    /// magnitude at hand, flagged with `"about "` when displayed
    /// precision loses information.
    pub fn fmt_smart(&self) -> (r: String)
        ensures
            r@ == self.spec_smart(),
    {
        proof {
            reveal_strlit("about ");
            reveal_strlit("");
            reveal_strlit("0");
            reveal_strlit("s");
            reveal_strlit(".");
        }
        let mut s = if self.subsec_nanos % 1_000_000 != 0 {
            let p = String::from_str("about ");
            assert(p@ =~= seq!['a', 'b', 'o', 'u', 't', ' ']);
            p
        } else {
            let p = String::from_str("");
            assert(p@ =~= Seq::<char>::empty());
            p
        };
        if self.secs == 0 && self.subsec_nanos == 0 {
            s.append("0");
            assert(s@ =~= self.spec_smart());
        } else if self.secs < 60 {
            let sign = self.get_sign();
            s.append(sign.as_str());
            push_dec(&mut s, self.secs);
            if self.subsec_nanos != 0 {
                s.append(".");
                push_zero_pad(&mut s, (self.subsec_nanos / 1_000_000) as u64, 3);
            }
            s.append("s");
            assert(s@ =~= self.spec_smart());
        } else if self.secs < 3600 {
            let body = if self.subsec_nanos == 0 {
                self.mss()
            } else {
                self.mssxxx()
            };
            s.append(body.as_str());
            assert(s@ =~= self.spec_smart());
        } else {
            let body = if self.subsec_nanos == 0 {
                self.hmmss()
            } else {
                self.hmmssxxx()
            };
            s.append(body.as_str());
            assert(s@ =~= self.spec_smart());
        }
        s
    }

    /// A compatibility alias for the adaptive formatter.
    pub fn smart_hhmmss(&self) -> (r: String)
        ensures
            r@ == self.spec_smart(),
    {
        self.fmt_smart()
    }
}

} // verus!
