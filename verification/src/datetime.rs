//! Calendar date-times as plain values, and the fixed `YYYYMMDDHHmmss`
//! wire format some processors want as a freshness stamp.
//!
//! Only reading the clock is delegated to an outside crate; the wire
//! rendering of the stamp is computed and proved here.

use vstd::prelude::*;

use crate::decimal::dec_digits;
use crate::decimal::u64_to_dec_string;

verus! {

/// A calendar date-time in UTC, held as plain fields.
#[derive(Clone, Copy, Debug, PartialEq, Eq, Structural)]
pub struct DateTime {
    pub year: i32,
    pub month: u8,
    pub day: u8,
    pub hour: u8,
    pub minute: u8,
    pub second: u8,
}

impl DateTime {
    /// The field ranges a calendar date-time satisfies.
    pub open spec fn wf(self) -> bool {
        &&& -9999 <= self.year <= 9999
        &&& 1 <= self.month <= 12
        &&& 1 <= self.day <= 31
        &&& self.hour <= 23
        &&& self.minute <= 59
        &&& self.second <= 59
    }
}

/// A number rendered in decimal and padded with `'0'` on the left to at
/// least two characters.
pub open spec fn zero_pad2(n: nat) -> Seq<char> {
    if n < 10 {
        seq!['0'] + dec_digits(n)
    } else {
        dec_digits(n)
    }
}

/// A number rendered in decimal and padded with `'0'` on the left to at
/// least four characters.
pub open spec fn zero_pad4(n: nat) -> Seq<char> {
    if n < 10 {
        seq!['0', '0', '0'] + dec_digits(n)
    } else if n < 100 {
        seq!['0', '0'] + dec_digits(n)
    } else if n < 1000 {
        seq!['0'] + dec_digits(n)
    } else {
        dec_digits(n)
    }
}

/// The `YYYYMMDDHHmmss` wire rendering of a date-time. A year before
/// year zero cannot be carried by this all-digit format and renders as
/// year zero.
pub open spec fn spec_yyyymmddhhmmss(dt: DateTime) -> Seq<char> {
    let y: nat = if dt.year >= 0 {
        dt.year as nat
    } else {
        0
    };
    zero_pad4(y) + zero_pad2(dt.month as nat) + zero_pad2(dt.day as nat) + zero_pad2(
        dt.hour as nat,
    ) + zero_pad2(dt.minute as nat) + zero_pad2(dt.second as nat)
}

fn append_pad2(s: &mut String, n: u8)
    ensures
        final(s)@ == old(s)@ + zero_pad2(n as nat),
{
    if n < 10 {
        s.append("0");
        proof {
            reveal_strlit("0");
        }
    }
    let digits = u64_to_dec_string(n as u64);
    s.append(digits.as_str());
    proof {
        if n < 10 {
            assert(old(s)@ + "0"@ + dec_digits(n as nat) =~= old(s)@ + (seq!['0'] + dec_digits(
                n as nat,
            )));
        }
    }
}

/// Renders a date-time in the fixed `YYYYMMDDHHmmss` wire format.
pub fn format_yyyymmddhhmmss(dt: &DateTime) -> (r: String)
    requires
        dt.wf(),
    ensures
        r@ == spec_yyyymmddhhmmss(*dt),
{
    let y: u64 = if dt.year >= 0 {
        dt.year as u64
    } else {
        0
    };
    let mut s = String::new();
    if y < 10 {
        s.append("000");
    } else if y < 100 {
        s.append("00");
    } else if y < 1000 {
        s.append("0");
    }
    let year_digits = u64_to_dec_string(y);
    s.append(year_digits.as_str());
    proof {
        reveal_strlit("0");
        reveal_strlit("00");
        reveal_strlit("000");
        assert(Seq::<char>::empty() + "000"@ + dec_digits(y as nat) =~= seq!['0', '0', '0']
            + dec_digits(y as nat));
        assert(Seq::<char>::empty() + "00"@ + dec_digits(y as nat) =~= seq!['0', '0'] + dec_digits(
            y as nat,
        ));
        assert(Seq::<char>::empty() + "0"@ + dec_digits(y as nat) =~= seq!['0'] + dec_digits(
            y as nat,
        ));
        assert(Seq::<char>::empty() + dec_digits(y as nat) =~= dec_digits(y as nat));
        assert(s@ == zero_pad4(y as nat));
    }
    append_pad2(&mut s, dt.month);
    append_pad2(&mut s, dt.day);
    append_pad2(&mut s, dt.hour);
    append_pad2(&mut s, dt.minute);
    append_pad2(&mut s, dt.second);
    s
}

/// The current date and time.
///
/// Relies on `time::OffsetDateTime::now_utc` and its accessors `year`,
/// `month`, `day`, `hour`, `minute` and `second`: the `time` crate
/// documents that a date's year lies within plus or minus 9999, the day
/// within `1..=31`, the hour within `0..24`, and the minute and second
/// within `0..60`; the month number of its `Month` enum is `1..=12`.
/// Which moment the clock reports cannot be promised, so no clause
/// relates the result to anything but these ranges.
#[verifier::external_body]
pub fn now_utc() -> (r: DateTime)
    ensures
        r.wf(),
{
    let t = time::OffsetDateTime::now_utc();
    DateTime {
        year: t.year(),
        month: u8::from(t.month()),
        day: t.day(),
        hour: t.hour(),
        minute: t.minute(),
        second: t.second(),
    }
}

} // verus!
