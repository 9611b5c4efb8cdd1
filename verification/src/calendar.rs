//! Instants on the UTC calendar, with the calendar arithmetic and the
//! textual forms taken from `chrono`.

use vstd::prelude::*;
use chrono::DateTime;
use chrono::SecondsFormat;
use vstd::arithmetic::power::pow;
use crate::digits::all_digits;
use crate::digits::digits_value;
use crate::digits::lemma_padded_shows;
use crate::digits::padded;
use crate::error::Error;

verus! {

/// The first second that the calendar holds: the start of the year -262143.
pub const MIN_SECONDS: i64 = -8_334_601_228_800;

/// The last second that the calendar holds: the end of the year 262142.
pub const MAX_SECONDS: i64 = 8_210_266_876_799;

/// The first second of the year 0.
pub const MIN_RFC2822_SECONDS: i64 = -62_167_219_200;

/// The last second of the year 9999.
pub const MAX_RFC2822_SECONDS: i64 = 253_402_300_799;

/// Whether `secs` seconds and `nanos` nanoseconds after the epoch name an
/// instant of the calendar.
pub open spec fn representable(secs: int, nanos: int) -> bool {
    &&& MIN_SECONDS <= secs <= MAX_SECONDS
    &&& 0 <= nanos < 1_000_000_000
}

/// How many digits of a second's fraction a text shows.
#[derive(Debug, Clone, Copy, PartialEq, Eq, Structural)]
pub enum Precision {
    /// None: whole seconds.
    Secs,
    /// Three: milliseconds.
    Millis,
    /// Six: microseconds.
    Micros,
    /// Nine: nanoseconds.
    Nanos,
}

impl Precision {
    /// The nanoseconds in one unit of this precision.
    pub open spec fn unit(self) -> int {
        match self {
            Precision::Secs => 1_000_000_000,
            Precision::Millis => 1_000_000,
            Precision::Micros => 1_000,
            Precision::Nanos => 1,
        }
    }

    /// The number of fraction digits shown.
    pub open spec fn digits(self) -> int {
        match self {
            Precision::Secs => 0,
            Precision::Millis => 3,
            Precision::Micros => 6,
            Precision::Nanos => 9,
        }
    }

    /// The coarsest precision that shows `nanos` without loss.
    pub open spec fn needed(nanos: int) -> Precision {
        if nanos % 1_000_000_000 == 0 {
            Precision::Secs
        } else if nanos % 1_000_000 == 0 {
            Precision::Millis
        } else if nanos % 1_000 == 0 {
            Precision::Micros
        } else {
            Precision::Nanos
        }
    }

    /// The coarsest precision that shows `nanos` without loss.
    pub fn for_nanos(nanos: u32) -> (p: Precision)
        ensures
            p == Precision::needed(nanos as int),
    {
        if nanos % 1_000_000_000 == 0 {
            Precision::Secs
        } else if nanos % 1_000_000 == 0 {
            Precision::Millis
        } else if nanos % 1_000 == 0 {
            Precision::Micros
        } else {
            Precision::Nanos
        }
    }
}

/// The precision that a text needs shows every nanosecond of the instant, and
/// no precision that does so has fewer digits: a whole second has no
/// fraction, and any other instant has three, six or nine digits, as few as
/// show it without loss.
pub proof fn lemma_needed_precision(nanos: int, other: Precision)
    requires
        0 <= nanos < 1_000_000_000,
    ensures
        nanos % Precision::needed(nanos).unit() == 0,
        nanos % other.unit() == 0 ==> Precision::needed(nanos).digits() <= other.digits(),
        Precision::needed(nanos) == Precision::Secs <==> nanos == 0,
{
}

/// The fraction of the second in a text: nothing for whole seconds, else a
/// point and the digits of the precision, with leading zeros.
pub open spec fn fraction_text(nanos: int, precision: Precision) -> Seq<char> {
    if precision == Precision::Secs {
        Seq::empty()
    } else {
        seq!['.'] + padded((nanos / precision.unit()) as nat, precision.digits() as nat)
    }
}

/// The fraction that is shown is empty for a whole second and for no other
/// instant. Where it is not empty, it is a point and three, six or nine
/// decimal digits, and these digits, counted in units of the precision, are
/// the nanoseconds of the instant, all of them.
pub proof fn lemma_fraction_shows_nanos(nanos: int)
    requires
        0 <= nanos < 1_000_000_000,
    ensures
        nanos == 0 <==> fraction_text(nanos, Precision::needed(nanos)).len() == 0,
        nanos != 0 ==> {
            let shown = fraction_text(nanos, Precision::needed(nanos));
            &&& shown.len() == 1 + Precision::needed(nanos).digits()
            &&& shown[0] == '.'
            &&& all_digits(shown.skip(1))
            &&& digits_value(shown.skip(1)) * Precision::needed(nanos).unit() == nanos
        },
{
    let p = Precision::needed(nanos);
    if nanos != 0 {
        let count = (nanos / p.unit()) as nat;
        let width = p.digits() as nat;
        let shown = fraction_text(nanos, p);
        assert(pow(10, 3) == 1_000 && pow(10, 6) == 1_000_000 && pow(10, 9) == 1_000_000_000) by {
            reveal_with_fuel(pow, 10);
        }
        lemma_padded_shows(count, width);
        assert(shown.skip(1) =~= padded(count, width));
    }
}

/// The date and the time of day, to the second, with which `chrono` begins
/// the RFC 3339 text of an instant of the calendar.
pub uninterp spec fn rfc3339_date_time(secs: int) -> Seq<char>;

/// The RFC 3339 text of an instant of the calendar in UTC: the date and the
/// time of day, the fraction of the second at the given precision, and `Z`.
pub open spec fn rfc3339_text(secs: int, nanos: int, precision: Precision) -> Seq<char> {
    rfc3339_date_time(secs) + fraction_text(nanos, precision) + seq!['Z']
}

/// The RFC 2822 text that `chrono` writes for an instant in the years 0 to
/// 9999.
pub uninterp spec fn rfc2822_text(secs: int, nanos: int) -> Seq<char>;

/// Asks `chrono::DateTime::from_timestamp` whether it has a calendar time for
/// the instant. Not proved here: with less than a second of nanoseconds it
/// has one exactly for the days of the years -262143 to 262142, that is from
/// `MIN_SECONDS` to `MAX_SECONDS`.
#[verifier::external_body]
fn calendar_holds(secs: i64, nanos: u32) -> (held: bool)
    requires
        nanos < 1_000_000_000,
    ensures
        held == (MIN_SECONDS <= secs <= MAX_SECONDS),
{
    DateTime::from_timestamp(secs, nanos).is_some()
}

/// `chrono::DateTime::to_rfc3339_opts` on the instant that
/// `chrono::DateTime::from_timestamp` makes of the arguments, with `Z` in
/// place of the UTC offset. Not proved here: the text begins with a date and
/// a time of day that depend on the seconds alone; then comes nothing for
/// whole seconds, else a point and the milliseconds in three digits, the
/// microseconds in six or the nanoseconds in nine; and `Z` ends it.
#[verifier::external_body]
fn write_rfc3339(secs: i64, nanos: u32, precision: Precision) -> (text: String)
    requires
        representable(secs as int, nanos as int),
    ensures
        text@ == rfc3339_date_time(secs as int) + fraction_text(nanos as int, precision) + seq![
            'Z',
        ],
{
    let form = match precision {
        Precision::Secs => SecondsFormat::Secs,
        Precision::Millis => SecondsFormat::Millis,
        Precision::Micros => SecondsFormat::Micros,
        Precision::Nanos => SecondsFormat::Nanos,
    };
    DateTime::from_timestamp(secs, nanos).unwrap().to_rfc3339_opts(form, true)
}

/// `chrono::DateTime::to_rfc2822` on the instant that
/// `chrono::DateTime::from_timestamp` makes of the arguments. It panics
/// outside the years 0 to 9999, which are left out here. Not proved here:
/// the text depends on the instant alone.
#[verifier::external_body]
fn write_rfc2822(secs: i64, nanos: u32) -> (text: String)
    requires
        MIN_RFC2822_SECONDS <= secs <= MAX_RFC2822_SECONDS,
        nanos < 1_000_000_000,
    ensures
        text@ == rfc2822_text(secs as int, nanos as int),
{
    DateTime::from_timestamp(secs, nanos).unwrap().to_rfc2822()
}

/// An instant of the UTC calendar, to the nanosecond.
#[derive(Debug, Clone, Copy, PartialEq, Eq)]
pub struct DecodedTime {
    secs: i64,
    nanos: u32,
}

impl DecodedTime {
    /// Every value names an instant of the calendar.
    #[verifier::type_invariant]
    spec fn inv(self) -> bool {
        representable(self.secs as int, self.nanos as int)
    }

    /// Whole seconds since the epoch, rounded down.
    pub closed spec fn secs(self) -> int {
        self.secs as int
    }

    /// Nanoseconds after the whole second.
    pub closed spec fn nanos(self) -> int {
        self.nanos as int
    }

    /// Whether the value names an instant of the calendar, as every value
    /// that executable code holds does.
    pub open spec fn wf(self) -> bool {
        representable(self.secs(), self.nanos())
    }

    /// The nanoseconds since the epoch.
    pub open spec fn total_nanos(self) -> int {
        self.secs() * 1_000_000_000 + self.nanos()
    }

    /// The instant `secs` seconds and `nanos` nanoseconds after the epoch,
    /// where the calendar holds it.
    pub fn from_timestamp(secs: i64, nanos: u32) -> (r: Result<DecodedTime, Error>)
        ensures
            r is Ok <==> representable(secs as int, nanos as int),
            r is Ok ==> r->Ok_0.secs() == secs && r->Ok_0.nanos() == nanos && r->Ok_0.wf(),
            r is Err ==> r->Err_0 == Error::TimestampOutOfRange,
    {
        if nanos < 1_000_000_000 && calendar_holds(secs, nanos) {
            Ok(DecodedTime { secs, nanos })
        } else {
            Err(Error::TimestampOutOfRange)
        }
    }

    /// The coarsest precision that shows the instant without loss.
    pub open spec fn precision(self) -> Precision {
        Precision::needed(self.nanos())
    }

    /// The ISO 8601 text of the instant, with as many digits of the second's
    /// fraction as it needs and no more.
    pub open spec fn rfc3339(self) -> Seq<char> {
        rfc3339_text(self.secs(), self.nanos(), self.precision())
    }

    /// Whether the instant lies in the years that RFC 2822 can write: 0 to
    /// 9999.
    pub open spec fn has_rfc2822(self) -> bool {
        MIN_RFC2822_SECONDS <= self.secs() <= MAX_RFC2822_SECONDS
    }

    /// The RFC 2822 text of the instant, where there is one.
    pub open spec fn rfc2822(self) -> Option<Seq<char>> {
        if self.has_rfc2822() {
            Some(rfc2822_text(self.secs(), self.nanos()))
        } else {
            None
        }
    }

    /// The nanoseconds since the epoch, where 64 bits hold them.
    pub open spec fn nanos_since_epoch(self) -> Option<i64> {
        if i64::MIN <= self.total_nanos() <= i64::MAX {
            Some(self.total_nanos() as i64)
        } else {
            None
        }
    }

    /// The ISO 8601 text of the instant in UTC, with as many digits of the
    /// second's fraction as it needs and no more.
    pub fn to_rfc3339(&self) -> (text: String)
        ensures
            text@ == self.rfc3339(),
    {
        proof {
            use_type_invariant(self);
        }
        write_rfc3339(self.secs, self.nanos, Precision::for_nanos(self.nanos))
    }

    /// The RFC 2822 text of the instant, if its year is one of 0 to 9999.
    pub fn to_rfc2822(&self) -> (text: Option<String>)
        ensures
            text is Some <==> self.has_rfc2822(),
            text is Some ==> self.rfc2822() == Some(text->Some_0@),
    {
        proof {
            use_type_invariant(self);
        }
        if MIN_RFC2822_SECONDS <= self.secs && self.secs <= MAX_RFC2822_SECONDS {
            Some(write_rfc2822(self.secs, self.nanos))
        } else {
            None
        }
    }

    /// The nanoseconds since the epoch, if 64 bits hold them.
    pub fn timestamp_nanos_opt(&self) -> (total: Option<i64>)
        ensures
            total == self.nanos_since_epoch(),
    {
        proof {
            use_type_invariant(self);
        }
        let wide: i128 = (self.secs as i128) * 1_000_000_000 + (self.nanos as i128);
        if wide < -9_223_372_036_854_775_808 || wide > 9_223_372_036_854_775_807 {
            None
        } else {
            Some(wide as i64)
        }
    }

    /// Whole seconds since the epoch, rounded down.
    pub fn seconds(&self) -> (s: i64)
        ensures
            s == self.secs(),
            MIN_SECONDS <= s <= MAX_SECONDS,
    {
        proof {
            use_type_invariant(self);
        }
        self.secs
    }

    /// Nanoseconds after the whole second.
    pub fn nanoseconds(&self) -> (n: u32)
        ensures
            n == self.nanos(),
            n < 1_000_000_000,
    {
        proof {
            use_type_invariant(self);
        }
        self.nanos
    }
}

} // verus!
