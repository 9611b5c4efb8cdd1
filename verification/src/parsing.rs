//! From raw integers to seconds and nanoseconds.

use vstd::prelude::*;
use crate::calendar::DecodedTime;
use crate::calendar::representable;
use crate::digits::all_digits;
use crate::digits::digits_value;
use crate::digits::is_digit;
use crate::digits::lemma_digits_value_nonnegative;
use crate::digits::lemma_digits_value_push;
use crate::error::Error;

verus! {

/// Whether `c` is a mark that groups digits and is passed over.
pub open spec fn is_separator(c: char) -> bool {
    c == '.' || c == ','
}

/// `s` without its separators.
pub open spec fn strip_separators(s: Seq<char>) -> Seq<char> {
    s.filter(|c: char| !is_separator(c))
}

/// Whether `s` begins with a sign.
pub open spec fn has_sign(s: Seq<char>) -> bool {
    s.len() > 0 && (s[0] == '-' || s[0] == '+')
}

/// The digits of `s`: all of it but a leading sign.
pub open spec fn unsigned_part(s: Seq<char>) -> Seq<char> {
    if has_sign(s) {
        s.subrange(1, s.len() as int)
    } else {
        s
    }
}

/// The integer that `s` writes in base 10: an optional sign, then one digit
/// or more and nothing else.
pub open spec fn integer_value(s: Seq<char>) -> Option<int> {
    let body = unsigned_part(s);
    if body.len() == 0 || !all_digits(body) {
        None
    } else if s[0] == '-' {
        Some(-digits_value(body))
    } else {
        Some(digits_value(body))
    }
}

/// What `parse_input_to_int` makes of a text: the integer that is left when
/// the separators are gone, where there is one and 64 bits hold it.
pub open spec fn parsed_input(input: Seq<char>) -> Result<i64, Error> {
    match integer_value(strip_separators(input)) {
        Some(v) => if i64::MIN <= v <= i64::MAX {
            Ok(v as i64)
        } else {
            Err(Error::InvalidInput)
        },
        None => Err(Error::InvalidInput),
    }
}

/// The characters of `s` that are no separators, in order.
fn without_separators(s: &str) -> (kept: Vec<char>)
    ensures
        kept@ == strip_separators(s@),
{
    let n = s.unicode_len();
    let mut kept: Vec<char> = Vec::new();
    let mut i: usize = 0;
    while i < n
        invariant
            n == s@.len(),
            i <= n,
            kept@ == strip_separators(s@.subrange(0, i as int)),
        decreases n - i,
    {
        let c = s.get_char(i);
        proof {
            let next = s@.subrange(0, i + 1);
            assert(next.drop_last() =~= s@.subrange(0, i as int));
            reveal_with_fuel(Seq::filter, 2);
        }
        if c != '.' && c != ',' {
            kept.push(c);
        }
        i += 1;
    }
    proof {
        assert(s@.subrange(0, n as int) =~= s@);
    }
    kept
}

/// The integer that the characters write, where 64 bits hold it.
fn integer_of(s: &Vec<char>) -> (r: Result<i64, Error>)
    ensures
        r == match integer_value(s@) {
            Some(v) => if i64::MIN <= v <= i64::MAX {
                Ok::<i64, Error>(v as i64)
            } else {
                Err(Error::InvalidInput)
            },
            None => Err(Error::InvalidInput),
        },
{
    let n = s.len();
    let negative = n > 0 && s[0] == '-';
    let start: usize = if n > 0 && (s[0] == '-' || s[0] == '+') { 1 } else { 0 };
    let ghost body = unsigned_part(s@);
    if start == n {
        return Err(Error::InvalidInput);
    }
    let limit: u64 = 9_223_372_036_854_775_808;
    let mut acc: u64 = 0;
    let mut too_big = false;
    let mut i: usize = start;
    while i < n
        invariant
            n == s@.len(),
            start <= i <= n,
            body == unsigned_part(s@),
            body == s@.subrange(start as int, n as int),
            limit == 9_223_372_036_854_775_808,
            all_digits(body.subrange(0, i - start)),
            !too_big ==> acc == digits_value(body.subrange(0, i - start)) && acc <= limit,
            too_big ==> digits_value(body.subrange(0, i - start)) > limit,
        decreases n - i,
    {
        let c = s[i];
        if !(c >= '0' && c <= '9') {
            assert(!is_digit(body[i - start]));
            return Err(Error::InvalidInput);
        }
        let d: u64 = (c as u32 - '0' as u32) as u64;
        proof {
            let seen = body.subrange(0, i - start);
            let next = body.subrange(0, i - start + 1);
            assert(next =~= seen.push(c));
            lemma_digits_value_push(seen, c);
            lemma_digits_value_nonnegative(seen);
        }
        if !too_big {
            if acc > (limit - d) / 10 {
                too_big = true;
            } else {
                acc = acc * 10 + d;
            }
        }
        i += 1;
    }
    assert(body.subrange(0, n - start) =~= body);
    if too_big {
        Err(Error::InvalidInput)
    } else if negative {
        if acc == limit {
            Ok(i64::MIN)
        } else {
            Ok(-(acc as i64))
        }
    } else if acc == limit {
        Err(Error::InvalidInput)
    } else {
        Ok(acc as i64)
    }
}

/// Reads a signed 64-bit integer in base 10 from `input`, passing over every
/// `.` and `,` in it.
pub fn parse_input_to_int(input: String) -> (r: Result<i64, Error>)
    ensures
        r == parsed_input(input@),
{
    let kept = without_separators(input.as_str());
    integer_of(&kept)
}

/// Nanoseconds in one second.
pub const NANOS_PER_SEC: i64 = 1_000_000_000;

/// The whole seconds in `ts` units of `1/div` seconds, rounded down.
pub open spec fn split_seconds(ts: int, div: int) -> int {
    ts / div
}

/// The rest of `ts` after its whole seconds, in nanoseconds.
pub open spec fn split_nanos(ts: int, div: int) -> int {
    (ts % div) * (1_000_000_000int / div)
}

/// Splitting rounds the seconds down and leaves nanoseconds of less than a
/// second, whatever the sign of the timestamp: the seconds of a timestamp
/// before the epoch are negative, its nanoseconds never are. The nanoseconds
/// are a whole number of units of the timestamp's precision.
pub proof fn lemma_split_bounds(ts: int, div: int)
    requires
        div > 0,
    ensures
        ts >= 0 ==> 0 <= split_seconds(ts, div) <= ts,
        ts < 0 ==> ts <= split_seconds(ts, div) < 0,
        0 <= ts % div < div,
        0 <= split_nanos(ts, div) < 1_000_000_000,
        div <= 1_000_000_000 ==> split_nanos(ts, div) % (1_000_000_000int / div) == 0,
{
    let q = ts / div;
    let r = ts % div;
    let m = 1_000_000_000int / div;
    assert(ts == q * div + r && 0 <= r < div) by (nonlinear_arith)
        requires
            div > 0,
            q == ts / div,
            r == ts % div,
    ;
    assert(ts >= 0 ==> 0 <= q <= ts) by (nonlinear_arith)
        requires
            div > 0,
            ts == q * div + r,
            0 <= r < div,
    ;
    assert(ts < 0 ==> ts <= q < 0) by (nonlinear_arith)
        requires
            div > 0,
            ts == q * div + r,
            0 <= r < div,
    ;
    assert(0 <= m && m * div <= 1_000_000_000) by (nonlinear_arith)
        requires
            div > 0,
            m == 1_000_000_000int / div,
    ;
    assert(0 <= r * m < 1_000_000_000) by (nonlinear_arith)
        requires
            0 <= r < div,
            0 <= m,
            m * div <= 1_000_000_000,
    ;
    if div <= 1_000_000_000 {
        assert(m >= 1) by (nonlinear_arith)
            requires
                0 < div <= 1_000_000_000,
                m == 1_000_000_000int / div,
        ;
        assert((r * m) % m == 0) by (nonlinear_arith)
            requires
                m >= 1,
        ;
    }
}

/// Splitting loses nothing: at a precision of a nanosecond or coarser, the
/// seconds counted in units of the precision, and the nanoseconds scaled
/// back to those units, add up to the timestamp.
pub proof fn lemma_split_recombines(ts: int, div: int)
    requires
        0 < div <= 1_000_000_000,
    ensures
        split_seconds(ts, div) * div + split_nanos(ts, div) / (1_000_000_000int / div) == ts,
{
    let q = ts / div;
    let r = ts % div;
    let m = 1_000_000_000int / div;
    assert(ts == q * div + r) by (nonlinear_arith)
        requires
            div > 0,
            q == ts / div,
            r == ts % div,
    ;
    assert(m >= 1) by (nonlinear_arith)
        requires
            0 < div <= 1_000_000_000,
            m == 1_000_000_000int / div,
    ;
    assert((r * m) / m == r) by (nonlinear_arith)
        requires
            m >= 1,
    ;
}

/// Splits a timestamp counted in units of `1/div` seconds into whole
/// seconds, rounded down, and the nanoseconds that remain.
pub fn split_timestamp(ts: i64, div: i64) -> (r: Result<(i64, u32), Error>)
    requires
        div > 0,
    ensures
        r is Ok,
        r->Ok_0.0 == split_seconds(ts as int, div as int),
        r->Ok_0.1 == split_nanos(ts as int, div as int),
        r->Ok_0.1 < 1_000_000_000,
{
    let mul: i64 = NANOS_PER_SEC / div;
    proof {
        lemma_split_bounds(ts as int, div as int);
    }
    let secs = ts.checked_div_euclid(div);
    let rest = ts.checked_rem_euclid(div);
    match (secs, rest) {
        (Some(s), Some(r)) => {
            let prod: i64 = r * mul;
            if prod > 4_294_967_295 {
                Err(Error::ArithmeticOverflow)
            } else {
                Ok((s, prod as u32))
            }
        }
        _ => Err(Error::ArithmeticOverflow),
    }
}

/// The precision at which a plain timestamp is counted.
#[derive(Debug, Clone, Copy, PartialEq, Eq, Structural)]
pub enum Split {
    /// Seconds.
    S,
    /// Milliseconds.
    M,
    /// Microseconds.
    U,
    /// Nanoseconds.
    N,
}

impl Split {
    /// How many units of this precision make one second.
    pub open spec fn divisor(self) -> int {
        match self {
            Split::S => 1,
            Split::M => 1_000,
            Split::U => 1_000_000,
            Split::N => 1_000_000_000,
        }
    }
}

/// Decodes a timestamp counted at the precision `split` into a calendar
/// time.
pub fn parse_timestamp(ts: i64, split: Split) -> (r: Result<DecodedTime, Error>)
    ensures
        r is Ok <==> representable(
            split_seconds(ts as int, split.divisor()),
            split_nanos(ts as int, split.divisor()),
        ),
        r is Ok ==> {
            &&& r->Ok_0.wf()
            &&& r->Ok_0.secs() == split_seconds(ts as int, split.divisor())
            &&& r->Ok_0.nanos() == split_nanos(ts as int, split.divisor())
        },
        r is Err ==> r->Err_0 == Error::TimestampOutOfRange,
{
    let parts = match split {
        Split::S => Ok((ts, 0u32)),
        Split::M => split_timestamp(ts, 1_000),
        Split::U => split_timestamp(ts, 1_000_000),
        Split::N => split_timestamp(ts, 1_000_000_000),
    };
    match parts {
        Ok((s, n)) => DecodedTime::from_timestamp(s, n),
        Err(e) => Err(e),
    }
}

/// The Unix time in milliseconds that a Snowflake holds: the bits above its
/// low 22, counted from `epoch`.
pub open spec fn snowflake_millis(id: u64, epoch: u64) -> int {
    (id >> 22) + epoch
}

/// The whole seconds of the Unix time that a Snowflake holds.
pub open spec fn snowflake_seconds(id: u64, epoch: u64) -> int {
    split_seconds(snowflake_millis(id, epoch), 1_000)
}

/// The nanoseconds after the whole second of the Unix time that a Snowflake
/// holds.
pub open spec fn snowflake_nanos(id: u64, epoch: u64) -> int {
    split_nanos(snowflake_millis(id, epoch), 1_000)
}

/// Decodes the creation time of an identifier in the Snowflake format, whose
/// milliseconds count from `epoch`.
pub fn parse_snowflake_ts(id: u64, epoch: u64) -> (r: Result<DecodedTime, Error>)
    ensures
        r is Ok <==> representable(snowflake_seconds(id, epoch), snowflake_nanos(id, epoch)),
        r is Ok ==> {
            &&& r->Ok_0.wf()
            &&& r->Ok_0.secs() == snowflake_seconds(id, epoch)
            &&& r->Ok_0.nanos() == snowflake_nanos(id, epoch)
        },
        r is Err ==> r->Err_0 == Error::TimestampOutOfRange,
{
    let high: u64 = id >> 22;
    assert(high < 0x400_0000_0000) by (bit_vector)
        requires
            high == id >> 22,
    ;
    if epoch > 0x7fff_ffff_ffff_ffff - high {
        proof {
            lemma_split_bounds(snowflake_millis(id, epoch), 1_000);
        }
        return Err(Error::TimestampOutOfRange);
    }
    let ts = (high + epoch) as i64;
    match split_timestamp(ts, 1_000) {
        Ok((s, n)) => DecodedTime::from_timestamp(s, n),
        Err(e) => Err(e),
    }
}

} // verus!
