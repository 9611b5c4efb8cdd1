//! The report on a decoded time: lines of text, each in spans that say how
//! they may be tinted.

use vstd::prelude::*;
use vstd::arithmetic::power::pow;
use vstd::string::StringExecFns;
use crate::calendar::DecodedTime;
use crate::digits::all_digits;
use crate::digits::decimal;
use crate::digits::digits_value;
use crate::digits::lemma_decimal_shows;
use crate::digits::lemma_digits_value_append3;
use crate::digits::lemma_padded_shows;
use crate::digits::padded;
use crate::digits::push_decimal;
use crate::digits::push_padded3;
use crate::types::DiscordID;
use crate::types::Operation;
use crate::types::TimeSource;
use crate::types::TwitterSnowflake;

verus! {

/// The part that a span of text plays in a line, by which it is tinted.
#[derive(Debug, Clone, Copy, PartialEq, Eq, Structural)]
pub enum Tone {
    /// Spacing, shown as it is.
    Plain,
    /// The line that names the source.
    Heading,
    /// The name of what a line shows.
    Label,
    /// A value, and the seconds of a Unix timestamp.
    Value,
    /// The milliseconds of a Unix timestamp.
    Millis,
    /// The microseconds of a Unix timestamp.
    Micros,
    /// The nanoseconds of a Unix timestamp.
    Nanos,
    /// What stands in place of a value that cannot be shown.
    Alert,
}

/// A run of text in one tone.
#[derive(Debug, PartialEq, Eq)]
pub struct Span {
    /// The part the text plays.
    pub tone: Tone,
    /// The text.
    pub text: String,
}

impl View for Span {
    type V = (Tone, Seq<char>);

    open spec fn view(&self) -> (Tone, Seq<char>) {
        (self.tone, self.text@)
    }
}

/// One line of the report.
#[derive(Debug, PartialEq, Eq)]
pub struct Line {
    /// The spans of the line, from left to right.
    pub spans: Vec<Span>,
}

impl View for Line {
    type V = Seq<(Tone, Seq<char>)>;

    open spec fn view(&self) -> Seq<(Tone, Seq<char>)> {
        self.spans@.map_values(|s: Span| s@)
    }
}

impl Line {
    /// The text of the line without its tones.
    pub fn text(&self) -> (text: String)
        ensures
            text@ == plain_text(self@),
    {
        let mut text = String::new();
        let n = self.spans.len();
        let mut i: usize = 0;
        while i < n
            invariant
                n == self.spans@.len(),
                i <= n,
                text@ == plain_text(self@.subrange(0, i as int)),
            decreases n - i,
        {
            proof {
                let next = self@.subrange(0, i + 1);
                assert(next.drop_last() =~= self@.subrange(0, i as int));
            }
            text.append(self.spans[i].text.as_str());
            i += 1;
        }
        assert(self@.subrange(0, n as int) =~= self@);
        text
    }
}

/// The lines of a report, each as its spans.
pub open spec fn lines_view(lines: Seq<Line>) -> Seq<Seq<(Tone, Seq<char>)>> {
    lines.map_values(|l: Line| l@)
}

/// The text of a line without its tones.
pub open spec fn plain_text(spans: Seq<(Tone, Seq<char>)>) -> Seq<char>
    decreases spans.len(),
{
    if spans.len() == 0 {
        Seq::empty()
    } else {
        plain_text(spans.drop_last()) + spans.last().1
    }
}

/// The line that shows `value` under the name `label`.
pub open spec fn labelled(label: Seq<char>, value: Seq<char>) -> Seq<(Tone, Seq<char>)> {
    seq![(Tone::Label, label), (Tone::Plain, " "@), (Tone::Value, value)]
}

/// The line that shows under the name `label` that there is no value.
pub open spec fn unavailable(label: Seq<char>, marker: Seq<char>) -> Seq<(Tone, Seq<char>)> {
    seq![(Tone::Label, label), (Tone::Plain, " "@), (Tone::Alert, marker)]
}

/// The line that names the source of the time.
pub open spec fn source_line(source: TimeSource) -> Seq<(Tone, Seq<char>)> {
    seq![(Tone::Heading, "Using"@), (Tone::Plain, " "@), (Tone::Heading, source.text())]
}

/// The line with the ISO 8601 text of the time.
pub open spec fn iso8601_line(time: DecodedTime) -> Seq<(Tone, Seq<char>)> {
    labelled("ISO 8601/RFC 3339:"@, time.rfc3339())
}

/// The line with the RFC 2822 text of the time, or with a marker in its
/// place where the year has no four digits.
pub open spec fn rfc2822_line(time: DecodedTime) -> Seq<(Tone, Seq<char>)> {
    match time.rfc2822() {
        Some(text) => labelled("RFC 2822:"@, text),
        None => unavailable("RFC 2822:"@, "[year out of range]"@),
    }
}

/// The size of a count of nanoseconds, without its sign.
pub open spec fn magnitude(total: int) -> nat {
    if total < 0 {
        (-total) as nat
    } else {
        total as nat
    }
}

/// The seconds of a count of nanoseconds since the epoch, with a minus sign
/// where the count is negative.
pub open spec fn seconds_group(total: int) -> Seq<char> {
    let whole = decimal(magnitude(total) / 1_000_000_000);
    if total < 0 {
        seq!['-'] + whole
    } else {
        whole
    }
}

/// The milliseconds left after the seconds, in three digits.
pub open spec fn millis_group(total: int) -> Seq<char> {
    padded(magnitude(total) / 1_000_000 % 1_000, 3)
}

/// The microseconds left after the milliseconds, in three digits.
pub open spec fn micros_group(total: int) -> Seq<char> {
    padded(magnitude(total) / 1_000 % 1_000, 3)
}

/// The nanoseconds left after the microseconds, in three digits.
pub open spec fn nanos_group(total: int) -> Seq<char> {
    padded(magnitude(total) % 1_000, 3)
}

/// The four groups of digits of a count of nanoseconds since the epoch.
pub open spec fn combined_groups(total: int) -> Seq<(Tone, Seq<char>)> {
    seq![
        (Tone::Value, seconds_group(total)),
        (Tone::Millis, millis_group(total)),
        (Tone::Micros, micros_group(total)),
        (Tone::Nanos, nanos_group(total)),
    ]
}

/// The digits of the four groups in a row, without the sign.
pub open spec fn combined_digits(total: int) -> Seq<char> {
    decimal(magnitude(total) / 1_000_000_000) + millis_group(total) + micros_group(total)
        + nanos_group(total)
}

/// Read as one number, the digits of the four groups show the count of
/// nanoseconds: ten digits or more, the last nine of them the fraction of
/// the second.
pub proof fn lemma_groups_show_total(total: int)
    ensures
        combined_digits(total).len() >= 10,
        all_digits(combined_digits(total)),
        digits_value(combined_digits(total)) == magnitude(total),
{
    let size = magnitude(total);
    let sec = decimal(size / 1_000_000_000);
    let ms = millis_group(total);
    let us = micros_group(total);
    let ns = nanos_group(total);
    lemma_decimal_shows(size / 1_000_000_000);
    lemma_padded_shows(size / 1_000_000 % 1_000, 3);
    lemma_padded_shows(size / 1_000 % 1_000, 3);
    lemma_padded_shows(size % 1_000, 3);
    assert(pow(10, 3) == 1000) by {
        reveal_with_fuel(pow, 4);
    }
    lemma_digits_value_append3(sec, ms);
    lemma_digits_value_append3(sec + ms, us);
    lemma_digits_value_append3(sec + ms + us, ns);
}

/// The names of the four groups, in the tones of the groups.
pub open spec fn unit_legend() -> Seq<(Tone, Seq<char>)> {
    seq![
        (Tone::Value, "s"@),
        (Tone::Label, "/"@),
        (Tone::Millis, "ms"@),
        (Tone::Label, "/"@),
        (Tone::Micros, "\u{b5}s"@),
        (Tone::Label, "/"@),
        (Tone::Nanos, "ns"@),
    ]
}

/// The line with the Unix timestamp in four groups, or with a marker in its
/// place where 64 bits do not hold the nanoseconds since the epoch.
pub open spec fn unix_line(time: DecodedTime) -> Seq<(Tone, Seq<char>)> {
    match time.nanos_since_epoch() {
        Some(total) => seq![(Tone::Label, "Unix timestamp:"@), (Tone::Plain, " "@)]
            + combined_groups(total as int) + seq![(Tone::Plain, " "@)] + unit_legend(),
        None => unavailable("Unix timestamp:"@, "[time out of bounds]"@),
    }
}

/// The three lines that show a time.
pub open spec fn time_lines(time: DecodedTime) -> Seq<Seq<(Tone, Seq<char>)>> {
    seq![iso8601_line(time), rfc2822_line(time), unix_line(time)]
}

/// The lines that show a decoded Discord Snowflake.
pub open spec fn discord_lines(id: DiscordID) -> Seq<Seq<(Tone, Seq<char>)>> {
    time_lines(id.time) + seq![
        labelled("Discord internal worker ID:"@, decimal(id.wid as nat)),
        labelled("Discord internal process ID:"@, decimal(id.pid as nat)),
        labelled("Discord internal sequential number:"@, decimal(id.seq as nat)),
    ]
}

/// The lines that show a decoded Twitter Snowflake.
pub open spec fn twitter_lines(sf: TwitterSnowflake) -> Seq<Seq<(Tone, Seq<char>)>> {
    time_lines(sf.time) + seq![
        labelled("Twitter internal machine ID:"@, decimal(sf.mid as nat)),
        labelled("Twitter internal sequential number:"@, decimal(sf.seq as nat)),
    ]
}

/// The whole report: the source, then what was decoded.
pub open spec fn report(op: Operation, source: TimeSource) -> Seq<Seq<(Tone, Seq<char>)>> {
    seq![source_line(source)] + match op {
        Operation::Timestamp(time) => time_lines(time),
        Operation::Discord(id) => discord_lines(id),
        Operation::Twitter(sf) => twitter_lines(sf),
    }
}

/// A span of the given text.
fn span(tone: Tone, text: &str) -> (s: Span)
    ensures
        s@ == (tone, text@),
{
    Span { tone, text: String::from_str(text) }
}

/// The decimal digits of `n` as a text.
pub fn decimal_text(n: u64) -> (text: String)
    ensures
        text@ == decimal(n as nat),
{
    let mut text = String::new();
    push_decimal(&mut text, n);
    text
}

/// The line that shows `value` under the name `label`.
fn labelled_line(label: &str, value: String) -> (line: Line)
    ensures
        line@ == labelled(label@, value@),
{
    let mut spans: Vec<Span> = Vec::new();
    spans.push(span(Tone::Label, label));
    spans.push(span(Tone::Plain, " "));
    spans.push(Span { tone: Tone::Value, text: value });
    Line { spans }
}

/// The line that shows under the name `label` that there is no value.
fn unavailable_line(label: &str, marker: &str) -> (line: Line)
    ensures
        line@ == unavailable(label@, marker@),
{
    let mut spans: Vec<Span> = Vec::new();
    spans.push(span(Tone::Label, label));
    spans.push(span(Tone::Plain, " "));
    spans.push(span(Tone::Alert, marker));
    Line { spans }
}

/// The four groups of digits of the Unix timestamp of `time`, if 64 bits
/// hold its nanoseconds since the epoch.
pub fn prepare_combined_ts(time: DecodedTime) -> (groups: Option<Vec<Span>>)
    ensures
        groups is Some <==> time.nanos_since_epoch() is Some,
        groups is Some ==> groups->Some_0@.map_values(|s: Span| s@) == combined_groups(
            time.nanos_since_epoch()->Some_0 as int,
        ),
{
    let total = match time.timestamp_nanos_opt() {
        Some(t) => t,
        None => {
            return None;
        },
    };
    let size: u64 = if total < 0 {
        (-(total as i128)) as u64
    } else {
        total as u64
    };
    let mut sec = String::new();
    if total < 0 {
        sec.push('-');
    }
    push_decimal(&mut sec, size / 1_000_000_000);
    let mut ms = String::new();
    push_padded3(&mut ms, size / 1_000_000 % 1_000);
    let mut us = String::new();
    push_padded3(&mut us, size / 1_000 % 1_000);
    let mut ns = String::new();
    push_padded3(&mut ns, size % 1_000);
    let mut groups: Vec<Span> = Vec::new();
    groups.push(Span { tone: Tone::Value, text: sec });
    groups.push(Span { tone: Tone::Millis, text: ms });
    groups.push(Span { tone: Tone::Micros, text: us });
    groups.push(Span { tone: Tone::Nanos, text: ns });
    Some(groups)
}

/// The line with the Unix timestamp of `time`.
pub fn combo_ts_line(time: DecodedTime) -> (line: Line)
    ensures
        line@ == unix_line(time),
{
    match prepare_combined_ts(time) {
        Some(groups) => {
            let mut spans: Vec<Span> = Vec::new();
            spans.push(span(Tone::Label, "Unix timestamp:"));
            spans.push(span(Tone::Plain, " "));
            let mut groups = groups;
            spans.append(&mut groups);
            spans.push(span(Tone::Plain, " "));
            spans.push(span(Tone::Value, "s"));
            spans.push(span(Tone::Label, "/"));
            spans.push(span(Tone::Millis, "ms"));
            spans.push(span(Tone::Label, "/"));
            spans.push(span(Tone::Micros, "\u{b5}s"));
            spans.push(span(Tone::Label, "/"));
            spans.push(span(Tone::Nanos, "ns"));
            Line { spans }
        },
        None => unavailable_line("Unix timestamp:", "[time out of bounds]"),
    }
}

/// The line with the ISO 8601 text of `time`.
pub fn iso8601(time: DecodedTime) -> (line: Line)
    ensures
        line@ == iso8601_line(time),
{
    labelled_line("ISO 8601/RFC 3339:", time.to_rfc3339())
}

/// The line with the RFC 2822 text of `time`.
pub fn rfc2822(time: DecodedTime) -> (line: Line)
    ensures
        line@ == rfc2822_line(time),
{
    match time.to_rfc2822() {
        Some(text) => labelled_line("RFC 2822:", text),
        None => unavailable_line("RFC 2822:", "[year out of range]"),
    }
}

/// The three lines that show `time`.
pub fn ts_info(time: DecodedTime) -> (lines: Vec<Line>)
    ensures
        lines_view(lines@) == time_lines(time),
{
    let mut lines: Vec<Line> = Vec::new();
    lines.push(iso8601(time));
    lines.push(rfc2822(time));
    lines.push(combo_ts_line(time));
    lines
}

/// The lines that show a plain timestamp.
pub fn print_timestamp(time: DecodedTime) -> (lines: Vec<Line>)
    ensures
        lines_view(lines@) == time_lines(time),
{
    ts_info(time)
}

/// The lines that show a decoded Discord Snowflake.
pub fn print_discord(id: DiscordID) -> (lines: Vec<Line>)
    ensures
        lines_view(lines@) == discord_lines(id),
{
    let mut lines = ts_info(id.time);
    lines.push(labelled_line("Discord internal worker ID:", decimal_text(id.wid as u64)));
    lines.push(labelled_line("Discord internal process ID:", decimal_text(id.pid as u64)));
    lines.push(
        labelled_line("Discord internal sequential number:", decimal_text(id.seq as u64)),
    );
    lines
}

/// The lines that show a decoded Twitter Snowflake.
pub fn print_twitter(sf: TwitterSnowflake) -> (lines: Vec<Line>)
    ensures
        lines_view(lines@) == twitter_lines(sf),
{
    let mut lines = ts_info(sf.time);
    lines.push(labelled_line("Twitter internal machine ID:", decimal_text(sf.mid as u64)));
    lines.push(
        labelled_line("Twitter internal sequential number:", decimal_text(sf.seq as u64)),
    );
    lines
}

/// The report on what was decoded: a line that names the source, then the
/// time in its textual forms and, for a Snowflake, the fields it holds.
pub fn printit(op: Operation, source: TimeSource) -> (lines: Vec<Line>)
    ensures
        lines_view(lines@) == report(op, source),
{
    let mut head: Vec<Span> = Vec::new();
    head.push(span(Tone::Heading, "Using"));
    head.push(span(Tone::Plain, " "));
    head.push(Span { tone: Tone::Heading, text: source.describe() });
    let first = Line { spans: head };
    assert(first@ =~= source_line(source));
    let mut lines: Vec<Line> = Vec::new();
    lines.push(first);
    let mut rest = match op {
        Operation::Timestamp(time) => print_timestamp(time),
        Operation::Discord(id) => print_discord(id),
        Operation::Twitter(sf) => print_twitter(sf),
    };
    lines.append(&mut rest);
    lines
}

} // verus!
