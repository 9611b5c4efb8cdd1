//! The kinds of input and the results of decoding.

use vstd::prelude::*;
use vstd::string::StringExecFns;
use vstd::string::StrSliceExecFns;
use crate::calendar::DecodedTime;
use crate::calendar::representable;
use crate::error::Error;
use crate::parsing::parse_snowflake_ts;
use crate::parsing::snowflake_nanos;
use crate::parsing::snowflake_seconds;

verus! {

/// How the raw integer is to be read.
#[derive(Debug, Clone, Copy, PartialEq, Eq, Structural)]
pub enum InputType {
    /// Seconds since the Unix epoch.
    Seconds,
    /// Milliseconds since the Unix epoch.
    Millis,
    /// Microseconds since the Unix epoch.
    Micros,
    /// Nanoseconds since the Unix epoch.
    Nanos,
    /// A Discord Snowflake.
    Discord,
    /// A Twitter Snowflake.
    Twitter,
}

impl InputType {
    /// The input type that a one-letter name stands for.
    pub open spec fn of_letter(letter: Seq<char>) -> Option<InputType> {
        if letter == seq!['s'] {
            Some(InputType::Seconds)
        } else if letter == seq!['m'] {
            Some(InputType::Millis)
        } else if letter == seq!['u'] {
            Some(InputType::Micros)
        } else if letter == seq!['n'] {
            Some(InputType::Nanos)
        } else if letter == seq!['d'] {
            Some(InputType::Discord)
        } else if letter == seq!['t'] {
            Some(InputType::Twitter)
        } else {
            None
        }
    }

    /// The words that name the input type to the user.
    pub open spec fn text(self) -> Seq<char> {
        match self {
            InputType::Seconds => "seconds"@,
            InputType::Millis => "millis"@,
            InputType::Micros => "micros"@,
            InputType::Nanos => "nanos"@,
            InputType::Discord => "Discord ID"@,
            InputType::Twitter => "Twitter ID"@,
        }
    }

    /// The input type of a one-letter name: `s`, `m`, `u`, `n`, `d` or `t`.
    pub fn from_letter(letter: &str) -> (t: InputType)
        requires
            InputType::of_letter(letter@) is Some,
        ensures
            InputType::of_letter(letter@) == Some(t),
    {
        let c = letter.get_char(0);
        match c {
            's' => InputType::Seconds,
            'm' => InputType::Millis,
            'u' => InputType::Micros,
            'n' => InputType::Nanos,
            'd' => InputType::Discord,
            _ => InputType::Twitter,
        }
    }

    /// The input type taken where none is named.
    pub fn default() -> (t: InputType)
        ensures
            t == InputType::Seconds,
    {
        InputType::Seconds
    }

    /// The words that name the input type to the user.
    pub fn name(&self) -> (s: String)
        ensures
            s@ == self.text(),
    {
        match self {
            InputType::Seconds => String::from_str("seconds"),
            InputType::Millis => String::from_str("millis"),
            InputType::Micros => String::from_str("micros"),
            InputType::Nanos => String::from_str("nanos"),
            InputType::Discord => String::from_str("Discord ID"),
            InputType::Twitter => String::from_str("Twitter ID"),
        }
    }
}

/// Where the time that is shown came from.
#[derive(Debug, Clone, Copy, PartialEq, Eq, Structural)]
pub enum TimeSource {
    /// The system clock.
    Current,
    /// The user's input, read as the given type.
    Input(InputType),
}

impl TimeSource {
    /// The words that name the source to the user.
    pub open spec fn text(self) -> Seq<char> {
        match self {
            TimeSource::Current => "current time"@,
            TimeSource::Input(i) => "input (as "@ + i.text() + ")"@,
        }
    }

    /// The words that name the source to the user.
    pub fn describe(&self) -> (s: String)
        ensures
            s@ == self.text(),
    {
        match self {
            TimeSource::Current => String::from_str("current time"),
            TimeSource::Input(i) => {
                let mut s = String::from_str("input (as ");
                let name = i.name();
                s.append(name.as_str());
                s.append(")");
                s
            },
        }
    }
}

/// A decoded Discord Snowflake.
#[derive(Debug, Clone, Copy, PartialEq, Eq)]
pub struct DiscordID {
    /// ID creation time
    pub time: DecodedTime,
    /// Internal worker ID
    pub wid: u8,
    /// Internal process ID
    pub pid: u8,
    /// Sequential number
    pub seq: u16,
}

impl DiscordID {
    /// The first millisecond of 2015, from which Discord counts.
    pub const EPOCH: u64 = 1420070400000;

    /// Decodes a Discord Snowflake: the creation time from the bits above
    /// the low 22, the worker in bits 17 to 21, the process in bits 12 to 16
    /// and the sequential number in the low 12 bits.
    pub fn from_int(id: u64) -> (r: Result<DiscordID, Error>)
        ensures
            r is Ok <==> representable(
                snowflake_seconds(id, DiscordID::EPOCH),
                snowflake_nanos(id, DiscordID::EPOCH),
            ),
            r is Ok ==> {
                &&& r->Ok_0.time.wf()
                &&& r->Ok_0.time.secs() == snowflake_seconds(id, DiscordID::EPOCH)
                &&& r->Ok_0.time.nanos() == snowflake_nanos(id, DiscordID::EPOCH)
                &&& r->Ok_0.wid == (id & 0x3E0000) >> 17
                &&& r->Ok_0.pid == (id & 0x1F000) >> 12
                &&& r->Ok_0.seq == id & 0xFFF
                &&& r->Ok_0.wid < 32
                &&& r->Ok_0.pid < 32
                &&& r->Ok_0.seq < 4096
            },
            r is Err ==> r->Err_0 == Error::TimestampOutOfRange,
    {
        let time = match parse_snowflake_ts(id, DiscordID::EPOCH) {
            Ok(t) => t,
            Err(e) => {
                return Err(e);
            },
        };
        assert((id & 0x3E0000) >> 17 < 32) by (bit_vector);
        assert((id & 0x1F000) >> 12 < 32) by (bit_vector);
        assert(id & 0xFFF < 4096) by (bit_vector);
        let wid = ((id & 0x3E0000) >> 17) as u8;
        let pid = ((id & 0x1F000) >> 12) as u8;
        let seq = (id & 0xFFF) as u16;
        Ok(DiscordID { time, wid, pid, seq })
    }
}

/// The fields of a Discord Snowflake lie side by side and fill it: the
/// milliseconds above the low 22 bits, then five bits of worker, five of
/// process and twelve of sequential number.
pub proof fn lemma_discord_fields_fill(id: u64)
    ensures
        (id & 0x3E0000) >> 17 == (id / 0x20000) % 32,
        (id & 0x1F000) >> 12 == (id / 0x1000) % 32,
        id & 0xFFF == id % 0x1000,
        id >> 22 == id / 0x400000,
        id == (id >> 22) * 0x400000 + ((id & 0x3E0000) >> 17) * 0x20000 + ((id & 0x1F000) >> 12)
            * 0x1000 + (id & 0xFFF),
{
    assert((id & 0x3E0000) >> 17 == (id / 0x20000) % 32) by (bit_vector);
    assert((id & 0x1F000) >> 12 == (id / 0x1000) % 32) by (bit_vector);
    assert(id & 0xFFF == id % 0x1000) by (bit_vector);
    assert(id >> 22 == id / 0x400000) by (bit_vector);
}

/// The fields of a Twitter Snowflake lie side by side and fill it: the
/// milliseconds above the low 22 bits, then ten bits of machine and twelve
/// of sequential number.
pub proof fn lemma_twitter_fields_fill(snowflake: u64)
    ensures
        (snowflake & 0x3FF000) >> 12 == (snowflake / 0x1000) % 1024,
        snowflake & 0xFFF == snowflake % 0x1000,
        snowflake >> 22 == snowflake / 0x400000,
        snowflake == (snowflake >> 22) * 0x400000 + ((snowflake & 0x3FF000) >> 12) * 0x1000 + (
        snowflake & 0xFFF),
{
    assert((snowflake & 0x3FF000) >> 12 == (snowflake / 0x1000) % 1024) by (bit_vector);
    assert(snowflake & 0xFFF == snowflake % 0x1000) by (bit_vector);
    assert(snowflake >> 22 == snowflake / 0x400000) by (bit_vector);
}

/// A decoded Twitter Snowflake.
#[derive(Debug, Clone, Copy, PartialEq, Eq)]
pub struct TwitterSnowflake {
    /// Snowflake creation time
    pub time: DecodedTime,
    /// Internal machine ID
    pub mid: u16,
    /// Sequential number
    pub seq: u16,
}

impl TwitterSnowflake {
    /// The millisecond in November 2010 from which Twitter counts.
    pub const EPOCH: u64 = 1288834974657;

    /// Decodes a Twitter Snowflake: the creation time from the bits above
    /// the low 22, the machine in bits 12 to 21 and the sequential number in
    /// the low 12 bits.
    pub fn from_int(snowflake: u64) -> (r: Result<TwitterSnowflake, Error>)
        ensures
            r is Ok <==> representable(
                snowflake_seconds(snowflake, TwitterSnowflake::EPOCH),
                snowflake_nanos(snowflake, TwitterSnowflake::EPOCH),
            ),
            r is Ok ==> {
                &&& r->Ok_0.time.wf()
                &&& r->Ok_0.time.secs() == snowflake_seconds(snowflake, TwitterSnowflake::EPOCH)
                &&& r->Ok_0.time.nanos() == snowflake_nanos(snowflake, TwitterSnowflake::EPOCH)
                &&& r->Ok_0.mid == (snowflake & 0x3FF000) >> 12
                &&& r->Ok_0.seq == snowflake & 0xFFF
                &&& r->Ok_0.mid < 1024
                &&& r->Ok_0.seq < 4096
            },
            r is Err ==> r->Err_0 == Error::TimestampOutOfRange,
    {
        let time = match parse_snowflake_ts(snowflake, TwitterSnowflake::EPOCH) {
            Ok(t) => t,
            Err(e) => {
                return Err(e);
            },
        };
        assert((snowflake & 0x3FF000) >> 12 < 1024) by (bit_vector);
        assert(snowflake & 0xFFF < 4096) by (bit_vector);
        let mid = ((snowflake & 0x3FF000) >> 12) as u16;
        let seq = (snowflake & 0xFFF) as u16;
        Ok(TwitterSnowflake { time, mid, seq })
    }
}

/// What was decoded, and as what.
#[derive(Debug, Clone, Copy, PartialEq, Eq)]
pub enum Operation {
    /// A plain timestamp.
    Timestamp(DecodedTime),
    /// A Discord Snowflake.
    Discord(DiscordID),
    /// A Twitter Snowflake.
    Twitter(TwitterSnowflake),
}

impl Operation {
    /// The decoded time, whatever it was decoded from.
    pub open spec fn time(self) -> DecodedTime {
        match self {
            Operation::Timestamp(t) => t,
            Operation::Discord(id) => id.time,
            Operation::Twitter(sf) => sf.time,
        }
    }
}

} // verus!
