//! From the sanitized integer and its input type to the decoded result.

use vstd::prelude::*;
use crate::calendar::representable;
use crate::error::Error;
use crate::parsing::parse_timestamp;
use crate::parsing::snowflake_nanos;
use crate::parsing::snowflake_seconds;
use crate::parsing::split_nanos;
use crate::parsing::split_seconds;
use crate::parsing::Split;
use crate::types::DiscordID;
use crate::types::InputType;
use crate::types::Operation;
use crate::types::TwitterSnowflake;

verus! {

/// The 64 bits of `input` read as an unsigned number.
pub open spec fn as_identifier(input: i64) -> u64 {
    if input >= 0 {
        input as u64
    } else {
        (input + 0x1_0000_0000_0000_0000) as u64
    }
}

/// The seconds since the epoch that `input` stands for when read as
/// `input_type`.
pub open spec fn decoded_seconds(input: i64, input_type: InputType) -> int {
    match input_type {
        InputType::Seconds => split_seconds(input as int, 1),
        InputType::Millis => split_seconds(input as int, 1_000),
        InputType::Micros => split_seconds(input as int, 1_000_000),
        InputType::Nanos => split_seconds(input as int, 1_000_000_000),
        InputType::Discord => snowflake_seconds(as_identifier(input), DiscordID::EPOCH),
        InputType::Twitter => snowflake_seconds(as_identifier(input), TwitterSnowflake::EPOCH),
    }
}

/// The nanoseconds after the whole second that `input` stands for when read
/// as `input_type`.
pub open spec fn decoded_nanos(input: i64, input_type: InputType) -> int {
    match input_type {
        InputType::Seconds => split_nanos(input as int, 1),
        InputType::Millis => split_nanos(input as int, 1_000),
        InputType::Micros => split_nanos(input as int, 1_000_000),
        InputType::Nanos => split_nanos(input as int, 1_000_000_000),
        InputType::Discord => snowflake_nanos(as_identifier(input), DiscordID::EPOCH),
        InputType::Twitter => snowflake_nanos(as_identifier(input), TwitterSnowflake::EPOCH),
    }
}

/// Decodes `input` as the input type says: a plain timestamp at one of four
/// precisions, or a Snowflake of one of two platforms.
pub fn dispatch_parsing(input: i64, input_type: &InputType) -> (r: Result<Operation, Error>)
    ensures
        r is Ok <==> representable(
            decoded_seconds(input, *input_type),
            decoded_nanos(input, *input_type),
        ),
        r is Ok ==> {
            &&& r->Ok_0.time().wf()
            &&& r->Ok_0.time().secs() == decoded_seconds(input, *input_type)
            &&& r->Ok_0.time().nanos() == decoded_nanos(input, *input_type)
            &&& match *input_type {
                InputType::Discord => {
                    &&& r->Ok_0 is Discord
                    &&& r->Ok_0->Discord_0.wid == (as_identifier(input) & 0x3E0000) >> 17
                    &&& r->Ok_0->Discord_0.pid == (as_identifier(input) & 0x1F000) >> 12
                    &&& r->Ok_0->Discord_0.seq == as_identifier(input) & 0xFFF
                },
                InputType::Twitter => {
                    &&& r->Ok_0 is Twitter
                    &&& r->Ok_0->Twitter_0.mid == (as_identifier(input) & 0x3FF000) >> 12
                    &&& r->Ok_0->Twitter_0.seq == as_identifier(input) & 0xFFF
                },
                _ => r->Ok_0 is Timestamp,
            }
        },
        r is Err ==> r->Err_0 == Error::TimestampOutOfRange,
{
    match input_type {
        InputType::Seconds => match parse_timestamp(input, Split::S) {
            Ok(t) => Ok(Operation::Timestamp(t)),
            Err(e) => Err(e),
        },
        InputType::Millis => match parse_timestamp(input, Split::M) {
            Ok(t) => Ok(Operation::Timestamp(t)),
            Err(e) => Err(e),
        },
        InputType::Micros => match parse_timestamp(input, Split::U) {
            Ok(t) => Ok(Operation::Timestamp(t)),
            Err(e) => Err(e),
        },
        InputType::Nanos => match parse_timestamp(input, Split::N) {
            Ok(t) => Ok(Operation::Timestamp(t)),
            Err(e) => Err(e),
        },
        InputType::Discord => match DiscordID::from_int(identifier_of(input)) {
            Ok(id) => Ok(Operation::Discord(id)),
            Err(e) => Err(e),
        },
        InputType::Twitter => match TwitterSnowflake::from_int(identifier_of(input)) {
            Ok(sf) => Ok(Operation::Twitter(sf)),
            Err(e) => Err(e),
        },
    }
}

/// The 64 bits of `input` read as an unsigned number.
pub fn identifier_of(input: i64) -> (id: u64)
    ensures
        id == as_identifier(input),
{
    let id = #[verifier::truncate] (input as u64);
    assert(id == as_identifier(input)) by (bit_vector)
        requires
            id == input as u64,
    ;
    id
}

} // verus!
