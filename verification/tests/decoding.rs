use chrono::DateTime;
use too_many_timestamps::calendar::DecodedTime;
use too_many_timestamps::calendar::MAX_SECONDS;
use too_many_timestamps::calendar::MIN_SECONDS;
use too_many_timestamps::dispatch::dispatch_parsing;
use too_many_timestamps::dispatch::identifier_of;
use too_many_timestamps::error::Error;
use too_many_timestamps::parsing::parse_input_to_int;
use too_many_timestamps::parsing::parse_snowflake_ts;
use too_many_timestamps::parsing::parse_timestamp;
use too_many_timestamps::parsing::split_timestamp;
use too_many_timestamps::parsing::Split;
use too_many_timestamps::types::DiscordID;
use too_many_timestamps::types::InputType;
use too_many_timestamps::types::Operation;
use too_many_timestamps::types::TwitterSnowflake;

const TWITTER_EPOCH: u64 = 1288834974657;

#[test]
fn snowflake_ts_macro() {
    // Actual twitter snowflake found in the wild
    let snowflake: u64 = 1442310554454986761;

    // Directly instanciating a time that should be equivalent
    let dt = DecodedTime::from_timestamp(1632708607, 673000000).unwrap();

    assert_eq!(parse_snowflake_ts(snowflake, TWITTER_EPOCH).unwrap(), dt);
}

#[test]
fn snowflake_time_agrees_with_chrono() {
    let snowflake: u64 = 1442310554454986761;
    let dt = DateTime::from_timestamp(1632708607, 673000000).unwrap();
    let decoded = parse_snowflake_ts(snowflake, TWITTER_EPOCH).unwrap();
    assert_eq!(DateTime::from_timestamp(decoded.seconds(), decoded.nanoseconds()).unwrap(), dt);
    assert_eq!(decoded.to_rfc3339(), dt.to_rfc3339_opts(chrono::SecondsFormat::AutoSi, true));
}

#[test]
fn discord_from_int() {
    let id: u64 = 564766093051166729;

    let time = parse_snowflake_ts(id, DiscordID::EPOCH).unwrap();
    let wid: u8 = 0;
    let pid: u8 = 0;
    let seq: u16 = 9;

    assert_eq!(DiscordID::from_int(id).unwrap(), DiscordID { time, wid, pid, seq });
}

#[test]
fn twitter_from_int() {
    let snowflake: u64 = 1442468859282288643;

    let time = parse_snowflake_ts(snowflake, TwitterSnowflake::EPOCH).unwrap();
    let mid: u16 = 343;
    let seq: u16 = 3;

    assert_eq!(
        TwitterSnowflake::from_int(snowflake).unwrap(),
        TwitterSnowflake { time, mid, seq }
    );
}

#[test]
fn twitter_snowflake_creation_time() {
    let sf = TwitterSnowflake::from_int(1442310554454986761).unwrap();
    assert_eq!(sf.time.seconds(), 1632708607);
    assert_eq!(sf.time.nanoseconds(), 673_000_000);
    assert_eq!(sf.time.to_rfc3339(), "2021-09-27T02:10:07.673Z");
}

#[test]
fn discord_snowflake_creation_time() {
    let id: u64 = 564766093051166729;
    let decoded = DiscordID::from_int(id).unwrap();
    let millis = (id >> 22) + 1420070400000;
    assert_eq!(millis, 1554721129430);
    assert_eq!(decoded.time.seconds(), 1554721129);
    assert_eq!(decoded.time.nanoseconds(), 430_000_000);
    assert_eq!(decoded.time.to_rfc3339(), "2019-04-08T10:58:49.430Z");
    assert_eq!((decoded.wid, decoded.pid, decoded.seq), (0, 0, 9));
}

#[test]
fn epochs_are_the_platforms_own() {
    assert_eq!(DiscordID::EPOCH, 1420070400000);
    assert_eq!(TwitterSnowflake::EPOCH, 1288834974657);
}

#[test]
fn discord_fields_come_from_their_bits() {
    let id: u64 = (1 << 22) | (21 << 17) | (10 << 12) | 0xABC;
    let decoded = DiscordID::from_int(id).unwrap();
    assert_eq!(decoded.wid, 21);
    assert_eq!(decoded.pid, 10);
    assert_eq!(decoded.seq, 0xABC);
    assert_eq!(decoded.time.seconds(), 1420070400);
    assert_eq!(decoded.time.nanoseconds(), 1_000_000);
}

#[test]
fn twitter_fields_come_from_their_bits() {
    let id: u64 = (999 << 22) | (0x2A5 << 12) | 0x123;
    let decoded = TwitterSnowflake::from_int(id).unwrap();
    assert_eq!(decoded.mid, 0x2A5);
    assert_eq!(decoded.seq, 0x123);
    assert_eq!(decoded.time.seconds(), 1288834975);
    assert_eq!(decoded.time.nanoseconds(), 656_000_000);
}

#[test]
fn every_bit_set_still_decodes() {
    let decoded = DiscordID::from_int(u64::MAX).unwrap();
    assert_eq!((decoded.wid, decoded.pid, decoded.seq), (31, 31, 4095));
    assert_eq!(decoded.time.seconds(), 5818116911);
    let decoded = TwitterSnowflake::from_int(u64::MAX).unwrap();
    assert_eq!((decoded.mid, decoded.seq), (1023, 4095));
}

#[test]
fn snowflake_with_far_epoch_is_out_of_range() {
    assert_eq!(parse_snowflake_ts(0, u64::MAX), Err(Error::TimestampOutOfRange));
    assert_eq!(parse_snowflake_ts(u64::MAX, u64::MAX), Err(Error::TimestampOutOfRange));
    assert_eq!(parse_snowflake_ts(0, 8_210_266_876_800_000), Err(Error::TimestampOutOfRange));
    assert!(parse_snowflake_ts(0, 8_210_266_876_799_999).is_ok());
}

#[test]
fn sanitizing_strips_separators() {
    assert_eq!(parse_input_to_int("1,234.567".to_string()), Ok(1234567));
    assert_eq!(parse_input_to_int("1632708607".to_string()), Ok(1632708607));
    assert_eq!(parse_input_to_int("..,,12,.3..".to_string()), Ok(123));
    assert_eq!(parse_input_to_int(".-.5,".to_string()), Ok(-5));
}

#[test]
fn sanitizing_reads_signs() {
    assert_eq!(parse_input_to_int("-1".to_string()), Ok(-1));
    assert_eq!(parse_input_to_int("+17".to_string()), Ok(17));
    assert_eq!(parse_input_to_int("-0".to_string()), Ok(0));
    assert_eq!(parse_input_to_int("0007".to_string()), Ok(7));
}

#[test]
fn sanitizing_reaches_both_ends_of_the_range() {
    assert_eq!(parse_input_to_int("9223372036854775807".to_string()), Ok(i64::MAX));
    assert_eq!(parse_input_to_int("-9223372036854775808".to_string()), Ok(i64::MIN));
    assert_eq!(parse_input_to_int("9,223,372,036,854,775,807".to_string()), Ok(i64::MAX));
    assert_eq!(
        parse_input_to_int("000000000000000000009223372036854775807".to_string()),
        Ok(i64::MAX)
    );
}

#[test]
fn sanitizing_rejects_what_is_no_integer() {
    assert_eq!(parse_input_to_int("".to_string()), Err(Error::InvalidInput));
    assert_eq!(parse_input_to_int(".,".to_string()), Err(Error::InvalidInput));
    assert_eq!(parse_input_to_int("-".to_string()), Err(Error::InvalidInput));
    assert_eq!(parse_input_to_int("+".to_string()), Err(Error::InvalidInput));
    assert_eq!(parse_input_to_int("12a".to_string()), Err(Error::InvalidInput));
    assert_eq!(parse_input_to_int("1 2".to_string()), Err(Error::InvalidInput));
    assert_eq!(parse_input_to_int("1-2".to_string()), Err(Error::InvalidInput));
    assert_eq!(parse_input_to_int("--2".to_string()), Err(Error::InvalidInput));
    assert_eq!(parse_input_to_int("0x10".to_string()), Err(Error::InvalidInput));
    assert_eq!(parse_input_to_int("\u{663}".to_string()), Err(Error::InvalidInput));
}

#[test]
fn sanitizing_rejects_overflow() {
    assert_eq!(parse_input_to_int("9223372036854775808".to_string()), Err(Error::InvalidInput));
    assert_eq!(parse_input_to_int("-9223372036854775809".to_string()), Err(Error::InvalidInput));
    assert_eq!(
        parse_input_to_int("99999999999999999999999999999999".to_string()),
        Err(Error::InvalidInput)
    );
    assert_eq!(parse_input_to_int("18446744073709551616".to_string()), Err(Error::InvalidInput));
}

#[test]
fn sanitizing_agrees_with_std() {
    for text in ["0", "-12", "+12", "007", "9223372036854775807", "-9223372036854775808", "", "-", "1e3", "92233720368547758070"] {
        let expected = text.parse::<i64>().map_err(|_| Error::InvalidInput);
        assert_eq!(parse_input_to_int(text.to_string()), expected);
    }
}

#[test]
fn splitting_negative_one_millisecond() {
    assert_eq!(split_timestamp(-1, 1000), Ok((-1, 999_000_000)));
}

#[test]
fn splitting_at_each_precision() {
    assert_eq!(split_timestamp(1632708607673, 1), Ok((1632708607673, 0)));
    assert_eq!(split_timestamp(1632708607673, 1_000), Ok((1632708607, 673_000_000)));
    assert_eq!(split_timestamp(1632708607673, 1_000_000), Ok((1632708, 607_673_000)));
    assert_eq!(split_timestamp(1632708607673, 1_000_000_000), Ok((1632, 708_607_673)));
    assert_eq!(split_timestamp(-1632708607673, 1_000_000), Ok((-1632709, 392_327_000)));
    assert_eq!(split_timestamp(0, 1_000), Ok((0, 0)));
}

#[test]
fn splitting_the_ends_of_the_range() {
    assert_eq!(split_timestamp(i64::MIN, 1_000), Ok((-9223372036854776, 192_000_000)));
    assert_eq!(split_timestamp(i64::MAX, 1_000), Ok((9223372036854775, 807_000_000)));
    assert_eq!(split_timestamp(i64::MIN, 1_000_000_000), Ok((-9223372037, 145_224_192)));
    assert_eq!(split_timestamp(i64::MAX, i64::MAX), Ok((1, 0)));
    assert_eq!(split_timestamp(i64::MIN, i64::MAX), Ok((-2, 0)));
}

#[test]
fn splitting_then_recombining_gives_the_timestamp() {
    for div in [1_000i64, 1_000_000, 1_000_000_000] {
        for ts in [0i64, 1, -1, 999, -999, 1000, -1000, 1632708607673, -1632708607673, i64::MAX, i64::MIN] {
            let (secs, nanos) = split_timestamp(ts, div).unwrap();
            let scale = 1_000_000_000 / div;
            assert!(nanos < 1_000_000_000);
            assert_eq!(secs as i128 * div as i128 + (nanos as i64 / scale) as i128, ts as i128);
        }
    }
}

#[test]
fn plain_timestamps_at_each_precision() {
    let t = parse_timestamp(1632708607, Split::S).unwrap();
    assert_eq!((t.seconds(), t.nanoseconds()), (1632708607, 0));
    let t = parse_timestamp(1632708607673, Split::M).unwrap();
    assert_eq!((t.seconds(), t.nanoseconds()), (1632708607, 673_000_000));
    let t = parse_timestamp(1632708607673001, Split::U).unwrap();
    assert_eq!((t.seconds(), t.nanoseconds()), (1632708607, 673_001_000));
    let t = parse_timestamp(1632708607673001002, Split::N).unwrap();
    assert_eq!((t.seconds(), t.nanoseconds()), (1632708607, 673_001_002));
    let t = parse_timestamp(-1, Split::N).unwrap();
    assert_eq!((t.seconds(), t.nanoseconds()), (-1, 999_999_999));
}

#[test]
fn out_of_range_seconds_are_an_error() {
    assert_eq!(parse_timestamp(i64::MAX, Split::S), Err(Error::TimestampOutOfRange));
    assert_eq!(parse_timestamp(i64::MIN, Split::S), Err(Error::TimestampOutOfRange));
    assert_eq!(
        dispatch_parsing(i64::MAX, &InputType::Seconds),
        Err(Error::TimestampOutOfRange)
    );
    assert_eq!(
        dispatch_parsing(i64::MAX, &InputType::Millis),
        Err(Error::TimestampOutOfRange)
    );
    assert_eq!(
        dispatch_parsing(i64::MAX, &InputType::Micros),
        Err(Error::TimestampOutOfRange)
    );
    assert!(dispatch_parsing(8_210_266_876_799_999_999, &InputType::Micros).is_ok());
    assert!(dispatch_parsing(i64::MAX, &InputType::Nanos).is_ok());
    assert!(dispatch_parsing(i64::MIN, &InputType::Nanos).is_ok());
}

#[test]
fn the_calendar_ends_where_chrono_ends() {
    assert_eq!(MIN_SECONDS, DateTime::<chrono::Utc>::MIN_UTC.timestamp());
    assert_eq!(MAX_SECONDS, DateTime::<chrono::Utc>::MAX_UTC.timestamp());
    assert!(DecodedTime::from_timestamp(MAX_SECONDS, 999_999_999).is_ok());
    assert!(DecodedTime::from_timestamp(MIN_SECONDS, 0).is_ok());
    assert_eq!(
        DecodedTime::from_timestamp(MAX_SECONDS + 1, 0),
        Err(Error::TimestampOutOfRange)
    );
    assert_eq!(
        DecodedTime::from_timestamp(MIN_SECONDS - 1, 999_999_999),
        Err(Error::TimestampOutOfRange)
    );
    assert!(DateTime::from_timestamp(MAX_SECONDS + 1, 0).is_none());
    assert!(DateTime::from_timestamp(MIN_SECONDS - 1, 999_999_999).is_none());
}

#[test]
fn a_second_has_less_than_a_second_of_nanoseconds() {
    assert_eq!(DecodedTime::from_timestamp(0, 1_000_000_000), Err(Error::TimestampOutOfRange));
    assert_eq!(DecodedTime::from_timestamp(59, 1_500_000_000), Err(Error::TimestampOutOfRange));
    assert_eq!(DecodedTime::from_timestamp(0, u32::MAX), Err(Error::TimestampOutOfRange));
    assert!(DecodedTime::from_timestamp(0, 999_999_999).is_ok());
}

#[test]
fn dispatching_by_input_type() {
    let time = DecodedTime::from_timestamp(1632708607, 673_000_000).unwrap();
    assert_eq!(
        dispatch_parsing(1632708607673, &InputType::Millis),
        Ok(Operation::Timestamp(time))
    );
    assert_eq!(
        dispatch_parsing(1632708607673000, &InputType::Micros),
        Ok(Operation::Timestamp(time))
    );
    assert_eq!(
        dispatch_parsing(1632708607673000000, &InputType::Nanos),
        Ok(Operation::Timestamp(time))
    );
    assert_eq!(
        dispatch_parsing(1632708607, &InputType::Seconds),
        Ok(Operation::Timestamp(DecodedTime::from_timestamp(1632708607, 0).unwrap()))
    );
    assert_eq!(
        dispatch_parsing(564766093051166729, &InputType::Discord),
        Ok(Operation::Discord(DiscordID::from_int(564766093051166729).unwrap()))
    );
    assert_eq!(
        dispatch_parsing(1442468859282288643, &InputType::Twitter),
        Ok(Operation::Twitter(TwitterSnowflake::from_int(1442468859282288643).unwrap()))
    );
}

#[test]
fn a_negative_identifier_is_read_by_its_bits() {
    assert_eq!(identifier_of(-1), u64::MAX);
    assert_eq!(identifier_of(i64::MIN), 1 << 63);
    assert_eq!(identifier_of(7), 7);
    assert_eq!(
        dispatch_parsing(-1, &InputType::Discord),
        Ok(Operation::Discord(DiscordID::from_int(u64::MAX).unwrap()))
    );
}
