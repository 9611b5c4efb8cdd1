use too_many_timestamps::args::find_input_type;
use too_many_timestamps::error::Error;
use too_many_timestamps::types::InputType;
use too_many_timestamps::types::TimeSource;

#[test]
fn inputtype_from_letter() {
    assert_eq!(InputType::from_letter("s"), InputType::Seconds);
    assert_eq!(InputType::from_letter("m"), InputType::Millis);
    assert_eq!(InputType::from_letter("u"), InputType::Micros);
    assert_eq!(InputType::from_letter("n"), InputType::Nanos);
    assert_eq!(InputType::from_letter("d"), InputType::Discord);
    assert_eq!(InputType::from_letter("t"), InputType::Twitter);
}

#[test]
fn inputtype_default_is_seconds() {
    assert_eq!(InputType::default(), InputType::Seconds);
}

#[test]
fn inputtype_names() {
    assert_eq!(InputType::Seconds.name(), "seconds");
    assert_eq!(InputType::Millis.name(), "millis");
    assert_eq!(InputType::Micros.name(), "micros");
    assert_eq!(InputType::Nanos.name(), "nanos");
    assert_eq!(InputType::Discord.name(), "Discord ID");
    assert_eq!(InputType::Twitter.name(), "Twitter ID");
}

#[test]
fn timesource_descriptions() {
    assert_eq!(TimeSource::Current.describe(), "current time");
    assert_eq!(TimeSource::Input(InputType::Millis).describe(), "input (as millis)");
    assert_eq!(TimeSource::Input(InputType::Discord).describe(), "input (as Discord ID)");
}

#[test]
fn no_flag_selects_seconds() {
    assert_eq!(find_input_type(&[false; 6]), InputType::Seconds);
}

#[test]
fn each_flag_selects_its_type() {
    let types = [
        InputType::Seconds,
        InputType::Millis,
        InputType::Micros,
        InputType::Nanos,
        InputType::Discord,
        InputType::Twitter,
    ];
    for i in 0..6 {
        let mut flags = [false; 6];
        flags[i] = true;
        assert_eq!(find_input_type(&flags), types[i]);
    }
}

#[test]
fn the_first_flag_set_wins() {
    assert_eq!(find_input_type(&[false, false, true, false, true, true]), InputType::Micros);
    assert_eq!(find_input_type(&[true; 6]), InputType::Seconds);
    assert_eq!(find_input_type(&[false, false, false, false, true, true]), InputType::Discord);
}

#[test]
fn error_messages() {
    assert_eq!(
        Error::InvalidInput.message(),
        "invalid input (digits only, '.,' allowed but ignored)"
    );
    assert_eq!(Error::TimestampOutOfRange.message(), "Timestamp out of range!");
    assert_eq!(
        Error::ArithmeticOverflow.message(),
        "out of range integral type conversion attempted"
    );
}
