//! The platform property parser.

use oboe::parse_property_value;
use oboe::AudioFeature;

#[test]
fn plain_decimal_properties_parse() {
    assert_eq!(parse_property_value(b"48000"), Some(48000));
    assert_eq!(parse_property_value(b"0"), Some(0));
    assert_eq!(parse_property_value(b"192"), Some(192));
}

#[test]
fn signed_properties_parse() {
    assert_eq!(parse_property_value(b"+123"), Some(123));
    assert_eq!(parse_property_value(b"-123"), Some(-123));
    assert_eq!(parse_property_value(b"-0"), Some(0));
}

#[test]
fn leading_zeros_are_accepted() {
    assert_eq!(parse_property_value(b"0000000000000042"), Some(42));
}

#[test]
fn the_extreme_values_fit_and_their_neighbours_do_not() {
    assert_eq!(parse_property_value(b"2147483647"), Some(i32::MAX));
    assert_eq!(parse_property_value(b"-2147483648"), Some(i32::MIN));
    assert_eq!(parse_property_value(b"2147483648"), None);
    assert_eq!(parse_property_value(b"-2147483649"), None);
    assert_eq!(parse_property_value(b"99999999999999999999"), None);
}

#[test]
fn malformed_properties_do_not_parse() {
    assert_eq!(parse_property_value(b""), None);
    assert_eq!(parse_property_value(b"-"), None);
    assert_eq!(parse_property_value(b"+"), None);
    assert_eq!(parse_property_value(b"12a3"), None);
    assert_eq!(parse_property_value(b"a12"), None);
    assert_eq!(parse_property_value(b" 12"), None);
    assert_eq!(parse_property_value(b"12 "), None);
    assert_eq!(parse_property_value(b"--1"), None);
}

#[test]
fn parser_agrees_with_the_standard_parser_on_samples() {
    let samples: [&[u8]; 9] = [
        b"48000", b"+7", b"-7", b"007", b"2147483647", b"-2147483648", b"21474836470", b"x",
        b"",
    ];
    for sample in samples {
        let text = std::str::from_utf8(sample).unwrap();
        assert_eq!(parse_property_value(sample), text.parse::<i32>().ok());
    }
}

#[test]
fn audio_feature_names_match_the_platform_names() {
    assert_eq!(
        AudioFeature::LowLatency.feature_name(),
        "android.hardware.audio.low_latency"
    );
    assert_eq!(AudioFeature::Output.feature_name(), "android.hardware.audio.output");
    assert_eq!(AudioFeature::Pro.feature_name(), "android.hardware.audio.pro");
    assert_eq!(AudioFeature::Microphone.feature_name(), "android.hardware.microphone");
    assert_eq!(AudioFeature::Midi.feature_name(), "android.software.midi");
}
