//! The textual rendering of configurations and streams.

use oboe::decimal_string;
use oboe::AudioStreamBase;
use oboe::AudioStreamBuilder;
use oboe::AudioStreamSafe;

#[test]
fn decimal_rendering_matches_the_standard_formatting() {
    let samples = [0, 1, 9, 10, 48000, 2147483647, -1, -384, -2147483648];
    for value in samples {
        assert_eq!(decimal_string(value), value.to_string());
    }
}

#[test]
fn a_default_output_stream_describes_itself_line_by_line() {
    let stream = AudioStreamBuilder::new().open_stream().unwrap();
    let expected = "DeviceId: 0\n\
        SessionId: DoNotAllocate\n\
        Direction: Output\n\
        Buffer capacity in frames: 384\n\
        Buffer size in frames: 384\n\
        Frames per callback: 0\n\
        Sample rate: 48000\n\
        Sample rate conversion quality: NoConversion\n\
        Channel count: Stereo (conversion allowed)\n\
        Format: I16 (conversion allowed)\n\
        Sharing mode: Shared\n\
        Performance mode: NoPreference\n\
        Usage: Media\n\
        Content type: Music\n";
    assert_eq!(stream.describe(), expected);
    let with_state = format!(
        "{expected}Audio API: AAudio\nCurrent state: Open\nXrun count: 0\n"
    );
    assert_eq!(stream.describe_stream(), with_state);
}

#[test]
fn an_input_builder_reports_its_preset() {
    let builder = AudioStreamBuilder::new().set_input().set_device_id(-42);
    let description = builder.describe();
    assert!(description.contains("Input preset: VoiceRecognition\n"));
    assert!(description.starts_with("DeviceId: -42\n"));
}
