//! The typed stream builder: defaults, configuration chaining, the audio
//! API prediction, and what opening negotiates.

use oboe::AudioApi;
use oboe::AudioFormat;
use oboe::AudioStream;
use oboe::AudioStreamBase;
use oboe::AudioStreamBuilder;
use oboe::AudioStreamSafe;
use oboe::ChannelCount;
use oboe::ContentType;
use oboe::Direction;
use oboe::Error;
use oboe::InputPreset;
use oboe::PerformanceMode;
use oboe::SampleRateConversionQuality;
use oboe::SessionId;
use oboe::SharingMode;
use oboe::StreamState;
use oboe::Output;
use oboe::Unspecified;
use oboe::Usage;

#[test]
fn a_fresh_builder_carries_the_engine_defaults() {
    let builder = AudioStreamBuilder::default();
    assert_eq!(builder.get_direction(), Direction::Output);
    assert_eq!(builder.get_channel_count(), ChannelCount::Unspecified);
    assert_eq!(builder.get_format(), AudioFormat::Unspecified);
    assert_eq!(builder.get_sample_rate(), 0);
    assert_eq!(builder.get_frames_per_callback(), 0);
    assert_eq!(builder.get_buffer_size_in_frames(), 0);
    assert_eq!(builder.get_buffer_capacity_in_frames(), 0);
    assert_eq!(builder.get_sharing_mode(), SharingMode::Shared);
    assert_eq!(builder.get_performance_mode(), PerformanceMode::NoPreference);
    assert_eq!(builder.get_device_id(), 0);
    assert_eq!(builder.get_usage(), Usage::Media);
    assert_eq!(builder.get_content_type(), ContentType::Music);
    assert_eq!(builder.get_input_preset(), InputPreset::VoiceRecognition);
    assert_eq!(builder.get_session_id(), SessionId::DoNotAllocate);
    assert!(builder.is_channel_conversion_allowed());
    assert!(builder.is_format_conversion_allowed());
    assert_eq!(
        builder.get_sample_rate_conversion_quality(),
        SampleRateConversionQuality::NoConversion
    );
    assert_eq!(builder.get_audio_api(), AudioApi::Unspecified);
}

#[test]
fn configuration_calls_narrow_and_record_the_request() {
    let builder = AudioStreamBuilder::new()
        .set_input()
        .set_mono()
        .set_i16()
        .set_sample_rate(44100)
        .set_frames_per_callback(64)
        .set_buffer_capacity_in_frames(1024)
        .set_exclusive()
        .set_performance_mode(PerformanceMode::LowLatency)
        .set_usage(Usage::Game)
        .set_content_type(ContentType::Speech)
        .set_input_preset(InputPreset::Camcorder)
        .set_session_id(SessionId::Allocate)
        .set_device_id(7)
        .set_channel_conversion_allowed(false)
        .set_format_conversion_allowed(false)
        .set_sample_rate_conversion_quality(SampleRateConversionQuality::Medium);
    assert_eq!(builder.get_direction(), Direction::Input);
    assert_eq!(builder.get_channel_count(), ChannelCount::Mono);
    assert_eq!(builder.get_format(), AudioFormat::I16);
    assert_eq!(builder.get_sample_rate(), 44100);
    assert_eq!(builder.get_frames_per_callback(), 64);
    assert_eq!(builder.get_buffer_capacity_in_frames(), 1024);
    assert_eq!(builder.get_sharing_mode(), SharingMode::Exclusive);
    assert_eq!(builder.get_performance_mode(), PerformanceMode::LowLatency);
    assert_eq!(builder.get_usage(), Usage::Game);
    assert_eq!(builder.get_content_type(), ContentType::Speech);
    assert_eq!(builder.get_input_preset(), InputPreset::Camcorder);
    assert_eq!(builder.get_session_id(), SessionId::Allocate);
    assert!(!builder.is_channel_conversion_allowed());
    assert!(!builder.is_format_conversion_allowed());
    assert_eq!(
        builder.get_sample_rate_conversion_quality(),
        SampleRateConversionQuality::Medium
    );
}

#[test]
fn the_remaining_marker_setters_narrow_too() {
    let builder = AudioStreamBuilder::new().set_output().set_stereo().set_i32().set_shared();
    assert_eq!(builder.get_direction(), Direction::Output);
    assert_eq!(builder.get_channel_count(), ChannelCount::Stereo);
    assert_eq!(builder.get_format(), AudioFormat::I32);
    assert_eq!(builder.get_sharing_mode(), SharingMode::Shared);
}

#[test]
fn will_use_aaudio_follows_the_requested_api() {
    assert!(AudioStreamBuilder::<Output, Unspecified, Unspecified>::is_aaudio_supported());
    assert!(AudioStreamBuilder::<Output, Unspecified, Unspecified>::is_aaudio_recommended());
    let unspecified = AudioStreamBuilder::new();
    assert!(unspecified.will_use_aaudio());
    let aaudio = AudioStreamBuilder::new().set_audio_api(AudioApi::AAudio);
    assert!(aaudio.will_use_aaudio());
    let opensl = AudioStreamBuilder::new().set_audio_api(AudioApi::OpenSLES);
    assert!(!opensl.will_use_aaudio());
}

#[test]
fn opening_with_defaults_negotiates_every_unspecified_field() {
    let stream = AudioStreamBuilder::new().open_stream().unwrap();
    assert_eq!(stream.get_state(), StreamState::Open);
    assert_eq!(stream.get_sample_rate(), 48000);
    assert_eq!(stream.get_format(), AudioFormat::I16);
    assert_eq!(stream.get_channel_count(), ChannelCount::Stereo);
    assert_eq!(stream.get_buffer_capacity_in_frames(), 384);
    assert_eq!(stream.get_buffer_size_in_frames(), 384);
    assert_eq!(stream.get_audio_api(), AudioApi::AAudio);
    assert!(stream.uses_aaudio());
    assert!(stream.is_xrun_count_supported());
}

#[test]
fn opening_keeps_concrete_requests_and_sizes_the_buffer_from_the_burst() {
    let mut stream = AudioStreamBuilder::new()
        .set_stereo()
        .set_i16()
        .set_sample_rate(44100)
        .set_frames_per_callback(64)
        .set_buffer_capacity_in_frames(256)
        .open_stream()
        .unwrap();
    assert_eq!(stream.get_sample_rate(), 44100);
    assert_eq!(stream.get_frames_per_burst(), 64);
    assert_eq!(stream.get_buffer_capacity_in_frames(), 256);
    assert_eq!(stream.get_buffer_size_in_frames(), 128);
    assert_eq!(stream.get_bytes_per_sample(), 2);
    assert_eq!(stream.get_bytes_per_frame(), 4);
}

#[test]
fn opening_with_opensles_clears_the_device_id_and_xrun_support() {
    let mut stream = AudioStreamBuilder::new()
        .set_device_id(5)
        .set_audio_api(AudioApi::OpenSLES)
        .open_stream()
        .unwrap();
    assert_eq!(stream.get_audio_api(), AudioApi::OpenSLES);
    assert_eq!(stream.get_device_id(), 0);
    assert!(!stream.is_xrun_count_supported());
    assert_eq!(stream.get_xrun_count(), Err(Error::Unimplemented));
    let _ = stream.close();
}

#[test]
fn opening_rejects_a_negative_sample_rate() {
    let outcome = AudioStreamBuilder::new().set_sample_rate(-1).open_stream();
    assert_eq!(outcome.err(), Some(Error::InvalidRate));
}

#[test]
fn opening_rejects_negative_frame_counts() {
    let negative_callback = AudioStreamBuilder::new().set_frames_per_callback(-2).open_stream();
    assert_eq!(negative_callback.err(), Some(Error::OutOfRange));
    let negative_capacity =
        AudioStreamBuilder::new().set_buffer_capacity_in_frames(-2).open_stream();
    assert_eq!(negative_capacity.err(), Some(Error::OutOfRange));
}

#[test]
fn a_tiny_capacity_request_is_raised_to_two_bursts() {
    let stream = AudioStreamBuilder::new().set_buffer_capacity_in_frames(16).open_stream().unwrap();
    assert_eq!(stream.get_buffer_capacity_in_frames(), 384);
}
