//! The enumeration code mappings, the status wrapping, and the default
//! stream values.

use oboe::wrap_result;
use oboe::wrap_status;
use oboe::AudioFormat;
use oboe::ChannelCount;
use oboe::DataCallbackResult;
use oboe::DefaultStreamValues;
use oboe::Direction;
use oboe::Error;
use oboe::PerformanceMode;
use oboe::SampleRateConversionQuality;
use oboe::SessionId;
use oboe::SharingMode;
use oboe::StreamState;

#[test]
fn stream_state_codes_match_the_native_values() {
    assert_eq!(StreamState::Uninitialized.to_i32(), 0);
    assert_eq!(StreamState::Unknown.to_i32(), 1);
    assert_eq!(StreamState::Open.to_i32(), 2);
    assert_eq!(StreamState::Starting.to_i32(), 3);
    assert_eq!(StreamState::Started.to_i32(), 4);
    assert_eq!(StreamState::Pausing.to_i32(), 5);
    assert_eq!(StreamState::Paused.to_i32(), 6);
    assert_eq!(StreamState::Flushing.to_i32(), 7);
    assert_eq!(StreamState::Flushed.to_i32(), 8);
    assert_eq!(StreamState::Stopping.to_i32(), 9);
    assert_eq!(StreamState::Stopped.to_i32(), 10);
    assert_eq!(StreamState::Closing.to_i32(), 11);
    assert_eq!(StreamState::Closed.to_i32(), 12);
    assert_eq!(StreamState::Disconnected.to_i32(), 13);
}

#[test]
fn stream_state_round_trips_through_its_code() {
    for code in 0..14 {
        let state = StreamState::from_i32(code).unwrap();
        assert_eq!(state.to_i32(), code);
    }
    assert_eq!(StreamState::from_i32(14), None);
    assert_eq!(StreamState::from_i32(-1), None);
}

#[test]
fn error_codes_match_the_native_values() {
    assert_eq!(Error::Disconnected.to_i32(), -899);
    assert_eq!(Error::IllegalArgument.to_i32(), -898);
    assert_eq!(Error::Internal.to_i32(), -896);
    assert_eq!(Error::InvalidState.to_i32(), -895);
    assert_eq!(Error::InvalidHandle.to_i32(), -892);
    assert_eq!(Error::Unimplemented.to_i32(), -890);
    assert_eq!(Error::Unavailable.to_i32(), -889);
    assert_eq!(Error::NoFreeHandles.to_i32(), -888);
    assert_eq!(Error::NoMemory.to_i32(), -887);
    assert_eq!(Error::Null.to_i32(), -886);
    assert_eq!(Error::Timeout.to_i32(), -885);
    assert_eq!(Error::WouldBlock.to_i32(), -884);
    assert_eq!(Error::InvalidFormat.to_i32(), -883);
    assert_eq!(Error::OutOfRange.to_i32(), -882);
    assert_eq!(Error::NoService.to_i32(), -881);
    assert_eq!(Error::InvalidRate.to_i32(), -880);
    assert_eq!(Error::Closed.to_i32(), -869);
}

#[test]
fn every_error_round_trips_through_its_code() {
    let errors = [
        Error::Disconnected,
        Error::IllegalArgument,
        Error::Internal,
        Error::InvalidState,
        Error::InvalidHandle,
        Error::Unimplemented,
        Error::Unavailable,
        Error::NoFreeHandles,
        Error::NoMemory,
        Error::Null,
        Error::Timeout,
        Error::WouldBlock,
        Error::InvalidFormat,
        Error::OutOfRange,
        Error::NoService,
        Error::InvalidRate,
        Error::Closed,
    ];
    for error in errors {
        assert_eq!(Error::from_i32(error.to_i32()), Some(error));
    }
    assert_eq!(Error::from_i32(-500), None);
    assert_eq!(Error::from_i32(0), None);
}

#[test]
fn wrap_status_maps_zero_to_success_and_codes_to_errors() {
    assert_eq!(wrap_status(0), Ok(()));
    assert_eq!(wrap_status(-885), Err(Error::Timeout));
    assert_eq!(wrap_status(-899), Err(Error::Disconnected));
    assert_eq!(wrap_status(-869), Err(Error::Closed));
}

#[test]
fn wrap_result_keeps_the_value_only_on_success() {
    assert_eq!(wrap_result(0, 42), Ok(42));
    assert_eq!(wrap_result(-882, 42), Err(Error::OutOfRange));
}

#[test]
fn format_codes_and_sample_sizes() {
    assert_eq!(AudioFormat::Invalid.to_i32(), -1);
    assert_eq!(AudioFormat::Unspecified.to_i32(), 0);
    assert_eq!(AudioFormat::I16.to_i32(), 1);
    assert_eq!(AudioFormat::F32.to_i32(), 2);
    assert_eq!(AudioFormat::I24.to_i32(), 3);
    assert_eq!(AudioFormat::I32.to_i32(), 4);
    assert_eq!(AudioFormat::from_i32(2), Some(AudioFormat::F32));
    assert_eq!(AudioFormat::from_i32(5), None);
    assert_eq!(AudioFormat::I16.bytes_per_sample(), 2);
    assert_eq!(AudioFormat::F32.bytes_per_sample(), 4);
    assert_eq!(AudioFormat::I24.bytes_per_sample(), 3);
    assert_eq!(AudioFormat::I32.bytes_per_sample(), 4);
    assert_eq!(AudioFormat::Unspecified.bytes_per_sample(), 0);
}

#[test]
fn assorted_enum_codes_match_the_native_values() {
    assert_eq!(Direction::Output.to_i32(), 0);
    assert_eq!(Direction::Input.to_i32(), 1);
    assert_eq!(DataCallbackResult::Continue.to_i32(), 0);
    assert_eq!(DataCallbackResult::Stop.to_i32(), 1);
    assert_eq!(SharingMode::Exclusive.to_i32(), 0);
    assert_eq!(SharingMode::Shared.to_i32(), 1);
    assert_eq!(PerformanceMode::NoPreference.to_i32(), 10);
    assert_eq!(PerformanceMode::PowerSaving.to_i32(), 11);
    assert_eq!(PerformanceMode::LowLatency.to_i32(), 12);
    assert_eq!(ChannelCount::Unspecified.to_i32(), 0);
    assert_eq!(ChannelCount::Mono.to_i32(), 1);
    assert_eq!(ChannelCount::Stereo.to_i32(), 2);
    assert_eq!(SessionId::DoNotAllocate.to_i32(), -1);
    assert_eq!(SessionId::Allocate.to_i32(), 0);
    assert_eq!(SampleRateConversionQuality::NoConversion.to_i32(), 0);
    assert_eq!(SampleRateConversionQuality::Best.to_i32(), 5);
}

#[test]
fn default_stream_values_start_at_the_engine_defaults() {
    let values = DefaultStreamValues::new();
    assert_eq!(values.get_sample_rate(), 48000);
    assert_eq!(values.get_frames_per_burst(), 192);
    assert_eq!(values.get_channel_count(), 2);
}

#[test]
fn default_stream_values_setters_round_trip() {
    let mut values = DefaultStreamValues::new();
    values.set_sample_rate(44100);
    values.set_frames_per_burst(256);
    values.set_channel_count(1);
    assert_eq!(values.get_sample_rate(), 44100);
    assert_eq!(values.get_frames_per_burst(), 256);
    assert_eq!(values.get_channel_count(), 1);
}

#[test]
fn init_is_unimplemented_before_the_properties_exist() {
    let mut values = DefaultStreamValues::new();
    let status = values.init(16, Some(44100), Some(512));
    assert_eq!(status, Err(Error::Unimplemented));
    assert_eq!(values.get_sample_rate(), 48000);
    assert_eq!(values.get_frames_per_burst(), 192);
}

#[test]
fn init_applies_the_parsed_properties_on_middle_versions() {
    let mut values = DefaultStreamValues::new();
    assert_eq!(values.init(21, Some(44100), Some(512)), Ok(()));
    assert_eq!(values.get_sample_rate(), 44100);
    assert_eq!(values.get_frames_per_burst(), 512);

    let mut partial = DefaultStreamValues::new();
    assert_eq!(partial.init(21, None, Some(512)), Ok(()));
    assert_eq!(partial.get_sample_rate(), 48000);
    assert_eq!(partial.get_frames_per_burst(), 512);
}

#[test]
fn init_is_a_no_op_on_recent_versions() {
    let mut values = DefaultStreamValues::new();
    assert_eq!(values.init(26, Some(44100), Some(512)), Ok(()));
    assert_eq!(values.get_sample_rate(), 48000);
    assert_eq!(values.get_frames_per_burst(), 192);
}
