//! The opened synchronous stream: lifecycle transitions, state waiting,
//! buffer sizing, transport, and teardown.

use oboe::AudioInputStreamSync;
use oboe::AudioOutputStream;
use oboe::AudioOutputStreamSync;
use oboe::AudioInputStreamSafe;
use oboe::AudioOutputStreamSafe;
use oboe::AudioStream;
use oboe::AudioStreamBase;
use oboe::AudioStreamBuilder;
use oboe::AudioStreamSafe;
use oboe::Error;
use oboe::StreamState;
use oboe::DEFAULT_TIMEOUT_NANOS;

#[test]
fn get_state_after_a_successful_start_is_started_not_starting() {
    let mut stream = AudioStreamBuilder::new().open_stream().unwrap();
    assert_eq!(stream.get_state(), StreamState::Open);
    stream.start().unwrap();
    assert_eq!(stream.get_state(), StreamState::Started);
}

#[test]
fn a_zero_timeout_start_only_requests_the_transition() {
    let mut stream = AudioStreamBuilder::new().open_stream().unwrap();
    assert_eq!(stream.start_with_timeout(0), Err(Error::Timeout));
    assert_eq!(stream.get_state(), StreamState::Starting);
    assert_eq!(stream.start_with_timeout(DEFAULT_TIMEOUT_NANOS), Ok(()));
    assert_eq!(stream.get_state(), StreamState::Started);
}

#[test]
fn request_start_is_observed_through_wait_for_state_change() {
    let mut stream = AudioStreamBuilder::new().open_stream().unwrap();
    stream.request_start().unwrap();
    assert_eq!(stream.get_state(), StreamState::Starting);
    let next = stream.wait_for_state_change(StreamState::Starting, DEFAULT_TIMEOUT_NANOS);
    assert_eq!(next, Ok(StreamState::Started));
    assert_eq!(stream.get_state(), StreamState::Started);
}

#[test]
fn wait_for_state_change_with_zero_timeout_fails_with_timeout() {
    let mut stream = AudioStreamBuilder::new().open_stream().unwrap();
    stream.start().unwrap();
    let current = stream.get_state();
    assert_eq!(stream.wait_for_state_change(current, 0), Err(Error::Timeout));
    assert_eq!(stream.get_state(), current);
}

#[test]
fn wait_for_state_change_returns_at_once_when_the_state_already_differs() {
    let mut stream = AudioStreamBuilder::new().open_stream().unwrap();
    stream.start().unwrap();
    let next = stream.wait_for_state_change(StreamState::Open, 0);
    assert_eq!(next, Ok(StreamState::Started));
}

#[test]
fn pause_and_flush_walk_the_output_state_machine() {
    let mut stream = AudioStreamBuilder::new().open_stream().unwrap();
    assert_eq!(stream.pause(), Err(Error::InvalidState));
    stream.start().unwrap();
    assert_eq!(stream.pause(), Ok(()));
    assert_eq!(stream.get_state(), StreamState::Paused);
    assert_eq!(stream.flush(), Ok(()));
    assert_eq!(stream.get_state(), StreamState::Flushed);
    assert_eq!(stream.stop(), Ok(()));
    assert_eq!(stream.get_state(), StreamState::Stopped);
}

#[test]
fn flush_is_rejected_while_playing() {
    let mut stream = AudioStreamBuilder::new().open_stream().unwrap();
    stream.start().unwrap();
    assert_eq!(stream.flush(), Err(Error::InvalidState));
    assert_eq!(stream.get_state(), StreamState::Started);
}

#[test]
fn request_pause_and_request_flush_leave_transient_states() {
    let mut stream = AudioStreamBuilder::new().open_stream().unwrap();
    stream.start().unwrap();
    stream.request_pause().unwrap();
    assert_eq!(stream.get_state(), StreamState::Pausing);
    let paused = stream.wait_for_state_change(StreamState::Pausing, DEFAULT_TIMEOUT_NANOS);
    assert_eq!(paused, Ok(StreamState::Paused));
    stream.request_flush().unwrap();
    assert_eq!(stream.get_state(), StreamState::Flushing);
}

#[test]
fn operations_on_a_closed_stream_fail_with_closed() {
    let mut stream = AudioStreamBuilder::new().open_stream().unwrap();
    assert_eq!(stream.close(), Ok(()));
    assert_eq!(stream.get_state(), StreamState::Closed);
    assert_eq!(stream.close(), Err(Error::Closed));
    assert_eq!(stream.start(), Err(Error::Closed));
    assert_eq!(stream.request_stop(), Err(Error::Closed));
    assert_eq!(stream.set_buffer_size_in_frames(10), Err(Error::Closed));
    assert_eq!(stream.get_available_frames(), Err(Error::Closed));
}

#[test]
fn buffer_size_round_trip_is_capped_at_the_capacity() {
    let mut stream = AudioStreamBuilder::new()
        .set_frames_per_callback(64)
        .set_buffer_capacity_in_frames(256)
        .open_stream()
        .unwrap();
    assert_eq!(stream.get_buffer_capacity_in_frames(), 256);
    assert_eq!(stream.set_buffer_size_in_frames(1000), Ok(256));
    assert_eq!(stream.get_buffer_size_in_frames(), 256);
    assert_eq!(stream.set_buffer_size_in_frames(50), Ok(50));
    assert_eq!(stream.get_buffer_size_in_frames(), 50);
    assert_eq!(stream.set_buffer_size_in_frames(-5), Ok(0));
    assert_eq!(stream.get_buffer_size_in_frames(), 0);
}

#[test]
fn a_non_blocking_write_accepts_only_what_fits() {
    let mut stream = AudioStreamBuilder::new()
        .set_stereo()
        .set_i16()
        .open_stream()
        .unwrap();
    stream.start().unwrap();
    let frames: Vec<(i16, i16)> = vec![(1, -1); 100];
    assert_eq!(stream.write(&frames, 0), Ok(100));
    assert_eq!(stream.get_available_frames(), Ok(100));
    let big: Vec<(i16, i16)> = vec![(2, -2); 384];
    assert_eq!(stream.write(&big, 0), Ok(284));
    assert_eq!(stream.get_available_frames(), Ok(384));
    assert_eq!(stream.write(&big, 0), Ok(0));
    assert_eq!(stream.get_frames_written(), 384);
}

#[test]
fn a_blocking_write_drains_whatever_does_not_fit() {
    let mut stream = AudioStreamBuilder::new().set_mono().set_i16().open_stream().unwrap();
    stream.start().unwrap();
    let frames: Vec<i16> = vec![3; 500];
    assert_eq!(stream.write(&frames, DEFAULT_TIMEOUT_NANOS), Ok(500));
    assert_eq!(stream.get_available_frames(), Ok(384));
    assert_eq!(stream.get_frames_written(), 500);
}

#[test]
fn the_latency_formula_follows_the_fill_and_the_sample_rate() {
    let mut stream = AudioStreamBuilder::new().set_mono().set_i16().open_stream().unwrap();
    assert_eq!(stream.get_timestamp(1), Err(Error::InvalidState));
    assert_eq!(stream.calculate_latency_millis(), Err(Error::InvalidState));
    stream.start().unwrap();
    assert_eq!(stream.calculate_latency_millis(), Err(Error::InvalidState));
    let frames: Vec<i16> = vec![3; 500];
    stream.write(&frames, DEFAULT_TIMEOUT_NANOS).unwrap();
    let stamp = stream.get_timestamp(1).unwrap();
    assert_eq!(stamp.position, 116);
    assert_eq!(stamp.timestamp, 0);
    assert_eq!(stream.calculate_latency_millis(), Ok(384 * 1000 / 48000));
}

#[test]
fn a_blocking_read_fills_the_buffer_with_captured_silence() {
    let mut stream = AudioStreamBuilder::new()
        .set_input()
        .set_mono()
        .set_i16()
        .open_stream()
        .unwrap();
    stream.start().unwrap();
    let mut buffer: Vec<i16> = vec![7; 10];
    assert_eq!(stream.read(&mut buffer, DEFAULT_TIMEOUT_NANOS), Ok(10));
    assert_eq!(buffer, vec![0; 10]);
    assert_eq!(stream.get_frames_read(), 10);
}

#[test]
fn a_non_blocking_read_takes_only_what_was_captured() {
    let mut stream = AudioStreamBuilder::new()
        .set_input()
        .set_mono()
        .set_i16()
        .open_stream()
        .unwrap();
    stream.start().unwrap();
    let mut buffer: Vec<i16> = vec![7; 10];
    assert_eq!(stream.read(&mut buffer, 0), Ok(0));
    assert_eq!(buffer, vec![7; 10]);
    assert_eq!(stream.wait_for_available_frames(4, DEFAULT_TIMEOUT_NANOS), Ok(4));
    assert_eq!(stream.read(&mut buffer, 0), Ok(4));
    assert_eq!(buffer, vec![0, 0, 0, 0, 7, 7, 7, 7, 7, 7]);
    assert_eq!(stream.get_frames_read(), 4);
}

#[test]
fn waiting_for_frames_on_an_output_stream_times_out() {
    let mut stream = AudioStreamBuilder::new().open_stream().unwrap();
    stream.start().unwrap();
    assert_eq!(stream.wait_for_available_frames(10, 0), Err(Error::Timeout));
    assert_eq!(stream.wait_for_available_frames(10, DEFAULT_TIMEOUT_NANOS), Err(Error::Timeout));
    assert_eq!(stream.wait_for_available_frames(0, 0), Ok(0));
}

#[test]
fn releasing_an_unclosed_stream_closes_it_exactly_once() {
    let stream = AudioStreamBuilder::new().open_stream().unwrap();
    let engine = stream.release();
    assert_eq!(engine.state, StreamState::Closed);
    assert_eq!(engine.close_count, 1);
}

#[test]
fn releasing_an_explicitly_closed_stream_does_not_close_it_again() {
    let mut stream = AudioStreamBuilder::new().open_stream().unwrap();
    stream.close().unwrap();
    let engine = stream.release();
    assert_eq!(engine.state, StreamState::Closed);
    assert_eq!(engine.close_count, 1);
}

#[test]
fn xruns_are_reported_on_the_low_latency_api() {
    let stream = AudioStreamBuilder::new().open_stream().unwrap();
    assert_eq!(stream.get_xrun_count(), Ok(0));
}

#[test]
fn flush_discards_the_queued_frames_and_counts_them_as_read() {
    let mut stream = AudioStreamBuilder::new().set_mono().set_i16().open_stream().unwrap();
    stream.start().unwrap();
    let frames: Vec<i16> = vec![1; 100];
    stream.write(&frames, 0).unwrap();
    assert_eq!(stream.get_available_frames(), Ok(100));
    stream.pause().unwrap();
    stream.flush().unwrap();
    assert_eq!(stream.get_available_frames(), Ok(0));
    assert_eq!(stream.get_frames_written(), 100);
}

#[test]
fn transport_is_rejected_before_the_stream_leaves_uninitialized_errors() {
    let mut stream = AudioStreamBuilder::new().set_mono().set_i16().open_stream().unwrap();
    stream.close().unwrap();
    let frames: Vec<i16> = vec![1; 4];
    assert_eq!(stream.write(&frames, 0), Err(Error::Closed));
    assert_eq!(stream.get_timestamp(1), Err(Error::InvalidState));
}

#[test]
fn stopping_an_open_stream_parks_it_in_stopped() {
    let mut stream = AudioStreamBuilder::new().open_stream().unwrap();
    assert_eq!(stream.stop(), Ok(()));
    assert_eq!(stream.get_state(), StreamState::Stopped);
    assert_eq!(stream.start(), Ok(()));
    assert_eq!(stream.get_state(), StreamState::Started);
}
