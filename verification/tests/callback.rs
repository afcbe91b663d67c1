//! The callback-driven stream: the trampoline entry points, the frame
//! type matrix, the error-hook ordering, and the teardown protocol.

use oboe::AltFrame;
use oboe::AudioApi;
use oboe::AudioInputCallback;
use oboe::AudioOutputCallback;
use oboe::AudioOutputStream;
use oboe::AudioStream;
use oboe::AudioStreamBase;
use oboe::AudioStreamBuilder;
use oboe::AudioStreamRef;
use oboe::AudioStreamSafe;
use oboe::DataCallbackResult;
use oboe::Error;
use oboe::Input;
use oboe::Mono;
use oboe::Output;
use oboe::Stereo;
use oboe::StreamState;
use oboe::Unspecified;

struct ConstWriter {
    value: i16,
    bursts_left: u32,
    invocations: u32,
}

impl AudioOutputCallback for ConstWriter {
    type FrameType = (i16, Mono);

    fn on_audio_ready(
        &mut self,
        _audio_stream: &mut AudioStreamRef<Output>,
        audio_data: &mut Vec<i16>,
    ) -> DataCallbackResult {
        self.invocations += 1;
        for sample in audio_data.iter_mut() {
            *sample = self.value;
        }
        if self.bursts_left <= 1 {
            self.bursts_left = 0;
            DataCallbackResult::Stop
        } else {
            self.bursts_left -= 1;
            DataCallbackResult::Continue
        }
    }
}

#[test]
fn a_constant_writer_fills_every_slot_until_it_signals_stop() {
    let callback = ConstWriter { value: 1234, bursts_left: 4, invocations: 0 };
    let mut stream = AudioStreamBuilder::new()
        .set_output()
        .set_mono()
        .set_i16()
        .set_callback(callback)
        .open_stream()
        .unwrap();
    stream.start().unwrap();
    let frame_counts = [64usize, 96, 32, 128];
    let mut delivered = 0u32;
    for (index, count) in frame_counts.iter().enumerate() {
        assert!(stream.is_callback_active());
        let mut buffer: Vec<i16> = vec![0; *count];
        let code = stream.on_audio_ready(&mut buffer);
        delivered += 1;
        assert_eq!(buffer.len(), *count);
        assert!(buffer.iter().all(|sample| *sample == 1234));
        if index < frame_counts.len() - 1 {
            assert_eq!(code, DataCallbackResult::Continue.to_i32());
        } else {
            assert_eq!(code, DataCallbackResult::Stop.to_i32());
        }
    }
    assert!(!stream.is_callback_active());
    let mut extra: Vec<i16> = vec![9; 16];
    assert_eq!(stream.on_audio_ready(&mut extra), DataCallbackResult::Stop.to_i32());
    assert_eq!(extra, vec![9; 16]);
    let (engine, callback) = stream.release();
    assert_eq!(callback.invocations, delivered);
    assert_eq!(engine.close_count, 1);
    assert_eq!(engine.state, StreamState::Closed);
}

#[test]
fn no_callback_fires_before_the_stream_is_started() {
    let callback = ConstWriter { value: 5, bursts_left: 10, invocations: 0 };
    let mut stream = AudioStreamBuilder::new()
        .set_output()
        .set_mono()
        .set_i16()
        .set_callback(callback)
        .open_stream()
        .unwrap();
    assert!(!stream.is_callback_active());
    let mut buffer: Vec<i16> = vec![3; 8];
    assert_eq!(stream.on_audio_ready(&mut buffer), DataCallbackResult::Stop.to_i32());
    assert_eq!(buffer, vec![3; 8]);
    let (_, callback) = stream.release();
    assert_eq!(callback.invocations, 0);
}

struct ResizingWriter;

impl AudioOutputCallback for ResizingWriter {
    type FrameType = (i16, Mono);

    fn on_audio_ready(
        &mut self,
        _audio_stream: &mut AudioStreamRef<Output>,
        audio_data: &mut Vec<i16>,
    ) -> DataCallbackResult {
        audio_data.clear();
        audio_data.push(42);
        DataCallbackResult::Continue
    }
}

#[test]
fn the_delivered_frame_count_survives_a_callback_that_resizes_the_buffer() {
    let mut stream = AudioStreamBuilder::new()
        .set_output()
        .set_mono()
        .set_i16()
        .set_callback(ResizingWriter)
        .open_stream()
        .unwrap();
    stream.start().unwrap();
    let mut buffer: Vec<i16> = vec![7; 6];
    let code = stream.on_audio_ready(&mut buffer);
    assert_eq!(code, DataCallbackResult::Continue.to_i32());
    assert_eq!(buffer.len(), 6);
    assert_eq!(buffer, vec![42, 0, 0, 0, 0, 0]);
}

struct TuningWriter;

impl AudioOutputCallback for TuningWriter {
    type FrameType = (i16, Mono);

    fn on_audio_ready(
        &mut self,
        audio_stream: &mut AudioStreamRef<Output>,
        _audio_data: &mut Vec<i16>,
    ) -> DataCallbackResult {
        let resulting = audio_stream.set_buffer_size_in_frames(10_000);
        assert_eq!(resulting, Ok(384));
        DataCallbackResult::Continue
    }
}

#[test]
fn a_buffer_size_adjustment_made_inside_the_callback_is_kept_and_clamped() {
    let mut stream = AudioStreamBuilder::new()
        .set_output()
        .set_mono()
        .set_i16()
        .set_callback(TuningWriter)
        .open_stream()
        .unwrap();
    stream.start().unwrap();
    let mut buffer: Vec<i16> = vec![0; 4];
    stream.on_audio_ready(&mut buffer);
    assert_eq!(stream.get_buffer_size_in_frames(), 384);
}

struct FrameCounter {
    frames_seen: i64,
}

impl AudioInputCallback for FrameCounter {
    type FrameType = (i16, Stereo);

    fn on_audio_ready(
        &mut self,
        _audio_stream: &mut AudioStreamRef<Input>,
        audio_data: &[(i16, i16)],
    ) -> DataCallbackResult {
        self.frames_seen += audio_data.len() as i64;
        DataCallbackResult::Continue
    }
}

#[test]
fn a_recording_callback_sees_the_captured_frames_and_the_counters_advance() {
    let mut stream = AudioStreamBuilder::new()
        .set_input()
        .set_stereo()
        .set_i16()
        .set_callback(FrameCounter { frames_seen: 0 })
        .open_stream()
        .unwrap();
    stream.start().unwrap();
    let captured: Vec<(i16, i16)> = vec![(1, 2); 48];
    assert_eq!(stream.on_audio_ready(&captured), DataCallbackResult::Continue.to_i32());
    let (engine, callback) = stream.release();
    assert_eq!(callback.frames_seen, 48);
    assert_eq!(engine.consumed_frames, 48);
}

struct LengthProbe<T> {
    last_len: usize,
    _frame: std::marker::PhantomData<T>,
}

impl AudioOutputCallback for LengthProbe<(i16, Stereo)> {
    type FrameType = (i16, Stereo);

    fn on_audio_ready(
        &mut self,
        _audio_stream: &mut AudioStreamRef<Output>,
        audio_data: &mut Vec<(i16, i16)>,
    ) -> DataCallbackResult {
        self.last_len = audio_data.len();
        DataCallbackResult::Continue
    }
}

impl AudioOutputCallback for LengthProbe<(i16, Unspecified)> {
    type FrameType = (i16, Unspecified);

    fn on_audio_ready(
        &mut self,
        _audio_stream: &mut AudioStreamRef<Output>,
        audio_data: &mut Vec<AltFrame<i16>>,
    ) -> DataCallbackResult {
        self.last_len = audio_data.len();
        DataCallbackResult::Continue
    }
}

impl AudioOutputCallback for LengthProbe<(i32, Mono)> {
    type FrameType = (i32, Mono);

    fn on_audio_ready(
        &mut self,
        _audio_stream: &mut AudioStreamRef<Output>,
        audio_data: &mut Vec<i32>,
    ) -> DataCallbackResult {
        self.last_len = audio_data.len();
        DataCallbackResult::Continue
    }
}

impl AudioInputCallback for LengthProbe<(i32, Stereo)> {
    type FrameType = (i32, Stereo);

    fn on_audio_ready(
        &mut self,
        _audio_stream: &mut AudioStreamRef<Input>,
        audio_data: &[(i32, i32)],
    ) -> DataCallbackResult {
        self.last_len = audio_data.len();
        DataCallbackResult::Continue
    }
}

#[test]
fn every_format_and_channel_pair_with_a_frame_type_delivers_matching_buffers() {
    let mut stereo = AudioStreamBuilder::new()
        .set_output()
        .set_stereo()
        .set_i16()
        .set_callback(LengthProbe::<(i16, Stereo)> { last_len: 0, _frame: std::marker::PhantomData })
        .open_stream()
        .unwrap();
    stereo.start().unwrap();
    let mut stereo_frames: Vec<(i16, i16)> = vec![(0, 0); 96];
    stereo.on_audio_ready(&mut stereo_frames);
    assert_eq!(stereo.release().1.last_len, 96);

    let mut alt = AudioStreamBuilder::new()
        .set_output()
        .set_i16()
        .set_callback(LengthProbe::<(i16, Unspecified)> {
            last_len: 0,
            _frame: std::marker::PhantomData,
        })
        .open_stream()
        .unwrap();
    alt.start().unwrap();
    let mut alt_frames: Vec<AltFrame<i16>> = vec![AltFrame::Stereo(1, 2); 32];
    alt.on_audio_ready(&mut alt_frames);
    assert_eq!(alt.release().1.last_len, 32);

    let mut mono32 = AudioStreamBuilder::new()
        .set_output()
        .set_mono()
        .set_i32()
        .set_callback(LengthProbe::<(i32, Mono)> { last_len: 0, _frame: std::marker::PhantomData })
        .open_stream()
        .unwrap();
    mono32.start().unwrap();
    let mut mono_frames: Vec<i32> = vec![0; 64];
    mono32.on_audio_ready(&mut mono_frames);
    assert_eq!(mono32.release().1.last_len, 64);

    let mut input32 = AudioStreamBuilder::new()
        .set_input()
        .set_stereo()
        .set_i32()
        .set_callback(LengthProbe::<(i32, Stereo)> { last_len: 0, _frame: std::marker::PhantomData })
        .open_stream()
        .unwrap();
    input32.start().unwrap();
    let input_frames: Vec<(i32, i32)> = vec![(0, 0); 24];
    input32.on_audio_ready(&input_frames);
    assert_eq!(input32.release().1.last_len, 24);
}

#[test]
fn a_discarded_builder_hands_the_callback_back_exactly_once() {
    let callback = ConstWriter { value: 1, bursts_left: 1, invocations: 0 };
    let builder = AudioStreamBuilder::new()
        .set_output()
        .set_mono()
        .set_i16()
        .set_callback(callback);
    let callback = builder.discard();
    assert_eq!(callback.invocations, 0);
}

struct ErrorWatcher {
    before_fired: u32,
    after_fired: u32,
    state_seen_before_close: Option<StreamState>,
    rate_seen_after_close: Option<i32>,
    error_seen: Option<Error>,
}

impl AudioOutputCallback for ErrorWatcher {
    type FrameType = (i16, Mono);

    fn on_error_before_close(
        &mut self,
        audio_stream: &mut AudioStreamRef<Output>,
        error: Error,
    ) {
        self.before_fired += 1;
        self.state_seen_before_close = Some(audio_stream.get_state());
        self.error_seen = Some(error);
    }

    fn on_error_after_close(
        &mut self,
        audio_stream: &mut AudioStreamRef<Output>,
        error: Error,
    ) {
        self.after_fired += 1;
        self.rate_seen_after_close = Some(audio_stream.get_sample_rate());
        self.error_seen = Some(error);
    }

    fn on_audio_ready(
        &mut self,
        _audio_stream: &mut AudioStreamRef<Output>,
        _audio_data: &mut Vec<i16>,
    ) -> DataCallbackResult {
        DataCallbackResult::Continue
    }
}

#[test]
fn the_error_hooks_fire_once_each_and_only_in_order() {
    let watcher = ErrorWatcher {
        before_fired: 0,
        after_fired: 0,
        state_seen_before_close: None,
        rate_seen_after_close: None,
        error_seen: None,
    };
    let mut stream = AudioStreamBuilder::new()
        .set_output()
        .set_mono()
        .set_i16()
        .set_callback(watcher)
        .open_stream()
        .unwrap();
    stream.start().unwrap();

    assert!(!stream.on_error_after_close(Error::Disconnected));
    assert!(!stream.had_error_before_close());
    assert!(!stream.had_error_after_close());

    assert!(stream.on_error_before_close(Error::Disconnected));
    assert_eq!(stream.get_state(), StreamState::Stopped);
    assert!(stream.had_error_before_close());
    assert!(!stream.on_error_before_close(Error::Disconnected));

    assert!(stream.on_error_after_close(Error::Disconnected));
    assert_eq!(stream.get_state(), StreamState::Closed);
    assert!(!stream.on_error_after_close(Error::Disconnected));

    let (engine, watcher) = stream.release();
    assert_eq!(engine.close_count, 1);
    assert_eq!(watcher.before_fired, 1);
    assert_eq!(watcher.after_fired, 1);
    assert_eq!(watcher.state_seen_before_close, Some(StreamState::Stopped));
    assert_eq!(watcher.rate_seen_after_close, Some(48000));
    assert_eq!(watcher.error_seen, Some(Error::Disconnected));
}

#[test]
fn no_audio_callback_fires_once_the_error_path_began() {
    let callback = ConstWriter { value: 1, bursts_left: 100, invocations: 0 };
    let mut stream = AudioStreamBuilder::new()
        .set_output()
        .set_mono()
        .set_i16()
        .set_callback(callback)
        .open_stream()
        .unwrap();
    stream.start().unwrap();
    assert!(stream.on_error_before_close(Error::Disconnected));
    assert!(!stream.is_callback_active());
    let mut buffer: Vec<i16> = vec![5; 8];
    assert_eq!(stream.on_audio_ready(&mut buffer), DataCallbackResult::Stop.to_i32());
    let (_, callback) = stream.release();
    assert_eq!(callback.invocations, 0);
}

#[test]
fn an_explicit_close_before_the_error_path_still_ends_at_one_close() {
    let watcher = ErrorWatcher {
        before_fired: 0,
        after_fired: 0,
        state_seen_before_close: None,
        rate_seen_after_close: None,
        error_seen: None,
    };
    let mut stream = AudioStreamBuilder::new()
        .set_output()
        .set_mono()
        .set_i16()
        .set_callback(watcher)
        .open_stream()
        .unwrap();
    stream.start().unwrap();
    stream.close().unwrap();
    assert!(!stream.on_error_before_close(Error::Disconnected));
    let (engine, watcher) = stream.release();
    assert_eq!(engine.close_count, 1);
    assert_eq!(watcher.before_fired, 0);
}

#[test]
fn lifecycle_controls_work_on_a_callback_stream_too() {
    let callback = ConstWriter { value: 2, bursts_left: 2, invocations: 0 };
    let mut stream = AudioStreamBuilder::new()
        .set_output()
        .set_mono()
        .set_i16()
        .set_callback(callback)
        .open_stream()
        .unwrap();
    stream.start().unwrap();
    assert_eq!(stream.get_state(), StreamState::Started);
    stream.pause().unwrap();
    assert!(!stream.is_callback_active());
    stream.start().unwrap();
    assert!(stream.is_callback_active());
    stream.stop().unwrap();
    assert_eq!(stream.get_state(), StreamState::Stopped);
}

#[test]
fn scalar_attributes_can_still_be_set_after_the_callback_is_attached() {
    let callback = ConstWriter { value: 1, bursts_left: 1, invocations: 0 };
    let stream = AudioStreamBuilder::new()
        .set_output()
        .set_mono()
        .set_i16()
        .set_callback(callback)
        .set_sample_rate(32000)
        .set_frames_per_callback(48)
        .set_buffer_capacity_in_frames(480)
        .set_device_id(3)
        .open_stream()
        .unwrap();
    assert_eq!(stream.get_sample_rate(), 32000);
    assert_eq!(stream.get_buffer_capacity_in_frames(), 480);
    assert_eq!(stream.get_device_id(), 3);
    let (engine, _callback) = stream.release();
    assert_eq!(engine.frames_per_burst, 48);
}

#[test]
fn the_async_builder_remembers_the_requested_audio_api() {
    let callback = ConstWriter { value: 1, bursts_left: 1, invocations: 0 };
    let builder = AudioStreamBuilder::new()
        .set_output()
        .set_mono()
        .set_i16()
        .set_audio_api(AudioApi::OpenSLES)
        .set_callback(callback);
    assert_eq!(builder.get_audio_api(), AudioApi::OpenSLES);
    let stream = builder.open_stream().unwrap();
    assert_eq!(stream.get_audio_api(), AudioApi::OpenSLES);
    let _ = stream.release();
}
