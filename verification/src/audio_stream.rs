//! The stream traits and the owned stream handles: state query, lifecycle
//! transitions, transport queries, blocking transfer for synchronous
//! streams, and the teardown protocol.

use vstd::prelude::*;

use crate::audio_stream_base::base_description;
use crate::audio_stream_base::decimal_chars;
use crate::audio_stream_base::decimal_string;
use crate::audio_stream_base::AudioStreamBase;
use crate::audio_stream_callback::AudioInputCallback;
use crate::audio_stream_callback::AudioOutputCallback;
use crate::definitions::AudioApi;
use crate::definitions::AudioFormat;
use crate::definitions::ChannelCount;
use crate::definitions::ContentType;
use crate::definitions::DataCallbackResult;
use crate::definitions::Direction;
use crate::definitions::Error;
use crate::definitions::FrameTimestamp;
use crate::definitions::InputPreset;
use crate::definitions::PerformanceMode;
use crate::definitions::SampleRateConversionQuality;
use crate::definitions::SessionId;
use crate::definitions::SharingMode;
use crate::definitions::StreamState;
use crate::definitions::Usage;
use crate::definitions::NANOS_PER_MILLISECOND;
use crate::engine::advanced_counter;
use crate::engine::available_frames_outcome;
use crate::engine::close_outcome;
use crate::engine::flush_outcome;
use crate::engine::latency_millis_outcome;
use crate::engine::pause_outcome;
use crate::engine::read_frames_outcome;
use crate::engine::request_flush_outcome;
use crate::engine::request_pause_outcome;
use crate::engine::request_start_outcome;
use crate::engine::request_stop_outcome;
use crate::engine::set_buffer_size_outcome;
use crate::engine::start_outcome;
use crate::engine::stop_outcome;
use crate::engine::timestamp_outcome;
use crate::engine::wait_for_available_frames_outcome;
use crate::engine::wait_for_state_change_outcome;
use crate::engine::write_frames_outcome;
use crate::engine::xrun_count_outcome;
use crate::engine::EngineStream;
use crate::engine::StreamConfig;
use crate::private::RawAudioInputStream;
use crate::private::RawAudioOutputStream;
use crate::private::RawAudioStream;
use crate::private::RawAudioStreamBase;
use crate::type_guide::Input;
use crate::type_guide::IsFrameType;
use crate::type_guide::Output;
use core::marker::PhantomData;
use vstd::string::StringExecFns;

verus! {

/// The default number of nanoseconds to wait for when performing state
/// change operations on the stream, such as `start` and `stop`.
pub const DEFAULT_TIMEOUT_NANOS: i64 = 2000 * NANOS_PER_MILLISECOND;

/// The lines a live stream reports beyond its base configuration, as
/// [`AudioStreamSafe::describe_stream`] renders them.
pub open spec fn stream_extra_description(e: EngineStream) -> Seq<char> {
    "Audio API: "@ + e.audio_api.name_spec() + "\nCurrent state: "@ + e.state.name_spec()
        + "\nXrun count: "@ + (match xrun_count_outcome(e) {
        Ok(count) => decimal_chars(count as int),
        Err(error) => error.name_spec(),
    }) + "\n"@
}

/// Safe base trait for an audio stream: everything that may be queried or
/// adjusted from any context, including from inside callbacks.
pub trait AudioStreamSafe: AudioStreamBase + Sized {
    /// The engine stream record this handle is backed by.
    spec fn stream(&self) -> EngineStream;

    /// Query the current state.
    fn get_state(&self) -> (state: StreamState)
        ensures
            state == self.stream().state,
    ;

    /// Adjust the latency of the buffer by changing the threshold where
    /// blocking occurs. The request cannot be set higher than the buffer
    /// capacity: asking for more yields the capacity, not an error.
    fn set_buffer_size_in_frames(&mut self, requested_frames: i32) -> (resulting: Result<
        i32,
        Error,
    >)
        ensures
            final(self).stream() == set_buffer_size_outcome(
                old(self).stream(),
                requested_frames,
            ).0,
            resulting == set_buffer_size_outcome(old(self).stream(), requested_frames).1,
            final(self).base() == set_buffer_size_outcome(old(self).stream(), requested_frames).0.base,
    ;

    /// The number of underruns or overruns of the stream so far, where the
    /// underlying audio API counts them.
    fn get_xrun_count(&self) -> (count: Result<i32, Error>)
        ensures
            count == xrun_count_outcome(self.stream()),
    ;

    /// Returns true if underrun and overrun counts are supported on the
    /// stream.
    fn is_xrun_count_supported(&self) -> (supported: bool)
        ensures
            supported == self.stream().xrun_supported,
    ;

    /// Query the number of frames that are read or written by the endpoint
    /// at one time.
    fn get_frames_per_burst(&mut self) -> (burst: i32)
        ensures
            *final(self) == *old(self),
            burst == old(self).stream().frames_per_burst,
    ;

    /// Get the number of bytes in each audio frame, calculated from the
    /// channel count and the sample format.
    fn get_bytes_per_frame(&mut self) -> (bytes: i32)
        ensures
            *final(self) == *old(self),
            bytes == old(self).base().channel_count.code_spec()
                * old(self).base().format.bytes_per_sample_spec(),
    {
        let channels = self.get_channel_count();
        let per_sample = self.get_bytes_per_sample();
        channels.to_i32() * per_sample
    }

    /// Get the number of bytes per sample, calculated from the sample
    /// format.
    fn get_bytes_per_sample(&mut self) -> (bytes: i32)
        ensures
            *final(self) == *old(self),
            bytes == old(self).base().format.bytes_per_sample_spec(),
    ;

    /// Calculate the latency of the stream in whole milliseconds, based on
    /// the timestamp and the queued frame count; it fails while no
    /// timestamp is available.
    fn calculate_latency_millis(&mut self) -> (latency: Result<i64, Error>)
        ensures
            *final(self) == *old(self),
            latency == latency_millis_outcome(old(self).stream()),
    ;

    /// Get the estimated position and time at which a frame entered or
    /// left the audio processing pipeline, or an error while the stream
    /// cannot produce a timestamp.
    fn get_timestamp(&mut self, clock_id: i32) -> (stamp: Result<FrameTimestamp, Error>)
        ensures
            *final(self) == *old(self),
            stamp == timestamp_outcome(old(self).stream()),
    ;

    /// Get the underlying audio API which the stream uses.
    fn get_audio_api(&self) -> (api: AudioApi)
        ensures
            api == self.stream().audio_api,
    ;

    /// Returns true if the underlying audio API is AAudio.
    fn uses_aaudio(&self) -> (aaudio: bool)
        ensures
            aaudio == (self.stream().audio_api == AudioApi::AAudio),
    {
        let api = self.get_audio_api();
        api == AudioApi::AAudio
    }

    /// Returns the number of frames of data currently in the buffer.
    fn get_available_frames(&mut self) -> (available: Result<i32, Error>)
        ensures
            *final(self) == *old(self),
            available == available_frames_outcome(old(self).stream()),
    ;

    /// Render the stream's configuration and live state as text, one
    /// value per line.
    fn describe_stream(&self) -> (text: String)
        ensures
            text@ == base_description(self.base()) + stream_extra_description(self.stream()),
    {
        let mut out = self.describe();
        out.append("Audio API: ");
        out.append(self.get_audio_api().name());
        out.append("\nCurrent state: ");
        out.append(self.get_state().name());
        out.append("\nXrun count: ");
        match self.get_xrun_count() {
            Ok(count) => {
                let rendered = decimal_string(count);
                out.append(rendered.as_str());
            },
            Err(error) => {
                out.append(error.name());
            },
        }
        out.append("\n");
        proof {
            assert(out@ =~= base_description(self.base()) + stream_extra_description(
                self.stream(),
            ));
        }
        out
    }
}

/// Base trait for an owned audio stream: the lifecycle transitions in
/// their blocking, timeout-bearing and asynchronous request forms.
pub trait AudioStream: AudioStreamSafe {
    /// Open the stream; streams produced by the builder are already open.
    fn open(&mut self) -> (status: Result<(), Error>)
        ensures
            *final(self) == *old(self),
            status == Ok::<(), Error>(()),
    {
        Ok(())
    }

    /// Close the stream and deallocate any resources from the open call.
    fn close(&mut self) -> (status: Result<(), Error>)
        ensures
            final(self).stream() == close_outcome(old(self).stream()).0,
            status == close_outcome(old(self).stream()).1,
            final(self).base() == old(self).base(),
    ;

    /// Start the stream, blocking until it has started, an error occurs or
    /// the default timeout has been reached.
    fn start(&mut self) -> (status: Result<(), Error>)
        ensures
            final(self).stream() == start_outcome(old(self).stream(), DEFAULT_TIMEOUT_NANOS).0,
            status == start_outcome(old(self).stream(), DEFAULT_TIMEOUT_NANOS).1,
            final(self).base() == old(self).base(),
            status is Ok ==> final(self).stream().state == StreamState::Started,
    {
        self.start_with_timeout(DEFAULT_TIMEOUT_NANOS)
    }

    /// Start the stream, blocking until it has started, an error occurs or
    /// `timeout_nanoseconds` has been reached.
    fn start_with_timeout(&mut self, timeout_nanoseconds: i64) -> (status: Result<(), Error>)
        ensures
            final(self).stream() == start_outcome(old(self).stream(), timeout_nanoseconds).0,
            status == start_outcome(old(self).stream(), timeout_nanoseconds).1,
            final(self).base() == old(self).base(),
            status is Ok ==> final(self).stream().state == StreamState::Started,
    ;

    /// Stop the stream, blocking until it has stopped, an error occurs or
    /// the default timeout has been reached.
    fn stop(&mut self) -> (status: Result<(), Error>)
        ensures
            final(self).stream() == stop_outcome(old(self).stream(), DEFAULT_TIMEOUT_NANOS).0,
            status == stop_outcome(old(self).stream(), DEFAULT_TIMEOUT_NANOS).1,
            final(self).base() == old(self).base(),
            status is Ok ==> final(self).stream().state == StreamState::Stopped,
    {
        self.stop_with_timeout(DEFAULT_TIMEOUT_NANOS)
    }

    /// Stop the stream, blocking until it has stopped, an error occurs or
    /// `timeout_nanoseconds` has been reached.
    fn stop_with_timeout(&mut self, timeout_nanoseconds: i64) -> (status: Result<(), Error>)
        ensures
            final(self).stream() == stop_outcome(old(self).stream(), timeout_nanoseconds).0,
            status == stop_outcome(old(self).stream(), timeout_nanoseconds).1,
            final(self).base() == old(self).base(),
            status is Ok ==> final(self).stream().state == StreamState::Stopped,
    ;

    /// Start the stream asynchronously; returns immediately.
    fn request_start(&mut self) -> (status: Result<(), Error>)
        ensures
            final(self).stream() == request_start_outcome(old(self).stream()).0,
            status == request_start_outcome(old(self).stream()).1,
            final(self).base() == old(self).base(),
    ;

    /// Stop the stream asynchronously; returns immediately.
    fn request_stop(&mut self) -> (status: Result<(), Error>)
        ensures
            final(self).stream() == request_stop_outcome(old(self).stream()).0,
            status == request_stop_outcome(old(self).stream()).1,
            final(self).base() == old(self).base(),
    ;

    /// Wait until the stream's current state no longer matches
    /// `input_state`, or fail with `Timeout` once the timeout elapses.
    /// This is true even if `timeout_nanoseconds` is zero: a zero timeout
    /// means "check once", not "wait forever".
    fn wait_for_state_change(&mut self, input_state: StreamState, timeout_nanoseconds: i64) -> (
        next: Result<StreamState, Error>)
        ensures
            final(self).stream() == wait_for_state_change_outcome(
                old(self).stream(),
                input_state,
                timeout_nanoseconds,
            ).0,
            next == wait_for_state_change_outcome(
                old(self).stream(),
                input_state,
                timeout_nanoseconds,
            ).1,
            final(self).base() == old(self).base(),
    ;

    /// Wait until the stream has at least `num_frames` frames available in
    /// its buffer, or fail with `Timeout`.
    fn wait_for_available_frames(&mut self, num_frames: i32, timeout_nanoseconds: i64) -> (
        available: Result<i32, Error>)
        ensures
            final(self).stream() == wait_for_available_frames_outcome(
                old(self).stream(),
                num_frames,
                timeout_nanoseconds,
            ).0,
            available == wait_for_available_frames_outcome(
                old(self).stream(),
                num_frames,
                timeout_nanoseconds,
            ).1,
            final(self).base() == old(self).base(),
    ;
}

/// The queries an input stream offers from any context, including from
/// inside callbacks.
pub trait AudioInputStreamSafe: AudioStreamSafe {
    /// The number of audio frames read from the stream. This monotonic
    /// counter never gets reset.
    fn get_frames_read(&mut self) -> (frames: i64)
        ensures
            *final(self) == *old(self),
            frames == old(self).stream().frames_read_spec(),
    ;
}

/// The owned stream for audio input.
pub trait AudioInputStream: AudioStream + AudioInputStreamSafe {

}

/// The stream which can be used for audio input in synchronous mode.
pub trait AudioInputStreamSync: AudioInputStream {
    /// The sample type and channel configuration of the frames read.
    type FrameType: IsFrameType;

    /// Read data from the stream into the supplied buffer, blocking until
    /// the read is complete or it runs out of time. If
    /// `timeout_nanoseconds` is zero the call does not wait and reads only
    /// what is already captured. The frames read land at the front of the
    /// buffer; the rest of the buffer is left as it was.
    fn read(
        &mut self,
        buffer: &mut Vec<<Self::FrameType as IsFrameType>::Type>,
        timeout_nanoseconds: i64,
    ) -> (taken: Result<i32, Error>)
        requires
            old(buffer)@.len() <= 0x7fff_ffff,
        ensures
            final(self).stream() == read_frames_outcome(
                old(self).stream(),
                old(buffer)@.len() as int,
                timeout_nanoseconds,
            ).0,
            taken == read_frames_outcome(
                old(self).stream(),
                old(buffer)@.len() as int,
                timeout_nanoseconds,
            ).1,
            final(self).base() == old(self).base(),
            final(buffer)@.len() == old(buffer)@.len(),
            (forall|i: int|
                0 <= i < final(buffer)@.len() ==> final(buffer)@[i] == (if taken is Ok && i
                    < taken->Ok_0 {
                    Self::FrameType::silent_frame_of()
                } else {
                    old(buffer)@[i]
                })),
    ;
}

/// The queries an output stream offers from any context, including from
/// inside callbacks.
pub trait AudioOutputStreamSafe: AudioStreamSafe {
    /// The number of audio frames written into the stream. This monotonic
    /// counter never gets reset.
    fn get_frames_written(&mut self) -> (frames: i64)
        ensures
            *final(self) == *old(self),
            frames == old(self).stream().frames_written_spec(),
    ;
}

/// The owned stream with pause and flush capabilities, which only playback
/// streams have.
pub trait AudioOutputStream: AudioStream + AudioOutputStreamSafe {
    /// Pause the stream, blocking until it has paused, an error occurs or
    /// the default timeout has been reached.
    fn pause(&mut self) -> (status: Result<(), Error>)
        ensures
            final(self).stream() == pause_outcome(old(self).stream(), DEFAULT_TIMEOUT_NANOS).0,
            status == pause_outcome(old(self).stream(), DEFAULT_TIMEOUT_NANOS).1,
            final(self).base() == old(self).base(),
            status is Ok ==> final(self).stream().state == StreamState::Paused,
    {
        self.pause_with_timeout(DEFAULT_TIMEOUT_NANOS)
    }

    /// Pause the stream, blocking until it has paused, an error occurs or
    /// `timeout_nanoseconds` has been reached.
    fn pause_with_timeout(&mut self, timeout_nanoseconds: i64) -> (status: Result<(), Error>)
        ensures
            final(self).stream() == pause_outcome(old(self).stream(), timeout_nanoseconds).0,
            status == pause_outcome(old(self).stream(), timeout_nanoseconds).1,
            final(self).base() == old(self).base(),
            status is Ok ==> final(self).stream().state == StreamState::Paused,
    ;

    /// Flush the stream, blocking until it has flushed, an error occurs or
    /// the default timeout has been reached.
    fn flush(&mut self) -> (status: Result<(), Error>)
        ensures
            final(self).stream() == flush_outcome(old(self).stream(), DEFAULT_TIMEOUT_NANOS).0,
            status == flush_outcome(old(self).stream(), DEFAULT_TIMEOUT_NANOS).1,
            final(self).base() == old(self).base(),
            status is Ok ==> final(self).stream().state == StreamState::Flushed,
    {
        self.flush_with_timeout(DEFAULT_TIMEOUT_NANOS)
    }

    /// Flush the stream, blocking until it has flushed, an error occurs or
    /// `timeout_nanoseconds` has been reached.
    fn flush_with_timeout(&mut self, timeout_nanoseconds: i64) -> (status: Result<(), Error>)
        ensures
            final(self).stream() == flush_outcome(old(self).stream(), timeout_nanoseconds).0,
            status == flush_outcome(old(self).stream(), timeout_nanoseconds).1,
            final(self).base() == old(self).base(),
            status is Ok ==> final(self).stream().state == StreamState::Flushed,
    ;

    /// Pause the stream asynchronously; returns immediately.
    fn request_pause(&mut self) -> (status: Result<(), Error>)
        ensures
            final(self).stream() == request_pause_outcome(old(self).stream()).0,
            status == request_pause_outcome(old(self).stream()).1,
            final(self).base() == old(self).base(),
    ;

    /// Flush the stream asynchronously; returns immediately.
    fn request_flush(&mut self) -> (status: Result<(), Error>)
        ensures
            final(self).stream() == request_flush_outcome(old(self).stream()).0,
            status == request_flush_outcome(old(self).stream()).1,
            final(self).base() == old(self).base(),
    ;
}

/// The stream which can be used for audio output in synchronous mode.
pub trait AudioOutputStreamSync: AudioOutputStream {
    /// The sample type and channel configuration of the frames written.
    type FrameType: IsFrameType;

    /// Write data from the supplied buffer into the stream, blocking until
    /// the write is complete or it runs out of time. If
    /// `timeout_nanoseconds` is zero the call does not wait and writes
    /// only what fits.
    fn write(
        &mut self,
        buffer: &Vec<<Self::FrameType as IsFrameType>::Type>,
        timeout_nanoseconds: i64,
    ) -> (written: Result<i32, Error>)
        requires
            buffer@.len() <= 0x7fff_ffff,
        ensures
            final(self).stream() == write_frames_outcome(
                old(self).stream(),
                buffer@.len() as int,
                timeout_nanoseconds,
            ).0,
            written == write_frames_outcome(
                old(self).stream(),
                buffer@.len() as int,
                timeout_nanoseconds,
            ).1,
            final(self).base() == old(self).base(),
    ;
}

/// Reference to an audio stream, for passing to callbacks. It carries the
/// engine record of the stream for the duration of one callback
/// invocation; control operations are not available through it.
pub struct AudioStreamRef<D> {
    engine: EngineStream,
    _marker: PhantomData<D>,
}

impl<D> AudioStreamRef<D> {
    /// Wrap an engine stream record for the duration of a callback.
    pub(crate) fn wrap(engine: EngineStream) -> (stream_ref: AudioStreamRef<D>)
        ensures
            stream_ref.stream() == engine,
    {
        AudioStreamRef { engine, _marker: PhantomData }
    }

    /// Hand the engine stream record back after a callback returned.
    pub(crate) fn unwrap(self) -> (engine: EngineStream)
        ensures
            engine == self.stream(),
    {
        self.engine
    }
}

impl<D> RawAudioStreamBase for AudioStreamRef<D> {
    closed spec fn raw_base_spec(&self) -> StreamConfig {
        self.engine.base
    }

    fn _raw_base(&self) -> (base: &StreamConfig)
        ensures
            *base == self.raw_base_spec(),
    {
        &self.engine.base
    }
}

impl<D> AudioStreamBase for AudioStreamRef<D> {
    closed spec fn base(&self) -> StreamConfig {
        self.engine.base
    }

    fn get_channel_count(&self) -> ChannelCount {
        self._raw_base().channel_count
    }

    fn get_direction(&self) -> Direction {
        self._raw_base().direction
    }

    fn get_sample_rate(&self) -> i32 {
        self._raw_base().sample_rate
    }

    fn get_frames_per_callback(&self) -> i32 {
        self._raw_base().frames_per_callback
    }

    fn get_format(&self) -> AudioFormat {
        self._raw_base().format
    }

    fn get_buffer_size_in_frames(&self) -> i32 {
        self._raw_base().buffer_size_in_frames
    }

    fn get_buffer_capacity_in_frames(&self) -> i32 {
        self._raw_base().buffer_capacity_in_frames
    }

    fn get_sharing_mode(&self) -> SharingMode {
        self._raw_base().sharing_mode
    }

    fn get_performance_mode(&self) -> PerformanceMode {
        self._raw_base().performance_mode
    }

    fn get_device_id(&self) -> i32 {
        self._raw_base().device_id
    }

    fn get_usage(&self) -> Usage {
        self._raw_base().usage
    }

    fn get_content_type(&self) -> ContentType {
        self._raw_base().content_type
    }

    fn get_input_preset(&self) -> InputPreset {
        self._raw_base().input_preset
    }

    fn get_session_id(&self) -> SessionId {
        self._raw_base().session_id
    }

    fn is_channel_conversion_allowed(&self) -> bool {
        self._raw_base().channel_conversion_allowed
    }

    fn is_format_conversion_allowed(&self) -> bool {
        self._raw_base().format_conversion_allowed
    }

    fn get_sample_rate_conversion_quality(&self) -> SampleRateConversionQuality {
        self._raw_base().sample_rate_conversion_quality
    }
}

impl<D> RawAudioStream for AudioStreamRef<D> {
    closed spec fn raw_stream_spec(&self) -> EngineStream {
        self.engine
    }

    fn _raw_stream(&self) -> (stream: &EngineStream)
        ensures
            *stream == self.raw_stream_spec(),
    {
        &self.engine
    }
}


impl<D> AudioStreamSafe for AudioStreamRef<D> {
    closed spec fn stream(&self) -> EngineStream {
        self.engine
    }

    fn get_state(&self) -> StreamState {
        self._raw_stream().state
    }

    fn set_buffer_size_in_frames(&mut self, requested_frames: i32) -> Result<i32, Error> {
        self.engine.set_buffer_size_in_frames(requested_frames)
    }

    fn get_xrun_count(&self) -> Result<i32, Error> {
        self.engine.get_xrun_count()
    }

    fn is_xrun_count_supported(&self) -> bool {
        self._raw_stream().xrun_supported
    }

    fn get_frames_per_burst(&mut self) -> i32 {
        self.engine.frames_per_burst
    }

    fn get_bytes_per_sample(&mut self) -> i32 {
        self.engine.base.format.bytes_per_sample()
    }

    fn calculate_latency_millis(&mut self) -> Result<i64, Error> {
        self.engine.calculate_latency_millis()
    }

    fn get_timestamp(&mut self, _clock_id: i32) -> Result<FrameTimestamp, Error> {
        self.engine.get_timestamp()
    }

    fn get_audio_api(&self) -> AudioApi {
        self._raw_stream().audio_api
    }

    fn get_available_frames(&mut self) -> Result<i32, Error> {
        self.engine.get_available_frames()
    }
}


impl RawAudioInputStream for AudioStreamRef<Input> {

}

impl RawAudioOutputStream for AudioStreamRef<Output> {

}

impl AudioInputStreamSafe for AudioStreamRef<Input> {
    fn get_frames_read(&mut self) -> i64 {
        let stream = self._raw_stream();
        stream.consumed_frames
    }
}

impl AudioOutputStreamSafe for AudioStreamRef<Output> {
    fn get_frames_written(&mut self) -> i64 {
        let queued: i64 = if self.engine.fill >= 0 {
            self.engine.fill as i64
        } else {
            0
        };
        if self.engine.consumed_frames > i64::MAX - queued {
            i64::MAX
        } else {
            self.engine.consumed_frames + queued
        }
    }
}




/// The audio stream for synchronous (blocking) mode: data moves through
/// explicit `read` and `write` calls, and no callback is attached.
pub struct AudioStreamSync<D, F> {
    engine: EngineStream,
    _marker: PhantomData<(D, F)>,
}

impl<D, F> AudioStreamSync<D, F> {
    /// Wrap a freshly opened engine stream record.
    pub(crate) fn wrap(engine: EngineStream) -> (stream: AudioStreamSync<D, F>)
        ensures
            stream.stream() == engine,
    {
        AudioStreamSync { engine, _marker: PhantomData }
    }

    /// Tear the stream down: close it unless it is already closed, and
    /// hand back the final engine record. Whether or not `close` was
    /// called before, the engine ends up having been closed exactly once.
    pub fn release(self) -> (engine: EngineStream)
        requires
            self.stream().wf(),
        ensures
            engine.state == StreamState::Closed,
            engine.close_count == 1,
            engine == (if self.stream().state == StreamState::Closed {
                self.stream()
            } else if self.stream().state == StreamState::Closing {
                (EngineStream { state: StreamState::Closed, ..self.stream() })
            } else {
                close_outcome(self.stream()).0
            }),
    {
        let mut engine = self.engine;
        if engine.state == StreamState::Closing {
            engine.state = StreamState::Closed;
        } else if engine.state != StreamState::Closed {
            let _ = engine.close();
        }
        engine
    }
}

impl<D, F> RawAudioStreamBase for AudioStreamSync<D, F> {
    closed spec fn raw_base_spec(&self) -> StreamConfig {
        self.engine.base
    }

    fn _raw_base(&self) -> (base: &StreamConfig)
        ensures
            *base == self.raw_base_spec(),
    {
        &self.engine.base
    }
}

impl<D, F> AudioStreamBase for AudioStreamSync<D, F> {
    closed spec fn base(&self) -> StreamConfig {
        self.engine.base
    }

    fn get_channel_count(&self) -> ChannelCount {
        self._raw_base().channel_count
    }

    fn get_direction(&self) -> Direction {
        self._raw_base().direction
    }

    fn get_sample_rate(&self) -> i32 {
        self._raw_base().sample_rate
    }

    fn get_frames_per_callback(&self) -> i32 {
        self._raw_base().frames_per_callback
    }

    fn get_format(&self) -> AudioFormat {
        self._raw_base().format
    }

    fn get_buffer_size_in_frames(&self) -> i32 {
        self._raw_base().buffer_size_in_frames
    }

    fn get_buffer_capacity_in_frames(&self) -> i32 {
        self._raw_base().buffer_capacity_in_frames
    }

    fn get_sharing_mode(&self) -> SharingMode {
        self._raw_base().sharing_mode
    }

    fn get_performance_mode(&self) -> PerformanceMode {
        self._raw_base().performance_mode
    }

    fn get_device_id(&self) -> i32 {
        self._raw_base().device_id
    }

    fn get_usage(&self) -> Usage {
        self._raw_base().usage
    }

    fn get_content_type(&self) -> ContentType {
        self._raw_base().content_type
    }

    fn get_input_preset(&self) -> InputPreset {
        self._raw_base().input_preset
    }

    fn get_session_id(&self) -> SessionId {
        self._raw_base().session_id
    }

    fn is_channel_conversion_allowed(&self) -> bool {
        self._raw_base().channel_conversion_allowed
    }

    fn is_format_conversion_allowed(&self) -> bool {
        self._raw_base().format_conversion_allowed
    }

    fn get_sample_rate_conversion_quality(&self) -> SampleRateConversionQuality {
        self._raw_base().sample_rate_conversion_quality
    }
}
impl<D, F> RawAudioStream for AudioStreamSync<D, F> {
    closed spec fn raw_stream_spec(&self) -> EngineStream {
        self.engine
    }

    fn _raw_stream(&self) -> (stream: &EngineStream)
        ensures
            *stream == self.raw_stream_spec(),
    {
        &self.engine
    }
}

impl<D, F> AudioStreamSafe for AudioStreamSync<D, F> {
    closed spec fn stream(&self) -> EngineStream {
        self.engine
    }

    fn get_state(&self) -> StreamState {
        self._raw_stream().state
    }

    fn set_buffer_size_in_frames(&mut self, requested_frames: i32) -> Result<i32, Error> {
        self.engine.set_buffer_size_in_frames(requested_frames)
    }

    fn get_xrun_count(&self) -> Result<i32, Error> {
        self.engine.get_xrun_count()
    }

    fn is_xrun_count_supported(&self) -> bool {
        self._raw_stream().xrun_supported
    }

    fn get_frames_per_burst(&mut self) -> i32 {
        self.engine.frames_per_burst
    }

    fn get_bytes_per_sample(&mut self) -> i32 {
        self.engine.base.format.bytes_per_sample()
    }

    fn calculate_latency_millis(&mut self) -> Result<i64, Error> {
        self.engine.calculate_latency_millis()
    }

    fn get_timestamp(&mut self, _clock_id: i32) -> Result<FrameTimestamp, Error> {
        self.engine.get_timestamp()
    }

    fn get_audio_api(&self) -> AudioApi {
        self._raw_stream().audio_api
    }

    fn get_available_frames(&mut self) -> Result<i32, Error> {
        self.engine.get_available_frames()
    }
}

impl<D, F> AudioStream for AudioStreamSync<D, F> {
    fn close(&mut self) -> Result<(), Error> {
        self.engine.close()
    }

    fn start_with_timeout(&mut self, timeout_nanoseconds: i64) -> Result<(), Error> {
        self.engine.start_with_timeout(timeout_nanoseconds)
    }

    fn stop_with_timeout(&mut self, timeout_nanoseconds: i64) -> Result<(), Error> {
        self.engine.stop_with_timeout(timeout_nanoseconds)
    }

    fn request_start(&mut self) -> Result<(), Error> {
        self.engine.request_start()
    }

    fn request_stop(&mut self) -> Result<(), Error> {
        self.engine.request_stop()
    }

    fn wait_for_state_change(&mut self, input_state: StreamState, timeout_nanoseconds: i64) -> Result<StreamState, Error> {
        self.engine.wait_for_state_change(input_state, timeout_nanoseconds)
    }

    fn wait_for_available_frames(&mut self, num_frames: i32, timeout_nanoseconds: i64) -> Result<i32, Error> {
        self.engine.wait_for_available_frames(num_frames, timeout_nanoseconds)
    }
}

impl<F> AudioOutputStream for AudioStreamSync<Output, F> {
    fn pause_with_timeout(&mut self, timeout_nanoseconds: i64) -> Result<(), Error> {
        self.engine.pause_with_timeout(timeout_nanoseconds)
    }

    fn flush_with_timeout(&mut self, timeout_nanoseconds: i64) -> Result<(), Error> {
        self.engine.flush_with_timeout(timeout_nanoseconds)
    }

    fn request_pause(&mut self) -> Result<(), Error> {
        self.engine.request_pause()
    }

    fn request_flush(&mut self) -> Result<(), Error> {
        self.engine.request_flush()
    }
}

impl<F> AudioInputStreamSafe for AudioStreamSync<Input, F> {
    fn get_frames_read(&mut self) -> i64 {
        self.engine.consumed_frames
    }
}

impl<F> AudioOutputStreamSafe for AudioStreamSync<Output, F> {
    fn get_frames_written(&mut self) -> i64 {
        let queued: i64 = if self.engine.fill >= 0 {
            self.engine.fill as i64
        } else {
            0
        };
        if self.engine.consumed_frames > i64::MAX - queued {
            i64::MAX
        } else {
            self.engine.consumed_frames + queued
        }
    }
}

impl<F> RawAudioInputStream for AudioStreamSync<Input, F> {

}

impl<F> RawAudioOutputStream for AudioStreamSync<Output, F> {

}

impl<F> AudioInputStream for AudioStreamSync<Input, F> {

}

impl<F: IsFrameType> AudioInputStreamSync for AudioStreamSync<Input, F> {
    type FrameType = F;

    fn read(
        &mut self,
        buffer: &mut Vec<<F as IsFrameType>::Type>,
        timeout_nanoseconds: i64,
    ) -> (taken: Result<i32, Error>) {
        let frame_count: i32 = buffer.len() as i32;
        let outcome = self.engine.read_frames(frame_count, timeout_nanoseconds);
        match outcome {
            Ok(taken_now) => {
                let mut index: usize = 0;
                let captured: usize = taken_now as usize;
                while index < captured
                    invariant
                        captured <= buffer@.len(),
                        index <= captured,
                        buffer@.len() == old(buffer)@.len(),
                        forall|k: int| 0 <= k < index ==> buffer@[k] == F::silent_frame_of(),
                        forall|k: int|
                            index <= k < buffer@.len() ==> buffer@[k] == old(buffer)@[k],
                    decreases captured - index,
                {
                    let silent = F::silent_frame();
                    buffer[index] = silent;
                    index = index + 1;
                }
                Ok(taken_now)
            },
            Err(error) => Err(error),
        }
    }
}

impl<F: IsFrameType> AudioOutputStreamSync for AudioStreamSync<Output, F> {
    type FrameType = F;

    fn write(
        &mut self,
        buffer: &Vec<<F as IsFrameType>::Type>,
        timeout_nanoseconds: i64,
    ) -> (written: Result<i32, Error>) {
        let frame_count: i32 = buffer.len() as i32;
        self.engine.write_frames(frame_count, timeout_nanoseconds)
    }
}


/// The audio stream for asynchronous (callback-driven) mode: data movement
/// happens exclusively inside the attached callback, which the engine
/// invokes through the entry points below.
///
/// The handle owns the callback for the whole life of the stream and hands
/// it back exactly once, at teardown.
pub struct AudioStreamAsync<D, F> {
    engine: EngineStream,
    callback: F,
    callback_stopped: bool,
    error_before_close_seen: bool,
    error_after_close_seen: bool,
    _marker: PhantomData<D>,
}

impl<D, F> AudioStreamAsync<D, F> {
    /// The attached callback value.
    pub closed spec fn callback_value(&self) -> F {
        self.callback
    }

    /// Whether the callback has signalled `Stop` from `on_audio_ready`;
    /// the engine simulates no further deliveries afterwards.
    pub closed spec fn callback_done(&self) -> bool {
        self.callback_stopped
    }

    /// Whether the error-before-close hook has fired.
    pub closed spec fn before_close_delivered(&self) -> bool {
        self.error_before_close_seen
    }

    /// Whether the error-after-close hook has fired.
    pub closed spec fn after_close_delivered(&self) -> bool {
        self.error_after_close_seen
    }

    /// Whether the stream is in a state where the engine delivers
    /// audio-ready callbacks: started, not stopped by the callback, and
    /// not on the error path.
    pub open spec fn callback_active(&self) -> bool
        where
            Self: Sized,
    {
        &&& self.stream().state == StreamState::Started
        &&& !self.callback_done()
        &&& !self.before_close_delivered()
    }

    /// Wrap a freshly opened engine stream record together with the
    /// callback registered on it.
    pub(crate) fn wrap_with_callback(engine: EngineStream, callback: F) -> (stream:
        AudioStreamAsync<D, F>)
        ensures
            stream.stream() == engine,
            stream.callback_value() == callback,
            !stream.callback_done(),
            !stream.before_close_delivered(),
            !stream.after_close_delivered(),
    {
        AudioStreamAsync {
            engine,
            callback,
            callback_stopped: false,
            error_before_close_seen: false,
            error_after_close_seen: false,
            _marker: PhantomData,
        }
    }

    /// Whether the engine still delivers audio-ready callbacks.
    pub fn is_callback_active(&self) -> (active: bool)
        ensures
            active == self.callback_active(),
    {
        self.engine.state == StreamState::Started && !self.callback_stopped
            && !self.error_before_close_seen
    }

    /// Whether the error-before-close hook has fired.
    pub fn had_error_before_close(&self) -> (seen: bool)
        ensures
            seen == self.before_close_delivered(),
    {
        self.error_before_close_seen
    }

    /// Whether the error-after-close hook has fired.
    pub fn had_error_after_close(&self) -> (seen: bool)
        ensures
            seen == self.after_close_delivered(),
    {
        self.error_after_close_seen
    }

    /// Tear the stream down: close it unless it is already closed, and
    /// hand back the final engine record together with the callback.
    /// Whether or not `close` was called before, and whether or not the
    /// error path already closed the stream, the engine ends up having
    /// been closed exactly once, and the callback context is handed back
    /// exactly once - by this call, to its caller.
    pub fn release(self) -> (released: (EngineStream, F))
        requires
            self.stream().wf(),
        ensures
            released.0.state == StreamState::Closed,
            released.0.close_count == 1,
            released.1 == self.callback_value(),
            released.0 == (if self.stream().state == StreamState::Closed {
                self.stream()
            } else if self.stream().state == StreamState::Closing {
                (EngineStream { state: StreamState::Closed, ..self.stream() })
            } else {
                close_outcome(self.stream()).0
            }),
    {
        let AudioStreamAsync { mut engine, callback, .. } = self;
        if engine.state == StreamState::Closing {
            engine.state = StreamState::Closed;
        } else if engine.state != StreamState::Closed {
            let _ = engine.close();
        }
        (engine, callback)
    }
}

impl<F: AudioOutputCallback> AudioStreamAsync<Output, F> {
    /// The engine's audio-ready entry point for a playback stream: the
    /// driver of the stream hands in the buffer the device wants filled,
    /// the callback renders into it, and the translated result code goes
    /// back to the engine.
    ///
    /// The callback sees exactly the buffer it was given: whatever it did
    /// to the buffer's length, the engine consumes precisely the delivered
    /// frame count, padding with silence where frames are missing. A
    /// buffer-size adjustment made from inside the callback is applied,
    /// clamped to the capacity as always.
    pub fn on_audio_ready(
        &mut self,
        audio_data: &mut Vec<<F::FrameType as IsFrameType>::Type>,
    ) -> (code: i32)
        requires
            old(audio_data)@.len() <= 0x7fff_ffff,
        ensures
            final(audio_data)@.len() == old(audio_data)@.len(),
            !old(self).callback_active() ==> *final(self) == *old(self),
            !old(self).callback_active() ==> final(audio_data)@ == old(audio_data)@,
            !old(self).callback_active() ==> code == DataCallbackResult::Stop.code_spec(),
            old(self).callback_active() ==> (code == DataCallbackResult::Continue.code_spec()
                || code == DataCallbackResult::Stop.code_spec()),
            old(self).callback_active() ==> final(self).callback_done() == (code
                == DataCallbackResult::Stop.code_spec()),
            old(self).callback_active() ==> final(self).stream().state == old(self).stream().state,
            old(self).callback_active() ==> final(self).stream().consumed_frames
                == advanced_counter(
                old(self).stream().consumed_frames,
                old(audio_data)@.len() as int,
            ),
            old(self).callback_active() ==> final(self).stream().fill == old(self).stream().fill,
            old(self).callback_active() ==> final(self).stream().base == (StreamConfig {
                buffer_size_in_frames: final(self).stream().base.buffer_size_in_frames,
                ..old(self).stream().base
            }),
            old(self).callback_active() ==> 0 <= final(self).stream().base.buffer_size_in_frames,
            old(self).callback_active() ==> final(self).stream().base.buffer_size_in_frames
                <= (if old(self).stream().base.buffer_capacity_in_frames >= 0 {
                old(self).stream().base.buffer_capacity_in_frames
            } else {
                0
            }),
            old(self).callback_active() ==> final(self).before_close_delivered() == old(self).before_close_delivered(),
            old(self).callback_active() ==> final(self).after_close_delivered() == old(self).after_close_delivered(),
            old(self).stream().wf() ==> final(self).stream().wf(),
    {
        if !(self.engine.state == StreamState::Started) || self.callback_stopped
            || self.error_before_close_seen {
            return DataCallbackResult::Stop.to_i32();
        }
        let delivered: usize = audio_data.len();
        let frame_count: i32 = delivered as i32;
        let mut view: AudioStreamRef<Output> = AudioStreamRef::wrap(self.engine);
        let result = self.callback.on_audio_ready(&mut view, audio_data);
        let seen = view.unwrap();
        let _ = self.engine.set_buffer_size_in_frames(seen.base.buffer_size_in_frames);
        audio_data.truncate(delivered);
        while audio_data.len() < delivered
            invariant
                audio_data@.len() <= delivered,
            decreases delivered - audio_data@.len(),
        {
            let silent = <F::FrameType as IsFrameType>::silent_frame();
            audio_data.push(silent);
        }
        self.engine.deliver_frames(frame_count);
        match result {
            DataCallbackResult::Continue => DataCallbackResult::Continue.to_i32(),
            DataCallbackResult::Stop => {
                self.callback_stopped = true;
                DataCallbackResult::Stop.to_i32()
            },
        }
    }
}

impl<F: AudioInputCallback> AudioStreamAsync<Input, F> {
    /// The engine's audio-ready entry point for a recording stream: the
    /// driver of the stream hands in the captured frames, and the
    /// translated result code of the callback goes back to the engine.
    pub fn on_audio_ready(
        &mut self,
        audio_data: &Vec<<F::FrameType as IsFrameType>::Type>,
    ) -> (code: i32)
        requires
            audio_data@.len() <= 0x7fff_ffff,
        ensures
            !old(self).callback_active() ==> *final(self) == *old(self),
            !old(self).callback_active() ==> code == DataCallbackResult::Stop.code_spec(),
            old(self).callback_active() ==> (code == DataCallbackResult::Continue.code_spec()
                || code == DataCallbackResult::Stop.code_spec()),
            old(self).callback_active() ==> final(self).callback_done() == (code
                == DataCallbackResult::Stop.code_spec()),
            old(self).callback_active() ==> final(self).stream().state == old(self).stream().state,
            old(self).callback_active() ==> final(self).stream().consumed_frames
                == advanced_counter(
                old(self).stream().consumed_frames,
                audio_data@.len() as int,
            ),
            old(self).callback_active() ==> final(self).stream().fill == old(self).stream().fill,
            old(self).callback_active() ==> final(self).stream().base == (StreamConfig {
                buffer_size_in_frames: final(self).stream().base.buffer_size_in_frames,
                ..old(self).stream().base
            }),
            old(self).callback_active() ==> 0 <= final(self).stream().base.buffer_size_in_frames,
            old(self).callback_active() ==> final(self).stream().base.buffer_size_in_frames
                <= (if old(self).stream().base.buffer_capacity_in_frames >= 0 {
                old(self).stream().base.buffer_capacity_in_frames
            } else {
                0
            }),
            old(self).callback_active() ==> final(self).before_close_delivered() == old(self).before_close_delivered(),
            old(self).callback_active() ==> final(self).after_close_delivered() == old(self).after_close_delivered(),
            old(self).stream().wf() ==> final(self).stream().wf(),
    {
        if !(self.engine.state == StreamState::Started) || self.callback_stopped
            || self.error_before_close_seen {
            return DataCallbackResult::Stop.to_i32();
        }
        let frame_count: i32 = audio_data.len() as i32;
        let mut view: AudioStreamRef<Input> = AudioStreamRef::wrap(self.engine);
        let result = self.callback.on_audio_ready(&mut view, audio_data.as_slice());
        let seen = view.unwrap();
        let _ = self.engine.set_buffer_size_in_frames(seen.base.buffer_size_in_frames);
        self.engine.deliver_frames(frame_count);
        match result {
            DataCallbackResult::Continue => DataCallbackResult::Continue.to_i32(),
            DataCallbackResult::Stop => {
                self.callback_stopped = true;
                DataCallbackResult::Stop.to_i32()
            },
        }
    }
}

impl<D, F> RawAudioStreamBase for AudioStreamAsync<D, F> {
    closed spec fn raw_base_spec(&self) -> StreamConfig {
        self.engine.base
    }

    fn _raw_base(&self) -> (base: &StreamConfig)
        ensures
            *base == self.raw_base_spec(),
    {
        &self.engine.base
    }
}

impl<D, F> AudioStreamBase for AudioStreamAsync<D, F> {
    closed spec fn base(&self) -> StreamConfig {
        self.engine.base
    }

    fn get_channel_count(&self) -> ChannelCount {
        self._raw_base().channel_count
    }

    fn get_direction(&self) -> Direction {
        self._raw_base().direction
    }

    fn get_sample_rate(&self) -> i32 {
        self._raw_base().sample_rate
    }

    fn get_frames_per_callback(&self) -> i32 {
        self._raw_base().frames_per_callback
    }

    fn get_format(&self) -> AudioFormat {
        self._raw_base().format
    }

    fn get_buffer_size_in_frames(&self) -> i32 {
        self._raw_base().buffer_size_in_frames
    }

    fn get_buffer_capacity_in_frames(&self) -> i32 {
        self._raw_base().buffer_capacity_in_frames
    }

    fn get_sharing_mode(&self) -> SharingMode {
        self._raw_base().sharing_mode
    }

    fn get_performance_mode(&self) -> PerformanceMode {
        self._raw_base().performance_mode
    }

    fn get_device_id(&self) -> i32 {
        self._raw_base().device_id
    }

    fn get_usage(&self) -> Usage {
        self._raw_base().usage
    }

    fn get_content_type(&self) -> ContentType {
        self._raw_base().content_type
    }

    fn get_input_preset(&self) -> InputPreset {
        self._raw_base().input_preset
    }

    fn get_session_id(&self) -> SessionId {
        self._raw_base().session_id
    }

    fn is_channel_conversion_allowed(&self) -> bool {
        self._raw_base().channel_conversion_allowed
    }

    fn is_format_conversion_allowed(&self) -> bool {
        self._raw_base().format_conversion_allowed
    }

    fn get_sample_rate_conversion_quality(&self) -> SampleRateConversionQuality {
        self._raw_base().sample_rate_conversion_quality
    }
}
impl<D, F> RawAudioStream for AudioStreamAsync<D, F> {
    closed spec fn raw_stream_spec(&self) -> EngineStream {
        self.engine
    }

    fn _raw_stream(&self) -> (stream: &EngineStream)
        ensures
            *stream == self.raw_stream_spec(),
    {
        &self.engine
    }
}

impl<D, F> AudioStreamSafe for AudioStreamAsync<D, F> {
    closed spec fn stream(&self) -> EngineStream {
        self.engine
    }

    fn get_state(&self) -> StreamState {
        self._raw_stream().state
    }

    fn set_buffer_size_in_frames(&mut self, requested_frames: i32) -> Result<i32, Error> {
        self.engine.set_buffer_size_in_frames(requested_frames)
    }

    fn get_xrun_count(&self) -> Result<i32, Error> {
        self.engine.get_xrun_count()
    }

    fn is_xrun_count_supported(&self) -> bool {
        self._raw_stream().xrun_supported
    }

    fn get_frames_per_burst(&mut self) -> i32 {
        self.engine.frames_per_burst
    }

    fn get_bytes_per_sample(&mut self) -> i32 {
        self.engine.base.format.bytes_per_sample()
    }

    fn calculate_latency_millis(&mut self) -> Result<i64, Error> {
        self.engine.calculate_latency_millis()
    }

    fn get_timestamp(&mut self, _clock_id: i32) -> Result<FrameTimestamp, Error> {
        self.engine.get_timestamp()
    }

    fn get_audio_api(&self) -> AudioApi {
        self._raw_stream().audio_api
    }

    fn get_available_frames(&mut self) -> Result<i32, Error> {
        self.engine.get_available_frames()
    }
}

impl<D, F> AudioStream for AudioStreamAsync<D, F> {
    fn close(&mut self) -> Result<(), Error> {
        self.engine.close()
    }

    fn start_with_timeout(&mut self, timeout_nanoseconds: i64) -> Result<(), Error> {
        self.engine.start_with_timeout(timeout_nanoseconds)
    }

    fn stop_with_timeout(&mut self, timeout_nanoseconds: i64) -> Result<(), Error> {
        self.engine.stop_with_timeout(timeout_nanoseconds)
    }

    fn request_start(&mut self) -> Result<(), Error> {
        self.engine.request_start()
    }

    fn request_stop(&mut self) -> Result<(), Error> {
        self.engine.request_stop()
    }

    fn wait_for_state_change(&mut self, input_state: StreamState, timeout_nanoseconds: i64) -> Result<StreamState, Error> {
        self.engine.wait_for_state_change(input_state, timeout_nanoseconds)
    }

    fn wait_for_available_frames(&mut self, num_frames: i32, timeout_nanoseconds: i64) -> Result<i32, Error> {
        self.engine.wait_for_available_frames(num_frames, timeout_nanoseconds)
    }
}

impl<F> AudioOutputStream for AudioStreamAsync<Output, F> {
    fn pause_with_timeout(&mut self, timeout_nanoseconds: i64) -> Result<(), Error> {
        self.engine.pause_with_timeout(timeout_nanoseconds)
    }

    fn flush_with_timeout(&mut self, timeout_nanoseconds: i64) -> Result<(), Error> {
        self.engine.flush_with_timeout(timeout_nanoseconds)
    }

    fn request_pause(&mut self) -> Result<(), Error> {
        self.engine.request_pause()
    }

    fn request_flush(&mut self) -> Result<(), Error> {
        self.engine.request_flush()
    }
}

impl<F> AudioInputStreamSafe for AudioStreamAsync<Input, F> {
    fn get_frames_read(&mut self) -> i64 {
        self.engine.consumed_frames
    }
}

impl<F> AudioOutputStreamSafe for AudioStreamAsync<Output, F> {
    fn get_frames_written(&mut self) -> i64 {
        let queued: i64 = if self.engine.fill >= 0 {
            self.engine.fill as i64
        } else {
            0
        };
        if self.engine.consumed_frames > i64::MAX - queued {
            i64::MAX
        } else {
            self.engine.consumed_frames + queued
        }
    }
}

impl<F> RawAudioInputStream for AudioStreamAsync<Input, F> {

}

impl<F> RawAudioOutputStream for AudioStreamAsync<Output, F> {

}

impl<F> AudioInputStream for AudioStreamAsync<Input, F> {

}


impl<F: AudioOutputCallback> AudioStreamAsync<Output, F> {
    /// The engine's error-before-close entry point: fired once when an
    /// error occurs on the stream, after the engine has internally stopped
    /// it and before it releases the underlying resources. Returns whether
    /// the hook fired; a second delivery, or one on a closed stream, is
    /// refused.
    pub fn on_error_before_close(&mut self, error: Error) -> (delivered: bool)
        ensures
            delivered == (!old(self).before_close_delivered() && !old(
                self,
            ).after_close_delivered() && old(self).stream().state != StreamState::Closed
                && old(self).stream().state != StreamState::Closing),
            !delivered ==> *final(self) == *old(self),
            delivered ==> final(self).stream() == (EngineStream {
                state: StreamState::Stopped,
                ..old(self).stream()
            }),
            delivered ==> final(self).before_close_delivered(),
            delivered ==> !final(self).after_close_delivered(),
            delivered ==> final(self).callback_done() == old(self).callback_done(),
            old(self).stream().wf() ==> final(self).stream().wf(),
    {
        if self.error_before_close_seen || self.error_after_close_seen || self.engine.state
            == StreamState::Closed || self.engine.state == StreamState::Closing {
            return false;
        }
        self.engine.state = StreamState::Stopped;
        let mut view: AudioStreamRef<Output> = AudioStreamRef::wrap(self.engine);
        self.callback.on_error_before_close(&mut view, error);
        let _ = view.unwrap();
        self.error_before_close_seen = true;
        true
    }

    /// The engine's error-after-close entry point: fired once, only after
    /// the error-before-close hook, once the engine has released the
    /// underlying stream resources. Returns whether the hook fired; a
    /// delivery without a prior before-close hook is refused, so the
    /// after-close hook is never observed without a before-close hook in
    /// the same session.
    pub fn on_error_after_close(&mut self, error: Error) -> (delivered: bool)
        ensures
            delivered == (old(self).before_close_delivered() && !old(
                self,
            ).after_close_delivered()),
            !delivered ==> *final(self) == *old(self),
            delivered ==> final(self).stream() == close_outcome(old(self).stream()).0,
            delivered ==> final(self).before_close_delivered(),
            delivered ==> final(self).after_close_delivered(),
            delivered ==> final(self).callback_done() == old(self).callback_done(),
            old(self).stream().wf() ==> final(self).stream().wf(),
    {
        if !self.error_before_close_seen || self.error_after_close_seen {
            return false;
        }
        let _ = self.engine.close();
        let mut view: AudioStreamRef<Output> = AudioStreamRef::wrap(self.engine);
        self.callback.on_error_after_close(&mut view, error);
        let _ = view.unwrap();
        self.error_after_close_seen = true;
        true
    }
}

impl<F: AudioInputCallback> AudioStreamAsync<Input, F> {
    /// The engine's error-before-close entry point: fired once when an
    /// error occurs on the stream, after the engine has internally stopped
    /// it and before it releases the underlying resources. Returns whether
    /// the hook fired; a second delivery, or one on a closed stream, is
    /// refused.
    pub fn on_error_before_close(&mut self, error: Error) -> (delivered: bool)
        ensures
            delivered == (!old(self).before_close_delivered() && !old(
                self,
            ).after_close_delivered() && old(self).stream().state != StreamState::Closed
                && old(self).stream().state != StreamState::Closing),
            !delivered ==> *final(self) == *old(self),
            delivered ==> final(self).stream() == (EngineStream {
                state: StreamState::Stopped,
                ..old(self).stream()
            }),
            delivered ==> final(self).before_close_delivered(),
            delivered ==> !final(self).after_close_delivered(),
            delivered ==> final(self).callback_done() == old(self).callback_done(),
            old(self).stream().wf() ==> final(self).stream().wf(),
    {
        if self.error_before_close_seen || self.error_after_close_seen || self.engine.state
            == StreamState::Closed || self.engine.state == StreamState::Closing {
            return false;
        }
        self.engine.state = StreamState::Stopped;
        let mut view: AudioStreamRef<Input> = AudioStreamRef::wrap(self.engine);
        self.callback.on_error_before_close(&mut view, error);
        let _ = view.unwrap();
        self.error_before_close_seen = true;
        true
    }

    /// The engine's error-after-close entry point: fired once, only after
    /// the error-before-close hook, once the engine has released the
    /// underlying stream resources. Returns whether the hook fired; a
    /// delivery without a prior before-close hook is refused, so the
    /// after-close hook is never observed without a before-close hook in
    /// the same session.
    pub fn on_error_after_close(&mut self, error: Error) -> (delivered: bool)
        ensures
            delivered == (old(self).before_close_delivered() && !old(
                self,
            ).after_close_delivered()),
            !delivered ==> *final(self) == *old(self),
            delivered ==> final(self).stream() == close_outcome(old(self).stream()).0,
            delivered ==> final(self).before_close_delivered(),
            delivered ==> final(self).after_close_delivered(),
            delivered ==> final(self).callback_done() == old(self).callback_done(),
            old(self).stream().wf() ==> final(self).stream().wf(),
    {
        if !self.error_before_close_seen || self.error_after_close_seen {
            return false;
        }
        let _ = self.engine.close();
        let mut view: AudioStreamRef<Input> = AudioStreamRef::wrap(self.engine);
        self.callback.on_error_after_close(&mut view, error);
        let _ = view.unwrap();
        self.error_after_close_seen = true;
        true
    }
}

} // verus!
