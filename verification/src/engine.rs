//! The deterministic model of the native audio engine: the configuration
//! record shared by builders and opened streams, the engine-side stream
//! record, and the exact semantics of every engine entry point.
//!
//! The engine is a foreign collaborator in the real system; here it is a
//! state machine whose transitions are written out as specification
//! functions, so the wrapper protocol around it can be verified and so a
//! test double with the same behaviour is available to drivers and tests.

use vstd::prelude::*;

use crate::definitions::AudioApi;
use crate::definitions::AudioFormat;
use crate::definitions::ChannelCount;
use crate::definitions::ContentType;
use crate::definitions::Direction;
use crate::definitions::Error;
use crate::definitions::FrameTimestamp;
use crate::definitions::InputPreset;
use crate::definitions::PerformanceMode;
use crate::definitions::SampleRateConversionQuality;
use crate::definitions::SessionId;
use crate::definitions::SharingMode;
use crate::definitions::StreamState;
use crate::definitions::Usage;
use crate::definitions::MILLIS_PER_SECOND;

verus! {

/// The sample rate the engine negotiates when the application leaves it
/// unspecified.
pub const DEFAULT_SAMPLE_RATE: i32 = 48000;

/// The burst size the engine negotiates when the application does not ask
/// for a fixed number of frames per callback.
pub const DEFAULT_FRAMES_PER_BURST: i32 = 192;

/// The largest value a monotonic frame counter can reach in the model; the
/// counters saturate here so that counter arithmetic can never overflow.
pub const MAX_FRAME_COUNTER: i64 = 0x7fff_ffff_0000_0000;

/// The base configuration record shared by stream builders and opened
/// streams. On a builder the fields hold what the application requested; on
/// an opened stream they hold what the engine negotiated.
#[derive(Debug, Clone, Copy, PartialEq, Eq, Structural)]
pub struct StreamConfig {
    /// Number of channels.
    pub channel_count: ChannelCount,
    /// Stream direction.
    pub direction: Direction,
    /// Sample rate in Hz; 0 while unspecified.
    pub sample_rate: i32,
    /// Number of frames in each callback; 0 lets the engine vary it.
    pub frames_per_callback: i32,
    /// The audio sample format.
    pub format: AudioFormat,
    /// The number of frames that can be filled without blocking.
    pub buffer_size_in_frames: i32,
    /// The maximum possible buffer size in frames; 0 while unspecified.
    pub buffer_capacity_in_frames: i32,
    /// The sharing mode of the stream.
    pub sharing_mode: SharingMode,
    /// The performance mode of the stream.
    pub performance_mode: PerformanceMode,
    /// The device identifier; 0 while unspecified.
    pub device_id: i32,
    /// Why the sound is played.
    pub usage: Usage,
    /// What kind of content the stream carries.
    pub content_type: ContentType,
    /// The input preset of a recording stream.
    pub input_preset: InputPreset,
    /// The session id allocation strategy.
    pub session_id: SessionId,
    /// Whether the engine may convert channel counts for optimal results.
    pub channel_conversion_allowed: bool,
    /// Whether the engine may convert data formats for optimal results.
    pub format_conversion_allowed: bool,
    /// Whether and how well the engine may convert sample rates.
    pub sample_rate_conversion_quality: SampleRateConversionQuality,
}

impl StreamConfig {
    /// The configuration a fresh builder starts from: everything at the
    /// engine defaults, with direction `Output`.
    pub fn initial() -> (config: StreamConfig)
        ensures
            config == StreamConfig::initial_spec(),
    {
        StreamConfig {
            channel_count: ChannelCount::Unspecified,
            direction: Direction::Output,
            sample_rate: 0,
            frames_per_callback: 0,
            format: AudioFormat::Unspecified,
            buffer_size_in_frames: 0,
            buffer_capacity_in_frames: 0,
            sharing_mode: SharingMode::Shared,
            performance_mode: PerformanceMode::NoPreference,
            device_id: 0,
            usage: Usage::Media,
            content_type: ContentType::Music,
            input_preset: InputPreset::VoiceRecognition,
            session_id: SessionId::DoNotAllocate,
            channel_conversion_allowed: true,
            format_conversion_allowed: true,
            sample_rate_conversion_quality: SampleRateConversionQuality::NoConversion,
        }
    }

    /// The configuration a fresh builder starts from.
    pub open spec fn initial_spec() -> StreamConfig {
        StreamConfig {
            channel_count: ChannelCount::Unspecified,
            direction: Direction::Output,
            sample_rate: 0,
            frames_per_callback: 0,
            format: AudioFormat::Unspecified,
            buffer_size_in_frames: 0,
            buffer_capacity_in_frames: 0,
            sharing_mode: SharingMode::Shared,
            performance_mode: PerformanceMode::NoPreference,
            device_id: 0,
            usage: Usage::Media,
            content_type: ContentType::Music,
            input_preset: InputPreset::VoiceRecognition,
            session_id: SessionId::DoNotAllocate,
            channel_conversion_allowed: true,
            format_conversion_allowed: true,
            sample_rate_conversion_quality: SampleRateConversionQuality::NoConversion,
        }
    }
}

/// The engine-side record behind an opened stream: the negotiated
/// configuration together with the live stream state, the transport
/// counters, and the close bookkeeping that teardown is measured by.
#[derive(Debug, Clone, Copy, PartialEq, Eq, Structural)]
pub struct EngineStream {
    /// The negotiated base configuration.
    pub base: StreamConfig,
    /// The live state of the stream.
    pub state: StreamState,
    /// The audio API the engine selected at open time.
    pub audio_api: AudioApi,
    /// The number of frames moved by the endpoint at one time.
    pub frames_per_burst: i32,
    /// The number of frames currently queued between producer and consumer.
    pub fill: i32,
    /// The number of frames the consumer side has taken out of the stream:
    /// the hardware for an output stream, the application for an input
    /// stream. Monotonic; never reset.
    pub consumed_frames: i64,
    /// The number of underruns or overruns so far.
    pub xrun_count: i32,
    /// Whether the selected audio API reports underrun and overrun counts.
    pub xrun_supported: bool,
    /// How many times the stream has been closed. The teardown protocol
    /// promises this ends at exactly one.
    pub close_count: u32,
}

impl EngineStream {
    /// Well-formedness of an engine stream record: the negotiated fields are
    /// concrete and in range, the transport counters stay inside the buffer
    /// bounds, and the stream has been closed exactly as often as its state
    /// says.
    pub open spec fn wf(self) -> bool {
        &&& self.base.sample_rate >= 1
        &&& self.base.buffer_capacity_in_frames >= 1
        &&& 0 <= self.base.buffer_size_in_frames <= self.base.buffer_capacity_in_frames
        &&& 1 <= self.frames_per_burst <= self.base.buffer_capacity_in_frames
        &&& 0 <= self.fill <= self.base.buffer_capacity_in_frames
        &&& 0 <= self.consumed_frames <= MAX_FRAME_COUNTER
        &&& self.base.format != AudioFormat::Unspecified
        &&& self.base.format != AudioFormat::Invalid
        &&& self.base.channel_count != ChannelCount::Unspecified
        &&& self.xrun_count >= 0
        &&& self.close_count == (if self.state == StreamState::Closed || self.state
            == StreamState::Closing {
            1u32
        } else {
            0u32
        })
    }

    /// The number of frames written into the stream so far: by the
    /// application for an output stream, by the hardware for an input
    /// stream. Monotonic; never reset.
    pub open spec fn frames_written_spec(self) -> i64 {
        let queued = if self.fill >= 0 {
            self.fill as int
        } else {
            0
        };
        if self.consumed_frames + queued > i64::MAX {
            i64::MAX
        } else {
            (self.consumed_frames + queued) as i64
        }
    }

    /// The number of frames read from the stream so far: by the hardware
    /// for an output stream, by the application for an input stream.
    /// Monotonic; never reset.
    pub open spec fn frames_read_spec(self) -> i64 {
        self.consumed_frames
    }
}

/// The state a transient stream state settles into when the engine is given
/// time to finish the transition; stable states stay where they are.
pub open spec fn settled_state(state: StreamState) -> StreamState {
    match state {
        StreamState::Starting => StreamState::Started,
        StreamState::Pausing => StreamState::Paused,
        StreamState::Flushing => StreamState::Flushed,
        StreamState::Stopping => StreamState::Stopped,
        StreamState::Closing => StreamState::Closed,
        _ => state,
    }
}

/// What `open` decides for the sample rate: the request, or the engine
/// default where the request left it unspecified.
pub open spec fn negotiated_sample_rate(requested: i32) -> i32 {
    if requested == 0 {
        DEFAULT_SAMPLE_RATE
    } else {
        requested
    }
}

/// What `open` decides for the sample format: the request, or 16-bit
/// integers where the request left it unspecified.
pub open spec fn negotiated_format(requested: AudioFormat) -> AudioFormat {
    if requested == AudioFormat::Unspecified {
        AudioFormat::I16
    } else {
        requested
    }
}

/// What `open` decides for the channel count: the request, or stereo where
/// the request left it unspecified.
pub open spec fn negotiated_channel_count(requested: ChannelCount) -> ChannelCount {
    if requested == ChannelCount::Unspecified {
        ChannelCount::Stereo
    } else {
        requested
    }
}

/// What `open` decides for the burst size: the requested frames per
/// callback where one was given, the engine default otherwise.
pub open spec fn negotiated_burst(frames_per_callback: i32) -> i32 {
    if frames_per_callback > 0 {
        frames_per_callback
    } else {
        DEFAULT_FRAMES_PER_BURST
    }
}

/// What `open` decides for the buffer capacity: at least the request, at
/// least two bursts, and no more than the machine can count in frames.
pub open spec fn negotiated_capacity(requested: i32, burst: i32) -> int {
    let wanted = if requested > 2 * (burst as int) {
        requested as int
    } else {
        2 * (burst as int)
    };
    if wanted > i32::MAX as int {
        i32::MAX as int
    } else {
        wanted
    }
}

/// What `open` decides for the initial buffer size: two bursts, capped at
/// the capacity.
pub open spec fn negotiated_buffer_size(capacity: int, burst: i32) -> int {
    if 2 * (burst as int) > capacity {
        capacity
    } else {
        2 * (burst as int)
    }
}

/// What `open` decides for the audio API: OpenSL ES exactly where the
/// application insisted on it, AAudio otherwise.
pub open spec fn negotiated_audio_api(requested: AudioApi) -> AudioApi {
    if requested == AudioApi::OpenSLES {
        AudioApi::OpenSLES
    } else {
        AudioApi::AAudio
    }
}

/// The engine stream that `open` produces for a requested configuration
/// that passed validation.
pub open spec fn negotiated_stream(requested: StreamConfig, api: AudioApi) -> EngineStream {
    let burst = negotiated_burst(requested.frames_per_callback);
    let capacity = negotiated_capacity(requested.buffer_capacity_in_frames, burst);
    let selected_api = negotiated_audio_api(api);
    EngineStream {
        base: StreamConfig {
            channel_count: negotiated_channel_count(requested.channel_count),
            sample_rate: negotiated_sample_rate(requested.sample_rate),
            format: negotiated_format(requested.format),
            buffer_size_in_frames: negotiated_buffer_size(capacity, burst) as i32,
            buffer_capacity_in_frames: capacity as i32,
            device_id: if selected_api == AudioApi::OpenSLES {
                0i32
            } else {
                requested.device_id
            },
            ..requested
        },
        state: StreamState::Open,
        audio_api: selected_api,
        frames_per_burst: burst,
        fill: 0,
        consumed_frames: 0,
        xrun_count: 0,
        xrun_supported: selected_api == AudioApi::AAudio,
        close_count: 0,
    }
}

/// The outcome of the engine's `open` entry point: either a freshly
/// negotiated stream in the `Open` state, or the error naming the requested
/// field the engine cannot satisfy.
pub open spec fn open_outcome(requested: StreamConfig, api: AudioApi) -> Result<
    EngineStream,
    Error,
> {
    if requested.sample_rate < 0 {
        Err(Error::InvalidRate)
    } else if requested.format == AudioFormat::Invalid {
        Err(Error::InvalidFormat)
    } else if requested.frames_per_callback < 0 {
        Err(Error::OutOfRange)
    } else if requested.buffer_capacity_in_frames < 0 {
        Err(Error::OutOfRange)
    } else {
        Ok(negotiated_stream(requested, api))
    }
}

/// Every stream an `open` succeeds with is well formed.
pub proof fn lemma_open_outcome_wf(requested: StreamConfig, api: AudioApi)
    ensures
        open_outcome(requested, api) is Ok ==> open_outcome(requested, api)->Ok_0.wf(),
{
}

/// Open a stream for a requested configuration: validate the request,
/// negotiate every unspecified field, and hand back the engine-side record.
pub fn open_engine_stream(requested: &StreamConfig, api: AudioApi) -> (outcome: Result<
    EngineStream,
    Error,
>)
    ensures
        outcome == open_outcome(*requested, api),
        outcome is Ok ==> outcome->Ok_0.wf(),
{
    if requested.sample_rate < 0 {
        return Err(Error::InvalidRate);
    }
    if requested.format.to_i32() == -1 {
        return Err(Error::InvalidFormat);
    }
    if requested.frames_per_callback < 0 {
        return Err(Error::OutOfRange);
    }
    if requested.buffer_capacity_in_frames < 0 {
        return Err(Error::OutOfRange);
    }
    let burst: i32 = if requested.frames_per_callback > 0 {
        requested.frames_per_callback
    } else {
        DEFAULT_FRAMES_PER_BURST
    };
    let two_bursts: i64 = 2 * (burst as i64);
    let wanted: i64 = if (requested.buffer_capacity_in_frames as i64) > two_bursts {
        requested.buffer_capacity_in_frames as i64
    } else {
        two_bursts
    };
    let capacity: i32 = if wanted > (i32::MAX as i64) {
        i32::MAX
    } else {
        wanted as i32
    };
    let buffer_size: i32 = if two_bursts > (capacity as i64) {
        capacity
    } else {
        two_bursts as i32
    };
    let selected_api: AudioApi = if api == AudioApi::OpenSLES {
        AudioApi::OpenSLES
    } else {
        AudioApi::AAudio
    };
    let stream = EngineStream {
        base: StreamConfig {
            channel_count: if requested.channel_count == ChannelCount::Unspecified {
                ChannelCount::Stereo
            } else {
                requested.channel_count
            },
            sample_rate: if requested.sample_rate == 0 {
                DEFAULT_SAMPLE_RATE
            } else {
                requested.sample_rate
            },
            format: if requested.format == AudioFormat::Unspecified {
                AudioFormat::I16
            } else {
                requested.format
            },
            buffer_size_in_frames: buffer_size,
            buffer_capacity_in_frames: capacity,
            device_id: if selected_api == AudioApi::OpenSLES {
                0
            } else {
                requested.device_id
            },
            ..*requested
        },
        state: StreamState::Open,
        audio_api: selected_api,
        frames_per_burst: burst,
        fill: 0,
        consumed_frames: 0,
        xrun_count: 0,
        xrun_supported: selected_api == AudioApi::AAudio,
        close_count: 0,
    };
    Ok(stream)
}

/// A saturating increment for the close counter.
pub open spec fn bumped_close_count(count: u32) -> u32 {
    if count < u32::MAX {
        (count + 1) as u32
    } else {
        count
    }
}

/// A monotonic frame counter advanced by `n` frames, saturating at
/// [`MAX_FRAME_COUNTER`] so the arithmetic can never overflow.
pub open spec fn advanced_counter(counter: i64, n: int) -> i64 {
    if counter + n > MAX_FRAME_COUNTER {
        MAX_FRAME_COUNTER
    } else {
        (counter + n) as i64
    }
}

/// The outcome of the engine's `requestStart` entry point.
pub open spec fn request_start_outcome(e: EngineStream) -> (EngineStream, Result<(), Error>) {
    match e.state {
        StreamState::Closed | StreamState::Closing => (e, Err(Error::Closed)),
        StreamState::Disconnected => (e, Err(Error::Disconnected)),
        StreamState::Uninitialized | StreamState::Unknown => (e, Err(Error::InvalidState)),
        StreamState::Starting | StreamState::Started => (e, Ok(())),
        _ => (EngineStream { state: StreamState::Starting, ..e }, Ok(())),
    }
}

/// The outcome of the engine's `requestStop` entry point.
pub open spec fn request_stop_outcome(e: EngineStream) -> (EngineStream, Result<(), Error>) {
    match e.state {
        StreamState::Closed | StreamState::Closing => (e, Err(Error::Closed)),
        StreamState::Disconnected => (e, Err(Error::Disconnected)),
        StreamState::Uninitialized | StreamState::Unknown => (e, Err(Error::InvalidState)),
        StreamState::Stopping | StreamState::Stopped => (e, Ok(())),
        _ => (EngineStream { state: StreamState::Stopping, ..e }, Ok(())),
    }
}

/// The outcome of the engine's `requestPause` entry point: pausing is legal
/// only while the stream is starting or started.
pub open spec fn request_pause_outcome(e: EngineStream) -> (EngineStream, Result<(), Error>) {
    match e.state {
        StreamState::Closed | StreamState::Closing => (e, Err(Error::Closed)),
        StreamState::Disconnected => (e, Err(Error::Disconnected)),
        StreamState::Pausing | StreamState::Paused => (e, Ok(())),
        StreamState::Starting | StreamState::Started => (
            EngineStream { state: StreamState::Pausing, ..e },
            Ok(()),
        ),
        _ => (e, Err(Error::InvalidState)),
    }
}

/// The outcome of the engine's `requestFlush` entry point: flushing is legal
/// only while the stream is paused or stopped, and discards the queued
/// frames, which count as read.
pub open spec fn request_flush_outcome(e: EngineStream) -> (EngineStream, Result<(), Error>) {
    match e.state {
        StreamState::Closed | StreamState::Closing => (e, Err(Error::Closed)),
        StreamState::Disconnected => (e, Err(Error::Disconnected)),
        StreamState::Flushing | StreamState::Flushed => (e, Ok(())),
        StreamState::Paused | StreamState::Stopped => (
            EngineStream {
                state: StreamState::Flushing,
                fill: 0,
                consumed_frames: advanced_counter(
                    e.consumed_frames,
                    if e.fill >= 0 {
                        e.fill as int
                    } else {
                        0
                    },
                ),
                ..e
            },
            Ok(()),
        ),
        _ => (e, Err(Error::InvalidState)),
    }
}

/// The engine blocking until its state settles at `target` or the timeout
/// elapses. A timeout of zero checks once and does not wait; a state that
/// will not settle at the target yields a `Timeout` error.
pub open spec fn await_state(e: EngineStream, target: StreamState, timeout: i64) -> (
    EngineStream,
    Result<(), Error>,
) {
    if e.state == target {
        (e, Ok(()))
    } else if timeout <= 0 {
        (e, Err(Error::Timeout))
    } else {
        let after = EngineStream { state: settled_state(e.state), ..e };
        if after.state == target {
            (after, Ok(()))
        } else {
            (after, Err(Error::Timeout))
        }
    }
}

/// The outcome of the engine's blocking `start` entry point: request the
/// transition, then wait until the stream reports `Started`.
pub open spec fn start_outcome(e: EngineStream, timeout: i64) -> (EngineStream, Result<(), Error>) {
    let (after, requested) = request_start_outcome(e);
    match requested {
        Err(error) => (after, Err(error)),
        Ok(_) => await_state(after, StreamState::Started, timeout),
    }
}

/// The outcome of the engine's blocking `stop` entry point.
pub open spec fn stop_outcome(e: EngineStream, timeout: i64) -> (EngineStream, Result<(), Error>) {
    let (after, requested) = request_stop_outcome(e);
    match requested {
        Err(error) => (after, Err(error)),
        Ok(_) => await_state(after, StreamState::Stopped, timeout),
    }
}

/// The outcome of the engine's blocking `pause` entry point.
pub open spec fn pause_outcome(e: EngineStream, timeout: i64) -> (EngineStream, Result<(), Error>) {
    let (after, requested) = request_pause_outcome(e);
    match requested {
        Err(error) => (after, Err(error)),
        Ok(_) => await_state(after, StreamState::Paused, timeout),
    }
}

/// The outcome of the engine's blocking `flush` entry point.
pub open spec fn flush_outcome(e: EngineStream, timeout: i64) -> (EngineStream, Result<(), Error>) {
    let (after, requested) = request_flush_outcome(e);
    match requested {
        Err(error) => (after, Err(error)),
        Ok(_) => await_state(after, StreamState::Flushed, timeout),
    }
}

/// The outcome of the engine's `waitForStateChange` entry point: succeed as
/// soon as the state differs from `input_state`, and fail with `Timeout`
/// otherwise - also when the given timeout is zero, which means "check
/// once", not "wait forever".
pub open spec fn wait_for_state_change_outcome(
    e: EngineStream,
    input_state: StreamState,
    timeout: i64,
) -> (EngineStream, Result<StreamState, Error>) {
    if e.state != input_state {
        (e, Ok(e.state))
    } else if timeout <= 0 {
        (e, Err(Error::Timeout))
    } else {
        let settled = settled_state(e.state);
        if settled != e.state {
            (EngineStream { state: settled, ..e }, Ok(settled))
        } else {
            (e, Err(Error::Timeout))
        }
    }
}

/// The outcome of the engine's `close` entry point: closing an already
/// closed or closing stream fails, anything else transitions to `Closed`
/// and counts one close invocation.
pub open spec fn close_outcome(e: EngineStream) -> (EngineStream, Result<(), Error>) {
    if e.state == StreamState::Closed || e.state == StreamState::Closing {
        (e, Err(Error::Closed))
    } else {
        (
            EngineStream {
                state: StreamState::Closed,
                close_count: bumped_close_count(e.close_count),
                ..e
            },
            Ok(()),
        )
    }
}

/// The buffer size the engine settles on for a request: clamped below by
/// zero and above by the buffer capacity. Requesting more than the capacity
/// yields the capacity, not an error.
pub open spec fn clamped_buffer_size(capacity: i32, requested: i32) -> i32 {
    let floor = if requested < 0 {
        0i32
    } else {
        requested
    };
    let cap = if capacity < 0 {
        0i32
    } else {
        capacity
    };
    if floor > cap {
        cap
    } else {
        floor
    }
}

/// The outcome of the engine's `setBufferSizeInFrames` entry point.
pub open spec fn set_buffer_size_outcome(e: EngineStream, requested: i32) -> (
    EngineStream,
    Result<i32, Error>,
) {
    if e.state == StreamState::Closed {
        (e, Err(Error::Closed))
    } else {
        let adjusted = clamped_buffer_size(e.base.buffer_capacity_in_frames, requested);
        (
            EngineStream {
                base: StreamConfig { buffer_size_in_frames: adjusted, ..e.base },
                ..e
            },
            Ok(adjusted),
        )
    }
}

/// The outcome of the engine's `getXRunCount` entry point: the counter
/// where the selected audio API maintains one.
pub open spec fn xrun_count_outcome(e: EngineStream) -> Result<i32, Error> {
    if e.xrun_supported {
        Ok(e.xrun_count)
    } else {
        Err(Error::Unimplemented)
    }
}

/// The outcome of the engine's `getTimestamp` entry point: a position is
/// available once the stream is started and frames have crossed to the
/// consumer side. The model pins the presentation clock at the epoch.
pub open spec fn timestamp_outcome(e: EngineStream) -> Result<FrameTimestamp, Error> {
    if e.state == StreamState::Started && e.consumed_frames > 0 {
        Ok(FrameTimestamp { position: e.consumed_frames, timestamp: 0 })
    } else {
        Err(Error::InvalidState)
    }
}

/// The outcome of the engine's `calculateLatencyMillis` entry point: the
/// time the queued frames take to cross the stream, in whole milliseconds;
/// it fails whenever no timestamp is available.
pub open spec fn latency_millis_outcome(e: EngineStream) -> Result<i64, Error> {
    if !(e.state == StreamState::Started && e.consumed_frames > 0) {
        Err(Error::InvalidState)
    } else if e.base.sample_rate <= 0 {
        Err(Error::InvalidRate)
    } else {
        let queued = if e.fill >= 0 {
            e.fill as int
        } else {
            0
        };
        Ok((queued * (MILLIS_PER_SECOND as int) / (e.base.sample_rate as int)) as i64)
    }
}

/// The outcome of the engine's `getAvailableFrames` entry point.
pub open spec fn available_frames_outcome(e: EngineStream) -> Result<i32, Error> {
    if e.state == StreamState::Closed || e.state == StreamState::Closing {
        Err(Error::Closed)
    } else {
        Ok(e.fill)
    }
}

/// The outcome of the engine's `waitForAvailableFrames` entry point: wait
/// until at least `num_frames` frames are queued. Recording hardware
/// produces frames on demand while the caller waits; nothing else can make
/// frames appear, so everywhere else an unmet demand times out.
pub open spec fn wait_for_available_frames_outcome(
    e: EngineStream,
    num_frames: i32,
    timeout: i64,
) -> (EngineStream, Result<i32, Error>) {
    if e.state == StreamState::Closed || e.state == StreamState::Closing {
        (e, Err(Error::Closed))
    } else if e.state == StreamState::Disconnected {
        (e, Err(Error::Disconnected))
    } else {
        let wanted = if num_frames < 0 {
            0i32
        } else {
            num_frames
        };
        if e.fill >= wanted {
            (e, Ok(e.fill))
        } else if timeout <= 0 {
            (e, Err(Error::Timeout))
        } else if e.base.direction == Direction::Input && wanted
            <= e.base.buffer_capacity_in_frames {
            (EngineStream { fill: wanted, ..e }, Ok(wanted))
        } else {
            (e, Err(Error::Timeout))
        }
    }
}

impl EngineStream {
    /// Start the stream asynchronously; returns immediately.
    pub fn request_start(&mut self) -> (status: Result<(), Error>)
        ensures
            *final(self) == request_start_outcome(*old(self)).0,
            status == request_start_outcome(*old(self)).1,
            old(self).wf() ==> final(self).wf(),
    {
        match self.state {
            StreamState::Closed | StreamState::Closing => Err(Error::Closed),
            StreamState::Disconnected => Err(Error::Disconnected),
            StreamState::Uninitialized | StreamState::Unknown => Err(Error::InvalidState),
            StreamState::Starting | StreamState::Started => Ok(()),
            _ => {
                self.state = StreamState::Starting;
                Ok(())
            },
        }
    }

    /// Stop the stream asynchronously; returns immediately.
    pub fn request_stop(&mut self) -> (status: Result<(), Error>)
        ensures
            *final(self) == request_stop_outcome(*old(self)).0,
            status == request_stop_outcome(*old(self)).1,
            old(self).wf() ==> final(self).wf(),
    {
        match self.state {
            StreamState::Closed | StreamState::Closing => Err(Error::Closed),
            StreamState::Disconnected => Err(Error::Disconnected),
            StreamState::Uninitialized | StreamState::Unknown => Err(Error::InvalidState),
            StreamState::Stopping | StreamState::Stopped => Ok(()),
            _ => {
                self.state = StreamState::Stopping;
                Ok(())
            },
        }
    }

    /// Pause the stream asynchronously; returns immediately.
    pub fn request_pause(&mut self) -> (status: Result<(), Error>)
        ensures
            *final(self) == request_pause_outcome(*old(self)).0,
            status == request_pause_outcome(*old(self)).1,
            old(self).wf() ==> final(self).wf(),
    {
        match self.state {
            StreamState::Closed | StreamState::Closing => Err(Error::Closed),
            StreamState::Disconnected => Err(Error::Disconnected),
            StreamState::Pausing | StreamState::Paused => Ok(()),
            StreamState::Starting | StreamState::Started => {
                self.state = StreamState::Pausing;
                Ok(())
            },
            _ => Err(Error::InvalidState),
        }
    }

    /// Flush the stream asynchronously; returns immediately. The queued
    /// frames are discarded and count as read.
    pub fn request_flush(&mut self) -> (status: Result<(), Error>)
        ensures
            *final(self) == request_flush_outcome(*old(self)).0,
            status == request_flush_outcome(*old(self)).1,
            old(self).wf() ==> final(self).wf(),
    {
        match self.state {
            StreamState::Closed | StreamState::Closing => Err(Error::Closed),
            StreamState::Disconnected => Err(Error::Disconnected),
            StreamState::Flushing | StreamState::Flushed => Ok(()),
            StreamState::Paused | StreamState::Stopped => {
                let discarded: i32 = if self.fill >= 0 {
                    self.fill
                } else {
                    0
                };
                self.state = StreamState::Flushing;
                self.fill = 0;
                self.consumed_frames = advance_counter(self.consumed_frames, discarded as i64);
                Ok(())
            },
            _ => Err(Error::InvalidState),
        }
    }

    /// Let a transient state settle, as waiting on the engine does.
    fn settle(&mut self)
        ensures
            *final(self) == (EngineStream { state: settled_state(old(self).state), ..*old(self) }),
    {
        self.state = match self.state {
            StreamState::Starting => StreamState::Started,
            StreamState::Pausing => StreamState::Paused,
            StreamState::Flushing => StreamState::Flushed,
            StreamState::Stopping => StreamState::Stopped,
            StreamState::Closing => StreamState::Closed,
            other => other,
        };
    }

    /// Block until the state settles at `target` or the timeout elapses.
    fn wait_until(&mut self, target: StreamState, timeout_nanoseconds: i64) -> (status: Result<
        (),
        Error,
    >)
        ensures
            *final(self) == await_state(*old(self), target, timeout_nanoseconds).0,
            status == await_state(*old(self), target, timeout_nanoseconds).1,
    {
        if self.state == target {
            return Ok(());
        }
        if timeout_nanoseconds <= 0 {
            return Err(Error::Timeout);
        }
        self.settle();
        if self.state == target {
            Ok(())
        } else {
            Err(Error::Timeout)
        }
    }

    /// Start the stream, blocking until it reports `Started`, an error
    /// occurs or the timeout elapses.
    pub fn start_with_timeout(&mut self, timeout_nanoseconds: i64) -> (status: Result<(), Error>)
        ensures
            *final(self) == start_outcome(*old(self), timeout_nanoseconds).0,
            status == start_outcome(*old(self), timeout_nanoseconds).1,
            old(self).wf() ==> final(self).wf(),
            status is Ok ==> final(self).state == StreamState::Started,
    {
        let requested = self.request_start();
        if let Err(error) = requested {
            return Err(error);
        }
        self.wait_until(StreamState::Started, timeout_nanoseconds)
    }

    /// Stop the stream, blocking until it reports `Stopped`, an error
    /// occurs or the timeout elapses.
    pub fn stop_with_timeout(&mut self, timeout_nanoseconds: i64) -> (status: Result<(), Error>)
        ensures
            *final(self) == stop_outcome(*old(self), timeout_nanoseconds).0,
            status == stop_outcome(*old(self), timeout_nanoseconds).1,
            old(self).wf() ==> final(self).wf(),
            status is Ok ==> final(self).state == StreamState::Stopped,
    {
        let requested = self.request_stop();
        if let Err(error) = requested {
            return Err(error);
        }
        self.wait_until(StreamState::Stopped, timeout_nanoseconds)
    }

    /// Pause the stream, blocking until it reports `Paused`, an error
    /// occurs or the timeout elapses.
    pub fn pause_with_timeout(&mut self, timeout_nanoseconds: i64) -> (status: Result<(), Error>)
        ensures
            *final(self) == pause_outcome(*old(self), timeout_nanoseconds).0,
            status == pause_outcome(*old(self), timeout_nanoseconds).1,
            old(self).wf() ==> final(self).wf(),
            status is Ok ==> final(self).state == StreamState::Paused,
    {
        let requested = self.request_pause();
        if let Err(error) = requested {
            return Err(error);
        }
        self.wait_until(StreamState::Paused, timeout_nanoseconds)
    }

    /// Flush the stream, blocking until it reports `Flushed`, an error
    /// occurs or the timeout elapses.
    pub fn flush_with_timeout(&mut self, timeout_nanoseconds: i64) -> (status: Result<(), Error>)
        ensures
            *final(self) == flush_outcome(*old(self), timeout_nanoseconds).0,
            status == flush_outcome(*old(self), timeout_nanoseconds).1,
            old(self).wf() ==> final(self).wf(),
            status is Ok ==> final(self).state == StreamState::Flushed,
    {
        let requested = self.request_flush();
        if let Err(error) = requested {
            return Err(error);
        }
        self.wait_until(StreamState::Flushed, timeout_nanoseconds)
    }

    /// Wait until the live state no longer matches `input_state`, or fail
    /// with `Timeout` - also for a zero timeout, which means "check once".
    pub fn wait_for_state_change(&mut self, input_state: StreamState, timeout_nanoseconds: i64) -> (
        next: Result<StreamState, Error>)
        ensures
            *final(self) == wait_for_state_change_outcome(
                *old(self),
                input_state,
                timeout_nanoseconds,
            ).0,
            next == wait_for_state_change_outcome(*old(self), input_state, timeout_nanoseconds).1,
            old(self).wf() ==> final(self).wf(),
    {
        if self.state != input_state {
            return Ok(self.state);
        }
        if timeout_nanoseconds <= 0 {
            return Err(Error::Timeout);
        }
        let before = self.state;
        self.settle();
        if self.state != before {
            Ok(self.state)
        } else {
            Err(Error::Timeout)
        }
    }

    /// Close the stream and release its engine resources. Closing an
    /// already closed or closing stream fails with `Closed`.
    pub fn close(&mut self) -> (status: Result<(), Error>)
        ensures
            *final(self) == close_outcome(*old(self)).0,
            status == close_outcome(*old(self)).1,
            old(self).wf() ==> final(self).wf(),
    {
        if self.state == StreamState::Closed || self.state == StreamState::Closing {
            return Err(Error::Closed);
        }
        self.state = StreamState::Closed;
        if self.close_count < u32::MAX {
            self.close_count = self.close_count + 1;
        }
        Ok(())
    }

    /// Adjust the blocking threshold of the buffer. The request is clamped
    /// to the buffer capacity; asking for more than the capacity yields the
    /// capacity, not an error.
    pub fn set_buffer_size_in_frames(&mut self, requested_frames: i32) -> (resulting: Result<
        i32,
        Error,
    >)
        ensures
            *final(self) == set_buffer_size_outcome(*old(self), requested_frames).0,
            resulting == set_buffer_size_outcome(*old(self), requested_frames).1,
            old(self).wf() ==> final(self).wf(),
    {
        if self.state == StreamState::Closed {
            return Err(Error::Closed);
        }
        let floor: i32 = if requested_frames < 0 {
            0
        } else {
            requested_frames
        };
        let cap: i32 = if self.base.buffer_capacity_in_frames < 0 {
            0
        } else {
            self.base.buffer_capacity_in_frames
        };
        let adjusted: i32 = if floor > cap {
            cap
        } else {
            floor
        };
        self.base.buffer_size_in_frames = adjusted;
        Ok(adjusted)
    }

    /// The underrun or overrun count, where the selected audio API
    /// maintains one.
    pub fn get_xrun_count(&self) -> (count: Result<i32, Error>)
        ensures
            count == xrun_count_outcome(*self),
    {
        if self.xrun_supported {
            Ok(self.xrun_count)
        } else {
            Err(Error::Unimplemented)
        }
    }

    /// The position and time at which a frame entered or left the stream,
    /// or an error while no timestamp is available.
    pub fn get_timestamp(&self) -> (stamp: Result<FrameTimestamp, Error>)
        ensures
            stamp == timestamp_outcome(*self),
    {
        if self.state == StreamState::Started && self.consumed_frames > 0 {
            Ok(FrameTimestamp { position: self.consumed_frames, timestamp: 0 })
        } else {
            Err(Error::InvalidState)
        }
    }

    /// The latency of the stream in whole milliseconds, derived from the
    /// timestamp and the queued frame count.
    pub fn calculate_latency_millis(&self) -> (latency: Result<i64, Error>)
        ensures
            latency == latency_millis_outcome(*self),
    {
        if !(self.state == StreamState::Started && self.consumed_frames > 0) {
            return Err(Error::InvalidState);
        }
        if self.base.sample_rate <= 0 {
            return Err(Error::InvalidRate);
        }
        let queued: i64 = if self.fill >= 0 {
            self.fill as i64
        } else {
            0
        };
        Ok(queued * MILLIS_PER_SECOND / (self.base.sample_rate as i64))
    }

    /// The number of frames currently queued in the stream's buffer.
    pub fn get_available_frames(&self) -> (available: Result<i32, Error>)
        ensures
            available == available_frames_outcome(*self),
    {
        if self.state == StreamState::Closed || self.state == StreamState::Closing {
            Err(Error::Closed)
        } else {
            Ok(self.fill)
        }
    }

    /// Wait until at least `num_frames` frames are queued, or fail with
    /// `Timeout`.
    pub fn wait_for_available_frames(&mut self, num_frames: i32, timeout_nanoseconds: i64) -> (
        available: Result<i32, Error>)
        ensures
            *final(self) == wait_for_available_frames_outcome(
                *old(self),
                num_frames,
                timeout_nanoseconds,
            ).0,
            available == wait_for_available_frames_outcome(
                *old(self),
                num_frames,
                timeout_nanoseconds,
            ).1,
            old(self).wf() ==> final(self).wf(),
    {
        if self.state == StreamState::Closed || self.state == StreamState::Closing {
            return Err(Error::Closed);
        }
        if self.state == StreamState::Disconnected {
            return Err(Error::Disconnected);
        }
        let wanted: i32 = if num_frames < 0 {
            0
        } else {
            num_frames
        };
        if self.fill >= wanted {
            Ok(self.fill)
        } else if timeout_nanoseconds <= 0 {
            Err(Error::Timeout)
        } else if self.base.direction == Direction::Input && wanted
            <= self.base.buffer_capacity_in_frames {
            self.fill = wanted;
            Ok(wanted)
        } else {
            Err(Error::Timeout)
        }
    }
}

/// Advance a monotonic frame counter by `n` frames, saturating at
/// [`MAX_FRAME_COUNTER`].
pub fn advance_counter(counter: i64, n: i64) -> (advanced: i64)
    requires
        0 <= n,
    ensures
        advanced == advanced_counter(counter, n as int),
{
    if counter > MAX_FRAME_COUNTER - n {
        MAX_FRAME_COUNTER
    } else {
        counter + n
    }
}

/// The transport bookkeeping of a blocking write of `frame_count` frames
/// into the stream. A zero timeout writes only what fits without blocking;
/// with a positive timeout the consumer drains whatever is needed for the
/// whole write to fit.
pub open spec fn write_frames_outcome(e: EngineStream, frame_count: int, timeout: i64) -> (
    EngineStream,
    Result<i32, Error>,
) {
    match e.state {
        StreamState::Closed | StreamState::Closing => (e, Err(Error::Closed)),
        StreamState::Disconnected => (e, Err(Error::Disconnected)),
        StreamState::Uninitialized | StreamState::Unknown => (e, Err(Error::InvalidState)),
        _ => {
            let cap = if e.base.buffer_capacity_in_frames >= 0 {
                e.base.buffer_capacity_in_frames as int
            } else {
                0
            };
            let queued = if e.fill >= 0 {
                e.fill as int
            } else {
                0
            };
            if timeout <= 0 {
                let space = if cap >= queued {
                    cap - queued
                } else {
                    0
                };
                let accepted = if frame_count <= space {
                    frame_count
                } else {
                    space
                };
                (EngineStream { fill: (queued + accepted) as i32, ..e }, Ok(accepted as i32))
            } else {
                let total = queued + frame_count;
                let remaining = if total <= cap {
                    total
                } else {
                    cap
                };
                (
                    EngineStream {
                        fill: remaining as i32,
                        consumed_frames: advanced_counter(e.consumed_frames, total - remaining),
                        ..e
                    },
                    Ok(frame_count as i32),
                )
            }
        },
    }
}

/// The transport bookkeeping of a blocking read of `frame_count` frames
/// from the stream. A zero timeout reads only what is already queued; with
/// a positive timeout the recording hardware produces whatever is missing
/// while the caller waits.
pub open spec fn read_frames_outcome(e: EngineStream, frame_count: int, timeout: i64) -> (
    EngineStream,
    Result<i32, Error>,
) {
    match e.state {
        StreamState::Closed | StreamState::Closing => (e, Err(Error::Closed)),
        StreamState::Disconnected => (e, Err(Error::Disconnected)),
        StreamState::Uninitialized | StreamState::Unknown => (e, Err(Error::InvalidState)),
        _ => {
            let queued = if e.fill >= 0 {
                e.fill as int
            } else {
                0
            };
            if timeout <= 0 {
                let taken = if frame_count <= queued {
                    frame_count
                } else {
                    queued
                };
                (
                    EngineStream {
                        fill: (queued - taken) as i32,
                        consumed_frames: advanced_counter(e.consumed_frames, taken),
                        ..e
                    },
                    Ok(taken as i32),
                )
            } else {
                let remaining = if queued >= frame_count {
                    queued - frame_count
                } else {
                    0
                };
                (
                    EngineStream {
                        fill: remaining as i32,
                        consumed_frames: advanced_counter(e.consumed_frames, frame_count),
                        ..e
                    },
                    Ok(frame_count as i32),
                )
            }
        },
    }
}

/// The transport bookkeeping of one callback delivery: `frame_count`
/// frames cross the stream without queueing.
pub open spec fn delivered_frames(e: EngineStream, frame_count: int) -> EngineStream {
    EngineStream { consumed_frames: advanced_counter(e.consumed_frames, frame_count), ..e }
}

impl EngineStream {
    /// Account for a blocking write of `frame_count` frames.
    pub fn write_frames(&mut self, frame_count: i32, timeout_nanoseconds: i64) -> (written: Result<
        i32,
        Error,
    >)
        requires
            0 <= frame_count,
        ensures
            *final(self) == write_frames_outcome(
                *old(self),
                frame_count as int,
                timeout_nanoseconds,
            ).0,
            written == write_frames_outcome(*old(self), frame_count as int, timeout_nanoseconds).1,
            old(self).wf() ==> final(self).wf(),
    {
        match self.state {
            StreamState::Closed | StreamState::Closing => Err(Error::Closed),
            StreamState::Disconnected => Err(Error::Disconnected),
            StreamState::Uninitialized | StreamState::Unknown => Err(Error::InvalidState),
            _ => {
                let cap: i32 = if self.base.buffer_capacity_in_frames >= 0 {
                    self.base.buffer_capacity_in_frames
                } else {
                    0
                };
                let queued: i32 = if self.fill >= 0 {
                    self.fill
                } else {
                    0
                };
                if timeout_nanoseconds <= 0 {
                    let space: i32 = if cap >= queued {
                        cap - queued
                    } else {
                        0
                    };
                    let accepted: i32 = if frame_count <= space {
                        frame_count
                    } else {
                        space
                    };
                    self.fill = queued + accepted;
                    Ok(accepted)
                } else {
                    let total: i64 = (queued as i64) + (frame_count as i64);
                    let remaining: i64 = if total <= (cap as i64) {
                        total
                    } else {
                        cap as i64
                    };
                    self.fill = remaining as i32;
                    self.consumed_frames = advance_counter(self.consumed_frames, total - remaining);
                    Ok(frame_count)
                }
            },
        }
    }

    /// Account for a blocking read of `frame_count` frames.
    pub fn read_frames(&mut self, frame_count: i32, timeout_nanoseconds: i64) -> (taken: Result<
        i32,
        Error,
    >)
        requires
            0 <= frame_count,
        ensures
            *final(self) == read_frames_outcome(
                *old(self),
                frame_count as int,
                timeout_nanoseconds,
            ).0,
            taken == read_frames_outcome(*old(self), frame_count as int, timeout_nanoseconds).1,
            old(self).wf() ==> final(self).wf(),
    {
        match self.state {
            StreamState::Closed | StreamState::Closing => Err(Error::Closed),
            StreamState::Disconnected => Err(Error::Disconnected),
            StreamState::Uninitialized | StreamState::Unknown => Err(Error::InvalidState),
            _ => {
                let queued: i32 = if self.fill >= 0 {
                    self.fill
                } else {
                    0
                };
                if timeout_nanoseconds <= 0 {
                    let taken_now: i32 = if frame_count <= queued {
                        frame_count
                    } else {
                        queued
                    };
                    self.fill = queued - taken_now;
                    self.consumed_frames = advance_counter(self.consumed_frames, taken_now as i64);
                    Ok(taken_now)
                } else {
                    let remaining: i32 = if queued >= frame_count {
                        queued - frame_count
                    } else {
                        0
                    };
                    self.fill = remaining;
                    self.consumed_frames = advance_counter(
                        self.consumed_frames,
                        frame_count as i64,
                    );
                    Ok(frame_count)
                }
            },
        }
    }

    /// Account for one callback delivery of `frame_count` frames.
    pub fn deliver_frames(&mut self, frame_count: i32)
        requires
            0 <= frame_count,
        ensures
            *final(self) == delivered_frames(*old(self), frame_count as int),
            old(self).wf() ==> final(self).wf(),
    {
        self.consumed_frames = advance_counter(self.consumed_frames, frame_count as i64);
    }
}

/// A successful blocking `start` leaves the stream in the `Started`
/// state: `get_state` immediately after a start that returned success
/// reports `Started`, never the transient `Starting`.
pub proof fn lemma_start_ok_implies_started(e: EngineStream, timeout: i64)
    ensures
        start_outcome(e, timeout).1 is Ok ==> start_outcome(e, timeout).0.state
            == StreamState::Started,
{
}

/// Waiting for a state change away from the state the stream is in fails
/// with `Timeout` whenever the state cannot settle anywhere else and the
/// timeout is zero: a zero timeout means "check once", not "wait
/// forever".
pub proof fn lemma_wait_for_state_change_zero_timeout(e: EngineStream, timeout: i64)
    requires
        timeout <= 0,
    ensures
        wait_for_state_change_outcome(e, e.state, timeout).1 == Err::<StreamState, Error>(
            Error::Timeout,
        ),
        wait_for_state_change_outcome(e, e.state, timeout).0 == e,
{
}

/// The buffer size round trip: after `set_buffer_size_in_frames` with a
/// request of `n` on an open stream, the size `get_buffer_size_in_frames`
/// reads back is the size the call returned; it never exceeds the buffer
/// capacity, it equals `n` exactly when `0 <= n <= capacity`, and a
/// request beyond the capacity yields the capacity itself, not an error.
pub proof fn lemma_buffer_size_round_trip(e: EngineStream, n: i32)
    requires
        e.wf(),
        e.state != StreamState::Closed,
    ensures
        set_buffer_size_outcome(e, n).1 == Ok::<i32, Error>(
            set_buffer_size_outcome(e, n).0.base.buffer_size_in_frames,
        ),
        set_buffer_size_outcome(e, n).0.base.buffer_size_in_frames
            <= e.base.buffer_capacity_in_frames,
        0 <= n <= e.base.buffer_capacity_in_frames ==> set_buffer_size_outcome(
            e,
            n,
        ).0.base.buffer_size_in_frames == n,
        n > e.base.buffer_capacity_in_frames ==> set_buffer_size_outcome(
            e,
            n,
        ).0.base.buffer_size_in_frames == e.base.buffer_capacity_in_frames,
        set_buffer_size_outcome(e, n).0.base.buffer_capacity_in_frames
            == e.base.buffer_capacity_in_frames,
{
}

} // verus!
