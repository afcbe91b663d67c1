//! The stream builder: a factory for audio streams whose type parameters
//! track direction, sample format and channel configuration as the
//! configuration is narrowed, and whose callback attachment is gated on
//! the frame type matching the configured format and channel count.

use vstd::prelude::*;

use crate::audio_stream::AudioStreamAsync;
use crate::audio_stream::AudioStreamSync;
use crate::audio_stream_base::AudioStreamBase;
use crate::audio_stream_callback::AudioInputCallback;
use crate::audio_stream_callback::AudioOutputCallback;
use crate::definitions::AudioApi;
use crate::definitions::AudioFormat;
use crate::definitions::ChannelCount;
use crate::definitions::ContentType;
use crate::definitions::Direction;
use crate::definitions::Error;
use crate::definitions::InputPreset;
use crate::definitions::PerformanceMode;
use crate::definitions::SampleRateConversionQuality;
use crate::definitions::SessionId;
use crate::definitions::SharingMode;
use crate::definitions::StreamState;
use crate::definitions::Usage;
use crate::engine::open_engine_stream;
use crate::engine::open_outcome;
use crate::engine::StreamConfig;
use crate::private::RawAudioStreamBase;
use crate::type_guide::Input;
use crate::type_guide::IsChannelCount;
use crate::type_guide::IsDirection;
use crate::type_guide::IsFormat;
use crate::type_guide::IsFrameType;
use crate::type_guide::Mono;
use crate::type_guide::Output;
use crate::type_guide::Stereo;
use crate::type_guide::Unspecified;
use crate::audio_stream::AudioStreamSafe;
use core::marker::PhantomData;

verus! {

/// Whether the AAudio API is supported on the modeled platform. AAudio
/// became available with the Oreo release; the model stands for a device
/// of that generation or later.
pub open spec fn aaudio_supported_spec() -> bool {
    true
}

/// Whether the AAudio API is recommended on the modeled platform. AAudio
/// is not recommended on the earliest release that carries it; the model
/// stands for a later device.
pub open spec fn aaudio_recommended_spec() -> bool {
    true
}

/// Whether opening will select AAudio, based on the requested audio API
/// and the platform queries; advisory only, the engine performs the
/// authoritative selection at open time.
pub open spec fn will_use_aaudio_spec(api: AudioApi) -> bool {
    (api == AudioApi::AAudio && aaudio_supported_spec()) || (api == AudioApi::Unspecified
        && aaudio_recommended_spec())
}

/// Factory for an audio stream.
///
/// Every configuration method consumes the builder and returns a new,
/// possibly re-typed one, so a builder is used in a single chain and a
/// stale configuration state cannot be reused.
pub struct AudioStreamBuilder<D, C, T> {
    config: StreamConfig,
    requested_api: AudioApi,
    _marker: PhantomData<(D, C, T)>,
}

/// Factory for a callback-driven audio stream: the result of attaching a
/// callback to a builder. The format and channel configuration cannot be
/// narrowed any further, since the callback's frame type is now fixed, but
/// the remaining scalar attributes can still be set.
///
/// The async builder owns the callback until the stream is opened or the
/// builder is discarded, and hands it on or back exactly once.
pub struct AudioStreamBuilderAsync<D, F> {
    config: StreamConfig,
    requested_api: AudioApi,
    callback: F,
    _marker: PhantomData<D>,
}

impl AudioStreamBuilder<Output, Unspecified, Unspecified> {
    /// Create a new audio stream builder, with direction `Output` and
    /// every other attribute at the engine defaults.
    pub fn new() -> (builder: AudioStreamBuilder<Output, Unspecified, Unspecified>)
        ensures
            builder.base() == StreamConfig::initial_spec(),
            builder.requested_audio_api() == AudioApi::Unspecified,
    {
        AudioStreamBuilder {
            config: StreamConfig::initial(),
            requested_api: AudioApi::Unspecified,
            _marker: PhantomData,
        }
    }
}

impl Default for AudioStreamBuilder<Output, Unspecified, Unspecified> {
    /// Create a new audio stream builder.
    fn default() -> (builder: AudioStreamBuilder<Output, Unspecified, Unspecified>)
        ensures
            builder.base() == StreamConfig::initial_spec(),
            builder.requested_audio_api() == AudioApi::Unspecified,
    {
        AudioStreamBuilder::new()
    }
}

impl<D, C, T> AudioStreamBuilder<D, C, T> {
    /// The audio API that will be requested when opening the stream.
    pub closed spec fn requested_audio_api(&self) -> AudioApi {
        self.requested_api
    }

    /// Re-type the builder without touching the configuration.
    fn convert<D1, C1, T1>(self) -> (builder: AudioStreamBuilder<D1, C1, T1>)
        ensures
            builder.base() == self.base(),
            builder.requested_audio_api() == self.requested_audio_api(),
    {
        AudioStreamBuilder {
            config: self.config,
            requested_api: self.requested_api,
            _marker: PhantomData,
        }
    }

    /// Request a specific number of channels; the marker narrows the
    /// channel count type parameter.
    pub fn set_channel_count<X: IsChannelCount>(self) -> (builder: AudioStreamBuilder<D, X, T>)
        ensures
            builder.base() == (StreamConfig {
                channel_count: X::channel_count_of(),
                ..self.base()
            }),
            builder.requested_audio_api() == self.requested_audio_api(),
    {
        let mut builder = self.convert::<D, X, T>();
        builder.config.channel_count = X::channel_count();
        builder
    }

    /// Request mono mode for the stream.
    pub fn set_mono(self) -> (builder: AudioStreamBuilder<D, Mono, T>)
        ensures
            builder.base() == (StreamConfig { channel_count: ChannelCount::Mono, ..self.base() }),
            builder.requested_audio_api() == self.requested_audio_api(),
    {
        self.set_channel_count::<Mono>()
    }

    /// Request stereo mode for the stream.
    pub fn set_stereo(self) -> (builder: AudioStreamBuilder<D, Stereo, T>)
        ensures
            builder.base() == (StreamConfig { channel_count: ChannelCount::Stereo, ..self.base() }),
            builder.requested_audio_api() == self.requested_audio_api(),
    {
        self.set_channel_count::<Stereo>()
    }

    /// Request the direction for the stream; the marker narrows the
    /// direction type parameter. The default is output.
    pub fn set_direction<X: IsDirection>(self) -> (builder: AudioStreamBuilder<X, C, T>)
        ensures
            builder.base() == (StreamConfig { direction: X::direction_of(), ..self.base() }),
            builder.requested_audio_api() == self.requested_audio_api(),
    {
        let mut builder = self.convert::<X, C, T>();
        builder.config.direction = X::direction();
        builder
    }

    /// Request input (recording) direction for the stream.
    pub fn set_input(self) -> (builder: AudioStreamBuilder<Input, C, T>)
        ensures
            builder.base() == (StreamConfig { direction: Direction::Input, ..self.base() }),
            builder.requested_audio_api() == self.requested_audio_api(),
    {
        self.set_direction::<Input>()
    }

    /// Request output (playback) direction for the stream.
    pub fn set_output(self) -> (builder: AudioStreamBuilder<Output, C, T>)
        ensures
            builder.base() == (StreamConfig { direction: Direction::Output, ..self.base() }),
            builder.requested_audio_api() == self.requested_audio_api(),
    {
        self.set_direction::<Output>()
    }

    /// Request a sample data format; the marker narrows the format type
    /// parameter and doubles as the sample type of the frames.
    pub fn set_format<X: IsFormat>(self) -> (builder: AudioStreamBuilder<D, C, X>)
        ensures
            builder.base() == (StreamConfig { format: X::format_of(), ..self.base() }),
            builder.requested_audio_api() == self.requested_audio_api(),
    {
        let mut builder = self.convert::<D, C, X>();
        builder.config.format = X::format();
        builder
    }

    /// Request signed 16-bit integer samples.
    pub fn set_i16(self) -> (builder: AudioStreamBuilder<D, C, i16>)
        ensures
            builder.base() == (StreamConfig { format: AudioFormat::I16, ..self.base() }),
            builder.requested_audio_api() == self.requested_audio_api(),
    {
        self.set_format::<i16>()
    }

    /// Request signed 32-bit integer samples.
    pub fn set_i32(self) -> (builder: AudioStreamBuilder<D, C, i32>)
        ensures
            builder.base() == (StreamConfig { format: AudioFormat::I32, ..self.base() }),
            builder.requested_audio_api() == self.requested_audio_api(),
    {
        self.set_format::<i32>()
    }

    /// Get the audio API which will be requested when opening the stream.
    pub fn get_audio_api(&self) -> (api: AudioApi)
        ensures
            api == self.requested_audio_api(),
    {
        self.requested_api
    }

    /// Request an audio API. If left unspecified the engine chooses the
    /// best API for the device at open time.
    pub fn set_audio_api(self, audio_api: AudioApi) -> (builder: Self)
        ensures
            builder.base() == self.base(),
            builder.requested_audio_api() == audio_api,
    {
        let mut builder = self;
        builder.requested_api = audio_api;
        builder
    }

    /// Is the AAudio API supported on this device? AAudio was introduced
    /// with the Oreo release; the modeled platform carries it.
    pub fn is_aaudio_supported() -> (supported: bool)
        ensures
            supported == aaudio_supported_spec(),
    {
        true
    }

    /// Is the AAudio API recommended on this device? The modeled platform
    /// is recent enough that it is.
    pub fn is_aaudio_recommended() -> (recommended: bool)
        ensures
            recommended == aaudio_recommended_spec(),
    {
        true
    }

    /// Returns true if AAudio will be used based on the current settings.
    pub fn will_use_aaudio(&self) -> (aaudio: bool)
        ensures
            aaudio == will_use_aaudio_spec(self.requested_audio_api()),
    {
        let audio_api = self.get_audio_api();
        (audio_api == AudioApi::AAudio && Self::is_aaudio_supported()) || (audio_api
            == AudioApi::Unspecified && Self::is_aaudio_recommended())
    }
}

impl<D: IsDirection, C: IsChannelCount, T: IsFormat> AudioStreamBuilder<D, C, T> {
    /// Create and open a synchronous (blocking) stream based on the
    /// current settings. The open fails, and names the offending field,
    /// exactly when a requested numeric attribute is negative or the
    /// format is invalid; every unspecified attribute is negotiated to a
    /// concrete value.
    pub fn open_stream(self) -> (outcome: Result<AudioStreamSync<D, (T, C)>, Error>)
        ensures
            open_outcome(self.base(), self.requested_audio_api()) is Ok ==> (outcome is Ok
                && outcome->Ok_0.stream() == open_outcome(
                self.base(),
                self.requested_audio_api(),
            )->Ok_0),
            open_outcome(self.base(), self.requested_audio_api()) is Err ==> (outcome is Err
                && outcome->Err_0 == open_outcome(
                self.base(),
                self.requested_audio_api(),
            )->Err_0),
            outcome is Ok ==> outcome->Ok_0.stream().wf(),
            outcome is Ok ==> outcome->Ok_0.stream().state == StreamState::Open,
    {
        match open_engine_stream(&self.config, self.requested_api) {
            Ok(engine) => Ok(AudioStreamSync::wrap(engine)),
            Err(error) => Err(error),
        }
    }
}

impl<C: IsChannelCount, T: IsFormat> AudioStreamBuilder<Input, C, T> {
    /// Specify an object to handle data and error callbacks from the
    /// engine. The callback's frame type must exactly equal the format
    /// and channel count the builder is configured with: a mismatched
    /// combination does not compile.
    pub fn set_callback<F>(self, stream_callback: F) -> (built: AudioStreamBuilderAsync<Input, F>)
        where
            F: AudioInputCallback<FrameType = (T, C)>,
            (T, C): IsFrameType,
        ensures
            built.base() == self.base(),
            built.requested_audio_api() == self.requested_audio_api(),
            built.callback_value() == stream_callback,
    {
        AudioStreamBuilderAsync {
            config: self.config,
            requested_api: self.requested_api,
            callback: stream_callback,
            _marker: PhantomData,
        }
    }
}

impl<C: IsChannelCount, T: IsFormat> AudioStreamBuilder<Output, C, T> {
    /// Specify an object to handle data and error callbacks from the
    /// engine. The callback's frame type must exactly equal the format
    /// and channel count the builder is configured with: a mismatched
    /// combination does not compile.
    pub fn set_callback<F>(self, stream_callback: F) -> (built: AudioStreamBuilderAsync<Output, F>)
        where
            F: AudioOutputCallback<FrameType = (T, C)>,
            (T, C): IsFrameType,
        ensures
            built.base() == self.base(),
            built.requested_audio_api() == self.requested_audio_api(),
            built.callback_value() == stream_callback,
    {
        AudioStreamBuilderAsync {
            config: self.config,
            requested_api: self.requested_api,
            callback: stream_callback,
            _marker: PhantomData,
        }
    }
}

impl<D, F> AudioStreamBuilderAsync<D, F> {
    /// The audio API that will be requested when opening the stream.
    pub closed spec fn requested_audio_api(&self) -> AudioApi {
        self.requested_api
    }

    /// The callback attached to this builder.
    pub closed spec fn callback_value(&self) -> F {
        self.callback
    }

    /// Get the audio API which will be requested when opening the stream.
    pub fn get_audio_api(&self) -> (api: AudioApi)
        ensures
            api == self.requested_audio_api(),
    {
        self.requested_api
    }

    /// Discard the builder before ever opening a stream: its own teardown
    /// hands the attached callback back, exactly once.
    pub fn discard(self) -> (callback: F)
        ensures
            callback == self.callback_value(),
    {
        self.callback
    }
}

impl<F: AudioInputCallback> AudioStreamBuilderAsync<Input, F> {
    /// Create and open an asynchronous (callback-driven) input stream
    /// based on the current settings. On success the stream takes over
    /// the callback; on failure the builder's teardown deallocates it.
    pub fn open_stream(self) -> (outcome: Result<AudioStreamAsync<Input, F>, Error>)
        ensures
            open_outcome(self.base(), self.requested_audio_api()) is Ok ==> (outcome is Ok
                && outcome->Ok_0.stream() == open_outcome(
                self.base(),
                self.requested_audio_api(),
            )->Ok_0),
            open_outcome(self.base(), self.requested_audio_api()) is Err ==> (outcome is Err
                && outcome->Err_0 == open_outcome(
                self.base(),
                self.requested_audio_api(),
            )->Err_0),
            outcome is Ok ==> outcome->Ok_0.callback_value() == self.callback_value(),
            outcome is Ok ==> !outcome->Ok_0.callback_done(),
            outcome is Ok ==> !outcome->Ok_0.before_close_delivered(),
            outcome is Ok ==> !outcome->Ok_0.after_close_delivered(),
            outcome is Ok ==> outcome->Ok_0.stream().wf(),
            outcome is Ok ==> outcome->Ok_0.stream().state == StreamState::Open,
    {
        match open_engine_stream(&self.config, self.requested_api) {
            Ok(engine) => Ok(AudioStreamAsync::wrap_with_callback(engine, self.callback)),
            Err(error) => Err(error),
        }
    }
}

impl<F: AudioOutputCallback> AudioStreamBuilderAsync<Output, F> {
    /// Create and open an asynchronous (callback-driven) output stream
    /// based on the current settings. On success the stream takes over
    /// the callback; on failure the builder's teardown deallocates it.
    pub fn open_stream(self) -> (outcome: Result<AudioStreamAsync<Output, F>, Error>)
        ensures
            open_outcome(self.base(), self.requested_audio_api()) is Ok ==> (outcome is Ok
                && outcome->Ok_0.stream() == open_outcome(
                self.base(),
                self.requested_audio_api(),
            )->Ok_0),
            open_outcome(self.base(), self.requested_audio_api()) is Err ==> (outcome is Err
                && outcome->Err_0 == open_outcome(
                self.base(),
                self.requested_audio_api(),
            )->Err_0),
            outcome is Ok ==> outcome->Ok_0.callback_value() == self.callback_value(),
            outcome is Ok ==> !outcome->Ok_0.callback_done(),
            outcome is Ok ==> !outcome->Ok_0.before_close_delivered(),
            outcome is Ok ==> !outcome->Ok_0.after_close_delivered(),
            outcome is Ok ==> outcome->Ok_0.stream().wf(),
            outcome is Ok ==> outcome->Ok_0.stream().state == StreamState::Open,
    {
        match open_engine_stream(&self.config, self.requested_api) {
            Ok(engine) => Ok(AudioStreamAsync::wrap_with_callback(engine, self.callback)),
            Err(error) => Err(error),
        }
    }
}

impl<D, C, T> AudioStreamBuilder<D, C, T> {
    /// Request a specific sample rate in Hz; 0 leaves it to the engine.
    pub fn set_sample_rate(self, sample_rate: i32) -> (built: Self)
        ensures
            built.base() == (StreamConfig { sample_rate, ..self.base() }),
            built.requested_audio_api() == self.requested_audio_api(),
    {
        let mut built = self;
        built.config.sample_rate = sample_rate;
        built
    }

    /// Request a specific number of frames for the data callback; 0 lets the actual number vary from callback to callback.
    pub fn set_frames_per_callback(self, frames_per_callback: i32) -> (built: Self)
        ensures
            built.base() == (StreamConfig { frames_per_callback, ..self.base() }),
            built.requested_audio_api() == self.requested_audio_api(),
    {
        let mut built = self;
        built.config.frames_per_callback = frames_per_callback;
        built
    }

    /// Set the requested buffer capacity in frames; the final capacity may differ, but will be at least this big.
    pub fn set_buffer_capacity_in_frames(self, buffer_capacity_in_frames: i32) -> (built: Self)
        ensures
            built.base() == (StreamConfig { buffer_capacity_in_frames, ..self.base() }),
            built.requested_audio_api() == self.requested_audio_api(),
    {
        let mut built = self;
        built.config.buffer_capacity_in_frames = buffer_capacity_in_frames;
        built
    }

    /// Request a mode for sharing the device; the actual mode should be queried after the stream is opened.
    pub fn set_sharing_mode(self, sharing_mode: SharingMode) -> (built: Self)
        ensures
            built.base() == (StreamConfig { sharing_mode, ..self.base() }),
            built.requested_audio_api() == self.requested_audio_api(),
    {
        let mut built = self;
        built.config.sharing_mode = sharing_mode;
        built
    }

    /// Request a performance level for the stream, trading latency against power consumption.
    pub fn set_performance_mode(self, performance_mode: PerformanceMode) -> (built: Self)
        ensures
            built.base() == (StreamConfig { performance_mode, ..self.base() }),
            built.requested_audio_api() == self.requested_audio_api(),
    {
        let mut built = self;
        built.config.performance_mode = performance_mode;
        built
    }

    /// Set the intended use case for the stream; the system uses this to optimize volume and focus handling.
    pub fn set_usage(self, usage: Usage) -> (built: Self)
        ensures
            built.base() == (StreamConfig { usage, ..self.base() }),
            built.requested_audio_api() == self.requested_audio_api(),
    {
        let mut built = self;
        built.config.usage = usage;
        built
    }

    /// Set the type of audio data that the stream carries.
    pub fn set_content_type(self, content_type: ContentType) -> (built: Self)
        ensures
            built.base() == (StreamConfig { content_type, ..self.base() }),
            built.requested_audio_api() == self.requested_audio_api(),
    {
        let mut built = self;
        built.config.content_type = content_type;
        built
    }

    /// Set the recording preset for the stream, which affects microphone selection and processing.
    pub fn set_input_preset(self, input_preset: InputPreset) -> (built: Self)
        ensures
            built.base() == (StreamConfig { input_preset, ..self.base() }),
            built.requested_audio_api() == self.requested_audio_api(),
    {
        let mut built = self;
        built.config.input_preset = input_preset;
        built
    }

    /// Set the requested session id strategy, for associating the stream with platform audio effects.
    pub fn set_session_id(self, session_id: SessionId) -> (built: Self)
        ensures
            built.base() == (StreamConfig { session_id, ..self.base() }),
            built.requested_audio_api() == self.requested_audio_api(),
    {
        let mut built = self;
        built.config.session_id = session_id;
        built
    }

    /// Request a specific audio device by its platform identifier; 0 leaves the choice to the engine.
    pub fn set_device_id(self, device_id: i32) -> (built: Self)
        ensures
            built.base() == (StreamConfig { device_id, ..self.base() }),
            built.requested_audio_api() == self.requested_audio_api(),
    {
        let mut built = self;
        built.config.device_id = device_id;
        built
    }

    /// Allow the engine to convert channel counts to achieve optimal results.
    pub fn set_channel_conversion_allowed(self, channel_conversion_allowed: bool) -> (built: Self)
        ensures
            built.base() == (StreamConfig { channel_conversion_allowed, ..self.base() }),
            built.requested_audio_api() == self.requested_audio_api(),
    {
        let mut built = self;
        built.config.channel_conversion_allowed = channel_conversion_allowed;
        built
    }

    /// Allow the engine to convert data formats to achieve optimal results.
    pub fn set_format_conversion_allowed(self, format_conversion_allowed: bool) -> (built: Self)
        ensures
            built.base() == (StreamConfig { format_conversion_allowed, ..self.base() }),
            built.requested_audio_api() == self.requested_audio_api(),
    {
        let mut built = self;
        built.config.format_conversion_allowed = format_conversion_allowed;
        built
    }

    /// Specify the quality of the engine's sample rate converter.
    pub fn set_sample_rate_conversion_quality(self, sample_rate_conversion_quality: SampleRateConversionQuality) -> (built: Self)
        ensures
            built.base() == (StreamConfig { sample_rate_conversion_quality, ..self.base() }),
            built.requested_audio_api() == self.requested_audio_api(),
    {
        let mut built = self;
        built.config.sample_rate_conversion_quality = sample_rate_conversion_quality;
        built
    }

    /// Request the shared mode for the device.
    pub fn set_shared(self) -> (built: Self)
        ensures
            built.base() == (StreamConfig { sharing_mode: SharingMode::Shared, ..self.base() }),
            built.requested_audio_api() == self.requested_audio_api(),
    {
        self.set_sharing_mode(SharingMode::Shared)
    }

    /// Request the exclusive mode for the device, for the lowest possible
    /// latency.
    pub fn set_exclusive(self) -> (built: Self)
        ensures
            built.base() == (StreamConfig { sharing_mode: SharingMode::Exclusive, ..self.base() }),
            built.requested_audio_api() == self.requested_audio_api(),
    {
        self.set_sharing_mode(SharingMode::Exclusive)
    }
}

impl<D, F> AudioStreamBuilderAsync<D, F> {
    /// Request a specific sample rate in Hz; 0 leaves it to the engine.
    pub fn set_sample_rate(self, sample_rate: i32) -> (built: Self)
        ensures
            built.base() == (StreamConfig { sample_rate, ..self.base() }),
            built.requested_audio_api() == self.requested_audio_api(),
            built.callback_value() == self.callback_value(),
    {
        let mut built = self;
        built.config.sample_rate = sample_rate;
        built
    }

    /// Request a specific number of frames for the data callback; 0 lets the actual number vary from callback to callback.
    pub fn set_frames_per_callback(self, frames_per_callback: i32) -> (built: Self)
        ensures
            built.base() == (StreamConfig { frames_per_callback, ..self.base() }),
            built.requested_audio_api() == self.requested_audio_api(),
            built.callback_value() == self.callback_value(),
    {
        let mut built = self;
        built.config.frames_per_callback = frames_per_callback;
        built
    }

    /// Set the requested buffer capacity in frames; the final capacity may differ, but will be at least this big.
    pub fn set_buffer_capacity_in_frames(self, buffer_capacity_in_frames: i32) -> (built: Self)
        ensures
            built.base() == (StreamConfig { buffer_capacity_in_frames, ..self.base() }),
            built.requested_audio_api() == self.requested_audio_api(),
            built.callback_value() == self.callback_value(),
    {
        let mut built = self;
        built.config.buffer_capacity_in_frames = buffer_capacity_in_frames;
        built
    }

    /// Request a mode for sharing the device; the actual mode should be queried after the stream is opened.
    pub fn set_sharing_mode(self, sharing_mode: SharingMode) -> (built: Self)
        ensures
            built.base() == (StreamConfig { sharing_mode, ..self.base() }),
            built.requested_audio_api() == self.requested_audio_api(),
            built.callback_value() == self.callback_value(),
    {
        let mut built = self;
        built.config.sharing_mode = sharing_mode;
        built
    }

    /// Request a performance level for the stream, trading latency against power consumption.
    pub fn set_performance_mode(self, performance_mode: PerformanceMode) -> (built: Self)
        ensures
            built.base() == (StreamConfig { performance_mode, ..self.base() }),
            built.requested_audio_api() == self.requested_audio_api(),
            built.callback_value() == self.callback_value(),
    {
        let mut built = self;
        built.config.performance_mode = performance_mode;
        built
    }

    /// Set the intended use case for the stream; the system uses this to optimize volume and focus handling.
    pub fn set_usage(self, usage: Usage) -> (built: Self)
        ensures
            built.base() == (StreamConfig { usage, ..self.base() }),
            built.requested_audio_api() == self.requested_audio_api(),
            built.callback_value() == self.callback_value(),
    {
        let mut built = self;
        built.config.usage = usage;
        built
    }

    /// Set the type of audio data that the stream carries.
    pub fn set_content_type(self, content_type: ContentType) -> (built: Self)
        ensures
            built.base() == (StreamConfig { content_type, ..self.base() }),
            built.requested_audio_api() == self.requested_audio_api(),
            built.callback_value() == self.callback_value(),
    {
        let mut built = self;
        built.config.content_type = content_type;
        built
    }

    /// Set the recording preset for the stream, which affects microphone selection and processing.
    pub fn set_input_preset(self, input_preset: InputPreset) -> (built: Self)
        ensures
            built.base() == (StreamConfig { input_preset, ..self.base() }),
            built.requested_audio_api() == self.requested_audio_api(),
            built.callback_value() == self.callback_value(),
    {
        let mut built = self;
        built.config.input_preset = input_preset;
        built
    }

    /// Set the requested session id strategy, for associating the stream with platform audio effects.
    pub fn set_session_id(self, session_id: SessionId) -> (built: Self)
        ensures
            built.base() == (StreamConfig { session_id, ..self.base() }),
            built.requested_audio_api() == self.requested_audio_api(),
            built.callback_value() == self.callback_value(),
    {
        let mut built = self;
        built.config.session_id = session_id;
        built
    }

    /// Request a specific audio device by its platform identifier; 0 leaves the choice to the engine.
    pub fn set_device_id(self, device_id: i32) -> (built: Self)
        ensures
            built.base() == (StreamConfig { device_id, ..self.base() }),
            built.requested_audio_api() == self.requested_audio_api(),
            built.callback_value() == self.callback_value(),
    {
        let mut built = self;
        built.config.device_id = device_id;
        built
    }

    /// Allow the engine to convert channel counts to achieve optimal results.
    pub fn set_channel_conversion_allowed(self, channel_conversion_allowed: bool) -> (built: Self)
        ensures
            built.base() == (StreamConfig { channel_conversion_allowed, ..self.base() }),
            built.requested_audio_api() == self.requested_audio_api(),
            built.callback_value() == self.callback_value(),
    {
        let mut built = self;
        built.config.channel_conversion_allowed = channel_conversion_allowed;
        built
    }

    /// Allow the engine to convert data formats to achieve optimal results.
    pub fn set_format_conversion_allowed(self, format_conversion_allowed: bool) -> (built: Self)
        ensures
            built.base() == (StreamConfig { format_conversion_allowed, ..self.base() }),
            built.requested_audio_api() == self.requested_audio_api(),
            built.callback_value() == self.callback_value(),
    {
        let mut built = self;
        built.config.format_conversion_allowed = format_conversion_allowed;
        built
    }

    /// Specify the quality of the engine's sample rate converter.
    pub fn set_sample_rate_conversion_quality(self, sample_rate_conversion_quality: SampleRateConversionQuality) -> (built: Self)
        ensures
            built.base() == (StreamConfig { sample_rate_conversion_quality, ..self.base() }),
            built.requested_audio_api() == self.requested_audio_api(),
            built.callback_value() == self.callback_value(),
    {
        let mut built = self;
        built.config.sample_rate_conversion_quality = sample_rate_conversion_quality;
        built
    }
}

impl<D, C, T> RawAudioStreamBase for AudioStreamBuilder<D, C, T> {
    closed spec fn raw_base_spec(&self) -> StreamConfig {
        self.config
    }

    fn _raw_base(&self) -> (base: &StreamConfig)
        ensures
            *base == self.raw_base_spec(),
    {
        &self.config
    }
}

impl<D, C, T> AudioStreamBase for AudioStreamBuilder<D, C, T> {
    closed spec fn base(&self) -> StreamConfig {
        self.config
    }

    fn get_channel_count(&self) -> ChannelCount {
        self._raw_base().channel_count
    }

    fn get_direction(&self) -> Direction {
        self._raw_base().direction
    }

    fn get_sample_rate(&self) -> i32 {
        self._raw_base().sample_rate
    }

    fn get_frames_per_callback(&self) -> i32 {
        self._raw_base().frames_per_callback
    }

    fn get_format(&self) -> AudioFormat {
        self._raw_base().format
    }

    fn get_buffer_size_in_frames(&self) -> i32 {
        self._raw_base().buffer_size_in_frames
    }

    fn get_buffer_capacity_in_frames(&self) -> i32 {
        self._raw_base().buffer_capacity_in_frames
    }

    fn get_sharing_mode(&self) -> SharingMode {
        self._raw_base().sharing_mode
    }

    fn get_performance_mode(&self) -> PerformanceMode {
        self._raw_base().performance_mode
    }

    fn get_device_id(&self) -> i32 {
        self._raw_base().device_id
    }

    fn get_usage(&self) -> Usage {
        self._raw_base().usage
    }

    fn get_content_type(&self) -> ContentType {
        self._raw_base().content_type
    }

    fn get_input_preset(&self) -> InputPreset {
        self._raw_base().input_preset
    }

    fn get_session_id(&self) -> SessionId {
        self._raw_base().session_id
    }

    fn is_channel_conversion_allowed(&self) -> bool {
        self._raw_base().channel_conversion_allowed
    }

    fn is_format_conversion_allowed(&self) -> bool {
        self._raw_base().format_conversion_allowed
    }

    fn get_sample_rate_conversion_quality(&self) -> SampleRateConversionQuality {
        self._raw_base().sample_rate_conversion_quality
    }
}

impl<D, F> RawAudioStreamBase for AudioStreamBuilderAsync<D, F> {
    closed spec fn raw_base_spec(&self) -> StreamConfig {
        self.config
    }

    fn _raw_base(&self) -> (base: &StreamConfig)
        ensures
            *base == self.raw_base_spec(),
    {
        &self.config
    }
}

impl<D, F> AudioStreamBase for AudioStreamBuilderAsync<D, F> {
    closed spec fn base(&self) -> StreamConfig {
        self.config
    }

    fn get_channel_count(&self) -> ChannelCount {
        self._raw_base().channel_count
    }

    fn get_direction(&self) -> Direction {
        self._raw_base().direction
    }

    fn get_sample_rate(&self) -> i32 {
        self._raw_base().sample_rate
    }

    fn get_frames_per_callback(&self) -> i32 {
        self._raw_base().frames_per_callback
    }

    fn get_format(&self) -> AudioFormat {
        self._raw_base().format
    }

    fn get_buffer_size_in_frames(&self) -> i32 {
        self._raw_base().buffer_size_in_frames
    }

    fn get_buffer_capacity_in_frames(&self) -> i32 {
        self._raw_base().buffer_capacity_in_frames
    }

    fn get_sharing_mode(&self) -> SharingMode {
        self._raw_base().sharing_mode
    }

    fn get_performance_mode(&self) -> PerformanceMode {
        self._raw_base().performance_mode
    }

    fn get_device_id(&self) -> i32 {
        self._raw_base().device_id
    }

    fn get_usage(&self) -> Usage {
        self._raw_base().usage
    }

    fn get_content_type(&self) -> ContentType {
        self._raw_base().content_type
    }

    fn get_input_preset(&self) -> InputPreset {
        self._raw_base().input_preset
    }

    fn get_session_id(&self) -> SessionId {
        self._raw_base().session_id
    }

    fn is_channel_conversion_allowed(&self) -> bool {
        self._raw_base().channel_conversion_allowed
    }

    fn is_format_conversion_allowed(&self) -> bool {
        self._raw_base().format_conversion_allowed
    }

    fn get_sample_rate_conversion_quality(&self) -> SampleRateConversionQuality {
        self._raw_base().sample_rate_conversion_quality
    }
}

} // verus!
