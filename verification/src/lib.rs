//! A safety wrapper over a high-performance audio engine's stream lifecycle,
//! configuration, and real-time callback protocol.
//!
//! The engine itself is modeled as a deterministic state machine, so the
//! typed stream builder, the stream lifecycle operations and the callback
//! marshaling protocol can be specified and verified end to end. Platform
//! integration drives the model from outside the library.

mod audio_stream;
mod audio_stream_base;
mod audio_stream_builder;
mod audio_stream_callback;
mod definitions;
mod engine;
mod java_interface;
mod private;
mod type_guide;

pub use definitions::wrap_result;
pub use definitions::wrap_status;
pub use definitions::AudioApi;
pub use definitions::AudioFormat;
pub use definitions::ChannelCount;
pub use definitions::ContentType;
pub use definitions::DataCallbackResult;
pub use definitions::DefaultStreamValues;
pub use definitions::Direction;
pub use definitions::Error;
pub use definitions::FrameTimestamp;
pub use definitions::InputPreset;
pub use definitions::PerformanceMode;
pub use definitions::SampleRateConversionQuality;
pub use definitions::SessionId;
pub use definitions::SharingMode;
pub use definitions::StreamState;
pub use definitions::Usage;
pub use definitions::MILLIS_PER_SECOND;
pub use definitions::NANOS_PER_MICROSECOND;
pub use definitions::NANOS_PER_MILLISECOND;
pub use definitions::NANOS_PER_SECOND;

pub use type_guide::AltFrame;
pub use type_guide::Input;
pub use type_guide::IsChannelCount;
pub use type_guide::IsDirection;
pub use type_guide::IsFormat;
pub use type_guide::IsFrameType;
pub use type_guide::Mono;
pub use type_guide::Output;
pub use type_guide::Stereo;
pub use type_guide::Unspecified;

pub use engine::advance_counter;
pub use engine::advanced_counter;
pub use engine::available_frames_outcome;
pub use engine::await_state;
pub use engine::bumped_close_count;
pub use engine::clamped_buffer_size;
pub use engine::close_outcome;
pub use engine::delivered_frames;
pub use engine::flush_outcome;
pub use engine::latency_millis_outcome;
pub use engine::lemma_buffer_size_round_trip;
pub use engine::lemma_open_outcome_wf;
pub use engine::lemma_start_ok_implies_started;
pub use engine::lemma_wait_for_state_change_zero_timeout;
pub use engine::negotiated_audio_api;
pub use engine::negotiated_burst;
pub use engine::negotiated_buffer_size;
pub use engine::negotiated_capacity;
pub use engine::negotiated_channel_count;
pub use engine::negotiated_format;
pub use engine::negotiated_sample_rate;
pub use engine::negotiated_stream;
pub use engine::open_engine_stream;
pub use engine::open_outcome;
pub use engine::pause_outcome;
pub use engine::read_frames_outcome;
pub use engine::request_flush_outcome;
pub use engine::request_pause_outcome;
pub use engine::request_start_outcome;
pub use engine::request_stop_outcome;
pub use engine::set_buffer_size_outcome;
pub use engine::settled_state;
pub use engine::start_outcome;
pub use engine::stop_outcome;
pub use engine::timestamp_outcome;
pub use engine::wait_for_available_frames_outcome;
pub use engine::wait_for_state_change_outcome;
pub use engine::write_frames_outcome;
pub use engine::xrun_count_outcome;
pub use engine::EngineStream;
pub use engine::StreamConfig;
pub use engine::DEFAULT_FRAMES_PER_BURST;
pub use engine::DEFAULT_SAMPLE_RATE;
pub use engine::MAX_FRAME_COUNTER;

pub use audio_stream_base::base_description;
pub use audio_stream_base::decimal_chars;
pub use audio_stream_base::decimal_chars_positive;
pub use audio_stream_base::decimal_digit_char;
pub use audio_stream_base::decimal_string;
pub use audio_stream_base::AudioStreamBase;

pub use audio_stream::stream_extra_description;
pub use audio_stream::AudioInputStream;
pub use audio_stream::AudioInputStreamSafe;
pub use audio_stream::AudioInputStreamSync;
pub use audio_stream::AudioOutputStream;
pub use audio_stream::AudioOutputStreamSafe;
pub use audio_stream::AudioOutputStreamSync;
pub use audio_stream::AudioStream;
pub use audio_stream::AudioStreamAsync;
pub use audio_stream::AudioStreamRef;
pub use audio_stream::AudioStreamSafe;
pub use audio_stream::AudioStreamSync;
pub use audio_stream::DEFAULT_TIMEOUT_NANOS;

pub use audio_stream_callback::AudioInputCallback;
pub use audio_stream_callback::AudioOutputCallback;

pub use audio_stream_builder::aaudio_recommended_spec;
pub use audio_stream_builder::aaudio_supported_spec;
pub use audio_stream_builder::will_use_aaudio_spec;
pub use audio_stream_builder::AudioStreamBuilder;
pub use audio_stream_builder::AudioStreamBuilderAsync;

pub use java_interface::all_ascii_digits;
pub use java_interface::decimal_digits_value;
pub use java_interface::init_outcome;
pub use java_interface::is_ascii_digit;
pub use java_interface::parse_decimal_spec;
pub use java_interface::parse_property_value;
pub use java_interface::parsed_integer;
pub use java_interface::property_digits;
pub use java_interface::AudioFeature;

pub use private::RawAudioInputStream;
pub use private::RawAudioOutputStream;
pub use private::RawAudioStream;
pub use private::RawAudioStreamBase;
