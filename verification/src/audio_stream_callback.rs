//! The callback interfaces an application implements to act as the
//! real-time data source or sink of a stream, and to be alerted of stream
//! errors.

use vstd::prelude::*;

use crate::audio_stream::AudioStreamRef;
use crate::definitions::DataCallbackResult;
use crate::definitions::Error;
use crate::type_guide::Input;
use crate::type_guide::IsFrameType;
use crate::type_guide::Output;

verus! {

/// The callback interface of a recording stream, for:
///
/// 1) moving data out of the stream with `on_audio_ready`, and
/// 2) being alerted when the stream has an error with the `on_error_*`
///    methods.
///
/// `on_audio_ready` runs on the engine's real-time audio thread: it must
/// not allocate, block, sleep, or touch the stream that invoked it, only
/// the `get_*` queries of the stream reference are in bounds. The engine
/// serializes the invocations on one stream.
pub trait AudioInputCallback {
    /// The sample type and channel configuration of the frames delivered.
    type FrameType: IsFrameType;

    /// Called when an error occurs on the stream or the device goes away,
    /// on a thread of the engine's own. The underlying stream is already
    /// stopped but not yet closed, so it can still be queried.
    fn on_error_before_close(
        &mut self,
        _audio_stream: &mut AudioStreamRef<Input>,
        _error: Error,
    ) {
    }

    /// Called after the underlying stream has been stopped and closed by
    /// the engine. The base configuration can still be queried, but the
    /// values refer to a stream that no longer exists.
    fn on_error_after_close(
        &mut self,
        _audio_stream: &mut AudioStreamRef<Input>,
        _error: Error,
    ) {
    }

    /// A buffer of captured frames is ready to be taken out. Return
    /// `Continue` to keep the stream running, `Stop` to end the callbacks.
    fn on_audio_ready(
        &mut self,
        audio_stream: &mut AudioStreamRef<Input>,
        audio_data: &[<Self::FrameType as IsFrameType>::Type],
    ) -> DataCallbackResult;
}

/// The callback interface of a playback stream, for:
///
/// 1) rendering data into the stream with `on_audio_ready`, and
/// 2) being alerted when the stream has an error with the `on_error_*`
///    methods.
///
/// `on_audio_ready` runs on the engine's real-time audio thread: it must
/// not allocate, block, sleep, or touch the stream that invoked it, only
/// the `get_*` queries of the stream reference are in bounds. The engine
/// serializes the invocations on one stream.
pub trait AudioOutputCallback {
    /// The sample type and channel configuration of the frames rendered.
    type FrameType: IsFrameType;

    /// Called when an error occurs on the stream or the device goes away,
    /// on a thread of the engine's own. The underlying stream is already
    /// stopped but not yet closed, so it can still be queried.
    fn on_error_before_close(
        &mut self,
        _audio_stream: &mut AudioStreamRef<Output>,
        _error: Error,
    ) {
    }

    /// Called after the underlying stream has been stopped and closed by
    /// the engine. The base configuration can still be queried, but the
    /// values refer to a stream that no longer exists.
    fn on_error_after_close(
        &mut self,
        _audio_stream: &mut AudioStreamRef<Output>,
        _error: Error,
    ) {
    }

    /// A buffer is ready to be rendered into: write one sample per channel
    /// for every frame of the buffer. Return `Continue` to keep the stream
    /// running, `Stop` to end the callbacks.
    fn on_audio_ready(
        &mut self,
        audio_stream: &mut AudioStreamRef<Output>,
        audio_data: &mut Vec<<Self::FrameType as IsFrameType>::Type>,
    ) -> DataCallbackResult;
}

} // verus!
