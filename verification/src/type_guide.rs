//! Zero-sized marker types that encode stream direction, sample format and
//! channel configuration at the type level, and the compile-time computation
//! of the frame type that a callback sees.

use vstd::prelude::*;

use crate::definitions::AudioFormat;
use crate::definitions::ChannelCount;
use crate::definitions::Direction;

verus! {

/// Unspecified marker type for use everywhere.
#[derive(Debug, Clone, Copy, PartialEq, Eq, Structural)]
pub struct Unspecified;

/// The trait for direction marker types.
pub trait IsDirection {
    /// The direction this marker stands for.
    spec fn direction_of() -> Direction;

    /// The direction this marker stands for, as a runtime value.
    fn direction() -> (direction: Direction)
        ensures
            direction == Self::direction_of(),
    ;
}

/// The input direction marker.
#[derive(Debug, Clone, Copy, PartialEq, Eq, Structural)]
pub struct Input;

impl IsDirection for Input {
    open spec fn direction_of() -> Direction {
        Direction::Input
    }

    fn direction() -> Direction {
        Direction::Input
    }
}

/// The output direction marker.
#[derive(Debug, Clone, Copy, PartialEq, Eq, Structural)]
pub struct Output;

impl IsDirection for Output {
    open spec fn direction_of() -> Direction {
        Direction::Output
    }

    fn direction() -> Direction {
        Direction::Output
    }
}

/// The trait for format marker types.
///
/// A format marker doubles as the sample type itself, so a silent sample of
/// the marker type is available for buffers the engine has to pad.
pub trait IsFormat: Sized {
    /// The sample format this marker stands for.
    spec fn format_of() -> AudioFormat;

    /// The sample format this marker stands for, as a runtime value.
    fn format() -> (format: AudioFormat)
        ensures
            format == Self::format_of(),
    ;

    /// The silent sample value of this format.
    spec fn silence_of() -> Self;

    /// The silent sample value of this format, as a runtime value.
    fn silence() -> (sample: Self)
        ensures
            sample == Self::silence_of(),
    ;
}

impl IsFormat for Unspecified {
    open spec fn format_of() -> AudioFormat {
        AudioFormat::Unspecified
    }

    fn format() -> AudioFormat {
        AudioFormat::Unspecified
    }

    open spec fn silence_of() -> Unspecified {
        Unspecified
    }

    fn silence() -> Unspecified {
        Unspecified
    }
}

impl IsFormat for i16 {
    open spec fn format_of() -> AudioFormat {
        AudioFormat::I16
    }

    fn format() -> AudioFormat {
        AudioFormat::I16
    }

    open spec fn silence_of() -> i16 {
        0i16
    }

    fn silence() -> i16 {
        0
    }
}

impl IsFormat for i32 {
    open spec fn format_of() -> AudioFormat {
        AudioFormat::I32
    }

    fn format() -> AudioFormat {
        AudioFormat::I32
    }

    open spec fn silence_of() -> i32 {
        0i32
    }

    fn silence() -> i32 {
        0
    }
}

/// The trait for channel count marker types.
pub trait IsChannelCount {
    /// The channel count this marker stands for.
    spec fn channel_count_of() -> ChannelCount;

    /// The channel count this marker stands for, as a runtime value.
    fn channel_count() -> (channels: ChannelCount)
        ensures
            channels == Self::channel_count_of(),
    ;
}

impl IsChannelCount for Unspecified {
    open spec fn channel_count_of() -> ChannelCount {
        ChannelCount::Unspecified
    }

    fn channel_count() -> ChannelCount {
        ChannelCount::Unspecified
    }
}

/// The single mono channel configuration marker.
#[derive(Debug, Clone, Copy, PartialEq, Eq, Structural)]
pub struct Mono;

impl IsChannelCount for Mono {
    open spec fn channel_count_of() -> ChannelCount {
        ChannelCount::Mono
    }

    fn channel_count() -> ChannelCount {
        ChannelCount::Mono
    }
}

/// The dual stereo channels configuration marker.
#[derive(Debug, Clone, Copy, PartialEq, Eq, Structural)]
pub struct Stereo;

impl IsChannelCount for Stereo {
    open spec fn channel_count_of() -> ChannelCount {
        ChannelCount::Stereo
    }

    fn channel_count() -> ChannelCount {
        ChannelCount::Stereo
    }
}

/// A frame of a stream whose channel configuration is only known at run time:
/// one sample for a mono stream, a pair of samples for a stereo stream.
#[derive(Debug, Clone, Copy, PartialEq, Eq)]
pub enum AltFrame<T: IsFormat> {
    /// A mono frame.
    Mono(T),
    /// A stereo frame.
    Stereo(T, T),
}

/// The trait for frame type markers: the cross product of a sample format and
/// a channel configuration, which determines the element type of the audio
/// buffer a callback works on.
pub trait IsFrameType {
    /// The element type of the audio buffer.
    type Type;

    /// The format marker of this frame type.
    type Format: IsFormat;

    /// The channel count marker of this frame type.
    type ChannelCount: IsChannelCount;

    /// The silent frame of this frame type.
    spec fn silent_frame_of() -> Self::Type;

    /// The silent frame of this frame type, as a runtime value.
    fn silent_frame() -> (frame: Self::Type)
        ensures
            frame == Self::silent_frame_of(),
    ;
}

impl<T: IsFormat> IsFrameType for (T, Unspecified) {
    type Type = AltFrame<T>;

    type Format = T;

    type ChannelCount = Unspecified;

    open spec fn silent_frame_of() -> AltFrame<T> {
        AltFrame::Mono(T::silence_of())
    }

    fn silent_frame() -> AltFrame<T> {
        AltFrame::Mono(T::silence())
    }
}

impl<T: IsFormat> IsFrameType for (T, Mono) {
    type Type = T;

    type Format = T;

    type ChannelCount = Mono;

    open spec fn silent_frame_of() -> T {
        T::silence_of()
    }

    fn silent_frame() -> T {
        T::silence()
    }
}

impl<T: IsFormat> IsFrameType for (T, Stereo) {
    type Type = (T, T);

    type Format = T;

    type ChannelCount = Stereo;

    open spec fn silent_frame_of() -> (T, T) {
        (T::silence_of(), T::silence_of())
    }

    fn silent_frame() -> (T, T) {
        (T::silence(), T::silence())
    }
}

} // verus!
