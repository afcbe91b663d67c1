//! The base trait with the stream parameters shared by audio streams and
//! stream builders.

use vstd::prelude::*;

use crate::definitions::AudioFormat;
use crate::definitions::ChannelCount;
use crate::definitions::ContentType;
use crate::definitions::Direction;
use crate::definitions::InputPreset;
use crate::definitions::PerformanceMode;
use crate::definitions::SampleRateConversionQuality;
use crate::definitions::SessionId;
use crate::definitions::SharingMode;
use crate::definitions::Usage;
use crate::engine::StreamConfig;
use vstd::string::StringExecFns;

verus! {

/// The character of one decimal digit.
pub open spec fn decimal_digit_char(d: int) -> char {
    if d == 0 {
        '0'
    } else if d == 1 {
        '1'
    } else if d == 2 {
        '2'
    } else if d == 3 {
        '3'
    } else if d == 4 {
        '4'
    } else if d == 5 {
        '5'
    } else if d == 6 {
        '6'
    } else if d == 7 {
        '7'
    } else if d == 8 {
        '8'
    } else {
        '9'
    }
}

/// The decimal digits of a number, most significant first; empty at zero
/// and below.
pub open spec fn decimal_chars_positive(n: int) -> Seq<char>
    decreases n,
{
    if n <= 0 {
        Seq::empty()
    } else {
        decimal_chars_positive(n / 10).push(decimal_digit_char(n % 10))
    }
}

/// The decimal notation of an integer.
pub open spec fn decimal_chars(n: int) -> Seq<char> {
    if n == 0 {
        seq!['0']
    } else if n < 0 {
        seq!['-'] + decimal_chars_positive(-n)
    } else {
        decimal_chars_positive(n)
    }
}

/// Append the decimal digits of a number to a string.
fn push_decimal_positive(out: &mut String, value: i64)
    requires
        0 <= value,
    ensures
        final(out)@ == old(out)@ + decimal_chars_positive(value as int),
    decreases value,
{
    if value == 0 {
        proof {
            assert(old(out)@ + decimal_chars_positive(0) =~= old(out)@);
        }
        return;
    }
    let quotient: i64 = value / 10;
    let digit: i64 = value % 10;
    push_decimal_positive(out, quotient);
    let text: &str = if digit == 0 {
        "0"
    } else if digit == 1 {
        "1"
    } else if digit == 2 {
        "2"
    } else if digit == 3 {
        "3"
    } else if digit == 4 {
        "4"
    } else if digit == 5 {
        "5"
    } else if digit == 6 {
        "6"
    } else if digit == 7 {
        "7"
    } else if digit == 8 {
        "8"
    } else {
        "9"
    };
    proof {
        reveal_strlit("0");
        reveal_strlit("1");
        reveal_strlit("2");
        reveal_strlit("3");
        reveal_strlit("4");
        reveal_strlit("5");
        reveal_strlit("6");
        reveal_strlit("7");
        reveal_strlit("8");
        reveal_strlit("9");
        assert(text@ =~= seq![decimal_digit_char(digit as int)]);
    }
    out.append(text);
    proof {
        assert(final(out)@ =~= old(out)@ + decimal_chars_positive(value as int));
    }
}

/// Format an integer in decimal notation.
pub fn decimal_string(value: i32) -> (text: String)
    ensures
        text@ == decimal_chars(value as int),
{
    let mut out = String::new();
    if value == 0 {
        out.append("0");
        proof {
            reveal_strlit("0");
            assert(out@ =~= decimal_chars(0));
        }
        return out;
    }
    if value < 0 {
        out.append("-");
        let magnitude: i64 = -(value as i64);
        push_decimal_positive(&mut out, magnitude);
        proof {
            reveal_strlit("-");
            assert(out@ =~= decimal_chars(value as int));
        }
        return out;
    }
    push_decimal_positive(&mut out, value as i64);
    proof {
        assert(out@ =~= decimal_chars(value as int));
    }
    out
}

/// The one-value-per-line description of a base configuration record, as
/// [`AudioStreamBase::describe`] renders it.
pub open spec fn base_description(config: StreamConfig) -> Seq<char> {
    "DeviceId: "@ + decimal_chars(config.device_id as int) + "\nSessionId: "@
        + config.session_id.name_spec() + "\nDirection: "@ + config.direction.name_spec() + (
    if config.direction == Direction::Input {
        "\nInput preset: "@ + config.input_preset.name_spec()
    } else {
        Seq::empty()
    }) + "\nBuffer capacity in frames: "@ + decimal_chars(
        config.buffer_capacity_in_frames as int,
    ) + "\nBuffer size in frames: "@ + decimal_chars(config.buffer_size_in_frames as int)
        + "\nFrames per callback: "@ + decimal_chars(config.frames_per_callback as int)
        + "\nSample rate: "@ + decimal_chars(config.sample_rate as int)
        + "\nSample rate conversion quality: "@
        + config.sample_rate_conversion_quality.name_spec() + "\nChannel count: "@
        + config.channel_count.name_spec() + (
    if config.channel_conversion_allowed {
        " (conversion allowed)"@
    } else {
        Seq::empty()
    }) + "\nFormat: "@ + config.format.name_spec() + (
    if config.format_conversion_allowed {
        " (conversion allowed)"@
    } else {
        Seq::empty()
    }) + "\nSharing mode: "@ + config.sharing_mode.name_spec() + "\nPerformance mode: "@
        + config.performance_mode.name_spec() + "\nUsage: "@ + config.usage.name_spec()
        + "\nContent type: "@ + config.content_type.name_spec() + "\n"@
}

/// Base trait containing parameters for audio streams and builders.
///
/// On a builder the values are what the application requested; on an opened
/// stream they are what the engine negotiated. Each getter reads one field
/// of the underlying configuration record.
pub trait AudioStreamBase {
    /// The base configuration record this value carries.
    spec fn base(&self) -> StreamConfig;

    /// Get actual number of channels.
    fn get_channel_count(&self) -> (channels: ChannelCount)
        ensures
            channels == self.base().channel_count,
    ;

    /// Get actual stream direction.
    fn get_direction(&self) -> (direction: Direction)
        ensures
            direction == self.base().direction,
    ;

    /// Get the actual sample rate for the stream.
    fn get_sample_rate(&self) -> (rate: i32)
        ensures
            rate == self.base().sample_rate,
    ;

    /// Get the number of frames in each callback.
    fn get_frames_per_callback(&self) -> (frames: i32)
        ensures
            frames == self.base().frames_per_callback,
    ;

    /// Get the audio sample format.
    fn get_format(&self) -> (format: AudioFormat)
        ensures
            format == self.base().format,
    ;

    /// Query the maximum number of frames that can be filled without
    /// blocking. If the stream has been closed the last known value is
    /// returned.
    fn get_buffer_size_in_frames(&self) -> (frames: i32)
        ensures
            frames == self.base().buffer_size_in_frames,
    ;

    /// Get the capacity in number of frames.
    fn get_buffer_capacity_in_frames(&self) -> (frames: i32)
        ensures
            frames == self.base().buffer_capacity_in_frames,
    ;

    /// Get the sharing mode of the stream.
    fn get_sharing_mode(&self) -> (mode: SharingMode)
        ensures
            mode == self.base().sharing_mode,
    ;

    /// Get the performance mode of the stream.
    fn get_performance_mode(&self) -> (mode: PerformanceMode)
        ensures
            mode == self.base().performance_mode,
    ;

    /// Get the device identifier of the stream.
    fn get_device_id(&self) -> (device: i32)
        ensures
            device == self.base().device_id,
    ;

    /// Get the usage for this stream.
    fn get_usage(&self) -> (usage: Usage)
        ensures
            usage == self.base().usage,
    ;

    /// Get the stream's content type.
    fn get_content_type(&self) -> (content: ContentType)
        ensures
            content == self.base().content_type,
    ;

    /// Get the stream's input preset.
    fn get_input_preset(&self) -> (preset: InputPreset)
        ensures
            preset == self.base().input_preset,
    ;

    /// Get the stream's session id allocation strategy.
    fn get_session_id(&self) -> (session: SessionId)
        ensures
            session == self.base().session_id,
    ;

    /// Return true if the engine can convert channel counts to achieve
    /// optimal results.
    fn is_channel_conversion_allowed(&self) -> (allowed: bool)
        ensures
            allowed == self.base().channel_conversion_allowed,
    ;

    /// Return true if the engine can convert data formats to achieve
    /// optimal results.
    fn is_format_conversion_allowed(&self) -> (allowed: bool)
        ensures
            allowed == self.base().format_conversion_allowed,
    ;

    /// Get whether and how the engine can convert sample rates to achieve
    /// optimal results.
    fn get_sample_rate_conversion_quality(&self) -> (quality: SampleRateConversionQuality)
        ensures
            quality == self.base().sample_rate_conversion_quality,
    ;

    /// Render the base configuration as text, one value per line.
    fn describe(&self) -> (text: String)
        ensures
            text@ == base_description(self.base()),
    {
        let mut out = String::new();
        out.append("DeviceId: ");
        let device = decimal_string(self.get_device_id());
        out.append(device.as_str());
        out.append("\nSessionId: ");
        out.append(self.get_session_id().name());
        out.append("\nDirection: ");
        out.append(self.get_direction().name());
        if self.get_direction() == Direction::Input {
            out.append("\nInput preset: ");
            out.append(self.get_input_preset().name());
        }
        out.append("\nBuffer capacity in frames: ");
        let capacity = decimal_string(self.get_buffer_capacity_in_frames());
        out.append(capacity.as_str());
        out.append("\nBuffer size in frames: ");
        let size = decimal_string(self.get_buffer_size_in_frames());
        out.append(size.as_str());
        out.append("\nFrames per callback: ");
        let frames = decimal_string(self.get_frames_per_callback());
        out.append(frames.as_str());
        out.append("\nSample rate: ");
        let rate = decimal_string(self.get_sample_rate());
        out.append(rate.as_str());
        out.append("\nSample rate conversion quality: ");
        out.append(self.get_sample_rate_conversion_quality().name());
        out.append("\nChannel count: ");
        out.append(self.get_channel_count().name());
        if self.is_channel_conversion_allowed() {
            out.append(" (conversion allowed)");
        }
        out.append("\nFormat: ");
        out.append(self.get_format().name());
        if self.is_format_conversion_allowed() {
            out.append(" (conversion allowed)");
        }
        out.append("\nSharing mode: ");
        out.append(self.get_sharing_mode().name());
        out.append("\nPerformance mode: ");
        out.append(self.get_performance_mode().name());
        out.append("\nUsage: ");
        out.append(self.get_usage().name());
        out.append("\nContent type: ");
        out.append(self.get_content_type().name());
        out.append("\n");
        proof {
            assert(out@ =~= base_description(self.base()));
        }
        out
    }
}

} // verus!
