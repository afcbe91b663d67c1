//! The platform audio features a device may or may not carry.

use vstd::prelude::*;

verus! {

/// The platform audio features whose availability can be checked through
/// the platform's package manager.
#[derive(Debug, Clone, Copy, PartialEq, Eq, Hash, Structural)]
pub enum AudioFeature {
    /// Low-latency audio input and output.
    LowLatency,
    /// Audio output of any kind.
    Output,
    /// Professional audio: high performance requirements are met.
    Pro,
    /// A microphone is present.
    Microphone,
    /// MIDI devices are supported.
    Midi,
}

impl AudioFeature {
    /// The platform feature name this value stands for.
    pub open spec fn feature_name_spec(self) -> Seq<char> {
        match self {
            AudioFeature::LowLatency => "android.hardware.audio.low_latency"@,
            AudioFeature::Output => "android.hardware.audio.output"@,
            AudioFeature::Pro => "android.hardware.audio.pro"@,
            AudioFeature::Microphone => "android.hardware.microphone"@,
            AudioFeature::Midi => "android.software.midi"@,
        }
    }

    /// The platform feature name to hand to the package manager when
    /// checking for this feature.
    pub fn feature_name(self) -> (name: &'static str)
        ensures
            name@ == self.feature_name_spec(),
    {
        match self {
            AudioFeature::LowLatency => "android.hardware.audio.low_latency",
            AudioFeature::Output => "android.hardware.audio.output",
            AudioFeature::Pro => "android.hardware.audio.pro",
            AudioFeature::Microphone => "android.hardware.microphone",
            AudioFeature::Midi => "android.software.midi",
        }
    }
}

} // verus!
