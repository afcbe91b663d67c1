//! Stream attribute enumerations, the mapping between them and the native
//! result codes, and the default stream values record.

use vstd::prelude::*;

verus! {

/// The number of nanoseconds in a microsecond. 1,000.
pub const NANOS_PER_MICROSECOND: i64 = 1000;

/// The number of nanoseconds in a millisecond. 1,000,000.
pub const NANOS_PER_MILLISECOND: i64 = NANOS_PER_MICROSECOND * 1000;

/// The number of milliseconds in a second. 1,000.
pub const MILLIS_PER_SECOND: i64 = 1000;

/// The number of nanoseconds in a second. 1,000,000,000.
pub const NANOS_PER_SECOND: i64 = NANOS_PER_MILLISECOND * MILLIS_PER_SECOND;

/// The state of an audio stream, as the engine reports it.
#[derive(Debug, Clone, Copy, PartialEq, Eq, Structural)]
pub enum StreamState {
    /// The stream object has not been opened yet.
    Uninitialized,
    /// The engine could not determine the state.
    Unknown,
    /// The stream is open and ready to be started.
    Open,
    /// A start request is in progress.
    Starting,
    /// The stream is running.
    Started,
    /// A pause request is in progress.
    Pausing,
    /// The stream is paused.
    Paused,
    /// A flush request is in progress.
    Flushing,
    /// The stream has been flushed.
    Flushed,
    /// A stop request is in progress.
    Stopping,
    /// The stream is stopped.
    Stopped,
    /// A close request is in progress.
    Closing,
    /// The stream is closed and its resources are released.
    Closed,
    /// The device backing the stream went away.
    Disconnected,
}

impl StreamState {
    /// The native code this value maps to.
    pub open spec fn code_spec(self) -> i32 {
        match self {
            StreamState::Uninitialized => 0,
            StreamState::Unknown => 1,
            StreamState::Open => 2,
            StreamState::Starting => 3,
            StreamState::Started => 4,
            StreamState::Pausing => 5,
            StreamState::Paused => 6,
            StreamState::Flushing => 7,
            StreamState::Flushed => 8,
            StreamState::Stopping => 9,
            StreamState::Stopped => 10,
            StreamState::Closing => 11,
            StreamState::Closed => 12,
            StreamState::Disconnected => 13,
        }
    }

    /// The inverse of the native code mapping.
    pub open spec fn from_code_spec(code: i32) -> Option<StreamState> {
        if code == 0 {
            Some(StreamState::Uninitialized)
        } else if code == 1 {
            Some(StreamState::Unknown)
        } else if code == 2 {
            Some(StreamState::Open)
        } else if code == 3 {
            Some(StreamState::Starting)
        } else if code == 4 {
            Some(StreamState::Started)
        } else if code == 5 {
            Some(StreamState::Pausing)
        } else if code == 6 {
            Some(StreamState::Paused)
        } else if code == 7 {
            Some(StreamState::Flushing)
        } else if code == 8 {
            Some(StreamState::Flushed)
        } else if code == 9 {
            Some(StreamState::Stopping)
        } else if code == 10 {
            Some(StreamState::Stopped)
        } else if code == 11 {
            Some(StreamState::Closing)
        } else if code == 12 {
            Some(StreamState::Closed)
        } else if code == 13 {
            Some(StreamState::Disconnected)
        } else {
            None
        }
    }

    /// Convert this value into its native code.
    pub fn to_i32(self) -> (code: i32)
        ensures
            code == self.code_spec(),
    {
        match self {
            StreamState::Uninitialized => 0,
            StreamState::Unknown => 1,
            StreamState::Open => 2,
            StreamState::Starting => 3,
            StreamState::Started => 4,
            StreamState::Pausing => 5,
            StreamState::Paused => 6,
            StreamState::Flushing => 7,
            StreamState::Flushed => 8,
            StreamState::Stopping => 9,
            StreamState::Stopped => 10,
            StreamState::Closing => 11,
            StreamState::Closed => 12,
            StreamState::Disconnected => 13,
        }
    }

    /// Recover the typed value from a native code.
    pub fn from_i32(code: i32) -> (value: Option<StreamState>)
        ensures
            value == Self::from_code_spec(code),
    {
        if code == 0 {
            Some(StreamState::Uninitialized)
        } else if code == 1 {
            Some(StreamState::Unknown)
        } else if code == 2 {
            Some(StreamState::Open)
        } else if code == 3 {
            Some(StreamState::Starting)
        } else if code == 4 {
            Some(StreamState::Started)
        } else if code == 5 {
            Some(StreamState::Pausing)
        } else if code == 6 {
            Some(StreamState::Paused)
        } else if code == 7 {
            Some(StreamState::Flushing)
        } else if code == 8 {
            Some(StreamState::Flushed)
        } else if code == 9 {
            Some(StreamState::Stopping)
        } else if code == 10 {
            Some(StreamState::Stopped)
        } else if code == 11 {
            Some(StreamState::Closing)
        } else if code == 12 {
            Some(StreamState::Closed)
        } else if code == 13 {
            Some(StreamState::Disconnected)
        } else {
            None
        }
    }
}

/// The direction of an audio stream.
#[derive(Debug, Clone, Copy, PartialEq, Eq, Structural)]
pub enum Direction {
    /// Used for playback.
    Output,
    /// Used for recording.
    Input,
}

impl Direction {
    /// The native code this value maps to.
    pub open spec fn code_spec(self) -> i32 {
        match self {
            Direction::Output => 0,
            Direction::Input => 1,
        }
    }

    /// The inverse of the native code mapping.
    pub open spec fn from_code_spec(code: i32) -> Option<Direction> {
        if code == 0 {
            Some(Direction::Output)
        } else if code == 1 {
            Some(Direction::Input)
        } else {
            None
        }
    }

    /// Convert this value into its native code.
    pub fn to_i32(self) -> (code: i32)
        ensures
            code == self.code_spec(),
    {
        match self {
            Direction::Output => 0,
            Direction::Input => 1,
        }
    }

    /// Recover the typed value from a native code.
    pub fn from_i32(code: i32) -> (value: Option<Direction>)
        ensures
            value == Self::from_code_spec(code),
    {
        if code == 0 {
            Some(Direction::Output)
        } else if code == 1 {
            Some(Direction::Input)
        } else {
            None
        }
    }
}

/// The format of audio samples.
#[derive(Debug, Clone, Copy, PartialEq, Eq, Structural)]
pub enum AudioFormat {
    /// Invalid format.
    Invalid,
    /// Unspecified format, to be decided by the engine.
    Unspecified,
    /// Signed 16-bit integers.
    I16,
    /// Single precision floating point samples.
    F32,
    /// Signed 24-bit integers.
    I24,
    /// Signed 32-bit integers.
    I32,
}

impl AudioFormat {
    /// The native code this value maps to.
    pub open spec fn code_spec(self) -> i32 {
        match self {
            AudioFormat::Invalid => (-1i32),
            AudioFormat::Unspecified => 0,
            AudioFormat::I16 => 1,
            AudioFormat::F32 => 2,
            AudioFormat::I24 => 3,
            AudioFormat::I32 => 4,
        }
    }

    /// The inverse of the native code mapping.
    pub open spec fn from_code_spec(code: i32) -> Option<AudioFormat> {
        if code == -1 {
            Some(AudioFormat::Invalid)
        } else if code == 0 {
            Some(AudioFormat::Unspecified)
        } else if code == 1 {
            Some(AudioFormat::I16)
        } else if code == 2 {
            Some(AudioFormat::F32)
        } else if code == 3 {
            Some(AudioFormat::I24)
        } else if code == 4 {
            Some(AudioFormat::I32)
        } else {
            None
        }
    }

    /// Convert this value into its native code.
    pub fn to_i32(self) -> (code: i32)
        ensures
            code == self.code_spec(),
    {
        match self {
            AudioFormat::Invalid => -1,
            AudioFormat::Unspecified => 0,
            AudioFormat::I16 => 1,
            AudioFormat::F32 => 2,
            AudioFormat::I24 => 3,
            AudioFormat::I32 => 4,
        }
    }

    /// Recover the typed value from a native code.
    pub fn from_i32(code: i32) -> (value: Option<AudioFormat>)
        ensures
            value == Self::from_code_spec(code),
    {
        if code == -1 {
            Some(AudioFormat::Invalid)
        } else if code == 0 {
            Some(AudioFormat::Unspecified)
        } else if code == 1 {
            Some(AudioFormat::I16)
        } else if code == 2 {
            Some(AudioFormat::F32)
        } else if code == 3 {
            Some(AudioFormat::I24)
        } else if code == 4 {
            Some(AudioFormat::I32)
        } else {
            None
        }
    }
}

/// The result of an audio callback.
#[derive(Debug, Clone, Copy, PartialEq, Eq, Structural)]
pub enum DataCallbackResult {
    /// Indicates to the caller that the callbacks should continue.
    Continue,
    /// Indicates to the caller that the callbacks should stop immediately.
    Stop,
}

impl DataCallbackResult {
    /// The native code this value maps to.
    pub open spec fn code_spec(self) -> i32 {
        match self {
            DataCallbackResult::Continue => 0,
            DataCallbackResult::Stop => 1,
        }
    }

    /// The inverse of the native code mapping.
    pub open spec fn from_code_spec(code: i32) -> Option<DataCallbackResult> {
        if code == 0 {
            Some(DataCallbackResult::Continue)
        } else if code == 1 {
            Some(DataCallbackResult::Stop)
        } else {
            None
        }
    }

    /// Convert this value into its native code.
    pub fn to_i32(self) -> (code: i32)
        ensures
            code == self.code_spec(),
    {
        match self {
            DataCallbackResult::Continue => 0,
            DataCallbackResult::Stop => 1,
        }
    }

    /// Recover the typed value from a native code.
    pub fn from_i32(code: i32) -> (value: Option<DataCallbackResult>)
        ensures
            value == Self::from_code_spec(code),
    {
        if code == 0 {
            Some(DataCallbackResult::Continue)
        } else if code == 1 {
            Some(DataCallbackResult::Stop)
        } else {
            None
        }
    }
}

/// The error of an operation, mapped one-to-one from the native result codes.
#[derive(Debug, Clone, Copy, PartialEq, Eq, Structural)]
pub enum Error {
    /// The device backing the stream went away.
    Disconnected,
    /// An argument was out of the accepted range.
    IllegalArgument,
    /// The engine failed internally.
    Internal,
    /// The operation is not legal in the stream's current state.
    InvalidState,
    /// The native handle was not valid.
    InvalidHandle,
    /// The operation is not implemented on this platform.
    Unimplemented,
    /// The requested resource is not available.
    Unavailable,
    /// The engine ran out of stream handles.
    NoFreeHandles,
    /// The engine ran out of memory.
    NoMemory,
    /// A null pointer reached the engine.
    Null,
    /// The operation did not complete within the timeout.
    Timeout,
    /// The operation would have blocked a non-blocking call.
    WouldBlock,
    /// The sample format is not usable here.
    InvalidFormat,
    /// A value fell outside the accepted range.
    OutOfRange,
    /// The platform audio service could not be reached.
    NoService,
    /// The sample rate is not usable here.
    InvalidRate,
    /// The stream is already closed.
    Closed,
}

impl Error {
    /// The native code this value maps to.
    pub open spec fn code_spec(self) -> i32 {
        match self {
            Error::Disconnected => (-899i32),
            Error::IllegalArgument => (-898i32),
            Error::Internal => (-896i32),
            Error::InvalidState => (-895i32),
            Error::InvalidHandle => (-892i32),
            Error::Unimplemented => (-890i32),
            Error::Unavailable => (-889i32),
            Error::NoFreeHandles => (-888i32),
            Error::NoMemory => (-887i32),
            Error::Null => (-886i32),
            Error::Timeout => (-885i32),
            Error::WouldBlock => (-884i32),
            Error::InvalidFormat => (-883i32),
            Error::OutOfRange => (-882i32),
            Error::NoService => (-881i32),
            Error::InvalidRate => (-880i32),
            Error::Closed => (-869i32),
        }
    }

    /// The inverse of the native code mapping.
    pub open spec fn from_code_spec(code: i32) -> Option<Error> {
        if code == -899 {
            Some(Error::Disconnected)
        } else if code == -898 {
            Some(Error::IllegalArgument)
        } else if code == -896 {
            Some(Error::Internal)
        } else if code == -895 {
            Some(Error::InvalidState)
        } else if code == -892 {
            Some(Error::InvalidHandle)
        } else if code == -890 {
            Some(Error::Unimplemented)
        } else if code == -889 {
            Some(Error::Unavailable)
        } else if code == -888 {
            Some(Error::NoFreeHandles)
        } else if code == -887 {
            Some(Error::NoMemory)
        } else if code == -886 {
            Some(Error::Null)
        } else if code == -885 {
            Some(Error::Timeout)
        } else if code == -884 {
            Some(Error::WouldBlock)
        } else if code == -883 {
            Some(Error::InvalidFormat)
        } else if code == -882 {
            Some(Error::OutOfRange)
        } else if code == -881 {
            Some(Error::NoService)
        } else if code == -880 {
            Some(Error::InvalidRate)
        } else if code == -869 {
            Some(Error::Closed)
        } else {
            None
        }
    }

    /// Convert this value into its native code.
    pub fn to_i32(self) -> (code: i32)
        ensures
            code == self.code_spec(),
    {
        match self {
            Error::Disconnected => -899,
            Error::IllegalArgument => -898,
            Error::Internal => -896,
            Error::InvalidState => -895,
            Error::InvalidHandle => -892,
            Error::Unimplemented => -890,
            Error::Unavailable => -889,
            Error::NoFreeHandles => -888,
            Error::NoMemory => -887,
            Error::Null => -886,
            Error::Timeout => -885,
            Error::WouldBlock => -884,
            Error::InvalidFormat => -883,
            Error::OutOfRange => -882,
            Error::NoService => -881,
            Error::InvalidRate => -880,
            Error::Closed => -869,
        }
    }

    /// Recover the typed value from a native code.
    pub fn from_i32(code: i32) -> (value: Option<Error>)
        ensures
            value == Self::from_code_spec(code),
    {
        if code == -899 {
            Some(Error::Disconnected)
        } else if code == -898 {
            Some(Error::IllegalArgument)
        } else if code == -896 {
            Some(Error::Internal)
        } else if code == -895 {
            Some(Error::InvalidState)
        } else if code == -892 {
            Some(Error::InvalidHandle)
        } else if code == -890 {
            Some(Error::Unimplemented)
        } else if code == -889 {
            Some(Error::Unavailable)
        } else if code == -888 {
            Some(Error::NoFreeHandles)
        } else if code == -887 {
            Some(Error::NoMemory)
        } else if code == -886 {
            Some(Error::Null)
        } else if code == -885 {
            Some(Error::Timeout)
        } else if code == -884 {
            Some(Error::WouldBlock)
        } else if code == -883 {
            Some(Error::InvalidFormat)
        } else if code == -882 {
            Some(Error::OutOfRange)
        } else if code == -881 {
            Some(Error::NoService)
        } else if code == -880 {
            Some(Error::InvalidRate)
        } else if code == -869 {
            Some(Error::Closed)
        } else {
            None
        }
    }
}

/// The sharing mode of an audio stream.
#[derive(Debug, Clone, Copy, PartialEq, Eq, Structural)]
pub enum SharingMode {
    /// The stream is the only user of the device, for the lowest possible latency.
    Exclusive,
    /// The device is shared; the platform audio service mixes or distributes the data.
    Shared,
}

impl SharingMode {
    /// The native code this value maps to.
    pub open spec fn code_spec(self) -> i32 {
        match self {
            SharingMode::Exclusive => 0,
            SharingMode::Shared => 1,
        }
    }

    /// The inverse of the native code mapping.
    pub open spec fn from_code_spec(code: i32) -> Option<SharingMode> {
        if code == 0 {
            Some(SharingMode::Exclusive)
        } else if code == 1 {
            Some(SharingMode::Shared)
        } else {
            None
        }
    }

    /// Convert this value into its native code.
    pub fn to_i32(self) -> (code: i32)
        ensures
            code == self.code_spec(),
    {
        match self {
            SharingMode::Exclusive => 0,
            SharingMode::Shared => 1,
        }
    }

    /// Recover the typed value from a native code.
    pub fn from_i32(code: i32) -> (value: Option<SharingMode>)
        ensures
            value == Self::from_code_spec(code),
    {
        if code == 0 {
            Some(SharingMode::Exclusive)
        } else if code == 1 {
            Some(SharingMode::Shared)
        } else {
            None
        }
    }
}

/// The performance mode of an audio stream.
#[derive(Debug, Clone, Copy, PartialEq, Eq, Structural)]
pub enum PerformanceMode {
    /// No particular performance needs; the default.
    NoPreference,
    /// Extending battery life is most important.
    PowerSaving,
    /// Reducing latency is most important.
    LowLatency,
}

impl PerformanceMode {
    /// The native code this value maps to.
    pub open spec fn code_spec(self) -> i32 {
        match self {
            PerformanceMode::NoPreference => 10,
            PerformanceMode::PowerSaving => 11,
            PerformanceMode::LowLatency => 12,
        }
    }

    /// The inverse of the native code mapping.
    pub open spec fn from_code_spec(code: i32) -> Option<PerformanceMode> {
        if code == 10 {
            Some(PerformanceMode::NoPreference)
        } else if code == 11 {
            Some(PerformanceMode::PowerSaving)
        } else if code == 12 {
            Some(PerformanceMode::LowLatency)
        } else {
            None
        }
    }

    /// Convert this value into its native code.
    pub fn to_i32(self) -> (code: i32)
        ensures
            code == self.code_spec(),
    {
        match self {
            PerformanceMode::NoPreference => 10,
            PerformanceMode::PowerSaving => 11,
            PerformanceMode::LowLatency => 12,
        }
    }

    /// Recover the typed value from a native code.
    pub fn from_i32(code: i32) -> (value: Option<PerformanceMode>)
        ensures
            value == Self::from_code_spec(code),
    {
        if code == 10 {
            Some(PerformanceMode::NoPreference)
        } else if code == 11 {
            Some(PerformanceMode::PowerSaving)
        } else if code == 12 {
            Some(PerformanceMode::LowLatency)
        } else {
            None
        }
    }
}

/// The underlying audio API used by an audio stream.
#[derive(Debug, Clone, Copy, PartialEq, Eq, Structural)]
pub enum AudioApi {
    /// Try AAudio first, and fall back to OpenSL ES.
    Unspecified,
    /// Use OpenSL ES.
    OpenSLES,
    /// Use AAudio, and fail if it is unavailable.
    AAudio,
}

impl AudioApi {
    /// The native code this value maps to.
    pub open spec fn code_spec(self) -> i32 {
        match self {
            AudioApi::Unspecified => 0,
            AudioApi::OpenSLES => 1,
            AudioApi::AAudio => 2,
        }
    }

    /// The inverse of the native code mapping.
    pub open spec fn from_code_spec(code: i32) -> Option<AudioApi> {
        if code == 0 {
            Some(AudioApi::Unspecified)
        } else if code == 1 {
            Some(AudioApi::OpenSLES)
        } else if code == 2 {
            Some(AudioApi::AAudio)
        } else {
            None
        }
    }

    /// Convert this value into its native code.
    pub fn to_i32(self) -> (code: i32)
        ensures
            code == self.code_spec(),
    {
        match self {
            AudioApi::Unspecified => 0,
            AudioApi::OpenSLES => 1,
            AudioApi::AAudio => 2,
        }
    }

    /// Recover the typed value from a native code.
    pub fn from_i32(code: i32) -> (value: Option<AudioApi>)
        ensures
            value == Self::from_code_spec(code),
    {
        if code == 0 {
            Some(AudioApi::Unspecified)
        } else if code == 1 {
            Some(AudioApi::OpenSLES)
        } else if code == 2 {
            Some(AudioApi::AAudio)
        } else {
            None
        }
    }
}

/// The quality of the sample rate conversion performed by the engine.
#[derive(Debug, Clone, Copy, PartialEq, Eq, Structural)]
pub enum SampleRateConversionQuality {
    /// No conversion by the engine; underlying APIs may still convert.
    NoConversion,
    /// Fastest conversion, which may not sound great.
    Fastest,
    /// Low quality conversion.
    Low,
    /// Medium quality conversion.
    Medium,
    /// High quality conversion.
    High,
    /// Highest quality conversion, which may be expensive in CPU time.
    Best,
}

impl SampleRateConversionQuality {
    /// The native code this value maps to.
    pub open spec fn code_spec(self) -> i32 {
        match self {
            SampleRateConversionQuality::NoConversion => 0,
            SampleRateConversionQuality::Fastest => 1,
            SampleRateConversionQuality::Low => 2,
            SampleRateConversionQuality::Medium => 3,
            SampleRateConversionQuality::High => 4,
            SampleRateConversionQuality::Best => 5,
        }
    }

    /// The inverse of the native code mapping.
    pub open spec fn from_code_spec(code: i32) -> Option<SampleRateConversionQuality> {
        if code == 0 {
            Some(SampleRateConversionQuality::NoConversion)
        } else if code == 1 {
            Some(SampleRateConversionQuality::Fastest)
        } else if code == 2 {
            Some(SampleRateConversionQuality::Low)
        } else if code == 3 {
            Some(SampleRateConversionQuality::Medium)
        } else if code == 4 {
            Some(SampleRateConversionQuality::High)
        } else if code == 5 {
            Some(SampleRateConversionQuality::Best)
        } else {
            None
        }
    }

    /// Convert this value into its native code.
    pub fn to_i32(self) -> (code: i32)
        ensures
            code == self.code_spec(),
    {
        match self {
            SampleRateConversionQuality::NoConversion => 0,
            SampleRateConversionQuality::Fastest => 1,
            SampleRateConversionQuality::Low => 2,
            SampleRateConversionQuality::Medium => 3,
            SampleRateConversionQuality::High => 4,
            SampleRateConversionQuality::Best => 5,
        }
    }

    /// Recover the typed value from a native code.
    pub fn from_i32(code: i32) -> (value: Option<SampleRateConversionQuality>)
        ensures
            value == Self::from_code_spec(code),
    {
        if code == 0 {
            Some(SampleRateConversionQuality::NoConversion)
        } else if code == 1 {
            Some(SampleRateConversionQuality::Fastest)
        } else if code == 2 {
            Some(SampleRateConversionQuality::Low)
        } else if code == 3 {
            Some(SampleRateConversionQuality::Medium)
        } else if code == 4 {
            Some(SampleRateConversionQuality::High)
        } else if code == 5 {
            Some(SampleRateConversionQuality::Best)
        } else {
            None
        }
    }
}

/// Why the sound is being played; used for volume and routing decisions.
#[derive(Debug, Clone, Copy, PartialEq, Eq, Structural)]
pub enum Usage {
    /// Streaming media, music performance, video, podcasts.
    Media,
    /// Voice over IP, telephony.
    VoiceCommunication,
    /// Sounds associated with telephony, such as busy tones.
    VoiceCommunicationSignalling,
    /// Sounds that demand the user's attention.
    Alarm,
    /// A message has arrived or a background event occurred.
    Notification,
    /// The phone is ringing.
    NotificationRingtone,
    /// Attracting the user's attention, for example when the battery is low.
    NotificationEvent,
    /// Screen readers and other accessibility aides.
    AssistanceAccessibility,
    /// Driving or navigation directions.
    AssistanceNavigationGuidance,
    /// User interface sounds, beeps.
    AssistanceSonification,
    /// Game audio and sound effects.
    Game,
    /// Audio responses to user queries or instructions.
    Assistant,
}

impl Usage {
    /// The native code this value maps to.
    pub open spec fn code_spec(self) -> i32 {
        match self {
            Usage::Media => 1,
            Usage::VoiceCommunication => 2,
            Usage::VoiceCommunicationSignalling => 3,
            Usage::Alarm => 4,
            Usage::Notification => 5,
            Usage::NotificationRingtone => 6,
            Usage::NotificationEvent => 10,
            Usage::AssistanceAccessibility => 11,
            Usage::AssistanceNavigationGuidance => 12,
            Usage::AssistanceSonification => 13,
            Usage::Game => 14,
            Usage::Assistant => 16,
        }
    }

    /// The inverse of the native code mapping.
    pub open spec fn from_code_spec(code: i32) -> Option<Usage> {
        if code == 1 {
            Some(Usage::Media)
        } else if code == 2 {
            Some(Usage::VoiceCommunication)
        } else if code == 3 {
            Some(Usage::VoiceCommunicationSignalling)
        } else if code == 4 {
            Some(Usage::Alarm)
        } else if code == 5 {
            Some(Usage::Notification)
        } else if code == 6 {
            Some(Usage::NotificationRingtone)
        } else if code == 10 {
            Some(Usage::NotificationEvent)
        } else if code == 11 {
            Some(Usage::AssistanceAccessibility)
        } else if code == 12 {
            Some(Usage::AssistanceNavigationGuidance)
        } else if code == 13 {
            Some(Usage::AssistanceSonification)
        } else if code == 14 {
            Some(Usage::Game)
        } else if code == 16 {
            Some(Usage::Assistant)
        } else {
            None
        }
    }

    /// Convert this value into its native code.
    pub fn to_i32(self) -> (code: i32)
        ensures
            code == self.code_spec(),
    {
        match self {
            Usage::Media => 1,
            Usage::VoiceCommunication => 2,
            Usage::VoiceCommunicationSignalling => 3,
            Usage::Alarm => 4,
            Usage::Notification => 5,
            Usage::NotificationRingtone => 6,
            Usage::NotificationEvent => 10,
            Usage::AssistanceAccessibility => 11,
            Usage::AssistanceNavigationGuidance => 12,
            Usage::AssistanceSonification => 13,
            Usage::Game => 14,
            Usage::Assistant => 16,
        }
    }

    /// Recover the typed value from a native code.
    pub fn from_i32(code: i32) -> (value: Option<Usage>)
        ensures
            value == Self::from_code_spec(code),
    {
        if code == 1 {
            Some(Usage::Media)
        } else if code == 2 {
            Some(Usage::VoiceCommunication)
        } else if code == 3 {
            Some(Usage::VoiceCommunicationSignalling)
        } else if code == 4 {
            Some(Usage::Alarm)
        } else if code == 5 {
            Some(Usage::Notification)
        } else if code == 6 {
            Some(Usage::NotificationRingtone)
        } else if code == 10 {
            Some(Usage::NotificationEvent)
        } else if code == 11 {
            Some(Usage::AssistanceAccessibility)
        } else if code == 12 {
            Some(Usage::AssistanceNavigationGuidance)
        } else if code == 13 {
            Some(Usage::AssistanceSonification)
        } else if code == 14 {
            Some(Usage::Game)
        } else if code == 16 {
            Some(Usage::Assistant)
        } else {
            None
        }
    }
}

/// What kind of content the stream carries.
#[derive(Debug, Clone, Copy, PartialEq, Eq, Structural)]
pub enum ContentType {
    /// Spoken voice, audio books.
    Speech,
    /// Pre-recorded or live music.
    Music,
    /// A movie or video soundtrack.
    Movie,
    /// A sound that accompanies a user action, such as a beep.
    Sonification,
}

impl ContentType {
    /// The native code this value maps to.
    pub open spec fn code_spec(self) -> i32 {
        match self {
            ContentType::Speech => 1,
            ContentType::Music => 2,
            ContentType::Movie => 3,
            ContentType::Sonification => 4,
        }
    }

    /// The inverse of the native code mapping.
    pub open spec fn from_code_spec(code: i32) -> Option<ContentType> {
        if code == 1 {
            Some(ContentType::Speech)
        } else if code == 2 {
            Some(ContentType::Music)
        } else if code == 3 {
            Some(ContentType::Movie)
        } else if code == 4 {
            Some(ContentType::Sonification)
        } else {
            None
        }
    }

    /// Convert this value into its native code.
    pub fn to_i32(self) -> (code: i32)
        ensures
            code == self.code_spec(),
    {
        match self {
            ContentType::Speech => 1,
            ContentType::Music => 2,
            ContentType::Movie => 3,
            ContentType::Sonification => 4,
        }
    }

    /// Recover the typed value from a native code.
    pub fn from_i32(code: i32) -> (value: Option<ContentType>)
        ensures
            value == Self::from_code_spec(code),
    {
        if code == 1 {
            Some(ContentType::Speech)
        } else if code == 2 {
            Some(ContentType::Music)
        } else if code == 3 {
            Some(ContentType::Movie)
        } else if code == 4 {
            Some(ContentType::Sonification)
        } else {
            None
        }
    }
}

/// The audio source, with its default recording configuration.
#[derive(Debug, Clone, Copy, PartialEq, Eq, Structural)]
pub enum InputPreset {
    /// Use when the other presets do not apply.
    Generic,
    /// Use when recording video.
    Camcorder,
    /// Use when doing speech recognition.
    VoiceRecognition,
    /// Use when doing telephony or voice messaging.
    VoiceCommunication,
    /// An input with no effects and no automatic gain control.
    Unprocessed,
    /// Capturing audio for live performance, with minimal latency.
    VoicePerformance,
}

impl InputPreset {
    /// The native code this value maps to.
    pub open spec fn code_spec(self) -> i32 {
        match self {
            InputPreset::Generic => 1,
            InputPreset::Camcorder => 5,
            InputPreset::VoiceRecognition => 6,
            InputPreset::VoiceCommunication => 7,
            InputPreset::Unprocessed => 9,
            InputPreset::VoicePerformance => 10,
        }
    }

    /// The inverse of the native code mapping.
    pub open spec fn from_code_spec(code: i32) -> Option<InputPreset> {
        if code == 1 {
            Some(InputPreset::Generic)
        } else if code == 5 {
            Some(InputPreset::Camcorder)
        } else if code == 6 {
            Some(InputPreset::VoiceRecognition)
        } else if code == 7 {
            Some(InputPreset::VoiceCommunication)
        } else if code == 9 {
            Some(InputPreset::Unprocessed)
        } else if code == 10 {
            Some(InputPreset::VoicePerformance)
        } else {
            None
        }
    }

    /// Convert this value into its native code.
    pub fn to_i32(self) -> (code: i32)
        ensures
            code == self.code_spec(),
    {
        match self {
            InputPreset::Generic => 1,
            InputPreset::Camcorder => 5,
            InputPreset::VoiceRecognition => 6,
            InputPreset::VoiceCommunication => 7,
            InputPreset::Unprocessed => 9,
            InputPreset::VoicePerformance => 10,
        }
    }

    /// Recover the typed value from a native code.
    pub fn from_i32(code: i32) -> (value: Option<InputPreset>)
        ensures
            value == Self::from_code_spec(code),
    {
        if code == 1 {
            Some(InputPreset::Generic)
        } else if code == 5 {
            Some(InputPreset::Camcorder)
        } else if code == 6 {
            Some(InputPreset::VoiceRecognition)
        } else if code == 7 {
            Some(InputPreset::VoiceCommunication)
        } else if code == 9 {
            Some(InputPreset::Unprocessed)
        } else if code == 10 {
            Some(InputPreset::VoicePerformance)
        } else {
            None
        }
    }
}

/// Whether the stream allocates a session id usable with the platform effect APIs.
#[derive(Debug, Clone, Copy, PartialEq, Eq, Structural)]
pub enum SessionId {
    /// Do not allocate a session id; effects cannot be used. The default.
    DoNotAllocate,
    /// Allocate a session id, which can be used to attach effects.
    Allocate,
}

impl SessionId {
    /// The native code this value maps to.
    pub open spec fn code_spec(self) -> i32 {
        match self {
            SessionId::DoNotAllocate => (-1i32),
            SessionId::Allocate => 0,
        }
    }

    /// The inverse of the native code mapping.
    pub open spec fn from_code_spec(code: i32) -> Option<SessionId> {
        if code == -1 {
            Some(SessionId::DoNotAllocate)
        } else if code == 0 {
            Some(SessionId::Allocate)
        } else {
            None
        }
    }

    /// Convert this value into its native code.
    pub fn to_i32(self) -> (code: i32)
        ensures
            code == self.code_spec(),
    {
        match self {
            SessionId::DoNotAllocate => -1,
            SessionId::Allocate => 0,
        }
    }

    /// Recover the typed value from a native code.
    pub fn from_i32(code: i32) -> (value: Option<SessionId>)
        ensures
            value == Self::from_code_spec(code),
    {
        if code == -1 {
            Some(SessionId::DoNotAllocate)
        } else if code == 0 {
            Some(SessionId::Allocate)
        } else {
            None
        }
    }
}

/// The channel count of an audio stream.
#[derive(Debug, Clone, Copy, PartialEq, Eq, Structural)]
pub enum ChannelCount {
    /// To be decided by the engine; use Mono or Stereo to be explicit.
    Unspecified,
    /// One channel.
    Mono,
    /// Two channels.
    Stereo,
}

impl ChannelCount {
    /// The native code this value maps to.
    pub open spec fn code_spec(self) -> i32 {
        match self {
            ChannelCount::Unspecified => 0,
            ChannelCount::Mono => 1,
            ChannelCount::Stereo => 2,
        }
    }

    /// The inverse of the native code mapping.
    pub open spec fn from_code_spec(code: i32) -> Option<ChannelCount> {
        if code == 0 {
            Some(ChannelCount::Unspecified)
        } else if code == 1 {
            Some(ChannelCount::Mono)
        } else if code == 2 {
            Some(ChannelCount::Stereo)
        } else {
            None
        }
    }

    /// Convert this value into its native code.
    pub fn to_i32(self) -> (code: i32)
        ensures
            code == self.code_spec(),
    {
        match self {
            ChannelCount::Unspecified => 0,
            ChannelCount::Mono => 1,
            ChannelCount::Stereo => 2,
        }
    }

    /// Recover the typed value from a native code.
    pub fn from_i32(code: i32) -> (value: Option<ChannelCount>)
        ensures
            value == Self::from_code_spec(code),
    {
        if code == 0 {
            Some(ChannelCount::Unspecified)
        } else if code == 1 {
            Some(ChannelCount::Mono)
        } else if code == 2 {
            Some(ChannelCount::Stereo)
        } else {
            None
        }
    }
}

impl AudioFormat {
    /// The number of bytes one sample of this format occupies; 0 for the
    /// formats that do not name a concrete sample layout.
    pub open spec fn bytes_per_sample_spec(self) -> i32 {
        match self {
            AudioFormat::Invalid => 0,
            AudioFormat::Unspecified => 0,
            AudioFormat::I16 => 2,
            AudioFormat::F32 => 4,
            AudioFormat::I24 => 3,
            AudioFormat::I32 => 4,
        }
    }

    /// The number of bytes one sample of this format occupies.
    pub fn bytes_per_sample(self) -> (bytes: i32)
        ensures
            bytes == self.bytes_per_sample_spec(),
    {
        match self {
            AudioFormat::Invalid => 0,
            AudioFormat::Unspecified => 0,
            AudioFormat::I16 => 2,
            AudioFormat::F32 => 4,
            AudioFormat::I24 => 3,
            AudioFormat::I32 => 4,
        }
    }
}

/// Map a plain status code coming back from an engine entry point to a typed
/// status: code 0 always means success, every other code names an [`Error`].
pub fn wrap_status(result: i32) -> (status: core::result::Result<(), Error>)
    requires
        result == 0 || Error::from_code_spec(result) is Some,
    ensures
        result == 0 ==> status == core::result::Result::<(), Error>::Ok(()),
        result != 0 ==> status == core::result::Result::<(), Error>::Err(
            Error::from_code_spec(result)->Some_0,
        ),
{
    if result == 0 {
        Ok(())
    } else {
        match Error::from_i32(result) {
            Some(error) => Err(error),
            None => {
                proof {
                    assert(false);
                }
                Err(Error::Internal)
            },
        }
    }
}

/// Map a (code, value) pair coming back from an engine entry point to a typed
/// result: the value is meaningful exactly when the code is 0.
pub fn wrap_result<T>(result: i32, value: T) -> (wrapped: core::result::Result<T, Error>)
    requires
        result == 0 || Error::from_code_spec(result) is Some,
    ensures
        result == 0 ==> wrapped == core::result::Result::<T, Error>::Ok(value),
        result != 0 ==> wrapped == core::result::Result::<T, Error>::Err(
            Error::from_code_spec(result)->Some_0,
        ),
{
    if result == 0 {
        Ok(value)
    } else {
        match Error::from_i32(result) {
            Some(error) => Err(error),
            None => {
                proof {
                    assert(false);
                }
                Err(Error::Internal)
            },
        }
    }
}

/// The time at which the frame at `position` was presented.
#[derive(Debug, Clone, Copy, PartialEq, Eq, Structural)]
pub struct FrameTimestamp {
    /// The position in number of frames.
    pub position: i64,
    /// The timestamp in nanoseconds.
    pub timestamp: i64,
}

/// The default (optimal) audio streaming values, as the platform reports them.
///
/// On older platform versions the optimal sample rate and burst size are not
/// known natively; they are queried from the platform audio manager and
/// recorded here before streams are opened.
#[derive(Debug, Clone, Copy, PartialEq, Eq, Structural)]
pub struct DefaultStreamValues {
    /// The default sample rate.
    pub sample_rate: i32,
    /// The default burst size in frames.
    pub frames_per_burst: i32,
    /// The default channel count.
    pub channel_count: i32,
}

impl DefaultStreamValues {
    /// The engine's built-in defaults: 48 kHz, bursts of 192 frames, stereo.
    pub fn new() -> (values: DefaultStreamValues)
        ensures
            values.sample_rate == 48000,
            values.frames_per_burst == 192,
            values.channel_count == 2,
    {
        DefaultStreamValues { sample_rate: 48000, frames_per_burst: 192, channel_count: 2 }
    }

    /// The default sample rate to use when opening new audio streams.
    pub fn get_sample_rate(&self) -> (rate: i32)
        ensures
            rate == self.sample_rate,
    {
        self.sample_rate
    }

    pub fn set_sample_rate(&mut self, sample_rate: i32)
        ensures
            *final(self) == (DefaultStreamValues { sample_rate, ..*old(self) }),
    {
        self.sample_rate = sample_rate;
    }

    /// The default frames per burst to use when opening new audio streams.
    pub fn get_frames_per_burst(&self) -> (frames: i32)
        ensures
            frames == self.frames_per_burst,
    {
        self.frames_per_burst
    }

    pub fn set_frames_per_burst(&mut self, frames_per_burst: i32)
        ensures
            *final(self) == (DefaultStreamValues { frames_per_burst, ..*old(self) }),
    {
        self.frames_per_burst = frames_per_burst;
    }

    /// The default channel count to use when opening new audio streams.
    pub fn get_channel_count(&self) -> (channels: i32)
        ensures
            channels == self.channel_count,
    {
        self.channel_count
    }

    pub fn set_channel_count(&mut self, channel_count: i32)
        ensures
            *final(self) == (DefaultStreamValues { channel_count, ..*old(self) }),
    {
        self.channel_count = channel_count;
    }
}

impl Default for DefaultStreamValues {
    fn default() -> (values: DefaultStreamValues)
        ensures
            values.sample_rate == 48000,
            values.frames_per_burst == 192,
            values.channel_count == 2,
    {
        DefaultStreamValues::new()
    }
}

impl StreamState {
    /// The printable name of this variant.
    pub open spec fn name_spec(self) -> Seq<char> {
        match self {
            StreamState::Uninitialized => "Uninitialized"@,
            StreamState::Unknown => "Unknown"@,
            StreamState::Open => "Open"@,
            StreamState::Starting => "Starting"@,
            StreamState::Started => "Started"@,
            StreamState::Pausing => "Pausing"@,
            StreamState::Paused => "Paused"@,
            StreamState::Flushing => "Flushing"@,
            StreamState::Flushed => "Flushed"@,
            StreamState::Stopping => "Stopping"@,
            StreamState::Stopped => "Stopped"@,
            StreamState::Closing => "Closing"@,
            StreamState::Closed => "Closed"@,
            StreamState::Disconnected => "Disconnected"@,
        }
    }

    /// The printable name of this variant.
    pub fn name(self) -> (name: &'static str)
        ensures
            name@ == self.name_spec(),
    {
        match self {
            StreamState::Uninitialized => "Uninitialized",
            StreamState::Unknown => "Unknown",
            StreamState::Open => "Open",
            StreamState::Starting => "Starting",
            StreamState::Started => "Started",
            StreamState::Pausing => "Pausing",
            StreamState::Paused => "Paused",
            StreamState::Flushing => "Flushing",
            StreamState::Flushed => "Flushed",
            StreamState::Stopping => "Stopping",
            StreamState::Stopped => "Stopped",
            StreamState::Closing => "Closing",
            StreamState::Closed => "Closed",
            StreamState::Disconnected => "Disconnected",
        }
    }
}

impl Direction {
    /// The printable name of this variant.
    pub open spec fn name_spec(self) -> Seq<char> {
        match self {
            Direction::Output => "Output"@,
            Direction::Input => "Input"@,
        }
    }

    /// The printable name of this variant.
    pub fn name(self) -> (name: &'static str)
        ensures
            name@ == self.name_spec(),
    {
        match self {
            Direction::Output => "Output",
            Direction::Input => "Input",
        }
    }
}

impl AudioFormat {
    /// The printable name of this variant.
    pub open spec fn name_spec(self) -> Seq<char> {
        match self {
            AudioFormat::Invalid => "Invalid"@,
            AudioFormat::Unspecified => "Unspecified"@,
            AudioFormat::I16 => "I16"@,
            AudioFormat::F32 => "F32"@,
            AudioFormat::I24 => "I24"@,
            AudioFormat::I32 => "I32"@,
        }
    }

    /// The printable name of this variant.
    pub fn name(self) -> (name: &'static str)
        ensures
            name@ == self.name_spec(),
    {
        match self {
            AudioFormat::Invalid => "Invalid",
            AudioFormat::Unspecified => "Unspecified",
            AudioFormat::I16 => "I16",
            AudioFormat::F32 => "F32",
            AudioFormat::I24 => "I24",
            AudioFormat::I32 => "I32",
        }
    }
}

impl Error {
    /// The printable name of this variant.
    pub open spec fn name_spec(self) -> Seq<char> {
        match self {
            Error::Disconnected => "Disconnected"@,
            Error::IllegalArgument => "IllegalArgument"@,
            Error::Internal => "Internal"@,
            Error::InvalidState => "InvalidState"@,
            Error::InvalidHandle => "InvalidHandle"@,
            Error::Unimplemented => "Unimplemented"@,
            Error::Unavailable => "Unavailable"@,
            Error::NoFreeHandles => "NoFreeHandles"@,
            Error::NoMemory => "NoMemory"@,
            Error::Null => "Null"@,
            Error::Timeout => "Timeout"@,
            Error::WouldBlock => "WouldBlock"@,
            Error::InvalidFormat => "InvalidFormat"@,
            Error::OutOfRange => "OutOfRange"@,
            Error::NoService => "NoService"@,
            Error::InvalidRate => "InvalidRate"@,
            Error::Closed => "Closed"@,
        }
    }

    /// The printable name of this variant.
    pub fn name(self) -> (name: &'static str)
        ensures
            name@ == self.name_spec(),
    {
        match self {
            Error::Disconnected => "Disconnected",
            Error::IllegalArgument => "IllegalArgument",
            Error::Internal => "Internal",
            Error::InvalidState => "InvalidState",
            Error::InvalidHandle => "InvalidHandle",
            Error::Unimplemented => "Unimplemented",
            Error::Unavailable => "Unavailable",
            Error::NoFreeHandles => "NoFreeHandles",
            Error::NoMemory => "NoMemory",
            Error::Null => "Null",
            Error::Timeout => "Timeout",
            Error::WouldBlock => "WouldBlock",
            Error::InvalidFormat => "InvalidFormat",
            Error::OutOfRange => "OutOfRange",
            Error::NoService => "NoService",
            Error::InvalidRate => "InvalidRate",
            Error::Closed => "Closed",
        }
    }
}

impl SharingMode {
    /// The printable name of this variant.
    pub open spec fn name_spec(self) -> Seq<char> {
        match self {
            SharingMode::Exclusive => "Exclusive"@,
            SharingMode::Shared => "Shared"@,
        }
    }

    /// The printable name of this variant.
    pub fn name(self) -> (name: &'static str)
        ensures
            name@ == self.name_spec(),
    {
        match self {
            SharingMode::Exclusive => "Exclusive",
            SharingMode::Shared => "Shared",
        }
    }
}

impl PerformanceMode {
    /// The printable name of this variant.
    pub open spec fn name_spec(self) -> Seq<char> {
        match self {
            PerformanceMode::NoPreference => "NoPreference"@,
            PerformanceMode::PowerSaving => "PowerSaving"@,
            PerformanceMode::LowLatency => "LowLatency"@,
        }
    }

    /// The printable name of this variant.
    pub fn name(self) -> (name: &'static str)
        ensures
            name@ == self.name_spec(),
    {
        match self {
            PerformanceMode::NoPreference => "NoPreference",
            PerformanceMode::PowerSaving => "PowerSaving",
            PerformanceMode::LowLatency => "LowLatency",
        }
    }
}

impl AudioApi {
    /// The printable name of this variant.
    pub open spec fn name_spec(self) -> Seq<char> {
        match self {
            AudioApi::Unspecified => "Unspecified"@,
            AudioApi::OpenSLES => "OpenSLES"@,
            AudioApi::AAudio => "AAudio"@,
        }
    }

    /// The printable name of this variant.
    pub fn name(self) -> (name: &'static str)
        ensures
            name@ == self.name_spec(),
    {
        match self {
            AudioApi::Unspecified => "Unspecified",
            AudioApi::OpenSLES => "OpenSLES",
            AudioApi::AAudio => "AAudio",
        }
    }
}

impl SampleRateConversionQuality {
    /// The printable name of this variant.
    pub open spec fn name_spec(self) -> Seq<char> {
        match self {
            SampleRateConversionQuality::NoConversion => "NoConversion"@,
            SampleRateConversionQuality::Fastest => "Fastest"@,
            SampleRateConversionQuality::Low => "Low"@,
            SampleRateConversionQuality::Medium => "Medium"@,
            SampleRateConversionQuality::High => "High"@,
            SampleRateConversionQuality::Best => "Best"@,
        }
    }

    /// The printable name of this variant.
    pub fn name(self) -> (name: &'static str)
        ensures
            name@ == self.name_spec(),
    {
        match self {
            SampleRateConversionQuality::NoConversion => "NoConversion",
            SampleRateConversionQuality::Fastest => "Fastest",
            SampleRateConversionQuality::Low => "Low",
            SampleRateConversionQuality::Medium => "Medium",
            SampleRateConversionQuality::High => "High",
            SampleRateConversionQuality::Best => "Best",
        }
    }
}

impl Usage {
    /// The printable name of this variant.
    pub open spec fn name_spec(self) -> Seq<char> {
        match self {
            Usage::Media => "Media"@,
            Usage::VoiceCommunication => "VoiceCommunication"@,
            Usage::VoiceCommunicationSignalling => "VoiceCommunicationSignalling"@,
            Usage::Alarm => "Alarm"@,
            Usage::Notification => "Notification"@,
            Usage::NotificationRingtone => "NotificationRingtone"@,
            Usage::NotificationEvent => "NotificationEvent"@,
            Usage::AssistanceAccessibility => "AssistanceAccessibility"@,
            Usage::AssistanceNavigationGuidance => "AssistanceNavigationGuidance"@,
            Usage::AssistanceSonification => "AssistanceSonification"@,
            Usage::Game => "Game"@,
            Usage::Assistant => "Assistant"@,
        }
    }

    /// The printable name of this variant.
    pub fn name(self) -> (name: &'static str)
        ensures
            name@ == self.name_spec(),
    {
        match self {
            Usage::Media => "Media",
            Usage::VoiceCommunication => "VoiceCommunication",
            Usage::VoiceCommunicationSignalling => "VoiceCommunicationSignalling",
            Usage::Alarm => "Alarm",
            Usage::Notification => "Notification",
            Usage::NotificationRingtone => "NotificationRingtone",
            Usage::NotificationEvent => "NotificationEvent",
            Usage::AssistanceAccessibility => "AssistanceAccessibility",
            Usage::AssistanceNavigationGuidance => "AssistanceNavigationGuidance",
            Usage::AssistanceSonification => "AssistanceSonification",
            Usage::Game => "Game",
            Usage::Assistant => "Assistant",
        }
    }
}

impl ContentType {
    /// The printable name of this variant.
    pub open spec fn name_spec(self) -> Seq<char> {
        match self {
            ContentType::Speech => "Speech"@,
            ContentType::Music => "Music"@,
            ContentType::Movie => "Movie"@,
            ContentType::Sonification => "Sonification"@,
        }
    }

    /// The printable name of this variant.
    pub fn name(self) -> (name: &'static str)
        ensures
            name@ == self.name_spec(),
    {
        match self {
            ContentType::Speech => "Speech",
            ContentType::Music => "Music",
            ContentType::Movie => "Movie",
            ContentType::Sonification => "Sonification",
        }
    }
}

impl InputPreset {
    /// The printable name of this variant.
    pub open spec fn name_spec(self) -> Seq<char> {
        match self {
            InputPreset::Generic => "Generic"@,
            InputPreset::Camcorder => "Camcorder"@,
            InputPreset::VoiceRecognition => "VoiceRecognition"@,
            InputPreset::VoiceCommunication => "VoiceCommunication"@,
            InputPreset::Unprocessed => "Unprocessed"@,
            InputPreset::VoicePerformance => "VoicePerformance"@,
        }
    }

    /// The printable name of this variant.
    pub fn name(self) -> (name: &'static str)
        ensures
            name@ == self.name_spec(),
    {
        match self {
            InputPreset::Generic => "Generic",
            InputPreset::Camcorder => "Camcorder",
            InputPreset::VoiceRecognition => "VoiceRecognition",
            InputPreset::VoiceCommunication => "VoiceCommunication",
            InputPreset::Unprocessed => "Unprocessed",
            InputPreset::VoicePerformance => "VoicePerformance",
        }
    }
}

impl SessionId {
    /// The printable name of this variant.
    pub open spec fn name_spec(self) -> Seq<char> {
        match self {
            SessionId::DoNotAllocate => "DoNotAllocate"@,
            SessionId::Allocate => "Allocate"@,
        }
    }

    /// The printable name of this variant.
    pub fn name(self) -> (name: &'static str)
        ensures
            name@ == self.name_spec(),
    {
        match self {
            SessionId::DoNotAllocate => "DoNotAllocate",
            SessionId::Allocate => "Allocate",
        }
    }
}

impl ChannelCount {
    /// The printable name of this variant.
    pub open spec fn name_spec(self) -> Seq<char> {
        match self {
            ChannelCount::Unspecified => "Unspecified"@,
            ChannelCount::Mono => "Mono"@,
            ChannelCount::Stereo => "Stereo"@,
        }
    }

    /// The printable name of this variant.
    pub fn name(self) -> (name: &'static str)
        ensures
            name@ == self.name_spec(),
    {
        match self {
            ChannelCount::Unspecified => "Unspecified",
            ChannelCount::Mono => "Mono",
            ChannelCount::Stereo => "Stereo",
        }
    }
}

} // verus!
