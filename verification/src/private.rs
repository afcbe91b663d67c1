//! Access to the raw engine-side records behind builders and streams.

use vstd::prelude::*;

use crate::engine::EngineStream;
use crate::engine::StreamConfig;

verus! {

/// A type that is backed by a raw base configuration record.
pub trait RawAudioStreamBase {
    /// The raw base configuration record behind this value.
    spec fn raw_base_spec(&self) -> StreamConfig;

    /// Read access to the raw base configuration record.
    fn _raw_base(&self) -> (base: &StreamConfig)
        ensures
            *base == self.raw_base_spec(),
    ;
}

/// A type that is backed by a raw engine stream record.
pub trait RawAudioStream {
    /// The raw engine stream record behind this value.
    spec fn raw_stream_spec(&self) -> EngineStream;

    /// Read access to the raw engine stream record.
    fn _raw_stream(&self) -> (stream: &EngineStream)
        ensures
            *stream == self.raw_stream_spec(),
    ;
}

/// The raw marker for input streams.
pub trait RawAudioInputStream {

}

/// The raw marker for output streams.
pub trait RawAudioOutputStream {

}

} // verus!
