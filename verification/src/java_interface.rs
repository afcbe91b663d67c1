//! The platform-facing utilities: audio feature names, and the decision
//! logic for initializing the default stream values from platform
//! properties. The platform call mechanics live outside the library; only
//! plain values cross into it.

mod audio_features;
mod stream_defaults;

pub use audio_features::AudioFeature;
pub use stream_defaults::all_ascii_digits;
pub use stream_defaults::decimal_digits_value;
pub use stream_defaults::init_outcome;
pub use stream_defaults::is_ascii_digit;
pub use stream_defaults::parse_decimal_spec;
pub use stream_defaults::parse_property_value;
pub use stream_defaults::parsed_integer;
pub use stream_defaults::property_digits;
