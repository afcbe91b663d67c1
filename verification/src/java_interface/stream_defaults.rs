//! Initialization of the default stream values from platform properties.
//!
//! On older platform versions the optimal sample rate and burst size are
//! not known natively: they are read as text properties from the platform
//! audio manager, parsed, and recorded in [`DefaultStreamValues`]. The
//! property reads themselves happen outside the library; the parsing of
//! the property text and the version-dependent decision are verified here.

use vstd::prelude::*;

use crate::definitions::DefaultStreamValues;
use crate::definitions::Error;

verus! {

/// Whether a byte is an ASCII decimal digit.
pub open spec fn is_ascii_digit(b: u8) -> bool {
    48 <= b <= 57
}

/// Whether every byte of the sequence is an ASCII decimal digit.
pub open spec fn all_ascii_digits(s: Seq<u8>) -> bool {
    forall|i: int| 0 <= i < s.len() ==> is_ascii_digit(#[trigger] s[i])
}

/// The number a sequence of ASCII decimal digits denotes.
pub open spec fn decimal_digits_value(s: Seq<u8>) -> int
    decreases s.len(),
{
    if s.len() == 0 {
        0
    } else {
        decimal_digits_value(s.drop_last()) * 10 + (s.last() - 48)
    }
}

/// The digits of a piece of property text: everything after the optional
/// ASCII sign.
pub open spec fn property_digits(s: Seq<u8>) -> Seq<u8> {
    if s.len() > 0 && (s[0] == 43 || s[0] == 45) {
        s.skip(1)
    } else {
        s
    }
}

/// The integer a piece of property text denotes: an optional ASCII sign
/// followed by at least one ASCII decimal digit, with no size limit.
pub open spec fn parsed_integer(s: Seq<u8>) -> Option<int> {
    let negative = s.len() > 0 && s[0] == 45;
    let digits = property_digits(s);
    if digits.len() > 0 && all_ascii_digits(digits) {
        if negative {
            Some(-decimal_digits_value(digits))
        } else {
            Some(decimal_digits_value(digits))
        }
    } else {
        None
    }
}

/// What parsing a property text yields: the denoted integer where the
/// text is well formed and the value fits a 32-bit integer, and nothing
/// otherwise.
pub open spec fn parse_decimal_spec(s: Seq<u8>) -> Option<i32> {
    match parsed_integer(s) {
        Some(value) => if i32::MIN <= value <= i32::MAX {
            Some(value as i32)
        } else {
            None
        },
        None => None,
    }
}

/// A sequence of digits denotes a number no smaller than zero.
proof fn lemma_digits_value_nonneg(s: Seq<u8>)
    requires
        all_ascii_digits(s),
    ensures
        decimal_digits_value(s) >= 0,
    decreases s.len(),
{
    if s.len() > 0 {
        assert(all_ascii_digits(s.drop_last())) by {
            assert(forall|i: int|
                0 <= i < s.drop_last().len() ==> #[trigger] s.drop_last()[i] == s[i]);
        }
        lemma_digits_value_nonneg(s.drop_last());
    }
}

/// Extending a sequence of digits never shrinks the number it denotes.
proof fn lemma_digits_value_prefix(s: Seq<u8>, k: int)
    requires
        all_ascii_digits(s),
        0 <= k <= s.len(),
    ensures
        decimal_digits_value(s) >= decimal_digits_value(s.take(k)),
    decreases s.len() - k,
{
    if k < s.len() {
        assert(all_ascii_digits(s.drop_last())) by {
            assert(forall|i: int|
                0 <= i < s.drop_last().len() ==> #[trigger] s.drop_last()[i] == s[i]);
        }
        lemma_digits_value_nonneg(s.drop_last());
        if k == s.len() - 1 {
            assert(s.take(k) =~= s.drop_last());
        } else {
            lemma_digits_value_prefix(s.drop_last(), k);
            assert(s.drop_last().take(k) =~= s.take(k));
        }
    } else {
        assert(s.take(k) =~= s);
    }
}

/// Parse a platform property text as the platform's own integer parser
/// does: an optional ASCII sign, then at least one ASCII decimal digit,
/// and the value must fit a 32-bit integer; anything else yields nothing.
pub fn parse_property_value(text: &[u8]) -> (value: Option<i32>)
    ensures
        value == parse_decimal_spec(text@),
{
    let length: usize = text.len();
    if length == 0 {
        return None;
    }
    let first: u8 = text[0];
    let negative: bool = first == 45;
    let start: usize = if first == 43 || first == 45 {
        1
    } else {
        0
    };
    proof {
        assert(property_digits(text@) =~= text@.subrange(start as int, length as int));
    }
    if start == length {
        return None;
    }
    let mut index: usize = start;
    let mut magnitude: i64 = 0;
    while index < length
        invariant
            start <= index <= length,
            length == text@.len(),
            length > 0,
            start <= 1,
            negative == (text@[0] == 45),
            property_digits(text@) =~= text@.subrange(start as int, length as int),
            all_ascii_digits(text@.subrange(start as int, index as int)),
            magnitude == decimal_digits_value(text@.subrange(start as int, index as int)),
            0 <= magnitude <= 0x8000_0000,
        decreases length - index,
    {
        let b: u8 = text[index];
        if b < 48 || b > 57 {
            proof {
                let digits = property_digits(text@);
                assert(digits[index - start] == text@[index as int]);
                assert(!is_ascii_digit(digits[index - start]));
                assert(parsed_integer(text@) is None);
            }
            return None;
        }
        let digit: i64 = (b - 48) as i64;
        let grown: i64 = magnitude * 10 + digit;
        proof {
            assert(text@.subrange(start as int, index as int + 1).drop_last() =~= text@.subrange(
                start as int,
                index as int,
            ));
            assert(text@.subrange(start as int, index as int + 1).last() == b);
        }
        if grown > 0x8000_0000 {
            proof {
                let digits = property_digits(text@);
                let prefix = text@.subrange(start as int, index as int + 1);
                assert(decimal_digits_value(prefix) == magnitude * 10 + (b - 48));
                if all_ascii_digits(digits) {
                    assert(digits.take(index + 1 - start) =~= prefix);
                    lemma_digits_value_prefix(digits, index + 1 - start);
                    assert(decimal_digits_value(digits) > 0x8000_0000);
                } else {
                    assert(parsed_integer(text@) is None);
                }
            }
            return None;
        }
        magnitude = grown;
        index = index + 1;
    }
    proof {
        let digits = property_digits(text@);
        assert(digits =~= text@.subrange(start as int, length as int));
        assert(decimal_digits_value(digits) == magnitude);
        assert(digits.len() > 0);
    }
    if negative {
        Some((-magnitude) as i32)
    } else {
        if magnitude > 0x7fff_ffff {
            return None;
        }
        Some(magnitude as i32)
    }
}

/// What initializing the default stream values decides for a given
/// platform version and the parsed property values.
pub open spec fn init_outcome(
    values: DefaultStreamValues,
    sdk_version: i32,
    sample_rate: Option<i32>,
    frames_per_burst: Option<i32>,
) -> (DefaultStreamValues, Result<(), Error>) {
    if sdk_version < 17 {
        (values, Err(Error::Unimplemented))
    } else if sdk_version < 26 {
        let with_rate = match sample_rate {
            Some(rate) => DefaultStreamValues { sample_rate: rate, ..values },
            None => values,
        };
        let with_burst = match frames_per_burst {
            Some(burst) => DefaultStreamValues { frames_per_burst: burst, ..with_rate },
            None => with_rate,
        };
        (with_burst, Ok(()))
    } else {
        (values, Ok(()))
    }
}

impl DefaultStreamValues {
    /// Take over the defaults the platform audio manager reports.
    ///
    /// On platform versions before the properties exist the call fails
    /// with `Unimplemented`; on versions where the engine already knows
    /// the optimal values nothing needs to be done; in between, each
    /// property that was present and parsed replaces the stored default.
    /// The caller queries the two properties and parses them with
    /// [`parse_property_value`].
    pub fn init(
        &mut self,
        sdk_version: i32,
        sample_rate: Option<i32>,
        frames_per_burst: Option<i32>,
    ) -> (status: Result<(), Error>)
        ensures
            *final(self) == init_outcome(*old(self), sdk_version, sample_rate, frames_per_burst).0,
            status == init_outcome(*old(self), sdk_version, sample_rate, frames_per_burst).1,
    {
        if sdk_version < 17 {
            return Err(Error::Unimplemented);
        }
        if sdk_version < 26 {
            if let Some(rate) = sample_rate {
                self.set_sample_rate(rate);
            }
            if let Some(burst) = frames_per_burst {
                self.set_frames_per_burst(burst);
            }
        }
        Ok(())
    }
}

} // verus!
