//! Placeholders for whole classes of values in the phrases that recognition is biased toward.
//!
//! Which of them work depends on the model and the locale; the others are ignored. There are two
//! families, with and without a prefix, which do not stand for each other.

use vstd::prelude::*;

verus! {

/// Letters and digits, such as "a1b2c3".
pub const OOV_CLASS_ALPHANUMERIC_SEQUENCE: &'static str = "$OOV_CLASS_ALPHANUMERIC_SEQUENCE";

/// Letters, such as "cqbcf".
pub const OOV_CLASS_ALPHA_SEQUENCE: &'static str = "$OOV_CLASS_ALPHA_SEQUENCE";

/// An AM radio frequency.
pub const OOV_CLASS_AM_RADIO_FREQUENCY: &'static str = "$OOV_CLASS_AM_RADIO_FREQUENCY";

/// Digits, such as `9412` for "nine four one two".
pub const OOV_CLASS_DIGIT_SEQUENCE: &'static str = "$OOV_CLASS_DIGIT_SEQUENCE";

/// An FM radio frequency.
pub const OOV_CLASS_FM_RADIO_FREQUENCY: &'static str = "$OOV_CLASS_FM_RADIO_FREQUENCY";

/// A street number.
pub const OOV_CLASS_ADDRESSNUM: &'static str = "$OOV_CLASS_ADDRESSNUM";

/// A date in numbers.
pub const OOV_CLASS_FULLDATE: &'static str = "$OOV_CLASS_FULLDATE";

/// A phone number.
pub const OOV_CLASS_FULLPHONENUM: &'static str = "$OOV_CLASS_FULLPHONENUM";

/// A number, whole or not.
pub const OOV_CLASS_OPERAND: &'static str = "$OOV_CLASS_OPERAND";

/// An ordinal number.
pub const OOV_CLASS_ORDINAL: &'static str = "$OOV_CLASS_ORDINAL";

/// A percentage with its sign.
pub const OOV_CLASS_PERCENT: &'static str = "$OOV_CLASS_PERCENT";

/// A postal code.
pub const OOV_CLASS_POSTALCODE: &'static str = "$OOV_CLASS_POSTALCODE";

/// A temperature in degrees.
pub const OOV_CLASS_TEMPERATURE: &'static str = "$OOV_CLASS_TEMPERATURE";

/// The number of a television channel.
pub const OOV_CLASS_TV_CHANNEL: &'static str = "$OOV_CLASS_TV_CHANNEL";

/// A street number.
pub const ADDRESSNUM: &'static str = "$ADDRESSNUM";

/// A date in numbers.
pub const FULLDATE: &'static str = "$FULLDATE";

/// A phone number.
pub const FULLPHONENUM: &'static str = "$FULLPHONENUM";

/// A number, whole or not.
pub const OPERAND: &'static str = "$OPERAND";

/// An ordinal number.
pub const ORDINAL: &'static str = "$ORDINAL";

/// A percentage with its sign.
pub const PERCENT: &'static str = "$PERCENT";

/// A postal code.
pub const POSTALCODE: &'static str = "$POSTALCODE";

/// A day within a month.
pub const DAY: &'static str = "$DAY";

/// An amount of money with its currency.
pub const MONEY: &'static str = "$MONEY";

/// The name of a month.
pub const MONTH: &'static str = "$MONTH";

/// A numbered street.
pub const STREET: &'static str = "$STREET";

/// A time of day.
pub const TIME: &'static str = "$TIME";

/// A year.
pub const YEAR: &'static str = "$YEAR";

} // verus!
