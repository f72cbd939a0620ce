//! Version rolling and user ids.
use vstd::prelude::*;

use crate::text;
use crate::text::signed_to_text;

verus! {

/// A 32-bit number that is written as big-endian hexadecimal digits.
#[derive(Debug, Clone, Copy, PartialEq, Eq, Structural)]
pub struct HexU32Be(pub u32);

/// What a miner's configuration request says of version rolling.
#[derive(Debug, Clone, Copy, PartialEq, Eq, Structural)]
pub struct Configure {
    pub version_rolling_mask: Option<HexU32Be>,
    pub version_rolling_min_bit_count: Option<HexU32Be>,
}

/// The version bits that may be rolled at all.
pub const VERSION_ROLLING_MASK: u32 = 0x1FFFE000;

/// Selects the version rolling mask and the minimum bit count for a miner: the
/// bits that it asks for, out of those that may be rolled, and the count that it
/// asks for; zero where it does not ask.
pub fn sv1_rolling(configure: &Configure) -> (r: (HexU32Be, HexU32Be))
    ensures
        r.0.0 == (match configure.version_rolling_mask {
            Some(mask) => mask.0 & 0x1FFFE000,
            None => 0,
        }),
        r.1.0 == (match configure.version_rolling_min_bit_count {
            Some(count) => count.0,
            None => 0,
        }),
{
    let version_rolling_mask = match configure.version_rolling_mask {
        Some(mask) => HexU32Be(mask.0 & VERSION_ROLLING_MASK),
        None => HexU32Be(0),
    };
    let version_rolling_min_bit = match configure.version_rolling_min_bit_count {
        Some(count) => count,
        None => HexU32Be(0),
    };
    (version_rolling_mask, version_rolling_min_bit)
}

/// The id of a user.
#[derive(Debug, PartialEq, Eq, Clone, Copy, Structural)]
pub struct UserId(pub i64);

impl UserId {
    /// The id in decimal.
    pub fn to_string(&self) -> (r: String)
        ensures
            r@ == text::signed_decimal(self.0 as int),
    {
        signed_to_text(self.0)
    }
}

/// A selected mask never has a bit that may not be rolled, nor one that the miner
/// did not ask for.
pub proof fn mask_is_granted_within_both(asked: u32)
    ensures
        VERSION_ROLLING_MASK == 0x1FFFE000,
        (asked & VERSION_ROLLING_MASK) & !VERSION_ROLLING_MASK == 0,
        (asked & VERSION_ROLLING_MASK) & !asked == 0,
        asked & !VERSION_ROLLING_MASK == 0 ==> asked & VERSION_ROLLING_MASK == asked,
{
    let allowed = VERSION_ROLLING_MASK;
    assert((asked & allowed) & !allowed == 0) by (bit_vector);
    assert((asked & allowed) & !asked == 0) by (bit_vector);
    assert(asked & !allowed == 0 ==> asked & allowed == asked) by (bit_vector);
}

} // verus!
