//! Decisions of the Slash lighting controller: which brightness the lightbar
//! shows and stores as it is enabled, disabled or dimmed.

use vstd::prelude::*;

verus! {

/// The brightness a Slash shows: its stored brightness when enabled, else 0.
pub fn shown_brightness(enabled: bool, brightness: u8) -> (r: u8)
    ensures
        r == if enabled {
            brightness
        } else {
            0
        },
{
    if enabled {
        brightness
    } else {
        0
    }
}

/// The default brightness given to a Slash enabled at brightness 0.
pub const SLASH_DEFAULT_BRIGHTNESS: u8 = 0x88;

/// Enabling or disabling a Slash whose stored brightness is `stored`: the
/// brightness to store (enabling at 0 picks the default brightness) and the
/// one to write to the device (0 when disabled).
pub open spec fn slash_enable(enabled: bool, stored: u8) -> (u8, u8) {
    let b = if enabled && stored == 0 {
        SLASH_DEFAULT_BRIGHTNESS
    } else {
        stored
    };
    (b, if enabled {
        b
    } else {
        0
    })
}

/// The brightness to store and the brightness to write when a Slash is
/// enabled or disabled.
pub fn enable_brightness(enabled: bool, stored: u8) -> (r: (u8, u8))
    ensures
        r == slash_enable(enabled, stored),
{
    let brightness = if enabled && stored == 0 {
        SLASH_DEFAULT_BRIGHTNESS
    } else {
        stored
    };
    (brightness, shown_brightness(enabled, brightness))
}

/// Setting a brightness enables the Slash exactly when it is not zero.
pub fn enabled_at(brightness: u8) -> (r: bool)
    ensures
        r == (brightness > 0),
{
    brightness > 0
}

/// Enabling a Slash always shows a brightness other than zero; disabling it
/// shows zero and keeps the stored brightness; and enabling it again shows
/// the brightness it had before it was disabled, if that was not zero.
pub proof fn lemma_enable_disable(stored: u8)
    ensures
        slash_enable(true, stored).1 > 0,
        slash_enable(false, stored) == (stored, 0u8),
        stored > 0 ==> slash_enable(true, slash_enable(false, stored).0).1 == stored,
{
}

} // verus!
