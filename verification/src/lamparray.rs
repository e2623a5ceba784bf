//! Microsoft HID LampArray (usage page 0x59) keyboards: the integer side of
//! the protocol. The host disables autonomous mode (report 0x46), reads the
//! LampArrayAttributes report (0x41) for the lamp count, and paints lamps with
//! LampRangeUpdate reports (0x45).

use vstd::prelude::*;

use crate::aura_laptop::missing_function;
use crate::builtin_modes::{AuraEffect, AuraModeNum, LedBrightness, Speed};
use crate::error::RogError;

verus! {

/// The period in milliseconds of one full cycle of an animation.
pub open spec fn period_ms(s: Speed) -> u32 {
    match s {
        Speed::Low => 4000,
        Speed::Med => 2000,
        Speed::High => 800,
    }
}

/// Map the abstract speed to a period in milliseconds for one full cycle of
/// the animation.
pub fn speed_to_period_ms(s: Speed) -> (r: u32)
    ensures
        r == period_ms(s),
{
    match s {
        Speed::Low => 4000,
        Speed::Med => 2000,
        Speed::High => 800,
    }
}

/// The lamp intensity of a brightness step.
pub open spec fn intensity_of(b: LedBrightness) -> u8 {
    match b {
        LedBrightness::Off => 0,
        LedBrightness::Low => 64,
        LedBrightness::Med => 128,
        LedBrightness::High => 255,
    }
}

/// Brightness to LampArray intensity.
pub fn brightness_to_intensity(b: LedBrightness) -> (r: u8)
    ensures
        r == intensity_of(b),
{
    match b {
        LedBrightness::Off => 0,
        LedBrightness::Low => 64,
        LedBrightness::Med => 128,
        LedBrightness::High => 255,
    }
}

/// The brightness step a raw level asks for: 0 to 2 name theirs, anything
/// higher is `High`.
pub open spec fn level_step(value: u8) -> LedBrightness {
    if value == 0 {
        LedBrightness::Off
    } else if value == 1 {
        LedBrightness::Low
    } else if value == 2 {
        LedBrightness::Med
    } else {
        LedBrightness::High
    }
}

pub fn brightness_level(value: u8) -> (r: LedBrightness)
    ensures
        r == level_step(value),
{
    match value {
        0 => LedBrightness::Off,
        1 => LedBrightness::Low,
        2 => LedBrightness::Med,
        _ => LedBrightness::High,
    }
}

/// The colour to keep when only brightness or power changes: the first colour
/// of the current built-in effect, or white without one.
pub fn lamp_colour(current: Option<AuraEffect>) -> (r: (u8, u8, u8))
    ensures
        r == match current {
            Some(e) => (e.colour1.r, e.colour1.g, e.colour1.b),
            None => (0xffu8, 0xffu8, 0xffu8),
        },
{
    match current {
        Some(e) => (e.colour1.r, e.colour1.g, e.colour1.b),
        None => (0xff, 0xff, 0xff),
    }
}

/// The report that disables autonomous mode.
pub fn autonomous_off_report() -> (r: [u8; 2])
    ensures
        r@ == seq![0x46u8, 0x00u8],
{
    let r = [0x46, 0x00];
    assert(r@ =~= seq![0x46u8, 0x00u8]);
    r
}

/// The lamp count of a LampArrayAttributes report: the little-endian `u16` in
/// bytes 1 and 2.
pub fn lamp_count(attr: &[u8; 23]) -> (r: u16)
    ensures
        r == attr[1] as nat + 256 * attr[2] as nat,
{
    attr[1] as u16 + 256 * attr[2] as u16
}

/// The minimum update interval in microseconds of a LampArrayAttributes
/// report: the little-endian `u32` in bytes 19 to 22.
pub fn min_update_interval_us(attr: &[u8; 23]) -> (r: u32)
    ensures
        r == attr[19] as nat + 256 * attr[20] as nat + 65536 * attr[21] as nat + 16777216
            * attr[22] as nat,
{
    attr[19] as u32 + 256 * attr[20] as u32 + 65536 * attr[21] as u32 + 16777216 * attr[22] as u32
}

/// The LampRangeUpdate report that paints lamps `0..=lamp_count - 1` with one
/// colour and intensity.
pub open spec fn range_update(lamp_count: u16, r: u8, g: u8, b: u8, i: u8) -> Seq<u8> {
    let last = lamp_count - 1;
    seq![0x45u8, 0x01u8, 0x00u8, 0x00u8, (last % 256) as u8, (last / 256) as u8, r, g, b, i]
}

/// A LampRangeUpdate report covers every lamp: its range starts at lamp 0
/// and its little-endian end index is the last lamp, `lamp_count - 1`.
pub proof fn lemma_range_covers_all_lamps(lamp_count: u16, r: u8, g: u8, b: u8, i: u8)
    requires
        lamp_count > 0,
    ensures
        range_update(lamp_count, r, g, b, i)[2] == 0,
        range_update(lamp_count, r, g, b, i)[3] == 0,
        range_update(lamp_count, r, g, b, i)[4] as nat + 256 * range_update(lamp_count, r, g, b, i)[5] as nat
            == lamp_count - 1,
{
    let last = lamp_count - 1;
    assert(last == 256 * (last / 256) + last % 256);
}

/// Build the LampRangeUpdate report for every lamp; `None` when the device
/// reports no lamps.
pub fn range_update_report(lamp_count: u16, r: u8, g: u8, b: u8, intensity: u8) -> (out: Option<
    [u8; 10],
>)
    ensures
        out is None <==> lamp_count == 0,
        out matches Some(a) ==> a@ == range_update(lamp_count, r, g, b, intensity),
{
    if lamp_count == 0 {
        return None;
    }
    let last = lamp_count - 1;
    assert(last & 0xff == last % 256) by (bit_vector);
    assert((last >> 8) & 0xff == last / 256) by (bit_vector);
    let a = [
        0x45,
        0x01,
        0x00,
        0x00,
        (last & 0xff) as u8,
        ((last >> 8) & 0xff) as u8,
        r,
        g,
        b,
        intensity,
    ];
    assert(a@ =~= range_update(lamp_count, r, g, b, intensity));
    Some(a)
}


/// The report that paints every lamp of the array described by the
/// LampArrayAttributes report `attr`; an array without lamps cannot be
/// painted.
pub fn lamp_range_report(attr: &[u8; 23], r: u8, g: u8, b: u8, intensity: u8) -> (out: Result<
    [u8; 10],
    RogError,
>)
    ensures
        out is Ok <==> attr[1] as nat + 256 * attr[2] as nat > 0,
        out matches Ok(a) ==> a@ == range_update(
            (attr[1] as nat + 256 * attr[2] as nat) as u16,
            r,
            g,
            b,
            intensity,
        ),
        out matches Err(e) ==> (e matches RogError::MissingFunction(m) && m@
            == "LampArray reports zero lamps"@),
{
    let count = lamp_count(attr);
    match range_update_report(count, r, g, b, intensity) {
        Some(a) => Ok(a),
        None => Err(missing_function("LampArray reports zero lamps")),
    }
}

/// Static effects are one push of a colour; every other mode is animated by
/// a task that pushes frames.
pub fn is_single_push(mode: AuraModeNum) -> (r: bool)
    ensures
        r == (mode == AuraModeNum::Static),
{
    match mode {
        AuraModeNum::Static => true,
        _ => false,
    }
}

/// The intensity of the power state: full when any zone is on, else off.
pub fn power_intensity(any_on: bool) -> (r: u8)
    ensures
        r == if any_on {
            255u8
        } else {
            0u8
        },
{
    if any_on {
        255
    } else {
        0
    }
}

/// The shortest interval between frames, in milliseconds: about 30 frames a
/// second, never faster than the device's minimum update interval (given in
/// microseconds, rounded up to whole milliseconds).
pub open spec fn frame_interval_ms(min_update_interval_us: u32) -> nat {
    let min_ms = (min_update_interval_us as nat + 999) / 1000;
    if min_ms > 33 {
        min_ms
    } else {
        33
    }
}

/// The number of frames in one cycle of an animation: the period over the
/// frame interval, at least one.
pub open spec fn frames_per_cycle(s: Speed, min_update_interval_us: u32) -> nat {
    let n = period_ms(s) as nat / frame_interval_ms(min_update_interval_us);
    if n > 1 {
        n
    } else {
        1
    }
}

/// The frame interval in milliseconds and the frames per cycle of an
/// animation at speed `s` on a device with the given minimum update interval.
pub fn effect_timing(s: Speed, min_update_interval_us: u32) -> (r: (u64, u32))
    ensures
        r.0 == frame_interval_ms(min_update_interval_us),
        r.1 == frames_per_cycle(s, min_update_interval_us),
        r.0 >= 33,
        r.1 >= 1,
{
    let min_ms: u64 = (min_update_interval_us as u64 + 999) / 1000;
    let frame_ms: u64 = if min_ms > 33 {
        min_ms
    } else {
        33
    };
    let period = speed_to_period_ms(s) as u64;
    let n: u64 = period / frame_ms;
    assert(n <= period);
    let frames: u32 = if n > 1 {
        n as u32
    } else {
        1
    };
    (frame_ms, frames)
}

/// The position of frame `frame` within a cycle of `frames` frames.
pub fn cycle_position(frame: u32, frames: u32) -> (r: u32)
    requires
        frames > 0,
    ensures
        r == frame % frames,
        r < frames,
{
    frame % frames
}

/// A raw brightness level names its step (0 Off, 1 Low, 2 Med, 3 and above
/// High), each step's own level reads back as that step, and the lamp
/// intensity grows with the step: Off 0, Low 64, Med 128, High 255. A cycle
/// lasts 4 s at Low speed, 2 s at Med and 0.8 s at High.
pub proof fn lemma_lamp_levels(v: u8, b: LedBrightness)
    ensures
        v == 0 ==> level_step(v) == LedBrightness::Off,
        v == 1 ==> level_step(v) == LedBrightness::Low,
        v == 2 ==> level_step(v) == LedBrightness::Med,
        v >= 3 ==> level_step(v) == LedBrightness::High,
        level_step(crate::builtin_modes::brightness_level(b)) == b,
        intensity_of(LedBrightness::Off) == 0 && intensity_of(LedBrightness::Low) == 64
            && intensity_of(LedBrightness::Med) == 128 && intensity_of(LedBrightness::High) == 255,
        period_ms(Speed::Low) == 4000 && period_ms(Speed::Med) == 2000 && period_ms(Speed::High)
            == 800,
{
    crate::builtin_modes::lemma_brightness_levels(0);
}

} // verus!
