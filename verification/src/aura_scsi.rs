//! Decisions of the SCSI Aura controller: the attribute writes that put an
//! effect on the kernel's Dynamic Lighting node of an external disk.

use vstd::prelude::*;

use crate::error::PlatformError;

verus! {

/// The effects of an external SCSI Aura device that the kernel node can
/// show; every other effect of the device is `Unsupported`.
#[derive(Debug, Clone, Copy, PartialEq, Eq, Structural)]
pub enum ScsiEffectKind {
    Off,
    Static,
    Breathe,
    Flashing,
    RainbowCycle,
    RainbowWave,
    Unsupported,
}

/// The direction of a SCSI rainbow wave.
#[derive(Debug, Clone, Copy, PartialEq, Eq, Structural)]
pub enum ScsiDirection {
    Forward,
    Reverse,
}

/// One attribute write of a SCSI effect, in the order they are made.
#[derive(Debug, Clone, Copy, PartialEq, Eq, Structural)]
pub enum ScsiWrite {
    /// `effects_palette`: the effect's four colours.
    Palette,
    /// `speed`: the effect's speed.
    Speed,
    /// `direction`.
    Direction(ScsiDirection),
    /// `effect`: the kernel name of the effect.
    Effect(ScsiEffectKind),
}

/// The kernel name of an effect.
pub open spec fn scsi_effect_name(k: ScsiEffectKind) -> Option<Seq<char>> {
    match k {
        ScsiEffectKind::Off => Some("off"@),
        ScsiEffectKind::Static => Some("static"@),
        ScsiEffectKind::Breathe => Some("breathing"@),
        ScsiEffectKind::Flashing => Some("strobe"@),
        ScsiEffectKind::RainbowCycle => Some("spectrum_cycle"@),
        ScsiEffectKind::RainbowWave => Some("rainbow"@),
        ScsiEffectKind::Unsupported => None,
    }
}

/// The kernel name of an effect, where the node can show it.
pub fn effect_name(k: ScsiEffectKind) -> (r: Option<&'static str>)
    ensures
        r is Some <==> scsi_effect_name(k) is Some,
        r matches Some(n) ==> n@ == scsi_effect_name(k)->0,
{
    match k {
        ScsiEffectKind::Off => Some("off"),
        ScsiEffectKind::Static => Some("static"),
        ScsiEffectKind::Breathe => Some("breathing"),
        ScsiEffectKind::Flashing => Some("strobe"),
        ScsiEffectKind::RainbowCycle => Some("spectrum_cycle"),
        ScsiEffectKind::RainbowWave => Some("rainbow"),
        ScsiEffectKind::Unsupported => None,
    }
}

/// The kernel name of a wave direction.
pub fn direction_name(d: ScsiDirection) -> (r: &'static str)
    ensures
        r@ == match d {
            ScsiDirection::Forward => "right"@,
            ScsiDirection::Reverse => "left"@,
        },
{
    match d {
        ScsiDirection::Forward => "right",
        ScsiDirection::Reverse => "left",
    }
}

/// `w` where the node has the attribute, else nothing.
pub open spec fn when(has: bool, w: ScsiWrite) -> Seq<ScsiWrite> {
    if has {
        seq![w]
    } else {
        seq![]
    }
}

/// The writes that show effect `k` on a node with the given attributes:
/// colour effects write the palette first, animated ones the speed, the wave
/// its direction, and every one ends with the effect's name. The node shows
/// no other effect.
pub open spec fn scsi_writes(
    k: ScsiEffectKind,
    d: ScsiDirection,
    has_palette: bool,
    has_speed: bool,
    has_direction: bool,
) -> Option<Seq<ScsiWrite>> {
    match k {
        ScsiEffectKind::Off => Some(seq![ScsiWrite::Effect(k)]),
        ScsiEffectKind::Static => Some(when(has_palette, ScsiWrite::Palette) + seq![ScsiWrite::Effect(k)]),
        ScsiEffectKind::Breathe | ScsiEffectKind::Flashing => Some(
            when(has_palette, ScsiWrite::Palette) + when(has_speed, ScsiWrite::Speed) + seq![
                ScsiWrite::Effect(k),
            ],
        ),
        ScsiEffectKind::RainbowCycle => Some(when(has_speed, ScsiWrite::Speed) + seq![ScsiWrite::Effect(k)]),
        ScsiEffectKind::RainbowWave => Some(
            when(has_speed, ScsiWrite::Speed) + when(has_direction, ScsiWrite::Direction(d)) + seq![
                ScsiWrite::Effect(k),
            ],
        ),
        ScsiEffectKind::Unsupported => None,
    }
}

/// The attribute writes that put effect `k` on the kernel node, or
/// `NotSupported` for an effect the node cannot show.
pub fn kernel_effect_writes(
    k: ScsiEffectKind,
    d: ScsiDirection,
    has_palette: bool,
    has_speed: bool,
    has_direction: bool,
) -> (r: Result<Vec<ScsiWrite>, PlatformError>)
    ensures
        r is Ok <==> scsi_writes(k, d, has_palette, has_speed, has_direction) is Some,
        r matches Ok(ws) ==> scsi_writes(k, d, has_palette, has_speed, has_direction) == Some(ws@),
        r matches Err(e) ==> e is NotSupported,
{
    let mut ws: Vec<ScsiWrite> = Vec::new();
    match k {
        ScsiEffectKind::Unsupported => {
            return Err(PlatformError::NotSupported);
        },
        ScsiEffectKind::Off => {},
        ScsiEffectKind::Static => {
            if has_palette {
                ws.push(ScsiWrite::Palette);
            }
        },
        ScsiEffectKind::Breathe | ScsiEffectKind::Flashing => {
            if has_palette {
                ws.push(ScsiWrite::Palette);
            }
            if has_speed {
                ws.push(ScsiWrite::Speed);
            }
        },
        ScsiEffectKind::RainbowCycle => {
            if has_speed {
                ws.push(ScsiWrite::Speed);
            }
        },
        ScsiEffectKind::RainbowWave => {
            if has_speed {
                ws.push(ScsiWrite::Speed);
            }
            if has_direction {
                ws.push(ScsiWrite::Direction(d));
            }
        },
    }
    ws.push(ScsiWrite::Effect(k));
    assert(ws@ =~= scsi_writes(k, d, has_palette, has_speed, has_direction)->0);
    Ok(ws)
}

/// The palette of a SCSI effect: its four colours in order.
pub fn effect_palette(
    c1: (u8, u8, u8),
    c2: (u8, u8, u8),
    c3: (u8, u8, u8),
    c4: (u8, u8, u8),
) -> (r: Vec<(u8, u8, u8)>)
    ensures
        r@ == seq![c1, c2, c3, c4],
{
    let mut r: Vec<(u8, u8, u8)> = Vec::new();
    r.push(c1);
    r.push(c2);
    r.push(c3);
    r.push(c4);
    assert(r@ =~= seq![c1, c2, c3, c4]);
    r
}

} // verus!
