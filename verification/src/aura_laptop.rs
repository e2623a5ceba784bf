//! Decisions of the laptop Aura keyboard controller: which Dynamic Lighting
//! zones exist, which power states a node accepts, when a node is inactive,
//! and how per-key packets become a direct RGB frame.

use vstd::prelude::*;

use crate::builtin_modes::{
    dynamic_palette, effect_packet, mode_dynamic_name, mode_index, speed_code, speed_index,
    AuraEffect, AuraModeNum, AuraZone, Direction, LedBrightness, AURA_LAPTOP_LED_MSG_LEN,
};
use crate::dynamic_led::{
    first_bracketed, first_match_at, node_matches, parse_active_index, DynamicLed, LedNode,
};
use crate::error::{IoErrorKind, IoFailure, PlatformError, RogError};
use crate::text::{contains_str, join_words, joined, owned, split_whitespace, words};

verus! {

/// Zones that Dynamic Lighting can drive: the whole device, the four keyboard
/// zones (as the whole keyboard node) and the two lightbar halves (as the
/// lightbar node). The logo and other legacy subzones cannot.
pub open spec fn dynamic_zone(zone: AuraZone) -> bool {
    match zone {
        AuraZone::Logo => false,
        _ => true,
    }
}

pub fn supports_dynamic_zone(zone: AuraZone) -> (r: bool)
    ensures
        r == dynamic_zone(zone),
{
    match zone {
        AuraZone::NoZone | AuraZone::Key1 | AuraZone::Key2 | AuraZone::Key3 | AuraZone::Key4
        | AuraZone::BarLeft | AuraZone::BarRight => true,
        _ => false,
    }
}

/// The I/O failure inside an error, where it carries one.
pub open spec fn io_failure_of(err: RogError) -> Option<IoFailure> {
    match err {
        RogError::Platform(PlatformError::IoPath(_, e)) => Some(e),
        RogError::Platform(PlatformError::Io(e)) => Some(e),
        RogError::Write(_, e) => Some(e),
        RogError::Path(_, e) => Some(e),
        RogError::Io(e) => Some(e),
        _ => None,
    }
}

/// The kernel returns `-EBUSY` when writing a Dynamic Lighting node that is
/// inactive for the current `aura_mode` (`unified` vs `split`).
pub fn is_dl_node_inactive(err: &RogError) -> (r: bool)
    ensures
        r == (io_failure_of(*err) matches Some(e) && e.kind == IoErrorKind::ResourceBusy),
{
    let io = match err {
        RogError::Platform(PlatformError::IoPath(_, e)) => Some(e),
        RogError::Platform(PlatformError::Io(e)) => Some(e),
        RogError::Write(_, e) | RogError::Path(_, e) | RogError::Io(e) => Some(e),
        _ => None,
    };
    match io {
        Some(e) => e.kind == IoErrorKind::ResourceBusy,
        None => false,
    }
}

/// The requested states that `supported` lists, in the requested order.
pub open spec fn supported_states(requested: Seq<Seq<char>>, supported: Seq<Seq<char>>) -> Seq<
    Seq<char>,
>
    decreases requested.len(),
{
    if requested.len() == 0 {
        seq![]
    } else {
        let rest = supported_states(requested.drop_last(), supported);
        if supported.contains(requested.last()) {
            rest.push(requested.last())
        } else {
            rest
        }
    }
}

/// Keep the requested power states that the node's `power_states_index`
/// advertises.
pub fn filter_power_states<'a>(requested: &[&'a str], supported: &str) -> (r: Vec<&'a str>)
    ensures
        r.deep_view() == supported_states(requested.deep_view(), words(supported@)),
{
    let list = split_whitespace(supported);
    let mut out: Vec<&'a str> = Vec::new();
    let mut i: usize = 0;
    let ghost rq = requested.deep_view();
    while i < requested.len()
        invariant
            0 <= i <= requested@.len(),
            rq == requested.deep_view(),
            list.deep_view() == words(supported@),
            out.deep_view() == supported_states(rq.take(i as int), words(supported@)),
        decreases requested.len() - i,
    {
        assert(rq.take(i + 1).drop_last() =~= rq.take(i as int));
        assert(rq.take(i + 1).last() == requested@[i as int]@);
        let ghost before = out.deep_view();
        if contains_str(list.as_slice(), requested[i]) {
            out.push(requested[i]);
            assert(out.deep_view() =~= before.push(requested@[i as int]@));
        }
        i = i + 1;
    }
    assert(rq.take(rq.len() as int) =~= rq);
    out
}

/// Power states are the intersection of the request with the node's
/// capabilities: every state kept was requested and is supported, every
/// requested state that is supported is kept, and the request's order stays.
pub proof fn lemma_power_states_intersect(requested: Seq<Seq<char>>, supported: Seq<Seq<char>>)
    ensures
        forall|k: int|
            0 <= k < supported_states(requested, supported).len() ==> requested.contains(
                #[trigger] supported_states(requested, supported)[k],
            ) && supported.contains(supported_states(requested, supported)[k]),
        forall|k: int|
            0 <= k < requested.len() && supported.contains(#[trigger] requested[k])
                ==> supported_states(requested, supported).contains(requested[k]),
        supported_states(requested, supported).len() <= requested.len(),
    decreases requested.len(),
{
    if requested.len() > 0 {
        let init = requested.drop_last();
        lemma_power_states_intersect(init, supported);
        let rest = supported_states(init, supported);
        let kept = supported_states(requested, supported);
        assert forall|k: int| 0 <= k < kept.len() implies requested.contains(#[trigger] kept[k])
            && supported.contains(kept[k]) by {
            if k < rest.len() {
                assert(kept[k] == rest[k]);
                let j = choose|j: int| 0 <= j < init.len() && init[j] == rest[k];
                assert(requested[j] == init[j]);
            } else {
                assert(kept[k] == requested.last());
                assert(requested[requested.len() - 1] == requested.last());
            }
        }
        assert forall|k: int| 0 <= k < requested.len() && supported.contains(#[trigger] requested[k])
            implies kept.contains(requested[k]) by {
            if k < requested.len() - 1 {
                assert(init[k] == requested[k]);
                assert(rest.contains(init[k]));
                let j = choose|j: int| 0 <= j < rest.len() && rest[j] == init[k];
                assert(kept[j] == rest[j]);
            } else {
                assert(kept[kept.len() - 1] == requested.last());
            }
        }
    }
}

/// The RGB bytes that one per-key packet carries: a packet of type `0xbc`
/// holds, from byte 9, three bytes for each of the `packet[7]` LEDs it
/// addresses.
pub open spec fn packet_rgb(p: Seq<u8>) -> Option<Seq<u8>> {
    if p.len() > 7 && p[1] == 0xbc && 9 + 3 * p[7] <= p.len() {
        Some(p.subrange(9, 9 + 3 * p[7]))
    } else {
        None
    }
}

/// The RGB bytes of all the packets, in order, if every one is a well-formed
/// per-key packet.
pub open spec fn packets_rgb(ps: Seq<Seq<u8>>) -> Option<Seq<u8>>
    decreases ps.len(),
{
    if ps.len() == 0 {
        Some(seq![])
    } else {
        match (packets_rgb(ps.drop_last()), packet_rgb(ps.last())) {
            (Some(a), Some(b)) => Some(a + b),
            _ => None,
        }
    }
}

/// The direct frame for a node of `led_count` LEDs from per-key packets: a
/// single packet on a 4-LED device is a zone packet whose bytes 9 to 20 are the
/// four zone colours; otherwise every packet must be a per-key packet. The
/// frame must have exactly three bytes per LED.
pub open spec fn direct_payload(packets: Seq<Seq<u8>>, led_count: nat) -> Option<Seq<u8>> {
    if led_count * 3 > usize::MAX || packets.len() == 0 {
        None
    } else {
        let rgb = if packets.len() == 1 && led_count == 4 {
            if packets[0].len() >= 21 {
                Some(packets[0].subrange(9, 21))
            } else {
                None
            }
        } else {
            packets_rgb(packets)
        };
        match rgb {
            Some(v) => if v.len() == led_count * 3 {
                Some(v)
            } else {
                None
            },
            None => None,
        }
    }
}

/// Append `src[from..to]` to `dst`.
fn extend_from_range(dst: &mut Vec<u8>, src: &Vec<u8>, from: usize, to: usize)
    requires
        from <= to <= src@.len(),
    ensures
        final(dst)@ == old(dst)@ + src@.subrange(from as int, to as int),
{
    let ghost start = dst@;
    let mut k: usize = from;
    while k < to
        invariant
            from <= k <= to <= src@.len(),
            dst@ == start + src@.subrange(from as int, k as int),
        decreases to - k,
    {
        dst.push(src[k]);
        assert(src@.subrange(from as int, k + 1) =~= src@.subrange(from as int, k as int).push(
            src@[k as int],
        ));
        assert(start + src@.subrange(from as int, k + 1) =~= (start + src@.subrange(
            from as int,
            k as int,
        )).push(src@[k as int]));
        k = k + 1;
    }
}

/// Turn per-key or zone packets into one direct RGB frame for a Dynamic
/// Lighting node with `led_count` LEDs.
pub fn direct_rgb_payload(packets: &[Vec<u8>], led_count: usize) -> (r: Result<Vec<u8>, PlatformError>)
    ensures
        r is Ok <==> direct_payload(packets.deep_view(), led_count as nat) is Some,
        r matches Ok(v) ==> direct_payload(packets.deep_view(), led_count as nat) == Some(v@),
        r matches Err(e) ==> e is InvalidValue,
{
    let ghost ps = packets.deep_view();
    let expected = match led_count.checked_mul(3) {
        Some(v) => v,
        None => return Err(PlatformError::InvalidValue),
    };
    if packets.len() == 0 {
        return Err(PlatformError::InvalidValue);
    }
    let first = &packets[0];
    assert(ps[0] == first@);
    let mut rgb: Vec<u8> = Vec::new();
    if packets.len() == 1 && led_count == 4 {
        if first.len() < 21 {
            return Err(PlatformError::InvalidValue);
        }
        extend_from_range(&mut rgb, first, 9, 21);
        assert(rgb@ =~= first@.subrange(9, 21));
    } else {
        let mut i: usize = 0;
        while i < packets.len()
            invariant
                0 <= i <= packets@.len(),
                ps == packets.deep_view(),
                ps.len() == packets@.len(),
                packets@.len() > 0,
                expected == led_count * 3,
                !(packets@.len() == 1 && led_count == 4),
                packets_rgb(ps.take(i as int)) == Some(rgb@),
            decreases packets.len() - i,
        {
            let packet = &packets[i];
            assert(ps[i as int] == packet@);
            assert(ps.take(i + 1).drop_last() =~= ps.take(i as int));
            assert(ps.take(i + 1).last() == packet@);
            if packet.len() < 2 || packet[1] != 0xbc {
                proof {
                    lemma_packets_rgb_none(ps, i as int);
                }
                return Err(PlatformError::InvalidValue);
            }
            if packet.len() <= 7 {
                proof {
                    lemma_packets_rgb_none(ps, i as int);
                }
                return Err(PlatformError::InvalidValue);
            }
            let count = packet[7] as usize;
            let end = 9 + count * 3;
            if end > packet.len() {
                proof {
                    lemma_packets_rgb_none(ps, i as int);
                }
                return Err(PlatformError::InvalidValue);
            }
            let ghost before = rgb@;
            extend_from_range(&mut rgb, packet, 9, end);
            i = i + 1;
        }
        assert(ps.take(packets@.len() as int) =~= ps);
    }
    if rgb.len() != expected {
        return Err(PlatformError::InvalidValue);
    }
    Ok(rgb)
}

/// Once one packet is malformed, the packets up to and including it, and so
/// all the packets, carry no frame.
proof fn lemma_packets_rgb_none(ps: Seq<Seq<u8>>, i: int)
    requires
        0 <= i < ps.len(),
        packet_rgb(ps[i]) is None,
    ensures
        packets_rgb(ps) is None,
    decreases ps.len() - i,
{
    if i == ps.len() - 1 {
    } else {
        assert(ps.drop_last()[i] == ps[i]);
        lemma_packets_rgb_none(ps.drop_last(), i);
    }
}


/// A `MissingFunction` error carrying `msg`.
pub fn missing_function(msg: &str) -> (r: RogError)
    ensures
        r matches RogError::MissingFunction(m) && m@ == msg@,
{
    RogError::MissingFunction(owned(msg))
}

/// The Dynamic Lighting nodes a laptop Aura controller can hold.
#[derive(Debug, Clone, Copy, PartialEq, Eq, Structural)]
pub enum DlNode {
    /// `aura:global`, the whole device under the `unified` topology.
    Global,
    /// `aura:keyboard` (or `asus::kbd_backlight`).
    Keyboard,
    /// `aura:lightbar`.
    Lightbar,
}

/// Which Dynamic Lighting nodes the controller found.
#[derive(Debug, Clone, Copy, PartialEq, Eq, Structural)]
pub struct DlNodes {
    pub global: bool,
    pub keyboard: bool,
    pub lightbar: bool,
}

impl DlNodes {
    /// Dynamic Lighting drives the device when it has a keyboard or a global
    /// node.
    pub open spec fn dynamic(self) -> bool {
        self.keyboard || self.global
    }

    /// Whether node `n` was found.
    pub open spec fn holds(self, n: DlNode) -> bool {
        match n {
            DlNode::Global => self.global,
            DlNode::Keyboard => self.keyboard,
            DlNode::Lightbar => self.lightbar,
        }
    }

    pub fn has_dynamic_lighting(&self) -> (r: bool)
        ensures
            r == self.dynamic(),
    {
        self.keyboard || self.global
    }
}

/// One step of writing an effect through Dynamic Lighting.
#[derive(Debug, Clone, Copy, PartialEq, Eq, Structural)]
pub enum DlStep {
    /// Switch the ASUS topology to `split`; an error ends the write.
    Split,
    /// Switch the ASUS topology to `unified` if the global node reports `auto`.
    UnifyIfAuto,
    /// Apply the effect to a node.
    Apply(DlNode),
    /// End with success if a node applied since the previous such step took
    /// the effect.
    SucceedIfApplied,
}

/// The steps that write an effect for `zone`: the lightbar halves go to the
/// lightbar node under `split`; the whole device goes to the global node
/// (unified from `auto`), failing that to keyboard and lightbar together; the
/// keyboard zones go to the keyboard node, under `split` where a lightbar
/// exists.
pub open spec fn dl_route(zone: AuraZone, n: DlNodes) -> Seq<DlStep> {
    match zone {
        AuraZone::BarLeft | AuraZone::BarRight => seq![DlStep::Split] + if n.lightbar {
            seq![DlStep::Apply(DlNode::Lightbar), DlStep::SucceedIfApplied]
        } else {
            seq![]
        },
        AuraZone::NoZone => (if n.global {
            seq![DlStep::UnifyIfAuto, DlStep::Apply(DlNode::Global), DlStep::SucceedIfApplied]
        } else {
            seq![]
        }) + if n.keyboard {
            seq![DlStep::Apply(DlNode::Keyboard)] + (if n.lightbar {
                seq![DlStep::Apply(DlNode::Lightbar)]
            } else {
                seq![]
            }) + seq![DlStep::SucceedIfApplied]
        } else {
            seq![]
        },
        _ => (if n.lightbar {
            seq![DlStep::Split]
        } else {
            seq![]
        }) + if n.keyboard {
            seq![DlStep::Apply(DlNode::Keyboard), DlStep::SucceedIfApplied]
        } else {
            seq![]
        },
    }
}

/// The Dynamic Lighting steps for an effect in `zone`.
pub fn dl_route_steps(zone: AuraZone, n: DlNodes) -> (r: Vec<DlStep>)
    ensures
        r@ == dl_route(zone, n),
{
    let mut r: Vec<DlStep> = Vec::new();
    match zone {
        AuraZone::BarLeft | AuraZone::BarRight => {
            r.push(DlStep::Split);
            if n.lightbar {
                r.push(DlStep::Apply(DlNode::Lightbar));
                r.push(DlStep::SucceedIfApplied);
            }
        },
        AuraZone::NoZone => {
            if n.global {
                r.push(DlStep::UnifyIfAuto);
                r.push(DlStep::Apply(DlNode::Global));
                r.push(DlStep::SucceedIfApplied);
            }
            if n.keyboard {
                r.push(DlStep::Apply(DlNode::Keyboard));
                if n.lightbar {
                    r.push(DlStep::Apply(DlNode::Lightbar));
                }
                r.push(DlStep::SucceedIfApplied);
            }
        },
        _ => {
            if n.lightbar {
                r.push(DlStep::Split);
            }
            if n.keyboard {
                r.push(DlStep::Apply(DlNode::Keyboard));
                r.push(DlStep::SucceedIfApplied);
            }
        },
    }
    assert(r@ =~= dl_route(zone, n));
    r
}

/// Dynamic Lighting writes an effect only to nodes that exist, and the
/// topology is switched to `split` only for the lightbar halves or where a
/// lightbar node exists.
pub proof fn lemma_route_uses_present_nodes(zone: AuraZone, n: DlNodes)
    ensures
        forall|k: int|
            0 <= k < dl_route(zone, n).len() ==> (#[trigger] dl_route(zone, n)[k] matches DlStep::Apply(
                d,
            ) ==> n.holds(d)),
        forall|k: int|
            0 <= k < dl_route(zone, n).len() ==> (#[trigger] dl_route(zone, n)[k] == DlStep::Split
                ==> (n.lightbar || zone == AuraZone::BarLeft || zone == AuraZone::BarRight)),
        forall|k: int|
            0 <= k < dl_route(zone, n).len() ==> (#[trigger] dl_route(zone, n)[k] == DlStep::UnifyIfAuto
                ==> (n.global && zone == AuraZone::NoZone)),
{
}

/// Whether writing an effect by `steps` ends in success, where `accepted[k]`
/// tells whether the node of step `k` took the effect (it matters for
/// `Apply` steps only) and `any` whether a node took it since the last
/// `SucceedIfApplied`. Topology steps that fail end the write with their
/// error before this point; when no `SucceedIfApplied` succeeds, the write
/// fails with [`dl_unsupported`].
pub open spec fn route_succeeds(steps: Seq<DlStep>, accepted: Seq<bool>, any: bool) -> bool
    decreases steps.len(),
{
    if steps.len() == 0 {
        false
    } else {
        match steps[0] {
            DlStep::Apply(_) => route_succeeds(
                steps.drop_first(),
                accepted.drop_first(),
                any || accepted[0],
            ),
            DlStep::SucceedIfApplied => if any {
                true
            } else {
                route_succeeds(steps.drop_first(), accepted.drop_first(), false)
            },
            _ => route_succeeds(steps.drop_first(), accepted.drop_first(), any),
        }
    }
}

/// The collected flag after an `Apply` step whose node did (`accepted`) or
/// did not take the effect.
pub fn dl_apply_step(any: bool, accepted: bool) -> (r: bool)
    ensures
        r == (any || accepted),
{
    any || accepted
}

/// At a `SucceedIfApplied` step: whether the write ends here with success.
pub fn dl_stage_succeeds(any: bool) -> (r: bool)
    ensures
        r == any,
{
    any
}

/// The result of a Dynamic Lighting write whose steps all ran: success only
/// if a node took the effect since the last `SucceedIfApplied`, otherwise
/// the kernel does not support the mode or zone.
pub fn dl_finish(any: bool) -> (r: Result<(), RogError>)
    ensures
        r is Ok <==> any,
        !any ==> (r matches Err(RogError::MissingFunction(m)) && m@
            == "Dynamic lighting mode or zone not supported by kernel"@),
{
    if any {
        Ok(())
    } else {
        Err(dl_unsupported())
    }
}

/// A Dynamic Lighting write succeeds only if some node took the effect: a
/// run of the steps that ends in success passed an `Apply` step whose node
/// accepted.
pub proof fn lemma_success_needs_accepting_node(steps: Seq<DlStep>, accepted: Seq<bool>, any: bool)
    requires
        route_succeeds(steps, accepted, any),
        accepted.len() == steps.len(),
    ensures
        any || exists|k: int|
            0 <= k < steps.len() && #[trigger] steps[k] is Apply && accepted[k],
    decreases steps.len(),
{
    if steps.len() > 0 {
        let rest = steps.drop_first();
        let acc = accepted.drop_first();
        match steps[0] {
            DlStep::Apply(_) => {
                lemma_success_needs_accepting_node(rest, acc, any || accepted[0]);
                if !any && !accepted[0] {
                    let k = choose|k: int| 0 <= k < rest.len() && #[trigger] rest[k] is Apply && acc[k];
                    assert(steps[k + 1] == rest[k]);
                    assert(accepted[k + 1] == acc[k]);
                }
            },
            DlStep::SucceedIfApplied => {
                if !any {
                    lemma_success_needs_accepting_node(rest, acc, false);
                    let k = choose|k: int| 0 <= k < rest.len() && #[trigger] rest[k] is Apply && acc[k];
                    assert(steps[k + 1] == rest[k]);
                    assert(accepted[k + 1] == acc[k]);
                }
            },
            _ => {
                lemma_success_needs_accepting_node(rest, acc, any);
                if !any {
                    let k = choose|k: int| 0 <= k < rest.len() && #[trigger] rest[k] is Apply && acc[k];
                    assert(steps[k + 1] == rest[k]);
                    assert(accepted[k + 1] == acc[k]);
                }
            },
        }
    }
}

/// On every route, a node that takes the effect makes the write succeed:
/// each `Apply` step is followed by a `SucceedIfApplied` step.
pub proof fn lemma_accepting_node_succeeds(zone: AuraZone, n: DlNodes, accepted: Seq<bool>)
    requires
        accepted.len() == dl_route(zone, n).len(),
        exists|k: int|
            0 <= k < dl_route(zone, n).len() && #[trigger] dl_route(zone, n)[k] is Apply && accepted[k],
    ensures
        route_succeeds(dl_route(zone, n), accepted, false),
{
    let steps = dl_route(zone, n);
    let k = choose|k: int| 0 <= k < steps.len() && #[trigger] steps[k] is Apply && accepted[k];
    reveal_with_fuel(route_succeeds, 7);
    assert(steps.len() <= 6);
    if steps.len() >= 1 {
        assert(steps.drop_first().len() == steps.len() - 1);
    }
}

/// One attribute write that applies an effect to a node.
#[derive(Debug, Clone, Copy, PartialEq, Eq, Structural)]
pub enum DlWrite {
    /// `speed`, checked against `speed_range` where the node has one.
    Speed(u32),
    /// `direction`, checked against `direction_index` where the node has one.
    Direction(Direction),
    /// `effects_palette`, the effect's palette.
    Palette,
    /// `effect`, the kernel name of the mode.
    Effect(AuraModeNum),
}

/// The writes that apply `e` to a node that supports its effect, in order:
/// speed, direction and palette where the node has them, then the effect.
pub open spec fn dl_writes(e: AuraEffect, has_speed: bool, has_direction: bool, has_palette: bool) -> Seq<
    DlWrite,
> {
    (if has_speed {
        seq![DlWrite::Speed(speed_index(e.speed) as u32)]
    } else {
        seq![]
    }) + (if has_direction {
        seq![DlWrite::Direction(e.direction)]
    } else {
        seq![]
    }) + (if has_palette && dynamic_palette(e).len() > 0 {
        seq![DlWrite::Palette]
    } else {
        seq![]
    }) + seq![DlWrite::Effect(e.mode)]
}

/// The attribute writes that apply `e` to a node with the given attributes.
pub fn dl_effect_writes(e: &AuraEffect, has_speed: bool, has_direction: bool, has_palette: bool) -> (r:
    Vec<DlWrite>)
    ensures
        r@ == dl_writes(*e, has_speed, has_direction, has_palette),
{
    let mut r: Vec<DlWrite> = Vec::new();
    if has_speed {
        r.push(DlWrite::Speed(e.speed.to_dynamic_speed()));
    }
    if has_direction {
        r.push(DlWrite::Direction(e.direction));
    }
    let palette = e.to_dynamic_palette();
    if has_palette && palette.len() > 0 {
        r.push(DlWrite::Palette);
    }
    r.push(DlWrite::Effect(e.mode));
    assert(r@ =~= dl_writes(*e, has_speed, has_direction, has_palette));
    r
}

/// What the outcome of one write means for the node being written.
#[derive(Debug)]
pub enum DlOutcome {
    /// Go on with the next write.
    Continue,
    /// The node is inactive under the current topology: it did not take the
    /// effect, and the write goes on with other nodes.
    Inactive,
    /// The write fails with this error.
    Abort(RogError),
}

/// Classify the outcome of a write to a Dynamic Lighting node.
pub fn dl_write_outcome(outcome: Result<(), RogError>) -> (r: DlOutcome)
    ensures
        outcome is Ok ==> r is Continue,
        outcome matches Err(e) ==> if io_failure_of(e) matches Some(f) && f.kind
            == IoErrorKind::ResourceBusy {
            r is Inactive
        } else {
            r == DlOutcome::Abort(e)
        },
{
    match outcome {
        Ok(()) => DlOutcome::Continue,
        Err(e) => if is_dl_node_inactive(&e) {
            DlOutcome::Inactive
        } else {
            DlOutcome::Abort(e)
        },
    }
}

/// An ASUS Dynamic Lighting topology.
#[derive(Debug, Clone, Copy, PartialEq, Eq, Structural)]
pub enum Topology {
    Unified,
    Split,
}

/// The `aura_mode` spelling of a topology.
pub fn topology_name(t: Topology) -> (r: &'static str)
    ensures
        r@ == match t {
            Topology::Unified => "unified"@,
            Topology::Split => "split"@,
        },
{
    match t {
        Topology::Unified => "unified",
        Topology::Split => "split",
    }
}

/// The node that takes a topology change: the first present node (global,
/// keyboard, lightbar) that has the ASUS `aura_mode` selector.
pub open spec fn topology_target(
    n: DlNodes,
    global_mode: bool,
    keyboard_mode: bool,
    lightbar_mode: bool,
) -> Option<DlNode> {
    if n.global && global_mode {
        Some(DlNode::Global)
    } else if n.keyboard && keyboard_mode {
        Some(DlNode::Keyboard)
    } else if n.lightbar && lightbar_mode {
        Some(DlNode::Lightbar)
    } else {
        None
    }
}

/// The node whose `aura_mode` a topology change writes, given for each node
/// whether it has the selector; without one the change is unavailable.
pub fn topology_node(n: DlNodes, global_mode: bool, keyboard_mode: bool, lightbar_mode: bool) -> (r:
    Result<DlNode, RogError>)
    ensures
        r is Ok <==> topology_target(n, global_mode, keyboard_mode, lightbar_mode) is Some,
        r matches Ok(d) ==> topology_target(n, global_mode, keyboard_mode, lightbar_mode) == Some(d),
        r matches Err(e) ==> (e matches RogError::MissingFunction(m) && m@
            == "ASUS Dynamic Lighting topology control is unavailable"@),
{
    if n.global && global_mode {
        Ok(DlNode::Global)
    } else if n.keyboard && keyboard_mode {
        Ok(DlNode::Keyboard)
    } else if n.lightbar && lightbar_mode {
        Ok(DlNode::Lightbar)
    } else {
        Err(missing_function("ASUS Dynamic Lighting topology control is unavailable"))
    }
}

/// Whether the global node asks for a switch to `unified`: it has the ASUS
/// selector and its `aura_mode` reads `auto` as the active entry.
pub fn unify_if_auto(has_aura_mode: bool, aura_mode: Option<&str>) -> (r: bool)
    ensures
        r == (has_aura_mode && (aura_mode matches Some(t) && first_bracketed(words(t@)) == Some(
            "auto"@,
        ))),
{
    if !has_aura_mode {
        return false;
    }
    match aura_mode {
        Some(t) => match parse_active_index(t) {
            Ok(v) => crate::text::str_eq(v.as_str(), "auto"),
            Err(_) => false,
        },
        None => false,
    }
}

/// How an effect is written.
#[derive(Debug)]
pub enum EffectPlan {
    /// The effect cannot be written; the write fails with this error.
    Reject(RogError),
    /// Through Dynamic Lighting, by these steps; if none succeeds the write
    /// fails with [`dl_unsupported`].
    Dynamic(Vec<DlStep>),
    /// Through the TUF platform's `kbd_rgb_mode` with this buffer.
    Tuf([u8; 6]),
    /// Through hidraw: this effect packet, then the set and apply packets.
    Hid([u8; AURA_LAPTOP_LED_MSG_LEN]),
}

/// The TUF `kbd_rgb_mode` buffer of an effect: `1`, mode, colour, speed.
pub open spec fn tuf_mode_buffer(e: AuraEffect) -> Seq<u8> {
    seq![1u8, mode_index(e.mode), e.colour1.r, e.colour1.g, e.colour1.b, speed_code(e.speed)]
}

/// The error when Dynamic Lighting cannot write an effect.
pub fn dl_unsupported() -> (r: RogError)
    ensures
        r matches RogError::MissingFunction(m) && m@
            == "Dynamic lighting mode or zone not supported by kernel"@,
{
    missing_function("Dynamic lighting mode or zone not supported by kernel")
}

/// Decide how to write effect `e`: Dynamic Lighting when the device has it
/// (refusing legacy subzones and modes the kernel does not name), else the
/// TUF platform on TUF keyboards with a backlight control, else hidraw.
pub fn plan_effect(e: &AuraEffect, is_tuf: bool, n: DlNodes, has_backlight: bool, has_hid: bool) -> (r:
    EffectPlan)
    ensures
        n.dynamic() && !dynamic_zone(e.zone) ==> (r matches EffectPlan::Reject(
            RogError::MissingFunction(m),
        ) && m@
            == "Dynamic Lighting exposes keyboard/lightbar topology, not legacy Aura subzones"@),
        n.dynamic() && dynamic_zone(e.zone) && mode_dynamic_name(e.mode) is None ==> (r matches EffectPlan::Reject(
            RogError::MissingFunction(m),
        ) && m@ == "Dynamic lighting mode or zone not supported by kernel"@),
        n.dynamic() && dynamic_zone(e.zone) && mode_dynamic_name(e.mode) is Some ==> (r matches EffectPlan::Dynamic(
            steps,
        ) && steps@ == dl_route(e.zone, n)),
        !n.dynamic() && is_tuf && has_backlight ==> (r matches EffectPlan::Tuf(b) && b@
            == tuf_mode_buffer(*e)),
        !n.dynamic() && !(is_tuf && has_backlight) && has_hid ==> (r matches EffectPlan::Hid(p) && p@
            == effect_packet(*e)),
        !n.dynamic() && !(is_tuf && has_backlight) && !has_hid ==> (r matches EffectPlan::Reject(
            RogError::NoAuraKeyboard,
        )),
        n.dynamic() ==> (r is Reject || r is Dynamic),
{
    if n.has_dynamic_lighting() {
        if !supports_dynamic_zone(e.zone) {
            return EffectPlan::Reject(
                missing_function(
                    "Dynamic Lighting exposes keyboard/lightbar topology, not legacy Aura subzones",
                ),
            );
        }
        return match e.mode.to_dynamic_effect_str() {
            Some(_) => EffectPlan::Dynamic(dl_route_steps(e.zone, n)),
            None => EffectPlan::Reject(dl_unsupported()),
        };
    }
    if is_tuf && has_backlight {
        let b = [1u8, e.mode.index(), e.colour1.r, e.colour1.g, e.colour1.b, e.speed.code()];
        assert(b@ =~= tuf_mode_buffer(*e));
        EffectPlan::Tuf(b)
    } else if has_hid {
        EffectPlan::Hid(e.to_packet())
    } else {
        EffectPlan::Reject(RogError::NoAuraKeyboard)
    }
}

/// A 64-byte hidraw report holding `bytes` at its start, zero after them.
pub fn padded_report(bytes: &[u8]) -> (r: Vec<u8>)
    requires
        bytes@.len() <= 64,
    ensures
        r@.len() == 64,
        r@.subrange(0, bytes@.len() as int) == bytes@,
        forall|i: int| bytes@.len() <= i < 64 ==> r@[i] == 0,
{
    let mut r: Vec<u8> = Vec::new();
    let mut i: usize = 0;
    while i < 64
        invariant
            0 <= i <= 64,
            bytes@.len() <= 64,
            r@.len() == i,
            forall|k: int| 0 <= k < i ==> r@[k] == if k < bytes@.len() {
                bytes@[k]
            } else {
                0u8
            },
        decreases 64 - i,
    {
        if i < bytes.len() {
            r.push(bytes[i]);
        } else {
            r.push(0);
        }
        i = i + 1;
    }
    assert(r@.subrange(0, bytes@.len() as int) =~= bytes@);
    r
}


/// The nodes found, in the order the controller visits them: global,
/// keyboard, lightbar.
pub open spec fn present_nodes(n: DlNodes) -> Seq<DlNode> {
    (if n.global {
        seq![DlNode::Global]
    } else {
        seq![]
    }) + (if n.keyboard {
        seq![DlNode::Keyboard]
    } else {
        seq![]
    }) + if n.lightbar {
        seq![DlNode::Lightbar]
    } else {
        seq![]
    }
}

/// The nodes found, in visiting order.
pub fn present_node_list(n: DlNodes) -> (r: Vec<DlNode>)
    ensures
        r@ == present_nodes(n),
{
    let mut r: Vec<DlNode> = Vec::new();
    if n.global {
        r.push(DlNode::Global);
    }
    if n.keyboard {
        r.push(DlNode::Keyboard);
    }
    if n.lightbar {
        r.push(DlNode::Lightbar);
    }
    assert(r@ =~= present_nodes(n));
    r
}

/// Where the current brightness is read from.
#[derive(Debug, Clone, Copy, PartialEq, Eq, Structural)]
pub enum BrightnessSource {
    /// A Dynamic Lighting node, scaled back from its `max_brightness`.
    Node(DlNode),
    /// The legacy keyboard backlight, as a level 0 to 3.
    Backlight,
}

/// The source of the current brightness: the global node, else the keyboard
/// node, else the legacy backlight.
pub fn brightness_source(n: DlNodes, has_backlight: bool) -> (r: Result<BrightnessSource, RogError>)
    ensures
        n.global ==> r == Ok::<BrightnessSource, RogError>(BrightnessSource::Node(DlNode::Global)),
        !n.global && n.keyboard ==> r == Ok::<BrightnessSource, RogError>(
            BrightnessSource::Node(DlNode::Keyboard),
        ),
        !n.global && !n.keyboard && has_backlight ==> r == Ok::<BrightnessSource, RogError>(
            BrightnessSource::Backlight,
        ),
        !n.global && !n.keyboard && !has_backlight ==> (r matches Err(RogError::MissingFunction(m))
            && m@ == "No LED backlight control available"@),
{
    if n.global {
        Ok(BrightnessSource::Node(DlNode::Global))
    } else if n.keyboard {
        Ok(BrightnessSource::Node(DlNode::Keyboard))
    } else if has_backlight {
        Ok(BrightnessSource::Backlight)
    } else {
        Err(missing_function("No LED backlight control available"))
    }
}

/// Whether an error means that the node is inactive under the current ASUS
/// topology (`EBUSY`).
pub open spec fn dl_inactive(e: RogError) -> bool {
    io_failure_of(e) matches Some(f) && f.kind == IoErrorKind::ResourceBusy
}

/// One node's write in a run over the Dynamic Lighting nodes: a write counts
/// as applied, a node inactive under the current topology is skipped, any
/// other error ends the run.
pub open spec fn node_step(applied: bool, outcome: Result<(), RogError>) -> Result<bool, RogError> {
    match outcome {
        Ok(_) => Ok(true),
        Err(e) => if dl_inactive(e) {
            Ok(applied)
        } else {
            Err(e)
        },
    }
}

/// A run over nodes whose writes had `outcomes`: whether some node took the
/// write, or the error that ended the run.
pub open spec fn nodes_run(outcomes: Seq<Result<(), RogError>>) -> Result<bool, RogError>
    decreases outcomes.len(),
{
    if outcomes.len() == 0 {
        Ok(false)
    } else {
        match nodes_run(outcomes.drop_last()) {
            Ok(a) => node_step(a, outcomes.last()),
            Err(e) => Err(e),
        }
    }
}

/// Writes to Dynamic Lighting nodes work in either ASUS topology: when every
/// node either takes the write or is inactive, the run does not fail, and it
/// applied exactly when some node took the write.
pub proof fn lemma_inactive_nodes_are_skipped(outcomes: Seq<Result<(), RogError>>)
    requires
        forall|k: int|
            0 <= k < outcomes.len() ==> (#[trigger] outcomes[k] is Ok || (outcomes[k] matches Err(
                e,
            ) && dl_inactive(e))),
    ensures
        nodes_run(outcomes) == Ok::<bool, RogError>(
            exists|k: int| 0 <= k < outcomes.len() && #[trigger] outcomes[k] is Ok,
        ),
    decreases outcomes.len(),
{
    if outcomes.len() > 0 {
        let init = outcomes.drop_last();
        assert forall|k: int| 0 <= k < init.len() implies (#[trigger] init[k] is Ok || (
        init[k] matches Err(e) && dl_inactive(e))) by {
            assert(init[k] == outcomes[k]);
        }
        lemma_inactive_nodes_are_skipped(init);
        let last = outcomes.len() - 1;
        if outcomes[last] is Ok {
            assert(exists|k: int| 0 <= k < outcomes.len() && #[trigger] outcomes[k] is Ok);
        } else {
            if exists|k: int| 0 <= k < outcomes.len() && #[trigger] outcomes[k] is Ok {
                let k = choose|k: int| 0 <= k < outcomes.len() && #[trigger] outcomes[k] is Ok;
                assert(k < last);
                assert(init[k] == outcomes[k]);
            }
            if exists|k: int| 0 <= k < init.len() && #[trigger] init[k] is Ok {
                let k = choose|k: int| 0 <= k < init.len() && #[trigger] init[k] is Ok;
                assert(init[k] == outcomes[k]);
            }
        }
    }
}

/// Setting brightness, after one node's write: see [`node_step`].
pub fn brightness_after_node(applied: bool, outcome: Result<(), RogError>) -> (r: Result<bool, RogError>)
    ensures
        r == node_step(applied, outcome),
{
    match outcome {
        Ok(()) => Ok(true),
        Err(e) => if is_dl_node_inactive(&e) {
            Ok(applied)
        } else {
            Err(e)
        },
    }
}

/// Setting brightness, after the legacy backlight's write: its failure is
/// ignored once a node took the brightness.
pub fn brightness_after_backlight(applied: bool, outcome: Result<(), RogError>) -> (r: Result<
    bool,
    RogError,
>)
    ensures
        outcome is Ok ==> r == Ok::<bool, RogError>(true),
        outcome matches Err(e) ==> if applied {
            r == Ok::<bool, RogError>(true)
        } else {
            r == Err::<bool, RogError>(e)
        },
{
    match outcome {
        Ok(()) => Ok(true),
        Err(e) => if applied {
            Ok(true)
        } else {
            Err(e)
        },
    }
}

/// Setting brightness succeeds when some control took it.
pub fn brightness_finish(applied: bool) -> (r: Result<(), RogError>)
    ensures
        r is Ok <==> applied,
        r matches Err(e) ==> (e matches RogError::MissingFunction(m) && m@
            == "No LED backlight control available"@),
{
    if applied {
        Ok(())
    } else {
        Err(missing_function("No LED backlight control available"))
    }
}

/// The power-state flags of one zone.
#[derive(Debug, Clone, Copy, PartialEq, Eq, Structural)]
pub struct PowerFlags {
    pub boot: bool,
    pub awake: bool,
    pub sleep: bool,
    pub shutdown: bool,
}

/// The kernel names of the states a zone enables.
pub open spec fn flag_states(f: PowerFlags) -> Seq<Seq<char>> {
    (if f.boot {
        seq!["boot"@]
    } else {
        seq![]
    }) + (if f.awake {
        seq!["awake"@]
    } else {
        seq![]
    }) + (if f.sleep {
        seq!["sleep"@]
    } else {
        seq![]
    }) + if f.shutdown {
        seq!["shutdown"@]
    } else {
        seq![]
    }
}

/// The states that the zones enable, zone by zone.
pub open spec fn requested_states(fs: Seq<PowerFlags>) -> Seq<Seq<char>>
    decreases fs.len(),
{
    if fs.len() == 0 {
        seq![]
    } else {
        requested_states(fs.drop_last()) + flag_states(fs.last())
    }
}

/// Append the states that one zone enables.
fn push_flag_states(r: &mut Vec<&'static str>, f: PowerFlags)
    ensures
        final(r).deep_view() == old(r).deep_view() + flag_states(f),
{
    let ghost start = r.deep_view();
    if f.boot {
        let ghost b = r.deep_view();
        r.push("boot");
        assert(r.deep_view() =~= b.push("boot"@));
    }
    if f.awake {
        let ghost b = r.deep_view();
        r.push("awake");
        assert(r.deep_view() =~= b.push("awake"@));
    }
    if f.sleep {
        let ghost b = r.deep_view();
        r.push("sleep");
        assert(r.deep_view() =~= b.push("sleep"@));
    }
    if f.shutdown {
        let ghost b = r.deep_view();
        r.push("shutdown");
        assert(r.deep_view() =~= b.push("shutdown"@));
    }
    assert(r.deep_view() =~= start + flag_states(f));
}

/// The Dynamic Lighting power states that the zones' flags request.
pub fn requested_power_states(states: &[PowerFlags]) -> (r: Vec<&'static str>)
    ensures
        r.deep_view() == requested_states(states@),
{
    let mut r: Vec<&'static str> = Vec::new();
    let mut i: usize = 0;
    while i < states.len()
        invariant
            0 <= i <= states@.len(),
            r.deep_view() == requested_states(states@.take(i as int)),
        decreases states.len() - i,
    {
        push_flag_states(&mut r, states[i]);
        assert(states@.take(i + 1).drop_last() =~= states@.take(i as int));
        i = i + 1;
    }
    assert(states@.take(states@.len() as int) =~= states@);
    r
}

/// Progress of writing power states to the Dynamic Lighting nodes.
#[derive(Debug, Clone, Copy, PartialEq, Eq, Structural)]
pub struct PowerRun {
    /// Some node took the states.
    pub applied: bool,
    /// Some node has a `power_states` attribute.
    pub saw_power_states: bool,
    /// Some node supports none of the requested states.
    pub unsupported_request: bool,
}

impl PowerRun {
    pub fn new() -> (r: Self)
        ensures
            r == (PowerRun { applied: false, saw_power_states: false, unsupported_request: false }),
    {
        PowerRun { applied: false, saw_power_states: false, unsupported_request: false }
    }

    /// A node with a `power_states` attribute, whose `power_states_index`
    /// reads `index`: the text to write to it (the requested states it
    /// supports, joined by spaces), or `None` when it supports none of a
    /// non-empty request.
    pub fn node_states(self, requested: &[&str], index: &str) -> (r: (PowerRun, Option<String>))
        ensures
            ({
                let kept = supported_states(requested.deep_view(), words(index@));
                let refuse = kept.len() == 0 && requested@.len() > 0;
                &&& r.0 == (PowerRun {
                    applied: self.applied,
                    saw_power_states: true,
                    unsupported_request: self.unsupported_request || refuse,
                })
                &&& (r.1 is None <==> refuse)
                &&& (r.1 matches Some(t) ==> t@ == joined(kept))
            }),
    {
        let states = filter_power_states(requested, index);
        if states.len() == 0 && requested.len() > 0 {
            (
                PowerRun {
                    applied: self.applied,
                    saw_power_states: true,
                    unsupported_request: true,
                },
                None,
            )
        } else {
            let text = join_words(states.as_slice());
            (
                PowerRun {
                    applied: self.applied,
                    saw_power_states: true,
                    unsupported_request: self.unsupported_request,
                },
                Some(text),
            )
        }
    }

    /// After writing a node's states: see [`node_step`].
    pub fn node_written(self, outcome: Result<(), RogError>) -> (r: Result<PowerRun, RogError>)
        ensures
            r == match node_step(self.applied, outcome) {
                Ok(a) => Ok::<PowerRun, RogError>(PowerRun { applied: a, ..self }),
                Err(e) => Err(e),
            },
    {
        match outcome {
            Ok(()) => Ok(PowerRun { applied: true, ..self }),
            Err(e) => if is_dl_node_inactive(&e) {
                Ok(self)
            } else {
                Err(e)
            },
        }
    }

    /// The result once every node was visited.
    pub fn finish(self) -> (r: Result<(), RogError>)
        ensures
            r is Ok <==> self.applied,
            !self.applied && !self.saw_power_states ==> (r matches Err(
                RogError::MissingFunction(m),
            ) && m@ == "Dynamic Lighting node does not expose power_states"@),
            !self.applied && self.saw_power_states && self.unsupported_request ==> (r matches Err(
                RogError::MissingFunction(m),
            ) && m@ == "No requested power state is supported by this Dynamic Lighting node"@),
            !self.applied && self.saw_power_states && !self.unsupported_request ==> (r matches Err(
                RogError::MissingFunction(m),
            ) && m@ == "No active Dynamic Lighting node accepted power_states"@),
    {
        if self.applied {
            Ok(())
        } else if !self.saw_power_states {
            Err(missing_function("Dynamic Lighting node does not expose power_states"))
        } else if self.unsupported_request {
            Err(missing_function("No requested power state is supported by this Dynamic Lighting node"))
        } else {
            Err(missing_function("No active Dynamic Lighting node accepted power_states"))
        }
    }
}

/// How power states are written.
#[derive(Debug, Clone, Copy, PartialEq, Eq, Structural)]
pub enum PowerPlan {
    /// To the Dynamic Lighting nodes, by a [`PowerRun`].
    Dynamic,
    /// Through the TUF platform's `kbd_rgb_state`.
    Tuf,
    /// Through hidraw, with [`ally_power_report`].
    HidAlly,
    /// Through hidraw, with [`power_report`].
    HidLegacy,
    /// Nowhere; the call succeeds without writing.
    Nothing,
}

/// Decide how to write power states: Dynamic Lighting when the device has it
/// (never the TUF backlight or hidraw then), else the TUF platform on TUF
/// keyboards with a backlight control, else hidraw (the Ally report when the
/// first zone is an Ally's), else nothing.
pub fn plan_power_states(is_tuf: bool, n: DlNodes, has_backlight: bool, has_hid: bool, ally: bool) -> (r:
    PowerPlan)
    ensures
        n.dynamic() ==> r == PowerPlan::Dynamic,
        !n.dynamic() && is_tuf && has_backlight ==> r == PowerPlan::Tuf,
        !n.dynamic() && !(is_tuf && has_backlight) && has_hid && ally ==> r == PowerPlan::HidAlly,
        !n.dynamic() && !(is_tuf && has_backlight) && has_hid && !ally ==> r
            == PowerPlan::HidLegacy,
        !n.dynamic() && !(is_tuf && has_backlight) && !has_hid ==> r == PowerPlan::Nothing,
{
    if n.has_dynamic_lighting() {
        PowerPlan::Dynamic
    } else if is_tuf && has_backlight {
        PowerPlan::Tuf
    } else if has_hid {
        if ally {
            PowerPlan::HidAlly
        } else {
            PowerPlan::HidLegacy
        }
    } else {
        PowerPlan::Nothing
    }
}

/// The hidraw report that sets the power state byte of an Ally.
pub fn ally_power_report(state: u8) -> (r: [u8; 7])
    ensures
        r@ == seq![0x5du8, 0xd1u8, 0x09u8, 0x01u8, state, 0u8, 0u8],
{
    let r = [0x5d, 0xd1, 0x09, 0x01, state, 0, 0];
    assert(r@ =~= seq![0x5du8, 0xd1u8, 0x09u8, 0x01u8, state, 0u8, 0u8]);
    r
}

/// The hidraw report that sets the four power-state bytes of a keyboard.
pub fn power_report(bytes: &[u8; 4]) -> (r: [u8; 7])
    ensures
        r@ == seq![0x5du8, 0xbdu8, 0x01u8, bytes[0], bytes[1], bytes[2], bytes[3]],
{
    let r = [0x5d, 0xbd, 0x01, bytes[0], bytes[1], bytes[2], bytes[3]];
    assert(r@ =~= seq![0x5du8, 0xbdu8, 0x01u8, bytes[0], bytes[1], bytes[2], bytes[3]]);
    r
}

/// An Ally needs its power bytes set once, when the fix was never applied.
pub fn needs_ally_fix(is_ally: bool, ally_fix: Option<bool>) -> (r: bool)
    ensures
        r == (is_ally && ally_fix is None),
{
    is_ally && ally_fix.is_none()
}

/// The brightness to keep once an effect is written: `Off` would hide it,
/// so it becomes `Med`.
pub fn visible_brightness(b: LedBrightness) -> (r: LedBrightness)
    ensures
        r == if b == LedBrightness::Off {
            LedBrightness::Med
        } else {
            b
        },
{
    match b {
        LedBrightness::Off => LedBrightness::Med,
        _ => b,
    }
}

/// The TUF `kbd_rgb_mode` buffer that paints a per-key row's colour, from
/// bytes 9 to 11 of the row.
pub fn tuf_row_report(row: &[u8]) -> (r: Result<[u8; 6], PlatformError>)
    ensures
        r is Ok <==> row@.len() >= 12,
        r matches Ok(b) ==> b@ == seq![0u8, 0u8, row@[9], row@[10], row@[11], 0u8],
        r matches Err(e) ==> e is InvalidValue,
{
    if row.len() < 12 {
        return Err(PlatformError::InvalidValue);
    }
    let b = [0, 0, row[9], row[10], row[11], 0];
    assert(b@ =~= seq![0u8, 0u8, row@[9], row@[10], row@[11], 0u8]);
    Ok(b)
}

/// The nodes a direct frame is offered to, in order: keyboard, then global.
pub fn frame_nodes(n: DlNodes) -> (r: Vec<DlNode>)
    ensures
        r@ == (if n.keyboard {
            seq![DlNode::Keyboard]
        } else {
            seq![]
        }) + if n.global {
            seq![DlNode::Global]
        } else {
            seq![]
        },
{
    let mut r: Vec<DlNode> = Vec::new();
    if n.keyboard {
        r.push(DlNode::Keyboard);
    }
    if n.global {
        r.push(DlNode::Global);
    }
    assert(r@ =~= (if n.keyboard {
        seq![DlNode::Keyboard]
    } else {
        seq![]
    }) + if n.global {
        seq![DlNode::Global]
    } else {
        seq![]
    });
    r
}

/// How a block of raw per-key or factory packets is written.
#[derive(Debug)]
pub enum BlockPlan {
    /// Row by row through the TUF platform's `kbd_rgb_mode`.
    Tuf,
    /// As one direct frame, offered to these nodes in turn; if none takes it
    /// the write fails with [`frame_refused`].
    Dynamic(Vec<DlNode>),
    /// As raw packets through hidraw.
    Hid,
    /// Nowhere: the write fails with `NoAuraKeyboard`.
    NoKeyboard,
}

/// Decide how to write a block of raw packets: the TUF platform on TUF
/// keyboards with a backlight control, else Dynamic Lighting when the device
/// has it (never hidraw then), else hidraw.
pub fn plan_block(is_tuf: bool, n: DlNodes, has_backlight: bool, has_hid: bool) -> (r: BlockPlan)
    ensures
        is_tuf && has_backlight ==> r is Tuf,
        !(is_tuf && has_backlight) && n.dynamic() ==> (r matches BlockPlan::Dynamic(ns) && ns@ == (
        if n.keyboard {
            seq![DlNode::Keyboard]
        } else {
            seq![]
        }) + if n.global {
            seq![DlNode::Global]
        } else {
            seq![]
        }),
        !(is_tuf && has_backlight) && !n.dynamic() && has_hid ==> r is Hid,
        !(is_tuf && has_backlight) && !n.dynamic() && !has_hid ==> r is NoKeyboard,
{
    if is_tuf && has_backlight {
        BlockPlan::Tuf
    } else if n.has_dynamic_lighting() {
        BlockPlan::Dynamic(frame_nodes(n))
    } else if has_hid {
        BlockPlan::Hid
    } else {
        BlockPlan::NoKeyboard
    }
}

/// The basic zones offered: none through Dynamic Lighting, whose topology
/// cannot represent the historical subzones; otherwise the supported ones.
pub fn advertised_zones(dynamic: bool, basic_zones: &[AuraZone]) -> (r: Vec<AuraZone>)
    ensures
        r@ == if dynamic {
            Seq::<AuraZone>::empty()
        } else {
            basic_zones@
        },
{
    let mut r: Vec<AuraZone> = Vec::new();
    if !dynamic {
        let mut i: usize = 0;
        while i < basic_zones.len()
            invariant
                0 <= i <= basic_zones@.len(),
                r@ == basic_zones@.take(i as int),
            decreases basic_zones.len() - i,
        {
            r.push(basic_zones[i]);
            assert(basic_zones@.take(i + 1) =~= basic_zones@.take(i as int).push(basic_zones@[i as int]));
            i = i + 1;
        }
        assert(basic_zones@.take(basic_zones@.len() as int) =~= basic_zones@);
    }
    r
}

/// Whether the power zones are offered: through Dynamic Lighting only when
/// its node (global, else keyboard) has a `power_states` attribute.
pub fn power_zones_advertised(dynamic: bool, node_has_power_states: bool) -> (r: bool)
    ensures
        r == (!dynamic || node_has_power_states),
{
    !dynamic || node_has_power_states
}

/// Whether a failed direct-frame write found the node busy (`EBUSY`), so the
/// frame goes to the next node.
pub fn direct_write_busy(err: &PlatformError) -> (r: bool)
    ensures
        r == (*err matches PlatformError::IoPath(_, f) && (f.kind == IoErrorKind::ResourceBusy
            || f.raw_os_error == Some(16i32))),
{
    match err {
        PlatformError::IoPath(_, f) => match f.kind {
            IoErrorKind::ResourceBusy => true,
            _ => match f.raw_os_error {
                Some(c) => c == 16,
                None => false,
            },
        },
        _ => false,
    }
}

/// The error when no Dynamic Lighting node takes a direct frame.
pub fn frame_refused() -> (r: RogError)
    ensures
        r matches RogError::MissingFunction(m) && m@
            == "No active Dynamic Lighting node accepted the direct frame"@,
{
    missing_function("No active Dynamic Lighting node accepted the direct frame")
}

/// Whether raw packets can go to hidraw as a block: the first has a type
/// byte, every one starts with `0x5d` and fits 64 bytes, and per-key packets
/// (type `0xbc`) are exactly 64 bytes.
pub open spec fn hid_block_valid(ps: Seq<Seq<u8>>) -> bool {
    &&& ps.len() > 0
    &&& ps[0].len() > 1
    &&& forall|i: int|
        0 <= i < ps.len() ==> {
            let row = #[trigger] ps[i];
            &&& row.len() > 0
            &&& row[0] == 0x5d
            &&& row.len() <= 64
            &&& (ps[0][1] == 0xbc ==> row.len() == 64)
        }
}

/// How a block of raw packets goes to hidraw.
#[derive(Debug, Clone, Copy, PartialEq, Eq, Structural)]
pub enum HidBlock {
    /// A factory-mode packet: write the first packet, then the set packet;
    /// per-key mode is off.
    Factory,
    /// Per-key packets: write the init packet first if per-key mode is not
    /// on yet, then every packet; per-key mode is on.
    PerKey { init: bool },
}

/// Check a block of raw packets for hidraw and decide how to write it.
pub fn hid_block(effect: &[Vec<u8>], per_key_active: bool) -> (r: Result<HidBlock, PlatformError>)
    ensures
        r is Ok <==> hid_block_valid(effect.deep_view()),
        r matches Ok(b) ==> b == if effect.deep_view()[0][1] == 0xbc {
            HidBlock::PerKey { init: !per_key_active }
        } else {
            HidBlock::Factory
        },
        r matches Err(e) ==> e is InvalidValue,
{
    let ghost ps = effect.deep_view();
    if effect.len() == 0 {
        return Err(PlatformError::InvalidValue);
    }
    assert(ps[0] == effect@[0]@);
    if effect[0].len() < 2 {
        return Err(PlatformError::InvalidValue);
    }
    let packet_type = effect[0][1];
    let mut i: usize = 0;
    while i < effect.len()
        invariant
            0 <= i <= effect@.len(),
            ps == effect.deep_view(),
            ps.len() > 0,
            ps[0].len() > 1,
            packet_type == ps[0][1],
            forall|k: int|
                0 <= k < i ==> {
                    let row = #[trigger] ps[k];
                    &&& row.len() > 0
                    &&& row[0] == 0x5d
                    &&& row.len() <= 64
                    &&& (ps[0][1] == 0xbc ==> row.len() == 64)
                },
        decreases effect.len() - i,
    {
        let row = &effect[i];
        assert(ps[i as int] == row@);
        if row.len() == 0 || row[0] != 0x5d || row.len() > 64 || (packet_type == 0xbc && row.len()
            != 64) {
            return Err(PlatformError::InvalidValue);
        }
        i = i + 1;
    }
    if packet_type == 0xbc {
        Ok(HidBlock::PerKey { init: !per_key_active })
    } else {
        Ok(HidBlock::Factory)
    }
}

/// Whether the legacy zone list admits `zone`: the whole device, a listed
/// zone, or a lightbar half where a lightbar node exists.
pub open spec fn legacy_zone_ok(zone: AuraZone, basic_zones: Seq<AuraZone>, has_lightbar: bool) -> bool {
    zone == AuraZone::NoZone || basic_zones.contains(zone) || (has_lightbar && (zone
        == AuraZone::BarLeft || zone == AuraZone::BarRight))
}

/// Whether `m` is in `ms`.
fn mode_listed(ms: &[AuraModeNum], m: AuraModeNum) -> (r: bool)
    ensures
        r == ms@.contains(m),
{
    let mut i: usize = 0;
    while i < ms.len()
        invariant
            0 <= i <= ms@.len(),
            forall|k: int| 0 <= k < i ==> ms@[k] != m,
        decreases ms.len() - i,
    {
        if ms[i] == m {
            return true;
        }
        i = i + 1;
    }
    false
}

/// Whether `z` is in `zs`.
fn zone_listed(zs: &[AuraZone], z: AuraZone) -> (r: bool)
    ensures
        r == zs@.contains(z),
{
    let mut i: usize = 0;
    while i < zs.len()
        invariant
            0 <= i <= zs@.len(),
            forall|k: int| 0 <= k < i ==> zs@[k] != z,
        decreases zs.len() - i,
    {
        if zs[i] == z {
            return true;
        }
        i = i + 1;
    }
    false
}

/// Whether a node whose `effect_index` reads `index` runs mode `m`.
pub open spec fn node_runs(index: Seq<char>, m: AuraModeNum) -> bool {
    mode_dynamic_name(m) matches Some(nm) && words(index).contains(nm)
}

/// Whether an effect may be set. Under Dynamic Lighting the effect's mode
/// must be one the node (global, else keyboard) lists in its `effect_index`
/// (`None` when there is no such node) and the zone one it can drive;
/// otherwise the mode must be a supported basic mode and the zone
/// [`legacy_zone_ok`].
pub fn effect_supported(
    e: &AuraEffect,
    dynamic: bool,
    effect_index: Option<&str>,
    basic_modes: &[AuraModeNum],
    basic_zones: &[AuraZone],
    has_lightbar: bool,
) -> (r: bool)
    ensures
        dynamic ==> r == ((effect_index matches Some(t) && node_runs(t@, e.mode)) && dynamic_zone(
            e.zone,
        )),
        !dynamic ==> r == (basic_modes@.contains(e.mode) && legacy_zone_ok(
            e.zone,
            basic_zones@,
            has_lightbar,
        )),
{
    if dynamic {
        let mode_ok = match e.mode.to_dynamic_effect_str() {
            Some(name) => match effect_index {
                Some(t) => crate::dynamic_led::DynamicLed::supports_effect(t, name),
                None => false,
            },
            None => false,
        };
        mode_ok && supports_dynamic_zone(e.zone)
    } else {
        let mode_ok = mode_listed(basic_modes, e.mode);
        let zone_ok = match e.zone {
            AuraZone::NoZone => true,
            _ => zone_listed(basic_zones, e.zone) || (has_lightbar && match e.zone {
                AuraZone::BarLeft | AuraZone::BarRight => true,
                _ => false,
            }),
        };
        mode_ok && zone_ok
    }
}

/// The modes of `ms` that a node whose `effect_index` reads `index` runs.
pub open spec fn runnable_modes(ms: Seq<AuraModeNum>, index: Seq<char>) -> Seq<AuraModeNum>
    decreases ms.len(),
{
    if ms.len() == 0 {
        seq![]
    } else if node_runs(index, ms.last()) {
        runnable_modes(ms.drop_last(), index).push(ms.last())
    } else {
        runnable_modes(ms.drop_last(), index)
    }
}

/// The basic modes offered: under Dynamic Lighting those the node lists in
/// its `effect_index`, in order; otherwise all of them.
pub fn supported_basic_modes(modes: &[AuraModeNum], effect_index: Option<&str>) -> (r: Vec<
    AuraModeNum,
>)
    ensures
        r@ == match effect_index {
            Some(t) => runnable_modes(modes@, t@),
            None => modes@,
        },
{
    let mut r: Vec<AuraModeNum> = Vec::new();
    let mut i: usize = 0;
    while i < modes.len()
        invariant
            0 <= i <= modes@.len(),
            r@ == match effect_index {
                Some(t) => runnable_modes(modes@.take(i as int), t@),
                None => modes@.take(i as int),
            },
        decreases modes.len() - i,
    {
        let m = modes[i];
        assert(modes@.take(i + 1).drop_last() =~= modes@.take(i as int));
        assert(modes@.take(i + 1).last() == m);
        let keep = match effect_index {
            Some(t) => match m.to_dynamic_effect_str() {
                Some(name) => crate::dynamic_led::DynamicLed::supports_effect(t, name),
                None => false,
            },
            None => true,
        };
        if keep {
            r.push(m);
        }
        assert(modes@.take(i + 1) =~= modes@.take(i as int).push(m));
        i = i + 1;
    }
    assert(modes@.take(modes@.len() as int) =~= modes@);
    r
}


/// Whether `led` is what a search of `nodes` for `name` finds: nothing when
/// no node matches, else the first matching node.
pub open spec fn found(nodes: Seq<LedNode>, name: Seq<char>, led: Option<DynamicLed>) -> bool {
    match led {
        None => forall|i: int| 0 <= i < nodes.len() ==> !node_matches(#[trigger] nodes[i], name),
        Some(g) => exists|i: int| first_match_at(nodes, name, i) && g@ == nodes[i].syspath@,
    }
}

/// The Dynamic Lighting node `name` among `nodes`, if there is one.
fn find_node(nodes: &[LedNode], name: &str) -> (r: Option<DynamicLed>)
    ensures
        found(nodes@, name@, r),
{
    match DynamicLed::find(name, nodes) {
        Ok(led) => Some(led),
        Err(_) => {
            assert forall|i: int| 0 <= i < nodes@.len() implies !node_matches(
                #[trigger] nodes@[i],
                name@,
            ) by {
                if node_matches(nodes@[i], name@) {
                    assert(exists|k: int| 0 <= k < nodes@.len() && node_matches(nodes@[k], name@));
                }
            }
            None
        },
    }
}

/// The Dynamic Lighting nodes of a laptop: `aura:global`, the keyboard
/// (`aura:keyboard`, failing that `asus::kbd_backlight`) and
/// `aura:lightbar`.
pub fn detect_dynamic_nodes(nodes: &[LedNode]) -> (r: (
    Option<DynamicLed>,
    Option<DynamicLed>,
    Option<DynamicLed>,
))
    ensures
        found(nodes@, "aura:global"@, r.0),
        (exists|i: int| 0 <= i < nodes@.len() && node_matches(nodes@[i], "aura:keyboard"@)) ==> found(
            nodes@,
            "aura:keyboard"@,
            r.1,
        ),
        !(exists|i: int| 0 <= i < nodes@.len() && node_matches(nodes@[i], "aura:keyboard"@)) ==> found(
            nodes@,
            "asus::kbd_backlight"@,
            r.1,
        ),
        found(nodes@, "aura:lightbar"@, r.2),
{
    let global = find_node(nodes, "aura:global");
    let keyboard = match find_node(nodes, "aura:keyboard") {
        Some(k) => Some(k),
        None => find_node(nodes, "asus::kbd_backlight"),
    };
    let lightbar = find_node(nodes, "aura:lightbar");
    (global, keyboard, lightbar)
}

/// Which of the detected nodes exist.
pub fn nodes_present(
    global: &Option<DynamicLed>,
    keyboard: &Option<DynamicLed>,
    lightbar: &Option<DynamicLed>,
) -> (r: DlNodes)
    ensures
        r == (DlNodes { global: global is Some, keyboard: keyboard is Some, lightbar: lightbar is Some }),
{
    DlNodes { global: global.is_some(), keyboard: keyboard.is_some(), lightbar: lightbar.is_some() }
}

/// A system event that the controller reacts to.
#[derive(Debug, Clone, Copy, PartialEq, Eq, Structural)]
pub enum SysEvent {
    /// The machine goes to sleep (`true`) or wakes up (`false`).
    Sleep(bool),
    /// The machine shuts down.
    Shutdown,
    /// The lid closes or opens.
    LidClosed(bool),
    /// The charger is plugged in or out.
    PowerPlugged(bool),
}

/// What the controller does on a system event.
#[derive(Debug, Clone, Copy, PartialEq, Eq, Structural)]
pub enum SysAction {
    /// Write the stored brightness to the device.
    RestoreBrightness,
    /// Write the stored mode to the device.
    RestoreMode,
    /// Store the device's brightness in the configuration.
    SaveConfig,
}

/// The actions for an event: on waking, restore brightness and then the
/// mode; before sleeping, save the configuration; on shutdown, restore the
/// brightness; nothing for the lid or the charger.
pub open spec fn event_actions(e: SysEvent) -> Seq<SysAction> {
    match e {
        SysEvent::Sleep(false) => seq![SysAction::RestoreBrightness, SysAction::RestoreMode],
        SysEvent::Sleep(true) => seq![SysAction::SaveConfig],
        SysEvent::Shutdown => seq![SysAction::RestoreBrightness],
        _ => seq![],
    }
}

/// The actions the controller takes on a system event, in order.
pub fn sys_event_actions(e: SysEvent) -> (r: Vec<SysAction>)
    ensures
        r@ == event_actions(e),
{
    let mut r: Vec<SysAction> = Vec::new();
    match e {
        SysEvent::Sleep(sleeping) => {
            if sleeping {
                r.push(SysAction::SaveConfig);
            } else {
                r.push(SysAction::RestoreBrightness);
                r.push(SysAction::RestoreMode);
            }
        },
        SysEvent::Shutdown => {
            r.push(SysAction::RestoreBrightness);
        },
        _ => {},
    }
    assert(r@ =~= event_actions(e));
    r
}

/// Dynamic Lighting drives every zone except the logo: the whole device, the
/// four keyboard zones (through the keyboard node) and both lightbar halves
/// (through the lightbar node).
pub proof fn lemma_dynamic_zones(z: AuraZone)
    ensures
        dynamic_zone(z) <==> z != AuraZone::Logo,
{
}

} // verus!
