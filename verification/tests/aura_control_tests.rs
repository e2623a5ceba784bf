use rog_lighting::aura_laptop::{
    advertised_zones, ally_power_report, dl_apply_step, dl_finish, dl_stage_succeeds,
    plan_power_states, PowerPlan, brightness_after_backlight, brightness_after_node,
    brightness_finish, brightness_source, detect_dynamic_nodes, direct_write_busy,
    dl_effect_writes, dl_route_steps, dl_unsupported, dl_write_outcome, effect_supported,
    frame_nodes, frame_refused, hid_block, needs_ally_fix, nodes_present, padded_report,
    plan_block, plan_effect, power_report, power_zones_advertised, present_node_list,
    requested_power_states, supported_basic_modes, sys_event_actions, topology_name,
    topology_node, tuf_row_report, unify_if_auto, visible_brightness, BlockPlan,
    BrightnessSource, DlNode, DlNodes, DlOutcome, DlStep, DlWrite, EffectPlan, HidBlock,
    PowerFlags, PowerRun, SysAction, SysEvent, Topology,
};
use rog_lighting::builtin_modes::{
    AuraEffect, AuraModeNum, AuraZone, Colour, Direction, LedBrightness, Speed,
};
use rog_lighting::dynamic_led::LedNode;
use rog_lighting::error::{IoErrorKind, IoFailure, PlatformError, RogError};

const ALL: DlNodes = DlNodes {
    global: true,
    keyboard: true,
    lightbar: true,
};
const NONE: DlNodes = DlNodes {
    global: false,
    keyboard: false,
    lightbar: false,
};

fn busy() -> RogError {
    RogError::Platform(PlatformError::IoPath(
        "aura:keyboard/effect".into(),
        IoFailure {
            kind: IoErrorKind::ResourceBusy,
            raw_os_error: Some(16),
        },
    ))
}

fn denied() -> RogError {
    RogError::Write(
        "aura:keyboard/effect".into(),
        IoFailure {
            kind: IoErrorKind::PermissionDenied,
            raw_os_error: Some(13),
        },
    )
}

fn effect(mode: AuraModeNum, zone: AuraZone) -> AuraEffect {
    let mut e = AuraEffect::default_with_mode(mode);
    e.zone = zone;
    e
}

fn missing_message(e: &RogError) -> &str {
    match e {
        RogError::MissingFunction(m) => m.as_str(),
        _ => panic!("not a missing function: {e:?}"),
    }
}

#[test]
fn route_per_zone() {
    assert_eq!(
        dl_route_steps(AuraZone::BarLeft, ALL),
        vec![
            DlStep::Split,
            DlStep::Apply(DlNode::Lightbar),
            DlStep::SucceedIfApplied
        ]
    );
    assert_eq!(
        dl_route_steps(AuraZone::BarRight, DlNodes { lightbar: false, ..ALL }),
        vec![DlStep::Split]
    );
    assert_eq!(
        dl_route_steps(AuraZone::NoZone, ALL),
        vec![
            DlStep::UnifyIfAuto,
            DlStep::Apply(DlNode::Global),
            DlStep::SucceedIfApplied,
            DlStep::Apply(DlNode::Keyboard),
            DlStep::Apply(DlNode::Lightbar),
            DlStep::SucceedIfApplied
        ]
    );
    assert_eq!(
        dl_route_steps(AuraZone::Key2, ALL),
        vec![
            DlStep::Split,
            DlStep::Apply(DlNode::Keyboard),
            DlStep::SucceedIfApplied
        ]
    );
    assert_eq!(
        dl_route_steps(AuraZone::Key1, DlNodes { lightbar: false, ..ALL }),
        vec![DlStep::Apply(DlNode::Keyboard), DlStep::SucceedIfApplied]
    );
}

#[test]
fn plan_prefers_dynamic_lighting_and_refuses_subzones() {
    let kbd_only = DlNodes {
        global: false,
        keyboard: true,
        lightbar: false,
    };
    match plan_effect(&effect(AuraModeNum::Static, AuraZone::Logo), true, kbd_only, true, true) {
        EffectPlan::Reject(e) => assert_eq!(
            missing_message(&e),
            "Dynamic Lighting exposes keyboard/lightbar topology, not legacy Aura subzones"
        ),
        other => panic!("unexpected {other:?}"),
    }
    match plan_effect(&effect(AuraModeNum::Star, AuraZone::NoZone), false, kbd_only, false, true) {
        EffectPlan::Reject(e) => assert_eq!(
            missing_message(&e),
            "Dynamic lighting mode or zone not supported by kernel"
        ),
        other => panic!("unexpected {other:?}"),
    }
    match plan_effect(&effect(AuraModeNum::Breathe, AuraZone::NoZone), false, kbd_only, false, true) {
        EffectPlan::Dynamic(steps) => assert_eq!(
            steps,
            vec![DlStep::Apply(DlNode::Keyboard), DlStep::SucceedIfApplied]
        ),
        other => panic!("unexpected {other:?}"),
    }
    assert_eq!(
        missing_message(&dl_unsupported()),
        "Dynamic lighting mode or zone not supported by kernel"
    );
}

#[test]
fn plan_falls_back_to_tuf_then_hidraw() {
    let mut e = effect(AuraModeNum::Breathe, AuraZone::NoZone);
    e.colour1 = Colour { r: 1, g: 2, b: 3 };
    e.speed = Speed::High;
    match plan_effect(&e, true, NONE, true, true) {
        EffectPlan::Tuf(b) => assert_eq!(b, [1, 1, 1, 2, 3, 0xf5]),
        other => panic!("unexpected {other:?}"),
    }
    match plan_effect(&e, true, NONE, false, true) {
        EffectPlan::Hid(p) => assert_eq!(p, e.to_packet()),
        other => panic!("unexpected {other:?}"),
    }
    assert!(matches!(
        plan_effect(&e, false, NONE, true, false),
        EffectPlan::Reject(RogError::NoAuraKeyboard)
    ));
}

#[test]
fn node_writes_follow_attributes() {
    let mut e = effect(AuraModeNum::RainbowWave, AuraZone::NoZone);
    e.speed = Speed::Low;
    e.direction = Direction::Left;
    assert_eq!(
        dl_effect_writes(&e, true, true, true),
        vec![
            DlWrite::Speed(0),
            DlWrite::Direction(Direction::Left),
            DlWrite::Palette,
            DlWrite::Effect(AuraModeNum::RainbowWave)
        ]
    );
    assert_eq!(
        dl_effect_writes(&e, false, false, false),
        vec![DlWrite::Effect(AuraModeNum::RainbowWave)]
    );
}

#[test]
fn write_outcomes_skip_inactive_nodes() {
    assert!(matches!(dl_write_outcome(Ok(())), DlOutcome::Continue));
    assert!(matches!(dl_write_outcome(Err(busy())), DlOutcome::Inactive));
    assert!(matches!(
        dl_write_outcome(Err(denied())),
        DlOutcome::Abort(RogError::Write(_, _))
    ));
}

#[test]
fn topology_goes_to_first_node_with_selector() {
    assert_eq!(topology_node(ALL, false, true, true).unwrap(), DlNode::Keyboard);
    assert_eq!(topology_node(ALL, true, true, true).unwrap(), DlNode::Global);
    assert_eq!(
        topology_node(DlNodes { keyboard: false, ..ALL }, false, true, true).unwrap(),
        DlNode::Lightbar
    );
    let err = topology_node(ALL, false, false, false).unwrap_err();
    assert_eq!(
        missing_message(&err),
        "ASUS Dynamic Lighting topology control is unavailable"
    );
    assert_eq!(topology_name(Topology::Split), "split");
    assert_eq!(topology_name(Topology::Unified), "unified");
}

#[test]
fn unify_only_from_auto() {
    assert!(unify_if_auto(true, Some("[auto] unified split\n")));
    assert!(!unify_if_auto(true, Some("auto [unified] split\n")));
    assert!(!unify_if_auto(false, Some("[auto] unified split")));
    assert!(!unify_if_auto(true, None));
    assert!(!unify_if_auto(true, Some("auto unified split")));
}

#[test]
fn brightness_run_skips_inactive_nodes() {
    assert_eq!(brightness_after_node(false, Ok(())).unwrap(), true);
    assert_eq!(brightness_after_node(false, Err(busy())).unwrap(), false);
    assert_eq!(brightness_after_node(true, Err(busy())).unwrap(), true);
    assert!(brightness_after_node(true, Err(denied())).is_err());
    assert_eq!(brightness_after_backlight(true, Err(denied())).unwrap(), true);
    assert!(brightness_after_backlight(false, Err(denied())).is_err());
    assert!(brightness_finish(true).is_ok());
    assert_eq!(
        missing_message(&brightness_finish(false).unwrap_err()),
        "No LED backlight control available"
    );
}

#[test]
fn brightness_is_read_from_global_then_keyboard_then_backlight() {
    assert_eq!(
        brightness_source(ALL, true).unwrap(),
        BrightnessSource::Node(DlNode::Global)
    );
    assert_eq!(
        brightness_source(DlNodes { global: false, ..ALL }, true).unwrap(),
        BrightnessSource::Node(DlNode::Keyboard)
    );
    assert_eq!(
        brightness_source(NONE, true).unwrap(),
        BrightnessSource::Backlight
    );
    assert!(brightness_source(NONE, false).is_err());
    assert_eq!(
        present_node_list(ALL),
        vec![DlNode::Global, DlNode::Keyboard, DlNode::Lightbar]
    );
}

#[test]
fn power_state_requests_and_results() {
    let flags = [
        PowerFlags {
            boot: true,
            awake: true,
            sleep: false,
            shutdown: false,
        },
        PowerFlags {
            boot: false,
            awake: false,
            sleep: true,
            shutdown: true,
        },
    ];
    let requested = requested_power_states(&flags);
    assert_eq!(requested, vec!["boot", "awake", "sleep", "shutdown"]);

    let run = PowerRun::new();
    let (run, text) = run.node_states(&requested, "awake sleep\n");
    assert_eq!(text.as_deref(), Some("awake sleep"));
    assert!(run.saw_power_states && !run.unsupported_request);
    let run = run.node_written(Err(busy())).unwrap();
    assert!(!run.applied);
    let (run, text) = run.node_states(&requested, "charging");
    assert_eq!(text, None);
    assert!(run.unsupported_request);
    assert_eq!(
        missing_message(&run.finish().unwrap_err()),
        "No requested power state is supported by this Dynamic Lighting node"
    );
    let run = run.node_written(Ok(())).unwrap();
    assert!(run.finish().is_ok());

    assert_eq!(
        missing_message(&PowerRun::new().finish().unwrap_err()),
        "Dynamic Lighting node does not expose power_states"
    );
    let (seen, _) = PowerRun::new().node_states(&[], "boot");
    assert_eq!(
        missing_message(&seen.finish().unwrap_err()),
        "No active Dynamic Lighting node accepted power_states"
    );
}

#[test]
fn legacy_power_reports() {
    assert_eq!(ally_power_report(0x0f), [0x5d, 0xd1, 0x09, 0x01, 0x0f, 0, 0]);
    assert_eq!(
        power_report(&[1, 2, 3, 4]),
        [0x5d, 0xbd, 0x01, 1, 2, 3, 4]
    );
    assert!(needs_ally_fix(true, None));
    assert!(!needs_ally_fix(true, Some(true)));
    assert!(!needs_ally_fix(false, None));
}

#[test]
fn effect_block_decisions() {
    assert_eq!(visible_brightness(LedBrightness::Off), LedBrightness::Med);
    assert_eq!(visible_brightness(LedBrightness::High), LedBrightness::High);
    let row: Vec<u8> = (0u8..12).collect();
    assert_eq!(tuf_row_report(&row).unwrap(), [0, 0, 9, 10, 11, 0]);
    assert!(matches!(
        tuf_row_report(&row[..11]),
        Err(PlatformError::InvalidValue)
    ));
    assert_eq!(frame_nodes(ALL), vec![DlNode::Keyboard, DlNode::Global]);
    assert_eq!(
        missing_message(&frame_refused()),
        "No active Dynamic Lighting node accepted the direct frame"
    );
    let by_errno = PlatformError::IoPath(
        "direct_buffer".into(),
        IoFailure {
            kind: IoErrorKind::Other,
            raw_os_error: Some(16),
        },
    );
    assert!(direct_write_busy(&by_errno));
    assert!(!direct_write_busy(&PlatformError::InvalidValue));
}

#[test]
fn hid_block_validation() {
    let mut per_key = vec![0u8; 64];
    per_key[0] = 0x5d;
    per_key[1] = 0xbc;
    assert_eq!(
        hid_block(&[per_key.clone(), per_key.clone()], false).unwrap(),
        HidBlock::PerKey { init: true }
    );
    assert_eq!(
        hid_block(&[per_key.clone()], true).unwrap(),
        HidBlock::PerKey { init: false }
    );
    let short = per_key[..63].to_vec();
    assert!(hid_block(&[per_key.clone(), short], false).is_err());
    let factory = vec![0x5d, 0xb3, 0, 1];
    assert_eq!(hid_block(&[factory], true).unwrap(), HidBlock::Factory);
    assert!(hid_block(&[vec![0x5e, 0xb3]], true).is_err());
    assert!(hid_block(&[], true).is_err());
    assert!(hid_block(&[vec![0x5d]], true).is_err());
    let padded = padded_report(&[0x5d, 0xb5, 0, 0, 0]);
    assert_eq!(padded.len(), 64);
    assert_eq!(&padded[..5], &[0x5d, 0xb5, 0, 0, 0]);
    assert!(padded[5..].iter().all(|b| *b == 0));
}

#[test]
fn effect_support_depends_on_backend() {
    let index = "static breathing rainbow";
    let e = effect(AuraModeNum::Breathe, AuraZone::BarLeft);
    assert!(effect_supported(&e, true, Some(index), &[], &[], false));
    assert!(!effect_supported(
        &effect(AuraModeNum::Breathe, AuraZone::Logo),
        true,
        Some(index),
        &[],
        &[],
        false
    ));
    assert!(!effect_supported(
        &effect(AuraModeNum::Pulse, AuraZone::NoZone),
        true,
        Some(index),
        &[],
        &[],
        false
    ));
    let modes = [AuraModeNum::Static, AuraModeNum::Breathe];
    assert!(effect_supported(&e, false, None, &modes, &[], true));
    assert!(!effect_supported(&e, false, None, &modes, &[], false));
    assert!(effect_supported(
        &effect(AuraModeNum::Static, AuraZone::Key3),
        false,
        None,
        &modes,
        &[AuraZone::Key3],
        false
    ));
    assert!(!effect_supported(
        &effect(AuraModeNum::Rain, AuraZone::NoZone),
        false,
        None,
        &modes,
        &[],
        false
    ));
    let all = [
        AuraModeNum::Static,
        AuraModeNum::Star,
        AuraModeNum::RainbowWave,
        AuraModeNum::Pulse,
    ];
    assert_eq!(
        supported_basic_modes(&all, Some(index)),
        vec![AuraModeNum::Static, AuraModeNum::RainbowWave]
    );
    assert_eq!(supported_basic_modes(&all, None), all.to_vec());
}

fn led(name: &str, path: &str, dynamic: bool) -> LedNode {
    let attrs: &[&str] = if dynamic {
        &["effect", "effect_index", "zone_type", "led_count"]
    } else {
        &["brightness"]
    };
    LedNode {
        sysname: name.to_string(),
        syspath: path.to_string(),
        attributes: attrs.iter().map(|a| a.to_string()).collect(),
    }
}

#[test]
fn dynamic_nodes_are_detected_by_name() {
    let nodes = vec![
        led("asus::kbd_backlight", "/sys/class/leds/asus::kbd_backlight", true),
        led("aura:lightbar", "/sys/class/leds/aura:lightbar", true),
        led("aura:global", "/sys/class/leds/aura:global", false),
    ];
    let (g, k, l) = detect_dynamic_nodes(&nodes);
    assert!(g.is_none());
    assert_eq!(k.unwrap().path(), "/sys/class/leds/asus::kbd_backlight");
    assert_eq!(l.as_ref().unwrap().path(), "/sys/class/leds/aura:lightbar");

    let nodes = vec![
        led("asus::kbd_backlight", "/sys/class/leds/asus::kbd_backlight", true),
        led("aura:keyboard", "/sys/class/leds/aura:keyboard", true),
    ];
    let (g, k, l) = detect_dynamic_nodes(&nodes);
    assert_eq!(
        nodes_present(&g, &k, &l),
        DlNodes {
            global: false,
            keyboard: true,
            lightbar: false
        }
    );
    assert_eq!(k.unwrap().path(), "/sys/class/leds/aura:keyboard");
}

#[test]
fn block_plan_never_mixes_backends() {
    assert!(matches!(plan_block(true, ALL, true, true), BlockPlan::Tuf));
    match plan_block(false, ALL, true, true) {
        BlockPlan::Dynamic(ns) => assert_eq!(ns, vec![DlNode::Keyboard, DlNode::Global]),
        other => panic!("unexpected {other:?}"),
    }
    match plan_block(true, DlNodes { keyboard: false, ..ALL }, false, true) {
        BlockPlan::Dynamic(ns) => assert_eq!(ns, vec![DlNode::Global]),
        other => panic!("unexpected {other:?}"),
    }
    assert!(matches!(plan_block(false, NONE, false, true), BlockPlan::Hid));
    assert!(matches!(plan_block(false, NONE, false, false), BlockPlan::NoKeyboard));
}

#[test]
fn zones_advertised_only_without_dynamic_lighting() {
    let zones = [AuraZone::Key1, AuraZone::Logo];
    assert!(advertised_zones(true, &zones).is_empty());
    assert_eq!(advertised_zones(false, &zones), zones.to_vec());
    assert!(!power_zones_advertised(true, false));
    assert!(power_zones_advertised(true, true));
    assert!(power_zones_advertised(false, false));
}

#[test]
fn system_events_restore_or_save() {
    assert_eq!(
        sys_event_actions(SysEvent::Sleep(false)),
        vec![SysAction::RestoreBrightness, SysAction::RestoreMode]
    );
    assert_eq!(sys_event_actions(SysEvent::Sleep(true)), vec![SysAction::SaveConfig]);
    assert_eq!(sys_event_actions(SysEvent::Shutdown), vec![SysAction::RestoreBrightness]);
    assert!(sys_event_actions(SysEvent::LidClosed(true)).is_empty());
    assert!(sys_event_actions(SysEvent::PowerPlugged(false)).is_empty());
}

#[test]
fn dynamic_write_succeeds_only_when_a_node_accepts() {
    let any = dl_apply_step(false, false);
    assert!(!any);
    assert!(!dl_stage_succeeds(any));
    let any = dl_apply_step(any, true);
    assert!(dl_apply_step(any, false));
    assert!(dl_stage_succeeds(any));
    assert!(dl_finish(true).is_ok());
    assert_eq!(
        missing_message(&dl_finish(false).unwrap_err()),
        "Dynamic lighting mode or zone not supported by kernel"
    );
}

#[test]
fn power_plan_never_mixes_backends() {
    assert_eq!(plan_power_states(true, ALL, true, true, true), PowerPlan::Dynamic);
    assert_eq!(
        plan_power_states(true, DlNodes { keyboard: false, global: false, lightbar: true }, true, true, false),
        PowerPlan::Tuf
    );
    assert_eq!(plan_power_states(false, NONE, true, true, true), PowerPlan::HidAlly);
    assert_eq!(plan_power_states(true, NONE, false, true, false), PowerPlan::HidLegacy);
    assert_eq!(plan_power_states(false, NONE, true, false, false), PowerPlan::Nothing);
}
