use rog_lighting::aura_laptop::{
    direct_rgb_payload, filter_power_states, is_dl_node_inactive, supports_dynamic_zone,
};
use rog_lighting::builtin_modes::{AuraEffect, AuraModeNum, AuraZone, Colour, LedBrightness, Speed};
use rog_lighting::error::{IoErrorKind, IoFailure, PlatformError, RogError};
use rog_lighting::hid_raw::descriptor_has_output_report;
use rog_lighting::lamparray::{
    autonomous_off_report, brightness_level, brightness_to_intensity, lamp_colour, lamp_count,
    min_update_interval_us, range_update_report, speed_to_period_ms,
};

#[test]
fn direct_payload_requires_exact_size() {
    let mut packet = vec![0; 15];
    packet[1] = 0xbc;
    packet[7] = 2;
    packet[9..15].copy_from_slice(&[1, 2, 3, 4, 5, 6]);
    assert_eq!(
        direct_rgb_payload(&vec![packet.clone()], 2).unwrap().len(),
        6
    );
    assert!(direct_rgb_payload(&vec![packet], 3).is_err());
    assert!(direct_rgb_payload(&Vec::new(), 1).is_err());
}

#[test]
fn direct_payload_joins_per_key_packets_and_reads_zone_packets() {
    let mut a = vec![0u8; 12];
    a[1] = 0xbc;
    a[7] = 1;
    a[9..12].copy_from_slice(&[10, 11, 12]);
    let mut b = vec![0u8; 15];
    b[1] = 0xbc;
    b[7] = 2;
    b[9..15].copy_from_slice(&[20, 21, 22, 23, 24, 25]);
    assert_eq!(
        direct_rgb_payload(&[a.clone(), b.clone()], 3).unwrap(),
        vec![10, 11, 12, 20, 21, 22, 23, 24, 25]
    );
    let mut bad = b.clone();
    bad[1] = 0xbd;
    assert!(matches!(
        direct_rgb_payload(&[a, bad], 3),
        Err(PlatformError::InvalidValue)
    ));

    let zone: Vec<u8> = (0u8..21).collect();
    assert_eq!(
        direct_rgb_payload(&[zone], 4).unwrap(),
        (9u8..21).collect::<Vec<u8>>()
    );
}

#[test]
fn power_states_are_intersected_with_capabilities() {
    assert_eq!(
        filter_power_states(&["boot", "awake", "shutdown"], "awake sleep"),
        ["awake"]
    );
}

#[test]
fn power_states_keep_requested_order() {
    assert_eq!(
        filter_power_states(&["sleep", "boot", "awake"], "awake boot sleep\n"),
        ["sleep", "boot", "awake"]
    );
    assert!(filter_power_states(&["boot"], "").is_empty());
}

#[test]
fn dynamic_topology_allows_keyboard_and_lightbar_proxies() {
    assert!(supports_dynamic_zone(AuraZone::NoZone));
    assert!(supports_dynamic_zone(AuraZone::Key1));
    assert!(supports_dynamic_zone(AuraZone::BarLeft));
    assert!(!supports_dynamic_zone(AuraZone::Logo));
}

#[test]
fn inactive_dl_node_detects_ebusy() {
    let err = RogError::Platform(PlatformError::IoPath(
        "aura:keyboard/brightness".into(),
        IoFailure {
            kind: IoErrorKind::ResourceBusy,
            raw_os_error: None,
        },
    ));
    assert!(is_dl_node_inactive(&err));
}

#[test]
fn other_errors_are_not_inactive_nodes() {
    let denied = RogError::Write(
        "aura:keyboard/effect".into(),
        IoFailure {
            kind: IoErrorKind::PermissionDenied,
            raw_os_error: Some(13),
        },
    );
    assert!(!is_dl_node_inactive(&denied));
    assert!(!is_dl_node_inactive(&RogError::NoAuraKeyboard));
    assert!(is_dl_node_inactive(&RogError::Io(IoFailure {
        kind: IoErrorKind::ResourceBusy,
        raw_os_error: Some(16),
    })));
}

#[test]
fn parses_output_report_id_safely() {
    assert!(descriptor_has_output_report(
        &[0x85, 0x5d, 0x09, 0x01, 0x91, 0x02],
        0x5d
    ));
    assert!(!descriptor_has_output_report(
        &[0x85, 0x5d, 0x09, 0x01, 0x81, 0x02],
        0x5d
    ));
    assert!(!descriptor_has_output_report(&[0x85], 0x5d));
}

#[test]
fn output_report_follows_latest_report_id_and_skips_long_items() {
    assert!(descriptor_has_output_report(&[0x91, 0x02], 0));
    assert!(!descriptor_has_output_report(
        &[0x85, 0x01, 0x91, 0x02, 0x85, 0x02],
        0x02
    ));
    assert!(descriptor_has_output_report(
        &[0xfe, 0x01, 0x00, 0xaa, 0x85, 0x07, 0x91, 0x02],
        0x07
    ));
    assert!(!descriptor_has_output_report(&[0xfe, 0x05, 0x00, 0x91], 0));
}

#[test]
fn lamparray_scalars() {
    assert_eq!(speed_to_period_ms(Speed::Low), 4000);
    assert_eq!(speed_to_period_ms(Speed::Med), 2000);
    assert_eq!(speed_to_period_ms(Speed::High), 800);
    assert_eq!(brightness_to_intensity(LedBrightness::Off), 0);
    assert_eq!(brightness_to_intensity(LedBrightness::Low), 64);
    assert_eq!(brightness_to_intensity(LedBrightness::Med), 128);
    assert_eq!(brightness_to_intensity(LedBrightness::High), 255);
    assert_eq!(brightness_level(0), LedBrightness::Off);
    assert_eq!(brightness_level(2), LedBrightness::Med);
    assert_eq!(brightness_level(9), LedBrightness::High);
}

#[test]
fn lamparray_reports() {
    assert_eq!(autonomous_off_report(), [0x46, 0x00]);
    let mut attr = [0u8; 23];
    attr[1] = 0x2c;
    attr[2] = 0x01;
    attr[19] = 0x10;
    attr[20] = 0x27;
    assert_eq!(lamp_count(&attr), 300);
    assert_eq!(min_update_interval_us(&attr), 10000);
    assert_eq!(
        range_update_report(300, 1, 2, 3, 4),
        Some([0x45, 0x01, 0x00, 0x00, 0x2b, 0x01, 1, 2, 3, 4])
    );
    assert_eq!(range_update_report(0, 1, 2, 3, 4), None);
}

#[test]
fn lamparray_colour_comes_from_current_effect() {
    assert_eq!(lamp_colour(None), (0xff, 0xff, 0xff));
    let mut effect = AuraEffect::default_with_mode(AuraModeNum::Static);
    effect.colour1 = Colour { r: 9, g: 8, b: 7 };
    assert_eq!(lamp_colour(Some(effect)), (9, 8, 7));
}
