use rog_lighting::aura_scsi::{
    direction_name, effect_name, effect_palette, kernel_effect_writes, ScsiDirection,
    ScsiEffectKind, ScsiWrite,
};
use rog_lighting::aura_slash::{enable_brightness, enabled_at, shown_brightness};
use rog_lighting::builtin_modes::{AuraModeNum, Speed};
use rog_lighting::error::{IoErrorKind, IoFailure, PlatformError, RogError};
use rog_lighting::hid_raw::{HidEndpoint, HidRawNode, UsbParent};
use rog_lighting::lamparray::{
    cycle_position, effect_timing, is_single_push, lamp_range_report, power_intensity,
};

#[test]
fn scsi_effects_write_their_attributes_in_order() {
    assert_eq!(
        kernel_effect_writes(ScsiEffectKind::Off, ScsiDirection::Forward, true, true, true)
            .unwrap(),
        vec![ScsiWrite::Effect(ScsiEffectKind::Off)]
    );
    assert_eq!(
        kernel_effect_writes(ScsiEffectKind::Static, ScsiDirection::Forward, true, true, true)
            .unwrap(),
        vec![ScsiWrite::Palette, ScsiWrite::Effect(ScsiEffectKind::Static)]
    );
    assert_eq!(
        kernel_effect_writes(ScsiEffectKind::Flashing, ScsiDirection::Forward, true, true, false)
            .unwrap(),
        vec![
            ScsiWrite::Palette,
            ScsiWrite::Speed,
            ScsiWrite::Effect(ScsiEffectKind::Flashing)
        ]
    );
    assert_eq!(
        kernel_effect_writes(ScsiEffectKind::RainbowWave, ScsiDirection::Reverse, true, true, true)
            .unwrap(),
        vec![
            ScsiWrite::Speed,
            ScsiWrite::Direction(ScsiDirection::Reverse),
            ScsiWrite::Effect(ScsiEffectKind::RainbowWave)
        ]
    );
    assert_eq!(
        kernel_effect_writes(ScsiEffectKind::RainbowCycle, ScsiDirection::Forward, true, false, true)
            .unwrap(),
        vec![ScsiWrite::Effect(ScsiEffectKind::RainbowCycle)]
    );
    assert!(matches!(
        kernel_effect_writes(ScsiEffectKind::Unsupported, ScsiDirection::Forward, true, true, true),
        Err(PlatformError::NotSupported)
    ));
}

#[test]
fn scsi_kernel_names() {
    assert_eq!(effect_name(ScsiEffectKind::Breathe), Some("breathing"));
    assert_eq!(effect_name(ScsiEffectKind::Flashing), Some("strobe"));
    assert_eq!(effect_name(ScsiEffectKind::RainbowCycle), Some("spectrum_cycle"));
    assert_eq!(effect_name(ScsiEffectKind::Unsupported), None);
    assert_eq!(direction_name(ScsiDirection::Forward), "right");
    assert_eq!(direction_name(ScsiDirection::Reverse), "left");
    assert_eq!(
        effect_palette((1, 2, 3), (4, 5, 6), (7, 8, 9), (10, 11, 12)),
        vec![(1, 2, 3), (4, 5, 6), (7, 8, 9), (10, 11, 12)]
    );
}

#[test]
fn slash_brightness_rules() {
    assert_eq!(enable_brightness(true, 0), (0x88, 0x88));
    assert_eq!(enable_brightness(true, 0x20), (0x20, 0x20));
    assert_eq!(enable_brightness(false, 0x20), (0x20, 0));
    assert_eq!(shown_brightness(false, 0x40), 0);
    assert_eq!(shown_brightness(true, 0x40), 0x40);
    assert!(enabled_at(1));
    assert!(!enabled_at(0));
}

#[test]
fn lamparray_timing_and_power() {
    assert_eq!(effect_timing(Speed::Low, 0), (33, 121));
    assert_eq!(effect_timing(Speed::High, 0), (33, 24));
    assert_eq!(effect_timing(Speed::Med, 50_001), (51, 39));
    assert_eq!(effect_timing(Speed::High, 2_000_000), (2000, 1));
    assert_eq!(cycle_position(130, 121), 9);
    assert!(is_single_push(AuraModeNum::Static));
    assert!(!is_single_push(AuraModeNum::Breathe));
    assert_eq!(power_intensity(true), 255);
    assert_eq!(power_intensity(false), 0);
}

#[test]
fn lamparray_paints_every_lamp_or_refuses() {
    let mut attr = [0u8; 23];
    attr[1] = 3;
    assert_eq!(
        lamp_range_report(&attr, 9, 8, 7, 128).unwrap(),
        [0x45, 0x01, 0x00, 0x00, 2, 0, 9, 8, 7, 128]
    );
    attr[1] = 0;
    match lamp_range_report(&attr, 9, 8, 7, 128) {
        Err(RogError::MissingFunction(m)) => assert_eq!(m, "LampArray reports zero lamps"),
        other => panic!("unexpected {other:?}"),
    }
}

fn endpoint(devpath: &str, devnode: Option<&str>, product: Option<&str>, bcd: Option<&str>) -> HidEndpoint {
    HidEndpoint {
        devpath: devpath.to_string(),
        devnode: devnode.map(|d| d.to_string()),
        parent: Ok(Some(UsbParent {
            id_product: product.map(|p| p.to_string()),
            bcd_device: bcd.map(|b| b.to_string()),
        })),
    }
}

#[test]
fn hidraw_endpoint_is_chosen_by_product() {
    let endpoints = vec![
        endpoint("/devices/a", Some("/dev/hidraw0"), Some("1866"), Some("100")),
        endpoint("/devices/b", None, Some("19b6"), Some("1")),
        endpoint("/devices/c", Some("/dev/hidraw2"), Some("19b6"), Some("+312")),
        endpoint("/devices/d", Some("/dev/hidraw3"), Some("19b6"), None),
    ];
    let (i, node) = HidRawNode::new(&endpoints, "19b6").unwrap();
    assert_eq!(i, 2);
    assert_eq!(node.devfs_path(), "/dev/hidraw2");
    assert_eq!(node.prod_id(), "19b6");

    match HidRawNode::new(&endpoints, "abcd") {
        Err(PlatformError::MissingFunction(m)) => assert_eq!(m, "hidraw dev abcd not found"),
        other => panic!("unexpected {other:?}"),
    }

    let failing = vec![
        endpoint("/devices/a", Some("/dev/hidraw0"), Some("1866"), None),
        HidEndpoint {
            devpath: "/devices/x".to_string(),
            devnode: Some("/dev/hidraw1".to_string()),
            parent: Err(IoFailure {
                kind: IoErrorKind::NotFound,
                raw_os_error: Some(2),
            }),
        },
        endpoint("/devices/c", Some("/dev/hidraw2"), Some("19b6"), None),
    ];
    match HidRawNode::new(&failing, "19b6") {
        Err(PlatformError::IoPath(p, f)) => {
            assert_eq!(p, "/devices/x");
            assert_eq!(f.kind, IoErrorKind::NotFound);
        }
        other => panic!("unexpected {other:?}"),
    }
    assert_eq!(HidRawNode::new(&failing, "1866").unwrap().0, 0);
}

#[test]
fn hidraw_from_one_endpoint() {
    let node = HidRawNode::from_device(&endpoint("/devices/a", Some("/dev/hidraw5"), Some("1a30"), Some("7")))
        .unwrap();
    assert_eq!(node.prod_id(), "1a30");
    match HidRawNode::from_device(&endpoint("/devices/a", None, Some("1a30"), None)) {
        Err(PlatformError::MissingFunction(m)) => assert_eq!(m, "hidraw dev no dev path"),
        other => panic!("unexpected {other:?}"),
    }
    assert!(HidRawNode::check_message(&[]).is_err());
    assert!(HidRawNode::check_message(&[0x5d]).is_ok());
}
