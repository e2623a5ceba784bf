use rog_lighting::dynamic_led::{
    format_palette, parse_active_index, parse_speed_range, validate_direct_len, DynamicLed,
    LedNode,
};
use rog_lighting::error::PlatformError;
use rog_lighting::scsi_led::{belongs_to_scsi, BlockDevice, DeviceAncestor, ScsiLed, ScsiLookup};
use rog_lighting::slash_led::SlashLed;

fn node(name: &str, path: &str, attrs: &[&str]) -> LedNode {
    LedNode {
        sysname: name.to_string(),
        syspath: path.to_string(),
        attributes: attrs.iter().map(|a| a.to_string()).collect(),
    }
}

const DL: [&str; 4] = ["effect", "effect_index", "zone_type", "led_count"];

#[test]
fn test_parse_active_aura_mode() {
    let sample = "[auto] unified split\n";
    assert_eq!(parse_active_index(sample).unwrap(), "auto");

    let sample2 = "auto [unified] split\n";
    assert_eq!(parse_active_index(sample2).unwrap(), "unified");
    assert!(parse_active_index("auto unified split").is_err());
}

#[test]
fn test_palette_colors_formatting() {
    let colors = [(255, 0, 128), (0, 255, 64)];
    let palette_str = format_palette(&colors);
    assert_eq!(palette_str, "#ff0080 #00ff40");
}

#[test]
fn validates_exact_direct_frame_size() {
    assert!(validate_direct_len(4, 12).is_ok());
    assert!(validate_direct_len(4, 11).is_err());
    assert!(validate_direct_len(usize::MAX, 0).is_err());
}

#[test]
fn parses_bounded_speed_range() {
    assert_eq!(parse_speed_range("0 2\n").unwrap(), (0, 2));
    assert_eq!(parse_speed_range("[1-4]").unwrap(), (1, 4));
    assert!(parse_speed_range("fast slow").is_err());
    assert!(parse_speed_range("4 1").is_err());
}

#[test]
fn speed_range_errors_are_told_apart() {
    assert!(matches!(parse_speed_range("1 99999999999"), Err(PlatformError::ParseNum)));
    assert!(matches!(parse_speed_range("1 2 3"), Err(PlatformError::InvalidValue)));
    assert!(matches!(parse_speed_range(""), Err(PlatformError::InvalidValue)));
    assert_eq!(parse_speed_range("3 3").unwrap(), (3, 3));
}

#[test]
fn active_index_edge_cases() {
    assert_eq!(parse_active_index("a [] b").unwrap(), "");
    assert!(parse_active_index("[ x").is_err());
    assert_eq!(parse_active_index("x\t[split]").unwrap(), "split");
}

#[test]
fn validates_mandatory_generic_attributes() {
    let mut attrs: Vec<String> = ["effect", "effect_index", "zone_type", "led_count"]
        .iter()
        .map(|a| a.to_string())
        .collect();
    assert!(DynamicLed::is_dynamic_node(&attrs));
    attrs.retain(|a| a != "zone_type");
    assert!(!DynamicLed::is_dynamic_node(&attrs));
}

#[test]
fn mandatory_attributes_make_a_dynamic_node() {
    let nodes = vec![
        node("aura:keyboard", "/sys/class/leds/aura:keyboard", &["effect", "effect_index", "zone_type"]),
        node("aura:keyboard", "/sys/devices/x/leds/aura:keyboard", &DL),
        node("aura:lightbar", "/sys/devices/x/leds/aura:lightbar", &DL),
    ];
    let led = DynamicLed::find("aura:keyboard", &nodes).unwrap();
    assert_eq!(led.path(), "/sys/devices/x/leds/aura:keyboard");
    assert_eq!(led.name(), "aura:keyboard");
    assert!(DynamicLed::is_available("aura:lightbar", &nodes));
    assert!(!DynamicLed::is_available("aura:global", &nodes));
    match DynamicLed::find("aura:global", &nodes) {
        Err(PlatformError::MissingFunction(m)) => {
            assert_eq!(m, "DynamicLed::new(): no dynamic LED named 'aura:global' found")
        }
        other => panic!("unexpected {other:?}"),
    }
    let attrs: Vec<String> = DL[..3].iter().map(|a| a.to_string()).collect();
    assert!(DynamicLed::from_syspath("/sys/x".to_string(), &attrs).is_err());
}

#[test]
fn effect_and_direction_lists() {
    let idx = "static breathing\tstrobe\n";
    assert_eq!(
        DynamicLed::get_supported_effects_list(idx),
        vec!["static", "breathing", "strobe"]
    );
    assert!(DynamicLed::supports_effect(idx, "strobe"));
    assert!(!DynamicLed::supports_effect(idx, "rainbow"));
    assert!(DynamicLed::is_effect_supported(Some(idx), "static"));
    assert!(!DynamicLed::is_effect_supported(None, "static"));
    assert_eq!(DynamicLed::get_supported_directions_list(" left  right "), vec!["left", "right"]);
}

#[test]
fn speed_direction_palette_validation() {
    assert!(matches!(
        DynamicLed::set_supported_speed(1, false, None),
        Err(PlatformError::AttrNotFound(a)) if a == "speed"
    ));
    assert_eq!(DynamicLed::set_supported_speed(7, true, None).unwrap(), 7);
    assert_eq!(DynamicLed::set_supported_speed(2, true, Some("0 2")).unwrap(), 2);
    assert!(matches!(
        DynamicLed::set_supported_speed(3, true, Some("0 2")),
        Err(PlatformError::InvalidValue)
    ));
    assert!(DynamicLed::set_supported_direction("left", true, Some("left right")).is_ok());
    assert!(DynamicLed::set_supported_direction("up", true, Some("left right")).is_err());
    assert!(DynamicLed::set_supported_direction("up", true, None).is_ok());
    assert!(matches!(
        DynamicLed::set_supported_direction("up", false, None),
        Err(PlatformError::AttrNotFound(a)) if a == "direction"
    ));
    let colors = [(1, 2, 3), (0xaa, 0xbb, 0xcc)];
    assert_eq!(
        DynamicLed::set_palette_colors(&colors, true, Some(2)).unwrap(),
        "#010203 #aabbcc"
    );
    assert!(DynamicLed::set_palette_colors(&colors, true, Some(1)).is_err());
    assert!(DynamicLed::set_palette_colors(&colors, false, None).is_err());
    assert_eq!(format_palette(&[]), "");
}

#[test]
fn asus_aura_mode_needs_aura_name_and_attribute() {
    let nodes = vec![
        node("aura:global", "/sys/devices/x/leds/aura:global", &DL),
        node("asus::kbd_backlight", "/sys/devices/x/leds/asus::kbd_backlight", &DL),
    ];
    let global = DynamicLed::find("aura:global", &nodes).unwrap();
    let kbd = DynamicLed::find("asus::kbd_backlight", &nodes).unwrap();
    assert!(global.has_asus_aura_mode(true));
    assert!(!global.has_asus_aura_mode(false));
    assert!(!kbd.has_asus_aura_mode(true));
    assert!(rog_lighting::dynamic_led::check_asus_aura_mode("split").is_ok());
    assert!(rog_lighting::dynamic_led::check_asus_aura_mode("both").is_err());
}

#[test]
fn matches_only_exact_scsi_ancestry() {
    let scsi = "/sys/devices/usb/2:0:0:0";
    assert!(belongs_to_scsi("/sys/devices/usb/2:0:0:0/leds/asus-aura-scsi", scsi));
    assert!(!belongs_to_scsi("/sys/devices/usb/2:0:0:01/leds/asus-aura-scsi", scsi));
}

#[test]
fn scsi_led_is_found_below_its_own_device() {
    let nodes = vec![
        node("asus-aura-scsi", "/sys/devices/usb/2:0:0:01/leds/asus-aura-scsi", &DL),
        node("asus-aura-scsi", "/sys/devices/usb/2:0:0:0/leds/asus-aura-scsi", &DL),
    ];
    let ancestors = vec![
        DeviceAncestor {
            subsystem: Some("block".to_string()),
            sysname: "sda".to_string(),
            syspath: "/sys/devices/usb/2:0:0:0/block/sda".to_string(),
        },
        DeviceAncestor {
            subsystem: Some("scsi".to_string()),
            sysname: "2:0:0:0".to_string(),
            syspath: "/sys/devices/usb/2:0:0:0".to_string(),
        },
    ];
    let block = BlockDevice {
        syspath: "/sys/devices/usb/2:0:0:0/block/sda".to_string(),
        devnode: Some("/dev/sda".to_string()),
        ancestors,
    };
    let led = ScsiLed::find_for_block(&block, &nodes).unwrap();
    assert_eq!(led.path(), "/sys/devices/usb/2:0:0:0/leds/asus-aura-scsi");
    let orphan = BlockDevice {
        syspath: "/sys/devices/usb/2:0:0:0/block/sdb".to_string(),
        devnode: Some("/dev/sdb".to_string()),
        ancestors: vec![DeviceAncestor {
            subsystem: Some("scsi".to_string()),
            sysname: "host2".to_string(),
            syspath: "/sys/devices/usb/host2".to_string(),
        }],
    };
    match ScsiLed::find_for_block(&orphan, &nodes) {
        Err(PlatformError::MissingFunction(m)) => assert_eq!(
            m,
            "No SCSI parent found for /sys/devices/usb/2:0:0:0/block/sdb"
        ),
        other => panic!("unexpected {other:?}"),
    }
    let blocks = vec![orphan, block];
    assert_eq!(
        ScsiLed::find_for_dev("/dev/sda", &blocks, &nodes).unwrap().path(),
        "/sys/devices/usb/2:0:0:0/leds/asus-aura-scsi"
    );
    match ScsiLed::find_for_dev("/dev/sdc", &blocks, &nodes) {
        Err(PlatformError::MissingFunction(m)) => assert_eq!(m, "No block device found for /dev/sdc"),
        other => panic!("unexpected {other:?}"),
    }
    match ScsiLed::find_for_dev("/dev/sda", &blocks, &nodes[..1]) {
        Err(PlatformError::MissingFunction(m)) => assert_eq!(
            m,
            "Dynamic Lighting LED for /sys/devices/usb/2:0:0:0 is not registered yet"
        ),
        other => panic!("unexpected {other:?}"),
    }
    let plain = vec![node("asus-aura-scsi", "/sys/devices/usb/2:0:0:0/leds/x", &[])];
    match ScsiLed::find_for_dev("/dev/sda", &blocks, &plain) {
        Err(PlatformError::MissingFunction(m)) => assert_eq!(
            m,
            "/sys/devices/usb/2:0:0:0/leds/x is not a Dynamic Lighting LED node"
        ),
        other => panic!("unexpected {other:?}"),
    }
    assert!(ScsiLed::is_available(&nodes));
    assert!(!ScsiLed::is_available(&nodes[..0]));
    assert_eq!(ScsiLed::new(&nodes).unwrap().path(), "/sys/devices/usb/2:0:0:01/leds/asus-aura-scsi");
    match ScsiLed::new(&nodes[..0]) {
        Err(PlatformError::MissingFunction(m)) => {
            assert_eq!(m, "ScsiLed::new(): no asus scsi dynamic LED device found")
        }
        other => panic!("unexpected {other:?}"),
    }
    let not_dynamic = vec![node("asus-aura-scsi", "/sys/devices/usb/leds/asus-aura-scsi", &[])];
    match ScsiLed::new(&not_dynamic) {
        Err(PlatformError::MissingFunction(m)) => {
            assert_eq!(m, "DynamicLed::new(): no dynamic LED named 'asus-aura-scsi' found")
        }
        other => panic!("unexpected {other:?}"),
    }
}

#[test]
fn slash_led_location() {
    let nodes = vec![
        node("asus::kbd", "/sys/a", &[]),
        node("asus::slash_bar", "/sys/b", &[]),
        node("slash2", "/sys/c", &[]),
    ];
    assert_eq!(SlashLed::new(true, &nodes).unwrap().path(), "/sys/class/leds/asus::slash");
    assert_eq!(SlashLed::new(false, &nodes).unwrap().path(), "/sys/b");
    assert!(!SlashLed::is_available(false, &nodes[..1]));
    match SlashLed::new(false, &nodes[..1]) {
        Err(PlatformError::MissingFunction(m)) => {
            assert_eq!(m, "SlashLed:new(), asus::slash not found")
        }
        other => panic!("unexpected {other:?}"),
    }
}

#[test]
fn scsi_lookup_retries_only_while_the_led_registers() {
    let registered = vec![node(
        "asus-aura-scsi",
        "/sys/devices/usb/2:0:0:0/leds/asus-aura-scsi",
        &DL,
    )];
    let other = vec![node(
        "asus-aura-scsi",
        "/sys/devices/usb/2:0:0:01/leds/asus-aura-scsi",
        &DL,
    )];
    let blocks = vec![BlockDevice {
        syspath: "/sys/devices/usb/2:0:0:0/block/sda".to_string(),
        devnode: Some("/dev/sda".to_string()),
        ancestors: vec![DeviceAncestor {
            subsystem: Some("scsi".to_string()),
            sysname: "2:0:0:0".to_string(),
            syspath: "/sys/devices/usb/2:0:0:0".to_string(),
        }],
    }];
    assert!(ScsiLed::led_pending(&blocks[0], &other));
    assert!(!ScsiLed::led_pending(&blocks[0], &registered));
    match ScsiLed::lookup_dev_step("/dev/sda", &blocks, &registered, 0, 3) {
        ScsiLookup::Found(l) => assert_eq!(l.path(), "/sys/devices/usb/2:0:0:0/leds/asus-aura-scsi"),
        other => panic!("unexpected {other:?}"),
    }
    assert!(matches!(
        ScsiLed::lookup_dev_step("/dev/sda", &blocks, &other, 1, 3),
        ScsiLookup::Retry
    ));
    match ScsiLed::lookup_dev_step("/dev/sda", &blocks, &other, 2, 3) {
        ScsiLookup::Fail(PlatformError::MissingFunction(m)) => assert_eq!(
            m,
            "Dynamic Lighting LED for /sys/devices/usb/2:0:0:0 is not registered yet"
        ),
        other => panic!("unexpected {other:?}"),
    }
    assert!(matches!(
        ScsiLed::lookup_dev_step("/dev/sdb", &blocks, &other, 0, 3),
        ScsiLookup::Fail(PlatformError::MissingFunction(_))
    ));
    assert!(matches!(
        ScsiLed::lookup_step(&blocks[0], &other, 0, 2),
        ScsiLookup::Retry
    ));
}
