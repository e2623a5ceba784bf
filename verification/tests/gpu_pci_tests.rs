use rog_lighting::error::PlatformError;
use rog_lighting::gpu_pci::{
    asus_dgpu_disable_exists, asus_dgpu_disable_path, asus_dgpu_disabled, asus_gpu_mux_discreet,
    asus_gpu_mux_path, boot_vga_from_text, first_existing, get_gpu_names, get_gpu_power_status,
    gpu_model_name, is_discrete_gpu, pci_bdf, telemetry_plan, is_display_class, is_gpu_vendor, lookup_amdgpu_name, Device,
    GfxPower, PciEntry, ASUS_DGPU_DISABLE_PATHS, ASUS_GPU_MUX_PATHS,
};
use std::str::FromStr;

fn entry(path: &str, vendor: u32, device: u32, class: u32, boot_vga: Option<bool>) -> PciEntry {
    PciEntry {
        dev_path: path.to_string(),
        vendor: Some(vendor),
        class: Some(class),
        device: Some(device),
        boot_vga,
    }
}

#[test]
fn gpu_vendor_matching() {
    assert!(is_gpu_vendor("10DE:2820"));
    assert!(is_gpu_vendor("1002:1638"));
    assert!(is_gpu_vendor("8086:A7A0"));
    assert!(!is_gpu_vendor("10EC:8168"));
    assert!(!is_gpu_vendor(""));
    assert!(!is_gpu_vendor("10de:2820"));
}

#[test]
fn nvidia_is_always_discrete() {
    assert!(is_discrete_gpu("10DE:2520", None, 0));
    assert!(is_discrete_gpu("10DE:2520", Some(true), 1));
    assert!(is_discrete_gpu("10DE:2520", Some(false), 0));
}

#[test]
fn lone_amd_is_igpu_even_without_boot_vga() {
    assert!(!is_discrete_gpu("1002:1681", None, 1));
    assert!(!is_discrete_gpu("1002:1681", Some(false), 1));
}

#[test]
fn intel_is_always_igpu() {
    assert!(!is_discrete_gpu("8086:A7A0", Some(true), 0));
    assert!(!is_discrete_gpu("8086:A7A0", Some(false), 0));
    assert!(!is_discrete_gpu("8086:A7A0", None, 1));
}

#[test]
fn dual_amd_uses_boot_vga() {
    assert!(!is_discrete_gpu("1002:1681", Some(true), 2));
    assert!(is_discrete_gpu("1002:73DF", Some(false), 2));
    assert!(is_discrete_gpu("1002:73DF", None, 2));
}

#[test]
fn display_class_matching() {
    assert!(is_display_class("30000"));
    assert!(is_display_class("30200"));
    assert!(is_display_class("38000"));
    assert!(is_display_class("0x030000"));
    assert!(is_display_class("0x030200"));
    assert!(!is_display_class("40300"));
    assert!(!is_display_class("040300"));
    assert!(!is_display_class("20000"));
    assert!(!is_display_class("c0330"));
    assert!(!is_display_class("3"));
    assert!(!is_display_class(""));
    assert!(!is_display_class("not-hex"));
}

#[test]
fn enumerate_hybrid_amd_nvidia_skips_audio() {
    let entries = vec![
        entry("/sys/devices/pci0000:00/0000:04:00.0", 0x1002, 0x1681, 0x030000, Some(true)),
        entry("/sys/devices/pci0000:00/0000:01:00.0", 0x10de, 0x24dc, 0x030200, Some(false)),
        entry("/sys/devices/pci0000:00/0000:01:00.1", 0x10de, 0x228e, 0x040300, None),
    ];
    let devices = Device::find(&entries);
    assert_eq!(devices.len(), 2);
    let igpu = devices.iter().find(|d| !d.is_dgpu()).expect("iGPU");
    let dgpu = devices.iter().find(|d| d.is_dgpu()).expect("dGPU");
    assert_eq!(igpu.pci_id(), "1002:1681");
    assert_eq!(dgpu.pci_id(), "10DE:24DC");
}

#[test]
fn enumerate_intel_igpu_plus_nvidia() {
    let entries = vec![
        entry("/sys/devices/pci0000:00/0000:00:02.0", 0x8086, 0xa7a0, 0x030000, Some(true)),
        entry("/sys/devices/pci0000:00/0000:01:00.0", 0x10de, 0x28e0, 0x030200, Some(false)),
    ];
    let devices = Device::find(&entries);
    assert_eq!(devices.len(), 2);
    let igpu = devices.iter().find(|d| !d.is_dgpu()).expect("iGPU");
    let dgpu = devices.iter().find(|d| d.is_dgpu()).expect("dGPU");
    assert_eq!(igpu.pci_id(), "8086:A7A0");
    assert_eq!(dgpu.pci_id(), "10DE:28E0");
}

#[test]
fn enumerate_dual_amd_uses_boot_vga() {
    let entries = vec![
        entry("/sys/devices/pci0000:00/0000:05:00.0", 0x1002, 0x1681, 0x030000, Some(true)),
        entry("/sys/devices/pci0000:00/0000:01:00.0", 0x1002, 0x73df, 0x030000, Some(false)),
    ];
    let devices = Device::find(&entries);
    assert_eq!(devices.len(), 2);
    let igpu = devices.iter().find(|d| !d.is_dgpu()).expect("iGPU");
    let dgpu = devices.iter().find(|d| d.is_dgpu()).expect("dGPU");
    assert_eq!(igpu.pci_id(), "1002:1681");
    assert_eq!(dgpu.pci_id(), "1002:73DF");
}

#[test]
fn enumeration_skips_unreadable_entries_and_pads_ids() {
    let entries = vec![
        PciEntry {
            dev_path: "/sys/devices/a".to_string(),
            vendor: None,
            class: Some(0x030000),
            device: Some(1),
            boot_vga: None,
        },
        PciEntry {
            dev_path: "/sys/devices/b".to_string(),
            vendor: Some(0x10de),
            class: None,
            device: Some(1),
            boot_vga: None,
        },
        PciEntry {
            dev_path: "/sys/devices/c".to_string(),
            vendor: Some(0x10de),
            class: Some(0x030200),
            device: None,
            boot_vga: None,
        },
    ];
    let devices = Device::find(&entries);
    assert_eq!(devices.len(), 1);
    assert_eq!(devices[0].pci_id(), "10DE:0000");
    assert_eq!(devices[0].dev_path(), "/sys/devices/c");
    assert!(devices[0].is_dgpu());
}

#[test]
fn gfx_power_from_str_active() {
    assert_eq!(GfxPower::from_str("active").unwrap(), GfxPower::Active);
}

#[test]
fn gfx_power_from_str_active_case_insensitive() {
    assert_eq!(GfxPower::from_str("ACTIVE").unwrap(), GfxPower::Active);
    assert_eq!(GfxPower::from_str("Active").unwrap(), GfxPower::Active);
}

#[test]
fn gfx_power_from_str_suspended() {
    assert_eq!(GfxPower::from_str("suspended").unwrap(), GfxPower::Suspended);
    assert_eq!(GfxPower::from_str("suspending").unwrap(), GfxPower::Suspended);
}

#[test]
fn gfx_power_from_str_dgpu_disabled() {
    assert_eq!(GfxPower::from_str("dgpu_disabled").unwrap(), GfxPower::AsusDisabled);
}

#[test]
fn gfx_power_from_str_asus_mux_discreet() {
    assert_eq!(
        GfxPower::from_str("asus_mux_discreet").unwrap(),
        GfxPower::AsusMuxDiscreet
    );
}

#[test]
fn gfx_power_from_str_handles_whitespace() {
    assert_eq!(GfxPower::from_str("  suspended\n").unwrap(), GfxPower::Suspended);
    assert_eq!(GfxPower::from_str("\tactive ").unwrap(), GfxPower::Active);
}

#[test]
fn gfx_power_from_str_unknown_fallback() {
    assert_eq!(
        GfxPower::from_str("auto").unwrap(),
        GfxPower::Unknown,
        "unexpected kernel string should map to Unknown"
    );
    assert_eq!(GfxPower::from_str("unsupported").unwrap(), GfxPower::Unknown);
    assert_eq!(GfxPower::from_str("").unwrap(), GfxPower::Unknown);
    assert_eq!(GfxPower::from_str("garbage").unwrap(), GfxPower::Unknown);
}

#[test]
fn gfx_power_display_roundtrip() {
    let variants = [
        GfxPower::Active,
        GfxPower::Suspended,
        GfxPower::AsusDisabled,
        GfxPower::AsusMuxDiscreet,
        GfxPower::Unknown,
    ];
    for &variant in &variants {
        let s = variant.to_string();
        let parsed = GfxPower::from_str(&s).unwrap();
        assert_eq!(variant, parsed, "failed round-trip for {variant:?}");
    }
}

#[test]
fn gfx_power_names_are_kernel_spellings() {
    assert_eq!(GfxPower::Active.as_str(), "active");
    assert_eq!(GfxPower::Suspended.as_str(), "suspended");
    assert_eq!(GfxPower::AsusDisabled.as_str(), "dgpu_disabled");
    assert_eq!(GfxPower::AsusMuxDiscreet.as_str(), "asus_mux_discreet");
    assert_eq!(GfxPower::Unknown.as_str(), "unknown");
}

#[test]
fn gfx_power_default_is_unknown() {
    assert_eq!(GfxPower::default(), GfxPower::Unknown);
}

#[test]
fn gfx_power_copy_clone() {
    let a = GfxPower::Active;
    let b = a;
    let c = a;
    assert_eq!(a, b);
    assert_eq!(b, c);
}

#[test]
fn discrete_gpu_nvidia_always() {
    assert!(is_discrete_gpu("10DE:2520", None, 1));
    assert!(is_discrete_gpu("10DE:2820", Some(true), 1));
}

#[test]
fn discrete_gpu_hybrid_amd_nvidia() {
    assert!(!is_discrete_gpu("1002:1681", Some(true), 1));
    assert!(is_discrete_gpu("10DE:24DC", Some(false), 1));
}

#[test]
fn discrete_gpu_mux_amd_still_igpu() {
    assert!(!is_discrete_gpu("1002:1681", Some(false), 1));
    assert!(is_discrete_gpu("10DE:24DC", Some(true), 1));
}

#[test]
fn discrete_gpu_dual_amd() {
    assert!(!is_discrete_gpu("1002:1681", Some(true), 2));
    assert!(is_discrete_gpu("1002:73DF", Some(false), 2));
}

#[test]
fn discrete_gpu_intel_plus_nvidia() {
    assert!(!is_discrete_gpu("8086:A7A0", Some(true), 0));
    assert!(!is_discrete_gpu("8086:A7A0", Some(false), 0));
    assert!(is_discrete_gpu("10DE:28E0", Some(false), 0));
}

#[test]
fn first_existing_returns_first_present_path() {
    let missing = "/tmp/asusctl_test_first_existing/missing";
    let real = "/tmp/asusctl_test_first_existing/present";
    assert_eq!(
        first_existing(&[missing, real], &[false, true]),
        Some(real.to_string())
    );
    assert_eq!(
        first_existing(&[real, missing], &[true, false]),
        Some(real.to_string())
    );
    assert_eq!(first_existing(&[missing], &[false]), None);
    assert_eq!(first_existing(&[], &[]), None);
}

#[test]
fn first_existing_picks_the_first_of_several_present() {
    let paths = ["/a/missing", "/b/present", "/c/present"];
    assert_eq!(first_existing(&paths, &[false, true, true]), Some("/b/present".to_string()));
    assert_eq!(first_existing(&paths, &[true, false, true]), Some("/a/missing".to_string()));
    assert_eq!(first_existing(&paths, &[false, false, false]), None);
}

#[test]
fn asus_paths_prefer_firmware_attributes() {
    assert_eq!(
        asus_dgpu_disable_path(&[true, true]),
        Some(ASUS_DGPU_DISABLE_PATHS[0].to_string())
    );
    assert_eq!(
        asus_dgpu_disable_path(&[false, true]),
        Some(ASUS_DGPU_DISABLE_PATHS[1].to_string())
    );
    assert_eq!(asus_gpu_mux_path(&[false, false]), None);
    assert_eq!(asus_gpu_mux_path(&[false, true]), Some(ASUS_GPU_MUX_PATHS[1].to_string()));
    assert!(asus_dgpu_disable_exists(&[false, true]));
    assert!(!asus_dgpu_disable_exists(&[false, false]));
}

#[test]
fn asus_digits_decode() {
    assert!(asus_dgpu_disabled(Ok(b'1')).unwrap());
    assert!(!asus_dgpu_disabled(Ok(b'0')).unwrap());
    assert!(asus_dgpu_disabled(Err(PlatformError::NotSupported)).is_err());
    assert!(!asus_gpu_mux_discreet(Ok(b'1')).unwrap());
    assert!(asus_gpu_mux_discreet(Ok(b'0')).unwrap());
}

#[test]
fn read_boot_vga_parses_sysfs() {
    assert_eq!(boot_vga_from_text(None), None);
    assert_eq!(boot_vga_from_text(Some("1\n")), Some(true));
    assert_eq!(boot_vga_from_text(Some("0")), Some(false));
    assert_eq!(boot_vga_from_text(Some("auto\n")), None);
}

#[test]
fn unreadable_runtime_status_is_unknown_not_off() {
    let device = Device::new("/sys/devices/x".to_string(), true, "10DE:24DC".to_string());
    assert_eq!(device.get_runtime_status(None).unwrap(), GfxPower::Unknown);
    assert_eq!(device.get_runtime_status(Some("active\n")).unwrap(), GfxPower::Active);
    assert_eq!(
        device.get_runtime_status(Some("suspended\n")).unwrap(),
        GfxPower::Suspended
    );
    assert_eq!(
        device.get_runtime_status(Some("unsupported\n")).unwrap(),
        GfxPower::Unknown
    );
}

#[test]
fn power_status_priorities() {
    let devices = vec![
        Device::new("/i".to_string(), false, "1002:1681".to_string()),
        Device::new("/d".to_string(), true, "10DE:24DC".to_string()),
    ];
    assert_eq!(
        get_gpu_power_status(&devices, Ok(true), Some("active"), Ok(true)),
        GfxPower::AsusDisabled
    );
    assert_eq!(
        get_gpu_power_status(&devices, Ok(false), Some("suspended\n"), Ok(true)),
        GfxPower::Suspended
    );
    assert_eq!(
        get_gpu_power_status(&devices, Err(PlatformError::NotSupported), None, Ok(true)),
        GfxPower::Unknown
    );
    let igpu_only = vec![Device::new("/i".to_string(), false, "1002:1681".to_string())];
    assert_eq!(
        get_gpu_power_status(&igpu_only, Ok(false), None, Ok(true)),
        GfxPower::AsusMuxDiscreet
    );
    assert_eq!(
        get_gpu_power_status(&igpu_only, Ok(false), None, Err(PlatformError::NotSupported)),
        GfxPower::Unknown
    );
}

#[test]
fn amdgpu_ids_lookup() {
    let ids = "# comment\n1681,\tC8,\tAMD Radeon 680M\n73DF, C1, AMD Radeon RX 6800M\n1638, 00,\n";
    assert_eq!(
        lookup_amdgpu_name(ids, "1681", "c8"),
        Some("AMD Radeon 680M".to_string())
    );
    assert_eq!(
        lookup_amdgpu_name(ids, "73df", "C1"),
        Some("AMD Radeon RX 6800M".to_string())
    );
    assert_eq!(lookup_amdgpu_name(ids, "1681", "c9"), None);
    assert_eq!(lookup_amdgpu_name(ids, "1638", "00"), None);
}

#[test]
fn model_name_fallbacks() {
    let ids = "1681, C8, AMD Radeon 680M\n";
    assert_eq!(
        gpu_model_name("1002:1681", Some("0xc8\n"), Some(ids), Some("Rembrandt")),
        "AMD Radeon 680M"
    );
    assert_eq!(
        gpu_model_name("1002:1681", Some("0xc9\n"), Some(ids), Some("Rembrandt")),
        "Rembrandt"
    );
    assert_eq!(
        gpu_model_name("10DE:24DC", None, Some(ids), Some("")),
        "10DE:24DC"
    );
    assert_eq!(gpu_model_name("", None, None, None), "Unknown GPU");
}

#[test]
fn gpu_names_take_last_of_each_kind() {
    let devices = vec![
        Device::new("/a".to_string(), false, "1002:1681".to_string()),
        Device::new("/b".to_string(), true, "10DE:24DC".to_string()),
    ];
    let names = vec!["Radeon".to_string(), "GeForce".to_string()];
    assert_eq!(
        get_gpu_names(&devices, &names),
        ("Radeon".to_string(), "GeForce".to_string())
    );
    assert_eq!(
        get_gpu_names(&[], &[]),
        ("Integrated GPU".to_string(), "Discrete GPU".to_string())
    );
}

#[test]
fn telemetry_probes_dgpu_only_when_active() {
    let active = telemetry_plan(GfxPower::Active);
    assert!(active.probe_dgpu && !active.dgpu_suspended && !active.dgpu_disabled);
    let asleep = telemetry_plan(GfxPower::Suspended);
    assert!(!asleep.probe_dgpu && asleep.dgpu_suspended && !asleep.dgpu_disabled);
    let off = telemetry_plan(GfxPower::AsusDisabled);
    assert!(!off.probe_dgpu && !off.dgpu_suspended && off.dgpu_disabled);
    let unknown = telemetry_plan(GfxPower::Unknown);
    assert!(!unknown.probe_dgpu && !unknown.dgpu_suspended && !unknown.dgpu_disabled);
}

#[test]
fn bdf_is_last_path_component() {
    assert_eq!(
        pci_bdf("/sys/devices/pci0000:00/0000:01:00.0"),
        Some("0000:01:00.0".to_string())
    );
    assert_eq!(pci_bdf("/"), None);
    let d = Device::new("/sys/devices/pci0000:00/0000:01:00.0".to_string(), true, "10DE:24DC".to_string());
    assert_eq!(d.nvml_fallback_bdf(Some("active\n")), Some("0000:01:00.0".to_string()));
    assert_eq!(d.nvml_fallback_bdf(Some("suspended")), None);
    let amd = Device::new("/sys/devices/pci0000:00/0000:04:00.0".to_string(), false, "1002:1681".to_string());
    assert_eq!(amd.nvml_fallback_bdf(Some("active")), None);
}
