//! GPU PCI device detection and power status.
//!
//! Display GPUs are enumerated from sysfs (`/sys/bus/pci/devices`). NVIDIA is
//! always the dGPU; Intel, if present, is a single iGPU; AMD is the iGPU unless
//! two AMD display GPUs exist, in which case `boot_vga` selects the APU. The
//! sysfs reads happen outside this library, which decides on what they return.

use vstd::prelude::*;

use crate::error::PlatformError;
use crate::path::{file_name, path_file_name, path_starts_with, starts_with_path};
use crate::text::{
    chars_eq_ignore_ascii_case, plain_lowercase, chars_eq_str, chars_of, concat, eq_ignore_ascii_case, has_prefix,
    hex_upper_4, hex_upper_digits, pad_zeros, parse_u32_radix, parse_unsigned, pieces,
    split_char, starts_with, str_eq, string_of, to_lowercase, trim, trim_start_matches,
    trim_start_matching, trim_white, unicode_lowercase,
};

verus! {

/// The ASUS `dgpu_disable` attribute: the firmware-attributes location first,
/// then the deprecated `asus-nb-wmi` one. Both report the same value.
pub const ASUS_DGPU_DISABLE_PATHS: [&'static str; 2] = [
    "/sys/class/firmware-attributes/asus-armoury/attributes/dgpu_disable/current_value",
    "/sys/devices/platform/asus-nb-wmi/dgpu_disable",
];

/// The ASUS `gpu_mux_mode` attribute, in the same order.
pub const ASUS_GPU_MUX_PATHS: [&'static str; 2] = [
    "/sys/class/firmware-attributes/asus-armoury/attributes/gpu_mux_mode/current_value",
    "/sys/devices/platform/asus-nb-wmi/gpu_mux_mode",
];

/// Where the PCI devices are listed.
pub const PCI_DEVICES_PATH: &'static str = "/sys/bus/pci/devices";

/// Whether `paths[k]` is the first path marked present.
pub open spec fn first_present_at(present: Seq<bool>, k: int) -> bool {
    0 <= k < present.len() && present[k] && forall|j: int| 0 <= j < k ==> !present[j]
}

/// The first of `paths` that this machine actually has, given for each path
/// whether it exists.
pub fn first_existing(paths: &[&str], present: &[bool]) -> (r: Option<String>)
    requires
        paths@.len() == present@.len(),
    ensures
        r is Some <==> exists|k: int| 0 <= k < present@.len() && present@[k],
        r matches Some(p) ==> exists|k: int| first_present_at(present@, k) && p@ == paths@[k]@,
{
    let mut i: usize = 0;
    while i < paths.len()
        invariant
            paths@.len() == present@.len(),
            0 <= i <= paths@.len(),
            forall|k: int| 0 <= k < i ==> !present@[k],
        decreases paths.len() - i,
    {
        if present[i] {
            assert(first_present_at(present@, i as int));
            return Some(string_of(chars_of(paths[i]).as_slice()));
        }
        i = i + 1;
    }
    None
}

/// Path of the ASUS `dgpu_disable` attribute, if this machine has one.
pub fn asus_dgpu_disable_path(present: &[bool; 2]) -> (r: Option<String>)
    ensures
        r is Some <==> (present@[0] || present@[1]),
        r matches Some(p) ==> p@ == (if present@[0] {
            ASUS_DGPU_DISABLE_PATHS@[0]
        } else {
            ASUS_DGPU_DISABLE_PATHS@[1]
        })@,
{
    let r = first_existing(&ASUS_DGPU_DISABLE_PATHS, present);
    proof {
        if present@[0] {
            assert(present@[0]);
        } else if present@[1] {
            assert(present@[1]);
        }
    }
    r
}

/// Path of the ASUS `gpu_mux_mode` attribute, if this machine has one.
pub fn asus_gpu_mux_path(present: &[bool; 2]) -> (r: Option<String>)
    ensures
        r is Some <==> (present@[0] || present@[1]),
        r matches Some(p) ==> p@ == (if present@[0] {
            ASUS_GPU_MUX_PATHS@[0]
        } else {
            ASUS_GPU_MUX_PATHS@[1]
        })@,
{
    let r = first_existing(&ASUS_GPU_MUX_PATHS, present);
    proof {
        if present@[0] {
            assert(present@[0]);
        } else if present@[1] {
            assert(present@[1]);
        }
    }
    r
}

/// Whether the ASUS `dgpu_disable` attribute exists.
pub fn asus_dgpu_disable_exists(present: &[bool; 2]) -> (r: bool)
    ensures
        r == (present@[0] || present@[1]),
{
    asus_dgpu_disable_path(present).is_some()
}

/// Whether the ASUS `gpu_mux_mode` attribute exists.
pub fn asus_gpu_mux_exists(present: &[bool; 2]) -> (r: bool)
    ensures
        r == (present@[0] || present@[1]),
{
    asus_gpu_mux_path(present).is_some()
}

/// The dGPU is disabled when the first byte of `dgpu_disable` is `1`.
pub fn asus_dgpu_disabled(first_byte: Result<u8, PlatformError>) -> (r: Result<bool, PlatformError>)
    ensures
        r == (match first_byte {
            Ok(b) => Ok::<bool, PlatformError>(b == 0x31),
            Err(e) => Err(e),
        }),
{
    match first_byte {
        Ok(b) => Ok(b == 0x31),
        Err(e) => Err(e),
    }
}

/// The MUX is in discreet (dGPU) mode when the first byte of `gpu_mux_mode`
/// is `0` (`1` is Optimus).
pub fn asus_gpu_mux_discreet(first_byte: Result<u8, PlatformError>) -> (r: Result<bool, PlatformError>)
    ensures
        r == (match first_byte {
            Ok(b) => Ok::<bool, PlatformError>(b == 0x30),
            Err(e) => Err(e),
        }),
{
    match first_byte {
        Ok(b) => Ok(b == 0x30),
        Err(e) => Err(e),
    }
}

/// The runtime power status of the discrete GPU.
#[derive(Debug, Clone, Copy, PartialEq, Eq, Structural)]
pub enum GfxPower {
    Active,
    Suspended,
    AsusDisabled,
    AsusMuxDiscreet,
    Unknown,
}

impl Default for GfxPower {
    fn default() -> (r: Self)
        ensures
            r == GfxPower::Unknown,
    {
        GfxPower::Unknown
    }
}

/// The kernel spelling of a power status.
pub open spec fn gfx_power_name(g: GfxPower) -> Seq<char> {
    match g {
        GfxPower::Active => "active"@,
        GfxPower::Suspended => "suspended"@,
        GfxPower::AsusDisabled => "dgpu_disabled"@,
        GfxPower::AsusMuxDiscreet => "asus_mux_discreet"@,
        GfxPower::Unknown => "unknown"@,
    }
}

/// The power status of lowercase, trimmed text. `suspending` is a runtime-PM
/// transition and counts as asleep; anything unexpected is `Unknown`.
pub open spec fn gfx_power_from_name(t: Seq<char>) -> GfxPower {
    if t == "active"@ {
        GfxPower::Active
    } else if t == "suspended"@ || t == "suspending"@ {
        GfxPower::Suspended
    } else if t == "dgpu_disabled"@ {
        GfxPower::AsusDisabled
    } else if t == "asus_mux_discreet"@ {
        GfxPower::AsusMuxDiscreet
    } else {
        GfxPower::Unknown
    }
}

impl GfxPower {
    /// The kernel spelling of this status.
    pub fn as_str(&self) -> (r: &'static str)
        ensures
            r@ == gfx_power_name(*self),
    {
        match self {
            GfxPower::Active => "active",
            GfxPower::Suspended => "suspended",
            GfxPower::AsusDisabled => "dgpu_disabled",
            GfxPower::AsusMuxDiscreet => "asus_mux_discreet",
            GfxPower::Unknown => "unknown",
        }
    }

    /// The kernel spelling of this status as an owned string.
    pub fn to_string(&self) -> (r: String)
        ensures
            r@ == gfx_power_name(*self),
    {
        self.as_str().to_owned()
    }

    /// The status named by already lowercased text, ignoring surrounding
    /// whitespace.
    pub fn from_lowercase(t: &str) -> (r: Self)
        ensures
            r == gfx_power_from_name(trim_white(t@)),
    {
        let cs = chars_of(t);
        let w = trim(cs.as_slice());
        if chars_eq_str(w.as_slice(), "active") {
            GfxPower::Active
        } else if chars_eq_str(w.as_slice(), "suspended") || chars_eq_str(w.as_slice(), "suspending") {
            GfxPower::Suspended
        } else if chars_eq_str(w.as_slice(), "dgpu_disabled") {
            GfxPower::AsusDisabled
        } else if chars_eq_str(w.as_slice(), "asus_mux_discreet") {
            GfxPower::AsusMuxDiscreet
        } else {
            GfxPower::Unknown
        }
    }

    /// Parse a status in any case, ignoring surrounding whitespace; anything
    /// unexpected is `Unknown`.
    pub fn parse(s: &str) -> (r: Self)
        ensures
            r == gfx_power_from_name(trim_white(unicode_lowercase(s@))),
            plain_lowercase(s@) ==> r == gfx_power_from_name(trim_white(s@)),
            forall|g: GfxPower| s@ == gfx_power_name(g) ==> r == g,
    {
        proof {
            assert forall|g: GfxPower| s@ == gfx_power_name(g) implies plain_lowercase(s@) by {
                lemma_gfx_power_names_plain(g);
            }
            assert forall|g: GfxPower| s@ == gfx_power_name(g) implies gfx_power_from_name(
                trim_white(s@),
            ) == g by {
                lemma_gfx_power_name_round_trip(g);
            }
        }
        let lower = to_lowercase(s);
        Self::from_lowercase(lower.as_str())
    }
}

impl std::str::FromStr for GfxPower {
    type Err = PlatformError;

    fn from_str(s: &str) -> (r: Result<Self, Self::Err>)
        ensures
            r matches Ok(g) && g == gfx_power_from_name(trim_white(unicode_lowercase(s@))),
            forall|g: GfxPower| s@ == gfx_power_name(g) ==> (r matches Ok(h) && h == g),
    {
        Ok(GfxPower::parse(s))
    }
}

/// The kernel spelling of every status is lowercase ASCII.
pub proof fn lemma_gfx_power_names_plain(g: GfxPower)
    ensures
        plain_lowercase(gfx_power_name(g)),
{
    reveal_strlit("active");
    reveal_strlit("suspended");
    reveal_strlit("dgpu_disabled");
    reveal_strlit("asus_mux_discreet");
    reveal_strlit("unknown");
    let n = gfx_power_name(g);
    assert forall|i: int| 0 <= i < n.len() implies (#[trigger] n[i] as u32) < 128 && !('A' <= n[i]
        && n[i] <= 'Z') by {
        match g {
            GfxPower::Active => assert("active"@ =~= seq!['a', 'c', 't', 'i', 'v', 'e']),
            GfxPower::Suspended => assert("suspended"@ =~= seq!['s', 'u', 's', 'p', 'e', 'n', 'd', 'e', 'd']),
            GfxPower::AsusDisabled => assert("dgpu_disabled"@ =~= seq!['d', 'g', 'p', 'u', '_', 'd', 'i', 's', 'a', 'b', 'l', 'e', 'd']),
            GfxPower::AsusMuxDiscreet => assert("asus_mux_discreet"@ =~= seq!['a', 's', 'u', 's', '_', 'm', 'u', 'x', '_', 'd', 'i', 's', 'c', 'r', 'e', 'e', 't']),
            GfxPower::Unknown => assert("unknown"@ =~= seq!['u', 'n', 'k', 'n', 'o', 'w', 'n']),
        }
    }
}

/// The kernel spelling of every status reads back as that status.
pub proof fn lemma_gfx_power_name_round_trip(g: GfxPower)
    ensures
        gfx_power_from_name(trim_white(gfx_power_name(g))) == g,
{
    reveal_strlit("active");
    reveal_strlit("suspended");
    reveal_strlit("suspending");
    reveal_strlit("dgpu_disabled");
    reveal_strlit("asus_mux_discreet");
    reveal_strlit("unknown");
    assert("active"@ =~= seq!['a', 'c', 't', 'i', 'v', 'e']);
    assert("suspended"@ =~= seq!['s', 'u', 's', 'p', 'e', 'n', 'd', 'e', 'd']);
    assert("suspending"@ =~= seq!['s', 'u', 's', 'p', 'e', 'n', 'd', 'i', 'n', 'g']);
    assert("dgpu_disabled"@ =~= seq!['d', 'g', 'p', 'u', '_', 'd', 'i', 's', 'a', 'b', 'l', 'e', 'd']);
    assert("asus_mux_discreet"@ =~= seq!['a', 's', 'u', 's', '_', 'm', 'u', 'x', '_', 'd', 'i', 's', 'c', 'r', 'e', 'e', 't']);
    assert("unknown"@ =~= seq!['u', 'n', 'k', 'n', 'o', 'w', 'n']);
    let n = gfx_power_name(g);
    assert(!crate::text::is_white(n[0]));
    assert(!crate::text::is_white(n.last()));
    assert(crate::text::trim_start_white(n) == n);
    assert(crate::text::trim_end_white(n) == n);
}

/// Nvidia PCI vendor ID, as it appears in `vendor:device` strings.
pub const NVIDIA_PCI_VENDOR: &'static str = "10DE";
/// AMD PCI vendor ID, as it appears in `vendor:device` strings.
pub const AMD_PCI_VENDOR: &'static str = "1002";
/// Intel PCI vendor ID, as it appears in `vendor:device` strings.
pub const INTEL_PCI_VENDOR: &'static str = "8086";

pub const NVIDIA_VENDOR_ID: u32 = 0x10de;
pub const AMD_VENDOR_ID: u32 = 0x1002;
pub const INTEL_VENDOR_ID: u32 = 0x8086;

pub open spec fn is_nvidia_id(pci_id: Seq<char>) -> bool {
    has_prefix(pci_id, "10DE"@)
}

pub open spec fn is_amd_id(pci_id: Seq<char>) -> bool {
    has_prefix(pci_id, "1002"@)
}

pub open spec fn is_intel_id(pci_id: Seq<char>) -> bool {
    has_prefix(pci_id, "8086"@)
}

/// True if a `vendor:device` id belongs to a GPU vendor handled here.
/// Ids are uppercase hex, matching sysfs formatted as `10DE:2520`.
pub fn is_gpu_vendor(pci_id: &str) -> (r: bool)
    ensures
        r == (is_nvidia_id(pci_id@) || is_amd_id(pci_id@) || is_intel_id(pci_id@)),
{
    pci_id_is_nvidia(pci_id) || pci_id_is_amd(pci_id) || pci_id_is_intel(pci_id)
}

pub fn pci_id_is_nvidia(pci_id: &str) -> (r: bool)
    ensures
        r == is_nvidia_id(pci_id@),
{
    starts_with(chars_of(pci_id).as_slice(), chars_of(NVIDIA_PCI_VENDOR).as_slice())
}

pub fn pci_id_is_intel(pci_id: &str) -> (r: bool)
    ensures
        r == is_intel_id(pci_id@),
{
    starts_with(chars_of(pci_id).as_slice(), chars_of(INTEL_PCI_VENDOR).as_slice())
}

pub fn pci_id_is_amd(pci_id: &str) -> (r: bool)
    ensures
        r == is_amd_id(pci_id@),
{
    starts_with(chars_of(pci_id).as_slice(), chars_of(AMD_PCI_VENDOR).as_slice())
}

/// Whether a numeric PCI vendor id is NVIDIA, AMD or Intel.
pub open spec fn gpu_vendor_id(vendor: u32) -> bool {
    vendor == 0x10de || vendor == 0x1002 || vendor == 0x8086
}

/// Whether a numeric PCI class code has the display controller base class `0x03`.
pub open spec fn display_class_id(class: u32) -> bool {
    class / 0x10000 == 3
}

pub fn is_gpu_vendor_id(vendor: u32) -> (r: bool)
    ensures
        r == gpu_vendor_id(vendor),
{
    vendor == NVIDIA_VENDOR_ID || vendor == AMD_VENDOR_ID || vendor == INTEL_VENDOR_ID
}

pub fn is_display_class_id(class: u32) -> (r: bool)
    ensures
        r == display_class_id(class),
{
    assert(class >> 16 == class / 0x10000) by (bit_vector);
    class >> 16 == 0x03
}

/// The number a sysfs hex attribute (or a udev class string) holds: surrounding
/// whitespace trimmed, then leading `0x`s, then leading `0X`s, then hex digits.
pub open spec fn sysfs_hex_value(text: Seq<char>) -> Option<nat> {
    parse_unsigned(
        trim_start_matches(trim_start_matches(trim_white(text), "0x"@), "0X"@),
        16,
        u32::MAX as nat,
    )
}

/// Parse the contents of a sysfs hex attribute such as `vendor` or `class`.
pub fn parse_sysfs_hex(text: &str) -> (r: Option<u32>)
    ensures
        r matches Some(v) ==> sysfs_hex_value(text@) == Some(v as nat),
        r is None ==> sysfs_hex_value(text@) is None,
{
    let cs = chars_of(text);
    let t = trim(cs.as_slice());
    let a = trim_start_matching(t.as_slice(), chars_of("0x").as_slice());
    let b = trim_start_matching(a.as_slice(), chars_of("0X").as_slice());
    parse_u32_radix(b.as_slice(), 16)
}

/// True if a PCI class code is a display controller (base class `0x03`).
///
/// Accepts udev (`30000`, `30200`) and sysfs (`0x030000`) spellings.
pub fn is_display_class(pci_class: &str) -> (r: bool)
    ensures
        r == match sysfs_hex_value(pci_class@) {
            Some(v) => v / 0x10000 == 3,
            None => false,
        },
{
    match parse_sysfs_hex(pci_class) {
        Some(v) => is_display_class_id(v),
        None => false,
    }
}

/// The `boot_vga` flag from the attribute's contents (`None` if unreadable).
pub fn boot_vga_from_text(content: Option<&str>) -> (r: Option<bool>)
    ensures
        r == match content {
            Some(t) => if trim_white(t@) == "1"@ {
                Some(true)
            } else if trim_white(t@) == "0"@ {
                Some(false)
            } else {
                None::<bool>
            },
            None => None,
        },
{
    match content {
        Some(t) => {
            let w = trim(chars_of(t).as_slice());
            if chars_eq_str(w.as_slice(), "1") {
                Some(true)
            } else if chars_eq_str(w.as_slice(), "0") {
                Some(false)
            } else {
                None
            }
        },
        None => None,
    }
}

/// Whether a display GPU is the discrete one: NVIDIA always is, Intel never
/// is, and AMD is only when there are several AMD display GPUs and this one
/// is not the boot VGA device.
pub open spec fn discrete_gpu(pci_id: Seq<char>, boot_vga: Option<bool>, amd_count: nat) -> bool {
    if is_nvidia_id(pci_id) {
        true
    } else if is_intel_id(pci_id) {
        false
    } else {
        amd_count > 1 && boot_vga != Some(true)
    }
}

/// Classify a display-class PCI GPU as discrete.
///
/// - NVIDIA is always the dGPU.
/// - Intel is always the iGPU (one device at most; no Intel dGPU).
/// - AMD is the iGPU unless `amd_count > 1`, then `boot_vga` selects the APU.
pub fn is_discrete_gpu(pci_id: &str, boot_vga: Option<bool>, amd_count: usize) -> (r: bool)
    ensures
        r == discrete_gpu(pci_id@, boot_vga, amd_count as nat),
{
    if pci_id_is_nvidia(pci_id) {
        return true;
    }
    if pci_id_is_intel(pci_id) {
        return false;
    }
    amd_count > 1 && boot_vga != Some(true)
}

/// The PCI bus id (BDF, such as `0000:01:00.0`) of a device: the last
/// component of its sysfs path.
pub fn pci_bdf(dev_path: &str) -> (r: Option<String>)
    ensures
        r is Some <==> file_name(dev_path@) is Some,
        r matches Some(b) ==> file_name(dev_path@) == Some(b@),
{
    match path_file_name(dev_path) {
        Some(b) => Some(string_of(b.as_slice())),
        None => None,
    }
}

/// A PCI GPU device.
#[derive(Debug, Clone)]
pub struct Device {
    /// Path to the device sysfs entry.
    dev_path: String,
    /// Whether this device is the discrete GPU.
    is_dgpu: bool,
    /// Vendor:Device PCI ID string.
    pci_id: String,
}

/// What one `/sys/bus/pci/devices` entry holds for the enumeration: its
/// canonical path and the parsed `vendor`, `class`, `device` and `boot_vga`
/// attributes (`None` where an attribute is missing or unparsable).
#[derive(Debug)]
pub struct PciEntry {
    pub dev_path: String,
    pub vendor: Option<u32>,
    pub class: Option<u32>,
    pub device: Option<u32>,
    pub boot_vga: Option<bool>,
}

/// Whether an entry is a display controller of a GPU vendor handled here.
pub open spec fn entry_is_gpu(e: PciEntry) -> bool {
    &&& e.vendor is Some
    &&& e.class is Some
    &&& gpu_vendor_id(e.vendor->0)
    &&& display_class_id(e.class->0)
}

/// The `VVVV:DDDD` id of an entry, in uppercase hex (`DDDD` is `0000` when the
/// `device` attribute could not be read).
pub open spec fn entry_pci_id(e: PciEntry) -> Seq<char> {
    pad_zeros(hex_upper_digits(e.vendor->0 as nat), 4) + seq![':'] + pad_zeros(
        hex_upper_digits(
            match e.device {
                Some(d) => d as nat,
                None => 0,
            },
        ),
        4,
    )
}

/// The GPU entries of `es`, in order.
pub open spec fn gpu_entries(es: Seq<PciEntry>) -> Seq<PciEntry>
    decreases es.len(),
{
    if es.len() == 0 {
        seq![]
    } else if entry_is_gpu(es.last()) {
        gpu_entries(es.drop_last()).push(es.last())
    } else {
        gpu_entries(es.drop_last())
    }
}

/// How many of the GPU entries `gs` are AMD.
pub open spec fn amd_count(gs: Seq<PciEntry>) -> nat
    decreases gs.len(),
{
    if gs.len() == 0 {
        0
    } else if is_amd_id(entry_pci_id(gs.last())) {
        amd_count(gs.drop_last()) + 1
    } else {
        amd_count(gs.drop_last())
    }
}

proof fn lemma_gpu_entries_bound(es: Seq<PciEntry>)
    ensures
        gpu_entries(es).len() <= es.len(),
    decreases es.len(),
{
    if es.len() > 0 {
        lemma_gpu_entries_bound(es.drop_last());
    }
}

proof fn lemma_amd_count_bound(gs: Seq<PciEntry>)
    ensures
        amd_count(gs) <= gs.len(),
    decreases gs.len(),
{
    if gs.len() > 0 {
        lemma_amd_count_bound(gs.drop_last());
    }
}

impl Device {
    /// A device at `dev_path` with the given classification and id.
    pub fn new(dev_path: String, is_dgpu: bool, pci_id: String) -> (r: Self)
        ensures
            r.dev_path_view() == dev_path@,
            r.is_dgpu_view() == is_dgpu,
            r.pci_id_view() == pci_id@,
    {
        Device { dev_path, is_dgpu, pci_id }
    }

    pub closed spec fn dev_path_view(&self) -> Seq<char> {
        self.dev_path@
    }

    pub closed spec fn is_dgpu_view(&self) -> bool {
        self.is_dgpu
    }

    pub closed spec fn pci_id_view(&self) -> Seq<char> {
        self.pci_id@
    }

    pub fn dev_path(&self) -> (r: &str)
        ensures
            r@ == self.dev_path_view(),
    {
        self.dev_path.as_str()
    }

    pub fn is_dgpu(&self) -> (r: bool)
        ensures
            r == self.is_dgpu_view(),
    {
        self.is_dgpu
    }

    pub fn pci_id(&self) -> (r: &str)
        ensures
            r@ == self.pci_id_view(),
    {
        self.pci_id.as_str()
    }

    /// The runtime power status from the contents of `power/runtime_status`.
    /// An unreadable attribute means the device is gone or its runtime PM
    /// state is unknown: `Unknown`, never an invented `off`.
    pub fn get_runtime_status(&self, runtime_status: Option<&str>) -> (r: Result<GfxPower, PlatformError>)
        ensures
            r matches Ok(g) && g == match runtime_status {
                Some(t) => gfx_power_from_name(trim_white(unicode_lowercase(t@))),
                None => GfxPower::Unknown,
            },
    {
        match runtime_status {
            Some(t) => Ok(GfxPower::parse(t)),
            None => Ok(GfxPower::Unknown),
        }
    }

    /// Whether the runtime status reads `active`.
    pub fn runtime_is_active(&self, runtime_status: Option<&str>) -> (r: bool)
        ensures
            r == (runtime_status matches Some(t) && gfx_power_from_name(
                trim_white(unicode_lowercase(t@)),
            ) == GfxPower::Active),
    {
        match self.get_runtime_status(runtime_status) {
            Ok(g) => g == GfxPower::Active,
            Err(_) => false,
        }
    }

    /// True when touching this device's hwmon, DRM, or NVML could resume a
    /// sleeping or firmware-disabled discrete GPU. `dgpu_disabled` is what
    /// the ASUS `dgpu_disable` attribute gave.
    pub fn dgpu_must_stay_asleep(
        &self,
        dgpu_disabled: Result<bool, PlatformError>,
        runtime_status: Option<&str>,
    ) -> (r: bool)
        ensures
            r == (self.is_dgpu_view() && ((dgpu_disabled matches Ok(true)) || !(
            runtime_status matches Some(t) && gfx_power_from_name(
                trim_white(unicode_lowercase(t@)),
            ) == GfxPower::Active))),
    {
        let disabled = match dgpu_disabled {
            Ok(b) => b,
            Err(_) => false,
        };
        self.is_dgpu && (disabled || !self.runtime_is_active(runtime_status))
    }

    /// True if a `/sys/class/{hwmon,drm}` entry belongs to this GPU, not an
    /// ancestor PCIe bridge: the canonical path of the entry's `device` link
    /// (if it resolves) lies at or below this device.
    pub fn sysfs_belongs_to_this_gpu(&self, canonical_device: Option<&str>) -> (r: bool)
        ensures
            r == (canonical_device matches Some(p) && path_starts_with(p@, self.dev_path_view())),
    {
        match canonical_device {
            Some(p) => starts_with_path(p, self.dev_path.as_str()),
            None => false,
        }
    }

    /// The PCI bus id (BDF) to ask NVML about, when the NVML fallback may be
    /// used: only for an NVIDIA device whose runtime status is active.
    pub fn nvml_fallback_bdf(&self, runtime_status: Option<&str>) -> (r: Option<String>)
        ensures
            r is Some ==> is_nvidia_id(self.pci_id_view()) && (runtime_status matches Some(t)
                && gfx_power_from_name(trim_white(unicode_lowercase(t@))) == GfxPower::Active),
            r matches Some(b) ==> file_name(self.dev_path_view()) == Some(b@),
            (is_nvidia_id(self.pci_id_view()) && (runtime_status matches Some(t)
                && gfx_power_from_name(trim_white(unicode_lowercase(t@))) == GfxPower::Active)
                && file_name(self.dev_path_view()) is Some) ==> r is Some,
    {
        if !pci_id_is_nvidia(self.pci_id.as_str()) || !self.runtime_is_active(runtime_status) {
            return None;
        }
        pci_bdf(self.dev_path.as_str())
    }

    /// Enumerate the display GPUs among the entries of `/sys/bus/pci/devices`
    /// and classify each as iGPU or dGPU.
    pub fn find(entries: &[PciEntry]) -> (r: Vec<Device>)
        ensures
            r@.len() == gpu_entries(entries@).len(),
            forall|i: int|
                0 <= i < r@.len() ==> {
                    let g = #[trigger] gpu_entries(entries@)[i];
                    &&& r@[i].dev_path_view() == g.dev_path@
                    &&& r@[i].pci_id_view() == entry_pci_id(g)
                    &&& r@[i].is_dgpu_view() == discrete_gpu(
                        entry_pci_id(g),
                        g.boot_vga,
                        amd_count(gpu_entries(entries@)),
                    )
                },
    {
        // First pass: the GPU entries, their ids and their boot_vga flags.
        let mut paths: Vec<String> = Vec::new();
        let mut ids: Vec<String> = Vec::new();
        let mut boots: Vec<Option<bool>> = Vec::new();
        let mut amd: usize = 0;
        let mut i: usize = 0;
        while i < entries.len()
            invariant
                0 <= i <= entries@.len(),
                paths@.len() == ids@.len() == boots@.len() == gpu_entries(entries@.take(i as int)).len(),
                amd == amd_count(gpu_entries(entries@.take(i as int))),
                forall|k: int|
                    0 <= k < paths@.len() ==> {
                        let g = #[trigger] gpu_entries(entries@.take(i as int))[k];
                        &&& paths@[k]@ == g.dev_path@
                        &&& ids@[k]@ == entry_pci_id(g)
                        &&& boots@[k] == g.boot_vga
                    },
            decreases entries.len() - i,
        {
            let e = &entries[i];
            let ghost before = gpu_entries(entries@.take(i as int));
            assert(entries@.take(i + 1).drop_last() =~= entries@.take(i as int));
            assert(entries@.take(i + 1).last() == entries@[i as int]);
            proof {
                lemma_amd_count_bound(before);
                lemma_gpu_entries_bound(entries@.take(i as int));
            }
            if let (Some(vendor), Some(class)) = (e.vendor, e.class) {
                if is_gpu_vendor_id(vendor) && is_display_class_id(class) {
                    let device = match e.device {
                        Some(d) => d,
                        None => 0,
                    };
                    let mut idc = hex_upper_4(vendor);
                    idc.push(':');
                    let dc = hex_upper_4(device);
                    let ghost head = idc@;
                    let mut k: usize = 0;
                    while k < dc.len()
                        invariant
                            0 <= k <= dc@.len(),
                            idc@ == head + dc@.take(k as int),
                        decreases dc.len() - k,
                    {
                        idc.push(dc[k]);
                        assert(dc@.take(k + 1) =~= dc@.take(k as int).push(dc@[k as int]));
                        k = k + 1;
                    }
                    assert(dc@.take(dc@.len() as int) =~= dc@);
                    let id = string_of(idc.as_slice());
                    assert(id@ =~= entry_pci_id(entries@[i as int]));
                    if pci_id_is_amd(id.as_str()) {
                        amd = amd + 1;
                    }
                    paths.push(e.dev_path.clone());
                    ids.push(id);
                    boots.push(e.boot_vga);
                    assert(gpu_entries(entries@.take(i + 1)) == before.push(entries@[i as int]));
                    assert(before.push(entries@[i as int]).drop_last() =~= before);
                }
            }
            i = i + 1;
        }
        assert(entries@.take(entries@.len() as int) =~= entries@);
        let ghost gs = gpu_entries(entries@);
        // Second pass: classify with the AMD count known.
        let mut out: Vec<Device> = Vec::new();
        let mut j: usize = 0;
        while j < paths.len()
            invariant
                0 <= j <= paths@.len(),
                paths@.len() == ids@.len() == boots@.len() == gs.len(),
                amd == amd_count(gs),
                forall|k: int|
                    0 <= k < paths@.len() ==> {
                        let g = #[trigger] gs[k];
                        &&& paths@[k]@ == g.dev_path@
                        &&& ids@[k]@ == entry_pci_id(g)
                        &&& boots@[k] == g.boot_vga
                    },
                out@.len() == j,
                forall|k: int|
                    0 <= k < j ==> {
                        let g = #[trigger] gs[k];
                        &&& out@[k].dev_path_view() == g.dev_path@
                        &&& out@[k].pci_id_view() == entry_pci_id(g)
                        &&& out@[k].is_dgpu_view() == discrete_gpu(entry_pci_id(g), g.boot_vga, amd_count(gs))
                    },
            decreases paths.len() - j,
        {
            let is_dgpu = is_discrete_gpu(ids[j].as_str(), boots[j], amd);
            out.push(Device::new(paths[j].clone(), is_dgpu, ids[j].clone()));
            j = j + 1;
        }
        out
    }
}

/// The index of the first discrete GPU among `devices`.
pub fn first_dgpu(devices: &[Device]) -> (r: Option<usize>)
    ensures
        r is None <==> forall|k: int| 0 <= k < devices@.len() ==> !devices@[k].is_dgpu_view(),
        r matches Some(i) ==> i < devices@.len() && devices@[i as int].is_dgpu_view() && forall|k: int|
            0 <= k < i ==> !devices@[k].is_dgpu_view(),
{
    let mut i: usize = 0;
    while i < devices.len()
        invariant
            0 <= i <= devices@.len(),
            forall|k: int| 0 <= k < i ==> !devices@[k].is_dgpu_view(),
        decreases devices.len() - i,
    {
        if devices[i].is_dgpu() {
            return Some(i);
        }
        i = i + 1;
    }
    None
}

/// The dGPU power status from the available detection methods, in order:
/// 1. the ASUS `dgpu_disable` attribute: writing 1 does not remove the device
///    from the PCI bus, so in integrated mode it must win over a
///    still-enumerated dGPU;
/// 2. the runtime status of the first discrete PCI GPU, if there is one;
/// 3. the ASUS `gpu_mux_mode` attribute.
pub open spec fn power_status_of(dgpu_disabled: bool, dgpu_status: Option<GfxPower>, mux_discreet: bool) -> GfxPower {
    if dgpu_disabled {
        GfxPower::AsusDisabled
    } else if dgpu_status is Some {
        dgpu_status->0
    } else if mux_discreet {
        GfxPower::AsusMuxDiscreet
    } else {
        GfxPower::Unknown
    }
}

/// Get the current GPU power status, using all available detection methods.
///
/// `dgpu_disabled` and `mux_discreet` are what the ASUS attributes gave (an
/// error or a missing attribute counts as `false`), and `dgpu_runtime_status`
/// the contents of `power/runtime_status` of the first discrete device.
pub fn get_gpu_power_status(
    devices: &[Device],
    dgpu_disabled: Result<bool, PlatformError>,
    dgpu_runtime_status: Option<&str>,
    mux_discreet: Result<bool, PlatformError>,
) -> (r: GfxPower)
    ensures
        r == power_status_of(
            dgpu_disabled matches Ok(true),
            if exists|k: int| 0 <= k < devices@.len() && devices@[k].is_dgpu_view() {
                Some(
                    match dgpu_runtime_status {
                        Some(t) => gfx_power_from_name(trim_white(unicode_lowercase(t@))),
                        None => GfxPower::Unknown,
                    },
                )
            } else {
                None
            },
            mux_discreet matches Ok(true),
        ),
{
    if let Ok(true) = dgpu_disabled {
        return GfxPower::AsusDisabled;
    }
    if let Some(i) = first_dgpu(devices) {
        return match devices[i].get_runtime_status(dgpu_runtime_status) {
            Ok(g) => g,
            Err(_) => GfxPower::Unknown,
        };
    }
    if let Ok(true) = mux_discreet {
        return GfxPower::AsusMuxDiscreet;
    }
    GfxPower::Unknown
}

/// The model name that one line of `amdgpu.ids` gives for a device id and
/// revision: a line `DEVICE, REVISION, NAME` whose first two fields match
/// without regard to ASCII case and whose name is not empty. Blank lines and
/// `#` comments give nothing.
pub open spec fn ids_line_name(line: Seq<char>, device_id: Seq<char>, revision: Seq<char>) -> Option<
    Seq<char>,
> {
    let t = trim_white(line);
    if t.len() == 0 || t[0] == '#' {
        None
    } else {
        let parts = pieces(t, ',');
        if parts.len() >= 3 && eq_ignore_ascii_case(trim_white(parts[0]), device_id)
            && eq_ignore_ascii_case(trim_white(parts[1]), revision) && trim_white(parts[2]).len()
            > 0 {
            Some(trim_white(parts[2]))
        } else {
            None
        }
    }
}

/// The name given by the first matching line of `lines`.
pub open spec fn first_ids_name(lines: Seq<Seq<char>>, device_id: Seq<char>, revision: Seq<char>) -> Option<
    Seq<char>,
>
    decreases lines.len(),
{
    if lines.len() == 0 {
        None
    } else {
        match ids_line_name(lines[0], device_id, revision) {
            Some(n) => Some(n),
            None => first_ids_name(lines.drop_first(), device_id, revision),
        }
    }
}

/// The model name that the contents of `amdgpu.ids` give for a device id and
/// revision. The lines are the pieces between newlines (a trailing blank piece
/// is a blank line, which gives nothing).
pub open spec fn amdgpu_name(content: Seq<char>, device_id: Seq<char>, revision: Seq<char>) -> Option<
    Seq<char>,
> {
    first_ids_name(pieces(content, '\n'), device_id, revision)
}

/// `v` with surrounding whitespace trimmed, as a new vector.
fn trimmed(v: &Vec<char>) -> (r: Vec<char>)
    ensures
        r@ == trim_white(v@),
{
    trim(v.as_slice())
}

/// Look up the marketing name of an AMD GPU in the contents of `amdgpu.ids`.
pub fn lookup_amdgpu_name(content: &str, device_id: &str, revision: &str) -> (r: Option<String>)
    ensures
        r is Some <==> amdgpu_name(content@, device_id@, revision@) is Some,
        r matches Some(n) ==> amdgpu_name(content@, device_id@, revision@) == Some(n@),
{
    let cs = chars_of(content);
    let lines = split_char(cs.as_slice(), '\n');
    let dv = chars_of(device_id);
    let rv = chars_of(revision);
    let ghost all = lines.deep_view();
    let mut i: usize = 0;
    assert(all.skip(0) =~= all);
    while i < lines.len()
        invariant
            0 <= i <= lines@.len(),
            all == lines.deep_view(),
            all == pieces(content@, '\n'),
            dv@ == device_id@,
            rv@ == revision@,
            first_ids_name(all, device_id@, revision@) == first_ids_name(
                all.skip(i as int),
                device_id@,
                revision@,
            ),
        decreases lines.len() - i,
    {
        assert(all[i as int] == lines[i as int]@);
        assert(all.skip(i as int)[0] == lines[i as int]@);
        assert(all.skip(i as int).drop_first() =~= all.skip(i + 1));
        let t = trimmed(&lines[i]);
        if t.len() > 0 && t[0] != '#' {
            let parts = split_char(t.as_slice(), ',');
            if parts.len() >= 3 {
                assert(parts.deep_view()[0] == parts[0]@);
                assert(parts.deep_view()[1] == parts[1]@);
                assert(parts.deep_view()[2] == parts[2]@);
                let p0 = trimmed(&parts[0]);
                let p1 = trimmed(&parts[1]);
                let p2 = trimmed(&parts[2]);
                if chars_eq_ignore_ascii_case(p0.as_slice(), dv.as_slice())
                    && chars_eq_ignore_ascii_case(p1.as_slice(), rv.as_slice()) && p2.len() > 0 {
                    return Some(string_of(p2.as_slice()));
                }
            }
        }
        i = i + 1;
    }
    assert(all.skip(i as int) =~= Seq::<Seq<char>>::empty());
    None
}

/// The model name of a GPU: for AMD, the `amdgpu.ids` name of its device id
/// and (lowercase) revision; otherwise, or failing that, the udev hardware
/// database name; failing that, its PCI id (or `Unknown GPU` without one).
pub open spec fn model_name_of(
    pci_id: Seq<char>,
    revision: Seq<char>,
    amdgpu_ids: Option<Seq<char>>,
    udev_model: Option<Seq<char>>,
) -> Seq<char> {
    let ps = pieces(pci_id, ':');
    let vendor = ps[0];
    let device_id = if ps.len() > 1 {
        ps[1]
    } else {
        seq![]
    };
    let amd = if eq_ignore_ascii_case(vendor, "1002"@) && device_id.len() > 0 && amdgpu_ids is Some {
        amdgpu_name(amdgpu_ids->0, device_id, revision)
    } else {
        None
    };
    if amd is Some {
        amd->0
    } else if udev_model matches Some(m) && m.len() > 0 {
        udev_model->0
    } else if pci_id.len() == 0 {
        "Unknown GPU"@
    } else {
        pci_id
    }
}

proof fn lemma_pieces_nonempty(s: Seq<char>, c: char)
    ensures
        pieces(s, c).len() >= 1,
    decreases s.len(),
{
    let n = crate::text::leading_run(s, crate::text::Separator::Char(c));
    if n < s.len() {
        crate::text::lemma_leading_run_bounds(s, crate::text::Separator::Char(c));
        lemma_pieces_nonempty(s.skip(n as int + 1), c);
    }
}

/// The model name of a GPU, given its revision already normalised
/// (trimmed, without `0x`, lowercase); see [`model_name_of`].
pub fn gpu_model_name_from(
    pci_id: &str,
    revision: &str,
    amdgpu_ids: Option<&str>,
    udev_model: Option<&str>,
) -> (r: String)
    ensures
        r@ == model_name_of(
            pci_id@,
            revision@,
            match amdgpu_ids {
                Some(c) => Some(c@),
                None => None,
            },
            match udev_model {
                Some(m) => Some(m@),
                None => None,
            },
        ),
{
    let pc = chars_of(pci_id);
    let ps = split_char(pc.as_slice(), ':');
    proof {
        lemma_pieces_nonempty(pci_id@, ':');
    }
    assert(ps.deep_view()[0] == ps[0]@);
    let vendor = &ps[0];
    let empty: Vec<char> = Vec::new();
    let device_id: &Vec<char> = if ps.len() > 1 {
        assert(ps.deep_view()[1] == ps[1]@);
        &ps[1]
    } else {
        &empty
    };
    proof {
        reveal_strlit("1002");
    }
    let amd_vendor = chars_of("1002");
    if chars_eq_ignore_ascii_case(vendor.as_slice(), amd_vendor.as_slice()) && device_id.len() > 0 {
        if let Some(content) = amdgpu_ids {
            let d = string_of(device_id.as_slice());
            if let Some(name) = lookup_amdgpu_name(content, d.as_str(), revision) {
                return name;
            }
        }
    }
    if let Some(m) = udev_model {
        let mc = chars_of(m);
        if mc.len() > 0 {
            return string_of(mc.as_slice());
        }
    }
    if pc.len() == 0 {
        string_of(chars_of("Unknown GPU").as_slice())
    } else {
        string_of(pc.as_slice())
    }
}

/// The revision as `gpu_model_name` compares it: trimmed, without leading
/// `0x`s, lowercase.
pub open spec fn normal_revision(revision_file: Option<Seq<char>>) -> Seq<char> {
    unicode_lowercase(
        trim_start_matches(
            trim_white(
                match revision_file {
                    Some(t) => t,
                    None => seq![],
                },
            ),
            "0x"@,
        ),
    )
}

/// The model name of a GPU from its PCI id, the contents of its `revision`
/// attribute, of `amdgpu.ids`, and its udev `ID_MODEL_FROM_DATABASE`
/// property, each where it could be read.
pub fn gpu_model_name(
    pci_id: &str,
    revision_file: Option<&str>,
    amdgpu_ids: Option<&str>,
    udev_model: Option<&str>,
) -> (r: String)
    ensures
        r@ == model_name_of(
            pci_id@,
            normal_revision(
                match revision_file {
                    Some(t) => Some(t@),
                    None => None,
                },
            ),
            match amdgpu_ids {
                Some(c) => Some(c@),
                None => None,
            },
            match udev_model {
                Some(m) => Some(m@),
                None => None,
            },
        ),
{
    let raw = match revision_file {
        Some(t) => chars_of(t),
        None => Vec::new(),
    };
    let t = trim(raw.as_slice());
    let stripped = trim_start_matching(t.as_slice(), chars_of("0x").as_slice());
    let s = string_of(stripped.as_slice());
    let lower = to_lowercase(s.as_str());
    gpu_model_name_from(pci_id, lower.as_str(), amdgpu_ids, udev_model)
}

/// What a telemetry pass does with the power status it found.
#[derive(Debug, Clone, Copy, PartialEq, Eq, Structural)]
pub struct TelemetryPlan {
    /// Probe the discrete GPU's sensors: only when it is awake, since a probe
    /// could resume a sleeping or disabled dGPU.
    pub probe_dgpu: bool,
    /// Report the dGPU as suspended.
    pub dgpu_suspended: bool,
    /// Report the dGPU as disabled by the ASUS firmware.
    pub dgpu_disabled: bool,
}

/// The telemetry pass for a power status.
pub fn telemetry_plan(status: GfxPower) -> (r: TelemetryPlan)
    ensures
        r.probe_dgpu == (status == GfxPower::Active),
        r.dgpu_suspended == (status == GfxPower::Suspended),
        r.dgpu_disabled == (status == GfxPower::AsusDisabled),
{
    TelemetryPlan {
        probe_dgpu: status == GfxPower::Active,
        dgpu_suspended: status == GfxPower::Suspended,
        dgpu_disabled: status == GfxPower::AsusDisabled,
    }
}

/// The name of the last device of `devs` that is (or, for `dgpu == false`, is
/// not) discrete, where `names[i]` is the name of `devs[i]`.
pub open spec fn last_name(devs: Seq<Device>, names: Seq<Seq<char>>, dgpu: bool) -> Option<
    Seq<char>,
>
    decreases devs.len(),
{
    if devs.len() == 0 || names.len() == 0 {
        None
    } else if devs.last().is_dgpu_view() == dgpu {
        Some(names.last())
    } else {
        last_name(devs.drop_last(), names.drop_last(), dgpu)
    }
}

/// The names of the integrated and the discrete GPU: the name of the last
/// device of each kind, or `Integrated GPU` / `Discrete GPU` without one.
pub fn get_gpu_names(devices: &[Device], names: &[String]) -> (r: (String, String))
    requires
        devices@.len() == names@.len(),
    ensures
        r.0@ == match last_name(devices@, names.deep_view(), false) {
            Some(n) => n,
            None => "Integrated GPU"@,
        },
        r.1@ == match last_name(devices@, names.deep_view(), true) {
            Some(n) => n,
            None => "Discrete GPU"@,
        },
{
    let mut igpu: Option<String> = None;
    let mut dgpu: Option<String> = None;
    let mut i: usize = 0;
    let ghost nv = names.deep_view();
    while i < devices.len()
        invariant
            0 <= i <= devices@.len(),
            devices@.len() == names@.len(),
            nv == names.deep_view(),
            nv.len() == names@.len(),
            match igpu {
                Some(n) => last_name(devices@.take(i as int), nv.take(i as int), false) == Some(n@),
                None => last_name(devices@.take(i as int), nv.take(i as int), false) is None,
            },
            match dgpu {
                Some(n) => last_name(devices@.take(i as int), nv.take(i as int), true) == Some(n@),
                None => last_name(devices@.take(i as int), nv.take(i as int), true) is None,
            },
        decreases devices.len() - i,
    {
        assert(devices@.take(i + 1).drop_last() =~= devices@.take(i as int));
        assert(nv.take(i + 1).drop_last() =~= nv.take(i as int));
        assert(nv.take(i + 1).last() == names@[i as int]@);
        if devices[i].is_dgpu() {
            dgpu = Some(names[i].clone());
        } else {
            igpu = Some(names[i].clone());
        }
        i = i + 1;
    }
    assert(devices@.take(devices@.len() as int) =~= devices@);
    assert(nv.take(nv.len() as int) =~= nv);
    let i_name = match igpu {
        Some(n) => n,
        None => string_of(chars_of("Integrated GPU").as_slice()),
    };
    let d_name = match dgpu {
        Some(n) => n,
        None => string_of(chars_of("Discrete GPU").as_slice()),
    };
    (i_name, d_name)
}

/// Where a GPU's model name comes from: an AMD GPU (vendor `1002` in any
/// case) whose device id and revision `amdgpu.ids` lists gets that name;
/// otherwise, for any vendor, a non-empty udev database name is the name;
/// without either, the PCI id itself, or `Unknown GPU` for an empty id.
pub proof fn lemma_model_name_sources(
    pci_id: Seq<char>,
    revision: Seq<char>,
    amdgpu_ids: Option<Seq<char>>,
    udev_model: Option<Seq<char>>,
)
    ensures
        ({
            let ps = pieces(pci_id, ':');
            let amd = eq_ignore_ascii_case(ps[0], "1002"@);
            let device = if ps.len() > 1 {
                ps[1]
            } else {
                seq![]
            };
            let listed = amd && device.len() > 0 && (amdgpu_ids matches Some(c) && amdgpu_name(
                c,
                device,
                revision,
            ) is Some);
            let db = udev_model matches Some(m) && m.len() > 0;
            &&& listed ==> model_name_of(pci_id, revision, amdgpu_ids, udev_model) == amdgpu_name(
                amdgpu_ids->0,
                device,
                revision,
            )->0
            &&& !amd && db ==> model_name_of(pci_id, revision, amdgpu_ids, udev_model)
                == udev_model->0
            &&& !listed && db ==> model_name_of(pci_id, revision, amdgpu_ids, udev_model)
                == udev_model->0
            &&& !listed && !db && pci_id.len() > 0 ==> model_name_of(
                pci_id,
                revision,
                amdgpu_ids,
                udev_model,
            ) == pci_id
            &&& !listed && !db && pci_id.len() == 0 ==> model_name_of(
                pci_id,
                revision,
                amdgpu_ids,
                udev_model,
            ) == "Unknown GPU"@
        }),
{
}

} // verus!
