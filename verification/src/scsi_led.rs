//! ASUS Aura SCSI-attached lighting devices backed by the kernel
//! `leds-asus-aura-scsi` Dynamic Lighting driver.

use vstd::prelude::*;

use crate::dynamic_led::{
    first_match_at, has_mandatory_attributes, node_matches, palette_text, speed_range_of, DynamicLed,
    LedNode,
};
use crate::error::PlatformError;
use crate::path::{path_starts_with, starts_with_path};
use crate::text::{concat, contains_sub, owned, str_contains, str_eq, words};

verus! {

/// Whether an LED class name marks an ASUS SCSI lighting node.
pub open spec fn is_scsi_led_name(sysname: Seq<char>) -> bool {
    contains_sub(sysname, "asus-scsi"@) || contains_sub(sysname, "asus-aura-scsi"@) || contains_sub(
        sysname,
        "asus-arion"@,
    )
}

/// Whether `nodes[i]` is the first node whose name marks a SCSI node.
pub open spec fn first_scsi_name_at(nodes: Seq<LedNode>, i: int) -> bool {
    &&& 0 <= i < nodes.len()
    &&& is_scsi_led_name(nodes[i].sysname@)
    &&& forall|j: int| 0 <= j < i ==> !is_scsi_led_name(#[trigger] nodes[j].sysname@)
}

/// A device above a block device in the sysfs tree, as udev reports it.
#[derive(Debug)]
pub struct DeviceAncestor {
    pub subsystem: Option<String>,
    pub sysname: String,
    pub syspath: String,
}

/// Whether an ancestor is the SCSI device itself (`H:C:T:L`), not a host or
/// target above it.
pub open spec fn is_scsi_device(a: DeviceAncestor) -> bool {
    a.subsystem matches Some(s) && s@ == "scsi"@ && contains_sub(a.sysname@, ":"@)
}

/// A block device as udev enumerates it: its syspath, its device node and its
/// ancestors, nearest first.
#[derive(Debug)]
pub struct BlockDevice {
    pub syspath: String,
    pub devnode: Option<String>,
    pub ancestors: Vec<DeviceAncestor>,
}

/// Whether ancestor `a` is the nearest one that is a SCSI device.
pub open spec fn first_scsi_at(ancestors: Seq<DeviceAncestor>, a: int) -> bool {
    &&& 0 <= a < ancestors.len()
    &&& is_scsi_device(ancestors[a])
    &&& forall|b: int| 0 <= b < a ==> !is_scsi_device(#[trigger] ancestors[b])
}

/// Whether node `k` is the first LED node below the device at `path`.
pub open spec fn first_below_at(nodes: Seq<LedNode>, path: Seq<char>, k: int) -> bool {
    &&& 0 <= k < nodes.len()
    &&& path_starts_with(nodes[k].syspath@, path)
    &&& forall|j: int| 0 <= j < k ==> !path_starts_with(#[trigger] nodes[j].syspath@, path)
}

/// The LED of a block device's SCSI device: the syspath of the first LED
/// node below the nearest SCSI ancestor, which must be a Dynamic Lighting
/// node; or the message of the `MissingFunction` error that says why there
/// is none.
pub open spec fn scsi_led_for(block: BlockDevice, nodes: Seq<LedNode>) -> Result<Seq<char>, Seq<char>> {
    let ancs = block.ancestors@;
    if exists|a: int| first_scsi_at(ancs, a) {
        let a = choose|a: int| first_scsi_at(ancs, a);
        let p = ancs[a].syspath@;
        if exists|k: int| first_below_at(nodes, p, k) {
            let k = choose|k: int| first_below_at(nodes, p, k);
            if has_mandatory_attributes(nodes[k].attributes.deep_view()) {
                Ok(nodes[k].syspath@)
            } else {
                Err(nodes[k].syspath@ + " is not a Dynamic Lighting LED node"@)
            }
        } else {
            Err("Dynamic Lighting LED for "@ + p + " is not registered yet"@)
        }
    } else {
        Err("No SCSI parent found for "@ + block.syspath@)
    }
}

/// Whether block `i` is the first whose device node is `dev`.
pub open spec fn first_block_at(blocks: Seq<BlockDevice>, dev: Seq<char>, i: int) -> bool {
    &&& 0 <= i < blocks.len()
    &&& blocks[i].devnode matches Some(d) && d@ == dev
    &&& forall|j: int| 0 <= j < i ==> !(#[trigger] blocks[j].devnode matches Some(d) && d@ == dev)
}

/// The LED of the block device whose node is `dev`, as [`scsi_led_for`].
pub open spec fn scsi_led_for_dev(dev: Seq<char>, blocks: Seq<BlockDevice>, nodes: Seq<LedNode>) -> Result<
    Seq<char>,
    Seq<char>,
> {
    if exists|i: int| first_block_at(blocks, dev, i) {
        scsi_led_for(blocks[choose|i: int| first_block_at(blocks, dev, i)], nodes)
    } else {
        Err("No block device found for "@ + dev)
    }
}

/// Whether the SCSI device of `block` is found but no LED node below it is
/// registered yet: the case in which a lookup is worth repeating.
pub open spec fn scsi_led_pending(block: BlockDevice, nodes: Seq<LedNode>) -> bool {
    let ancs = block.ancestors@;
    exists|a: int|
        first_scsi_at(ancs, a) && !(exists|k: int| first_below_at(nodes, ancs[a].syspath@, k))
}

/// Whether the block device whose node is `dev` has its LED pending.
pub open spec fn scsi_dev_pending(dev: Seq<char>, blocks: Seq<BlockDevice>, nodes: Seq<LedNode>) -> bool {
    exists|i: int| first_block_at(blocks, dev, i) && scsi_led_pending(blocks[i], nodes)
}

/// What one attempt to find a SCSI LED decides.
#[derive(Debug)]
pub enum ScsiLookup {
    /// The LED is found.
    Found(ScsiLed),
    /// The LED is not registered yet: wait briefly and look again.
    Retry,
    /// Give up with this error.
    Fail(PlatformError),
}

/// Whether `r` is the outcome that `expected` describes.
pub open spec fn led_outcome(r: Result<ScsiLed, PlatformError>, expected: Result<Seq<char>, Seq<char>>) -> bool {
    match expected {
        Ok(p) => r matches Ok(l) && l.dynamic_view()@ == p,
        Err(m) => r matches Err(PlatformError::MissingFunction(mm)) && mm@ == m,
    }
}

/// Generic control interface for ASUS Aura SCSI-attached lighting devices.
#[derive(Debug, Clone, PartialEq, Eq, PartialOrd)]
pub struct ScsiLed {
    dynamic: DynamicLed,
}

/// Whether an LED at `led_path` belongs to the SCSI device at `scsi_path`:
/// whole path components must match, so `2:0:0:01` is not below `2:0:0:0`.
pub fn belongs_to_scsi(led_path: &str, scsi_path: &str) -> (r: bool)
    ensures
        r == path_starts_with(led_path@, scsi_path@),
{
    starts_with_path(led_path, scsi_path)
}

/// The index of the nearest ancestor that is the SCSI device itself.
pub fn first_scsi_ancestor(ancestors: &[DeviceAncestor]) -> (r: Option<usize>)
    ensures
        r is None <==> forall|a: int| 0 <= a < ancestors@.len() ==> !is_scsi_device(#[trigger] ancestors@[a]),
        r matches Some(a) ==> a < ancestors@.len() && is_scsi_device(ancestors@[a as int]) && forall|b: int|
            0 <= b < a ==> !is_scsi_device(#[trigger] ancestors@[b]),
{
    let mut a: usize = 0;
    while a < ancestors.len()
        invariant
            0 <= a <= ancestors@.len(),
            forall|b: int| 0 <= b < a ==> !is_scsi_device(#[trigger] ancestors@[b]),
        decreases ancestors.len() - a,
    {
        let d = &ancestors[a];
        let is_scsi = match &d.subsystem {
            Some(s) => str_eq(s.as_str(), "scsi"),
            None => false,
        };
        if is_scsi && str_contains(d.sysname.as_str(), ":") {
            return Some(a);
        }
        a = a + 1;
    }
    None
}

impl ScsiLed {
    pub closed spec fn dynamic_view(&self) -> DynamicLed {
        self.dynamic
    }

    /// Discover the first ASUS SCSI Dynamic Lighting LED node among the
    /// enumerated LED class devices: the first whose name marks a SCSI node,
    /// which must then be a Dynamic Lighting node by that name.
    pub fn new(nodes: &[LedNode]) -> (r: Result<Self, PlatformError>)
        ensures
            r is Ok <==> exists|i: int|
                first_scsi_name_at(nodes@, i) && exists|k: int|
                    0 <= k < nodes@.len() && node_matches(nodes@[k], nodes@[i].sysname@),
            (forall|i: int| 0 <= i < nodes@.len() ==> !is_scsi_led_name(#[trigger] nodes@[i].sysname@))
                ==> (r matches Err(PlatformError::MissingFunction(m)) && m@
                == "ScsiLed::new(): no asus scsi dynamic LED device found"@),
            forall|i: int|
                #![trigger first_scsi_name_at(nodes@, i)]
                first_scsi_name_at(nodes@, i) ==> {
                    let name = nodes@[i].sysname@;
                    &&& r matches Ok(l) ==> exists|k: int|
                        first_match_at(nodes@, name, k) && l.dynamic_view()@ == nodes@[k].syspath@
                    &&& r matches Err(e) ==> (e matches PlatformError::MissingFunction(m) && m@
                        == "DynamicLed::new(): no dynamic LED named '"@ + name + "' found"@)
                },
    {
        let mut i: usize = 0;
        while i < nodes.len()
            invariant
                0 <= i <= nodes@.len(),
                forall|j: int| 0 <= j < i ==> !is_scsi_led_name(#[trigger] nodes@[j].sysname@),
            decreases nodes.len() - i,
        {
            let name = nodes[i].sysname.as_str();
            if str_contains(name, "asus-scsi") || str_contains(name, "asus-aura-scsi")
                || str_contains(name, "asus-arion") {
                assert(first_scsi_name_at(nodes@, i as int));
                proof {
                    lemma_first_scsi_name_unique(nodes@, i as int);
                }
                let dynamic = match DynamicLed::find(name, nodes) {
                    Ok(d) => d,
                    Err(e) => return Err(e),
                };
                return Ok(ScsiLed { dynamic });
            }
            i = i + 1;
        }
        Err(PlatformError::MissingFunction(owned("ScsiLed::new(): no asus scsi dynamic LED device found")))
    }

    /// Check if an ASUS SCSI Dynamic Lighting LED is among `nodes`.
    pub fn is_available(nodes: &[LedNode]) -> (r: bool)
        ensures
            r == exists|i: int|
                first_scsi_name_at(nodes@, i) && exists|k: int|
                    0 <= k < nodes@.len() && node_matches(nodes@[k], nodes@[i].sysname@),
    {
        Self::new(nodes).is_ok()
    }

    /// Find the LED whose sysfs ancestry belongs to this exact SCSI device:
    /// see [`scsi_led_for`]. It never falls back to another device's LED.
    pub fn find_for_block(block: &BlockDevice, nodes: &[LedNode]) -> (r: Result<Self, PlatformError>)
        ensures
            led_outcome(r, scsi_led_for(*block, nodes@)),
    {
        let ghost ancs = block.ancestors@;
        let ai = match first_scsi_ancestor(block.ancestors.as_slice()) {
            Some(ai) => ai,
            None => {
                return Err(
                    PlatformError::MissingFunction(
                        concat("No SCSI parent found for ", block.syspath.as_str()),
                    ),
                );
            },
        };
        assert(first_scsi_at(ancs, ai as int));
        proof {
            lemma_first_scsi_unique(ancs, ai as int);
        }
        let scsi_path = block.ancestors[ai].syspath.as_str();
        let mut k: usize = 0;
        while k < nodes.len()
            invariant
                0 <= k <= nodes@.len(),
                ancs == block.ancestors@,
                first_scsi_at(ancs, ai as int),
                forall|b: int| first_scsi_at(ancs, b) ==> b == ai,
                scsi_path@ == ancs[ai as int].syspath@,
                forall|j: int|
                    0 <= j < k ==> !path_starts_with(#[trigger] nodes@[j].syspath@, scsi_path@),
            decreases nodes.len() - k,
        {
            let n = &nodes[k];
            if belongs_to_scsi(n.syspath.as_str(), scsi_path) {
                assert(first_below_at(nodes@, scsi_path@, k as int));
                proof {
                    lemma_first_below_unique(nodes@, scsi_path@, k as int);
                }
                let dynamic = match DynamicLed::from_syspath(
                    n.syspath.clone(),
                    n.attributes.as_slice(),
                ) {
                    Ok(d) => d,
                    Err(e) => return Err(e),
                };
                return Ok(ScsiLed { dynamic });
            }
            k = k + 1;
        }
        let head = concat("Dynamic Lighting LED for ", scsi_path);
        Err(PlatformError::MissingFunction(concat(head.as_str(), " is not registered yet")))
    }

    /// Whether the SCSI device of `block` is found but no LED node below it is
    /// registered yet (see [`scsi_led_pending`]).
    pub fn led_pending(block: &BlockDevice, nodes: &[LedNode]) -> (r: bool)
        ensures
            r == scsi_led_pending(*block, nodes@),
    {
        let ghost ancs = block.ancestors@;
        let ai = match first_scsi_ancestor(block.ancestors.as_slice()) {
            Some(ai) => ai,
            None => {
                return false;
            },
        };
        assert(first_scsi_at(ancs, ai as int));
        proof {
            lemma_first_scsi_unique(ancs, ai as int);
        }
        let scsi_path = block.ancestors[ai].syspath.as_str();
        let mut k: usize = 0;
        while k < nodes.len()
            invariant
                0 <= k <= nodes@.len(),
                ancs == block.ancestors@,
                first_scsi_at(ancs, ai as int),
                forall|b: int| first_scsi_at(ancs, b) ==> b == ai,
                scsi_path@ == ancs[ai as int].syspath@,
                forall|j: int|
                    0 <= j < k ==> !path_starts_with(#[trigger] nodes@[j].syspath@, scsi_path@),
            decreases nodes.len() - k,
        {
            if belongs_to_scsi(nodes[k].syspath.as_str(), scsi_path) {
                assert(first_below_at(nodes@, scsi_path@, k as int));
                return false;
            }
            k = k + 1;
        }
        assert forall|j: int| !first_below_at(nodes@, scsi_path@, j) by {
            if first_below_at(nodes@, scsi_path@, j) {
                assert(!path_starts_with(nodes@[j].syspath@, scsi_path@));
            }
        }
        true
    }

    /// One attempt to find the LED of `block`, the `attempt`-th (from 0) of
    /// at most `max_attempts`: the LED when it is there; another attempt when
    /// the SCSI device is found but its LED is not registered yet and
    /// attempts remain (the caller waits briefly first); otherwise the error.
    /// It never falls back to another device's LED.
    pub fn lookup_step(block: &BlockDevice, nodes: &[LedNode], attempt: u32, max_attempts: u32) -> (r:
        ScsiLookup)
        ensures
            scsi_led_for(*block, nodes@) matches Ok(p) ==> (r matches ScsiLookup::Found(l)
                && l.dynamic_view()@ == p),
            scsi_led_for(*block, nodes@) matches Err(m) ==> if scsi_led_pending(*block, nodes@)
                && attempt + 1 < max_attempts {
                r is Retry
            } else {
                r matches ScsiLookup::Fail(PlatformError::MissingFunction(mm)) && mm@ == m
            },
    {
        match Self::find_for_block(block, nodes) {
            Ok(l) => ScsiLookup::Found(l),
            Err(e) => {
                if (attempt as u64) + 1 < max_attempts as u64 && Self::led_pending(block, nodes) {
                    ScsiLookup::Retry
                } else {
                    ScsiLookup::Fail(e)
                }
            },
        }
    }

    /// One attempt to find the LED of the block device whose node is
    /// `dev_node`, as [`ScsiLed::lookup_step`] does for that block device; a
    /// device node that no block device has fails at once.
    pub fn lookup_dev_step(
        dev_node: &str,
        blocks: &[BlockDevice],
        nodes: &[LedNode],
        attempt: u32,
        max_attempts: u32,
    ) -> (r: ScsiLookup)
        ensures
            scsi_led_for_dev(dev_node@, blocks@, nodes@) matches Ok(p) ==> (r matches ScsiLookup::Found(
                l,
            ) && l.dynamic_view()@ == p),
            scsi_led_for_dev(dev_node@, blocks@, nodes@) matches Err(m) ==> if scsi_dev_pending(
                dev_node@,
                blocks@,
                nodes@,
            ) && attempt + 1 < max_attempts {
                r is Retry
            } else {
                r matches ScsiLookup::Fail(PlatformError::MissingFunction(mm)) && mm@ == m
            },
    {
        let mut i: usize = 0;
        while i < blocks.len()
            invariant
                0 <= i <= blocks@.len(),
                forall|j: int|
                    0 <= j < i ==> !(#[trigger] blocks@[j].devnode matches Some(d) && d@
                        == dev_node@),
            decreases blocks.len() - i,
        {
            let b = &blocks[i];
            let hit = match &b.devnode {
                Some(d) => str_eq(d.as_str(), dev_node),
                None => false,
            };
            if hit {
                assert(first_block_at(blocks@, dev_node@, i as int));
                proof {
                    lemma_first_block_unique(blocks@, dev_node@, i as int);
                }
                return Self::lookup_step(b, nodes, attempt, max_attempts);
            }
            i = i + 1;
        }
        ScsiLookup::Fail(PlatformError::MissingFunction(concat("No block device found for ", dev_node)))
    }

    /// Find the `ScsiLed` of the block device whose node is `dev_node`
    /// (`/dev/sdX` or `/dev/sgN`): see [`scsi_led_for_dev`].
    pub fn find_for_dev(dev_node: &str, blocks: &[BlockDevice], nodes: &[LedNode]) -> (r: Result<
        Self,
        PlatformError,
    >)
        ensures
            led_outcome(r, scsi_led_for_dev(dev_node@, blocks@, nodes@)),
    {
        let mut i: usize = 0;
        while i < blocks.len()
            invariant
                0 <= i <= blocks@.len(),
                forall|j: int|
                    0 <= j < i ==> !(#[trigger] blocks@[j].devnode matches Some(d) && d@
                        == dev_node@),
            decreases blocks.len() - i,
        {
            let b = &blocks[i];
            let hit = match &b.devnode {
                Some(d) => str_eq(d.as_str(), dev_node),
                None => false,
            };
            if hit {
                assert(first_block_at(blocks@, dev_node@, i as int));
                proof {
                    lemma_first_block_unique(blocks@, dev_node@, i as int);
                }
                return Self::find_for_block(b, nodes);
            }
            i = i + 1;
        }
        Err(PlatformError::MissingFunction(concat("No block device found for ", dev_node)))
    }

    /// Return the inner `DynamicLed`.
    pub fn dynamic(&self) -> (r: &DynamicLed)
        ensures
            *r == self.dynamic_view(),
    {
        &self.dynamic
    }

    /// Return the path of the sysfs node.
    pub fn path(&self) -> (r: &str)
        ensures
            r@ == self.dynamic_view()@,
    {
        self.dynamic.path()
    }

    /// The effect speed to write, validated as [`DynamicLed::set_supported_speed`] does.
    pub fn set_speed(&self, speed: u32, has_speed: bool, speed_range: Option<&str>) -> (r: Result<
        u32,
        PlatformError,
    >)
        ensures
            !has_speed ==> (r matches Err(PlatformError::AttrNotFound(a)) && a@ == "speed"@),
            has_speed ==> r == (match speed_range {
                None => Ok(speed),
                Some(t) => match speed_range_of(t@) {
                    Err(e) => Err(e),
                    Ok((lo, hi)) => if lo <= speed && speed <= hi {
                        Ok(speed)
                    } else {
                        Err(PlatformError::InvalidValue)
                    },
                },
            }),
    {
        DynamicLed::set_supported_speed(speed, has_speed, speed_range)
    }

    /// Validate an animation direction (`right` or `left`) as
    /// [`DynamicLed::set_supported_direction`] does.
    pub fn set_direction(&self, direction: &str, has_direction: bool, direction_index: Option<&str>) -> (r: Result<
        (),
        PlatformError,
    >)
        ensures
            !has_direction ==> (r matches Err(PlatformError::AttrNotFound(a)) && a@
                == "direction"@),
            has_direction ==> (r is Ok <==> match direction_index {
                None => true,
                Some(t) => words(t@).contains(direction@),
            }),
            has_direction ==> (r matches Err(e) ==> e is InvalidValue),
    {
        DynamicLed::set_supported_direction(direction, has_direction, direction_index)
    }

    /// The palette text for `colors`, as [`DynamicLed::set_palette_colors`] gives it.
    pub fn set_palette_colors(
        &self,
        colors: &[(u8, u8, u8)],
        has_effects_palette: bool,
        max_palette_entries: Option<u32>,
    ) -> (r: Result<String, PlatformError>)
        ensures
            !has_effects_palette ==> (r matches Err(PlatformError::AttrNotFound(a)) && a@
                == "effects_palette"@),
            has_effects_palette ==> (r is Ok <==> match max_palette_entries {
                None => true,
                Some(m) => colors@.len() <= m,
            }),
            has_effects_palette ==> (r matches Err(e) ==> e is InvalidValue),
            r matches Ok(t) ==> t@ == palette_text(colors@),
    {
        DynamicLed::set_palette_colors(colors, has_effects_palette, max_palette_entries)
    }

    /// Check a raw RGB frame of `data_len` bytes for a node of `led_count` LEDs.
    pub fn write_direct(&self, led_count: usize, data_len: usize) -> (r: Result<(), PlatformError>)
        ensures
            r is Ok <==> (led_count * 3 <= usize::MAX && data_len == led_count * 3),
            r matches Err(e) ==> e is InvalidValue,
    {
        crate::dynamic_led::validate_direct_len(led_count, data_len)
    }
}

proof fn lemma_first_scsi_unique(ancs: Seq<DeviceAncestor>, a: int)
    requires
        first_scsi_at(ancs, a),
    ensures
        forall|b: int| first_scsi_at(ancs, b) ==> b == a,
{
    assert forall|b: int| first_scsi_at(ancs, b) implies b == a by {
        if b < a {
            assert(!is_scsi_device(ancs[b]));
        } else if a < b {
            assert(!is_scsi_device(ancs[a]));
        }
    }
}

proof fn lemma_first_below_unique(nodes: Seq<LedNode>, p: Seq<char>, k: int)
    requires
        first_below_at(nodes, p, k),
    ensures
        forall|j: int| first_below_at(nodes, p, j) ==> j == k,
{
    assert forall|j: int| first_below_at(nodes, p, j) implies j == k by {
        if j < k {
            assert(!path_starts_with(nodes[j].syspath@, p));
        } else if k < j {
            assert(!path_starts_with(nodes[k].syspath@, p));
        }
    }
}

proof fn lemma_first_block_unique(blocks: Seq<BlockDevice>, dev: Seq<char>, i: int)
    requires
        first_block_at(blocks, dev, i),
    ensures
        forall|j: int| first_block_at(blocks, dev, j) ==> j == i,
{
    assert forall|j: int| first_block_at(blocks, dev, j) implies j == i by {
        if j < i {
            assert(!(blocks[j].devnode matches Some(d) && d@ == dev));
        } else if i < j {
            assert(!(blocks[i].devnode matches Some(d) && d@ == dev));
        }
    }
}

proof fn lemma_first_scsi_name_unique(nodes: Seq<LedNode>, i: int)
    requires
        first_scsi_name_at(nodes, i),
    ensures
        forall|j: int| first_scsi_name_at(nodes, j) ==> j == i,
{
    assert forall|j: int| first_scsi_name_at(nodes, j) implies j == i by {
        if j < i {
            assert(!is_scsi_led_name(nodes[j].sysname@));
        } else if i < j {
            assert(!is_scsi_led_name(nodes[i].sysname@));
        }
    }
}

} // verus!
