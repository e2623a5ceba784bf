//! hidraw endpoints: choosing the endpoint of a USB product, and reading
//! HID report descriptors.

use vstd::prelude::*;

use crate::error::{IoFailure, PlatformError};
use crate::text::{chars_of, concat, owned, parse_u32_radix, parse_unsigned, str_eq};

verus! {

/// The number of data bytes of a short item whose prefix byte is `prefix`.
pub open spec fn short_item_size(prefix: u8) -> nat {
    if prefix % 4 == 3 {
        4
    } else {
        (prefix % 4) as nat
    }
}

/// Walk the items of descriptor `d` from byte `offset`, with `report_id` the
/// report ID last declared, and tell whether an Output main item is met while
/// the declared report ID is `wanted`.
///
/// A long item (prefix `0xfe`) is skipped whole: its size byte, its tag byte
/// and its data. A short item has 0, 1, 2 or 4 data bytes; a Report ID global
/// item (type 1, tag 8) with one data byte declares a report ID, an Output main
/// item (type 0, tag 9) ends the walk. A truncated item ends it with `false`.
pub open spec fn output_report_from(d: Seq<u8>, offset: nat, report_id: u8, wanted: u8) -> bool
    decreases d.len() - offset,
{
    if offset >= d.len() {
        false
    } else if d[offset as int] == 0xfe {
        if offset + 1 >= d.len() {
            false
        } else {
            let next = offset + 3 + d[offset + 1int] as nat;
            if next > d.len() {
                false
            } else {
                output_report_from(d, next, report_id, wanted)
            }
        }
    } else {
        let prefix = d[offset as int];
        let size = short_item_size(prefix);
        let end = offset + 1 + size;
        if end > d.len() {
            false
        } else {
            let item_type = (prefix / 4) % 4;
            let tag = prefix / 16;
            if item_type == 1 && tag == 8 && size == 1 {
                output_report_from(d, end, d[offset + 1int], wanted)
            } else if item_type == 0 && tag == 9 && report_id == wanted {
                true
            } else {
                output_report_from(d, end, report_id, wanted)
            }
        }
    }
}

/// Whether report descriptor `d` declares an Output item under report ID
/// `wanted` (report ID 0 before any Report ID item).
pub open spec fn declares_output_report(d: Seq<u8>, wanted: u8) -> bool {
    output_report_from(d, 0, 0, wanted)
}

/// Check whether a hidraw report descriptor declares an output report ID.
pub fn descriptor_has_output_report(descriptor: &[u8], wanted_id: u8) -> (r: bool)
    ensures
        r == declares_output_report(descriptor@, wanted_id),
{
    let n = descriptor.len();
    let mut offset: usize = 0;
    let mut report_id: u8 = 0;
    while offset < n
        invariant
            n == descriptor@.len(),
            offset <= n,
            declares_output_report(descriptor@, wanted_id) == output_report_from(
                descriptor@,
                offset as nat,
                report_id,
                wanted_id,
            ),
        decreases n - offset,
    {
        let prefix = descriptor[offset];
        if prefix == 0xfe {
            if offset + 1 >= n {
                return false;
            }
            let size = descriptor[offset + 1];
            let next = match offset.checked_add(3 + size as usize) {
                Some(next) => next,
                None => return false,
            };
            if next > n {
                return false;
            }
            offset = next;
            continue;
        }
        assert(prefix & 3 == prefix % 4) by (bit_vector);
        assert((prefix >> 2) & 3 == (prefix / 4) % 4) by (bit_vector);
        assert(prefix >> 4 == prefix / 16) by (bit_vector);
        let size: usize = match prefix & 0x03 {
            3 => 4,
            value => value as usize,
        };
        let end = match offset.checked_add(1 + size) {
            Some(end) => end,
            None => return false,
        };
        if end > n {
            return false;
        }
        let item_type = (prefix >> 2) & 0x03;
        let tag = prefix >> 4;
        if item_type == 1 && tag == 8 && size == 1 {
            report_id = descriptor[offset + 1];
        } else if item_type == 0 && tag == 9 && report_id == wanted_id {
            return true;
        }
        offset = end;
    }
    false
}


/// Whether a prefix byte opens a short Output main item (type 0, tag 9).
pub open spec fn is_output_item(prefix: u8) -> bool {
    prefix != 0xfe && (prefix / 4) % 4 == 0 && prefix / 16 == 9
}

/// Whether the item walk of descriptor `d`, from byte `offset` with
/// `report_id` the report ID last declared, reaches an item at byte `at`
/// while `id` is the declared report ID. The walk moves as
/// [`output_report_from`] does: it skips long items whole, steps over short
/// items, takes the report ID of each one-byte Report ID item, and stops at a
/// truncated item.
pub open spec fn walk_reaches(d: Seq<u8>, offset: nat, report_id: u8, at: nat, id: u8) -> bool
    decreases d.len() - offset,
{
    if offset >= d.len() {
        false
    } else if offset == at {
        report_id == id
    } else if d[offset as int] == 0xfe {
        if offset + 1 >= d.len() {
            false
        } else {
            let next = offset + 3 + d[offset + 1int] as nat;
            if next > d.len() {
                false
            } else {
                walk_reaches(d, next, report_id, at, id)
            }
        }
    } else {
        let prefix = d[offset as int];
        let size = short_item_size(prefix);
        let end = offset + 1 + size;
        if end > d.len() {
            false
        } else {
            let item_type = (prefix / 4) % 4;
            let tag = prefix / 16;
            let next_id = if item_type == 1 && tag == 8 && size == 1 {
                d[offset + 1int]
            } else {
                report_id
            };
            walk_reaches(d, end, next_id, at, id)
        }
    }
}

/// When the walk from `offset` finds an Output report for `wanted`, the walk
/// reaches a whole short Output item while `wanted` is the declared report
/// ID.
proof fn lemma_output_report_found(d: Seq<u8>, offset: nat, report_id: u8, wanted: u8)
    requires
        output_report_from(d, offset, report_id, wanted),
    ensures
        exists|at: nat|
            offset <= at < d.len() && #[trigger] walk_reaches(d, offset, report_id, at, wanted)
                && is_output_item(d[at as int]) && at + 1 + short_item_size(d[at as int]) <= d.len(),
    decreases d.len() - offset,
{
    if d[offset as int] == 0xfe {
        let next = offset + 3 + d[offset + 1int] as nat;
        lemma_output_report_found(d, next, report_id, wanted);
        let at = choose|at: nat|
            next <= at < d.len() && #[trigger] walk_reaches(d, next, report_id, at, wanted)
                && is_output_item(d[at as int]) && at + 1 + short_item_size(d[at as int]) <= d.len();
        assert(walk_reaches(d, offset, report_id, at, wanted));
    } else {
        let prefix = d[offset as int];
        let size = short_item_size(prefix);
        let end = offset + 1 + size;
        let item_type = (prefix / 4) % 4;
        let tag = prefix / 16;
        if item_type == 1 && tag == 8 && size == 1 {
            let id = d[offset + 1int];
            lemma_output_report_found(d, end, id, wanted);
            let at = choose|at: nat|
                end <= at < d.len() && #[trigger] walk_reaches(d, end, id, at, wanted)
                    && is_output_item(d[at as int]) && at + 1 + short_item_size(d[at as int])
                    <= d.len();
            assert(walk_reaches(d, offset, report_id, at, wanted));
        } else if item_type == 0 && tag == 9 && report_id == wanted {
            assert(walk_reaches(d, offset, report_id, offset, wanted));
        } else {
            lemma_output_report_found(d, end, report_id, wanted);
            let at = choose|at: nat|
                end <= at < d.len() && #[trigger] walk_reaches(d, end, report_id, at, wanted)
                    && is_output_item(d[at as int]) && at + 1 + short_item_size(d[at as int])
                    <= d.len();
            assert(walk_reaches(d, offset, report_id, at, wanted));
        }
    }
}

/// A descriptor declares an Output report for `wanted` only if it holds a
/// whole short Output main item that the item walk reaches while `wanted` is
/// the report ID declared by the latest one-byte Report ID item before it (or
/// `wanted` is 0 and no Report ID item comes before it).
pub proof fn lemma_declared_output_report(d: Seq<u8>, wanted: u8)
    requires
        declares_output_report(d, wanted),
    ensures
        exists|at: nat|
            at < d.len() && #[trigger] walk_reaches(d, 0, 0, at, wanted) && is_output_item(
                d[at as int],
            ) && at + 1 + short_item_size(d[at as int]) <= d.len(),
{
    lemma_output_report_found(d, 0, 0, wanted);
}

/// The USB device above a hidraw endpoint, as udev reports it.
#[derive(Debug)]
pub struct UsbParent {
    /// The `idProduct` attribute.
    pub id_product: Option<String>,
    /// The `bcdDevice` attribute.
    pub bcd_device: Option<String>,
}

/// A hidraw endpoint as udev enumerates it.
#[derive(Debug)]
pub struct HidEndpoint {
    /// The endpoint's devpath.
    pub devpath: String,
    /// Its `/dev` node.
    pub devnode: Option<String>,
    /// The lookup of its USB device parent: failed, found nothing, or found.
    pub parent: Result<Option<UsbParent>, IoFailure>,
}

/// The `idProduct` of an endpoint that can be opened: one whose USB parent
/// was found with an `idProduct` and that has a `/dev` node.
pub open spec fn endpoint_product(e: HidEndpoint) -> Option<Seq<char>> {
    match e.parent {
        Ok(Some(p)) => match (e.devnode, p.id_product) {
            (Some(_), Some(id)) => Some(id@),
            _ => None,
        },
        _ => None,
    }
}

/// Whether endpoint `e` belongs to product `id`.
pub open spec fn endpoint_matches(e: HidEndpoint, id: Seq<char>) -> bool {
    endpoint_product(e) == Some(id)
}

/// The `bcdDevice` of an endpoint's USB parent as a number: 0 where it is
/// missing or not a decimal `u32`.
pub open spec fn endpoint_bcd(e: HidEndpoint) -> u32 {
    match e.parent {
        Ok(Some(p)) => match p.bcd_device {
            Some(b) => match parse_unsigned(b@, 10, u32::MAX as nat) {
                Some(v) => v as u32,
                None => 0,
            },
            None => 0,
        },
        _ => 0,
    }
}

/// An opened hidraw endpoint: its `/dev` node, product ID and device
/// release number.
#[derive(Debug)]
pub struct HidRawNode {
    devfs_path: String,
    prod_id: String,
    device_bcd: u32,
}

impl HidRawNode {
    pub closed spec fn devfs_path_view(&self) -> Seq<char> {
        self.devfs_path@
    }

    pub closed spec fn prod_id_view(&self) -> Seq<char> {
        self.prod_id@
    }

    pub closed spec fn device_bcd_view(&self) -> u32 {
        self.device_bcd
    }

    /// The node for endpoint `e`, whose USB parent and `/dev` node were
    /// found.
    pub open spec fn describes(self, e: HidEndpoint) -> bool {
        &&& e.devnode matches Some(d) && self.devfs_path_view() == d@
        &&& endpoint_product(e) == Some(self.prod_id_view())
        &&& self.device_bcd_view() == endpoint_bcd(e)
    }

    /// The node of an endpoint that can be opened.
    fn of_endpoint(e: &HidEndpoint) -> (r: Option<HidRawNode>)
        ensures
            r is Some <==> endpoint_product(*e) is Some,
            r matches Some(n) ==> n.describes(*e),
    {
        match &e.parent {
            Ok(Some(p)) => match (&e.devnode, &p.id_product) {
                (Some(d), Some(id)) => {
                    let bcd = match &p.bcd_device {
                        Some(b) => {
                            let cs = chars_of(b.as_str());
                            match parse_u32_radix(cs.as_slice(), 10) {
                                Some(v) => v,
                                None => 0,
                            }
                        },
                        None => 0,
                    };
                    Some(HidRawNode { devfs_path: owned(d.as_str()), prod_id: owned(id.as_str()), device_bcd: bcd })
                },
                _ => None,
            },
            _ => None,
        }
    }

    /// Choose the hidraw endpoint of USB product `id_product` among the
    /// enumerated endpoints: the first that belongs to it. A failed parent
    /// lookup met before that ends the search with its error; without such
    /// an endpoint the device is missing. The index tells which endpoint to
    /// open.
    pub fn new(endpoints: &[HidEndpoint], id_product: &str) -> (r: Result<(usize, HidRawNode), PlatformError>)
        ensures
            r matches Ok((i, n)) ==> {
                &&& i < endpoints@.len()
                &&& endpoint_matches(endpoints@[i as int], id_product@)
                &&& n.describes(endpoints@[i as int])
                &&& forall|j: int|
                    0 <= j < i ==> (#[trigger] endpoints@[j]).parent is Ok && !endpoint_matches(
                        endpoints@[j],
                        id_product@,
                    )
            },
            r matches Err(PlatformError::IoPath(p, f)) ==> exists|i: int|
                0 <= i < endpoints@.len() && endpoints@[i].parent == Err::<Option<UsbParent>, IoFailure>(f)
                    && p@ == endpoints@[i].devpath@ && forall|j: int|
                    0 <= j < i ==> (#[trigger] endpoints@[j]).parent is Ok && !endpoint_matches(
                        endpoints@[j],
                        id_product@,
                    ),
            r matches Err(PlatformError::MissingFunction(m)) ==> m@ == "hidraw dev "@ + id_product@
                + " not found"@ && forall|j: int|
                0 <= j < endpoints@.len() ==> (#[trigger] endpoints@[j]).parent is Ok
                    && !endpoint_matches(endpoints@[j], id_product@),
            r matches Err(e) ==> (e is IoPath || e is MissingFunction),
    {
        let mut i: usize = 0;
        while i < endpoints.len()
            invariant
                0 <= i <= endpoints@.len(),
                forall|j: int|
                    0 <= j < i ==> (#[trigger] endpoints@[j]).parent is Ok && !endpoint_matches(
                        endpoints@[j],
                        id_product@,
                    ),
            decreases endpoints.len() - i,
        {
            let e = &endpoints[i];
            if let Err(f) = &e.parent {
                return Err(PlatformError::IoPath(owned(e.devpath.as_str()), *f));
            }
            match Self::of_endpoint(e) {
                Some(n) => {
                    if str_eq(n.prod_id.as_str(), id_product) {
                        return Ok((i, n));
                    }
                },
                None => {},
            }
            i = i + 1;
        }
        let head = concat("hidraw dev ", id_product);
        Err(PlatformError::MissingFunction(concat(head.as_str(), " not found")))
    }

    /// The node of one endpoint: a failed parent lookup is its error, and an
    /// endpoint without a USB parent, `/dev` node or `idProduct` is missing.
    pub fn from_device(e: &HidEndpoint) -> (r: Result<HidRawNode, PlatformError>)
        ensures
            r matches Ok(n) ==> endpoint_product(*e) is Some && n.describes(*e),
            e.parent matches Err(f) ==> (r matches Err(PlatformError::IoPath(p, g)) && p@
                == e.devpath@ && g == f),
            e.parent is Ok && endpoint_product(*e) is None ==> (r matches Err(
                PlatformError::MissingFunction(m),
            ) && m@ == "hidraw dev no dev path"@),
            e.parent is Ok && endpoint_product(*e) is Some ==> r is Ok,
    {
        if let Err(f) = &e.parent {
            return Err(PlatformError::IoPath(owned(e.devpath.as_str()), *f));
        }
        match Self::of_endpoint(e) {
            Some(n) => Ok(n),
            None => Err(PlatformError::MissingFunction(owned("hidraw dev no dev path"))),
        }
    }

    /// The product ID.
    pub fn prod_id(&self) -> (r: &str)
        ensures
            r@ == self.prod_id_view(),
    {
        self.prod_id.as_str()
    }

    /// The `/dev` node.
    pub fn devfs_path(&self) -> (r: &str)
        ensures
            r@ == self.devfs_path_view(),
    {
        self.devfs_path.as_str()
    }

    /// A message can be written only if it is not empty.
    pub fn check_message(message: &[u8]) -> (r: Result<(), PlatformError>)
        ensures
            r is Ok <==> message@.len() > 0,
            r matches Err(e) ==> e is InvalidValue,
    {
        if message.len() == 0 {
            Err(PlatformError::InvalidValue)
        } else {
            Ok(())
        }
    }
}

/// The sizes and items of HID short items as the HID specification fixes
/// them: a size code of 0, 1 or 2 means that many data bytes and 3 means four;
/// the one-byte Report ID item has prefix `0x85`; the Output main items have
/// prefixes `0x90` to `0x93`.
pub proof fn lemma_short_items(p: u8)
    ensures
        p % 4 == 0 ==> short_item_size(p) == 0,
        p % 4 == 1 ==> short_item_size(p) == 1,
        p % 4 == 2 ==> short_item_size(p) == 2,
        p % 4 == 3 ==> short_item_size(p) == 4,
        ((p / 4) % 4 == 1 && p / 16 == 8 && short_item_size(p) == 1) <==> p == 0x85,
        is_output_item(p) <==> (0x90 <= p && p <= 0x93),
{
}

} // verus!
