//! The ASUS Slash lightbar LED class device.

use vstd::prelude::*;

use crate::dynamic_led::LedNode;
use crate::error::PlatformError;
use crate::text::{chars_of, contains_sub, owned, str_contains, string_of};

verus! {

/// The usual sysfs node of the Slash lightbar.
pub const SLASH_LED_PATH: &'static str = "/sys/class/leds/asus::slash";

/// The Slash lightbar LED node, known by its sysfs path.
#[derive(Debug, Clone, PartialEq, Eq, PartialOrd)]
pub struct SlashLed {
    path: String,
}

impl View for SlashLed {
    type V = Seq<char>;

    /// The sysfs path of the node.
    closed spec fn view(&self) -> Seq<char> {
        self.path@
    }
}

impl Default for SlashLed {
    fn default() -> (r: Self)
        ensures
            r@ == Seq::<char>::empty(),
    {
        SlashLed { path: String::new() }
    }
}

/// Whether `nodes[i]` is the first node whose name contains `slash`.
pub open spec fn first_slash_at(nodes: Seq<LedNode>, i: int) -> bool {
    0 <= i < nodes.len() && contains_sub(nodes[i].sysname@, "slash"@) && forall|j: int|
        0 <= j < i ==> !contains_sub(#[trigger] nodes[j].sysname@, "slash"@)
}

/// Where the Slash LED is found: at its usual path when that exists, else at
/// the first LED class device whose name contains `slash`.
pub open spec fn slash_led_path(std_path_exists: bool, nodes: Seq<LedNode>) -> Option<Seq<char>> {
    if std_path_exists {
        Some(SLASH_LED_PATH@)
    } else if exists|i: int| 0 <= i < nodes.len() && contains_sub(nodes[i].sysname@, "slash"@) {
        let i = choose|i: int| first_slash_at(nodes, i);
        Some(nodes[i].syspath@)
    } else {
        None
    }
}

impl SlashLed {
    /// Find the Slash LED, given whether its usual path exists and the
    /// enumerated LED class devices.
    pub fn new(std_path_exists: bool, nodes: &[LedNode]) -> (r: Result<Self, PlatformError>)
        ensures
            r is Ok <==> slash_led_path(std_path_exists, nodes@) is Some,
            r matches Ok(led) ==> slash_led_path(std_path_exists, nodes@) == Some(led@),
            r matches Err(e) ==> (e matches PlatformError::MissingFunction(m) && m@
                == "SlashLed:new(), asus::slash not found"@),
    {
        if std_path_exists {
            return Ok(SlashLed { path: string_of(chars_of(SLASH_LED_PATH).as_slice()) });
        }
        let mut i: usize = 0;
        while i < nodes.len()
            invariant
                !std_path_exists,
                0 <= i <= nodes@.len(),
                forall|j: int| 0 <= j < i ==> !contains_sub(#[trigger] nodes@[j].sysname@, "slash"@),
            decreases nodes.len() - i,
        {
            if str_contains(nodes[i].sysname.as_str(), "slash") {
                proof {
                    assert(first_slash_at(nodes@, i as int));
                    let w = choose|k: int| first_slash_at(nodes@, k);
                    assert(exists|k: int|
                        0 <= k < nodes@.len() && contains_sub(nodes@[k].sysname@, "slash"@)) by {
                        assert(contains_sub(nodes@[i as int].sysname@, "slash"@));
                    }
                    if w < i {
                        assert(!contains_sub(nodes@[w].sysname@, "slash"@));
                    } else if w > i {
                        assert(!contains_sub(nodes@[i as int].sysname@, "slash"@));
                    }
                    assert(w == i);
                }
                let r = SlashLed { path: nodes[i].syspath.clone() };
                assert(r@ == nodes@[i as int].syspath@);
                return Ok(r);
            }
            i = i + 1;
        }
        Err(PlatformError::MissingFunction(owned("SlashLed:new(), asus::slash not found")))
    }

    /// Whether the Slash LED can be found.
    pub fn is_available(std_path_exists: bool, nodes: &[LedNode]) -> (r: bool)
        ensures
            r == slash_led_path(std_path_exists, nodes@) is Some,
    {
        Self::new(std_path_exists, nodes).is_ok()
    }

    /// The sysfs path of the node.
    pub fn path(&self) -> (r: &str)
        ensures
            r@ == self@,
    {
        self.path.as_str()
    }
}

} // verus!
