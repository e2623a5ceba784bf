//! Dynamic Lighting class devices under `/sys/class/leds/`.
//!
//! A kernel `led-class-dynamic` sysfs node exposes effects, palette, speed,
//! direction, power states, direct buffer streaming, and the standard
//! brightness attributes. The sysfs reads and writes happen outside this
//! library; what is decided on their contents is decided here.

use vstd::prelude::*;

use crate::error::PlatformError;
use crate::path::{file_name, path_file_name};
use crate::text::{
    chars_of, concat, contains_str, has_prefix, parse_u32_radix, parse_unsigned, runs,
    split_runs, split_whitespace, starts_with, str_eq, string_of, words, Separator,
};

verus! {

/// The attributes every Dynamic Lighting node must provide.
pub open spec fn mandatory_attributes() -> Seq<Seq<char>> {
    seq!["effect"@, "effect_index"@, "zone_type"@, "led_count"@]
}

/// Whether the attribute names `present` include every mandatory attribute.
pub open spec fn has_mandatory_attributes(present: Seq<Seq<char>>) -> bool {
    forall|i: int| 0 <= i < 4 ==> present.contains(#[trigger] mandatory_attributes()[i])
}

/// An LED class device as udev enumerates it: its name, its sysfs path, and
/// the names of the attribute files in its directory.
#[derive(Debug)]
pub struct LedNode {
    pub sysname: String,
    pub syspath: String,
    pub attributes: Vec<String>,
}

/// Whether `n` is the Dynamic Lighting node called `name`.
pub open spec fn node_matches(n: LedNode, name: Seq<char>) -> bool {
    n.sysname@ == name && has_mandatory_attributes(n.attributes.deep_view())
}

/// Whether `i` is the first of `nodes` that is the Dynamic Lighting node
/// `name`.
pub open spec fn first_match_at(nodes: Seq<LedNode>, name: Seq<char>, i: int) -> bool {
    &&& 0 <= i < nodes.len()
    &&& node_matches(nodes[i], name)
    &&& forall|j: int| 0 <= j < i ==> !node_matches(#[trigger] nodes[j], name)
}

/// A Dynamic Lighting LED node, known by its sysfs path.
#[derive(Debug, Clone, PartialEq, Eq, PartialOrd)]
pub struct DynamicLed {
    path: String,
}

impl View for DynamicLed {
    type V = Seq<char>;

    /// The sysfs path of the node.
    closed spec fn view(&self) -> Seq<char> {
        self.path@
    }
}

/// The name of a node at `path`: the final component of its path, or empty.
pub open spec fn led_name(path: Seq<char>) -> Seq<char> {
    match file_name(path) {
        Some(n) => n,
        None => seq![],
    }
}

/// The value after the leading `[` and before the trailing `]` of a word, if
/// the word is bracketed so.
pub open spec fn bracketed_inner(w: Seq<char>) -> Option<Seq<char>> {
    if w.len() >= 2 && w[0] == '[' && w.last() == ']' {
        Some(w.subrange(1, w.len() - 1))
    } else {
        None
    }
}

/// The inner value of the first bracketed word of `ws`.
pub open spec fn first_bracketed(ws: Seq<Seq<char>>) -> Option<Seq<char>>
    decreases ws.len(),
{
    if ws.len() == 0 {
        None
    } else {
        match bracketed_inner(ws[0]) {
            Some(v) => Some(v),
            None => first_bracketed(ws.drop_first()),
        }
    }
}

/// The speed range `(min, max)` that a `speed_range` attribute advertises: the
/// decimal numbers in it, which must be exactly two with `min <= max`.
pub open spec fn speed_range_of(raw: Seq<char>) -> Result<(u32, u32), PlatformError> {
    let rs = runs(raw, Separator::NonDigit);
    if exists|i: int| 0 <= i < rs.len() && (#[trigger] parse_unsigned(rs[i], 10, u32::MAX as nat)) is None {
        Err(PlatformError::ParseNum)
    } else if rs.len() == 2 && parse_unsigned(rs[0], 10, u32::MAX as nat)->0 <= parse_unsigned(
        rs[1],
        10,
        u32::MAX as nat,
    )->0 {
        Ok(
            (
                parse_unsigned(rs[0], 10, u32::MAX as nat)->0 as u32,
                parse_unsigned(rs[1], 10, u32::MAX as nat)->0 as u32,
            ),
        )
    } else {
        Err(PlatformError::InvalidValue)
    }
}

/// The lowercase hexadecimal digit of `v` (below 16).
pub open spec fn hex_char(v: int) -> char {
    if v < 10 {
        (v + 48) as char
    } else {
        (v + 87) as char
    }
}

/// `#rrggbb` for one palette colour.
pub open spec fn colour_hex(c: (u8, u8, u8)) -> Seq<char> {
    seq![
        '#',
        hex_char((c.0 / 16) as int),
        hex_char((c.0 % 16) as int),
        hex_char((c.1 / 16) as int),
        hex_char((c.1 % 16) as int),
        hex_char((c.2 / 16) as int),
        hex_char((c.2 % 16) as int),
    ]
}

/// The `effects_palette` text of a palette: each colour as `#rrggbb`,
/// separated by single spaces.
pub open spec fn palette_text(cs: Seq<(u8, u8, u8)>) -> Seq<char>
    decreases cs.len(),
{
    if cs.len() == 0 {
        seq![]
    } else if cs.len() == 1 {
        colour_hex(cs[0])
    } else {
        palette_text(cs.drop_last()) + seq![' '] + colour_hex(cs.last())
    }
}

/// The lowercase hexadecimal digit of `v`.
pub fn hex_digit(v: u8) -> (c: char)
    requires
        v < 16,
    ensures
        c == hex_char(v as int),
{
    if v < 10 {
        (v + 48) as char
    } else {
        (v + 87) as char
    }
}

/// The `effects_palette` text of a palette.
pub fn format_palette(colors: &[(u8, u8, u8)]) -> (r: String)
    ensures
        r@ == palette_text(colors@),
{
    let mut out: Vec<char> = Vec::new();
    let mut i: usize = 0;
    while i < colors.len()
        invariant
            0 <= i <= colors@.len(),
            out@ == palette_text(colors@.take(i as int)),
        decreases colors.len() - i,
    {
        let (r, g, b) = colors[i];
        assert(colors@.take(i + 1).drop_last() =~= colors@.take(i as int));
        if i > 0 {
            out.push(' ');
        }
        out.push('#');
        out.push(hex_digit(r / 16));
        out.push(hex_digit(r % 16));
        out.push(hex_digit(g / 16));
        out.push(hex_digit(g % 16));
        out.push(hex_digit(b / 16));
        out.push(hex_digit(b % 16));
        assert(out@ =~= palette_text(colors@.take(i + 1)));
        i = i + 1;
    }
    assert(colors@.take(colors@.len() as int) =~= colors@);
    string_of(out.as_slice())
}

/// Check that a direct frame of `data_len` bytes is exactly one RGB triple per
/// LED of a node with `led_count` LEDs.
pub fn validate_direct_len(led_count: usize, data_len: usize) -> (r: Result<(), PlatformError>)
    ensures
        r is Ok <==> (led_count * 3 <= usize::MAX && data_len == led_count * 3),
        r matches Err(e) ==> e is InvalidValue,
{
    let expected = match led_count.checked_mul(3) {
        Some(v) => v,
        None => return Err(PlatformError::InvalidValue),
    };
    if data_len == expected {
        Ok(())
    } else {
        Err(PlatformError::InvalidValue)
    }
}

/// The active entry of an index attribute such as `aura_mode`
/// (`auto [unified] split` gives `unified`).
pub fn parse_active_index(raw: &str) -> (r: Result<String, PlatformError>)
    ensures
        r is Ok <==> first_bracketed(words(raw@)) is Some,
        r matches Ok(v) ==> first_bracketed(words(raw@)) == Some(v@),
        r matches Err(e) ==> e is InvalidValue,
{
    let cs = chars_of(raw);
    let ws = split_runs(cs.as_slice(), Separator::White);
    let ghost all = ws.deep_view();
    let mut i: usize = 0;
    assert(all.skip(0) =~= all);
    while i < ws.len()
        invariant
            0 <= i <= ws@.len(),
            all == ws.deep_view(),
            all == words(raw@),
            first_bracketed(all) == first_bracketed(all.skip(i as int)),
        decreases ws.len() - i,
    {
        let w = &ws[i];
        assert(all[i as int] == w@);
        assert(all.skip(i as int)[0] == w@);
        assert(all.skip(i as int).drop_first() =~= all.skip(i + 1));
        let n = w.len();
        if n >= 2 && w[0] == '[' && w[n - 1] == ']' {
            let mut inner: Vec<char> = Vec::new();
            let mut k: usize = 1;
            while k < n - 1
                invariant
                    n == w@.len(),
                    n >= 2,
                    1 <= k <= n - 1,
                    inner@ == w@.subrange(1, k as int),
                decreases n - 1 - k,
            {
                inner.push(w[k]);
                assert(w@.subrange(1, k + 1) =~= w@.subrange(1, k as int).push(w@[k as int]));
                k = k + 1;
            }
            return Ok(string_of(inner.as_slice()));
        }
        i = i + 1;
    }
    Err(PlatformError::InvalidValue)
}

/// The inclusive speed range advertised by a `speed_range` attribute.
pub fn parse_speed_range(raw: &str) -> (r: Result<(u32, u32), PlatformError>)
    ensures
        r == speed_range_of(raw@),
{
    let cs = chars_of(raw);
    let rs = split_runs(cs.as_slice(), Separator::NonDigit);
    let ghost all = rs.deep_view();
    let mut values: Vec<u32> = Vec::new();
    let mut i: usize = 0;
    while i < rs.len()
        invariant
            0 <= i <= rs@.len(),
            all == rs.deep_view(),
            all == runs(raw@, Separator::NonDigit),
            values@.len() == i,
            forall|k: int|
                0 <= k < i ==> parse_unsigned(#[trigger] all[k], 10, u32::MAX as nat) == Some(
                    values@[k] as nat,
                ),
        decreases rs.len() - i,
    {
        assert(all[i as int] == rs[i as int]@);
        match parse_u32_radix(rs[i].as_slice(), 10) {
            Some(v) => {
                values.push(v);
            },
            None => {
                assert(parse_unsigned(all[i as int], 10, u32::MAX as nat) is None);
                return Err(PlatformError::ParseNum);
            },
        }
        i = i + 1;
    }
    assert(!exists|k: int|
        0 <= k < all.len() && (#[trigger] parse_unsigned(all[k], 10, u32::MAX as nat)) is None);
    if values.len() == 2 && values[0] <= values[1] {
        Ok((values[0], values[1]))
    } else {
        Err(PlatformError::InvalidValue)
    }
}

/// Check an ASUS topology mode: `auto`, `unified` or `split`.
pub fn check_asus_aura_mode(mode: &str) -> (r: Result<(), PlatformError>)
    ensures
        r is Ok <==> (mode@ == "auto"@ || mode@ == "unified"@ || mode@ == "split"@),
        r matches Err(e) ==> e is InvalidValue,
{
    if str_eq(mode, "auto") || str_eq(mode, "unified") || str_eq(mode, "split") {
        Ok(())
    } else {
        Err(PlatformError::InvalidValue)
    }
}

impl DynamicLed {
    /// Whether `attributes` names every mandatory Dynamic Lighting attribute.
    pub fn is_dynamic_node(attributes: &[String]) -> (r: bool)
        ensures
            r == has_mandatory_attributes(attributes.deep_view()),
    {
        proof {
            reveal_strlit("effect");
            reveal_strlit("effect_index");
            reveal_strlit("zone_type");
            reveal_strlit("led_count");
        }
        let r = contains_str(attributes, "effect") && contains_str(attributes, "effect_index")
            && contains_str(attributes, "zone_type") && contains_str(attributes, "led_count");
        assert(mandatory_attributes()[0] == "effect"@);
        assert(mandatory_attributes()[1] == "effect_index"@);
        assert(mandatory_attributes()[2] == "zone_type"@);
        assert(mandatory_attributes()[3] == "led_count"@);
        r
    }

    /// Find the Dynamic Lighting node named exactly `name` (e.g.
    /// `"aura:keyboard"`) among the enumerated LED class devices: the first
    /// whose name matches and that has every mandatory attribute.
    pub fn find(name: &str, nodes: &[LedNode]) -> (r: Result<Self, PlatformError>)
        ensures
            r is Ok <==> exists|i: int| 0 <= i < nodes@.len() && node_matches(nodes@[i], name@),
            r matches Ok(led) ==> exists|i: int|
                first_match_at(nodes@, name@, i) && led@ == nodes@[i].syspath@,
            r matches Err(e) ==> (e matches PlatformError::MissingFunction(m) && m@
                == "DynamicLed::new(): no dynamic LED named '"@ + name@ + "' found"@),
    {
        let mut i: usize = 0;
        while i < nodes.len()
            invariant
                0 <= i <= nodes@.len(),
                forall|j: int| 0 <= j < i ==> !node_matches(#[trigger] nodes@[j], name@),
            decreases nodes.len() - i,
        {
            let n = &nodes[i];
            if str_eq(n.sysname.as_str(), name) && Self::is_dynamic_node(n.attributes.as_slice()) {
                let led = DynamicLed { path: n.syspath.clone() };
                assert(first_match_at(nodes@, name@, i as int));
                return Ok(led);
            }
            i = i + 1;
        }
        let head = concat("DynamicLed::new(): no dynamic LED named '", name);
        Err(PlatformError::MissingFunction(concat(head.as_str(), "' found")))
    }

    /// Check if a dynamic LED named `name` is present among `nodes`.
    pub fn is_available(name: &str, nodes: &[LedNode]) -> (r: bool)
        ensures
            r == exists|i: int| 0 <= i < nodes@.len() && node_matches(nodes@[i], name@),
    {
        Self::find(name, nodes).is_ok()
    }

    /// The node at `path`, if the attribute names in its directory make it a
    /// Dynamic Lighting node.
    pub fn from_syspath(path: String, attributes: &[String]) -> (r: Result<Self, PlatformError>)
        ensures
            r is Ok <==> has_mandatory_attributes(attributes.deep_view()),
            r matches Ok(led) ==> led@ == path@,
            r matches Err(e) ==> (e matches PlatformError::MissingFunction(m) && m@ == path@
                + " is not a Dynamic Lighting LED node"@),
    {
        if !Self::is_dynamic_node(attributes) {
            let msg = concat(path.as_str(), " is not a Dynamic Lighting LED node");
            return Err(PlatformError::MissingFunction(msg));
        }
        Ok(DynamicLed { path })
    }

    /// Return the LED name (e.g. "aura:keyboard" or "asus::kbd_backlight"):
    /// the final component of its sysfs path.
    pub fn name(&self) -> (r: String)
        ensures
            r@ == led_name(self@),
    {
        match path_file_name(self.path.as_str()) {
            Some(n) => string_of(n.as_slice()),
            None => String::new(),
        }
    }

    /// Return the sysfs path.
    pub fn path(&self) -> (r: &str)
        ensures
            r@ == self@,
    {
        self.path.as_str()
    }

    /// The supported effects listed in an `effect_index` attribute.
    pub fn get_supported_effects_list(effect_index: &str) -> (r: Vec<String>)
        ensures
            r.deep_view() == words(effect_index@),
    {
        split_whitespace(effect_index)
    }

    /// Whether `effect` is listed in the `effect_index` attribute.
    pub fn supports_effect(effect_index: &str, effect: &str) -> (r: bool)
        ensures
            r == words(effect_index@).contains(effect@),
    {
        let list = Self::get_supported_effects_list(effect_index);
        contains_str(list.as_slice(), effect)
    }

    /// Whether `effect` is supported, given the `effect_index` attribute if it
    /// could be read; an unreadable index supports nothing.
    pub fn is_effect_supported(effect_index: Option<&str>, effect: &str) -> (r: bool)
        ensures
            r == match effect_index {
                Some(t) => words(t@).contains(effect@),
                None => false,
            },
    {
        match effect_index {
            Some(t) => Self::supports_effect(t, effect),
            None => false,
        }
    }

    /// The supported directions listed in a `direction_index` attribute.
    pub fn get_supported_directions_list(direction_index: &str) -> (r: Vec<String>)
        ensures
            r.deep_view() == words(direction_index@),
    {
        split_whitespace(direction_index)
    }

    /// The value to write to `speed`, validated against the optional advertised
    /// inclusive range.
    pub fn set_supported_speed(speed: u32, has_speed: bool, speed_range: Option<&str>) -> (r: Result<
        u32,
        PlatformError,
    >)
        ensures
            !has_speed ==> (r matches Err(PlatformError::AttrNotFound(a)) && a@ == "speed"@),
            has_speed ==> r == (match speed_range {
                None => Ok(speed),
                Some(t) => match speed_range_of(t@) {
                    Err(e) => Err(e),
                    Ok((lo, hi)) => if lo <= speed && speed <= hi {
                        Ok(speed)
                    } else {
                        Err(PlatformError::InvalidValue)
                    },
                },
            }),
    {
        if !has_speed {
            return Err(PlatformError::AttrNotFound(string_of(chars_of("speed").as_slice())));
        }
        if let Some(t) = speed_range {
            let (min, max) = match parse_speed_range(t) {
                Ok(v) => v,
                Err(e) => return Err(e),
            };
            if !(min <= speed && speed <= max) {
                return Err(PlatformError::InvalidValue);
            }
        }
        Ok(speed)
    }

    /// Validate a direction against the optional advertised `direction_index`;
    /// `Ok` means the direction may be written.
    pub fn set_supported_direction(
        direction: &str,
        has_direction: bool,
        direction_index: Option<&str>,
    ) -> (r: Result<(), PlatformError>)
        ensures
            !has_direction ==> (r matches Err(PlatformError::AttrNotFound(a)) && a@
                == "direction"@),
            has_direction ==> (r is Ok <==> match direction_index {
                None => true,
                Some(t) => words(t@).contains(direction@),
            }),
            has_direction ==> (r matches Err(e) ==> e is InvalidValue),
    {
        if !has_direction {
            return Err(PlatformError::AttrNotFound(string_of(chars_of("direction").as_slice())));
        }
        if let Some(t) = direction_index {
            let list = Self::get_supported_directions_list(t);
            if !contains_str(list.as_slice(), direction) {
                return Err(PlatformError::InvalidValue);
            }
        }
        Ok(())
    }

    /// The `effects_palette` text for `colors`, checked against the node's
    /// optional `max_palette_entries`.
    pub fn set_palette_colors(
        colors: &[(u8, u8, u8)],
        has_effects_palette: bool,
        max_palette_entries: Option<u32>,
    ) -> (r: Result<String, PlatformError>)
        ensures
            !has_effects_palette ==> (r matches Err(PlatformError::AttrNotFound(a)) && a@
                == "effects_palette"@),
            has_effects_palette ==> (r is Ok <==> match max_palette_entries {
                None => true,
                Some(m) => colors@.len() <= m,
            }),
            has_effects_palette ==> (r matches Err(e) ==> e is InvalidValue),
            r matches Ok(t) ==> t@ == palette_text(colors@),
    {
        if !has_effects_palette {
            return Err(
                PlatformError::AttrNotFound(string_of(chars_of("effects_palette").as_slice())),
            );
        }
        if let Some(m) = max_palette_entries {
            if colors.len() as u64 > m as u64 {
                return Err(PlatformError::InvalidValue);
            }
        }
        Ok(format_palette(colors))
    }

    /// Whether this ASUS node exposes the non-generic topology selector: its
    /// name starts with `aura:` and it has an `aura_mode` attribute.
    pub fn has_asus_aura_mode(&self, aura_mode_exists: bool) -> (r: bool)
        ensures
            r == (has_prefix(led_name(self@), "aura:"@) && aura_mode_exists),
    {
        let n = self.name();
        let nc = chars_of(n.as_str());
        let p = chars_of("aura:");
        starts_with(nc.as_slice(), p.as_slice()) && aura_mode_exists
    }
}

} // verus!
