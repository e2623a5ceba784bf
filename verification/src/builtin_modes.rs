//! Built-in Aura effects: brightness levels, colours, speeds, directions,
//! modes, zones, and the USB packet they encode to.

use vstd::prelude::*;

use crate::error::Error;
use crate::text::{
    chars_of, digit_of, digit_value, str_eq, string_of, to_ascii_lowercase, to_lowercase, unicode_lowercase,
    ascii_lower, plain_lowercase,
};

verus! {

/// Length of one laptop Aura effect packet.
pub const AURA_LAPTOP_LED_MSG_LEN: usize = 17;

/// The four brightness steps of the keyboard backlight.
#[derive(Debug, Clone, Copy, PartialEq, Eq, Structural)]
pub enum LedBrightness {
    Off,
    Low,
    Med,
    High,
}

/// The numeric level of a brightness step (0 to 3).
pub open spec fn brightness_level(b: LedBrightness) -> u8 {
    match b {
        LedBrightness::Off => 0,
        LedBrightness::Low => 1,
        LedBrightness::Med => 2,
        LedBrightness::High => 3,
    }
}

/// The step after `b`, wrapping from `High` to `Off`.
pub open spec fn brightness_next(b: LedBrightness) -> LedBrightness {
    match b {
        LedBrightness::Off => LedBrightness::Low,
        LedBrightness::Low => LedBrightness::Med,
        LedBrightness::Med => LedBrightness::High,
        LedBrightness::High => LedBrightness::Off,
    }
}

/// The step before `b`, wrapping from `Off` to `High`.
pub open spec fn brightness_prev(b: LedBrightness) -> LedBrightness {
    match b {
        LedBrightness::Off => LedBrightness::High,
        LedBrightness::Low => LedBrightness::Off,
        LedBrightness::Med => LedBrightness::Low,
        LedBrightness::High => LedBrightness::Med,
    }
}

/// The sysfs value of step `b` for a node whose maximum is `max`.
pub open spec fn brightness_scaled(b: LedBrightness, max: u8) -> u8 {
    if max <= 3 {
        brightness_level(b)
    } else {
        match b {
            LedBrightness::Off => 0,
            LedBrightness::Low => max / 3,
            LedBrightness::Med => ((2 * max) / 3) as u8,
            LedBrightness::High => max,
        }
    }
}

/// The step that sysfs value `value` falls in, for a node whose maximum is `max`.
pub open spec fn brightness_from_scaled(value: u8, max: u8) -> LedBrightness {
    if max <= 3 {
        brightness_from_level(value)
    } else if value == 0 {
        LedBrightness::Off
    } else if value <= max / 3 {
        LedBrightness::Low
    } else if value <= (2 * max) / 3 {
        LedBrightness::Med
    } else {
        LedBrightness::High
    }
}

/// The step of a raw level: 0, 1 and 3 name their step, anything else is `Med`.
pub open spec fn brightness_from_level(value: u8) -> LedBrightness {
    if value == 0 {
        LedBrightness::Off
    } else if value == 1 {
        LedBrightness::Low
    } else if value == 3 {
        LedBrightness::High
    } else {
        LedBrightness::Med
    }
}

impl LedBrightness {
    pub fn next(&self) -> (r: Self)
        ensures
            r == brightness_next(*self),
    {
        match self {
            LedBrightness::Off => LedBrightness::Low,
            LedBrightness::Low => LedBrightness::Med,
            LedBrightness::Med => LedBrightness::High,
            LedBrightness::High => LedBrightness::Off,
        }
    }

    pub fn prev(&self) -> (r: Self)
        ensures
            r == brightness_prev(*self),
    {
        match self {
            LedBrightness::Off => LedBrightness::High,
            LedBrightness::Low => LedBrightness::Off,
            LedBrightness::Med => LedBrightness::Low,
            LedBrightness::High => LedBrightness::Med,
        }
    }

    /// Map the 4-step UI level onto a sysfs brightness value.
    ///
    /// When `max_brightness <= 3` the legacy 0..=3 mapping is kept. Otherwise
    /// levels are scaled across `0..=max_brightness` (Off=0, High=max).
    pub fn to_scaled(self, max_brightness: u8) -> (r: u8)
        ensures
            r == brightness_scaled(self, max_brightness),
    {
        if max_brightness <= 3 {
            return self.level();
        }
        match self {
            LedBrightness::Off => 0,
            LedBrightness::Low => max_brightness / 3,
            LedBrightness::Med => ((2u16 * max_brightness as u16) / 3) as u8,
            LedBrightness::High => max_brightness,
        }
    }

    /// Inverse of [`Self::to_scaled`].
    pub fn from_scaled(value: u8, max_brightness: u8) -> (r: Self)
        ensures
            r == brightness_from_scaled(value, max_brightness),
    {
        if max_brightness <= 3 {
            return Self::from_level(value);
        }
        if value == 0 {
            return LedBrightness::Off;
        }
        let low = max_brightness / 3;
        let med = ((2u16 * max_brightness as u16) / 3) as u8;
        if value <= low {
            LedBrightness::Low
        } else if value <= med {
            LedBrightness::Med
        } else {
            LedBrightness::High
        }
    }

    /// The numeric level of this step (0 to 3).
    pub fn level(self) -> (r: u8)
        ensures
            r == brightness_level(self),
    {
        match self {
            LedBrightness::Off => 0,
            LedBrightness::Low => 1,
            LedBrightness::Med => 2,
            LedBrightness::High => 3,
        }
    }

    /// The step of a raw level: 0, 1 and 3 name their step, anything else is `Med`.
    pub fn from_level(value: u8) -> (r: Self)
        ensures
            r == brightness_from_level(value),
    {
        match value {
            0 => LedBrightness::Off,
            1 => LedBrightness::Low,
            3 => LedBrightness::High,
            _ => LedBrightness::Med,
        }
    }
}

/// Scaling a step to sysfs and reading it back gives the same step, for every
/// maximum the node may advertise.
pub proof fn lemma_brightness_scaled_round_trip(b: LedBrightness, max: u8)
    ensures
        brightness_from_scaled(brightness_scaled(b, max), max) == b,
{
}

/// `next` and `prev` undo each other.
pub proof fn lemma_brightness_next_prev(b: LedBrightness)
    ensures
        brightness_prev(brightness_next(b)) == b,
        brightness_next(brightness_prev(b)) == b,
{
}


impl Default for LedBrightness {
    fn default() -> (r: Self)
        ensures
            r == LedBrightness::Med,
    {
        LedBrightness::Med
    }
}

impl From<u8> for LedBrightness {
    fn from(bright: u8) -> Self {
        Self::from_level(bright)
    }
}

impl vstd::std_specs::convert::FromSpecImpl<u8> for LedBrightness {
    open spec fn obeys_from_spec() -> bool {
        true
    }

    open spec fn from_spec(v: u8) -> Self {
        brightness_from_level(v)
    }
}

impl From<LedBrightness> for u8 {
    fn from(l: LedBrightness) -> Self {
        l.level()
    }
}

impl vstd::std_specs::convert::FromSpecImpl<LedBrightness> for u8 {
    open spec fn obeys_from_spec() -> bool {
        true
    }

    open spec fn from_spec(v: LedBrightness) -> Self {
        brightness_level(v)
    }
}

impl From<LedBrightness> for i32 {
    fn from(l: LedBrightness) -> Self {
        l.level() as i32
    }
}

impl vstd::std_specs::convert::FromSpecImpl<LedBrightness> for i32 {
    open spec fn obeys_from_spec() -> bool {
        true
    }

    open spec fn from_spec(v: LedBrightness) -> Self {
        brightness_level(v) as i32
    }
}

/// The step of an `i32` level: 0 to 3 name their step, anything else is `Med`.
pub open spec fn brightness_from_i32(l: i32) -> LedBrightness {
    if l == 0 {
        LedBrightness::Off
    } else if l == 1 {
        LedBrightness::Low
    } else if l == 3 {
        LedBrightness::High
    } else {
        LedBrightness::Med
    }
}

impl From<i32> for LedBrightness {
    fn from(l: i32) -> Self {
        match l {
            0 => LedBrightness::Off,
            1 => LedBrightness::Low,
            2 => LedBrightness::Med,
            3 => LedBrightness::High,
            _ => LedBrightness::Med,
        }
    }
}

impl vstd::std_specs::convert::FromSpecImpl<i32> for LedBrightness {
    open spec fn obeys_from_spec() -> bool {
        true
    }

    open spec fn from_spec(v: i32) -> Self {
        brightness_from_i32(v)
    }
}

/// A brightness step survives the trip through its `u8` and its `i32` level.
pub proof fn lemma_brightness_level_round_trip(b: LedBrightness)
    ensures
        brightness_from_level(brightness_level(b)) == b,
        brightness_from_i32(brightness_level(b) as i32) == b,
{
}

/// An RGB colour.
#[derive(Debug, Clone, Copy, PartialEq, Eq, Structural)]
pub struct Colour {
    pub r: u8,
    pub g: u8,
    pub b: u8,
}

impl Default for Colour {
    fn default() -> (c: Self)
        ensures
            c == (Colour { r: 166, g: 0, b: 0 }),
    {
        Colour { r: 166, g: 0, b: 0 }
    }
}

/// The byte spelled by two hexadecimal digits.
pub open spec fn hex_byte(hi: char, lo: char) -> u8 {
    (digit_value(hi, 16)->0 * 16 + digit_value(lo, 16)->0) as u8
}

/// The colour spelled by the first six characters of `s` (`RRGGBB`, upper or
/// lower case hex), if they are six hex digits.
pub open spec fn colour_from_text(s: Seq<char>) -> Option<Colour> {
    if s.len() >= 6 && forall|i: int| 0 <= i < 6 ==> (#[trigger] digit_value(s[i], 16)) is Some {
        Some(
            Colour {
                r: hex_byte(s[0], s[1]),
                g: hex_byte(s[2], s[3]),
                b: hex_byte(s[4], s[5]),
            },
        )
    } else {
        None
    }
}

impl Colour {
    /// Parse `RRGGBB` from the start of `s`; characters after the sixth are ignored.
    pub fn parse(s: &str) -> (r: Result<Colour, Error>)
        ensures
            r == (match colour_from_text(s@) {
                Some(c) => Ok(c),
                None => Err(Error::ParseColour),
            }),
    {
        let cs = chars_of(s);
        if cs.len() < 6 {
            return Err(Error::ParseColour);
        }
        let mut vals: Vec<u32> = Vec::new();
        let mut i: usize = 0;
        while i < 6
            invariant
                cs@ == s@,
                cs@.len() >= 6,
                0 <= i <= 6,
                vals@.len() == i,
                forall|k: int| 0 <= k < i ==> digit_value(cs@[k], 16) == Some(vals@[k] as nat),
            decreases 6 - i,
        {
            match digit_of(cs[i], 16) {
                Some(v) => {
                    vals.push(v);
                },
                None => {
                    return Err(Error::ParseColour);
                },
            }
            i = i + 1;
        }
        proof {
            assert forall|k: int| 0 <= k < 6 implies (#[trigger] digit_value(s@[k], 16)) is Some by {
                assert(digit_value(cs@[k], 16) == Some(vals@[k] as nat));
            }
            assert(forall|k: int| 0 <= k < 6 ==> vals@[k] < 16);
        }
        let r = (vals[0] * 16 + vals[1]) as u8;
        let g = (vals[2] * 16 + vals[3]) as u8;
        let b = (vals[4] * 16 + vals[5]) as u8;
        Ok(Colour { r, g, b })
    }
}

impl std::str::FromStr for Colour {
    type Err = Error;

    fn from_str(s: &str) -> (r: Result<Self, Self::Err>)
        ensures
            r == (match colour_from_text(s@) {
                Some(c) => Ok(c),
                None => Err(Error::ParseColour),
            }),
    {
        Colour::parse(s)
    }
}

impl From<&[u8; 3]> for Colour {
    fn from(c: &[u8; 3]) -> Self {
        Colour { r: c[0], g: c[1], b: c[2] }
    }
}

impl vstd::std_specs::convert::FromSpecImpl<&[u8; 3]> for Colour {
    open spec fn obeys_from_spec() -> bool {
        true
    }

    open spec fn from_spec(v: &[u8; 3]) -> Self {
        Colour { r: v[0], g: v[1], b: v[2] }
    }
}

/// The array `[r, g, b]` of a colour.
pub open spec fn colour_bytes(c: Colour) -> [u8; 3] {
    choose|a: [u8; 3]| a[0] == c.r && a[1] == c.g && a[2] == c.b
}

impl From<Colour> for [u8; 3] {
    fn from(c: Colour) -> Self {
        let r = [c.r, c.g, c.b];
        proof {
            assert(r[0] == c.r && r[1] == c.g && r[2] == c.b);
            let want = colour_bytes(c);
            assert(want[0] == c.r && want[1] == c.g && want[2] == c.b);
            assert(r =~= want);
        }
        r
    }
}

impl vstd::std_specs::convert::FromSpecImpl<Colour> for [u8; 3] {
    open spec fn obeys_from_spec() -> bool {
        true
    }

    open spec fn from_spec(v: Colour) -> Self {
        colour_bytes(v)
    }
}

/// Animation speed of an effect.
#[derive(Debug, Clone, Copy, PartialEq, Eq, Structural)]
pub enum Speed {
    Low,
    Med,
    High,
}

impl Default for Speed {
    fn default() -> (r: Self)
        ensures
            r == Speed::Med,
    {
        Speed::Med
    }
}

/// The byte that encodes a speed in the USB packet.
pub open spec fn speed_code(s: Speed) -> u8 {
    match s {
        Speed::Low => 0xe1,
        Speed::Med => 0xeb,
        Speed::High => 0xf5,
    }
}

/// The speed index 0 to 2, used by D-Bus and by the Dynamic Lighting `speed`.
pub open spec fn speed_index(s: Speed) -> u8 {
    match s {
        Speed::Low => 0,
        Speed::Med => 1,
        Speed::High => 2,
    }
}

/// The speed of an index: 0 is `Low`, 2 is `High`, anything else `Med`.
pub open spec fn speed_from_index(v: int) -> Speed {
    if v == 0 {
        Speed::Low
    } else if v == 2 {
        Speed::High
    } else {
        Speed::Med
    }
}

/// The speed named by already-lowercased text.
pub open spec fn speed_from_name(t: Seq<char>) -> Option<Speed> {
    if t == "low"@ {
        Some(Speed::Low)
    } else if t == "med"@ {
        Some(Speed::Med)
    } else if t == "high"@ {
        Some(Speed::High)
    } else {
        None
    }
}

impl Speed {
    /// The byte that encodes this speed in the USB packet.
    pub fn code(&self) -> (r: u8)
        ensures
            r == speed_code(*self),
    {
        match self {
            Speed::Low => 0xe1,
            Speed::Med => 0xeb,
            Speed::High => 0xf5,
        }
    }

    pub fn to_dynamic_speed(&self) -> (r: u32)
        ensures
            r == speed_index(*self),
    {
        match self {
            Speed::Low => 0,
            Speed::Med => 1,
            Speed::High => 2,
        }
    }

    pub fn from_dynamic_speed(val: u32) -> (r: Self)
        ensures
            r == speed_from_index(val as int),
    {
        match val {
            0 => Speed::Low,
            2 => Speed::High,
            _ => Speed::Med,
        }
    }

    /// Parse a speed from text that is already lowercase.
    pub fn parse_lowercase(t: &str) -> (r: Result<Speed, Error>)
        ensures
            r == (match speed_from_name(t@) {
                Some(v) => Ok(v),
                None => Err(Error::ParseSpeed),
            }),
    {
        if str_eq(t, "low") {
            Ok(Speed::Low)
        } else if str_eq(t, "med") {
            Ok(Speed::Med)
        } else if str_eq(t, "high") {
            Ok(Speed::High)
        } else {
            Err(Error::ParseSpeed)
        }
    }

    /// Parse `low`, `med` or `high`, in any case.
    pub fn parse(s: &str) -> (r: Result<Speed, Error>)
        ensures
            r == (match speed_from_name(unicode_lowercase(s@)) {
                Some(v) => Ok(v),
                None => Err(Error::ParseSpeed),
            }),
    {
        let lower = to_lowercase(s);
        Self::parse_lowercase(lower.as_str())
    }
}

impl std::str::FromStr for Speed {
    type Err = Error;

    fn from_str(s: &str) -> (r: Result<Self, Self::Err>)
        ensures
            r == (match speed_from_name(unicode_lowercase(s@)) {
                Some(v) => Ok(v),
                None => Err(Error::ParseSpeed),
            }),
    {
        Speed::parse(s)
    }
}

impl From<i32> for Speed {
    fn from(value: i32) -> Self {
        match value {
            0 => Speed::Low,
            2 => Speed::High,
            _ => Speed::Med,
        }
    }
}

impl vstd::std_specs::convert::FromSpecImpl<i32> for Speed {
    open spec fn obeys_from_spec() -> bool {
        true
    }

    open spec fn from_spec(v: i32) -> Self {
        speed_from_index(v as int)
    }
}

impl From<Speed> for i32 {
    fn from(value: Speed) -> Self {
        match value {
            Speed::Low => 0,
            Speed::Med => 1,
            Speed::High => 2,
        }
    }
}

impl vstd::std_specs::convert::FromSpecImpl<Speed> for i32 {
    open spec fn obeys_from_spec() -> bool {
        true
    }

    open spec fn from_spec(v: Speed) -> Self {
        speed_index(v) as i32
    }
}

impl From<Speed> for u8 {
    fn from(s: Speed) -> u8 {
        match s {
            Speed::Low => 0,
            Speed::Med => 1,
            Speed::High => 2,
        }
    }
}

impl vstd::std_specs::convert::FromSpecImpl<Speed> for u8 {
    open spec fn obeys_from_spec() -> bool {
        true
    }

    open spec fn from_spec(v: Speed) -> Self {
        speed_index(v)
    }
}

/// A speed survives the trip through its index, as an `i32` and as a
/// Dynamic Lighting `speed` value.
pub proof fn lemma_speed_index_round_trip(s: Speed)
    ensures
        speed_from_index(speed_index(s) as int) == s,
{
}

/// Direction of the rainbow wave.
#[derive(Debug, Clone, Copy, PartialEq, Eq, Structural)]
pub enum Direction {
    Right,
    Left,
    Up,
    Down,
}

impl Default for Direction {
    fn default() -> (r: Self)
        ensures
            r == Direction::Right,
    {
        Direction::Right
    }
}

/// The number that encodes a direction (0 right, 1 left, 2 up, 3 down).
pub open spec fn direction_index(d: Direction) -> u8 {
    match d {
        Direction::Right => 0,
        Direction::Left => 1,
        Direction::Up => 2,
        Direction::Down => 3,
    }
}

/// The direction of an index; anything unknown is `Right`.
pub open spec fn direction_from_index(v: int) -> Direction {
    if v == 1 {
        Direction::Left
    } else if v == 2 {
        Direction::Up
    } else if v == 3 {
        Direction::Down
    } else {
        Direction::Right
    }
}

/// The Dynamic Lighting name of a direction.
pub open spec fn direction_name(d: Direction) -> Seq<char> {
    match d {
        Direction::Right => "right"@,
        Direction::Left => "left"@,
        Direction::Up => "up"@,
        Direction::Down => "down"@,
    }
}

/// The direction named by already-lowercased text.
pub open spec fn direction_from_name(t: Seq<char>) -> Option<Direction> {
    if t == "right"@ {
        Some(Direction::Right)
    } else if t == "up"@ {
        Some(Direction::Up)
    } else if t == "down"@ {
        Some(Direction::Down)
    } else if t == "left"@ {
        Some(Direction::Left)
    } else {
        None
    }
}

/// The direction of a lowercase Dynamic Lighting name: `left`, `up` and `down`
/// name theirs, anything else is `Right`.
pub open spec fn direction_from_dynamic_name(t: Seq<char>) -> Direction {
    if t == "left"@ {
        Direction::Left
    } else if t == "up"@ {
        Direction::Up
    } else if t == "down"@ {
        Direction::Down
    } else {
        Direction::Right
    }
}

impl Direction {
    /// The number that encodes this direction in the USB packet.
    pub fn index(&self) -> (r: u8)
        ensures
            r == direction_index(*self),
    {
        match self {
            Direction::Right => 0,
            Direction::Left => 1,
            Direction::Up => 2,
            Direction::Down => 3,
        }
    }

    pub fn to_dynamic_direction_str(&self) -> (r: &'static str)
        ensures
            r@ == direction_name(*self),
    {
        match self {
            Direction::Right => "right",
            Direction::Left => "left",
            Direction::Up => "up",
            Direction::Down => "down",
        }
    }

    /// The direction named by lowercase text; anything unknown is `Right`.
    pub fn from_lowercase_direction_str(t: &str) -> (r: Self)
        ensures
            r == direction_from_dynamic_name(t@),
    {
        if str_eq(t, "left") {
            Direction::Left
        } else if str_eq(t, "up") {
            Direction::Up
        } else if str_eq(t, "down") {
            Direction::Down
        } else {
            Direction::Right
        }
    }

    pub fn from_dynamic_direction_str(s: &str) -> (r: Self)
        ensures
            r == direction_from_dynamic_name(unicode_lowercase(s@)),
            forall|d: Direction| s@ == direction_name(d) ==> r == d,
    {
        proof {
            assert forall|d: Direction| s@ == direction_name(d) implies plain_lowercase(s@)
                && direction_from_dynamic_name(s@) == d by {
                lemma_direction_names_plain(d);
                lemma_direction_round_trip(d);
            }
        }
        let lower = to_lowercase(s);
        Self::from_lowercase_direction_str(lower.as_str())
    }

    /// Parse already lowercased text: `right`, `left`, `up` or `down`.
    pub fn parse_lowercase(t: &str) -> (r: Result<Direction, Error>)
        ensures
            r == (match direction_from_name(t@) {
                Some(d) => Ok(d),
                None => Err(Error::ParseDirection),
            }),
    {
        if str_eq(t, "right") {
            Ok(Direction::Right)
        } else if str_eq(t, "up") {
            Ok(Direction::Up)
        } else if str_eq(t, "down") {
            Ok(Direction::Down)
        } else if str_eq(t, "left") {
            Ok(Direction::Left)
        } else {
            Err(Error::ParseDirection)
        }
    }

    /// Parse `right`, `left`, `up` or `down`, in any case.
    pub fn parse(s: &str) -> (r: Result<Direction, Error>)
        ensures
            r == (match direction_from_name(unicode_lowercase(s@)) {
                Some(d) => Ok(d),
                None => Err(Error::ParseDirection),
            }),
            forall|d: Direction| s@ == direction_name(d) ==> r == Ok::<Direction, Error>(d),
    {
        proof {
            assert forall|d: Direction| s@ == direction_name(d) implies plain_lowercase(s@)
                && direction_from_name(s@) == Some(d) by {
                lemma_direction_names_plain(d);
                lemma_direction_round_trip(d);
            }
        }
        let lower = to_lowercase(s);
        Self::parse_lowercase(lower.as_str())
    }
}

impl std::str::FromStr for Direction {
    type Err = Error;

    fn from_str(s: &str) -> (r: Result<Self, Self::Err>)
        ensures
            r == (match direction_from_name(unicode_lowercase(s@)) {
                Some(d) => Ok(d),
                None => Err(Error::ParseDirection),
            }),
            forall|d: Direction| s@ == direction_name(d) ==> r == Ok::<Direction, Error>(d),
    {
        Direction::parse(s)
    }
}

impl From<i32> for Direction {
    fn from(value: i32) -> Self {
        match value {
            1 => Direction::Left,
            2 => Direction::Up,
            3 => Direction::Down,
            _ => Direction::Right,
        }
    }
}

impl vstd::std_specs::convert::FromSpecImpl<i32> for Direction {
    open spec fn obeys_from_spec() -> bool {
        true
    }

    open spec fn from_spec(v: i32) -> Self {
        direction_from_index(v as int)
    }
}

impl From<Direction> for i32 {
    fn from(value: Direction) -> Self {
        value.index() as i32
    }
}

impl vstd::std_specs::convert::FromSpecImpl<Direction> for i32 {
    open spec fn obeys_from_spec() -> bool {
        true
    }

    open spec fn from_spec(v: Direction) -> Self {
        direction_index(v) as i32
    }
}

/// A direction survives the trip through its index and through its Dynamic
/// The Dynamic Lighting names of the directions are lowercase ASCII.
pub proof fn lemma_direction_names_plain(d: Direction)
    ensures
        plain_lowercase(direction_name(d)),
{
    reveal_strlit("right");
    reveal_strlit("left");
    reveal_strlit("up");
    reveal_strlit("down");
    let n = direction_name(d);
    assert forall|i: int| 0 <= i < n.len() implies (#[trigger] n[i] as u32) < 128 && !('A' <= n[i]
        && n[i] <= 'Z') by {
        match d {
            Direction::Right => assert("right"@ =~= seq!['r', 'i', 'g', 'h', 't']),
            Direction::Left => assert("left"@ =~= seq!['l', 'e', 'f', 't']),
            Direction::Up => assert("up"@ =~= seq!['u', 'p']),
            Direction::Down => assert("down"@ =~= seq!['d', 'o', 'w', 'n']),
        }
    }
}

/// Lighting name.
pub proof fn lemma_direction_round_trip(d: Direction)
    ensures
        direction_from_index(direction_index(d) as int) == d,
        direction_from_name(direction_name(d)) == Some(d),
        direction_from_dynamic_name(direction_name(d)) == d,
{
    reveal_strlit("right");
    reveal_strlit("left");
    reveal_strlit("up");
    reveal_strlit("down");
    assert("right"@ =~= seq!['r', 'i', 'g', 'h', 't']);
    assert("left"@ =~= seq!['l', 'e', 'f', 't']);
    assert("up"@ =~= seq!['u', 'p']);
    assert("down"@ =~= seq!['d', 'o', 'w', 'n']);
}


/// Factory effect modes, numbered as the USB HID packet encodes them.
#[derive(Debug, Clone, Copy, PartialEq, Eq, PartialOrd, Ord, Hash, Structural)]
pub enum AuraModeNum {
    Static,
    Breathe,
    RainbowCycle,
    RainbowWave,
    Star,
    Rain,
    Highlight,
    Laser,
    Ripple,
    Pulse,
    Comet,
    Flash,
}

impl Default for AuraModeNum {
    fn default() -> (r: Self)
        ensures
            r == AuraModeNum::Static,
    {
        AuraModeNum::Static
    }
}

/// The number that encodes a mode in the USB packet.
pub open spec fn mode_index(m: AuraModeNum) -> u8 {
    match m {
        AuraModeNum::Static => 0,
        AuraModeNum::Breathe => 1,
        AuraModeNum::RainbowCycle => 2,
        AuraModeNum::RainbowWave => 3,
        AuraModeNum::Star => 4,
        AuraModeNum::Rain => 5,
        AuraModeNum::Highlight => 6,
        AuraModeNum::Laser => 7,
        AuraModeNum::Ripple => 8,
        AuraModeNum::Pulse => 10,
        AuraModeNum::Comet => 11,
        AuraModeNum::Flash => 12,
    }
}

/// The mode of a packet number; unknown numbers are `Static`.
pub open spec fn mode_from_u8(v: u8) -> AuraModeNum {
    if v == 1 {
        AuraModeNum::Breathe
    } else if v == 2 {
        AuraModeNum::RainbowCycle
    } else if v == 3 {
        AuraModeNum::RainbowWave
    } else if v == 4 {
        AuraModeNum::Star
    } else if v == 5 {
        AuraModeNum::Rain
    } else if v == 6 {
        AuraModeNum::Highlight
    } else if v == 7 {
        AuraModeNum::Laser
    } else if v == 8 {
        AuraModeNum::Ripple
    } else if v == 10 {
        AuraModeNum::Pulse
    } else if v == 11 {
        AuraModeNum::Comet
    } else if v == 12 {
        AuraModeNum::Flash
    } else {
        AuraModeNum::Static
    }
}

/// The display name of a mode.
pub open spec fn mode_name(m: AuraModeNum) -> Seq<char> {
    match m {
        AuraModeNum::Static => "Static"@,
        AuraModeNum::Breathe => "Breathe"@,
        AuraModeNum::RainbowCycle => "RainbowCycle"@,
        AuraModeNum::RainbowWave => "RainbowWave"@,
        AuraModeNum::Star => "Stars"@,
        AuraModeNum::Rain => "Rain"@,
        AuraModeNum::Highlight => "Highlight"@,
        AuraModeNum::Laser => "Laser"@,
        AuraModeNum::Ripple => "Ripple"@,
        AuraModeNum::Pulse => "Pulse"@,
        AuraModeNum::Comet => "Comet"@,
        AuraModeNum::Flash => "Flash"@,
    }
}

/// The mode of a display name; unknown names are `Static`.
pub open spec fn mode_from_name(t: Seq<char>) -> AuraModeNum {
    if t == "Breathe"@ {
        AuraModeNum::Breathe
    } else if t == "RainbowCycle"@ {
        AuraModeNum::RainbowCycle
    } else if t == "RainbowWave"@ {
        AuraModeNum::RainbowWave
    } else if t == "Stars"@ {
        AuraModeNum::Star
    } else if t == "Rain"@ {
        AuraModeNum::Rain
    } else if t == "Highlight"@ {
        AuraModeNum::Highlight
    } else if t == "Laser"@ {
        AuraModeNum::Laser
    } else if t == "Ripple"@ {
        AuraModeNum::Ripple
    } else if t == "Pulse"@ {
        AuraModeNum::Pulse
    } else if t == "Comet"@ {
        AuraModeNum::Comet
    } else if t == "Flash"@ {
        AuraModeNum::Flash
    } else {
        AuraModeNum::Static
    }
}

/// The Dynamic Lighting effect name of a mode, where the kernel has one.
pub open spec fn mode_dynamic_name(m: AuraModeNum) -> Option<Seq<char>> {
    match m {
        AuraModeNum::Static => Some("static"@),
        AuraModeNum::Breathe => Some("breathing"@),
        AuraModeNum::RainbowCycle => Some("spectrum_cycle"@),
        AuraModeNum::RainbowWave => Some("rainbow"@),
        AuraModeNum::Pulse => Some("strobe"@),
        AuraModeNum::Flash => Some("strobe"@),
        _ => None,
    }
}

/// The mode of a lowercase Dynamic Lighting effect name.
pub open spec fn mode_from_dynamic_name(t: Seq<char>) -> Option<AuraModeNum> {
    if t == "static"@ {
        Some(AuraModeNum::Static)
    } else if t == "breathing"@ {
        Some(AuraModeNum::Breathe)
    } else if t == "spectrum_cycle"@ {
        Some(AuraModeNum::RainbowCycle)
    } else if t == "rainbow"@ {
        Some(AuraModeNum::RainbowWave)
    } else if t == "strobe"@ {
        Some(AuraModeNum::Pulse)
    } else {
        None
    }
}

impl AuraModeNum {
    /// The number that encodes this mode in the USB packet.
    pub fn index(&self) -> (r: u8)
        ensures
            r == mode_index(*self),
    {
        match self {
            AuraModeNum::Static => 0,
            AuraModeNum::Breathe => 1,
            AuraModeNum::RainbowCycle => 2,
            AuraModeNum::RainbowWave => 3,
            AuraModeNum::Star => 4,
            AuraModeNum::Rain => 5,
            AuraModeNum::Highlight => 6,
            AuraModeNum::Laser => 7,
            AuraModeNum::Ripple => 8,
            AuraModeNum::Pulse => 10,
            AuraModeNum::Comet => 11,
            AuraModeNum::Flash => 12,
        }
    }

    /// The mode of a packet number; unknown numbers are `Static`.
    pub fn from_u8(v: u8) -> (r: Self)
        ensures
            r == mode_from_u8(v),
    {
        match v {
            1 => AuraModeNum::Breathe,
            2 => AuraModeNum::RainbowCycle,
            3 => AuraModeNum::RainbowWave,
            4 => AuraModeNum::Star,
            5 => AuraModeNum::Rain,
            6 => AuraModeNum::Highlight,
            7 => AuraModeNum::Laser,
            8 => AuraModeNum::Ripple,
            10 => AuraModeNum::Pulse,
            11 => AuraModeNum::Comet,
            12 => AuraModeNum::Flash,
            _ => AuraModeNum::Static,
        }
    }

    /// The display name of this mode.
    pub fn as_str(&self) -> (r: &'static str)
        ensures
            r@ == mode_name(*self),
    {
        match self {
            AuraModeNum::Static => "Static",
            AuraModeNum::Breathe => "Breathe",
            AuraModeNum::RainbowCycle => "RainbowCycle",
            AuraModeNum::RainbowWave => "RainbowWave",
            AuraModeNum::Star => "Stars",
            AuraModeNum::Rain => "Rain",
            AuraModeNum::Highlight => "Highlight",
            AuraModeNum::Laser => "Laser",
            AuraModeNum::Ripple => "Ripple",
            AuraModeNum::Pulse => "Pulse",
            AuraModeNum::Comet => "Comet",
            AuraModeNum::Flash => "Flash",
        }
    }

    /// The display name of this mode as an owned string.
    pub fn to_name_string(&self) -> (r: String)
        ensures
            r@ == mode_name(*self),
    {
        self.as_str().to_owned()
    }

    /// The mode of a display name; unknown names are `Static`.
    pub fn from_name(t: &str) -> (r: Self)
        ensures
            r == mode_from_name(t@),
    {
        if str_eq(t, "Breathe") {
            AuraModeNum::Breathe
        } else if str_eq(t, "RainbowCycle") {
            AuraModeNum::RainbowCycle
        } else if str_eq(t, "RainbowWave") {
            AuraModeNum::RainbowWave
        } else if str_eq(t, "Stars") {
            AuraModeNum::Star
        } else if str_eq(t, "Rain") {
            AuraModeNum::Rain
        } else if str_eq(t, "Highlight") {
            AuraModeNum::Highlight
        } else if str_eq(t, "Laser") {
            AuraModeNum::Laser
        } else if str_eq(t, "Ripple") {
            AuraModeNum::Ripple
        } else if str_eq(t, "Pulse") {
            AuraModeNum::Pulse
        } else if str_eq(t, "Comet") {
            AuraModeNum::Comet
        } else if str_eq(t, "Flash") {
            AuraModeNum::Flash
        } else {
            AuraModeNum::Static
        }
    }

    /// Return the corresponding Dynamic Lighting effect name, if available.
    pub fn to_dynamic_effect_str(&self) -> (r: Option<&'static str>)
        ensures
            r is Some <==> mode_dynamic_name(*self) is Some,
            r matches Some(n) ==> n@ == mode_dynamic_name(*self)->0,
    {
        match self {
            AuraModeNum::Static => Some("static"),
            AuraModeNum::Breathe => Some("breathing"),
            AuraModeNum::RainbowCycle => Some("spectrum_cycle"),
            AuraModeNum::RainbowWave => Some("rainbow"),
            AuraModeNum::Pulse | AuraModeNum::Flash => Some("strobe"),
            _ => None,
        }
    }

    /// The mode of an already lowercase Dynamic Lighting effect name.
    pub fn from_lowercase_effect_str(t: &str) -> (r: Option<Self>)
        ensures
            r == mode_from_dynamic_name(t@),
    {
        if str_eq(t, "static") {
            Some(AuraModeNum::Static)
        } else if str_eq(t, "breathing") {
            Some(AuraModeNum::Breathe)
        } else if str_eq(t, "spectrum_cycle") {
            Some(AuraModeNum::RainbowCycle)
        } else if str_eq(t, "rainbow") {
            Some(AuraModeNum::RainbowWave)
        } else if str_eq(t, "strobe") {
            Some(AuraModeNum::Pulse)
        } else {
            None
        }
    }

    /// Parse a Dynamic Lighting effect name, in any case, into an `AuraModeNum`.
    pub fn from_dynamic_effect_str(s: &str) -> (r: Option<Self>)
        ensures
            r == mode_from_dynamic_name(unicode_lowercase(s@)),
            forall|m: AuraModeNum|
                mode_dynamic_name(m) == Some(s@) ==> r == Some(
                    if m == AuraModeNum::Flash {
                        AuraModeNum::Pulse
                    } else {
                        m
                    },
                ),
    {
        proof {
            assert forall|m: AuraModeNum| mode_dynamic_name(m) == Some(s@) implies plain_lowercase(
                s@,
            ) && mode_from_dynamic_name(s@) == Some(
                if m == AuraModeNum::Flash {
                    AuraModeNum::Pulse
                } else {
                    m
                },
            ) by {
                lemma_mode_dynamic_names_plain(m);
                lemma_mode_round_trip(m);
            }
        }
        let lower = to_lowercase(s);
        Self::from_lowercase_effect_str(lower.as_str())
    }
}

impl From<u8> for AuraModeNum {
    fn from(mode: u8) -> Self {
        AuraModeNum::from_u8(mode)
    }
}

impl vstd::std_specs::convert::FromSpecImpl<u8> for AuraModeNum {
    open spec fn obeys_from_spec() -> bool {
        true
    }

    open spec fn from_spec(v: u8) -> Self {
        mode_from_u8(v)
    }
}

impl From<i32> for AuraModeNum {
    fn from(mode: i32) -> Self {
        AuraModeNum::from_u8(mode as u8)
    }
}

impl vstd::std_specs::convert::FromSpecImpl<i32> for AuraModeNum {
    open spec fn obeys_from_spec() -> bool {
        true
    }

    open spec fn from_spec(v: i32) -> Self {
        mode_from_u8(v as u8)
    }
}

impl From<AuraModeNum> for i32 {
    fn from(value: AuraModeNum) -> Self {
        value.index() as i32
    }
}

impl vstd::std_specs::convert::FromSpecImpl<AuraModeNum> for i32 {
    open spec fn obeys_from_spec() -> bool {
        true
    }

    open spec fn from_spec(v: AuraModeNum) -> Self {
        mode_index(v) as i32
    }
}

impl From<&str> for AuraModeNum {
    fn from(mode: &str) -> Self {
        AuraModeNum::from_name(mode)
    }
}

impl vstd::std_specs::convert::FromSpecImpl<&str> for AuraModeNum {
    open spec fn obeys_from_spec() -> bool {
        true
    }

    open spec fn from_spec(v: &str) -> Self {
        mode_from_name(v@)
    }
}

/// A mode survives the trip through its packet number, its `i32`, and its
/// display name; and the Dynamic Lighting name of a mode reads back as that
/// The Dynamic Lighting effect names of the modes are lowercase ASCII.
pub proof fn lemma_mode_dynamic_names_plain(m: AuraModeNum)
    ensures
        mode_dynamic_name(m) matches Some(n) ==> plain_lowercase(n),
{
    reveal_strlit("static");
    reveal_strlit("breathing");
    reveal_strlit("spectrum_cycle");
    reveal_strlit("rainbow");
    reveal_strlit("strobe");
    if let Some(n) = mode_dynamic_name(m) {
        assert forall|i: int| 0 <= i < n.len() implies (#[trigger] n[i] as u32) < 128 && !('A'
            <= n[i] && n[i] <= 'Z') by {
            match m {
                AuraModeNum::Static => assert("static"@ =~= seq!['s', 't', 'a', 't', 'i', 'c']),
                AuraModeNum::Breathe => assert("breathing"@ =~= seq!['b', 'r', 'e', 'a', 't', 'h', 'i', 'n', 'g']),
                AuraModeNum::RainbowCycle => assert("spectrum_cycle"@ =~= seq!['s', 'p', 'e', 'c', 't', 'r', 'u', 'm', '_', 'c', 'y', 'c', 'l', 'e']),
                AuraModeNum::RainbowWave => assert("rainbow"@ =~= seq!['r', 'a', 'i', 'n', 'b', 'o', 'w']),
                _ => assert("strobe"@ =~= seq!['s', 't', 'r', 'o', 'b', 'e']),
            }
        }
    }
}

/// mode, except `Flash`, which the kernel calls `strobe` like `Pulse`.
pub proof fn lemma_mode_round_trip(m: AuraModeNum)
    ensures
        mode_from_u8(mode_index(m)) == m,
        mode_from_u8(mode_index(m) as i32 as u8) == m,
        mode_from_name(mode_name(m)) == m,
        mode_dynamic_name(m) matches Some(n) ==> mode_from_dynamic_name(n) == Some(
            if m == AuraModeNum::Flash {
                AuraModeNum::Pulse
            } else {
                m
            },
        ),
{
    reveal_strlit("Static");
    reveal_strlit("Breathe");
    reveal_strlit("RainbowCycle");
    reveal_strlit("RainbowWave");
    reveal_strlit("Stars");
    reveal_strlit("Rain");
    reveal_strlit("Highlight");
    reveal_strlit("Laser");
    reveal_strlit("Ripple");
    reveal_strlit("Pulse");
    reveal_strlit("Comet");
    reveal_strlit("Flash");
    reveal_strlit("static");
    reveal_strlit("breathing");
    reveal_strlit("spectrum_cycle");
    reveal_strlit("rainbow");
    reveal_strlit("strobe");
    assert("Static"@ =~= seq!['S', 't', 'a', 't', 'i', 'c']);
    assert("Breathe"@ =~= seq!['B', 'r', 'e', 'a', 't', 'h', 'e']);
    assert("RainbowCycle"@ =~= seq!['R', 'a', 'i', 'n', 'b', 'o', 'w', 'C', 'y', 'c', 'l', 'e']);
    assert("RainbowWave"@ =~= seq!['R', 'a', 'i', 'n', 'b', 'o', 'w', 'W', 'a', 'v', 'e']);
    assert("Stars"@ =~= seq!['S', 't', 'a', 'r', 's']);
    assert("Rain"@ =~= seq!['R', 'a', 'i', 'n']);
    assert("Highlight"@ =~= seq!['H', 'i', 'g', 'h', 'l', 'i', 'g', 'h', 't']);
    assert("Laser"@ =~= seq!['L', 'a', 's', 'e', 'r']);
    assert("Ripple"@ =~= seq!['R', 'i', 'p', 'p', 'l', 'e']);
    assert("Pulse"@ =~= seq!['P', 'u', 'l', 's', 'e']);
    assert("Comet"@ =~= seq!['C', 'o', 'm', 'e', 't']);
    assert("Flash"@ =~= seq!['F', 'l', 'a', 's', 'h']);
    assert("static"@ =~= seq!['s', 't', 'a', 't', 'i', 'c']);
    assert("breathing"@ =~= seq!['b', 'r', 'e', 'a', 't', 'h', 'i', 'n', 'g']);
    assert("spectrum_cycle"@ =~= seq!['s', 'p', 'e', 'c', 't', 'r', 'u', 'm', '_', 'c', 'y', 'c', 'l', 'e']);
    assert("rainbow"@ =~= seq!['r', 'a', 'i', 'n', 'b', 'o', 'w']);
    assert("strobe"@ =~= seq!['s', 't', 'r', 'o', 'b', 'e']);
}

/// Keyboard zones. Base effects have no zoning, while multizone is 1-4.
#[derive(Debug, Clone, Copy, PartialEq, Eq, Structural)]
pub enum AuraZone {
    /// Used if keyboard has no zones, or if setting all
    NoZone,
    /// Leftmost zone
    Key1,
    /// Zone after leftmost
    Key2,
    /// Zone second from right
    Key3,
    /// Rightmost zone
    Key4,
    /// Logo on the lid (or elsewhere?)
    Logo,
    /// The left part of a lightbar (typically on the front of laptop)
    BarLeft,
    /// The right part of a lightbar
    BarRight,
}

impl Default for AuraZone {
    fn default() -> (r: Self)
        ensures
            r == AuraZone::NoZone,
    {
        AuraZone::NoZone
    }
}

/// The number that encodes a zone in the USB packet.
pub open spec fn zone_index(z: AuraZone) -> u8 {
    match z {
        AuraZone::NoZone => 0,
        AuraZone::Key1 => 1,
        AuraZone::Key2 => 2,
        AuraZone::Key3 => 3,
        AuraZone::Key4 => 4,
        AuraZone::Logo => 5,
        AuraZone::BarLeft => 6,
        AuraZone::BarRight => 7,
    }
}

/// The zone of a number; unknown numbers are `None`.
pub open spec fn zone_from_index(v: int) -> AuraZone {
    if v == 1 {
        AuraZone::Key1
    } else if v == 2 {
        AuraZone::Key2
    } else if v == 3 {
        AuraZone::Key3
    } else if v == 4 {
        AuraZone::Key4
    } else if v == 5 {
        AuraZone::Logo
    } else if v == 6 {
        AuraZone::BarLeft
    } else if v == 7 {
        AuraZone::BarRight
    } else {
        AuraZone::NoZone
    }
}

/// The zone named by lowercase text (a number or a name).
pub open spec fn zone_from_name(t: Seq<char>) -> Option<AuraZone> {
    if t == "0"@ || t == "none"@ {
        Some(AuraZone::NoZone)
    } else if t == "1"@ || t == "one"@ {
        Some(AuraZone::Key1)
    } else if t == "2"@ || t == "two"@ {
        Some(AuraZone::Key2)
    } else if t == "3"@ || t == "three"@ {
        Some(AuraZone::Key3)
    } else if t == "4"@ || t == "four"@ {
        Some(AuraZone::Key4)
    } else if t == "5"@ || t == "logo"@ {
        Some(AuraZone::Logo)
    } else if t == "6"@ || t == "lightbar-left"@ || t == "lightbar"@ || t == "bar"@ {
        Some(AuraZone::BarLeft)
    } else if t == "7"@ || t == "lightbar-right"@ {
        Some(AuraZone::BarRight)
    } else {
        None
    }
}

/// `t` with ASCII upper case letters lowered.
pub open spec fn ascii_lower_seq(t: Seq<char>) -> Seq<char> {
    t.map_values(|c: char| ascii_lower(c))
}

impl AuraZone {
    /// The number that encodes this zone in the USB packet.
    pub fn index(&self) -> (r: u8)
        ensures
            r == zone_index(*self),
    {
        match self {
            AuraZone::NoZone => 0,
            AuraZone::Key1 => 1,
            AuraZone::Key2 => 2,
            AuraZone::Key3 => 3,
            AuraZone::Key4 => 4,
            AuraZone::Logo => 5,
            AuraZone::BarLeft => 6,
            AuraZone::BarRight => 7,
        }
    }

    /// The zone named by lowercase text.
    pub fn from_lowercase_name(t: &str) -> (r: Option<Self>)
        ensures
            r == zone_from_name(t@),
    {
        if str_eq(t, "0") || str_eq(t, "none") {
            Some(AuraZone::NoZone)
        } else if str_eq(t, "1") || str_eq(t, "one") {
            Some(AuraZone::Key1)
        } else if str_eq(t, "2") || str_eq(t, "two") {
            Some(AuraZone::Key2)
        } else if str_eq(t, "3") || str_eq(t, "three") {
            Some(AuraZone::Key3)
        } else if str_eq(t, "4") || str_eq(t, "four") {
            Some(AuraZone::Key4)
        } else if str_eq(t, "5") || str_eq(t, "logo") {
            Some(AuraZone::Logo)
        } else if str_eq(t, "6") || str_eq(t, "lightbar-left") || str_eq(t, "lightbar") || str_eq(t, "bar") {
            Some(AuraZone::BarLeft)
        } else if str_eq(t, "7") || str_eq(t, "lightbar-right") {
            Some(AuraZone::BarRight)
        } else {
            None
        }
    }

    /// Parse a zone from already lowercased text, its number or name (ASCII
    /// letters are lowered once more). Unknown text is reported as
    /// `Error::ParseSpeed`.
    pub fn parse_lowercase(t: &str) -> (r: Result<AuraZone, Error>)
        ensures
            r == (match zone_from_name(ascii_lower_seq(t@)) {
                Some(z) => Ok(z),
                None => Err(Error::ParseSpeed),
            }),
    {
        let cs = chars_of(t);
        let mut low: Vec<char> = Vec::new();
        let mut i: usize = 0;
        while i < cs.len()
            invariant
                0 <= i <= cs@.len(),
                low@ =~= cs@.take(i as int).map_values(|c: char| ascii_lower(c)),
            decreases cs.len() - i,
        {
            low.push(to_ascii_lowercase(cs[i]));
            i = i + 1;
        }
        assert(cs@.take(cs@.len() as int) =~= cs@);
        let lowered = string_of(low.as_slice());
        match Self::from_lowercase_name(lowered.as_str()) {
            Some(z) => Ok(z),
            None => Err(Error::ParseSpeed),
        }
    }

    /// Parse a zone from its number or name, in any case. Unknown text is
    /// reported as `Error::ParseSpeed`.
    pub fn parse(s: &str) -> (r: Result<AuraZone, Error>)
        ensures
            r == (match zone_from_name(ascii_lower_seq(unicode_lowercase(s@))) {
                Some(z) => Ok(z),
                None => Err(Error::ParseSpeed),
            }),
    {
        let lower = to_lowercase(s);
        Self::parse_lowercase(lower.as_str())
    }
}

impl std::str::FromStr for AuraZone {
    type Err = Error;

    fn from_str(s: &str) -> (r: Result<Self, Self::Err>)
        ensures
            r == (match zone_from_name(ascii_lower_seq(unicode_lowercase(s@))) {
                Some(z) => Ok(z),
                None => Err(Error::ParseSpeed),
            }),
    {
        AuraZone::parse(s)
    }
}

impl From<i32> for AuraZone {
    fn from(value: i32) -> Self {
        match value {
            1 => AuraZone::Key1,
            2 => AuraZone::Key2,
            3 => AuraZone::Key3,
            4 => AuraZone::Key4,
            5 => AuraZone::Logo,
            6 => AuraZone::BarLeft,
            7 => AuraZone::BarRight,
            _ => AuraZone::NoZone,
        }
    }
}

impl vstd::std_specs::convert::FromSpecImpl<i32> for AuraZone {
    open spec fn obeys_from_spec() -> bool {
        true
    }

    open spec fn from_spec(v: i32) -> Self {
        zone_from_index(v as int)
    }
}

impl From<AuraZone> for i32 {
    fn from(value: AuraZone) -> Self {
        value.index() as i32
    }
}

impl vstd::std_specs::convert::FromSpecImpl<AuraZone> for i32 {
    open spec fn obeys_from_spec() -> bool {
        true
    }

    open spec fn from_spec(v: AuraZone) -> Self {
        zone_index(v) as i32
    }
}

/// A zone survives the trip through its number.
pub proof fn lemma_zone_round_trip(z: AuraZone)
    ensures
        zone_from_index(zone_index(z) as int) == z,
{
}

/// Default factory mode settings, which encode to a USB HID packet.
#[derive(Debug, Clone, Copy, PartialEq, Eq, Structural)]
pub struct AuraEffect {
    /// The effect type
    pub mode: AuraModeNum,
    /// `AuraZone::NoZone` for no zone or zoneless keyboards
    pub zone: AuraZone,
    /// Primary colour for all modes
    pub colour1: Colour,
    /// Secondary colour in some modes like Breathing or Stars
    pub colour2: Colour,
    /// One of three speeds for modes that support speed (most that animate)
    pub speed: Speed,
    /// Up, down, left, right. Only Rainbow mode seems to use this
    pub direction: Direction,
}

/// The effect that `AuraEffect::default` gives.
pub open spec fn default_effect() -> AuraEffect {
    AuraEffect {
        mode: AuraModeNum::Static,
        zone: AuraZone::NoZone,
        colour1: Colour { r: 166, g: 0, b: 0 },
        colour2: Colour { r: 0, g: 0, b: 0 },
        speed: Speed::Med,
        direction: Direction::Right,
    }
}

impl Default for AuraEffect {
    fn default() -> (r: Self)
        ensures
            r == default_effect(),
    {
        AuraEffect {
            mode: AuraModeNum::Static,
            zone: AuraZone::NoZone,
            colour1: Colour { r: 166, g: 0, b: 0 },
            colour2: Colour { r: 0, g: 0, b: 0 },
            speed: Speed::Med,
            direction: Direction::Right,
        }
    }
}

/// The Dynamic Lighting palette of an effect: its first colour, then its
/// second colour unless that is black.
pub open spec fn dynamic_palette(e: AuraEffect) -> Seq<(u8, u8, u8)> {
    let first = seq![(e.colour1.r, e.colour1.g, e.colour1.b)];
    if e.colour2.r != 0 || e.colour2.g != 0 || e.colour2.b != 0 {
        first.push((e.colour2.r, e.colour2.g, e.colour2.b))
    } else {
        first
    }
}

/// The laptop Aura packet of an effect:
///
/// ```text
/// | 0 | 1 | 2   | 3   | 4, 5, 6 | 7    | 8        | 9 | 10, 11, 12| 13..16 |
/// |5d |b3 |Zone |Mode |Colour 1 |Speed |Direction |00 |Colour 2   | 00     |
/// ```
pub open spec fn effect_packet(e: AuraEffect) -> Seq<u8> {
    seq![
        0x5du8,
        0xb3u8,
        zone_index(e.zone),
        mode_index(e.mode),
        e.colour1.r,
        e.colour1.g,
        e.colour1.b,
        speed_code(e.speed),
        direction_index(e.direction),
        0u8,
        e.colour2.r,
        e.colour2.g,
        e.colour2.b,
        0u8,
        0u8,
        0u8,
        0u8,
    ]
}

/// The packet of an effect as an array.
pub open spec fn effect_packet_array(e: AuraEffect) -> [u8; AURA_LAPTOP_LED_MSG_LEN] {
    choose|a: [u8; AURA_LAPTOP_LED_MSG_LEN]| a@ == effect_packet(e)
}

impl AuraEffect {
    pub fn mode(&self) -> (r: &AuraModeNum)
        ensures
            *r == self.mode,
    {
        &self.mode
    }

    pub fn default_with_mode(mode: AuraModeNum) -> (r: Self)
        ensures
            r == (AuraEffect { mode, ..default_effect() }),
    {
        AuraEffect { mode, ..Self::default() }
    }

    pub fn zone(&self) -> (r: AuraZone)
        ensures
            r == self.zone,
    {
        self.zone
    }

    /// Convert the effect colours to an array of RGB tuples for Dynamic Lighting palette.
    pub fn to_dynamic_palette(&self) -> (p: Vec<(u8, u8, u8)>)
        ensures
            p@ == dynamic_palette(*self),
    {
        let mut p = Vec::new();
        p.push((self.colour1.r, self.colour1.g, self.colour1.b));
        if self.colour2.r != 0 || self.colour2.g != 0 || self.colour2.b != 0 {
            p.push((self.colour2.r, self.colour2.g, self.colour2.b));
        }
        assert(p@ =~= dynamic_palette(*self));
        p
    }

    /// Encode this effect as a laptop Aura USB packet.
    pub fn to_packet(&self) -> (r: [u8; AURA_LAPTOP_LED_MSG_LEN])
        ensures
            r@ == effect_packet(*self),
    {
        let r = [
            0x5d,
            0xb3,
            self.zone.index(),
            self.mode.index(),
            self.colour1.r,
            self.colour1.g,
            self.colour1.b,
            self.speed.code(),
            self.direction.index(),
            0,
            self.colour2.r,
            self.colour2.g,
            self.colour2.b,
            0,
            0,
            0,
            0,
        ];
        assert(r@ =~= effect_packet(*self));
        r
    }

    /// Encode this effect as a laptop Aura USB packet in a `Vec`.
    pub fn to_packet_vec(&self) -> (r: Vec<u8>)
        ensures
            r@ == effect_packet(*self),
    {
        let a = self.to_packet();
        let mut v: Vec<u8> = Vec::new();
        let mut i: usize = 0;
        while i < AURA_LAPTOP_LED_MSG_LEN
            invariant
                0 <= i <= AURA_LAPTOP_LED_MSG_LEN,
                a@ == effect_packet(*self),
                v@ == a@.take(i as int),
            decreases AURA_LAPTOP_LED_MSG_LEN - i,
        {
            v.push(a[i]);
            assert(a@.take(i + 1) =~= a@.take(i as int).push(a@[i as int]));
            i = i + 1;
        }
        assert(a@.take(AURA_LAPTOP_LED_MSG_LEN as int) =~= a@);
        v
    }
}

impl From<&AuraEffect> for [u8; AURA_LAPTOP_LED_MSG_LEN] {
    fn from(aura: &AuraEffect) -> Self {
        let r = aura.to_packet();
        proof {
            let want = effect_packet_array(*aura);
            assert(want@ == effect_packet(*aura));
            assert(r =~= want);
        }
        r
    }
}

impl vstd::std_specs::convert::FromSpecImpl<&AuraEffect> for [u8; AURA_LAPTOP_LED_MSG_LEN] {
    open spec fn obeys_from_spec() -> bool {
        true
    }

    open spec fn from_spec(v: &AuraEffect) -> Self {
        effect_packet_array(*v)
    }
}

impl From<AuraEffect> for AuraModeNum {
    fn from(value: AuraEffect) -> Self {
        value.mode
    }
}

impl vstd::std_specs::convert::FromSpecImpl<AuraEffect> for AuraModeNum {
    open spec fn obeys_from_spec() -> bool {
        true
    }

    open spec fn from_spec(v: AuraEffect) -> Self {
        v.mode
    }
}

/// The laptop Aura packet of an effect carries the keyboard's fixed hardware
/// codes: header `5d b3`, the zone (0 for the whole keyboard, 1 to 4 for the
/// keyboard zones, 5 logo, 6 and 7 the lightbar halves), the mode (Static 0,
/// Breathe 1, RainbowCycle 2, RainbowWave 3, Star 4, Rain 5, Highlight 6,
/// Laser 7, Ripple 8, Pulse 10, Comet 11, Flash 12), the first colour, the
/// speed (Low `e1`, Med `eb`, High `f5`), the direction (Right 0, Left 1,
/// Up 2, Down 3), a zero, the second colour and four zeros.
pub proof fn lemma_effect_packet_codes(e: AuraEffect)
    ensures
        effect_packet(e).len() == 17,
        effect_packet(e)[0] == 0x5d && effect_packet(e)[1] == 0xb3,
        e.zone == AuraZone::NoZone ==> effect_packet(e)[2] == 0,
        e.zone == AuraZone::Key1 ==> effect_packet(e)[2] == 1,
        e.zone == AuraZone::Key2 ==> effect_packet(e)[2] == 2,
        e.zone == AuraZone::Key3 ==> effect_packet(e)[2] == 3,
        e.zone == AuraZone::Key4 ==> effect_packet(e)[2] == 4,
        e.zone == AuraZone::Logo ==> effect_packet(e)[2] == 5,
        e.zone == AuraZone::BarLeft ==> effect_packet(e)[2] == 6,
        e.zone == AuraZone::BarRight ==> effect_packet(e)[2] == 7,
        e.mode == AuraModeNum::Static ==> effect_packet(e)[3] == 0,
        e.mode == AuraModeNum::Breathe ==> effect_packet(e)[3] == 1,
        e.mode == AuraModeNum::RainbowCycle ==> effect_packet(e)[3] == 2,
        e.mode == AuraModeNum::RainbowWave ==> effect_packet(e)[3] == 3,
        e.mode == AuraModeNum::Star ==> effect_packet(e)[3] == 4,
        e.mode == AuraModeNum::Rain ==> effect_packet(e)[3] == 5,
        e.mode == AuraModeNum::Highlight ==> effect_packet(e)[3] == 6,
        e.mode == AuraModeNum::Laser ==> effect_packet(e)[3] == 7,
        e.mode == AuraModeNum::Ripple ==> effect_packet(e)[3] == 8,
        e.mode == AuraModeNum::Pulse ==> effect_packet(e)[3] == 10,
        e.mode == AuraModeNum::Comet ==> effect_packet(e)[3] == 11,
        e.mode == AuraModeNum::Flash ==> effect_packet(e)[3] == 12,
        effect_packet(e)[4] == e.colour1.r && effect_packet(e)[5] == e.colour1.g
            && effect_packet(e)[6] == e.colour1.b,
        e.speed == Speed::Low ==> effect_packet(e)[7] == 0xe1,
        e.speed == Speed::Med ==> effect_packet(e)[7] == 0xeb,
        e.speed == Speed::High ==> effect_packet(e)[7] == 0xf5,
        e.direction == Direction::Right ==> effect_packet(e)[8] == 0,
        e.direction == Direction::Left ==> effect_packet(e)[8] == 1,
        e.direction == Direction::Up ==> effect_packet(e)[8] == 2,
        e.direction == Direction::Down ==> effect_packet(e)[8] == 3,
        effect_packet(e)[9] == 0,
        effect_packet(e)[10] == e.colour2.r && effect_packet(e)[11] == e.colour2.g
            && effect_packet(e)[12] == e.colour2.b,
        effect_packet(e)[13] == 0 && effect_packet(e)[14] == 0 && effect_packet(e)[15] == 0
            && effect_packet(e)[16] == 0,
{
}

/// Each mode number of the packet names its mode (Static 0 to Ripple 8, Pulse
/// 10, Comet 11, Flash 12); every other number, 9 and above 12 among them,
/// is `Static`. Distinct modes have distinct numbers.
pub proof fn lemma_mode_numbers(v: u8, m1: AuraModeNum, m2: AuraModeNum)
    ensures
        v == 0 ==> mode_from_u8(v) == AuraModeNum::Static,
        v == 1 ==> mode_from_u8(v) == AuraModeNum::Breathe,
        v == 2 ==> mode_from_u8(v) == AuraModeNum::RainbowCycle,
        v == 3 ==> mode_from_u8(v) == AuraModeNum::RainbowWave,
        v == 4 ==> mode_from_u8(v) == AuraModeNum::Star,
        v == 5 ==> mode_from_u8(v) == AuraModeNum::Rain,
        v == 6 ==> mode_from_u8(v) == AuraModeNum::Highlight,
        v == 7 ==> mode_from_u8(v) == AuraModeNum::Laser,
        v == 8 ==> mode_from_u8(v) == AuraModeNum::Ripple,
        v == 10 ==> mode_from_u8(v) == AuraModeNum::Pulse,
        v == 11 ==> mode_from_u8(v) == AuraModeNum::Comet,
        v == 12 ==> mode_from_u8(v) == AuraModeNum::Flash,
        (v == 9 || v > 12) ==> mode_from_u8(v) == AuraModeNum::Static,
        m1 != m2 ==> mode_index(m1) != mode_index(m2),
{
}

/// Each zone, speed and direction number names its value: zones 0 to 7 are
/// the whole keyboard, Key1 to Key4, Logo, BarLeft and BarRight (anything
/// else the whole keyboard); speeds 0, 1 and 2 are Low, Med and High
/// (anything else Med); directions 0 to 3 are Right, Left, Up and Down
/// (anything else Right).
pub proof fn lemma_index_numbers(v: int)
    ensures
        v == 1 ==> zone_from_index(v) == AuraZone::Key1,
        v == 2 ==> zone_from_index(v) == AuraZone::Key2,
        v == 3 ==> zone_from_index(v) == AuraZone::Key3,
        v == 4 ==> zone_from_index(v) == AuraZone::Key4,
        v == 5 ==> zone_from_index(v) == AuraZone::Logo,
        v == 6 ==> zone_from_index(v) == AuraZone::BarLeft,
        v == 7 ==> zone_from_index(v) == AuraZone::BarRight,
        !(1 <= v <= 7) ==> zone_from_index(v) == AuraZone::NoZone,
        v == 0 ==> speed_from_index(v) == Speed::Low,
        v == 2 ==> speed_from_index(v) == Speed::High,
        v != 0 && v != 2 ==> speed_from_index(v) == Speed::Med,
        speed_index(Speed::Low) == 0 && speed_index(Speed::Med) == 1 && speed_index(Speed::High)
            == 2,
        v == 1 ==> direction_from_index(v) == Direction::Left,
        v == 2 ==> direction_from_index(v) == Direction::Up,
        v == 3 ==> direction_from_index(v) == Direction::Down,
        !(1 <= v <= 3) ==> direction_from_index(v) == Direction::Right,
{
}

/// The brightness steps are the levels 0 to 3 in order (Off, Low, Med, High),
/// and each level reads back as its step; any other raw level is `Med`. On a
/// node whose maximum is 255 the steps are 0, 85, 170 and 255.
pub proof fn lemma_brightness_levels(v: u8)
    ensures
        brightness_level(LedBrightness::Off) == 0 && brightness_level(LedBrightness::Low) == 1
            && brightness_level(LedBrightness::Med) == 2 && brightness_level(LedBrightness::High)
            == 3,
        v == 0 ==> brightness_from_level(v) == LedBrightness::Off,
        v == 1 ==> brightness_from_level(v) == LedBrightness::Low,
        v == 2 ==> brightness_from_level(v) == LedBrightness::Med,
        v == 3 ==> brightness_from_level(v) == LedBrightness::High,
        v > 3 ==> brightness_from_level(v) == LedBrightness::Med,
        brightness_scaled(LedBrightness::Off, 255) == 0 && brightness_scaled(LedBrightness::Low, 255)
            == 85 && brightness_scaled(LedBrightness::Med, 255) == 170 && brightness_scaled(
            LedBrightness::High,
            255,
        ) == 255,
{
}

} // verus!
