use vstd::prelude::*;

use crate::effect::{accent_state_of, AccentState, Effect};

verus! {

/// Attribute tag of the legacy composition call that carries an accent policy.
pub const WCA_ACCENT_POLICY: u32 = 19;

/// Window attribute selecting the backdrop mode (acrylic 3, mica 2, tabbed 4),
/// available from build 22523 on.
pub const DWMWA_NEW_BACKDROP_MODE: i32 = 38;

/// Window attribute switching the mica backdrop on or off, available from
/// build 22000 on.
pub const DWMWA_USE_MICA_BACKDROP: i32 = 1029;

/// Accent flags used with every accent policy: blend with the gradient color.
pub const ACCENT_FLAGS: u32 = 2;

/// A color as `(r, g, b, a)`.
pub type Rgba = (u8, u8, u8, u8);

/// The packed `0xAABBGGRR` value of a color.
pub open spec fn packed(r: u8, g: u8, b: u8, a: u8) -> u32 {
    (a as u32) << 24u32 | (b as u32) << 16u32 | (g as u32) << 8u32 | r as u32
}

/// The same value as `packed`, as a number.
pub open spec fn packed_value(r: u8, g: u8, b: u8, a: u8) -> int {
    a as int * 0x100_0000 + b as int * 0x1_0000 + g as int * 0x100 + r as int
}

/// Packs a color into one 32-bit value, alpha in the high byte, then blue,
/// green and red.
pub fn pack_color(r: u8, g: u8, b: u8, a: u8) -> (p: u32)
    ensures
        p == packed(r, g, b, a),
        p as int == packed_value(r, g, b, a),
{
    proof {
        lemma_packed_value(r, g, b, a);
    }
    (a as u32) << 24u32 | (b as u32) << 16u32 | (g as u32) << 8u32 | r as u32
}

/// Splits a packed `0xAABBGGRR` value into `(r, g, b, a)`.
pub fn unpack_color(p: u32) -> (c: Rgba)
    ensures
        c.0 == (p & 0xff) as u8,
        c.1 == ((p >> 8u32) & 0xff) as u8,
        c.2 == ((p >> 16u32) & 0xff) as u8,
        c.3 == ((p >> 24u32) & 0xff) as u8,
{
    ((p & 0xff) as u8, ((p >> 8u32) & 0xff) as u8, ((p >> 16u32) & 0xff) as u8, ((p >> 24u32) & 0xff) as u8)
}

/// The packed value is the base-256 number with digits `a, b, g, r`.
pub proof fn lemma_packed_value(r: u8, g: u8, b: u8, a: u8)
    ensures
        packed(r, g, b, a) as int == packed_value(r, g, b, a),
{
    let (r32, g32, b32, a32) = (r as u32, g as u32, b as u32, a as u32);
    assert(((a32 << 24u32) | (b32 << 16u32) | (g32 << 8u32) | r32) == a32 * 0x100_0000 + b32
        * 0x1_0000 + g32 * 0x100 + r32) by (bit_vector)
        requires
            r32 < 256,
            g32 < 256,
            b32 < 256,
            a32 < 256,
    ;
}

/// Unpacking a packed color gives back its four channels.
pub proof fn lemma_pack_unpack(r: u8, g: u8, b: u8, a: u8)
    ensures
        ({
            let p = packed(r, g, b, a);
            &&& (p & 0xff) as u8 == r
            &&& ((p >> 8u32) & 0xff) as u8 == g
            &&& ((p >> 16u32) & 0xff) as u8 == b
            &&& ((p >> 24u32) & 0xff) as u8 == a
        }),
{
    let (r32, g32, b32, a32) = (r as u32, g as u32, b as u32, a as u32);
    let p = ((a32 << 24u32) | (b32 << 16u32) | (g32 << 8u32) | r32);
    assert(p & 0xff == r32 && (p >> 8u32) & 0xff == g32 && (p >> 16u32) & 0xff == b32 && (p
        >> 24u32) & 0xff == a32) by (bit_vector)
        requires
            r32 < 256,
            g32 < 256,
            b32 < 256,
            a32 < 256,
            p == ((a32 << 24u32) | (b32 << 16u32) | (g32 << 8u32) | r32),
    ;
}

/// The payload of the legacy composition call.
#[derive(Debug, Clone, Copy, PartialEq, Eq, Structural)]
pub struct AccentPolicy {
    pub accent_state: AccentState,
    pub accent_flags: u32,
    pub gradient_color: u32,
    pub animation_id: u32,
}

/// The policy with the given state and color, and the fixed flags and animation.
pub open spec fn policy(state: AccentState, gradient_color: u32) -> AccentPolicy {
    AccentPolicy { accent_state: state, accent_flags: 2, gradient_color, animation_id: 0 }
}

/// The gradient color handed to the legacy mechanism: the packed color, or 0
/// where none was given.
pub open spec fn gradient_of(color: Option<Rgba>) -> u32 {
    match color {
        Some(c) => packed(c.0, c.1, c.2, c.3),
        None => 0,
    }
}

/// The accent policy that shows `effect` through the legacy mechanism.
pub open spec fn policy_for(effect: Effect, color: Option<Rgba>) -> AccentPolicy {
    policy(accent_state_of(effect), gradient_of(color))
}

/// The policy that switches the legacy mechanism off.
pub open spec fn disabled_policy() -> AccentPolicy {
    policy(AccentState::Disabled, 0)
}

/// Whether the legacy mechanism needs a color to show `effect`: every state
/// but `Disabled` blends with one.
pub open spec fn needs_color(effect: Effect) -> bool {
    accent_state_of(effect) != AccentState::Disabled
}

impl AccentPolicy {
    /// The policy that switches the legacy mechanism off.
    pub fn disabled() -> (p: AccentPolicy)
        ensures
            p == disabled_policy(),
    {
        AccentPolicy {
            accent_state: AccentState::Disabled,
            accent_flags: ACCENT_FLAGS,
            gradient_color: 0,
            animation_id: 0,
        }
    }
}

/// The accent policy for `effect`, with `color` packed as its gradient color.
/// A color is needed for every effect but `NoEffect`.
pub fn accent_policy_for(effect: Effect, color: Option<Rgba>) -> (p: AccentPolicy)
    requires
        needs_color(effect) ==> color is Some,
    ensures
        p == policy_for(effect, color),
{
    let gradient_color = match color {
        Some(c) => pack_color(c.0, c.1, c.2, c.3),
        None => 0,
    };
    AccentPolicy {
        accent_state: AccentState::from(effect),
        accent_flags: ACCENT_FLAGS,
        gradient_color,
        animation_id: 0,
    }
}

/// How far window content extends into each side of the frame.
#[derive(Debug, Clone, Copy, PartialEq, Eq, Structural)]
pub struct Margins {
    pub left: i32,
    pub right: i32,
    pub bottom: i32,
    pub top: i32,
}

/// Margins of -1 on all sides: the content covers the whole frame.
pub open spec fn frameless() -> Margins {
    Margins { left: -1i32, right: -1i32, bottom: -1i32, top: -1i32 }
}

/// One pixel of top margin, which keeps the window's shadow visible.
pub open spec fn restorative() -> Margins {
    Margins { left: 0, right: 0, bottom: 0, top: 1 }
}

impl Margins {
    /// Margins of -1 on all sides: the content covers the whole frame.
    pub fn negative_one() -> (m: Margins)
        ensures
            m == frameless(),
    {
        Margins { left: -1, right: -1, bottom: -1, top: -1 }
    }

    /// One pixel of top margin, which keeps the window's shadow visible.
    pub fn restorative() -> (m: Margins)
        ensures
            m == restorative(),
    {
        Margins { left: 0, right: 0, bottom: 0, top: 1 }
    }
}

} // verus!
