use vstd::prelude::*;

verus! {

/// A backdrop style requested for a window.
///
/// The variants are ordered: `NoEffect < Solid < Transparent < Aero < Acrylic < Mica < Tabbed`.
/// Everything above `Aero` needs the newest composition mechanism.
#[derive(Debug, Clone, Copy, PartialEq, Eq, Structural)]
pub enum Effect {
    NoEffect,
    Solid,
    Transparent,
    Aero,
    Acrylic,
    Mica,
    Tabbed,
}

/// Position of an effect in the order of `Effect`.
pub open spec fn rank(e: Effect) -> int {
    match e {
        Effect::NoEffect => 0,
        Effect::Solid => 1,
        Effect::Transparent => 2,
        Effect::Aero => 3,
        Effect::Acrylic => 4,
        Effect::Mica => 5,
        Effect::Tabbed => 6,
    }
}

/// Whether `e` can only be shown by the newest composition mechanism
/// (it is ordered above `Aero`).
pub open spec fn is_modern(e: Effect) -> bool {
    rank(e) > rank(Effect::Aero)
}

impl Effect {
    /// Position of the effect in the variant order, from 0 (`NoEffect`) to 6 (`Tabbed`).
    pub fn rank(&self) -> (r: u8)
        ensures
            r as int == rank(*self),
    {
        match self {
            Effect::NoEffect => 0,
            Effect::Solid => 1,
            Effect::Transparent => 2,
            Effect::Aero => 3,
            Effect::Acrylic => 4,
            Effect::Mica => 5,
            Effect::Tabbed => 6,
        }
    }
}

/// How two effects compare in the variant order.
pub open spec fn compare(a: Effect, b: Effect) -> core::cmp::Ordering {
    if rank(a) < rank(b) {
        core::cmp::Ordering::Less
    } else if rank(a) == rank(b) {
        core::cmp::Ordering::Equal
    } else {
        core::cmp::Ordering::Greater
    }
}

impl PartialOrd for Effect {
    fn partial_cmp(&self, other: &Effect) -> (r: Option<core::cmp::Ordering>) {
        let a = self.rank();
        let b = other.rank();
        if a < b {
            Some(core::cmp::Ordering::Less)
        } else if a == b {
            Some(core::cmp::Ordering::Equal)
        } else {
            Some(core::cmp::Ordering::Greater)
        }
    }
}

impl vstd::std_specs::cmp::PartialOrdSpecImpl for Effect {
    open spec fn obeys_partial_cmp_spec() -> bool {
        true
    }

    open spec fn partial_cmp_spec(&self, other: &Effect) -> Option<core::cmp::Ordering> {
        Some(compare(*self, *other))
    }
}

/// The state understood by the legacy composition mechanism.
#[derive(Debug, Clone, Copy, PartialEq, Eq, Structural)]
pub enum AccentState {
    Disabled,
    EnableGradient,
    EnableTransparentgradient,
    EnableBlurbehind,
    EnableAcrylicblurbehind,
    EnableHostbackdrop,
    InvalidState,
}

/// The number the operating system uses for an accent state.
pub open spec fn accent_code(s: AccentState) -> u32 {
    match s {
        AccentState::Disabled => 0,
        AccentState::EnableGradient => 1,
        AccentState::EnableTransparentgradient => 2,
        AccentState::EnableBlurbehind => 3,
        AccentState::EnableAcrylicblurbehind => 4,
        AccentState::EnableHostbackdrop => 5,
        AccentState::InvalidState => 6,
    }
}

impl AccentState {
    /// The number the operating system uses for this accent state.
    pub fn code(&self) -> (r: u32)
        ensures
            r == accent_code(*self),
    {
        match self {
            AccentState::Disabled => 0,
            AccentState::EnableGradient => 1,
            AccentState::EnableTransparentgradient => 2,
            AccentState::EnableBlurbehind => 3,
            AccentState::EnableAcrylicblurbehind => 4,
            AccentState::EnableHostbackdrop => 5,
            AccentState::InvalidState => 6,
        }
    }
}

/// The fixed, total map from effects to legacy accent states. `Tabbed` cannot
/// be expressed by the legacy mechanism and maps to `InvalidState`.
pub open spec fn accent_state_of(e: Effect) -> AccentState {
    match e {
        Effect::NoEffect => AccentState::Disabled,
        Effect::Solid => AccentState::EnableGradient,
        Effect::Transparent => AccentState::EnableTransparentgradient,
        Effect::Aero => AccentState::EnableBlurbehind,
        Effect::Acrylic => AccentState::EnableAcrylicblurbehind,
        Effect::Mica => AccentState::EnableHostbackdrop,
        Effect::Tabbed => AccentState::InvalidState,
    }
}

impl From<Effect> for AccentState {
    fn from(effect: Effect) -> (r: AccentState) {
        match effect {
            Effect::NoEffect => AccentState::Disabled,
            Effect::Solid => AccentState::EnableGradient,
            Effect::Transparent => AccentState::EnableTransparentgradient,
            Effect::Aero => AccentState::EnableBlurbehind,
            Effect::Acrylic => AccentState::EnableAcrylicblurbehind,
            Effect::Mica => AccentState::EnableHostbackdrop,
            Effect::Tabbed => AccentState::InvalidState,
        }
    }
}

impl vstd::std_specs::convert::FromSpecImpl<Effect> for AccentState {
    open spec fn obeys_from_spec() -> bool {
        true
    }

    open spec fn from_spec(v: Effect) -> AccentState {
        accent_state_of(v)
    }
}

/// Each effect has exactly one accent state, distinct effects have distinct
/// accent states, and `Tabbed` maps to the invalid-state sentinel.
pub proof fn lemma_accent_state_total(a: Effect, b: Effect)
    ensures
        accent_state_of(Effect::Tabbed) == AccentState::InvalidState,
        accent_state_of(a) == accent_state_of(b) <==> a == b,
        (accent_state_of(a) == AccentState::Disabled) <==> a == Effect::NoEffect,
{
}

} // verus!
