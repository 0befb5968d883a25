use vstd::prelude::*;

use crate::codec::{
    accent_policy_for, disabled_policy, frameless, needs_color, policy_for, restorative,
    AccentPolicy, Margins, Rgba,
};
use crate::effect::{is_modern, Effect};

verus! {

/// First build with the backdrop-mode attribute (acrylic, mica and tabbed).
pub const MODERN_BUILD: u32 = 22523;

/// First build with the mica-backdrop attribute.
pub const MICA_BUILD: u32 = 22000;

/// The composition mechanism chosen for a request.
#[derive(Debug, Clone, Copy, PartialEq, Eq, Structural)]
pub enum Tier {
    /// The backdrop-mode attribute, for acrylic, mica and tabbed on new builds.
    Modern,
    /// The mica-backdrop attribute, for mica below the modern builds.
    MicaOnly,
    /// The legacy accent policy, for everything else.
    Legacy,
}

/// A window attribute set through the desktop window manager.
#[derive(Debug, Clone, Copy, PartialEq, Eq, Structural)]
pub enum DwmAttribute {
    /// Dark title bar and frame (a boolean).
    UseImmersiveDarkMode,
    /// Mica backdrop on builds from 22000 to 22522 (a boolean).
    UseMicaBackdrop,
    /// The backdrop mode (an integer code).
    NewBackdropMode,
}

/// One call into the operating system, in the order the platform layer must
/// issue it.
#[derive(Debug, Clone, Copy, PartialEq, Eq, Structural)]
pub enum OsCall {
    /// Set the window's accent policy through the legacy composition call.
    SetAccentPolicy(AccentPolicy),
    /// Extend the window frame into the client area by these margins.
    ExtendFrame(Margins),
    /// Set a window attribute to a 32-bit value (booleans as 1 and 0).
    SetAttribute(DwmAttribute, i32),
}

/// The tier chosen for `effect` on build `build`, by priority: modern, then
/// mica-only, then legacy.
pub open spec fn tier_of(build: u32, effect: Effect) -> Tier {
    if build >= MODERN_BUILD && is_modern(effect) {
        Tier::Modern
    } else if effect == Effect::Mica {
        Tier::MicaOnly
    } else {
        Tier::Legacy
    }
}

/// Whether a window whose last effect was `last` carries frameless margins and
/// backdrop attributes that the legacy tier must undo first.
pub open spec fn cleanup_owed(build: u32, last: Effect) -> bool {
    (build >= MICA_BUILD && last == Effect::Mica) || (build >= MODERN_BUILD && is_modern(last))
}

/// The backdrop-mode code of a modern effect: acrylic 3, mica 2, tabbed 4.
pub open spec fn backdrop_code(effect: Effect) -> i32 {
    match effect {
        Effect::Acrylic => 3,
        Effect::Mica => 2,
        Effect::Tabbed => 4,
        _ => 0,
    }
}

/// A boolean as the operating system takes it.
pub open spec fn bool_value(b: bool) -> i32 {
    if b {
        1
    } else {
        0
    }
}

/// Whether a request can be carried out: the legacy tier needs a color for
/// every accent state but `Disabled`.
pub open spec fn color_supplied(build: u32, effect: Effect, color: Option<Rgba>) -> bool {
    tier_of(build, effect) == Tier::Legacy && needs_color(effect) ==> color is Some
}

/// The calls that undo frameless margins and backdrop attributes.
pub open spec fn cleanup_calls() -> Seq<OsCall> {
    seq![
        OsCall::ExtendFrame(restorative()),
        OsCall::SetAttribute(DwmAttribute::UseImmersiveDarkMode, 0),
        OsCall::SetAttribute(DwmAttribute::UseMicaBackdrop, 0),
    ]
}

/// The calls of the chosen tier.
pub open spec fn tier_calls(
    build: u32,
    last: Effect,
    effect: Effect,
    dark_mode: bool,
    color: Option<Rgba>,
) -> Seq<OsCall> {
    match tier_of(build, effect) {
        Tier::Modern => seq![
            OsCall::ExtendFrame(frameless()),
            OsCall::SetAttribute(DwmAttribute::UseImmersiveDarkMode, bool_value(dark_mode)),
            OsCall::SetAttribute(DwmAttribute::NewBackdropMode, backdrop_code(effect)),
        ],
        Tier::MicaOnly => if build >= MICA_BUILD {
            seq![
                OsCall::ExtendFrame(frameless()),
                OsCall::SetAttribute(DwmAttribute::UseImmersiveDarkMode, bool_value(dark_mode)),
                OsCall::SetAttribute(DwmAttribute::UseMicaBackdrop, 1),
            ]
        } else {
            seq![]
        },
        Tier::Legacy => (if cleanup_owed(build, last) {
            cleanup_calls()
        } else {
            seq![]
        }).push(OsCall::SetAccentPolicy(policy_for(effect, color))),
    }
}

/// Every call issued to show `effect` on a window whose last effect was
/// `last`: the legacy mechanism is switched off first, then the chosen tier
/// runs.
pub open spec fn effect_calls(
    build: u32,
    last: Effect,
    effect: Effect,
    dark_mode: bool,
    color: Option<Rgba>,
) -> Seq<OsCall> {
    seq![OsCall::SetAccentPolicy(disabled_policy())] + tier_calls(
        build,
        last,
        effect,
        dark_mode,
        color,
    )
}

/// The tier chosen for `effect` on build `build`.
pub fn select_tier(build: u32, effect: Effect) -> (t: Tier)
    ensures
        t == tier_of(build, effect),
{
    if build >= MODERN_BUILD && effect > Effect::Aero {
        Tier::Modern
    } else if effect == Effect::Mica {
        Tier::MicaOnly
    } else {
        Tier::Legacy
    }
}

/// Whether the legacy tier must first undo what the last effect left behind.
pub fn needs_cleanup(build: u32, last: Effect) -> (b: bool)
    ensures
        b == cleanup_owed(build, last),
{
    (build >= MICA_BUILD && last == Effect::Mica) || (build >= MODERN_BUILD && last > Effect::Aero)
}

/// Whether the request needs a color: the legacy tier with any effect but
/// `NoEffect`.
pub fn color_required(build: u32, effect: Effect) -> (b: bool)
    ensures
        b == (tier_of(build, effect) == Tier::Legacy && needs_color(effect)),
{
    select_tier(build, effect) == Tier::Legacy && effect != Effect::NoEffect
}

/// The backdrop-mode code of a modern effect: acrylic 3, mica 2, tabbed 4.
pub fn backdrop_mode(effect: Effect) -> (code: i32)
    requires
        is_modern(effect),
    ensures
        code == backdrop_code(effect),
{
    match effect {
        Effect::Acrylic => 3,
        Effect::Mica => 2,
        _ => 4,
    }
}

fn bool_attribute(b: bool) -> (v: i32)
    ensures
        v == bool_value(b),
{
    if b {
        1
    } else {
        0
    }
}

/// The calls that show `effect` on a window whose last effect was `last`, on
/// build `build`.
pub fn plan_effect(
    build: u32,
    last: Effect,
    effect: Effect,
    dark_mode: bool,
    color: Option<Rgba>,
) -> (calls: Vec<OsCall>)
    requires
        color_supplied(build, effect, color),
    ensures
        calls@ == effect_calls(build, last, effect, dark_mode, color),
{
    let mut calls: Vec<OsCall> = Vec::new();
    calls.push(OsCall::SetAccentPolicy(AccentPolicy::disabled()));
    match select_tier(build, effect) {
        Tier::Modern => {
            calls.push(OsCall::ExtendFrame(Margins::negative_one()));
            calls.push(
                OsCall::SetAttribute(DwmAttribute::UseImmersiveDarkMode, bool_attribute(dark_mode)),
            );
            calls.push(OsCall::SetAttribute(DwmAttribute::NewBackdropMode, backdrop_mode(effect)));
        },
        Tier::MicaOnly => {
            if build >= MICA_BUILD {
                calls.push(OsCall::ExtendFrame(Margins::negative_one()));
                calls.push(
                    OsCall::SetAttribute(
                        DwmAttribute::UseImmersiveDarkMode,
                        bool_attribute(dark_mode),
                    ),
                );
                calls.push(OsCall::SetAttribute(DwmAttribute::UseMicaBackdrop, 1));
            }
        },
        Tier::Legacy => {
            if needs_cleanup(build, last) {
                calls.push(OsCall::ExtendFrame(Margins::restorative()));
                calls.push(OsCall::SetAttribute(DwmAttribute::UseImmersiveDarkMode, 0));
                calls.push(OsCall::SetAttribute(DwmAttribute::UseMicaBackdrop, 0));
            }
            calls.push(OsCall::SetAccentPolicy(accent_policy_for(effect, color)));
        },
    }
    assert(calls@ =~= effect_calls(build, last, effect, dark_mode, color));
    calls
}

/// Remembers the last effect applied, so that the next request knows what
/// the previous one left behind.
#[derive(Debug, Clone, Copy, PartialEq, Eq, Structural)]
pub struct EffectEngine {
    last_effect: Effect,
}

impl EffectEngine {
    /// The last effect applied.
    pub closed spec fn last(&self) -> Effect {
        self.last_effect
    }

    /// An engine that has applied nothing yet: its last effect is `NoEffect`.
    pub fn new() -> (e: EffectEngine)
        ensures
            e.last() == Effect::NoEffect,
    {
        EffectEngine { last_effect: Effect::NoEffect }
    }

    /// The last effect applied.
    pub fn last_effect(&self) -> (e: Effect)
        ensures
            e == self.last(),
    {
        self.last_effect
    }

    /// The calls that show `effect` on build `build`, given what the last
    /// request left behind. The requested effect becomes the last effect,
    /// whichever tier ran and whether or not any call was made.
    pub fn apply(
        &mut self,
        build: u32,
        effect: Effect,
        dark_mode: bool,
        color: Option<Rgba>,
    ) -> (calls: Vec<OsCall>)
        requires
            color_supplied(build, effect, color),
        ensures
            calls@ == effect_calls(build, old(self).last(), effect, dark_mode, color),
            final(self).last() == effect,
    {
        let calls = plan_effect(build, self.last_effect, effect, dark_mode, color);
        self.last_effect = effect;
        calls
    }
}

/// Exactly one tier is chosen for every build and effect, by priority: the
/// modern tier whenever the build has it and the effect is above `Aero`, else
/// the mica-only tier for `Mica`, else the legacy tier. Dark mode and color
/// play no part in the choice.
pub proof fn lemma_tier_selection(build: u32, effect: Effect)
    ensures
        (tier_of(build, effect) == Tier::Modern) <==> (build >= MODERN_BUILD && is_modern(effect)),
        (tier_of(build, effect) == Tier::MicaOnly) <==> (!(build >= MODERN_BUILD && is_modern(
            effect,
        )) && effect == Effect::Mica),
        (tier_of(build, effect) == Tier::Legacy) <==> (!(build >= MODERN_BUILD && is_modern(
            effect,
        )) && effect != Effect::Mica),
        forall|last: Effect, d1: bool, c1: Option<Rgba>, d2: bool, c2: Option<Rgba>|
            #![trigger effect_calls(build, last, effect, d1, c1), effect_calls(build, last, effect, d2, c2)]
            effect_calls(build, last, effect, d1, c1).len() == effect_calls(
                build,
                last,
                effect,
                d2,
                c2,
            ).len(),
{
}

/// Repeating a request with the same arguments leaves the same last effect
/// and issues the same calls, unless the first one ran the legacy tier's
/// cleanup (which the repeat then no longer owes).
pub proof fn lemma_repeat_request(
    build: u32,
    last: Effect,
    effect: Effect,
    dark_mode: bool,
    color: Option<Rgba>,
)
    requires
        !(tier_of(build, effect) == Tier::Legacy && cleanup_owed(build, last)),
    ensures
        effect_calls(build, effect, effect, dark_mode, color) == effect_calls(
            build,
            last,
            effect,
            dark_mode,
            color,
        ),
{
}

/// A request never leaves behind cleanup that a repeat of it on the legacy
/// tier would owe: once a request has run, every repeat of it meets the
/// condition of `lemma_repeat_request` and issues the same calls.
pub proof fn lemma_repeat_is_stable(build: u32, effect: Effect)
    ensures
        !(tier_of(build, effect) == Tier::Legacy && cleanup_owed(build, effect)),
{
}

/// On the legacy tier, a window last shown with mica on a build that has mica
/// gets the restoring margin and both attributes cleared, before its accent
/// policy; a window that has had no effect gets the accent policy straight
/// after the reset.
pub proof fn lemma_cleanup_triggering(
    build: u32,
    last: Effect,
    effect: Effect,
    dark_mode: bool,
    color: Option<Rgba>,
)
    requires
        tier_of(build, effect) == Tier::Legacy,
    ensures
        last == Effect::Mica && build >= MICA_BUILD ==> effect_calls(
            build,
            last,
            effect,
            dark_mode,
            color,
        ) == seq![
            OsCall::SetAccentPolicy(disabled_policy()),
            OsCall::ExtendFrame(restorative()),
            OsCall::SetAttribute(DwmAttribute::UseImmersiveDarkMode, 0),
            OsCall::SetAttribute(DwmAttribute::UseMicaBackdrop, 0),
            OsCall::SetAccentPolicy(policy_for(effect, color)),
        ],
        last == Effect::NoEffect ==> effect_calls(build, last, effect, dark_mode, color) == seq![
            OsCall::SetAccentPolicy(disabled_policy()),
            OsCall::SetAccentPolicy(policy_for(effect, color)),
        ],
{
    let calls = effect_calls(build, last, effect, dark_mode, color);
    if last == Effect::Mica && build >= MICA_BUILD {
        assert(calls =~= seq![
            OsCall::SetAccentPolicy(disabled_policy()),
            OsCall::ExtendFrame(restorative()),
            OsCall::SetAttribute(DwmAttribute::UseImmersiveDarkMode, 0),
            OsCall::SetAttribute(DwmAttribute::UseMicaBackdrop, 0),
            OsCall::SetAccentPolicy(policy_for(effect, color)),
        ]);
    }
    if last == Effect::NoEffect {
        assert(calls =~= seq![
            OsCall::SetAccentPolicy(disabled_policy()),
            OsCall::SetAccentPolicy(policy_for(effect, color)),
        ]);
    }
}

} // verus!
