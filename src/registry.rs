use vstd::prelude::*;

use std::collections::HashMap;

use crate::codec::Rgba;
use crate::effect::Effect;
use crate::engine::{color_supplied, effect_calls, plan_effect, OsCall};

verus! {

broadcast use vstd::std_specs::hash::group_hash_axioms;

/// The last effect applied to each window, keyed by window handle, so that
/// one window's history never decides another window's cleanup.
pub struct WindowEffects {
    last: HashMap<isize, Effect>,
}

impl View for WindowEffects {
    type V = Map<isize, Effect>;

    closed spec fn view(&self) -> Map<isize, Effect> {
        self.last@
    }
}

/// The last effect of `window` in `m`: `NoEffect` for a window never seen.
pub open spec fn last_of(m: Map<isize, Effect>, window: isize) -> Effect {
    if m.contains_key(window) {
        m[window]
    } else {
        Effect::NoEffect
    }
}

impl WindowEffects {
    /// A registry that has seen no window.
    pub fn new() -> (r: WindowEffects)
        ensures
            r@ == Map::<isize, Effect>::empty(),
    {
        WindowEffects { last: HashMap::new() }
    }

    /// The last effect applied to `window`, `NoEffect` if none was.
    pub fn last_effect(&self, window: isize) -> (e: Effect)
        ensures
            e == last_of(self@, window),
    {
        match self.last.get(&window) {
            Some(e) => *e,
            None => Effect::NoEffect,
        }
    }

    /// The calls that show `effect` on `window` on build `build`, given what
    /// the last request for that window left behind. The effect becomes the
    /// window's last effect; other windows are untouched.
    pub fn apply(
        &mut self,
        window: isize,
        build: u32,
        effect: Effect,
        dark_mode: bool,
        color: Option<Rgba>,
    ) -> (calls: Vec<OsCall>)
        requires
            color_supplied(build, effect, color),
        ensures
            calls@ == effect_calls(build, last_of(old(self)@, window), effect, dark_mode, color),
            final(self)@ == old(self)@.insert(window, effect),
    {
        let last = self.last_effect(window);
        let calls = plan_effect(build, last, effect, dark_mode, color);
        self.last.insert(window, effect);
        calls
    }
}

/// Applying an effect to one window does not change what is remembered of
/// any other window.
pub proof fn lemma_windows_independent(
    m: Map<isize, Effect>,
    window: isize,
    effect: Effect,
    other: isize,
)
    requires
        other != window,
    ensures
        last_of(m.insert(window, effect), other) == last_of(m, other),
        last_of(m.insert(window, effect), window) == effect,
{
}

} // verus!
