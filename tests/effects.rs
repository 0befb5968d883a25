use win_acrylic_sys::codec::{
    accent_policy_for, pack_color, unpack_color, AccentPolicy, Margins, ACCENT_FLAGS,
};
use win_acrylic_sys::engine::{
    backdrop_mode, color_required, needs_cleanup, plan_effect, select_tier, DwmAttribute,
    EffectEngine, OsCall, Tier,
};
use win_acrylic_sys::registry::WindowEffects;
use win_acrylic_sys::{AccentState, Effect};

fn reset() -> OsCall {
    OsCall::SetAccentPolicy(AccentPolicy {
        accent_state: AccentState::Disabled,
        accent_flags: 2,
        gradient_color: 0,
        animation_id: 0,
    })
}

fn frameless() -> OsCall {
    OsCall::ExtendFrame(Margins { left: -1, right: -1, bottom: -1, top: -1 })
}

fn accent(state: AccentState, color: u32) -> OsCall {
    OsCall::SetAccentPolicy(AccentPolicy {
        accent_state: state,
        accent_flags: 2,
        gradient_color: color,
        animation_id: 0,
    })
}

fn cleanup() -> Vec<OsCall> {
    vec![
        OsCall::ExtendFrame(Margins { left: 0, right: 0, bottom: 0, top: 1 }),
        OsCall::SetAttribute(DwmAttribute::UseImmersiveDarkMode, 0),
        OsCall::SetAttribute(DwmAttribute::UseMicaBackdrop, 0),
    ]
}

#[test]
fn pack_color_orders_alpha_blue_green_red() {
    assert_eq!(pack_color(10, 20, 30, 255), 255u32 << 24 | 30 << 16 | 20 << 8 | 10);
    assert_eq!(pack_color(10, 20, 30, 255), 0xFF1E140A);
    assert_eq!(pack_color(0, 0, 0, 0), 0);
    assert_eq!(pack_color(255, 255, 255, 255), u32::MAX);
    assert_eq!(pack_color(1, 0, 0, 0), 1);
    assert_eq!(pack_color(0, 0, 0, 1), 0x0100_0000);
}

#[test]
fn unpack_reverses_pack() {
    for &(r, g, b, a) in &[(0u8, 0u8, 0u8, 0u8), (10, 20, 30, 255), (255, 0, 128, 7), (32, 32, 32, 32)] {
        assert_eq!(unpack_color(pack_color(r, g, b, a)), (r, g, b, a));
    }
    assert_eq!(unpack_color(0x0403_0201), (1, 2, 3, 4));
}

#[test]
fn accent_state_table() {
    assert_eq!(AccentState::from(Effect::NoEffect), AccentState::Disabled);
    assert_eq!(AccentState::from(Effect::Solid), AccentState::EnableGradient);
    assert_eq!(AccentState::from(Effect::Transparent), AccentState::EnableTransparentgradient);
    assert_eq!(AccentState::from(Effect::Aero), AccentState::EnableBlurbehind);
    assert_eq!(AccentState::from(Effect::Acrylic), AccentState::EnableAcrylicblurbehind);
    assert_eq!(AccentState::from(Effect::Mica), AccentState::EnableHostbackdrop);
    assert_eq!(AccentState::from(Effect::Tabbed), AccentState::InvalidState);
    assert_eq!(AccentState::InvalidState.code(), 6);
    assert_eq!(AccentState::EnableAcrylicblurbehind.code(), 4);
}

#[test]
fn effects_are_ordered() {
    assert!(Effect::NoEffect < Effect::Solid);
    assert!(Effect::Solid < Effect::Transparent);
    assert!(Effect::Transparent < Effect::Aero);
    assert!(Effect::Aero < Effect::Acrylic);
    assert!(Effect::Acrylic < Effect::Mica);
    assert!(Effect::Mica < Effect::Tabbed);
    assert!(!(Effect::Aero > Effect::Aero));
    assert_eq!(Effect::Tabbed.rank(), 6);
}

#[test]
fn accent_policy_carries_fixed_flags() {
    let p = accent_policy_for(Effect::Aero, Some((1, 2, 3, 4)));
    assert_eq!(p.accent_state, AccentState::EnableBlurbehind);
    assert_eq!(p.accent_flags, ACCENT_FLAGS);
    assert_eq!(p.gradient_color, 0x0403_0201);
    assert_eq!(p.animation_id, 0);
    assert_eq!(accent_policy_for(Effect::NoEffect, None).gradient_color, 0);
}

#[test]
fn tier_selection_follows_priority() {
    assert_eq!(select_tier(22523, Effect::Acrylic), Tier::Modern);
    assert_eq!(select_tier(22631, Effect::Tabbed), Tier::Modern);
    assert_eq!(select_tier(22631, Effect::Mica), Tier::Modern);
    assert_eq!(select_tier(22522, Effect::Mica), Tier::MicaOnly);
    assert_eq!(select_tier(19041, Effect::Mica), Tier::MicaOnly);
    assert_eq!(select_tier(22522, Effect::Acrylic), Tier::Legacy);
    assert_eq!(select_tier(22631, Effect::Aero), Tier::Legacy);
    assert_eq!(select_tier(22631, Effect::NoEffect), Tier::Legacy);
    assert_eq!(backdrop_mode(Effect::Acrylic), 3);
    assert_eq!(backdrop_mode(Effect::Mica), 2);
    assert_eq!(backdrop_mode(Effect::Tabbed), 4);
}

#[test]
fn cleanup_depends_on_last_effect_and_build() {
    assert!(needs_cleanup(22000, Effect::Mica));
    assert!(!needs_cleanup(21999, Effect::Mica));
    assert!(needs_cleanup(22523, Effect::Acrylic));
    assert!(!needs_cleanup(22522, Effect::Acrylic));
    assert!(!needs_cleanup(22631, Effect::Aero));
    assert!(!needs_cleanup(22631, Effect::NoEffect));
}

#[test]
fn color_is_required_only_for_visible_legacy_effects() {
    assert!(color_required(19041, Effect::Acrylic));
    assert!(color_required(22631, Effect::Solid));
    assert!(!color_required(19041, Effect::NoEffect));
    assert!(!color_required(22631, Effect::Acrylic));
    assert!(!color_required(19041, Effect::Mica));
}

#[test]
fn acrylic_on_new_build() {
    let mut engine = EffectEngine::new();
    let calls = engine.apply(22631, Effect::Acrylic, true, Some((32, 32, 32, 32)));
    assert_eq!(
        calls,
        vec![
            reset(),
            frameless(),
            OsCall::SetAttribute(DwmAttribute::UseImmersiveDarkMode, 1),
            OsCall::SetAttribute(DwmAttribute::NewBackdropMode, 3),
        ]
    );
    assert_eq!(engine.last_effect(), Effect::Acrylic);
}

#[test]
fn acrylic_on_old_build_with_color() {
    let mut engine = EffectEngine::new();
    let calls = engine.apply(19041, Effect::Acrylic, false, Some((10, 20, 30, 255)));
    assert_eq!(
        calls,
        vec![reset(), accent(AccentState::EnableAcrylicblurbehind, 255 << 24 | 30 << 16 | 20 << 8 | 10)]
    );
    assert_eq!(engine.last_effect(), Effect::Acrylic);
}

#[test]
fn revert_after_mica() {
    let mut engine = EffectEngine::new();
    let first = engine.apply(22200, Effect::Mica, true, None);
    assert_eq!(
        first,
        vec![
            reset(),
            frameless(),
            OsCall::SetAttribute(DwmAttribute::UseImmersiveDarkMode, 1),
            OsCall::SetAttribute(DwmAttribute::UseMicaBackdrop, 1),
        ]
    );
    assert_eq!(engine.last_effect(), Effect::Mica);
    let second = engine.apply(22200, Effect::NoEffect, false, Some((0, 0, 0, 0)));
    let mut expected = vec![reset()];
    expected.extend(cleanup());
    expected.push(accent(AccentState::Disabled, 0));
    assert_eq!(second, expected);
    assert_eq!(engine.last_effect(), Effect::NoEffect);
}

#[test]
fn no_cleanup_after_no_effect() {
    let calls = plan_effect(22631, Effect::NoEffect, Effect::Aero, false, Some((1, 1, 1, 1)));
    assert_eq!(calls, vec![reset(), accent(AccentState::EnableBlurbehind, 0x0101_0101)]);
}

#[test]
fn cleanup_after_modern_acrylic() {
    let mut engine = EffectEngine::new();
    engine.apply(22631, Effect::Acrylic, true, None);
    let calls = engine.apply(22631, Effect::Solid, false, Some((9, 8, 7, 6)));
    let mut expected = vec![reset()];
    expected.extend(cleanup());
    expected.push(accent(AccentState::EnableGradient, 0x0607_0809));
    assert_eq!(calls, expected);
}

#[test]
fn repeated_request_issues_same_calls() {
    let mut engine = EffectEngine::new();
    let a = engine.apply(22631, Effect::Mica, false, None);
    let b = engine.apply(22631, Effect::Mica, false, None);
    assert_eq!(a, b);
    assert_eq!(engine.last_effect(), Effect::Mica);
    let c = engine.apply(19041, Effect::Transparent, true, Some((5, 5, 5, 5)));
    let d = engine.apply(19041, Effect::Transparent, true, Some((5, 5, 5, 5)));
    assert_eq!(c, d);
}

#[test]
fn repeat_after_cleanup_drops_it() {
    let mut engine = EffectEngine::new();
    engine.apply(22200, Effect::Mica, true, None);
    let a = engine.apply(22200, Effect::Aero, false, Some((1, 2, 3, 4)));
    let b = engine.apply(22200, Effect::Aero, false, Some((1, 2, 3, 4)));
    assert_eq!(a.len(), 5);
    assert_eq!(b, vec![reset(), accent(AccentState::EnableBlurbehind, 0x0403_0201)]);
}

#[test]
fn mica_below_windows_11_only_resets() {
    let mut engine = EffectEngine::new();
    let calls = engine.apply(19041, Effect::Mica, true, None);
    assert_eq!(calls, vec![reset()]);
    assert_eq!(engine.last_effect(), Effect::Mica);
}

#[test]
fn tabbed_between_mica_and_modern_builds_is_invalid_accent() {
    let calls = plan_effect(22200, Effect::NoEffect, Effect::Tabbed, false, Some((0, 0, 0, 0)));
    assert_eq!(calls, vec![reset(), accent(AccentState::InvalidState, 0)]);
}

#[test]
fn registry_keeps_windows_apart() {
    let mut windows = WindowEffects::new();
    assert_eq!(windows.last_effect(7), Effect::NoEffect);
    windows.apply(7, 22200, Effect::Mica, true, None);
    assert_eq!(windows.last_effect(7), Effect::Mica);
    assert_eq!(windows.last_effect(8), Effect::NoEffect);
    let other = windows.apply(8, 22200, Effect::Aero, false, Some((1, 2, 3, 4)));
    assert_eq!(other, vec![reset(), accent(AccentState::EnableBlurbehind, 0x0403_0201)]);
    let first = windows.apply(7, 22200, Effect::Aero, false, Some((1, 2, 3, 4)));
    let mut expected = vec![reset()];
    expected.extend(cleanup());
    expected.push(accent(AccentState::EnableBlurbehind, 0x0403_0201));
    assert_eq!(first, expected);
    assert_eq!(windows.last_effect(7), Effect::Aero);
    assert_eq!(windows.last_effect(8), Effect::Aero);
}
