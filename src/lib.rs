//! Window backdrop effects (acrylic, mica, aero blur, tabbed) for desktop
//! windows: the policy that decides which composition calls to issue, and the
//! binary records those calls take.
//!
//! The library never touches a window. It describes each step as an
//! [`engine::OsCall`] value, in order, and a thin platform layer performs them.
//! - [`effect`]: the effects, their order, and the legacy accent states.
//! - [`codec`]: color packing, accent policies and frame margins.
//! - [`engine`]: tier selection, cleanup, and the full call sequence.
//! - [`registry`]: the last effect of each window.

pub mod codec;
pub mod effect;
pub mod engine;
pub mod registry;

pub use effect::{AccentState, Effect};
