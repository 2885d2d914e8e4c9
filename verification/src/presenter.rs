//! The off-screen window presentation protocol. A window that must stay
//! invisible to the user yet enumerable by window-sharing software is
//! created with the override-redirect attribute, moved fully outside the
//! visible coordinate space, and given the window-manager "normal state"
//! property by hand, since override-redirect suppresses the property path
//! that would normally set it. This module computes the complete plan for
//! that one-shot startup sequence; the windowing layer executes it.

use vstd::prelude::*;
use crate::config::Settings;
use crate::frame::Geometry;

verus! {

/// The payload of the window-manager state property: state = Normal,
/// icon window = None.
pub struct WmStateProperty {
    /// First 32-bit value: the "normal" state code, always 1.
    pub state: u32,
    /// Second 32-bit value: no icon window, always 0.
    pub icon_window: u32,
}

/// Everything the windowing layer must do to present the mirror window,
/// computed once at startup from the settings and the capture geometry.
pub struct WindowPlan {
    /// Title of the window.
    pub title: String,
    /// Exact inner size of the window: the capture geometry.
    pub width: u32,
    pub height: u32,
    /// Whether the window is created with the override-redirect attribute,
    /// removing it from window-manager management.
    pub override_redirect: bool,
    /// Where to move the window's top-left corner right after creation;
    /// absent when the window stays on screen.
    pub position: Option<(i32, i32)>,
    /// The window-manager state property to inject, exactly one change;
    /// absent when the window stays on screen.
    pub wm_state: Option<WmStateProperty>,
}

/// How many window-manager state property changes a plan submits.
pub open spec fn spec_wm_state_changes(p: WindowPlan) -> int {
    if p.wm_state is Some {
        1
    } else {
        0
    }
}

/// The name of the window-manager state property atom the plan targets;
/// the property's type is this same atom.
pub fn wm_state_atom_name() -> (r: &'static str)
    ensures
        r@ == "WM_STATE"@,
{
    "WM_STATE"
}

/// Compute the presentation plan. The window has exactly the capture
/// geometry's size and carries the override-redirect attribute exactly
/// when off-screen placement is requested. Off screen, the window is
/// moved to `(-width, -height)` — fully outside any display — and the
/// window-manager state property is set once with payload `[1, 0]`; on
/// screen, neither the move nor the property change happens.
pub fn plan_window(settings: Settings, geometry: &Geometry) -> (p: WindowPlan)
    requires
        geometry.width <= i32::MAX,
        geometry.height <= i32::MAX,
    ensures
        p.title@ == settings.window_title@,
        p.width == geometry.width,
        p.height == geometry.height,
        p.override_redirect == settings.offscreen,
        settings.offscreen ==> (p.position matches Some(pos) && pos.0 == -(geometry.width as int)
            && pos.1 == -(geometry.height as int)),
        !settings.offscreen ==> p.position is None,
        settings.offscreen ==> (p.wm_state matches Some(w) && w.state == 1 && w.icon_window == 0),
        !settings.offscreen ==> p.wm_state is None,
        spec_wm_state_changes(p) == if settings.offscreen { 1int } else { 0 },
{
    let position: Option<(i32, i32)> = if settings.offscreen {
        Some((-(geometry.width as i32), -(geometry.height as i32)))
    } else {
        None
    };
    let wm_state: Option<WmStateProperty> = if settings.offscreen {
        Some(WmStateProperty { state: 1, icon_window: 0 })
    } else {
        None
    };
    WindowPlan {
        title: settings.window_title,
        width: geometry.width,
        height: geometry.height,
        override_redirect: settings.offscreen,
        position,
        wm_state,
    }
}

} // verus!
