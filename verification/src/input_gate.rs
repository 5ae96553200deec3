//! Per-frame input arbitration between the free camera and other consumers.
//!
//! Before camera input is processed each frame, one boolean decides whether
//! camera motion is enabled: it is disabled exactly when a UI surface claims
//! the pointer or some transform gizmo is active or focused. Running this
//! strictly before camera-input consumption makes the two consumers mutually
//! exclusive by construction.

use vstd::prelude::*;

verus! {

/// What the pointer/UI layer reports for the current frame.
#[derive(Clone, Copy, PartialEq, Eq, Structural, Debug)]
pub struct PointerState {
    /// A UI widget wants the pointer input.
    pub wants_input: bool,
    /// The pointer is over a UI area.
    pub over_ui_area: bool,
}

/// What one transform-gizmo widget reports for the current frame.
#[derive(Clone, Copy, PartialEq, Eq, Structural, Debug)]
pub struct GizmoState {
    /// The gizmo is being dragged.
    pub active: bool,
    /// The gizmo is focused (hovered).
    pub focused: bool,
}

/// The UI layer claims the pointer.
pub open spec fn ui_claims_pointer(p: PointerState) -> bool {
    p.wants_input || p.over_ui_area
}

/// This gizmo claims the pointer.
pub open spec fn gizmo_claims_pointer(g: GizmoState) -> bool {
    g.active || g.focused
}

/// Some consumer other than the free camera claims the pointer this frame.
pub open spec fn pointer_claimed(p: PointerState, gizmos: Seq<GizmoState>) -> bool {
    ||| ui_claims_pointer(p)
    ||| exists|i: int| 0 <= i < gizmos.len() && gizmo_claims_pointer(#[trigger] gizmos[i])
}

/// The camera controller's per-frame motion switches, all driven by the one
/// gate decision.
#[derive(Clone, Copy, PartialEq, Eq, Structural, Debug)]
pub struct CameraMotion {
    pub pan: bool,
    pub orbit: bool,
    pub zoom: bool,
}

/// The per-frame gate: camera input is enabled exactly when neither the UI
/// layer nor any gizmo claims the pointer.
pub fn camera_input_enabled(pointer: &PointerState, gizmos: &Vec<GizmoState>) -> (enabled: bool)
    ensures
        enabled == !pointer_claimed(*pointer, gizmos@),
{
    if pointer.wants_input || pointer.over_ui_area {
        return false;
    }
    let mut i: usize = 0;
    while i < gizmos.len()
        invariant
            0 <= i <= gizmos@.len(),
            forall|k: int| 0 <= k < i ==> !gizmo_claims_pointer(#[trigger] gizmos@[k]),
        decreases gizmos@.len() - i,
    {
        if gizmos[i].active || gizmos[i].focused {
            return false;
        }
        i += 1;
    }
    true
}

/// Pan, orbit and zoom all follow the single gate decision.
pub fn motion_flags(enabled: bool) -> (m: CameraMotion)
    ensures
        m.pan == enabled,
        m.orbit == enabled,
        m.zoom == enabled,
{
    CameraMotion { pan: enabled, orbit: enabled, zoom: enabled }
}

} // verus!
