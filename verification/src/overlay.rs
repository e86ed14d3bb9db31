//! The overlay window's switches: whether its border is shown, and what a
//! request to toggle its visibility comes to.

use vstd::prelude::*;

verus! {

/// Whether the overlay shows its border. A new overlay does.
#[derive(Debug, Clone, Copy, PartialEq, Eq, Structural)]
pub struct OverlayState {
    pub show_border: bool,
}

/// What a request to toggle the overlay's visibility asks of the window
/// system.
#[derive(Debug, Clone, Copy, PartialEq, Eq, Structural)]
pub enum VisibilityStep {
    /// There is no overlay yet: create it.
    Create,
    /// The overlay is on screen: hide it.
    Hide,
    /// The overlay is hidden: show it.
    Show,
}

impl OverlayState {
    /// The state of a new overlay.
    pub fn new() -> (state: OverlayState)
        ensures
            state.show_border,
    {
        OverlayState { show_border: true }
    }

    /// Switches the border on or off and gives the new setting.
    pub fn toggle(&mut self) -> (shown: bool)
        ensures
            shown == !old(self).show_border,
            final(self).show_border == shown,
    {
        self.show_border = !self.show_border;
        self.show_border
    }
}

/// The step for a window that is missing (`None`), visible or hidden.
pub open spec fn visibility_step_for(window: Option<bool>) -> VisibilityStep {
    match window {
        None => VisibilityStep::Create,
        Some(true) => VisibilityStep::Hide,
        Some(false) => VisibilityStep::Show,
    }
}

/// Whether the overlay is on screen once the step is carried out.
pub open spec fn visible_after(step: VisibilityStep) -> bool {
    step != VisibilityStep::Hide
}

/// What toggling the visibility comes to for a window that is missing
/// (`None`), visible (`Some(true)`) or hidden, and whether the overlay is on
/// screen afterwards, which is what the user interface is told.
pub fn toggle_visibility(window: Option<bool>) -> (plan: (VisibilityStep, bool))
    ensures
        plan.0 == visibility_step_for(window),
        plan.1 == visible_after(plan.0),
{
    match window {
        None => (VisibilityStep::Create, true),
        Some(true) => (VisibilityStep::Hide, false),
        Some(false) => (VisibilityStep::Show, true),
    }
}

/// Toggling an existing overlay twice leaves it as visible as it was, and
/// toggling it once never does.
pub proof fn toggling_twice_restores(visible: bool)
    ensures
        visible_after(visibility_step_for(Some(visible))) == !visible,
        visible_after(
            visibility_step_for(Some(visible_after(visibility_step_for(Some(visible))))),
        ) == visible,
{
}

} // verus!
