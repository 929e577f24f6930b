//! The decisions of the transparent overlay window that shows the lens.

use vstd::prelude::*;

verus! {

/// A window message as the overlay window sees it.
#[derive(Clone, Copy, Debug, PartialEq, Eq, Structural)]
pub enum OverlayEvent {
    /// The system asks which part of the window is under the cursor.
    HitTest,
    /// The registered hot key (Escape) was pressed.
    HotKey,
    Destroy,
    /// Any other message.
    Other,
}

/// What the overlay's window procedure does.
#[derive(Clone, Copy, Debug, PartialEq, Eq, Structural)]
pub enum OverlayAction {
    /// Answer that the window is transparent to the mouse, so that clicks
    /// reach the windows below it.
    Transparent,
    /// Destroy the window, then answer 0.
    DestroyWindow,
    /// Post the quit message that ends the message loop, then answer 0.
    Quit,
    /// Leave the message to the default window procedure.
    PassToDefault,
}

pub open spec fn spec_overlay_action(e: OverlayEvent) -> OverlayAction {
    match e {
        OverlayEvent::HitTest => OverlayAction::Transparent,
        OverlayEvent::HotKey => OverlayAction::DestroyWindow,
        OverlayEvent::Destroy => OverlayAction::Quit,
        OverlayEvent::Other => OverlayAction::PassToDefault,
    }
}

/// Decides how the overlay answers a message.
pub fn overlay_action(e: OverlayEvent) -> (a: OverlayAction)
    ensures
        a == spec_overlay_action(e),
{
    match e {
        OverlayEvent::HitTest => OverlayAction::Transparent,
        OverlayEvent::HotKey => OverlayAction::DestroyWindow,
        OverlayEvent::Destroy => OverlayAction::Quit,
        OverlayEvent::Other => OverlayAction::PassToDefault,
    }
}

/// The overlay lets the mouse through to the windows below it, closes on the
/// hot key, ends the program when it is destroyed, and leaves every other
/// message to the default window procedure.
pub proof fn lemma_overlay_answers(e: OverlayEvent)
    ensures
        spec_overlay_action(OverlayEvent::HitTest) == OverlayAction::Transparent,
        spec_overlay_action(OverlayEvent::HotKey) == OverlayAction::DestroyWindow,
        spec_overlay_action(OverlayEvent::Destroy) == OverlayAction::Quit,
        spec_overlay_action(OverlayEvent::Other) == OverlayAction::PassToDefault,
        spec_overlay_action(e) == OverlayAction::Quit <==> e == OverlayEvent::Destroy,
{
}

} // verus!
