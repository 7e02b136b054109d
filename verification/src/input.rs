use vstd::prelude::*;

verus! {

/// The key presses the terminal intercepts for scrollback viewing; any
/// other input event falls through to raw forwarding.
#[derive(Clone, Copy, PartialEq, Eq, Structural, Debug)]
pub enum KeyPress {
    PageUp,
    PageDown,
    Home,
    End,
    Other,
}

/// What the terminal does with one input event: adjust the scrollback
/// viewport, or forward the event's raw bytes to the attached process.
#[derive(Clone, Copy, PartialEq, Eq, Structural, Debug)]
pub enum InputAction {
    ScrollBackwards,
    ScrollForwards,
    ScrollToBeginning,
    ScrollToEnd,
    Forward,
}

/// The decision of the ordered input-handler chain.
pub open spec fn spec_input_action(k: KeyPress) -> InputAction {
    match k {
        KeyPress::PageUp => InputAction::ScrollBackwards,
        KeyPress::PageDown => InputAction::ScrollForwards,
        KeyPress::Home => InputAction::ScrollToBeginning,
        KeyPress::End => InputAction::ScrollToEnd,
        KeyPress::Other => InputAction::Forward,
    }
}

/// Decides what one input event triggers: the four scrolling intents are
/// intercepted before pass-through; everything else is forwarded verbatim.
pub fn input_action(k: KeyPress) -> (a: InputAction)
    ensures
        a == spec_input_action(k),
{
    match k {
        KeyPress::PageUp => InputAction::ScrollBackwards,
        KeyPress::PageDown => InputAction::ScrollForwards,
        KeyPress::Home => InputAction::ScrollToBeginning,
        KeyPress::End => InputAction::ScrollToEnd,
        KeyPress::Other => InputAction::Forward,
    }
}

} // verus!
