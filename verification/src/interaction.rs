//! Hover and tap detection for motion elements.
//!
//! Each function takes the current state and the facts about one pointer
//! event (whether it arrives in the bubble phase, which button, whether the
//! pointer is inside the element's painted bounds, whether the last input
//! came from the keyboard) and returns the next state.
//!
//! A press defers hover: while the element is tapped, pointer moves leave
//! the hover state alone, and the release that ends the tap re-evaluates
//! hover from where the pointer is.
use vstd::prelude::*;

verus! {

/// Whether the pointer hovers the element: it is inside, and the last
/// input was not from the keyboard.
pub open spec fn pointer_hovers(keyboard_input: bool, inside: bool) -> bool {
    !keyboard_input && inside
}

/// Hover state after a pointer move: in the bubble phase and with no tap in
/// progress, the element is hovered exactly when the pointer hovers it;
/// otherwise the state is left alone.
pub open spec fn spec_hover_after_move(
    hovering: bool,
    tapping: bool,
    bubble: bool,
    keyboard_input: bool,
    inside: bool,
) -> bool {
    if bubble && !tapping {
        pointer_hovers(keyboard_input, inside)
    } else {
        hovering
    }
}

/// Tap state after a button press: a left-button press inside the element,
/// in the bubble phase, starts a tap; any other press leaves the state
/// alone.
pub open spec fn spec_tap_after_press(tapping: bool, bubble: bool, left_button: bool, inside: bool) -> bool {
    if bubble && left_button && inside {
        true
    } else {
        tapping
    }
}

/// Tap and hover state after a button release: a left-button release in
/// the bubble phase ends the tap wherever the pointer is, and sets hover to
/// whether the pointer is within the element; any other release leaves both
/// alone.
pub open spec fn spec_after_release(
    tapping: bool,
    hovering: bool,
    bubble: bool,
    left_button: bool,
    inside: bool,
) -> (bool, bool) {
    if bubble && left_button {
        (false, inside)
    } else {
        (tapping, hovering)
    }
}

/// Hover state after a pointer move.
pub fn hover_after_move(
    hovering: bool,
    tapping: bool,
    bubble: bool,
    keyboard_input: bool,
    inside: bool,
) -> (h: bool)
    ensures
        h == spec_hover_after_move(hovering, tapping, bubble, keyboard_input, inside),
{
    if !bubble || tapping {
        return hovering;
    }
    !keyboard_input && inside
}

/// Tap state after a button press.
pub fn tap_after_press(tapping: bool, bubble: bool, left_button: bool, inside: bool) -> (t: bool)
    ensures
        t == spec_tap_after_press(tapping, bubble, left_button, inside),
{
    if !bubble || !left_button {
        return tapping;
    }
    if inside {
        true
    } else {
        tapping
    }
}

/// Tap and hover state, in that order, after a button release.
pub fn after_release(
    tapping: bool,
    hovering: bool,
    bubble: bool,
    left_button: bool,
    inside: bool,
) -> (r: (bool, bool))
    ensures
        r == spec_after_release(tapping, hovering, bubble, left_button, inside),
{
    if !bubble || !left_button {
        return (tapping, hovering);
    }
    (false, inside)
}

/// A tap lasts from a left-button press inside the element until the next
/// left-button release, wherever the pointer is then; a press outside never
/// starts one.
pub proof fn lemma_tap_cycle(
    tapping: bool,
    hovering: bool,
    inside: bool,
    inside_at_release: bool,
)
    ensures
        inside ==> spec_tap_after_press(tapping, true, true, inside),
        !tapping && !inside ==> !spec_tap_after_press(tapping, true, true, inside),
        !spec_after_release(
            spec_tap_after_press(tapping, true, true, inside),
            hovering,
            true,
            true,
            inside_at_release,
        ).0,
{
}

/// Hover is deferred during a press: no pointer move changes it while the
/// element is tapped, and the release that ends the tap sets it to whether
/// the pointer is within the element then.
pub proof fn lemma_hover_deferred_during_tap(
    hovering: bool,
    bubble: bool,
    keyboard_input: bool,
    inside: bool,
)
    ensures
        spec_hover_after_move(hovering, true, bubble, keyboard_input, inside) == hovering,
        spec_after_release(true, hovering, true, true, inside) == (false, inside),
{
}

/// Keyboard input ends hovering, and a pointer outside the element does not
/// start hovering it.
pub proof fn lemma_hover_needs_pointer_inside(
    hovering: bool,
    tapping: bool,
    keyboard_input: bool,
    inside: bool,
)
    ensures
        !hovering && spec_hover_after_move(hovering, tapping, true, keyboard_input, inside)
            ==> inside && !keyboard_input,
        !tapping && spec_hover_after_move(hovering, tapping, true, keyboard_input, inside)
            ==> inside && !keyboard_input,
{
}

/// What a pointer move does to hover, in terms of the event alone: in the
/// bubble phase with no tap in progress the element is hovered exactly when
/// the pointer is inside it and the last input was not from the keyboard;
/// otherwise hover is left as it was.
pub proof fn lemma_hover_after_move_exact(
    hovering: bool,
    tapping: bool,
    bubble: bool,
    keyboard_input: bool,
    inside: bool,
)
    ensures
        bubble && !tapping ==> spec_hover_after_move(hovering, tapping, bubble, keyboard_input, inside)
            == (inside && !keyboard_input),
        !bubble || tapping ==> spec_hover_after_move(hovering, tapping, bubble, keyboard_input, inside)
            == hovering,
{
}

/// What a press does to the tap state, in terms of the event alone.
pub proof fn lemma_tap_after_press_exact(tapping: bool, bubble: bool, left_button: bool, inside: bool)
    ensures
        bubble && left_button && inside ==> spec_tap_after_press(tapping, bubble, left_button, inside),
        !(bubble && left_button && inside) ==> spec_tap_after_press(
            tapping,
            bubble,
            left_button,
            inside,
        ) == tapping,
{
}

/// What a release does to the tap and hover states, in terms of the event
/// alone.
pub proof fn lemma_after_release_exact(
    tapping: bool,
    hovering: bool,
    bubble: bool,
    left_button: bool,
    inside: bool,
)
    ensures
        bubble && left_button ==> !spec_after_release(tapping, hovering, bubble, left_button, inside).0
            && spec_after_release(tapping, hovering, bubble, left_button, inside).1 == inside,
        !(bubble && left_button) ==> spec_after_release(tapping, hovering, bubble, left_button, inside)
            == (tapping, hovering),
{
}

} // verus!
