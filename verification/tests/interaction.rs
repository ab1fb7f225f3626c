use gpui_motion::interaction::{after_release, hover_after_move, tap_after_press};

#[test]
fn hover_follows_pointer_in_bubble_phase() {
    assert!(hover_after_move(false, false, true, false, true));
    assert!(!hover_after_move(true, false, true, false, false));
    // Keyboard input clears hover even with the pointer inside.
    assert!(!hover_after_move(true, false, true, true, true));
    // Capture phase leaves the state alone.
    assert!(hover_after_move(true, false, false, false, false));
    assert!(!hover_after_move(false, false, false, false, true));
}

#[test]
fn hover_is_frozen_during_a_press() {
    // Press inside, then a move: hover does not change.
    assert!(!hover_after_move(false, true, true, false, true));
    assert!(hover_after_move(true, true, true, false, false));
}

#[test]
fn tap_starts_on_left_press_inside() {
    assert!(tap_after_press(false, true, true, true));
    assert!(!tap_after_press(false, true, true, false));
    assert!(!tap_after_press(false, true, false, true));
    assert!(!tap_after_press(false, false, true, true));
    // An ongoing tap is not ended by a press outside.
    assert!(tap_after_press(true, true, true, false));
}

#[test]
fn release_ends_tap_and_re_evaluates_hover() {
    // Left release in the bubble phase, pointer inside: tap ends, hovered.
    assert_eq!(after_release(true, false, true, true, true), (false, true));
    // Pointer moved outside during the press: tap ends, not hovered.
    assert_eq!(after_release(true, true, true, true, false), (false, false));
    // Other buttons and the capture phase leave both states alone.
    assert_eq!(after_release(true, false, true, false, true), (true, false));
    assert_eq!(after_release(true, true, false, true, false), (true, true));
}

/// Press inside, move outside while pressed (hover unchanged), release
/// outside: tap ends and hover is re-read as not hovering.
#[test]
fn press_move_release_sequence() {
    let tapping = tap_after_press(false, true, true, true);
    assert!(tapping);
    let hovering = hover_after_move(true, tapping, true, false, false);
    assert!(hovering);
    assert_eq!(after_release(tapping, hovering, true, true, false), (false, false));
}
