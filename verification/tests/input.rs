use egor::input::ElementState::{Pressed, Released};
use egor::input::{Input, MouseButton, TouchPhase};
use egor::keyboard::KeyCode;

#[test]
fn key_press_and_release_behavior() {
    // test key press -> hold -> release flow
    let mut input = Input::default();
    input.inject_key(KeyCode::Space, Pressed);
    assert!(input.key_pressed(KeyCode::Space));
    assert!(input.key_held(KeyCode::Space));
    assert!(!input.key_released(KeyCode::Space));

    input.end_frame(); // clears pressed flag
    assert!(!input.key_pressed(KeyCode::Space));
    assert!(input.key_held(KeyCode::Space));

    input.inject_key(KeyCode::Space, Released);
    assert!(input.key_released(KeyCode::Space));
    assert!(!input.key_held(KeyCode::Space));

    input.end_frame(); // drops released key from map
    assert!(!input.key_held(KeyCode::Space));
    assert!(!input.key_released(KeyCode::Space));
}

#[test]
fn mouse_button_and_cursor() {
    // test mouse press; the cursor position and delta are kept by the frame loop
    let mut input = Input::default();
    input.inject_mouse_button(MouseButton::Left, Pressed);
    assert!(input.mouse_pressed(MouseButton::Left));
    assert!(input.mouse_held(MouseButton::Left));
    assert!(!input.mouse_released(MouseButton::Left));

    input.end_frame();
    assert!(!input.mouse_pressed(MouseButton::Left));
    assert!(input.mouse_held(MouseButton::Left));
}

#[test]
fn end_frame_cleans_released_keys_and_resets_mouse_delta() {
    // confirms end_frame clears out released input
    let mut input = Input::default();

    input.inject_key(KeyCode::KeyA, Pressed);
    input.inject_key(KeyCode::KeyB, Released);
    input.inject_mouse_button(MouseButton::Right, Released);

    input.end_frame();

    assert!(input.key_held(KeyCode::KeyA));
    assert!(!input.key_held(KeyCode::KeyB));
    assert!(!input.mouse_held(MouseButton::Right));
    assert!(!input.key_released(KeyCode::KeyB));
    assert!(!input.mouse_released(MouseButton::Right));
}

#[test]
fn multiple_keys_and_buttons() {
    // tests helpers that check multiple keys/buttons at once
    let mut input = Input::default();

    input.inject_key(KeyCode::KeyA, Pressed);
    input.inject_key(KeyCode::KeyB, Pressed);
    input.inject_mouse_button(MouseButton::Left, Pressed);
    input.inject_mouse_button(MouseButton::Right, Released);

    assert!(input.keys_pressed(&[KeyCode::KeyA, KeyCode::KeyX]));
    assert!(input.all_keys_pressed(&[KeyCode::KeyA, KeyCode::KeyB]));
    assert!(!input.all_keys_pressed(&[KeyCode::KeyA, KeyCode::KeyX]));

    assert!(input.mouse_pressed(MouseButton::Left));
    assert!(!input.mouse_pressed(MouseButton::Right));
}

#[test]
fn no_false_positives_for_untracked_keys_and_buttons() {
    // keys/buttons not touched shouldn't be considered active
    let input = Input::default();

    assert!(!input.key_pressed(KeyCode::KeyZ));
    assert!(!input.key_held(KeyCode::KeyZ));
    assert!(!input.key_released(KeyCode::KeyZ));

    assert!(!input.mouse_pressed(MouseButton::Middle));
    assert!(!input.mouse_held(MouseButton::Middle));
    assert!(!input.mouse_released(MouseButton::Middle));
}

#[test]
fn rapid_press_release_press_sequence() {
    // catch edge case where a key is released & pressed again in same frame
    let mut input = Input::default();

    input.inject_key(KeyCode::KeyX, Pressed);
    assert!(input.key_pressed(KeyCode::KeyX));
    input.end_frame();

    input.inject_key(KeyCode::KeyX, Released);
    assert!(input.key_released(KeyCode::KeyX));

    input.inject_key(KeyCode::KeyX, Pressed); // re-press in same frame
    assert!(input.key_pressed(KeyCode::KeyX));
    assert!(input.key_held(KeyCode::KeyX));
    assert!(!input.key_released(KeyCode::KeyX));
}

#[test]
fn key_events_do_not_leak_between_keys() {
    let mut input = Input::default();
    input.update_key(KeyCode::ArrowLeft, Pressed);
    assert!(input.key_held(KeyCode::ArrowLeft));
    assert!(!input.key_held(KeyCode::ArrowRight));
    assert!(!input.key_held(KeyCode::F35));
    assert!(!input.mouse_held(MouseButton::Left));
}

#[test]
fn other_mouse_buttons_are_distinct() {
    let mut input = Input::default();
    input.update_mouse_button(MouseButton::Other(0), Pressed);
    assert!(input.mouse_held(MouseButton::Other(0)));
    assert!(!input.mouse_held(MouseButton::Other(1)));
    assert!(!input.mouse_held(MouseButton::Left));
    assert!(!input.mouse_held(MouseButton::Forward));
}

#[test]
fn any_and_all_key_queries() {
    let mut input = Input::default();
    input.inject_key(KeyCode::KeyW, Pressed);
    input.end_frame();
    input.inject_key(KeyCode::KeyS, Released);
    assert!(input.keys_held(&[KeyCode::KeyA, KeyCode::KeyW]));
    assert!(!input.keys_held(&[KeyCode::KeyA, KeyCode::KeyD]));
    assert!(input.all_keys_held(&[KeyCode::KeyW]));
    assert!(!input.all_keys_held(&[KeyCode::KeyW, KeyCode::KeyS]));
    assert!(input.keys_released(&[KeyCode::KeyS]));
    assert!(input.all_keys_released(&[KeyCode::KeyS]));
    assert!(!input.all_keys_released(&[KeyCode::KeyS, KeyCode::KeyW]));
    assert!(!input.keys_pressed(&[KeyCode::KeyW, KeyCode::KeyS]));
    // empty slices: no key is in it, every key in it holds
    assert!(!input.keys_pressed(&[]));
    assert!(input.all_keys_pressed(&[]));
}

#[test]
fn end_frame_twice_changes_nothing_more() {
    let mut input = Input::default();
    input.inject_key(KeyCode::Enter, Pressed);
    input.inject_key(KeyCode::Escape, Released);
    input.end_frame();
    input.end_frame();
    assert!(input.key_held(KeyCode::Enter));
    assert!(!input.key_pressed(KeyCode::Enter));
    assert!(!input.key_released(KeyCode::Escape));
}

#[test]
fn touches_are_tracked_and_finished_ones_dropped() {
    let mut input = Input::default();
    assert!(!input.is_touched());
    assert!(!input.update_touch(7, TouchPhase::Started));
    assert!(!input.update_touch(9, TouchPhase::Started));
    assert_eq!(input.touch_count(), 2);
    assert_eq!(input.touch(7), Some(TouchPhase::Started));
    input.update_touch(7, TouchPhase::Ended);
    assert_eq!(input.touch(7), Some(TouchPhase::Ended));
    let mut all = input.touches();
    all.sort_by_key(|t| t.0);
    assert_eq!(all, vec![(7, TouchPhase::Ended), (9, TouchPhase::Started)]);
    input.end_frame();
    assert_eq!(input.touch(7), None);
    assert_eq!(input.touch(9), Some(TouchPhase::Started));
    assert_eq!(input.touch_count(), 1);
    assert!(input.is_touched());
}

#[test]
fn primary_touch_simulates_left_button() {
    let mut input = Input::default();
    input.set_simulate_mouse_with_touch(true);
    assert!(input.simulate_mouse_with_touch());
    assert!(input.update_touch(3, TouchPhase::Started)); // becomes primary, cursor moves
    assert!(input.mouse_pressed(MouseButton::Left));
    assert!(!input.update_touch(4, TouchPhase::Started)); // second finger is not primary
    assert!(input.update_touch(3, TouchPhase::Moved));
    assert!(!input.update_touch(4, TouchPhase::Moved));
    assert!(!input.update_touch(4, TouchPhase::Ended));
    assert!(input.mouse_held(MouseButton::Left));
    assert!(input.update_touch(3, TouchPhase::Cancelled));
    assert!(input.mouse_released(MouseButton::Left));
    // a new touch can become primary again
    assert!(input.update_touch(5, TouchPhase::Started));
}

#[test]
fn mouse_simulates_touch_zero() {
    let mut input = Input::default();
    // disabled: nothing recorded
    assert!(!input.simulate_touch_from_mouse(MouseButton::Left, Pressed));
    assert_eq!(input.touch(0), None);
    input.set_simulate_touch_with_mouse(true);
    assert!(input.simulate_touch_with_mouse());
    assert!(!input.simulate_touch_move_from_mouse()); // no active simulated touch yet
    assert!(!input.simulate_touch_from_mouse(MouseButton::Right, Pressed));
    assert!(input.simulate_touch_from_mouse(MouseButton::Left, Pressed));
    assert_eq!(input.touch(0), Some(TouchPhase::Started));
    assert!(input.simulate_touch_move_from_mouse());
    assert_eq!(input.touch(0), Some(TouchPhase::Moved));
    assert!(input.simulate_touch_from_mouse(MouseButton::Left, Released));
    assert_eq!(input.touch(0), Some(TouchPhase::Ended));
    assert!(!input.simulate_touch_move_from_mouse());
}

#[test]
fn key_codes_have_distinct_indices() {
    assert_eq!(KeyCode::Backquote.index(), 0);
    assert_eq!(KeyCode::F35.index(), egor::keyboard::KEY_CODE_COUNT - 1);
    assert_ne!(KeyCode::KeyA.index(), KeyCode::KeyB.index());
    assert_eq!(MouseButton::Other(3).id(), 8);
    assert_eq!(MouseButton::Forward.id(), 4);
}

#[test]
fn touched_follows_touch_count_across_frames() {
    let mut input = Input::default();
    assert!(!input.is_touched());
    input.update_touch(3, TouchPhase::Started);
    input.update_touch(4, TouchPhase::Ended);
    assert!(input.is_touched());
    assert_eq!(input.touch_count(), 2);
    input.end_frame();
    assert_eq!(input.touch_count(), 1);
    assert!(input.is_touched());
    input.update_touch(3, TouchPhase::Cancelled);
    input.end_frame();
    assert_eq!(input.touch_count(), 0);
    assert!(!input.is_touched());
}
