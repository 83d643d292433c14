use mini_ecs::input::ButtonInput;

#[test]
fn press_marks_held_and_just_pressed() {
    let mut keys = ButtonInput::new();
    keys.press(7);
    assert!(keys.held(7));
    assert!(keys.just_pressed(7));
    assert!(!keys.just_released(7));
    assert!(!keys.held(8));
}

#[test]
fn repeated_press_is_not_a_new_press() {
    let mut keys = ButtonInput::new();
    keys.press(7);
    keys.end_frame();
    keys.press(7);
    assert!(keys.held(7));
    assert!(!keys.just_pressed(7));
}

#[test]
fn tap_within_one_frame() {
    let mut mouse = ButtonInput::new();
    mouse.press(0);
    mouse.release(0);
    assert!(!mouse.held(0));
    assert!(mouse.just_pressed(0));
    assert!(mouse.just_released(0));
}

#[test]
fn release_of_button_not_held_changes_nothing() {
    let mut mouse = ButtonInput::new();
    mouse.release(3);
    assert!(!mouse.held(3));
    assert!(!mouse.just_released(3));
}

#[test]
fn end_frame_keeps_held_buttons() {
    let mut keys = ButtonInput::new();
    keys.press(1);
    keys.press(2);
    keys.release(2);
    keys.end_frame();
    assert!(keys.held(1));
    assert!(!keys.just_pressed(1));
    assert!(!keys.held(2));
    assert!(!keys.just_released(2));
    keys.end_frame();
    assert!(keys.held(1));
}

#[test]
fn buttons_do_not_affect_each_other() {
    let mut keys = ButtonInput::new();
    keys.press(1);
    keys.press(2);
    keys.release(1);
    assert!(!keys.held(1));
    assert!(keys.held(2));
    assert!(keys.just_released(1));
    assert!(!keys.just_released(2));
}
