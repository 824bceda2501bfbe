use gl_bootstrap::input::{Input, ESCAPE};

#[test]
fn quit_ends_the_loop() {
    assert!(Input::Quit.is_quit());
}

#[test]
fn escape_going_down_ends_the_loop() {
    assert_eq!(ESCAPE, 27);
    assert!(Input::KeyDown { keycode: Some(27) }.is_quit());
}

#[test]
fn another_key_does_not_end_the_loop() {
    assert!(!Input::KeyDown { keycode: Some(26) }.is_quit());
    assert!(!Input::KeyDown { keycode: Some(28) }.is_quit());
    assert!(!Input::KeyDown { keycode: Some(0) }.is_quit());
    assert!(!Input::KeyDown { keycode: Some(-27) }.is_quit());
    assert!(!Input::KeyDown { keycode: Some(i32::MAX) }.is_quit());
}

#[test]
fn a_key_without_a_code_does_not_end_the_loop() {
    assert!(!Input::KeyDown { keycode: None }.is_quit());
}

#[test]
fn other_events_do_not_end_the_loop() {
    assert!(!Input::Other.is_quit());
}
