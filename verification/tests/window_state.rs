use sim2d::window_state::{Action, MouseButton, WindowEvent, WindowFlags, WindowUpdates};

#[test]
fn buttons_and_keys_are_tracked() {
    let mut flags = WindowFlags::new(false, false);
    flags.handle_event(WindowEvent::MouseButton(MouseButton::Button1, Action::Press));
    flags.handle_event(WindowEvent::MouseButton(MouseButton::Button3, Action::Press));
    assert!(flags.left_button_pressed());
    assert!(flags.middle_button_pressed());
    assert!(!flags.right_button_pressed());
    flags.handle_event(WindowEvent::MouseButton(MouseButton::Button1, Action::Release));
    assert!(!flags.left_button_pressed());
    flags.handle_event(WindowEvent::MouseButton(MouseButton::Button2, Action::Repeat));
    assert!(!flags.right_button_pressed());

    flags.handle_event(WindowEvent::Key(65, Action::Press));
    flags.handle_event(WindowEvent::Key(66, Action::Press));
    assert!(flags.keyboard_button_pressed());
    assert!(flags.is_key_pressed(65));
    flags.handle_event(WindowEvent::Key(65, Action::Release));
    assert!(!flags.keyboard_button_pressed());
    assert!(!flags.is_key_pressed(65));
    assert!(flags.is_key_pressed(66));
    flags.handle_event(WindowEvent::Key(66, Action::Repeat));
    assert!(!flags.keyboard_button_pressed());
}

#[test]
fn requests_are_taken_once() {
    let mut flags = WindowFlags::new(false, false);
    flags.toggle_fullscreen();
    flags.request_resize();
    assert_eq!(
        flags.take_window_updates(),
        WindowUpdates { toggle_fullscreen: true, resize: true, should_close: false }
    );
    assert_eq!(
        flags.take_window_updates(),
        WindowUpdates { toggle_fullscreen: false, resize: false, should_close: false }
    );
    flags.handle_event(WindowEvent::Close);
    assert!(flags.should_close());
    flags.set_should_close(false);
    assert!(!flags.should_close());
    flags.set_fullscreen(true);
    assert!(flags.is_fullscreen());
    flags.handle_event(WindowEvent::Other);
    assert!(flags.is_fullscreen());
}
