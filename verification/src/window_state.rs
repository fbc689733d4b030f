use std::collections::HashSet;
use vstd::prelude::*;

verus! {

broadcast use vstd::std_specs::hash::group_hash_axioms;

/// The mouse buttons the window keeps track of.
#[derive(Copy, Clone, Debug, PartialEq, Eq, Structural)]
pub enum MouseButton {
    /// The first button (usually the left one).
    Button1,
    /// The second button (usually the right one).
    Button2,
    /// The third button (usually the middle one).
    Button3,
    /// Any other button.
    Other,
}

/// What happened to a button or key.
#[derive(Copy, Clone, Debug, PartialEq, Eq, Structural)]
pub enum Action {
    Press,
    Release,
    Repeat,
}

/// The window events whose effect is not a matter of pixel coordinates.
#[derive(Copy, Clone, Debug, PartialEq, Eq, Structural)]
pub enum WindowEvent {
    MouseButton(MouseButton, Action),
    /// A keyboard key, identified by its key code.
    Key(i32, Action),
    /// The user asked to close the window.
    Close,
    /// Anything else.
    Other,
}

/// What the window must be told to bring it in line with the state.
#[derive(Copy, Clone, Debug, PartialEq, Eq, Structural)]
pub struct WindowUpdates {
    /// Switch between windowed and fullscreen.
    pub toggle_fullscreen: bool,
    /// Apply the requested size.
    pub resize: bool,
    /// Whether the window should close.
    pub should_close: bool,
}

/// The requests and input state that a window carries between frames:
/// fullscreen and resize requests, whether the window should close, which
/// mouse buttons and keys are held down.
pub struct WindowFlags {
    toggle_fullscreen: bool,
    is_fullscreen: bool,
    needs_resized: bool,
    should_close: bool,
    left_button_pressed: bool,
    middle_button_pressed: bool,
    right_button_pressed: bool,
    keyboard_button_pressed: bool,
    pressed_keys: HashSet<i32>,
}

/// The flags as plain values.
pub struct WindowFlagsView {
    pub toggle_fullscreen: bool,
    pub is_fullscreen: bool,
    pub needs_resized: bool,
    pub should_close: bool,
    pub left_button_pressed: bool,
    pub middle_button_pressed: bool,
    pub right_button_pressed: bool,
    pub keyboard_button_pressed: bool,
    pub pressed_keys: Set<i32>,
}

impl View for WindowFlags {
    type V = WindowFlagsView;

    closed spec fn view(&self) -> WindowFlagsView {
        WindowFlagsView {
            toggle_fullscreen: self.toggle_fullscreen,
            is_fullscreen: self.is_fullscreen,
            needs_resized: self.needs_resized,
            should_close: self.should_close,
            left_button_pressed: self.left_button_pressed,
            middle_button_pressed: self.middle_button_pressed,
            right_button_pressed: self.right_button_pressed,
            keyboard_button_pressed: self.keyboard_button_pressed,
            pressed_keys: self.pressed_keys@,
        }
    }
}

/// The flags after `event`: button presses and releases set and clear the
/// button's flag, key presses and releases set and clear the keyboard flag
/// and add or remove the key, a close request sets the close flag; anything
/// else changes nothing.
pub open spec fn after_event(flags: WindowFlagsView, event: WindowEvent) -> WindowFlagsView {
    match event {
        WindowEvent::MouseButton(button, Action::Press) => match button {
            MouseButton::Button1 => WindowFlagsView { left_button_pressed: true, ..flags },
            MouseButton::Button2 => WindowFlagsView { right_button_pressed: true, ..flags },
            MouseButton::Button3 => WindowFlagsView { middle_button_pressed: true, ..flags },
            MouseButton::Other => flags,
        },
        WindowEvent::MouseButton(button, Action::Release) => match button {
            MouseButton::Button1 => WindowFlagsView { left_button_pressed: false, ..flags },
            MouseButton::Button2 => WindowFlagsView { right_button_pressed: false, ..flags },
            MouseButton::Button3 => WindowFlagsView { middle_button_pressed: false, ..flags },
            MouseButton::Other => flags,
        },
        WindowEvent::Key(key, Action::Press) => WindowFlagsView {
            keyboard_button_pressed: true,
            pressed_keys: flags.pressed_keys.insert(key),
            ..flags
        },
        WindowEvent::Key(key, Action::Release) => WindowFlagsView {
            keyboard_button_pressed: false,
            pressed_keys: flags.pressed_keys.remove(key),
            ..flags
        },
        WindowEvent::Close => WindowFlagsView { should_close: true, ..flags },
        _ => flags,
    }
}

impl WindowFlags {
    /// The flags of a window that was just opened: no request pending, no
    /// button or key down.
    pub fn new(is_fullscreen: bool, should_close: bool) -> (flags: Self)
        ensures
            flags@ == (WindowFlagsView {
                toggle_fullscreen: false,
                is_fullscreen,
                needs_resized: false,
                should_close,
                left_button_pressed: false,
                middle_button_pressed: false,
                right_button_pressed: false,
                keyboard_button_pressed: false,
                pressed_keys: Set::empty(),
            }),
    {
        WindowFlags {
            toggle_fullscreen: false,
            is_fullscreen,
            needs_resized: false,
            should_close,
            left_button_pressed: false,
            middle_button_pressed: false,
            right_button_pressed: false,
            keyboard_button_pressed: false,
            pressed_keys: HashSet::with_capacity(26),
        }
    }

    /// Ask for the window to close, or not.
    pub fn set_should_close(&mut self, should_close: bool)
        ensures
            final(self)@ == (WindowFlagsView { should_close, ..old(self)@ }),
    {
        self.should_close = should_close;
    }

    /// Ask for the window to take the size that was set.
    pub fn request_resize(&mut self)
        ensures
            final(self)@ == (WindowFlagsView { needs_resized: true, ..old(self)@ }),
    {
        self.needs_resized = true;
    }

    /// Ask for the window to switch between windowed and fullscreen.
    pub fn toggle_fullscreen(&mut self)
        ensures
            final(self)@ == (WindowFlagsView { toggle_fullscreen: true, ..old(self)@ }),
    {
        self.toggle_fullscreen = true;
    }

    /// Record whether the window is now fullscreen.
    pub fn set_fullscreen(&mut self, is_fullscreen: bool)
        ensures
            final(self)@ == (WindowFlagsView { is_fullscreen, ..old(self)@ }),
    {
        self.is_fullscreen = is_fullscreen;
    }

    /// Take in a window event.
    pub fn handle_event(&mut self, event: WindowEvent)
        ensures
            final(self)@ == after_event(old(self)@, event),
    {
        match event {
            WindowEvent::MouseButton(button, Action::Press) => match button {
                MouseButton::Button1 => self.left_button_pressed = true,
                MouseButton::Button2 => self.right_button_pressed = true,
                MouseButton::Button3 => self.middle_button_pressed = true,
                MouseButton::Other => {},
            },
            WindowEvent::MouseButton(button, Action::Release) => match button {
                MouseButton::Button1 => self.left_button_pressed = false,
                MouseButton::Button2 => self.right_button_pressed = false,
                MouseButton::Button3 => self.middle_button_pressed = false,
                MouseButton::Other => {},
            },
            WindowEvent::Key(key, Action::Press) => {
                self.keyboard_button_pressed = true;
                self.pressed_keys.insert(key);
            },
            WindowEvent::Key(key, Action::Release) => {
                self.keyboard_button_pressed = false;
                self.pressed_keys.remove(&key);
            },
            WindowEvent::Close => {
                self.should_close = true;
            },
            _ => {},
        }
    }

    /// What the window must be told, once per frame. The fullscreen and
    /// resize requests are consumed.
    pub fn take_window_updates(&mut self) -> (updates: WindowUpdates)
        ensures
            updates == (WindowUpdates {
                toggle_fullscreen: old(self)@.toggle_fullscreen,
                resize: old(self)@.needs_resized,
                should_close: old(self)@.should_close,
            }),
            final(self)@ == (WindowFlagsView {
                toggle_fullscreen: false,
                needs_resized: false,
                ..old(self)@
            }),
    {
        let updates = WindowUpdates {
            toggle_fullscreen: self.toggle_fullscreen,
            resize: self.needs_resized,
            should_close: self.should_close,
        };
        self.toggle_fullscreen = false;
        self.needs_resized = false;
        updates
    }

    pub fn is_fullscreen(&self) -> (b: bool)
        ensures
            b == self@.is_fullscreen,
    {
        self.is_fullscreen
    }

    pub fn should_close(&self) -> (b: bool)
        ensures
            b == self@.should_close,
    {
        self.should_close
    }

    pub fn left_button_pressed(&self) -> (b: bool)
        ensures
            b == self@.left_button_pressed,
    {
        self.left_button_pressed
    }

    pub fn middle_button_pressed(&self) -> (b: bool)
        ensures
            b == self@.middle_button_pressed,
    {
        self.middle_button_pressed
    }

    pub fn right_button_pressed(&self) -> (b: bool)
        ensures
            b == self@.right_button_pressed,
    {
        self.right_button_pressed
    }

    pub fn keyboard_button_pressed(&self) -> (b: bool)
        ensures
            b == self@.keyboard_button_pressed,
    {
        self.keyboard_button_pressed
    }

    /// Whether the key with the given code is held down.
    pub fn is_key_pressed(&self, key: i32) -> (b: bool)
        ensures
            b == self@.pressed_keys.contains(key),
    {
        self.pressed_keys.contains(&key)
    }
}

/// Pressing a key and releasing it again leaves the set of held keys as it
/// was, when the key was not held before.
pub proof fn law_press_release_key(flags: WindowFlagsView, key: i32)
    requires
        !flags.pressed_keys.contains(key),
    ensures
        after_event(
            after_event(flags, WindowEvent::Key(key, Action::Press)),
            WindowEvent::Key(key, Action::Release),
        ).pressed_keys == flags.pressed_keys,
{
    assert(flags.pressed_keys.insert(key).remove(key) =~= flags.pressed_keys);
}

/// A mouse-button press marks that button, and only that button, as held
/// down; a release marks it as up again; a repeat changes nothing. Button 1
/// is the left button, button 2 the right one, button 3 the middle one;
/// other buttons and the rest of the state are left alone.
pub proof fn law_button_events_set_their_own_flag(
    flags: WindowFlagsView,
    button: MouseButton,
    action: Action,
)
    ensures
        ({
            let after = after_event(flags, WindowEvent::MouseButton(button, action));
            &&& after.left_button_pressed == if button == MouseButton::Button1
                && action != Action::Repeat {
                action == Action::Press
            } else {
                flags.left_button_pressed
            }
            &&& after.right_button_pressed == if button == MouseButton::Button2
                && action != Action::Repeat {
                action == Action::Press
            } else {
                flags.right_button_pressed
            }
            &&& after.middle_button_pressed == if button == MouseButton::Button3
                && action != Action::Repeat {
                action == Action::Press
            } else {
                flags.middle_button_pressed
            }
            &&& after.keyboard_button_pressed == flags.keyboard_button_pressed
            &&& after.pressed_keys == flags.pressed_keys
            &&& after.should_close == flags.should_close
            &&& after.is_fullscreen == flags.is_fullscreen
            &&& after.toggle_fullscreen == flags.toggle_fullscreen
            &&& after.needs_resized == flags.needs_resized
        }),
{
}

/// A key press marks that key as held and the keyboard as in use; a release
/// marks that key as up and the keyboard as not in use; a repeat changes
/// nothing. Other keys stay as they were. A close request always asks the
/// window to close.
pub proof fn law_key_and_close_events(flags: WindowFlagsView, key: i32, other: i32, action: Action)
    requires
        other != key,
    ensures
        ({
            let after = after_event(flags, WindowEvent::Key(key, action));
            &&& action != Action::Repeat ==> after.pressed_keys.contains(key) == (action
                == Action::Press)
            &&& action != Action::Repeat ==> after.keyboard_button_pressed == (action
                == Action::Press)
            &&& action == Action::Repeat ==> after == flags
            &&& after.pressed_keys.contains(other) == flags.pressed_keys.contains(other)
            &&& after.left_button_pressed == flags.left_button_pressed
            &&& after.right_button_pressed == flags.right_button_pressed
            &&& after.middle_button_pressed == flags.middle_button_pressed
            &&& after.should_close == flags.should_close
        }),
        after_event(flags, WindowEvent::Close).should_close,
{
}

/// Pressing and releasing a mouse button leaves its flag cleared.
pub proof fn law_press_release_button(flags: WindowFlagsView, button: MouseButton)
    ensures
        ({
            let after = after_event(
                after_event(flags, WindowEvent::MouseButton(button, Action::Press)),
                WindowEvent::MouseButton(button, Action::Release),
            );
            match button {
                MouseButton::Button1 => !after.left_button_pressed,
                MouseButton::Button2 => !after.right_button_pressed,
                MouseButton::Button3 => !after.middle_button_pressed,
                MouseButton::Other => after == flags,
            }
        }),
{
}

/// A request is carried out once: after the updates are taken, taking them
/// again asks for no fullscreen switch and no resize, and still tells
/// whether the window should close.
pub proof fn law_updates_taken_once(
    before: WindowFlagsView,
    middle: WindowFlagsView,
    second: WindowUpdates,
)
    requires
        middle == (WindowFlagsView { toggle_fullscreen: false, needs_resized: false, ..before }),
        second == (WindowUpdates {
            toggle_fullscreen: middle.toggle_fullscreen,
            resize: middle.needs_resized,
            should_close: middle.should_close,
        }),
    ensures
        !second.toggle_fullscreen,
        !second.resize,
        second.should_close == before.should_close,
{
}

} // verus!
