//! Remote input: the events a controller sends and their dispatch to the
//! input injector.

use vstd::prelude::*;
use crate::error::CoreError;

verus! {

/// Mouse buttons.
#[derive(Debug, Clone, Copy, PartialEq, Eq, Structural)]
pub enum MouseButton {
    Left,
    Right,
    Middle,
}

/// Modifier keys held with a key event.
#[derive(Debug, Clone, Copy, PartialEq, Eq, Structural)]
pub struct KeyModifiers {
    pub ctrl: bool,
    pub alt: bool,
    pub shift: bool,
    pub meta: bool,
}

/// An input event from the controller.
#[derive(Debug, Clone)]
pub enum InputEvent {
    MouseMove { x: i32, y: i32 },
    MouseClick { button: MouseButton, x: i32, y: i32 },
    MouseWheel { delta_x: i32, delta_y: i32 },
    KeyDown { key: String, modifiers: KeyModifiers },
    KeyUp { key: String, modifiers: KeyModifiers },
    KeyPress { key: String, modifiers: KeyModifiers },
}

/// Keyboard layouts.
#[derive(Debug, Clone, Copy, PartialEq, Eq, Structural)]
pub enum KeyboardLayout {
    US,
    UK,
    DE,
    FR,
    JP,
    CN,
}

/// What the injector was asked to do.
#[derive(Debug, Clone)]
pub enum InjectedInput {
    MouseMove(i32, i32),
    MouseClick(MouseButton, i32, i32),
    MouseWheel(i32, i32),
    KeyDown(String, KeyModifiers),
    KeyUp(String, KeyModifiers),
    KeyPress(String, KeyModifiers),
}

/// The input controller: it turns remote events into injector requests,
/// which the host's injector carries out.
pub struct InputController {
    max_input_delay: u64,
    keyboard_layout: KeyboardLayout,
    injected: Vec<InjectedInput>,
}

impl InputController {
    pub closed spec fn delay_spec(&self) -> u64 {
        self.max_input_delay
    }

    pub closed spec fn layout_spec(&self) -> KeyboardLayout {
        self.keyboard_layout
    }

    /// Requests not yet handed to the injector, oldest first.
    pub closed spec fn injected_spec(&self) -> Seq<InjectedInput> {
        self.injected@
    }

    /// A controller with a 100 ms input-delay bound and a US layout.
    pub fn new() -> (r: Self)
        ensures
            r.delay_spec() == 100,
            r.layout_spec() == KeyboardLayout::US,
            r.injected_spec().len() == 0,
    {
        InputController { max_input_delay: 100, keyboard_layout: KeyboardLayout::US, injected: Vec::new() }
    }

    /// Moves the pointer.
    pub fn send_mouse_move(&mut self, x: i32, y: i32) -> (r: Result<(), CoreError>)
        ensures
            r is Ok,
            final(self).injected_spec() == old(self).injected_spec().push(InjectedInput::MouseMove(x, y)),
            final(self).delay_spec() == old(self).delay_spec(),
            final(self).layout_spec() == old(self).layout_spec(),
    {
        self.injected.push(InjectedInput::MouseMove(x, y));
        Ok(())
    }

    /// Clicks a button.
    pub fn send_mouse_click(&mut self, button: MouseButton, x: i32, y: i32) -> (r: Result<(), CoreError>)
        ensures
            r is Ok,
            final(self).injected_spec() == old(self).injected_spec().push(InjectedInput::MouseClick(button, x, y)),
            final(self).delay_spec() == old(self).delay_spec(),
            final(self).layout_spec() == old(self).layout_spec(),
    {
        self.injected.push(InjectedInput::MouseClick(button, x, y));
        Ok(())
    }

    /// Scrolls.
    pub fn send_mouse_wheel(&mut self, delta_x: i32, delta_y: i32) -> (r: Result<(), CoreError>)
        ensures
            r is Ok,
            final(self).injected_spec() == old(self).injected_spec().push(InjectedInput::MouseWheel(delta_x, delta_y)),
            final(self).delay_spec() == old(self).delay_spec(),
            final(self).layout_spec() == old(self).layout_spec(),
    {
        self.injected.push(InjectedInput::MouseWheel(delta_x, delta_y));
        Ok(())
    }

    /// Presses a key down.
    pub fn send_key_down(&mut self, key: &str, modifiers: KeyModifiers) -> (r: Result<(), CoreError>)
        ensures
            r is Ok,
            final(self).injected_spec().len() == old(self).injected_spec().len() + 1,
            final(self).injected_spec().last() matches InjectedInput::KeyDown(k, m) && k@ == key@ && m == modifiers,
            final(self).delay_spec() == old(self).delay_spec(),
            final(self).layout_spec() == old(self).layout_spec(),
    {
        self.injected.push(InjectedInput::KeyDown(key.to_string(), modifiers));
        Ok(())
    }

    /// Releases a key.
    pub fn send_key_up(&mut self, key: &str, modifiers: KeyModifiers) -> (r: Result<(), CoreError>)
        ensures
            r is Ok,
            final(self).injected_spec().len() == old(self).injected_spec().len() + 1,
            final(self).injected_spec().last() matches InjectedInput::KeyUp(k, m) && k@ == key@ && m == modifiers,
            final(self).delay_spec() == old(self).delay_spec(),
            final(self).layout_spec() == old(self).layout_spec(),
    {
        self.injected.push(InjectedInput::KeyUp(key.to_string(), modifiers));
        Ok(())
    }

    /// Presses and releases a key.
    pub fn send_key_press(&mut self, key: &str, modifiers: KeyModifiers) -> (r: Result<(), CoreError>)
        ensures
            r is Ok,
            final(self).injected_spec().len() == old(self).injected_spec().len() + 1,
            final(self).injected_spec().last() matches InjectedInput::KeyPress(k, m) && k@ == key@ && m == modifiers,
            final(self).delay_spec() == old(self).delay_spec(),
            final(self).layout_spec() == old(self).layout_spec(),
    {
        self.injected.push(InjectedInput::KeyPress(key.to_string(), modifiers));
        Ok(())
    }

    /// Dispatches a remote event to the matching request.
    pub fn process_remote_input(&mut self, input_event: InputEvent) -> (r: Result<(), CoreError>)
        ensures
            r is Ok,
            final(self).injected_spec().len() == old(self).injected_spec().len() + 1,
            (input_event matches InputEvent::MouseMove { x, y }) ==> final(self).injected_spec().last()
                == InjectedInput::MouseMove(input_event->MouseMove_x, input_event->MouseMove_y),
            (input_event is MouseClick) ==> final(self).injected_spec().last() == InjectedInput::MouseClick(
                input_event->MouseClick_button,
                input_event->MouseClick_x,
                input_event->MouseClick_y,
            ),
            (input_event is MouseWheel) ==> final(self).injected_spec().last() == InjectedInput::MouseWheel(
                input_event->MouseWheel_delta_x,
                input_event->MouseWheel_delta_y,
            ),
            (input_event is KeyDown) ==> final(self).injected_spec().last() is KeyDown,
            (input_event is KeyUp) ==> final(self).injected_spec().last() is KeyUp,
            (input_event is KeyPress) ==> final(self).injected_spec().last() is KeyPress,
            final(self).delay_spec() == old(self).delay_spec(),
            final(self).layout_spec() == old(self).layout_spec(),
    {
        match input_event {
            InputEvent::MouseMove { x, y } => self.send_mouse_move(x, y),
            InputEvent::MouseClick { button, x, y } => self.send_mouse_click(button, x, y),
            InputEvent::MouseWheel { delta_x, delta_y } => self.send_mouse_wheel(delta_x, delta_y),
            InputEvent::KeyDown { key, modifiers } => self.send_key_down(key.as_str(), modifiers),
            InputEvent::KeyUp { key, modifiers } => self.send_key_up(key.as_str(), modifiers),
            InputEvent::KeyPress { key, modifiers } => self.send_key_press(key.as_str(), modifiers),
        }
    }

    /// Hands the pending requests to the injector, oldest first.
    pub fn take_injected(&mut self) -> (r: Vec<InjectedInput>)
        ensures
            r@ == old(self).injected_spec(),
            final(self).injected_spec().len() == 0,
            final(self).delay_spec() == old(self).delay_spec(),
            final(self).layout_spec() == old(self).layout_spec(),
    {
        let mut out: Vec<InjectedInput> = Vec::new();
        std::mem::swap(&mut out, &mut self.injected);
        out
    }

    /// Sets the input-delay bound in milliseconds.
    pub fn set_input_delay(&mut self, max_delay: u64)
        ensures
            final(self).delay_spec() == max_delay,
            final(self).layout_spec() == old(self).layout_spec(),
            final(self).injected_spec() == old(self).injected_spec(),
    {
        self.max_input_delay = max_delay;
    }

    /// Sets the keyboard layout.
    pub fn set_keyboard_layout(&mut self, layout: KeyboardLayout)
        ensures
            final(self).layout_spec() == layout,
            final(self).delay_spec() == old(self).delay_spec(),
            final(self).injected_spec() == old(self).injected_spec(),
    {
        self.keyboard_layout = layout;
    }

    /// The keyboard layout in use.
    pub fn detect_keyboard_layout(&self) -> (r: KeyboardLayout)
        ensures
            r == self.layout_spec(),
    {
        self.keyboard_layout
    }

    /// The input-delay bound in milliseconds.
    pub fn get_max_input_delay(&self) -> (r: u64)
        ensures
            r == self.delay_spec(),
    {
        self.max_input_delay
    }
}

} // verus!
