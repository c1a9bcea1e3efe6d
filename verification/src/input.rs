//! Input translation: maps low-level platform events onto a stable,
//! renderer-agnostic action vocabulary.
//!
//! The translator is a pure function: one platform event yields zero or
//! one semantic actions, never more, and equal events always yield equal
//! results. Continuous direction input is intentional: a key repeat
//! produces the same action as the initial press.

use vstd::prelude::*;

verus! {

/// The keyboard keys the translator distinguishes. Every other key is
/// collapsed into `Other`, which never produces an action.
#[derive(Clone, Copy, Debug, PartialEq, Eq, Structural)]
pub enum Key {
    Escape,
    Space,
    A,
    D,
    W,
    S,
    F,
    R,
    Other,
}

/// What happened to a key or mouse button.
#[derive(Clone, Copy, Debug, PartialEq, Eq, Structural)]
pub enum KeyAction {
    Press,
    Release,
    Repeat,
}

/// Modifier keys held while a key event was delivered.
#[derive(Clone, Copy, Debug, PartialEq, Eq, Structural)]
pub struct Modifiers {
    pub shift: bool,
    pub control: bool,
    pub alt: bool,
    pub super_key: bool,
    pub caps_lock: bool,
    pub num_lock: bool,
}

impl Modifiers {
    /// True when no modifier at all is held.
    pub open spec fn spec_is_empty(&self) -> bool {
        !self.shift && !self.control && !self.alt && !self.super_key && !self.caps_lock
            && !self.num_lock
    }

    /// True when shift is held and nothing else.
    pub open spec fn spec_shift_only(&self) -> bool {
        self.shift && !self.control && !self.alt && !self.super_key && !self.caps_lock
            && !self.num_lock
    }

    /// The modifier set with nothing held.
    pub fn none() -> (r: Self)
        ensures
            r.spec_is_empty(),
    {
        Modifiers {
            shift: false,
            control: false,
            alt: false,
            super_key: false,
            caps_lock: false,
            num_lock: false,
        }
    }

    pub fn is_empty(&self) -> (r: bool)
        ensures
            r == self.spec_is_empty(),
    {
        !self.shift && !self.control && !self.alt && !self.super_key && !self.caps_lock
            && !self.num_lock
    }

    pub fn shift_only(&self) -> (r: bool)
        ensures
            r == self.spec_shift_only(),
    {
        self.shift && !self.control && !self.alt && !self.super_key && !self.caps_lock
            && !self.num_lock
    }
}

/// Which mouse button a platform event concerns. Only the primary button
/// is mapped to an action; every other button is `Other`.
#[derive(Clone, Copy, Debug, PartialEq, Eq, Structural)]
pub enum MouseButton {
    Button1,
    Other,
}

/// A raw platform event, as delivered by the window layer.
///
/// Scalar payloads that the platform delivers in a floating-point pixel
/// space are carried as the IEEE 754 single-precision bit patterns of
/// those values (`*_bits` fields); the translator forwards them without
/// reading them.
#[derive(Clone, Copy, Debug, PartialEq, Eq, Structural)]
pub enum PlatformEvent {
    /// The user asked to close the window.
    Close,
    /// A keyboard key changed state.
    Key { key: Key, action: KeyAction, mods: Modifiers },
    /// A mouse button changed state.
    MouseButton { button: MouseButton, action: KeyAction },
    /// The cursor moved to a position, in floating-point pixel space.
    CursorPos { x_bits: u32, y_bits: u32 },
    /// The framebuffer was resized.
    FramebufferSize { width: u32, height: u32 },
    /// The scroll wheel moved; only the vertical amount is mapped.
    Scroll { x_bits: u32, amount_bits: u32 },
    /// Any event the translator does not look at.
    Other,
}

/// A platform-independent input action consumed by pipelines.
#[derive(Clone, Copy, Debug, PartialEq, Eq, Structural)]
pub enum InputAction {
    /// Quit the application.
    Quit,
    /// Primary action pressed. Typically used to fire, select an object, etc.
    PrimaryPressed,
    /// Primary action released.
    PrimaryReleased,
    /// Main action. Typically switches an effect on and off.
    MainToggle,
    /// Auxiliary action. Often toggles smaller parts of a bigger effect.
    AuxiliaryToggle,
    /// Forward direction.
    Forward,
    /// Backward direction.
    Backward,
    /// Left direction.
    Left,
    /// Right direction.
    Right,
    /// Up direction.
    Up,
    /// Down direction.
    Down,
    /// Cursor moved, coordinates as IEEE 754 single-precision bit patterns.
    CursorMoved { x_bits: u32, y_bits: u32 },
    /// Framebuffer size changed.
    Resized { width: u32, height: u32 },
    /// Vertical scrolling, amount as an IEEE 754 single-precision bit pattern.
    VScroll { amount_bits: u32 },
}

/// Feedback a pipeline hands back to the frame driver after a frame.
#[derive(Copy, Clone, Debug, Eq, Hash, PartialEq)]
pub enum LoopFeedback<T> {
    Continue(T),
    Exit,
}

/// The full translation policy, as one total function over events.
///
/// Window close or an Escape release quits. A Space release toggles the
/// main effect with no modifiers held, the auxiliary one with shift alone,
/// and is suppressed under any other modifier combination. A press or
/// repeat of A/D/W/S/F/R moves left/right/forward/backward/up/down; any
/// other key press is suppressed. The primary mouse button maps to
/// pressed/released. Cursor moves, resizes and scrolls carry their payload
/// through. Everything else is suppressed.
pub open spec fn translate_spec(event: PlatformEvent) -> Option<InputAction> {
    match event {
        PlatformEvent::Close => Some(InputAction::Quit),
        PlatformEvent::Key { key, action, mods } => match action {
            KeyAction::Release => match key {
                Key::Escape => Some(InputAction::Quit),
                Key::Space => if mods.spec_is_empty() {
                    Some(InputAction::MainToggle)
                } else if mods.spec_shift_only() {
                    Some(InputAction::AuxiliaryToggle)
                } else {
                    None
                },
                _ => None,
            },
            KeyAction::Press | KeyAction::Repeat => match key {
                Key::A => Some(InputAction::Left),
                Key::D => Some(InputAction::Right),
                Key::W => Some(InputAction::Forward),
                Key::S => Some(InputAction::Backward),
                Key::F => Some(InputAction::Up),
                Key::R => Some(InputAction::Down),
                _ => None,
            },
        },
        PlatformEvent::MouseButton { button, action } => match (button, action) {
            (MouseButton::Button1, KeyAction::Press) => Some(InputAction::PrimaryPressed),
            (MouseButton::Button1, KeyAction::Release) => Some(InputAction::PrimaryReleased),
            _ => None,
        },
        PlatformEvent::CursorPos { x_bits, y_bits } => Some(
            InputAction::CursorMoved { x_bits, y_bits },
        ),
        PlatformEvent::FramebufferSize { width, height } => Some(
            InputAction::Resized { width, height },
        ),
        PlatformEvent::Scroll { x_bits: _, amount_bits } => Some(
            InputAction::VScroll { amount_bits },
        ),
        PlatformEvent::Other => None,
    }
}

/// Translate one platform event into at most one semantic action,
/// exactly as `translate_spec` lays the policy down.
pub fn adapt_events(event: PlatformEvent) -> (r: Option<InputAction>)
    ensures
        r == translate_spec(event),
{
    match event {
        PlatformEvent::Close => Some(InputAction::Quit),
        PlatformEvent::Key { key, action, mods } => match action {
            KeyAction::Release => match key {
                Key::Escape => Some(InputAction::Quit),
                Key::Space => if mods.is_empty() {
                    Some(InputAction::MainToggle)
                } else if mods.shift_only() {
                    Some(InputAction::AuxiliaryToggle)
                } else {
                    None
                },
                _ => None,
            },
            KeyAction::Press | KeyAction::Repeat => match key {
                Key::A => Some(InputAction::Left),
                Key::D => Some(InputAction::Right),
                Key::W => Some(InputAction::Forward),
                Key::S => Some(InputAction::Backward),
                Key::F => Some(InputAction::Up),
                Key::R => Some(InputAction::Down),
                _ => None,
            },
        },
        PlatformEvent::MouseButton { button, action } => match (button, action) {
            (MouseButton::Button1, KeyAction::Press) => Some(InputAction::PrimaryPressed),
            (MouseButton::Button1, KeyAction::Release) => Some(InputAction::PrimaryReleased),
            _ => None,
        },
        PlatformEvent::CursorPos { x_bits, y_bits } => Some(
            InputAction::CursorMoved { x_bits, y_bits },
        ),
        PlatformEvent::FramebufferSize { width, height } => Some(
            InputAction::Resized { width, height },
        ),
        PlatformEvent::Scroll { x_bits: _, amount_bits } => Some(
            InputAction::VScroll { amount_bits },
        ),
        PlatformEvent::Other => None,
    }
}

/// Law: the translator is deterministic — equal platform events always
/// translate to equal (or equally absent) actions. Together with the
/// contract of `adapt_events`, which pins its result to `translate_spec`,
/// this makes the translation a pure function of the event alone.
pub proof fn lemma_translate_deterministic(a: PlatformEvent, b: PlatformEvent)
    requires
        a == b,
    ensures
        translate_spec(a) == translate_spec(b),
{
}

/// True when an action stream holds a quit request anywhere.
pub open spec fn contains_quit(actions: Seq<InputAction>) -> bool {
    exists|i: int| 0 <= i < actions.len() && actions[i] is Quit
}

} // verus!
