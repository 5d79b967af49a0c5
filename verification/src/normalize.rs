//! Modifier projection and the raw-to-canonical event mapping.
//!
//! Normalization is total, pure, and stateless: every raw backend event has
//! exactly one canonical image, given by [`spec_normalize`], and
//! [`from_raw_event`] returns exactly that image. `Unknown` is the designed
//! fallback for raw events outside the recognized shapes, never an error.

use crate::events::Key;
use crate::events::KeyEvent;
use crate::events::MouseButton;
use crate::events::MouseEvent;
use crate::events::NazarustEvents;
use crate::events::NazarustModifiersState;
use crate::events::State;
use crate::events::WindowEvent;
use crate::keymap::key_of;
use crate::keymap::spec_key_of;
use crate::raw::RawElementState;
use crate::raw::RawEvent;
use crate::raw::RawKeyCode;
use crate::raw::RawModifiersState;
use crate::raw::RawMouseButton;
use crate::raw::RawWindowEvent;
use vstd::prelude::*;

verus! {

/// The canonical image of a backend modifier snapshot: the same four flags,
/// value for value.
pub open spec fn spec_modifiers(modifiers: RawModifiersState) -> NazarustModifiersState {
    NazarustModifiersState {
        shift: modifiers.shift,
        ctrl: modifiers.ctrl,
        alt: modifiers.alt,
        logo: modifiers.logo,
    }
}

/// The canonical image of a backend press/release report.
pub open spec fn spec_state(state: RawElementState) -> State {
    match state {
        RawElementState::Pressed => State::Pressed,
        RawElementState::Released => State::Released,
    }
}

/// The canonical image of a backend mouse-button report; auxiliary indices
/// are carried over verbatim, never renumbered.
pub open spec fn spec_button(button: RawMouseButton) -> MouseButton {
    match button {
        RawMouseButton::Left => MouseButton::Left,
        RawMouseButton::Right => MouseButton::Right,
        RawMouseButton::Middle => MouseButton::Middle,
        RawMouseButton::Other(index) => MouseButton::Other(index),
    }
}

/// A raw keyboard event, as the backend's event loop delivers it.
pub open spec fn key_input(
    virtual_keycode: Option<RawKeyCode>,
    state: RawElementState,
    modifiers: RawModifiersState,
) -> RawEvent {
    RawEvent::WindowEvent(RawWindowEvent::KeyboardInput { virtual_keycode, state, modifiers })
}

/// A raw mouse-button event, as the backend's event loop delivers it.
pub open spec fn mouse_input(
    button: RawMouseButton,
    state: RawElementState,
    modifiers: RawModifiersState,
) -> RawEvent {
    RawEvent::WindowEvent(RawWindowEvent::MouseInput { state, button, modifiers })
}

/// The canonical image of one raw backend event. Total over the whole raw
/// vocabulary: window notifications map one-to-one, cursor motion drops the
/// modifier snapshot, button transitions cover the full button-by-state
/// product, and a keyboard event maps through the key table — a missing or
/// unrecognized key code makes the whole event `Unknown`, so the press-state
/// axis is never silently dropped. Every shape outside these is `Unknown`.
pub open spec fn spec_normalize(raw: RawEvent) -> NazarustEvents {
    match raw {
        RawEvent::WindowEvent(event) => match event {
            RawWindowEvent::Resized => NazarustEvents::WindowEvent(WindowEvent::Resized),
            RawWindowEvent::Moved => NazarustEvents::WindowEvent(WindowEvent::Moved),
            RawWindowEvent::CloseRequested => NazarustEvents::WindowEvent(
                WindowEvent::CloseRequested,
            ),
            RawWindowEvent::CursorMoved => NazarustEvents::MouseEvent(MouseEvent::Moved, None),
            RawWindowEvent::MouseInput { state, button, modifiers } => NazarustEvents::MouseEvent(
                MouseEvent::Button { mouse_button: spec_button(button), state: spec_state(state) },
                Some(spec_modifiers(modifiers)),
            ),
            RawWindowEvent::KeyboardInput { virtual_keycode, state, modifiers } => match virtual_keycode {
                Some(code) => match spec_key_of(code) {
                    Some(key) => NazarustEvents::KeyEvent(
                        KeyEvent { key, state: spec_state(state) },
                        spec_modifiers(modifiers),
                    ),
                    None => NazarustEvents::Unknown,
                },
                None => NazarustEvents::Unknown,
            },
            RawWindowEvent::Other => NazarustEvents::Unknown,
        },
        RawEvent::Other => NazarustEvents::Unknown,
    }
}

/// Projects a backend modifier snapshot onto the canonical modifier state,
/// flag for flag. Total and pure; no snapshot is rejected.
pub fn to_nazarust_modifiers(modifiers: RawModifiersState) -> (r: NazarustModifiersState)
    ensures
        r == spec_modifiers(modifiers),
        r.shift == modifiers.shift,
        r.ctrl == modifiers.ctrl,
        r.alt == modifiers.alt,
        r.logo == modifiers.logo,
{
    NazarustModifiersState {
        shift: modifiers.shift,
        ctrl: modifiers.ctrl,
        alt: modifiers.alt,
        logo: modifiers.logo,
    }
}

/// Converts a backend press/release report to the canonical state.
pub fn to_nazarust_state(state: RawElementState) -> (r: State)
    ensures
        r == spec_state(state),
{
    match state {
        RawElementState::Pressed => State::Pressed,
        RawElementState::Released => State::Released,
    }
}

/// Converts a backend mouse-button report to the canonical identity.
pub fn to_nazarust_button(button: RawMouseButton) -> (r: MouseButton)
    ensures
        r == spec_button(button),
{
    match button {
        RawMouseButton::Left => MouseButton::Left,
        RawMouseButton::Right => MouseButton::Right,
        RawMouseButton::Middle => MouseButton::Middle,
        RawMouseButton::Other(index) => MouseButton::Other(index),
    }
}

/// Normalizes one raw backend event into exactly one canonical event.
///
/// Total: there is no precondition, and every raw value — including every
/// shape outside the recognized sets — has a canonical image; the function
/// never fails and never leaves an event unmapped.
pub fn from_raw_event(raw: RawEvent) -> (e: NazarustEvents)
    ensures
        e == spec_normalize(raw),
{
    match raw {
        RawEvent::WindowEvent(event) => match event {
            RawWindowEvent::Resized => NazarustEvents::WindowEvent(WindowEvent::Resized),
            RawWindowEvent::Moved => NazarustEvents::WindowEvent(WindowEvent::Moved),
            RawWindowEvent::CloseRequested => NazarustEvents::WindowEvent(
                WindowEvent::CloseRequested,
            ),
            RawWindowEvent::CursorMoved => NazarustEvents::MouseEvent(MouseEvent::Moved, None),
            RawWindowEvent::MouseInput { state, button, modifiers } => {
                let nazarust_modifiers = to_nazarust_modifiers(modifiers);
                NazarustEvents::MouseEvent(
                    MouseEvent::Button {
                        mouse_button: to_nazarust_button(button),
                        state: to_nazarust_state(state),
                    },
                    Some(nazarust_modifiers),
                )
            },
            RawWindowEvent::KeyboardInput { virtual_keycode, state, modifiers } => {
                let nazarust_modifiers = to_nazarust_modifiers(modifiers);
                match virtual_keycode {
                    Some(code) => match key_of(code) {
                        Some(key) => NazarustEvents::KeyEvent(
                            KeyEvent { key, state: to_nazarust_state(state) },
                            nazarust_modifiers,
                        ),
                        None => NazarustEvents::Unknown,
                    },
                    None => NazarustEvents::Unknown,
                }
            },
            RawWindowEvent::Other => NazarustEvents::Unknown,
        },
        RawEvent::Other => NazarustEvents::Unknown,
    }
}

/// Press/release symmetry: every key code the table recognizes normalizes to
/// a key event with that same identity for the press and for the release —
/// no key recognized in one state is `Unknown` in the other. Both images
/// attach exactly the projected modifier snapshot.
pub proof fn lemma_press_release_symmetry(code: RawKeyCode, modifiers: RawModifiersState)
    ensures
        (spec_key_of(code) matches Some(key) ==> spec_normalize(
            key_input(Some(code), RawElementState::Pressed, modifiers),
        ) == NazarustEvents::KeyEvent(
            (KeyEvent { key, state: State::Pressed }),
            spec_modifiers(modifiers),
        )),
        (spec_key_of(code) matches Some(key) ==> spec_normalize(
            key_input(Some(code), RawElementState::Released, modifiers),
        ) == NazarustEvents::KeyEvent(
            (KeyEvent { key, state: State::Released }),
            spec_modifiers(modifiers),
        )),
{
}

/// The totality boundary on the keyboard axis: a keyboard event whose key
/// code is missing, or outside the recognized closed set, normalizes as a
/// whole to `Unknown` — never to a partially populated key event.
pub proof fn lemma_unrecognized_key_is_unknown(
    code: Option<RawKeyCode>,
    state: RawElementState,
    modifiers: RawModifiersState,
)
    requires
        code matches Some(inner) ==> spec_key_of(inner) is None,
    ensures
        spec_normalize(key_input(code, state, modifiers)) == NazarustEvents::Unknown,
{
}

/// Modifier fidelity: the projected canonical state carries exactly the four
/// backend flags. Both event paths that attach modifiers (keyboard, in
/// `lemma_press_release_symmetry`, and mouse buttons, in
/// `lemma_button_completeness`) attach this same projection, so fidelity
/// does not depend on which event type carried the snapshot.
pub proof fn lemma_modifier_fidelity(modifiers: RawModifiersState)
    ensures
        spec_modifiers(modifiers).shift == modifiers.shift,
        spec_modifiers(modifiers).ctrl == modifiers.ctrl,
        spec_modifiers(modifiers).alt == modifiers.alt,
        spec_modifiers(modifiers).logo == modifiers.logo,
{
}

/// Button completeness: every button-by-state combination normalizes to a
/// mouse-button event — the three named identities map to themselves for
/// both transitions, an auxiliary index is preserved verbatim, and the
/// projected modifier snapshot is always attached. No recognized backend
/// button has an `Unknown` case.
pub proof fn lemma_button_completeness(
    button: RawMouseButton,
    state: RawElementState,
    modifiers: RawModifiersState,
)
    ensures
        spec_normalize(mouse_input(button, state, modifiers)) == NazarustEvents::MouseEvent(
            (MouseEvent::Button { mouse_button: spec_button(button), state: spec_state(state) }),
            Some(spec_modifiers(modifiers)),
        ),
        spec_button(RawMouseButton::Left) == MouseButton::Left,
        spec_button(RawMouseButton::Right) == MouseButton::Right,
        spec_button(RawMouseButton::Middle) == MouseButton::Middle,
        (button matches RawMouseButton::Other(index) ==> spec_button(button)
            == MouseButton::Other(index)),
{
}

/// Idempotent re-derivation: the canonical image is a pure function of the
/// raw value, so normalizing equal raw events yields equal canonical events.
/// Together with the postcondition of [`from_raw_event`], two calls on the
/// same raw event return equal results — nothing hidden leaks in.
pub proof fn lemma_idempotent_rederivation(first: RawEvent, second: RawEvent)
    requires
        first == second,
    ensures
        spec_normalize(first) == spec_normalize(second),
{
}

} // verus!
