use nazarust::events::Key;
use nazarust::events::KeyEvent;
use nazarust::events::MouseButton;
use nazarust::events::MouseEvent;
use nazarust::events::NazarustEvents;
use nazarust::events::NazarustModifiersState;
use nazarust::events::State;
use nazarust::events::WindowEvent;
use nazarust::keymap::key_of;
use nazarust::normalize::from_raw_event;
use nazarust::normalize::to_nazarust_button;
use nazarust::normalize::to_nazarust_modifiers;
use nazarust::normalize::to_nazarust_state;
use nazarust::raw::RawElementState;
use nazarust::raw::RawEvent;
use nazarust::raw::RawKeyCode;
use nazarust::raw::RawModifiersState;
use nazarust::raw::RawMouseButton;
use nazarust::raw::RawWindowEvent;

fn no_mods() -> RawModifiersState {
    RawModifiersState { shift: false, ctrl: false, alt: false, logo: false }
}

fn raw_key(code: Option<RawKeyCode>, state: RawElementState, modifiers: RawModifiersState) -> RawEvent {
    RawEvent::WindowEvent(RawWindowEvent::KeyboardInput { virtual_keycode: code, state, modifiers })
}

fn raw_mouse(button: RawMouseButton, state: RawElementState, modifiers: RawModifiersState) -> RawEvent {
    RawEvent::WindowEvent(RawWindowEvent::MouseInput { state, button, modifiers })
}

#[test]
fn scenario_key_a_pressed_no_modifiers() {
    let e = from_raw_event(raw_key(Some(RawKeyCode::A), RawElementState::Pressed, no_mods()));
    assert_eq!(
        e,
        NazarustEvents::KeyEvent(
            KeyEvent { key: Key::A, state: State::Pressed },
            NazarustModifiersState { shift: false, ctrl: false, alt: false, logo: false },
        )
    );
}

#[test]
fn scenario_key_a_released_shift_held() {
    let mods = RawModifiersState { shift: true, ctrl: false, alt: false, logo: false };
    let e = from_raw_event(raw_key(Some(RawKeyCode::A), RawElementState::Released, mods));
    assert_eq!(
        e,
        NazarustEvents::KeyEvent(
            KeyEvent { key: Key::A, state: State::Released },
            NazarustModifiersState { shift: true, ctrl: false, alt: false, logo: false },
        )
    );
}

#[test]
fn scenario_left_button_pressed_ctrl_held() {
    let mods = RawModifiersState { shift: false, ctrl: true, alt: false, logo: false };
    let e = from_raw_event(raw_mouse(RawMouseButton::Left, RawElementState::Pressed, mods));
    assert_eq!(
        e,
        NazarustEvents::MouseEvent(
            MouseEvent::Button { mouse_button: MouseButton::Left, state: State::Pressed },
            Some(NazarustModifiersState { shift: false, ctrl: true, alt: false, logo: false }),
        )
    );
}

#[test]
fn scenario_auxiliary_button_four_released() {
    let mods = RawModifiersState { shift: false, ctrl: false, alt: true, logo: true };
    let e = from_raw_event(raw_mouse(RawMouseButton::Other(4), RawElementState::Released, mods));
    assert_eq!(
        e,
        NazarustEvents::MouseEvent(
            MouseEvent::Button { mouse_button: MouseButton::Other(4), state: State::Released },
            Some(NazarustModifiersState { shift: false, ctrl: false, alt: true, logo: true }),
        )
    );
}

#[test]
fn scenario_window_close_requested() {
    let e = from_raw_event(RawEvent::WindowEvent(RawWindowEvent::CloseRequested));
    assert_eq!(e, NazarustEvents::WindowEvent(WindowEvent::CloseRequested));
}

#[test]
fn scenario_unmodeled_event_kind_is_unknown() {
    assert_eq!(from_raw_event(RawEvent::Other), NazarustEvents::Unknown);
    assert_eq!(
        from_raw_event(RawEvent::WindowEvent(RawWindowEvent::Other)),
        NazarustEvents::Unknown
    );
}

#[test]
fn window_resized_and_moved() {
    assert_eq!(
        from_raw_event(RawEvent::WindowEvent(RawWindowEvent::Resized)),
        NazarustEvents::WindowEvent(WindowEvent::Resized)
    );
    assert_eq!(
        from_raw_event(RawEvent::WindowEvent(RawWindowEvent::Moved)),
        NazarustEvents::WindowEvent(WindowEvent::Moved)
    );
}

#[test]
fn cursor_motion_drops_modifiers() {
    assert_eq!(
        from_raw_event(RawEvent::WindowEvent(RawWindowEvent::CursorMoved)),
        NazarustEvents::MouseEvent(MouseEvent::Moved, None)
    );
}

#[test]
fn press_release_symmetry_samples() {
    let samples = vec![
        (RawKeyCode::A, Key::A),
        (RawKeyCode::Z, Key::Z),
        (RawKeyCode::Key1, Key::Key1),
        (RawKeyCode::Key9, Key::Key9),
        (RawKeyCode::Escape, Key::Escape),
        (RawKeyCode::F1, Key::F1),
        (RawKeyCode::F24, Key::F24),
        (RawKeyCode::Left, Key::Left),
        (RawKeyCode::PageDown, Key::PageDown),
        (RawKeyCode::Numpad0, Key::Numpad0),
        (RawKeyCode::NumpadEnter, Key::NumpadEnter),
        (RawKeyCode::Space, Key::Space),
        (RawKeyCode::Tab, Key::Tab),
        (RawKeyCode::VolumeUp, Key::VolumeUp),
        (RawKeyCode::WebStop, Key::WebStop),
        (RawKeyCode::Yen, Key::Yen),
        (RawKeyCode::Copy, Key::Copy),
        (RawKeyCode::Paste, Key::Paste),
        (RawKeyCode::Cut, Key::Cut),
    ];
    for (code, key) in samples {
        let pressed = from_raw_event(raw_key(Some(code), RawElementState::Pressed, no_mods()));
        let released = from_raw_event(raw_key(Some(code), RawElementState::Released, no_mods()));
        assert_eq!(
            pressed,
            NazarustEvents::KeyEvent(
                KeyEvent { key, state: State::Pressed },
                NazarustModifiersState { shift: false, ctrl: false, alt: false, logo: false },
            )
        );
        assert_eq!(
            released,
            NazarustEvents::KeyEvent(
                KeyEvent { key, state: State::Released },
                NazarustModifiersState { shift: false, ctrl: false, alt: false, logo: false },
            )
        );
    }
}

#[test]
fn unrecognized_key_codes_are_unknown_in_both_states() {
    for code in [RawKeyCode::Key0, RawKeyCode::LBracket, RawKeyCode::LShift] {
        assert_eq!(
            from_raw_event(raw_key(Some(code), RawElementState::Pressed, no_mods())),
            NazarustEvents::Unknown
        );
        assert_eq!(
            from_raw_event(raw_key(Some(code), RawElementState::Released, no_mods())),
            NazarustEvents::Unknown
        );
    }
}

#[test]
fn missing_key_code_is_unknown() {
    let mods = RawModifiersState { shift: true, ctrl: true, alt: true, logo: true };
    assert_eq!(
        from_raw_event(raw_key(None, RawElementState::Pressed, mods)),
        NazarustEvents::Unknown
    );
    assert_eq!(
        from_raw_event(raw_key(None, RawElementState::Released, mods)),
        NazarustEvents::Unknown
    );
}

#[test]
fn button_completeness_named_and_auxiliary() {
    let cases = vec![
        (RawMouseButton::Left, MouseButton::Left),
        (RawMouseButton::Right, MouseButton::Right),
        (RawMouseButton::Middle, MouseButton::Middle),
        (RawMouseButton::Other(0), MouseButton::Other(0)),
        (RawMouseButton::Other(4), MouseButton::Other(4)),
        (RawMouseButton::Other(255), MouseButton::Other(255)),
    ];
    for (raw, canonical) in cases {
        for (raw_state, state) in [
            (RawElementState::Pressed, State::Pressed),
            (RawElementState::Released, State::Released),
        ] {
            let e = from_raw_event(raw_mouse(raw, raw_state, no_mods()));
            assert_eq!(
                e,
                NazarustEvents::MouseEvent(
                    MouseEvent::Button { mouse_button: canonical, state },
                    Some(NazarustModifiersState {
                        shift: false,
                        ctrl: false,
                        alt: false,
                        logo: false,
                    }),
                )
            );
        }
    }
}

#[test]
fn modifier_fidelity_all_flag_combinations() {
    for bits in 0u8..16 {
        let mods = RawModifiersState {
            shift: bits & 1 != 0,
            ctrl: bits & 2 != 0,
            alt: bits & 4 != 0,
            logo: bits & 8 != 0,
        };
        let projected = to_nazarust_modifiers(mods);
        assert_eq!(projected.shift, mods.shift);
        assert_eq!(projected.ctrl, mods.ctrl);
        assert_eq!(projected.alt, mods.alt);
        assert_eq!(projected.logo, mods.logo);

        let expected = NazarustModifiersState {
            shift: mods.shift,
            ctrl: mods.ctrl,
            alt: mods.alt,
            logo: mods.logo,
        };
        match from_raw_event(raw_key(Some(RawKeyCode::Q), RawElementState::Pressed, mods)) {
            NazarustEvents::KeyEvent(_, carried) => assert_eq!(carried, expected),
            other => panic!("expected a key event, got {:?}", other),
        }
        match from_raw_event(raw_mouse(RawMouseButton::Middle, RawElementState::Released, mods)) {
            NazarustEvents::MouseEvent(_, carried) => assert_eq!(carried, Some(expected)),
            other => panic!("expected a mouse event, got {:?}", other),
        }
    }
}

#[test]
fn rederivation_is_idempotent() {
    let mods = RawModifiersState { shift: true, ctrl: false, alt: true, logo: false };
    let raws = vec![
        raw_key(Some(RawKeyCode::Return), RawElementState::Pressed, mods),
        raw_key(Some(RawKeyCode::LShift), RawElementState::Released, mods),
        raw_key(None, RawElementState::Pressed, mods),
        raw_mouse(RawMouseButton::Other(7), RawElementState::Pressed, mods),
        RawEvent::WindowEvent(RawWindowEvent::Resized),
        RawEvent::WindowEvent(RawWindowEvent::CursorMoved),
        RawEvent::WindowEvent(RawWindowEvent::Other),
        RawEvent::Other,
    ];
    for raw in raws {
        assert_eq!(from_raw_event(raw), from_raw_event(raw));
    }
}

#[test]
fn key_table_lookup() {
    assert_eq!(key_of(RawKeyCode::A), Some(Key::A));
    assert_eq!(key_of(RawKeyCode::Numpad9), Some(Key::Numpad9));
    assert_eq!(key_of(RawKeyCode::MediaSelect), Some(Key::MediaSelect));
    assert_eq!(key_of(RawKeyCode::Key0), None);
    assert_eq!(key_of(RawKeyCode::LBracket), None);
    assert_eq!(key_of(RawKeyCode::LShift), None);
}

#[test]
fn state_and_button_projection() {
    assert_eq!(to_nazarust_state(RawElementState::Pressed), State::Pressed);
    assert_eq!(to_nazarust_state(RawElementState::Released), State::Released);
    assert_eq!(to_nazarust_button(RawMouseButton::Left), MouseButton::Left);
    assert_eq!(to_nazarust_button(RawMouseButton::Right), MouseButton::Right);
    assert_eq!(to_nazarust_button(RawMouseButton::Middle), MouseButton::Middle);
    assert_eq!(to_nazarust_button(RawMouseButton::Other(42)), MouseButton::Other(42));
}
