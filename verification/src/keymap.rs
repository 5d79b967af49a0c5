//! The closed table from backend key codes to canonical key identities.
//!
//! This is the heart of keyboard normalization: a single lookup keyed by the
//! backend key code alone, with the press/release axis handled orthogonally
//! by the normalizer, so every recognized key behaves identically for both
//! transitions. The three codes mapped to `None` are the backend codes the
//! recognized set deliberately excludes; they normalize to `Unknown`.

use crate::events::Key;
use crate::raw::RawKeyCode;
use vstd::prelude::*;

verus! {

/// The canonical key identity of a backend key code, or `None` for a code
/// outside the recognized closed set.
pub open spec fn spec_key_of(code: RawKeyCode) -> Option<Key> {
    match code {
        RawKeyCode::Key1 => Some(Key::Key1),
        RawKeyCode::Key2 => Some(Key::Key2),
        RawKeyCode::Key3 => Some(Key::Key3),
        RawKeyCode::Key4 => Some(Key::Key4),
        RawKeyCode::Key5 => Some(Key::Key5),
        RawKeyCode::Key6 => Some(Key::Key6),
        RawKeyCode::Key7 => Some(Key::Key7),
        RawKeyCode::Key8 => Some(Key::Key8),
        RawKeyCode::Key9 => Some(Key::Key9),
        RawKeyCode::Key0 => None,
        RawKeyCode::A => Some(Key::A),
        RawKeyCode::B => Some(Key::B),
        RawKeyCode::C => Some(Key::C),
        RawKeyCode::D => Some(Key::D),
        RawKeyCode::E => Some(Key::E),
        RawKeyCode::F => Some(Key::F),
        RawKeyCode::G => Some(Key::G),
        RawKeyCode::H => Some(Key::H),
        RawKeyCode::I => Some(Key::I),
        RawKeyCode::J => Some(Key::J),
        RawKeyCode::K => Some(Key::K),
        RawKeyCode::L => Some(Key::L),
        RawKeyCode::M => Some(Key::M),
        RawKeyCode::N => Some(Key::N),
        RawKeyCode::O => Some(Key::O),
        RawKeyCode::P => Some(Key::P),
        RawKeyCode::Q => Some(Key::Q),
        RawKeyCode::R => Some(Key::R),
        RawKeyCode::S => Some(Key::S),
        RawKeyCode::T => Some(Key::T),
        RawKeyCode::U => Some(Key::U),
        RawKeyCode::V => Some(Key::V),
        RawKeyCode::W => Some(Key::W),
        RawKeyCode::X => Some(Key::X),
        RawKeyCode::Y => Some(Key::Y),
        RawKeyCode::Z => Some(Key::Z),
        RawKeyCode::Escape => Some(Key::Escape),
        RawKeyCode::F1 => Some(Key::F1),
        RawKeyCode::F2 => Some(Key::F2),
        RawKeyCode::F3 => Some(Key::F3),
        RawKeyCode::F4 => Some(Key::F4),
        RawKeyCode::F5 => Some(Key::F5),
        RawKeyCode::F6 => Some(Key::F6),
        RawKeyCode::F7 => Some(Key::F7),
        RawKeyCode::F8 => Some(Key::F8),
        RawKeyCode::F9 => Some(Key::F9),
        RawKeyCode::F10 => Some(Key::F10),
        RawKeyCode::F11 => Some(Key::F11),
        RawKeyCode::F12 => Some(Key::F12),
        RawKeyCode::F13 => Some(Key::F13),
        RawKeyCode::F14 => Some(Key::F14),
        RawKeyCode::F15 => Some(Key::F15),
        RawKeyCode::F16 => Some(Key::F16),
        RawKeyCode::F17 => Some(Key::F17),
        RawKeyCode::F18 => Some(Key::F18),
        RawKeyCode::F19 => Some(Key::F19),
        RawKeyCode::F20 => Some(Key::F20),
        RawKeyCode::F21 => Some(Key::F21),
        RawKeyCode::F22 => Some(Key::F22),
        RawKeyCode::F23 => Some(Key::F23),
        RawKeyCode::F24 => Some(Key::F24),
        RawKeyCode::Snapshot => Some(Key::Snapshot),
        RawKeyCode::Scroll => Some(Key::Scroll),
        RawKeyCode::Pause => Some(Key::Pause),
        RawKeyCode::Insert => Some(Key::Insert),
        RawKeyCode::Home => Some(Key::Home),
        RawKeyCode::Delete => Some(Key::Delete),
        RawKeyCode::End => Some(Key::End),
        RawKeyCode::PageDown => Some(Key::PageDown),
        RawKeyCode::PageUp => Some(Key::PageUp),
        RawKeyCode::Left => Some(Key::Left),
        RawKeyCode::Up => Some(Key::Up),
        RawKeyCode::Right => Some(Key::Right),
        RawKeyCode::Down => Some(Key::Down),
        RawKeyCode::Back => Some(Key::Back),
        RawKeyCode::Return => Some(Key::Return),
        RawKeyCode::Space => Some(Key::Space),
        RawKeyCode::Compose => Some(Key::Compose),
        RawKeyCode::Caret => Some(Key::Caret),
        RawKeyCode::Numlock => Some(Key::Numlock),
        RawKeyCode::Numpad0 => Some(Key::Numpad0),
        RawKeyCode::Numpad1 => Some(Key::Numpad1),
        RawKeyCode::Numpad2 => Some(Key::Numpad2),
        RawKeyCode::Numpad3 => Some(Key::Numpad3),
        RawKeyCode::Numpad4 => Some(Key::Numpad4),
        RawKeyCode::Numpad5 => Some(Key::Numpad5),
        RawKeyCode::Numpad6 => Some(Key::Numpad6),
        RawKeyCode::Numpad7 => Some(Key::Numpad7),
        RawKeyCode::Numpad8 => Some(Key::Numpad8),
        RawKeyCode::Numpad9 => Some(Key::Numpad9),
        RawKeyCode::AbntC1 => Some(Key::AbntC1),
        RawKeyCode::AbntC2 => Some(Key::AbntC2),
        RawKeyCode::Add => Some(Key::Add),
        RawKeyCode::Apostrophe => Some(Key::Apostrophe),
        RawKeyCode::Apps => Some(Key::Apps),
        RawKeyCode::At => Some(Key::At),
        RawKeyCode::Ax => Some(Key::Ax),
        RawKeyCode::Backslash => Some(Key::Backslash),
        RawKeyCode::Calculator => Some(Key::Calculator),
        RawKeyCode::Capital => Some(Key::Capital),
        RawKeyCode::Colon => Some(Key::Colon),
        RawKeyCode::Comma => Some(Key::Comma),
        RawKeyCode::Convert => Some(Key::Convert),
        RawKeyCode::Decimal => Some(Key::Decimal),
        RawKeyCode::Divide => Some(Key::Divide),
        RawKeyCode::Equals => Some(Key::Equals),
        RawKeyCode::Grave => Some(Key::Grave),
        RawKeyCode::Kana => Some(Key::Kana),
        RawKeyCode::Kanji => Some(Key::Kanji),
        RawKeyCode::LAlt => Some(Key::LAlt),
        RawKeyCode::LBracket => None,
        RawKeyCode::LControl => Some(Key::LControl),
        RawKeyCode::LShift => None,
        RawKeyCode::LWin => Some(Key::LWin),
        RawKeyCode::Mail => Some(Key::Mail),
        RawKeyCode::MediaSelect => Some(Key::MediaSelect),
        RawKeyCode::MediaStop => Some(Key::MediaStop),
        RawKeyCode::Minus => Some(Key::Minus),
        RawKeyCode::Multiply => Some(Key::Multiply),
        RawKeyCode::Mute => Some(Key::Mute),
        RawKeyCode::MyComputer => Some(Key::MyComputer),
        RawKeyCode::NavigateForward => Some(Key::NavigateForward),
        RawKeyCode::NavigateBackward => Some(Key::NavigateBackward),
        RawKeyCode::NextTrack => Some(Key::NextTrack),
        RawKeyCode::NoConvert => Some(Key::NoConvert),
        RawKeyCode::NumpadComma => Some(Key::NumpadComma),
        RawKeyCode::NumpadEnter => Some(Key::NumpadEnter),
        RawKeyCode::NumpadEquals => Some(Key::NumpadEquals),
        RawKeyCode::OEM102 => Some(Key::OEM102),
        RawKeyCode::Period => Some(Key::Period),
        RawKeyCode::PlayPause => Some(Key::PlayPause),
        RawKeyCode::Power => Some(Key::Power),
        RawKeyCode::PrevTrack => Some(Key::PrevTrack),
        RawKeyCode::RAlt => Some(Key::RAlt),
        RawKeyCode::RBracket => Some(Key::RBracket),
        RawKeyCode::RControl => Some(Key::RControl),
        RawKeyCode::RShift => Some(Key::RShift),
        RawKeyCode::RWin => Some(Key::RWin),
        RawKeyCode::Semicolon => Some(Key::Semicolon),
        RawKeyCode::Slash => Some(Key::Slash),
        RawKeyCode::Sleep => Some(Key::Sleep),
        RawKeyCode::Stop => Some(Key::Stop),
        RawKeyCode::Subtract => Some(Key::Subtract),
        RawKeyCode::Sysrq => Some(Key::Sysrq),
        RawKeyCode::Tab => Some(Key::Tab),
        RawKeyCode::Underline => Some(Key::Underline),
        RawKeyCode::Unlabeled => Some(Key::Unlabeled),
        RawKeyCode::VolumeDown => Some(Key::VolumeDown),
        RawKeyCode::VolumeUp => Some(Key::VolumeUp),
        RawKeyCode::Wake => Some(Key::Wake),
        RawKeyCode::WebBack => Some(Key::WebBack),
        RawKeyCode::WebFavorites => Some(Key::WebFavorites),
        RawKeyCode::WebForward => Some(Key::WebForward),
        RawKeyCode::WebHome => Some(Key::WebHome),
        RawKeyCode::WebRefresh => Some(Key::WebRefresh),
        RawKeyCode::WebSearch => Some(Key::WebSearch),
        RawKeyCode::WebStop => Some(Key::WebStop),
        RawKeyCode::Yen => Some(Key::Yen),
        RawKeyCode::Copy => Some(Key::Copy),
        RawKeyCode::Paste => Some(Key::Paste),
        RawKeyCode::Cut => Some(Key::Cut),
    }
}

/// Looks a backend key code up in the canonical table.
pub fn key_of(code: RawKeyCode) -> (r: Option<Key>)
    ensures
        r == spec_key_of(code),
{
    match code {
        RawKeyCode::Key1 => Some(Key::Key1),
        RawKeyCode::Key2 => Some(Key::Key2),
        RawKeyCode::Key3 => Some(Key::Key3),
        RawKeyCode::Key4 => Some(Key::Key4),
        RawKeyCode::Key5 => Some(Key::Key5),
        RawKeyCode::Key6 => Some(Key::Key6),
        RawKeyCode::Key7 => Some(Key::Key7),
        RawKeyCode::Key8 => Some(Key::Key8),
        RawKeyCode::Key9 => Some(Key::Key9),
        RawKeyCode::Key0 => None,
        RawKeyCode::A => Some(Key::A),
        RawKeyCode::B => Some(Key::B),
        RawKeyCode::C => Some(Key::C),
        RawKeyCode::D => Some(Key::D),
        RawKeyCode::E => Some(Key::E),
        RawKeyCode::F => Some(Key::F),
        RawKeyCode::G => Some(Key::G),
        RawKeyCode::H => Some(Key::H),
        RawKeyCode::I => Some(Key::I),
        RawKeyCode::J => Some(Key::J),
        RawKeyCode::K => Some(Key::K),
        RawKeyCode::L => Some(Key::L),
        RawKeyCode::M => Some(Key::M),
        RawKeyCode::N => Some(Key::N),
        RawKeyCode::O => Some(Key::O),
        RawKeyCode::P => Some(Key::P),
        RawKeyCode::Q => Some(Key::Q),
        RawKeyCode::R => Some(Key::R),
        RawKeyCode::S => Some(Key::S),
        RawKeyCode::T => Some(Key::T),
        RawKeyCode::U => Some(Key::U),
        RawKeyCode::V => Some(Key::V),
        RawKeyCode::W => Some(Key::W),
        RawKeyCode::X => Some(Key::X),
        RawKeyCode::Y => Some(Key::Y),
        RawKeyCode::Z => Some(Key::Z),
        RawKeyCode::Escape => Some(Key::Escape),
        RawKeyCode::F1 => Some(Key::F1),
        RawKeyCode::F2 => Some(Key::F2),
        RawKeyCode::F3 => Some(Key::F3),
        RawKeyCode::F4 => Some(Key::F4),
        RawKeyCode::F5 => Some(Key::F5),
        RawKeyCode::F6 => Some(Key::F6),
        RawKeyCode::F7 => Some(Key::F7),
        RawKeyCode::F8 => Some(Key::F8),
        RawKeyCode::F9 => Some(Key::F9),
        RawKeyCode::F10 => Some(Key::F10),
        RawKeyCode::F11 => Some(Key::F11),
        RawKeyCode::F12 => Some(Key::F12),
        RawKeyCode::F13 => Some(Key::F13),
        RawKeyCode::F14 => Some(Key::F14),
        RawKeyCode::F15 => Some(Key::F15),
        RawKeyCode::F16 => Some(Key::F16),
        RawKeyCode::F17 => Some(Key::F17),
        RawKeyCode::F18 => Some(Key::F18),
        RawKeyCode::F19 => Some(Key::F19),
        RawKeyCode::F20 => Some(Key::F20),
        RawKeyCode::F21 => Some(Key::F21),
        RawKeyCode::F22 => Some(Key::F22),
        RawKeyCode::F23 => Some(Key::F23),
        RawKeyCode::F24 => Some(Key::F24),
        RawKeyCode::Snapshot => Some(Key::Snapshot),
        RawKeyCode::Scroll => Some(Key::Scroll),
        RawKeyCode::Pause => Some(Key::Pause),
        RawKeyCode::Insert => Some(Key::Insert),
        RawKeyCode::Home => Some(Key::Home),
        RawKeyCode::Delete => Some(Key::Delete),
        RawKeyCode::End => Some(Key::End),
        RawKeyCode::PageDown => Some(Key::PageDown),
        RawKeyCode::PageUp => Some(Key::PageUp),
        RawKeyCode::Left => Some(Key::Left),
        RawKeyCode::Up => Some(Key::Up),
        RawKeyCode::Right => Some(Key::Right),
        RawKeyCode::Down => Some(Key::Down),
        RawKeyCode::Back => Some(Key::Back),
        RawKeyCode::Return => Some(Key::Return),
        RawKeyCode::Space => Some(Key::Space),
        RawKeyCode::Compose => Some(Key::Compose),
        RawKeyCode::Caret => Some(Key::Caret),
        RawKeyCode::Numlock => Some(Key::Numlock),
        RawKeyCode::Numpad0 => Some(Key::Numpad0),
        RawKeyCode::Numpad1 => Some(Key::Numpad1),
        RawKeyCode::Numpad2 => Some(Key::Numpad2),
        RawKeyCode::Numpad3 => Some(Key::Numpad3),
        RawKeyCode::Numpad4 => Some(Key::Numpad4),
        RawKeyCode::Numpad5 => Some(Key::Numpad5),
        RawKeyCode::Numpad6 => Some(Key::Numpad6),
        RawKeyCode::Numpad7 => Some(Key::Numpad7),
        RawKeyCode::Numpad8 => Some(Key::Numpad8),
        RawKeyCode::Numpad9 => Some(Key::Numpad9),
        RawKeyCode::AbntC1 => Some(Key::AbntC1),
        RawKeyCode::AbntC2 => Some(Key::AbntC2),
        RawKeyCode::Add => Some(Key::Add),
        RawKeyCode::Apostrophe => Some(Key::Apostrophe),
        RawKeyCode::Apps => Some(Key::Apps),
        RawKeyCode::At => Some(Key::At),
        RawKeyCode::Ax => Some(Key::Ax),
        RawKeyCode::Backslash => Some(Key::Backslash),
        RawKeyCode::Calculator => Some(Key::Calculator),
        RawKeyCode::Capital => Some(Key::Capital),
        RawKeyCode::Colon => Some(Key::Colon),
        RawKeyCode::Comma => Some(Key::Comma),
        RawKeyCode::Convert => Some(Key::Convert),
        RawKeyCode::Decimal => Some(Key::Decimal),
        RawKeyCode::Divide => Some(Key::Divide),
        RawKeyCode::Equals => Some(Key::Equals),
        RawKeyCode::Grave => Some(Key::Grave),
        RawKeyCode::Kana => Some(Key::Kana),
        RawKeyCode::Kanji => Some(Key::Kanji),
        RawKeyCode::LAlt => Some(Key::LAlt),
        RawKeyCode::LBracket => None,
        RawKeyCode::LControl => Some(Key::LControl),
        RawKeyCode::LShift => None,
        RawKeyCode::LWin => Some(Key::LWin),
        RawKeyCode::Mail => Some(Key::Mail),
        RawKeyCode::MediaSelect => Some(Key::MediaSelect),
        RawKeyCode::MediaStop => Some(Key::MediaStop),
        RawKeyCode::Minus => Some(Key::Minus),
        RawKeyCode::Multiply => Some(Key::Multiply),
        RawKeyCode::Mute => Some(Key::Mute),
        RawKeyCode::MyComputer => Some(Key::MyComputer),
        RawKeyCode::NavigateForward => Some(Key::NavigateForward),
        RawKeyCode::NavigateBackward => Some(Key::NavigateBackward),
        RawKeyCode::NextTrack => Some(Key::NextTrack),
        RawKeyCode::NoConvert => Some(Key::NoConvert),
        RawKeyCode::NumpadComma => Some(Key::NumpadComma),
        RawKeyCode::NumpadEnter => Some(Key::NumpadEnter),
        RawKeyCode::NumpadEquals => Some(Key::NumpadEquals),
        RawKeyCode::OEM102 => Some(Key::OEM102),
        RawKeyCode::Period => Some(Key::Period),
        RawKeyCode::PlayPause => Some(Key::PlayPause),
        RawKeyCode::Power => Some(Key::Power),
        RawKeyCode::PrevTrack => Some(Key::PrevTrack),
        RawKeyCode::RAlt => Some(Key::RAlt),
        RawKeyCode::RBracket => Some(Key::RBracket),
        RawKeyCode::RControl => Some(Key::RControl),
        RawKeyCode::RShift => Some(Key::RShift),
        RawKeyCode::RWin => Some(Key::RWin),
        RawKeyCode::Semicolon => Some(Key::Semicolon),
        RawKeyCode::Slash => Some(Key::Slash),
        RawKeyCode::Sleep => Some(Key::Sleep),
        RawKeyCode::Stop => Some(Key::Stop),
        RawKeyCode::Subtract => Some(Key::Subtract),
        RawKeyCode::Sysrq => Some(Key::Sysrq),
        RawKeyCode::Tab => Some(Key::Tab),
        RawKeyCode::Underline => Some(Key::Underline),
        RawKeyCode::Unlabeled => Some(Key::Unlabeled),
        RawKeyCode::VolumeDown => Some(Key::VolumeDown),
        RawKeyCode::VolumeUp => Some(Key::VolumeUp),
        RawKeyCode::Wake => Some(Key::Wake),
        RawKeyCode::WebBack => Some(Key::WebBack),
        RawKeyCode::WebFavorites => Some(Key::WebFavorites),
        RawKeyCode::WebForward => Some(Key::WebForward),
        RawKeyCode::WebHome => Some(Key::WebHome),
        RawKeyCode::WebRefresh => Some(Key::WebRefresh),
        RawKeyCode::WebSearch => Some(Key::WebSearch),
        RawKeyCode::WebStop => Some(Key::WebStop),
        RawKeyCode::Yen => Some(Key::Yen),
        RawKeyCode::Copy => Some(Key::Copy),
        RawKeyCode::Paste => Some(Key::Paste),
        RawKeyCode::Cut => Some(Key::Cut),
    }
}

} // verus!
