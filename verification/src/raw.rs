//! The library's view of one raw backend event.
//!
//! Normalization must be total over the backend's whole event vocabulary, so
//! this module re-states that vocabulary as plain values: exactly the shapes
//! and payloads the mapping reads, nothing more. The host event loop converts
//! each native backend value (the winit backend, in the surrounding
//! application) into these types one-for-one before calling the library; a
//! different backend only needs a different conversion, not a new model.

use vstd::prelude::*;

verus! {

/// A backend press/release report, kept as its own type so that the raw and
/// canonical vocabularies stay independent.
#[derive(Clone, Copy, Debug, PartialEq, Eq)]
pub enum RawElementState {
    Pressed,
    Released,
}

/// A backend mouse-button report: three named buttons, or an auxiliary
/// button carrying the backend's index verbatim.
#[derive(Clone, Copy, Debug, PartialEq, Eq)]
pub enum RawMouseButton {
    Left,
    Right,
    Middle,
    Other(u8),
}

/// A backend modifier-key snapshot: the four flags the backend reports at
/// the moment of an event.
#[derive(Clone, Copy, Debug, PartialEq, Eq)]
pub struct RawModifiersState {
    pub shift: bool,
    pub ctrl: bool,
    pub alt: bool,
    pub logo: bool,
}

/// The backend's virtual key-code vocabulary, one variant per code the
/// backend can report (the winit backend's full set). This is the open end
/// of the mapping: codes with no canonical image normalize to `Unknown`.
#[derive(Clone, Copy, Debug, PartialEq, Eq)]
pub enum RawKeyCode {
    Key1,
    Key2,
    Key3,
    Key4,
    Key5,
    Key6,
    Key7,
    Key8,
    Key9,
    Key0,
    A,
    B,
    C,
    D,
    E,
    F,
    G,
    H,
    I,
    J,
    K,
    L,
    M,
    N,
    O,
    P,
    Q,
    R,
    S,
    T,
    U,
    V,
    W,
    X,
    Y,
    Z,
    Escape,
    F1,
    F2,
    F3,
    F4,
    F5,
    F6,
    F7,
    F8,
    F9,
    F10,
    F11,
    F12,
    F13,
    F14,
    F15,
    F16,
    F17,
    F18,
    F19,
    F20,
    F21,
    F22,
    F23,
    F24,
    Snapshot,
    Scroll,
    Pause,
    Insert,
    Home,
    Delete,
    End,
    PageDown,
    PageUp,
    Left,
    Up,
    Right,
    Down,
    Back,
    Return,
    Space,
    Compose,
    Caret,
    Numlock,
    Numpad0,
    Numpad1,
    Numpad2,
    Numpad3,
    Numpad4,
    Numpad5,
    Numpad6,
    Numpad7,
    Numpad8,
    Numpad9,
    AbntC1,
    AbntC2,
    Add,
    Apostrophe,
    Apps,
    At,
    Ax,
    Backslash,
    Calculator,
    Capital,
    Colon,
    Comma,
    Convert,
    Decimal,
    Divide,
    Equals,
    Grave,
    Kana,
    Kanji,
    LAlt,
    LBracket,
    LControl,
    LShift,
    LWin,
    Mail,
    MediaSelect,
    MediaStop,
    Minus,
    Multiply,
    Mute,
    MyComputer,
    NavigateForward,
    NavigateBackward,
    NextTrack,
    NoConvert,
    NumpadComma,
    NumpadEnter,
    NumpadEquals,
    OEM102,
    Period,
    PlayPause,
    Power,
    PrevTrack,
    RAlt,
    RBracket,
    RControl,
    RShift,
    RWin,
    Semicolon,
    Slash,
    Sleep,
    Stop,
    Subtract,
    Sysrq,
    Tab,
    Underline,
    Unlabeled,
    VolumeDown,
    VolumeUp,
    Wake,
    WebBack,
    WebFavorites,
    WebForward,
    WebHome,
    WebRefresh,
    WebSearch,
    WebStop,
    Yen,
    Copy,
    Paste,
    Cut,
}

/// One window-level backend notification, reduced to the payload that
/// normalization reads. Notifications outside the recognized shapes arrive
/// as `Other` and normalize to `Unknown`.
#[derive(Clone, Copy, Debug, PartialEq, Eq)]
pub enum RawWindowEvent {
    Resized,
    Moved,
    CloseRequested,
    CursorMoved,
    MouseInput { state: RawElementState, button: RawMouseButton, modifiers: RawModifiersState },
    KeyboardInput { virtual_keycode: Option<RawKeyCode>, state: RawElementState, modifiers: RawModifiersState },
    Other,
}

/// One raw backend event: a window-level notification, or any other event
/// kind the backend emits (device, lifecycle, user events), which the
/// normalizer uniformly maps to `Unknown`.
#[derive(Clone, Copy, Debug, PartialEq, Eq)]
pub enum RawEvent {
    WindowEvent(RawWindowEvent),
    Other,
}

} // verus!
