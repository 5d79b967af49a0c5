//! The canonical, backend-independent event model.
//!
//! Every value here is immutable and transient: constructed fresh for one raw
//! backend event, handed to dispatch, then discarded. No value carries hidden
//! state, so equal inputs always yield equal canonical events.

use vstd::prelude::*;

verus! {

/// A key or mouse-button transition: each physical transition is exactly one
/// press or one release; there is no repeat or "held" notion.
#[derive(Clone, Copy, Debug, PartialEq, Eq, Hash)]
pub enum State {
    Pressed,
    Released,
}

/// The closed set of canonical key identities the library recognizes, one
/// variant per physically distinct key. Extending this set is a deliberate,
/// compatibility-affecting change; a backend key code outside it normalizes
/// to [`NazarustEvents::Unknown`].
#[derive(Clone, Copy, Debug, PartialEq, Eq, Hash)]
pub enum Key {
    Key1,
    Key2,
    Key3,
    Key4,
    Key5,
    Key6,
    Key7,
    Key8,
    Key9,
    A,
    B,
    C,
    D,
    E,
    F,
    G,
    H,
    I,
    J,
    K,
    L,
    M,
    N,
    O,
    P,
    Q,
    R,
    S,
    T,
    U,
    V,
    W,
    X,
    Y,
    Z,
    Escape,
    F1,
    F2,
    F3,
    F4,
    F5,
    F6,
    F7,
    F8,
    F9,
    F10,
    F11,
    F12,
    F13,
    F14,
    F15,
    F16,
    F17,
    F18,
    F19,
    F20,
    F21,
    F22,
    F23,
    F24,
    Snapshot,
    Scroll,
    Pause,
    Insert,
    Home,
    Delete,
    End,
    PageDown,
    PageUp,
    Left,
    Up,
    Right,
    Down,
    Back,
    Return,
    Space,
    Compose,
    Caret,
    Numlock,
    Numpad0,
    Numpad1,
    Numpad2,
    Numpad3,
    Numpad4,
    Numpad5,
    Numpad6,
    Numpad7,
    Numpad8,
    Numpad9,
    AbntC1,
    AbntC2,
    Add,
    Apostrophe,
    Apps,
    At,
    Ax,
    Backslash,
    Calculator,
    Capital,
    Colon,
    Comma,
    Convert,
    Decimal,
    Divide,
    Equals,
    Grave,
    Kana,
    Kanji,
    LAlt,
    LControl,
    LWin,
    Mail,
    MediaSelect,
    MediaStop,
    Minus,
    Multiply,
    Mute,
    MyComputer,
    NavigateForward,
    NavigateBackward,
    NextTrack,
    NoConvert,
    NumpadComma,
    NumpadEnter,
    NumpadEquals,
    OEM102,
    Period,
    PlayPause,
    Power,
    PrevTrack,
    RAlt,
    RBracket,
    RControl,
    RShift,
    RWin,
    Semicolon,
    Slash,
    Sleep,
    Stop,
    Subtract,
    Sysrq,
    Tab,
    Underline,
    Unlabeled,
    VolumeDown,
    VolumeUp,
    Wake,
    WebBack,
    WebFavorites,
    WebForward,
    WebHome,
    WebRefresh,
    WebSearch,
    WebStop,
    Yen,
    Copy,
    Paste,
    Cut,
}

/// One keyboard transition: a recognized key identity paired with its press
/// state. Both axes are always populated; a raw event that cannot fill both
/// normalizes to [`NazarustEvents::Unknown`] instead.
#[derive(Clone, Copy, Debug, PartialEq, Eq, Hash)]
pub struct KeyEvent {
    pub key: Key,
    pub state: State,
}

/// A canonical mouse-button identity. Auxiliary buttons keep the backend's
/// reported index verbatim in `Other`.
#[derive(Clone, Copy, Debug, PartialEq, Eq, Hash)]
pub enum MouseButton {
    Left,
    Right,
    Middle,
    Other(u8),
}

/// One canonical mouse notification: a button transition, or a bare
/// cursor-motion notification (the minimal model carries no coordinates).
#[derive(Clone, Copy, Debug, PartialEq, Eq, Hash)]
pub enum MouseEvent {
    Button { mouse_button: MouseButton, state: State },
    Moved,
}

/// The closed set of canonical window lifecycle notifications.
#[derive(Clone, Copy, Debug, PartialEq, Eq, Hash)]
pub enum WindowEvent {
    Resized,
    Moved,
    CloseRequested,
}

/// The canonical modifier state: four independent flags, always all defined,
/// derived fresh from the backend snapshot on every event and never
/// accumulated across events.
#[derive(Clone, Copy, Debug, PartialEq, Eq, Hash)]
pub struct NazarustModifiersState {
    pub shift: bool,
    pub ctrl: bool,
    pub alt: bool,
    pub logo: bool,
}

/// The canonical event: exactly one value per raw backend event. Modifier
/// state is attached only where the backend supplies a snapshot at the point
/// of translation (key and button events); motion and window notifications
/// carry none. `Unknown` is the explicit, first-class fallback for any raw
/// event the normalizer declines to map; it is never an error.
#[derive(Clone, Copy, Debug, PartialEq, Eq)]
pub enum NazarustEvents {
    KeyEvent(KeyEvent, NazarustModifiersState),
    MouseEvent(MouseEvent, Option<NazarustModifiersState>),
    WindowEvent(WindowEvent),
    Unknown,
}

/// Marker for the canonical per-category event types, so that dispatch code
/// can be generic over them; each is hashable and admits total equality.
pub trait NazarustEvent: Eq + core::hash::Hash {
}

impl NazarustEvent for KeyEvent {
}

impl NazarustEvent for MouseEvent {
}

impl NazarustEvent for WindowEvent {
}

} // verus!
