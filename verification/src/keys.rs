//! Key identifiers: the keys that hotkeys can be bound to, their names in the
//! hotkey configuration, and the rules on which of them may serve as hotkeys.

use vstd::prelude::*;
use crate::text::{is_text, trim, trim_chars};

verus! {

/// A key of the keyboard, as the global key listener reports it and as a
/// hotkey binding stores it.
#[derive(Clone, Copy, Debug, PartialEq, Eq, Hash, Structural)]
pub enum KeyId {
    Key0,
    Key1,
    Key2,
    Key3,
    Key4,
    Key5,
    Key6,
    Key7,
    Key8,
    Key9,
    A,
    B,
    C,
    D,
    E,
    F,
    G,
    H,
    I,
    J,
    K,
    L,
    M,
    N,
    O,
    P,
    Q,
    R,
    S,
    T,
    U,
    V,
    W,
    X,
    Y,
    Z,
    F1,
    F2,
    F3,
    F4,
    F5,
    F6,
    F7,
    F8,
    F9,
    F10,
    F11,
    F12,
    F13,
    F14,
    F15,
    F16,
    F17,
    F18,
    F19,
    F20,
    Escape,
    Space,
    LControl,
    RControl,
    LShift,
    RShift,
    LAlt,
    RAlt,
    Command,
    RCommand,
    LOption,
    ROption,
    LMeta,
    RMeta,
    Enter,
    Up,
    Down,
    Left,
    Right,
    Backspace,
    CapsLock,
    Tab,
    Home,
    End,
    PageUp,
    PageDown,
    Insert,
    Delete,
    Numpad0,
    Numpad1,
    Numpad2,
    Numpad3,
    Numpad4,
    Numpad5,
    Numpad6,
    Numpad7,
    Numpad8,
    Numpad9,
    NumpadSubtract,
    NumpadAdd,
    NumpadDivide,
    NumpadMultiply,
    NumpadEquals,
    NumpadEnter,
    NumpadDecimal,
    Grave,
    Minus,
    Equal,
    LeftBracket,
    RightBracket,
    BackSlash,
    Semicolon,
    Apostrophe,
    Comma,
    Dot,
    Slash,
}

impl KeyId {
    /// The key's name: the word that stands for it in the hotkey
    /// configuration.
    pub open spec fn name_spec(self) -> Seq<char> {
        match self {
            KeyId::Key0 => "Key0"@,
            KeyId::Key1 => "Key1"@,
            KeyId::Key2 => "Key2"@,
            KeyId::Key3 => "Key3"@,
            KeyId::Key4 => "Key4"@,
            KeyId::Key5 => "Key5"@,
            KeyId::Key6 => "Key6"@,
            KeyId::Key7 => "Key7"@,
            KeyId::Key8 => "Key8"@,
            KeyId::Key9 => "Key9"@,
            KeyId::A => "A"@,
            KeyId::B => "B"@,
            KeyId::C => "C"@,
            KeyId::D => "D"@,
            KeyId::E => "E"@,
            KeyId::F => "F"@,
            KeyId::G => "G"@,
            KeyId::H => "H"@,
            KeyId::I => "I"@,
            KeyId::J => "J"@,
            KeyId::K => "K"@,
            KeyId::L => "L"@,
            KeyId::M => "M"@,
            KeyId::N => "N"@,
            KeyId::O => "O"@,
            KeyId::P => "P"@,
            KeyId::Q => "Q"@,
            KeyId::R => "R"@,
            KeyId::S => "S"@,
            KeyId::T => "T"@,
            KeyId::U => "U"@,
            KeyId::V => "V"@,
            KeyId::W => "W"@,
            KeyId::X => "X"@,
            KeyId::Y => "Y"@,
            KeyId::Z => "Z"@,
            KeyId::F1 => "F1"@,
            KeyId::F2 => "F2"@,
            KeyId::F3 => "F3"@,
            KeyId::F4 => "F4"@,
            KeyId::F5 => "F5"@,
            KeyId::F6 => "F6"@,
            KeyId::F7 => "F7"@,
            KeyId::F8 => "F8"@,
            KeyId::F9 => "F9"@,
            KeyId::F10 => "F10"@,
            KeyId::F11 => "F11"@,
            KeyId::F12 => "F12"@,
            KeyId::F13 => "F13"@,
            KeyId::F14 => "F14"@,
            KeyId::F15 => "F15"@,
            KeyId::F16 => "F16"@,
            KeyId::F17 => "F17"@,
            KeyId::F18 => "F18"@,
            KeyId::F19 => "F19"@,
            KeyId::F20 => "F20"@,
            KeyId::Escape => "Escape"@,
            KeyId::Space => "Space"@,
            KeyId::LControl => "LControl"@,
            KeyId::RControl => "RControl"@,
            KeyId::LShift => "LShift"@,
            KeyId::RShift => "RShift"@,
            KeyId::LAlt => "LAlt"@,
            KeyId::RAlt => "RAlt"@,
            KeyId::Command => "Command"@,
            KeyId::RCommand => "RCommand"@,
            KeyId::LOption => "LOption"@,
            KeyId::ROption => "ROption"@,
            KeyId::LMeta => "LMeta"@,
            KeyId::RMeta => "RMeta"@,
            KeyId::Enter => "Enter"@,
            KeyId::Up => "Up"@,
            KeyId::Down => "Down"@,
            KeyId::Left => "Left"@,
            KeyId::Right => "Right"@,
            KeyId::Backspace => "Backspace"@,
            KeyId::CapsLock => "CapsLock"@,
            KeyId::Tab => "Tab"@,
            KeyId::Home => "Home"@,
            KeyId::End => "End"@,
            KeyId::PageUp => "PageUp"@,
            KeyId::PageDown => "PageDown"@,
            KeyId::Insert => "Insert"@,
            KeyId::Delete => "Delete"@,
            KeyId::Numpad0 => "Numpad0"@,
            KeyId::Numpad1 => "Numpad1"@,
            KeyId::Numpad2 => "Numpad2"@,
            KeyId::Numpad3 => "Numpad3"@,
            KeyId::Numpad4 => "Numpad4"@,
            KeyId::Numpad5 => "Numpad5"@,
            KeyId::Numpad6 => "Numpad6"@,
            KeyId::Numpad7 => "Numpad7"@,
            KeyId::Numpad8 => "Numpad8"@,
            KeyId::Numpad9 => "Numpad9"@,
            KeyId::NumpadSubtract => "NumpadSubtract"@,
            KeyId::NumpadAdd => "NumpadAdd"@,
            KeyId::NumpadDivide => "NumpadDivide"@,
            KeyId::NumpadMultiply => "NumpadMultiply"@,
            KeyId::NumpadEquals => "NumpadEquals"@,
            KeyId::NumpadEnter => "NumpadEnter"@,
            KeyId::NumpadDecimal => "NumpadDecimal"@,
            KeyId::Grave => "Grave"@,
            KeyId::Minus => "Minus"@,
            KeyId::Equal => "Equal"@,
            KeyId::LeftBracket => "LeftBracket"@,
            KeyId::RightBracket => "RightBracket"@,
            KeyId::BackSlash => "BackSlash"@,
            KeyId::Semicolon => "Semicolon"@,
            KeyId::Apostrophe => "Apostrophe"@,
            KeyId::Comma => "Comma"@,
            KeyId::Dot => "Dot"@,
            KeyId::Slash => "Slash"@,
        }
    }

    /// Whether the key is reserved: a function key, a modifier key (Shift,
    /// Control, Alt, Meta, Command or Option, left or right), Tab or
    /// CapsLock. A reserved key is never accepted as a hotkey.
    pub open spec fn is_reserved(self) -> bool {
        match self {
            KeyId::F1
            | KeyId::F2
            | KeyId::F3
            | KeyId::F4
            | KeyId::F5
            | KeyId::F6
            | KeyId::F7
            | KeyId::F8
            | KeyId::F9
            | KeyId::F10
            | KeyId::F11
            | KeyId::F12
            | KeyId::F13
            | KeyId::F14
            | KeyId::F15
            | KeyId::F16
            | KeyId::F17
            | KeyId::F18
            | KeyId::F19
            | KeyId::F20
            | KeyId::LControl
            | KeyId::RControl
            | KeyId::LShift
            | KeyId::RShift
            | KeyId::LAlt
            | KeyId::RAlt
            | KeyId::Command
            | KeyId::RCommand
            | KeyId::LOption
            | KeyId::ROption
            | KeyId::LMeta
            | KeyId::RMeta
            | KeyId::Tab
            | KeyId::CapsLock => true,
            _ => false,
        }
    }

    /// Whether the key is one of the two keys that advance a song by one step
    /// in manual mode: the semicolon and the apostrophe.
    pub open spec fn is_advance_key(self) -> bool {
        self == KeyId::Semicolon || self == KeyId::Apostrophe
    }

    /// The text shown for the key: `Esc` for Escape, `+` for Equal, `-` for
    /// Minus, and the key's name for every other key.
    pub open spec fn description_spec(self) -> Seq<char> {
        match self {
            KeyId::Escape => "Esc"@,
            KeyId::Equal => "+"@,
            KeyId::Minus => "-"@,
            _ => self.name_spec(),
        }
    }

    /// The key's name.
    pub fn name(self) -> (name: &'static str)
        ensures
            name@ == self.name_spec(),
    {
        match self {
            KeyId::Key0 => "Key0",
            KeyId::Key1 => "Key1",
            KeyId::Key2 => "Key2",
            KeyId::Key3 => "Key3",
            KeyId::Key4 => "Key4",
            KeyId::Key5 => "Key5",
            KeyId::Key6 => "Key6",
            KeyId::Key7 => "Key7",
            KeyId::Key8 => "Key8",
            KeyId::Key9 => "Key9",
            KeyId::A => "A",
            KeyId::B => "B",
            KeyId::C => "C",
            KeyId::D => "D",
            KeyId::E => "E",
            KeyId::F => "F",
            KeyId::G => "G",
            KeyId::H => "H",
            KeyId::I => "I",
            KeyId::J => "J",
            KeyId::K => "K",
            KeyId::L => "L",
            KeyId::M => "M",
            KeyId::N => "N",
            KeyId::O => "O",
            KeyId::P => "P",
            KeyId::Q => "Q",
            KeyId::R => "R",
            KeyId::S => "S",
            KeyId::T => "T",
            KeyId::U => "U",
            KeyId::V => "V",
            KeyId::W => "W",
            KeyId::X => "X",
            KeyId::Y => "Y",
            KeyId::Z => "Z",
            KeyId::F1 => "F1",
            KeyId::F2 => "F2",
            KeyId::F3 => "F3",
            KeyId::F4 => "F4",
            KeyId::F5 => "F5",
            KeyId::F6 => "F6",
            KeyId::F7 => "F7",
            KeyId::F8 => "F8",
            KeyId::F9 => "F9",
            KeyId::F10 => "F10",
            KeyId::F11 => "F11",
            KeyId::F12 => "F12",
            KeyId::F13 => "F13",
            KeyId::F14 => "F14",
            KeyId::F15 => "F15",
            KeyId::F16 => "F16",
            KeyId::F17 => "F17",
            KeyId::F18 => "F18",
            KeyId::F19 => "F19",
            KeyId::F20 => "F20",
            KeyId::Escape => "Escape",
            KeyId::Space => "Space",
            KeyId::LControl => "LControl",
            KeyId::RControl => "RControl",
            KeyId::LShift => "LShift",
            KeyId::RShift => "RShift",
            KeyId::LAlt => "LAlt",
            KeyId::RAlt => "RAlt",
            KeyId::Command => "Command",
            KeyId::RCommand => "RCommand",
            KeyId::LOption => "LOption",
            KeyId::ROption => "ROption",
            KeyId::LMeta => "LMeta",
            KeyId::RMeta => "RMeta",
            KeyId::Enter => "Enter",
            KeyId::Up => "Up",
            KeyId::Down => "Down",
            KeyId::Left => "Left",
            KeyId::Right => "Right",
            KeyId::Backspace => "Backspace",
            KeyId::CapsLock => "CapsLock",
            KeyId::Tab => "Tab",
            KeyId::Home => "Home",
            KeyId::End => "End",
            KeyId::PageUp => "PageUp",
            KeyId::PageDown => "PageDown",
            KeyId::Insert => "Insert",
            KeyId::Delete => "Delete",
            KeyId::Numpad0 => "Numpad0",
            KeyId::Numpad1 => "Numpad1",
            KeyId::Numpad2 => "Numpad2",
            KeyId::Numpad3 => "Numpad3",
            KeyId::Numpad4 => "Numpad4",
            KeyId::Numpad5 => "Numpad5",
            KeyId::Numpad6 => "Numpad6",
            KeyId::Numpad7 => "Numpad7",
            KeyId::Numpad8 => "Numpad8",
            KeyId::Numpad9 => "Numpad9",
            KeyId::NumpadSubtract => "NumpadSubtract",
            KeyId::NumpadAdd => "NumpadAdd",
            KeyId::NumpadDivide => "NumpadDivide",
            KeyId::NumpadMultiply => "NumpadMultiply",
            KeyId::NumpadEquals => "NumpadEquals",
            KeyId::NumpadEnter => "NumpadEnter",
            KeyId::NumpadDecimal => "NumpadDecimal",
            KeyId::Grave => "Grave",
            KeyId::Minus => "Minus",
            KeyId::Equal => "Equal",
            KeyId::LeftBracket => "LeftBracket",
            KeyId::RightBracket => "RightBracket",
            KeyId::BackSlash => "BackSlash",
            KeyId::Semicolon => "Semicolon",
            KeyId::Apostrophe => "Apostrophe",
            KeyId::Comma => "Comma",
            KeyId::Dot => "Dot",
            KeyId::Slash => "Slash",
        }
    }

    /// Whether the key advances a song by one step in manual mode.
    pub fn advances(self) -> (yes: bool)
        ensures
            yes == self.is_advance_key(),
    {
        self == KeyId::Semicolon || self == KeyId::Apostrophe
    }
}

/// The key that the configuration word `name` stands for: the key of that
/// name, if it may serve as a hotkey. The name of a reserved key, and any
/// other word, stands for no key.
pub open spec fn config_key(name: Seq<char>) -> Option<KeyId> {
    if name == "Key0"@ {
        Some(KeyId::Key0)
    } else if name == "Key1"@ {
        Some(KeyId::Key1)
    } else if name == "Key2"@ {
        Some(KeyId::Key2)
    } else if name == "Key3"@ {
        Some(KeyId::Key3)
    } else if name == "Key4"@ {
        Some(KeyId::Key4)
    } else if name == "Key5"@ {
        Some(KeyId::Key5)
    } else if name == "Key6"@ {
        Some(KeyId::Key6)
    } else if name == "Key7"@ {
        Some(KeyId::Key7)
    } else if name == "Key8"@ {
        Some(KeyId::Key8)
    } else if name == "Key9"@ {
        Some(KeyId::Key9)
    } else if name == "A"@ {
        Some(KeyId::A)
    } else if name == "B"@ {
        Some(KeyId::B)
    } else if name == "C"@ {
        Some(KeyId::C)
    } else if name == "D"@ {
        Some(KeyId::D)
    } else if name == "E"@ {
        Some(KeyId::E)
    } else if name == "F"@ {
        Some(KeyId::F)
    } else if name == "G"@ {
        Some(KeyId::G)
    } else if name == "H"@ {
        Some(KeyId::H)
    } else if name == "I"@ {
        Some(KeyId::I)
    } else if name == "J"@ {
        Some(KeyId::J)
    } else if name == "K"@ {
        Some(KeyId::K)
    } else if name == "L"@ {
        Some(KeyId::L)
    } else if name == "M"@ {
        Some(KeyId::M)
    } else if name == "N"@ {
        Some(KeyId::N)
    } else if name == "O"@ {
        Some(KeyId::O)
    } else if name == "P"@ {
        Some(KeyId::P)
    } else if name == "Q"@ {
        Some(KeyId::Q)
    } else if name == "R"@ {
        Some(KeyId::R)
    } else if name == "S"@ {
        Some(KeyId::S)
    } else if name == "T"@ {
        Some(KeyId::T)
    } else if name == "U"@ {
        Some(KeyId::U)
    } else if name == "V"@ {
        Some(KeyId::V)
    } else if name == "W"@ {
        Some(KeyId::W)
    } else if name == "X"@ {
        Some(KeyId::X)
    } else if name == "Y"@ {
        Some(KeyId::Y)
    } else if name == "Z"@ {
        Some(KeyId::Z)
    } else if name == "Escape"@ {
        Some(KeyId::Escape)
    } else if name == "Space"@ {
        Some(KeyId::Space)
    } else if name == "Enter"@ {
        Some(KeyId::Enter)
    } else if name == "Up"@ {
        Some(KeyId::Up)
    } else if name == "Down"@ {
        Some(KeyId::Down)
    } else if name == "Left"@ {
        Some(KeyId::Left)
    } else if name == "Right"@ {
        Some(KeyId::Right)
    } else if name == "Backspace"@ {
        Some(KeyId::Backspace)
    } else if name == "Home"@ {
        Some(KeyId::Home)
    } else if name == "End"@ {
        Some(KeyId::End)
    } else if name == "PageUp"@ {
        Some(KeyId::PageUp)
    } else if name == "PageDown"@ {
        Some(KeyId::PageDown)
    } else if name == "Insert"@ {
        Some(KeyId::Insert)
    } else if name == "Delete"@ {
        Some(KeyId::Delete)
    } else if name == "Numpad0"@ {
        Some(KeyId::Numpad0)
    } else if name == "Numpad1"@ {
        Some(KeyId::Numpad1)
    } else if name == "Numpad2"@ {
        Some(KeyId::Numpad2)
    } else if name == "Numpad3"@ {
        Some(KeyId::Numpad3)
    } else if name == "Numpad4"@ {
        Some(KeyId::Numpad4)
    } else if name == "Numpad5"@ {
        Some(KeyId::Numpad5)
    } else if name == "Numpad6"@ {
        Some(KeyId::Numpad6)
    } else if name == "Numpad7"@ {
        Some(KeyId::Numpad7)
    } else if name == "Numpad8"@ {
        Some(KeyId::Numpad8)
    } else if name == "Numpad9"@ {
        Some(KeyId::Numpad9)
    } else if name == "NumpadSubtract"@ {
        Some(KeyId::NumpadSubtract)
    } else if name == "NumpadAdd"@ {
        Some(KeyId::NumpadAdd)
    } else if name == "NumpadDivide"@ {
        Some(KeyId::NumpadDivide)
    } else if name == "NumpadMultiply"@ {
        Some(KeyId::NumpadMultiply)
    } else if name == "NumpadEquals"@ {
        Some(KeyId::NumpadEquals)
    } else if name == "NumpadEnter"@ {
        Some(KeyId::NumpadEnter)
    } else if name == "NumpadDecimal"@ {
        Some(KeyId::NumpadDecimal)
    } else if name == "Grave"@ {
        Some(KeyId::Grave)
    } else if name == "Minus"@ {
        Some(KeyId::Minus)
    } else if name == "Equal"@ {
        Some(KeyId::Equal)
    } else if name == "LeftBracket"@ {
        Some(KeyId::LeftBracket)
    } else if name == "RightBracket"@ {
        Some(KeyId::RightBracket)
    } else if name == "BackSlash"@ {
        Some(KeyId::BackSlash)
    } else if name == "Semicolon"@ {
        Some(KeyId::Semicolon)
    } else if name == "Apostrophe"@ {
        Some(KeyId::Apostrophe)
    } else if name == "Comma"@ {
        Some(KeyId::Comma)
    } else if name == "Dot"@ {
        Some(KeyId::Dot)
    } else if name == "Slash"@ {
        Some(KeyId::Slash)
    } else {
        None
    }
}

/// The key that the global listener's key name `name` stands for. The
/// listener has names of its own; every key of the listener that is also a
/// key here stands for it, and every other name stands for no key.
pub open spec fn listener_key(name: Seq<char>) -> Option<KeyId> {
    if name == "Alt"@ {
        Some(KeyId::LAlt)
    } else if name == "AltGr"@ {
        Some(KeyId::RAlt)
    } else if name == "Backspace"@ {
        Some(KeyId::Backspace)
    } else if name == "CapsLock"@ {
        Some(KeyId::CapsLock)
    } else if name == "ControlLeft"@ {
        Some(KeyId::LControl)
    } else if name == "ControlRight"@ {
        Some(KeyId::RControl)
    } else if name == "Delete"@ {
        Some(KeyId::Delete)
    } else if name == "DownArrow"@ {
        Some(KeyId::Down)
    } else if name == "End"@ {
        Some(KeyId::End)
    } else if name == "Escape"@ {
        Some(KeyId::Escape)
    } else if name == "F1"@ {
        Some(KeyId::F1)
    } else if name == "F2"@ {
        Some(KeyId::F2)
    } else if name == "F3"@ {
        Some(KeyId::F3)
    } else if name == "F4"@ {
        Some(KeyId::F4)
    } else if name == "F5"@ {
        Some(KeyId::F5)
    } else if name == "F6"@ {
        Some(KeyId::F6)
    } else if name == "F7"@ {
        Some(KeyId::F7)
    } else if name == "F8"@ {
        Some(KeyId::F8)
    } else if name == "F9"@ {
        Some(KeyId::F9)
    } else if name == "F10"@ {
        Some(KeyId::F10)
    } else if name == "F11"@ {
        Some(KeyId::F11)
    } else if name == "F12"@ {
        Some(KeyId::F12)
    } else if name == "Home"@ {
        Some(KeyId::Home)
    } else if name == "LeftArrow"@ {
        Some(KeyId::Left)
    } else if name == "MetaLeft"@ {
        Some(KeyId::LMeta)
    } else if name == "MetaRight"@ {
        Some(KeyId::RMeta)
    } else if name == "PageDown"@ {
        Some(KeyId::PageDown)
    } else if name == "PageUp"@ {
        Some(KeyId::PageUp)
    } else if name == "Return"@ {
        Some(KeyId::Enter)
    } else if name == "RightArrow"@ {
        Some(KeyId::Right)
    } else if name == "ShiftLeft"@ {
        Some(KeyId::LShift)
    } else if name == "ShiftRight"@ {
        Some(KeyId::RShift)
    } else if name == "Space"@ {
        Some(KeyId::Space)
    } else if name == "Tab"@ {
        Some(KeyId::Tab)
    } else if name == "UpArrow"@ {
        Some(KeyId::Up)
    } else if name == "BackQuote"@ {
        Some(KeyId::Grave)
    } else if name == "Num0"@ {
        Some(KeyId::Key0)
    } else if name == "Num1"@ {
        Some(KeyId::Key1)
    } else if name == "Num2"@ {
        Some(KeyId::Key2)
    } else if name == "Num3"@ {
        Some(KeyId::Key3)
    } else if name == "Num4"@ {
        Some(KeyId::Key4)
    } else if name == "Num5"@ {
        Some(KeyId::Key5)
    } else if name == "Num6"@ {
        Some(KeyId::Key6)
    } else if name == "Num7"@ {
        Some(KeyId::Key7)
    } else if name == "Num8"@ {
        Some(KeyId::Key8)
    } else if name == "Num9"@ {
        Some(KeyId::Key9)
    } else if name == "Minus"@ {
        Some(KeyId::Minus)
    } else if name == "Equal"@ {
        Some(KeyId::Equal)
    } else if name == "KeyA"@ {
        Some(KeyId::A)
    } else if name == "KeyB"@ {
        Some(KeyId::B)
    } else if name == "KeyC"@ {
        Some(KeyId::C)
    } else if name == "KeyD"@ {
        Some(KeyId::D)
    } else if name == "KeyE"@ {
        Some(KeyId::E)
    } else if name == "KeyF"@ {
        Some(KeyId::F)
    } else if name == "KeyG"@ {
        Some(KeyId::G)
    } else if name == "KeyH"@ {
        Some(KeyId::H)
    } else if name == "KeyI"@ {
        Some(KeyId::I)
    } else if name == "KeyJ"@ {
        Some(KeyId::J)
    } else if name == "KeyK"@ {
        Some(KeyId::K)
    } else if name == "KeyL"@ {
        Some(KeyId::L)
    } else if name == "KeyM"@ {
        Some(KeyId::M)
    } else if name == "KeyN"@ {
        Some(KeyId::N)
    } else if name == "KeyO"@ {
        Some(KeyId::O)
    } else if name == "KeyP"@ {
        Some(KeyId::P)
    } else if name == "KeyQ"@ {
        Some(KeyId::Q)
    } else if name == "KeyR"@ {
        Some(KeyId::R)
    } else if name == "KeyS"@ {
        Some(KeyId::S)
    } else if name == "KeyT"@ {
        Some(KeyId::T)
    } else if name == "KeyU"@ {
        Some(KeyId::U)
    } else if name == "KeyV"@ {
        Some(KeyId::V)
    } else if name == "KeyW"@ {
        Some(KeyId::W)
    } else if name == "KeyX"@ {
        Some(KeyId::X)
    } else if name == "KeyY"@ {
        Some(KeyId::Y)
    } else if name == "KeyZ"@ {
        Some(KeyId::Z)
    } else if name == "LeftBracket"@ {
        Some(KeyId::LeftBracket)
    } else if name == "RightBracket"@ {
        Some(KeyId::RightBracket)
    } else if name == "SemiColon"@ {
        Some(KeyId::Semicolon)
    } else if name == "Quote"@ {
        Some(KeyId::Apostrophe)
    } else if name == "BackSlash"@ {
        Some(KeyId::BackSlash)
    } else if name == "Comma"@ {
        Some(KeyId::Comma)
    } else if name == "Dot"@ {
        Some(KeyId::Dot)
    } else if name == "Slash"@ {
        Some(KeyId::Slash)
    } else if name == "Insert"@ {
        Some(KeyId::Insert)
    } else if name == "KpReturn"@ {
        Some(KeyId::NumpadEnter)
    } else if name == "KpMinus"@ {
        Some(KeyId::NumpadSubtract)
    } else if name == "KpPlus"@ {
        Some(KeyId::NumpadAdd)
    } else if name == "KpMultiply"@ {
        Some(KeyId::NumpadMultiply)
    } else if name == "KpDivide"@ {
        Some(KeyId::NumpadDivide)
    } else if name == "Kp0"@ {
        Some(KeyId::Numpad0)
    } else if name == "Kp1"@ {
        Some(KeyId::Numpad1)
    } else if name == "Kp2"@ {
        Some(KeyId::Numpad2)
    } else if name == "Kp3"@ {
        Some(KeyId::Numpad3)
    } else if name == "Kp4"@ {
        Some(KeyId::Numpad4)
    } else if name == "Kp5"@ {
        Some(KeyId::Numpad5)
    } else if name == "Kp6"@ {
        Some(KeyId::Numpad6)
    } else if name == "Kp7"@ {
        Some(KeyId::Numpad7)
    } else if name == "Kp8"@ {
        Some(KeyId::Numpad8)
    } else if name == "Kp9"@ {
        Some(KeyId::Numpad9)
    } else if name == "KpDelete"@ {
        Some(KeyId::NumpadDecimal)
    } else {
        None
    }
}

/// The configuration reads back every name it may be given: the name of a
/// key that may serve as a hotkey has no white space around it and stands
/// for that key.
pub proof fn lemma_config_key_reads_names(key: KeyId)
    requires
        !key.is_reserved(),
    ensures
        trim(key.name_spec()) == key.name_spec(),
        config_key(key.name_spec()) == Some(key),
{
    reveal_strlit("Key0");
    assert("Key0"@.len() == 4 && "Key0"@[0] == 'K' && "Key0"@[1] == 'e' && "Key0"@[2] == 'y' && "Key0"@[3] == '0');
    reveal_strlit("Key1");
    assert("Key1"@.len() == 4 && "Key1"@[0] == 'K' && "Key1"@[1] == 'e' && "Key1"@[2] == 'y' && "Key1"@[3] == '1');
    reveal_strlit("Key2");
    assert("Key2"@.len() == 4 && "Key2"@[0] == 'K' && "Key2"@[1] == 'e' && "Key2"@[2] == 'y' && "Key2"@[3] == '2');
    reveal_strlit("Key3");
    assert("Key3"@.len() == 4 && "Key3"@[0] == 'K' && "Key3"@[1] == 'e' && "Key3"@[2] == 'y' && "Key3"@[3] == '3');
    reveal_strlit("Key4");
    assert("Key4"@.len() == 4 && "Key4"@[0] == 'K' && "Key4"@[1] == 'e' && "Key4"@[2] == 'y' && "Key4"@[3] == '4');
    reveal_strlit("Key5");
    assert("Key5"@.len() == 4 && "Key5"@[0] == 'K' && "Key5"@[1] == 'e' && "Key5"@[2] == 'y' && "Key5"@[3] == '5');
    reveal_strlit("Key6");
    assert("Key6"@.len() == 4 && "Key6"@[0] == 'K' && "Key6"@[1] == 'e' && "Key6"@[2] == 'y' && "Key6"@[3] == '6');
    reveal_strlit("Key7");
    assert("Key7"@.len() == 4 && "Key7"@[0] == 'K' && "Key7"@[1] == 'e' && "Key7"@[2] == 'y' && "Key7"@[3] == '7');
    reveal_strlit("Key8");
    assert("Key8"@.len() == 4 && "Key8"@[0] == 'K' && "Key8"@[1] == 'e' && "Key8"@[2] == 'y' && "Key8"@[3] == '8');
    reveal_strlit("Key9");
    assert("Key9"@.len() == 4 && "Key9"@[0] == 'K' && "Key9"@[1] == 'e' && "Key9"@[2] == 'y' && "Key9"@[3] == '9');
    reveal_strlit("A");
    assert("A"@.len() == 1 && "A"@[0] == 'A');
    reveal_strlit("B");
    assert("B"@.len() == 1 && "B"@[0] == 'B');
    reveal_strlit("C");
    assert("C"@.len() == 1 && "C"@[0] == 'C');
    reveal_strlit("D");
    assert("D"@.len() == 1 && "D"@[0] == 'D');
    reveal_strlit("E");
    assert("E"@.len() == 1 && "E"@[0] == 'E');
    reveal_strlit("F");
    assert("F"@.len() == 1 && "F"@[0] == 'F');
    reveal_strlit("G");
    assert("G"@.len() == 1 && "G"@[0] == 'G');
    reveal_strlit("H");
    assert("H"@.len() == 1 && "H"@[0] == 'H');
    reveal_strlit("I");
    assert("I"@.len() == 1 && "I"@[0] == 'I');
    reveal_strlit("J");
    assert("J"@.len() == 1 && "J"@[0] == 'J');
    reveal_strlit("K");
    assert("K"@.len() == 1 && "K"@[0] == 'K');
    reveal_strlit("L");
    assert("L"@.len() == 1 && "L"@[0] == 'L');
    reveal_strlit("M");
    assert("M"@.len() == 1 && "M"@[0] == 'M');
    reveal_strlit("N");
    assert("N"@.len() == 1 && "N"@[0] == 'N');
    reveal_strlit("O");
    assert("O"@.len() == 1 && "O"@[0] == 'O');
    reveal_strlit("P");
    assert("P"@.len() == 1 && "P"@[0] == 'P');
    reveal_strlit("Q");
    assert("Q"@.len() == 1 && "Q"@[0] == 'Q');
    reveal_strlit("R");
    assert("R"@.len() == 1 && "R"@[0] == 'R');
    reveal_strlit("S");
    assert("S"@.len() == 1 && "S"@[0] == 'S');
    reveal_strlit("T");
    assert("T"@.len() == 1 && "T"@[0] == 'T');
    reveal_strlit("U");
    assert("U"@.len() == 1 && "U"@[0] == 'U');
    reveal_strlit("V");
    assert("V"@.len() == 1 && "V"@[0] == 'V');
    reveal_strlit("W");
    assert("W"@.len() == 1 && "W"@[0] == 'W');
    reveal_strlit("X");
    assert("X"@.len() == 1 && "X"@[0] == 'X');
    reveal_strlit("Y");
    assert("Y"@.len() == 1 && "Y"@[0] == 'Y');
    reveal_strlit("Z");
    assert("Z"@.len() == 1 && "Z"@[0] == 'Z');
    reveal_strlit("Escape");
    assert("Escape"@.len() == 6 && "Escape"@[0] == 'E' && "Escape"@[1] == 's' && "Escape"@[2] == 'c' && "Escape"@[3] == 'a' && "Escape"@[4] == 'p' && "Escape"@[5] == 'e');
    reveal_strlit("Space");
    assert("Space"@.len() == 5 && "Space"@[0] == 'S' && "Space"@[1] == 'p' && "Space"@[2] == 'a' && "Space"@[3] == 'c' && "Space"@[4] == 'e');
    reveal_strlit("Enter");
    assert("Enter"@.len() == 5 && "Enter"@[0] == 'E' && "Enter"@[1] == 'n' && "Enter"@[2] == 't' && "Enter"@[3] == 'e' && "Enter"@[4] == 'r');
    reveal_strlit("Up");
    assert("Up"@.len() == 2 && "Up"@[0] == 'U' && "Up"@[1] == 'p');
    reveal_strlit("Down");
    assert("Down"@.len() == 4 && "Down"@[0] == 'D' && "Down"@[1] == 'o' && "Down"@[2] == 'w' && "Down"@[3] == 'n');
    reveal_strlit("Left");
    assert("Left"@.len() == 4 && "Left"@[0] == 'L' && "Left"@[1] == 'e' && "Left"@[2] == 'f' && "Left"@[3] == 't');
    reveal_strlit("Right");
    assert("Right"@.len() == 5 && "Right"@[0] == 'R' && "Right"@[1] == 'i' && "Right"@[2] == 'g' && "Right"@[3] == 'h' && "Right"@[4] == 't');
    reveal_strlit("Backspace");
    assert("Backspace"@.len() == 9 && "Backspace"@[0] == 'B' && "Backspace"@[1] == 'a' && "Backspace"@[2] == 'c' && "Backspace"@[3] == 'k' && "Backspace"@[4] == 's' && "Backspace"@[5] == 'p' && "Backspace"@[6] == 'a' && "Backspace"@[7] == 'c' && "Backspace"@[8] == 'e');
    reveal_strlit("Home");
    assert("Home"@.len() == 4 && "Home"@[0] == 'H' && "Home"@[1] == 'o' && "Home"@[2] == 'm' && "Home"@[3] == 'e');
    reveal_strlit("End");
    assert("End"@.len() == 3 && "End"@[0] == 'E' && "End"@[1] == 'n' && "End"@[2] == 'd');
    reveal_strlit("PageUp");
    assert("PageUp"@.len() == 6 && "PageUp"@[0] == 'P' && "PageUp"@[1] == 'a' && "PageUp"@[2] == 'g' && "PageUp"@[3] == 'e' && "PageUp"@[4] == 'U' && "PageUp"@[5] == 'p');
    reveal_strlit("PageDown");
    assert("PageDown"@.len() == 8 && "PageDown"@[0] == 'P' && "PageDown"@[1] == 'a' && "PageDown"@[2] == 'g' && "PageDown"@[3] == 'e' && "PageDown"@[4] == 'D' && "PageDown"@[5] == 'o' && "PageDown"@[6] == 'w' && "PageDown"@[7] == 'n');
    reveal_strlit("Insert");
    assert("Insert"@.len() == 6 && "Insert"@[0] == 'I' && "Insert"@[1] == 'n' && "Insert"@[2] == 's' && "Insert"@[3] == 'e' && "Insert"@[4] == 'r' && "Insert"@[5] == 't');
    reveal_strlit("Delete");
    assert("Delete"@.len() == 6 && "Delete"@[0] == 'D' && "Delete"@[1] == 'e' && "Delete"@[2] == 'l' && "Delete"@[3] == 'e' && "Delete"@[4] == 't' && "Delete"@[5] == 'e');
    reveal_strlit("Numpad0");
    assert("Numpad0"@.len() == 7 && "Numpad0"@[0] == 'N' && "Numpad0"@[1] == 'u' && "Numpad0"@[2] == 'm' && "Numpad0"@[3] == 'p' && "Numpad0"@[4] == 'a' && "Numpad0"@[5] == 'd' && "Numpad0"@[6] == '0');
    reveal_strlit("Numpad1");
    assert("Numpad1"@.len() == 7 && "Numpad1"@[0] == 'N' && "Numpad1"@[1] == 'u' && "Numpad1"@[2] == 'm' && "Numpad1"@[3] == 'p' && "Numpad1"@[4] == 'a' && "Numpad1"@[5] == 'd' && "Numpad1"@[6] == '1');
    reveal_strlit("Numpad2");
    assert("Numpad2"@.len() == 7 && "Numpad2"@[0] == 'N' && "Numpad2"@[1] == 'u' && "Numpad2"@[2] == 'm' && "Numpad2"@[3] == 'p' && "Numpad2"@[4] == 'a' && "Numpad2"@[5] == 'd' && "Numpad2"@[6] == '2');
    reveal_strlit("Numpad3");
    assert("Numpad3"@.len() == 7 && "Numpad3"@[0] == 'N' && "Numpad3"@[1] == 'u' && "Numpad3"@[2] == 'm' && "Numpad3"@[3] == 'p' && "Numpad3"@[4] == 'a' && "Numpad3"@[5] == 'd' && "Numpad3"@[6] == '3');
    reveal_strlit("Numpad4");
    assert("Numpad4"@.len() == 7 && "Numpad4"@[0] == 'N' && "Numpad4"@[1] == 'u' && "Numpad4"@[2] == 'm' && "Numpad4"@[3] == 'p' && "Numpad4"@[4] == 'a' && "Numpad4"@[5] == 'd' && "Numpad4"@[6] == '4');
    reveal_strlit("Numpad5");
    assert("Numpad5"@.len() == 7 && "Numpad5"@[0] == 'N' && "Numpad5"@[1] == 'u' && "Numpad5"@[2] == 'm' && "Numpad5"@[3] == 'p' && "Numpad5"@[4] == 'a' && "Numpad5"@[5] == 'd' && "Numpad5"@[6] == '5');
    reveal_strlit("Numpad6");
    assert("Numpad6"@.len() == 7 && "Numpad6"@[0] == 'N' && "Numpad6"@[1] == 'u' && "Numpad6"@[2] == 'm' && "Numpad6"@[3] == 'p' && "Numpad6"@[4] == 'a' && "Numpad6"@[5] == 'd' && "Numpad6"@[6] == '6');
    reveal_strlit("Numpad7");
    assert("Numpad7"@.len() == 7 && "Numpad7"@[0] == 'N' && "Numpad7"@[1] == 'u' && "Numpad7"@[2] == 'm' && "Numpad7"@[3] == 'p' && "Numpad7"@[4] == 'a' && "Numpad7"@[5] == 'd' && "Numpad7"@[6] == '7');
    reveal_strlit("Numpad8");
    assert("Numpad8"@.len() == 7 && "Numpad8"@[0] == 'N' && "Numpad8"@[1] == 'u' && "Numpad8"@[2] == 'm' && "Numpad8"@[3] == 'p' && "Numpad8"@[4] == 'a' && "Numpad8"@[5] == 'd' && "Numpad8"@[6] == '8');
    reveal_strlit("Numpad9");
    assert("Numpad9"@.len() == 7 && "Numpad9"@[0] == 'N' && "Numpad9"@[1] == 'u' && "Numpad9"@[2] == 'm' && "Numpad9"@[3] == 'p' && "Numpad9"@[4] == 'a' && "Numpad9"@[5] == 'd' && "Numpad9"@[6] == '9');
    reveal_strlit("NumpadSubtract");
    assert("NumpadSubtract"@.len() == 14 && "NumpadSubtract"@[0] == 'N' && "NumpadSubtract"@[1] == 'u' && "NumpadSubtract"@[2] == 'm' && "NumpadSubtract"@[3] == 'p' && "NumpadSubtract"@[4] == 'a' && "NumpadSubtract"@[5] == 'd' && "NumpadSubtract"@[6] == 'S' && "NumpadSubtract"@[7] == 'u' && "NumpadSubtract"@[8] == 'b' && "NumpadSubtract"@[9] == 't' && "NumpadSubtract"@[10] == 'r' && "NumpadSubtract"@[11] == 'a' && "NumpadSubtract"@[12] == 'c' && "NumpadSubtract"@[13] == 't');
    reveal_strlit("NumpadAdd");
    assert("NumpadAdd"@.len() == 9 && "NumpadAdd"@[0] == 'N' && "NumpadAdd"@[1] == 'u' && "NumpadAdd"@[2] == 'm' && "NumpadAdd"@[3] == 'p' && "NumpadAdd"@[4] == 'a' && "NumpadAdd"@[5] == 'd' && "NumpadAdd"@[6] == 'A' && "NumpadAdd"@[7] == 'd' && "NumpadAdd"@[8] == 'd');
    reveal_strlit("NumpadDivide");
    assert("NumpadDivide"@.len() == 12 && "NumpadDivide"@[0] == 'N' && "NumpadDivide"@[1] == 'u' && "NumpadDivide"@[2] == 'm' && "NumpadDivide"@[3] == 'p' && "NumpadDivide"@[4] == 'a' && "NumpadDivide"@[5] == 'd' && "NumpadDivide"@[6] == 'D' && "NumpadDivide"@[7] == 'i' && "NumpadDivide"@[8] == 'v' && "NumpadDivide"@[9] == 'i' && "NumpadDivide"@[10] == 'd' && "NumpadDivide"@[11] == 'e');
    reveal_strlit("NumpadMultiply");
    assert("NumpadMultiply"@.len() == 14 && "NumpadMultiply"@[0] == 'N' && "NumpadMultiply"@[1] == 'u' && "NumpadMultiply"@[2] == 'm' && "NumpadMultiply"@[3] == 'p' && "NumpadMultiply"@[4] == 'a' && "NumpadMultiply"@[5] == 'd' && "NumpadMultiply"@[6] == 'M' && "NumpadMultiply"@[7] == 'u' && "NumpadMultiply"@[8] == 'l' && "NumpadMultiply"@[9] == 't' && "NumpadMultiply"@[10] == 'i' && "NumpadMultiply"@[11] == 'p' && "NumpadMultiply"@[12] == 'l' && "NumpadMultiply"@[13] == 'y');
    reveal_strlit("NumpadEquals");
    assert("NumpadEquals"@.len() == 12 && "NumpadEquals"@[0] == 'N' && "NumpadEquals"@[1] == 'u' && "NumpadEquals"@[2] == 'm' && "NumpadEquals"@[3] == 'p' && "NumpadEquals"@[4] == 'a' && "NumpadEquals"@[5] == 'd' && "NumpadEquals"@[6] == 'E' && "NumpadEquals"@[7] == 'q' && "NumpadEquals"@[8] == 'u' && "NumpadEquals"@[9] == 'a' && "NumpadEquals"@[10] == 'l' && "NumpadEquals"@[11] == 's');
    reveal_strlit("NumpadEnter");
    assert("NumpadEnter"@.len() == 11 && "NumpadEnter"@[0] == 'N' && "NumpadEnter"@[1] == 'u' && "NumpadEnter"@[2] == 'm' && "NumpadEnter"@[3] == 'p' && "NumpadEnter"@[4] == 'a' && "NumpadEnter"@[5] == 'd' && "NumpadEnter"@[6] == 'E' && "NumpadEnter"@[7] == 'n' && "NumpadEnter"@[8] == 't' && "NumpadEnter"@[9] == 'e' && "NumpadEnter"@[10] == 'r');
    reveal_strlit("NumpadDecimal");
    assert("NumpadDecimal"@.len() == 13 && "NumpadDecimal"@[0] == 'N' && "NumpadDecimal"@[1] == 'u' && "NumpadDecimal"@[2] == 'm' && "NumpadDecimal"@[3] == 'p' && "NumpadDecimal"@[4] == 'a' && "NumpadDecimal"@[5] == 'd' && "NumpadDecimal"@[6] == 'D' && "NumpadDecimal"@[7] == 'e' && "NumpadDecimal"@[8] == 'c' && "NumpadDecimal"@[9] == 'i' && "NumpadDecimal"@[10] == 'm' && "NumpadDecimal"@[11] == 'a' && "NumpadDecimal"@[12] == 'l');
    reveal_strlit("Grave");
    assert("Grave"@.len() == 5 && "Grave"@[0] == 'G' && "Grave"@[1] == 'r' && "Grave"@[2] == 'a' && "Grave"@[3] == 'v' && "Grave"@[4] == 'e');
    reveal_strlit("Minus");
    assert("Minus"@.len() == 5 && "Minus"@[0] == 'M' && "Minus"@[1] == 'i' && "Minus"@[2] == 'n' && "Minus"@[3] == 'u' && "Minus"@[4] == 's');
    reveal_strlit("Equal");
    assert("Equal"@.len() == 5 && "Equal"@[0] == 'E' && "Equal"@[1] == 'q' && "Equal"@[2] == 'u' && "Equal"@[3] == 'a' && "Equal"@[4] == 'l');
    reveal_strlit("LeftBracket");
    assert("LeftBracket"@.len() == 11 && "LeftBracket"@[0] == 'L' && "LeftBracket"@[1] == 'e' && "LeftBracket"@[2] == 'f' && "LeftBracket"@[3] == 't' && "LeftBracket"@[4] == 'B' && "LeftBracket"@[5] == 'r' && "LeftBracket"@[6] == 'a' && "LeftBracket"@[7] == 'c' && "LeftBracket"@[8] == 'k' && "LeftBracket"@[9] == 'e' && "LeftBracket"@[10] == 't');
    reveal_strlit("RightBracket");
    assert("RightBracket"@.len() == 12 && "RightBracket"@[0] == 'R' && "RightBracket"@[1] == 'i' && "RightBracket"@[2] == 'g' && "RightBracket"@[3] == 'h' && "RightBracket"@[4] == 't' && "RightBracket"@[5] == 'B' && "RightBracket"@[6] == 'r' && "RightBracket"@[7] == 'a' && "RightBracket"@[8] == 'c' && "RightBracket"@[9] == 'k' && "RightBracket"@[10] == 'e' && "RightBracket"@[11] == 't');
    reveal_strlit("BackSlash");
    assert("BackSlash"@.len() == 9 && "BackSlash"@[0] == 'B' && "BackSlash"@[1] == 'a' && "BackSlash"@[2] == 'c' && "BackSlash"@[3] == 'k' && "BackSlash"@[4] == 'S' && "BackSlash"@[5] == 'l' && "BackSlash"@[6] == 'a' && "BackSlash"@[7] == 's' && "BackSlash"@[8] == 'h');
    reveal_strlit("Semicolon");
    assert("Semicolon"@.len() == 9 && "Semicolon"@[0] == 'S' && "Semicolon"@[1] == 'e' && "Semicolon"@[2] == 'm' && "Semicolon"@[3] == 'i' && "Semicolon"@[4] == 'c' && "Semicolon"@[5] == 'o' && "Semicolon"@[6] == 'l' && "Semicolon"@[7] == 'o' && "Semicolon"@[8] == 'n');
    reveal_strlit("Apostrophe");
    assert("Apostrophe"@.len() == 10 && "Apostrophe"@[0] == 'A' && "Apostrophe"@[1] == 'p' && "Apostrophe"@[2] == 'o' && "Apostrophe"@[3] == 's' && "Apostrophe"@[4] == 't' && "Apostrophe"@[5] == 'r' && "Apostrophe"@[6] == 'o' && "Apostrophe"@[7] == 'p' && "Apostrophe"@[8] == 'h' && "Apostrophe"@[9] == 'e');
    reveal_strlit("Comma");
    assert("Comma"@.len() == 5 && "Comma"@[0] == 'C' && "Comma"@[1] == 'o' && "Comma"@[2] == 'm' && "Comma"@[3] == 'm' && "Comma"@[4] == 'a');
    reveal_strlit("Dot");
    assert("Dot"@.len() == 3 && "Dot"@[0] == 'D' && "Dot"@[1] == 'o' && "Dot"@[2] == 't');
    reveal_strlit("Slash");
    assert("Slash"@.len() == 5 && "Slash"@[0] == 'S' && "Slash"@[1] == 'l' && "Slash"@[2] == 'a' && "Slash"@[3] == 's' && "Slash"@[4] == 'h');
}

/// The empty word stands for no key.
pub proof fn lemma_empty_word_names_no_key()
    ensures
        trim(Seq::<char>::empty()) == Seq::<char>::empty(),
        config_key(Seq::<char>::empty()) is None,
{
    reveal_strlit("Key0");
    assert("Key0"@.len() == 4);
    reveal_strlit("Key1");
    assert("Key1"@.len() == 4);
    reveal_strlit("Key2");
    assert("Key2"@.len() == 4);
    reveal_strlit("Key3");
    assert("Key3"@.len() == 4);
    reveal_strlit("Key4");
    assert("Key4"@.len() == 4);
    reveal_strlit("Key5");
    assert("Key5"@.len() == 4);
    reveal_strlit("Key6");
    assert("Key6"@.len() == 4);
    reveal_strlit("Key7");
    assert("Key7"@.len() == 4);
    reveal_strlit("Key8");
    assert("Key8"@.len() == 4);
    reveal_strlit("Key9");
    assert("Key9"@.len() == 4);
    reveal_strlit("A");
    assert("A"@.len() == 1);
    reveal_strlit("B");
    assert("B"@.len() == 1);
    reveal_strlit("C");
    assert("C"@.len() == 1);
    reveal_strlit("D");
    assert("D"@.len() == 1);
    reveal_strlit("E");
    assert("E"@.len() == 1);
    reveal_strlit("F");
    assert("F"@.len() == 1);
    reveal_strlit("G");
    assert("G"@.len() == 1);
    reveal_strlit("H");
    assert("H"@.len() == 1);
    reveal_strlit("I");
    assert("I"@.len() == 1);
    reveal_strlit("J");
    assert("J"@.len() == 1);
    reveal_strlit("K");
    assert("K"@.len() == 1);
    reveal_strlit("L");
    assert("L"@.len() == 1);
    reveal_strlit("M");
    assert("M"@.len() == 1);
    reveal_strlit("N");
    assert("N"@.len() == 1);
    reveal_strlit("O");
    assert("O"@.len() == 1);
    reveal_strlit("P");
    assert("P"@.len() == 1);
    reveal_strlit("Q");
    assert("Q"@.len() == 1);
    reveal_strlit("R");
    assert("R"@.len() == 1);
    reveal_strlit("S");
    assert("S"@.len() == 1);
    reveal_strlit("T");
    assert("T"@.len() == 1);
    reveal_strlit("U");
    assert("U"@.len() == 1);
    reveal_strlit("V");
    assert("V"@.len() == 1);
    reveal_strlit("W");
    assert("W"@.len() == 1);
    reveal_strlit("X");
    assert("X"@.len() == 1);
    reveal_strlit("Y");
    assert("Y"@.len() == 1);
    reveal_strlit("Z");
    assert("Z"@.len() == 1);
    reveal_strlit("Escape");
    assert("Escape"@.len() == 6);
    reveal_strlit("Space");
    assert("Space"@.len() == 5);
    reveal_strlit("Enter");
    assert("Enter"@.len() == 5);
    reveal_strlit("Up");
    assert("Up"@.len() == 2);
    reveal_strlit("Down");
    assert("Down"@.len() == 4);
    reveal_strlit("Left");
    assert("Left"@.len() == 4);
    reveal_strlit("Right");
    assert("Right"@.len() == 5);
    reveal_strlit("Backspace");
    assert("Backspace"@.len() == 9);
    reveal_strlit("Home");
    assert("Home"@.len() == 4);
    reveal_strlit("End");
    assert("End"@.len() == 3);
    reveal_strlit("PageUp");
    assert("PageUp"@.len() == 6);
    reveal_strlit("PageDown");
    assert("PageDown"@.len() == 8);
    reveal_strlit("Insert");
    assert("Insert"@.len() == 6);
    reveal_strlit("Delete");
    assert("Delete"@.len() == 6);
    reveal_strlit("Numpad0");
    assert("Numpad0"@.len() == 7);
    reveal_strlit("Numpad1");
    assert("Numpad1"@.len() == 7);
    reveal_strlit("Numpad2");
    assert("Numpad2"@.len() == 7);
    reveal_strlit("Numpad3");
    assert("Numpad3"@.len() == 7);
    reveal_strlit("Numpad4");
    assert("Numpad4"@.len() == 7);
    reveal_strlit("Numpad5");
    assert("Numpad5"@.len() == 7);
    reveal_strlit("Numpad6");
    assert("Numpad6"@.len() == 7);
    reveal_strlit("Numpad7");
    assert("Numpad7"@.len() == 7);
    reveal_strlit("Numpad8");
    assert("Numpad8"@.len() == 7);
    reveal_strlit("Numpad9");
    assert("Numpad9"@.len() == 7);
    reveal_strlit("NumpadSubtract");
    assert("NumpadSubtract"@.len() == 14);
    reveal_strlit("NumpadAdd");
    assert("NumpadAdd"@.len() == 9);
    reveal_strlit("NumpadDivide");
    assert("NumpadDivide"@.len() == 12);
    reveal_strlit("NumpadMultiply");
    assert("NumpadMultiply"@.len() == 14);
    reveal_strlit("NumpadEquals");
    assert("NumpadEquals"@.len() == 12);
    reveal_strlit("NumpadEnter");
    assert("NumpadEnter"@.len() == 11);
    reveal_strlit("NumpadDecimal");
    assert("NumpadDecimal"@.len() == 13);
    reveal_strlit("Grave");
    assert("Grave"@.len() == 5);
    reveal_strlit("Minus");
    assert("Minus"@.len() == 5);
    reveal_strlit("Equal");
    assert("Equal"@.len() == 5);
    reveal_strlit("LeftBracket");
    assert("LeftBracket"@.len() == 11);
    reveal_strlit("RightBracket");
    assert("RightBracket"@.len() == 12);
    reveal_strlit("BackSlash");
    assert("BackSlash"@.len() == 9);
    reveal_strlit("Semicolon");
    assert("Semicolon"@.len() == 9);
    reveal_strlit("Apostrophe");
    assert("Apostrophe"@.len() == 10);
    reveal_strlit("Comma");
    assert("Comma"@.len() == 5);
    reveal_strlit("Dot");
    assert("Dot"@.len() == 3);
    reveal_strlit("Slash");
    assert("Slash"@.len() == 5);
}

/// The configuration gives no reserved key: whatever word it reads, the key
/// that the word stands for may serve as a hotkey.
pub proof fn lemma_config_key_is_not_reserved(name: Seq<char>)
    ensures
        config_key(name) matches Some(key) ==> !key.is_reserved(),
{
}

/// Whether `key` may serve as a hotkey: every key but the reserved ones.
pub fn is_valid_hotkey(key: KeyId) -> (valid: bool)
    ensures
        valid == !key.is_reserved(),
{
    match key {
        KeyId::F1
        | KeyId::F2
        | KeyId::F3
        | KeyId::F4
        | KeyId::F5
        | KeyId::F6
        | KeyId::F7
        | KeyId::F8
        | KeyId::F9
        | KeyId::F10
        | KeyId::F11
        | KeyId::F12
        | KeyId::F13
        | KeyId::F14
        | KeyId::F15
        | KeyId::F16
        | KeyId::F17
        | KeyId::F18
        | KeyId::F19
        | KeyId::F20
        | KeyId::LControl
        | KeyId::RControl
        | KeyId::LShift
        | KeyId::RShift
        | KeyId::LAlt
        | KeyId::RAlt
        | KeyId::Command
        | KeyId::RCommand
        | KeyId::LOption
        | KeyId::ROption
        | KeyId::LMeta
        | KeyId::RMeta
        | KeyId::Tab
        | KeyId::CapsLock => false,
        _ => true,
    }
}

/// The text shown to the operator for `key`.
pub fn format_key_description(key: KeyId) -> (text: String)
    ensures
        text@ == key.description_spec(),
{
    match key {
        KeyId::Escape => "Esc".to_owned(),
        KeyId::Equal => "+".to_owned(),
        KeyId::Minus => "-".to_owned(),
        _ => key.name().to_owned(),
    }
}

/// The key that a word of the hotkey configuration stands for, read exactly
/// as written.
pub fn key_from_name(name: &[char]) -> (key: Option<KeyId>)
    ensures
        key == config_key(name@),
{
    if is_text(name, "Key0") {
        Some(KeyId::Key0)
    } else if is_text(name, "Key1") {
        Some(KeyId::Key1)
    } else if is_text(name, "Key2") {
        Some(KeyId::Key2)
    } else if is_text(name, "Key3") {
        Some(KeyId::Key3)
    } else if is_text(name, "Key4") {
        Some(KeyId::Key4)
    } else if is_text(name, "Key5") {
        Some(KeyId::Key5)
    } else if is_text(name, "Key6") {
        Some(KeyId::Key6)
    } else if is_text(name, "Key7") {
        Some(KeyId::Key7)
    } else if is_text(name, "Key8") {
        Some(KeyId::Key8)
    } else if is_text(name, "Key9") {
        Some(KeyId::Key9)
    } else if is_text(name, "A") {
        Some(KeyId::A)
    } else if is_text(name, "B") {
        Some(KeyId::B)
    } else if is_text(name, "C") {
        Some(KeyId::C)
    } else if is_text(name, "D") {
        Some(KeyId::D)
    } else if is_text(name, "E") {
        Some(KeyId::E)
    } else if is_text(name, "F") {
        Some(KeyId::F)
    } else if is_text(name, "G") {
        Some(KeyId::G)
    } else if is_text(name, "H") {
        Some(KeyId::H)
    } else if is_text(name, "I") {
        Some(KeyId::I)
    } else if is_text(name, "J") {
        Some(KeyId::J)
    } else if is_text(name, "K") {
        Some(KeyId::K)
    } else if is_text(name, "L") {
        Some(KeyId::L)
    } else if is_text(name, "M") {
        Some(KeyId::M)
    } else if is_text(name, "N") {
        Some(KeyId::N)
    } else if is_text(name, "O") {
        Some(KeyId::O)
    } else if is_text(name, "P") {
        Some(KeyId::P)
    } else if is_text(name, "Q") {
        Some(KeyId::Q)
    } else if is_text(name, "R") {
        Some(KeyId::R)
    } else if is_text(name, "S") {
        Some(KeyId::S)
    } else if is_text(name, "T") {
        Some(KeyId::T)
    } else if is_text(name, "U") {
        Some(KeyId::U)
    } else if is_text(name, "V") {
        Some(KeyId::V)
    } else if is_text(name, "W") {
        Some(KeyId::W)
    } else if is_text(name, "X") {
        Some(KeyId::X)
    } else if is_text(name, "Y") {
        Some(KeyId::Y)
    } else if is_text(name, "Z") {
        Some(KeyId::Z)
    } else if is_text(name, "Escape") {
        Some(KeyId::Escape)
    } else if is_text(name, "Space") {
        Some(KeyId::Space)
    } else if is_text(name, "Enter") {
        Some(KeyId::Enter)
    } else if is_text(name, "Up") {
        Some(KeyId::Up)
    } else if is_text(name, "Down") {
        Some(KeyId::Down)
    } else if is_text(name, "Left") {
        Some(KeyId::Left)
    } else if is_text(name, "Right") {
        Some(KeyId::Right)
    } else if is_text(name, "Backspace") {
        Some(KeyId::Backspace)
    } else if is_text(name, "Home") {
        Some(KeyId::Home)
    } else if is_text(name, "End") {
        Some(KeyId::End)
    } else if is_text(name, "PageUp") {
        Some(KeyId::PageUp)
    } else if is_text(name, "PageDown") {
        Some(KeyId::PageDown)
    } else if is_text(name, "Insert") {
        Some(KeyId::Insert)
    } else if is_text(name, "Delete") {
        Some(KeyId::Delete)
    } else if is_text(name, "Numpad0") {
        Some(KeyId::Numpad0)
    } else if is_text(name, "Numpad1") {
        Some(KeyId::Numpad1)
    } else if is_text(name, "Numpad2") {
        Some(KeyId::Numpad2)
    } else if is_text(name, "Numpad3") {
        Some(KeyId::Numpad3)
    } else if is_text(name, "Numpad4") {
        Some(KeyId::Numpad4)
    } else if is_text(name, "Numpad5") {
        Some(KeyId::Numpad5)
    } else if is_text(name, "Numpad6") {
        Some(KeyId::Numpad6)
    } else if is_text(name, "Numpad7") {
        Some(KeyId::Numpad7)
    } else if is_text(name, "Numpad8") {
        Some(KeyId::Numpad8)
    } else if is_text(name, "Numpad9") {
        Some(KeyId::Numpad9)
    } else if is_text(name, "NumpadSubtract") {
        Some(KeyId::NumpadSubtract)
    } else if is_text(name, "NumpadAdd") {
        Some(KeyId::NumpadAdd)
    } else if is_text(name, "NumpadDivide") {
        Some(KeyId::NumpadDivide)
    } else if is_text(name, "NumpadMultiply") {
        Some(KeyId::NumpadMultiply)
    } else if is_text(name, "NumpadEquals") {
        Some(KeyId::NumpadEquals)
    } else if is_text(name, "NumpadEnter") {
        Some(KeyId::NumpadEnter)
    } else if is_text(name, "NumpadDecimal") {
        Some(KeyId::NumpadDecimal)
    } else if is_text(name, "Grave") {
        Some(KeyId::Grave)
    } else if is_text(name, "Minus") {
        Some(KeyId::Minus)
    } else if is_text(name, "Equal") {
        Some(KeyId::Equal)
    } else if is_text(name, "LeftBracket") {
        Some(KeyId::LeftBracket)
    } else if is_text(name, "RightBracket") {
        Some(KeyId::RightBracket)
    } else if is_text(name, "BackSlash") {
        Some(KeyId::BackSlash)
    } else if is_text(name, "Semicolon") {
        Some(KeyId::Semicolon)
    } else if is_text(name, "Apostrophe") {
        Some(KeyId::Apostrophe)
    } else if is_text(name, "Comma") {
        Some(KeyId::Comma)
    } else if is_text(name, "Dot") {
        Some(KeyId::Dot)
    } else if is_text(name, "Slash") {
        Some(KeyId::Slash)
    } else {
        None
    }
}

/// Reads one entry of the hotkey configuration: white space around the word
/// is ignored, and a word that stands for no key gives `None`.
pub fn parse_keycode(key_str: &str) -> (key: Option<KeyId>)
    ensures
        key == config_key(trim(key_str@)),
{
    let word = trim_chars(key_str);
    key_from_name(word.as_slice())
}

/// The key that a key name of the global listener stands for.
pub fn key_from_listener(name: &str) -> (key: Option<KeyId>)
    ensures
        key == listener_key(name@),
{
    let word = crate::text::chars_of(name);
    let word = word.as_slice();
    if is_text(word, "Alt") {
        Some(KeyId::LAlt)
    } else if is_text(word, "AltGr") {
        Some(KeyId::RAlt)
    } else if is_text(word, "Backspace") {
        Some(KeyId::Backspace)
    } else if is_text(word, "CapsLock") {
        Some(KeyId::CapsLock)
    } else if is_text(word, "ControlLeft") {
        Some(KeyId::LControl)
    } else if is_text(word, "ControlRight") {
        Some(KeyId::RControl)
    } else if is_text(word, "Delete") {
        Some(KeyId::Delete)
    } else if is_text(word, "DownArrow") {
        Some(KeyId::Down)
    } else if is_text(word, "End") {
        Some(KeyId::End)
    } else if is_text(word, "Escape") {
        Some(KeyId::Escape)
    } else if is_text(word, "F1") {
        Some(KeyId::F1)
    } else if is_text(word, "F2") {
        Some(KeyId::F2)
    } else if is_text(word, "F3") {
        Some(KeyId::F3)
    } else if is_text(word, "F4") {
        Some(KeyId::F4)
    } else if is_text(word, "F5") {
        Some(KeyId::F5)
    } else if is_text(word, "F6") {
        Some(KeyId::F6)
    } else if is_text(word, "F7") {
        Some(KeyId::F7)
    } else if is_text(word, "F8") {
        Some(KeyId::F8)
    } else if is_text(word, "F9") {
        Some(KeyId::F9)
    } else if is_text(word, "F10") {
        Some(KeyId::F10)
    } else if is_text(word, "F11") {
        Some(KeyId::F11)
    } else if is_text(word, "F12") {
        Some(KeyId::F12)
    } else if is_text(word, "Home") {
        Some(KeyId::Home)
    } else if is_text(word, "LeftArrow") {
        Some(KeyId::Left)
    } else if is_text(word, "MetaLeft") {
        Some(KeyId::LMeta)
    } else if is_text(word, "MetaRight") {
        Some(KeyId::RMeta)
    } else if is_text(word, "PageDown") {
        Some(KeyId::PageDown)
    } else if is_text(word, "PageUp") {
        Some(KeyId::PageUp)
    } else if is_text(word, "Return") {
        Some(KeyId::Enter)
    } else if is_text(word, "RightArrow") {
        Some(KeyId::Right)
    } else if is_text(word, "ShiftLeft") {
        Some(KeyId::LShift)
    } else if is_text(word, "ShiftRight") {
        Some(KeyId::RShift)
    } else if is_text(word, "Space") {
        Some(KeyId::Space)
    } else if is_text(word, "Tab") {
        Some(KeyId::Tab)
    } else if is_text(word, "UpArrow") {
        Some(KeyId::Up)
    } else if is_text(word, "BackQuote") {
        Some(KeyId::Grave)
    } else if is_text(word, "Num0") {
        Some(KeyId::Key0)
    } else if is_text(word, "Num1") {
        Some(KeyId::Key1)
    } else if is_text(word, "Num2") {
        Some(KeyId::Key2)
    } else if is_text(word, "Num3") {
        Some(KeyId::Key3)
    } else if is_text(word, "Num4") {
        Some(KeyId::Key4)
    } else if is_text(word, "Num5") {
        Some(KeyId::Key5)
    } else if is_text(word, "Num6") {
        Some(KeyId::Key6)
    } else if is_text(word, "Num7") {
        Some(KeyId::Key7)
    } else if is_text(word, "Num8") {
        Some(KeyId::Key8)
    } else if is_text(word, "Num9") {
        Some(KeyId::Key9)
    } else if is_text(word, "Minus") {
        Some(KeyId::Minus)
    } else if is_text(word, "Equal") {
        Some(KeyId::Equal)
    } else if is_text(word, "KeyA") {
        Some(KeyId::A)
    } else if is_text(word, "KeyB") {
        Some(KeyId::B)
    } else if is_text(word, "KeyC") {
        Some(KeyId::C)
    } else if is_text(word, "KeyD") {
        Some(KeyId::D)
    } else if is_text(word, "KeyE") {
        Some(KeyId::E)
    } else if is_text(word, "KeyF") {
        Some(KeyId::F)
    } else if is_text(word, "KeyG") {
        Some(KeyId::G)
    } else if is_text(word, "KeyH") {
        Some(KeyId::H)
    } else if is_text(word, "KeyI") {
        Some(KeyId::I)
    } else if is_text(word, "KeyJ") {
        Some(KeyId::J)
    } else if is_text(word, "KeyK") {
        Some(KeyId::K)
    } else if is_text(word, "KeyL") {
        Some(KeyId::L)
    } else if is_text(word, "KeyM") {
        Some(KeyId::M)
    } else if is_text(word, "KeyN") {
        Some(KeyId::N)
    } else if is_text(word, "KeyO") {
        Some(KeyId::O)
    } else if is_text(word, "KeyP") {
        Some(KeyId::P)
    } else if is_text(word, "KeyQ") {
        Some(KeyId::Q)
    } else if is_text(word, "KeyR") {
        Some(KeyId::R)
    } else if is_text(word, "KeyS") {
        Some(KeyId::S)
    } else if is_text(word, "KeyT") {
        Some(KeyId::T)
    } else if is_text(word, "KeyU") {
        Some(KeyId::U)
    } else if is_text(word, "KeyV") {
        Some(KeyId::V)
    } else if is_text(word, "KeyW") {
        Some(KeyId::W)
    } else if is_text(word, "KeyX") {
        Some(KeyId::X)
    } else if is_text(word, "KeyY") {
        Some(KeyId::Y)
    } else if is_text(word, "KeyZ") {
        Some(KeyId::Z)
    } else if is_text(word, "LeftBracket") {
        Some(KeyId::LeftBracket)
    } else if is_text(word, "RightBracket") {
        Some(KeyId::RightBracket)
    } else if is_text(word, "SemiColon") {
        Some(KeyId::Semicolon)
    } else if is_text(word, "Quote") {
        Some(KeyId::Apostrophe)
    } else if is_text(word, "BackSlash") {
        Some(KeyId::BackSlash)
    } else if is_text(word, "Comma") {
        Some(KeyId::Comma)
    } else if is_text(word, "Dot") {
        Some(KeyId::Dot)
    } else if is_text(word, "Slash") {
        Some(KeyId::Slash)
    } else if is_text(word, "Insert") {
        Some(KeyId::Insert)
    } else if is_text(word, "KpReturn") {
        Some(KeyId::NumpadEnter)
    } else if is_text(word, "KpMinus") {
        Some(KeyId::NumpadSubtract)
    } else if is_text(word, "KpPlus") {
        Some(KeyId::NumpadAdd)
    } else if is_text(word, "KpMultiply") {
        Some(KeyId::NumpadMultiply)
    } else if is_text(word, "KpDivide") {
        Some(KeyId::NumpadDivide)
    } else if is_text(word, "Kp0") {
        Some(KeyId::Numpad0)
    } else if is_text(word, "Kp1") {
        Some(KeyId::Numpad1)
    } else if is_text(word, "Kp2") {
        Some(KeyId::Numpad2)
    } else if is_text(word, "Kp3") {
        Some(KeyId::Numpad3)
    } else if is_text(word, "Kp4") {
        Some(KeyId::Numpad4)
    } else if is_text(word, "Kp5") {
        Some(KeyId::Numpad5)
    } else if is_text(word, "Kp6") {
        Some(KeyId::Numpad6)
    } else if is_text(word, "Kp7") {
        Some(KeyId::Numpad7)
    } else if is_text(word, "Kp8") {
        Some(KeyId::Numpad8)
    } else if is_text(word, "Kp9") {
        Some(KeyId::Numpad9)
    } else if is_text(word, "KpDelete") {
        Some(KeyId::NumpadDecimal)
    } else {
        None
    }
}

} // verus!
