//! The key-name vocabulary: modifiers, regular keys, media keys and LED
//! colours, each with a canonical name and a numeric code.

use crate::text::str_eq;
use vstd::prelude::*;

verus! {

/// A modifier key. Its code is the bit it occupies in a report's modifier byte.
#[derive(Clone, Copy, Debug, PartialEq, Eq, Structural)]
pub enum Modifier {
    Ctrl,
    Shift,
    Alt,
    Win,
    RightCtrl,
    RightShift,
    RightAlt,
    RightWin,
}

impl Modifier {
    /// The canonical name of this modifier.
    pub open spec fn spec_name(self) -> Seq<char> {
        match self {
            Modifier::Ctrl => "Ctrl"@,
            Modifier::Shift => "Shift"@,
            Modifier::Alt => "Alt"@,
            Modifier::Win => "Win"@,
            Modifier::RightCtrl => "RightCtrl"@,
            Modifier::RightShift => "RightShift"@,
            Modifier::RightAlt => "RightAlt"@,
            Modifier::RightWin => "RightWin"@,
        }
    }

    /// The numeric code of this modifier.
    pub open spec fn spec_code(self) -> u8 {
        match self {
            Modifier::Ctrl => 0x01,
            Modifier::Shift => 0x02,
            Modifier::Alt => 0x04,
            Modifier::Win => 0x08,
            Modifier::RightCtrl => 0x10,
            Modifier::RightShift => 0x20,
            Modifier::RightAlt => 0x40,
            Modifier::RightWin => 0x80,
        }
    }

    /// The modifier whose canonical name is exactly `name`, if there is one.
    pub open spec fn spec_from_name(name: Seq<char>) -> Option<Modifier> {
        if name == Modifier::Ctrl.spec_name() {
            Some(Modifier::Ctrl)
        } else if name == Modifier::Shift.spec_name() {
            Some(Modifier::Shift)
        } else if name == Modifier::Alt.spec_name() {
            Some(Modifier::Alt)
        } else if name == Modifier::Win.spec_name() {
            Some(Modifier::Win)
        } else if name == Modifier::RightCtrl.spec_name() {
            Some(Modifier::RightCtrl)
        } else if name == Modifier::RightShift.spec_name() {
            Some(Modifier::RightShift)
        } else if name == Modifier::RightAlt.spec_name() {
            Some(Modifier::RightAlt)
        } else if name == Modifier::RightWin.spec_name() {
            Some(Modifier::RightWin)
        } else {
            None
        }
    }

    /// The canonical name of this modifier.
    pub fn name(self) -> (r: &'static str)
        ensures
            r@ == self.spec_name(),
    {
        match self {
            Modifier::Ctrl => "Ctrl",
            Modifier::Shift => "Shift",
            Modifier::Alt => "Alt",
            Modifier::Win => "Win",
            Modifier::RightCtrl => "RightCtrl",
            Modifier::RightShift => "RightShift",
            Modifier::RightAlt => "RightAlt",
            Modifier::RightWin => "RightWin",
        }
    }

    /// The numeric code of this modifier.
    pub fn code(self) -> (r: u8)
        ensures
            r == self.spec_code(),
    {
        match self {
            Modifier::Ctrl => 0x01,
            Modifier::Shift => 0x02,
            Modifier::Alt => 0x04,
            Modifier::Win => 0x08,
            Modifier::RightCtrl => 0x10,
            Modifier::RightShift => 0x20,
            Modifier::RightAlt => 0x40,
            Modifier::RightWin => 0x80,
        }
    }

    /// Looks up a modifier by its canonical name. The match is exact,
    /// case included.
    pub fn from_name(name: &str) -> (r: Option<Modifier>)
        ensures
            r == Self::spec_from_name(name@),
    {
        if str_eq(name, "Ctrl") {
            return Some(Modifier::Ctrl);
        }
        if str_eq(name, "Shift") {
            return Some(Modifier::Shift);
        }
        if str_eq(name, "Alt") {
            return Some(Modifier::Alt);
        }
        if str_eq(name, "Win") {
            return Some(Modifier::Win);
        }
        if str_eq(name, "RightCtrl") {
            return Some(Modifier::RightCtrl);
        }
        if str_eq(name, "RightShift") {
            return Some(Modifier::RightShift);
        }
        if str_eq(name, "RightAlt") {
            return Some(Modifier::RightAlt);
        }
        if str_eq(name, "RightWin") {
            return Some(Modifier::RightWin);
        }
        None
    }

    /// What a lookup finds has the name that was looked up.
    pub proof fn lemma_name_of_from_name(name: Seq<char>)
        ensures
            Self::spec_from_name(name) matches Some(found) ==> found.spec_name() == name,
    {
    }

    /// Canonical names are pairwise distinct: looking up the name of a
    /// modifier finds that modifier.
    pub proof fn lemma_from_name_of_name(self)
        ensures
            Self::spec_from_name(self.spec_name()) == Some(self),
    {
        reveal_strlit("Ctrl");
        assert("Ctrl"@.len() == 4 && "Ctrl"@[0] == 'C' && "Ctrl"@[1] == 't' && "Ctrl"@[2] == 'r'
            && "Ctrl"@[3] == 'l');
        reveal_strlit("Shift");
        assert("Shift"@.len() == 5 && "Shift"@[0] == 'S' && "Shift"@[1] == 'h'
            && "Shift"@[2] == 'i' && "Shift"@[3] == 'f' && "Shift"@[4] == 't');
        reveal_strlit("Alt");
        assert("Alt"@.len() == 3 && "Alt"@[0] == 'A' && "Alt"@[1] == 'l' && "Alt"@[2] == 't');
        reveal_strlit("Win");
        assert("Win"@.len() == 3 && "Win"@[0] == 'W' && "Win"@[1] == 'i' && "Win"@[2] == 'n');
        reveal_strlit("RightCtrl");
        assert("RightCtrl"@.len() == 9 && "RightCtrl"@[0] == 'R' && "RightCtrl"@[1] == 'i'
            && "RightCtrl"@[2] == 'g' && "RightCtrl"@[3] == 'h' && "RightCtrl"@[4] == 't'
            && "RightCtrl"@[5] == 'C' && "RightCtrl"@[6] == 't' && "RightCtrl"@[7] == 'r'
            && "RightCtrl"@[8] == 'l');
        reveal_strlit("RightShift");
        assert("RightShift"@.len() == 10 && "RightShift"@[0] == 'R' && "RightShift"@[1] == 'i'
            && "RightShift"@[2] == 'g' && "RightShift"@[3] == 'h' && "RightShift"@[4] == 't'
            && "RightShift"@[5] == 'S' && "RightShift"@[6] == 'h' && "RightShift"@[7] == 'i'
            && "RightShift"@[8] == 'f' && "RightShift"@[9] == 't');
        reveal_strlit("RightAlt");
        assert("RightAlt"@.len() == 8 && "RightAlt"@[0] == 'R' && "RightAlt"@[1] == 'i'
            && "RightAlt"@[2] == 'g' && "RightAlt"@[3] == 'h' && "RightAlt"@[4] == 't'
            && "RightAlt"@[5] == 'A' && "RightAlt"@[6] == 'l' && "RightAlt"@[7] == 't');
        reveal_strlit("RightWin");
        assert("RightWin"@.len() == 8 && "RightWin"@[0] == 'R' && "RightWin"@[1] == 'i'
            && "RightWin"@[2] == 'g' && "RightWin"@[3] == 'h' && "RightWin"@[4] == 't'
            && "RightWin"@[5] == 'W' && "RightWin"@[6] == 'i' && "RightWin"@[7] == 'n');
    }
}

/// A regular key. Its code is its usage id on the HID keyboard page.
#[derive(Clone, Copy, Debug, PartialEq, Eq, Structural)]
pub enum WellKnownCode {
    A,
    B,
    C,
    D,
    E,
    F,
    G,
    H,
    I,
    J,
    K,
    L,
    M,
    N,
    O,
    P,
    Q,
    R,
    S,
    T,
    U,
    V,
    W,
    X,
    Y,
    Z,
    N1,
    N2,
    N3,
    N4,
    N5,
    N6,
    N7,
    N8,
    N9,
    N0,
    Enter,
    Escape,
    Backspace,
    Tab,
    Space,
    Minus,
    Equal,
    LeftBracket,
    RightBracket,
    Backslash,
    NonUSHash,
    Semicolon,
    Quote,
    Grave,
    Comma,
    Dot,
    Slash,
    CapsLock,
    F1,
    F2,
    F3,
    F4,
    F5,
    F6,
    F7,
    F8,
    F9,
    F10,
    F11,
    F12,
    PrintScreen,
    ScrollLock,
    Pause,
    Insert,
    Home,
    PageUp,
    Delete,
    End,
    PageDown,
    Right,
    Left,
    Down,
    Up,
    NumLock,
    NumPadSlash,
    NumPadAsterisk,
    NumPadMinus,
    NumPadPlus,
    NumPadEnter,
    NumPad1,
    NumPad2,
    NumPad3,
    NumPad4,
    NumPad5,
    NumPad6,
    NumPad7,
    NumPad8,
    NumPad9,
    NumPad0,
    NumPadDot,
    NonUSBackslash,
    Application,
    Power,
    NumPadEqual,
    F13,
    F14,
    F15,
    F16,
    F17,
    F18,
    F19,
    F20,
    F21,
    F22,
    F23,
    F24,
}

impl WellKnownCode {
    /// The canonical name of this key.
    pub open spec fn spec_name(self) -> Seq<char> {
        match self {
            WellKnownCode::A => "A"@,
            WellKnownCode::B => "B"@,
            WellKnownCode::C => "C"@,
            WellKnownCode::D => "D"@,
            WellKnownCode::E => "E"@,
            WellKnownCode::F => "F"@,
            WellKnownCode::G => "G"@,
            WellKnownCode::H => "H"@,
            WellKnownCode::I => "I"@,
            WellKnownCode::J => "J"@,
            WellKnownCode::K => "K"@,
            WellKnownCode::L => "L"@,
            WellKnownCode::M => "M"@,
            WellKnownCode::N => "N"@,
            WellKnownCode::O => "O"@,
            WellKnownCode::P => "P"@,
            WellKnownCode::Q => "Q"@,
            WellKnownCode::R => "R"@,
            WellKnownCode::S => "S"@,
            WellKnownCode::T => "T"@,
            WellKnownCode::U => "U"@,
            WellKnownCode::V => "V"@,
            WellKnownCode::W => "W"@,
            WellKnownCode::X => "X"@,
            WellKnownCode::Y => "Y"@,
            WellKnownCode::Z => "Z"@,
            WellKnownCode::N1 => "1"@,
            WellKnownCode::N2 => "2"@,
            WellKnownCode::N3 => "3"@,
            WellKnownCode::N4 => "4"@,
            WellKnownCode::N5 => "5"@,
            WellKnownCode::N6 => "6"@,
            WellKnownCode::N7 => "7"@,
            WellKnownCode::N8 => "8"@,
            WellKnownCode::N9 => "9"@,
            WellKnownCode::N0 => "0"@,
            WellKnownCode::Enter => "Enter"@,
            WellKnownCode::Escape => "Escape"@,
            WellKnownCode::Backspace => "Backspace"@,
            WellKnownCode::Tab => "Tab"@,
            WellKnownCode::Space => "Space"@,
            WellKnownCode::Minus => "Minus"@,
            WellKnownCode::Equal => "Equal"@,
            WellKnownCode::LeftBracket => "LeftBracket"@,
            WellKnownCode::RightBracket => "RightBracket"@,
            WellKnownCode::Backslash => "Backslash"@,
            WellKnownCode::NonUSHash => "NonUSHash"@,
            WellKnownCode::Semicolon => "Semicolon"@,
            WellKnownCode::Quote => "Quote"@,
            WellKnownCode::Grave => "Grave"@,
            WellKnownCode::Comma => "Comma"@,
            WellKnownCode::Dot => "Dot"@,
            WellKnownCode::Slash => "Slash"@,
            WellKnownCode::CapsLock => "CapsLock"@,
            WellKnownCode::F1 => "F1"@,
            WellKnownCode::F2 => "F2"@,
            WellKnownCode::F3 => "F3"@,
            WellKnownCode::F4 => "F4"@,
            WellKnownCode::F5 => "F5"@,
            WellKnownCode::F6 => "F6"@,
            WellKnownCode::F7 => "F7"@,
            WellKnownCode::F8 => "F8"@,
            WellKnownCode::F9 => "F9"@,
            WellKnownCode::F10 => "F10"@,
            WellKnownCode::F11 => "F11"@,
            WellKnownCode::F12 => "F12"@,
            WellKnownCode::PrintScreen => "PrintScreen"@,
            WellKnownCode::ScrollLock => "ScrollLock"@,
            WellKnownCode::Pause => "Pause"@,
            WellKnownCode::Insert => "Insert"@,
            WellKnownCode::Home => "Home"@,
            WellKnownCode::PageUp => "PageUp"@,
            WellKnownCode::Delete => "Delete"@,
            WellKnownCode::End => "End"@,
            WellKnownCode::PageDown => "PageDown"@,
            WellKnownCode::Right => "Right"@,
            WellKnownCode::Left => "Left"@,
            WellKnownCode::Down => "Down"@,
            WellKnownCode::Up => "Up"@,
            WellKnownCode::NumLock => "NumLock"@,
            WellKnownCode::NumPadSlash => "NumPadSlash"@,
            WellKnownCode::NumPadAsterisk => "NumPadAsterisk"@,
            WellKnownCode::NumPadMinus => "NumPadMinus"@,
            WellKnownCode::NumPadPlus => "NumPadPlus"@,
            WellKnownCode::NumPadEnter => "NumPadEnter"@,
            WellKnownCode::NumPad1 => "NumPad1"@,
            WellKnownCode::NumPad2 => "NumPad2"@,
            WellKnownCode::NumPad3 => "NumPad3"@,
            WellKnownCode::NumPad4 => "NumPad4"@,
            WellKnownCode::NumPad5 => "NumPad5"@,
            WellKnownCode::NumPad6 => "NumPad6"@,
            WellKnownCode::NumPad7 => "NumPad7"@,
            WellKnownCode::NumPad8 => "NumPad8"@,
            WellKnownCode::NumPad9 => "NumPad9"@,
            WellKnownCode::NumPad0 => "NumPad0"@,
            WellKnownCode::NumPadDot => "NumPadDot"@,
            WellKnownCode::NonUSBackslash => "NonUSBackslash"@,
            WellKnownCode::Application => "Application"@,
            WellKnownCode::Power => "Power"@,
            WellKnownCode::NumPadEqual => "NumPadEqual"@,
            WellKnownCode::F13 => "F13"@,
            WellKnownCode::F14 => "F14"@,
            WellKnownCode::F15 => "F15"@,
            WellKnownCode::F16 => "F16"@,
            WellKnownCode::F17 => "F17"@,
            WellKnownCode::F18 => "F18"@,
            WellKnownCode::F19 => "F19"@,
            WellKnownCode::F20 => "F20"@,
            WellKnownCode::F21 => "F21"@,
            WellKnownCode::F22 => "F22"@,
            WellKnownCode::F23 => "F23"@,
            WellKnownCode::F24 => "F24"@,
        }
    }

    /// The numeric code of this key.
    pub open spec fn spec_code(self) -> u8 {
        match self {
            WellKnownCode::A => 0x04,
            WellKnownCode::B => 0x05,
            WellKnownCode::C => 0x06,
            WellKnownCode::D => 0x07,
            WellKnownCode::E => 0x08,
            WellKnownCode::F => 0x09,
            WellKnownCode::G => 0x0a,
            WellKnownCode::H => 0x0b,
            WellKnownCode::I => 0x0c,
            WellKnownCode::J => 0x0d,
            WellKnownCode::K => 0x0e,
            WellKnownCode::L => 0x0f,
            WellKnownCode::M => 0x10,
            WellKnownCode::N => 0x11,
            WellKnownCode::O => 0x12,
            WellKnownCode::P => 0x13,
            WellKnownCode::Q => 0x14,
            WellKnownCode::R => 0x15,
            WellKnownCode::S => 0x16,
            WellKnownCode::T => 0x17,
            WellKnownCode::U => 0x18,
            WellKnownCode::V => 0x19,
            WellKnownCode::W => 0x1a,
            WellKnownCode::X => 0x1b,
            WellKnownCode::Y => 0x1c,
            WellKnownCode::Z => 0x1d,
            WellKnownCode::N1 => 0x1e,
            WellKnownCode::N2 => 0x1f,
            WellKnownCode::N3 => 0x20,
            WellKnownCode::N4 => 0x21,
            WellKnownCode::N5 => 0x22,
            WellKnownCode::N6 => 0x23,
            WellKnownCode::N7 => 0x24,
            WellKnownCode::N8 => 0x25,
            WellKnownCode::N9 => 0x26,
            WellKnownCode::N0 => 0x27,
            WellKnownCode::Enter => 0x28,
            WellKnownCode::Escape => 0x29,
            WellKnownCode::Backspace => 0x2a,
            WellKnownCode::Tab => 0x2b,
            WellKnownCode::Space => 0x2c,
            WellKnownCode::Minus => 0x2d,
            WellKnownCode::Equal => 0x2e,
            WellKnownCode::LeftBracket => 0x2f,
            WellKnownCode::RightBracket => 0x30,
            WellKnownCode::Backslash => 0x31,
            WellKnownCode::NonUSHash => 0x32,
            WellKnownCode::Semicolon => 0x33,
            WellKnownCode::Quote => 0x34,
            WellKnownCode::Grave => 0x35,
            WellKnownCode::Comma => 0x36,
            WellKnownCode::Dot => 0x37,
            WellKnownCode::Slash => 0x38,
            WellKnownCode::CapsLock => 0x39,
            WellKnownCode::F1 => 0x3a,
            WellKnownCode::F2 => 0x3b,
            WellKnownCode::F3 => 0x3c,
            WellKnownCode::F4 => 0x3d,
            WellKnownCode::F5 => 0x3e,
            WellKnownCode::F6 => 0x3f,
            WellKnownCode::F7 => 0x40,
            WellKnownCode::F8 => 0x41,
            WellKnownCode::F9 => 0x42,
            WellKnownCode::F10 => 0x43,
            WellKnownCode::F11 => 0x44,
            WellKnownCode::F12 => 0x45,
            WellKnownCode::PrintScreen => 0x46,
            WellKnownCode::ScrollLock => 0x47,
            WellKnownCode::Pause => 0x48,
            WellKnownCode::Insert => 0x49,
            WellKnownCode::Home => 0x4a,
            WellKnownCode::PageUp => 0x4b,
            WellKnownCode::Delete => 0x4c,
            WellKnownCode::End => 0x4d,
            WellKnownCode::PageDown => 0x4e,
            WellKnownCode::Right => 0x4f,
            WellKnownCode::Left => 0x50,
            WellKnownCode::Down => 0x51,
            WellKnownCode::Up => 0x52,
            WellKnownCode::NumLock => 0x53,
            WellKnownCode::NumPadSlash => 0x54,
            WellKnownCode::NumPadAsterisk => 0x55,
            WellKnownCode::NumPadMinus => 0x56,
            WellKnownCode::NumPadPlus => 0x57,
            WellKnownCode::NumPadEnter => 0x58,
            WellKnownCode::NumPad1 => 0x59,
            WellKnownCode::NumPad2 => 0x5a,
            WellKnownCode::NumPad3 => 0x5b,
            WellKnownCode::NumPad4 => 0x5c,
            WellKnownCode::NumPad5 => 0x5d,
            WellKnownCode::NumPad6 => 0x5e,
            WellKnownCode::NumPad7 => 0x5f,
            WellKnownCode::NumPad8 => 0x60,
            WellKnownCode::NumPad9 => 0x61,
            WellKnownCode::NumPad0 => 0x62,
            WellKnownCode::NumPadDot => 0x63,
            WellKnownCode::NonUSBackslash => 0x64,
            WellKnownCode::Application => 0x65,
            WellKnownCode::Power => 0x66,
            WellKnownCode::NumPadEqual => 0x67,
            WellKnownCode::F13 => 0x68,
            WellKnownCode::F14 => 0x69,
            WellKnownCode::F15 => 0x6a,
            WellKnownCode::F16 => 0x6b,
            WellKnownCode::F17 => 0x6c,
            WellKnownCode::F18 => 0x6d,
            WellKnownCode::F19 => 0x6e,
            WellKnownCode::F20 => 0x6f,
            WellKnownCode::F21 => 0x70,
            WellKnownCode::F22 => 0x71,
            WellKnownCode::F23 => 0x72,
            WellKnownCode::F24 => 0x73,
        }
    }

    /// The key whose canonical name is exactly `name`, if there is one.
    pub open spec fn spec_from_name(name: Seq<char>) -> Option<WellKnownCode> {
        if name == WellKnownCode::A.spec_name() {
            Some(WellKnownCode::A)
        } else if name == WellKnownCode::B.spec_name() {
            Some(WellKnownCode::B)
        } else if name == WellKnownCode::C.spec_name() {
            Some(WellKnownCode::C)
        } else if name == WellKnownCode::D.spec_name() {
            Some(WellKnownCode::D)
        } else if name == WellKnownCode::E.spec_name() {
            Some(WellKnownCode::E)
        } else if name == WellKnownCode::F.spec_name() {
            Some(WellKnownCode::F)
        } else if name == WellKnownCode::G.spec_name() {
            Some(WellKnownCode::G)
        } else if name == WellKnownCode::H.spec_name() {
            Some(WellKnownCode::H)
        } else if name == WellKnownCode::I.spec_name() {
            Some(WellKnownCode::I)
        } else if name == WellKnownCode::J.spec_name() {
            Some(WellKnownCode::J)
        } else if name == WellKnownCode::K.spec_name() {
            Some(WellKnownCode::K)
        } else if name == WellKnownCode::L.spec_name() {
            Some(WellKnownCode::L)
        } else if name == WellKnownCode::M.spec_name() {
            Some(WellKnownCode::M)
        } else if name == WellKnownCode::N.spec_name() {
            Some(WellKnownCode::N)
        } else if name == WellKnownCode::O.spec_name() {
            Some(WellKnownCode::O)
        } else if name == WellKnownCode::P.spec_name() {
            Some(WellKnownCode::P)
        } else if name == WellKnownCode::Q.spec_name() {
            Some(WellKnownCode::Q)
        } else if name == WellKnownCode::R.spec_name() {
            Some(WellKnownCode::R)
        } else if name == WellKnownCode::S.spec_name() {
            Some(WellKnownCode::S)
        } else if name == WellKnownCode::T.spec_name() {
            Some(WellKnownCode::T)
        } else if name == WellKnownCode::U.spec_name() {
            Some(WellKnownCode::U)
        } else if name == WellKnownCode::V.spec_name() {
            Some(WellKnownCode::V)
        } else if name == WellKnownCode::W.spec_name() {
            Some(WellKnownCode::W)
        } else if name == WellKnownCode::X.spec_name() {
            Some(WellKnownCode::X)
        } else if name == WellKnownCode::Y.spec_name() {
            Some(WellKnownCode::Y)
        } else if name == WellKnownCode::Z.spec_name() {
            Some(WellKnownCode::Z)
        } else if name == WellKnownCode::N1.spec_name() {
            Some(WellKnownCode::N1)
        } else if name == WellKnownCode::N2.spec_name() {
            Some(WellKnownCode::N2)
        } else if name == WellKnownCode::N3.spec_name() {
            Some(WellKnownCode::N3)
        } else if name == WellKnownCode::N4.spec_name() {
            Some(WellKnownCode::N4)
        } else if name == WellKnownCode::N5.spec_name() {
            Some(WellKnownCode::N5)
        } else if name == WellKnownCode::N6.spec_name() {
            Some(WellKnownCode::N6)
        } else if name == WellKnownCode::N7.spec_name() {
            Some(WellKnownCode::N7)
        } else if name == WellKnownCode::N8.spec_name() {
            Some(WellKnownCode::N8)
        } else if name == WellKnownCode::N9.spec_name() {
            Some(WellKnownCode::N9)
        } else if name == WellKnownCode::N0.spec_name() {
            Some(WellKnownCode::N0)
        } else if name == WellKnownCode::Enter.spec_name() {
            Some(WellKnownCode::Enter)
        } else if name == WellKnownCode::Escape.spec_name() {
            Some(WellKnownCode::Escape)
        } else if name == WellKnownCode::Backspace.spec_name() {
            Some(WellKnownCode::Backspace)
        } else if name == WellKnownCode::Tab.spec_name() {
            Some(WellKnownCode::Tab)
        } else if name == WellKnownCode::Space.spec_name() {
            Some(WellKnownCode::Space)
        } else if name == WellKnownCode::Minus.spec_name() {
            Some(WellKnownCode::Minus)
        } else if name == WellKnownCode::Equal.spec_name() {
            Some(WellKnownCode::Equal)
        } else if name == WellKnownCode::LeftBracket.spec_name() {
            Some(WellKnownCode::LeftBracket)
        } else if name == WellKnownCode::RightBracket.spec_name() {
            Some(WellKnownCode::RightBracket)
        } else if name == WellKnownCode::Backslash.spec_name() {
            Some(WellKnownCode::Backslash)
        } else if name == WellKnownCode::NonUSHash.spec_name() {
            Some(WellKnownCode::NonUSHash)
        } else if name == WellKnownCode::Semicolon.spec_name() {
            Some(WellKnownCode::Semicolon)
        } else if name == WellKnownCode::Quote.spec_name() {
            Some(WellKnownCode::Quote)
        } else if name == WellKnownCode::Grave.spec_name() {
            Some(WellKnownCode::Grave)
        } else if name == WellKnownCode::Comma.spec_name() {
            Some(WellKnownCode::Comma)
        } else if name == WellKnownCode::Dot.spec_name() {
            Some(WellKnownCode::Dot)
        } else if name == WellKnownCode::Slash.spec_name() {
            Some(WellKnownCode::Slash)
        } else if name == WellKnownCode::CapsLock.spec_name() {
            Some(WellKnownCode::CapsLock)
        } else if name == WellKnownCode::F1.spec_name() {
            Some(WellKnownCode::F1)
        } else if name == WellKnownCode::F2.spec_name() {
            Some(WellKnownCode::F2)
        } else if name == WellKnownCode::F3.spec_name() {
            Some(WellKnownCode::F3)
        } else if name == WellKnownCode::F4.spec_name() {
            Some(WellKnownCode::F4)
        } else if name == WellKnownCode::F5.spec_name() {
            Some(WellKnownCode::F5)
        } else if name == WellKnownCode::F6.spec_name() {
            Some(WellKnownCode::F6)
        } else if name == WellKnownCode::F7.spec_name() {
            Some(WellKnownCode::F7)
        } else if name == WellKnownCode::F8.spec_name() {
            Some(WellKnownCode::F8)
        } else if name == WellKnownCode::F9.spec_name() {
            Some(WellKnownCode::F9)
        } else if name == WellKnownCode::F10.spec_name() {
            Some(WellKnownCode::F10)
        } else if name == WellKnownCode::F11.spec_name() {
            Some(WellKnownCode::F11)
        } else if name == WellKnownCode::F12.spec_name() {
            Some(WellKnownCode::F12)
        } else if name == WellKnownCode::PrintScreen.spec_name() {
            Some(WellKnownCode::PrintScreen)
        } else if name == WellKnownCode::ScrollLock.spec_name() {
            Some(WellKnownCode::ScrollLock)
        } else if name == WellKnownCode::Pause.spec_name() {
            Some(WellKnownCode::Pause)
        } else if name == WellKnownCode::Insert.spec_name() {
            Some(WellKnownCode::Insert)
        } else if name == WellKnownCode::Home.spec_name() {
            Some(WellKnownCode::Home)
        } else if name == WellKnownCode::PageUp.spec_name() {
            Some(WellKnownCode::PageUp)
        } else if name == WellKnownCode::Delete.spec_name() {
            Some(WellKnownCode::Delete)
        } else if name == WellKnownCode::End.spec_name() {
            Some(WellKnownCode::End)
        } else if name == WellKnownCode::PageDown.spec_name() {
            Some(WellKnownCode::PageDown)
        } else if name == WellKnownCode::Right.spec_name() {
            Some(WellKnownCode::Right)
        } else if name == WellKnownCode::Left.spec_name() {
            Some(WellKnownCode::Left)
        } else if name == WellKnownCode::Down.spec_name() {
            Some(WellKnownCode::Down)
        } else if name == WellKnownCode::Up.spec_name() {
            Some(WellKnownCode::Up)
        } else if name == WellKnownCode::NumLock.spec_name() {
            Some(WellKnownCode::NumLock)
        } else if name == WellKnownCode::NumPadSlash.spec_name() {
            Some(WellKnownCode::NumPadSlash)
        } else if name == WellKnownCode::NumPadAsterisk.spec_name() {
            Some(WellKnownCode::NumPadAsterisk)
        } else if name == WellKnownCode::NumPadMinus.spec_name() {
            Some(WellKnownCode::NumPadMinus)
        } else if name == WellKnownCode::NumPadPlus.spec_name() {
            Some(WellKnownCode::NumPadPlus)
        } else if name == WellKnownCode::NumPadEnter.spec_name() {
            Some(WellKnownCode::NumPadEnter)
        } else if name == WellKnownCode::NumPad1.spec_name() {
            Some(WellKnownCode::NumPad1)
        } else if name == WellKnownCode::NumPad2.spec_name() {
            Some(WellKnownCode::NumPad2)
        } else if name == WellKnownCode::NumPad3.spec_name() {
            Some(WellKnownCode::NumPad3)
        } else if name == WellKnownCode::NumPad4.spec_name() {
            Some(WellKnownCode::NumPad4)
        } else if name == WellKnownCode::NumPad5.spec_name() {
            Some(WellKnownCode::NumPad5)
        } else if name == WellKnownCode::NumPad6.spec_name() {
            Some(WellKnownCode::NumPad6)
        } else if name == WellKnownCode::NumPad7.spec_name() {
            Some(WellKnownCode::NumPad7)
        } else if name == WellKnownCode::NumPad8.spec_name() {
            Some(WellKnownCode::NumPad8)
        } else if name == WellKnownCode::NumPad9.spec_name() {
            Some(WellKnownCode::NumPad9)
        } else if name == WellKnownCode::NumPad0.spec_name() {
            Some(WellKnownCode::NumPad0)
        } else if name == WellKnownCode::NumPadDot.spec_name() {
            Some(WellKnownCode::NumPadDot)
        } else if name == WellKnownCode::NonUSBackslash.spec_name() {
            Some(WellKnownCode::NonUSBackslash)
        } else if name == WellKnownCode::Application.spec_name() {
            Some(WellKnownCode::Application)
        } else if name == WellKnownCode::Power.spec_name() {
            Some(WellKnownCode::Power)
        } else if name == WellKnownCode::NumPadEqual.spec_name() {
            Some(WellKnownCode::NumPadEqual)
        } else if name == WellKnownCode::F13.spec_name() {
            Some(WellKnownCode::F13)
        } else if name == WellKnownCode::F14.spec_name() {
            Some(WellKnownCode::F14)
        } else if name == WellKnownCode::F15.spec_name() {
            Some(WellKnownCode::F15)
        } else if name == WellKnownCode::F16.spec_name() {
            Some(WellKnownCode::F16)
        } else if name == WellKnownCode::F17.spec_name() {
            Some(WellKnownCode::F17)
        } else if name == WellKnownCode::F18.spec_name() {
            Some(WellKnownCode::F18)
        } else if name == WellKnownCode::F19.spec_name() {
            Some(WellKnownCode::F19)
        } else if name == WellKnownCode::F20.spec_name() {
            Some(WellKnownCode::F20)
        } else if name == WellKnownCode::F21.spec_name() {
            Some(WellKnownCode::F21)
        } else if name == WellKnownCode::F22.spec_name() {
            Some(WellKnownCode::F22)
        } else if name == WellKnownCode::F23.spec_name() {
            Some(WellKnownCode::F23)
        } else if name == WellKnownCode::F24.spec_name() {
            Some(WellKnownCode::F24)
        } else {
            None
        }
    }

    /// The canonical name of this key.
    pub fn name(self) -> (r: &'static str)
        ensures
            r@ == self.spec_name(),
    {
        match self {
            WellKnownCode::A => "A",
            WellKnownCode::B => "B",
            WellKnownCode::C => "C",
            WellKnownCode::D => "D",
            WellKnownCode::E => "E",
            WellKnownCode::F => "F",
            WellKnownCode::G => "G",
            WellKnownCode::H => "H",
            WellKnownCode::I => "I",
            WellKnownCode::J => "J",
            WellKnownCode::K => "K",
            WellKnownCode::L => "L",
            WellKnownCode::M => "M",
            WellKnownCode::N => "N",
            WellKnownCode::O => "O",
            WellKnownCode::P => "P",
            WellKnownCode::Q => "Q",
            WellKnownCode::R => "R",
            WellKnownCode::S => "S",
            WellKnownCode::T => "T",
            WellKnownCode::U => "U",
            WellKnownCode::V => "V",
            WellKnownCode::W => "W",
            WellKnownCode::X => "X",
            WellKnownCode::Y => "Y",
            WellKnownCode::Z => "Z",
            WellKnownCode::N1 => "1",
            WellKnownCode::N2 => "2",
            WellKnownCode::N3 => "3",
            WellKnownCode::N4 => "4",
            WellKnownCode::N5 => "5",
            WellKnownCode::N6 => "6",
            WellKnownCode::N7 => "7",
            WellKnownCode::N8 => "8",
            WellKnownCode::N9 => "9",
            WellKnownCode::N0 => "0",
            WellKnownCode::Enter => "Enter",
            WellKnownCode::Escape => "Escape",
            WellKnownCode::Backspace => "Backspace",
            WellKnownCode::Tab => "Tab",
            WellKnownCode::Space => "Space",
            WellKnownCode::Minus => "Minus",
            WellKnownCode::Equal => "Equal",
            WellKnownCode::LeftBracket => "LeftBracket",
            WellKnownCode::RightBracket => "RightBracket",
            WellKnownCode::Backslash => "Backslash",
            WellKnownCode::NonUSHash => "NonUSHash",
            WellKnownCode::Semicolon => "Semicolon",
            WellKnownCode::Quote => "Quote",
            WellKnownCode::Grave => "Grave",
            WellKnownCode::Comma => "Comma",
            WellKnownCode::Dot => "Dot",
            WellKnownCode::Slash => "Slash",
            WellKnownCode::CapsLock => "CapsLock",
            WellKnownCode::F1 => "F1",
            WellKnownCode::F2 => "F2",
            WellKnownCode::F3 => "F3",
            WellKnownCode::F4 => "F4",
            WellKnownCode::F5 => "F5",
            WellKnownCode::F6 => "F6",
            WellKnownCode::F7 => "F7",
            WellKnownCode::F8 => "F8",
            WellKnownCode::F9 => "F9",
            WellKnownCode::F10 => "F10",
            WellKnownCode::F11 => "F11",
            WellKnownCode::F12 => "F12",
            WellKnownCode::PrintScreen => "PrintScreen",
            WellKnownCode::ScrollLock => "ScrollLock",
            WellKnownCode::Pause => "Pause",
            WellKnownCode::Insert => "Insert",
            WellKnownCode::Home => "Home",
            WellKnownCode::PageUp => "PageUp",
            WellKnownCode::Delete => "Delete",
            WellKnownCode::End => "End",
            WellKnownCode::PageDown => "PageDown",
            WellKnownCode::Right => "Right",
            WellKnownCode::Left => "Left",
            WellKnownCode::Down => "Down",
            WellKnownCode::Up => "Up",
            WellKnownCode::NumLock => "NumLock",
            WellKnownCode::NumPadSlash => "NumPadSlash",
            WellKnownCode::NumPadAsterisk => "NumPadAsterisk",
            WellKnownCode::NumPadMinus => "NumPadMinus",
            WellKnownCode::NumPadPlus => "NumPadPlus",
            WellKnownCode::NumPadEnter => "NumPadEnter",
            WellKnownCode::NumPad1 => "NumPad1",
            WellKnownCode::NumPad2 => "NumPad2",
            WellKnownCode::NumPad3 => "NumPad3",
            WellKnownCode::NumPad4 => "NumPad4",
            WellKnownCode::NumPad5 => "NumPad5",
            WellKnownCode::NumPad6 => "NumPad6",
            WellKnownCode::NumPad7 => "NumPad7",
            WellKnownCode::NumPad8 => "NumPad8",
            WellKnownCode::NumPad9 => "NumPad9",
            WellKnownCode::NumPad0 => "NumPad0",
            WellKnownCode::NumPadDot => "NumPadDot",
            WellKnownCode::NonUSBackslash => "NonUSBackslash",
            WellKnownCode::Application => "Application",
            WellKnownCode::Power => "Power",
            WellKnownCode::NumPadEqual => "NumPadEqual",
            WellKnownCode::F13 => "F13",
            WellKnownCode::F14 => "F14",
            WellKnownCode::F15 => "F15",
            WellKnownCode::F16 => "F16",
            WellKnownCode::F17 => "F17",
            WellKnownCode::F18 => "F18",
            WellKnownCode::F19 => "F19",
            WellKnownCode::F20 => "F20",
            WellKnownCode::F21 => "F21",
            WellKnownCode::F22 => "F22",
            WellKnownCode::F23 => "F23",
            WellKnownCode::F24 => "F24",
        }
    }

    /// The numeric code of this key.
    pub fn code(self) -> (r: u8)
        ensures
            r == self.spec_code(),
    {
        match self {
            WellKnownCode::A => 0x04,
            WellKnownCode::B => 0x05,
            WellKnownCode::C => 0x06,
            WellKnownCode::D => 0x07,
            WellKnownCode::E => 0x08,
            WellKnownCode::F => 0x09,
            WellKnownCode::G => 0x0a,
            WellKnownCode::H => 0x0b,
            WellKnownCode::I => 0x0c,
            WellKnownCode::J => 0x0d,
            WellKnownCode::K => 0x0e,
            WellKnownCode::L => 0x0f,
            WellKnownCode::M => 0x10,
            WellKnownCode::N => 0x11,
            WellKnownCode::O => 0x12,
            WellKnownCode::P => 0x13,
            WellKnownCode::Q => 0x14,
            WellKnownCode::R => 0x15,
            WellKnownCode::S => 0x16,
            WellKnownCode::T => 0x17,
            WellKnownCode::U => 0x18,
            WellKnownCode::V => 0x19,
            WellKnownCode::W => 0x1a,
            WellKnownCode::X => 0x1b,
            WellKnownCode::Y => 0x1c,
            WellKnownCode::Z => 0x1d,
            WellKnownCode::N1 => 0x1e,
            WellKnownCode::N2 => 0x1f,
            WellKnownCode::N3 => 0x20,
            WellKnownCode::N4 => 0x21,
            WellKnownCode::N5 => 0x22,
            WellKnownCode::N6 => 0x23,
            WellKnownCode::N7 => 0x24,
            WellKnownCode::N8 => 0x25,
            WellKnownCode::N9 => 0x26,
            WellKnownCode::N0 => 0x27,
            WellKnownCode::Enter => 0x28,
            WellKnownCode::Escape => 0x29,
            WellKnownCode::Backspace => 0x2a,
            WellKnownCode::Tab => 0x2b,
            WellKnownCode::Space => 0x2c,
            WellKnownCode::Minus => 0x2d,
            WellKnownCode::Equal => 0x2e,
            WellKnownCode::LeftBracket => 0x2f,
            WellKnownCode::RightBracket => 0x30,
            WellKnownCode::Backslash => 0x31,
            WellKnownCode::NonUSHash => 0x32,
            WellKnownCode::Semicolon => 0x33,
            WellKnownCode::Quote => 0x34,
            WellKnownCode::Grave => 0x35,
            WellKnownCode::Comma => 0x36,
            WellKnownCode::Dot => 0x37,
            WellKnownCode::Slash => 0x38,
            WellKnownCode::CapsLock => 0x39,
            WellKnownCode::F1 => 0x3a,
            WellKnownCode::F2 => 0x3b,
            WellKnownCode::F3 => 0x3c,
            WellKnownCode::F4 => 0x3d,
            WellKnownCode::F5 => 0x3e,
            WellKnownCode::F6 => 0x3f,
            WellKnownCode::F7 => 0x40,
            WellKnownCode::F8 => 0x41,
            WellKnownCode::F9 => 0x42,
            WellKnownCode::F10 => 0x43,
            WellKnownCode::F11 => 0x44,
            WellKnownCode::F12 => 0x45,
            WellKnownCode::PrintScreen => 0x46,
            WellKnownCode::ScrollLock => 0x47,
            WellKnownCode::Pause => 0x48,
            WellKnownCode::Insert => 0x49,
            WellKnownCode::Home => 0x4a,
            WellKnownCode::PageUp => 0x4b,
            WellKnownCode::Delete => 0x4c,
            WellKnownCode::End => 0x4d,
            WellKnownCode::PageDown => 0x4e,
            WellKnownCode::Right => 0x4f,
            WellKnownCode::Left => 0x50,
            WellKnownCode::Down => 0x51,
            WellKnownCode::Up => 0x52,
            WellKnownCode::NumLock => 0x53,
            WellKnownCode::NumPadSlash => 0x54,
            WellKnownCode::NumPadAsterisk => 0x55,
            WellKnownCode::NumPadMinus => 0x56,
            WellKnownCode::NumPadPlus => 0x57,
            WellKnownCode::NumPadEnter => 0x58,
            WellKnownCode::NumPad1 => 0x59,
            WellKnownCode::NumPad2 => 0x5a,
            WellKnownCode::NumPad3 => 0x5b,
            WellKnownCode::NumPad4 => 0x5c,
            WellKnownCode::NumPad5 => 0x5d,
            WellKnownCode::NumPad6 => 0x5e,
            WellKnownCode::NumPad7 => 0x5f,
            WellKnownCode::NumPad8 => 0x60,
            WellKnownCode::NumPad9 => 0x61,
            WellKnownCode::NumPad0 => 0x62,
            WellKnownCode::NumPadDot => 0x63,
            WellKnownCode::NonUSBackslash => 0x64,
            WellKnownCode::Application => 0x65,
            WellKnownCode::Power => 0x66,
            WellKnownCode::NumPadEqual => 0x67,
            WellKnownCode::F13 => 0x68,
            WellKnownCode::F14 => 0x69,
            WellKnownCode::F15 => 0x6a,
            WellKnownCode::F16 => 0x6b,
            WellKnownCode::F17 => 0x6c,
            WellKnownCode::F18 => 0x6d,
            WellKnownCode::F19 => 0x6e,
            WellKnownCode::F20 => 0x6f,
            WellKnownCode::F21 => 0x70,
            WellKnownCode::F22 => 0x71,
            WellKnownCode::F23 => 0x72,
            WellKnownCode::F24 => 0x73,
        }
    }

    /// Looks up a key by its canonical name. The match is exact,
    /// case included.
    pub fn from_name(name: &str) -> (r: Option<WellKnownCode>)
        ensures
            r == Self::spec_from_name(name@),
    {
        if str_eq(name, "A") {
            return Some(WellKnownCode::A);
        }
        if str_eq(name, "B") {
            return Some(WellKnownCode::B);
        }
        if str_eq(name, "C") {
            return Some(WellKnownCode::C);
        }
        if str_eq(name, "D") {
            return Some(WellKnownCode::D);
        }
        if str_eq(name, "E") {
            return Some(WellKnownCode::E);
        }
        if str_eq(name, "F") {
            return Some(WellKnownCode::F);
        }
        if str_eq(name, "G") {
            return Some(WellKnownCode::G);
        }
        if str_eq(name, "H") {
            return Some(WellKnownCode::H);
        }
        if str_eq(name, "I") {
            return Some(WellKnownCode::I);
        }
        if str_eq(name, "J") {
            return Some(WellKnownCode::J);
        }
        if str_eq(name, "K") {
            return Some(WellKnownCode::K);
        }
        if str_eq(name, "L") {
            return Some(WellKnownCode::L);
        }
        if str_eq(name, "M") {
            return Some(WellKnownCode::M);
        }
        if str_eq(name, "N") {
            return Some(WellKnownCode::N);
        }
        if str_eq(name, "O") {
            return Some(WellKnownCode::O);
        }
        if str_eq(name, "P") {
            return Some(WellKnownCode::P);
        }
        if str_eq(name, "Q") {
            return Some(WellKnownCode::Q);
        }
        if str_eq(name, "R") {
            return Some(WellKnownCode::R);
        }
        if str_eq(name, "S") {
            return Some(WellKnownCode::S);
        }
        if str_eq(name, "T") {
            return Some(WellKnownCode::T);
        }
        if str_eq(name, "U") {
            return Some(WellKnownCode::U);
        }
        if str_eq(name, "V") {
            return Some(WellKnownCode::V);
        }
        if str_eq(name, "W") {
            return Some(WellKnownCode::W);
        }
        if str_eq(name, "X") {
            return Some(WellKnownCode::X);
        }
        if str_eq(name, "Y") {
            return Some(WellKnownCode::Y);
        }
        if str_eq(name, "Z") {
            return Some(WellKnownCode::Z);
        }
        if str_eq(name, "1") {
            return Some(WellKnownCode::N1);
        }
        if str_eq(name, "2") {
            return Some(WellKnownCode::N2);
        }
        if str_eq(name, "3") {
            return Some(WellKnownCode::N3);
        }
        if str_eq(name, "4") {
            return Some(WellKnownCode::N4);
        }
        if str_eq(name, "5") {
            return Some(WellKnownCode::N5);
        }
        if str_eq(name, "6") {
            return Some(WellKnownCode::N6);
        }
        if str_eq(name, "7") {
            return Some(WellKnownCode::N7);
        }
        if str_eq(name, "8") {
            return Some(WellKnownCode::N8);
        }
        if str_eq(name, "9") {
            return Some(WellKnownCode::N9);
        }
        if str_eq(name, "0") {
            return Some(WellKnownCode::N0);
        }
        if str_eq(name, "Enter") {
            return Some(WellKnownCode::Enter);
        }
        if str_eq(name, "Escape") {
            return Some(WellKnownCode::Escape);
        }
        if str_eq(name, "Backspace") {
            return Some(WellKnownCode::Backspace);
        }
        if str_eq(name, "Tab") {
            return Some(WellKnownCode::Tab);
        }
        if str_eq(name, "Space") {
            return Some(WellKnownCode::Space);
        }
        if str_eq(name, "Minus") {
            return Some(WellKnownCode::Minus);
        }
        if str_eq(name, "Equal") {
            return Some(WellKnownCode::Equal);
        }
        if str_eq(name, "LeftBracket") {
            return Some(WellKnownCode::LeftBracket);
        }
        if str_eq(name, "RightBracket") {
            return Some(WellKnownCode::RightBracket);
        }
        if str_eq(name, "Backslash") {
            return Some(WellKnownCode::Backslash);
        }
        if str_eq(name, "NonUSHash") {
            return Some(WellKnownCode::NonUSHash);
        }
        if str_eq(name, "Semicolon") {
            return Some(WellKnownCode::Semicolon);
        }
        if str_eq(name, "Quote") {
            return Some(WellKnownCode::Quote);
        }
        if str_eq(name, "Grave") {
            return Some(WellKnownCode::Grave);
        }
        if str_eq(name, "Comma") {
            return Some(WellKnownCode::Comma);
        }
        if str_eq(name, "Dot") {
            return Some(WellKnownCode::Dot);
        }
        if str_eq(name, "Slash") {
            return Some(WellKnownCode::Slash);
        }
        if str_eq(name, "CapsLock") {
            return Some(WellKnownCode::CapsLock);
        }
        if str_eq(name, "F1") {
            return Some(WellKnownCode::F1);
        }
        if str_eq(name, "F2") {
            return Some(WellKnownCode::F2);
        }
        if str_eq(name, "F3") {
            return Some(WellKnownCode::F3);
        }
        if str_eq(name, "F4") {
            return Some(WellKnownCode::F4);
        }
        if str_eq(name, "F5") {
            return Some(WellKnownCode::F5);
        }
        if str_eq(name, "F6") {
            return Some(WellKnownCode::F6);
        }
        if str_eq(name, "F7") {
            return Some(WellKnownCode::F7);
        }
        if str_eq(name, "F8") {
            return Some(WellKnownCode::F8);
        }
        if str_eq(name, "F9") {
            return Some(WellKnownCode::F9);
        }
        if str_eq(name, "F10") {
            return Some(WellKnownCode::F10);
        }
        if str_eq(name, "F11") {
            return Some(WellKnownCode::F11);
        }
        if str_eq(name, "F12") {
            return Some(WellKnownCode::F12);
        }
        if str_eq(name, "PrintScreen") {
            return Some(WellKnownCode::PrintScreen);
        }
        if str_eq(name, "ScrollLock") {
            return Some(WellKnownCode::ScrollLock);
        }
        if str_eq(name, "Pause") {
            return Some(WellKnownCode::Pause);
        }
        if str_eq(name, "Insert") {
            return Some(WellKnownCode::Insert);
        }
        if str_eq(name, "Home") {
            return Some(WellKnownCode::Home);
        }
        if str_eq(name, "PageUp") {
            return Some(WellKnownCode::PageUp);
        }
        if str_eq(name, "Delete") {
            return Some(WellKnownCode::Delete);
        }
        if str_eq(name, "End") {
            return Some(WellKnownCode::End);
        }
        if str_eq(name, "PageDown") {
            return Some(WellKnownCode::PageDown);
        }
        if str_eq(name, "Right") {
            return Some(WellKnownCode::Right);
        }
        if str_eq(name, "Left") {
            return Some(WellKnownCode::Left);
        }
        if str_eq(name, "Down") {
            return Some(WellKnownCode::Down);
        }
        if str_eq(name, "Up") {
            return Some(WellKnownCode::Up);
        }
        if str_eq(name, "NumLock") {
            return Some(WellKnownCode::NumLock);
        }
        if str_eq(name, "NumPadSlash") {
            return Some(WellKnownCode::NumPadSlash);
        }
        if str_eq(name, "NumPadAsterisk") {
            return Some(WellKnownCode::NumPadAsterisk);
        }
        if str_eq(name, "NumPadMinus") {
            return Some(WellKnownCode::NumPadMinus);
        }
        if str_eq(name, "NumPadPlus") {
            return Some(WellKnownCode::NumPadPlus);
        }
        if str_eq(name, "NumPadEnter") {
            return Some(WellKnownCode::NumPadEnter);
        }
        if str_eq(name, "NumPad1") {
            return Some(WellKnownCode::NumPad1);
        }
        if str_eq(name, "NumPad2") {
            return Some(WellKnownCode::NumPad2);
        }
        if str_eq(name, "NumPad3") {
            return Some(WellKnownCode::NumPad3);
        }
        if str_eq(name, "NumPad4") {
            return Some(WellKnownCode::NumPad4);
        }
        if str_eq(name, "NumPad5") {
            return Some(WellKnownCode::NumPad5);
        }
        if str_eq(name, "NumPad6") {
            return Some(WellKnownCode::NumPad6);
        }
        if str_eq(name, "NumPad7") {
            return Some(WellKnownCode::NumPad7);
        }
        if str_eq(name, "NumPad8") {
            return Some(WellKnownCode::NumPad8);
        }
        if str_eq(name, "NumPad9") {
            return Some(WellKnownCode::NumPad9);
        }
        if str_eq(name, "NumPad0") {
            return Some(WellKnownCode::NumPad0);
        }
        if str_eq(name, "NumPadDot") {
            return Some(WellKnownCode::NumPadDot);
        }
        if str_eq(name, "NonUSBackslash") {
            return Some(WellKnownCode::NonUSBackslash);
        }
        if str_eq(name, "Application") {
            return Some(WellKnownCode::Application);
        }
        if str_eq(name, "Power") {
            return Some(WellKnownCode::Power);
        }
        if str_eq(name, "NumPadEqual") {
            return Some(WellKnownCode::NumPadEqual);
        }
        if str_eq(name, "F13") {
            return Some(WellKnownCode::F13);
        }
        if str_eq(name, "F14") {
            return Some(WellKnownCode::F14);
        }
        if str_eq(name, "F15") {
            return Some(WellKnownCode::F15);
        }
        if str_eq(name, "F16") {
            return Some(WellKnownCode::F16);
        }
        if str_eq(name, "F17") {
            return Some(WellKnownCode::F17);
        }
        if str_eq(name, "F18") {
            return Some(WellKnownCode::F18);
        }
        if str_eq(name, "F19") {
            return Some(WellKnownCode::F19);
        }
        if str_eq(name, "F20") {
            return Some(WellKnownCode::F20);
        }
        if str_eq(name, "F21") {
            return Some(WellKnownCode::F21);
        }
        if str_eq(name, "F22") {
            return Some(WellKnownCode::F22);
        }
        if str_eq(name, "F23") {
            return Some(WellKnownCode::F23);
        }
        if str_eq(name, "F24") {
            return Some(WellKnownCode::F24);
        }
        None
    }

    /// What a lookup finds has the name that was looked up.
    pub proof fn lemma_name_of_from_name(name: Seq<char>)
        ensures
            Self::spec_from_name(name) matches Some(found) ==> found.spec_name() == name,
    {
    }

    /// Canonical names are pairwise distinct: looking up the name of a
    /// key finds that key.
    pub proof fn lemma_from_name_of_name(self)
        ensures
            Self::spec_from_name(self.spec_name()) == Some(self),
    {
        reveal_strlit("A");
        assert("A"@.len() == 1 && "A"@[0] == 'A');
        reveal_strlit("B");
        assert("B"@.len() == 1 && "B"@[0] == 'B');
        reveal_strlit("C");
        assert("C"@.len() == 1 && "C"@[0] == 'C');
        reveal_strlit("D");
        assert("D"@.len() == 1 && "D"@[0] == 'D');
        reveal_strlit("E");
        assert("E"@.len() == 1 && "E"@[0] == 'E');
        reveal_strlit("F");
        assert("F"@.len() == 1 && "F"@[0] == 'F');
        reveal_strlit("G");
        assert("G"@.len() == 1 && "G"@[0] == 'G');
        reveal_strlit("H");
        assert("H"@.len() == 1 && "H"@[0] == 'H');
        reveal_strlit("I");
        assert("I"@.len() == 1 && "I"@[0] == 'I');
        reveal_strlit("J");
        assert("J"@.len() == 1 && "J"@[0] == 'J');
        reveal_strlit("K");
        assert("K"@.len() == 1 && "K"@[0] == 'K');
        reveal_strlit("L");
        assert("L"@.len() == 1 && "L"@[0] == 'L');
        reveal_strlit("M");
        assert("M"@.len() == 1 && "M"@[0] == 'M');
        reveal_strlit("N");
        assert("N"@.len() == 1 && "N"@[0] == 'N');
        reveal_strlit("O");
        assert("O"@.len() == 1 && "O"@[0] == 'O');
        reveal_strlit("P");
        assert("P"@.len() == 1 && "P"@[0] == 'P');
        reveal_strlit("Q");
        assert("Q"@.len() == 1 && "Q"@[0] == 'Q');
        reveal_strlit("R");
        assert("R"@.len() == 1 && "R"@[0] == 'R');
        reveal_strlit("S");
        assert("S"@.len() == 1 && "S"@[0] == 'S');
        reveal_strlit("T");
        assert("T"@.len() == 1 && "T"@[0] == 'T');
        reveal_strlit("U");
        assert("U"@.len() == 1 && "U"@[0] == 'U');
        reveal_strlit("V");
        assert("V"@.len() == 1 && "V"@[0] == 'V');
        reveal_strlit("W");
        assert("W"@.len() == 1 && "W"@[0] == 'W');
        reveal_strlit("X");
        assert("X"@.len() == 1 && "X"@[0] == 'X');
        reveal_strlit("Y");
        assert("Y"@.len() == 1 && "Y"@[0] == 'Y');
        reveal_strlit("Z");
        assert("Z"@.len() == 1 && "Z"@[0] == 'Z');
        reveal_strlit("1");
        assert("1"@.len() == 1 && "1"@[0] == '1');
        reveal_strlit("2");
        assert("2"@.len() == 1 && "2"@[0] == '2');
        reveal_strlit("3");
        assert("3"@.len() == 1 && "3"@[0] == '3');
        reveal_strlit("4");
        assert("4"@.len() == 1 && "4"@[0] == '4');
        reveal_strlit("5");
        assert("5"@.len() == 1 && "5"@[0] == '5');
        reveal_strlit("6");
        assert("6"@.len() == 1 && "6"@[0] == '6');
        reveal_strlit("7");
        assert("7"@.len() == 1 && "7"@[0] == '7');
        reveal_strlit("8");
        assert("8"@.len() == 1 && "8"@[0] == '8');
        reveal_strlit("9");
        assert("9"@.len() == 1 && "9"@[0] == '9');
        reveal_strlit("0");
        assert("0"@.len() == 1 && "0"@[0] == '0');
        reveal_strlit("Enter");
        assert("Enter"@.len() == 5 && "Enter"@[0] == 'E' && "Enter"@[1] == 'n'
            && "Enter"@[2] == 't' && "Enter"@[3] == 'e' && "Enter"@[4] == 'r');
        reveal_strlit("Escape");
        assert("Escape"@.len() == 6 && "Escape"@[0] == 'E' && "Escape"@[1] == 's'
            && "Escape"@[2] == 'c' && "Escape"@[3] == 'a' && "Escape"@[4] == 'p'
            && "Escape"@[5] == 'e');
        reveal_strlit("Backspace");
        assert("Backspace"@.len() == 9 && "Backspace"@[0] == 'B' && "Backspace"@[1] == 'a'
            && "Backspace"@[2] == 'c' && "Backspace"@[3] == 'k' && "Backspace"@[4] == 's'
            && "Backspace"@[5] == 'p' && "Backspace"@[6] == 'a' && "Backspace"@[7] == 'c'
            && "Backspace"@[8] == 'e');
        reveal_strlit("Tab");
        assert("Tab"@.len() == 3 && "Tab"@[0] == 'T' && "Tab"@[1] == 'a' && "Tab"@[2] == 'b');
        reveal_strlit("Space");
        assert("Space"@.len() == 5 && "Space"@[0] == 'S' && "Space"@[1] == 'p'
            && "Space"@[2] == 'a' && "Space"@[3] == 'c' && "Space"@[4] == 'e');
        reveal_strlit("Minus");
        assert("Minus"@.len() == 5 && "Minus"@[0] == 'M' && "Minus"@[1] == 'i'
            && "Minus"@[2] == 'n' && "Minus"@[3] == 'u' && "Minus"@[4] == 's');
        reveal_strlit("Equal");
        assert("Equal"@.len() == 5 && "Equal"@[0] == 'E' && "Equal"@[1] == 'q'
            && "Equal"@[2] == 'u' && "Equal"@[3] == 'a' && "Equal"@[4] == 'l');
        reveal_strlit("LeftBracket");
        assert("LeftBracket"@.len() == 11 && "LeftBracket"@[0] == 'L' && "LeftBracket"@[1] == 'e'
            && "LeftBracket"@[2] == 'f' && "LeftBracket"@[3] == 't' && "LeftBracket"@[4] == 'B'
            && "LeftBracket"@[5] == 'r' && "LeftBracket"@[6] == 'a' && "LeftBracket"@[7] == 'c'
            && "LeftBracket"@[8] == 'k' && "LeftBracket"@[9] == 'e' && "LeftBracket"@[10] == 't');
        reveal_strlit("RightBracket");
        assert("RightBracket"@.len() == 12 && "RightBracket"@[0] == 'R'
            && "RightBracket"@[1] == 'i' && "RightBracket"@[2] == 'g' && "RightBracket"@[3] == 'h'
            && "RightBracket"@[4] == 't' && "RightBracket"@[5] == 'B' && "RightBracket"@[6] == 'r'
            && "RightBracket"@[7] == 'a' && "RightBracket"@[8] == 'c' && "RightBracket"@[9] == 'k'
            && "RightBracket"@[10] == 'e' && "RightBracket"@[11] == 't');
        reveal_strlit("Backslash");
        assert("Backslash"@.len() == 9 && "Backslash"@[0] == 'B' && "Backslash"@[1] == 'a'
            && "Backslash"@[2] == 'c' && "Backslash"@[3] == 'k' && "Backslash"@[4] == 's'
            && "Backslash"@[5] == 'l' && "Backslash"@[6] == 'a' && "Backslash"@[7] == 's'
            && "Backslash"@[8] == 'h');
        reveal_strlit("NonUSHash");
        assert("NonUSHash"@.len() == 9 && "NonUSHash"@[0] == 'N' && "NonUSHash"@[1] == 'o'
            && "NonUSHash"@[2] == 'n' && "NonUSHash"@[3] == 'U' && "NonUSHash"@[4] == 'S'
            && "NonUSHash"@[5] == 'H' && "NonUSHash"@[6] == 'a' && "NonUSHash"@[7] == 's'
            && "NonUSHash"@[8] == 'h');
        reveal_strlit("Semicolon");
        assert("Semicolon"@.len() == 9 && "Semicolon"@[0] == 'S' && "Semicolon"@[1] == 'e'
            && "Semicolon"@[2] == 'm' && "Semicolon"@[3] == 'i' && "Semicolon"@[4] == 'c'
            && "Semicolon"@[5] == 'o' && "Semicolon"@[6] == 'l' && "Semicolon"@[7] == 'o'
            && "Semicolon"@[8] == 'n');
        reveal_strlit("Quote");
        assert("Quote"@.len() == 5 && "Quote"@[0] == 'Q' && "Quote"@[1] == 'u'
            && "Quote"@[2] == 'o' && "Quote"@[3] == 't' && "Quote"@[4] == 'e');
        reveal_strlit("Grave");
        assert("Grave"@.len() == 5 && "Grave"@[0] == 'G' && "Grave"@[1] == 'r'
            && "Grave"@[2] == 'a' && "Grave"@[3] == 'v' && "Grave"@[4] == 'e');
        reveal_strlit("Comma");
        assert("Comma"@.len() == 5 && "Comma"@[0] == 'C' && "Comma"@[1] == 'o'
            && "Comma"@[2] == 'm' && "Comma"@[3] == 'm' && "Comma"@[4] == 'a');
        reveal_strlit("Dot");
        assert("Dot"@.len() == 3 && "Dot"@[0] == 'D' && "Dot"@[1] == 'o' && "Dot"@[2] == 't');
        reveal_strlit("Slash");
        assert("Slash"@.len() == 5 && "Slash"@[0] == 'S' && "Slash"@[1] == 'l'
            && "Slash"@[2] == 'a' && "Slash"@[3] == 's' && "Slash"@[4] == 'h');
        reveal_strlit("CapsLock");
        assert("CapsLock"@.len() == 8 && "CapsLock"@[0] == 'C' && "CapsLock"@[1] == 'a'
            && "CapsLock"@[2] == 'p' && "CapsLock"@[3] == 's' && "CapsLock"@[4] == 'L'
            && "CapsLock"@[5] == 'o' && "CapsLock"@[6] == 'c' && "CapsLock"@[7] == 'k');
        reveal_strlit("F1");
        assert("F1"@.len() == 2 && "F1"@[0] == 'F' && "F1"@[1] == '1');
        reveal_strlit("F2");
        assert("F2"@.len() == 2 && "F2"@[0] == 'F' && "F2"@[1] == '2');
        reveal_strlit("F3");
        assert("F3"@.len() == 2 && "F3"@[0] == 'F' && "F3"@[1] == '3');
        reveal_strlit("F4");
        assert("F4"@.len() == 2 && "F4"@[0] == 'F' && "F4"@[1] == '4');
        reveal_strlit("F5");
        assert("F5"@.len() == 2 && "F5"@[0] == 'F' && "F5"@[1] == '5');
        reveal_strlit("F6");
        assert("F6"@.len() == 2 && "F6"@[0] == 'F' && "F6"@[1] == '6');
        reveal_strlit("F7");
        assert("F7"@.len() == 2 && "F7"@[0] == 'F' && "F7"@[1] == '7');
        reveal_strlit("F8");
        assert("F8"@.len() == 2 && "F8"@[0] == 'F' && "F8"@[1] == '8');
        reveal_strlit("F9");
        assert("F9"@.len() == 2 && "F9"@[0] == 'F' && "F9"@[1] == '9');
        reveal_strlit("F10");
        assert("F10"@.len() == 3 && "F10"@[0] == 'F' && "F10"@[1] == '1' && "F10"@[2] == '0');
        reveal_strlit("F11");
        assert("F11"@.len() == 3 && "F11"@[0] == 'F' && "F11"@[1] == '1' && "F11"@[2] == '1');
        reveal_strlit("F12");
        assert("F12"@.len() == 3 && "F12"@[0] == 'F' && "F12"@[1] == '1' && "F12"@[2] == '2');
        reveal_strlit("PrintScreen");
        assert("PrintScreen"@.len() == 11 && "PrintScreen"@[0] == 'P' && "PrintScreen"@[1] == 'r'
            && "PrintScreen"@[2] == 'i' && "PrintScreen"@[3] == 'n' && "PrintScreen"@[4] == 't'
            && "PrintScreen"@[5] == 'S' && "PrintScreen"@[6] == 'c' && "PrintScreen"@[7] == 'r'
            && "PrintScreen"@[8] == 'e' && "PrintScreen"@[9] == 'e' && "PrintScreen"@[10] == 'n');
        reveal_strlit("ScrollLock");
        assert("ScrollLock"@.len() == 10 && "ScrollLock"@[0] == 'S' && "ScrollLock"@[1] == 'c'
            && "ScrollLock"@[2] == 'r' && "ScrollLock"@[3] == 'o' && "ScrollLock"@[4] == 'l'
            && "ScrollLock"@[5] == 'l' && "ScrollLock"@[6] == 'L' && "ScrollLock"@[7] == 'o'
            && "ScrollLock"@[8] == 'c' && "ScrollLock"@[9] == 'k');
        reveal_strlit("Pause");
        assert("Pause"@.len() == 5 && "Pause"@[0] == 'P' && "Pause"@[1] == 'a'
            && "Pause"@[2] == 'u' && "Pause"@[3] == 's' && "Pause"@[4] == 'e');
        reveal_strlit("Insert");
        assert("Insert"@.len() == 6 && "Insert"@[0] == 'I' && "Insert"@[1] == 'n'
            && "Insert"@[2] == 's' && "Insert"@[3] == 'e' && "Insert"@[4] == 'r'
            && "Insert"@[5] == 't');
        reveal_strlit("Home");
        assert("Home"@.len() == 4 && "Home"@[0] == 'H' && "Home"@[1] == 'o' && "Home"@[2] == 'm'
            && "Home"@[3] == 'e');
        reveal_strlit("PageUp");
        assert("PageUp"@.len() == 6 && "PageUp"@[0] == 'P' && "PageUp"@[1] == 'a'
            && "PageUp"@[2] == 'g' && "PageUp"@[3] == 'e' && "PageUp"@[4] == 'U'
            && "PageUp"@[5] == 'p');
        reveal_strlit("Delete");
        assert("Delete"@.len() == 6 && "Delete"@[0] == 'D' && "Delete"@[1] == 'e'
            && "Delete"@[2] == 'l' && "Delete"@[3] == 'e' && "Delete"@[4] == 't'
            && "Delete"@[5] == 'e');
        reveal_strlit("End");
        assert("End"@.len() == 3 && "End"@[0] == 'E' && "End"@[1] == 'n' && "End"@[2] == 'd');
        reveal_strlit("PageDown");
        assert("PageDown"@.len() == 8 && "PageDown"@[0] == 'P' && "PageDown"@[1] == 'a'
            && "PageDown"@[2] == 'g' && "PageDown"@[3] == 'e' && "PageDown"@[4] == 'D'
            && "PageDown"@[5] == 'o' && "PageDown"@[6] == 'w' && "PageDown"@[7] == 'n');
        reveal_strlit("Right");
        assert("Right"@.len() == 5 && "Right"@[0] == 'R' && "Right"@[1] == 'i'
            && "Right"@[2] == 'g' && "Right"@[3] == 'h' && "Right"@[4] == 't');
        reveal_strlit("Left");
        assert("Left"@.len() == 4 && "Left"@[0] == 'L' && "Left"@[1] == 'e' && "Left"@[2] == 'f'
            && "Left"@[3] == 't');
        reveal_strlit("Down");
        assert("Down"@.len() == 4 && "Down"@[0] == 'D' && "Down"@[1] == 'o' && "Down"@[2] == 'w'
            && "Down"@[3] == 'n');
        reveal_strlit("Up");
        assert("Up"@.len() == 2 && "Up"@[0] == 'U' && "Up"@[1] == 'p');
        reveal_strlit("NumLock");
        assert("NumLock"@.len() == 7 && "NumLock"@[0] == 'N' && "NumLock"@[1] == 'u'
            && "NumLock"@[2] == 'm' && "NumLock"@[3] == 'L' && "NumLock"@[4] == 'o'
            && "NumLock"@[5] == 'c' && "NumLock"@[6] == 'k');
        reveal_strlit("NumPadSlash");
        assert("NumPadSlash"@.len() == 11 && "NumPadSlash"@[0] == 'N' && "NumPadSlash"@[1] == 'u'
            && "NumPadSlash"@[2] == 'm' && "NumPadSlash"@[3] == 'P' && "NumPadSlash"@[4] == 'a'
            && "NumPadSlash"@[5] == 'd' && "NumPadSlash"@[6] == 'S' && "NumPadSlash"@[7] == 'l'
            && "NumPadSlash"@[8] == 'a' && "NumPadSlash"@[9] == 's' && "NumPadSlash"@[10] == 'h');
        reveal_strlit("NumPadAsterisk");
        assert("NumPadAsterisk"@.len() == 14 && "NumPadAsterisk"@[0] == 'N'
            && "NumPadAsterisk"@[1] == 'u' && "NumPadAsterisk"@[2] == 'm'
            && "NumPadAsterisk"@[3] == 'P' && "NumPadAsterisk"@[4] == 'a'
            && "NumPadAsterisk"@[5] == 'd' && "NumPadAsterisk"@[6] == 'A'
            && "NumPadAsterisk"@[7] == 's' && "NumPadAsterisk"@[8] == 't'
            && "NumPadAsterisk"@[9] == 'e' && "NumPadAsterisk"@[10] == 'r'
            && "NumPadAsterisk"@[11] == 'i' && "NumPadAsterisk"@[12] == 's'
            && "NumPadAsterisk"@[13] == 'k');
        reveal_strlit("NumPadMinus");
        assert("NumPadMinus"@.len() == 11 && "NumPadMinus"@[0] == 'N' && "NumPadMinus"@[1] == 'u'
            && "NumPadMinus"@[2] == 'm' && "NumPadMinus"@[3] == 'P' && "NumPadMinus"@[4] == 'a'
            && "NumPadMinus"@[5] == 'd' && "NumPadMinus"@[6] == 'M' && "NumPadMinus"@[7] == 'i'
            && "NumPadMinus"@[8] == 'n' && "NumPadMinus"@[9] == 'u' && "NumPadMinus"@[10] == 's');
        reveal_strlit("NumPadPlus");
        assert("NumPadPlus"@.len() == 10 && "NumPadPlus"@[0] == 'N' && "NumPadPlus"@[1] == 'u'
            && "NumPadPlus"@[2] == 'm' && "NumPadPlus"@[3] == 'P' && "NumPadPlus"@[4] == 'a'
            && "NumPadPlus"@[5] == 'd' && "NumPadPlus"@[6] == 'P' && "NumPadPlus"@[7] == 'l'
            && "NumPadPlus"@[8] == 'u' && "NumPadPlus"@[9] == 's');
        reveal_strlit("NumPadEnter");
        assert("NumPadEnter"@.len() == 11 && "NumPadEnter"@[0] == 'N' && "NumPadEnter"@[1] == 'u'
            && "NumPadEnter"@[2] == 'm' && "NumPadEnter"@[3] == 'P' && "NumPadEnter"@[4] == 'a'
            && "NumPadEnter"@[5] == 'd' && "NumPadEnter"@[6] == 'E' && "NumPadEnter"@[7] == 'n'
            && "NumPadEnter"@[8] == 't' && "NumPadEnter"@[9] == 'e' && "NumPadEnter"@[10] == 'r');
        reveal_strlit("NumPad1");
        assert("NumPad1"@.len() == 7 && "NumPad1"@[0] == 'N' && "NumPad1"@[1] == 'u'
            && "NumPad1"@[2] == 'm' && "NumPad1"@[3] == 'P' && "NumPad1"@[4] == 'a'
            && "NumPad1"@[5] == 'd' && "NumPad1"@[6] == '1');
        reveal_strlit("NumPad2");
        assert("NumPad2"@.len() == 7 && "NumPad2"@[0] == 'N' && "NumPad2"@[1] == 'u'
            && "NumPad2"@[2] == 'm' && "NumPad2"@[3] == 'P' && "NumPad2"@[4] == 'a'
            && "NumPad2"@[5] == 'd' && "NumPad2"@[6] == '2');
        reveal_strlit("NumPad3");
        assert("NumPad3"@.len() == 7 && "NumPad3"@[0] == 'N' && "NumPad3"@[1] == 'u'
            && "NumPad3"@[2] == 'm' && "NumPad3"@[3] == 'P' && "NumPad3"@[4] == 'a'
            && "NumPad3"@[5] == 'd' && "NumPad3"@[6] == '3');
        reveal_strlit("NumPad4");
        assert("NumPad4"@.len() == 7 && "NumPad4"@[0] == 'N' && "NumPad4"@[1] == 'u'
            && "NumPad4"@[2] == 'm' && "NumPad4"@[3] == 'P' && "NumPad4"@[4] == 'a'
            && "NumPad4"@[5] == 'd' && "NumPad4"@[6] == '4');
        reveal_strlit("NumPad5");
        assert("NumPad5"@.len() == 7 && "NumPad5"@[0] == 'N' && "NumPad5"@[1] == 'u'
            && "NumPad5"@[2] == 'm' && "NumPad5"@[3] == 'P' && "NumPad5"@[4] == 'a'
            && "NumPad5"@[5] == 'd' && "NumPad5"@[6] == '5');
        reveal_strlit("NumPad6");
        assert("NumPad6"@.len() == 7 && "NumPad6"@[0] == 'N' && "NumPad6"@[1] == 'u'
            && "NumPad6"@[2] == 'm' && "NumPad6"@[3] == 'P' && "NumPad6"@[4] == 'a'
            && "NumPad6"@[5] == 'd' && "NumPad6"@[6] == '6');
        reveal_strlit("NumPad7");
        assert("NumPad7"@.len() == 7 && "NumPad7"@[0] == 'N' && "NumPad7"@[1] == 'u'
            && "NumPad7"@[2] == 'm' && "NumPad7"@[3] == 'P' && "NumPad7"@[4] == 'a'
            && "NumPad7"@[5] == 'd' && "NumPad7"@[6] == '7');
        reveal_strlit("NumPad8");
        assert("NumPad8"@.len() == 7 && "NumPad8"@[0] == 'N' && "NumPad8"@[1] == 'u'
            && "NumPad8"@[2] == 'm' && "NumPad8"@[3] == 'P' && "NumPad8"@[4] == 'a'
            && "NumPad8"@[5] == 'd' && "NumPad8"@[6] == '8');
        reveal_strlit("NumPad9");
        assert("NumPad9"@.len() == 7 && "NumPad9"@[0] == 'N' && "NumPad9"@[1] == 'u'
            && "NumPad9"@[2] == 'm' && "NumPad9"@[3] == 'P' && "NumPad9"@[4] == 'a'
            && "NumPad9"@[5] == 'd' && "NumPad9"@[6] == '9');
        reveal_strlit("NumPad0");
        assert("NumPad0"@.len() == 7 && "NumPad0"@[0] == 'N' && "NumPad0"@[1] == 'u'
            && "NumPad0"@[2] == 'm' && "NumPad0"@[3] == 'P' && "NumPad0"@[4] == 'a'
            && "NumPad0"@[5] == 'd' && "NumPad0"@[6] == '0');
        reveal_strlit("NumPadDot");
        assert("NumPadDot"@.len() == 9 && "NumPadDot"@[0] == 'N' && "NumPadDot"@[1] == 'u'
            && "NumPadDot"@[2] == 'm' && "NumPadDot"@[3] == 'P' && "NumPadDot"@[4] == 'a'
            && "NumPadDot"@[5] == 'd' && "NumPadDot"@[6] == 'D' && "NumPadDot"@[7] == 'o'
            && "NumPadDot"@[8] == 't');
        reveal_strlit("NonUSBackslash");
        assert("NonUSBackslash"@.len() == 14 && "NonUSBackslash"@[0] == 'N'
            && "NonUSBackslash"@[1] == 'o' && "NonUSBackslash"@[2] == 'n'
            && "NonUSBackslash"@[3] == 'U' && "NonUSBackslash"@[4] == 'S'
            && "NonUSBackslash"@[5] == 'B' && "NonUSBackslash"@[6] == 'a'
            && "NonUSBackslash"@[7] == 'c' && "NonUSBackslash"@[8] == 'k'
            && "NonUSBackslash"@[9] == 's' && "NonUSBackslash"@[10] == 'l'
            && "NonUSBackslash"@[11] == 'a' && "NonUSBackslash"@[12] == 's'
            && "NonUSBackslash"@[13] == 'h');
        reveal_strlit("Application");
        assert("Application"@.len() == 11 && "Application"@[0] == 'A' && "Application"@[1] == 'p'
            && "Application"@[2] == 'p' && "Application"@[3] == 'l' && "Application"@[4] == 'i'
            && "Application"@[5] == 'c' && "Application"@[6] == 'a' && "Application"@[7] == 't'
            && "Application"@[8] == 'i' && "Application"@[9] == 'o' && "Application"@[10] == 'n');
        reveal_strlit("Power");
        assert("Power"@.len() == 5 && "Power"@[0] == 'P' && "Power"@[1] == 'o'
            && "Power"@[2] == 'w' && "Power"@[3] == 'e' && "Power"@[4] == 'r');
        reveal_strlit("NumPadEqual");
        assert("NumPadEqual"@.len() == 11 && "NumPadEqual"@[0] == 'N' && "NumPadEqual"@[1] == 'u'
            && "NumPadEqual"@[2] == 'm' && "NumPadEqual"@[3] == 'P' && "NumPadEqual"@[4] == 'a'
            && "NumPadEqual"@[5] == 'd' && "NumPadEqual"@[6] == 'E' && "NumPadEqual"@[7] == 'q'
            && "NumPadEqual"@[8] == 'u' && "NumPadEqual"@[9] == 'a' && "NumPadEqual"@[10] == 'l');
        reveal_strlit("F13");
        assert("F13"@.len() == 3 && "F13"@[0] == 'F' && "F13"@[1] == '1' && "F13"@[2] == '3');
        reveal_strlit("F14");
        assert("F14"@.len() == 3 && "F14"@[0] == 'F' && "F14"@[1] == '1' && "F14"@[2] == '4');
        reveal_strlit("F15");
        assert("F15"@.len() == 3 && "F15"@[0] == 'F' && "F15"@[1] == '1' && "F15"@[2] == '5');
        reveal_strlit("F16");
        assert("F16"@.len() == 3 && "F16"@[0] == 'F' && "F16"@[1] == '1' && "F16"@[2] == '6');
        reveal_strlit("F17");
        assert("F17"@.len() == 3 && "F17"@[0] == 'F' && "F17"@[1] == '1' && "F17"@[2] == '7');
        reveal_strlit("F18");
        assert("F18"@.len() == 3 && "F18"@[0] == 'F' && "F18"@[1] == '1' && "F18"@[2] == '8');
        reveal_strlit("F19");
        assert("F19"@.len() == 3 && "F19"@[0] == 'F' && "F19"@[1] == '1' && "F19"@[2] == '9');
        reveal_strlit("F20");
        assert("F20"@.len() == 3 && "F20"@[0] == 'F' && "F20"@[1] == '2' && "F20"@[2] == '0');
        reveal_strlit("F21");
        assert("F21"@.len() == 3 && "F21"@[0] == 'F' && "F21"@[1] == '2' && "F21"@[2] == '1');
        reveal_strlit("F22");
        assert("F22"@.len() == 3 && "F22"@[0] == 'F' && "F22"@[1] == '2' && "F22"@[2] == '2');
        reveal_strlit("F23");
        assert("F23"@.len() == 3 && "F23"@[0] == 'F' && "F23"@[1] == '2' && "F23"@[2] == '3');
        reveal_strlit("F24");
        assert("F24"@.len() == 3 && "F24"@[0] == 'F' && "F24"@[1] == '2' && "F24"@[2] == '4');
    }
}

/// A media key. Its code is its usage id on the HID consumer page.
#[derive(Clone, Copy, Debug, PartialEq, Eq, Structural)]
pub enum MediaCode {
    Next,
    Previous,
    Stop,
    Play,
    Mute,
    VolumeUp,
    VolumeDown,
}

impl MediaCode {
    /// The canonical name of this media key.
    pub open spec fn spec_name(self) -> Seq<char> {
        match self {
            MediaCode::Next => "Next"@,
            MediaCode::Previous => "Previous"@,
            MediaCode::Stop => "Stop"@,
            MediaCode::Play => "Play"@,
            MediaCode::Mute => "Mute"@,
            MediaCode::VolumeUp => "VolumeUp"@,
            MediaCode::VolumeDown => "VolumeDown"@,
        }
    }

    /// The numeric code of this media key.
    pub open spec fn spec_code(self) -> u8 {
        match self {
            MediaCode::Next => 0xb5,
            MediaCode::Previous => 0xb6,
            MediaCode::Stop => 0xb7,
            MediaCode::Play => 0xcd,
            MediaCode::Mute => 0xe2,
            MediaCode::VolumeUp => 0xe9,
            MediaCode::VolumeDown => 0xea,
        }
    }

    /// The media key whose canonical name is exactly `name`, if there is one.
    pub open spec fn spec_from_name(name: Seq<char>) -> Option<MediaCode> {
        if name == MediaCode::Next.spec_name() {
            Some(MediaCode::Next)
        } else if name == MediaCode::Previous.spec_name() {
            Some(MediaCode::Previous)
        } else if name == MediaCode::Stop.spec_name() {
            Some(MediaCode::Stop)
        } else if name == MediaCode::Play.spec_name() {
            Some(MediaCode::Play)
        } else if name == MediaCode::Mute.spec_name() {
            Some(MediaCode::Mute)
        } else if name == MediaCode::VolumeUp.spec_name() {
            Some(MediaCode::VolumeUp)
        } else if name == MediaCode::VolumeDown.spec_name() {
            Some(MediaCode::VolumeDown)
        } else {
            None
        }
    }

    /// The canonical name of this media key.
    pub fn name(self) -> (r: &'static str)
        ensures
            r@ == self.spec_name(),
    {
        match self {
            MediaCode::Next => "Next",
            MediaCode::Previous => "Previous",
            MediaCode::Stop => "Stop",
            MediaCode::Play => "Play",
            MediaCode::Mute => "Mute",
            MediaCode::VolumeUp => "VolumeUp",
            MediaCode::VolumeDown => "VolumeDown",
        }
    }

    /// The numeric code of this media key.
    pub fn code(self) -> (r: u8)
        ensures
            r == self.spec_code(),
    {
        match self {
            MediaCode::Next => 0xb5,
            MediaCode::Previous => 0xb6,
            MediaCode::Stop => 0xb7,
            MediaCode::Play => 0xcd,
            MediaCode::Mute => 0xe2,
            MediaCode::VolumeUp => 0xe9,
            MediaCode::VolumeDown => 0xea,
        }
    }

    /// Looks up a media key by its canonical name. The match is exact,
    /// case included.
    pub fn from_name(name: &str) -> (r: Option<MediaCode>)
        ensures
            r == Self::spec_from_name(name@),
    {
        if str_eq(name, "Next") {
            return Some(MediaCode::Next);
        }
        if str_eq(name, "Previous") {
            return Some(MediaCode::Previous);
        }
        if str_eq(name, "Stop") {
            return Some(MediaCode::Stop);
        }
        if str_eq(name, "Play") {
            return Some(MediaCode::Play);
        }
        if str_eq(name, "Mute") {
            return Some(MediaCode::Mute);
        }
        if str_eq(name, "VolumeUp") {
            return Some(MediaCode::VolumeUp);
        }
        if str_eq(name, "VolumeDown") {
            return Some(MediaCode::VolumeDown);
        }
        None
    }

    /// What a lookup finds has the name that was looked up.
    pub proof fn lemma_name_of_from_name(name: Seq<char>)
        ensures
            Self::spec_from_name(name) matches Some(found) ==> found.spec_name() == name,
    {
    }

    /// Canonical names are pairwise distinct: looking up the name of a
    /// media key finds that media key.
    pub proof fn lemma_from_name_of_name(self)
        ensures
            Self::spec_from_name(self.spec_name()) == Some(self),
    {
        reveal_strlit("Next");
        assert("Next"@.len() == 4 && "Next"@[0] == 'N' && "Next"@[1] == 'e' && "Next"@[2] == 'x'
            && "Next"@[3] == 't');
        reveal_strlit("Previous");
        assert("Previous"@.len() == 8 && "Previous"@[0] == 'P' && "Previous"@[1] == 'r'
            && "Previous"@[2] == 'e' && "Previous"@[3] == 'v' && "Previous"@[4] == 'i'
            && "Previous"@[5] == 'o' && "Previous"@[6] == 'u' && "Previous"@[7] == 's');
        reveal_strlit("Stop");
        assert("Stop"@.len() == 4 && "Stop"@[0] == 'S' && "Stop"@[1] == 't' && "Stop"@[2] == 'o'
            && "Stop"@[3] == 'p');
        reveal_strlit("Play");
        assert("Play"@.len() == 4 && "Play"@[0] == 'P' && "Play"@[1] == 'l' && "Play"@[2] == 'a'
            && "Play"@[3] == 'y');
        reveal_strlit("Mute");
        assert("Mute"@.len() == 4 && "Mute"@[0] == 'M' && "Mute"@[1] == 'u' && "Mute"@[2] == 't'
            && "Mute"@[3] == 'e');
        reveal_strlit("VolumeUp");
        assert("VolumeUp"@.len() == 8 && "VolumeUp"@[0] == 'V' && "VolumeUp"@[1] == 'o'
            && "VolumeUp"@[2] == 'l' && "VolumeUp"@[3] == 'u' && "VolumeUp"@[4] == 'm'
            && "VolumeUp"@[5] == 'e' && "VolumeUp"@[6] == 'U' && "VolumeUp"@[7] == 'p');
        reveal_strlit("VolumeDown");
        assert("VolumeDown"@.len() == 10 && "VolumeDown"@[0] == 'V' && "VolumeDown"@[1] == 'o'
            && "VolumeDown"@[2] == 'l' && "VolumeDown"@[3] == 'u' && "VolumeDown"@[4] == 'm'
            && "VolumeDown"@[5] == 'e' && "VolumeDown"@[6] == 'D' && "VolumeDown"@[7] == 'o'
            && "VolumeDown"@[8] == 'w' && "VolumeDown"@[9] == 'n');
    }
}

/// The three tables of keys are disjoint: no name is in two of them.
pub proof fn lemma_key_tables_disjoint(name: Seq<char>)
    ensures
        Modifier::spec_from_name(name) is Some ==> MediaCode::spec_from_name(name) is None
            && WellKnownCode::spec_from_name(name) is None,
        MediaCode::spec_from_name(name) is Some ==> WellKnownCode::spec_from_name(name) is None,
{
    reveal_strlit("Ctrl");
    assert("Ctrl"@.len() == 4 && "Ctrl"@[0] == 'C' && "Ctrl"@[1] == 't' && "Ctrl"@[2] == 'r'
        && "Ctrl"@[3] == 'l');
    reveal_strlit("Shift");
    assert("Shift"@.len() == 5 && "Shift"@[0] == 'S' && "Shift"@[1] == 'h' && "Shift"@[2] == 'i'
        && "Shift"@[3] == 'f' && "Shift"@[4] == 't');
    reveal_strlit("Alt");
    assert("Alt"@.len() == 3 && "Alt"@[0] == 'A' && "Alt"@[1] == 'l' && "Alt"@[2] == 't');
    reveal_strlit("Win");
    assert("Win"@.len() == 3 && "Win"@[0] == 'W' && "Win"@[1] == 'i' && "Win"@[2] == 'n');
    reveal_strlit("RightCtrl");
    assert("RightCtrl"@.len() == 9 && "RightCtrl"@[0] == 'R' && "RightCtrl"@[1] == 'i'
        && "RightCtrl"@[2] == 'g' && "RightCtrl"@[3] == 'h' && "RightCtrl"@[4] == 't'
        && "RightCtrl"@[5] == 'C' && "RightCtrl"@[6] == 't' && "RightCtrl"@[7] == 'r'
        && "RightCtrl"@[8] == 'l');
    reveal_strlit("RightShift");
    assert("RightShift"@.len() == 10 && "RightShift"@[0] == 'R' && "RightShift"@[1] == 'i'
        && "RightShift"@[2] == 'g' && "RightShift"@[3] == 'h' && "RightShift"@[4] == 't'
        && "RightShift"@[5] == 'S' && "RightShift"@[6] == 'h' && "RightShift"@[7] == 'i'
        && "RightShift"@[8] == 'f' && "RightShift"@[9] == 't');
    reveal_strlit("RightAlt");
    assert("RightAlt"@.len() == 8 && "RightAlt"@[0] == 'R' && "RightAlt"@[1] == 'i'
        && "RightAlt"@[2] == 'g' && "RightAlt"@[3] == 'h' && "RightAlt"@[4] == 't'
        && "RightAlt"@[5] == 'A' && "RightAlt"@[6] == 'l' && "RightAlt"@[7] == 't');
    reveal_strlit("RightWin");
    assert("RightWin"@.len() == 8 && "RightWin"@[0] == 'R' && "RightWin"@[1] == 'i'
        && "RightWin"@[2] == 'g' && "RightWin"@[3] == 'h' && "RightWin"@[4] == 't'
        && "RightWin"@[5] == 'W' && "RightWin"@[6] == 'i' && "RightWin"@[7] == 'n');
    reveal_strlit("Next");
    assert("Next"@.len() == 4 && "Next"@[0] == 'N' && "Next"@[1] == 'e' && "Next"@[2] == 'x'
        && "Next"@[3] == 't');
    reveal_strlit("Previous");
    assert("Previous"@.len() == 8 && "Previous"@[0] == 'P' && "Previous"@[1] == 'r'
        && "Previous"@[2] == 'e' && "Previous"@[3] == 'v' && "Previous"@[4] == 'i'
        && "Previous"@[5] == 'o' && "Previous"@[6] == 'u' && "Previous"@[7] == 's');
    reveal_strlit("Stop");
    assert("Stop"@.len() == 4 && "Stop"@[0] == 'S' && "Stop"@[1] == 't' && "Stop"@[2] == 'o'
        && "Stop"@[3] == 'p');
    reveal_strlit("Play");
    assert("Play"@.len() == 4 && "Play"@[0] == 'P' && "Play"@[1] == 'l' && "Play"@[2] == 'a'
        && "Play"@[3] == 'y');
    reveal_strlit("Mute");
    assert("Mute"@.len() == 4 && "Mute"@[0] == 'M' && "Mute"@[1] == 'u' && "Mute"@[2] == 't'
        && "Mute"@[3] == 'e');
    reveal_strlit("VolumeUp");
    assert("VolumeUp"@.len() == 8 && "VolumeUp"@[0] == 'V' && "VolumeUp"@[1] == 'o'
        && "VolumeUp"@[2] == 'l' && "VolumeUp"@[3] == 'u' && "VolumeUp"@[4] == 'm'
        && "VolumeUp"@[5] == 'e' && "VolumeUp"@[6] == 'U' && "VolumeUp"@[7] == 'p');
    reveal_strlit("VolumeDown");
    assert("VolumeDown"@.len() == 10 && "VolumeDown"@[0] == 'V' && "VolumeDown"@[1] == 'o'
        && "VolumeDown"@[2] == 'l' && "VolumeDown"@[3] == 'u' && "VolumeDown"@[4] == 'm'
        && "VolumeDown"@[5] == 'e' && "VolumeDown"@[6] == 'D' && "VolumeDown"@[7] == 'o'
        && "VolumeDown"@[8] == 'w' && "VolumeDown"@[9] == 'n');
    reveal_strlit("A");
    assert("A"@.len() == 1 && "A"@[0] == 'A');
    reveal_strlit("B");
    assert("B"@.len() == 1 && "B"@[0] == 'B');
    reveal_strlit("C");
    assert("C"@.len() == 1 && "C"@[0] == 'C');
    reveal_strlit("D");
    assert("D"@.len() == 1 && "D"@[0] == 'D');
    reveal_strlit("E");
    assert("E"@.len() == 1 && "E"@[0] == 'E');
    reveal_strlit("F");
    assert("F"@.len() == 1 && "F"@[0] == 'F');
    reveal_strlit("G");
    assert("G"@.len() == 1 && "G"@[0] == 'G');
    reveal_strlit("H");
    assert("H"@.len() == 1 && "H"@[0] == 'H');
    reveal_strlit("I");
    assert("I"@.len() == 1 && "I"@[0] == 'I');
    reveal_strlit("J");
    assert("J"@.len() == 1 && "J"@[0] == 'J');
    reveal_strlit("K");
    assert("K"@.len() == 1 && "K"@[0] == 'K');
    reveal_strlit("L");
    assert("L"@.len() == 1 && "L"@[0] == 'L');
    reveal_strlit("M");
    assert("M"@.len() == 1 && "M"@[0] == 'M');
    reveal_strlit("N");
    assert("N"@.len() == 1 && "N"@[0] == 'N');
    reveal_strlit("O");
    assert("O"@.len() == 1 && "O"@[0] == 'O');
    reveal_strlit("P");
    assert("P"@.len() == 1 && "P"@[0] == 'P');
    reveal_strlit("Q");
    assert("Q"@.len() == 1 && "Q"@[0] == 'Q');
    reveal_strlit("R");
    assert("R"@.len() == 1 && "R"@[0] == 'R');
    reveal_strlit("S");
    assert("S"@.len() == 1 && "S"@[0] == 'S');
    reveal_strlit("T");
    assert("T"@.len() == 1 && "T"@[0] == 'T');
    reveal_strlit("U");
    assert("U"@.len() == 1 && "U"@[0] == 'U');
    reveal_strlit("V");
    assert("V"@.len() == 1 && "V"@[0] == 'V');
    reveal_strlit("W");
    assert("W"@.len() == 1 && "W"@[0] == 'W');
    reveal_strlit("X");
    assert("X"@.len() == 1 && "X"@[0] == 'X');
    reveal_strlit("Y");
    assert("Y"@.len() == 1 && "Y"@[0] == 'Y');
    reveal_strlit("Z");
    assert("Z"@.len() == 1 && "Z"@[0] == 'Z');
    reveal_strlit("1");
    assert("1"@.len() == 1 && "1"@[0] == '1');
    reveal_strlit("2");
    assert("2"@.len() == 1 && "2"@[0] == '2');
    reveal_strlit("3");
    assert("3"@.len() == 1 && "3"@[0] == '3');
    reveal_strlit("4");
    assert("4"@.len() == 1 && "4"@[0] == '4');
    reveal_strlit("5");
    assert("5"@.len() == 1 && "5"@[0] == '5');
    reveal_strlit("6");
    assert("6"@.len() == 1 && "6"@[0] == '6');
    reveal_strlit("7");
    assert("7"@.len() == 1 && "7"@[0] == '7');
    reveal_strlit("8");
    assert("8"@.len() == 1 && "8"@[0] == '8');
    reveal_strlit("9");
    assert("9"@.len() == 1 && "9"@[0] == '9');
    reveal_strlit("0");
    assert("0"@.len() == 1 && "0"@[0] == '0');
    reveal_strlit("Enter");
    assert("Enter"@.len() == 5 && "Enter"@[0] == 'E' && "Enter"@[1] == 'n' && "Enter"@[2] == 't'
        && "Enter"@[3] == 'e' && "Enter"@[4] == 'r');
    reveal_strlit("Escape");
    assert("Escape"@.len() == 6 && "Escape"@[0] == 'E' && "Escape"@[1] == 's'
        && "Escape"@[2] == 'c' && "Escape"@[3] == 'a' && "Escape"@[4] == 'p'
        && "Escape"@[5] == 'e');
    reveal_strlit("Backspace");
    assert("Backspace"@.len() == 9 && "Backspace"@[0] == 'B' && "Backspace"@[1] == 'a'
        && "Backspace"@[2] == 'c' && "Backspace"@[3] == 'k' && "Backspace"@[4] == 's'
        && "Backspace"@[5] == 'p' && "Backspace"@[6] == 'a' && "Backspace"@[7] == 'c'
        && "Backspace"@[8] == 'e');
    reveal_strlit("Tab");
    assert("Tab"@.len() == 3 && "Tab"@[0] == 'T' && "Tab"@[1] == 'a' && "Tab"@[2] == 'b');
    reveal_strlit("Space");
    assert("Space"@.len() == 5 && "Space"@[0] == 'S' && "Space"@[1] == 'p' && "Space"@[2] == 'a'
        && "Space"@[3] == 'c' && "Space"@[4] == 'e');
    reveal_strlit("Minus");
    assert("Minus"@.len() == 5 && "Minus"@[0] == 'M' && "Minus"@[1] == 'i' && "Minus"@[2] == 'n'
        && "Minus"@[3] == 'u' && "Minus"@[4] == 's');
    reveal_strlit("Equal");
    assert("Equal"@.len() == 5 && "Equal"@[0] == 'E' && "Equal"@[1] == 'q' && "Equal"@[2] == 'u'
        && "Equal"@[3] == 'a' && "Equal"@[4] == 'l');
    reveal_strlit("LeftBracket");
    assert("LeftBracket"@.len() == 11 && "LeftBracket"@[0] == 'L' && "LeftBracket"@[1] == 'e'
        && "LeftBracket"@[2] == 'f' && "LeftBracket"@[3] == 't' && "LeftBracket"@[4] == 'B'
        && "LeftBracket"@[5] == 'r' && "LeftBracket"@[6] == 'a' && "LeftBracket"@[7] == 'c'
        && "LeftBracket"@[8] == 'k' && "LeftBracket"@[9] == 'e' && "LeftBracket"@[10] == 't');
    reveal_strlit("RightBracket");
    assert("RightBracket"@.len() == 12 && "RightBracket"@[0] == 'R' && "RightBracket"@[1] == 'i'
        && "RightBracket"@[2] == 'g' && "RightBracket"@[3] == 'h' && "RightBracket"@[4] == 't'
        && "RightBracket"@[5] == 'B' && "RightBracket"@[6] == 'r' && "RightBracket"@[7] == 'a'
        && "RightBracket"@[8] == 'c' && "RightBracket"@[9] == 'k' && "RightBracket"@[10] == 'e'
        && "RightBracket"@[11] == 't');
    reveal_strlit("Backslash");
    assert("Backslash"@.len() == 9 && "Backslash"@[0] == 'B' && "Backslash"@[1] == 'a'
        && "Backslash"@[2] == 'c' && "Backslash"@[3] == 'k' && "Backslash"@[4] == 's'
        && "Backslash"@[5] == 'l' && "Backslash"@[6] == 'a' && "Backslash"@[7] == 's'
        && "Backslash"@[8] == 'h');
    reveal_strlit("NonUSHash");
    assert("NonUSHash"@.len() == 9 && "NonUSHash"@[0] == 'N' && "NonUSHash"@[1] == 'o'
        && "NonUSHash"@[2] == 'n' && "NonUSHash"@[3] == 'U' && "NonUSHash"@[4] == 'S'
        && "NonUSHash"@[5] == 'H' && "NonUSHash"@[6] == 'a' && "NonUSHash"@[7] == 's'
        && "NonUSHash"@[8] == 'h');
    reveal_strlit("Semicolon");
    assert("Semicolon"@.len() == 9 && "Semicolon"@[0] == 'S' && "Semicolon"@[1] == 'e'
        && "Semicolon"@[2] == 'm' && "Semicolon"@[3] == 'i' && "Semicolon"@[4] == 'c'
        && "Semicolon"@[5] == 'o' && "Semicolon"@[6] == 'l' && "Semicolon"@[7] == 'o'
        && "Semicolon"@[8] == 'n');
    reveal_strlit("Quote");
    assert("Quote"@.len() == 5 && "Quote"@[0] == 'Q' && "Quote"@[1] == 'u' && "Quote"@[2] == 'o'
        && "Quote"@[3] == 't' && "Quote"@[4] == 'e');
    reveal_strlit("Grave");
    assert("Grave"@.len() == 5 && "Grave"@[0] == 'G' && "Grave"@[1] == 'r' && "Grave"@[2] == 'a'
        && "Grave"@[3] == 'v' && "Grave"@[4] == 'e');
    reveal_strlit("Comma");
    assert("Comma"@.len() == 5 && "Comma"@[0] == 'C' && "Comma"@[1] == 'o' && "Comma"@[2] == 'm'
        && "Comma"@[3] == 'm' && "Comma"@[4] == 'a');
    reveal_strlit("Dot");
    assert("Dot"@.len() == 3 && "Dot"@[0] == 'D' && "Dot"@[1] == 'o' && "Dot"@[2] == 't');
    reveal_strlit("Slash");
    assert("Slash"@.len() == 5 && "Slash"@[0] == 'S' && "Slash"@[1] == 'l' && "Slash"@[2] == 'a'
        && "Slash"@[3] == 's' && "Slash"@[4] == 'h');
    reveal_strlit("CapsLock");
    assert("CapsLock"@.len() == 8 && "CapsLock"@[0] == 'C' && "CapsLock"@[1] == 'a'
        && "CapsLock"@[2] == 'p' && "CapsLock"@[3] == 's' && "CapsLock"@[4] == 'L'
        && "CapsLock"@[5] == 'o' && "CapsLock"@[6] == 'c' && "CapsLock"@[7] == 'k');
    reveal_strlit("F1");
    assert("F1"@.len() == 2 && "F1"@[0] == 'F' && "F1"@[1] == '1');
    reveal_strlit("F2");
    assert("F2"@.len() == 2 && "F2"@[0] == 'F' && "F2"@[1] == '2');
    reveal_strlit("F3");
    assert("F3"@.len() == 2 && "F3"@[0] == 'F' && "F3"@[1] == '3');
    reveal_strlit("F4");
    assert("F4"@.len() == 2 && "F4"@[0] == 'F' && "F4"@[1] == '4');
    reveal_strlit("F5");
    assert("F5"@.len() == 2 && "F5"@[0] == 'F' && "F5"@[1] == '5');
    reveal_strlit("F6");
    assert("F6"@.len() == 2 && "F6"@[0] == 'F' && "F6"@[1] == '6');
    reveal_strlit("F7");
    assert("F7"@.len() == 2 && "F7"@[0] == 'F' && "F7"@[1] == '7');
    reveal_strlit("F8");
    assert("F8"@.len() == 2 && "F8"@[0] == 'F' && "F8"@[1] == '8');
    reveal_strlit("F9");
    assert("F9"@.len() == 2 && "F9"@[0] == 'F' && "F9"@[1] == '9');
    reveal_strlit("F10");
    assert("F10"@.len() == 3 && "F10"@[0] == 'F' && "F10"@[1] == '1' && "F10"@[2] == '0');
    reveal_strlit("F11");
    assert("F11"@.len() == 3 && "F11"@[0] == 'F' && "F11"@[1] == '1' && "F11"@[2] == '1');
    reveal_strlit("F12");
    assert("F12"@.len() == 3 && "F12"@[0] == 'F' && "F12"@[1] == '1' && "F12"@[2] == '2');
    reveal_strlit("PrintScreen");
    assert("PrintScreen"@.len() == 11 && "PrintScreen"@[0] == 'P' && "PrintScreen"@[1] == 'r'
        && "PrintScreen"@[2] == 'i' && "PrintScreen"@[3] == 'n' && "PrintScreen"@[4] == 't'
        && "PrintScreen"@[5] == 'S' && "PrintScreen"@[6] == 'c' && "PrintScreen"@[7] == 'r'
        && "PrintScreen"@[8] == 'e' && "PrintScreen"@[9] == 'e' && "PrintScreen"@[10] == 'n');
    reveal_strlit("ScrollLock");
    assert("ScrollLock"@.len() == 10 && "ScrollLock"@[0] == 'S' && "ScrollLock"@[1] == 'c'
        && "ScrollLock"@[2] == 'r' && "ScrollLock"@[3] == 'o' && "ScrollLock"@[4] == 'l'
        && "ScrollLock"@[5] == 'l' && "ScrollLock"@[6] == 'L' && "ScrollLock"@[7] == 'o'
        && "ScrollLock"@[8] == 'c' && "ScrollLock"@[9] == 'k');
    reveal_strlit("Pause");
    assert("Pause"@.len() == 5 && "Pause"@[0] == 'P' && "Pause"@[1] == 'a' && "Pause"@[2] == 'u'
        && "Pause"@[3] == 's' && "Pause"@[4] == 'e');
    reveal_strlit("Insert");
    assert("Insert"@.len() == 6 && "Insert"@[0] == 'I' && "Insert"@[1] == 'n'
        && "Insert"@[2] == 's' && "Insert"@[3] == 'e' && "Insert"@[4] == 'r'
        && "Insert"@[5] == 't');
    reveal_strlit("Home");
    assert("Home"@.len() == 4 && "Home"@[0] == 'H' && "Home"@[1] == 'o' && "Home"@[2] == 'm'
        && "Home"@[3] == 'e');
    reveal_strlit("PageUp");
    assert("PageUp"@.len() == 6 && "PageUp"@[0] == 'P' && "PageUp"@[1] == 'a'
        && "PageUp"@[2] == 'g' && "PageUp"@[3] == 'e' && "PageUp"@[4] == 'U'
        && "PageUp"@[5] == 'p');
    reveal_strlit("Delete");
    assert("Delete"@.len() == 6 && "Delete"@[0] == 'D' && "Delete"@[1] == 'e'
        && "Delete"@[2] == 'l' && "Delete"@[3] == 'e' && "Delete"@[4] == 't'
        && "Delete"@[5] == 'e');
    reveal_strlit("End");
    assert("End"@.len() == 3 && "End"@[0] == 'E' && "End"@[1] == 'n' && "End"@[2] == 'd');
    reveal_strlit("PageDown");
    assert("PageDown"@.len() == 8 && "PageDown"@[0] == 'P' && "PageDown"@[1] == 'a'
        && "PageDown"@[2] == 'g' && "PageDown"@[3] == 'e' && "PageDown"@[4] == 'D'
        && "PageDown"@[5] == 'o' && "PageDown"@[6] == 'w' && "PageDown"@[7] == 'n');
    reveal_strlit("Right");
    assert("Right"@.len() == 5 && "Right"@[0] == 'R' && "Right"@[1] == 'i' && "Right"@[2] == 'g'
        && "Right"@[3] == 'h' && "Right"@[4] == 't');
    reveal_strlit("Left");
    assert("Left"@.len() == 4 && "Left"@[0] == 'L' && "Left"@[1] == 'e' && "Left"@[2] == 'f'
        && "Left"@[3] == 't');
    reveal_strlit("Down");
    assert("Down"@.len() == 4 && "Down"@[0] == 'D' && "Down"@[1] == 'o' && "Down"@[2] == 'w'
        && "Down"@[3] == 'n');
    reveal_strlit("Up");
    assert("Up"@.len() == 2 && "Up"@[0] == 'U' && "Up"@[1] == 'p');
    reveal_strlit("NumLock");
    assert("NumLock"@.len() == 7 && "NumLock"@[0] == 'N' && "NumLock"@[1] == 'u'
        && "NumLock"@[2] == 'm' && "NumLock"@[3] == 'L' && "NumLock"@[4] == 'o'
        && "NumLock"@[5] == 'c' && "NumLock"@[6] == 'k');
    reveal_strlit("NumPadSlash");
    assert("NumPadSlash"@.len() == 11 && "NumPadSlash"@[0] == 'N' && "NumPadSlash"@[1] == 'u'
        && "NumPadSlash"@[2] == 'm' && "NumPadSlash"@[3] == 'P' && "NumPadSlash"@[4] == 'a'
        && "NumPadSlash"@[5] == 'd' && "NumPadSlash"@[6] == 'S' && "NumPadSlash"@[7] == 'l'
        && "NumPadSlash"@[8] == 'a' && "NumPadSlash"@[9] == 's' && "NumPadSlash"@[10] == 'h');
    reveal_strlit("NumPadAsterisk");
    assert("NumPadAsterisk"@.len() == 14 && "NumPadAsterisk"@[0] == 'N'
        && "NumPadAsterisk"@[1] == 'u' && "NumPadAsterisk"@[2] == 'm'
        && "NumPadAsterisk"@[3] == 'P' && "NumPadAsterisk"@[4] == 'a'
        && "NumPadAsterisk"@[5] == 'd' && "NumPadAsterisk"@[6] == 'A'
        && "NumPadAsterisk"@[7] == 's' && "NumPadAsterisk"@[8] == 't'
        && "NumPadAsterisk"@[9] == 'e' && "NumPadAsterisk"@[10] == 'r'
        && "NumPadAsterisk"@[11] == 'i' && "NumPadAsterisk"@[12] == 's'
        && "NumPadAsterisk"@[13] == 'k');
    reveal_strlit("NumPadMinus");
    assert("NumPadMinus"@.len() == 11 && "NumPadMinus"@[0] == 'N' && "NumPadMinus"@[1] == 'u'
        && "NumPadMinus"@[2] == 'm' && "NumPadMinus"@[3] == 'P' && "NumPadMinus"@[4] == 'a'
        && "NumPadMinus"@[5] == 'd' && "NumPadMinus"@[6] == 'M' && "NumPadMinus"@[7] == 'i'
        && "NumPadMinus"@[8] == 'n' && "NumPadMinus"@[9] == 'u' && "NumPadMinus"@[10] == 's');
    reveal_strlit("NumPadPlus");
    assert("NumPadPlus"@.len() == 10 && "NumPadPlus"@[0] == 'N' && "NumPadPlus"@[1] == 'u'
        && "NumPadPlus"@[2] == 'm' && "NumPadPlus"@[3] == 'P' && "NumPadPlus"@[4] == 'a'
        && "NumPadPlus"@[5] == 'd' && "NumPadPlus"@[6] == 'P' && "NumPadPlus"@[7] == 'l'
        && "NumPadPlus"@[8] == 'u' && "NumPadPlus"@[9] == 's');
    reveal_strlit("NumPadEnter");
    assert("NumPadEnter"@.len() == 11 && "NumPadEnter"@[0] == 'N' && "NumPadEnter"@[1] == 'u'
        && "NumPadEnter"@[2] == 'm' && "NumPadEnter"@[3] == 'P' && "NumPadEnter"@[4] == 'a'
        && "NumPadEnter"@[5] == 'd' && "NumPadEnter"@[6] == 'E' && "NumPadEnter"@[7] == 'n'
        && "NumPadEnter"@[8] == 't' && "NumPadEnter"@[9] == 'e' && "NumPadEnter"@[10] == 'r');
    reveal_strlit("NumPad1");
    assert("NumPad1"@.len() == 7 && "NumPad1"@[0] == 'N' && "NumPad1"@[1] == 'u'
        && "NumPad1"@[2] == 'm' && "NumPad1"@[3] == 'P' && "NumPad1"@[4] == 'a'
        && "NumPad1"@[5] == 'd' && "NumPad1"@[6] == '1');
    reveal_strlit("NumPad2");
    assert("NumPad2"@.len() == 7 && "NumPad2"@[0] == 'N' && "NumPad2"@[1] == 'u'
        && "NumPad2"@[2] == 'm' && "NumPad2"@[3] == 'P' && "NumPad2"@[4] == 'a'
        && "NumPad2"@[5] == 'd' && "NumPad2"@[6] == '2');
    reveal_strlit("NumPad3");
    assert("NumPad3"@.len() == 7 && "NumPad3"@[0] == 'N' && "NumPad3"@[1] == 'u'
        && "NumPad3"@[2] == 'm' && "NumPad3"@[3] == 'P' && "NumPad3"@[4] == 'a'
        && "NumPad3"@[5] == 'd' && "NumPad3"@[6] == '3');
    reveal_strlit("NumPad4");
    assert("NumPad4"@.len() == 7 && "NumPad4"@[0] == 'N' && "NumPad4"@[1] == 'u'
        && "NumPad4"@[2] == 'm' && "NumPad4"@[3] == 'P' && "NumPad4"@[4] == 'a'
        && "NumPad4"@[5] == 'd' && "NumPad4"@[6] == '4');
    reveal_strlit("NumPad5");
    assert("NumPad5"@.len() == 7 && "NumPad5"@[0] == 'N' && "NumPad5"@[1] == 'u'
        && "NumPad5"@[2] == 'm' && "NumPad5"@[3] == 'P' && "NumPad5"@[4] == 'a'
        && "NumPad5"@[5] == 'd' && "NumPad5"@[6] == '5');
    reveal_strlit("NumPad6");
    assert("NumPad6"@.len() == 7 && "NumPad6"@[0] == 'N' && "NumPad6"@[1] == 'u'
        && "NumPad6"@[2] == 'm' && "NumPad6"@[3] == 'P' && "NumPad6"@[4] == 'a'
        && "NumPad6"@[5] == 'd' && "NumPad6"@[6] == '6');
    reveal_strlit("NumPad7");
    assert("NumPad7"@.len() == 7 && "NumPad7"@[0] == 'N' && "NumPad7"@[1] == 'u'
        && "NumPad7"@[2] == 'm' && "NumPad7"@[3] == 'P' && "NumPad7"@[4] == 'a'
        && "NumPad7"@[5] == 'd' && "NumPad7"@[6] == '7');
    reveal_strlit("NumPad8");
    assert("NumPad8"@.len() == 7 && "NumPad8"@[0] == 'N' && "NumPad8"@[1] == 'u'
        && "NumPad8"@[2] == 'm' && "NumPad8"@[3] == 'P' && "NumPad8"@[4] == 'a'
        && "NumPad8"@[5] == 'd' && "NumPad8"@[6] == '8');
    reveal_strlit("NumPad9");
    assert("NumPad9"@.len() == 7 && "NumPad9"@[0] == 'N' && "NumPad9"@[1] == 'u'
        && "NumPad9"@[2] == 'm' && "NumPad9"@[3] == 'P' && "NumPad9"@[4] == 'a'
        && "NumPad9"@[5] == 'd' && "NumPad9"@[6] == '9');
    reveal_strlit("NumPad0");
    assert("NumPad0"@.len() == 7 && "NumPad0"@[0] == 'N' && "NumPad0"@[1] == 'u'
        && "NumPad0"@[2] == 'm' && "NumPad0"@[3] == 'P' && "NumPad0"@[4] == 'a'
        && "NumPad0"@[5] == 'd' && "NumPad0"@[6] == '0');
    reveal_strlit("NumPadDot");
    assert("NumPadDot"@.len() == 9 && "NumPadDot"@[0] == 'N' && "NumPadDot"@[1] == 'u'
        && "NumPadDot"@[2] == 'm' && "NumPadDot"@[3] == 'P' && "NumPadDot"@[4] == 'a'
        && "NumPadDot"@[5] == 'd' && "NumPadDot"@[6] == 'D' && "NumPadDot"@[7] == 'o'
        && "NumPadDot"@[8] == 't');
    reveal_strlit("NonUSBackslash");
    assert("NonUSBackslash"@.len() == 14 && "NonUSBackslash"@[0] == 'N'
        && "NonUSBackslash"@[1] == 'o' && "NonUSBackslash"@[2] == 'n'
        && "NonUSBackslash"@[3] == 'U' && "NonUSBackslash"@[4] == 'S'
        && "NonUSBackslash"@[5] == 'B' && "NonUSBackslash"@[6] == 'a'
        && "NonUSBackslash"@[7] == 'c' && "NonUSBackslash"@[8] == 'k'
        && "NonUSBackslash"@[9] == 's' && "NonUSBackslash"@[10] == 'l'
        && "NonUSBackslash"@[11] == 'a' && "NonUSBackslash"@[12] == 's'
        && "NonUSBackslash"@[13] == 'h');
    reveal_strlit("Application");
    assert("Application"@.len() == 11 && "Application"@[0] == 'A' && "Application"@[1] == 'p'
        && "Application"@[2] == 'p' && "Application"@[3] == 'l' && "Application"@[4] == 'i'
        && "Application"@[5] == 'c' && "Application"@[6] == 'a' && "Application"@[7] == 't'
        && "Application"@[8] == 'i' && "Application"@[9] == 'o' && "Application"@[10] == 'n');
    reveal_strlit("Power");
    assert("Power"@.len() == 5 && "Power"@[0] == 'P' && "Power"@[1] == 'o' && "Power"@[2] == 'w'
        && "Power"@[3] == 'e' && "Power"@[4] == 'r');
    reveal_strlit("NumPadEqual");
    assert("NumPadEqual"@.len() == 11 && "NumPadEqual"@[0] == 'N' && "NumPadEqual"@[1] == 'u'
        && "NumPadEqual"@[2] == 'm' && "NumPadEqual"@[3] == 'P' && "NumPadEqual"@[4] == 'a'
        && "NumPadEqual"@[5] == 'd' && "NumPadEqual"@[6] == 'E' && "NumPadEqual"@[7] == 'q'
        && "NumPadEqual"@[8] == 'u' && "NumPadEqual"@[9] == 'a' && "NumPadEqual"@[10] == 'l');
    reveal_strlit("F13");
    assert("F13"@.len() == 3 && "F13"@[0] == 'F' && "F13"@[1] == '1' && "F13"@[2] == '3');
    reveal_strlit("F14");
    assert("F14"@.len() == 3 && "F14"@[0] == 'F' && "F14"@[1] == '1' && "F14"@[2] == '4');
    reveal_strlit("F15");
    assert("F15"@.len() == 3 && "F15"@[0] == 'F' && "F15"@[1] == '1' && "F15"@[2] == '5');
    reveal_strlit("F16");
    assert("F16"@.len() == 3 && "F16"@[0] == 'F' && "F16"@[1] == '1' && "F16"@[2] == '6');
    reveal_strlit("F17");
    assert("F17"@.len() == 3 && "F17"@[0] == 'F' && "F17"@[1] == '1' && "F17"@[2] == '7');
    reveal_strlit("F18");
    assert("F18"@.len() == 3 && "F18"@[0] == 'F' && "F18"@[1] == '1' && "F18"@[2] == '8');
    reveal_strlit("F19");
    assert("F19"@.len() == 3 && "F19"@[0] == 'F' && "F19"@[1] == '1' && "F19"@[2] == '9');
    reveal_strlit("F20");
    assert("F20"@.len() == 3 && "F20"@[0] == 'F' && "F20"@[1] == '2' && "F20"@[2] == '0');
    reveal_strlit("F21");
    assert("F21"@.len() == 3 && "F21"@[0] == 'F' && "F21"@[1] == '2' && "F21"@[2] == '1');
    reveal_strlit("F22");
    assert("F22"@.len() == 3 && "F22"@[0] == 'F' && "F22"@[1] == '2' && "F22"@[2] == '2');
    reveal_strlit("F23");
    assert("F23"@.len() == 3 && "F23"@[0] == 'F' && "F23"@[1] == '2' && "F23"@[2] == '3');
    reveal_strlit("F24");
    assert("F24"@.len() == 3 && "F24"@[0] == 'F' && "F24"@[1] == '2' && "F24"@[2] == '4');
}

/// A backlight colour. Its code occupies the high nibble of the LED status byte.
#[derive(Clone, Copy, Debug, PartialEq, Eq, Structural)]
pub enum LedColor {
    Red,
    Orange,
    Yellow,
    Green,
    Cyan,
    Blue,
    Purple,
}

impl LedColor {
    /// The canonical name of this colour.
    pub open spec fn spec_name(self) -> Seq<char> {
        match self {
            LedColor::Red => "Red"@,
            LedColor::Orange => "Orange"@,
            LedColor::Yellow => "Yellow"@,
            LedColor::Green => "Green"@,
            LedColor::Cyan => "Cyan"@,
            LedColor::Blue => "Blue"@,
            LedColor::Purple => "Purple"@,
        }
    }

    /// The numeric code of this colour.
    pub open spec fn spec_code(self) -> u8 {
        match self {
            LedColor::Red => 0x10,
            LedColor::Orange => 0x20,
            LedColor::Yellow => 0x30,
            LedColor::Green => 0x40,
            LedColor::Cyan => 0x50,
            LedColor::Blue => 0x60,
            LedColor::Purple => 0x70,
        }
    }

    /// The colour whose canonical name is exactly `name`, if there is one.
    pub open spec fn spec_from_name(name: Seq<char>) -> Option<LedColor> {
        if name == LedColor::Red.spec_name() {
            Some(LedColor::Red)
        } else if name == LedColor::Orange.spec_name() {
            Some(LedColor::Orange)
        } else if name == LedColor::Yellow.spec_name() {
            Some(LedColor::Yellow)
        } else if name == LedColor::Green.spec_name() {
            Some(LedColor::Green)
        } else if name == LedColor::Cyan.spec_name() {
            Some(LedColor::Cyan)
        } else if name == LedColor::Blue.spec_name() {
            Some(LedColor::Blue)
        } else if name == LedColor::Purple.spec_name() {
            Some(LedColor::Purple)
        } else {
            None
        }
    }

    /// The canonical name of this colour.
    pub fn name(self) -> (r: &'static str)
        ensures
            r@ == self.spec_name(),
    {
        match self {
            LedColor::Red => "Red",
            LedColor::Orange => "Orange",
            LedColor::Yellow => "Yellow",
            LedColor::Green => "Green",
            LedColor::Cyan => "Cyan",
            LedColor::Blue => "Blue",
            LedColor::Purple => "Purple",
        }
    }

    /// The numeric code of this colour.
    pub fn code(self) -> (r: u8)
        ensures
            r == self.spec_code(),
    {
        match self {
            LedColor::Red => 0x10,
            LedColor::Orange => 0x20,
            LedColor::Yellow => 0x30,
            LedColor::Green => 0x40,
            LedColor::Cyan => 0x50,
            LedColor::Blue => 0x60,
            LedColor::Purple => 0x70,
        }
    }

    /// Looks up a colour by its canonical name. The match is exact,
    /// case included.
    pub fn from_name(name: &str) -> (r: Option<LedColor>)
        ensures
            r == Self::spec_from_name(name@),
    {
        if str_eq(name, "Red") {
            return Some(LedColor::Red);
        }
        if str_eq(name, "Orange") {
            return Some(LedColor::Orange);
        }
        if str_eq(name, "Yellow") {
            return Some(LedColor::Yellow);
        }
        if str_eq(name, "Green") {
            return Some(LedColor::Green);
        }
        if str_eq(name, "Cyan") {
            return Some(LedColor::Cyan);
        }
        if str_eq(name, "Blue") {
            return Some(LedColor::Blue);
        }
        if str_eq(name, "Purple") {
            return Some(LedColor::Purple);
        }
        None
    }

    /// What a lookup finds has the name that was looked up.
    pub proof fn lemma_name_of_from_name(name: Seq<char>)
        ensures
            Self::spec_from_name(name) matches Some(found) ==> found.spec_name() == name,
    {
    }

    /// Canonical names are pairwise distinct: looking up the name of a
    /// colour finds that colour.
    pub proof fn lemma_from_name_of_name(self)
        ensures
            Self::spec_from_name(self.spec_name()) == Some(self),
    {
        reveal_strlit("Red");
        assert("Red"@.len() == 3 && "Red"@[0] == 'R' && "Red"@[1] == 'e' && "Red"@[2] == 'd');
        reveal_strlit("Orange");
        assert("Orange"@.len() == 6 && "Orange"@[0] == 'O' && "Orange"@[1] == 'r'
            && "Orange"@[2] == 'a' && "Orange"@[3] == 'n' && "Orange"@[4] == 'g'
            && "Orange"@[5] == 'e');
        reveal_strlit("Yellow");
        assert("Yellow"@.len() == 6 && "Yellow"@[0] == 'Y' && "Yellow"@[1] == 'e'
            && "Yellow"@[2] == 'l' && "Yellow"@[3] == 'l' && "Yellow"@[4] == 'o'
            && "Yellow"@[5] == 'w');
        reveal_strlit("Green");
        assert("Green"@.len() == 5 && "Green"@[0] == 'G' && "Green"@[1] == 'r'
            && "Green"@[2] == 'e' && "Green"@[3] == 'e' && "Green"@[4] == 'n');
        reveal_strlit("Cyan");
        assert("Cyan"@.len() == 4 && "Cyan"@[0] == 'C' && "Cyan"@[1] == 'y' && "Cyan"@[2] == 'a'
            && "Cyan"@[3] == 'n');
        reveal_strlit("Blue");
        assert("Blue"@.len() == 4 && "Blue"@[0] == 'B' && "Blue"@[1] == 'l' && "Blue"@[2] == 'u'
            && "Blue"@[3] == 'e');
        reveal_strlit("Purple");
        assert("Purple"@.len() == 6 && "Purple"@[0] == 'P' && "Purple"@[1] == 'u'
            && "Purple"@[2] == 'r' && "Purple"@[3] == 'p' && "Purple"@[4] == 'l'
            && "Purple"@[5] == 'e');
    }
}
} // verus!
