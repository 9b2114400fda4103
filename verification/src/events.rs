//! Event value types: keys and mouse buttons, and the decoding of the raw
//! codes that key, text and mouse event arguments report.

use vstd::prelude::*;

verus! {

/// A keyboard key as Noesis numbers it (`Noesis::Key`), for the keys this
/// binding reports.
#[derive(Copy, Clone, Debug, PartialEq, Eq)]
#[non_exhaustive]
pub enum Key {
    /// No key (`Key::None` in Noesis).
    NoKey,
    Back,
    Tab,
    Return,
    Pause,
    CapsLock,
    Escape,
    Space,
    PageUp,
    PageDown,
    End,
    Home,
    Left,
    Up,
    Right,
    Down,
    PrintScreen,
    Insert,
    Delete,
    Help,
    D0,
    D1,
    D2,
    D3,
    D4,
    D5,
    D6,
    D7,
    D8,
    D9,
    A,
    B,
    C,
    D,
    E,
    F,
    G,
    H,
    I,
    J,
    K,
    L,
    M,
    N,
    O,
    P,
    Q,
    R,
    S,
    T,
    U,
    V,
    W,
    X,
    Y,
    Z,
    LWin,
    RWin,
    Apps,
    NumPad0,
    NumPad1,
    NumPad2,
    NumPad3,
    NumPad4,
    NumPad5,
    NumPad6,
    NumPad7,
    NumPad8,
    NumPad9,
    Multiply,
    Add,
    Subtract,
    Decimal,
    Divide,
    F1,
    F2,
    F3,
    F4,
    F5,
    F6,
    F7,
    F8,
    F9,
    F10,
    F11,
    F12,
    F13,
    F14,
    F15,
    F16,
    F17,
    F18,
    F19,
    F20,
    F21,
    F22,
    F23,
    F24,
    NumLock,
    ScrollLock,
    LeftShift,
    RightShift,
    LeftCtrl,
    RightCtrl,
    LeftAlt,
    RightAlt,
    OemSemicolon,
    OemPlus,
    OemComma,
    OemMinus,
    OemPeriod,
    OemSlash,
    OemTilde,
    OemOpenBrackets,
    OemPipe,
    OemCloseBrackets,
    OemQuotes,
}

impl Key {
    /// The raw value Noesis uses for this member.
    pub open spec fn raw_of(self) -> i32 {
        match self {
            Key::NoKey => 0,
            Key::Back => 2,
            Key::Tab => 3,
            Key::Return => 6,
            Key::Pause => 7,
            Key::CapsLock => 8,
            Key::Escape => 13,
            Key::Space => 18,
            Key::PageUp => 19,
            Key::PageDown => 20,
            Key::End => 21,
            Key::Home => 22,
            Key::Left => 23,
            Key::Up => 24,
            Key::Right => 25,
            Key::Down => 26,
            Key::PrintScreen => 30,
            Key::Insert => 31,
            Key::Delete => 32,
            Key::Help => 33,
            Key::D0 => 34,
            Key::D1 => 35,
            Key::D2 => 36,
            Key::D3 => 37,
            Key::D4 => 38,
            Key::D5 => 39,
            Key::D6 => 40,
            Key::D7 => 41,
            Key::D8 => 42,
            Key::D9 => 43,
            Key::A => 44,
            Key::B => 45,
            Key::C => 46,
            Key::D => 47,
            Key::E => 48,
            Key::F => 49,
            Key::G => 50,
            Key::H => 51,
            Key::I => 52,
            Key::J => 53,
            Key::K => 54,
            Key::L => 55,
            Key::M => 56,
            Key::N => 57,
            Key::O => 58,
            Key::P => 59,
            Key::Q => 60,
            Key::R => 61,
            Key::S => 62,
            Key::T => 63,
            Key::U => 64,
            Key::V => 65,
            Key::W => 66,
            Key::X => 67,
            Key::Y => 68,
            Key::Z => 69,
            Key::LWin => 70,
            Key::RWin => 71,
            Key::Apps => 72,
            Key::NumPad0 => 74,
            Key::NumPad1 => 75,
            Key::NumPad2 => 76,
            Key::NumPad3 => 77,
            Key::NumPad4 => 78,
            Key::NumPad5 => 79,
            Key::NumPad6 => 80,
            Key::NumPad7 => 81,
            Key::NumPad8 => 82,
            Key::NumPad9 => 83,
            Key::Multiply => 84,
            Key::Add => 85,
            Key::Subtract => 87,
            Key::Decimal => 88,
            Key::Divide => 89,
            Key::F1 => 90,
            Key::F2 => 91,
            Key::F3 => 92,
            Key::F4 => 93,
            Key::F5 => 94,
            Key::F6 => 95,
            Key::F7 => 96,
            Key::F8 => 97,
            Key::F9 => 98,
            Key::F10 => 99,
            Key::F11 => 100,
            Key::F12 => 101,
            Key::F13 => 102,
            Key::F14 => 103,
            Key::F15 => 104,
            Key::F16 => 105,
            Key::F17 => 106,
            Key::F18 => 107,
            Key::F19 => 108,
            Key::F20 => 109,
            Key::F21 => 110,
            Key::F22 => 111,
            Key::F23 => 112,
            Key::F24 => 113,
            Key::NumLock => 114,
            Key::ScrollLock => 115,
            Key::LeftShift => 116,
            Key::RightShift => 117,
            Key::LeftCtrl => 118,
            Key::RightCtrl => 119,
            Key::LeftAlt => 120,
            Key::RightAlt => 121,
            Key::OemSemicolon => 140,
            Key::OemPlus => 141,
            Key::OemComma => 142,
            Key::OemMinus => 143,
            Key::OemPeriod => 144,
            Key::OemSlash => 145,
            Key::OemTilde => 146,
            Key::OemOpenBrackets => 149,
            Key::OemPipe => 150,
            Key::OemCloseBrackets => 151,
            Key::OemQuotes => 152,
        }
    }

    /// The raw value handed across the FFI for this member.
    pub fn to_raw(self) -> (r: i32)
        ensures
            r == self.raw_of(),
    {
        match self {
            Key::NoKey => 0,
            Key::Back => 2,
            Key::Tab => 3,
            Key::Return => 6,
            Key::Pause => 7,
            Key::CapsLock => 8,
            Key::Escape => 13,
            Key::Space => 18,
            Key::PageUp => 19,
            Key::PageDown => 20,
            Key::End => 21,
            Key::Home => 22,
            Key::Left => 23,
            Key::Up => 24,
            Key::Right => 25,
            Key::Down => 26,
            Key::PrintScreen => 30,
            Key::Insert => 31,
            Key::Delete => 32,
            Key::Help => 33,
            Key::D0 => 34,
            Key::D1 => 35,
            Key::D2 => 36,
            Key::D3 => 37,
            Key::D4 => 38,
            Key::D5 => 39,
            Key::D6 => 40,
            Key::D7 => 41,
            Key::D8 => 42,
            Key::D9 => 43,
            Key::A => 44,
            Key::B => 45,
            Key::C => 46,
            Key::D => 47,
            Key::E => 48,
            Key::F => 49,
            Key::G => 50,
            Key::H => 51,
            Key::I => 52,
            Key::J => 53,
            Key::K => 54,
            Key::L => 55,
            Key::M => 56,
            Key::N => 57,
            Key::O => 58,
            Key::P => 59,
            Key::Q => 60,
            Key::R => 61,
            Key::S => 62,
            Key::T => 63,
            Key::U => 64,
            Key::V => 65,
            Key::W => 66,
            Key::X => 67,
            Key::Y => 68,
            Key::Z => 69,
            Key::LWin => 70,
            Key::RWin => 71,
            Key::Apps => 72,
            Key::NumPad0 => 74,
            Key::NumPad1 => 75,
            Key::NumPad2 => 76,
            Key::NumPad3 => 77,
            Key::NumPad4 => 78,
            Key::NumPad5 => 79,
            Key::NumPad6 => 80,
            Key::NumPad7 => 81,
            Key::NumPad8 => 82,
            Key::NumPad9 => 83,
            Key::Multiply => 84,
            Key::Add => 85,
            Key::Subtract => 87,
            Key::Decimal => 88,
            Key::Divide => 89,
            Key::F1 => 90,
            Key::F2 => 91,
            Key::F3 => 92,
            Key::F4 => 93,
            Key::F5 => 94,
            Key::F6 => 95,
            Key::F7 => 96,
            Key::F8 => 97,
            Key::F9 => 98,
            Key::F10 => 99,
            Key::F11 => 100,
            Key::F12 => 101,
            Key::F13 => 102,
            Key::F14 => 103,
            Key::F15 => 104,
            Key::F16 => 105,
            Key::F17 => 106,
            Key::F18 => 107,
            Key::F19 => 108,
            Key::F20 => 109,
            Key::F21 => 110,
            Key::F22 => 111,
            Key::F23 => 112,
            Key::F24 => 113,
            Key::NumLock => 114,
            Key::ScrollLock => 115,
            Key::LeftShift => 116,
            Key::RightShift => 117,
            Key::LeftCtrl => 118,
            Key::RightCtrl => 119,
            Key::LeftAlt => 120,
            Key::RightAlt => 121,
            Key::OemSemicolon => 140,
            Key::OemPlus => 141,
            Key::OemComma => 142,
            Key::OemMinus => 143,
            Key::OemPeriod => 144,
            Key::OemSlash => 145,
            Key::OemTilde => 146,
            Key::OemOpenBrackets => 149,
            Key::OemPipe => 150,
            Key::OemCloseBrackets => 151,
            Key::OemQuotes => 152,
        }
    }
}

/// Distinct members of [`Key`] have distinct raw values, so decoding the
/// raw value of a member gives that member back.
pub proof fn lemma_key_raw_injective(a: Key, b: Key)
    ensures
        a.raw_of() == b.raw_of() ==> a == b,
{
}

/// Decode the key code of a key event; a code this binding does not name reads
/// as [`Key::NoKey`].
pub fn key_from_raw(raw: i32) -> (r: Key)
    ensures
        (exists|m: Key| m.raw_of() == raw) ==> r.raw_of() == raw,
        (forall|m: Key| m.raw_of() != raw) ==> r == Key::NoKey,
{
    assert(Key::Back.raw_of() == 2 && Key::Tab.raw_of() == 3 && Key::Return.raw_of() == 6 && Key::Pause.raw_of() == 7 && Key::CapsLock.raw_of() == 8 && Key::Escape.raw_of() == 13 && Key::Space.raw_of() == 18 && Key::PageUp.raw_of() == 19 && Key::PageDown.raw_of() == 20 && Key::End.raw_of() == 21 && Key::Home.raw_of() == 22 && Key::Left.raw_of() == 23 && Key::Up.raw_of() == 24 && Key::Right.raw_of() == 25 && Key::Down.raw_of() == 26 && Key::PrintScreen.raw_of() == 30 && Key::Insert.raw_of() == 31 && Key::Delete.raw_of() == 32 && Key::Help.raw_of() == 33 && Key::D0.raw_of() == 34 && Key::D1.raw_of() == 35 && Key::D2.raw_of() == 36 && Key::D3.raw_of() == 37 && Key::D4.raw_of() == 38 && Key::D5.raw_of() == 39 && Key::D6.raw_of() == 40 && Key::D7.raw_of() == 41 && Key::D8.raw_of() == 42 && Key::D9.raw_of() == 43 && Key::A.raw_of() == 44 && Key::B.raw_of() == 45 && Key::C.raw_of() == 46 && Key::D.raw_of() == 47 && Key::E.raw_of() == 48 && Key::F.raw_of() == 49 && Key::G.raw_of() == 50 && Key::H.raw_of() == 51 && Key::I.raw_of() == 52 && Key::J.raw_of() == 53 && Key::K.raw_of() == 54 && Key::L.raw_of() == 55 && Key::M.raw_of() == 56 && Key::N.raw_of() == 57 && Key::O.raw_of() == 58 && Key::P.raw_of() == 59 && Key::Q.raw_of() == 60 && Key::R.raw_of() == 61 && Key::S.raw_of() == 62 && Key::T.raw_of() == 63 && Key::U.raw_of() == 64 && Key::V.raw_of() == 65 && Key::W.raw_of() == 66 && Key::X.raw_of() == 67 && Key::Y.raw_of() == 68 && Key::Z.raw_of() == 69 && Key::LWin.raw_of() == 70 && Key::RWin.raw_of() == 71 && Key::Apps.raw_of() == 72 && Key::NumPad0.raw_of() == 74 && Key::NumPad1.raw_of() == 75 && Key::NumPad2.raw_of() == 76 && Key::NumPad3.raw_of() == 77 && Key::NumPad4.raw_of() == 78 && Key::NumPad5.raw_of() == 79 && Key::NumPad6.raw_of() == 80 && Key::NumPad7.raw_of() == 81 && Key::NumPad8.raw_of() == 82 && Key::NumPad9.raw_of() == 83 && Key::Multiply.raw_of() == 84 && Key::Add.raw_of() == 85 && Key::Subtract.raw_of() == 87 && Key::Decimal.raw_of() == 88 && Key::Divide.raw_of() == 89 && Key::F1.raw_of() == 90 && Key::F2.raw_of() == 91 && Key::F3.raw_of() == 92 && Key::F4.raw_of() == 93 && Key::F5.raw_of() == 94 && Key::F6.raw_of() == 95 && Key::F7.raw_of() == 96 && Key::F8.raw_of() == 97 && Key::F9.raw_of() == 98 && Key::F10.raw_of() == 99 && Key::F11.raw_of() == 100 && Key::F12.raw_of() == 101 && Key::F13.raw_of() == 102 && Key::F14.raw_of() == 103 && Key::F15.raw_of() == 104 && Key::F16.raw_of() == 105 && Key::F17.raw_of() == 106 && Key::F18.raw_of() == 107 && Key::F19.raw_of() == 108 && Key::F20.raw_of() == 109 && Key::F21.raw_of() == 110 && Key::F22.raw_of() == 111 && Key::F23.raw_of() == 112 && Key::F24.raw_of() == 113 && Key::NumLock.raw_of() == 114 && Key::ScrollLock.raw_of() == 115 && Key::LeftShift.raw_of() == 116 && Key::RightShift.raw_of() == 117 && Key::LeftCtrl.raw_of() == 118 && Key::RightCtrl.raw_of() == 119 && Key::LeftAlt.raw_of() == 120 && Key::RightAlt.raw_of() == 121 && Key::OemSemicolon.raw_of() == 140 && Key::OemPlus.raw_of() == 141 && Key::OemComma.raw_of() == 142 && Key::OemMinus.raw_of() == 143 && Key::OemPeriod.raw_of() == 144 && Key::OemSlash.raw_of() == 145 && Key::OemTilde.raw_of() == 146 && Key::OemOpenBrackets.raw_of() == 149 && Key::OemPipe.raw_of() == 150 && Key::OemCloseBrackets.raw_of() == 151 && Key::OemQuotes.raw_of() == 152);
    match raw {
        2 => Key::Back,
        3 => Key::Tab,
        6 => Key::Return,
        7 => Key::Pause,
        8 => Key::CapsLock,
        13 => Key::Escape,
        18 => Key::Space,
        19 => Key::PageUp,
        20 => Key::PageDown,
        21 => Key::End,
        22 => Key::Home,
        23 => Key::Left,
        24 => Key::Up,
        25 => Key::Right,
        26 => Key::Down,
        30 => Key::PrintScreen,
        31 => Key::Insert,
        32 => Key::Delete,
        33 => Key::Help,
        34 => Key::D0,
        35 => Key::D1,
        36 => Key::D2,
        37 => Key::D3,
        38 => Key::D4,
        39 => Key::D5,
        40 => Key::D6,
        41 => Key::D7,
        42 => Key::D8,
        43 => Key::D9,
        44 => Key::A,
        45 => Key::B,
        46 => Key::C,
        47 => Key::D,
        48 => Key::E,
        49 => Key::F,
        50 => Key::G,
        51 => Key::H,
        52 => Key::I,
        53 => Key::J,
        54 => Key::K,
        55 => Key::L,
        56 => Key::M,
        57 => Key::N,
        58 => Key::O,
        59 => Key::P,
        60 => Key::Q,
        61 => Key::R,
        62 => Key::S,
        63 => Key::T,
        64 => Key::U,
        65 => Key::V,
        66 => Key::W,
        67 => Key::X,
        68 => Key::Y,
        69 => Key::Z,
        70 => Key::LWin,
        71 => Key::RWin,
        72 => Key::Apps,
        74 => Key::NumPad0,
        75 => Key::NumPad1,
        76 => Key::NumPad2,
        77 => Key::NumPad3,
        78 => Key::NumPad4,
        79 => Key::NumPad5,
        80 => Key::NumPad6,
        81 => Key::NumPad7,
        82 => Key::NumPad8,
        83 => Key::NumPad9,
        84 => Key::Multiply,
        85 => Key::Add,
        87 => Key::Subtract,
        88 => Key::Decimal,
        89 => Key::Divide,
        90 => Key::F1,
        91 => Key::F2,
        92 => Key::F3,
        93 => Key::F4,
        94 => Key::F5,
        95 => Key::F6,
        96 => Key::F7,
        97 => Key::F8,
        98 => Key::F9,
        99 => Key::F10,
        100 => Key::F11,
        101 => Key::F12,
        102 => Key::F13,
        103 => Key::F14,
        104 => Key::F15,
        105 => Key::F16,
        106 => Key::F17,
        107 => Key::F18,
        108 => Key::F19,
        109 => Key::F20,
        110 => Key::F21,
        111 => Key::F22,
        112 => Key::F23,
        113 => Key::F24,
        114 => Key::NumLock,
        115 => Key::ScrollLock,
        116 => Key::LeftShift,
        117 => Key::RightShift,
        118 => Key::LeftCtrl,
        119 => Key::RightCtrl,
        120 => Key::LeftAlt,
        121 => Key::RightAlt,
        140 => Key::OemSemicolon,
        141 => Key::OemPlus,
        142 => Key::OemComma,
        143 => Key::OemMinus,
        144 => Key::OemPeriod,
        145 => Key::OemSlash,
        146 => Key::OemTilde,
        149 => Key::OemOpenBrackets,
        150 => Key::OemPipe,
        151 => Key::OemCloseBrackets,
        152 => Key::OemQuotes,
        _ => Key::NoKey,
    }
}

/// A mouse button as Noesis numbers it in button events (`Noesis::MouseButton`).
#[derive(Copy, Clone, Debug, PartialEq, Eq)]
#[non_exhaustive]
pub enum MouseButton {
    Left,
    Right,
    Middle,
    XButton1,
    XButton2,
}

impl MouseButton {
    /// The raw value Noesis uses for this member.
    pub open spec fn raw_of(self) -> i32 {
        match self {
            MouseButton::Left => 0,
            MouseButton::Right => 1,
            MouseButton::Middle => 2,
            MouseButton::XButton1 => 3,
            MouseButton::XButton2 => 4,
        }
    }

    /// The raw value handed across the FFI for this member.
    pub fn to_raw(self) -> (r: i32)
        ensures
            r == self.raw_of(),
    {
        match self {
            MouseButton::Left => 0,
            MouseButton::Right => 1,
            MouseButton::Middle => 2,
            MouseButton::XButton1 => 3,
            MouseButton::XButton2 => 4,
        }
    }

    /// Decode a raw value; `None` when no member has it.
    pub fn from_raw(v: i32) -> (r: Option<MouseButton>)
        ensures
            match r {
                Some(m) => m.raw_of() == v,
                None => forall|m: MouseButton| m.raw_of() != v,
            },
    {
        match v {
            0 => Some(MouseButton::Left),
            1 => Some(MouseButton::Right),
            2 => Some(MouseButton::Middle),
            3 => Some(MouseButton::XButton1),
            4 => Some(MouseButton::XButton2),
            _ => None,
        }
    }
}

/// Distinct members of [`MouseButton`] have distinct raw values, so decoding the
/// raw value of a member gives that member back.
pub proof fn lemma_mouse_button_raw_injective(a: MouseButton, b: MouseButton)
    ensures
        a.raw_of() == b.raw_of() ==> a == b,
{
}

/// The key of a key event, from the code the event arguments report: a
/// negative code means the arguments are not key arguments.
pub fn decode_args_key(raw: i32) -> (r: Option<Key>)
    ensures
        raw < 0 ==> r is None,
        raw >= 0 ==> (r matches Some(k) && ((exists|m: Key| m.raw_of() == raw) ==> k.raw_of() == raw)
            && ((forall|m: Key| m.raw_of() != raw) ==> k == Key::NoKey)),
{
    if raw >= 0 {
        Some(key_from_raw(raw))
    } else {
        None
    }
}

/// The character of a text-input event, from the code point the event
/// arguments report: `None` for a negative value (not text arguments) or for a
/// value that is not a Unicode scalar value.
pub fn decode_text_char(raw: i32) -> (r: Option<char>)
    ensures
        r is Some <==> (0 <= raw <= 0x10FFFF && !(0xD800 <= raw <= 0xDFFF)),
        r matches Some(c) ==> c as int == raw,
{
    if raw < 0 {
        return None;
    }
    char_from_u32(raw as u32)
}

/// Whether event arguments are mouse-wheel arguments: they carry a pointer
/// position but no button.
pub fn is_wheel(has_position: bool, button: Option<MouseButton>) -> (r: bool)
    ensures
        r == (has_position && button is None),
{
    has_position && button.is_none()
}

/// `char::from_u32` of the standard library, which returns the character with
/// code point `v`, or `None` when `v` is not a Unicode scalar value (above
/// `0x10FFFF`, or a surrogate in `0xD800..=0xDFFF`).
#[verifier::external_body]
fn char_from_u32(v: u32) -> (r: Option<char>)
    ensures
        r is Some <==> (v <= 0x10FFFF && !(0xD800 <= v <= 0xDFFF)),
        r matches Some(c) ==> c as int == v,
{
    char::from_u32(v)
}


/// The raw value of each member of [`Key`] is the one Noesis assigns it, so
/// encoding hands the native side exactly that member and decoding a raw value
/// gives back the member Noesis meant by it.
pub proof fn lemma_key_raw_values()
    ensures
        Key::NoKey.raw_of() == 0,
        Key::Back.raw_of() == 2,
        Key::Tab.raw_of() == 3,
        Key::Return.raw_of() == 6,
        Key::Pause.raw_of() == 7,
        Key::CapsLock.raw_of() == 8,
        Key::Escape.raw_of() == 13,
        Key::Space.raw_of() == 18,
        Key::PageUp.raw_of() == 19,
        Key::PageDown.raw_of() == 20,
        Key::End.raw_of() == 21,
        Key::Home.raw_of() == 22,
        Key::Left.raw_of() == 23,
        Key::Up.raw_of() == 24,
        Key::Right.raw_of() == 25,
        Key::Down.raw_of() == 26,
        Key::PrintScreen.raw_of() == 30,
        Key::Insert.raw_of() == 31,
        Key::Delete.raw_of() == 32,
        Key::Help.raw_of() == 33,
        Key::D0.raw_of() == 34,
        Key::D1.raw_of() == 35,
        Key::D2.raw_of() == 36,
        Key::D3.raw_of() == 37,
        Key::D4.raw_of() == 38,
        Key::D5.raw_of() == 39,
        Key::D6.raw_of() == 40,
        Key::D7.raw_of() == 41,
        Key::D8.raw_of() == 42,
        Key::D9.raw_of() == 43,
        Key::A.raw_of() == 44,
        Key::B.raw_of() == 45,
        Key::C.raw_of() == 46,
        Key::D.raw_of() == 47,
        Key::E.raw_of() == 48,
        Key::F.raw_of() == 49,
        Key::G.raw_of() == 50,
        Key::H.raw_of() == 51,
        Key::I.raw_of() == 52,
        Key::J.raw_of() == 53,
        Key::K.raw_of() == 54,
        Key::L.raw_of() == 55,
        Key::M.raw_of() == 56,
        Key::N.raw_of() == 57,
        Key::O.raw_of() == 58,
        Key::P.raw_of() == 59,
        Key::Q.raw_of() == 60,
        Key::R.raw_of() == 61,
        Key::S.raw_of() == 62,
        Key::T.raw_of() == 63,
        Key::U.raw_of() == 64,
        Key::V.raw_of() == 65,
        Key::W.raw_of() == 66,
        Key::X.raw_of() == 67,
        Key::Y.raw_of() == 68,
        Key::Z.raw_of() == 69,
        Key::LWin.raw_of() == 70,
        Key::RWin.raw_of() == 71,
        Key::Apps.raw_of() == 72,
        Key::NumPad0.raw_of() == 74,
        Key::NumPad1.raw_of() == 75,
        Key::NumPad2.raw_of() == 76,
        Key::NumPad3.raw_of() == 77,
        Key::NumPad4.raw_of() == 78,
        Key::NumPad5.raw_of() == 79,
        Key::NumPad6.raw_of() == 80,
        Key::NumPad7.raw_of() == 81,
        Key::NumPad8.raw_of() == 82,
        Key::NumPad9.raw_of() == 83,
        Key::Multiply.raw_of() == 84,
        Key::Add.raw_of() == 85,
        Key::Subtract.raw_of() == 87,
        Key::Decimal.raw_of() == 88,
        Key::Divide.raw_of() == 89,
        Key::F1.raw_of() == 90,
        Key::F2.raw_of() == 91,
        Key::F3.raw_of() == 92,
        Key::F4.raw_of() == 93,
        Key::F5.raw_of() == 94,
        Key::F6.raw_of() == 95,
        Key::F7.raw_of() == 96,
        Key::F8.raw_of() == 97,
        Key::F9.raw_of() == 98,
        Key::F10.raw_of() == 99,
        Key::F11.raw_of() == 100,
        Key::F12.raw_of() == 101,
        Key::F13.raw_of() == 102,
        Key::F14.raw_of() == 103,
        Key::F15.raw_of() == 104,
        Key::F16.raw_of() == 105,
        Key::F17.raw_of() == 106,
        Key::F18.raw_of() == 107,
        Key::F19.raw_of() == 108,
        Key::F20.raw_of() == 109,
        Key::F21.raw_of() == 110,
        Key::F22.raw_of() == 111,
        Key::F23.raw_of() == 112,
        Key::F24.raw_of() == 113,
        Key::NumLock.raw_of() == 114,
        Key::ScrollLock.raw_of() == 115,
        Key::LeftShift.raw_of() == 116,
        Key::RightShift.raw_of() == 117,
        Key::LeftCtrl.raw_of() == 118,
        Key::RightCtrl.raw_of() == 119,
        Key::LeftAlt.raw_of() == 120,
        Key::RightAlt.raw_of() == 121,
        Key::OemSemicolon.raw_of() == 140,
        Key::OemPlus.raw_of() == 141,
        Key::OemComma.raw_of() == 142,
        Key::OemMinus.raw_of() == 143,
        Key::OemPeriod.raw_of() == 144,
        Key::OemSlash.raw_of() == 145,
        Key::OemTilde.raw_of() == 146,
        Key::OemOpenBrackets.raw_of() == 149,
        Key::OemPipe.raw_of() == 150,
        Key::OemCloseBrackets.raw_of() == 151,
        Key::OemQuotes.raw_of() == 152,
{
}

/// The raw value of each member of [`MouseButton`] is the one Noesis assigns it, so
/// encoding hands the native side exactly that member and decoding a raw value
/// gives back the member Noesis meant by it.
pub proof fn lemma_mouse_button_raw_values()
    ensures
        MouseButton::Left.raw_of() == 0,
        MouseButton::Right.raw_of() == 1,
        MouseButton::Middle.raw_of() == 2,
        MouseButton::XButton1.raw_of() == 3,
        MouseButton::XButton2.raw_of() == 4,
{
}

} // verus!
