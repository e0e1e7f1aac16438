use vstd::prelude::*;

verus! {

/// The number of distinct hardware key codes the library knows about.
pub const KEY_COUNT: usize = 160;

#[derive(Debug, Hash, Copy, Clone, PartialEq, Eq, Structural)]
#[non_exhaustive]
/// A key on the keyboard.  Identifies a physical key position (an OS scancode),
/// never a character.
pub enum KeyboardKey {
    A,
    S,
    D,
    F,
    H,
    G,
    Z,
    X,
    C,
    V,
    B,
    Q,
    W,
    E,
    R,
    Y,
    T,
    Num1,
    Num2,
    Num3,
    Num4,
    Num6,
    Num5,
    Equal,
    Num9,
    Num7,
    Minus,
    Num8,
    Num0,
    RightBracket,
    O,
    U,
    LeftBracket,
    I,
    P,
    L,
    J,
    Quote,
    K,
    Semicolon,
    Backslash,
    Comma,
    Slash,
    N,
    M,
    Period,
    Grave,
    KeypadDecimal,
    KeypadMultiply,
    KeypadPlus,
    KeypadClear,
    KeypadDivide,
    KeypadEnter,
    KeypadMinus,
    KeypadEquals,
    Keypad0,
    Keypad1,
    Keypad2,
    Keypad3,
    Keypad4,
    Keypad5,
    Keypad6,
    Keypad7,
    Keypad8,
    Keypad9,
    Return,
    Tab,
    Space,
    Delete,
    Escape,
    Command,
    Shift,
    CapsLock,
    Option,
    Control,
    RightCommand,
    RightShift,
    RightOption,
    RightControl,
    Function,
    F17,
    VolumeUp,
    VolumeDown,
    Mute,
    F18,
    F19,
    F20,
    F5,
    F6,
    F7,
    F3,
    F8,
    F9,
    F11,
    F13,
    F16,
    F14,
    F10,
    ContextualMenu,
    F12,
    F15,
    Help,
    Home,
    PageUp,
    ForwardDelete,
    F4,
    End,
    F2,
    PageDown,
    F1,
    LeftArrow,
    RightArrow,
    DownArrow,
    UpArrow,
    ISOSection,
    JISYen,
    JISUnderscore,
    JISKeypadComma,
    JISEisu,
    JISKana,
    Pause,
    ScrollLock,
    PrintScreen,
    InternationalBackslash,
    F21,
    F22,
    F23,
    F24,
    Convert,
    NonConvert,
    PreviousTrack,
    NextTrack,
    LaunchApp2,
    Play,
    Stop,
    BrowserHome,
    NumLock,
    Insert,
    ContextMenu,
    Power,
    Eject,
    BrowserSearch,
    BrowserFavorites,
    BrowserRefresh,
    BrowserStop,
    BrowserForward,
    BrowserBack,
    LaunchApp1,
    LaunchMail,
    MediaSelect,
    Again,
    Props,
    Undo,
    Select,
    Copy,
    Open,
    Paste,
    Find,
    Cut,
    WakeUp,
}

impl KeyboardKey {
    /// The position of this key in the state table; every key has its own cell.
    pub open spec fn index_spec(self) -> int {
        match self {
            KeyboardKey::A => 0,
            KeyboardKey::S => 1,
            KeyboardKey::D => 2,
            KeyboardKey::F => 3,
            KeyboardKey::H => 4,
            KeyboardKey::G => 5,
            KeyboardKey::Z => 6,
            KeyboardKey::X => 7,
            KeyboardKey::C => 8,
            KeyboardKey::V => 9,
            KeyboardKey::B => 10,
            KeyboardKey::Q => 11,
            KeyboardKey::W => 12,
            KeyboardKey::E => 13,
            KeyboardKey::R => 14,
            KeyboardKey::Y => 15,
            KeyboardKey::T => 16,
            KeyboardKey::Num1 => 17,
            KeyboardKey::Num2 => 18,
            KeyboardKey::Num3 => 19,
            KeyboardKey::Num4 => 20,
            KeyboardKey::Num6 => 21,
            KeyboardKey::Num5 => 22,
            KeyboardKey::Equal => 23,
            KeyboardKey::Num9 => 24,
            KeyboardKey::Num7 => 25,
            KeyboardKey::Minus => 26,
            KeyboardKey::Num8 => 27,
            KeyboardKey::Num0 => 28,
            KeyboardKey::RightBracket => 29,
            KeyboardKey::O => 30,
            KeyboardKey::U => 31,
            KeyboardKey::LeftBracket => 32,
            KeyboardKey::I => 33,
            KeyboardKey::P => 34,
            KeyboardKey::L => 35,
            KeyboardKey::J => 36,
            KeyboardKey::Quote => 37,
            KeyboardKey::K => 38,
            KeyboardKey::Semicolon => 39,
            KeyboardKey::Backslash => 40,
            KeyboardKey::Comma => 41,
            KeyboardKey::Slash => 42,
            KeyboardKey::N => 43,
            KeyboardKey::M => 44,
            KeyboardKey::Period => 45,
            KeyboardKey::Grave => 46,
            KeyboardKey::KeypadDecimal => 47,
            KeyboardKey::KeypadMultiply => 48,
            KeyboardKey::KeypadPlus => 49,
            KeyboardKey::KeypadClear => 50,
            KeyboardKey::KeypadDivide => 51,
            KeyboardKey::KeypadEnter => 52,
            KeyboardKey::KeypadMinus => 53,
            KeyboardKey::KeypadEquals => 54,
            KeyboardKey::Keypad0 => 55,
            KeyboardKey::Keypad1 => 56,
            KeyboardKey::Keypad2 => 57,
            KeyboardKey::Keypad3 => 58,
            KeyboardKey::Keypad4 => 59,
            KeyboardKey::Keypad5 => 60,
            KeyboardKey::Keypad6 => 61,
            KeyboardKey::Keypad7 => 62,
            KeyboardKey::Keypad8 => 63,
            KeyboardKey::Keypad9 => 64,
            KeyboardKey::Return => 65,
            KeyboardKey::Tab => 66,
            KeyboardKey::Space => 67,
            KeyboardKey::Delete => 68,
            KeyboardKey::Escape => 69,
            KeyboardKey::Command => 70,
            KeyboardKey::Shift => 71,
            KeyboardKey::CapsLock => 72,
            KeyboardKey::Option => 73,
            KeyboardKey::Control => 74,
            KeyboardKey::RightCommand => 75,
            KeyboardKey::RightShift => 76,
            KeyboardKey::RightOption => 77,
            KeyboardKey::RightControl => 78,
            KeyboardKey::Function => 79,
            KeyboardKey::F17 => 80,
            KeyboardKey::VolumeUp => 81,
            KeyboardKey::VolumeDown => 82,
            KeyboardKey::Mute => 83,
            KeyboardKey::F18 => 84,
            KeyboardKey::F19 => 85,
            KeyboardKey::F20 => 86,
            KeyboardKey::F5 => 87,
            KeyboardKey::F6 => 88,
            KeyboardKey::F7 => 89,
            KeyboardKey::F3 => 90,
            KeyboardKey::F8 => 91,
            KeyboardKey::F9 => 92,
            KeyboardKey::F11 => 93,
            KeyboardKey::F13 => 94,
            KeyboardKey::F16 => 95,
            KeyboardKey::F14 => 96,
            KeyboardKey::F10 => 97,
            KeyboardKey::ContextualMenu => 98,
            KeyboardKey::F12 => 99,
            KeyboardKey::F15 => 100,
            KeyboardKey::Help => 101,
            KeyboardKey::Home => 102,
            KeyboardKey::PageUp => 103,
            KeyboardKey::ForwardDelete => 104,
            KeyboardKey::F4 => 105,
            KeyboardKey::End => 106,
            KeyboardKey::F2 => 107,
            KeyboardKey::PageDown => 108,
            KeyboardKey::F1 => 109,
            KeyboardKey::LeftArrow => 110,
            KeyboardKey::RightArrow => 111,
            KeyboardKey::DownArrow => 112,
            KeyboardKey::UpArrow => 113,
            KeyboardKey::ISOSection => 114,
            KeyboardKey::JISYen => 115,
            KeyboardKey::JISUnderscore => 116,
            KeyboardKey::JISKeypadComma => 117,
            KeyboardKey::JISEisu => 118,
            KeyboardKey::JISKana => 119,
            KeyboardKey::Pause => 120,
            KeyboardKey::ScrollLock => 121,
            KeyboardKey::PrintScreen => 122,
            KeyboardKey::InternationalBackslash => 123,
            KeyboardKey::F21 => 124,
            KeyboardKey::F22 => 125,
            KeyboardKey::F23 => 126,
            KeyboardKey::F24 => 127,
            KeyboardKey::Convert => 128,
            KeyboardKey::NonConvert => 129,
            KeyboardKey::PreviousTrack => 130,
            KeyboardKey::NextTrack => 131,
            KeyboardKey::LaunchApp2 => 132,
            KeyboardKey::Play => 133,
            KeyboardKey::Stop => 134,
            KeyboardKey::BrowserHome => 135,
            KeyboardKey::NumLock => 136,
            KeyboardKey::Insert => 137,
            KeyboardKey::ContextMenu => 138,
            KeyboardKey::Power => 139,
            KeyboardKey::Eject => 140,
            KeyboardKey::BrowserSearch => 141,
            KeyboardKey::BrowserFavorites => 142,
            KeyboardKey::BrowserRefresh => 143,
            KeyboardKey::BrowserStop => 144,
            KeyboardKey::BrowserForward => 145,
            KeyboardKey::BrowserBack => 146,
            KeyboardKey::LaunchApp1 => 147,
            KeyboardKey::LaunchMail => 148,
            KeyboardKey::MediaSelect => 149,
            KeyboardKey::Again => 150,
            KeyboardKey::Props => 151,
            KeyboardKey::Undo => 152,
            KeyboardKey::Select => 153,
            KeyboardKey::Copy => 154,
            KeyboardKey::Open => 155,
            KeyboardKey::Paste => 156,
            KeyboardKey::Find => 157,
            KeyboardKey::Cut => 158,
            KeyboardKey::WakeUp => 159,
        }
    }

    /// Table index of this key; each key owns one cell in `0 .. KEY_COUNT`.
    pub fn index(self) -> (i: usize)
        ensures
            i == self.index_spec(),
            i < KEY_COUNT,
    {
        match self {
            KeyboardKey::A => 0,
            KeyboardKey::S => 1,
            KeyboardKey::D => 2,
            KeyboardKey::F => 3,
            KeyboardKey::H => 4,
            KeyboardKey::G => 5,
            KeyboardKey::Z => 6,
            KeyboardKey::X => 7,
            KeyboardKey::C => 8,
            KeyboardKey::V => 9,
            KeyboardKey::B => 10,
            KeyboardKey::Q => 11,
            KeyboardKey::W => 12,
            KeyboardKey::E => 13,
            KeyboardKey::R => 14,
            KeyboardKey::Y => 15,
            KeyboardKey::T => 16,
            KeyboardKey::Num1 => 17,
            KeyboardKey::Num2 => 18,
            KeyboardKey::Num3 => 19,
            KeyboardKey::Num4 => 20,
            KeyboardKey::Num6 => 21,
            KeyboardKey::Num5 => 22,
            KeyboardKey::Equal => 23,
            KeyboardKey::Num9 => 24,
            KeyboardKey::Num7 => 25,
            KeyboardKey::Minus => 26,
            KeyboardKey::Num8 => 27,
            KeyboardKey::Num0 => 28,
            KeyboardKey::RightBracket => 29,
            KeyboardKey::O => 30,
            KeyboardKey::U => 31,
            KeyboardKey::LeftBracket => 32,
            KeyboardKey::I => 33,
            KeyboardKey::P => 34,
            KeyboardKey::L => 35,
            KeyboardKey::J => 36,
            KeyboardKey::Quote => 37,
            KeyboardKey::K => 38,
            KeyboardKey::Semicolon => 39,
            KeyboardKey::Backslash => 40,
            KeyboardKey::Comma => 41,
            KeyboardKey::Slash => 42,
            KeyboardKey::N => 43,
            KeyboardKey::M => 44,
            KeyboardKey::Period => 45,
            KeyboardKey::Grave => 46,
            KeyboardKey::KeypadDecimal => 47,
            KeyboardKey::KeypadMultiply => 48,
            KeyboardKey::KeypadPlus => 49,
            KeyboardKey::KeypadClear => 50,
            KeyboardKey::KeypadDivide => 51,
            KeyboardKey::KeypadEnter => 52,
            KeyboardKey::KeypadMinus => 53,
            KeyboardKey::KeypadEquals => 54,
            KeyboardKey::Keypad0 => 55,
            KeyboardKey::Keypad1 => 56,
            KeyboardKey::Keypad2 => 57,
            KeyboardKey::Keypad3 => 58,
            KeyboardKey::Keypad4 => 59,
            KeyboardKey::Keypad5 => 60,
            KeyboardKey::Keypad6 => 61,
            KeyboardKey::Keypad7 => 62,
            KeyboardKey::Keypad8 => 63,
            KeyboardKey::Keypad9 => 64,
            KeyboardKey::Return => 65,
            KeyboardKey::Tab => 66,
            KeyboardKey::Space => 67,
            KeyboardKey::Delete => 68,
            KeyboardKey::Escape => 69,
            KeyboardKey::Command => 70,
            KeyboardKey::Shift => 71,
            KeyboardKey::CapsLock => 72,
            KeyboardKey::Option => 73,
            KeyboardKey::Control => 74,
            KeyboardKey::RightCommand => 75,
            KeyboardKey::RightShift => 76,
            KeyboardKey::RightOption => 77,
            KeyboardKey::RightControl => 78,
            KeyboardKey::Function => 79,
            KeyboardKey::F17 => 80,
            KeyboardKey::VolumeUp => 81,
            KeyboardKey::VolumeDown => 82,
            KeyboardKey::Mute => 83,
            KeyboardKey::F18 => 84,
            KeyboardKey::F19 => 85,
            KeyboardKey::F20 => 86,
            KeyboardKey::F5 => 87,
            KeyboardKey::F6 => 88,
            KeyboardKey::F7 => 89,
            KeyboardKey::F3 => 90,
            KeyboardKey::F8 => 91,
            KeyboardKey::F9 => 92,
            KeyboardKey::F11 => 93,
            KeyboardKey::F13 => 94,
            KeyboardKey::F16 => 95,
            KeyboardKey::F14 => 96,
            KeyboardKey::F10 => 97,
            KeyboardKey::ContextualMenu => 98,
            KeyboardKey::F12 => 99,
            KeyboardKey::F15 => 100,
            KeyboardKey::Help => 101,
            KeyboardKey::Home => 102,
            KeyboardKey::PageUp => 103,
            KeyboardKey::ForwardDelete => 104,
            KeyboardKey::F4 => 105,
            KeyboardKey::End => 106,
            KeyboardKey::F2 => 107,
            KeyboardKey::PageDown => 108,
            KeyboardKey::F1 => 109,
            KeyboardKey::LeftArrow => 110,
            KeyboardKey::RightArrow => 111,
            KeyboardKey::DownArrow => 112,
            KeyboardKey::UpArrow => 113,
            KeyboardKey::ISOSection => 114,
            KeyboardKey::JISYen => 115,
            KeyboardKey::JISUnderscore => 116,
            KeyboardKey::JISKeypadComma => 117,
            KeyboardKey::JISEisu => 118,
            KeyboardKey::JISKana => 119,
            KeyboardKey::Pause => 120,
            KeyboardKey::ScrollLock => 121,
            KeyboardKey::PrintScreen => 122,
            KeyboardKey::InternationalBackslash => 123,
            KeyboardKey::F21 => 124,
            KeyboardKey::F22 => 125,
            KeyboardKey::F23 => 126,
            KeyboardKey::F24 => 127,
            KeyboardKey::Convert => 128,
            KeyboardKey::NonConvert => 129,
            KeyboardKey::PreviousTrack => 130,
            KeyboardKey::NextTrack => 131,
            KeyboardKey::LaunchApp2 => 132,
            KeyboardKey::Play => 133,
            KeyboardKey::Stop => 134,
            KeyboardKey::BrowserHome => 135,
            KeyboardKey::NumLock => 136,
            KeyboardKey::Insert => 137,
            KeyboardKey::ContextMenu => 138,
            KeyboardKey::Power => 139,
            KeyboardKey::Eject => 140,
            KeyboardKey::BrowserSearch => 141,
            KeyboardKey::BrowserFavorites => 142,
            KeyboardKey::BrowserRefresh => 143,
            KeyboardKey::BrowserStop => 144,
            KeyboardKey::BrowserForward => 145,
            KeyboardKey::BrowserBack => 146,
            KeyboardKey::LaunchApp1 => 147,
            KeyboardKey::LaunchMail => 148,
            KeyboardKey::MediaSelect => 149,
            KeyboardKey::Again => 150,
            KeyboardKey::Props => 151,
            KeyboardKey::Undo => 152,
            KeyboardKey::Select => 153,
            KeyboardKey::Copy => 154,
            KeyboardKey::Open => 155,
            KeyboardKey::Paste => 156,
            KeyboardKey::Find => 157,
            KeyboardKey::Cut => 158,
            KeyboardKey::WakeUp => 159,
        }
    }

    /// The key that owns table cell `i`: the inverse of `index_spec`.
    pub open spec fn of_index_spec(i: int) -> KeyboardKey {
        if i == 0 { KeyboardKey::A } else
        if i == 1 { KeyboardKey::S } else
        if i == 2 { KeyboardKey::D } else
        if i == 3 { KeyboardKey::F } else
        if i == 4 { KeyboardKey::H } else
        if i == 5 { KeyboardKey::G } else
        if i == 6 { KeyboardKey::Z } else
        if i == 7 { KeyboardKey::X } else
        if i == 8 { KeyboardKey::C } else
        if i == 9 { KeyboardKey::V } else
        if i == 10 { KeyboardKey::B } else
        if i == 11 { KeyboardKey::Q } else
        if i == 12 { KeyboardKey::W } else
        if i == 13 { KeyboardKey::E } else
        if i == 14 { KeyboardKey::R } else
        if i == 15 { KeyboardKey::Y } else
        if i == 16 { KeyboardKey::T } else
        if i == 17 { KeyboardKey::Num1 } else
        if i == 18 { KeyboardKey::Num2 } else
        if i == 19 { KeyboardKey::Num3 } else
        if i == 20 { KeyboardKey::Num4 } else
        if i == 21 { KeyboardKey::Num6 } else
        if i == 22 { KeyboardKey::Num5 } else
        if i == 23 { KeyboardKey::Equal } else
        if i == 24 { KeyboardKey::Num9 } else
        if i == 25 { KeyboardKey::Num7 } else
        if i == 26 { KeyboardKey::Minus } else
        if i == 27 { KeyboardKey::Num8 } else
        if i == 28 { KeyboardKey::Num0 } else
        if i == 29 { KeyboardKey::RightBracket } else
        if i == 30 { KeyboardKey::O } else
        if i == 31 { KeyboardKey::U } else
        if i == 32 { KeyboardKey::LeftBracket } else
        if i == 33 { KeyboardKey::I } else
        if i == 34 { KeyboardKey::P } else
        if i == 35 { KeyboardKey::L } else
        if i == 36 { KeyboardKey::J } else
        if i == 37 { KeyboardKey::Quote } else
        if i == 38 { KeyboardKey::K } else
        if i == 39 { KeyboardKey::Semicolon } else
        if i == 40 { KeyboardKey::Backslash } else
        if i == 41 { KeyboardKey::Comma } else
        if i == 42 { KeyboardKey::Slash } else
        if i == 43 { KeyboardKey::N } else
        if i == 44 { KeyboardKey::M } else
        if i == 45 { KeyboardKey::Period } else
        if i == 46 { KeyboardKey::Grave } else
        if i == 47 { KeyboardKey::KeypadDecimal } else
        if i == 48 { KeyboardKey::KeypadMultiply } else
        if i == 49 { KeyboardKey::KeypadPlus } else
        if i == 50 { KeyboardKey::KeypadClear } else
        if i == 51 { KeyboardKey::KeypadDivide } else
        if i == 52 { KeyboardKey::KeypadEnter } else
        if i == 53 { KeyboardKey::KeypadMinus } else
        if i == 54 { KeyboardKey::KeypadEquals } else
        if i == 55 { KeyboardKey::Keypad0 } else
        if i == 56 { KeyboardKey::Keypad1 } else
        if i == 57 { KeyboardKey::Keypad2 } else
        if i == 58 { KeyboardKey::Keypad3 } else
        if i == 59 { KeyboardKey::Keypad4 } else
        if i == 60 { KeyboardKey::Keypad5 } else
        if i == 61 { KeyboardKey::Keypad6 } else
        if i == 62 { KeyboardKey::Keypad7 } else
        if i == 63 { KeyboardKey::Keypad8 } else
        if i == 64 { KeyboardKey::Keypad9 } else
        if i == 65 { KeyboardKey::Return } else
        if i == 66 { KeyboardKey::Tab } else
        if i == 67 { KeyboardKey::Space } else
        if i == 68 { KeyboardKey::Delete } else
        if i == 69 { KeyboardKey::Escape } else
        if i == 70 { KeyboardKey::Command } else
        if i == 71 { KeyboardKey::Shift } else
        if i == 72 { KeyboardKey::CapsLock } else
        if i == 73 { KeyboardKey::Option } else
        if i == 74 { KeyboardKey::Control } else
        if i == 75 { KeyboardKey::RightCommand } else
        if i == 76 { KeyboardKey::RightShift } else
        if i == 77 { KeyboardKey::RightOption } else
        if i == 78 { KeyboardKey::RightControl } else
        if i == 79 { KeyboardKey::Function } else
        if i == 80 { KeyboardKey::F17 } else
        if i == 81 { KeyboardKey::VolumeUp } else
        if i == 82 { KeyboardKey::VolumeDown } else
        if i == 83 { KeyboardKey::Mute } else
        if i == 84 { KeyboardKey::F18 } else
        if i == 85 { KeyboardKey::F19 } else
        if i == 86 { KeyboardKey::F20 } else
        if i == 87 { KeyboardKey::F5 } else
        if i == 88 { KeyboardKey::F6 } else
        if i == 89 { KeyboardKey::F7 } else
        if i == 90 { KeyboardKey::F3 } else
        if i == 91 { KeyboardKey::F8 } else
        if i == 92 { KeyboardKey::F9 } else
        if i == 93 { KeyboardKey::F11 } else
        if i == 94 { KeyboardKey::F13 } else
        if i == 95 { KeyboardKey::F16 } else
        if i == 96 { KeyboardKey::F14 } else
        if i == 97 { KeyboardKey::F10 } else
        if i == 98 { KeyboardKey::ContextualMenu } else
        if i == 99 { KeyboardKey::F12 } else
        if i == 100 { KeyboardKey::F15 } else
        if i == 101 { KeyboardKey::Help } else
        if i == 102 { KeyboardKey::Home } else
        if i == 103 { KeyboardKey::PageUp } else
        if i == 104 { KeyboardKey::ForwardDelete } else
        if i == 105 { KeyboardKey::F4 } else
        if i == 106 { KeyboardKey::End } else
        if i == 107 { KeyboardKey::F2 } else
        if i == 108 { KeyboardKey::PageDown } else
        if i == 109 { KeyboardKey::F1 } else
        if i == 110 { KeyboardKey::LeftArrow } else
        if i == 111 { KeyboardKey::RightArrow } else
        if i == 112 { KeyboardKey::DownArrow } else
        if i == 113 { KeyboardKey::UpArrow } else
        if i == 114 { KeyboardKey::ISOSection } else
        if i == 115 { KeyboardKey::JISYen } else
        if i == 116 { KeyboardKey::JISUnderscore } else
        if i == 117 { KeyboardKey::JISKeypadComma } else
        if i == 118 { KeyboardKey::JISEisu } else
        if i == 119 { KeyboardKey::JISKana } else
        if i == 120 { KeyboardKey::Pause } else
        if i == 121 { KeyboardKey::ScrollLock } else
        if i == 122 { KeyboardKey::PrintScreen } else
        if i == 123 { KeyboardKey::InternationalBackslash } else
        if i == 124 { KeyboardKey::F21 } else
        if i == 125 { KeyboardKey::F22 } else
        if i == 126 { KeyboardKey::F23 } else
        if i == 127 { KeyboardKey::F24 } else
        if i == 128 { KeyboardKey::Convert } else
        if i == 129 { KeyboardKey::NonConvert } else
        if i == 130 { KeyboardKey::PreviousTrack } else
        if i == 131 { KeyboardKey::NextTrack } else
        if i == 132 { KeyboardKey::LaunchApp2 } else
        if i == 133 { KeyboardKey::Play } else
        if i == 134 { KeyboardKey::Stop } else
        if i == 135 { KeyboardKey::BrowserHome } else
        if i == 136 { KeyboardKey::NumLock } else
        if i == 137 { KeyboardKey::Insert } else
        if i == 138 { KeyboardKey::ContextMenu } else
        if i == 139 { KeyboardKey::Power } else
        if i == 140 { KeyboardKey::Eject } else
        if i == 141 { KeyboardKey::BrowserSearch } else
        if i == 142 { KeyboardKey::BrowserFavorites } else
        if i == 143 { KeyboardKey::BrowserRefresh } else
        if i == 144 { KeyboardKey::BrowserStop } else
        if i == 145 { KeyboardKey::BrowserForward } else
        if i == 146 { KeyboardKey::BrowserBack } else
        if i == 147 { KeyboardKey::LaunchApp1 } else
        if i == 148 { KeyboardKey::LaunchMail } else
        if i == 149 { KeyboardKey::MediaSelect } else
        if i == 150 { KeyboardKey::Again } else
        if i == 151 { KeyboardKey::Props } else
        if i == 152 { KeyboardKey::Undo } else
        if i == 153 { KeyboardKey::Select } else
        if i == 154 { KeyboardKey::Copy } else
        if i == 155 { KeyboardKey::Open } else
        if i == 156 { KeyboardKey::Paste } else
        if i == 157 { KeyboardKey::Find } else
        if i == 158 { KeyboardKey::Cut } else
        { KeyboardKey::WakeUp }
    }

    /// The key owning table cell `i`.
    pub fn of_index(i: usize) -> (k: KeyboardKey)
        requires
            i < KEY_COUNT,
        ensures
            k == KeyboardKey::of_index_spec(i as int),
    {
        match i {
            0 => KeyboardKey::A,
            1 => KeyboardKey::S,
            2 => KeyboardKey::D,
            3 => KeyboardKey::F,
            4 => KeyboardKey::H,
            5 => KeyboardKey::G,
            6 => KeyboardKey::Z,
            7 => KeyboardKey::X,
            8 => KeyboardKey::C,
            9 => KeyboardKey::V,
            10 => KeyboardKey::B,
            11 => KeyboardKey::Q,
            12 => KeyboardKey::W,
            13 => KeyboardKey::E,
            14 => KeyboardKey::R,
            15 => KeyboardKey::Y,
            16 => KeyboardKey::T,
            17 => KeyboardKey::Num1,
            18 => KeyboardKey::Num2,
            19 => KeyboardKey::Num3,
            20 => KeyboardKey::Num4,
            21 => KeyboardKey::Num6,
            22 => KeyboardKey::Num5,
            23 => KeyboardKey::Equal,
            24 => KeyboardKey::Num9,
            25 => KeyboardKey::Num7,
            26 => KeyboardKey::Minus,
            27 => KeyboardKey::Num8,
            28 => KeyboardKey::Num0,
            29 => KeyboardKey::RightBracket,
            30 => KeyboardKey::O,
            31 => KeyboardKey::U,
            32 => KeyboardKey::LeftBracket,
            33 => KeyboardKey::I,
            34 => KeyboardKey::P,
            35 => KeyboardKey::L,
            36 => KeyboardKey::J,
            37 => KeyboardKey::Quote,
            38 => KeyboardKey::K,
            39 => KeyboardKey::Semicolon,
            40 => KeyboardKey::Backslash,
            41 => KeyboardKey::Comma,
            42 => KeyboardKey::Slash,
            43 => KeyboardKey::N,
            44 => KeyboardKey::M,
            45 => KeyboardKey::Period,
            46 => KeyboardKey::Grave,
            47 => KeyboardKey::KeypadDecimal,
            48 => KeyboardKey::KeypadMultiply,
            49 => KeyboardKey::KeypadPlus,
            50 => KeyboardKey::KeypadClear,
            51 => KeyboardKey::KeypadDivide,
            52 => KeyboardKey::KeypadEnter,
            53 => KeyboardKey::KeypadMinus,
            54 => KeyboardKey::KeypadEquals,
            55 => KeyboardKey::Keypad0,
            56 => KeyboardKey::Keypad1,
            57 => KeyboardKey::Keypad2,
            58 => KeyboardKey::Keypad3,
            59 => KeyboardKey::Keypad4,
            60 => KeyboardKey::Keypad5,
            61 => KeyboardKey::Keypad6,
            62 => KeyboardKey::Keypad7,
            63 => KeyboardKey::Keypad8,
            64 => KeyboardKey::Keypad9,
            65 => KeyboardKey::Return,
            66 => KeyboardKey::Tab,
            67 => KeyboardKey::Space,
            68 => KeyboardKey::Delete,
            69 => KeyboardKey::Escape,
            70 => KeyboardKey::Command,
            71 => KeyboardKey::Shift,
            72 => KeyboardKey::CapsLock,
            73 => KeyboardKey::Option,
            74 => KeyboardKey::Control,
            75 => KeyboardKey::RightCommand,
            76 => KeyboardKey::RightShift,
            77 => KeyboardKey::RightOption,
            78 => KeyboardKey::RightControl,
            79 => KeyboardKey::Function,
            80 => KeyboardKey::F17,
            81 => KeyboardKey::VolumeUp,
            82 => KeyboardKey::VolumeDown,
            83 => KeyboardKey::Mute,
            84 => KeyboardKey::F18,
            85 => KeyboardKey::F19,
            86 => KeyboardKey::F20,
            87 => KeyboardKey::F5,
            88 => KeyboardKey::F6,
            89 => KeyboardKey::F7,
            90 => KeyboardKey::F3,
            91 => KeyboardKey::F8,
            92 => KeyboardKey::F9,
            93 => KeyboardKey::F11,
            94 => KeyboardKey::F13,
            95 => KeyboardKey::F16,
            96 => KeyboardKey::F14,
            97 => KeyboardKey::F10,
            98 => KeyboardKey::ContextualMenu,
            99 => KeyboardKey::F12,
            100 => KeyboardKey::F15,
            101 => KeyboardKey::Help,
            102 => KeyboardKey::Home,
            103 => KeyboardKey::PageUp,
            104 => KeyboardKey::ForwardDelete,
            105 => KeyboardKey::F4,
            106 => KeyboardKey::End,
            107 => KeyboardKey::F2,
            108 => KeyboardKey::PageDown,
            109 => KeyboardKey::F1,
            110 => KeyboardKey::LeftArrow,
            111 => KeyboardKey::RightArrow,
            112 => KeyboardKey::DownArrow,
            113 => KeyboardKey::UpArrow,
            114 => KeyboardKey::ISOSection,
            115 => KeyboardKey::JISYen,
            116 => KeyboardKey::JISUnderscore,
            117 => KeyboardKey::JISKeypadComma,
            118 => KeyboardKey::JISEisu,
            119 => KeyboardKey::JISKana,
            120 => KeyboardKey::Pause,
            121 => KeyboardKey::ScrollLock,
            122 => KeyboardKey::PrintScreen,
            123 => KeyboardKey::InternationalBackslash,
            124 => KeyboardKey::F21,
            125 => KeyboardKey::F22,
            126 => KeyboardKey::F23,
            127 => KeyboardKey::F24,
            128 => KeyboardKey::Convert,
            129 => KeyboardKey::NonConvert,
            130 => KeyboardKey::PreviousTrack,
            131 => KeyboardKey::NextTrack,
            132 => KeyboardKey::LaunchApp2,
            133 => KeyboardKey::Play,
            134 => KeyboardKey::Stop,
            135 => KeyboardKey::BrowserHome,
            136 => KeyboardKey::NumLock,
            137 => KeyboardKey::Insert,
            138 => KeyboardKey::ContextMenu,
            139 => KeyboardKey::Power,
            140 => KeyboardKey::Eject,
            141 => KeyboardKey::BrowserSearch,
            142 => KeyboardKey::BrowserFavorites,
            143 => KeyboardKey::BrowserRefresh,
            144 => KeyboardKey::BrowserStop,
            145 => KeyboardKey::BrowserForward,
            146 => KeyboardKey::BrowserBack,
            147 => KeyboardKey::LaunchApp1,
            148 => KeyboardKey::LaunchMail,
            149 => KeyboardKey::MediaSelect,
            150 => KeyboardKey::Again,
            151 => KeyboardKey::Props,
            152 => KeyboardKey::Undo,
            153 => KeyboardKey::Select,
            154 => KeyboardKey::Copy,
            155 => KeyboardKey::Open,
            156 => KeyboardKey::Paste,
            157 => KeyboardKey::Find,
            158 => KeyboardKey::Cut,
            _ => KeyboardKey::WakeUp,
        }
    }

    /// Returns all keys supported by the library, in table order.
    pub fn all_keys() -> (r: Vec<KeyboardKey>)
        ensures
            r@.len() == KEY_COUNT,
            forall|i: int| 0 <= i < KEY_COUNT ==> (#[trigger] r@[i]) == KeyboardKey::of_index_spec(i),
            forall|i: int| 0 <= i < KEY_COUNT ==> (#[trigger] r@[i]).index_spec() == i,
    {
        let mut r: Vec<KeyboardKey> = Vec::new();
        let mut i: usize = 0;
        while i < KEY_COUNT
            invariant
                i <= KEY_COUNT,
                r@.len() == i,
                forall|j: int| 0 <= j < i ==> (#[trigger] r@[j]) == KeyboardKey::of_index_spec(j),
            decreases KEY_COUNT - i,
        {
            r.push(KeyboardKey::of_index(i));
            i = i + 1;
        }
        proof {
            assert forall|i: int| 0 <= i < KEY_COUNT implies (#[trigger] r@[i]).index_spec() == i by {
                KeyboardKey::lemma_index_of_index(i);
            }
        }
        r
    }

    /// Reading a cell back gives the key that owns it.
    pub proof fn lemma_index_of_index(i: int)
        requires
            0 <= i < KEY_COUNT,
        ensures
            KeyboardKey::of_index_spec(i).index_spec() == i,
    {
    }

    /// Round trip: a key is recovered from its own cell index.
    pub proof fn lemma_of_index_of(self)
        ensures
            KeyboardKey::of_index_spec(self.index_spec()) == self,
    {
    }

    /// No two keys share a cell in the state table.
    pub proof fn lemma_index_injective(k1: KeyboardKey, k2: KeyboardKey)
        requires
            k1.index_spec() == k2.index_spec(),
        ensures
            k1 == k2,
    {
        k1.lemma_of_index_of();
        k2.lemma_of_index_of();
    }

    /// Every key's cell lies inside the table.
    pub proof fn lemma_index_bound(self)
        ensures
            0 <= self.index_spec() < KEY_COUNT,
    {
    }
}

} // verus!
