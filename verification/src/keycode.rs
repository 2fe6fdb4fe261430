//! USB HID key codes, what a key can be bound to, and the four-byte key report.

use crate::kbreport::{key_codes, lemma_first_free, modifier_codes, ReportModel, LISTED_MODIFIERS};
use vstd::prelude::*;
use vstd::std_specs::convert::FromSpecImpl;

verus! {

/// Code of the first modifier key.
pub const MODIFIER_FIRST: u8 = 0xE0;

/// Code of the last modifier key.
pub const MODIFIER_LAST: u8 = 0xE7;

/// The key codes of the HID keyboard page that the devices can send, with
/// the media keys that the firmware adds after the modifiers.
#[derive(Copy, Clone, Debug, PartialEq, Eq, Structural, Hash)]
pub enum KeyCode {
    /// The "no" key, a placeholder to express nothing.
    No,
    /// Error if too much keys are pressed at the same time.
    ErrorRollOver,
    /// The POST fail error.
    PostFail,
    /// An undefined error occured.
    ErrorUndefined,
    A,
    B,
    C,
    D,
    E,
    F,
    G,
    H,
    I,
    J,
    K,
    L,
    M,
    N,
    O,
    P,
    Q,
    R,
    S,
    T,
    U,
    V,
    W,
    X,
    Y,
    Z,
    Kb1,
    Kb2,
    Kb3,
    Kb4,
    Kb5,
    Kb6,
    Kb7,
    Kb8,
    Kb9,
    Kb0,
    Enter,
    Escape,
    BSpace,
    Tab,
    Space,
    Minus,
    Equal,
    LBracket,
    RBracket,
    Bslash,
    NonUsHash,
    SColon,
    Quote,
    Grave,
    Comma,
    Dot,
    Slash,
    CapsLock,
    F1,
    F2,
    F3,
    F4,
    F5,
    F6,
    F7,
    F8,
    F9,
    F10,
    F11,
    F12,
    PScreen,
    ScrollLock,
    Pause,
    Insert,
    Home,
    PgUp,
    Delete,
    End,
    PgDown,
    Right,
    Left,
    Down,
    Up,
    NumLock,
    KpSlash,
    KpAsterisk,
    KpMinus,
    KpPlus,
    KpEnter,
    Kp1,
    Kp2,
    Kp3,
    Kp4,
    Kp5,
    Kp6,
    Kp7,
    Kp8,
    Kp9,
    Kp0,
    KpDot,
    NonUsBslash,
    Application,
    Power,
    KpEqual,
    F13,
    F14,
    F15,
    F16,
    F17,
    F18,
    F19,
    F20,
    F21,
    F22,
    F23,
    F24,
    Execute,
    Help,
    Menu,
    Select,
    Stop,
    Again,
    Undo,
    Cut,
    Copy,
    Paste,
    Find,
    Mute,
    VolUp,
    VolDown,
    LockingCapsLock,
    LockingNumLock,
    LockingScrollLock,
    KpComma,
    KpEqualSign,
    Intl1,
    Intl2,
    Intl3,
    Intl4,
    Intl5,
    Intl6,
    Intl7,
    Intl8,
    Intl9,
    Lang1,
    Lang2,
    Lang3,
    Lang4,
    Lang5,
    Lang6,
    Lang7,
    Lang8,
    Lang9,
    AltErase,
    SysReq,
    Cancel,
    Clear,
    Prior,
    Return,
    Separator,
    Out,
    Oper,
    ClearAgain,
    CrSel,
    ExSel,
    /// Left Control.
    LCtrl,
    LShift,
    LAlt,
    LGui,
    RCtrl,
    RShift,
    RAlt,
    /// Right GUI (the Windows key).
    RGui,
    /// The first of the media keys.
    MediaPlayPause,
    MediaStopCD,
    MediaPreviousSong,
    MediaNextSong,
    MediaEjectCD,
    MediaVolUp,
    MediaVolDown,
    MediaMute,
    MediaWWW,
    MediaBack,
    MediaForward,
    MediaStop,
    MediaFind,
    MediaScrollUp,
    MediaScrollDown,
    MediaEdit,
    MediaSleep,
    MediaCoffee,
    MediaRefresh,
    MediaCalc,
}

impl KeyCode {
    /// The byte that stands for the key.
    pub open spec fn code(self) -> u8 {
        match self {
            KeyCode::No => 0,
            KeyCode::ErrorRollOver => 1,
            KeyCode::PostFail => 2,
            KeyCode::ErrorUndefined => 3,
            KeyCode::A => 4,
            KeyCode::B => 5,
            KeyCode::C => 6,
            KeyCode::D => 7,
            KeyCode::E => 8,
            KeyCode::F => 9,
            KeyCode::G => 10,
            KeyCode::H => 11,
            KeyCode::I => 12,
            KeyCode::J => 13,
            KeyCode::K => 14,
            KeyCode::L => 15,
            KeyCode::M => 16,
            KeyCode::N => 17,
            KeyCode::O => 18,
            KeyCode::P => 19,
            KeyCode::Q => 20,
            KeyCode::R => 21,
            KeyCode::S => 22,
            KeyCode::T => 23,
            KeyCode::U => 24,
            KeyCode::V => 25,
            KeyCode::W => 26,
            KeyCode::X => 27,
            KeyCode::Y => 28,
            KeyCode::Z => 29,
            KeyCode::Kb1 => 30,
            KeyCode::Kb2 => 31,
            KeyCode::Kb3 => 32,
            KeyCode::Kb4 => 33,
            KeyCode::Kb5 => 34,
            KeyCode::Kb6 => 35,
            KeyCode::Kb7 => 36,
            KeyCode::Kb8 => 37,
            KeyCode::Kb9 => 38,
            KeyCode::Kb0 => 39,
            KeyCode::Enter => 40,
            KeyCode::Escape => 41,
            KeyCode::BSpace => 42,
            KeyCode::Tab => 43,
            KeyCode::Space => 44,
            KeyCode::Minus => 45,
            KeyCode::Equal => 46,
            KeyCode::LBracket => 47,
            KeyCode::RBracket => 48,
            KeyCode::Bslash => 49,
            KeyCode::NonUsHash => 50,
            KeyCode::SColon => 51,
            KeyCode::Quote => 52,
            KeyCode::Grave => 53,
            KeyCode::Comma => 54,
            KeyCode::Dot => 55,
            KeyCode::Slash => 56,
            KeyCode::CapsLock => 57,
            KeyCode::F1 => 58,
            KeyCode::F2 => 59,
            KeyCode::F3 => 60,
            KeyCode::F4 => 61,
            KeyCode::F5 => 62,
            KeyCode::F6 => 63,
            KeyCode::F7 => 64,
            KeyCode::F8 => 65,
            KeyCode::F9 => 66,
            KeyCode::F10 => 67,
            KeyCode::F11 => 68,
            KeyCode::F12 => 69,
            KeyCode::PScreen => 70,
            KeyCode::ScrollLock => 71,
            KeyCode::Pause => 72,
            KeyCode::Insert => 73,
            KeyCode::Home => 74,
            KeyCode::PgUp => 75,
            KeyCode::Delete => 76,
            KeyCode::End => 77,
            KeyCode::PgDown => 78,
            KeyCode::Right => 79,
            KeyCode::Left => 80,
            KeyCode::Down => 81,
            KeyCode::Up => 82,
            KeyCode::NumLock => 83,
            KeyCode::KpSlash => 84,
            KeyCode::KpAsterisk => 85,
            KeyCode::KpMinus => 86,
            KeyCode::KpPlus => 87,
            KeyCode::KpEnter => 88,
            KeyCode::Kp1 => 89,
            KeyCode::Kp2 => 90,
            KeyCode::Kp3 => 91,
            KeyCode::Kp4 => 92,
            KeyCode::Kp5 => 93,
            KeyCode::Kp6 => 94,
            KeyCode::Kp7 => 95,
            KeyCode::Kp8 => 96,
            KeyCode::Kp9 => 97,
            KeyCode::Kp0 => 98,
            KeyCode::KpDot => 99,
            KeyCode::NonUsBslash => 100,
            KeyCode::Application => 101,
            KeyCode::Power => 102,
            KeyCode::KpEqual => 103,
            KeyCode::F13 => 104,
            KeyCode::F14 => 105,
            KeyCode::F15 => 106,
            KeyCode::F16 => 107,
            KeyCode::F17 => 108,
            KeyCode::F18 => 109,
            KeyCode::F19 => 110,
            KeyCode::F20 => 111,
            KeyCode::F21 => 112,
            KeyCode::F22 => 113,
            KeyCode::F23 => 114,
            KeyCode::F24 => 115,
            KeyCode::Execute => 116,
            KeyCode::Help => 117,
            KeyCode::Menu => 118,
            KeyCode::Select => 119,
            KeyCode::Stop => 120,
            KeyCode::Again => 121,
            KeyCode::Undo => 122,
            KeyCode::Cut => 123,
            KeyCode::Copy => 124,
            KeyCode::Paste => 125,
            KeyCode::Find => 126,
            KeyCode::Mute => 127,
            KeyCode::VolUp => 128,
            KeyCode::VolDown => 129,
            KeyCode::LockingCapsLock => 130,
            KeyCode::LockingNumLock => 131,
            KeyCode::LockingScrollLock => 132,
            KeyCode::KpComma => 133,
            KeyCode::KpEqualSign => 134,
            KeyCode::Intl1 => 135,
            KeyCode::Intl2 => 136,
            KeyCode::Intl3 => 137,
            KeyCode::Intl4 => 138,
            KeyCode::Intl5 => 139,
            KeyCode::Intl6 => 140,
            KeyCode::Intl7 => 141,
            KeyCode::Intl8 => 142,
            KeyCode::Intl9 => 143,
            KeyCode::Lang1 => 144,
            KeyCode::Lang2 => 145,
            KeyCode::Lang3 => 146,
            KeyCode::Lang4 => 147,
            KeyCode::Lang5 => 148,
            KeyCode::Lang6 => 149,
            KeyCode::Lang7 => 150,
            KeyCode::Lang8 => 151,
            KeyCode::Lang9 => 152,
            KeyCode::AltErase => 153,
            KeyCode::SysReq => 154,
            KeyCode::Cancel => 155,
            KeyCode::Clear => 156,
            KeyCode::Prior => 157,
            KeyCode::Return => 158,
            KeyCode::Separator => 159,
            KeyCode::Out => 160,
            KeyCode::Oper => 161,
            KeyCode::ClearAgain => 162,
            KeyCode::CrSel => 163,
            KeyCode::ExSel => 164,
            KeyCode::LCtrl => 224,
            KeyCode::LShift => 225,
            KeyCode::LAlt => 226,
            KeyCode::LGui => 227,
            KeyCode::RCtrl => 228,
            KeyCode::RShift => 229,
            KeyCode::RAlt => 230,
            KeyCode::RGui => 231,
            KeyCode::MediaPlayPause => 232,
            KeyCode::MediaStopCD => 233,
            KeyCode::MediaPreviousSong => 234,
            KeyCode::MediaNextSong => 235,
            KeyCode::MediaEjectCD => 236,
            KeyCode::MediaVolUp => 237,
            KeyCode::MediaVolDown => 238,
            KeyCode::MediaMute => 239,
            KeyCode::MediaWWW => 240,
            KeyCode::MediaBack => 241,
            KeyCode::MediaForward => 242,
            KeyCode::MediaStop => 243,
            KeyCode::MediaFind => 244,
            KeyCode::MediaScrollUp => 245,
            KeyCode::MediaScrollDown => 246,
            KeyCode::MediaEdit => 247,
            KeyCode::MediaSleep => 248,
            KeyCode::MediaCoffee => 249,
            KeyCode::MediaRefresh => 250,
            KeyCode::MediaCalc => 251,
        }
    }

    /// The key that a byte stands for; a byte that stands for none is the "no" key.
    pub open spec fn of_code(code: u8) -> KeyCode {
        if code == 1 {
            KeyCode::ErrorRollOver
        } else if code == 2 {
            KeyCode::PostFail
        } else if code == 3 {
            KeyCode::ErrorUndefined
        } else if code == 4 {
            KeyCode::A
        } else if code == 5 {
            KeyCode::B
        } else if code == 6 {
            KeyCode::C
        } else if code == 7 {
            KeyCode::D
        } else if code == 8 {
            KeyCode::E
        } else if code == 9 {
            KeyCode::F
        } else if code == 10 {
            KeyCode::G
        } else if code == 11 {
            KeyCode::H
        } else if code == 12 {
            KeyCode::I
        } else if code == 13 {
            KeyCode::J
        } else if code == 14 {
            KeyCode::K
        } else if code == 15 {
            KeyCode::L
        } else if code == 16 {
            KeyCode::M
        } else if code == 17 {
            KeyCode::N
        } else if code == 18 {
            KeyCode::O
        } else if code == 19 {
            KeyCode::P
        } else if code == 20 {
            KeyCode::Q
        } else if code == 21 {
            KeyCode::R
        } else if code == 22 {
            KeyCode::S
        } else if code == 23 {
            KeyCode::T
        } else if code == 24 {
            KeyCode::U
        } else if code == 25 {
            KeyCode::V
        } else if code == 26 {
            KeyCode::W
        } else if code == 27 {
            KeyCode::X
        } else if code == 28 {
            KeyCode::Y
        } else if code == 29 {
            KeyCode::Z
        } else if code == 30 {
            KeyCode::Kb1
        } else if code == 31 {
            KeyCode::Kb2
        } else if code == 32 {
            KeyCode::Kb3
        } else if code == 33 {
            KeyCode::Kb4
        } else if code == 34 {
            KeyCode::Kb5
        } else if code == 35 {
            KeyCode::Kb6
        } else if code == 36 {
            KeyCode::Kb7
        } else if code == 37 {
            KeyCode::Kb8
        } else if code == 38 {
            KeyCode::Kb9
        } else if code == 39 {
            KeyCode::Kb0
        } else if code == 40 {
            KeyCode::Enter
        } else if code == 41 {
            KeyCode::Escape
        } else if code == 42 {
            KeyCode::BSpace
        } else if code == 43 {
            KeyCode::Tab
        } else if code == 44 {
            KeyCode::Space
        } else if code == 45 {
            KeyCode::Minus
        } else if code == 46 {
            KeyCode::Equal
        } else if code == 47 {
            KeyCode::LBracket
        } else if code == 48 {
            KeyCode::RBracket
        } else if code == 49 {
            KeyCode::Bslash
        } else if code == 50 {
            KeyCode::NonUsHash
        } else if code == 51 {
            KeyCode::SColon
        } else if code == 52 {
            KeyCode::Quote
        } else if code == 53 {
            KeyCode::Grave
        } else if code == 54 {
            KeyCode::Comma
        } else if code == 55 {
            KeyCode::Dot
        } else if code == 56 {
            KeyCode::Slash
        } else if code == 57 {
            KeyCode::CapsLock
        } else if code == 58 {
            KeyCode::F1
        } else if code == 59 {
            KeyCode::F2
        } else if code == 60 {
            KeyCode::F3
        } else if code == 61 {
            KeyCode::F4
        } else if code == 62 {
            KeyCode::F5
        } else if code == 63 {
            KeyCode::F6
        } else if code == 64 {
            KeyCode::F7
        } else if code == 65 {
            KeyCode::F8
        } else if code == 66 {
            KeyCode::F9
        } else if code == 67 {
            KeyCode::F10
        } else if code == 68 {
            KeyCode::F11
        } else if code == 69 {
            KeyCode::F12
        } else if code == 70 {
            KeyCode::PScreen
        } else if code == 71 {
            KeyCode::ScrollLock
        } else if code == 72 {
            KeyCode::Pause
        } else if code == 73 {
            KeyCode::Insert
        } else if code == 74 {
            KeyCode::Home
        } else if code == 75 {
            KeyCode::PgUp
        } else if code == 76 {
            KeyCode::Delete
        } else if code == 77 {
            KeyCode::End
        } else if code == 78 {
            KeyCode::PgDown
        } else if code == 79 {
            KeyCode::Right
        } else if code == 80 {
            KeyCode::Left
        } else if code == 81 {
            KeyCode::Down
        } else if code == 82 {
            KeyCode::Up
        } else if code == 83 {
            KeyCode::NumLock
        } else if code == 84 {
            KeyCode::KpSlash
        } else if code == 85 {
            KeyCode::KpAsterisk
        } else if code == 86 {
            KeyCode::KpMinus
        } else if code == 87 {
            KeyCode::KpPlus
        } else if code == 88 {
            KeyCode::KpEnter
        } else if code == 89 {
            KeyCode::Kp1
        } else if code == 90 {
            KeyCode::Kp2
        } else if code == 91 {
            KeyCode::Kp3
        } else if code == 92 {
            KeyCode::Kp4
        } else if code == 93 {
            KeyCode::Kp5
        } else if code == 94 {
            KeyCode::Kp6
        } else if code == 95 {
            KeyCode::Kp7
        } else if code == 96 {
            KeyCode::Kp8
        } else if code == 97 {
            KeyCode::Kp9
        } else if code == 98 {
            KeyCode::Kp0
        } else if code == 99 {
            KeyCode::KpDot
        } else if code == 100 {
            KeyCode::NonUsBslash
        } else if code == 101 {
            KeyCode::Application
        } else if code == 102 {
            KeyCode::Power
        } else if code == 103 {
            KeyCode::KpEqual
        } else if code == 104 {
            KeyCode::F13
        } else if code == 105 {
            KeyCode::F14
        } else if code == 106 {
            KeyCode::F15
        } else if code == 107 {
            KeyCode::F16
        } else if code == 108 {
            KeyCode::F17
        } else if code == 109 {
            KeyCode::F18
        } else if code == 110 {
            KeyCode::F19
        } else if code == 111 {
            KeyCode::F20
        } else if code == 112 {
            KeyCode::F21
        } else if code == 113 {
            KeyCode::F22
        } else if code == 114 {
            KeyCode::F23
        } else if code == 115 {
            KeyCode::F24
        } else if code == 116 {
            KeyCode::Execute
        } else if code == 117 {
            KeyCode::Help
        } else if code == 118 {
            KeyCode::Menu
        } else if code == 119 {
            KeyCode::Select
        } else if code == 120 {
            KeyCode::Stop
        } else if code == 121 {
            KeyCode::Again
        } else if code == 122 {
            KeyCode::Undo
        } else if code == 123 {
            KeyCode::Cut
        } else if code == 124 {
            KeyCode::Copy
        } else if code == 125 {
            KeyCode::Paste
        } else if code == 126 {
            KeyCode::Find
        } else if code == 127 {
            KeyCode::Mute
        } else if code == 128 {
            KeyCode::VolUp
        } else if code == 129 {
            KeyCode::VolDown
        } else if code == 130 {
            KeyCode::LockingCapsLock
        } else if code == 131 {
            KeyCode::LockingNumLock
        } else if code == 132 {
            KeyCode::LockingScrollLock
        } else if code == 133 {
            KeyCode::KpComma
        } else if code == 134 {
            KeyCode::KpEqualSign
        } else if code == 135 {
            KeyCode::Intl1
        } else if code == 136 {
            KeyCode::Intl2
        } else if code == 137 {
            KeyCode::Intl3
        } else if code == 138 {
            KeyCode::Intl4
        } else if code == 139 {
            KeyCode::Intl5
        } else if code == 140 {
            KeyCode::Intl6
        } else if code == 141 {
            KeyCode::Intl7
        } else if code == 142 {
            KeyCode::Intl8
        } else if code == 143 {
            KeyCode::Intl9
        } else if code == 144 {
            KeyCode::Lang1
        } else if code == 145 {
            KeyCode::Lang2
        } else if code == 146 {
            KeyCode::Lang3
        } else if code == 147 {
            KeyCode::Lang4
        } else if code == 148 {
            KeyCode::Lang5
        } else if code == 149 {
            KeyCode::Lang6
        } else if code == 150 {
            KeyCode::Lang7
        } else if code == 151 {
            KeyCode::Lang8
        } else if code == 152 {
            KeyCode::Lang9
        } else if code == 153 {
            KeyCode::AltErase
        } else if code == 154 {
            KeyCode::SysReq
        } else if code == 155 {
            KeyCode::Cancel
        } else if code == 156 {
            KeyCode::Clear
        } else if code == 157 {
            KeyCode::Prior
        } else if code == 158 {
            KeyCode::Return
        } else if code == 159 {
            KeyCode::Separator
        } else if code == 160 {
            KeyCode::Out
        } else if code == 161 {
            KeyCode::Oper
        } else if code == 162 {
            KeyCode::ClearAgain
        } else if code == 163 {
            KeyCode::CrSel
        } else if code == 164 {
            KeyCode::ExSel
        } else if code == 224 {
            KeyCode::LCtrl
        } else if code == 225 {
            KeyCode::LShift
        } else if code == 226 {
            KeyCode::LAlt
        } else if code == 227 {
            KeyCode::LGui
        } else if code == 228 {
            KeyCode::RCtrl
        } else if code == 229 {
            KeyCode::RShift
        } else if code == 230 {
            KeyCode::RAlt
        } else if code == 231 {
            KeyCode::RGui
        } else if code == 232 {
            KeyCode::MediaPlayPause
        } else if code == 233 {
            KeyCode::MediaStopCD
        } else if code == 234 {
            KeyCode::MediaPreviousSong
        } else if code == 235 {
            KeyCode::MediaNextSong
        } else if code == 236 {
            KeyCode::MediaEjectCD
        } else if code == 237 {
            KeyCode::MediaVolUp
        } else if code == 238 {
            KeyCode::MediaVolDown
        } else if code == 239 {
            KeyCode::MediaMute
        } else if code == 240 {
            KeyCode::MediaWWW
        } else if code == 241 {
            KeyCode::MediaBack
        } else if code == 242 {
            KeyCode::MediaForward
        } else if code == 243 {
            KeyCode::MediaStop
        } else if code == 244 {
            KeyCode::MediaFind
        } else if code == 245 {
            KeyCode::MediaScrollUp
        } else if code == 246 {
            KeyCode::MediaScrollDown
        } else if code == 247 {
            KeyCode::MediaEdit
        } else if code == 248 {
            KeyCode::MediaSleep
        } else if code == 249 {
            KeyCode::MediaCoffee
        } else if code == 250 {
            KeyCode::MediaRefresh
        } else if code == 251 {
            KeyCode::MediaCalc
        } else {
            KeyCode::No
        }
    }

    pub fn to_u8(self) -> (r: u8)
        ensures
            r == self.code(),
    {
        match self {
            KeyCode::No => 0,
            KeyCode::ErrorRollOver => 1,
            KeyCode::PostFail => 2,
            KeyCode::ErrorUndefined => 3,
            KeyCode::A => 4,
            KeyCode::B => 5,
            KeyCode::C => 6,
            KeyCode::D => 7,
            KeyCode::E => 8,
            KeyCode::F => 9,
            KeyCode::G => 10,
            KeyCode::H => 11,
            KeyCode::I => 12,
            KeyCode::J => 13,
            KeyCode::K => 14,
            KeyCode::L => 15,
            KeyCode::M => 16,
            KeyCode::N => 17,
            KeyCode::O => 18,
            KeyCode::P => 19,
            KeyCode::Q => 20,
            KeyCode::R => 21,
            KeyCode::S => 22,
            KeyCode::T => 23,
            KeyCode::U => 24,
            KeyCode::V => 25,
            KeyCode::W => 26,
            KeyCode::X => 27,
            KeyCode::Y => 28,
            KeyCode::Z => 29,
            KeyCode::Kb1 => 30,
            KeyCode::Kb2 => 31,
            KeyCode::Kb3 => 32,
            KeyCode::Kb4 => 33,
            KeyCode::Kb5 => 34,
            KeyCode::Kb6 => 35,
            KeyCode::Kb7 => 36,
            KeyCode::Kb8 => 37,
            KeyCode::Kb9 => 38,
            KeyCode::Kb0 => 39,
            KeyCode::Enter => 40,
            KeyCode::Escape => 41,
            KeyCode::BSpace => 42,
            KeyCode::Tab => 43,
            KeyCode::Space => 44,
            KeyCode::Minus => 45,
            KeyCode::Equal => 46,
            KeyCode::LBracket => 47,
            KeyCode::RBracket => 48,
            KeyCode::Bslash => 49,
            KeyCode::NonUsHash => 50,
            KeyCode::SColon => 51,
            KeyCode::Quote => 52,
            KeyCode::Grave => 53,
            KeyCode::Comma => 54,
            KeyCode::Dot => 55,
            KeyCode::Slash => 56,
            KeyCode::CapsLock => 57,
            KeyCode::F1 => 58,
            KeyCode::F2 => 59,
            KeyCode::F3 => 60,
            KeyCode::F4 => 61,
            KeyCode::F5 => 62,
            KeyCode::F6 => 63,
            KeyCode::F7 => 64,
            KeyCode::F8 => 65,
            KeyCode::F9 => 66,
            KeyCode::F10 => 67,
            KeyCode::F11 => 68,
            KeyCode::F12 => 69,
            KeyCode::PScreen => 70,
            KeyCode::ScrollLock => 71,
            KeyCode::Pause => 72,
            KeyCode::Insert => 73,
            KeyCode::Home => 74,
            KeyCode::PgUp => 75,
            KeyCode::Delete => 76,
            KeyCode::End => 77,
            KeyCode::PgDown => 78,
            KeyCode::Right => 79,
            KeyCode::Left => 80,
            KeyCode::Down => 81,
            KeyCode::Up => 82,
            KeyCode::NumLock => 83,
            KeyCode::KpSlash => 84,
            KeyCode::KpAsterisk => 85,
            KeyCode::KpMinus => 86,
            KeyCode::KpPlus => 87,
            KeyCode::KpEnter => 88,
            KeyCode::Kp1 => 89,
            KeyCode::Kp2 => 90,
            KeyCode::Kp3 => 91,
            KeyCode::Kp4 => 92,
            KeyCode::Kp5 => 93,
            KeyCode::Kp6 => 94,
            KeyCode::Kp7 => 95,
            KeyCode::Kp8 => 96,
            KeyCode::Kp9 => 97,
            KeyCode::Kp0 => 98,
            KeyCode::KpDot => 99,
            KeyCode::NonUsBslash => 100,
            KeyCode::Application => 101,
            KeyCode::Power => 102,
            KeyCode::KpEqual => 103,
            KeyCode::F13 => 104,
            KeyCode::F14 => 105,
            KeyCode::F15 => 106,
            KeyCode::F16 => 107,
            KeyCode::F17 => 108,
            KeyCode::F18 => 109,
            KeyCode::F19 => 110,
            KeyCode::F20 => 111,
            KeyCode::F21 => 112,
            KeyCode::F22 => 113,
            KeyCode::F23 => 114,
            KeyCode::F24 => 115,
            KeyCode::Execute => 116,
            KeyCode::Help => 117,
            KeyCode::Menu => 118,
            KeyCode::Select => 119,
            KeyCode::Stop => 120,
            KeyCode::Again => 121,
            KeyCode::Undo => 122,
            KeyCode::Cut => 123,
            KeyCode::Copy => 124,
            KeyCode::Paste => 125,
            KeyCode::Find => 126,
            KeyCode::Mute => 127,
            KeyCode::VolUp => 128,
            KeyCode::VolDown => 129,
            KeyCode::LockingCapsLock => 130,
            KeyCode::LockingNumLock => 131,
            KeyCode::LockingScrollLock => 132,
            KeyCode::KpComma => 133,
            KeyCode::KpEqualSign => 134,
            KeyCode::Intl1 => 135,
            KeyCode::Intl2 => 136,
            KeyCode::Intl3 => 137,
            KeyCode::Intl4 => 138,
            KeyCode::Intl5 => 139,
            KeyCode::Intl6 => 140,
            KeyCode::Intl7 => 141,
            KeyCode::Intl8 => 142,
            KeyCode::Intl9 => 143,
            KeyCode::Lang1 => 144,
            KeyCode::Lang2 => 145,
            KeyCode::Lang3 => 146,
            KeyCode::Lang4 => 147,
            KeyCode::Lang5 => 148,
            KeyCode::Lang6 => 149,
            KeyCode::Lang7 => 150,
            KeyCode::Lang8 => 151,
            KeyCode::Lang9 => 152,
            KeyCode::AltErase => 153,
            KeyCode::SysReq => 154,
            KeyCode::Cancel => 155,
            KeyCode::Clear => 156,
            KeyCode::Prior => 157,
            KeyCode::Return => 158,
            KeyCode::Separator => 159,
            KeyCode::Out => 160,
            KeyCode::Oper => 161,
            KeyCode::ClearAgain => 162,
            KeyCode::CrSel => 163,
            KeyCode::ExSel => 164,
            KeyCode::LCtrl => 224,
            KeyCode::LShift => 225,
            KeyCode::LAlt => 226,
            KeyCode::LGui => 227,
            KeyCode::RCtrl => 228,
            KeyCode::RShift => 229,
            KeyCode::RAlt => 230,
            KeyCode::RGui => 231,
            KeyCode::MediaPlayPause => 232,
            KeyCode::MediaStopCD => 233,
            KeyCode::MediaPreviousSong => 234,
            KeyCode::MediaNextSong => 235,
            KeyCode::MediaEjectCD => 236,
            KeyCode::MediaVolUp => 237,
            KeyCode::MediaVolDown => 238,
            KeyCode::MediaMute => 239,
            KeyCode::MediaWWW => 240,
            KeyCode::MediaBack => 241,
            KeyCode::MediaForward => 242,
            KeyCode::MediaStop => 243,
            KeyCode::MediaFind => 244,
            KeyCode::MediaScrollUp => 245,
            KeyCode::MediaScrollDown => 246,
            KeyCode::MediaEdit => 247,
            KeyCode::MediaSleep => 248,
            KeyCode::MediaCoffee => 249,
            KeyCode::MediaRefresh => 250,
            KeyCode::MediaCalc => 251,
        }
    }

    pub fn from_u8(code: u8) -> (r: KeyCode)
        ensures
            r == KeyCode::of_code(code),
    {
        match code {
            1 => KeyCode::ErrorRollOver,
            2 => KeyCode::PostFail,
            3 => KeyCode::ErrorUndefined,
            4 => KeyCode::A,
            5 => KeyCode::B,
            6 => KeyCode::C,
            7 => KeyCode::D,
            8 => KeyCode::E,
            9 => KeyCode::F,
            10 => KeyCode::G,
            11 => KeyCode::H,
            12 => KeyCode::I,
            13 => KeyCode::J,
            14 => KeyCode::K,
            15 => KeyCode::L,
            16 => KeyCode::M,
            17 => KeyCode::N,
            18 => KeyCode::O,
            19 => KeyCode::P,
            20 => KeyCode::Q,
            21 => KeyCode::R,
            22 => KeyCode::S,
            23 => KeyCode::T,
            24 => KeyCode::U,
            25 => KeyCode::V,
            26 => KeyCode::W,
            27 => KeyCode::X,
            28 => KeyCode::Y,
            29 => KeyCode::Z,
            30 => KeyCode::Kb1,
            31 => KeyCode::Kb2,
            32 => KeyCode::Kb3,
            33 => KeyCode::Kb4,
            34 => KeyCode::Kb5,
            35 => KeyCode::Kb6,
            36 => KeyCode::Kb7,
            37 => KeyCode::Kb8,
            38 => KeyCode::Kb9,
            39 => KeyCode::Kb0,
            40 => KeyCode::Enter,
            41 => KeyCode::Escape,
            42 => KeyCode::BSpace,
            43 => KeyCode::Tab,
            44 => KeyCode::Space,
            45 => KeyCode::Minus,
            46 => KeyCode::Equal,
            47 => KeyCode::LBracket,
            48 => KeyCode::RBracket,
            49 => KeyCode::Bslash,
            50 => KeyCode::NonUsHash,
            51 => KeyCode::SColon,
            52 => KeyCode::Quote,
            53 => KeyCode::Grave,
            54 => KeyCode::Comma,
            55 => KeyCode::Dot,
            56 => KeyCode::Slash,
            57 => KeyCode::CapsLock,
            58 => KeyCode::F1,
            59 => KeyCode::F2,
            60 => KeyCode::F3,
            61 => KeyCode::F4,
            62 => KeyCode::F5,
            63 => KeyCode::F6,
            64 => KeyCode::F7,
            65 => KeyCode::F8,
            66 => KeyCode::F9,
            67 => KeyCode::F10,
            68 => KeyCode::F11,
            69 => KeyCode::F12,
            70 => KeyCode::PScreen,
            71 => KeyCode::ScrollLock,
            72 => KeyCode::Pause,
            73 => KeyCode::Insert,
            74 => KeyCode::Home,
            75 => KeyCode::PgUp,
            76 => KeyCode::Delete,
            77 => KeyCode::End,
            78 => KeyCode::PgDown,
            79 => KeyCode::Right,
            80 => KeyCode::Left,
            81 => KeyCode::Down,
            82 => KeyCode::Up,
            83 => KeyCode::NumLock,
            84 => KeyCode::KpSlash,
            85 => KeyCode::KpAsterisk,
            86 => KeyCode::KpMinus,
            87 => KeyCode::KpPlus,
            88 => KeyCode::KpEnter,
            89 => KeyCode::Kp1,
            90 => KeyCode::Kp2,
            91 => KeyCode::Kp3,
            92 => KeyCode::Kp4,
            93 => KeyCode::Kp5,
            94 => KeyCode::Kp6,
            95 => KeyCode::Kp7,
            96 => KeyCode::Kp8,
            97 => KeyCode::Kp9,
            98 => KeyCode::Kp0,
            99 => KeyCode::KpDot,
            100 => KeyCode::NonUsBslash,
            101 => KeyCode::Application,
            102 => KeyCode::Power,
            103 => KeyCode::KpEqual,
            104 => KeyCode::F13,
            105 => KeyCode::F14,
            106 => KeyCode::F15,
            107 => KeyCode::F16,
            108 => KeyCode::F17,
            109 => KeyCode::F18,
            110 => KeyCode::F19,
            111 => KeyCode::F20,
            112 => KeyCode::F21,
            113 => KeyCode::F22,
            114 => KeyCode::F23,
            115 => KeyCode::F24,
            116 => KeyCode::Execute,
            117 => KeyCode::Help,
            118 => KeyCode::Menu,
            119 => KeyCode::Select,
            120 => KeyCode::Stop,
            121 => KeyCode::Again,
            122 => KeyCode::Undo,
            123 => KeyCode::Cut,
            124 => KeyCode::Copy,
            125 => KeyCode::Paste,
            126 => KeyCode::Find,
            127 => KeyCode::Mute,
            128 => KeyCode::VolUp,
            129 => KeyCode::VolDown,
            130 => KeyCode::LockingCapsLock,
            131 => KeyCode::LockingNumLock,
            132 => KeyCode::LockingScrollLock,
            133 => KeyCode::KpComma,
            134 => KeyCode::KpEqualSign,
            135 => KeyCode::Intl1,
            136 => KeyCode::Intl2,
            137 => KeyCode::Intl3,
            138 => KeyCode::Intl4,
            139 => KeyCode::Intl5,
            140 => KeyCode::Intl6,
            141 => KeyCode::Intl7,
            142 => KeyCode::Intl8,
            143 => KeyCode::Intl9,
            144 => KeyCode::Lang1,
            145 => KeyCode::Lang2,
            146 => KeyCode::Lang3,
            147 => KeyCode::Lang4,
            148 => KeyCode::Lang5,
            149 => KeyCode::Lang6,
            150 => KeyCode::Lang7,
            151 => KeyCode::Lang8,
            152 => KeyCode::Lang9,
            153 => KeyCode::AltErase,
            154 => KeyCode::SysReq,
            155 => KeyCode::Cancel,
            156 => KeyCode::Clear,
            157 => KeyCode::Prior,
            158 => KeyCode::Return,
            159 => KeyCode::Separator,
            160 => KeyCode::Out,
            161 => KeyCode::Oper,
            162 => KeyCode::ClearAgain,
            163 => KeyCode::CrSel,
            164 => KeyCode::ExSel,
            224 => KeyCode::LCtrl,
            225 => KeyCode::LShift,
            226 => KeyCode::LAlt,
            227 => KeyCode::LGui,
            228 => KeyCode::RCtrl,
            229 => KeyCode::RShift,
            230 => KeyCode::RAlt,
            231 => KeyCode::RGui,
            232 => KeyCode::MediaPlayPause,
            233 => KeyCode::MediaStopCD,
            234 => KeyCode::MediaPreviousSong,
            235 => KeyCode::MediaNextSong,
            236 => KeyCode::MediaEjectCD,
            237 => KeyCode::MediaVolUp,
            238 => KeyCode::MediaVolDown,
            239 => KeyCode::MediaMute,
            240 => KeyCode::MediaWWW,
            241 => KeyCode::MediaBack,
            242 => KeyCode::MediaForward,
            243 => KeyCode::MediaStop,
            244 => KeyCode::MediaFind,
            245 => KeyCode::MediaScrollUp,
            246 => KeyCode::MediaScrollDown,
            247 => KeyCode::MediaEdit,
            248 => KeyCode::MediaSleep,
            249 => KeyCode::MediaCoffee,
            250 => KeyCode::MediaRefresh,
            251 => KeyCode::MediaCalc,
            _ => KeyCode::No,
        }
    }

    /// Whether the key is a modifier, which a report sends as a bit.
    pub open spec fn modifier(self) -> bool {
        MODIFIER_FIRST <= self.code() <= MODIFIER_LAST
    }

    /// Returns `true` if the key code corresponds to a modifier (sent
    /// separately on the USB HID report).
    pub fn is_modifier(self) -> (b: bool)
        ensures
            b == self.modifier(),
    {
        let code = self.to_u8();
        MODIFIER_FIRST <= code && code <= MODIFIER_LAST
    }

    /// The bit of a modifier in the modifier byte; zero for any other key.
    pub open spec fn modifier_bit(self) -> u8 {
        if self.modifier() {
            1u8 << ((self.code() - MODIFIER_FIRST) as u8)
        } else {
            0
        }
    }

    /// Returns the byte with the bit corresponding to the USB HID
    /// modifier bitfield set.
    pub fn as_modifier_bit(self) -> (r: u8)
        ensures
            r == self.modifier_bit(),
    {
        if self.is_modifier() {
            let shift: u8 = self.to_u8() - MODIFIER_FIRST;
            assert(1u8 << shift < 256) by (bit_vector)
                requires
                    shift < 8,
            ;
            1u8 << shift
        } else {
            0
        }
    }
}

/// Every key is found again from its byte, and a byte gives a key with
/// that byte or the "no" key.
pub proof fn lemma_key_code_round_trip(key: KeyCode, code: u8)
    ensures
        KeyCode::of_code(key.code()) == key,
        KeyCode::of_code(code).code() == code || KeyCode::of_code(code) == KeyCode::No,
{
}

impl Default for KeyCode {
    fn default() -> (r: KeyCode)
        ensures
            r == KeyCode::No,
    {
        KeyCode::No
    }
}

impl From<u8> for KeyCode {
    fn from(value: u8) -> (r: KeyCode) {
        KeyCode::from_u8(value)
    }
}

impl FromSpecImpl<u8> for KeyCode {
    open spec fn obeys_from_spec() -> bool {
        true
    }

    open spec fn from_spec(value: u8) -> KeyCode {
        KeyCode::of_code(value)
    }
}

/// What a key of the keyboard does when pressed.
#[derive(Copy, Clone, Debug, PartialEq, Eq, Structural)]
pub enum KeyValue {
    /// The key does nothing.
    Nothing,
    Keyboard(KeyCode),
    Custom(u8),
    Mouse(u8),
    Media(u8),
}

impl Default for KeyValue {
    fn default() -> (r: KeyValue)
        ensures
            r == KeyValue::Nothing,
    {
        KeyValue::Nothing
    }
}

/// Keys that a short report holds beside the modifiers.
pub const SHORT_REPORT_KEYS: usize = 3;

/// The short key report: three key slots, zero where free, and then the modifier byte.
#[derive(Debug, Clone, Copy, PartialEq, Eq)]
pub struct KbReport([u8; 4]);

impl View for KbReport {
    type V = ReportModel;

    closed spec fn view(&self) -> ReportModel {
        ReportModel { modifiers: self.0@[3], keys: self.0@.subrange(0, 3) }
    }
}

impl Default for KbReport {
    fn default() -> (r: KbReport)
        ensures
            r@ == (ReportModel { modifiers: 0, keys: Seq::new(3, |i: int| 0u8) }),
    {
        let r = KbReport([0u8;4]);
        assert(r.0@.subrange(0, 3) =~= Seq::new(3, |i: int| 0u8));
        r
    }
}

impl KbReport {
    /// The bytes of the report: the three keys, then the modifiers.
    pub closed spec fn bytes(&self) -> Seq<u8> {
        self.0@
    }

    /// The report with these bytes.
    pub fn from(value: [u8; 4]) -> (r: KbReport)
        ensures
            r.bytes() == value@,
            r@ == (ReportModel { modifiers: value@[3], keys: value@.subrange(0, 3) }),
    {
        KbReport(value)
    }

    /// The bytes of the report.
    pub fn into(self) -> (r: [u8; 4])
        ensures
            r@ == self.bytes(),
    {
        self.0
    }

    /// Returns the byte slice corresponding to the report.
    pub fn as_bytes(&self) -> (r: &[u8])
        ensures
            r@ == self.bytes(),
    {
        self.0.as_slice()
    }

    /// Add the given key code to the report. A key that finds no free slot is dropped.
    pub fn pressed(&mut self, kc: KeyCode)
        ensures
            final(self)@ == old(self)@.pressed(kc),
    {
        let code = kc.to_u8();
        if code <= 3 {
        } else if kc.is_modifier() {
            let ghost keys = self.0@.subrange(0, 3);
            self.0[3] = self.0[3] | kc.as_modifier_bit();
            assert(self.0@.subrange(0, 3) =~= keys);
        } else {
            let ghost keys = self.0@.subrange(0, 3);
            let mut held = false;
            let mut free: usize = SHORT_REPORT_KEYS;
            let mut i: usize = 0;
            while i < SHORT_REPORT_KEYS
                invariant
                    i <= SHORT_REPORT_KEYS,
                    self.0@ == old(self).0@,
                    keys == self.0@.subrange(0, 3),
                    held <==> exists|j: int| 0 <= j < i && keys[j] == code,
                    free <= SHORT_REPORT_KEYS,
                    free < SHORT_REPORT_KEYS ==> free < i && keys[free as int] == 0,
                    free == SHORT_REPORT_KEYS ==> forall|j: int| 0 <= j < i ==> keys[j] != 0,
                    forall|j: int| 0 <= j < free && j < i ==> keys[j] != 0,
                decreases SHORT_REPORT_KEYS - i,
            {
                assert(keys[i as int] == self.0@[i as int]);
                if self.0[i] == code {
                    held = true;
                }
                if free == SHORT_REPORT_KEYS && self.0[i] == 0 {
                    free = i;
                }
                i += 1;
            }
            proof {
                lemma_first_free(keys, free as int);
                if held {
                    let j = choose|j: int| 0 <= j < SHORT_REPORT_KEYS && keys[j] == code;
                    assert(keys.contains(code));
                }
            }
            if !held && free < SHORT_REPORT_KEYS {
                self.0[free] = code;
                assert(self.0@.subrange(0, 3) =~= keys.update(free as int, code));
            }
        }
    }

    /// The listed modifiers whose bit is set, in the order of their codes.
    pub fn get_modifier_codes(&self) -> (r: Vec<KeyCode>)
        ensures
            r@ == modifier_codes(self@.modifiers, LISTED_MODIFIERS as int),
    {
        let bits = self.0[3];
        let mut out: Vec<KeyCode> = Vec::new();
        let mut k: u8 = 0;
        while k < LISTED_MODIFIERS
            invariant
                k <= LISTED_MODIFIERS,
                out@ == modifier_codes(bits, k as int),
            decreases LISTED_MODIFIERS - k,
        {
            assert(1u8 << k < 256) by (bit_vector)
                requires
                    k < 8,
            ;
            if bits & (1u8 << k) != 0 {
                out.push(KeyCode::from_u8(MODIFIER_FIRST + k));
            }
            k += 1;
        }
        out
    }

    /// The keys of the report: the listed modifiers, then the keys held.
    pub fn codes(&self) -> (r: Vec<KeyCode>)
        ensures
            r@ == self@.codes(),
    {
        let mut out = self.get_modifier_codes();
        let ghost modifiers = out@;
        let ghost keys = self.0@.subrange(0, 3);
        let mut i: usize = 0;
        while i < SHORT_REPORT_KEYS
            invariant
                i <= SHORT_REPORT_KEYS,
                keys == self.0@.subrange(0, 3),
                out@ == modifiers + key_codes(keys, i as int),
            decreases SHORT_REPORT_KEYS - i,
        {
            assert(keys[i as int] == self.0@[i as int]);
            let key = KeyCode::from_u8(self.0[i]);
            if key != KeyCode::No {
                out.push(key);
            }
            assert(out@ =~= modifiers + key_codes(keys, i + 1));
            i += 1;
        }
        out
    }
}

} // verus!
