use vstd::prelude::*;
use vstd::string::StringExecFns;

use crate::digits::{decimal, push_decimal};
use crate::text::string_from_chars;

verus! {

pub const TAB: &'static str = "\u{f811}";
pub const ENTER: &'static str = "\u{23ce}";
pub const SHIFT: &'static str = "\u{fb35}";
pub const LEFT_ARROW: &'static str = "\u{fc2f}";
pub const RIGHT_ARROW: &'static str = "\u{fc32}";
pub const UP_ARROW: &'static str = "\u{fc35}";
pub const DOWN_ARROW: &'static str = "\u{fc2c}";
pub const CONTROL: &'static str = "\u{fb33}";
pub const DELETE: &'static str = "\u{fae7}";
pub const HOME: &'static str = "\u{f7db}";

/// The token shown for the backspace key, in both alphabets.
pub const BACK_SPACE: &'static str = "\u{232b}";

/// A key as the process-wide keyboard hook reports it.
#[derive(Clone, Copy, Debug, PartialEq, Eq, Structural, Hash)]
pub enum HookKey {
    Alt,
    AltGr,
    Backspace,
    CapsLock,
    ControlLeft,
    ControlRight,
    Delete,
    End,
    Escape,
    F1,
    F2,
    F3,
    F4,
    F5,
    F6,
    F7,
    F8,
    F9,
    F10,
    F11,
    F12,
    Home,
    LeftArrow,
    RightArrow,
    UpArrow,
    DownArrow,
    MetaLeft,
    MetaRight,
    PageDown,
    PageUp,
    Return,
    ShiftLeft,
    ShiftRight,
    Space,
    Tab,
    PrintScreen,
    ScrollLock,
    Pause,
    NumLock,
    BackQuote,
    Num1,
    Num2,
    Num3,
    Num4,
    Num5,
    Num6,
    Num7,
    Num8,
    Num9,
    Num0,
    Minus,
    Equal,
    KeyQ,
    KeyW,
    KeyE,
    KeyR,
    KeyT,
    KeyY,
    KeyU,
    KeyI,
    KeyO,
    KeyP,
    LeftBracket,
    RightBracket,
    KeyA,
    KeyS,
    KeyD,
    KeyF,
    KeyG,
    KeyH,
    KeyJ,
    KeyK,
    KeyL,
    SemiColon,
    Quote,
    BackSlash,
    IntlBackslash,
    KeyZ,
    KeyX,
    KeyC,
    KeyV,
    KeyB,
    KeyN,
    KeyM,
    Comma,
    Dot,
    Slash,
    Insert,
    KpReturn,
    KpMinus,
    KpPlus,
    KpMultiply,
    KpDivide,
    Kp0,
    Kp1,
    Kp2,
    Kp3,
    Kp4,
    Kp5,
    Kp6,
    Kp7,
    Kp8,
    Kp9,
    KpDelete,
    Function,
    /// A key the hook has no name for, by its raw code.
    Unknown(u32),
}

/// A key as the window toolkit reports it for the focused window.
#[derive(Clone, Copy, Debug, PartialEq, Eq, Structural, Hash)]
pub enum ToolkitKey {
    Key1,
    Key2,
    Key3,
    Key4,
    Key5,
    Key6,
    Key7,
    Key8,
    Key9,
    Key0,
    A,
    B,
    C,
    D,
    E,
    F,
    G,
    H,
    I,
    J,
    K,
    L,
    M,
    N,
    O,
    P,
    Q,
    R,
    S,
    T,
    U,
    V,
    W,
    X,
    Y,
    Z,
    Escape,
    F1,
    F2,
    F3,
    F4,
    F5,
    F6,
    F7,
    F8,
    F9,
    F10,
    F11,
    F12,
    F13,
    F14,
    F15,
    F16,
    F17,
    F18,
    F19,
    F20,
    F21,
    F22,
    F23,
    F24,
    Snapshot,
    Scroll,
    Pause,
    Insert,
    Home,
    Delete,
    End,
    PageDown,
    PageUp,
    Left,
    Up,
    Right,
    Down,
    Backspace,
    Enter,
    Space,
    Compose,
    Caret,
    Numlock,
    Numpad0,
    Numpad1,
    Numpad2,
    Numpad3,
    Numpad4,
    Numpad5,
    Numpad6,
    Numpad7,
    Numpad8,
    Numpad9,
    NumpadAdd,
    NumpadDivide,
    NumpadDecimal,
    NumpadComma,
    NumpadEnter,
    NumpadEquals,
    NumpadMultiply,
    NumpadSubtract,
    AbntC1,
    AbntC2,
    Apostrophe,
    Apps,
    Asterisk,
    At,
    Ax,
    Backslash,
    Calculator,
    Capital,
    Colon,
    Comma,
    Convert,
    Equals,
    Grave,
    Kana,
    Kanji,
    LAlt,
    LBracket,
    LControl,
    LShift,
    LWin,
    Mail,
    MediaSelect,
    MediaStop,
    Minus,
    Mute,
    MyComputer,
    NavigateForward,
    NavigateBackward,
    NextTrack,
    NoConvert,
    OEM102,
    Period,
    PlayPause,
    Plus,
    Power,
    PrevTrack,
    RAlt,
    RBracket,
    RControl,
    RShift,
    RWin,
    Semicolon,
    Slash,
    Sleep,
    Stop,
    Sysrq,
    Tab,
    Underline,
    Unlabeled,
    VolumeDown,
    VolumeUp,
    Wake,
    WebBack,
    WebFavorites,
    WebForward,
    WebHome,
    WebRefresh,
    WebSearch,
    WebStop,
    Yen,
    Copy,
    Paste,
    Cut,
}

/// The token of a hook key: a fixed glyph or name per key, and the decimal
/// code for a key the hook does not name.
pub open spec fn rdev_token(key: HookKey) -> Seq<char> {
    match key {
        HookKey::Alt => "Alt"@,
        HookKey::AltGr => "Alt"@,
        HookKey::Backspace => "\u{232b}"@,
        HookKey::CapsLock => "Caps"@,
        HookKey::ControlLeft => CONTROL@,
        HookKey::ControlRight => CONTROL@,
        HookKey::Delete => DELETE@,
        HookKey::End => "End"@,
        HookKey::Escape => "esc"@,
        HookKey::F1 => "F1"@,
        HookKey::F2 => "F2"@,
        HookKey::F3 => "F3"@,
        HookKey::F4 => "F4"@,
        HookKey::F5 => "F5"@,
        HookKey::F6 => "F6"@,
        HookKey::F7 => "F7"@,
        HookKey::F8 => "F8"@,
        HookKey::F9 => "F9"@,
        HookKey::F10 => "F10"@,
        HookKey::F11 => "F11"@,
        HookKey::F12 => "F12"@,
        HookKey::Home => HOME@,
        HookKey::LeftArrow => LEFT_ARROW@,
        HookKey::RightArrow => RIGHT_ARROW@,
        HookKey::UpArrow => UP_ARROW@,
        HookKey::DownArrow => DOWN_ARROW@,
        HookKey::MetaLeft => "Win"@,
        HookKey::MetaRight => "Win"@,
        HookKey::PageDown => "PageDown"@,
        HookKey::PageUp => "PageUp"@,
        HookKey::Return => ENTER@,
        HookKey::ShiftLeft => SHIFT@,
        HookKey::ShiftRight => SHIFT@,
        HookKey::Space => "_"@,
        HookKey::Tab => TAB@,
        HookKey::PrintScreen => "PrtSc"@,
        HookKey::ScrollLock => "ScrLk"@,
        HookKey::Pause => "Pause"@,
        HookKey::NumLock => "NumLock"@,
        HookKey::BackQuote => "`"@,
        HookKey::Num1 => "1"@,
        HookKey::Num2 => "2"@,
        HookKey::Num3 => "3"@,
        HookKey::Num4 => "4"@,
        HookKey::Num5 => "5"@,
        HookKey::Num6 => "6"@,
        HookKey::Num7 => "7"@,
        HookKey::Num8 => "8"@,
        HookKey::Num9 => "9"@,
        HookKey::Num0 => "0"@,
        HookKey::Minus => "-"@,
        HookKey::Equal => "="@,
        HookKey::KeyQ => "Q"@,
        HookKey::KeyW => "W"@,
        HookKey::KeyE => "E"@,
        HookKey::KeyR => "R"@,
        HookKey::KeyT => "T"@,
        HookKey::KeyY => "Y"@,
        HookKey::KeyU => "U"@,
        HookKey::KeyI => "I"@,
        HookKey::KeyO => "O"@,
        HookKey::KeyP => "P"@,
        HookKey::LeftBracket => "["@,
        HookKey::RightBracket => "]"@,
        HookKey::KeyA => "A"@,
        HookKey::KeyS => "S"@,
        HookKey::KeyD => "D"@,
        HookKey::KeyF => "F"@,
        HookKey::KeyG => "G"@,
        HookKey::KeyH => "H"@,
        HookKey::KeyJ => "J"@,
        HookKey::KeyK => "K"@,
        HookKey::KeyL => "L"@,
        HookKey::SemiColon => ";"@,
        HookKey::Quote => "'"@,
        HookKey::BackSlash => "\\"@,
        HookKey::IntlBackslash => "|"@,
        HookKey::KeyZ => "Z"@,
        HookKey::KeyX => "X"@,
        HookKey::KeyC => "C"@,
        HookKey::KeyV => "V"@,
        HookKey::KeyB => "B"@,
        HookKey::KeyN => "N"@,
        HookKey::KeyM => "M"@,
        HookKey::Comma => ","@,
        HookKey::Dot => "."@,
        HookKey::Slash => "/"@,
        HookKey::Insert => "Ins"@,
        HookKey::KpReturn => "\u{23ce}"@,
        HookKey::KpMinus => "-"@,
        HookKey::KpPlus => "+"@,
        HookKey::KpMultiply => "*"@,
        HookKey::KpDivide => "/"@,
        HookKey::Kp0 => "0"@,
        HookKey::Kp1 => "1"@,
        HookKey::Kp2 => "2"@,
        HookKey::Kp3 => "3"@,
        HookKey::Kp4 => "4"@,
        HookKey::Kp5 => "5"@,
        HookKey::Kp6 => "6"@,
        HookKey::Kp7 => "7"@,
        HookKey::Kp8 => "8"@,
        HookKey::Kp9 => "9"@,
        HookKey::KpDelete => DELETE@,
        HookKey::Function => "Function"@,
        HookKey::Unknown(code) => decimal(code as nat),
    }
}

/// The token of a toolkit key: a fixed glyph or name per listed key, `?` for
/// the others.
pub open spec fn iced_token(key: ToolkitKey) -> Seq<char> {
    match key {
        ToolkitKey::Key1 => "1"@,
        ToolkitKey::Key2 => "2"@,
        ToolkitKey::Key3 => "3"@,
        ToolkitKey::Key4 => "4"@,
        ToolkitKey::Key5 => "5"@,
        ToolkitKey::Key6 => "6"@,
        ToolkitKey::Key7 => "7"@,
        ToolkitKey::Key8 => "8"@,
        ToolkitKey::Key9 => "9"@,
        ToolkitKey::Key0 => "0"@,
        ToolkitKey::A => "A"@,
        ToolkitKey::B => "B"@,
        ToolkitKey::C => "C"@,
        ToolkitKey::D => "D"@,
        ToolkitKey::E => "E"@,
        ToolkitKey::F => "F"@,
        ToolkitKey::G => "G"@,
        ToolkitKey::H => "H"@,
        ToolkitKey::I => "I"@,
        ToolkitKey::J => "J"@,
        ToolkitKey::K => "K"@,
        ToolkitKey::L => "L"@,
        ToolkitKey::M => "M"@,
        ToolkitKey::N => "N"@,
        ToolkitKey::O => "O"@,
        ToolkitKey::P => "P"@,
        ToolkitKey::Q => "Q"@,
        ToolkitKey::R => "R"@,
        ToolkitKey::S => "S"@,
        ToolkitKey::T => "T"@,
        ToolkitKey::U => "U"@,
        ToolkitKey::V => "V"@,
        ToolkitKey::W => "W"@,
        ToolkitKey::X => "X"@,
        ToolkitKey::Y => "Y"@,
        ToolkitKey::Z => "Z"@,
        ToolkitKey::Apostrophe => "'"@,
        ToolkitKey::Backslash => "\\"@,
        ToolkitKey::Colon => ":"@,
        ToolkitKey::Comma => ","@,
        ToolkitKey::Equals => "="@,
        ToolkitKey::LBracket => "["@,
        ToolkitKey::Minus => "-"@,
        ToolkitKey::Period => "."@,
        ToolkitKey::Plus => "+"@,
        ToolkitKey::RBracket => "]"@,
        ToolkitKey::Semicolon => ";"@,
        ToolkitKey::Slash => "/"@,
        ToolkitKey::Escape => "esc"@,
        ToolkitKey::F1 => "F1"@,
        ToolkitKey::F2 => "F2"@,
        ToolkitKey::F3 => "F3"@,
        ToolkitKey::F4 => "F4"@,
        ToolkitKey::F5 => "F5"@,
        ToolkitKey::F6 => "F6"@,
        ToolkitKey::F7 => "F7"@,
        ToolkitKey::F8 => "F8"@,
        ToolkitKey::F9 => "F9"@,
        ToolkitKey::F10 => "F10"@,
        ToolkitKey::F11 => "F11"@,
        ToolkitKey::F12 => "F12"@,
        ToolkitKey::F13 => "F13"@,
        ToolkitKey::F14 => "F14"@,
        ToolkitKey::F15 => "F15"@,
        ToolkitKey::F16 => "F16"@,
        ToolkitKey::F17 => "F17"@,
        ToolkitKey::F18 => "F18"@,
        ToolkitKey::F19 => "F19"@,
        ToolkitKey::F20 => "F20"@,
        ToolkitKey::F21 => "F21"@,
        ToolkitKey::F22 => "F22"@,
        ToolkitKey::F23 => "F23"@,
        ToolkitKey::F24 => "F24"@,
        ToolkitKey::Snapshot => "Snapshot"@,
        ToolkitKey::Scroll => "Scroll"@,
        ToolkitKey::Pause => "Pause"@,
        ToolkitKey::Insert => "Insert"@,
        ToolkitKey::Home => HOME@,
        ToolkitKey::Delete => DELETE@,
        ToolkitKey::End => "End"@,
        ToolkitKey::PageDown => "PageDown"@,
        ToolkitKey::PageUp => "PageUp"@,
        ToolkitKey::Left => LEFT_ARROW@,
        ToolkitKey::Up => UP_ARROW@,
        ToolkitKey::Right => RIGHT_ARROW@,
        ToolkitKey::Down => DOWN_ARROW@,
        ToolkitKey::Backspace => "\u{232b}"@,
        ToolkitKey::Enter => ENTER@,
        ToolkitKey::Space => "_"@,
        ToolkitKey::Compose => "Compose"@,
        ToolkitKey::Caret => "Caret"@,
        ToolkitKey::Numlock => "Numlock"@,
        ToolkitKey::Numpad0 => "0"@,
        ToolkitKey::Numpad1 => "1"@,
        ToolkitKey::Numpad2 => "2"@,
        ToolkitKey::Numpad3 => "3"@,
        ToolkitKey::Numpad4 => "4"@,
        ToolkitKey::Numpad5 => "5"@,
        ToolkitKey::Numpad6 => "6"@,
        ToolkitKey::Numpad7 => "7"@,
        ToolkitKey::Numpad8 => "8"@,
        ToolkitKey::Numpad9 => "9"@,
        ToolkitKey::NumpadAdd => "+"@,
        ToolkitKey::NumpadDivide => "/"@,
        ToolkitKey::NumpadDecimal => "."@,
        ToolkitKey::NumpadComma => ","@,
        ToolkitKey::NumpadEnter => ENTER@,
        ToolkitKey::NumpadEquals => "="@,
        ToolkitKey::NumpadMultiply => "*"@,
        ToolkitKey::NumpadSubtract => "-"@,
        ToolkitKey::Asterisk => "*"@,
        ToolkitKey::At => "@"@,
        ToolkitKey::Capital => "Caps"@,
        ToolkitKey::Convert => "Convert"@,
        ToolkitKey::Grave => "`"@,
        ToolkitKey::Kana => "Kana"@,
        ToolkitKey::Kanji => "Kanji"@,
        ToolkitKey::LAlt => "Alt"@,
        ToolkitKey::LControl => CONTROL@,
        ToolkitKey::LShift => SHIFT@,
        ToolkitKey::LWin => "Win"@,
        ToolkitKey::OEM102 => "OEM102"@,
        ToolkitKey::RAlt => "Alt"@,
        ToolkitKey::RControl => CONTROL@,
        ToolkitKey::RShift => SHIFT@,
        ToolkitKey::RWin => "Win"@,
        ToolkitKey::Sysrq => "Sysrq"@,
        ToolkitKey::Tab => TAB@,
        ToolkitKey::Underline => "Underline"@,
        ToolkitKey::Unlabeled => "Unlabeled"@,
        ToolkitKey::VolumeDown => "VolumeDown"@,
        ToolkitKey::VolumeUp => "VolumeUp"@,
        ToolkitKey::Wake => "Wake"@,
        ToolkitKey::WebBack => "WebBack"@,
        ToolkitKey::WebFavorites => "WebFav"@,
        ToolkitKey::WebForward => "WebForward"@,
        ToolkitKey::WebHome => "WebHome"@,
        ToolkitKey::WebRefresh => "WebRefresh"@,
        ToolkitKey::WebSearch => "WebSearch"@,
        ToolkitKey::WebStop => "WebStop"@,
        ToolkitKey::Yen => "Yen"@,
        ToolkitKey::Copy => "Copy"@,
        ToolkitKey::Paste => "Paste"@,
        ToolkitKey::Cut => "Cut"@,
        _ => "?"@,
    }
}

/// The token of a key the hook has no name for: its code in decimal.
pub fn unknown_to_key(unknown: &u32) -> (r: String)
    ensures
        r@ == decimal(*unknown as nat),
{
    let mut digits: Vec<char> = Vec::new();
    push_decimal(*unknown, &mut digits);
    string_from_chars(&digits)
}

/// Maps a hook key to its display token.
pub fn rdev_to_key(key_code: &HookKey) -> (r: String)
    ensures
        r@ == rdev_token(*key_code),
{
    match key_code {
        HookKey::Alt => String::from_str("Alt"),
        HookKey::AltGr => String::from_str("Alt"),
        HookKey::Backspace => String::from_str("\u{232b}"),
        HookKey::CapsLock => String::from_str("Caps"),
        HookKey::ControlLeft => String::from_str(CONTROL),
        HookKey::ControlRight => String::from_str(CONTROL),
        HookKey::Delete => String::from_str(DELETE),
        HookKey::End => String::from_str("End"),
        HookKey::Escape => String::from_str("esc"),
        HookKey::F1 => String::from_str("F1"),
        HookKey::F2 => String::from_str("F2"),
        HookKey::F3 => String::from_str("F3"),
        HookKey::F4 => String::from_str("F4"),
        HookKey::F5 => String::from_str("F5"),
        HookKey::F6 => String::from_str("F6"),
        HookKey::F7 => String::from_str("F7"),
        HookKey::F8 => String::from_str("F8"),
        HookKey::F9 => String::from_str("F9"),
        HookKey::F10 => String::from_str("F10"),
        HookKey::F11 => String::from_str("F11"),
        HookKey::F12 => String::from_str("F12"),
        HookKey::Home => String::from_str(HOME),
        HookKey::LeftArrow => String::from_str(LEFT_ARROW),
        HookKey::RightArrow => String::from_str(RIGHT_ARROW),
        HookKey::UpArrow => String::from_str(UP_ARROW),
        HookKey::DownArrow => String::from_str(DOWN_ARROW),
        HookKey::MetaLeft => String::from_str("Win"),
        HookKey::MetaRight => String::from_str("Win"),
        HookKey::PageDown => String::from_str("PageDown"),
        HookKey::PageUp => String::from_str("PageUp"),
        HookKey::Return => String::from_str(ENTER),
        HookKey::ShiftLeft => String::from_str(SHIFT),
        HookKey::ShiftRight => String::from_str(SHIFT),
        HookKey::Space => String::from_str("_"),
        HookKey::Tab => String::from_str(TAB),
        HookKey::PrintScreen => String::from_str("PrtSc"),
        HookKey::ScrollLock => String::from_str("ScrLk"),
        HookKey::Pause => String::from_str("Pause"),
        HookKey::NumLock => String::from_str("NumLock"),
        HookKey::BackQuote => String::from_str("`"),
        HookKey::Num1 => String::from_str("1"),
        HookKey::Num2 => String::from_str("2"),
        HookKey::Num3 => String::from_str("3"),
        HookKey::Num4 => String::from_str("4"),
        HookKey::Num5 => String::from_str("5"),
        HookKey::Num6 => String::from_str("6"),
        HookKey::Num7 => String::from_str("7"),
        HookKey::Num8 => String::from_str("8"),
        HookKey::Num9 => String::from_str("9"),
        HookKey::Num0 => String::from_str("0"),
        HookKey::Minus => String::from_str("-"),
        HookKey::Equal => String::from_str("="),
        HookKey::KeyQ => String::from_str("Q"),
        HookKey::KeyW => String::from_str("W"),
        HookKey::KeyE => String::from_str("E"),
        HookKey::KeyR => String::from_str("R"),
        HookKey::KeyT => String::from_str("T"),
        HookKey::KeyY => String::from_str("Y"),
        HookKey::KeyU => String::from_str("U"),
        HookKey::KeyI => String::from_str("I"),
        HookKey::KeyO => String::from_str("O"),
        HookKey::KeyP => String::from_str("P"),
        HookKey::LeftBracket => String::from_str("["),
        HookKey::RightBracket => String::from_str("]"),
        HookKey::KeyA => String::from_str("A"),
        HookKey::KeyS => String::from_str("S"),
        HookKey::KeyD => String::from_str("D"),
        HookKey::KeyF => String::from_str("F"),
        HookKey::KeyG => String::from_str("G"),
        HookKey::KeyH => String::from_str("H"),
        HookKey::KeyJ => String::from_str("J"),
        HookKey::KeyK => String::from_str("K"),
        HookKey::KeyL => String::from_str("L"),
        HookKey::SemiColon => String::from_str(";"),
        HookKey::Quote => String::from_str("'"),
        HookKey::BackSlash => String::from_str("\\"),
        HookKey::IntlBackslash => String::from_str("|"),
        HookKey::KeyZ => String::from_str("Z"),
        HookKey::KeyX => String::from_str("X"),
        HookKey::KeyC => String::from_str("C"),
        HookKey::KeyV => String::from_str("V"),
        HookKey::KeyB => String::from_str("B"),
        HookKey::KeyN => String::from_str("N"),
        HookKey::KeyM => String::from_str("M"),
        HookKey::Comma => String::from_str(","),
        HookKey::Dot => String::from_str("."),
        HookKey::Slash => String::from_str("/"),
        HookKey::Insert => String::from_str("Ins"),
        HookKey::KpReturn => String::from_str("\u{23ce}"),
        HookKey::KpMinus => String::from_str("-"),
        HookKey::KpPlus => String::from_str("+"),
        HookKey::KpMultiply => String::from_str("*"),
        HookKey::KpDivide => String::from_str("/"),
        HookKey::Kp0 => String::from_str("0"),
        HookKey::Kp1 => String::from_str("1"),
        HookKey::Kp2 => String::from_str("2"),
        HookKey::Kp3 => String::from_str("3"),
        HookKey::Kp4 => String::from_str("4"),
        HookKey::Kp5 => String::from_str("5"),
        HookKey::Kp6 => String::from_str("6"),
        HookKey::Kp7 => String::from_str("7"),
        HookKey::Kp8 => String::from_str("8"),
        HookKey::Kp9 => String::from_str("9"),
        HookKey::KpDelete => String::from_str(DELETE),
        HookKey::Function => String::from_str("Function"),
        HookKey::Unknown(unknown) => unknown_to_key(unknown),
    }
}

/// Maps a toolkit key to its display token.
pub fn iced_to_key(key_code: &ToolkitKey) -> (r: String)
    ensures
        r@ == iced_token(*key_code),
{
    match key_code {
        ToolkitKey::Key1 => String::from_str("1"),
        ToolkitKey::Key2 => String::from_str("2"),
        ToolkitKey::Key3 => String::from_str("3"),
        ToolkitKey::Key4 => String::from_str("4"),
        ToolkitKey::Key5 => String::from_str("5"),
        ToolkitKey::Key6 => String::from_str("6"),
        ToolkitKey::Key7 => String::from_str("7"),
        ToolkitKey::Key8 => String::from_str("8"),
        ToolkitKey::Key9 => String::from_str("9"),
        ToolkitKey::Key0 => String::from_str("0"),
        ToolkitKey::A => String::from_str("A"),
        ToolkitKey::B => String::from_str("B"),
        ToolkitKey::C => String::from_str("C"),
        ToolkitKey::D => String::from_str("D"),
        ToolkitKey::E => String::from_str("E"),
        ToolkitKey::F => String::from_str("F"),
        ToolkitKey::G => String::from_str("G"),
        ToolkitKey::H => String::from_str("H"),
        ToolkitKey::I => String::from_str("I"),
        ToolkitKey::J => String::from_str("J"),
        ToolkitKey::K => String::from_str("K"),
        ToolkitKey::L => String::from_str("L"),
        ToolkitKey::M => String::from_str("M"),
        ToolkitKey::N => String::from_str("N"),
        ToolkitKey::O => String::from_str("O"),
        ToolkitKey::P => String::from_str("P"),
        ToolkitKey::Q => String::from_str("Q"),
        ToolkitKey::R => String::from_str("R"),
        ToolkitKey::S => String::from_str("S"),
        ToolkitKey::T => String::from_str("T"),
        ToolkitKey::U => String::from_str("U"),
        ToolkitKey::V => String::from_str("V"),
        ToolkitKey::W => String::from_str("W"),
        ToolkitKey::X => String::from_str("X"),
        ToolkitKey::Y => String::from_str("Y"),
        ToolkitKey::Z => String::from_str("Z"),
        ToolkitKey::Apostrophe => String::from_str("'"),
        ToolkitKey::Backslash => String::from_str("\\"),
        ToolkitKey::Colon => String::from_str(":"),
        ToolkitKey::Comma => String::from_str(","),
        ToolkitKey::Equals => String::from_str("="),
        ToolkitKey::LBracket => String::from_str("["),
        ToolkitKey::Minus => String::from_str("-"),
        ToolkitKey::Period => String::from_str("."),
        ToolkitKey::Plus => String::from_str("+"),
        ToolkitKey::RBracket => String::from_str("]"),
        ToolkitKey::Semicolon => String::from_str(";"),
        ToolkitKey::Slash => String::from_str("/"),
        ToolkitKey::Escape => String::from_str("esc"),
        ToolkitKey::F1 => String::from_str("F1"),
        ToolkitKey::F2 => String::from_str("F2"),
        ToolkitKey::F3 => String::from_str("F3"),
        ToolkitKey::F4 => String::from_str("F4"),
        ToolkitKey::F5 => String::from_str("F5"),
        ToolkitKey::F6 => String::from_str("F6"),
        ToolkitKey::F7 => String::from_str("F7"),
        ToolkitKey::F8 => String::from_str("F8"),
        ToolkitKey::F9 => String::from_str("F9"),
        ToolkitKey::F10 => String::from_str("F10"),
        ToolkitKey::F11 => String::from_str("F11"),
        ToolkitKey::F12 => String::from_str("F12"),
        ToolkitKey::F13 => String::from_str("F13"),
        ToolkitKey::F14 => String::from_str("F14"),
        ToolkitKey::F15 => String::from_str("F15"),
        ToolkitKey::F16 => String::from_str("F16"),
        ToolkitKey::F17 => String::from_str("F17"),
        ToolkitKey::F18 => String::from_str("F18"),
        ToolkitKey::F19 => String::from_str("F19"),
        ToolkitKey::F20 => String::from_str("F20"),
        ToolkitKey::F21 => String::from_str("F21"),
        ToolkitKey::F22 => String::from_str("F22"),
        ToolkitKey::F23 => String::from_str("F23"),
        ToolkitKey::F24 => String::from_str("F24"),
        ToolkitKey::Snapshot => String::from_str("Snapshot"),
        ToolkitKey::Scroll => String::from_str("Scroll"),
        ToolkitKey::Pause => String::from_str("Pause"),
        ToolkitKey::Insert => String::from_str("Insert"),
        ToolkitKey::Home => String::from_str(HOME),
        ToolkitKey::Delete => String::from_str(DELETE),
        ToolkitKey::End => String::from_str("End"),
        ToolkitKey::PageDown => String::from_str("PageDown"),
        ToolkitKey::PageUp => String::from_str("PageUp"),
        ToolkitKey::Left => String::from_str(LEFT_ARROW),
        ToolkitKey::Up => String::from_str(UP_ARROW),
        ToolkitKey::Right => String::from_str(RIGHT_ARROW),
        ToolkitKey::Down => String::from_str(DOWN_ARROW),
        ToolkitKey::Backspace => String::from_str("\u{232b}"),
        ToolkitKey::Enter => String::from_str(ENTER),
        ToolkitKey::Space => String::from_str("_"),
        ToolkitKey::Compose => String::from_str("Compose"),
        ToolkitKey::Caret => String::from_str("Caret"),
        ToolkitKey::Numlock => String::from_str("Numlock"),
        ToolkitKey::Numpad0 => String::from_str("0"),
        ToolkitKey::Numpad1 => String::from_str("1"),
        ToolkitKey::Numpad2 => String::from_str("2"),
        ToolkitKey::Numpad3 => String::from_str("3"),
        ToolkitKey::Numpad4 => String::from_str("4"),
        ToolkitKey::Numpad5 => String::from_str("5"),
        ToolkitKey::Numpad6 => String::from_str("6"),
        ToolkitKey::Numpad7 => String::from_str("7"),
        ToolkitKey::Numpad8 => String::from_str("8"),
        ToolkitKey::Numpad9 => String::from_str("9"),
        ToolkitKey::NumpadAdd => String::from_str("+"),
        ToolkitKey::NumpadDivide => String::from_str("/"),
        ToolkitKey::NumpadDecimal => String::from_str("."),
        ToolkitKey::NumpadComma => String::from_str(","),
        ToolkitKey::NumpadEnter => String::from_str(ENTER),
        ToolkitKey::NumpadEquals => String::from_str("="),
        ToolkitKey::NumpadMultiply => String::from_str("*"),
        ToolkitKey::NumpadSubtract => String::from_str("-"),
        ToolkitKey::Asterisk => String::from_str("*"),
        ToolkitKey::At => String::from_str("@"),
        ToolkitKey::Capital => String::from_str("Caps"),
        ToolkitKey::Convert => String::from_str("Convert"),
        ToolkitKey::Grave => String::from_str("`"),
        ToolkitKey::Kana => String::from_str("Kana"),
        ToolkitKey::Kanji => String::from_str("Kanji"),
        ToolkitKey::LAlt => String::from_str("Alt"),
        ToolkitKey::LControl => String::from_str(CONTROL),
        ToolkitKey::LShift => String::from_str(SHIFT),
        ToolkitKey::LWin => String::from_str("Win"),
        ToolkitKey::OEM102 => String::from_str("OEM102"),
        ToolkitKey::RAlt => String::from_str("Alt"),
        ToolkitKey::RControl => String::from_str(CONTROL),
        ToolkitKey::RShift => String::from_str(SHIFT),
        ToolkitKey::RWin => String::from_str("Win"),
        ToolkitKey::Sysrq => String::from_str("Sysrq"),
        ToolkitKey::Tab => String::from_str(TAB),
        ToolkitKey::Underline => String::from_str("Underline"),
        ToolkitKey::Unlabeled => String::from_str("Unlabeled"),
        ToolkitKey::VolumeDown => String::from_str("VolumeDown"),
        ToolkitKey::VolumeUp => String::from_str("VolumeUp"),
        ToolkitKey::Wake => String::from_str("Wake"),
        ToolkitKey::WebBack => String::from_str("WebBack"),
        ToolkitKey::WebFavorites => String::from_str("WebFav"),
        ToolkitKey::WebForward => String::from_str("WebForward"),
        ToolkitKey::WebHome => String::from_str("WebHome"),
        ToolkitKey::WebRefresh => String::from_str("WebRefresh"),
        ToolkitKey::WebSearch => String::from_str("WebSearch"),
        ToolkitKey::WebStop => String::from_str("WebStop"),
        ToolkitKey::Yen => String::from_str("Yen"),
        ToolkitKey::Copy => String::from_str("Copy"),
        ToolkitKey::Paste => String::from_str("Paste"),
        ToolkitKey::Cut => String::from_str("Cut"),
        _ => String::from_str("?"),
    }
}

/// A key of either alphabet, with its display token.
pub trait Keys {
    spec fn spec_token(&self) -> Seq<char>;

    fn key_to_string(&self) -> (r: String)
        ensures
            r@ == self.spec_token(),
    ;
}

impl Keys for HookKey {
    open spec fn spec_token(&self) -> Seq<char> {
        rdev_token(*self)
    }

    fn key_to_string(&self) -> (r: String) {
        rdev_to_key(self)
    }
}

impl Keys for ToolkitKey {
    open spec fn spec_token(&self) -> Seq<char> {
        iced_token(*self)
    }

    fn key_to_string(&self) -> (r: String) {
        iced_to_key(self)
    }
}

} // verus!
