use vstd::prelude::*;
use crate::icons::{icon_glyph, icon_text, Icon};

verus! {

/// A keyboard key, with the variants of the keys that the recorder captures
/// and the player simulates.
#[derive(Debug, Clone, Copy, PartialEq, Eq, Structural)]
pub enum Key {
    Alt,
    AltGr,
    Backspace,
    CapsLock,
    ControlLeft,
    ControlRight,
    Delete,
    DownArrow,
    End,
    Escape,
    F1,
    F10,
    F11,
    F12,
    F2,
    F3,
    F4,
    F5,
    F6,
    F7,
    F8,
    F9,
    Home,
    LeftArrow,
    MetaLeft,
    MetaRight,
    PageDown,
    PageUp,
    Return,
    RightArrow,
    ShiftLeft,
    ShiftRight,
    Space,
    Tab,
    UpArrow,
    PrintScreen,
    ScrollLock,
    Pause,
    NumLock,
    BackQuote,
    Num1,
    Num2,
    Num3,
    Num4,
    Num5,
    Num6,
    Num7,
    Num8,
    Num9,
    Num0,
    Minus,
    Equal,
    KeyQ,
    KeyW,
    KeyE,
    KeyR,
    KeyT,
    KeyY,
    KeyU,
    KeyI,
    KeyO,
    KeyP,
    LeftBracket,
    RightBracket,
    KeyA,
    KeyS,
    KeyD,
    KeyF,
    KeyG,
    KeyH,
    KeyJ,
    KeyK,
    KeyL,
    SemiColon,
    Quote,
    BackSlash,
    IntlBackslash,
    KeyZ,
    KeyX,
    KeyC,
    KeyV,
    KeyB,
    KeyN,
    KeyM,
    Comma,
    Dot,
    Slash,
    Insert,
    KpReturn,
    KpMinus,
    KpPlus,
    KpMultiply,
    KpDivide,
    Kp0,
    Kp1,
    Kp2,
    Kp3,
    Kp4,
    Kp5,
    Kp6,
    Kp7,
    Kp8,
    Kp9,
    KpDelete,
    Function,
    Unknown(u32),
}

/// A mouse button.
#[derive(Debug, Clone, Copy, PartialEq, Eq, Structural)]
pub enum Button {
    Left,
    Right,
    Middle,
    Unknown(u8),
}

/// The text a key is shown with on its keyframe.
pub open spec fn key_label(k: Key) -> Seq<char> {
    match k {
        Key::KeyA => "a"@,
        Key::KeyB => "b"@,
        Key::KeyC => "c"@,
        Key::KeyD => "d"@,
        Key::KeyE => "e"@,
        Key::KeyF => "f"@,
        Key::KeyG => "g"@,
        Key::KeyH => "h"@,
        Key::KeyI => "i"@,
        Key::KeyJ => "j"@,
        Key::KeyK => "k"@,
        Key::KeyL => "l"@,
        Key::KeyM => "m"@,
        Key::KeyN => "n"@,
        Key::KeyO => "o"@,
        Key::KeyP => "p"@,
        Key::KeyQ => "q"@,
        Key::KeyR => "r"@,
        Key::KeyS => "s"@,
        Key::KeyT => "t"@,
        Key::KeyU => "u"@,
        Key::KeyV => "v"@,
        Key::KeyW => "w"@,
        Key::KeyX => "x"@,
        Key::KeyY => "y"@,
        Key::KeyZ => "z"@,
        Key::Space => "_"@,
        Key::Tab => icon_glyph(Icon::ArrowLineRight),
        Key::UpArrow => icon_glyph(Icon::ArrowUp),
        Key::PrintScreen => icon_glyph(Icon::Printer),
        Key::ScrollLock => icon_glyph(Icon::LockSimple),
        Key::Pause => icon_glyph(Icon::Pause),
        Key::NumLock => icon_glyph(Icon::Lock),
        Key::BackQuote => "`"@,
        Key::Num1 => "1"@,
        Key::Num2 => "2"@,
        Key::Num3 => "3"@,
        Key::Num4 => "4"@,
        Key::Num5 => "5"@,
        Key::Num6 => "6"@,
        Key::Num7 => "7"@,
        Key::Num8 => "8"@,
        Key::Num9 => "9"@,
        Key::Num0 => "0"@,
        Key::Minus => icon_glyph(Icon::Minus),
        Key::Equal => icon_glyph(Icon::Equals),
        Key::LeftBracket => "("@,
        Key::RightBracket => ")"@,
        Key::SemiColon => ";"@,
        Key::Quote => "\""@,
        Key::BackSlash => "\""@,
        Key::IntlBackslash => "\""@,
        Key::Comma => ","@,
        Key::Dot => "."@,
        Key::Slash => "/"@,
        Key::Insert => "insert"@,
        Key::KpReturn => icon_glyph(Icon::ArrowUDownLeft),
        Key::KpMinus => icon_glyph(Icon::Minus),
        Key::KpPlus => icon_glyph(Icon::Plus),
        Key::KpMultiply => "*"@,
        Key::KpDivide => "\\"@,
        Key::Kp0 => "0"@,
        Key::Kp1 => "1"@,
        Key::Kp2 => "2"@,
        Key::Kp3 => "3"@,
        Key::Kp4 => "4"@,
        Key::Kp5 => "5"@,
        Key::Kp6 => "6"@,
        Key::Kp7 => "7"@,
        Key::Kp8 => "8"@,
        Key::Kp9 => "9"@,
        Key::KpDelete => "del"@,
        Key::Function => "fn"@,
        Key::Unknown(_) => icon_glyph(Icon::Warning),
        Key::Alt => icon_glyph(Icon::OptionKey),
        Key::AltGr => "altgr"@,
        Key::Backspace => icon_glyph(Icon::Backspace),
        Key::CapsLock => icon_glyph(Icon::ArrowFatLineUp),
        Key::ControlLeft => "ctrlleft"@,
        Key::ControlRight => "ctrlright"@,
        Key::Delete => "del"@,
        Key::DownArrow => icon_glyph(Icon::ArrowDown),
        Key::End => "end"@,
        Key::Escape => "esc"@,
        Key::F1 => "Ff1"@,
        Key::F10 => "Ff10"@,
        Key::F11 => "Ff11"@,
        Key::F12 => "Ff12"@,
        Key::F2 => "Ff2"@,
        Key::F3 => "Ff3"@,
        Key::F4 => "Ff4"@,
        Key::F5 => "Ff5"@,
        Key::F6 => "Ff6"@,
        Key::F7 => "F7"@,
        Key::F8 => "F8"@,
        Key::F9 => "F9"@,
        Key::Home => icon_glyph(Icon::House),
        Key::LeftArrow => icon_glyph(Icon::ArrowLeft),
        Key::MetaLeft => "metaleft"@,
        Key::MetaRight => "metaright"@,
        Key::PageDown => "pagedown"@,
        Key::PageUp => "pageup"@,
        Key::Return => icon_glyph(Icon::ArrowUDownLeft),
        Key::RightArrow => icon_glyph(Icon::ArrowRight),
        Key::ShiftLeft => icon_glyph(Icon::ArrowFatUp),
        Key::ShiftRight => icon_glyph(Icon::ArrowFatUp),
    }
}

/// Renders a key as the short text shown on its keyframe.
pub fn key_to_char(k: &Key) -> (label: String)
    ensures
        label@ == key_label(*k),
{
    match k {
        Key::KeyA => String::from_str("a"),
        Key::KeyB => String::from_str("b"),
        Key::KeyC => String::from_str("c"),
        Key::KeyD => String::from_str("d"),
        Key::KeyE => String::from_str("e"),
        Key::KeyF => String::from_str("f"),
        Key::KeyG => String::from_str("g"),
        Key::KeyH => String::from_str("h"),
        Key::KeyI => String::from_str("i"),
        Key::KeyJ => String::from_str("j"),
        Key::KeyK => String::from_str("k"),
        Key::KeyL => String::from_str("l"),
        Key::KeyM => String::from_str("m"),
        Key::KeyN => String::from_str("n"),
        Key::KeyO => String::from_str("o"),
        Key::KeyP => String::from_str("p"),
        Key::KeyQ => String::from_str("q"),
        Key::KeyR => String::from_str("r"),
        Key::KeyS => String::from_str("s"),
        Key::KeyT => String::from_str("t"),
        Key::KeyU => String::from_str("u"),
        Key::KeyV => String::from_str("v"),
        Key::KeyW => String::from_str("w"),
        Key::KeyX => String::from_str("x"),
        Key::KeyY => String::from_str("y"),
        Key::KeyZ => String::from_str("z"),
        Key::Space => String::from_str("_"),
        Key::Tab => icon_text(Icon::ArrowLineRight),
        Key::UpArrow => icon_text(Icon::ArrowUp),
        Key::PrintScreen => icon_text(Icon::Printer),
        Key::ScrollLock => icon_text(Icon::LockSimple),
        Key::Pause => icon_text(Icon::Pause),
        Key::NumLock => icon_text(Icon::Lock),
        Key::BackQuote => String::from_str("`"),
        Key::Num1 => String::from_str("1"),
        Key::Num2 => String::from_str("2"),
        Key::Num3 => String::from_str("3"),
        Key::Num4 => String::from_str("4"),
        Key::Num5 => String::from_str("5"),
        Key::Num6 => String::from_str("6"),
        Key::Num7 => String::from_str("7"),
        Key::Num8 => String::from_str("8"),
        Key::Num9 => String::from_str("9"),
        Key::Num0 => String::from_str("0"),
        Key::Minus => icon_text(Icon::Minus),
        Key::Equal => icon_text(Icon::Equals),
        Key::LeftBracket => String::from_str("("),
        Key::RightBracket => String::from_str(")"),
        Key::SemiColon => String::from_str(";"),
        Key::Quote => String::from_str("\""),
        Key::BackSlash => String::from_str("\""),
        Key::IntlBackslash => String::from_str("\""),
        Key::Comma => String::from_str(","),
        Key::Dot => String::from_str("."),
        Key::Slash => String::from_str("/"),
        Key::Insert => String::from_str("insert"),
        Key::KpReturn => icon_text(Icon::ArrowUDownLeft),
        Key::KpMinus => icon_text(Icon::Minus),
        Key::KpPlus => icon_text(Icon::Plus),
        Key::KpMultiply => String::from_str("*"),
        Key::KpDivide => String::from_str("\\"),
        Key::Kp0 => String::from_str("0"),
        Key::Kp1 => String::from_str("1"),
        Key::Kp2 => String::from_str("2"),
        Key::Kp3 => String::from_str("3"),
        Key::Kp4 => String::from_str("4"),
        Key::Kp5 => String::from_str("5"),
        Key::Kp6 => String::from_str("6"),
        Key::Kp7 => String::from_str("7"),
        Key::Kp8 => String::from_str("8"),
        Key::Kp9 => String::from_str("9"),
        Key::KpDelete => String::from_str("del"),
        Key::Function => String::from_str("fn"),
        Key::Unknown(_) => icon_text(Icon::Warning),
        Key::Alt => icon_text(Icon::OptionKey),
        Key::AltGr => String::from_str("altgr"),
        Key::Backspace => icon_text(Icon::Backspace),
        Key::CapsLock => icon_text(Icon::ArrowFatLineUp),
        Key::ControlLeft => String::from_str("ctrlleft"),
        Key::ControlRight => String::from_str("ctrlright"),
        Key::Delete => String::from_str("del"),
        Key::DownArrow => icon_text(Icon::ArrowDown),
        Key::End => String::from_str("end"),
        Key::Escape => String::from_str("esc"),
        Key::F1 => String::from_str("Ff1"),
        Key::F10 => String::from_str("Ff10"),
        Key::F11 => String::from_str("Ff11"),
        Key::F12 => String::from_str("Ff12"),
        Key::F2 => String::from_str("Ff2"),
        Key::F3 => String::from_str("Ff3"),
        Key::F4 => String::from_str("Ff4"),
        Key::F5 => String::from_str("Ff5"),
        Key::F6 => String::from_str("Ff6"),
        Key::F7 => String::from_str("F7"),
        Key::F8 => String::from_str("F8"),
        Key::F9 => String::from_str("F9"),
        Key::Home => icon_text(Icon::House),
        Key::LeftArrow => icon_text(Icon::ArrowLeft),
        Key::MetaLeft => String::from_str("metaleft"),
        Key::MetaRight => String::from_str("metaright"),
        Key::PageDown => String::from_str("pagedown"),
        Key::PageUp => String::from_str("pageup"),
        Key::Return => icon_text(Icon::ArrowUDownLeft),
        Key::RightArrow => icon_text(Icon::ArrowRight),
        Key::ShiftLeft => icon_text(Icon::ArrowFatUp),
        Key::ShiftRight => icon_text(Icon::ArrowFatUp),
    }
}

/// The key that a name typed by the user stands for.
pub open spec fn key_from_name(s: Seq<char>) -> Option<Key> {
    if s == "a"@ {
        Some(Key::KeyA)
    } else if s == "b"@ {
        Some(Key::KeyB)
    } else if s == "c"@ {
        Some(Key::KeyC)
    } else if s == "d"@ {
        Some(Key::KeyD)
    } else if s == "e"@ {
        Some(Key::KeyE)
    } else if s == "f"@ {
        Some(Key::KeyF)
    } else if s == "g"@ {
        Some(Key::KeyG)
    } else if s == "h"@ {
        Some(Key::KeyH)
    } else if s == "i"@ {
        Some(Key::KeyI)
    } else if s == "j"@ {
        Some(Key::KeyJ)
    } else if s == "k"@ {
        Some(Key::KeyK)
    } else if s == "l"@ {
        Some(Key::KeyL)
    } else if s == "m"@ {
        Some(Key::KeyM)
    } else if s == "n"@ {
        Some(Key::KeyN)
    } else if s == "o"@ {
        Some(Key::KeyO)
    } else if s == "p"@ {
        Some(Key::KeyP)
    } else if s == "q"@ {
        Some(Key::KeyQ)
    } else if s == "r"@ {
        Some(Key::KeyR)
    } else if s == "s"@ {
        Some(Key::KeyS)
    } else if s == "t"@ {
        Some(Key::KeyT)
    } else if s == "u"@ {
        Some(Key::KeyU)
    } else if s == "v"@ {
        Some(Key::KeyV)
    } else if s == "w"@ {
        Some(Key::KeyW)
    } else if s == "x"@ {
        Some(Key::KeyX)
    } else if s == "y"@ {
        Some(Key::KeyY)
    } else if s == "z"@ {
        Some(Key::KeyZ)
    } else if s == "space"@ {
        Some(Key::Space)
    } else if s == "tab"@ {
        Some(Key::Tab)
    } else if s == "uparrow"@ {
        Some(Key::UpArrow)
    } else if s == "printscreen"@ {
        Some(Key::PrintScreen)
    } else if s == "scrolllock"@ {
        Some(Key::ScrollLock)
    } else if s == "pause"@ {
        Some(Key::Pause)
    } else if s == "numlock"@ {
        Some(Key::NumLock)
    } else if s == "`"@ {
        Some(Key::BackQuote)
    } else if s == "1"@ {
        Some(Key::Num1)
    } else if s == "2"@ {
        Some(Key::Num2)
    } else if s == "3"@ {
        Some(Key::Num3)
    } else if s == "4"@ {
        Some(Key::Num4)
    } else if s == "5"@ {
        Some(Key::Num5)
    } else if s == "6"@ {
        Some(Key::Num6)
    } else if s == "7"@ {
        Some(Key::Num7)
    } else if s == "8"@ {
        Some(Key::Num8)
    } else if s == "9"@ {
        Some(Key::Num9)
    } else if s == "0"@ {
        Some(Key::Num0)
    } else if s == "-"@ {
        Some(Key::Minus)
    } else if s == "="@ {
        Some(Key::Equal)
    } else if s == "("@ {
        Some(Key::LeftBracket)
    } else if s == ")"@ {
        Some(Key::RightBracket)
    } else if s == ";"@ {
        Some(Key::SemiColon)
    } else if s == "\""@ {
        Some(Key::Quote)
    } else if s == "\\"@ {
        Some(Key::BackSlash)
    } else if s == "intlbackslash"@ {
        Some(Key::IntlBackslash)
    } else if s == "),"@ {
        Some(Key::Comma)
    } else if s == "."@ {
        Some(Key::Dot)
    } else if s == "/"@ {
        Some(Key::Slash)
    } else if s == "insert"@ {
        Some(Key::Insert)
    } else if s == "kpreturn"@ {
        Some(Key::KpReturn)
    } else if s == "kpminus"@ {
        Some(Key::KpMinus)
    } else if s == "kpplus"@ {
        Some(Key::KpPlus)
    } else if s == "kpmultiply"@ {
        Some(Key::KpMultiply)
    } else if s == "kpdivide"@ {
        Some(Key::KpDivide)
    } else if s == "kp0"@ {
        Some(Key::Kp0)
    } else if s == "kp1"@ {
        Some(Key::Kp1)
    } else if s == "kp2"@ {
        Some(Key::Kp2)
    } else if s == "kp3"@ {
        Some(Key::Kp3)
    } else if s == "kp4"@ {
        Some(Key::Kp4)
    } else if s == "kp5"@ {
        Some(Key::Kp5)
    } else if s == "kp6"@ {
        Some(Key::Kp6)
    } else if s == "kp7"@ {
        Some(Key::Kp7)
    } else if s == "kp8"@ {
        Some(Key::Kp8)
    } else if s == "kp9"@ {
        Some(Key::Kp9)
    } else if s == "kpdelete"@ {
        Some(Key::KpDelete)
    } else if s == "function"@ {
        Some(Key::Function)
    } else if s == "alt"@ {
        Some(Key::Alt)
    } else if s == "altgr"@ {
        Some(Key::AltGr)
    } else if s == "backspace"@ {
        Some(Key::Backspace)
    } else if s == "capslock"@ {
        Some(Key::CapsLock)
    } else if s == "ctrlleft"@ {
        Some(Key::ControlLeft)
    } else if s == "ctrlright"@ {
        Some(Key::ControlRight)
    } else if s == "delete"@ {
        Some(Key::Delete)
    } else if s == "downarrow"@ {
        Some(Key::DownArrow)
    } else if s == "end"@ {
        Some(Key::End)
    } else if s == "esc"@ {
        Some(Key::Escape)
    } else if s == "f1"@ {
        Some(Key::F1)
    } else if s == "f10"@ {
        Some(Key::F10)
    } else if s == "f11"@ {
        Some(Key::F11)
    } else if s == "f12"@ {
        Some(Key::F12)
    } else if s == "f2"@ {
        Some(Key::F2)
    } else if s == "f3"@ {
        Some(Key::F3)
    } else if s == "f4"@ {
        Some(Key::F4)
    } else if s == "f5"@ {
        Some(Key::F5)
    } else if s == "f6"@ {
        Some(Key::F6)
    } else if s == "f7"@ {
        Some(Key::F7)
    } else if s == "f8"@ {
        Some(Key::F8)
    } else if s == "f9"@ {
        Some(Key::F9)
    } else if s == "home"@ {
        Some(Key::Home)
    } else if s == "leftarrow"@ {
        Some(Key::LeftArrow)
    } else if s == "metaleft"@ {
        Some(Key::MetaLeft)
    } else if s == "metaright"@ {
        Some(Key::MetaRight)
    } else if s == "pagedown"@ {
        Some(Key::PageDown)
    } else if s == "pageup"@ {
        Some(Key::PageUp)
    } else if s == "return"@ {
        Some(Key::Return)
    } else if s == "rightarrow"@ {
        Some(Key::RightArrow)
    } else if s == "shiftleft"@ {
        Some(Key::ShiftLeft)
    } else if s == "shiftright"@ {
        Some(Key::ShiftRight)
    } else {
        None
    }
}

/// The name a user types for a key, for the keys that have one.
pub open spec fn key_name(k: Key) -> Option<Seq<char>> {
    match k {
        Key::KeyA => Some("a"@),
        Key::KeyB => Some("b"@),
        Key::KeyC => Some("c"@),
        Key::KeyD => Some("d"@),
        Key::KeyE => Some("e"@),
        Key::KeyF => Some("f"@),
        Key::KeyG => Some("g"@),
        Key::KeyH => Some("h"@),
        Key::KeyI => Some("i"@),
        Key::KeyJ => Some("j"@),
        Key::KeyK => Some("k"@),
        Key::KeyL => Some("l"@),
        Key::KeyM => Some("m"@),
        Key::KeyN => Some("n"@),
        Key::KeyO => Some("o"@),
        Key::KeyP => Some("p"@),
        Key::KeyQ => Some("q"@),
        Key::KeyR => Some("r"@),
        Key::KeyS => Some("s"@),
        Key::KeyT => Some("t"@),
        Key::KeyU => Some("u"@),
        Key::KeyV => Some("v"@),
        Key::KeyW => Some("w"@),
        Key::KeyX => Some("x"@),
        Key::KeyY => Some("y"@),
        Key::KeyZ => Some("z"@),
        Key::Space => Some("space"@),
        Key::Tab => Some("tab"@),
        Key::UpArrow => Some("uparrow"@),
        Key::PrintScreen => Some("printscreen"@),
        Key::ScrollLock => Some("scrolllock"@),
        Key::Pause => Some("pause"@),
        Key::NumLock => Some("numlock"@),
        Key::BackQuote => Some("`"@),
        Key::Num1 => Some("1"@),
        Key::Num2 => Some("2"@),
        Key::Num3 => Some("3"@),
        Key::Num4 => Some("4"@),
        Key::Num5 => Some("5"@),
        Key::Num6 => Some("6"@),
        Key::Num7 => Some("7"@),
        Key::Num8 => Some("8"@),
        Key::Num9 => Some("9"@),
        Key::Num0 => Some("0"@),
        Key::Minus => Some("-"@),
        Key::Equal => Some("="@),
        Key::LeftBracket => Some("("@),
        Key::RightBracket => Some(")"@),
        Key::SemiColon => Some(";"@),
        Key::Quote => Some("\""@),
        Key::BackSlash => Some("\\"@),
        Key::IntlBackslash => Some("intlbackslash"@),
        Key::Comma => Some("),"@),
        Key::Dot => Some("."@),
        Key::Slash => Some("/"@),
        Key::Insert => Some("insert"@),
        Key::KpReturn => Some("kpreturn"@),
        Key::KpMinus => Some("kpminus"@),
        Key::KpPlus => Some("kpplus"@),
        Key::KpMultiply => Some("kpmultiply"@),
        Key::KpDivide => Some("kpdivide"@),
        Key::Kp0 => Some("kp0"@),
        Key::Kp1 => Some("kp1"@),
        Key::Kp2 => Some("kp2"@),
        Key::Kp3 => Some("kp3"@),
        Key::Kp4 => Some("kp4"@),
        Key::Kp5 => Some("kp5"@),
        Key::Kp6 => Some("kp6"@),
        Key::Kp7 => Some("kp7"@),
        Key::Kp8 => Some("kp8"@),
        Key::Kp9 => Some("kp9"@),
        Key::KpDelete => Some("kpdelete"@),
        Key::Function => Some("function"@),
        Key::Alt => Some("alt"@),
        Key::AltGr => Some("altgr"@),
        Key::Backspace => Some("backspace"@),
        Key::CapsLock => Some("capslock"@),
        Key::ControlLeft => Some("ctrlleft"@),
        Key::ControlRight => Some("ctrlright"@),
        Key::Delete => Some("delete"@),
        Key::DownArrow => Some("downarrow"@),
        Key::End => Some("end"@),
        Key::Escape => Some("esc"@),
        Key::F1 => Some("f1"@),
        Key::F10 => Some("f10"@),
        Key::F11 => Some("f11"@),
        Key::F12 => Some("f12"@),
        Key::F2 => Some("f2"@),
        Key::F3 => Some("f3"@),
        Key::F4 => Some("f4"@),
        Key::F5 => Some("f5"@),
        Key::F6 => Some("f6"@),
        Key::F7 => Some("f7"@),
        Key::F8 => Some("f8"@),
        Key::F9 => Some("f9"@),
        Key::Home => Some("home"@),
        Key::LeftArrow => Some("leftarrow"@),
        Key::MetaLeft => Some("metaleft"@),
        Key::MetaRight => Some("metaright"@),
        Key::PageDown => Some("pagedown"@),
        Key::PageUp => Some("pageup"@),
        Key::Return => Some("return"@),
        Key::RightArrow => Some("rightarrow"@),
        Key::ShiftLeft => Some("shiftleft"@),
        Key::ShiftRight => Some("shiftright"@),
        _ => None,
    }
}

/// Names map to keys one to one: a name that parses is the name of the key
/// it parses to, and a key's name parses to that key. So a string parses
/// exactly when it is a key's name, and no two names give the same key.
pub proof fn lemma_key_names_one_to_one(s: Seq<char>, k: Key)
    ensures
        key_from_name(s) == Some(k) <==> key_name(k) == Some(s),
        key_from_name(s) is Some <==> exists|j: Key| key_name(j) == Some(s),
{
    if key_from_name(s) is Some {
        assert(key_name(key_from_name(s)->0) == Some(s));
    }
    if exists|j: Key| key_name(j) == Some(s) {
        let j = choose|j: Key| key_name(j) == Some(s);
        lemma_key_name_parses(j);
    }
    if key_name(k) == Some(s) {
        lemma_key_name_parses(k);
    }
}

/// No two names give the same key: two names that parse give the same key
/// exactly when they are the same name.
pub proof fn lemma_key_names_distinct(a: Seq<char>, b: Seq<char>)
    requires
        key_from_name(a) is Some,
        key_from_name(b) is Some,
    ensures
        (key_from_name(a) == key_from_name(b)) == (a == b),
{
    let k = key_from_name(a)->0;
    lemma_key_names_one_to_one(a, k);
    lemma_key_names_one_to_one(b, k);
}

/// Every key name parses back to its key.
proof fn lemma_key_name_parses(k: Key)
    ensures
        key_name(k) matches Some(s) ==> key_from_name(s) == Some(k),
{
    lemma_key_name_parses_0(k);
    lemma_key_name_parses_1(k);
    lemma_key_name_parses_2(k);
    lemma_key_name_parses_3(k);
    lemma_key_name_parses_4(k);
    lemma_key_name_parses_5(k);
    lemma_key_name_parses_6(k);
    lemma_key_name_parses_7(k);
}

/// Length and leading characters of each key name, enough to tell any two
/// names apart.
proof fn lemma_key_name_literals()
    ensures
        "a"@.len() == 1 && "a"@[0] == 'a',
        "b"@.len() == 1 && "b"@[0] == 'b',
        "c"@.len() == 1 && "c"@[0] == 'c',
        "d"@.len() == 1 && "d"@[0] == 'd',
        "e"@.len() == 1 && "e"@[0] == 'e',
        "f"@.len() == 1 && "f"@[0] == 'f',
        "g"@.len() == 1 && "g"@[0] == 'g',
        "h"@.len() == 1 && "h"@[0] == 'h',
        "i"@.len() == 1 && "i"@[0] == 'i',
        "j"@.len() == 1 && "j"@[0] == 'j',
        "k"@.len() == 1 && "k"@[0] == 'k',
        "l"@.len() == 1 && "l"@[0] == 'l',
        "m"@.len() == 1 && "m"@[0] == 'm',
        "n"@.len() == 1 && "n"@[0] == 'n',
        "o"@.len() == 1 && "o"@[0] == 'o',
        "p"@.len() == 1 && "p"@[0] == 'p',
        "q"@.len() == 1 && "q"@[0] == 'q',
        "r"@.len() == 1 && "r"@[0] == 'r',
        "s"@.len() == 1 && "s"@[0] == 's',
        "t"@.len() == 1 && "t"@[0] == 't',
        "u"@.len() == 1 && "u"@[0] == 'u',
        "v"@.len() == 1 && "v"@[0] == 'v',
        "w"@.len() == 1 && "w"@[0] == 'w',
        "x"@.len() == 1 && "x"@[0] == 'x',
        "y"@.len() == 1 && "y"@[0] == 'y',
        "z"@.len() == 1 && "z"@[0] == 'z',
        "space"@.len() == 5 && "space"@[0] == 's' && "space"@[1] == 'p' && "space"@[2] == 'a' && "space"@[3] == 'c',
        "tab"@.len() == 3 && "tab"@[0] == 't' && "tab"@[1] == 'a' && "tab"@[2] == 'b',
        "uparrow"@.len() == 7 && "uparrow"@[0] == 'u' && "uparrow"@[1] == 'p' && "uparrow"@[2] == 'a' && "uparrow"@[3] == 'r',
        "printscreen"@.len() == 11 && "printscreen"@[0] == 'p' && "printscreen"@[1] == 'r' && "printscreen"@[2] == 'i' && "printscreen"@[3] == 'n',
        "scrolllock"@.len() == 10 && "scrolllock"@[0] == 's' && "scrolllock"@[1] == 'c' && "scrolllock"@[2] == 'r' && "scrolllock"@[3] == 'o',
        "pause"@.len() == 5 && "pause"@[0] == 'p' && "pause"@[1] == 'a' && "pause"@[2] == 'u' && "pause"@[3] == 's',
        "numlock"@.len() == 7 && "numlock"@[0] == 'n' && "numlock"@[1] == 'u' && "numlock"@[2] == 'm' && "numlock"@[3] == 'l',
        "`"@.len() == 1 && "`"@[0] == '`',
        "1"@.len() == 1 && "1"@[0] == '1',
        "2"@.len() == 1 && "2"@[0] == '2',
        "3"@.len() == 1 && "3"@[0] == '3',
        "4"@.len() == 1 && "4"@[0] == '4',
        "5"@.len() == 1 && "5"@[0] == '5',
        "6"@.len() == 1 && "6"@[0] == '6',
        "7"@.len() == 1 && "7"@[0] == '7',
        "8"@.len() == 1 && "8"@[0] == '8',
        "9"@.len() == 1 && "9"@[0] == '9',
        "0"@.len() == 1 && "0"@[0] == '0',
        "-"@.len() == 1 && "-"@[0] == '-',
        "="@.len() == 1 && "="@[0] == '=',
        "("@.len() == 1 && "("@[0] == '(',
        ")"@.len() == 1 && ")"@[0] == ')',
        ";"@.len() == 1 && ";"@[0] == ';',
        "\""@.len() == 1 && "\""@[0] == '"',
        "\\"@.len() == 1 && "\\"@[0] == '\\',
        "intlbackslash"@.len() == 13 && "intlbackslash"@[0] == 'i' && "intlbackslash"@[1] == 'n' && "intlbackslash"@[2] == 't' && "intlbackslash"@[3] == 'l',
        "),"@.len() == 2 && "),"@[0] == ')' && "),"@[1] == ',',
        "."@.len() == 1 && "."@[0] == '.',
        "/"@.len() == 1 && "/"@[0] == '/',
        "insert"@.len() == 6 && "insert"@[0] == 'i' && "insert"@[1] == 'n' && "insert"@[2] == 's' && "insert"@[3] == 'e',
        "kpreturn"@.len() == 8 && "kpreturn"@[0] == 'k' && "kpreturn"@[1] == 'p' && "kpreturn"@[2] == 'r' && "kpreturn"@[3] == 'e',
        "kpminus"@.len() == 7 && "kpminus"@[0] == 'k' && "kpminus"@[1] == 'p' && "kpminus"@[2] == 'm' && "kpminus"@[3] == 'i',
        "kpplus"@.len() == 6 && "kpplus"@[0] == 'k' && "kpplus"@[1] == 'p' && "kpplus"@[2] == 'p' && "kpplus"@[3] == 'l',
        "kpmultiply"@.len() == 10 && "kpmultiply"@[0] == 'k' && "kpmultiply"@[1] == 'p' && "kpmultiply"@[2] == 'm' && "kpmultiply"@[3] == 'u',
        "kpdivide"@.len() == 8 && "kpdivide"@[0] == 'k' && "kpdivide"@[1] == 'p' && "kpdivide"@[2] == 'd' && "kpdivide"@[3] == 'i',
        "kp0"@.len() == 3 && "kp0"@[0] == 'k' && "kp0"@[1] == 'p' && "kp0"@[2] == '0',
        "kp1"@.len() == 3 && "kp1"@[0] == 'k' && "kp1"@[1] == 'p' && "kp1"@[2] == '1',
        "kp2"@.len() == 3 && "kp2"@[0] == 'k' && "kp2"@[1] == 'p' && "kp2"@[2] == '2',
        "kp3"@.len() == 3 && "kp3"@[0] == 'k' && "kp3"@[1] == 'p' && "kp3"@[2] == '3',
        "kp4"@.len() == 3 && "kp4"@[0] == 'k' && "kp4"@[1] == 'p' && "kp4"@[2] == '4',
        "kp5"@.len() == 3 && "kp5"@[0] == 'k' && "kp5"@[1] == 'p' && "kp5"@[2] == '5',
        "kp6"@.len() == 3 && "kp6"@[0] == 'k' && "kp6"@[1] == 'p' && "kp6"@[2] == '6',
        "kp7"@.len() == 3 && "kp7"@[0] == 'k' && "kp7"@[1] == 'p' && "kp7"@[2] == '7',
        "kp8"@.len() == 3 && "kp8"@[0] == 'k' && "kp8"@[1] == 'p' && "kp8"@[2] == '8',
        "kp9"@.len() == 3 && "kp9"@[0] == 'k' && "kp9"@[1] == 'p' && "kp9"@[2] == '9',
        "kpdelete"@.len() == 8 && "kpdelete"@[0] == 'k' && "kpdelete"@[1] == 'p' && "kpdelete"@[2] == 'd' && "kpdelete"@[3] == 'e',
        "function"@.len() == 8 && "function"@[0] == 'f' && "function"@[1] == 'u' && "function"@[2] == 'n' && "function"@[3] == 'c',
        "alt"@.len() == 3 && "alt"@[0] == 'a' && "alt"@[1] == 'l' && "alt"@[2] == 't',
        "altgr"@.len() == 5 && "altgr"@[0] == 'a' && "altgr"@[1] == 'l' && "altgr"@[2] == 't' && "altgr"@[3] == 'g',
        "backspace"@.len() == 9 && "backspace"@[0] == 'b' && "backspace"@[1] == 'a' && "backspace"@[2] == 'c' && "backspace"@[3] == 'k',
        "capslock"@.len() == 8 && "capslock"@[0] == 'c' && "capslock"@[1] == 'a' && "capslock"@[2] == 'p' && "capslock"@[3] == 's',
        "ctrlleft"@.len() == 8 && "ctrlleft"@[0] == 'c' && "ctrlleft"@[1] == 't' && "ctrlleft"@[2] == 'r' && "ctrlleft"@[3] == 'l',
        "ctrlright"@.len() == 9 && "ctrlright"@[0] == 'c' && "ctrlright"@[1] == 't' && "ctrlright"@[2] == 'r' && "ctrlright"@[3] == 'l',
        "delete"@.len() == 6 && "delete"@[0] == 'd' && "delete"@[1] == 'e' && "delete"@[2] == 'l' && "delete"@[3] == 'e',
        "downarrow"@.len() == 9 && "downarrow"@[0] == 'd' && "downarrow"@[1] == 'o' && "downarrow"@[2] == 'w' && "downarrow"@[3] == 'n',
        "end"@.len() == 3 && "end"@[0] == 'e' && "end"@[1] == 'n' && "end"@[2] == 'd',
        "esc"@.len() == 3 && "esc"@[0] == 'e' && "esc"@[1] == 's' && "esc"@[2] == 'c',
        "f1"@.len() == 2 && "f1"@[0] == 'f' && "f1"@[1] == '1',
        "f10"@.len() == 3 && "f10"@[0] == 'f' && "f10"@[1] == '1' && "f10"@[2] == '0',
        "f11"@.len() == 3 && "f11"@[0] == 'f' && "f11"@[1] == '1' && "f11"@[2] == '1',
        "f12"@.len() == 3 && "f12"@[0] == 'f' && "f12"@[1] == '1' && "f12"@[2] == '2',
        "f2"@.len() == 2 && "f2"@[0] == 'f' && "f2"@[1] == '2',
        "f3"@.len() == 2 && "f3"@[0] == 'f' && "f3"@[1] == '3',
        "f4"@.len() == 2 && "f4"@[0] == 'f' && "f4"@[1] == '4',
        "f5"@.len() == 2 && "f5"@[0] == 'f' && "f5"@[1] == '5',
        "f6"@.len() == 2 && "f6"@[0] == 'f' && "f6"@[1] == '6',
        "f7"@.len() == 2 && "f7"@[0] == 'f' && "f7"@[1] == '7',
        "f8"@.len() == 2 && "f8"@[0] == 'f' && "f8"@[1] == '8',
        "f9"@.len() == 2 && "f9"@[0] == 'f' && "f9"@[1] == '9',
        "home"@.len() == 4 && "home"@[0] == 'h' && "home"@[1] == 'o' && "home"@[2] == 'm' && "home"@[3] == 'e',
        "leftarrow"@.len() == 9 && "leftarrow"@[0] == 'l' && "leftarrow"@[1] == 'e' && "leftarrow"@[2] == 'f' && "leftarrow"@[3] == 't',
        "metaleft"@.len() == 8 && "metaleft"@[0] == 'm' && "metaleft"@[1] == 'e' && "metaleft"@[2] == 't' && "metaleft"@[3] == 'a',
        "metaright"@.len() == 9 && "metaright"@[0] == 'm' && "metaright"@[1] == 'e' && "metaright"@[2] == 't' && "metaright"@[3] == 'a',
        "pagedown"@.len() == 8 && "pagedown"@[0] == 'p' && "pagedown"@[1] == 'a' && "pagedown"@[2] == 'g' && "pagedown"@[3] == 'e',
        "pageup"@.len() == 6 && "pageup"@[0] == 'p' && "pageup"@[1] == 'a' && "pageup"@[2] == 'g' && "pageup"@[3] == 'e',
        "return"@.len() == 6 && "return"@[0] == 'r' && "return"@[1] == 'e' && "return"@[2] == 't' && "return"@[3] == 'u',
        "rightarrow"@.len() == 10 && "rightarrow"@[0] == 'r' && "rightarrow"@[1] == 'i' && "rightarrow"@[2] == 'g' && "rightarrow"@[3] == 'h',
        "shiftleft"@.len() == 9 && "shiftleft"@[0] == 's' && "shiftleft"@[1] == 'h' && "shiftleft"@[2] == 'i' && "shiftleft"@[3] == 'f',
        "shiftright"@.len() == 10 && "shiftright"@[0] == 's' && "shiftright"@[1] == 'h' && "shiftright"@[2] == 'i' && "shiftright"@[3] == 'f',
{
    reveal_strlit("a");
    reveal_strlit("b");
    reveal_strlit("c");
    reveal_strlit("d");
    reveal_strlit("e");
    reveal_strlit("f");
    reveal_strlit("g");
    reveal_strlit("h");
    reveal_strlit("i");
    reveal_strlit("j");
    reveal_strlit("k");
    reveal_strlit("l");
    reveal_strlit("m");
    reveal_strlit("n");
    reveal_strlit("o");
    reveal_strlit("p");
    reveal_strlit("q");
    reveal_strlit("r");
    reveal_strlit("s");
    reveal_strlit("t");
    reveal_strlit("u");
    reveal_strlit("v");
    reveal_strlit("w");
    reveal_strlit("x");
    reveal_strlit("y");
    reveal_strlit("z");
    reveal_strlit("space");
    reveal_strlit("tab");
    reveal_strlit("uparrow");
    reveal_strlit("printscreen");
    reveal_strlit("scrolllock");
    reveal_strlit("pause");
    reveal_strlit("numlock");
    reveal_strlit("`");
    reveal_strlit("1");
    reveal_strlit("2");
    reveal_strlit("3");
    reveal_strlit("4");
    reveal_strlit("5");
    reveal_strlit("6");
    reveal_strlit("7");
    reveal_strlit("8");
    reveal_strlit("9");
    reveal_strlit("0");
    reveal_strlit("-");
    reveal_strlit("=");
    reveal_strlit("(");
    reveal_strlit(")");
    reveal_strlit(";");
    reveal_strlit("\"");
    reveal_strlit("\\");
    reveal_strlit("intlbackslash");
    reveal_strlit("),");
    reveal_strlit(".");
    reveal_strlit("/");
    reveal_strlit("insert");
    reveal_strlit("kpreturn");
    reveal_strlit("kpminus");
    reveal_strlit("kpplus");
    reveal_strlit("kpmultiply");
    reveal_strlit("kpdivide");
    reveal_strlit("kp0");
    reveal_strlit("kp1");
    reveal_strlit("kp2");
    reveal_strlit("kp3");
    reveal_strlit("kp4");
    reveal_strlit("kp5");
    reveal_strlit("kp6");
    reveal_strlit("kp7");
    reveal_strlit("kp8");
    reveal_strlit("kp9");
    reveal_strlit("kpdelete");
    reveal_strlit("function");
    reveal_strlit("alt");
    reveal_strlit("altgr");
    reveal_strlit("backspace");
    reveal_strlit("capslock");
    reveal_strlit("ctrlleft");
    reveal_strlit("ctrlright");
    reveal_strlit("delete");
    reveal_strlit("downarrow");
    reveal_strlit("end");
    reveal_strlit("esc");
    reveal_strlit("f1");
    reveal_strlit("f10");
    reveal_strlit("f11");
    reveal_strlit("f12");
    reveal_strlit("f2");
    reveal_strlit("f3");
    reveal_strlit("f4");
    reveal_strlit("f5");
    reveal_strlit("f6");
    reveal_strlit("f7");
    reveal_strlit("f8");
    reveal_strlit("f9");
    reveal_strlit("home");
    reveal_strlit("leftarrow");
    reveal_strlit("metaleft");
    reveal_strlit("metaright");
    reveal_strlit("pagedown");
    reveal_strlit("pageup");
    reveal_strlit("return");
    reveal_strlit("rightarrow");
    reveal_strlit("shiftleft");
    reveal_strlit("shiftright");
}

proof fn lemma_key_name_parses_0(k: Key)
    ensures
        k == Key::KeyA || k == Key::KeyB || k == Key::KeyC || k == Key::KeyD || k == Key::KeyE || k == Key::KeyF || k == Key::KeyG || k == Key::KeyH || k == Key::KeyI || k == Key::KeyJ || k == Key::KeyK || k == Key::KeyL || k == Key::KeyM || k == Key::KeyN ==> key_from_name(key_name(k)->0) == Some(k),
{
    lemma_key_name_literals();
    match k {
        Key::KeyA => assert(key_from_name("a"@) == Some(Key::KeyA)),
        Key::KeyB => assert(key_from_name("b"@) == Some(Key::KeyB)),
        Key::KeyC => assert(key_from_name("c"@) == Some(Key::KeyC)),
        Key::KeyD => assert(key_from_name("d"@) == Some(Key::KeyD)),
        Key::KeyE => assert(key_from_name("e"@) == Some(Key::KeyE)),
        Key::KeyF => assert(key_from_name("f"@) == Some(Key::KeyF)),
        Key::KeyG => assert(key_from_name("g"@) == Some(Key::KeyG)),
        Key::KeyH => assert(key_from_name("h"@) == Some(Key::KeyH)),
        Key::KeyI => assert(key_from_name("i"@) == Some(Key::KeyI)),
        Key::KeyJ => assert(key_from_name("j"@) == Some(Key::KeyJ)),
        Key::KeyK => assert(key_from_name("k"@) == Some(Key::KeyK)),
        Key::KeyL => assert(key_from_name("l"@) == Some(Key::KeyL)),
        Key::KeyM => assert(key_from_name("m"@) == Some(Key::KeyM)),
        Key::KeyN => assert(key_from_name("n"@) == Some(Key::KeyN)),
        _ => {},
    }
}

proof fn lemma_key_name_parses_1(k: Key)
    ensures
        k == Key::KeyO || k == Key::KeyP || k == Key::KeyQ || k == Key::KeyR || k == Key::KeyS || k == Key::KeyT || k == Key::KeyU || k == Key::KeyV || k == Key::KeyW || k == Key::KeyX || k == Key::KeyY || k == Key::KeyZ || k == Key::Space || k == Key::Tab ==> key_from_name(key_name(k)->0) == Some(k),
{
    lemma_key_name_literals();
    match k {
        Key::KeyO => assert(key_from_name("o"@) == Some(Key::KeyO)),
        Key::KeyP => assert(key_from_name("p"@) == Some(Key::KeyP)),
        Key::KeyQ => assert(key_from_name("q"@) == Some(Key::KeyQ)),
        Key::KeyR => assert(key_from_name("r"@) == Some(Key::KeyR)),
        Key::KeyS => assert(key_from_name("s"@) == Some(Key::KeyS)),
        Key::KeyT => assert(key_from_name("t"@) == Some(Key::KeyT)),
        Key::KeyU => assert(key_from_name("u"@) == Some(Key::KeyU)),
        Key::KeyV => assert(key_from_name("v"@) == Some(Key::KeyV)),
        Key::KeyW => assert(key_from_name("w"@) == Some(Key::KeyW)),
        Key::KeyX => assert(key_from_name("x"@) == Some(Key::KeyX)),
        Key::KeyY => assert(key_from_name("y"@) == Some(Key::KeyY)),
        Key::KeyZ => assert(key_from_name("z"@) == Some(Key::KeyZ)),
        Key::Space => assert(key_from_name("space"@) == Some(Key::Space)),
        Key::Tab => assert(key_from_name("tab"@) == Some(Key::Tab)),
        _ => {},
    }
}

proof fn lemma_key_name_parses_2(k: Key)
    ensures
        k == Key::UpArrow || k == Key::PrintScreen || k == Key::ScrollLock || k == Key::Pause || k == Key::NumLock || k == Key::BackQuote || k == Key::Num1 || k == Key::Num2 || k == Key::Num3 || k == Key::Num4 || k == Key::Num5 || k == Key::Num6 || k == Key::Num7 || k == Key::Num8 ==> key_from_name(key_name(k)->0) == Some(k),
{
    lemma_key_name_literals();
    match k {
        Key::UpArrow => assert(key_from_name("uparrow"@) == Some(Key::UpArrow)),
        Key::PrintScreen => assert(key_from_name("printscreen"@) == Some(Key::PrintScreen)),
        Key::ScrollLock => assert(key_from_name("scrolllock"@) == Some(Key::ScrollLock)),
        Key::Pause => assert(key_from_name("pause"@) == Some(Key::Pause)),
        Key::NumLock => assert(key_from_name("numlock"@) == Some(Key::NumLock)),
        Key::BackQuote => assert(key_from_name("`"@) == Some(Key::BackQuote)),
        Key::Num1 => assert(key_from_name("1"@) == Some(Key::Num1)),
        Key::Num2 => assert(key_from_name("2"@) == Some(Key::Num2)),
        Key::Num3 => assert(key_from_name("3"@) == Some(Key::Num3)),
        Key::Num4 => assert(key_from_name("4"@) == Some(Key::Num4)),
        Key::Num5 => assert(key_from_name("5"@) == Some(Key::Num5)),
        Key::Num6 => assert(key_from_name("6"@) == Some(Key::Num6)),
        Key::Num7 => assert(key_from_name("7"@) == Some(Key::Num7)),
        Key::Num8 => assert(key_from_name("8"@) == Some(Key::Num8)),
        _ => {},
    }
}

proof fn lemma_key_name_parses_3(k: Key)
    ensures
        k == Key::Num9 || k == Key::Num0 || k == Key::Minus || k == Key::Equal || k == Key::LeftBracket || k == Key::RightBracket || k == Key::SemiColon || k == Key::Quote || k == Key::BackSlash || k == Key::IntlBackslash || k == Key::Comma || k == Key::Dot || k == Key::Slash || k == Key::Insert ==> key_from_name(key_name(k)->0) == Some(k),
{
    lemma_key_name_literals();
    match k {
        Key::Num9 => assert(key_from_name("9"@) == Some(Key::Num9)),
        Key::Num0 => assert(key_from_name("0"@) == Some(Key::Num0)),
        Key::Minus => assert(key_from_name("-"@) == Some(Key::Minus)),
        Key::Equal => assert(key_from_name("="@) == Some(Key::Equal)),
        Key::LeftBracket => assert(key_from_name("("@) == Some(Key::LeftBracket)),
        Key::RightBracket => assert(key_from_name(")"@) == Some(Key::RightBracket)),
        Key::SemiColon => assert(key_from_name(";"@) == Some(Key::SemiColon)),
        Key::Quote => assert(key_from_name("\""@) == Some(Key::Quote)),
        Key::BackSlash => assert(key_from_name("\\"@) == Some(Key::BackSlash)),
        Key::IntlBackslash => assert(key_from_name("intlbackslash"@) == Some(Key::IntlBackslash)),
        Key::Comma => assert(key_from_name("),"@) == Some(Key::Comma)),
        Key::Dot => assert(key_from_name("."@) == Some(Key::Dot)),
        Key::Slash => assert(key_from_name("/"@) == Some(Key::Slash)),
        Key::Insert => assert(key_from_name("insert"@) == Some(Key::Insert)),
        _ => {},
    }
}

proof fn lemma_key_name_parses_4(k: Key)
    ensures
        k == Key::KpReturn || k == Key::KpMinus || k == Key::KpPlus || k == Key::KpMultiply || k == Key::KpDivide || k == Key::Kp0 || k == Key::Kp1 || k == Key::Kp2 || k == Key::Kp3 || k == Key::Kp4 || k == Key::Kp5 || k == Key::Kp6 || k == Key::Kp7 || k == Key::Kp8 ==> key_from_name(key_name(k)->0) == Some(k),
{
    lemma_key_name_literals();
    match k {
        Key::KpReturn => assert(key_from_name("kpreturn"@) == Some(Key::KpReturn)),
        Key::KpMinus => assert(key_from_name("kpminus"@) == Some(Key::KpMinus)),
        Key::KpPlus => assert(key_from_name("kpplus"@) == Some(Key::KpPlus)),
        Key::KpMultiply => assert(key_from_name("kpmultiply"@) == Some(Key::KpMultiply)),
        Key::KpDivide => assert(key_from_name("kpdivide"@) == Some(Key::KpDivide)),
        Key::Kp0 => assert(key_from_name("kp0"@) == Some(Key::Kp0)),
        Key::Kp1 => assert(key_from_name("kp1"@) == Some(Key::Kp1)),
        Key::Kp2 => assert(key_from_name("kp2"@) == Some(Key::Kp2)),
        Key::Kp3 => assert(key_from_name("kp3"@) == Some(Key::Kp3)),
        Key::Kp4 => assert(key_from_name("kp4"@) == Some(Key::Kp4)),
        Key::Kp5 => assert(key_from_name("kp5"@) == Some(Key::Kp5)),
        Key::Kp6 => assert(key_from_name("kp6"@) == Some(Key::Kp6)),
        Key::Kp7 => assert(key_from_name("kp7"@) == Some(Key::Kp7)),
        Key::Kp8 => assert(key_from_name("kp8"@) == Some(Key::Kp8)),
        _ => {},
    }
}

proof fn lemma_key_name_parses_5(k: Key)
    ensures
        k == Key::Kp9 || k == Key::KpDelete || k == Key::Function || k == Key::Alt || k == Key::AltGr || k == Key::Backspace || k == Key::CapsLock || k == Key::ControlLeft || k == Key::ControlRight || k == Key::Delete || k == Key::DownArrow || k == Key::End || k == Key::Escape || k == Key::F1 ==> key_from_name(key_name(k)->0) == Some(k),
{
    lemma_key_name_literals();
    match k {
        Key::Kp9 => assert(key_from_name("kp9"@) == Some(Key::Kp9)),
        Key::KpDelete => assert(key_from_name("kpdelete"@) == Some(Key::KpDelete)),
        Key::Function => assert(key_from_name("function"@) == Some(Key::Function)),
        Key::Alt => assert(key_from_name("alt"@) == Some(Key::Alt)),
        Key::AltGr => assert(key_from_name("altgr"@) == Some(Key::AltGr)),
        Key::Backspace => assert(key_from_name("backspace"@) == Some(Key::Backspace)),
        Key::CapsLock => assert(key_from_name("capslock"@) == Some(Key::CapsLock)),
        Key::ControlLeft => assert(key_from_name("ctrlleft"@) == Some(Key::ControlLeft)),
        Key::ControlRight => assert(key_from_name("ctrlright"@) == Some(Key::ControlRight)),
        Key::Delete => assert(key_from_name("delete"@) == Some(Key::Delete)),
        Key::DownArrow => assert(key_from_name("downarrow"@) == Some(Key::DownArrow)),
        Key::End => assert(key_from_name("end"@) == Some(Key::End)),
        Key::Escape => assert(key_from_name("esc"@) == Some(Key::Escape)),
        Key::F1 => assert(key_from_name("f1"@) == Some(Key::F1)),
        _ => {},
    }
}

proof fn lemma_key_name_parses_6(k: Key)
    ensures
        k == Key::F10 || k == Key::F11 || k == Key::F12 || k == Key::F2 || k == Key::F3 || k == Key::F4 || k == Key::F5 || k == Key::F6 || k == Key::F7 || k == Key::F8 || k == Key::F9 || k == Key::Home || k == Key::LeftArrow || k == Key::MetaLeft ==> key_from_name(key_name(k)->0) == Some(k),
{
    lemma_key_name_literals();
    match k {
        Key::F10 => assert(key_from_name("f10"@) == Some(Key::F10)),
        Key::F11 => assert(key_from_name("f11"@) == Some(Key::F11)),
        Key::F12 => assert(key_from_name("f12"@) == Some(Key::F12)),
        Key::F2 => assert(key_from_name("f2"@) == Some(Key::F2)),
        Key::F3 => assert(key_from_name("f3"@) == Some(Key::F3)),
        Key::F4 => assert(key_from_name("f4"@) == Some(Key::F4)),
        Key::F5 => assert(key_from_name("f5"@) == Some(Key::F5)),
        Key::F6 => assert(key_from_name("f6"@) == Some(Key::F6)),
        Key::F7 => assert(key_from_name("f7"@) == Some(Key::F7)),
        Key::F8 => assert(key_from_name("f8"@) == Some(Key::F8)),
        Key::F9 => assert(key_from_name("f9"@) == Some(Key::F9)),
        Key::Home => assert(key_from_name("home"@) == Some(Key::Home)),
        Key::LeftArrow => assert(key_from_name("leftarrow"@) == Some(Key::LeftArrow)),
        Key::MetaLeft => assert(key_from_name("metaleft"@) == Some(Key::MetaLeft)),
        _ => {},
    }
}

proof fn lemma_key_name_parses_7(k: Key)
    ensures
        k == Key::MetaRight || k == Key::PageDown || k == Key::PageUp || k == Key::Return || k == Key::RightArrow || k == Key::ShiftLeft || k == Key::ShiftRight ==> key_from_name(key_name(k)->0) == Some(k),
{
    lemma_key_name_literals();
    match k {
        Key::MetaRight => assert(key_from_name("metaright"@) == Some(Key::MetaRight)),
        Key::PageDown => assert(key_from_name("pagedown"@) == Some(Key::PageDown)),
        Key::PageUp => assert(key_from_name("pageup"@) == Some(Key::PageUp)),
        Key::Return => assert(key_from_name("return"@) == Some(Key::Return)),
        Key::RightArrow => assert(key_from_name("rightarrow"@) == Some(Key::RightArrow)),
        Key::ShiftLeft => assert(key_from_name("shiftleft"@) == Some(Key::ShiftLeft)),
        Key::ShiftRight => assert(key_from_name("shiftright"@) == Some(Key::ShiftRight)),
        _ => {},
    }
}

/// A key whose label is its name (letters, digits and most punctuation,
/// but not Space, the function keys or the keypad) reads back from its
/// label as the same key.
pub proof fn lemma_label_reads_back(k: Key)
    requires
        key_name(k) == Some(key_label(k)),
    ensures
        key_from_name(key_label(k)) == Some(k),
{
    lemma_key_names_one_to_one(key_label(k), k);
}

/// Whether the characters of `w` are those of `lit`.
fn chars_are(w: &Vec<char>, lit: &str) -> (same: bool)
    ensures
        same == (w@ == lit@),
{
    let n: usize = lit.unicode_len();
    if w.len() != n {
        return false;
    }
    let mut i: usize = 0;
    while i < n
        invariant
            n == lit@.len(),
            w@.len() == n,
            i <= n,
            forall|j: int| 0 <= j < i ==> w@[j] == lit@[j],
        decreases n - i,
    {
        if w[i] != lit.get_char(i) {
            return false;
        }
        i = i + 1;
    }
    assert(w@ =~= lit@);
    true
}

/// The characters of a string, in order.
pub fn chars_of(s: &str) -> (chars: Vec<char>)
    ensures
        chars@ == s@,
{
    let n: usize = s.unicode_len();
    let mut chars: Vec<char> = Vec::new();
    let mut i: usize = 0;
    while i < n
        invariant
            n == s@.len(),
            i <= n,
            chars@ == s@.take(i as int),
        decreases n - i,
    {
        chars.push(s.get_char(i));
        i = i + 1;
        assert(chars@ =~= s@.take(i as int));
    }
    assert(s@.take(n as int) =~= s@);
    chars
}

/// Looks a key name up, given as characters.
pub fn key_from_chars(w: &Vec<char>) -> (key: Option<Key>)
    ensures
        key == key_from_name(w@),
{
    if chars_are(w, "a") {
        Some(Key::KeyA)
    } else if chars_are(w, "b") {
        Some(Key::KeyB)
    } else if chars_are(w, "c") {
        Some(Key::KeyC)
    } else if chars_are(w, "d") {
        Some(Key::KeyD)
    } else if chars_are(w, "e") {
        Some(Key::KeyE)
    } else if chars_are(w, "f") {
        Some(Key::KeyF)
    } else if chars_are(w, "g") {
        Some(Key::KeyG)
    } else if chars_are(w, "h") {
        Some(Key::KeyH)
    } else if chars_are(w, "i") {
        Some(Key::KeyI)
    } else if chars_are(w, "j") {
        Some(Key::KeyJ)
    } else if chars_are(w, "k") {
        Some(Key::KeyK)
    } else if chars_are(w, "l") {
        Some(Key::KeyL)
    } else if chars_are(w, "m") {
        Some(Key::KeyM)
    } else if chars_are(w, "n") {
        Some(Key::KeyN)
    } else if chars_are(w, "o") {
        Some(Key::KeyO)
    } else if chars_are(w, "p") {
        Some(Key::KeyP)
    } else if chars_are(w, "q") {
        Some(Key::KeyQ)
    } else if chars_are(w, "r") {
        Some(Key::KeyR)
    } else if chars_are(w, "s") {
        Some(Key::KeyS)
    } else if chars_are(w, "t") {
        Some(Key::KeyT)
    } else if chars_are(w, "u") {
        Some(Key::KeyU)
    } else if chars_are(w, "v") {
        Some(Key::KeyV)
    } else if chars_are(w, "w") {
        Some(Key::KeyW)
    } else if chars_are(w, "x") {
        Some(Key::KeyX)
    } else if chars_are(w, "y") {
        Some(Key::KeyY)
    } else if chars_are(w, "z") {
        Some(Key::KeyZ)
    } else if chars_are(w, "space") {
        Some(Key::Space)
    } else if chars_are(w, "tab") {
        Some(Key::Tab)
    } else if chars_are(w, "uparrow") {
        Some(Key::UpArrow)
    } else if chars_are(w, "printscreen") {
        Some(Key::PrintScreen)
    } else if chars_are(w, "scrolllock") {
        Some(Key::ScrollLock)
    } else if chars_are(w, "pause") {
        Some(Key::Pause)
    } else if chars_are(w, "numlock") {
        Some(Key::NumLock)
    } else if chars_are(w, "`") {
        Some(Key::BackQuote)
    } else if chars_are(w, "1") {
        Some(Key::Num1)
    } else if chars_are(w, "2") {
        Some(Key::Num2)
    } else if chars_are(w, "3") {
        Some(Key::Num3)
    } else if chars_are(w, "4") {
        Some(Key::Num4)
    } else if chars_are(w, "5") {
        Some(Key::Num5)
    } else if chars_are(w, "6") {
        Some(Key::Num6)
    } else if chars_are(w, "7") {
        Some(Key::Num7)
    } else if chars_are(w, "8") {
        Some(Key::Num8)
    } else if chars_are(w, "9") {
        Some(Key::Num9)
    } else if chars_are(w, "0") {
        Some(Key::Num0)
    } else if chars_are(w, "-") {
        Some(Key::Minus)
    } else if chars_are(w, "=") {
        Some(Key::Equal)
    } else if chars_are(w, "(") {
        Some(Key::LeftBracket)
    } else if chars_are(w, ")") {
        Some(Key::RightBracket)
    } else if chars_are(w, ";") {
        Some(Key::SemiColon)
    } else if chars_are(w, "\"") {
        Some(Key::Quote)
    } else if chars_are(w, "\\") {
        Some(Key::BackSlash)
    } else if chars_are(w, "intlbackslash") {
        Some(Key::IntlBackslash)
    } else if chars_are(w, "),") {
        Some(Key::Comma)
    } else if chars_are(w, ".") {
        Some(Key::Dot)
    } else if chars_are(w, "/") {
        Some(Key::Slash)
    } else if chars_are(w, "insert") {
        Some(Key::Insert)
    } else if chars_are(w, "kpreturn") {
        Some(Key::KpReturn)
    } else if chars_are(w, "kpminus") {
        Some(Key::KpMinus)
    } else if chars_are(w, "kpplus") {
        Some(Key::KpPlus)
    } else if chars_are(w, "kpmultiply") {
        Some(Key::KpMultiply)
    } else if chars_are(w, "kpdivide") {
        Some(Key::KpDivide)
    } else if chars_are(w, "kp0") {
        Some(Key::Kp0)
    } else if chars_are(w, "kp1") {
        Some(Key::Kp1)
    } else if chars_are(w, "kp2") {
        Some(Key::Kp2)
    } else if chars_are(w, "kp3") {
        Some(Key::Kp3)
    } else if chars_are(w, "kp4") {
        Some(Key::Kp4)
    } else if chars_are(w, "kp5") {
        Some(Key::Kp5)
    } else if chars_are(w, "kp6") {
        Some(Key::Kp6)
    } else if chars_are(w, "kp7") {
        Some(Key::Kp7)
    } else if chars_are(w, "kp8") {
        Some(Key::Kp8)
    } else if chars_are(w, "kp9") {
        Some(Key::Kp9)
    } else if chars_are(w, "kpdelete") {
        Some(Key::KpDelete)
    } else if chars_are(w, "function") {
        Some(Key::Function)
    } else if chars_are(w, "alt") {
        Some(Key::Alt)
    } else if chars_are(w, "altgr") {
        Some(Key::AltGr)
    } else if chars_are(w, "backspace") {
        Some(Key::Backspace)
    } else if chars_are(w, "capslock") {
        Some(Key::CapsLock)
    } else if chars_are(w, "ctrlleft") {
        Some(Key::ControlLeft)
    } else if chars_are(w, "ctrlright") {
        Some(Key::ControlRight)
    } else if chars_are(w, "delete") {
        Some(Key::Delete)
    } else if chars_are(w, "downarrow") {
        Some(Key::DownArrow)
    } else if chars_are(w, "end") {
        Some(Key::End)
    } else if chars_are(w, "esc") {
        Some(Key::Escape)
    } else if chars_are(w, "f1") {
        Some(Key::F1)
    } else if chars_are(w, "f10") {
        Some(Key::F10)
    } else if chars_are(w, "f11") {
        Some(Key::F11)
    } else if chars_are(w, "f12") {
        Some(Key::F12)
    } else if chars_are(w, "f2") {
        Some(Key::F2)
    } else if chars_are(w, "f3") {
        Some(Key::F3)
    } else if chars_are(w, "f4") {
        Some(Key::F4)
    } else if chars_are(w, "f5") {
        Some(Key::F5)
    } else if chars_are(w, "f6") {
        Some(Key::F6)
    } else if chars_are(w, "f7") {
        Some(Key::F7)
    } else if chars_are(w, "f8") {
        Some(Key::F8)
    } else if chars_are(w, "f9") {
        Some(Key::F9)
    } else if chars_are(w, "home") {
        Some(Key::Home)
    } else if chars_are(w, "leftarrow") {
        Some(Key::LeftArrow)
    } else if chars_are(w, "metaleft") {
        Some(Key::MetaLeft)
    } else if chars_are(w, "metaright") {
        Some(Key::MetaRight)
    } else if chars_are(w, "pagedown") {
        Some(Key::PageDown)
    } else if chars_are(w, "pageup") {
        Some(Key::PageUp)
    } else if chars_are(w, "return") {
        Some(Key::Return)
    } else if chars_are(w, "rightarrow") {
        Some(Key::RightArrow)
    } else if chars_are(w, "shiftleft") {
        Some(Key::ShiftLeft)
    } else if chars_are(w, "shiftright") {
        Some(Key::ShiftRight)
    } else {
        None
    }
}

/// Parses the name of a key, such as `a`, `space` or `f12`.
pub fn string_to_keys(c: &str) -> (key: Option<Key>)
    ensures
        key == key_from_name(c@),
{
    let chars = chars_of(c);
    key_from_chars(&chars)
}

/// The text a mouse button is shown with on its keyframe.
pub open spec fn button_label(b: Button) -> Seq<char> {
    match b {
        Button::Left => icon_glyph(Icon::MouseLeftClick),
        Button::Right => icon_glyph(Icon::MouseRightClick),
        Button::Middle => icon_glyph(Icon::MouseMiddleClick),
        Button::Unknown(_) => Seq::empty(),
    }
}

/// Renders a mouse button as the icon shown on its keyframe.
pub fn button_to_char(b: &Button) -> (label: String)
    ensures
        label@ == button_label(*b),
{
    match b {
        Button::Left => icon_text(Icon::MouseLeftClick),
        Button::Right => icon_text(Icon::MouseRightClick),
        Button::Middle => icon_text(Icon::MouseMiddleClick),
        Button::Unknown(_) => String::new(),
    }
}

/// The text a scroll keyframe is shown with: an icon when it scrolls
/// sideways, nothing otherwise.
pub open spec fn scroll_label(horizontal: bool) -> Seq<char> {
    if horizontal {
        icon_glyph(Icon::ArrowsHorizontal)
    } else {
        Seq::empty()
    }
}

/// Renders a scroll keyframe; `horizontal` tells whether its delta has a
/// sideways component.
pub fn scroll_to_char(horizontal: bool) -> (label: String)
    ensures
        label@ == scroll_label(horizontal),
{
    if horizontal {
        icon_text(Icon::ArrowsHorizontal)
    } else {
        String::new()
    }
}

/// The labels of a sequence of keys, one after the other.
pub open spec fn keys_label(keys: Seq<Key>) -> Seq<char>
    decreases keys.len(),
{
    if keys.len() == 0 {
        Seq::empty()
    } else {
        keys_label(keys.drop_last()) + key_label(keys.last())
    }
}

/// Renders a chord of keys as the labels of its keys, concatenated.
pub fn keys_to_string(keys: &Vec<Key>) -> (text: String)
    ensures
        text@ == keys_label(keys@),
{
    let mut text = String::new();
    let mut i: usize = 0;
    while i < keys.len()
        invariant
            i <= keys.len(),
            text@ == keys_label(keys@.take(i as int)),
        decreases keys.len() - i,
    {
        let label = key_to_char(&keys[i]);
        text.append(label.as_str());
        assert(keys@.take(i + 1).drop_last() =~= keys@.take(i as int));
        i = i + 1;
    }
    assert(keys@.take(keys.len() as int) =~= keys@);
    text
}

/// The pieces of `s` between the spaces, as `str::split(' ')` cuts them:
/// there is always at least one, and two spaces in a row leave an empty
/// piece between them.
pub open spec fn words(s: Seq<char>) -> Seq<Seq<char>>
    decreases s.len(),
{
    if s.len() == 0 {
        seq![Seq::empty()]
    } else {
        let w = words(s.drop_last());
        if s.last() == ' ' {
            w.push(Seq::empty())
        } else {
            w.update(w.len() - 1, w.last().push(s.last()))
        }
    }
}

/// Keys named by single characters of a word, skipping those that name none.
pub open spec fn char_keys(w: Seq<char>) -> Seq<Key>
    decreases w.len(),
{
    if w.len() == 0 {
        Seq::empty()
    } else {
        char_keys(w.drop_last()) + match key_from_name(seq![w.last()]) {
            Some(k) => seq![k],
            None => Seq::empty(),
        }
    }
}

/// Keys of one word: the key it names, else the keys its characters name.
pub open spec fn word_keys(w: Seq<char>) -> Seq<Key> {
    match key_from_name(w) {
        Some(k) => seq![k],
        None => char_keys(w),
    }
}

/// Keys of a sequence of words, in order.
pub open spec fn words_keys(ws: Seq<Seq<char>>) -> Seq<Key>
    decreases ws.len(),
{
    if ws.len() == 0 {
        Seq::empty()
    } else {
        words_keys(ws.drop_last()) + word_keys(ws.last())
    }
}

/// Keys of the characters of a word that name one.
fn keys_of_chars(w: &Vec<char>) -> (keys: Vec<Key>)
    ensures
        keys@ == char_keys(w@),
{
    let mut keys: Vec<Key> = Vec::new();
    let mut i: usize = 0;
    while i < w.len()
        invariant
            i <= w.len(),
            keys@ == char_keys(w@.take(i as int)),
        decreases w.len() - i,
    {
        let single = vec![w[i]];
        let found = key_from_chars(&single);
        proof {
            assert(w@.take(i + 1).drop_last() =~= w@.take(i as int));
            assert(single@ =~= seq![w@.take(i + 1).last()]);
        }
        match found {
            Some(k) => keys.push(k),
            None => {},
        }
        i = i + 1;
    }
    assert(w@.take(w.len() as int) =~= w@);
    keys
}

/// Parses a line of key names separated by spaces, such as `ctrlleft c`.
/// A piece that names no key is read character by character, and each
/// character that names a key gives that key.
pub fn strings_to_keys(string: &String) -> (keys: Vec<Key>)
    ensures
        keys@ == words_keys(words(string@)),
{
    let chars = chars_of(string.as_str());
    let mut keys: Vec<Key> = Vec::new();
    let mut word: Vec<char> = Vec::new();
    let mut i: usize = 0;
    proof {
        assert(chars@.take(0) =~= Seq::<char>::empty());
        assert(words(Seq::<char>::empty()).drop_last() =~= Seq::<Seq<char>>::empty());
    }
    while i < chars.len()
        invariant
            i <= chars.len(),
            chars@ == string@,
            words(chars@.take(i as int)).len() >= 1,
            word@ == words(chars@.take(i as int)).last(),
            keys@ == words_keys(words(chars@.take(i as int)).drop_last()),
        decreases chars.len() - i,
    {
        let c = chars[i];
        let ghost before = words(chars@.take(i as int));
        proof {
            assert(chars@.take(i + 1).drop_last() =~= chars@.take(i as int));
            assert(chars@.take(i + 1).last() == c);
        }
        if c == ' ' {
            let found = key_from_chars(&word);
            match found {
                Some(k) => keys.push(k),
                None => {
                    let mut more = keys_of_chars(&word);
                    keys.append(&mut more);
                },
            }
            proof {
                let after = words(chars@.take(i + 1));
                assert(after == before.push(Seq::empty()));
                assert(after.drop_last() =~= before);
                assert(before =~= before.drop_last().push(before.last()));
            }
            word = Vec::new();
        } else {
            word.push(c);
            proof {
                let after = words(chars@.take(i + 1));
                assert(after == before.update(before.len() - 1, before.last().push(c)));
                assert(after.drop_last() =~= before.drop_last());
            }
        }
        i = i + 1;
    }
    let found = key_from_chars(&word);
    match found {
        Some(k) => keys.push(k),
        None => {
            let mut more = keys_of_chars(&word);
            keys.append(&mut more);
        },
    }
    proof {
        let ws = words(chars@.take(i as int));
        assert(chars@.take(i as int) =~= string@);
        assert(ws =~= ws.drop_last().push(ws.last()));
    }
    keys
}

} // verus!
