//! The key resolution table: human-readable key and modifier names mapped to
//! key identifiers.

use vstd::prelude::*;
use vstd::string::*;

use crate::text::{ascii_lowered, is_ascii_text, lower_of, str_eq, to_lower};

verus! {

/// A key identifier, independent of any platform's input layer.
#[derive(Clone, Copy, Debug, PartialEq, Eq, Structural)]
pub enum KeyId {
    Control,
    Alt,
    Shift,
    Meta,
    Return,
    Escape,
    Backspace,
    Delete,
    Tab,
    Space,
    CapsLock,
    UpArrow,
    DownArrow,
    LeftArrow,
    RightArrow,
    PageUp,
    PageDown,
    F1,
    F2,
    F3,
    F4,
    F5,
    F6,
    F7,
    F8,
    F9,
    F10,
    F11,
    F12,
    VolumeUp,
    VolumeDown,
    VolumeMute,
    /// A key that produces the given character on the current layout.
    Char(char),
}

/// The key that an already lowercased name stands for, if any.
pub open spec fn key_of_lower(s: Seq<char>) -> Option<KeyId> {
    if s == "ctrl"@ || s == "control"@ {
        Some(KeyId::Control)
    } else if s == "alt"@ {
        Some(KeyId::Alt)
    } else if s == "shift"@ {
        Some(KeyId::Shift)
    } else if s == "win"@ || s == "super"@ || s == "meta"@ {
        Some(KeyId::Meta)
    } else if s == "enter"@ || s == "return"@ {
        Some(KeyId::Return)
    } else if s == "escape"@ || s == "esc"@ {
        Some(KeyId::Escape)
    } else if s == "backspace"@ || s == "back"@ {
        Some(KeyId::Backspace)
    } else if s == "delete"@ || s == "del"@ {
        Some(KeyId::Delete)
    } else if s == "tab"@ {
        Some(KeyId::Tab)
    } else if s == "space"@ {
        Some(KeyId::Space)
    } else if s == "capslock"@ {
        Some(KeyId::CapsLock)
    } else if s == "up"@ {
        Some(KeyId::UpArrow)
    } else if s == "down"@ {
        Some(KeyId::DownArrow)
    } else if s == "left"@ {
        Some(KeyId::LeftArrow)
    } else if s == "right"@ {
        Some(KeyId::RightArrow)
    } else if s == "pageup"@ || s == "page_up"@ {
        Some(KeyId::PageUp)
    } else if s == "pagedown"@ || s == "page_down"@ {
        Some(KeyId::PageDown)
    } else if s == "f1"@ {
        Some(KeyId::F1)
    } else if s == "f2"@ {
        Some(KeyId::F2)
    } else if s == "f3"@ {
        Some(KeyId::F3)
    } else if s == "f4"@ {
        Some(KeyId::F4)
    } else if s == "f5"@ {
        Some(KeyId::F5)
    } else if s == "f6"@ {
        Some(KeyId::F6)
    } else if s == "f7"@ {
        Some(KeyId::F7)
    } else if s == "f8"@ {
        Some(KeyId::F8)
    } else if s == "f9"@ {
        Some(KeyId::F9)
    } else if s == "f10"@ {
        Some(KeyId::F10)
    } else if s == "f11"@ {
        Some(KeyId::F11)
    } else if s == "f12"@ {
        Some(KeyId::F12)
    } else if s == "a"@ {
        Some(KeyId::Char('a'))
    } else if s == "b"@ {
        Some(KeyId::Char('b'))
    } else if s == "c"@ {
        Some(KeyId::Char('c'))
    } else if s == "d"@ {
        Some(KeyId::Char('d'))
    } else if s == "e"@ {
        Some(KeyId::Char('e'))
    } else if s == "f"@ {
        Some(KeyId::Char('f'))
    } else if s == "g"@ {
        Some(KeyId::Char('g'))
    } else if s == "h"@ {
        Some(KeyId::Char('h'))
    } else if s == "i"@ {
        Some(KeyId::Char('i'))
    } else if s == "j"@ {
        Some(KeyId::Char('j'))
    } else if s == "k"@ {
        Some(KeyId::Char('k'))
    } else if s == "l"@ {
        Some(KeyId::Char('l'))
    } else if s == "m"@ {
        Some(KeyId::Char('m'))
    } else if s == "n"@ {
        Some(KeyId::Char('n'))
    } else if s == "o"@ {
        Some(KeyId::Char('o'))
    } else if s == "p"@ {
        Some(KeyId::Char('p'))
    } else if s == "q"@ {
        Some(KeyId::Char('q'))
    } else if s == "r"@ {
        Some(KeyId::Char('r'))
    } else if s == "s"@ {
        Some(KeyId::Char('s'))
    } else if s == "t"@ {
        Some(KeyId::Char('t'))
    } else if s == "u"@ {
        Some(KeyId::Char('u'))
    } else if s == "v"@ {
        Some(KeyId::Char('v'))
    } else if s == "w"@ {
        Some(KeyId::Char('w'))
    } else if s == "x"@ {
        Some(KeyId::Char('x'))
    } else if s == "y"@ {
        Some(KeyId::Char('y'))
    } else if s == "z"@ {
        Some(KeyId::Char('z'))
    } else if s == "0"@ {
        Some(KeyId::Char('0'))
    } else if s == "1"@ {
        Some(KeyId::Char('1'))
    } else if s == "2"@ {
        Some(KeyId::Char('2'))
    } else if s == "3"@ {
        Some(KeyId::Char('3'))
    } else if s == "4"@ {
        Some(KeyId::Char('4'))
    } else if s == "5"@ {
        Some(KeyId::Char('5'))
    } else if s == "6"@ {
        Some(KeyId::Char('6'))
    } else if s == "7"@ {
        Some(KeyId::Char('7'))
    } else if s == "8"@ {
        Some(KeyId::Char('8'))
    } else if s == "9"@ {
        Some(KeyId::Char('9'))
    } else {
        None
    }
}

/// The key that a name stands for: matching ignores case.
pub open spec fn resolve_spec(name: Seq<char>) -> Option<KeyId> {
    key_of_lower(lower_of(name))
}

/// Looks up a name that is already in lowercase.
pub fn resolve_lowered(s: &str) -> (r: Option<KeyId>)
    ensures
        r == key_of_lower(s@),
{
    if str_eq(s, "ctrl") || str_eq(s, "control") {
        Some(KeyId::Control)
    } else if str_eq(s, "alt") {
        Some(KeyId::Alt)
    } else if str_eq(s, "shift") {
        Some(KeyId::Shift)
    } else if str_eq(s, "win") || str_eq(s, "super") || str_eq(s, "meta") {
        Some(KeyId::Meta)
    } else if str_eq(s, "enter") || str_eq(s, "return") {
        Some(KeyId::Return)
    } else if str_eq(s, "escape") || str_eq(s, "esc") {
        Some(KeyId::Escape)
    } else if str_eq(s, "backspace") || str_eq(s, "back") {
        Some(KeyId::Backspace)
    } else if str_eq(s, "delete") || str_eq(s, "del") {
        Some(KeyId::Delete)
    } else if str_eq(s, "tab") {
        Some(KeyId::Tab)
    } else if str_eq(s, "space") {
        Some(KeyId::Space)
    } else if str_eq(s, "capslock") {
        Some(KeyId::CapsLock)
    } else if str_eq(s, "up") {
        Some(KeyId::UpArrow)
    } else if str_eq(s, "down") {
        Some(KeyId::DownArrow)
    } else if str_eq(s, "left") {
        Some(KeyId::LeftArrow)
    } else if str_eq(s, "right") {
        Some(KeyId::RightArrow)
    } else if str_eq(s, "pageup") || str_eq(s, "page_up") {
        Some(KeyId::PageUp)
    } else if str_eq(s, "pagedown") || str_eq(s, "page_down") {
        Some(KeyId::PageDown)
    } else if str_eq(s, "f1") {
        Some(KeyId::F1)
    } else if str_eq(s, "f2") {
        Some(KeyId::F2)
    } else if str_eq(s, "f3") {
        Some(KeyId::F3)
    } else if str_eq(s, "f4") {
        Some(KeyId::F4)
    } else if str_eq(s, "f5") {
        Some(KeyId::F5)
    } else if str_eq(s, "f6") {
        Some(KeyId::F6)
    } else if str_eq(s, "f7") {
        Some(KeyId::F7)
    } else if str_eq(s, "f8") {
        Some(KeyId::F8)
    } else if str_eq(s, "f9") {
        Some(KeyId::F9)
    } else if str_eq(s, "f10") {
        Some(KeyId::F10)
    } else if str_eq(s, "f11") {
        Some(KeyId::F11)
    } else if str_eq(s, "f12") {
        Some(KeyId::F12)
    } else if str_eq(s, "a") {
        Some(KeyId::Char('a'))
    } else if str_eq(s, "b") {
        Some(KeyId::Char('b'))
    } else if str_eq(s, "c") {
        Some(KeyId::Char('c'))
    } else if str_eq(s, "d") {
        Some(KeyId::Char('d'))
    } else if str_eq(s, "e") {
        Some(KeyId::Char('e'))
    } else if str_eq(s, "f") {
        Some(KeyId::Char('f'))
    } else if str_eq(s, "g") {
        Some(KeyId::Char('g'))
    } else if str_eq(s, "h") {
        Some(KeyId::Char('h'))
    } else if str_eq(s, "i") {
        Some(KeyId::Char('i'))
    } else if str_eq(s, "j") {
        Some(KeyId::Char('j'))
    } else if str_eq(s, "k") {
        Some(KeyId::Char('k'))
    } else if str_eq(s, "l") {
        Some(KeyId::Char('l'))
    } else if str_eq(s, "m") {
        Some(KeyId::Char('m'))
    } else if str_eq(s, "n") {
        Some(KeyId::Char('n'))
    } else if str_eq(s, "o") {
        Some(KeyId::Char('o'))
    } else if str_eq(s, "p") {
        Some(KeyId::Char('p'))
    } else if str_eq(s, "q") {
        Some(KeyId::Char('q'))
    } else if str_eq(s, "r") {
        Some(KeyId::Char('r'))
    } else if str_eq(s, "s") {
        Some(KeyId::Char('s'))
    } else if str_eq(s, "t") {
        Some(KeyId::Char('t'))
    } else if str_eq(s, "u") {
        Some(KeyId::Char('u'))
    } else if str_eq(s, "v") {
        Some(KeyId::Char('v'))
    } else if str_eq(s, "w") {
        Some(KeyId::Char('w'))
    } else if str_eq(s, "x") {
        Some(KeyId::Char('x'))
    } else if str_eq(s, "y") {
        Some(KeyId::Char('y'))
    } else if str_eq(s, "z") {
        Some(KeyId::Char('z'))
    } else if str_eq(s, "0") {
        Some(KeyId::Char('0'))
    } else if str_eq(s, "1") {
        Some(KeyId::Char('1'))
    } else if str_eq(s, "2") {
        Some(KeyId::Char('2'))
    } else if str_eq(s, "3") {
        Some(KeyId::Char('3'))
    } else if str_eq(s, "4") {
        Some(KeyId::Char('4'))
    } else if str_eq(s, "5") {
        Some(KeyId::Char('5'))
    } else if str_eq(s, "6") {
        Some(KeyId::Char('6'))
    } else if str_eq(s, "7") {
        Some(KeyId::Char('7'))
    } else if str_eq(s, "8") {
        Some(KeyId::Char('8'))
    } else if str_eq(s, "9") {
        Some(KeyId::Char('9'))
    } else {
        None
    }
}

/// Resolves a key or modifier name, ignoring case. Names outside the table
/// give `None`.
pub fn resolve(name: &str) -> (r: Option<KeyId>)
    ensures
        r == resolve_spec(name@),
        is_ascii_text(name@) ==> r == key_of_lower(ascii_lowered(name@)),
{
    let lowered = to_lower(name);
    resolve_lowered(lowered.as_str())
}


/// Resolution ignores case: two names with the same lowercase form resolve to
/// the same key, or both to none. For ASCII names that form is the one of
/// [`ascii_lowered`], so names that differ only in letter case resolve alike.
pub proof fn lemma_resolve_ignores_case(a: Seq<char>, b: Seq<char>)
    requires
        lower_of(a) == lower_of(b),
    ensures
        resolve_spec(a) == resolve_spec(b),
{
}


/// The Linux input scan code of an already lowercased key name, if any.
pub open spec fn scan_code_of_lower(s: Seq<char>) -> Option<Seq<char>> {
    if s == "ctrl"@ || s == "control"@ {
        Some("29"@)
    } else if s == "alt"@ {
        Some("56"@)
    } else if s == "shift"@ {
        Some("42"@)
    } else if s == "win"@ || s == "super"@ || s == "meta"@ {
        Some("125"@)
    } else if s == "enter"@ || s == "return"@ {
        Some("28"@)
    } else if s == "escape"@ || s == "esc"@ {
        Some("1"@)
    } else if s == "backspace"@ || s == "back"@ {
        Some("14"@)
    } else if s == "space"@ {
        Some("57"@)
    } else if s == "tab"@ {
        Some("15"@)
    } else if s == "delete"@ || s == "del"@ {
        Some("111"@)
    } else if s == "home"@ {
        Some("102"@)
    } else if s == "end"@ {
        Some("107"@)
    } else if s == "pageup"@ || s == "page_up"@ {
        Some("104"@)
    } else if s == "pagedown"@ || s == "page_down"@ {
        Some("109"@)
    } else if s == "up"@ || s == "uparrow"@ {
        Some("103"@)
    } else if s == "down"@ || s == "downarrow"@ {
        Some("108"@)
    } else if s == "left"@ || s == "leftarrow"@ {
        Some("105"@)
    } else if s == "right"@ || s == "rightarrow"@ {
        Some("106"@)
    } else if s == "f1"@ {
        Some("59"@)
    } else if s == "f2"@ {
        Some("60"@)
    } else if s == "f3"@ {
        Some("61"@)
    } else if s == "f4"@ {
        Some("62"@)
    } else if s == "f5"@ {
        Some("63"@)
    } else if s == "f6"@ {
        Some("64"@)
    } else if s == "f7"@ {
        Some("65"@)
    } else if s == "f8"@ {
        Some("66"@)
    } else if s == "f9"@ {
        Some("67"@)
    } else if s == "f10"@ {
        Some("68"@)
    } else if s == "f11"@ {
        Some("87"@)
    } else if s == "f12"@ {
        Some("88"@)
    } else if s == "a"@ {
        Some("30"@)
    } else if s == "b"@ {
        Some("48"@)
    } else if s == "c"@ {
        Some("46"@)
    } else if s == "d"@ {
        Some("32"@)
    } else if s == "e"@ {
        Some("18"@)
    } else if s == "f"@ {
        Some("33"@)
    } else if s == "g"@ {
        Some("34"@)
    } else if s == "h"@ {
        Some("35"@)
    } else if s == "i"@ {
        Some("23"@)
    } else if s == "j"@ {
        Some("36"@)
    } else if s == "k"@ {
        Some("37"@)
    } else if s == "l"@ {
        Some("38"@)
    } else if s == "m"@ {
        Some("50"@)
    } else if s == "n"@ {
        Some("49"@)
    } else if s == "o"@ {
        Some("24"@)
    } else if s == "p"@ {
        Some("25"@)
    } else if s == "q"@ {
        Some("16"@)
    } else if s == "r"@ {
        Some("19"@)
    } else if s == "s"@ {
        Some("31"@)
    } else if s == "t"@ {
        Some("20"@)
    } else if s == "u"@ {
        Some("22"@)
    } else if s == "v"@ {
        Some("47"@)
    } else if s == "w"@ {
        Some("17"@)
    } else if s == "x"@ {
        Some("45"@)
    } else if s == "y"@ {
        Some("21"@)
    } else if s == "z"@ {
        Some("44"@)
    } else {
        None
    }
}

/// Looks up the scan code of a name that is already in lowercase.
pub fn scan_code_lowered(s: &str) -> (r: Option<String>)
    ensures
        r.deep_view() == scan_code_of_lower(s@),
{
    if str_eq(s, "ctrl") || str_eq(s, "control") {
        Some(String::from_str("29"))
    } else if str_eq(s, "alt") {
        Some(String::from_str("56"))
    } else if str_eq(s, "shift") {
        Some(String::from_str("42"))
    } else if str_eq(s, "win") || str_eq(s, "super") || str_eq(s, "meta") {
        Some(String::from_str("125"))
    } else if str_eq(s, "enter") || str_eq(s, "return") {
        Some(String::from_str("28"))
    } else if str_eq(s, "escape") || str_eq(s, "esc") {
        Some(String::from_str("1"))
    } else if str_eq(s, "backspace") || str_eq(s, "back") {
        Some(String::from_str("14"))
    } else if str_eq(s, "space") {
        Some(String::from_str("57"))
    } else if str_eq(s, "tab") {
        Some(String::from_str("15"))
    } else if str_eq(s, "delete") || str_eq(s, "del") {
        Some(String::from_str("111"))
    } else if str_eq(s, "home") {
        Some(String::from_str("102"))
    } else if str_eq(s, "end") {
        Some(String::from_str("107"))
    } else if str_eq(s, "pageup") || str_eq(s, "page_up") {
        Some(String::from_str("104"))
    } else if str_eq(s, "pagedown") || str_eq(s, "page_down") {
        Some(String::from_str("109"))
    } else if str_eq(s, "up") || str_eq(s, "uparrow") {
        Some(String::from_str("103"))
    } else if str_eq(s, "down") || str_eq(s, "downarrow") {
        Some(String::from_str("108"))
    } else if str_eq(s, "left") || str_eq(s, "leftarrow") {
        Some(String::from_str("105"))
    } else if str_eq(s, "right") || str_eq(s, "rightarrow") {
        Some(String::from_str("106"))
    } else if str_eq(s, "f1") {
        Some(String::from_str("59"))
    } else if str_eq(s, "f2") {
        Some(String::from_str("60"))
    } else if str_eq(s, "f3") {
        Some(String::from_str("61"))
    } else if str_eq(s, "f4") {
        Some(String::from_str("62"))
    } else if str_eq(s, "f5") {
        Some(String::from_str("63"))
    } else if str_eq(s, "f6") {
        Some(String::from_str("64"))
    } else if str_eq(s, "f7") {
        Some(String::from_str("65"))
    } else if str_eq(s, "f8") {
        Some(String::from_str("66"))
    } else if str_eq(s, "f9") {
        Some(String::from_str("67"))
    } else if str_eq(s, "f10") {
        Some(String::from_str("68"))
    } else if str_eq(s, "f11") {
        Some(String::from_str("87"))
    } else if str_eq(s, "f12") {
        Some(String::from_str("88"))
    } else if str_eq(s, "a") {
        Some(String::from_str("30"))
    } else if str_eq(s, "b") {
        Some(String::from_str("48"))
    } else if str_eq(s, "c") {
        Some(String::from_str("46"))
    } else if str_eq(s, "d") {
        Some(String::from_str("32"))
    } else if str_eq(s, "e") {
        Some(String::from_str("18"))
    } else if str_eq(s, "f") {
        Some(String::from_str("33"))
    } else if str_eq(s, "g") {
        Some(String::from_str("34"))
    } else if str_eq(s, "h") {
        Some(String::from_str("35"))
    } else if str_eq(s, "i") {
        Some(String::from_str("23"))
    } else if str_eq(s, "j") {
        Some(String::from_str("36"))
    } else if str_eq(s, "k") {
        Some(String::from_str("37"))
    } else if str_eq(s, "l") {
        Some(String::from_str("38"))
    } else if str_eq(s, "m") {
        Some(String::from_str("50"))
    } else if str_eq(s, "n") {
        Some(String::from_str("49"))
    } else if str_eq(s, "o") {
        Some(String::from_str("24"))
    } else if str_eq(s, "p") {
        Some(String::from_str("25"))
    } else if str_eq(s, "q") {
        Some(String::from_str("16"))
    } else if str_eq(s, "r") {
        Some(String::from_str("19"))
    } else if str_eq(s, "s") {
        Some(String::from_str("31"))
    } else if str_eq(s, "t") {
        Some(String::from_str("20"))
    } else if str_eq(s, "u") {
        Some(String::from_str("22"))
    } else if str_eq(s, "v") {
        Some(String::from_str("47"))
    } else if str_eq(s, "w") {
        Some(String::from_str("17"))
    } else if str_eq(s, "x") {
        Some(String::from_str("45"))
    } else if str_eq(s, "y") {
        Some(String::from_str("21"))
    } else if str_eq(s, "z") {
        Some(String::from_str("44"))
    } else {
        None
    }
}

/// The Linux input scan code of a key name, ignoring case. Names outside the
/// table give `None`.
pub fn key_to_code(name: &str) -> (r: Option<String>)
    ensures
        r.deep_view() == scan_code_of_lower(lower_of(name@)),
        is_ascii_text(name@) ==> r.deep_view() == scan_code_of_lower(ascii_lowered(name@)),
{
    let lowered = to_lower(name);
    scan_code_lowered(lowered.as_str())
}

} // verus!
