//! The keys of a keyboard, named by the codes that the browser gives them.
use vstd::prelude::*;
use vstd::string::StringExecFns;
use crate::error::Error;
use crate::key_state_map::{next_state, state_in, KeyState, KeyStateMap};
use crate::text::text_eq;

verus! {

broadcast use vstd::laws_eq::group_laws_eq;

/// A key of the keyboard.
#[derive(Debug, Eq, PartialEq, Hash, Clone, Copy, Structural)]
pub enum Button {
    ArrowDown,
    ArrowLeft,
    ArrowRight,
    ArrowUp,

    AltLeft,
    AltRight,
    Backspace,
    CapsLock,
    ControlLeft,
    ControlRight,
    Delete,
    End,
    Enter,
    Escape,
    Home,
    Insert,
    MetaLeft,
    MetaRight,
    PageDown,
    PageUp,
    ShiftLeft,
    ShiftRight,
    Space,
    Tab,

    Digit0,
    Digit1,
    Digit2,
    Digit3,
    Digit4,
    Digit5,
    Digit6,
    Digit7,
    Digit8,
    Digit9,

    F1,
    F2,
    F3,
    F4,
    F5,
    F6,
    F7,
    F8,
    F9,
    F10,
    F11,
    F12,

    KeyA,
    KeyB,
    KeyC,
    KeyD,
    KeyE,
    KeyF,
    KeyG,
    KeyH,
    KeyI,
    KeyJ,
    KeyK,
    KeyL,
    KeyM,
    KeyN,
    KeyO,
    KeyP,
    KeyQ,
    KeyR,
    KeyS,
    KeyT,
    KeyU,
    KeyV,
    KeyW,
    KeyX,
    KeyY,
    KeyZ,

    Backquote,
    Backslash,
    BracketLeft,
    BracketRight,
    Comma,
    Equal,
    Minus,
    Period,
    Quote,
    Semicolon,
    Slash,

    NumLock,
    Numpad0,
    Numpad1,
    Numpad2,
    Numpad3,
    Numpad4,
    Numpad5,
    Numpad6,
    Numpad7,
    Numpad8,
    Numpad9,
    NumpadAdd,
    NumpadComma,
    NumpadDecimal,
    NumpadDivide,
    NumpadEnter,
    NumpadEqual,
    NumpadMultiply,
    NumpadSubtract,
}

/// The key that a key code names, if it is one of the keys above.
pub open spec fn button_of_code(s: Seq<char>) -> Option<Button> {
    if s == "ArrowDown"@ {
        Some(Button::ArrowDown)
    } else if s == "ArrowLeft"@ {
        Some(Button::ArrowLeft)
    } else if s == "ArrowRight"@ {
        Some(Button::ArrowRight)
    } else if s == "ArrowUp"@ {
        Some(Button::ArrowUp)
    } else if s == "AltLeft"@ {
        Some(Button::AltLeft)
    } else if s == "AltRight"@ {
        Some(Button::AltRight)
    } else if s == "Backspace"@ {
        Some(Button::Backspace)
    } else if s == "CapsLock"@ {
        Some(Button::CapsLock)
    } else if s == "ControlLeft"@ {
        Some(Button::ControlLeft)
    } else if s == "ControlRight"@ {
        Some(Button::ControlRight)
    } else if s == "Delete"@ {
        Some(Button::Delete)
    } else if s == "End"@ {
        Some(Button::End)
    } else if s == "Enter"@ {
        Some(Button::Enter)
    } else if s == "Escape"@ {
        Some(Button::Escape)
    } else if s == "Home"@ {
        Some(Button::Home)
    } else if s == "Insert"@ {
        Some(Button::Insert)
    } else if s == "MetaLeft"@ {
        Some(Button::MetaLeft)
    } else if s == "MetaRight"@ {
        Some(Button::MetaRight)
    } else if s == "PageDown"@ {
        Some(Button::PageDown)
    } else if s == "PageUp"@ {
        Some(Button::PageUp)
    } else if s == "ShiftLeft"@ {
        Some(Button::ShiftLeft)
    } else if s == "ShiftRight"@ {
        Some(Button::ShiftRight)
    } else if s == "Space"@ {
        Some(Button::Space)
    } else if s == "Tab"@ {
        Some(Button::Tab)
    } else if s == "Digit0"@ {
        Some(Button::Digit0)
    } else if s == "Digit1"@ {
        Some(Button::Digit1)
    } else if s == "Digit2"@ {
        Some(Button::Digit2)
    } else if s == "Digit3"@ {
        Some(Button::Digit3)
    } else if s == "Digit4"@ {
        Some(Button::Digit4)
    } else if s == "Digit5"@ {
        Some(Button::Digit5)
    } else if s == "Digit6"@ {
        Some(Button::Digit6)
    } else if s == "Digit7"@ {
        Some(Button::Digit7)
    } else if s == "Digit8"@ {
        Some(Button::Digit8)
    } else if s == "Digit9"@ {
        Some(Button::Digit9)
    } else if s == "F1"@ {
        Some(Button::F1)
    } else if s == "F2"@ {
        Some(Button::F2)
    } else if s == "F3"@ {
        Some(Button::F3)
    } else if s == "F4"@ {
        Some(Button::F4)
    } else if s == "F5"@ {
        Some(Button::F5)
    } else if s == "F6"@ {
        Some(Button::F6)
    } else if s == "F7"@ {
        Some(Button::F7)
    } else if s == "F8"@ {
        Some(Button::F8)
    } else if s == "F9"@ {
        Some(Button::F9)
    } else if s == "F10"@ {
        Some(Button::F10)
    } else if s == "F11"@ {
        Some(Button::F11)
    } else if s == "F12"@ {
        Some(Button::F12)
    } else if s == "KeyA"@ {
        Some(Button::KeyA)
    } else if s == "KeyB"@ {
        Some(Button::KeyB)
    } else if s == "KeyC"@ {
        Some(Button::KeyC)
    } else if s == "KeyD"@ {
        Some(Button::KeyD)
    } else if s == "KeyE"@ {
        Some(Button::KeyE)
    } else if s == "KeyF"@ {
        Some(Button::KeyF)
    } else if s == "KeyG"@ {
        Some(Button::KeyG)
    } else if s == "KeyH"@ {
        Some(Button::KeyH)
    } else if s == "KeyI"@ {
        Some(Button::KeyI)
    } else if s == "KeyJ"@ {
        Some(Button::KeyJ)
    } else if s == "KeyK"@ {
        Some(Button::KeyK)
    } else if s == "KeyL"@ {
        Some(Button::KeyL)
    } else if s == "KeyM"@ {
        Some(Button::KeyM)
    } else if s == "KeyN"@ {
        Some(Button::KeyN)
    } else if s == "KeyO"@ {
        Some(Button::KeyO)
    } else if s == "KeyP"@ {
        Some(Button::KeyP)
    } else if s == "KeyQ"@ {
        Some(Button::KeyQ)
    } else if s == "KeyR"@ {
        Some(Button::KeyR)
    } else if s == "KeyS"@ {
        Some(Button::KeyS)
    } else if s == "KeyT"@ {
        Some(Button::KeyT)
    } else if s == "KeyU"@ {
        Some(Button::KeyU)
    } else if s == "KeyV"@ {
        Some(Button::KeyV)
    } else if s == "KeyW"@ {
        Some(Button::KeyW)
    } else if s == "KeyX"@ {
        Some(Button::KeyX)
    } else if s == "KeyY"@ {
        Some(Button::KeyY)
    } else if s == "KeyZ"@ {
        Some(Button::KeyZ)
    } else if s == "Backquote"@ {
        Some(Button::Backquote)
    } else if s == "Backslash"@ {
        Some(Button::Backslash)
    } else if s == "BracketLeft"@ {
        Some(Button::BracketLeft)
    } else if s == "BracketRight"@ {
        Some(Button::BracketRight)
    } else if s == "Comma"@ {
        Some(Button::Comma)
    } else if s == "Equal"@ {
        Some(Button::Equal)
    } else if s == "Minus"@ {
        Some(Button::Minus)
    } else if s == "Period"@ {
        Some(Button::Period)
    } else if s == "Quote"@ {
        Some(Button::Quote)
    } else if s == "Semicolon"@ {
        Some(Button::Semicolon)
    } else if s == "Slash"@ {
        Some(Button::Slash)
    } else if s == "NumLock"@ {
        Some(Button::NumLock)
    } else if s == "Numpad0"@ {
        Some(Button::Numpad0)
    } else if s == "Numpad1"@ {
        Some(Button::Numpad1)
    } else if s == "Numpad2"@ {
        Some(Button::Numpad2)
    } else if s == "Numpad3"@ {
        Some(Button::Numpad3)
    } else if s == "Numpad4"@ {
        Some(Button::Numpad4)
    } else if s == "Numpad5"@ {
        Some(Button::Numpad5)
    } else if s == "Numpad6"@ {
        Some(Button::Numpad6)
    } else if s == "Numpad7"@ {
        Some(Button::Numpad7)
    } else if s == "Numpad8"@ {
        Some(Button::Numpad8)
    } else if s == "Numpad9"@ {
        Some(Button::Numpad9)
    } else if s == "NumpadAdd"@ {
        Some(Button::NumpadAdd)
    } else if s == "NumpadComma"@ {
        Some(Button::NumpadComma)
    } else if s == "NumpadDecimal"@ {
        Some(Button::NumpadDecimal)
    } else if s == "NumpadDivide"@ {
        Some(Button::NumpadDivide)
    } else if s == "NumpadEnter"@ {
        Some(Button::NumpadEnter)
    } else if s == "NumpadEqual"@ {
        Some(Button::NumpadEqual)
    } else if s == "NumpadMultiply"@ {
        Some(Button::NumpadMultiply)
    } else if s == "NumpadSubtract"@ {
        Some(Button::NumpadSubtract)
    } else {
        None
    }
}

/// The text of the error for a key code that names no key.
pub open spec fn unsupported_key_message(s: Seq<char>) -> Seq<char> {
    "Unsupported keyboard key code: '"@ + s + "'"@
}

/// The position of a key in the list of keys.
pub open spec fn spec_index(b: Button) -> u8 {
    match b {
        Button::ArrowDown => 0,
        Button::ArrowLeft => 1,
        Button::ArrowRight => 2,
        Button::ArrowUp => 3,
        Button::AltLeft => 4,
        Button::AltRight => 5,
        Button::Backspace => 6,
        Button::CapsLock => 7,
        Button::ControlLeft => 8,
        Button::ControlRight => 9,
        Button::Delete => 10,
        Button::End => 11,
        Button::Enter => 12,
        Button::Escape => 13,
        Button::Home => 14,
        Button::Insert => 15,
        Button::MetaLeft => 16,
        Button::MetaRight => 17,
        Button::PageDown => 18,
        Button::PageUp => 19,
        Button::ShiftLeft => 20,
        Button::ShiftRight => 21,
        Button::Space => 22,
        Button::Tab => 23,
        Button::Digit0 => 24,
        Button::Digit1 => 25,
        Button::Digit2 => 26,
        Button::Digit3 => 27,
        Button::Digit4 => 28,
        Button::Digit5 => 29,
        Button::Digit6 => 30,
        Button::Digit7 => 31,
        Button::Digit8 => 32,
        Button::Digit9 => 33,
        Button::F1 => 34,
        Button::F2 => 35,
        Button::F3 => 36,
        Button::F4 => 37,
        Button::F5 => 38,
        Button::F6 => 39,
        Button::F7 => 40,
        Button::F8 => 41,
        Button::F9 => 42,
        Button::F10 => 43,
        Button::F11 => 44,
        Button::F12 => 45,
        Button::KeyA => 46,
        Button::KeyB => 47,
        Button::KeyC => 48,
        Button::KeyD => 49,
        Button::KeyE => 50,
        Button::KeyF => 51,
        Button::KeyG => 52,
        Button::KeyH => 53,
        Button::KeyI => 54,
        Button::KeyJ => 55,
        Button::KeyK => 56,
        Button::KeyL => 57,
        Button::KeyM => 58,
        Button::KeyN => 59,
        Button::KeyO => 60,
        Button::KeyP => 61,
        Button::KeyQ => 62,
        Button::KeyR => 63,
        Button::KeyS => 64,
        Button::KeyT => 65,
        Button::KeyU => 66,
        Button::KeyV => 67,
        Button::KeyW => 68,
        Button::KeyX => 69,
        Button::KeyY => 70,
        Button::KeyZ => 71,
        Button::Backquote => 72,
        Button::Backslash => 73,
        Button::BracketLeft => 74,
        Button::BracketRight => 75,
        Button::Comma => 76,
        Button::Equal => 77,
        Button::Minus => 78,
        Button::Period => 79,
        Button::Quote => 80,
        Button::Semicolon => 81,
        Button::Slash => 82,
        Button::NumLock => 83,
        Button::Numpad0 => 84,
        Button::Numpad1 => 85,
        Button::Numpad2 => 86,
        Button::Numpad3 => 87,
        Button::Numpad4 => 88,
        Button::Numpad5 => 89,
        Button::Numpad6 => 90,
        Button::Numpad7 => 91,
        Button::Numpad8 => 92,
        Button::Numpad9 => 93,
        Button::NumpadAdd => 94,
        Button::NumpadComma => 95,
        Button::NumpadDecimal => 96,
        Button::NumpadDivide => 97,
        Button::NumpadEnter => 98,
        Button::NumpadEqual => 99,
        Button::NumpadMultiply => 100,
        Button::NumpadSubtract => 101,
    }
}

/// The key at a position of the list of keys.
pub open spec fn button_at(i: u8) -> Option<Button> {
    match i {
        0 => Some(Button::ArrowDown),
        1 => Some(Button::ArrowLeft),
        2 => Some(Button::ArrowRight),
        3 => Some(Button::ArrowUp),
        4 => Some(Button::AltLeft),
        5 => Some(Button::AltRight),
        6 => Some(Button::Backspace),
        7 => Some(Button::CapsLock),
        8 => Some(Button::ControlLeft),
        9 => Some(Button::ControlRight),
        10 => Some(Button::Delete),
        11 => Some(Button::End),
        12 => Some(Button::Enter),
        13 => Some(Button::Escape),
        14 => Some(Button::Home),
        15 => Some(Button::Insert),
        16 => Some(Button::MetaLeft),
        17 => Some(Button::MetaRight),
        18 => Some(Button::PageDown),
        19 => Some(Button::PageUp),
        20 => Some(Button::ShiftLeft),
        21 => Some(Button::ShiftRight),
        22 => Some(Button::Space),
        23 => Some(Button::Tab),
        24 => Some(Button::Digit0),
        25 => Some(Button::Digit1),
        26 => Some(Button::Digit2),
        27 => Some(Button::Digit3),
        28 => Some(Button::Digit4),
        29 => Some(Button::Digit5),
        30 => Some(Button::Digit6),
        31 => Some(Button::Digit7),
        32 => Some(Button::Digit8),
        33 => Some(Button::Digit9),
        34 => Some(Button::F1),
        35 => Some(Button::F2),
        36 => Some(Button::F3),
        37 => Some(Button::F4),
        38 => Some(Button::F5),
        39 => Some(Button::F6),
        40 => Some(Button::F7),
        41 => Some(Button::F8),
        42 => Some(Button::F9),
        43 => Some(Button::F10),
        44 => Some(Button::F11),
        45 => Some(Button::F12),
        46 => Some(Button::KeyA),
        47 => Some(Button::KeyB),
        48 => Some(Button::KeyC),
        49 => Some(Button::KeyD),
        50 => Some(Button::KeyE),
        51 => Some(Button::KeyF),
        52 => Some(Button::KeyG),
        53 => Some(Button::KeyH),
        54 => Some(Button::KeyI),
        55 => Some(Button::KeyJ),
        56 => Some(Button::KeyK),
        57 => Some(Button::KeyL),
        58 => Some(Button::KeyM),
        59 => Some(Button::KeyN),
        60 => Some(Button::KeyO),
        61 => Some(Button::KeyP),
        62 => Some(Button::KeyQ),
        63 => Some(Button::KeyR),
        64 => Some(Button::KeyS),
        65 => Some(Button::KeyT),
        66 => Some(Button::KeyU),
        67 => Some(Button::KeyV),
        68 => Some(Button::KeyW),
        69 => Some(Button::KeyX),
        70 => Some(Button::KeyY),
        71 => Some(Button::KeyZ),
        72 => Some(Button::Backquote),
        73 => Some(Button::Backslash),
        74 => Some(Button::BracketLeft),
        75 => Some(Button::BracketRight),
        76 => Some(Button::Comma),
        77 => Some(Button::Equal),
        78 => Some(Button::Minus),
        79 => Some(Button::Period),
        80 => Some(Button::Quote),
        81 => Some(Button::Semicolon),
        82 => Some(Button::Slash),
        83 => Some(Button::NumLock),
        84 => Some(Button::Numpad0),
        85 => Some(Button::Numpad1),
        86 => Some(Button::Numpad2),
        87 => Some(Button::Numpad3),
        88 => Some(Button::Numpad4),
        89 => Some(Button::Numpad5),
        90 => Some(Button::Numpad6),
        91 => Some(Button::Numpad7),
        92 => Some(Button::Numpad8),
        93 => Some(Button::Numpad9),
        94 => Some(Button::NumpadAdd),
        95 => Some(Button::NumpadComma),
        96 => Some(Button::NumpadDecimal),
        97 => Some(Button::NumpadDivide),
        98 => Some(Button::NumpadEnter),
        99 => Some(Button::NumpadEqual),
        100 => Some(Button::NumpadMultiply),
        101 => Some(Button::NumpadSubtract),
        _ => None,
    }
}

/// Two keys at one position are one key.
pub proof fn lemma_index_injective(a: Button, b: Button)
    ensures
        spec_index(a) == spec_index(b) ==> a == b,
{
    assert(button_at(spec_index(a)) == Some(a));
    assert(button_at(spec_index(b)) == Some(b));
}

impl Button {
    /// The key that a key code names; an error for any other code.
    pub fn new(key_code: &str) -> (r: Result<Button, Error>)
        ensures
            match button_of_code(key_code@) {
                Some(b) => r == Ok::<Button, Error>(b),
                None => r.is_err() && r->Err_0.spec_message() == unsupported_key_message(key_code@),
            },
    {
        if text_eq(key_code, "ArrowDown") {
            return Ok(Button::ArrowDown);
        }
        if text_eq(key_code, "ArrowLeft") {
            return Ok(Button::ArrowLeft);
        }
        if text_eq(key_code, "ArrowRight") {
            return Ok(Button::ArrowRight);
        }
        if text_eq(key_code, "ArrowUp") {
            return Ok(Button::ArrowUp);
        }
        if text_eq(key_code, "AltLeft") {
            return Ok(Button::AltLeft);
        }
        if text_eq(key_code, "AltRight") {
            return Ok(Button::AltRight);
        }
        if text_eq(key_code, "Backspace") {
            return Ok(Button::Backspace);
        }
        if text_eq(key_code, "CapsLock") {
            return Ok(Button::CapsLock);
        }
        if text_eq(key_code, "ControlLeft") {
            return Ok(Button::ControlLeft);
        }
        if text_eq(key_code, "ControlRight") {
            return Ok(Button::ControlRight);
        }
        if text_eq(key_code, "Delete") {
            return Ok(Button::Delete);
        }
        if text_eq(key_code, "End") {
            return Ok(Button::End);
        }
        if text_eq(key_code, "Enter") {
            return Ok(Button::Enter);
        }
        if text_eq(key_code, "Escape") {
            return Ok(Button::Escape);
        }
        if text_eq(key_code, "Home") {
            return Ok(Button::Home);
        }
        if text_eq(key_code, "Insert") {
            return Ok(Button::Insert);
        }
        if text_eq(key_code, "MetaLeft") {
            return Ok(Button::MetaLeft);
        }
        if text_eq(key_code, "MetaRight") {
            return Ok(Button::MetaRight);
        }
        if text_eq(key_code, "PageDown") {
            return Ok(Button::PageDown);
        }
        if text_eq(key_code, "PageUp") {
            return Ok(Button::PageUp);
        }
        if text_eq(key_code, "ShiftLeft") {
            return Ok(Button::ShiftLeft);
        }
        if text_eq(key_code, "ShiftRight") {
            return Ok(Button::ShiftRight);
        }
        if text_eq(key_code, "Space") {
            return Ok(Button::Space);
        }
        if text_eq(key_code, "Tab") {
            return Ok(Button::Tab);
        }
        if text_eq(key_code, "Digit0") {
            return Ok(Button::Digit0);
        }
        if text_eq(key_code, "Digit1") {
            return Ok(Button::Digit1);
        }
        if text_eq(key_code, "Digit2") {
            return Ok(Button::Digit2);
        }
        if text_eq(key_code, "Digit3") {
            return Ok(Button::Digit3);
        }
        if text_eq(key_code, "Digit4") {
            return Ok(Button::Digit4);
        }
        if text_eq(key_code, "Digit5") {
            return Ok(Button::Digit5);
        }
        if text_eq(key_code, "Digit6") {
            return Ok(Button::Digit6);
        }
        if text_eq(key_code, "Digit7") {
            return Ok(Button::Digit7);
        }
        if text_eq(key_code, "Digit8") {
            return Ok(Button::Digit8);
        }
        if text_eq(key_code, "Digit9") {
            return Ok(Button::Digit9);
        }
        if text_eq(key_code, "F1") {
            return Ok(Button::F1);
        }
        if text_eq(key_code, "F2") {
            return Ok(Button::F2);
        }
        if text_eq(key_code, "F3") {
            return Ok(Button::F3);
        }
        if text_eq(key_code, "F4") {
            return Ok(Button::F4);
        }
        if text_eq(key_code, "F5") {
            return Ok(Button::F5);
        }
        if text_eq(key_code, "F6") {
            return Ok(Button::F6);
        }
        if text_eq(key_code, "F7") {
            return Ok(Button::F7);
        }
        if text_eq(key_code, "F8") {
            return Ok(Button::F8);
        }
        if text_eq(key_code, "F9") {
            return Ok(Button::F9);
        }
        if text_eq(key_code, "F10") {
            return Ok(Button::F10);
        }
        if text_eq(key_code, "F11") {
            return Ok(Button::F11);
        }
        if text_eq(key_code, "F12") {
            return Ok(Button::F12);
        }
        if text_eq(key_code, "KeyA") {
            return Ok(Button::KeyA);
        }
        if text_eq(key_code, "KeyB") {
            return Ok(Button::KeyB);
        }
        if text_eq(key_code, "KeyC") {
            return Ok(Button::KeyC);
        }
        if text_eq(key_code, "KeyD") {
            return Ok(Button::KeyD);
        }
        if text_eq(key_code, "KeyE") {
            return Ok(Button::KeyE);
        }
        if text_eq(key_code, "KeyF") {
            return Ok(Button::KeyF);
        }
        if text_eq(key_code, "KeyG") {
            return Ok(Button::KeyG);
        }
        if text_eq(key_code, "KeyH") {
            return Ok(Button::KeyH);
        }
        if text_eq(key_code, "KeyI") {
            return Ok(Button::KeyI);
        }
        if text_eq(key_code, "KeyJ") {
            return Ok(Button::KeyJ);
        }
        if text_eq(key_code, "KeyK") {
            return Ok(Button::KeyK);
        }
        if text_eq(key_code, "KeyL") {
            return Ok(Button::KeyL);
        }
        if text_eq(key_code, "KeyM") {
            return Ok(Button::KeyM);
        }
        if text_eq(key_code, "KeyN") {
            return Ok(Button::KeyN);
        }
        if text_eq(key_code, "KeyO") {
            return Ok(Button::KeyO);
        }
        if text_eq(key_code, "KeyP") {
            return Ok(Button::KeyP);
        }
        if text_eq(key_code, "KeyQ") {
            return Ok(Button::KeyQ);
        }
        if text_eq(key_code, "KeyR") {
            return Ok(Button::KeyR);
        }
        if text_eq(key_code, "KeyS") {
            return Ok(Button::KeyS);
        }
        if text_eq(key_code, "KeyT") {
            return Ok(Button::KeyT);
        }
        if text_eq(key_code, "KeyU") {
            return Ok(Button::KeyU);
        }
        if text_eq(key_code, "KeyV") {
            return Ok(Button::KeyV);
        }
        if text_eq(key_code, "KeyW") {
            return Ok(Button::KeyW);
        }
        if text_eq(key_code, "KeyX") {
            return Ok(Button::KeyX);
        }
        if text_eq(key_code, "KeyY") {
            return Ok(Button::KeyY);
        }
        if text_eq(key_code, "KeyZ") {
            return Ok(Button::KeyZ);
        }
        if text_eq(key_code, "Backquote") {
            return Ok(Button::Backquote);
        }
        if text_eq(key_code, "Backslash") {
            return Ok(Button::Backslash);
        }
        if text_eq(key_code, "BracketLeft") {
            return Ok(Button::BracketLeft);
        }
        if text_eq(key_code, "BracketRight") {
            return Ok(Button::BracketRight);
        }
        if text_eq(key_code, "Comma") {
            return Ok(Button::Comma);
        }
        if text_eq(key_code, "Equal") {
            return Ok(Button::Equal);
        }
        if text_eq(key_code, "Minus") {
            return Ok(Button::Minus);
        }
        if text_eq(key_code, "Period") {
            return Ok(Button::Period);
        }
        if text_eq(key_code, "Quote") {
            return Ok(Button::Quote);
        }
        if text_eq(key_code, "Semicolon") {
            return Ok(Button::Semicolon);
        }
        if text_eq(key_code, "Slash") {
            return Ok(Button::Slash);
        }
        if text_eq(key_code, "NumLock") {
            return Ok(Button::NumLock);
        }
        if text_eq(key_code, "Numpad0") {
            return Ok(Button::Numpad0);
        }
        if text_eq(key_code, "Numpad1") {
            return Ok(Button::Numpad1);
        }
        if text_eq(key_code, "Numpad2") {
            return Ok(Button::Numpad2);
        }
        if text_eq(key_code, "Numpad3") {
            return Ok(Button::Numpad3);
        }
        if text_eq(key_code, "Numpad4") {
            return Ok(Button::Numpad4);
        }
        if text_eq(key_code, "Numpad5") {
            return Ok(Button::Numpad5);
        }
        if text_eq(key_code, "Numpad6") {
            return Ok(Button::Numpad6);
        }
        if text_eq(key_code, "Numpad7") {
            return Ok(Button::Numpad7);
        }
        if text_eq(key_code, "Numpad8") {
            return Ok(Button::Numpad8);
        }
        if text_eq(key_code, "Numpad9") {
            return Ok(Button::Numpad9);
        }
        if text_eq(key_code, "NumpadAdd") {
            return Ok(Button::NumpadAdd);
        }
        if text_eq(key_code, "NumpadComma") {
            return Ok(Button::NumpadComma);
        }
        if text_eq(key_code, "NumpadDecimal") {
            return Ok(Button::NumpadDecimal);
        }
        if text_eq(key_code, "NumpadDivide") {
            return Ok(Button::NumpadDivide);
        }
        if text_eq(key_code, "NumpadEnter") {
            return Ok(Button::NumpadEnter);
        }
        if text_eq(key_code, "NumpadEqual") {
            return Ok(Button::NumpadEqual);
        }
        if text_eq(key_code, "NumpadMultiply") {
            return Ok(Button::NumpadMultiply);
        }
        if text_eq(key_code, "NumpadSubtract") {
            return Ok(Button::NumpadSubtract);
        }
        let mut message = String::from_str("Unsupported keyboard key code: '");
        message.append(key_code);
        message.append("'");
        Err(Error::Generic(message))
    }

    /// The position of the key in the list of keys.
    pub fn index(&self) -> (r: u8)
        ensures
            r == spec_index(*self),
    {
        match self {
            Button::ArrowDown => 0,
            Button::ArrowLeft => 1,
            Button::ArrowRight => 2,
            Button::ArrowUp => 3,
            Button::AltLeft => 4,
            Button::AltRight => 5,
            Button::Backspace => 6,
            Button::CapsLock => 7,
            Button::ControlLeft => 8,
            Button::ControlRight => 9,
            Button::Delete => 10,
            Button::End => 11,
            Button::Enter => 12,
            Button::Escape => 13,
            Button::Home => 14,
            Button::Insert => 15,
            Button::MetaLeft => 16,
            Button::MetaRight => 17,
            Button::PageDown => 18,
            Button::PageUp => 19,
            Button::ShiftLeft => 20,
            Button::ShiftRight => 21,
            Button::Space => 22,
            Button::Tab => 23,
            Button::Digit0 => 24,
            Button::Digit1 => 25,
            Button::Digit2 => 26,
            Button::Digit3 => 27,
            Button::Digit4 => 28,
            Button::Digit5 => 29,
            Button::Digit6 => 30,
            Button::Digit7 => 31,
            Button::Digit8 => 32,
            Button::Digit9 => 33,
            Button::F1 => 34,
            Button::F2 => 35,
            Button::F3 => 36,
            Button::F4 => 37,
            Button::F5 => 38,
            Button::F6 => 39,
            Button::F7 => 40,
            Button::F8 => 41,
            Button::F9 => 42,
            Button::F10 => 43,
            Button::F11 => 44,
            Button::F12 => 45,
            Button::KeyA => 46,
            Button::KeyB => 47,
            Button::KeyC => 48,
            Button::KeyD => 49,
            Button::KeyE => 50,
            Button::KeyF => 51,
            Button::KeyG => 52,
            Button::KeyH => 53,
            Button::KeyI => 54,
            Button::KeyJ => 55,
            Button::KeyK => 56,
            Button::KeyL => 57,
            Button::KeyM => 58,
            Button::KeyN => 59,
            Button::KeyO => 60,
            Button::KeyP => 61,
            Button::KeyQ => 62,
            Button::KeyR => 63,
            Button::KeyS => 64,
            Button::KeyT => 65,
            Button::KeyU => 66,
            Button::KeyV => 67,
            Button::KeyW => 68,
            Button::KeyX => 69,
            Button::KeyY => 70,
            Button::KeyZ => 71,
            Button::Backquote => 72,
            Button::Backslash => 73,
            Button::BracketLeft => 74,
            Button::BracketRight => 75,
            Button::Comma => 76,
            Button::Equal => 77,
            Button::Minus => 78,
            Button::Period => 79,
            Button::Quote => 80,
            Button::Semicolon => 81,
            Button::Slash => 82,
            Button::NumLock => 83,
            Button::Numpad0 => 84,
            Button::Numpad1 => 85,
            Button::Numpad2 => 86,
            Button::Numpad3 => 87,
            Button::Numpad4 => 88,
            Button::Numpad5 => 89,
            Button::Numpad6 => 90,
            Button::Numpad7 => 91,
            Button::Numpad8 => 92,
            Button::Numpad9 => 93,
            Button::NumpadAdd => 94,
            Button::NumpadComma => 95,
            Button::NumpadDecimal => 96,
            Button::NumpadDivide => 97,
            Button::NumpadEnter => 98,
            Button::NumpadEqual => 99,
            Button::NumpadMultiply => 100,
            Button::NumpadSubtract => 101,
        }
    }
}

/// The state of every key of the keyboard.
pub struct Keyboard {
    state_map: KeyStateMap<u8>,
}

impl Keyboard {
    /// The map is well formed.
    pub closed spec fn wf(&self) -> bool {
        self.state_map.wf()
    }

    /// The state of `key` in the current frame.
    pub closed spec fn spec_state(&self, key: Button) -> KeyState {
        state_in(self.state_map@, spec_index(key))
    }

    /// A keyboard on which every key is `Up`.
    pub fn new() -> (r: Self)
        ensures
            r.wf(),
            forall|k: Button| #[trigger] r.spec_state(k) == KeyState::Up,
    {
        Keyboard { state_map: KeyStateMap::new() }
    }

    /// Whether `key` went down in this frame.
    pub fn is_pressed(&self, key: Button) -> (r: bool)
        requires
            self.wf(),
        ensures
            r == (self.spec_state(key) == KeyState::Pressed),
    {
        self.state_map.is_pressed(&key.index())
    }

    /// Whether `key` is held.
    pub fn is_down(&self, key: Button) -> (r: bool)
        requires
            self.wf(),
        ensures
            r == (self.spec_state(key) == KeyState::Pressed || self.spec_state(key)
                == KeyState::Down),
    {
        self.state_map.is_down(&key.index())
    }

    /// Whether `key` came up in this frame.
    pub fn is_released(&self, key: Button) -> (r: bool)
        requires
            self.wf(),
        ensures
            r == (self.spec_state(key) == KeyState::Released),
    {
        self.state_map.is_released(&key.index())
    }

    /// Whether `key` is not held.
    pub fn is_up(&self, key: Button) -> (r: bool)
        requires
            self.wf(),
        ensures
            r == (self.spec_state(key) == KeyState::Released || self.spec_state(key)
                == KeyState::Up),
    {
        self.state_map.is_up(&key.index())
    }

    /// Ends the frame: `Pressed` keys become `Down` and `Released` keys become `Up`.
    pub fn transition_states(&mut self)
        requires
            old(self).wf(),
        ensures
            final(self).wf(),
            forall|k: Button| #[trigger] final(self).spec_state(k) == next_state(old(self).spec_state(k)),
    {
        self.state_map.transition_states();
    }

    /// Records that `key` went down.
    pub fn handle_key_down(&mut self, key: Button)
        requires
            old(self).wf(),
        ensures
            final(self).wf(),
            final(self).spec_state(key) == KeyState::Pressed,
            forall|k: Button| k != key ==> #[trigger] final(self).spec_state(k) == old(self).spec_state(k),
    {
        self.state_map.handle_key_down(&key.index());
        proof {
            assert forall|k: Button| k != key implies #[trigger] self.spec_state(k) == old(self).spec_state(k) by {
                lemma_index_injective(k, key);
            }
        }
    }

    /// Records that `key` came up.
    pub fn handle_key_up(&mut self, key: Button)
        requires
            old(self).wf(),
        ensures
            final(self).wf(),
            final(self).spec_state(key) == KeyState::Released,
            forall|k: Button| k != key ==> #[trigger] final(self).spec_state(k) == old(self).spec_state(k),
    {
        self.state_map.handle_key_up(&key.index());
        proof {
            assert forall|k: Button| k != key implies #[trigger] self.spec_state(k) == old(self).spec_state(k) by {
                lemma_index_injective(k, key);
            }
        }
    }

    /// A key-down event with a browser key code: the key goes down, or, for a code
    /// that names no key, nothing changes and the error says so.
    pub fn key_down(&mut self, key_code: &str) -> (r: Result<(), Error>)
        requires
            old(self).wf(),
        ensures
            final(self).wf(),
            match button_of_code(key_code@) {
                Some(b) => r is Ok && forall|k: Button| #[trigger] final(self).spec_state(k)
                    == if k == b { KeyState::Pressed } else { old(self).spec_state(k) },
                None => r is Err && r->Err_0.spec_message() == unsupported_key_message(key_code@)
                    && *final(self) == *old(self),
            },
    {
        match Button::new(key_code) {
            Ok(b) => {
                self.handle_key_down(b);
                Ok(())
            },
            Err(e) => Err(e),
        }
    }

    /// A key-up event with a browser key code: the key comes up, or, for a code
    /// that names no key, nothing changes and the error says so.
    pub fn key_up(&mut self, key_code: &str) -> (r: Result<(), Error>)
        requires
            old(self).wf(),
        ensures
            final(self).wf(),
            match button_of_code(key_code@) {
                Some(b) => r is Ok && forall|k: Button| #[trigger] final(self).spec_state(k)
                    == if k == b { KeyState::Released } else { old(self).spec_state(k) },
                None => r is Err && r->Err_0.spec_message() == unsupported_key_message(key_code@)
                    && *final(self) == *old(self),
            },
    {
        match Button::new(key_code) {
            Ok(b) => {
                self.handle_key_up(b);
                Ok(())
            },
            Err(e) => Err(e),
        }
    }
}

impl Default for Keyboard {
    fn default() -> (r: Self)
        ensures
            r.wf(),
            forall|k: Button| #[trigger] r.spec_state(k) == KeyState::Up,
    {
        Keyboard::new()
    }
}

} // verus!
