//! Keys of the keyboard hook and their virtual-key codes, the translation
//! of hook input into key events, and the display names of key codes.

use vstd::prelude::*;
use vstd::string::StringExecFns;
use crate::event::KeyEvent;
use crate::text::{decimal, push_char};

verus! {

/// The keys that the hook reports, as far as the library tells them apart.
#[derive(Debug, Clone, Copy, PartialEq, Eq, Structural)]
pub enum KeyName {
    KeyA, KeyB, KeyC, KeyD, KeyE, KeyF, KeyG, KeyH, KeyI, KeyJ, KeyK, KeyL, KeyM,
    KeyN, KeyO, KeyP, KeyQ, KeyR, KeyS, KeyT, KeyU, KeyV, KeyW, KeyX, KeyY, KeyZ,
    Num0, Num1, Num2, Num3, Num4, Num5, Num6, Num7, Num8, Num9,
    Backspace,
    Tab,
    Return,
    Escape,
    Space,
    /// Any other key: modifiers, function keys, navigation and the rest.
    Other,
}

/// The virtual-key code of a key: letters 65-90, digits 48-57, Backspace 8,
/// Tab 9, Return 13, Escape 27, Space 32; other keys have none.
pub open spec fn spec_vk_code(k: KeyName) -> Option<u32> {
    match k {
        KeyName::KeyA => Some(65), KeyName::KeyB => Some(66), KeyName::KeyC => Some(67),
        KeyName::KeyD => Some(68), KeyName::KeyE => Some(69), KeyName::KeyF => Some(70),
        KeyName::KeyG => Some(71), KeyName::KeyH => Some(72), KeyName::KeyI => Some(73),
        KeyName::KeyJ => Some(74), KeyName::KeyK => Some(75), KeyName::KeyL => Some(76),
        KeyName::KeyM => Some(77), KeyName::KeyN => Some(78), KeyName::KeyO => Some(79),
        KeyName::KeyP => Some(80), KeyName::KeyQ => Some(81), KeyName::KeyR => Some(82),
        KeyName::KeyS => Some(83), KeyName::KeyT => Some(84), KeyName::KeyU => Some(85),
        KeyName::KeyV => Some(86), KeyName::KeyW => Some(87), KeyName::KeyX => Some(88),
        KeyName::KeyY => Some(89), KeyName::KeyZ => Some(90),
        KeyName::Num0 => Some(48), KeyName::Num1 => Some(49), KeyName::Num2 => Some(50),
        KeyName::Num3 => Some(51), KeyName::Num4 => Some(52), KeyName::Num5 => Some(53),
        KeyName::Num6 => Some(54), KeyName::Num7 => Some(55), KeyName::Num8 => Some(56),
        KeyName::Num9 => Some(57),
        KeyName::Backspace => Some(8),
        KeyName::Tab => Some(9),
        KeyName::Return => Some(13),
        KeyName::Escape => Some(27),
        KeyName::Space => Some(32),
        KeyName::Other => None,
    }
}

/// Maps a key to its virtual-key code (see [`spec_vk_code`]).
pub fn vk_code(key: KeyName) -> (c: Option<u32>)
    ensures
        c == spec_vk_code(key),
{
    match key {
        KeyName::KeyA => Some(65), KeyName::KeyB => Some(66), KeyName::KeyC => Some(67),
        KeyName::KeyD => Some(68), KeyName::KeyE => Some(69), KeyName::KeyF => Some(70),
        KeyName::KeyG => Some(71), KeyName::KeyH => Some(72), KeyName::KeyI => Some(73),
        KeyName::KeyJ => Some(74), KeyName::KeyK => Some(75), KeyName::KeyL => Some(76),
        KeyName::KeyM => Some(77), KeyName::KeyN => Some(78), KeyName::KeyO => Some(79),
        KeyName::KeyP => Some(80), KeyName::KeyQ => Some(81), KeyName::KeyR => Some(82),
        KeyName::KeyS => Some(83), KeyName::KeyT => Some(84), KeyName::KeyU => Some(85),
        KeyName::KeyV => Some(86), KeyName::KeyW => Some(87), KeyName::KeyX => Some(88),
        KeyName::KeyY => Some(89), KeyName::KeyZ => Some(90),
        KeyName::Num0 => Some(48), KeyName::Num1 => Some(49), KeyName::Num2 => Some(50),
        KeyName::Num3 => Some(51), KeyName::Num4 => Some(52), KeyName::Num5 => Some(53),
        KeyName::Num6 => Some(54), KeyName::Num7 => Some(55), KeyName::Num8 => Some(56),
        KeyName::Num9 => Some(57),
        KeyName::Backspace => Some(8),
        KeyName::Tab => Some(9),
        KeyName::Return => Some(13),
        KeyName::Escape => Some(27),
        KeyName::Space => Some(32),
        KeyName::Other => None,
    }
}

/// Laws of the key map: distinct mapped keys have distinct codes; letters
/// map into 65-90 and digits into 48-57.
pub proof fn law_vk_code_injective(a: KeyName, b: KeyName)
    ensures
        spec_vk_code(a) is Some && spec_vk_code(a) == spec_vk_code(b) ==> a == b,
        spec_vk_code(a) matches Some(c) ==> (65 <= c <= 90 || 48 <= c <= 57 || c == 8 || c == 9
            || c == 13 || c == 27 || c == 32),
{
}

/// The letter keys in alphabetical order, `A` first.
pub open spec fn letter_keys() -> Seq<KeyName> {
    seq![
        KeyName::KeyA, KeyName::KeyB, KeyName::KeyC, KeyName::KeyD, KeyName::KeyE, KeyName::KeyF,
        KeyName::KeyG, KeyName::KeyH, KeyName::KeyI, KeyName::KeyJ, KeyName::KeyK, KeyName::KeyL,
        KeyName::KeyM, KeyName::KeyN, KeyName::KeyO, KeyName::KeyP, KeyName::KeyQ, KeyName::KeyR,
        KeyName::KeyS, KeyName::KeyT, KeyName::KeyU, KeyName::KeyV, KeyName::KeyW, KeyName::KeyX,
        KeyName::KeyY, KeyName::KeyZ,
    ]
}

/// The digit keys in order, `0` first.
pub open spec fn digit_keys() -> Seq<KeyName> {
    seq![
        KeyName::Num0, KeyName::Num1, KeyName::Num2, KeyName::Num3, KeyName::Num4,
        KeyName::Num5, KeyName::Num6, KeyName::Num7, KeyName::Num8, KeyName::Num9,
    ]
}

/// Law of the key map: the letters take consecutive codes in alphabetical
/// order, the `n`-th letter (`A` = 0) having code 65 + n, which is the
/// ASCII code of its capital; the digit `d` has code 48 + d, the ASCII code
/// of its character.
pub proof fn law_vk_code_alphabet()
    ensures
        letter_keys().len() == 26,
        digit_keys().len() == 10,
        forall|n: int| 0 <= n < 26 ==> spec_vk_code(#[trigger] letter_keys()[n]) == Some((65 + n) as u32),
        forall|n: int| 0 <= n < 26 ==> spec_vk_code(#[trigger] letter_keys()[n]) == Some((('A' as u32) + n) as u32),
        forall|d: int| 0 <= d < 10 ==> spec_vk_code(#[trigger] digit_keys()[d]) == Some((48 + d) as u32),
        forall|d: int| 0 <= d < 10 ==> spec_vk_code(#[trigger] digit_keys()[d]) == Some((('0' as u32) + d) as u32),
{
    assert forall|n: int| 0 <= n < 26 implies spec_vk_code(#[trigger] letter_keys()[n]) == Some((65 + n) as u32) by {
        assert(n == 0 || n == 1 || n == 2 || n == 3 || n == 4 || n == 5 || n == 6 || n == 7 || n == 8 || n == 9 || n == 10 || n == 11 || n == 12 || n == 13 || n == 14 || n == 15 || n == 16 || n == 17 || n == 18 || n == 19 || n == 20 || n == 21 || n == 22 || n == 23 || n == 24 || n == 25);
    }
    assert forall|d: int| 0 <= d < 10 implies spec_vk_code(#[trigger] digit_keys()[d]) == Some((48 + d) as u32) by {
        assert(d == 0 || d == 1 || d == 2 || d == 3 || d == 4 || d == 5 || d == 6 || d == 7 || d == 8 || d == 9);
    }
    assert('A' as u32 == 65);
    assert('0' as u32 == 48);
}

/// One event of the keyboard hook.
#[derive(Debug, Clone, Copy, PartialEq, Eq, Structural)]
pub enum InputKind {
    Press(KeyName),
    Release(KeyName),
    /// Mouse movement, buttons, wheel.
    Other,
}

/// The key event that a hook event stands for: a press of a mapped key,
/// stamped with the milliseconds since the Unix epoch (0 when the clock
/// reads before the epoch) and the session; nothing for anything else.
pub open spec fn spec_key_event(kind: InputKind, since_epoch_ms: Option<u128>, session: Seq<char>) -> Option<(u32, i64, Seq<char>, u8)> {
    match kind {
        InputKind::Press(k) => match spec_vk_code(k) {
            Some(code) => Some((code, match since_epoch_ms { Some(ms) => ms as i64, None => 0 }, session, 0)),
            None => None,
        },
        _ => None,
    }
}

/// Translates a hook event into a key event (see [`spec_key_event`]).
/// `since_epoch_ms` is the event's time since the Unix epoch, if after it.
pub fn input_to_key_event(kind: InputKind, since_epoch_ms: Option<u128>, session_id: &str) -> (e: Option<KeyEvent>)
    ensures
        match (e, spec_key_event(kind, since_epoch_ms, session_id@)) {
            (Some(ev), Some(t)) => ev.key_code == t.0 && ev.timestamp_ms == t.1
                && ev.session_id@ == t.2 && ev.modifiers == t.3,
            (None, None) => true,
            _ => false,
        },
{
    match kind {
        InputKind::Press(k) => match vk_code(k) {
            Some(code) => {
                let ts: i64 = match since_epoch_ms {
                    Some(ms) => ms as i64,
                    None => 0,
                };
                Some(KeyEvent { key_code: code, timestamp_ms: ts, session_id: String::from_str(session_id), modifiers: 0 })
            },
            None => None,
        },
        _ => None,
    }
}

/// The display name of a key code: named keys for Space, Enter, Backspace,
/// Tab and Esc; the character itself for A-Z and 0-9; `Key(N)` otherwise.
pub open spec fn spec_key_display_name(code: u32) -> Seq<char> {
    if code == 32 {
        "Space"@
    } else if code == 13 {
        "Enter"@
    } else if code == 8 {
        "Backspace"@
    } else if code == 9 {
        "Tab"@
    } else if code == 27 {
        "Esc"@
    } else if (65 <= code <= 90) || (48 <= code <= 57) {
        seq![code as char]
    } else {
        "Key("@ + decimal(code as nat) + ")"@
    }
}

/// The display name of a key code (see [`spec_key_display_name`]).
pub fn key_display_name(code: u32) -> (s: String)
    ensures
        s@ == spec_key_display_name(code),
{
    if code == 32 {
        String::from_str("Space")
    } else if code == 13 {
        String::from_str("Enter")
    } else if code == 8 {
        String::from_str("Backspace")
    } else if code == 9 {
        String::from_str("Tab")
    } else if code == 27 {
        String::from_str("Esc")
    } else if (65 <= code && code <= 90) || (48 <= code && code <= 57) {
        let mut s = String::new();
        let b: u8 = code as u8;
        push_char(&mut s, b as char);
        assert(s@ =~= seq![code as char]);
        s
    } else {
        let mut s = String::from_str("Key(");
        s.append(crate::text::u64_to_decimal(code as u64).as_str());
        s.append(")");
        s
    }
}

/// Law of the named keys: Backspace, Tab, Return, Escape and Space have
/// the codes 8, 9, 13, 27 and 32, any other key has none, and the display
/// name of each of these codes names its key.
pub proof fn law_named_keys()
    ensures
        spec_vk_code(KeyName::Backspace) == Some(8u32),
        spec_vk_code(KeyName::Tab) == Some(9u32),
        spec_vk_code(KeyName::Return) == Some(13u32),
        spec_vk_code(KeyName::Escape) == Some(27u32),
        spec_vk_code(KeyName::Space) == Some(32u32),
        spec_vk_code(KeyName::Other) is None,
        spec_key_display_name(8) == "Backspace"@,
        spec_key_display_name(9) == "Tab"@,
        spec_key_display_name(13) == "Enter"@,
        spec_key_display_name(27) == "Esc"@,
        spec_key_display_name(32) == "Space"@,
{
}

/// Law of display names: the code of the `n`-th letter shows as that
/// capital letter, and the code of digit `d` as that digit.
pub proof fn law_display_names_alphabet()
    ensures
        forall|n: int| 0 <= n < 26 ==> #[trigger] spec_key_display_name((65 + n) as u32)
            == seq![((('A' as u32) + n) as u32) as char],
        forall|d: int| 0 <= d < 10 ==> #[trigger] spec_key_display_name((48 + d) as u32)
            == seq![((('0' as u32) + d) as u32) as char],
{
    assert('A' as u32 == 65);
    assert('0' as u32 == 48);
}

} // verus!
