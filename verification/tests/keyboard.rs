use std::str::FromStr;

use x11rb::protocol::xproto::KeyButMask;

use baseview::keyboard::{
    code_to_location, Code, Key, KeyState, KeyboardEvent, Location, Modifiers, NamedKey, ALT,
    CAPS_LOCK, CONTROL, META, NUM_LOCK, SHIFT,
};
use baseview::x11::keyboard::{
    code_to_key, convert_key_press_event, convert_key_release_event, hardware_keycode_to_code,
    key_mods, KeyPressEvent,
};

fn mods(bits: u32) -> Modifiers {
    Modifiers::from_bits(bits)
}

#[test]
fn keycodes_map_to_codes() {
    assert_eq!(hardware_keycode_to_code(0x09), Code::Escape);
    assert_eq!(hardware_keycode_to_code(0x26), Code::KeyA);
    assert_eq!(hardware_keycode_to_code(0x13), Code::Digit0);
    assert_eq!(hardware_keycode_to_code(0x41), Code::Space);
    assert_eq!(hardware_keycode_to_code(0x3E), Code::ShiftRight);
    assert_eq!(hardware_keycode_to_code(0x84), Code::IntlYen);
    assert_eq!(hardware_keycode_to_code(0xE1), Code::BrowserSearch);
}

#[test]
fn unknown_keycodes_are_unidentified() {
    assert_eq!(hardware_keycode_to_code(0x00), Code::Unidentified);
    assert_eq!(hardware_keycode_to_code(0x5C), Code::Unidentified);
    assert_eq!(hardware_keycode_to_code(0x9C), Code::Unidentified);
    assert_eq!(hardware_keycode_to_code(0x1E1), Code::Unidentified);
    assert_eq!(hardware_keycode_to_code(u16::MAX), Code::Unidentified);
}

#[test]
fn identified_keycodes_are_distinct() {
    let mut seen: Vec<Code> = Vec::new();
    for hw in 0..=u16::MAX {
        let code = hardware_keycode_to_code(hw);
        if code != Code::Unidentified {
            assert!(!seen.contains(&code), "{:?} twice", code);
            seen.push(code);
        }
    }
    assert_eq!(seen.len(), 144);
}

#[test]
fn letters_follow_shift() {
    assert_eq!(code_to_key(Code::KeyA, mods(0)), Key::Character('a'));
    assert_eq!(code_to_key(Code::KeyA, mods(SHIFT)), Key::Character('A'));
    assert_eq!(code_to_key(Code::KeyZ, mods(SHIFT | CONTROL)), Key::Character('Z'));
    assert_eq!(code_to_key(Code::KeyQ, mods(CAPS_LOCK)), Key::Character('q'));
}

#[test]
fn symbols_follow_shift() {
    assert_eq!(code_to_key(Code::Digit1, mods(0)), Key::Character('1'));
    assert_eq!(code_to_key(Code::Digit1, mods(SHIFT)), Key::Character('!'));
    assert_eq!(code_to_key(Code::Quote, mods(0)), Key::Character('\''));
    assert_eq!(code_to_key(Code::Quote, mods(SHIFT)), Key::Character('"'));
    assert_eq!(code_to_key(Code::Backslash, mods(SHIFT)), Key::Character('|'));
    assert_eq!(code_to_key(Code::IntlBackslash, mods(0)), Key::Character('\\'));
}

#[test]
fn numpad_follows_num_lock_and_shift() {
    assert_eq!(code_to_key(Code::Numpad1, mods(0)), Key::Named(NamedKey::End));
    assert_eq!(code_to_key(Code::Numpad1, mods(NUM_LOCK)), Key::Character('1'));
    assert_eq!(code_to_key(Code::Numpad1, mods(SHIFT)), Key::Character('1'));
    assert_eq!(code_to_key(Code::Numpad1, mods(NUM_LOCK | SHIFT)), Key::Named(NamedKey::End));
    assert_eq!(code_to_key(Code::Numpad5, mods(0)), Key::Named(NamedKey::Clear));
    assert_eq!(code_to_key(Code::NumpadDecimal, mods(NUM_LOCK)), Key::Character('.'));
    assert_eq!(code_to_key(Code::NumpadAdd, mods(0)), Key::Character('+'));
}

#[test]
fn other_keys() {
    assert_eq!(code_to_key(Code::Space, mods(SHIFT)), Key::Character(' '));
    assert_eq!(code_to_key(Code::IntlYen, mods(0)), Key::Character('¥'));
    assert_eq!(code_to_key(Code::IntlRo, mods(0)), Key::Character('\\'));
    assert_eq!(code_to_key(Code::Lang1, mods(0)), Key::Named(NamedKey::HangulMode));
    assert_eq!(code_to_key(Code::MediaSelect, mods(0)), Key::Named(NamedKey::LaunchMediaPlayer));
    assert_eq!(code_to_key(Code::NumpadEnter, mods(0)), Key::Named(NamedKey::Enter));
    assert_eq!(code_to_key(Code::Unidentified, mods(0)), Key::Named(NamedKey::Unidentified));
}

#[test]
fn every_known_key_has_a_value() {
    for hw in 0..=255u16 {
        let code = hardware_keycode_to_code(hw);
        for bits in [0, SHIFT, NUM_LOCK, SHIFT | NUM_LOCK] {
            let key = code_to_key(code, mods(bits));
            assert_eq!(code == Code::Unidentified, key == Key::Named(NamedKey::Unidentified));
        }
    }
}

#[test]
fn modifiers_from_x11_masks() {
    assert_eq!(key_mods(0).bits, 0);
    assert_eq!(key_mods(1).bits, SHIFT);
    assert_eq!(key_mods(2).bits, CAPS_LOCK);
    assert_eq!(key_mods(4).bits, CONTROL);
    assert_eq!(key_mods(8).bits, ALT);
    assert_eq!(key_mods(16).bits, NUM_LOCK);
    assert_eq!(key_mods(64).bits, META);
    assert_eq!(key_mods(0x5F).bits, SHIFT | CAPS_LOCK | CONTROL | ALT | NUM_LOCK | META);
    assert_eq!(key_mods(32).bits, 0);
    assert_eq!(key_mods(128).bits, 0);
    assert_eq!(key_mods(0x1F00).bits, 0);
    assert_eq!(key_mods(0x1F00 | 4).bits, CONTROL);
}

#[test]
fn modifiers_use_x11rb_masks() {
    assert_eq!(key_mods(u16::from(KeyButMask::SHIFT)).bits, SHIFT);
    assert_eq!(key_mods(u16::from(KeyButMask::LOCK)).bits, CAPS_LOCK);
    assert_eq!(key_mods(u16::from(KeyButMask::CONTROL)).bits, CONTROL);
    assert_eq!(key_mods(u16::from(KeyButMask::MOD1)).bits, ALT);
    assert_eq!(key_mods(u16::from(KeyButMask::MOD2)).bits, NUM_LOCK);
    assert_eq!(key_mods(u16::from(KeyButMask::MOD4)).bits, META);
    assert_eq!(key_mods(u16::from(KeyButMask::MOD3)).bits, 0);
}

#[test]
fn modifier_bits_match_keyboard_types() {
    assert_eq!(SHIFT, keyboard_types::Modifiers::SHIFT.bits());
    assert_eq!(CONTROL, keyboard_types::Modifiers::CONTROL.bits());
    assert_eq!(ALT, keyboard_types::Modifiers::ALT.bits());
    assert_eq!(META, keyboard_types::Modifiers::META.bits());
    assert_eq!(NUM_LOCK, keyboard_types::Modifiers::NUM_LOCK.bits());
    assert_eq!(CAPS_LOCK, keyboard_types::Modifiers::CAPS_LOCK.bits());
}

#[test]
fn names_match_keyboard_types() {
    for hw in 0..=255u16 {
        let code = hardware_keycode_to_code(hw);
        let name = format!("{:?}", code);
        let parsed = keyboard_types::Code::from_str(&name).expect("code name");
        assert_eq!(parsed.to_string(), name);
        for bits in [0, SHIFT | NUM_LOCK] {
            if let Key::Named(named) = code_to_key(code, mods(bits)) {
                let name = format!("{:?}", named);
                let parsed = keyboard_types::NamedKey::from_str(&name).expect("key name");
                assert_eq!(parsed.to_string(), name);
            }
        }
    }
}

#[test]
fn locations() {
    assert_eq!(code_to_location(Code::ShiftLeft), Location::Left);
    assert_eq!(code_to_location(Code::MetaRight), Location::Right);
    assert_eq!(code_to_location(Code::ControlRight), Location::Right);
    assert_eq!(code_to_location(Code::Numpad7), Location::Numpad);
    assert_eq!(code_to_location(Code::NumpadEnter), Location::Numpad);
    assert_eq!(code_to_location(Code::NumLock), Location::Standard);
    assert_eq!(code_to_location(Code::KeyA), Location::Standard);
}

#[test]
fn key_press_event() {
    let e = convert_key_press_event(&KeyPressEvent { detail: 0x26, state: 1 });
    assert_eq!(
        e,
        KeyboardEvent {
            state: KeyState::Down,
            key: Key::Character('A'),
            code: Code::KeyA,
            location: Location::Standard,
            modifiers: mods(SHIFT),
            repeat: false,
            is_composing: false,
        }
    );
}

#[test]
fn key_release_event() {
    let e = convert_key_release_event(&KeyPressEvent { detail: 0x57, state: 16 });
    assert_eq!(
        e,
        KeyboardEvent {
            state: KeyState::Up,
            key: Key::Character('1'),
            code: Code::Numpad1,
            location: Location::Numpad,
            modifiers: mods(NUM_LOCK),
            repeat: false,
            is_composing: false,
        }
    );
}

#[test]
fn press_and_release_differ_in_state_only() {
    for detail in 0..=255u8 {
        for state in [0u16, 1, 2, 16, 17, 0x5F] {
            let event = KeyPressEvent { detail, state };
            let down = convert_key_press_event(&event);
            let up = convert_key_release_event(&event);
            assert_eq!(down.state, KeyState::Down);
            assert_eq!(KeyboardEvent { state: KeyState::Down, ..up }, down);
        }
    }
}

#[test]
fn modifier_set_operations() {
    let mut m = Modifiers::empty();
    assert!(!m.shift());
    m.insert(SHIFT);
    m.insert(ALT);
    assert!(m.shift());
    assert!(m.contains(SHIFT | ALT));
    assert!(!m.contains(SHIFT | CONTROL));
}
