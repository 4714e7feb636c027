//! X11 keyboard handling: hardware keycodes to key codes, key codes to key
//! values under a hardcoded US layout, and X11 modifier masks to modifiers.

use vstd::prelude::*;

use x11rb::protocol::xproto::KeyButMask;

use crate::keyboard::{
    code_to_location, spec_code_to_location, Code, Key, KeyState, KeyboardEvent, Modifiers,
    NamedKey, ALT, CAPS_LOCK, CONTROL, META, NUM_LOCK, SHIFT,
};

verus! {

/// The lower-case letter that a letter key types.
pub open spec fn letter_of(code: Code) -> Option<char> {
    match code {
        Code::KeyA => Some('a'),
        Code::KeyB => Some('b'),
        Code::KeyC => Some('c'),
        Code::KeyD => Some('d'),
        Code::KeyE => Some('e'),
        Code::KeyF => Some('f'),
        Code::KeyG => Some('g'),
        Code::KeyH => Some('h'),
        Code::KeyI => Some('i'),
        Code::KeyJ => Some('j'),
        Code::KeyK => Some('k'),
        Code::KeyL => Some('l'),
        Code::KeyM => Some('m'),
        Code::KeyN => Some('n'),
        Code::KeyO => Some('o'),
        Code::KeyP => Some('p'),
        Code::KeyQ => Some('q'),
        Code::KeyR => Some('r'),
        Code::KeyS => Some('s'),
        Code::KeyT => Some('t'),
        Code::KeyU => Some('u'),
        Code::KeyV => Some('v'),
        Code::KeyW => Some('w'),
        Code::KeyX => Some('x'),
        Code::KeyY => Some('y'),
        Code::KeyZ => Some('z'),
        _ => None,
    }
}

/// The upper-case form of an ASCII lower-case letter.
pub open spec fn ascii_upper(c: char) -> char {
    (c as int - 32) as char
}

/// Keys that type one character, and another one with Shift held.
pub open spec fn symbol_pair(code: Code) -> Option<(char, char)> {
    match code {
        Code::Digit0 => Some(('0', ')')),
        Code::Digit1 => Some(('1', '!')),
        Code::Digit2 => Some(('2', '@')),
        Code::Digit3 => Some(('3', '#')),
        Code::Digit4 => Some(('4', '$')),
        Code::Digit5 => Some(('5', '%')),
        Code::Digit6 => Some(('6', '^')),
        Code::Digit7 => Some(('7', '&')),
        Code::Digit8 => Some(('8', '*')),
        Code::Digit9 => Some(('9', '(')),
        Code::Backquote => Some(('`', '~')),
        Code::Minus => Some(('-', '_')),
        Code::Equal => Some(('=', '+')),
        Code::BracketLeft => Some(('[', '{')),
        Code::BracketRight => Some((']', '}')),
        Code::Backslash => Some(('\\', '|')),
        Code::Semicolon => Some((';', ':')),
        Code::Quote => Some(('\'', '"')),
        Code::Comma => Some((',', '<')),
        Code::Period => Some(('.', '>')),
        Code::Slash => Some(('/', '?')),
        Code::IntlBackslash => Some(('\\', '|')),
        _ => None,
    }
}

/// Keypad keys that type a character when exactly one of NumLock and Shift
/// is active, and act as a named key otherwise.
pub open spec fn numpad_pair(code: Code) -> Option<(NamedKey, char)> {
    match code {
        Code::Numpad0 => Some((NamedKey::Insert, '0')),
        Code::Numpad1 => Some((NamedKey::End, '1')),
        Code::Numpad2 => Some((NamedKey::ArrowDown, '2')),
        Code::Numpad3 => Some((NamedKey::PageDown, '3')),
        Code::Numpad4 => Some((NamedKey::ArrowLeft, '4')),
        Code::Numpad5 => Some((NamedKey::Clear, '5')),
        Code::Numpad6 => Some((NamedKey::ArrowRight, '6')),
        Code::Numpad7 => Some((NamedKey::Home, '7')),
        Code::Numpad8 => Some((NamedKey::ArrowUp, '8')),
        Code::Numpad9 => Some((NamedKey::PageUp, '9')),
        Code::NumpadDecimal => Some((NamedKey::Delete, '.')),
        _ => None,
    }
}

/// Keys that always type the same character.
pub open spec fn plain_char(code: Code) -> Option<char> {
    match code {
        Code::Space => Some(' '),
        Code::NumpadMultiply => Some('*'),
        Code::NumpadSubtract => Some('-'),
        Code::NumpadAdd => Some('+'),
        Code::IntlRo => Some('\\'),
        Code::NumpadDivide => Some('/'),
        Code::NumpadEqual => Some('='),
        Code::NumpadComma => Some(','),
        Code::IntlYen => Some('\u{a5}'),
        _ => None,
    }
}

/// The named key of every other key code.
pub open spec fn named_key_of(code: Code) -> NamedKey {
    match code {
        Code::Escape => NamedKey::Escape,
        Code::Backspace => NamedKey::Backspace,
        Code::Tab => NamedKey::Tab,
        Code::Enter => NamedKey::Enter,
        Code::ControlLeft => NamedKey::Control,
        Code::ShiftLeft => NamedKey::Shift,
        Code::ShiftRight => NamedKey::Shift,
        Code::AltLeft => NamedKey::Alt,
        Code::CapsLock => NamedKey::CapsLock,
        Code::F1 => NamedKey::F1,
        Code::F2 => NamedKey::F2,
        Code::F3 => NamedKey::F3,
        Code::F4 => NamedKey::F4,
        Code::F5 => NamedKey::F5,
        Code::F6 => NamedKey::F6,
        Code::F7 => NamedKey::F7,
        Code::F8 => NamedKey::F8,
        Code::F9 => NamedKey::F9,
        Code::F10 => NamedKey::F10,
        Code::NumLock => NamedKey::NumLock,
        Code::ScrollLock => NamedKey::ScrollLock,
        Code::F11 => NamedKey::F11,
        Code::F12 => NamedKey::F12,
        Code::Convert => NamedKey::Convert,
        Code::KanaMode => NamedKey::KanaMode,
        Code::NonConvert => NamedKey::NonConvert,
        Code::NumpadEnter => NamedKey::Enter,
        Code::ControlRight => NamedKey::Control,
        Code::PrintScreen => NamedKey::PrintScreen,
        Code::AltRight => NamedKey::Alt,
        Code::Home => NamedKey::Home,
        Code::ArrowUp => NamedKey::ArrowUp,
        Code::PageUp => NamedKey::PageUp,
        Code::ArrowLeft => NamedKey::ArrowLeft,
        Code::ArrowRight => NamedKey::ArrowRight,
        Code::End => NamedKey::End,
        Code::ArrowDown => NamedKey::ArrowDown,
        Code::PageDown => NamedKey::PageDown,
        Code::Insert => NamedKey::Insert,
        Code::Delete => NamedKey::Delete,
        Code::AudioVolumeMute => NamedKey::AudioVolumeMute,
        Code::AudioVolumeDown => NamedKey::AudioVolumeDown,
        Code::AudioVolumeUp => NamedKey::AudioVolumeUp,
        Code::Pause => NamedKey::Pause,
        Code::Lang1 => NamedKey::HangulMode,
        Code::Lang2 => NamedKey::HanjaMode,
        Code::MetaLeft => NamedKey::Meta,
        Code::MetaRight => NamedKey::Meta,
        Code::ContextMenu => NamedKey::ContextMenu,
        Code::BrowserStop => NamedKey::BrowserStop,
        Code::Again => NamedKey::Again,
        Code::Props => NamedKey::Props,
        Code::Undo => NamedKey::Undo,
        Code::Select => NamedKey::Select,
        Code::Copy => NamedKey::Copy,
        Code::Open => NamedKey::Open,
        Code::Paste => NamedKey::Paste,
        Code::Find => NamedKey::Find,
        Code::Cut => NamedKey::Cut,
        Code::Help => NamedKey::Help,
        Code::LaunchApp2 => NamedKey::LaunchApplication2,
        Code::WakeUp => NamedKey::WakeUp,
        Code::LaunchApp1 => NamedKey::LaunchApplication1,
        Code::LaunchMail => NamedKey::LaunchMail,
        Code::BrowserFavorites => NamedKey::BrowserFavorites,
        Code::BrowserBack => NamedKey::BrowserBack,
        Code::BrowserForward => NamedKey::BrowserForward,
        Code::Eject => NamedKey::Eject,
        Code::MediaTrackNext => NamedKey::MediaTrackNext,
        Code::MediaPlayPause => NamedKey::MediaPlayPause,
        Code::MediaTrackPrevious => NamedKey::MediaTrackPrevious,
        Code::MediaStop => NamedKey::MediaStop,
        Code::MediaSelect => NamedKey::LaunchMediaPlayer,
        Code::BrowserHome => NamedKey::BrowserHome,
        Code::BrowserRefresh => NamedKey::BrowserRefresh,
        Code::BrowserSearch => NamedKey::BrowserSearch,
        _ => NamedKey::Unidentified,
    }
}

/// The key value that a key code gives under the hardcoded layout, with the
/// given modifiers held.
pub open spec fn spec_code_to_key(code: Code, m: Modifiers) -> Key {
    let shift = m.has(SHIFT);
    match letter_of(code) {
        Some(c) => Key::Character(if shift { ascii_upper(c) } else { c }),
        None => match symbol_pair(code) {
            Some((base, shifted)) => Key::Character(if shift { shifted } else { base }),
            None => match numpad_pair(code) {
                Some((named, digit)) => if m.has(NUM_LOCK) != shift {
                    Key::Character(digit)
                } else {
                    Key::Named(named)
                },
                None => match plain_char(code) {
                    Some(c) => Key::Character(c),
                    None => Key::Named(named_key_of(code)),
                },
            },
        },
    }
}

fn s(mods: Modifiers, base: char, shifted: char) -> (k: Key)
    ensures
        k == Key::Character(if mods.has(SHIFT) { shifted } else { base }),
{
    if mods.contains(SHIFT) {
        Key::Character(shifted)
    } else {
        Key::Character(base)
    }
}

fn n(mods: Modifiers, base: NamedKey, num: char) -> (k: Key)
    ensures
        k == (if mods.has(NUM_LOCK) != mods.has(SHIFT) {
            Key::Character(num)
        } else {
            Key::Named(base)
        }),
{
    if mods.contains(NUM_LOCK) != mods.contains(SHIFT) {
        Key::Character(num)
    } else {
        Key::Named(base)
    }
}

/// Convert a key code to a key value.
///
/// The layout is hardcoded (a US keyboard); it is not read from the system.
pub fn code_to_key(code: Code, m: Modifiers) -> (k: Key)
    ensures
        k == spec_code_to_key(code, m),
{
    match code {
        Code::KeyA => s(m, 'a', 'A'),
        Code::KeyB => s(m, 'b', 'B'),
        Code::KeyC => s(m, 'c', 'C'),
        Code::KeyD => s(m, 'd', 'D'),
        Code::KeyE => s(m, 'e', 'E'),
        Code::KeyF => s(m, 'f', 'F'),
        Code::KeyG => s(m, 'g', 'G'),
        Code::KeyH => s(m, 'h', 'H'),
        Code::KeyI => s(m, 'i', 'I'),
        Code::KeyJ => s(m, 'j', 'J'),
        Code::KeyK => s(m, 'k', 'K'),
        Code::KeyL => s(m, 'l', 'L'),
        Code::KeyM => s(m, 'm', 'M'),
        Code::KeyN => s(m, 'n', 'N'),
        Code::KeyO => s(m, 'o', 'O'),
        Code::KeyP => s(m, 'p', 'P'),
        Code::KeyQ => s(m, 'q', 'Q'),
        Code::KeyR => s(m, 'r', 'R'),
        Code::KeyS => s(m, 's', 'S'),
        Code::KeyT => s(m, 't', 'T'),
        Code::KeyU => s(m, 'u', 'U'),
        Code::KeyV => s(m, 'v', 'V'),
        Code::KeyW => s(m, 'w', 'W'),
        Code::KeyX => s(m, 'x', 'X'),
        Code::KeyY => s(m, 'y', 'Y'),
        Code::KeyZ => s(m, 'z', 'Z'),
        Code::Digit0 => s(m, '0', ')'),
        Code::Digit1 => s(m, '1', '!'),
        Code::Digit2 => s(m, '2', '@'),
        Code::Digit3 => s(m, '3', '#'),
        Code::Digit4 => s(m, '4', '$'),
        Code::Digit5 => s(m, '5', '%'),
        Code::Digit6 => s(m, '6', '^'),
        Code::Digit7 => s(m, '7', '&'),
        Code::Digit8 => s(m, '8', '*'),
        Code::Digit9 => s(m, '9', '('),
        Code::Backquote => s(m, '`', '~'),
        Code::Minus => s(m, '-', '_'),
        Code::Equal => s(m, '=', '+'),
        Code::BracketLeft => s(m, '[', '{'),
        Code::BracketRight => s(m, ']', '}'),
        Code::Backslash => s(m, '\\', '|'),
        Code::Semicolon => s(m, ';', ':'),
        Code::Quote => s(m, '\'', '"'),
        Code::Comma => s(m, ',', '<'),
        Code::Period => s(m, '.', '>'),
        Code::Slash => s(m, '/', '?'),
        Code::Space => Key::Character(' '),
        Code::Escape => Key::Named(NamedKey::Escape),
        Code::Backspace => Key::Named(NamedKey::Backspace),
        Code::Tab => Key::Named(NamedKey::Tab),
        Code::Enter => Key::Named(NamedKey::Enter),
        Code::ControlLeft => Key::Named(NamedKey::Control),
        Code::ShiftLeft => Key::Named(NamedKey::Shift),
        Code::ShiftRight => Key::Named(NamedKey::Shift),
        Code::NumpadMultiply => Key::Character('*'),
        Code::AltLeft => Key::Named(NamedKey::Alt),
        Code::CapsLock => Key::Named(NamedKey::CapsLock),
        Code::F1 => Key::Named(NamedKey::F1),
        Code::F2 => Key::Named(NamedKey::F2),
        Code::F3 => Key::Named(NamedKey::F3),
        Code::F4 => Key::Named(NamedKey::F4),
        Code::F5 => Key::Named(NamedKey::F5),
        Code::F6 => Key::Named(NamedKey::F6),
        Code::F7 => Key::Named(NamedKey::F7),
        Code::F8 => Key::Named(NamedKey::F8),
        Code::F9 => Key::Named(NamedKey::F9),
        Code::F10 => Key::Named(NamedKey::F10),
        Code::NumLock => Key::Named(NamedKey::NumLock),
        Code::ScrollLock => Key::Named(NamedKey::ScrollLock),
        Code::Numpad0 => n(m, NamedKey::Insert, '0'),
        Code::Numpad1 => n(m, NamedKey::End, '1'),
        Code::Numpad2 => n(m, NamedKey::ArrowDown, '2'),
        Code::Numpad3 => n(m, NamedKey::PageDown, '3'),
        Code::Numpad4 => n(m, NamedKey::ArrowLeft, '4'),
        Code::Numpad5 => n(m, NamedKey::Clear, '5'),
        Code::Numpad6 => n(m, NamedKey::ArrowRight, '6'),
        Code::Numpad7 => n(m, NamedKey::Home, '7'),
        Code::Numpad8 => n(m, NamedKey::ArrowUp, '8'),
        Code::Numpad9 => n(m, NamedKey::PageUp, '9'),
        Code::NumpadSubtract => Key::Character('-'),
        Code::NumpadAdd => Key::Character('+'),
        Code::NumpadDecimal => n(m, NamedKey::Delete, '.'),
        Code::IntlBackslash => s(m, '\\', '|'),
        Code::F11 => Key::Named(NamedKey::F11),
        Code::F12 => Key::Named(NamedKey::F12),
        Code::IntlRo => Key::Character('\\'),
        Code::Convert => Key::Named(NamedKey::Convert),
        Code::KanaMode => Key::Named(NamedKey::KanaMode),
        Code::NonConvert => Key::Named(NamedKey::NonConvert),
        Code::NumpadEnter => Key::Named(NamedKey::Enter),
        Code::ControlRight => Key::Named(NamedKey::Control),
        Code::NumpadDivide => Key::Character('/'),
        Code::PrintScreen => Key::Named(NamedKey::PrintScreen),
        Code::AltRight => Key::Named(NamedKey::Alt),
        Code::Home => Key::Named(NamedKey::Home),
        Code::ArrowUp => Key::Named(NamedKey::ArrowUp),
        Code::PageUp => Key::Named(NamedKey::PageUp),
        Code::ArrowLeft => Key::Named(NamedKey::ArrowLeft),
        Code::ArrowRight => Key::Named(NamedKey::ArrowRight),
        Code::End => Key::Named(NamedKey::End),
        Code::ArrowDown => Key::Named(NamedKey::ArrowDown),
        Code::PageDown => Key::Named(NamedKey::PageDown),
        Code::Insert => Key::Named(NamedKey::Insert),
        Code::Delete => Key::Named(NamedKey::Delete),
        Code::AudioVolumeMute => Key::Named(NamedKey::AudioVolumeMute),
        Code::AudioVolumeDown => Key::Named(NamedKey::AudioVolumeDown),
        Code::AudioVolumeUp => Key::Named(NamedKey::AudioVolumeUp),
        Code::NumpadEqual => Key::Character('='),
        Code::Pause => Key::Named(NamedKey::Pause),
        Code::NumpadComma => Key::Character(','),
        Code::Lang1 => Key::Named(NamedKey::HangulMode),
        Code::Lang2 => Key::Named(NamedKey::HanjaMode),
        Code::IntlYen => Key::Character('\u{a5}'),
        Code::MetaLeft => Key::Named(NamedKey::Meta),
        Code::MetaRight => Key::Named(NamedKey::Meta),
        Code::ContextMenu => Key::Named(NamedKey::ContextMenu),
        Code::BrowserStop => Key::Named(NamedKey::BrowserStop),
        Code::Again => Key::Named(NamedKey::Again),
        Code::Props => Key::Named(NamedKey::Props),
        Code::Undo => Key::Named(NamedKey::Undo),
        Code::Select => Key::Named(NamedKey::Select),
        Code::Copy => Key::Named(NamedKey::Copy),
        Code::Open => Key::Named(NamedKey::Open),
        Code::Paste => Key::Named(NamedKey::Paste),
        Code::Find => Key::Named(NamedKey::Find),
        Code::Cut => Key::Named(NamedKey::Cut),
        Code::Help => Key::Named(NamedKey::Help),
        Code::LaunchApp2 => Key::Named(NamedKey::LaunchApplication2),
        Code::WakeUp => Key::Named(NamedKey::WakeUp),
        Code::LaunchApp1 => Key::Named(NamedKey::LaunchApplication1),
        Code::LaunchMail => Key::Named(NamedKey::LaunchMail),
        Code::BrowserFavorites => Key::Named(NamedKey::BrowserFavorites),
        Code::BrowserBack => Key::Named(NamedKey::BrowserBack),
        Code::BrowserForward => Key::Named(NamedKey::BrowserForward),
        Code::Eject => Key::Named(NamedKey::Eject),
        Code::MediaTrackNext => Key::Named(NamedKey::MediaTrackNext),
        Code::MediaPlayPause => Key::Named(NamedKey::MediaPlayPause),
        Code::MediaTrackPrevious => Key::Named(NamedKey::MediaTrackPrevious),
        Code::MediaStop => Key::Named(NamedKey::MediaStop),
        Code::MediaSelect => Key::Named(NamedKey::LaunchMediaPlayer),
        Code::BrowserHome => Key::Named(NamedKey::BrowserHome),
        Code::BrowserRefresh => Key::Named(NamedKey::BrowserRefresh),
        Code::BrowserSearch => Key::Named(NamedKey::BrowserSearch),
        _ => Key::Named(NamedKey::Unidentified),
    }
}

/// The hardware keycode that an X server reports for each key code, after
/// the table in Mozilla's NativeKeyToDOMCodeName.h.
pub open spec fn x11_keycode(code: Code) -> Option<u16> {
    match code {
        Code::Escape => Some(0x0009),
        Code::Digit1 => Some(0x000A),
        Code::Digit2 => Some(0x000B),
        Code::Digit3 => Some(0x000C),
        Code::Digit4 => Some(0x000D),
        Code::Digit5 => Some(0x000E),
        Code::Digit6 => Some(0x000F),
        Code::Digit7 => Some(0x0010),
        Code::Digit8 => Some(0x0011),
        Code::Digit9 => Some(0x0012),
        Code::Digit0 => Some(0x0013),
        Code::Minus => Some(0x0014),
        Code::Equal => Some(0x0015),
        Code::Backspace => Some(0x0016),
        Code::Tab => Some(0x0017),
        Code::KeyQ => Some(0x0018),
        Code::KeyW => Some(0x0019),
        Code::KeyE => Some(0x001A),
        Code::KeyR => Some(0x001B),
        Code::KeyT => Some(0x001C),
        Code::KeyY => Some(0x001D),
        Code::KeyU => Some(0x001E),
        Code::KeyI => Some(0x001F),
        Code::KeyO => Some(0x0020),
        Code::KeyP => Some(0x0021),
        Code::BracketLeft => Some(0x0022),
        Code::BracketRight => Some(0x0023),
        Code::Enter => Some(0x0024),
        Code::ControlLeft => Some(0x0025),
        Code::KeyA => Some(0x0026),
        Code::KeyS => Some(0x0027),
        Code::KeyD => Some(0x0028),
        Code::KeyF => Some(0x0029),
        Code::KeyG => Some(0x002A),
        Code::KeyH => Some(0x002B),
        Code::KeyJ => Some(0x002C),
        Code::KeyK => Some(0x002D),
        Code::KeyL => Some(0x002E),
        Code::Semicolon => Some(0x002F),
        Code::Quote => Some(0x0030),
        Code::Backquote => Some(0x0031),
        Code::ShiftLeft => Some(0x0032),
        Code::Backslash => Some(0x0033),
        Code::KeyZ => Some(0x0034),
        Code::KeyX => Some(0x0035),
        Code::KeyC => Some(0x0036),
        Code::KeyV => Some(0x0037),
        Code::KeyB => Some(0x0038),
        Code::KeyN => Some(0x0039),
        Code::KeyM => Some(0x003A),
        Code::Comma => Some(0x003B),
        Code::Period => Some(0x003C),
        Code::Slash => Some(0x003D),
        Code::ShiftRight => Some(0x003E),
        Code::NumpadMultiply => Some(0x003F),
        Code::AltLeft => Some(0x0040),
        Code::Space => Some(0x0041),
        Code::CapsLock => Some(0x0042),
        Code::F1 => Some(0x0043),
        Code::F2 => Some(0x0044),
        Code::F3 => Some(0x0045),
        Code::F4 => Some(0x0046),
        Code::F5 => Some(0x0047),
        Code::F6 => Some(0x0048),
        Code::F7 => Some(0x0049),
        Code::F8 => Some(0x004A),
        Code::F9 => Some(0x004B),
        Code::F10 => Some(0x004C),
        Code::NumLock => Some(0x004D),
        Code::ScrollLock => Some(0x004E),
        Code::Numpad7 => Some(0x004F),
        Code::Numpad8 => Some(0x0050),
        Code::Numpad9 => Some(0x0051),
        Code::NumpadSubtract => Some(0x0052),
        Code::Numpad4 => Some(0x0053),
        Code::Numpad5 => Some(0x0054),
        Code::Numpad6 => Some(0x0055),
        Code::NumpadAdd => Some(0x0056),
        Code::Numpad1 => Some(0x0057),
        Code::Numpad2 => Some(0x0058),
        Code::Numpad3 => Some(0x0059),
        Code::Numpad0 => Some(0x005A),
        Code::NumpadDecimal => Some(0x005B),
        Code::IntlBackslash => Some(0x005E),
        Code::F11 => Some(0x005F),
        Code::F12 => Some(0x0060),
        Code::IntlRo => Some(0x0061),
        Code::Convert => Some(0x0064),
        Code::KanaMode => Some(0x0065),
        Code::NonConvert => Some(0x0066),
        Code::NumpadEnter => Some(0x0068),
        Code::ControlRight => Some(0x0069),
        Code::NumpadDivide => Some(0x006A),
        Code::PrintScreen => Some(0x006B),
        Code::AltRight => Some(0x006C),
        Code::Home => Some(0x006E),
        Code::ArrowUp => Some(0x006F),
        Code::PageUp => Some(0x0070),
        Code::ArrowLeft => Some(0x0071),
        Code::ArrowRight => Some(0x0072),
        Code::End => Some(0x0073),
        Code::ArrowDown => Some(0x0074),
        Code::PageDown => Some(0x0075),
        Code::Insert => Some(0x0076),
        Code::Delete => Some(0x0077),
        Code::AudioVolumeMute => Some(0x0079),
        Code::AudioVolumeDown => Some(0x007A),
        Code::AudioVolumeUp => Some(0x007B),
        Code::NumpadEqual => Some(0x007D),
        Code::Pause => Some(0x007F),
        Code::NumpadComma => Some(0x0081),
        Code::Lang1 => Some(0x0082),
        Code::Lang2 => Some(0x0083),
        Code::IntlYen => Some(0x0084),
        Code::MetaLeft => Some(0x0085),
        Code::MetaRight => Some(0x0086),
        Code::ContextMenu => Some(0x0087),
        Code::BrowserStop => Some(0x0088),
        Code::Again => Some(0x0089),
        Code::Props => Some(0x008A),
        Code::Undo => Some(0x008B),
        Code::Select => Some(0x008C),
        Code::Copy => Some(0x008D),
        Code::Open => Some(0x008E),
        Code::Paste => Some(0x008F),
        Code::Find => Some(0x0090),
        Code::Cut => Some(0x0091),
        Code::Help => Some(0x0092),
        Code::LaunchApp2 => Some(0x0094),
        Code::WakeUp => Some(0x0097),
        Code::LaunchApp1 => Some(0x0098),
        Code::LaunchMail => Some(0x00A3),
        Code::BrowserFavorites => Some(0x00A4),
        Code::BrowserBack => Some(0x00A6),
        Code::BrowserForward => Some(0x00A7),
        Code::Eject => Some(0x00A9),
        Code::MediaTrackNext => Some(0x00AB),
        Code::MediaPlayPause => Some(0x00AC),
        Code::MediaTrackPrevious => Some(0x00AD),
        Code::MediaStop => Some(0x00AE),
        Code::MediaSelect => Some(0x00B3),
        Code::BrowserHome => Some(0x00B4),
        Code::BrowserRefresh => Some(0x00B5),
        Code::BrowserSearch => Some(0x00E1),
        _ => None,
    }
}

/// The key code of a hardware keycode: the one whose X11 keycode it is, or
/// `Unidentified` when no key code has it.
pub open spec fn spec_hardware_keycode_to_code(hw_keycode: u16) -> Code {
    if exists|c: Code| x11_keycode(c) == Some(hw_keycode) {
        choose|c: Code| x11_keycode(c) == Some(hw_keycode)
    } else {
        Code::Unidentified
    }
}

/// No two key codes share an X11 keycode.
pub proof fn lemma_x11_keycode_injective(c1: Code, c2: Code)
    requires
        x11_keycode(c1) is Some,
        x11_keycode(c1) == x11_keycode(c2),
    ensures
        c1 == c2,
{
}

/// Map a hardware keycode to a key code.
///
/// In theory the hardware keycode is device dependent, but in practice it
/// is reliable.
pub fn hardware_keycode_to_code(hw_keycode: u16) -> (code: Code)
    ensures
        code == spec_hardware_keycode_to_code(hw_keycode),
{
    let code = match hw_keycode {
        0x0009 => Code::Escape,
        0x000A => Code::Digit1,
        0x000B => Code::Digit2,
        0x000C => Code::Digit3,
        0x000D => Code::Digit4,
        0x000E => Code::Digit5,
        0x000F => Code::Digit6,
        0x0010 => Code::Digit7,
        0x0011 => Code::Digit8,
        0x0012 => Code::Digit9,
        0x0013 => Code::Digit0,
        0x0014 => Code::Minus,
        0x0015 => Code::Equal,
        0x0016 => Code::Backspace,
        0x0017 => Code::Tab,
        0x0018 => Code::KeyQ,
        0x0019 => Code::KeyW,
        0x001A => Code::KeyE,
        0x001B => Code::KeyR,
        0x001C => Code::KeyT,
        0x001D => Code::KeyY,
        0x001E => Code::KeyU,
        0x001F => Code::KeyI,
        0x0020 => Code::KeyO,
        0x0021 => Code::KeyP,
        0x0022 => Code::BracketLeft,
        0x0023 => Code::BracketRight,
        0x0024 => Code::Enter,
        0x0025 => Code::ControlLeft,
        0x0026 => Code::KeyA,
        0x0027 => Code::KeyS,
        0x0028 => Code::KeyD,
        0x0029 => Code::KeyF,
        0x002A => Code::KeyG,
        0x002B => Code::KeyH,
        0x002C => Code::KeyJ,
        0x002D => Code::KeyK,
        0x002E => Code::KeyL,
        0x002F => Code::Semicolon,
        0x0030 => Code::Quote,
        0x0031 => Code::Backquote,
        0x0032 => Code::ShiftLeft,
        0x0033 => Code::Backslash,
        0x0034 => Code::KeyZ,
        0x0035 => Code::KeyX,
        0x0036 => Code::KeyC,
        0x0037 => Code::KeyV,
        0x0038 => Code::KeyB,
        0x0039 => Code::KeyN,
        0x003A => Code::KeyM,
        0x003B => Code::Comma,
        0x003C => Code::Period,
        0x003D => Code::Slash,
        0x003E => Code::ShiftRight,
        0x003F => Code::NumpadMultiply,
        0x0040 => Code::AltLeft,
        0x0041 => Code::Space,
        0x0042 => Code::CapsLock,
        0x0043 => Code::F1,
        0x0044 => Code::F2,
        0x0045 => Code::F3,
        0x0046 => Code::F4,
        0x0047 => Code::F5,
        0x0048 => Code::F6,
        0x0049 => Code::F7,
        0x004A => Code::F8,
        0x004B => Code::F9,
        0x004C => Code::F10,
        0x004D => Code::NumLock,
        0x004E => Code::ScrollLock,
        0x004F => Code::Numpad7,
        0x0050 => Code::Numpad8,
        0x0051 => Code::Numpad9,
        0x0052 => Code::NumpadSubtract,
        0x0053 => Code::Numpad4,
        0x0054 => Code::Numpad5,
        0x0055 => Code::Numpad6,
        0x0056 => Code::NumpadAdd,
        0x0057 => Code::Numpad1,
        0x0058 => Code::Numpad2,
        0x0059 => Code::Numpad3,
        0x005A => Code::Numpad0,
        0x005B => Code::NumpadDecimal,
        0x005E => Code::IntlBackslash,
        0x005F => Code::F11,
        0x0060 => Code::F12,
        0x0061 => Code::IntlRo,
        0x0064 => Code::Convert,
        0x0065 => Code::KanaMode,
        0x0066 => Code::NonConvert,
        0x0068 => Code::NumpadEnter,
        0x0069 => Code::ControlRight,
        0x006A => Code::NumpadDivide,
        0x006B => Code::PrintScreen,
        0x006C => Code::AltRight,
        0x006E => Code::Home,
        0x006F => Code::ArrowUp,
        0x0070 => Code::PageUp,
        0x0071 => Code::ArrowLeft,
        0x0072 => Code::ArrowRight,
        0x0073 => Code::End,
        0x0074 => Code::ArrowDown,
        0x0075 => Code::PageDown,
        0x0076 => Code::Insert,
        0x0077 => Code::Delete,
        0x0079 => Code::AudioVolumeMute,
        0x007A => Code::AudioVolumeDown,
        0x007B => Code::AudioVolumeUp,
        0x007D => Code::NumpadEqual,
        0x007F => Code::Pause,
        0x0081 => Code::NumpadComma,
        0x0082 => Code::Lang1,
        0x0083 => Code::Lang2,
        0x0084 => Code::IntlYen,
        0x0085 => Code::MetaLeft,
        0x0086 => Code::MetaRight,
        0x0087 => Code::ContextMenu,
        0x0088 => Code::BrowserStop,
        0x0089 => Code::Again,
        0x008A => Code::Props,
        0x008B => Code::Undo,
        0x008C => Code::Select,
        0x008D => Code::Copy,
        0x008E => Code::Open,
        0x008F => Code::Paste,
        0x0090 => Code::Find,
        0x0091 => Code::Cut,
        0x0092 => Code::Help,
        0x0094 => Code::LaunchApp2,
        0x0097 => Code::WakeUp,
        0x0098 => Code::LaunchApp1,
        0x00A3 => Code::LaunchMail,
        0x00A4 => Code::BrowserFavorites,
        0x00A6 => Code::BrowserBack,
        0x00A7 => Code::BrowserForward,
        0x00A9 => Code::Eject,
        0x00AB => Code::MediaTrackNext,
        0x00AC => Code::MediaPlayPause,
        0x00AD => Code::MediaTrackPrevious,
        0x00AE => Code::MediaStop,
        0x00B3 => Code::MediaSelect,
        0x00B4 => Code::BrowserHome,
        0x00B5 => Code::BrowserRefresh,
        0x00E1 => Code::BrowserSearch,
        _ => Code::Unidentified,
    };
    proof {
        if code != Code::Unidentified {
            let c = choose|c: Code| x11_keycode(c) == Some(hw_keycode);
            assert(x11_keycode(code) == Some(hw_keycode));
            lemma_x11_keycode_injective(code, c);
        } else {
            assert forall|c: Code| x11_keycode(c) != Some(hw_keycode) by {
            }
        }
    }
    code
}

/// The X11 modifier masks that give a modifier, each with the modifier it
/// gives. X11's mod keys are configurable; Mod1 as Alt, Mod2 as NumLock and
/// Mod4 as Meta (the "windows" key) is the usual setup of US keyboards.
pub open spec fn modifier_table() -> Seq<(u16, u32)> {
    seq![(1u16, SHIFT), (4u16, CONTROL), (8u16, ALT), (16u16, NUM_LOCK), (64u16, META), (2u16, CAPS_LOCK)]
}

/// The modifiers that the first `n` rows of the table give for `mods`.
pub open spec fn key_mods_upto(mods: u16, n: nat) -> u32
    decreases n,
{
    if n == 0 {
        0
    } else {
        let prev = key_mods_upto(mods, (n - 1) as nat);
        let row = modifier_table()[n - 1];
        if mods & row.0 == row.0 {
            prev | row.1
        } else {
            prev
        }
    }
}

/// The modifier bits of an X11 key-and-button mask.
pub open spec fn spec_key_mods(mods: u16) -> u32 {
    key_mods_upto(mods, 6)
}

/// `x11rb`'s `KeyButMask::SHIFT` as a `u16`: bit 0.
#[verifier::external_body]
fn shift_mask() -> (r: u16)
    ensures
        r == 1,
{
    u16::from(KeyButMask::SHIFT)
}

/// `x11rb`'s `KeyButMask::LOCK` as a `u16`: bit 1.
#[verifier::external_body]
fn lock_mask() -> (r: u16)
    ensures
        r == 2,
{
    u16::from(KeyButMask::LOCK)
}

/// `x11rb`'s `KeyButMask::CONTROL` as a `u16`: bit 2.
#[verifier::external_body]
fn control_mask() -> (r: u16)
    ensures
        r == 4,
{
    u16::from(KeyButMask::CONTROL)
}

/// `x11rb`'s `KeyButMask::MOD1` as a `u16`: bit 3.
#[verifier::external_body]
fn mod1_mask() -> (r: u16)
    ensures
        r == 8,
{
    u16::from(KeyButMask::MOD1)
}

/// `x11rb`'s `KeyButMask::MOD2` as a `u16`: bit 4.
#[verifier::external_body]
fn mod2_mask() -> (r: u16)
    ensures
        r == 16,
{
    u16::from(KeyButMask::MOD2)
}

/// `x11rb`'s `KeyButMask::MOD4` as a `u16`: bit 6.
#[verifier::external_body]
fn mod4_mask() -> (r: u16)
    ensures
        r == 64,
{
    u16::from(KeyButMask::MOD4)
}

/// Extract the keyboard modifiers from an X11 key-and-button mask, such as
/// the `state` field of a key or button event (taken as its `u16` bits).
pub fn key_mods(mods: u16) -> (r: Modifiers)
    ensures
        r.bits == spec_key_mods(mods),
{
    let mut ret = Modifiers::empty();
    let key_masks: [(u16, u32); 6] = [
        (shift_mask(), SHIFT),
        (control_mask(), CONTROL),
        (mod1_mask(), ALT),
        (mod2_mask(), NUM_LOCK),
        (mod4_mask(), META),
        (lock_mask(), CAPS_LOCK),
    ];
    assert(key_masks@ =~= modifier_table());
    for i in 0..6
        invariant
            key_masks@ == modifier_table(),
            ret.bits == key_mods_upto(mods, i as nat),
    {
        let (mask, modifiers) = key_masks[i];
        if mods & mask == mask {
            ret.insert(modifiers);
        }
    }
    ret
}

/// What the library reads of an X11 key press or release event: the
/// hardware keycode (`detail`) and the key-and-button mask (`state`).
#[derive(Clone, Copy, Debug, PartialEq, Eq, Structural)]
pub struct KeyPressEvent {
    pub detail: u8,
    pub state: u16,
}

/// A key release carries the same fields as a key press.
pub type KeyReleaseEvent = KeyPressEvent;

/// The keyboard event of an X11 key event, with the given key state.
pub open spec fn spec_key_event(event: KeyPressEvent, state: KeyState) -> KeyboardEvent {
    let code = spec_hardware_keycode_to_code(event.detail as u16);
    let modifiers = Modifiers { bits: spec_key_mods(event.state) };
    KeyboardEvent {
        code,
        key: spec_code_to_key(code, modifiers),
        modifiers,
        location: spec_code_to_location(code),
        state,
        repeat: false,
        is_composing: false,
    }
}

fn convert_key_event(event: &KeyPressEvent, state: KeyState) -> (e: KeyboardEvent)
    ensures
        e == spec_key_event(*event, state),
{
    let hw_keycode = event.detail;
    let code = hardware_keycode_to_code(hw_keycode as u16);
    let modifiers = key_mods(event.state);
    let key = code_to_key(code, modifiers);
    let location = code_to_location(code);
    KeyboardEvent { code, key, modifiers, location, state, repeat: false, is_composing: false }
}

pub fn convert_key_press_event(key_press: &KeyPressEvent) -> (e: KeyboardEvent)
    ensures
        e == spec_key_event(*key_press, KeyState::Down),
{
    convert_key_event(key_press, KeyState::Down)
}

pub fn convert_key_release_event(key_release: &KeyReleaseEvent) -> (e: KeyboardEvent)
    ensures
        e == spec_key_event(*key_release, KeyState::Up),
{
    convert_key_event(key_release, KeyState::Up)
}

/// Distinct hardware keycodes never give the same identified key code.
pub proof fn lemma_hardware_keycode_to_code_injective(hw1: u16, hw2: u16)
    requires
        spec_hardware_keycode_to_code(hw1) == spec_hardware_keycode_to_code(hw2),
        spec_hardware_keycode_to_code(hw1) != Code::Unidentified,
    ensures
        hw1 == hw2,
{
}

/// Every key code of the table is given back by its own hardware keycode.
pub proof fn lemma_hardware_keycode_round_trip(code: Code)
    requires
        code != Code::Unidentified,
    ensures
        x11_keycode(code) is Some,
        spec_hardware_keycode_to_code(x11_keycode(code).unwrap() as u16) == code,
{
    let hw = x11_keycode(code).unwrap();
    let c = choose|c: Code| x11_keycode(c) == Some(hw);
    lemma_x11_keycode_injective(code, c);
}

/// The key value depends on the modifiers only through Shift and NumLock.
pub proof fn lemma_code_to_key_reads_only_shift_and_num_lock(code: Code, m1: Modifiers, m2: Modifiers)
    requires
        m1.has(SHIFT) == m2.has(SHIFT),
        m1.has(NUM_LOCK) == m2.has(NUM_LOCK),
    ensures
        spec_code_to_key(code, m1) == spec_code_to_key(code, m2),
{
}

/// A letter key types its lower-case ASCII letter, and with Shift the
/// upper-case one.
pub proof fn lemma_letter_keys_shift_to_upper_case(code: Code, m: Modifiers)
    requires
        letter_of(code) is Some,
    ensures
        spec_code_to_key(code, m) is Character,
        m.has(SHIFT) ==> 'A' <= spec_code_to_key(code, m)->Character_0 <= 'Z',
        !m.has(SHIFT) ==> 'a' <= spec_code_to_key(code, m)->Character_0 <= 'z',
        m.has(SHIFT) ==> spec_code_to_key(code, m)->Character_0 as int == letter_of(code).unwrap()
            as int - 32,
        !m.has(SHIFT) ==> spec_code_to_key(code, m)->Character_0 == letter_of(code).unwrap(),
{
}

/// Every key code other than `Unidentified` gives an identified key value,
/// whatever the modifiers.
pub proof fn lemma_layout_is_total(code: Code, m: Modifiers)
    requires
        code != Code::Unidentified,
    ensures
        spec_code_to_key(code, m) != Key::Named(NamedKey::Unidentified),
{
}

/// A press and a release of the same key differ only in their state.
pub proof fn lemma_press_and_release_differ_only_in_state(event: KeyPressEvent)
    ensures
        spec_key_event(event, KeyState::Down) == (KeyboardEvent {
            state: KeyState::Down,
            ..spec_key_event(event, KeyState::Up)
        }),
        spec_key_event(event, KeyState::Down).state == KeyState::Down,
        spec_key_event(event, KeyState::Up).state == KeyState::Up,
{
}

/// Each X11 mask of the table sets its modifier exactly when it is in the
/// state, and no other modifier is ever set.
pub proof fn lemma_key_mods_flags(mods: u16)
    ensures
        (spec_key_mods(mods) & SHIFT == SHIFT) == (mods & 1 == 1),
        (spec_key_mods(mods) & CAPS_LOCK == CAPS_LOCK) == (mods & 2 == 2),
        (spec_key_mods(mods) & CONTROL == CONTROL) == (mods & 4 == 4),
        (spec_key_mods(mods) & ALT == ALT) == (mods & 8 == 8),
        (spec_key_mods(mods) & NUM_LOCK == NUM_LOCK) == (mods & 16 == 16),
        (spec_key_mods(mods) & META == META) == (mods & 64 == 64),
        spec_key_mods(mods) & !(SHIFT | CAPS_LOCK | CONTROL | ALT | NUM_LOCK | META) == 0,
{
    reveal_with_fuel(key_mods_upto, 7);
    let r1 = key_mods_upto(mods, 1);
    let r2 = key_mods_upto(mods, 2);
    let r3 = key_mods_upto(mods, 3);
    let r4 = key_mods_upto(mods, 4);
    let r5 = key_mods_upto(mods, 5);
    let r6 = key_mods_upto(mods, 6);
    assert(r1 == (if mods & 1 == 1 { 0u32 | 0x200u32 } else { 0u32 }));
    assert(r2 == (if mods & 4 == 4 { r1 | 0x8u32 } else { r1 }));
    assert(r3 == (if mods & 8 == 8 { r2 | 0x1u32 } else { r2 }));
    assert(r4 == (if mods & 16 == 16 { r3 | 0x80u32 } else { r3 }));
    assert(r5 == (if mods & 64 == 64 { r4 | 0x40u32 } else { r4 }));
    assert(r6 == (if mods & 2 == 2 { r5 | 0x4u32 } else { r5 }));
    assert({
        &&& (r6 & 0x200 == 0x200) == (mods & 1 == 1)
        &&& (r6 & 0x4 == 0x4) == (mods & 2 == 2)
        &&& (r6 & 0x8 == 0x8) == (mods & 4 == 4)
        &&& (r6 & 0x1 == 0x1) == (mods & 8 == 8)
        &&& (r6 & 0x80 == 0x80) == (mods & 16 == 16)
        &&& (r6 & 0x40 == 0x40) == (mods & 64 == 64)
        &&& r6 & !(0x200u32 | 0x4u32 | 0x8u32 | 0x1u32 | 0x80u32 | 0x40u32) == 0
    }) by (bit_vector)
        requires
            r1 == (if mods & 1 == 1 { 0u32 | 0x200u32 } else { 0u32 }),
            r2 == (if mods & 4 == 4 { r1 | 0x8u32 } else { r1 }),
            r3 == (if mods & 8 == 8 { r2 | 0x1u32 } else { r2 }),
            r4 == (if mods & 16 == 16 { r3 | 0x80u32 } else { r3 }),
            r5 == (if mods & 64 == 64 { r4 | 0x40u32 } else { r4 }),
            r6 == (if mods & 2 == 2 { r5 | 0x4u32 } else { r5 }),
    ;
}

/// Mod3, Mod5 and the mouse-button bits of the mask are ignored.
pub proof fn lemma_key_mods_ignores_other_masks(mods: u16)
    ensures
        spec_key_mods(mods) == spec_key_mods(mods & 0x5f),
{
    lemma_key_mods_flags(mods);
    lemma_key_mods_flags(mods & 0x5f);
    let a = spec_key_mods(mods);
    let b = spec_key_mods(mods & 0x5f);
    assert(a == b) by (bit_vector)
        requires
            (a & 0x200 == 0x200) == (mods & 1 == 1),
            (a & 0x4 == 0x4) == (mods & 2 == 2),
            (a & 0x8 == 0x8) == (mods & 4 == 4),
            (a & 0x1 == 0x1) == (mods & 8 == 8),
            (a & 0x80 == 0x80) == (mods & 16 == 16),
            (a & 0x40 == 0x40) == (mods & 64 == 64),
            a & !(0x200u32 | 0x4u32 | 0x8u32 | 0x1u32 | 0x80u32 | 0x40u32) == 0,
            (b & 0x200 == 0x200) == ((mods & 0x5f) & 1 == 1),
            (b & 0x4 == 0x4) == ((mods & 0x5f) & 2 == 2),
            (b & 0x8 == 0x8) == ((mods & 0x5f) & 4 == 4),
            (b & 0x1 == 0x1) == ((mods & 0x5f) & 8 == 8),
            (b & 0x80 == 0x80) == ((mods & 0x5f) & 16 == 16),
            (b & 0x40 == 0x40) == ((mods & 0x5f) & 64 == 64),
            b & !(0x200u32 | 0x4u32 | 0x8u32 | 0x1u32 | 0x80u32 | 0x40u32) == 0,
    ;
}

/// A converted key event carries exactly the modifiers of the X11 state mask
/// (Shift, Lock, Control, Mod1, Mod2 and Mod4 as Shift, CapsLock, Control,
/// Alt, NumLock and Meta, and nothing else), the key code of its hardware
/// keycode, the key value and location of that code under those modifiers,
/// and the given key state; it is never a repeat nor part of a composition.
pub proof fn lemma_key_event_fields(event: KeyPressEvent, state: KeyState)
    ensures
        ({
            let ev = spec_key_event(event, state);
            &&& ev.modifiers.bits == spec_key_mods(event.state)
            &&& ev.modifiers.has(SHIFT) == (event.state & 1 == 1)
            &&& ev.modifiers.has(CAPS_LOCK) == (event.state & 2 == 2)
            &&& ev.modifiers.has(CONTROL) == (event.state & 4 == 4)
            &&& ev.modifiers.has(ALT) == (event.state & 8 == 8)
            &&& ev.modifiers.has(NUM_LOCK) == (event.state & 16 == 16)
            &&& ev.modifiers.has(META) == (event.state & 64 == 64)
            &&& ev.modifiers.bits & !(SHIFT | CAPS_LOCK | CONTROL | ALT | NUM_LOCK | META) == 0
            &&& ev.code == spec_hardware_keycode_to_code(event.detail as u16)
            &&& ev.key == spec_code_to_key(ev.code, ev.modifiers)
            &&& ev.location == spec_code_to_location(ev.code)
            &&& ev.state == state
            &&& !ev.repeat
            &&& !ev.is_composing
        }),
{
    lemma_key_mods_flags(event.state);
}

/// Keys of the main block that type a printable ASCII character, one with
/// Shift and another without. The ISO key beside the left Shift types the
/// same characters as the backslash key, so it is left out.
pub open spec fn printing_key(code: Code) -> bool {
    &&& letter_of(code) is Some || symbol_pair(code) is Some
    &&& code != Code::IntlBackslash
}

/// A symbol key types its base character without Shift and its shifted
/// character with Shift, whatever else is held.
pub proof fn lemma_symbol_keys_follow_shift(code: Code, m: Modifiers)
    requires
        symbol_pair(code) is Some,
    ensures
        spec_code_to_key(code, m) == Key::Character(
            if m.has(SHIFT) {
                symbol_pair(code).unwrap().1
            } else {
                symbol_pair(code).unwrap().0
            },
        ),
        symbol_pair(code).unwrap().0 != symbol_pair(code).unwrap().1,
{
}

/// The printing keys type printable ASCII characters, never a space or a
/// control character.
pub proof fn lemma_printing_keys_type_printable_ascii(code: Code, m: Modifiers)
    requires
        printing_key(code),
    ensures
        spec_code_to_key(code, m) is Character,
        '!' <= spec_code_to_key(code, m)->Character_0 <= '~',
{
}

/// No two printing keys type the same character, and no printing key types
/// the same character with Shift as without: a typed character tells the
/// key and the state of Shift apart.
pub proof fn lemma_printing_keys_are_distinct(a: Code, ma: Modifiers, b: Code, mb: Modifiers)
    requires
        printing_key(a),
        printing_key(b),
        spec_code_to_key(a, ma) == spec_code_to_key(b, mb),
    ensures
        a == b,
        ma.has(SHIFT) == mb.has(SHIFT),
{
}

/// The key beside the left Shift on ISO keyboards types what the backslash
/// key types.
pub proof fn lemma_intl_backslash_is_backslash(m: Modifiers)
    ensures
        spec_code_to_key(Code::IntlBackslash, m) == spec_code_to_key(Code::Backslash, m),
{
}

} // verus!
