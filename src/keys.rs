//! Mapping of physical keys into the browser engine's dual key codes.
use vstd::prelude::*;
use winit::keyboard::KeyCode;

verus! {

#[verifier::external_type_specification]
pub struct ExKeyCode(KeyCode);

/// The "windows-style" virtual key code of a key of the allow-list.
pub open spec fn windows_code_of(key: KeyCode) -> Option<i32> {
    match key {
        KeyCode::Backspace => Some(8),
        KeyCode::Tab => Some(9),
        KeyCode::Enter => Some(13),
        KeyCode::Space => Some(32),
        KeyCode::ArrowLeft => Some(37),
        KeyCode::ArrowUp => Some(38),
        KeyCode::ArrowRight => Some(39),
        KeyCode::ArrowDown => Some(40),
        KeyCode::Digit0 => Some(48),
        KeyCode::Digit1 => Some(49),
        KeyCode::Digit2 => Some(50),
        KeyCode::Digit3 => Some(51),
        KeyCode::Digit4 => Some(52),
        KeyCode::Digit5 => Some(53),
        KeyCode::Digit6 => Some(54),
        KeyCode::Digit7 => Some(55),
        KeyCode::Digit8 => Some(56),
        KeyCode::Digit9 => Some(57),
        KeyCode::KeyA => Some(65),
        KeyCode::KeyC => Some(67),
        KeyCode::KeyV => Some(86),
        KeyCode::KeyX => Some(88),
        _ => None,
    }
}

/// The platform-native (X11 keycode) of a key of the allow-list.
pub open spec fn native_code_of(key: KeyCode) -> Option<i32> {
    match key {
        KeyCode::Backspace => Some(22),
        KeyCode::Tab => Some(23),
        KeyCode::Enter => Some(36),
        KeyCode::Space => Some(65),
        KeyCode::ArrowLeft => Some(113),
        KeyCode::ArrowUp => Some(111),
        KeyCode::ArrowRight => Some(114),
        KeyCode::ArrowDown => Some(116),
        KeyCode::Digit0 => Some(19),
        KeyCode::Digit1 => Some(10),
        KeyCode::Digit2 => Some(11),
        KeyCode::Digit3 => Some(12),
        KeyCode::Digit4 => Some(13),
        KeyCode::Digit5 => Some(14),
        KeyCode::Digit6 => Some(15),
        KeyCode::Digit7 => Some(16),
        KeyCode::Digit8 => Some(17),
        KeyCode::Digit9 => Some(18),
        KeyCode::KeyA => Some(38),
        KeyCode::KeyC => Some(54),
        KeyCode::KeyV => Some(55),
        KeyCode::KeyX => Some(53),
        _ => None,
    }
}

/// A key is forwarded to the browser only when it is on the allow-list.
pub open spec fn key_allowed(key: KeyCode) -> bool {
    windows_code_of(key).is_some()
}

/// Windows-style virtual key code.
pub struct WindowsKeyCode(pub i32);

impl WindowsKeyCode {
    pub fn try_from(value: KeyCode) -> (r: Result<WindowsKeyCode, &'static str>)
        ensures
            match windows_code_of(value) {
                Some(c) => r matches Ok(w) && w.0 == c,
                None => r is Err,
            },
    {
        match value {
            KeyCode::Backspace => Ok(WindowsKeyCode(8)),
            KeyCode::Tab => Ok(WindowsKeyCode(9)),
            KeyCode::Enter => Ok(WindowsKeyCode(13)),
            KeyCode::Space => Ok(WindowsKeyCode(32)),
            KeyCode::ArrowLeft => Ok(WindowsKeyCode(37)),
            KeyCode::ArrowUp => Ok(WindowsKeyCode(38)),
            KeyCode::ArrowRight => Ok(WindowsKeyCode(39)),
            KeyCode::ArrowDown => Ok(WindowsKeyCode(40)),
            KeyCode::Digit0 => Ok(WindowsKeyCode(48)),
            KeyCode::Digit1 => Ok(WindowsKeyCode(49)),
            KeyCode::Digit2 => Ok(WindowsKeyCode(50)),
            KeyCode::Digit3 => Ok(WindowsKeyCode(51)),
            KeyCode::Digit4 => Ok(WindowsKeyCode(52)),
            KeyCode::Digit5 => Ok(WindowsKeyCode(53)),
            KeyCode::Digit6 => Ok(WindowsKeyCode(54)),
            KeyCode::Digit7 => Ok(WindowsKeyCode(55)),
            KeyCode::Digit8 => Ok(WindowsKeyCode(56)),
            KeyCode::Digit9 => Ok(WindowsKeyCode(57)),
            KeyCode::KeyA => Ok(WindowsKeyCode(65)),
            KeyCode::KeyC => Ok(WindowsKeyCode(67)),
            KeyCode::KeyV => Ok(WindowsKeyCode(86)),
            KeyCode::KeyX => Ok(WindowsKeyCode(88)),
            _ => Err("Failed to convert KeyCode to WindowsKeyCode"),
        }
    }
}

/// Platform-native key code.
pub struct NativeKeyCode(pub i32);

impl NativeKeyCode {
    pub fn try_from(value: KeyCode) -> (r: Result<NativeKeyCode, &'static str>)
        ensures
            match native_code_of(value) {
                Some(c) => r matches Ok(n) && n.0 == c,
                None => r is Err,
            },
    {
        match value {
            KeyCode::Backspace => Ok(NativeKeyCode(22)),
            KeyCode::Tab => Ok(NativeKeyCode(23)),
            KeyCode::Enter => Ok(NativeKeyCode(36)),
            KeyCode::Space => Ok(NativeKeyCode(65)),
            KeyCode::ArrowLeft => Ok(NativeKeyCode(113)),
            KeyCode::ArrowUp => Ok(NativeKeyCode(111)),
            KeyCode::ArrowRight => Ok(NativeKeyCode(114)),
            KeyCode::ArrowDown => Ok(NativeKeyCode(116)),
            KeyCode::Digit0 => Ok(NativeKeyCode(19)),
            KeyCode::Digit1 => Ok(NativeKeyCode(10)),
            KeyCode::Digit2 => Ok(NativeKeyCode(11)),
            KeyCode::Digit3 => Ok(NativeKeyCode(12)),
            KeyCode::Digit4 => Ok(NativeKeyCode(13)),
            KeyCode::Digit5 => Ok(NativeKeyCode(14)),
            KeyCode::Digit6 => Ok(NativeKeyCode(15)),
            KeyCode::Digit7 => Ok(NativeKeyCode(16)),
            KeyCode::Digit8 => Ok(NativeKeyCode(17)),
            KeyCode::Digit9 => Ok(NativeKeyCode(18)),
            KeyCode::KeyA => Ok(NativeKeyCode(38)),
            KeyCode::KeyC => Ok(NativeKeyCode(54)),
            KeyCode::KeyV => Ok(NativeKeyCode(55)),
            KeyCode::KeyX => Ok(NativeKeyCode(53)),
            _ => Err("Failed to convert KeyCode to NativeKeyCode"),
        }
    }
}

} // verus!
