use vstd::prelude::*;
use crate::keycodes;
use crate::keycodes::CGKeyCode;

verus! {

/// A platform keycode carried as it is.
#[derive(Clone, Copy, Debug, PartialEq, Eq, Structural)]
pub enum RawKey {
    ScanCode(u32),
    WinVirtualKeycode(u32),
    LinuxXorgKeycode(u32),
    LinuxConsoleKeycode(u32),
    MacVirtualKeycode(CGKeyCode),
}

/// A key of the keyboard, by its position on a US layout.
#[derive(Clone, Copy, Debug, PartialEq, Eq, Structural)]
pub enum Key {
    Alt,
    AltGr,
    Backspace,
    CapsLock,
    ControlLeft,
    ControlRight,
    Delete,
    DownArrow,
    End,
    Escape,
    F1,
    F2,
    F3,
    F4,
    F5,
    F6,
    F7,
    F8,
    F9,
    F10,
    F11,
    F12,
    F13,
    F14,
    F15,
    F16,
    F17,
    F18,
    F19,
    F20,
    Home,
    LeftArrow,
    MetaLeft,
    MetaRight,
    PageDown,
    PageUp,
    Return,
    RightArrow,
    ShiftLeft,
    ShiftRight,
    Space,
    Tab,
    UpArrow,
    Function,
    Insert,
    VolumeUp,
    VolumeDown,
    VolumeMute,
    BackQuote,
    Num0,
    Num1,
    Num2,
    Num3,
    Num4,
    Num5,
    Num6,
    Num7,
    Num8,
    Num9,
    Minus,
    Equal,
    LeftBracket,
    RightBracket,
    SemiColon,
    Quote,
    BackSlash,
    IntlBackslash,
    Comma,
    Dot,
    Slash,
    KeyA,
    KeyB,
    KeyC,
    KeyD,
    KeyE,
    KeyF,
    KeyG,
    KeyH,
    KeyI,
    KeyJ,
    KeyK,
    KeyL,
    KeyM,
    KeyN,
    KeyO,
    KeyP,
    KeyQ,
    KeyR,
    KeyS,
    KeyT,
    KeyU,
    KeyV,
    KeyW,
    KeyX,
    KeyY,
    KeyZ,
    KpReturn,
    KpMinus,
    KpPlus,
    KpMultiply,
    KpDivide,
    KpDecimal,
    KpEqual,
    KpClear,
    Kp0,
    Kp1,
    Kp2,
    Kp3,
    Kp4,
    Kp5,
    Kp6,
    Kp7,
    Kp8,
    Kp9,
    PrintScreen,
    ScrollLock,
    Pause,
    NumLock,
    /// A key with no name here, by its macOS virtual keycode.
    Unknown(u32),
    RawKey(RawKey),
}

/// A mouse button.
#[derive(Clone, Copy, Debug, PartialEq, Eq, Structural)]
pub enum Button {
    Left,
    Right,
    Middle,
    Unknown(u8),
}

/// An input event to simulate.
///
/// The pointer coordinates of `MouseMove` are `f64` values carried as their
/// IEEE-754 bit patterns (`f64::to_bits`); nothing here reads them.
#[derive(Clone, Copy, Debug, PartialEq, Eq, Structural)]
pub enum EventType {
    KeyPress(Key),
    KeyRelease(Key),
    ButtonPress(Button),
    ButtonRelease(Button),
    MouseMove { x_bits: u64, y_bits: u64 },
    Wheel { delta_x: i64, delta_y: i64 },
}

/// The hardware keyboard type that simulated key events claim to come from.
#[derive(Clone, Copy, Debug, PartialEq, Eq, Structural)]
pub enum MacKeyboardType {
    /// Whatever keyboard type the system reports when an event is sent.
    Current,
    Ansi,
    Iso,
    Jis,
    /// A keyboard type ID given as it is.
    Raw(u32),
}

/// The characters that a key press produces.
#[derive(Clone, Debug)]
pub struct UnicodeInfo {
    /// The produced UTF-16 text decoded, when it is valid UTF-16.
    pub name: Option<String>,
    /// The produced UTF-16 code units.
    pub unicode: Vec<u16>,
    /// The key only started a dead-key sequence.
    pub is_dead: bool,
}

/// The macOS virtual keycode of a named key; `Unknown` keys carry theirs.
pub open spec fn spec_code_from_key(key: Key) -> Option<CGKeyCode> {
    match key {
        Key::Alt => Some(keycodes::kVK_Option),
        Key::AltGr => Some(keycodes::kVK_RightOption),
        Key::Backspace => Some(keycodes::kVK_Delete),
        Key::CapsLock => Some(keycodes::kVK_CapsLock),
        Key::ControlLeft => Some(keycodes::kVK_Control),
        Key::ControlRight => Some(keycodes::kVK_RightControl),
        Key::Delete => Some(keycodes::kVK_ForwardDelete),
        Key::DownArrow => Some(keycodes::kVK_DownArrow),
        Key::End => Some(keycodes::kVK_End),
        Key::Escape => Some(keycodes::kVK_Escape),
        Key::F1 => Some(keycodes::kVK_F1),
        Key::F2 => Some(keycodes::kVK_F2),
        Key::F3 => Some(keycodes::kVK_F3),
        Key::F4 => Some(keycodes::kVK_F4),
        Key::F5 => Some(keycodes::kVK_F5),
        Key::F6 => Some(keycodes::kVK_F6),
        Key::F7 => Some(keycodes::kVK_F7),
        Key::F8 => Some(keycodes::kVK_F8),
        Key::F9 => Some(keycodes::kVK_F9),
        Key::F10 => Some(keycodes::kVK_F10),
        Key::F11 => Some(keycodes::kVK_F11),
        Key::F12 => Some(keycodes::kVK_F12),
        Key::F13 => Some(keycodes::kVK_F13),
        Key::F14 => Some(keycodes::kVK_F14),
        Key::F15 => Some(keycodes::kVK_F15),
        Key::F16 => Some(keycodes::kVK_F16),
        Key::F17 => Some(keycodes::kVK_F17),
        Key::F18 => Some(keycodes::kVK_F18),
        Key::F19 => Some(keycodes::kVK_F19),
        Key::F20 => Some(keycodes::kVK_F20),
        Key::Home => Some(keycodes::kVK_Home),
        Key::LeftArrow => Some(keycodes::kVK_LeftArrow),
        Key::MetaLeft => Some(keycodes::kVK_Command),
        Key::MetaRight => Some(keycodes::kVK_RightCommand),
        Key::PageDown => Some(keycodes::kVK_PageDown),
        Key::PageUp => Some(keycodes::kVK_PageUp),
        Key::Return => Some(keycodes::kVK_Return),
        Key::RightArrow => Some(keycodes::kVK_RightArrow),
        Key::ShiftLeft => Some(keycodes::kVK_Shift),
        Key::ShiftRight => Some(keycodes::kVK_RightShift),
        Key::Space => Some(keycodes::kVK_Space),
        Key::Tab => Some(keycodes::kVK_Tab),
        Key::UpArrow => Some(keycodes::kVK_UpArrow),
        Key::Function => Some(keycodes::kVK_Function),
        Key::Insert => Some(keycodes::kVK_Help),
        Key::VolumeUp => Some(keycodes::kVK_VolumeUp),
        Key::VolumeDown => Some(keycodes::kVK_VolumeDown),
        Key::VolumeMute => Some(keycodes::kVK_Mute),
        Key::BackQuote => Some(keycodes::kVK_ANSI_Grave),
        Key::Num0 => Some(keycodes::kVK_ANSI_0),
        Key::Num1 => Some(keycodes::kVK_ANSI_1),
        Key::Num2 => Some(keycodes::kVK_ANSI_2),
        Key::Num3 => Some(keycodes::kVK_ANSI_3),
        Key::Num4 => Some(keycodes::kVK_ANSI_4),
        Key::Num5 => Some(keycodes::kVK_ANSI_5),
        Key::Num6 => Some(keycodes::kVK_ANSI_6),
        Key::Num7 => Some(keycodes::kVK_ANSI_7),
        Key::Num8 => Some(keycodes::kVK_ANSI_8),
        Key::Num9 => Some(keycodes::kVK_ANSI_9),
        Key::Minus => Some(keycodes::kVK_ANSI_Minus),
        Key::Equal => Some(keycodes::kVK_ANSI_Equal),
        Key::LeftBracket => Some(keycodes::kVK_ANSI_LeftBracket),
        Key::RightBracket => Some(keycodes::kVK_ANSI_RightBracket),
        Key::SemiColon => Some(keycodes::kVK_ANSI_Semicolon),
        Key::Quote => Some(keycodes::kVK_ANSI_Quote),
        Key::BackSlash => Some(keycodes::kVK_ANSI_Backslash),
        Key::IntlBackslash => Some(keycodes::kVK_ISO_Section),
        Key::Comma => Some(keycodes::kVK_ANSI_Comma),
        Key::Dot => Some(keycodes::kVK_ANSI_Period),
        Key::Slash => Some(keycodes::kVK_ANSI_Slash),
        Key::KeyA => Some(keycodes::kVK_ANSI_A),
        Key::KeyB => Some(keycodes::kVK_ANSI_B),
        Key::KeyC => Some(keycodes::kVK_ANSI_C),
        Key::KeyD => Some(keycodes::kVK_ANSI_D),
        Key::KeyE => Some(keycodes::kVK_ANSI_E),
        Key::KeyF => Some(keycodes::kVK_ANSI_F),
        Key::KeyG => Some(keycodes::kVK_ANSI_G),
        Key::KeyH => Some(keycodes::kVK_ANSI_H),
        Key::KeyI => Some(keycodes::kVK_ANSI_I),
        Key::KeyJ => Some(keycodes::kVK_ANSI_J),
        Key::KeyK => Some(keycodes::kVK_ANSI_K),
        Key::KeyL => Some(keycodes::kVK_ANSI_L),
        Key::KeyM => Some(keycodes::kVK_ANSI_M),
        Key::KeyN => Some(keycodes::kVK_ANSI_N),
        Key::KeyO => Some(keycodes::kVK_ANSI_O),
        Key::KeyP => Some(keycodes::kVK_ANSI_P),
        Key::KeyQ => Some(keycodes::kVK_ANSI_Q),
        Key::KeyR => Some(keycodes::kVK_ANSI_R),
        Key::KeyS => Some(keycodes::kVK_ANSI_S),
        Key::KeyT => Some(keycodes::kVK_ANSI_T),
        Key::KeyU => Some(keycodes::kVK_ANSI_U),
        Key::KeyV => Some(keycodes::kVK_ANSI_V),
        Key::KeyW => Some(keycodes::kVK_ANSI_W),
        Key::KeyX => Some(keycodes::kVK_ANSI_X),
        Key::KeyY => Some(keycodes::kVK_ANSI_Y),
        Key::KeyZ => Some(keycodes::kVK_ANSI_Z),
        Key::KpReturn => Some(keycodes::kVK_ANSI_KeypadEnter),
        Key::KpMinus => Some(keycodes::kVK_ANSI_KeypadMinus),
        Key::KpPlus => Some(keycodes::kVK_ANSI_KeypadPlus),
        Key::KpMultiply => Some(keycodes::kVK_ANSI_KeypadMultiply),
        Key::KpDivide => Some(keycodes::kVK_ANSI_KeypadDivide),
        Key::KpDecimal => Some(keycodes::kVK_ANSI_KeypadDecimal),
        Key::KpEqual => Some(keycodes::kVK_ANSI_KeypadEquals),
        Key::KpClear => Some(keycodes::kVK_ANSI_KeypadClear),
        Key::Kp0 => Some(keycodes::kVK_ANSI_Keypad0),
        Key::Kp1 => Some(keycodes::kVK_ANSI_Keypad1),
        Key::Kp2 => Some(keycodes::kVK_ANSI_Keypad2),
        Key::Kp3 => Some(keycodes::kVK_ANSI_Keypad3),
        Key::Kp4 => Some(keycodes::kVK_ANSI_Keypad4),
        Key::Kp5 => Some(keycodes::kVK_ANSI_Keypad5),
        Key::Kp6 => Some(keycodes::kVK_ANSI_Keypad6),
        Key::Kp7 => Some(keycodes::kVK_ANSI_Keypad7),
        Key::Kp8 => Some(keycodes::kVK_ANSI_Keypad8),
        Key::Kp9 => Some(keycodes::kVK_ANSI_Keypad9),
        Key::Unknown(code) => Some(code as u16),
        _ => None,
    }
}

/// The macOS virtual keycode of `key`, if it has one.
pub fn code_from_key(key: Key) -> (r: Option<CGKeyCode>)
    ensures
        r == spec_code_from_key(key),
{
    match key {
        Key::Alt => Some(keycodes::kVK_Option),
        Key::AltGr => Some(keycodes::kVK_RightOption),
        Key::Backspace => Some(keycodes::kVK_Delete),
        Key::CapsLock => Some(keycodes::kVK_CapsLock),
        Key::ControlLeft => Some(keycodes::kVK_Control),
        Key::ControlRight => Some(keycodes::kVK_RightControl),
        Key::Delete => Some(keycodes::kVK_ForwardDelete),
        Key::DownArrow => Some(keycodes::kVK_DownArrow),
        Key::End => Some(keycodes::kVK_End),
        Key::Escape => Some(keycodes::kVK_Escape),
        Key::F1 => Some(keycodes::kVK_F1),
        Key::F2 => Some(keycodes::kVK_F2),
        Key::F3 => Some(keycodes::kVK_F3),
        Key::F4 => Some(keycodes::kVK_F4),
        Key::F5 => Some(keycodes::kVK_F5),
        Key::F6 => Some(keycodes::kVK_F6),
        Key::F7 => Some(keycodes::kVK_F7),
        Key::F8 => Some(keycodes::kVK_F8),
        Key::F9 => Some(keycodes::kVK_F9),
        Key::F10 => Some(keycodes::kVK_F10),
        Key::F11 => Some(keycodes::kVK_F11),
        Key::F12 => Some(keycodes::kVK_F12),
        Key::F13 => Some(keycodes::kVK_F13),
        Key::F14 => Some(keycodes::kVK_F14),
        Key::F15 => Some(keycodes::kVK_F15),
        Key::F16 => Some(keycodes::kVK_F16),
        Key::F17 => Some(keycodes::kVK_F17),
        Key::F18 => Some(keycodes::kVK_F18),
        Key::F19 => Some(keycodes::kVK_F19),
        Key::F20 => Some(keycodes::kVK_F20),
        Key::Home => Some(keycodes::kVK_Home),
        Key::LeftArrow => Some(keycodes::kVK_LeftArrow),
        Key::MetaLeft => Some(keycodes::kVK_Command),
        Key::MetaRight => Some(keycodes::kVK_RightCommand),
        Key::PageDown => Some(keycodes::kVK_PageDown),
        Key::PageUp => Some(keycodes::kVK_PageUp),
        Key::Return => Some(keycodes::kVK_Return),
        Key::RightArrow => Some(keycodes::kVK_RightArrow),
        Key::ShiftLeft => Some(keycodes::kVK_Shift),
        Key::ShiftRight => Some(keycodes::kVK_RightShift),
        Key::Space => Some(keycodes::kVK_Space),
        Key::Tab => Some(keycodes::kVK_Tab),
        Key::UpArrow => Some(keycodes::kVK_UpArrow),
        Key::Function => Some(keycodes::kVK_Function),
        Key::Insert => Some(keycodes::kVK_Help),
        Key::VolumeUp => Some(keycodes::kVK_VolumeUp),
        Key::VolumeDown => Some(keycodes::kVK_VolumeDown),
        Key::VolumeMute => Some(keycodes::kVK_Mute),
        Key::BackQuote => Some(keycodes::kVK_ANSI_Grave),
        Key::Num0 => Some(keycodes::kVK_ANSI_0),
        Key::Num1 => Some(keycodes::kVK_ANSI_1),
        Key::Num2 => Some(keycodes::kVK_ANSI_2),
        Key::Num3 => Some(keycodes::kVK_ANSI_3),
        Key::Num4 => Some(keycodes::kVK_ANSI_4),
        Key::Num5 => Some(keycodes::kVK_ANSI_5),
        Key::Num6 => Some(keycodes::kVK_ANSI_6),
        Key::Num7 => Some(keycodes::kVK_ANSI_7),
        Key::Num8 => Some(keycodes::kVK_ANSI_8),
        Key::Num9 => Some(keycodes::kVK_ANSI_9),
        Key::Minus => Some(keycodes::kVK_ANSI_Minus),
        Key::Equal => Some(keycodes::kVK_ANSI_Equal),
        Key::LeftBracket => Some(keycodes::kVK_ANSI_LeftBracket),
        Key::RightBracket => Some(keycodes::kVK_ANSI_RightBracket),
        Key::SemiColon => Some(keycodes::kVK_ANSI_Semicolon),
        Key::Quote => Some(keycodes::kVK_ANSI_Quote),
        Key::BackSlash => Some(keycodes::kVK_ANSI_Backslash),
        Key::IntlBackslash => Some(keycodes::kVK_ISO_Section),
        Key::Comma => Some(keycodes::kVK_ANSI_Comma),
        Key::Dot => Some(keycodes::kVK_ANSI_Period),
        Key::Slash => Some(keycodes::kVK_ANSI_Slash),
        Key::KeyA => Some(keycodes::kVK_ANSI_A),
        Key::KeyB => Some(keycodes::kVK_ANSI_B),
        Key::KeyC => Some(keycodes::kVK_ANSI_C),
        Key::KeyD => Some(keycodes::kVK_ANSI_D),
        Key::KeyE => Some(keycodes::kVK_ANSI_E),
        Key::KeyF => Some(keycodes::kVK_ANSI_F),
        Key::KeyG => Some(keycodes::kVK_ANSI_G),
        Key::KeyH => Some(keycodes::kVK_ANSI_H),
        Key::KeyI => Some(keycodes::kVK_ANSI_I),
        Key::KeyJ => Some(keycodes::kVK_ANSI_J),
        Key::KeyK => Some(keycodes::kVK_ANSI_K),
        Key::KeyL => Some(keycodes::kVK_ANSI_L),
        Key::KeyM => Some(keycodes::kVK_ANSI_M),
        Key::KeyN => Some(keycodes::kVK_ANSI_N),
        Key::KeyO => Some(keycodes::kVK_ANSI_O),
        Key::KeyP => Some(keycodes::kVK_ANSI_P),
        Key::KeyQ => Some(keycodes::kVK_ANSI_Q),
        Key::KeyR => Some(keycodes::kVK_ANSI_R),
        Key::KeyS => Some(keycodes::kVK_ANSI_S),
        Key::KeyT => Some(keycodes::kVK_ANSI_T),
        Key::KeyU => Some(keycodes::kVK_ANSI_U),
        Key::KeyV => Some(keycodes::kVK_ANSI_V),
        Key::KeyW => Some(keycodes::kVK_ANSI_W),
        Key::KeyX => Some(keycodes::kVK_ANSI_X),
        Key::KeyY => Some(keycodes::kVK_ANSI_Y),
        Key::KeyZ => Some(keycodes::kVK_ANSI_Z),
        Key::KpReturn => Some(keycodes::kVK_ANSI_KeypadEnter),
        Key::KpMinus => Some(keycodes::kVK_ANSI_KeypadMinus),
        Key::KpPlus => Some(keycodes::kVK_ANSI_KeypadPlus),
        Key::KpMultiply => Some(keycodes::kVK_ANSI_KeypadMultiply),
        Key::KpDivide => Some(keycodes::kVK_ANSI_KeypadDivide),
        Key::KpDecimal => Some(keycodes::kVK_ANSI_KeypadDecimal),
        Key::KpEqual => Some(keycodes::kVK_ANSI_KeypadEquals),
        Key::KpClear => Some(keycodes::kVK_ANSI_KeypadClear),
        Key::Kp0 => Some(keycodes::kVK_ANSI_Keypad0),
        Key::Kp1 => Some(keycodes::kVK_ANSI_Keypad1),
        Key::Kp2 => Some(keycodes::kVK_ANSI_Keypad2),
        Key::Kp3 => Some(keycodes::kVK_ANSI_Keypad3),
        Key::Kp4 => Some(keycodes::kVK_ANSI_Keypad4),
        Key::Kp5 => Some(keycodes::kVK_ANSI_Keypad5),
        Key::Kp6 => Some(keycodes::kVK_ANSI_Keypad6),
        Key::Kp7 => Some(keycodes::kVK_ANSI_Keypad7),
        Key::Kp8 => Some(keycodes::kVK_ANSI_Keypad8),
        Key::Kp9 => Some(keycodes::kVK_ANSI_Keypad9),
        Key::Unknown(code) => Some(code as u16),
        _ => None,
    }
}

/// Whether `key` is one of the named keys (not `Unknown`, not a raw code).
pub open spec fn is_named_key(key: Key) -> bool {
    !(key is Unknown) && !(key is RawKey)
}

/// The named key that sits at each macOS virtual keycode, by the numeric
/// values of Carbon's `kVK_` constants.
pub open spec fn named_key_at(code: CGKeyCode) -> Option<Key> {
    match code {
        0 => Some(Key::KeyA),
        1 => Some(Key::KeyS),
        2 => Some(Key::KeyD),
        3 => Some(Key::KeyF),
        4 => Some(Key::KeyH),
        5 => Some(Key::KeyG),
        6 => Some(Key::KeyZ),
        7 => Some(Key::KeyX),
        8 => Some(Key::KeyC),
        9 => Some(Key::KeyV),
        10 => Some(Key::IntlBackslash),
        11 => Some(Key::KeyB),
        12 => Some(Key::KeyQ),
        13 => Some(Key::KeyW),
        14 => Some(Key::KeyE),
        15 => Some(Key::KeyR),
        16 => Some(Key::KeyY),
        17 => Some(Key::KeyT),
        18 => Some(Key::Num1),
        19 => Some(Key::Num2),
        20 => Some(Key::Num3),
        21 => Some(Key::Num4),
        22 => Some(Key::Num6),
        23 => Some(Key::Num5),
        24 => Some(Key::Equal),
        25 => Some(Key::Num9),
        26 => Some(Key::Num7),
        27 => Some(Key::Minus),
        28 => Some(Key::Num8),
        29 => Some(Key::Num0),
        30 => Some(Key::RightBracket),
        31 => Some(Key::KeyO),
        32 => Some(Key::KeyU),
        33 => Some(Key::LeftBracket),
        34 => Some(Key::KeyI),
        35 => Some(Key::KeyP),
        36 => Some(Key::Return),
        37 => Some(Key::KeyL),
        38 => Some(Key::KeyJ),
        39 => Some(Key::Quote),
        40 => Some(Key::KeyK),
        41 => Some(Key::SemiColon),
        42 => Some(Key::BackSlash),
        43 => Some(Key::Comma),
        44 => Some(Key::Slash),
        45 => Some(Key::KeyN),
        46 => Some(Key::KeyM),
        47 => Some(Key::Dot),
        48 => Some(Key::Tab),
        49 => Some(Key::Space),
        50 => Some(Key::BackQuote),
        51 => Some(Key::Backspace),
        53 => Some(Key::Escape),
        54 => Some(Key::MetaRight),
        55 => Some(Key::MetaLeft),
        56 => Some(Key::ShiftLeft),
        57 => Some(Key::CapsLock),
        58 => Some(Key::Alt),
        59 => Some(Key::ControlLeft),
        60 => Some(Key::ShiftRight),
        61 => Some(Key::AltGr),
        62 => Some(Key::ControlRight),
        63 => Some(Key::Function),
        64 => Some(Key::F17),
        65 => Some(Key::KpDecimal),
        67 => Some(Key::KpMultiply),
        69 => Some(Key::KpPlus),
        71 => Some(Key::KpClear),
        72 => Some(Key::VolumeUp),
        73 => Some(Key::VolumeDown),
        74 => Some(Key::VolumeMute),
        75 => Some(Key::KpDivide),
        76 => Some(Key::KpReturn),
        78 => Some(Key::KpMinus),
        79 => Some(Key::F18),
        80 => Some(Key::F19),
        81 => Some(Key::KpEqual),
        82 => Some(Key::Kp0),
        83 => Some(Key::Kp1),
        84 => Some(Key::Kp2),
        85 => Some(Key::Kp3),
        86 => Some(Key::Kp4),
        87 => Some(Key::Kp5),
        88 => Some(Key::Kp6),
        89 => Some(Key::Kp7),
        90 => Some(Key::F20),
        91 => Some(Key::Kp8),
        92 => Some(Key::Kp9),
        96 => Some(Key::F5),
        97 => Some(Key::F6),
        98 => Some(Key::F7),
        99 => Some(Key::F3),
        100 => Some(Key::F8),
        101 => Some(Key::F9),
        103 => Some(Key::F11),
        105 => Some(Key::F13),
        106 => Some(Key::F16),
        107 => Some(Key::F14),
        109 => Some(Key::F10),
        111 => Some(Key::F12),
        113 => Some(Key::F15),
        114 => Some(Key::Insert),
        115 => Some(Key::Home),
        116 => Some(Key::PageUp),
        117 => Some(Key::Delete),
        118 => Some(Key::F4),
        119 => Some(Key::End),
        120 => Some(Key::F2),
        121 => Some(Key::PageDown),
        122 => Some(Key::F1),
        123 => Some(Key::LeftArrow),
        124 => Some(Key::RightArrow),
        125 => Some(Key::DownArrow),
        126 => Some(Key::UpArrow),
        _ => None,
    }
}

/// Each named key with a keycode gets the keycode of the same physical key:
/// the named key at that keycode is the key itself.
pub proof fn lemma_code_from_key_matches_keycodes(key: Key)
    requires
        is_named_key(key),
    ensures
        spec_code_from_key(key) matches Some(code) ==> named_key_at(code) == Some(key),
        named_key_at_has_code(key),
{
}

/// A named key has a keycode exactly when some keycode holds it.
pub open spec fn named_key_at_has_code(key: Key) -> bool {
    (spec_code_from_key(key) is Some) == (exists|code: CGKeyCode| named_key_at(code) == Some(key))
}

/// Two different named keys never share a keycode.
pub proof fn lemma_code_from_key_injective(a: Key, b: Key)
    requires
        is_named_key(a),
        is_named_key(b),
        spec_code_from_key(a) is Some,
        spec_code_from_key(a) == spec_code_from_key(b),
    ensures
        a == b,
{
    lemma_code_from_key_matches_keycodes(a);
    lemma_code_from_key_matches_keycodes(b);
}

} // verus!
