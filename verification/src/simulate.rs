use vstd::prelude::*;
use crate::keycodes;
use crate::keycodes::CGKeyCode;
use crate::modifiers::{
    lemma_or_chain, modifier_bits, MODIFIER_STATE_ALT, MODIFIER_STATE_CAPS_LOCK,
    MODIFIER_STATE_COMMAND, MODIFIER_STATE_CONTROL, MODIFIER_STATE_NONE, MODIFIER_STATE_SHIFT,
};
use crate::types::{code_from_key, spec_code_from_key, Button, EventType, Key, MacKeyboardType, RawKey};

verus! {

// Keyboard type IDs that `UCKeyTranslate` and `CGEventSourceSetKeyboardType`
// take (gestaltThirdPartyANSIKbd, ...ISOKbd, ...JISKbd in CarbonCore/Gestalt.h),
// not the 'ANSI'/'ISO '/'JIS ' FourCC layout types.
pub const ANSI_KEYBOARD_TYPE: u32 = 40;
pub const ISO_KEYBOARD_TYPE: u32 = 41;
pub const JIS_KEYBOARD_TYPE: u32 = 42;

// Which physical sides of a modifier are held down.
pub const MODIFIER_KEY_NONE: u8 = 0;
pub const MODIFIER_KEY_LEFT: u8 = 1;
pub const MODIFIER_KEY_RIGHT: u8 = 2;

/// The side of a modifier that has a left and a right key.
#[derive(Clone, Copy, Debug, PartialEq, Eq, Structural)]
pub enum ModifierSide {
    Left,
    Right,
}

/// A modifier key, with its side where it has two.
#[derive(Clone, Copy, Debug, PartialEq, Eq, Structural)]
pub enum ModifierKey {
    Shift(ModifierSide),
    Alt(ModifierSide),
    CapsLock,
    Control(ModifierSide),
    Command(ModifierSide),
}

/// The keyboard type ID that `keyboard_type` stands for when the system
/// reports `current` as its own.
pub open spec fn spec_keyboard_type_value(keyboard_type: MacKeyboardType, current: u32) -> u32 {
    match keyboard_type {
        MacKeyboardType::Current => current,
        MacKeyboardType::Ansi => ANSI_KEYBOARD_TYPE,
        MacKeyboardType::Iso => ISO_KEYBOARD_TYPE,
        MacKeyboardType::Jis => JIS_KEYBOARD_TYPE,
        MacKeyboardType::Raw(t) => t,
    }
}

/// Resolves a keyboard type to the ID that events carry; `current` is the
/// type the system reports at the time of the event.
pub fn keyboard_type_value(keyboard_type: MacKeyboardType, current: u32) -> (r: u32)
    ensures
        r == spec_keyboard_type_value(keyboard_type, current),
{
    match keyboard_type {
        MacKeyboardType::Current => current,
        MacKeyboardType::Ansi => ANSI_KEYBOARD_TYPE,
        MacKeyboardType::Iso => ISO_KEYBOARD_TYPE,
        MacKeyboardType::Jis => JIS_KEYBOARD_TYPE,
        MacKeyboardType::Raw(keyboard_type) => keyboard_type,
    }
}

/// The user-data tags put on simulated events, so that whoever receives them
/// can tell them apart: one for mouse and wheel events, one for key events.
pub struct ExtraInfo {
    pub mouse: i64,
    pub keyboard: i64,
}

impl ExtraInfo {
    /// Both tags zero.
    pub fn new() -> (r: ExtraInfo)
        ensures
            r.mouse == 0,
            r.keyboard == 0,
    {
        ExtraInfo { mouse: 0, keyboard: 0 }
    }
}

/// Sets the tag of simulated mouse and wheel events; the keyboard tag stays.
pub fn set_mouse_extra_info(info: &mut ExtraInfo, extra: i64)
    ensures
        final(info).mouse == extra,
        final(info).keyboard == old(info).keyboard,
{
    info.mouse = extra;
}

/// Sets the tag of simulated key events; the mouse tag stays.
pub fn set_keyboard_extra_info(info: &mut ExtraInfo, extra: i64)
    ensures
        final(info).keyboard == extra,
        final(info).mouse == old(info).mouse,
{
    info.keyboard = extra;
}

/// Whether `event_type` is a key event.
pub open spec fn is_key_event(event_type: EventType) -> bool {
    event_type is KeyPress || event_type is KeyRelease
}

/// The tag that an event of this kind carries: key events carry the
/// keyboard tag; buttons, moves and wheels are pointer events and carry the
/// mouse tag.
pub open spec fn spec_event_source_user_data(info: ExtraInfo, event_type: EventType) -> i64 {
    if is_key_event(event_type) {
        info.keyboard
    } else {
        info.mouse
    }
}

/// The user-data tag for an event; see `spec_event_source_user_data`.
pub fn event_source_user_data(info: &ExtraInfo, event_type: &EventType) -> (r: i64)
    ensures
        r == spec_event_source_user_data(*info, *event_type),
{
    match event_type {
        EventType::KeyPress(_) | EventType::KeyRelease(_) => info.keyboard,
        EventType::ButtonPress(_)
        | EventType::ButtonRelease(_)
        | EventType::MouseMove { .. }
        | EventType::Wheel { .. } => info.mouse,
    }
}

/// Reading a tag gives back what was last written to it, and writing one
/// tag leaves what the other kind of event reads.
pub proof fn lemma_extra_info_read_after_write(info: ExtraInfo, extra: i64, event_type: EventType)
    ensures
        is_key_event(event_type) ==> spec_event_source_user_data(
            ExtraInfo { keyboard: extra, ..info },
            event_type,
        ) == extra,
        !is_key_event(event_type) ==> spec_event_source_user_data(
            ExtraInfo { mouse: extra, ..info },
            event_type,
        ) == extra,
        is_key_event(event_type) ==> spec_event_source_user_data(
            ExtraInfo { mouse: extra, ..info },
            event_type,
        ) == spec_event_source_user_data(info, event_type),
        !is_key_event(event_type) ==> spec_event_source_user_data(
            ExtraInfo { keyboard: extra, ..info },
            event_type,
        ) == spec_event_source_user_data(info, event_type),
{
}

// CGEventFlags bits that key events carry.
pub const CG_EVENT_FLAG_HELP: u64 = 0x0040_0000;
pub const CG_EVENT_FLAG_SECONDARY_FN: u64 = 0x0080_0000;
pub const CG_EVENT_FLAG_NUMERIC_PAD: u64 = 0x0020_0000;
/// Every bit that `CGEventFlags` names (AlphaShift, Shift, Control,
/// Alternate, Command, NumericPad, Help, SecondaryFn, NonCoalesced). The
/// complement of a `CGEventFlags` value keeps only these bits.
pub const CG_EVENT_FLAGS_KNOWN: u64 = 0x00FF_0100;

// Media and system keys that have no `kVK_` constant.
pub const SPOTLIGHT_SEARCH_KEYCODE: CGKeyCode = 129;
pub const APPLICATION_KEYCODE: CGKeyCode = 130;
pub const LAUNCHPAD_KEYCODE: CGKeyCode = 131;
pub const BRIGHTNESS_UP_KEYCODE: CGKeyCode = 144;
pub const BRIGHTNESS_DOWN_KEYCODE: CGKeyCode = 145;

/// Keys whose simulated release would otherwise leave the Fn flag stuck:
/// F1 to F19 (F20 does not), keypad Clear, Forward Delete, Home, End, Page
/// Down, Page Up and five media keys.
pub open spec fn is_fn_sticky_key(keycode: CGKeyCode) -> bool {
    ||| keycode == keycodes::kVK_F1 || keycode == keycodes::kVK_F2 || keycode == keycodes::kVK_F3 || keycode == keycodes::kVK_F4 || keycode == keycodes::kVK_F5 || keycode == keycodes::kVK_F6 || keycode == keycodes::kVK_F7 || keycode == keycodes::kVK_F8 || keycode == keycodes::kVK_F9 || keycode == keycodes::kVK_F10 || keycode == keycodes::kVK_F11 || keycode == keycodes::kVK_F12 || keycode == keycodes::kVK_F13 || keycode == keycodes::kVK_F14 || keycode == keycodes::kVK_F15 || keycode == keycodes::kVK_F16 || keycode == keycodes::kVK_F17 || keycode == keycodes::kVK_F18 || keycode == keycodes::kVK_F19 || keycode == keycodes::kVK_ANSI_KeypadClear || keycode == keycodes::kVK_ForwardDelete || keycode == keycodes::kVK_Home || keycode == keycodes::kVK_End || keycode == keycodes::kVK_PageDown || keycode == keycodes::kVK_PageUp
    ||| keycode == SPOTLIGHT_SEARCH_KEYCODE || keycode == APPLICATION_KEYCODE || keycode == LAUNCHPAD_KEYCODE
    ||| keycode == BRIGHTNESS_UP_KEYCODE || keycode == BRIGHTNESS_DOWN_KEYCODE
}

/// The four arrow keys.
pub open spec fn is_arrow_key(keycode: CGKeyCode) -> bool {
    keycode == keycodes::kVK_UpArrow || keycode == keycodes::kVK_DownArrow || keycode
        == keycodes::kVK_LeftArrow || keycode == keycodes::kVK_RightArrow
}

/// The flags that a key release of `keycode` must not carry, if any.
pub open spec fn workaround_clear_mask(keycode: CGKeyCode) -> Option<u64> {
    if is_fn_sticky_key(keycode) {
        Some(CG_EVENT_FLAG_SECONDARY_FN)
    } else if is_arrow_key(keycode) {
        Some(CG_EVENT_FLAG_SECONDARY_FN | CG_EVENT_FLAG_NUMERIC_PAD)
    } else if keycode == keycodes::kVK_Help {
        Some(CG_EVENT_FLAG_SECONDARY_FN | CG_EVENT_FLAG_HELP)
    } else {
        None
    }
}

/// `flags & !mask` as `CGEventFlags` computes it: the complement keeps only
/// the named flag bits.
pub open spec fn clear_event_flags(flags: u64, mask: u64) -> u64 {
    flags & (CG_EVENT_FLAGS_KNOWN & !mask)
}

/// The flags that a simulated key release of `keycode` should carry instead
/// of `flags`, or `None` when they stay as they are. Releases of the Fn-row
/// and navigation keys drop the Fn flag, arrow keys also drop the
/// numeric-pad flag and Help also drops the Help flag, so that Fn does not
/// stick after a simulated key.
pub fn workaround_fn(keycode: CGKeyCode, flags: u64) -> (r: Option<u64>)
    ensures
        r == (match workaround_clear_mask(keycode) {
            Some(mask) => Some(clear_event_flags(flags, mask)),
            None => None,
        }),
{
    if keycode == keycodes::kVK_F1 || keycode == keycodes::kVK_F2 || keycode == keycodes::kVK_F3 || keycode == keycodes::kVK_F4 || keycode == keycodes::kVK_F5 || keycode == keycodes::kVK_F6 || keycode == keycodes::kVK_F7 || keycode == keycodes::kVK_F8 || keycode == keycodes::kVK_F9 || keycode == keycodes::kVK_F10 || keycode == keycodes::kVK_F11 || keycode == keycodes::kVK_F12 || keycode == keycodes::kVK_F13 || keycode == keycodes::kVK_F14 || keycode == keycodes::kVK_F15 || keycode == keycodes::kVK_F16 || keycode == keycodes::kVK_F17 || keycode == keycodes::kVK_F18 || keycode == keycodes::kVK_F19 || keycode == keycodes::kVK_ANSI_KeypadClear || keycode == keycodes::kVK_ForwardDelete || keycode == keycodes::kVK_Home || keycode == keycodes::kVK_End || keycode == keycodes::kVK_PageDown || keycode == keycodes::kVK_PageUp
        || keycode == SPOTLIGHT_SEARCH_KEYCODE || keycode == APPLICATION_KEYCODE || keycode == LAUNCHPAD_KEYCODE
        || keycode == BRIGHTNESS_UP_KEYCODE || keycode == BRIGHTNESS_DOWN_KEYCODE
    {
        Some(flags & (CG_EVENT_FLAGS_KNOWN & !CG_EVENT_FLAG_SECONDARY_FN))
    } else if keycode == keycodes::kVK_UpArrow || keycode == keycodes::kVK_DownArrow || keycode
        == keycodes::kVK_LeftArrow || keycode == keycodes::kVK_RightArrow {
        Some(flags & (CG_EVENT_FLAGS_KNOWN & !(CG_EVENT_FLAG_SECONDARY_FN | CG_EVENT_FLAG_NUMERIC_PAD)))
    } else if keycode == keycodes::kVK_Help {
        Some(flags & (CG_EVENT_FLAGS_KNOWN & !(CG_EVENT_FLAG_SECONDARY_FN | CG_EVENT_FLAG_HELP)))
    } else {
        None
    }
}

/// The release workaround only ever clears flags, it always clears the ones
/// it is for, and applying it twice changes nothing more.
pub proof fn lemma_workaround_only_clears(keycode: CGKeyCode, flags: u64)
    ensures
        workaround_clear_mask(keycode) matches Some(mask) ==> {
            let cleared = clear_event_flags(flags, mask);
            &&& cleared & !flags == 0
            &&& cleared & mask == 0
            &&& cleared & CG_EVENT_FLAG_SECONDARY_FN == 0
            &&& clear_event_flags(cleared, mask) == cleared
        },
{
    if let Some(mask) = workaround_clear_mask(keycode) {
        let cleared = clear_event_flags(flags, mask);
        assert(mask & CG_EVENT_FLAG_SECONDARY_FN == CG_EVENT_FLAG_SECONDARY_FN) by (bit_vector)
            requires
                mask == 0x0080_0000u64 || mask == (0x0080_0000u64 | 0x0020_0000u64) || mask == (
                0x0080_0000u64 | 0x0040_0000u64),
        ;
        assert(cleared & !flags == 0 && cleared & mask == 0 && (mask & 0x0080_0000u64 == 0x0080_0000u64
            ==> cleared & 0x0080_0000u64 == 0) && (cleared & (0x00FF_0100u64 & !mask)) == cleared)
            by (bit_vector)
            requires
                cleared == flags & (0x00FF_0100u64 & !mask),
        ;
    }
}

/// The virtual keycode of a key event: macOS raw keycodes as they are,
/// other platforms' raw keycodes none, named keys through `code_from_key`.
pub open spec fn spec_keycode_from_key(key: Key) -> Option<CGKeyCode> {
    match key {
        Key::RawKey(RawKey::MacVirtualKeycode(keycode)) => Some(keycode),
        Key::RawKey(_) => None,
        _ => spec_code_from_key(key),
    }
}

/// The virtual keycode to put on a key event for `key`; only macOS virtual
/// keycodes can become key events.
pub fn keycode_from_key(key: Key) -> (r: Option<CGKeyCode>)
    ensures
        r == spec_keycode_from_key(key),
{
    match key {
        Key::RawKey(RawKey::MacVirtualKeycode(keycode)) => Some(keycode),
        Key::RawKey(_) => None,
        _ => code_from_key(key),
    }
}

/// The modifier that a macOS virtual keycode stands for.
pub open spec fn spec_modifier_key_from_code(code: CGKeyCode) -> Option<ModifierKey> {
    if code == keycodes::kVK_Shift {
        Some(ModifierKey::Shift(ModifierSide::Left))
    } else if code == keycodes::kVK_RightShift {
        Some(ModifierKey::Shift(ModifierSide::Right))
    } else if code == keycodes::kVK_Option {
        Some(ModifierKey::Alt(ModifierSide::Left))
    } else if code == keycodes::kVK_RightOption {
        Some(ModifierKey::Alt(ModifierSide::Right))
    } else if code == keycodes::kVK_CapsLock {
        Some(ModifierKey::CapsLock)
    } else if code == keycodes::kVK_Control {
        Some(ModifierKey::Control(ModifierSide::Left))
    } else if code == keycodes::kVK_RightControl {
        Some(ModifierKey::Control(ModifierSide::Right))
    } else if code == keycodes::kVK_Command {
        Some(ModifierKey::Command(ModifierSide::Left))
    } else if code == keycodes::kVK_RightCommand {
        Some(ModifierKey::Command(ModifierSide::Right))
    } else {
        None
    }
}

/// The modifier that `key` is, if it is one: the named Shift, Alt/AltGr
/// (Option), Caps Lock, Control and Meta (Command) keys, and macOS raw
/// keycodes of the same keys.
pub open spec fn spec_modifier_key_from_key(key: Key) -> Option<ModifierKey> {
    match key {
        Key::ShiftLeft => Some(ModifierKey::Shift(ModifierSide::Left)),
        Key::ShiftRight => Some(ModifierKey::Shift(ModifierSide::Right)),
        Key::Alt => Some(ModifierKey::Alt(ModifierSide::Left)),
        Key::AltGr => Some(ModifierKey::Alt(ModifierSide::Right)),
        Key::CapsLock => Some(ModifierKey::CapsLock),
        Key::ControlLeft => Some(ModifierKey::Control(ModifierSide::Left)),
        Key::ControlRight => Some(ModifierKey::Control(ModifierSide::Right)),
        Key::MetaLeft => Some(ModifierKey::Command(ModifierSide::Left)),
        Key::MetaRight => Some(ModifierKey::Command(ModifierSide::Right)),
        Key::RawKey(RawKey::MacVirtualKeycode(code)) => spec_modifier_key_from_code(code),
        _ => None,
    }
}

/// The modifier that `key` is; see `spec_modifier_key_from_key`.
pub fn modifier_key_from_key(key: Key) -> (r: Option<ModifierKey>)
    ensures
        r == spec_modifier_key_from_key(key),
{
    match key {
        Key::ShiftLeft => Some(ModifierKey::Shift(ModifierSide::Left)),
        Key::ShiftRight => Some(ModifierKey::Shift(ModifierSide::Right)),
        Key::Alt => Some(ModifierKey::Alt(ModifierSide::Left)),
        Key::AltGr => Some(ModifierKey::Alt(ModifierSide::Right)),
        Key::CapsLock => Some(ModifierKey::CapsLock),
        Key::ControlLeft => Some(ModifierKey::Control(ModifierSide::Left)),
        Key::ControlRight => Some(ModifierKey::Control(ModifierSide::Right)),
        Key::MetaLeft => Some(ModifierKey::Command(ModifierSide::Left)),
        Key::MetaRight => Some(ModifierKey::Command(ModifierSide::Right)),
        Key::RawKey(RawKey::MacVirtualKeycode(code)) => {
            if code == keycodes::kVK_Shift {
                Some(ModifierKey::Shift(ModifierSide::Left))
            } else if code == keycodes::kVK_RightShift {
                Some(ModifierKey::Shift(ModifierSide::Right))
            } else if code == keycodes::kVK_Option {
                Some(ModifierKey::Alt(ModifierSide::Left))
            } else if code == keycodes::kVK_RightOption {
                Some(ModifierKey::Alt(ModifierSide::Right))
            } else if code == keycodes::kVK_CapsLock {
                Some(ModifierKey::CapsLock)
            } else if code == keycodes::kVK_Control {
                Some(ModifierKey::Control(ModifierSide::Left))
            } else if code == keycodes::kVK_RightControl {
                Some(ModifierKey::Control(ModifierSide::Right))
            } else if code == keycodes::kVK_Command {
                Some(ModifierKey::Command(ModifierSide::Left))
            } else if code == keycodes::kVK_RightCommand {
                Some(ModifierKey::Command(ModifierSide::Right))
            } else {
                None
            }
        },
        _ => None,
    }
}

/// The bit of a side in a modifier's held-sides mask.
pub open spec fn spec_modifier_key_mask(side: ModifierSide) -> u8 {
    match side {
        ModifierSide::Left => MODIFIER_KEY_LEFT,
        ModifierSide::Right => MODIFIER_KEY_RIGHT,
    }
}

/// The bit of a side in a modifier's held-sides mask.
pub fn modifier_key_mask(side: ModifierSide) -> (r: u8)
    ensures
        r == spec_modifier_key_mask(side),
{
    match side {
        ModifierSide::Left => MODIFIER_KEY_LEFT,
        ModifierSide::Right => MODIFIER_KEY_RIGHT,
    }
}

/// A held-sides mask after `side` goes down (`keydown`) or up.
pub open spec fn spec_set_modifier_key_state(state: u8, side: ModifierSide, keydown: bool) -> u8 {
    if keydown {
        state | spec_modifier_key_mask(side)
    } else {
        state & !spec_modifier_key_mask(side)
    }
}

/// Marks `side` of a modifier as held (`keydown`) or released, leaving the
/// other side as it was.
pub fn set_modifier_key_state(state: &mut u8, side: ModifierSide, keydown: bool)
    ensures
        *final(state) == spec_set_modifier_key_state(*old(state), side, keydown),
{
    let mask = modifier_key_mask(side);
    let current = *state;
    if keydown {
        *state = current | mask;
    } else {
        *state = current & !mask;
    }
}

/// Whether a modifier state holds Command or Control.
pub open spec fn spec_modifier_suppresses_unicode(modifier_state: u32) -> bool {
    modifier_state & MODIFIER_STATE_COMMAND != 0 || modifier_state & MODIFIER_STATE_CONTROL != 0
}

/// Whether Command or Control is held: a shortcut types no text.
pub fn modifier_suppresses_unicode(modifier_state: u32) -> (r: bool)
    ensures
        r == spec_modifier_suppresses_unicode(modifier_state),
{
    let r = modifier_state & (MODIFIER_STATE_COMMAND | MODIFIER_STATE_CONTROL) != 0;
    assert(r == (modifier_state & 1 != 0 || modifier_state & 16 != 0)) by (bit_vector)
        requires
            r == (modifier_state & (1u32 | 16u32) != 0),
    ;
    r
}

/// Whether a press of `key` under `modifier_state` should carry the text it
/// types: not for modifier keys, and not while Command or Control is held.
pub open spec fn spec_should_translate_key_unicode(key: Key, modifier_state: u32) -> bool {
    spec_modifier_key_from_key(key) is None && !spec_modifier_suppresses_unicode(modifier_state)
}

/// Whether a press of `key` under `modifier_state` should carry the text it
/// types; see `spec_should_translate_key_unicode`.
pub fn should_translate_key_unicode(key: Key, modifier_state: u32) -> (r: bool)
    ensures
        r == spec_should_translate_key_unicode(key, modifier_state),
{
    modifier_key_from_key(key).is_none() && !modifier_suppresses_unicode(modifier_state)
}

/// What a simulated key press does with the text the key types and with the
/// pending dead key.
#[derive(Clone, Copy, Debug, PartialEq, Eq, Structural)]
pub enum UnicodeStep {
    /// No text goes on the event; the dead-key state stays.
    Keep,
    /// Translate the keycode through the active layout with this modifier
    /// state, starting from the pending dead-key state; the text it gives,
    /// if any, goes on the event and the dead-key state it leaves is kept.
    Translate { modifier_state: u32 },
    /// Command or Control suppresses the text; the pending dead key is dropped.
    ClearDeadState,
}

/// How to build a simulated key event.
#[derive(Clone, Copy, Debug, PartialEq, Eq, Structural)]
pub struct KeyEventPlan {
    pub keycode: CGKeyCode,
    pub keydown: bool,
    /// The keyboard type that the event's keyboard-type field is set to.
    pub keyboard_type: u32,
    pub unicode: UnicodeStep,
    /// Whether the flags go through `workaround_fn` (releases only: on a
    /// press it makes F11 fail).
    pub apply_workaround: bool,
}

/// The text step of a key event. Only presses of an input stream that
/// tracks modifiers and dead keys have one: a key that types text under the
/// held modifiers is translated; a non-modifier key under Command or Control
/// drops the pending dead key; a modifier key leaves it.
pub open spec fn spec_unicode_step(
    key: Key,
    keydown: bool,
    modifier_state: Option<u32>,
    tracks_dead_state: bool,
) -> UnicodeStep {
    match modifier_state {
        Some(ms) => if keydown && tracks_dead_state {
            if spec_should_translate_key_unicode(key, ms) {
                UnicodeStep::Translate { modifier_state: ms }
            } else if spec_modifier_key_from_key(key) is None && spec_modifier_suppresses_unicode(ms) {
                UnicodeStep::ClearDeadState
            } else {
                UnicodeStep::Keep
            }
        } else {
            UnicodeStep::Keep
        },
        None => UnicodeStep::Keep,
    }
}

/// How to build the event for a press (`keydown`) or release of `key`: no
/// event for a key without a virtual keycode.
pub open spec fn spec_keyboard_event_from_key(
    key: Key,
    keydown: bool,
    keyboard_type: u32,
    modifier_state: Option<u32>,
    tracks_dead_state: bool,
) -> Option<KeyEventPlan> {
    match spec_keycode_from_key(key) {
        Some(keycode) => Some(
            KeyEventPlan {
                keycode,
                keydown,
                keyboard_type,
                unicode: spec_unicode_step(key, keydown, modifier_state, tracks_dead_state),
                apply_workaround: !keydown,
            },
        ),
        None => None,
    }
}

/// Plans the key event for `key`; see `spec_keyboard_event_from_key`.
/// `modifier_state` is the held modifiers of an input stream that tracks
/// them, and `tracks_dead_state` whether it carries a dead-key state.
pub fn keyboard_event_from_key(
    key: Key,
    keydown: bool,
    keyboard_type: u32,
    modifier_state: Option<u32>,
    tracks_dead_state: bool,
) -> (r: Option<KeyEventPlan>)
    ensures
        r == spec_keyboard_event_from_key(key, keydown, keyboard_type, modifier_state, tracks_dead_state),
{
    let keycode = match keycode_from_key(key) {
        Some(keycode) => keycode,
        None => return None,
    };
    let mut unicode = UnicodeStep::Keep;
    if keydown && tracks_dead_state {
        if let Some(modifier_state) = modifier_state {
            if should_translate_key_unicode(key, modifier_state) {
                unicode = UnicodeStep::Translate { modifier_state };
            } else if modifier_key_from_key(key).is_none() && modifier_suppresses_unicode(modifier_state) {
                unicode = UnicodeStep::ClearDeadState;
            }
        }
    }
    Some(KeyEventPlan { keycode, keydown, keyboard_type, unicode, apply_workaround: !keydown })
}

/// A mouse-button event type.
#[derive(Clone, Copy, Debug, PartialEq, Eq, Structural)]
pub enum MouseButtonEventKind {
    LeftMouseDown,
    LeftMouseUp,
    RightMouseDown,
    RightMouseUp,
}

/// The native event to create for a simulated event.
#[derive(Clone, Copy, Debug, PartialEq, Eq, Structural)]
pub enum NativeEvent {
    Keyboard(KeyEventPlan),
    /// A button event at the pointer's current location.
    MouseButton(MouseButtonEventKind),
    /// A move to the point whose coordinates have these `f64` bit patterns.
    MouseMove { x_bits: u64, y_bits: u64 },
    /// A two-wheel pixel scroll: `delta_y` on the first wheel, `delta_x` on
    /// the second.
    Wheel { delta_x: i32, delta_y: i32 },
}

/// What simulating an event takes.
#[derive(Clone, Copy, Debug, PartialEq, Eq, Structural)]
pub struct NativeEventPlan {
    /// For key events, the keyboard type that the event source is set to
    /// before anything else (also when no event can be made): event creation
    /// reads the source, and the event field is set to the same type.
    pub source_keyboard_type: Option<u32>,
    /// The event to create, if the event has a native form.
    pub event: Option<NativeEvent>,
}

/// Whether `v` fits in an `i32`.
pub open spec fn fits_i32(v: i64) -> bool {
    i32::MIN <= v <= i32::MAX
}

/// How to simulate `event_type` with keyboard type `keyboard_type`: key
/// events as planned by `spec_keyboard_event_from_key`; left and right
/// button presses and releases as the matching button events, other buttons
/// not at all; moves as they are; wheel deltas only when both fit in `i32`.
pub open spec fn spec_native_event_plan(
    event_type: EventType,
    keyboard_type: u32,
    modifier_state: Option<u32>,
    tracks_dead_state: bool,
) -> NativeEventPlan {
    NativeEventPlan {
        source_keyboard_type: if is_key_event(event_type) {
            Some(keyboard_type)
        } else {
            None
        },
        event: match event_type {
            EventType::KeyPress(key) => match spec_keyboard_event_from_key(
                key,
                true,
                keyboard_type,
                modifier_state,
                tracks_dead_state,
            ) {
                Some(plan) => Some(NativeEvent::Keyboard(plan)),
                None => None,
            },
            EventType::KeyRelease(key) => match spec_keyboard_event_from_key(
                key,
                false,
                keyboard_type,
                modifier_state,
                tracks_dead_state,
            ) {
                Some(plan) => Some(NativeEvent::Keyboard(plan)),
                None => None,
            },
            EventType::ButtonPress(Button::Left) => Some(
                NativeEvent::MouseButton(MouseButtonEventKind::LeftMouseDown),
            ),
            EventType::ButtonPress(Button::Right) => Some(
                NativeEvent::MouseButton(MouseButtonEventKind::RightMouseDown),
            ),
            EventType::ButtonRelease(Button::Left) => Some(
                NativeEvent::MouseButton(MouseButtonEventKind::LeftMouseUp),
            ),
            EventType::ButtonRelease(Button::Right) => Some(
                NativeEvent::MouseButton(MouseButtonEventKind::RightMouseUp),
            ),
            EventType::ButtonPress(_) | EventType::ButtonRelease(_) => None,
            EventType::MouseMove { x_bits, y_bits } => Some(NativeEvent::MouseMove { x_bits, y_bits }),
            EventType::Wheel { delta_x, delta_y } => if fits_i32(delta_x) && fits_i32(delta_y) {
                Some(NativeEvent::Wheel { delta_x: delta_x as i32, delta_y: delta_y as i32 })
            } else {
                None
            },
        },
    }
}

/// `v` as an `i32`, when it fits.
fn i64_to_i32(v: i64) -> (r: Option<i32>)
    ensures
        r == (if fits_i32(v) {
            Some(v as i32)
        } else {
            None
        }),
{
    if i32::MIN as i64 <= v && v <= i32::MAX as i64 {
        Some(v as i32)
    } else {
        None
    }
}

/// Plans the native event for `event_type`; see `spec_native_event_plan`.
pub fn native_event_plan(
    event_type: &EventType,
    keyboard_type: u32,
    modifier_state: Option<u32>,
    tracks_dead_state: bool,
) -> (r: NativeEventPlan)
    ensures
        r == spec_native_event_plan(*event_type, keyboard_type, modifier_state, tracks_dead_state),
{
    let source_keyboard_type = match event_type {
        EventType::KeyPress(_) | EventType::KeyRelease(_) => Some(keyboard_type),
        _ => None,
    };
    let event = match event_type {
        EventType::KeyPress(key) => match keyboard_event_from_key(
            *key,
            true,
            keyboard_type,
            modifier_state,
            tracks_dead_state,
        ) {
            Some(plan) => Some(NativeEvent::Keyboard(plan)),
            None => None,
        },
        EventType::KeyRelease(key) => match keyboard_event_from_key(
            *key,
            false,
            keyboard_type,
            modifier_state,
            tracks_dead_state,
        ) {
            Some(plan) => Some(NativeEvent::Keyboard(plan)),
            None => None,
        },
        EventType::ButtonPress(Button::Left) => Some(
            NativeEvent::MouseButton(MouseButtonEventKind::LeftMouseDown),
        ),
        EventType::ButtonPress(Button::Right) => Some(
            NativeEvent::MouseButton(MouseButtonEventKind::RightMouseDown),
        ),
        EventType::ButtonRelease(Button::Left) => Some(
            NativeEvent::MouseButton(MouseButtonEventKind::LeftMouseUp),
        ),
        EventType::ButtonRelease(Button::Right) => Some(
            NativeEvent::MouseButton(MouseButtonEventKind::RightMouseUp),
        ),
        EventType::ButtonPress(_) | EventType::ButtonRelease(_) => None,
        EventType::MouseMove { x_bits, y_bits } => Some(
            NativeEvent::MouseMove { x_bits: *x_bits, y_bits: *y_bits },
        ),
        EventType::Wheel { delta_x, delta_y } => {
            match (i64_to_i32(*delta_y), i64_to_i32(*delta_x)) {
                (Some(delta_y), Some(delta_x)) => Some(NativeEvent::Wheel { delta_x, delta_y }),
                _ => None,
            }
        },
    };
    NativeEventPlan { source_keyboard_type, event }
}

/// What a `VirtualInputState` holds, as plain values.
pub struct VirtualInputModel {
    pub keyboard_type: MacKeyboardType,
    pub shift: u8,
    pub alt: u8,
    pub caps_lock: bool,
    pub control: u8,
    pub command: u8,
    pub dead_state: u32,
}

/// A held-sides mask names no side but left and right.
pub open spec fn valid_side_mask(mask: u8) -> bool {
    mask & !(MODIFIER_KEY_LEFT | MODIFIER_KEY_RIGHT) == 0
}

/// Every held-sides mask of `m` is valid.
pub open spec fn valid_input_model(m: VirtualInputModel) -> bool {
    &&& valid_side_mask(m.shift)
    &&& valid_side_mask(m.alt)
    &&& valid_side_mask(m.control)
    &&& valid_side_mask(m.command)
}

/// The modifier state of an input stream: a two-sided modifier is held while
/// either of its sides is, Caps Lock while it is toggled on.
pub open spec fn spec_input_modifier_state(m: VirtualInputModel) -> u32 {
    modifier_bits(m.command != 0, m.shift != 0, m.caps_lock, m.alt != 0, m.control != 0)
}

/// The input stream after `key` goes down (`keydown`) or up: a two-sided
/// modifier records which side is held; Caps Lock toggles on a press and
/// ignores its release; any other key changes nothing.
pub open spec fn spec_update_key_modifier_state(m: VirtualInputModel, key: Key, keydown: bool) -> VirtualInputModel {
    match spec_modifier_key_from_key(key) {
        Some(ModifierKey::Shift(side)) => VirtualInputModel {
            shift: spec_set_modifier_key_state(m.shift, side, keydown),
            ..m
        },
        Some(ModifierKey::Alt(side)) => VirtualInputModel {
            alt: spec_set_modifier_key_state(m.alt, side, keydown),
            ..m
        },
        Some(ModifierKey::Control(side)) => VirtualInputModel {
            control: spec_set_modifier_key_state(m.control, side, keydown),
            ..m
        },
        Some(ModifierKey::Command(side)) => VirtualInputModel {
            command: spec_set_modifier_key_state(m.command, side, keydown),
            ..m
        },
        Some(ModifierKey::CapsLock) => if keydown {
            VirtualInputModel { caps_lock: !m.caps_lock, ..m }
        } else {
            m
        },
        None => m,
    }
}

/// The input stream after a simulated event: key presses and releases as
/// `spec_update_key_modifier_state` says, other events change nothing.
pub open spec fn spec_update_modifier_state(m: VirtualInputModel, event_type: EventType) -> VirtualInputModel {
    match event_type {
        EventType::KeyPress(key) => spec_update_key_modifier_state(m, key, true),
        EventType::KeyRelease(key) => spec_update_key_modifier_state(m, key, false),
        _ => m,
    }
}

/// The input stream after a key press took `step`: a dropped dead key
/// leaves none pending, otherwise nothing changes here.
pub open spec fn spec_apply_unicode_step(m: VirtualInputModel, step: UnicodeStep) -> VirtualInputModel {
    match step {
        UnicodeStep::ClearDeadState => VirtualInputModel { dead_state: 0, ..m },
        _ => m,
    }
}

/// The state of one simulated keyboard input stream: its keyboard type, the
/// held sides of each modifier, Caps Lock, and the pending dead key.
pub struct VirtualInputState {
    keyboard_type: MacKeyboardType,
    shift: u8,
    alt: u8,
    caps_lock: bool,
    control: u8,
    command: u8,
    dead_state: u32,
}

impl View for VirtualInputState {
    type V = VirtualInputModel;

    closed spec fn view(&self) -> VirtualInputModel {
        VirtualInputModel {
            keyboard_type: self.keyboard_type,
            shift: self.shift,
            alt: self.alt,
            caps_lock: self.caps_lock,
            control: self.control,
            command: self.command,
            dead_state: self.dead_state,
        }
    }
}

impl VirtualInputState {
    /// A stream with the system's current keyboard type, nothing held and
    /// no dead key pending.
    pub fn new() -> (r: VirtualInputState)
        ensures
            r@ == (VirtualInputModel {
                keyboard_type: MacKeyboardType::Current,
                shift: MODIFIER_KEY_NONE,
                alt: MODIFIER_KEY_NONE,
                caps_lock: false,
                control: MODIFIER_KEY_NONE,
                command: MODIFIER_KEY_NONE,
                dead_state: 0,
            }),
            valid_input_model(r@),
    {
        let r = VirtualInputState {
            keyboard_type: MacKeyboardType::Current,
            shift: MODIFIER_KEY_NONE,
            alt: MODIFIER_KEY_NONE,
            caps_lock: false,
            control: MODIFIER_KEY_NONE,
            command: MODIFIER_KEY_NONE,
            dead_state: 0,
        };
        assert(0u8 & !(1u8 | 2u8) == 0) by (bit_vector);
        r
    }

    /// The same stream with keyboard type `keyboard_type` for its key events.
    pub fn with_keyboard_type(self, keyboard_type: MacKeyboardType) -> (r: VirtualInputState)
        ensures
            r@ == (VirtualInputModel { keyboard_type, ..self@ }),
            valid_input_model(self@) ==> valid_input_model(r@),
    {
        let mut s = self;
        s.keyboard_type = keyboard_type;
        s
    }

    /// The keyboard type this stream's key events claim.
    pub fn keyboard_type(&self) -> (r: MacKeyboardType)
        ensures
            r == self@.keyboard_type,
    {
        self.keyboard_type
    }

    /// The modifier state that this stream's key presses are translated
    /// with; see `spec_input_modifier_state`.
    pub fn modifier_state(&self) -> (r: u32)
        ensures
            r == spec_input_modifier_state(self@),
    {
        let mut modifier_state = MODIFIER_STATE_NONE;
        if self.command != MODIFIER_KEY_NONE {
            modifier_state = modifier_state | MODIFIER_STATE_COMMAND;
        }
        if self.shift != MODIFIER_KEY_NONE {
            modifier_state = modifier_state | MODIFIER_STATE_SHIFT;
        }
        if self.caps_lock {
            modifier_state = modifier_state | MODIFIER_STATE_CAPS_LOCK;
        }
        if self.alt != MODIFIER_KEY_NONE {
            modifier_state = modifier_state | MODIFIER_STATE_ALT;
        }
        if self.control != MODIFIER_KEY_NONE {
            modifier_state = modifier_state | MODIFIER_STATE_CONTROL;
        }
        proof {
            lemma_or_chain(
                self.command != 0,
                self.shift != 0,
                self.caps_lock,
                self.alt != 0,
                self.control != 0,
            );
        }
        modifier_state
    }

    /// Records a simulated event; see `spec_update_modifier_state`.
    pub fn update_modifier_state(&mut self, event_type: &EventType)
        ensures
            final(self)@ == spec_update_modifier_state(old(self)@, *event_type),
            valid_input_model(old(self)@) ==> valid_input_model(final(self)@),
    {
        match event_type {
            EventType::KeyPress(key) => self.update_key_modifier_state(*key, true),
            EventType::KeyRelease(key) => self.update_key_modifier_state(*key, false),
            _ => {},
        }
    }

    /// Records that `key` went down (`keydown`) or up; see
    /// `spec_update_key_modifier_state`.
    pub fn update_key_modifier_state(&mut self, key: Key, keydown: bool)
        ensures
            final(self)@ == spec_update_key_modifier_state(old(self)@, key, keydown),
            valid_input_model(old(self)@) ==> valid_input_model(final(self)@),
    {
        proof {
            if valid_input_model(self@) {
                lemma_update_keeps_valid(self@, key, keydown);
            }
        }
        let modifier_key = match modifier_key_from_key(key) {
            Some(modifier_key) => modifier_key,
            None => return ,
        };
        match modifier_key {
            ModifierKey::Shift(side) => set_modifier_key_state(&mut self.shift, side, keydown),
            ModifierKey::Alt(side) => set_modifier_key_state(&mut self.alt, side, keydown),
            ModifierKey::Control(side) => set_modifier_key_state(&mut self.control, side, keydown),
            ModifierKey::Command(side) => set_modifier_key_state(&mut self.command, side, keydown),
            ModifierKey::CapsLock => {
                if keydown {
                    self.caps_lock = !self.caps_lock;
                }
            },
        }
    }

    /// The dead-key state that the next translation starts from.
    pub fn dead_state(&self) -> (r: u32)
        ensures
            r == self@.dead_state,
    {
        self.dead_state
    }

    /// Stores the dead-key state that a translation left behind.
    pub fn set_dead_state(&mut self, dead_state: u32)
        ensures
            final(self)@ == (VirtualInputModel { dead_state, ..old(self)@ }),
            valid_input_model(old(self)@) ==> valid_input_model(final(self)@),
    {
        self.dead_state = dead_state;
    }

    /// Records a key press that took `step` without a translation; see
    /// `spec_apply_unicode_step`.
    pub fn apply_unicode_step(&mut self, step: UnicodeStep)
        ensures
            final(self)@ == spec_apply_unicode_step(old(self)@, step),
            valid_input_model(old(self)@) ==> valid_input_model(final(self)@),
    {
        if let UnicodeStep::ClearDeadState = step {
            self.dead_state = 0;
        }
    }

    /// Records the outcome of simulating `event_type`: the modifiers change
    /// only when the event was made and posted; a failed event leaves the
    /// stream as it was.
    pub fn record_simulated(&mut self, event_type: &EventType, posted: bool)
        ensures
            final(self)@ == (if posted {
                spec_update_modifier_state(old(self)@, *event_type)
            } else {
                old(self)@
            }),
            valid_input_model(old(self)@) ==> valid_input_model(final(self)@),
    {
        if posted {
            self.update_modifier_state(event_type);
        }
    }

    /// How this stream simulates `event_type` when the system reports
    /// `current_keyboard_type`: with its resolved keyboard type, its held
    /// modifiers and its dead-key state.
    pub fn plan_event(&self, event_type: &EventType, current_keyboard_type: u32) -> (r: NativeEventPlan)
        ensures
            r == spec_native_event_plan(
                *event_type,
                spec_keyboard_type_value(self@.keyboard_type, current_keyboard_type),
                Some(spec_input_modifier_state(self@)),
                true,
            ),
    {
        let keyboard_type = keyboard_type_value(self.keyboard_type, current_keyboard_type);
        native_event_plan(event_type, keyboard_type, Some(self.modifier_state()), true)
    }
}

/// The modifier-state bit that a modifier key controls.
pub open spec fn modifier_key_state_bit(modifier_key: ModifierKey) -> u32 {
    match modifier_key {
        ModifierKey::Shift(_) => MODIFIER_STATE_SHIFT,
        ModifierKey::Alt(_) => MODIFIER_STATE_ALT,
        ModifierKey::CapsLock => MODIFIER_STATE_CAPS_LOCK,
        ModifierKey::Control(_) => MODIFIER_STATE_CONTROL,
        ModifierKey::Command(_) => MODIFIER_STATE_COMMAND,
    }
}

/// The side opposite `side`.
pub open spec fn other_side(side: ModifierSide) -> ModifierSide {
    match side {
        ModifierSide::Left => ModifierSide::Right,
        ModifierSide::Right => ModifierSide::Left,
    }
}

/// `first` and `second` are the two sides of one two-sided modifier.
pub open spec fn opposite_sides(first: ModifierKey, second: ModifierKey) -> bool {
    match (first, second) {
        (ModifierKey::Shift(a), ModifierKey::Shift(b)) => a != b,
        (ModifierKey::Alt(a), ModifierKey::Alt(b)) => a != b,
        (ModifierKey::Control(a), ModifierKey::Control(b)) => a != b,
        (ModifierKey::Command(a), ModifierKey::Command(b)) => a != b,
        _ => false,
    }
}

proof fn lemma_side_masks(m: u8, a: u8, b: u8)
    requires
        m & !(1u8 | 2u8) == 0,
        (a == 1u8 && b == 2u8) || (a == 2u8 && b == 1u8),
    ensures
        ((m | a) | b) & !a != 0,
        (((m | a) | b) & !a) & !b == 0,
        (m | a) & !(1u8 | 2u8) == 0,
        (m & !a) & !(1u8 | 2u8) == 0,
        (m | a) & a != 0,
        (m & !a) & a == 0,
        (m | a) & b == m & b,
        (m & !a) & b == m & b,
{
    assert(((m | a) | b) & !a != 0 && (((m | a) | b) & !a) & !b == 0 && (m | a) & !(1u8 | 2u8) == 0
        && (m & !a) & !(1u8 | 2u8) == 0 && (m | a) & a != 0 && (m & !a) & a == 0 && (m | a) & b == m
        & b && (m & !a) & b == m & b) by (bit_vector)
        requires
            m & !(1u8 | 2u8) == 0,
            (a == 1u8 && b == 2u8) || (a == 2u8 && b == 1u8),
    ;
}

/// Key events keep every held-sides mask valid.
pub proof fn lemma_update_keeps_valid(m: VirtualInputModel, key: Key, keydown: bool)
    requires
        valid_input_model(m),
    ensures
        valid_input_model(spec_update_key_modifier_state(m, key, keydown)),
{
    match spec_modifier_key_from_key(key) {
        Some(ModifierKey::Shift(side)) => lemma_side_masks(m.shift, spec_modifier_key_mask(side), spec_modifier_key_mask(other_side(side))),
        Some(ModifierKey::Alt(side)) => lemma_side_masks(m.alt, spec_modifier_key_mask(side), spec_modifier_key_mask(other_side(side))),
        Some(ModifierKey::Control(side)) => lemma_side_masks(m.control, spec_modifier_key_mask(side), spec_modifier_key_mask(other_side(side))),
        Some(ModifierKey::Command(side)) => lemma_side_masks(m.command, spec_modifier_key_mask(side), spec_modifier_key_mask(other_side(side))),
        _ => {},
    }
}

/// A two-sided modifier stays held until both of its keys are released:
/// press one side, press the other, release the first, and the modifier is
/// still in the state; release the second too, and it is gone.
pub proof fn lemma_paired_modifier_keys(m: VirtualInputModel, first: Key, second: Key)
    requires
        valid_input_model(m),
        spec_modifier_key_from_key(first) is Some,
        spec_modifier_key_from_key(second) is Some,
        opposite_sides(
            spec_modifier_key_from_key(first).unwrap(),
            spec_modifier_key_from_key(second).unwrap(),
        ),
    ensures
        ({
            let bit = modifier_key_state_bit(spec_modifier_key_from_key(first).unwrap());
            let m1 = spec_update_key_modifier_state(m, first, true);
            let m2 = spec_update_key_modifier_state(m1, second, true);
            let m3 = spec_update_key_modifier_state(m2, first, false);
            let m4 = spec_update_key_modifier_state(m3, second, false);
            &&& spec_input_modifier_state(m3) & bit != 0
            &&& spec_input_modifier_state(m4) & bit == 0
        }),
{
    let fk = spec_modifier_key_from_key(first).unwrap();
    let bit = modifier_key_state_bit(fk);
    let m1 = spec_update_key_modifier_state(m, first, true);
    let m2 = spec_update_key_modifier_state(m1, second, true);
    let m3 = spec_update_key_modifier_state(m2, first, false);
    let m4 = spec_update_key_modifier_state(m3, second, false);
    crate::modifiers::lemma_modifier_bits(m3.command != 0, m3.shift != 0, m3.caps_lock, m3.alt != 0, m3.control != 0);
    crate::modifiers::lemma_modifier_bits(m4.command != 0, m4.shift != 0, m4.caps_lock, m4.alt != 0, m4.control != 0);
    match fk {
        ModifierKey::Shift(side) => lemma_side_masks(m.shift, spec_modifier_key_mask(side), spec_modifier_key_mask(other_side(side))),
        ModifierKey::Alt(side) => lemma_side_masks(m.alt, spec_modifier_key_mask(side), spec_modifier_key_mask(other_side(side))),
        ModifierKey::Control(side) => lemma_side_masks(m.control, spec_modifier_key_mask(side), spec_modifier_key_mask(other_side(side))),
        ModifierKey::Command(side) => lemma_side_masks(m.command, spec_modifier_key_mask(side), spec_modifier_key_mask(other_side(side))),
        ModifierKey::CapsLock => {},
    }
}

/// Caps Lock toggles on each press and ignores releases, so two presses
/// give back the stream as it was; keys that are no modifier change nothing.
pub proof fn lemma_caps_lock_and_other_keys(m: VirtualInputModel, key: Key, keydown: bool)
    ensures
        spec_modifier_key_from_key(key) == Some(ModifierKey::CapsLock) ==> {
            &&& spec_update_key_modifier_state(m, key, true).caps_lock == !m.caps_lock
            &&& spec_update_key_modifier_state(spec_update_key_modifier_state(m, key, true), key, true) == m
            &&& spec_update_key_modifier_state(m, key, false) == m
        },
        spec_modifier_key_from_key(key) is None ==> spec_update_key_modifier_state(m, key, keydown) == m,
{
}

/// Each held side of a modifier is recorded on its own: a press marks that
/// side held, a release marks it released, and the other side stays as it
/// was. A modifier is in the state exactly while one of its sides is held.
pub proof fn lemma_side_tracking(m: VirtualInputModel, mask: u8, side: ModifierSide, keydown: bool)
    requires
        valid_side_mask(mask),
    ensures
        (spec_set_modifier_key_state(mask, side, keydown) & spec_modifier_key_mask(side) != 0) == keydown,
        spec_set_modifier_key_state(mask, side, keydown) & spec_modifier_key_mask(other_side(side))
            == mask & spec_modifier_key_mask(other_side(side)),
        (spec_input_modifier_state(m) & MODIFIER_STATE_SHIFT != 0) == (m.shift != 0),
        (spec_input_modifier_state(m) & MODIFIER_STATE_ALT != 0) == (m.alt != 0),
        (spec_input_modifier_state(m) & MODIFIER_STATE_CONTROL != 0) == (m.control != 0),
        (spec_input_modifier_state(m) & MODIFIER_STATE_COMMAND != 0) == (m.command != 0),
        (spec_input_modifier_state(m) & MODIFIER_STATE_CAPS_LOCK != 0) == m.caps_lock,
{
    lemma_side_masks(mask, spec_modifier_key_mask(side), spec_modifier_key_mask(other_side(side)));
    crate::modifiers::lemma_modifier_bits(m.command != 0, m.shift != 0, m.caps_lock, m.alt != 0, m.control != 0);
}

/// Dead keys across a stream's key presses: while Command or Control is
/// held, a press of a key that is no modifier types nothing and drops the
/// pending dead key; a press of a modifier key leaves the dead key pending;
/// any other press is translated with the stream's modifiers, starting from
/// the pending dead key. Releases never touch the dead key.
pub proof fn lemma_dead_key_steps(m: VirtualInputModel, key: Key, current: u32)
    requires
        spec_keycode_from_key(key) is Some,
    ensures
        ({
            let kt = spec_keyboard_type_value(m.keyboard_type, current);
            let ms = spec_input_modifier_state(m);
            let press = spec_native_event_plan(EventType::KeyPress(key), kt, Some(ms), true);
            let release = spec_native_event_plan(EventType::KeyRelease(key), kt, Some(ms), true);
            &&& press.event matches Some(NativeEvent::Keyboard(plan)) && {
                &&& spec_modifier_key_from_key(key) is Some ==> plan.unicode == UnicodeStep::Keep
                    && spec_apply_unicode_step(m, plan.unicode) == m
                &&& spec_modifier_key_from_key(key) is None && spec_modifier_suppresses_unicode(ms)
                    ==> plan.unicode == UnicodeStep::ClearDeadState && spec_apply_unicode_step(
                    m,
                    plan.unicode,
                ).dead_state == 0
                &&& spec_modifier_key_from_key(key) is None && !spec_modifier_suppresses_unicode(ms)
                    ==> plan.unicode == (UnicodeStep::Translate { modifier_state: ms })
            }
            &&& release.event matches Some(NativeEvent::Keyboard(plan)) && plan.unicode
                == UnicodeStep::Keep
        }),
{
}

/// A key event claims one keyboard type throughout: the event source is set
/// to it and the event's keyboard-type field carries it. Presses keep their
/// flags; releases go through the Fn workaround.
pub proof fn lemma_key_event_keyboard_type(
    key: Key,
    keydown: bool,
    keyboard_type: u32,
    modifier_state: Option<u32>,
    tracks_dead_state: bool,
)
    requires
        spec_keycode_from_key(key) is Some,
    ensures
        ({
            let event_type = if keydown {
                EventType::KeyPress(key)
            } else {
                EventType::KeyRelease(key)
            };
            let plan = spec_native_event_plan(event_type, keyboard_type, modifier_state, tracks_dead_state);
            &&& plan.source_keyboard_type == Some(keyboard_type)
            &&& plan.event matches Some(NativeEvent::Keyboard(k)) && k.keyboard_type == keyboard_type
                && k.keycode == spec_keycode_from_key(key).unwrap() && k.apply_workaround == !keydown
        }),
{
}

/// A mouse button press or release becomes a button event of the same
/// button and the same direction, whatever keyboard state comes with it;
/// other buttons have no event, and no pointer event touches the event
/// source's keyboard type.
pub proof fn lemma_mouse_buttons_keep_button_and_direction(
    keyboard_type: u32,
    modifier_state: Option<u32>,
    tracks_dead_state: bool,
    button: Button,
)
    ensures
        spec_native_event_plan(EventType::ButtonPress(Button::Left), keyboard_type, modifier_state, tracks_dead_state).event
            == Some(NativeEvent::MouseButton(MouseButtonEventKind::LeftMouseDown)),
        spec_native_event_plan(EventType::ButtonRelease(Button::Left), keyboard_type, modifier_state, tracks_dead_state).event
            == Some(NativeEvent::MouseButton(MouseButtonEventKind::LeftMouseUp)),
        spec_native_event_plan(EventType::ButtonPress(Button::Right), keyboard_type, modifier_state, tracks_dead_state).event
            == Some(NativeEvent::MouseButton(MouseButtonEventKind::RightMouseDown)),
        spec_native_event_plan(EventType::ButtonRelease(Button::Right), keyboard_type, modifier_state, tracks_dead_state).event
            == Some(NativeEvent::MouseButton(MouseButtonEventKind::RightMouseUp)),
        button != Button::Left && button != Button::Right ==> spec_native_event_plan(
            EventType::ButtonPress(button),
            keyboard_type,
            modifier_state,
            tracks_dead_state,
        ).event is None && spec_native_event_plan(
            EventType::ButtonRelease(button),
            keyboard_type,
            modifier_state,
            tracks_dead_state,
        ).event is None,
        spec_native_event_plan(EventType::ButtonPress(button), keyboard_type, modifier_state, tracks_dead_state).source_keyboard_type is None,
        spec_native_event_plan(EventType::ButtonRelease(button), keyboard_type, modifier_state, tracks_dead_state).source_keyboard_type is None,
{
}

/// Which key releases get the Fn workaround, by keycode: F1 to F19 (122,
/// 120, 99, 118, 96, 97, 98, 100, 101, 109, 103, 111, 105, 107, 113, 106,
/// 64, 79, 80), keypad Clear (71), Forward Delete (117), Home (115), End
/// (119), Page Down (121), Page Up (116) and 129, 130, 131, 144, 145 lose
/// SecondaryFn; the arrows (123 to 126) lose SecondaryFn and NumericPad;
/// Help (114) loses SecondaryFn and Help. Every other key, F20 (90) among
/// them, keeps its flags. Whenever the workaround applies, the released
/// key's flags no longer hold SecondaryFn and gain nothing.
pub proof fn lemma_workaround_keycodes(keycode: CGKeyCode, flags: u64)
    ensures
        (keycode == 122 || keycode == 120 || keycode == 99 || keycode == 118 || keycode == 96 || keycode == 97 || keycode == 98 || keycode == 100 || keycode == 101 || keycode == 109 || keycode == 103 || keycode == 111 || keycode == 105 || keycode == 107 || keycode == 113 || keycode == 106 || keycode == 64 || keycode == 79 || keycode == 80 || keycode == 71 || keycode == 117 || keycode == 115 || keycode == 119 || keycode == 121 || keycode == 116 || keycode == 129 || keycode == 130 || keycode == 131 || keycode == 144 || keycode == 145) ==> workaround_clear_mask(keycode) == Some(0x0080_0000u64),
        (keycode == 123 || keycode == 124 || keycode == 125 || keycode == 126) ==> workaround_clear_mask(keycode)
            == Some(0x0080_0000u64 | 0x0020_0000u64),
        keycode == 114 ==> workaround_clear_mask(keycode) == Some(0x0080_0000u64 | 0x0040_0000u64),
        !(keycode == 122 || keycode == 120 || keycode == 99 || keycode == 118 || keycode == 96 || keycode == 97 || keycode == 98 || keycode == 100 || keycode == 101 || keycode == 109 || keycode == 103 || keycode == 111 || keycode == 105 || keycode == 107 || keycode == 113 || keycode == 106 || keycode == 64 || keycode == 79 || keycode == 80 || keycode == 71 || keycode == 117 || keycode == 115 || keycode == 119 || keycode == 121 || keycode == 116 || keycode == 129 || keycode == 130 || keycode == 131 || keycode == 144 || keycode == 145 || (123 <= keycode <= 126) || keycode == 114) ==> workaround_clear_mask(keycode) is None,
        workaround_clear_mask(keycode) matches Some(mask) ==> ({
            let cleared = clear_event_flags(flags, mask);
            &&& cleared & 0x0080_0000u64 == 0
            &&& cleared & !flags == 0
        }),
        workaround_clear_mask(keycode) == Some(0x0080_0000u64) ==> clear_event_flags(
            flags,
            0x0080_0000u64,
        ) == flags & 0x007F_0100u64,
        workaround_clear_mask(keycode) == Some(0x0080_0000u64 | 0x0020_0000u64) ==> clear_event_flags(
            flags,
            0x0080_0000u64 | 0x0020_0000u64,
        ) == flags & 0x005F_0100u64,
        workaround_clear_mask(keycode) == Some(0x0080_0000u64 | 0x0040_0000u64) ==> clear_event_flags(
            flags,
            0x0080_0000u64 | 0x0040_0000u64,
        ) == flags & 0x003F_0100u64,
{
    lemma_workaround_only_clears(keycode, flags);
    assert(flags & (0x00FF_0100u64 & !0x0080_0000u64) == flags & 0x007F_0100u64) by (bit_vector);
    assert(flags & (0x00FF_0100u64 & !(0x0080_0000u64 | 0x0020_0000u64)) == flags & 0x005F_0100u64)
        by (bit_vector);
    assert(flags & (0x00FF_0100u64 & !(0x0080_0000u64 | 0x0040_0000u64)) == flags & 0x003F_0100u64)
        by (bit_vector);
}

/// A wheel event keeps each delta on its own axis and is made exactly when
/// both deltas fit in 32 bits; a move keeps both coordinates as they are.
pub proof fn lemma_pointer_events_keep_their_values(
    delta_x: i64,
    delta_y: i64,
    x_bits: u64,
    y_bits: u64,
    keyboard_type: u32,
    modifier_state: Option<u32>,
    tracks_dead_state: bool,
)
    ensures
        (-2147483648 <= delta_x <= 2147483647 && -2147483648 <= delta_y <= 2147483647) ==> ({
            let e = spec_native_event_plan(EventType::Wheel { delta_x, delta_y }, keyboard_type, modifier_state, tracks_dead_state).event;
            e matches Some(NativeEvent::Wheel { delta_x: dx, delta_y: dy }) && dx as i64 == delta_x && dy as i64 == delta_y
        }),
        !(-2147483648 <= delta_x <= 2147483647 && -2147483648 <= delta_y <= 2147483647)
            ==> spec_native_event_plan(EventType::Wheel { delta_x, delta_y }, keyboard_type, modifier_state, tracks_dead_state).event is None,
        spec_native_event_plan(EventType::MouseMove { x_bits, y_bits }, keyboard_type, modifier_state, tracks_dead_state).event
            == Some(NativeEvent::MouseMove { x_bits, y_bits }),
{
}

/// The keyboard types carry Carbon's IDs: ANSI 40, ISO 41, JIS 42; a raw
/// type is itself and `Current` is what the system reports.
pub proof fn lemma_keyboard_type_ids(current: u32, raw: u32)
    ensures
        spec_keyboard_type_value(MacKeyboardType::Ansi, current) == 40,
        spec_keyboard_type_value(MacKeyboardType::Iso, current) == 41,
        spec_keyboard_type_value(MacKeyboardType::Jis, current) == 42,
        spec_keyboard_type_value(MacKeyboardType::Raw(raw), current) == raw,
        spec_keyboard_type_value(MacKeyboardType::Current, current) == current,
{
}

/// The modifier keys, named or by their macOS keycodes (Shift 56 and 60,
/// Option 58 and 61, Caps Lock 57, Control 59 and 62, Command 55 and 54):
/// a named modifier is the same modifier as its own keycode, left keys are
/// left sides and right keys right sides; a key with no modifier keycode
/// is no modifier. Only macOS raw codes are read.
pub proof fn lemma_modifier_keys_by_keycode(key: Key, code: CGKeyCode, other: u32)
    ensures
        spec_modifier_key_from_code(56) == Some(ModifierKey::Shift(ModifierSide::Left)),
        spec_modifier_key_from_code(60) == Some(ModifierKey::Shift(ModifierSide::Right)),
        spec_modifier_key_from_code(58) == Some(ModifierKey::Alt(ModifierSide::Left)),
        spec_modifier_key_from_code(61) == Some(ModifierKey::Alt(ModifierSide::Right)),
        spec_modifier_key_from_code(57) == Some(ModifierKey::CapsLock),
        spec_modifier_key_from_code(59) == Some(ModifierKey::Control(ModifierSide::Left)),
        spec_modifier_key_from_code(62) == Some(ModifierKey::Control(ModifierSide::Right)),
        spec_modifier_key_from_code(55) == Some(ModifierKey::Command(ModifierSide::Left)),
        spec_modifier_key_from_code(54) == Some(ModifierKey::Command(ModifierSide::Right)),
        !(54 <= code <= 62) ==> spec_modifier_key_from_code(code) is None,
        spec_modifier_key_from_key(Key::RawKey(RawKey::MacVirtualKeycode(code))) == spec_modifier_key_from_code(code),
        spec_modifier_key_from_key(Key::RawKey(RawKey::ScanCode(other))) is None,
        (key is ShiftLeft || key is ShiftRight || key is Alt || key is AltGr || key is CapsLock
            || key is ControlLeft || key is ControlRight || key is MetaLeft || key is MetaRight)
            ==> (spec_code_from_key(key) matches Some(c) && spec_modifier_key_from_key(key)
            == spec_modifier_key_from_code(c)),
        (spec_modifier_key_from_key(key) is Some && !(key is RawKey)) ==> (key is ShiftLeft
            || key is ShiftRight || key is Alt || key is AltGr || key is CapsLock || key is ControlLeft
            || key is ControlRight || key is MetaLeft || key is MetaRight),
{
}

/// A macOS raw keycode becomes a key event with that very keycode; raw codes
/// of other platforms become none; named keys take their table keycode.
pub proof fn lemma_raw_keycodes(code: CGKeyCode, other: u32, key: Key)
    ensures
        spec_keycode_from_key(Key::RawKey(RawKey::MacVirtualKeycode(code))) == Some(code),
        spec_keycode_from_key(Key::RawKey(RawKey::ScanCode(other))) is None,
        spec_keycode_from_key(Key::RawKey(RawKey::WinVirtualKeycode(other))) is None,
        spec_keycode_from_key(Key::RawKey(RawKey::LinuxXorgKeycode(other))) is None,
        spec_keycode_from_key(Key::RawKey(RawKey::LinuxConsoleKeycode(other))) is None,
        !(key is RawKey) ==> spec_keycode_from_key(key) == spec_code_from_key(key),
{
}

/// Text is suppressed exactly when Command or Control is among the held
/// modifiers, whatever else is held; modifier keys never carry text.
pub proof fn lemma_suppression_by_modifiers(
    command: bool,
    shift: bool,
    caps_lock: bool,
    alt: bool,
    control: bool,
    key: Key,
)
    ensures
        spec_modifier_suppresses_unicode(modifier_bits(command, shift, caps_lock, alt, control)) == (
        command || control),
        spec_should_translate_key_unicode(key, modifier_bits(command, shift, caps_lock, alt, control))
            == (spec_modifier_key_from_key(key) is None && !command && !control),
        (key is ShiftLeft || key is ShiftRight || key is Alt || key is AltGr || key is CapsLock
            || key is ControlLeft || key is ControlRight || key is MetaLeft || key is MetaRight)
            ==> !spec_should_translate_key_unicode(key, modifier_bits(command, shift, caps_lock, alt, control)),
{
    crate::modifiers::lemma_modifier_bits(command, shift, caps_lock, alt, control);
}

} // verus!
