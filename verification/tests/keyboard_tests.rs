use rdev::keyboard::{
    flags_to_state, layout_keycode, next_layout_source, LayoutSource, unicode_info_from_translation, Keyboard, TranslationRequest,
    NS_EVENT_MODIFIER_FLAG_CAPS_LOCK, NS_EVENT_MODIFIER_FLAG_COMMAND, NS_EVENT_MODIFIER_FLAG_CONTROL,
    NS_EVENT_MODIFIER_FLAG_OPTION, NS_EVENT_MODIFIER_FLAG_SHIFT,
};
use rdev::keycodes::{kVK_ANSI_A, kVK_ANSI_Q};
use rdev::modifiers::{
    MODIFIER_STATE_ALT, MODIFIER_STATE_CAPS_LOCK, MODIFIER_STATE_COMMAND, MODIFIER_STATE_CONTROL,
    MODIFIER_STATE_NONE, MODIFIER_STATE_SHIFT,
};
use rdev::types::{Button, EventType, Key, RawKey};

fn request(code: u16, modifier_state: u32) -> Option<TranslationRequest> {
    Some(TranslationRequest { code: code as u32, modifier_state })
}

#[test]
fn new_keyboard_is_idle() {
    let keyboard = Keyboard::new().unwrap();
    assert!(keyboard.is_main_thread());
    assert!(!keyboard.is_dead());
    assert_eq!(0, keyboard.dead_state());
    assert_eq!(MODIFIER_STATE_NONE, keyboard.modifier_state());
}

#[test]
fn main_thread_setting() {
    let mut keyboard = Keyboard::new().unwrap();
    keyboard.set_is_main_thread(false);
    assert!(!keyboard.is_main_thread());
    keyboard.set_is_main_thread(true);
    assert!(keyboard.is_main_thread());
}

#[test]
fn dead_state_marks_dead_keys() {
    let mut keyboard = Keyboard::new().unwrap();
    keyboard.set_dead_state(3);
    assert!(keyboard.is_dead());
    assert_eq!(3, keyboard.dead_state());
    keyboard.set_dead_state(0);
    assert!(!keyboard.is_dead());
}

#[test]
fn keyboard_tracks_shift_alt_and_caps_lock() {
    let mut keyboard = Keyboard::new().unwrap();
    assert_eq!(None, keyboard.add(&EventType::KeyPress(Key::ShiftLeft)));
    assert_eq!(request(kVK_ANSI_A, MODIFIER_STATE_SHIFT), keyboard.add(&EventType::KeyPress(Key::KeyA)));
    assert_eq!(None, keyboard.add(&EventType::KeyPress(Key::AltGr)));
    assert_eq!(None, keyboard.add(&EventType::KeyPress(Key::CapsLock)));
    assert_eq!(None, keyboard.add(&EventType::KeyRelease(Key::CapsLock)));
    assert_eq!(
        request(kVK_ANSI_Q, MODIFIER_STATE_SHIFT | MODIFIER_STATE_ALT | MODIFIER_STATE_CAPS_LOCK),
        keyboard.add(&EventType::KeyPress(Key::KeyQ))
    );
    assert_eq!(None, keyboard.add(&EventType::KeyRelease(Key::ShiftRight)));
    assert_eq!(None, keyboard.add(&EventType::KeyRelease(Key::Alt)));
    assert_eq!(MODIFIER_STATE_CAPS_LOCK, keyboard.modifier_state());
    assert_eq!(None, keyboard.add(&EventType::KeyPress(Key::CapsLock)));
    assert_eq!(MODIFIER_STATE_NONE, keyboard.modifier_state());
}

#[test]
fn keyboard_ignores_other_events() {
    let mut keyboard = Keyboard::new().unwrap();
    assert_eq!(None, keyboard.add(&EventType::KeyPress(Key::PrintScreen)));
    assert_eq!(None, keyboard.add(&EventType::KeyPress(Key::RawKey(RawKey::MacVirtualKeycode(0)))));
    assert_eq!(None, keyboard.add(&EventType::KeyRelease(Key::KeyA)));
    assert_eq!(None, keyboard.add(&EventType::ButtonPress(Button::Left)));
    assert_eq!(None, keyboard.add(&EventType::Wheel { delta_x: 1, delta_y: 1 }));
    assert_eq!(MODIFIER_STATE_NONE, keyboard.modifier_state());
    assert_eq!(request(0x1234, 0), keyboard.add(&EventType::KeyPress(Key::Unknown(0x1234))));
}

#[test]
fn flags_map_to_translation_state() {
    assert_eq!(0, flags_to_state(0));
    assert_eq!(MODIFIER_STATE_COMMAND, flags_to_state(NS_EVENT_MODIFIER_FLAG_COMMAND));
    assert_eq!(MODIFIER_STATE_SHIFT, flags_to_state(NS_EVENT_MODIFIER_FLAG_SHIFT));
    assert_eq!(MODIFIER_STATE_CAPS_LOCK, flags_to_state(NS_EVENT_MODIFIER_FLAG_CAPS_LOCK));
    assert_eq!(MODIFIER_STATE_ALT, flags_to_state(NS_EVENT_MODIFIER_FLAG_OPTION));
    assert_eq!(MODIFIER_STATE_CONTROL, flags_to_state(NS_EVENT_MODIFIER_FLAG_CONTROL));
    assert_eq!(31, flags_to_state(u64::MAX));
    assert_eq!(
        MODIFIER_STATE_SHIFT | MODIFIER_STATE_ALT,
        flags_to_state(NS_EVENT_MODIFIER_FLAG_SHIFT | NS_EVENT_MODIFIER_FLAG_OPTION | 0x100 | 0x800000)
    );
}

#[test]
fn shortcuts_ask_for_no_translation() {
    let keyboard = Keyboard::new().unwrap();
    assert_eq!(None, keyboard.create_unicode_for_key(0, NS_EVENT_MODIFIER_FLAG_COMMAND));
    assert_eq!(
        None,
        keyboard.create_unicode_for_key(0, NS_EVENT_MODIFIER_FLAG_CONTROL | NS_EVENT_MODIFIER_FLAG_SHIFT)
    );
    assert_eq!(
        Some(TranslationRequest { code: 12, modifier_state: MODIFIER_STATE_SHIFT | MODIFIER_STATE_ALT }),
        keyboard.create_unicode_for_key(12, NS_EVENT_MODIFIER_FLAG_SHIFT | NS_EVENT_MODIFIER_FLAG_OPTION)
    );
}

#[test]
fn layout_keycodes_fit_in_16_bits() {
    assert_eq!(Some(0xFFFF), layout_keycode(0xFFFF));
    assert_eq!(Some(12), layout_keycode(12));
    assert_eq!(None, layout_keycode(0x1_0000));
}

#[test]
fn empty_translation_is_a_dead_key_or_nothing() {
    let units = [0u16; 4];
    let info = unicode_info_from_translation(&units, 0, 5).unwrap();
    assert!(info.is_dead);
    assert!(info.unicode.is_empty());
    assert_eq!(None, info.name);
    assert!(unicode_info_from_translation(&units, 0, 0).is_none());
}

#[test]
fn control_characters_type_nothing() {
    assert!(unicode_info_from_translation(&[0x1, 0, 0, 0], 1, 0).is_none());
    assert!(unicode_info_from_translation(&[0x1f, 0, 0, 0], 1, 0).is_none());
    let info = unicode_info_from_translation(&[0x0, 0, 0, 0], 1, 0).unwrap();
    assert_eq!(vec![0u16], info.unicode);
    let info = unicode_info_from_translation(&[0x1b, 0x41, 0, 0], 2, 0).unwrap();
    assert_eq!(vec![0x1b, 0x41], info.unicode);
}

#[test]
fn translated_text_is_decoded() {
    let info = unicode_info_from_translation(&[0x61, 0x62, 0x63, 0], 1, 0).unwrap();
    assert!(!info.is_dead);
    assert_eq!(vec![0x61u16], info.unicode);
    assert_eq!(Some("a".to_string()), info.name);

    let info = unicode_info_from_translation(&[0xD83D, 0xDE00, 0, 0], 2, 7).unwrap();
    assert_eq!(Some("\u{1F600}".to_string()), info.name);

    let info = unicode_info_from_translation(&[0xD83D, 0x41, 0, 0], 2, 0).unwrap();
    assert_eq!(vec![0xD83D, 0x41], info.unicode);
    assert_eq!(None, info.name);

    let info = unicode_info_from_translation(&[0xE9, 0x301, 0x41, 0x42], 4, 0).unwrap();
    assert_eq!(Some("\u{e9}\u{301}AB".to_string()), info.name);
}

#[test]
fn lone_surrogates_have_no_name() {
    let info = unicode_info_from_translation(&[0xDC00, 0, 0, 0], 1, 0).unwrap();
    assert_eq!(None, info.name);
    let info = unicode_info_from_translation(&[0x41, 0xD800, 0, 0], 2, 0).unwrap();
    assert_eq!(None, info.name);
}

#[test]
fn layout_sources_are_tried_in_order() {
    let first = next_layout_source(None);
    assert_eq!(Some(LayoutSource::CurrentKeyboard), first);
    let second = next_layout_source(first);
    assert_eq!(Some(LayoutSource::CurrentKeyboardLayout), second);
    let third = next_layout_source(second);
    assert_eq!(Some(LayoutSource::AsciiCapableKeyboardLayout), third);
    assert_eq!(None, next_layout_source(third));
}
