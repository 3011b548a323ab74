use rdev::keycodes::{
    kVK_ANSI_2, kVK_ANSI_A, kVK_DownArrow, kVK_F1, kVK_F20, kVK_Help, kVK_Option, kVK_RightOption,
    kVK_Shift, CGKeyCode,
};
use rdev::modifiers::{
    MODIFIER_STATE_ALT, MODIFIER_STATE_CAPS_LOCK, MODIFIER_STATE_COMMAND, MODIFIER_STATE_CONTROL,
    MODIFIER_STATE_NONE, MODIFIER_STATE_SHIFT,
};
use rdev::simulate::{
    event_source_user_data, keyboard_event_from_key, keyboard_type_value, keycode_from_key,
    modifier_key_from_key, modifier_suppresses_unicode, native_event_plan, set_keyboard_extra_info,
    set_modifier_key_state, set_mouse_extra_info, should_translate_key_unicode, workaround_fn,
    ExtraInfo, KeyEventPlan, ModifierKey, ModifierSide, MouseButtonEventKind, NativeEvent,
    UnicodeStep, VirtualInputState, ANSI_KEYBOARD_TYPE, CG_EVENT_FLAG_HELP,
    CG_EVENT_FLAG_NUMERIC_PAD, CG_EVENT_FLAG_SECONDARY_FN, ISO_KEYBOARD_TYPE, JIS_KEYBOARD_TYPE,
};
use rdev::types::{Button, EventType, Key, MacKeyboardType, RawKey};

const TEST_MOUSE_EXTRA_INFO: i64 = 11;
const TEST_KEYBOARD_EXTRA_INFO: i64 = 22;
const TEST_MOUSE_X: f64 = 1.0;
const TEST_MOUSE_Y: f64 = 2.0;
const RAW_KEYBOARD_TYPE: u32 = 91;
const TEST_PENDING_DEAD_STATE: u32 = 1;
/// The keyboard type that the system reports in these tests.
const SYSTEM_KEYBOARD_TYPE: u32 = 43;

fn mac_key(keycode: CGKeyCode) -> Key {
    Key::RawKey(RawKey::MacVirtualKeycode(keycode))
}

fn key_plan(input: &VirtualInputState, event_type: &EventType) -> KeyEventPlan {
    match input.plan_event(event_type, SYSTEM_KEYBOARD_TYPE).event {
        Some(NativeEvent::Keyboard(plan)) => plan,
        other => panic!("not a key event: {:?}", other),
    }
}

fn key_press_plan(input: &VirtualInputState, keycode: CGKeyCode) -> KeyEventPlan {
    key_plan(input, &EventType::KeyPress(mac_key(keycode)))
}

fn extra_info(mouse: i64, keyboard: i64) -> ExtraInfo {
    let mut info = ExtraInfo::new();
    set_mouse_extra_info(&mut info, mouse);
    set_keyboard_extra_info(&mut info, keyboard);
    info
}

fn mouse_move() -> EventType {
    EventType::MouseMove { x_bits: TEST_MOUSE_X.to_bits(), y_bits: TEST_MOUSE_Y.to_bits() }
}

#[test]
fn caps_lock_uses_alpha_lock_modifier_state() {
    let mut input = VirtualInputState::new();

    input.update_modifier_state(&EventType::KeyPress(Key::CapsLock));

    assert_eq!(MODIFIER_STATE_CAPS_LOCK, input.modifier_state());
}

#[test]
fn virtual_input_current_keyboard_type_uses_system_keyboard_type() {
    let input = VirtualInputState::new().with_keyboard_type(MacKeyboardType::Current);

    let event = key_press_plan(&input, kVK_ANSI_2);

    assert_eq!(SYSTEM_KEYBOARD_TYPE, event.keyboard_type);
}

#[test]
fn keyboard_event_uses_requested_keyboard_type_with_shift() {
    let mut input = VirtualInputState::new().with_keyboard_type(MacKeyboardType::Jis);
    input.update_modifier_state(&EventType::KeyPress(Key::ShiftLeft));

    let event = key_press_plan(&input, kVK_ANSI_2);

    assert_eq!(JIS_KEYBOARD_TYPE, event.keyboard_type);
    assert_eq!(MODIFIER_STATE_SHIFT, input.modifier_state());
}

#[test]
fn command_modifier_does_not_set_printable_unicode_string() {
    let mut input = VirtualInputState::new().with_keyboard_type(MacKeyboardType::Ansi);
    input.update_modifier_state(&EventType::KeyPress(Key::MetaLeft));

    let event = key_press_plan(&input, kVK_ANSI_A);

    assert!(!matches!(event.unicode, UnicodeStep::Translate { .. }));
}

#[test]
fn control_modifier_does_not_set_printable_unicode_string() {
    let mut input = VirtualInputState::new().with_keyboard_type(MacKeyboardType::Ansi);
    input.update_modifier_state(&EventType::KeyPress(Key::ControlLeft));

    let event = key_press_plan(&input, kVK_ANSI_A);

    assert!(!matches!(event.unicode, UnicodeStep::Translate { .. }));
}

#[test]
fn raw_shift_key_updates_modifier_state_for_keyboard_type_event() {
    let mut input = VirtualInputState::new().with_keyboard_type(MacKeyboardType::Jis);
    input.update_modifier_state(&EventType::KeyPress(mac_key(kVK_Shift)));

    let event = key_press_plan(&input, kVK_ANSI_2);

    assert_eq!(JIS_KEYBOARD_TYPE, event.keyboard_type);
    assert_eq!(MODIFIER_STATE_SHIFT, input.modifier_state());
}

#[test]
fn alt_gr_key_updates_modifier_state() {
    let mut input = VirtualInputState::new();

    input.update_modifier_state(&EventType::KeyPress(Key::AltGr));
    assert_eq!(MODIFIER_STATE_ALT, input.modifier_state());

    input.update_modifier_state(&EventType::KeyRelease(Key::AltGr));
    assert_eq!(MODIFIER_STATE_NONE, input.modifier_state());
}

#[test]
fn raw_right_option_key_updates_modifier_state() {
    let mut input = VirtualInputState::new();

    input.update_modifier_state(&EventType::KeyPress(mac_key(kVK_RightOption)));
    assert_eq!(MODIFIER_STATE_ALT, input.modifier_state());

    input.update_modifier_state(&EventType::KeyRelease(mac_key(kVK_RightOption)));
    assert_eq!(MODIFIER_STATE_NONE, input.modifier_state());
}

fn assert_key_press_dead_state(
    input: &mut VirtualInputState,
    event_type: EventType,
    expected_dead_state: u32,
) {
    input.set_dead_state(TEST_PENDING_DEAD_STATE);
    let event = key_plan(input, &event_type);
    input.apply_unicode_step(event.unicode);

    assert_eq!(expected_dead_state, input.dead_state());
}

#[test]
fn command_suppressed_key_press_clears_pending_dead_state() {
    let mut input = VirtualInputState::new();

    input.update_modifier_state(&EventType::KeyPress(Key::MetaLeft));
    assert_key_press_dead_state(&mut input, EventType::KeyPress(Key::KeyA), 0);
}

#[test]
fn modifier_key_press_preserves_pending_dead_state() {
    let mut input = VirtualInputState::new();

    assert_key_press_dead_state(
        &mut input,
        EventType::KeyPress(Key::ShiftLeft),
        TEST_PENDING_DEAD_STATE,
    );
}

#[test]
fn command_modified_modifier_key_press_preserves_pending_dead_state() {
    let mut input = VirtualInputState::new();

    input.update_modifier_state(&EventType::KeyPress(Key::MetaLeft));
    assert_key_press_dead_state(
        &mut input,
        EventType::KeyPress(Key::ShiftLeft),
        TEST_PENDING_DEAD_STATE,
    );
}

fn assert_paired_modifier_state(
    input: &mut VirtualInputState,
    key_pair: (Key, Key),
    modifier_state: u32,
) {
    let (left_key, right_key) = key_pair;
    input.update_modifier_state(&EventType::KeyPress(left_key));
    input.update_modifier_state(&EventType::KeyPress(right_key));
    input.update_modifier_state(&EventType::KeyRelease(left_key));
    assert_eq!(modifier_state, input.modifier_state());

    input.update_modifier_state(&EventType::KeyRelease(right_key));
    assert_eq!(MODIFIER_STATE_NONE, input.modifier_state());
}

#[test]
fn paired_modifier_keys_stay_active_until_both_are_released() {
    let mut input = VirtualInputState::new();

    assert_paired_modifier_state(
        &mut input,
        (Key::ShiftLeft, Key::ShiftRight),
        MODIFIER_STATE_SHIFT,
    );
    assert_paired_modifier_state(&mut input, (Key::Alt, Key::AltGr), MODIFIER_STATE_ALT);
    assert_paired_modifier_state(
        &mut input,
        (mac_key(kVK_Option), mac_key(kVK_RightOption)),
        MODIFIER_STATE_ALT,
    );
    assert_paired_modifier_state(
        &mut input,
        (Key::ControlLeft, Key::ControlRight),
        MODIFIER_STATE_CONTROL,
    );
    assert_paired_modifier_state(
        &mut input,
        (Key::MetaLeft, Key::MetaRight),
        MODIFIER_STATE_COMMAND,
    );
}

#[test]
fn modifier_keys_do_not_request_unicode_translation() {
    assert!(!should_translate_key_unicode(Key::ShiftLeft, MODIFIER_STATE_NONE));
    assert!(!should_translate_key_unicode(mac_key(kVK_RightOption), MODIFIER_STATE_NONE));
    assert!(!should_translate_key_unicode(Key::KeyA, MODIFIER_STATE_COMMAND));
    assert!(should_translate_key_unicode(Key::KeyA, MODIFIER_STATE_SHIFT));
}

#[test]
fn keyboard_event_conversion_matches_raw_keyboard_type() {
    let input = VirtualInputState::new()
        .with_keyboard_type(MacKeyboardType::Raw(RAW_KEYBOARD_TYPE));

    let event = key_press_plan(&input, kVK_ANSI_2);

    assert_eq!(RAW_KEYBOARD_TYPE, event.keyboard_type);
}

#[test]
fn event_source_user_data_matches_event_kind() {
    let info = extra_info(TEST_MOUSE_EXTRA_INFO, TEST_KEYBOARD_EXTRA_INFO);

    assert_eq!(
        TEST_KEYBOARD_EXTRA_INFO,
        event_source_user_data(&info, &EventType::KeyPress(Key::KeyA))
    );
    assert_eq!(TEST_MOUSE_EXTRA_INFO, event_source_user_data(&info, &mouse_move()));
}

#[test]
fn virtual_input_event_source_user_data_matches_event_kind() {
    let info = extra_info(TEST_MOUSE_EXTRA_INFO, TEST_KEYBOARD_EXTRA_INFO);
    let input = VirtualInputState::new();

    let keyboard_event = EventType::KeyPress(Key::KeyA);
    assert!(input.plan_event(&keyboard_event, SYSTEM_KEYBOARD_TYPE).event.is_some());
    assert_eq!(TEST_KEYBOARD_EXTRA_INFO, event_source_user_data(&info, &keyboard_event));

    let mouse_event = mouse_move();
    assert!(input.plan_event(&mouse_event, SYSTEM_KEYBOARD_TYPE).event.is_some());
    assert_eq!(TEST_MOUSE_EXTRA_INFO, event_source_user_data(&info, &mouse_event));
}

#[test]
fn virtual_input_keyboard_type_is_used_for_key_events() {
    let input = VirtualInputState::new().with_keyboard_type(MacKeyboardType::Jis);

    let event = key_press_plan(&input, kVK_ANSI_2);

    assert_eq!(JIS_KEYBOARD_TYPE, event.keyboard_type);
}

#[test]
fn mac_keyboard_type_maps_to_raw_keyboard_type() {
    assert_eq!(
        SYSTEM_KEYBOARD_TYPE,
        keyboard_type_value(MacKeyboardType::Current, SYSTEM_KEYBOARD_TYPE)
    );
    assert_eq!(ANSI_KEYBOARD_TYPE, keyboard_type_value(MacKeyboardType::Ansi, SYSTEM_KEYBOARD_TYPE));
    assert_eq!(ISO_KEYBOARD_TYPE, keyboard_type_value(MacKeyboardType::Iso, SYSTEM_KEYBOARD_TYPE));
    assert_eq!(JIS_KEYBOARD_TYPE, keyboard_type_value(MacKeyboardType::Jis, SYSTEM_KEYBOARD_TYPE));
    assert_eq!(
        RAW_KEYBOARD_TYPE,
        keyboard_type_value(MacKeyboardType::Raw(RAW_KEYBOARD_TYPE), SYSTEM_KEYBOARD_TYPE)
    );
}

#[test]
fn key_events_set_the_source_keyboard_type() {
    let input = VirtualInputState::new().with_keyboard_type(MacKeyboardType::Iso);
    let plan = input.plan_event(&EventType::KeyRelease(Key::Unknown(0x1_0000)), SYSTEM_KEYBOARD_TYPE);
    assert_eq!(Some(ISO_KEYBOARD_TYPE), plan.source_keyboard_type);

    let plan = input.plan_event(&mouse_move(), SYSTEM_KEYBOARD_TYPE);
    assert_eq!(None, plan.source_keyboard_type);
}

#[test]
fn key_press_with_shift_is_translated_with_shift() {
    let mut input = VirtualInputState::new();
    input.update_modifier_state(&EventType::KeyPress(Key::ShiftRight));

    let event = key_press_plan(&input, kVK_ANSI_A);

    assert_eq!(UnicodeStep::Translate { modifier_state: MODIFIER_STATE_SHIFT }, event.unicode);
    assert!(event.keydown);
    assert!(!event.apply_workaround);
    assert_eq!(kVK_ANSI_A, event.keycode);
}

#[test]
fn key_release_is_not_translated_and_takes_the_workaround() {
    let input = VirtualInputState::new();

    let event = key_plan(&input, &EventType::KeyRelease(Key::KeyA));

    assert_eq!(UnicodeStep::Keep, event.unicode);
    assert!(!event.keydown);
    assert!(event.apply_workaround);
}

#[test]
fn event_without_stream_state_is_not_translated() {
    let plan = keyboard_event_from_key(Key::KeyA, true, ANSI_KEYBOARD_TYPE, None, false);
    assert_eq!(
        Some(KeyEventPlan {
            keycode: kVK_ANSI_A,
            keydown: true,
            keyboard_type: ANSI_KEYBOARD_TYPE,
            unicode: UnicodeStep::Keep,
            apply_workaround: false,
        }),
        plan
    );
}

#[test]
fn caps_lock_toggles_on_press_only() {
    let mut input = VirtualInputState::new();
    input.update_modifier_state(&EventType::KeyPress(Key::CapsLock));
    input.update_modifier_state(&EventType::KeyRelease(Key::CapsLock));
    assert_eq!(MODIFIER_STATE_CAPS_LOCK, input.modifier_state());
    input.update_modifier_state(&EventType::KeyPress(Key::CapsLock));
    assert_eq!(MODIFIER_STATE_NONE, input.modifier_state());
}

#[test]
fn all_modifiers_together() {
    let mut input = VirtualInputState::new();
    for key in [Key::MetaRight, Key::ShiftLeft, Key::CapsLock, Key::Alt, Key::ControlRight] {
        input.update_modifier_state(&EventType::KeyPress(key));
    }
    assert_eq!(31, input.modifier_state());
    input.update_modifier_state(&EventType::KeyPress(Key::KeyB));
    input.update_modifier_state(&EventType::Wheel { delta_x: 1, delta_y: 2 });
    assert_eq!(31, input.modifier_state());
}

#[test]
fn modifier_keys_are_recognised() {
    assert_eq!(Some(ModifierKey::Shift(ModifierSide::Left)), modifier_key_from_key(mac_key(kVK_Shift)));
    assert_eq!(Some(ModifierKey::Alt(ModifierSide::Right)), modifier_key_from_key(Key::AltGr));
    assert_eq!(Some(ModifierKey::CapsLock), modifier_key_from_key(mac_key(57)));
    assert_eq!(Some(ModifierKey::Command(ModifierSide::Right)), modifier_key_from_key(mac_key(54)));
    assert_eq!(None, modifier_key_from_key(Key::KeyA));
    assert_eq!(None, modifier_key_from_key(Key::RawKey(RawKey::ScanCode(56))));
}

#[test]
fn modifier_key_state_tracks_each_side() {
    let mut state: u8 = 0;
    set_modifier_key_state(&mut state, ModifierSide::Right, true);
    assert_eq!(2, state);
    set_modifier_key_state(&mut state, ModifierSide::Left, true);
    assert_eq!(3, state);
    set_modifier_key_state(&mut state, ModifierSide::Right, false);
    assert_eq!(1, state);
    set_modifier_key_state(&mut state, ModifierSide::Right, false);
    assert_eq!(1, state);
}

#[test]
fn command_and_control_suppress_unicode() {
    assert!(modifier_suppresses_unicode(MODIFIER_STATE_COMMAND));
    assert!(modifier_suppresses_unicode(MODIFIER_STATE_CONTROL | MODIFIER_STATE_SHIFT));
    assert!(!modifier_suppresses_unicode(MODIFIER_STATE_SHIFT | MODIFIER_STATE_ALT | MODIFIER_STATE_CAPS_LOCK));
}

#[test]
fn keycodes_of_keys() {
    assert_eq!(Some(kVK_ANSI_2), keycode_from_key(Key::Num2));
    assert_eq!(Some(300), keycode_from_key(mac_key(300)));
    assert_eq!(None, keycode_from_key(Key::RawKey(RawKey::WinVirtualKeycode(65))));
    assert_eq!(Some(0x2345), keycode_from_key(Key::Unknown(0x1_2345)));
    assert_eq!(None, keycode_from_key(Key::PrintScreen));
}

#[test]
fn fn_workaround_clears_flags_on_release() {
    let flags = CG_EVENT_FLAG_SECONDARY_FN | CG_EVENT_FLAG_NUMERIC_PAD | CG_EVENT_FLAG_HELP | 0x20000 | 0x1;
    assert_eq!(Some(CG_EVENT_FLAG_NUMERIC_PAD | CG_EVENT_FLAG_HELP | 0x20000), workaround_fn(kVK_F1, flags));
    assert_eq!(Some(CG_EVENT_FLAG_HELP | 0x20000), workaround_fn(kVK_DownArrow, flags));
    assert_eq!(Some(CG_EVENT_FLAG_NUMERIC_PAD | 0x20000), workaround_fn(kVK_Help, flags));
    assert_eq!(Some(0x20000), workaround_fn(144, CG_EVENT_FLAG_SECONDARY_FN | 0x20000));
    assert_eq!(None, workaround_fn(kVK_F20, flags));
    assert_eq!(None, workaround_fn(kVK_ANSI_A, flags));
}

#[test]
fn pointer_events() {
    let plan = native_event_plan(&EventType::ButtonPress(Button::Left), 0, None, false);
    assert_eq!(Some(NativeEvent::MouseButton(MouseButtonEventKind::LeftMouseDown)), plan.event);
    let plan = native_event_plan(&EventType::ButtonRelease(Button::Right), 0, None, false);
    assert_eq!(Some(NativeEvent::MouseButton(MouseButtonEventKind::RightMouseUp)), plan.event);
    let plan = native_event_plan(&EventType::ButtonPress(Button::Middle), 0, None, false);
    assert_eq!(None, plan.event);
    let plan = native_event_plan(&EventType::ButtonRelease(Button::Unknown(4)), 0, None, false);
    assert_eq!(None, plan.event);
    let plan = native_event_plan(&mouse_move(), 0, None, false);
    assert_eq!(
        Some(NativeEvent::MouseMove { x_bits: TEST_MOUSE_X.to_bits(), y_bits: TEST_MOUSE_Y.to_bits() }),
        plan.event
    );
}

#[test]
fn wheel_deltas_must_fit_in_i32() {
    let plan = native_event_plan(&EventType::Wheel { delta_x: -3, delta_y: 5 }, 0, None, false);
    assert_eq!(Some(NativeEvent::Wheel { delta_x: -3, delta_y: 5 }), plan.event);
    let plan = native_event_plan(
        &EventType::Wheel { delta_x: i32::MIN as i64, delta_y: i32::MAX as i64 },
        0,
        None,
        false,
    );
    assert_eq!(Some(NativeEvent::Wheel { delta_x: i32::MIN, delta_y: i32::MAX }), plan.event);
    let plan = native_event_plan(&EventType::Wheel { delta_x: 0, delta_y: 1 << 31 }, 0, None, false);
    assert_eq!(None, plan.event);
    let plan = native_event_plan(&EventType::Wheel { delta_x: -(1 << 31) - 1, delta_y: 0 }, 0, None, false);
    assert_eq!(None, plan.event);
}

#[test]
fn extra_info_tags_are_independent() {
    let mut info = ExtraInfo::new();
    assert_eq!(0, event_source_user_data(&info, &EventType::KeyPress(Key::KeyA)));
    set_keyboard_extra_info(&mut info, 7);
    assert_eq!(7, event_source_user_data(&info, &EventType::KeyRelease(Key::KeyA)));
    assert_eq!(0, event_source_user_data(&info, &EventType::ButtonPress(Button::Left)));
    set_mouse_extra_info(&mut info, -9);
    assert_eq!(-9, event_source_user_data(&info, &EventType::Wheel { delta_x: 0, delta_y: 0 }));
    assert_eq!(7, event_source_user_data(&info, &EventType::KeyPress(Key::KeyA)));
}

#[test]
fn modifiers_change_only_after_a_posted_event() {
    let mut input = VirtualInputState::new();
    input.record_simulated(&EventType::KeyPress(Key::ShiftLeft), false);
    assert_eq!(MODIFIER_STATE_NONE, input.modifier_state());
    input.record_simulated(&EventType::KeyPress(Key::ShiftLeft), true);
    assert_eq!(MODIFIER_STATE_SHIFT, input.modifier_state());
    input.record_simulated(&EventType::KeyRelease(Key::ShiftLeft), false);
    assert_eq!(MODIFIER_STATE_SHIFT, input.modifier_state());
    input.record_simulated(&EventType::KeyRelease(Key::ShiftLeft), true);
    assert_eq!(MODIFIER_STATE_NONE, input.modifier_state());
}
