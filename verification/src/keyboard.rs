use vstd::prelude::*;
use crate::modifiers::{lemma_modifier_bits, lemma_or_chain, modifier_bits, or_if};
use crate::types::{code_from_key, spec_code_from_key, EventType, Key, UnicodeInfo};

verus! {

// NSEvent modifier flags, as key events carry them.
pub const NS_EVENT_MODIFIER_FLAG_CAPS_LOCK: u64 = 0x10000;
pub const NS_EVENT_MODIFIER_FLAG_SHIFT: u64 = 0x20000;
pub const NS_EVENT_MODIFIER_FLAG_CONTROL: u64 = 0x40000;
pub const NS_EVENT_MODIFIER_FLAG_OPTION: u64 = 0x80000;
pub const NS_EVENT_MODIFIER_FLAG_COMMAND: u64 = 0x100000;

// Carbon modifier-key masks (cmdKeyBit = 8, shiftKeyBit = 9, alphaLockBit = 10,
// optionKeyBit = 11, controlKeyBit = 12).
pub const CMD_KEY: u32 = 0x100;
pub const SHIFT_KEY: u32 = 0x200;
pub const ALPHA_LOCK: u32 = 0x400;
pub const OPTION_KEY: u32 = 0x800;
pub const CONTROL_KEY: u32 = 0x1000;

/// How many UTF-16 code units one key translation can produce.
pub const BUF_LEN: usize = 4;

/// Whether `flags` has `flag` set.
pub open spec fn has_flag(flags: u64, flag: u64) -> bool {
    flags & flag != 0
}

/// The `UCKeyTranslate` modifier state for the NSEvent modifier flags `flags`.
pub open spec fn spec_flags_to_state(flags: u64) -> u32 {
    modifier_bits(
        has_flag(flags, NS_EVENT_MODIFIER_FLAG_COMMAND),
        has_flag(flags, NS_EVENT_MODIFIER_FLAG_SHIFT),
        has_flag(flags, NS_EVENT_MODIFIER_FLAG_CAPS_LOCK),
        has_flag(flags, NS_EVENT_MODIFIER_FLAG_OPTION),
        has_flag(flags, NS_EVENT_MODIFIER_FLAG_CONTROL),
    )
}

proof fn lemma_carbon_chain(alt: bool, caps_lock: bool, control: bool, shift: bool, meta: bool)
    ensures
        (or_if(
            or_if(or_if(or_if(or_if(0, alt, OPTION_KEY), caps_lock, ALPHA_LOCK), control, CONTROL_KEY), shift, SHIFT_KEY),
            meta,
            CMD_KEY,
        ) >> 8u32) & 0xFFu32 == modifier_bits(meta, shift, caps_lock, alt, control),
{
    assert((or_if(
        or_if(or_if(or_if(or_if(0, alt, 0x800), caps_lock, 0x400), control, 0x1000), shift, 0x200),
        meta,
        0x100,
    ) >> 8u32) & 0xFFu32 == (if meta { 1u32 } else { 0u32 }) + (if shift { 2u32 } else { 0u32 }) + (
    if caps_lock { 4u32 } else { 0u32 }) + (if alt { 8u32 } else { 0u32 }) + (if control { 16u32 } else { 0u32 }))
        by (bit_vector);
}

/// Converts NSEvent modifier flags into the modifier state that
/// `UCKeyTranslate` takes: Command, Shift, Caps Lock, Option and Control
/// each set their own bit, and no other flag has any effect.
pub fn flags_to_state(flags: u64) -> (r: u32)
    ensures
        r == spec_flags_to_state(flags),
{
    let has_alt = flags & NS_EVENT_MODIFIER_FLAG_OPTION;
    let has_caps_lock = flags & NS_EVENT_MODIFIER_FLAG_CAPS_LOCK;
    let has_control = flags & NS_EVENT_MODIFIER_FLAG_CONTROL;
    let has_shift = flags & NS_EVENT_MODIFIER_FLAG_SHIFT;
    let has_meta = flags & NS_EVENT_MODIFIER_FLAG_COMMAND;
    let mut modifier: u32 = 0;
    if has_alt != 0 {
        modifier = modifier | OPTION_KEY;
    }
    if has_caps_lock != 0 {
        modifier = modifier | ALPHA_LOCK;
    }
    if has_control != 0 {
        modifier = modifier | CONTROL_KEY;
    }
    if has_shift != 0 {
        modifier = modifier | SHIFT_KEY;
    }
    if has_meta != 0 {
        modifier = modifier | CMD_KEY;
    }
    proof {
        lemma_carbon_chain(has_alt != 0, has_caps_lock != 0, has_control != 0, has_shift != 0, has_meta != 0);
    }
    (modifier >> 8u32) & 0xFF
}


/// What a `Keyboard` holds, as plain values.
pub struct KeyboardModel {
    pub is_main_thread: bool,
    pub dead_state: u32,
    pub shift: bool,
    pub alt: bool,
    pub caps_lock: bool,
}

/// A request to translate a virtual keycode through the active keyboard
/// layout with the given modifier state.
#[derive(Clone, Copy, Debug, PartialEq, Eq, Structural)]
pub struct TranslationRequest {
    pub code: u32,
    pub modifier_state: u32,
}

/// Keyboard state that turns key events into the characters they type:
/// Shift, Option and Caps Lock as the events left them, and the dead-key
/// state of the layout translation.
pub struct Keyboard {
    is_main_thread: bool,
    dead_state: u32,
    shift: bool,
    alt: bool,
    caps_lock: bool,
}

impl View for Keyboard {
    type V = KeyboardModel;

    closed spec fn view(&self) -> KeyboardModel {
        KeyboardModel {
            is_main_thread: self.is_main_thread,
            dead_state: self.dead_state,
            shift: self.shift,
            alt: self.alt,
            caps_lock: self.caps_lock,
        }
    }
}

/// The modifier state of a keyboard whose Shift, Caps Lock and Option are as
/// given; a `Keyboard` never reports Command or Control.
pub open spec fn keyboard_modifier_state(k: KeyboardModel) -> u32 {
    modifier_bits(false, k.shift, k.caps_lock, k.alt, false)
}

/// `k` with its modifier flags replaced.
pub open spec fn with_modifiers(k: KeyboardModel, shift: bool, alt: bool, caps_lock: bool) -> KeyboardModel {
    KeyboardModel {
        is_main_thread: k.is_main_thread,
        dead_state: k.dead_state,
        shift,
        alt,
        caps_lock,
    }
}

/// The keyboard after `event`, and the translation that `event` asks for.
///
/// Pressing Shift or Option (either side) sets that modifier and releasing
/// it clears it; pressing Caps Lock toggles Caps Lock and releasing it does
/// nothing. Pressing any other key that has a virtual keycode asks for that
/// keycode to be translated with the current modifiers. Nothing else changes
/// the keyboard or asks for anything.
pub open spec fn spec_keyboard_add(k: KeyboardModel, event: EventType) -> (KeyboardModel, Option<
    TranslationRequest,
>) {
    match event {
        EventType::KeyPress(key) => match key {
            Key::ShiftLeft | Key::ShiftRight => (with_modifiers(k, true, k.alt, k.caps_lock), None),
            Key::Alt | Key::AltGr => (with_modifiers(k, k.shift, true, k.caps_lock), None),
            Key::CapsLock => (with_modifiers(k, k.shift, k.alt, !k.caps_lock), None),
            _ => (
                k,
                match spec_code_from_key(key) {
                    Some(code) => Some(
                        TranslationRequest { code: code as u32, modifier_state: keyboard_modifier_state(k) },
                    ),
                    None => None,
                },
            ),
        },
        EventType::KeyRelease(key) => match key {
            Key::ShiftLeft | Key::ShiftRight => (with_modifiers(k, false, k.alt, k.caps_lock), None),
            Key::Alt | Key::AltGr => (with_modifiers(k, k.shift, false, k.caps_lock), None),
            _ => (k, None),
        },
        _ => (k, None),
    }
}

impl Keyboard {
    /// A keyboard on the main thread with no modifier down and no pending
    /// dead key.
    pub fn new() -> (r: Option<Keyboard>)
        ensures
            r matches Some(k) && k@ == (KeyboardModel {
                is_main_thread: true,
                dead_state: 0,
                shift: false,
                alt: false,
                caps_lock: false,
            }),
    {
        Some(Keyboard { is_main_thread: true, dead_state: 0, shift: false, alt: false, caps_lock: false })
    }

    /// Records whether translations run on the main thread already.
    pub fn set_is_main_thread(&mut self, b: bool)
        ensures
            final(self)@ == (KeyboardModel { is_main_thread: b, ..old(self)@ }),
    {
        self.is_main_thread = b;
    }

    /// Whether translations run on the main thread already.
    pub fn is_main_thread(&self) -> (r: bool)
        ensures
            r == self@.is_main_thread,
    {
        self.is_main_thread
    }

    /// The modifier state that key translations use: Shift, Caps Lock and
    /// Option, each on its own bit.
    pub fn modifier_state(&self) -> (r: u32)
        ensures
            r == keyboard_modifier_state(self@),
    {
        let mut modifier_state: u32 = crate::modifiers::MODIFIER_STATE_NONE;
        if self.shift {
            modifier_state = modifier_state | crate::modifiers::MODIFIER_STATE_SHIFT;
        }
        if self.caps_lock {
            modifier_state = modifier_state | crate::modifiers::MODIFIER_STATE_CAPS_LOCK;
        }
        if self.alt {
            modifier_state = modifier_state | crate::modifiers::MODIFIER_STATE_ALT;
        }
        proof {
            lemma_or_chain(false, self.shift, self.caps_lock, self.alt, false);
        }
        modifier_state
    }

    /// The translation that a key with virtual keycode `code` asks for when
    /// its event carries the NSEvent modifier flags `flags`: none when
    /// Command or Control is held (a shortcut types nothing), else one with
    /// the modifier state of `flags`.
    pub fn create_unicode_for_key(&self, code: u32, flags: u64) -> (r: Option<TranslationRequest>)
        ensures
            r is None <==> (has_flag(flags, NS_EVENT_MODIFIER_FLAG_COMMAND) || has_flag(
                flags,
                NS_EVENT_MODIFIER_FLAG_CONTROL,
            )),
            r matches Some(q) ==> q == (TranslationRequest {
                code,
                modifier_state: spec_flags_to_state(flags),
            }),
    {
        if flags & NS_EVENT_MODIFIER_FLAG_COMMAND != 0 || flags & NS_EVENT_MODIFIER_FLAG_CONTROL != 0 {
            return None;
        }
        let modifier_state = flags_to_state(flags);
        Some(TranslationRequest { code, modifier_state })
    }

    /// Feeds one event to the keyboard; see `spec_keyboard_add`.
    pub fn add(&mut self, event_type: &EventType) -> (r: Option<TranslationRequest>)
        ensures
            (final(self)@, r) == spec_keyboard_add(old(self)@, *event_type),
    {
        match event_type {
            EventType::KeyPress(key) => match key {
                Key::ShiftLeft | Key::ShiftRight => {
                    self.shift = true;
                    None
                },
                Key::Alt | Key::AltGr => {
                    self.alt = true;
                    None
                },
                Key::CapsLock => {
                    self.caps_lock = !self.caps_lock;
                    None
                },
                _ => {
                    match code_from_key(*key) {
                        Some(code) => Some(
                            TranslationRequest { code: code as u32, modifier_state: self.modifier_state() },
                        ),
                        None => None,
                    }
                },
            },
            EventType::KeyRelease(key) => match key {
                Key::ShiftLeft | Key::ShiftRight => {
                    self.shift = false;
                    None
                },
                Key::Alt | Key::AltGr => {
                    self.alt = false;
                    None
                },
                _ => None,
            },
            _ => None,
        }
    }

    /// The dead-key state that the next translation starts from.
    pub fn dead_state(&self) -> (r: u32)
        ensures
            r == self@.dead_state,
    {
        self.dead_state
    }

    /// Stores the dead-key state that a translation left behind.
    pub fn set_dead_state(&mut self, dead_state: u32)
        ensures
            final(self)@ == (KeyboardModel { dead_state, ..old(self)@ }),
    {
        self.dead_state = dead_state;
    }

    /// Whether a dead key is pending, waiting for the key it modifies.
    pub fn is_dead(&self) -> (r: bool)
        ensures
            r == (self@.dead_state != 0),
    {
        self.dead_state != 0
    }
}

/// An input source that may supply the Unicode keyboard layout.
#[derive(Clone, Copy, Debug, PartialEq, Eq, Structural)]
pub enum LayoutSource {
    /// The current keyboard input source.
    CurrentKeyboard,
    /// The current keyboard layout input source (input methods such as
    /// Japanese ones have no layout of their own).
    CurrentKeyboardLayout,
    /// The current ASCII-capable keyboard layout input source.
    AsciiCapableKeyboardLayout,
}

/// The input source to ask for a layout after `tried` gave none (`None`
/// before any): the current keyboard, then the current keyboard layout,
/// then the ASCII-capable layout; after that there is no layout.
pub open spec fn spec_next_layout_source(tried: Option<LayoutSource>) -> Option<LayoutSource> {
    match tried {
        None => Some(LayoutSource::CurrentKeyboard),
        Some(LayoutSource::CurrentKeyboard) => Some(LayoutSource::CurrentKeyboardLayout),
        Some(LayoutSource::CurrentKeyboardLayout) => Some(LayoutSource::AsciiCapableKeyboardLayout),
        Some(LayoutSource::AsciiCapableKeyboardLayout) => None,
    }
}

/// The input source to ask for a layout next; see `spec_next_layout_source`.
pub fn next_layout_source(tried: Option<LayoutSource>) -> (r: Option<LayoutSource>)
    ensures
        r == spec_next_layout_source(tried),
{
    match tried {
        None => Some(LayoutSource::CurrentKeyboard),
        Some(LayoutSource::CurrentKeyboard) => Some(LayoutSource::CurrentKeyboardLayout),
        Some(LayoutSource::CurrentKeyboardLayout) => Some(LayoutSource::AsciiCapableKeyboardLayout),
        Some(LayoutSource::AsciiCapableKeyboardLayout) => None,
    }
}

/// The layout lookup asks each of the three sources once, in order, and
/// gives up after the third.
pub proof fn lemma_layout_sources_in_order()
    ensures
        spec_next_layout_source(None) == Some(LayoutSource::CurrentKeyboard),
        spec_next_layout_source(spec_next_layout_source(None)) == Some(LayoutSource::CurrentKeyboardLayout),
        spec_next_layout_source(spec_next_layout_source(spec_next_layout_source(None))) == Some(
            LayoutSource::AsciiCapableKeyboardLayout,
        ),
        spec_next_layout_source(
            spec_next_layout_source(spec_next_layout_source(spec_next_layout_source(None))),
        ) is None,
{
}

/// A leading surrogate code unit.
pub open spec fn is_high_surrogate(unit: u16) -> bool {
    0xD800 <= unit <= 0xDBFF
}

/// A trailing surrogate code unit.
pub open spec fn is_low_surrogate(unit: u16) -> bool {
    0xDC00 <= unit <= 0xDFFF
}

/// Whether `units` is well-formed UTF-16: every leading surrogate is
/// directly followed by a trailing one, and no trailing surrogate stands
/// alone.
pub open spec fn is_well_formed_utf16(units: Seq<u16>) -> bool
    decreases units.len(),
{
    if units.len() == 0 {
        true
    } else if is_high_surrogate(units[0]) {
        units.len() >= 2 && is_low_surrogate(units[1]) && is_well_formed_utf16(units.skip(2))
    } else if is_low_surrogate(units[0]) {
        false
    } else {
        is_well_formed_utf16(units.skip(1))
    }
}

/// The characters that well-formed UTF-16 `units` encode: a surrogate pair
/// stands for one supplementary-plane character, every other unit for the
/// character with its own value.
pub open spec fn utf16_chars(units: Seq<u16>) -> Seq<char>
    decreases units.len(),
{
    if units.len() == 0 {
        seq![]
    } else if is_high_surrogate(units[0]) && units.len() >= 2 && is_low_surrogate(units[1]) {
        seq![(0x10000 + (units[0] - 0xD800) * 0x400 + (units[1] - 0xDC00)) as char]
            + utf16_chars(units.skip(2))
    } else {
        seq![units[0] as char] + utf16_chars(units.skip(1))
    }
}

/// Calls `String::from_utf16` and keeps the text: it decodes `units` as
/// UTF-16 and fails exactly when `units` holds an unpaired surrogate, that
/// is when `units` is not well-formed UTF-16.
#[verifier::external_body]
fn string_from_utf16(units: &[u16]) -> (r: Option<String>)
    ensures
        r is Some <==> is_well_formed_utf16(units@),
        r matches Some(s) ==> s@ == utf16_chars(units@),
{
    String::from_utf16(units).ok()
}

/// `code` as the 16-bit keycode that layout translation takes; a code that
/// does not fit in 16 bits has no translation.
pub fn layout_keycode(code: u32) -> (r: Option<u16>)
    ensures
        r == (if code <= 0xFFFF {
            Some(code as u16)
        } else {
            None
        }),
{
    if code <= 0xFFFF {
        Some(code as u16)
    } else {
        None
    }
}

/// Whether a translation of `length` units produced a single C0 control
/// character (U+0001 to U+001F): the code unit of such a character is the
/// character itself.
pub open spec fn is_control_translation(units: Seq<u16>, length: usize) -> bool {
    length == 1 && 1 <= units[0] <= 0x1f
}

/// Turns what a layout translation produced (`length` UTF-16 units at the
/// start of `units`, and the dead-key state it left) into the characters
/// the key types.
///
/// No units: a dead key is pending when the dead-key state is not zero,
/// else the key types nothing. A single control character types nothing.
/// Otherwise the key types exactly the produced units.
pub fn unicode_info_from_translation(units: &[u16], length: usize, dead_state: u32) -> (r: Option<
    UnicodeInfo,
>)
    requires
        length <= units@.len(),
    ensures
        length == 0 ==> match r {
            Some(info) => dead_state != 0 && info.is_dead && info.unicode@.len() == 0 && info.name is None,
            None => dead_state == 0,
        },
        is_control_translation(units@, length) ==> r is None,
        r is None <==> ((length == 0 && dead_state == 0) || (length == 1 && 1 <= units@[0] <= 0x1f)),
        (length > 0 && !(length == 1 && 1 <= units@[0] <= 0x1f)) ==> (r matches Some(info)
            && !info.is_dead && info.unicode@ == units@.take(length as int)),
        length > 0 && !is_control_translation(units@, length) ==> (r matches Some(info) && !info.is_dead
            && info.unicode@ == units@.take(length as int) && (info.name is Some
            <==> is_well_formed_utf16(info.unicode@)) && (info.name matches Some(s) ==> s@
            == utf16_chars(info.unicode@))),
{
    if length == 0 {
        return if dead_state != 0 {
            Some(UnicodeInfo { name: None, unicode: Vec::new(), is_dead: true })
        } else {
            None
        };
    }
    if length == 1 && 1 <= units[0] && units[0] <= 0x1f {
        return None;
    }
    let mut unicode: Vec<u16> = Vec::new();
    let mut i: usize = 0;
    while i < length
        invariant
            i <= length,
            length <= units@.len(),
            unicode@ == units@.take(i as int),
        decreases length - i,
    {
        assert(units@.take(i + 1) =~= units@.take(i as int).push(units@[i as int]));
        unicode.push(units[i]);
        i = i + 1;
    }
    let name = string_from_utf16(unicode.as_slice());
    Some(UnicodeInfo { name, unicode, is_dead: false })
}

/// Each modifier flag of an event sets its own bit of the translation
/// state (Command, Shift, Caps Lock, Option, Control), and nothing else
/// sets any bit.
pub proof fn lemma_flags_to_state_bits(flags: u64)
    ensures
        (spec_flags_to_state(flags) & crate::modifiers::MODIFIER_STATE_COMMAND != 0) == has_flag(
            flags,
            NS_EVENT_MODIFIER_FLAG_COMMAND,
        ),
        (spec_flags_to_state(flags) & crate::modifiers::MODIFIER_STATE_SHIFT != 0) == has_flag(
            flags,
            NS_EVENT_MODIFIER_FLAG_SHIFT,
        ),
        (spec_flags_to_state(flags) & crate::modifiers::MODIFIER_STATE_CAPS_LOCK != 0) == has_flag(
            flags,
            NS_EVENT_MODIFIER_FLAG_CAPS_LOCK,
        ),
        (spec_flags_to_state(flags) & crate::modifiers::MODIFIER_STATE_ALT != 0) == has_flag(
            flags,
            NS_EVENT_MODIFIER_FLAG_OPTION,
        ),
        (spec_flags_to_state(flags) & crate::modifiers::MODIFIER_STATE_CONTROL != 0) == has_flag(
            flags,
            NS_EVENT_MODIFIER_FLAG_CONTROL,
        ),
        spec_flags_to_state(flags) < 32,
{
    lemma_modifier_bits(
        has_flag(flags, NS_EVENT_MODIFIER_FLAG_COMMAND),
        has_flag(flags, NS_EVENT_MODIFIER_FLAG_SHIFT),
        has_flag(flags, NS_EVENT_MODIFIER_FLAG_CAPS_LOCK),
        has_flag(flags, NS_EVENT_MODIFIER_FLAG_OPTION),
        has_flag(flags, NS_EVENT_MODIFIER_FLAG_CONTROL),
    );
}

/// Laws of feeding events to a `Keyboard`: a modifier is down from its
/// press to its release (either side); two Caps Lock presses cancel and a
/// Caps Lock release does nothing; no event touches the dead-key state or
/// the thread setting; and a translation is never asked for with Command or
/// Control in its state.
pub proof fn lemma_keyboard_add(k: KeyboardModel, key: Key)
    ensures
        ({
            let press = spec_keyboard_add(k, EventType::KeyPress(key)).0;
            let release = spec_keyboard_add(press, EventType::KeyRelease(key)).0;
            &&& (key == Key::ShiftLeft || key == Key::ShiftRight) ==> press.shift && !release.shift
                && release == with_modifiers(k, false, k.alt, k.caps_lock)
            &&& (key == Key::Alt || key == Key::AltGr) ==> press.alt && !release.alt && release
                == with_modifiers(k, k.shift, false, k.caps_lock)
            &&& key == Key::CapsLock ==> press.caps_lock == !k.caps_lock && release == press
                && spec_keyboard_add(press, EventType::KeyPress(key)).0 == k
        }),
        forall|e: EventType|
            {
                let (after, request) = #[trigger] spec_keyboard_add(k, e);
                &&& after.dead_state == k.dead_state
                &&& after.is_main_thread == k.is_main_thread
                &&& (request matches Some(q) ==> q.modifier_state & crate::modifiers::MODIFIER_STATE_COMMAND
                    == 0 && q.modifier_state & crate::modifiers::MODIFIER_STATE_CONTROL == 0)
            },
{
    lemma_modifier_bits(false, k.shift, k.caps_lock, k.alt, false);
}

/// Releasing a key other than Shift or Option changes nothing and asks for
/// nothing: not Caps Lock, not a letter, not any other key.
pub proof fn lemma_other_releases_change_nothing(k: KeyboardModel, key: Key)
    requires
        key != Key::ShiftLeft,
        key != Key::ShiftRight,
        key != Key::Alt,
        key != Key::AltGr,
    ensures
        spec_keyboard_add(k, EventType::KeyRelease(key)) == (k, None::<TranslationRequest>),
{
}

/// Shift (and Option) stay down from their press until a release of Shift
/// (of Option), whatever other keys are pressed or released in between,
/// and every translation asked for meanwhile carries the Shift (Option) bit.
pub proof fn lemma_modifiers_held_until_released(k: KeyboardModel, e: EventType)
    ensures
        k.shift && e != EventType::KeyRelease(Key::ShiftLeft) && e != EventType::KeyRelease(Key::ShiftRight)
            ==> spec_keyboard_add(k, e).0.shift,
        k.alt && e != EventType::KeyRelease(Key::Alt) && e != EventType::KeyRelease(Key::AltGr)
            ==> spec_keyboard_add(k, e).0.alt,
        k.shift ==> (spec_keyboard_add(k, e).1 matches Some(q) ==> q.modifier_state & 2 != 0),
        k.alt ==> (spec_keyboard_add(k, e).1 matches Some(q) ==> q.modifier_state & 8 != 0),
        !k.shift ==> (spec_keyboard_add(k, e).1 matches Some(q) ==> q.modifier_state & 2 == 0),
        !k.alt ==> (spec_keyboard_add(k, e).1 matches Some(q) ==> q.modifier_state & 8 == 0),
{
    lemma_modifier_bits(false, k.shift, k.caps_lock, k.alt, false);
}

/// Pressing a key other than Shift, Option or Caps Lock leaves the keyboard
/// as it is and asks to translate exactly that key's keycode, with Shift,
/// Option and Caps Lock as held; a key without a keycode asks for nothing.
pub proof fn lemma_key_press_asks_for_its_keycode(k: KeyboardModel, key: Key)
    requires
        key != Key::ShiftLeft,
        key != Key::ShiftRight,
        key != Key::Alt,
        key != Key::AltGr,
        key != Key::CapsLock,
    ensures
        spec_keyboard_add(k, EventType::KeyPress(key)).0 == k,
        spec_code_from_key(key) matches Some(code) ==> (spec_keyboard_add(k, EventType::KeyPress(key)).1
            matches Some(q) && q.code == code as u32 && (q.modifier_state & 2 != 0) == k.shift
            && (q.modifier_state & 4 != 0) == k.caps_lock && (q.modifier_state & 8 != 0) == k.alt
            && q.modifier_state & 1 == 0 && q.modifier_state & 16 == 0),
        spec_code_from_key(key) is None ==> spec_keyboard_add(k, EventType::KeyPress(key)).1 is None,
{
    lemma_modifier_bits(false, k.shift, k.caps_lock, k.alt, false);
}

} // verus!
