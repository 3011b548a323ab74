use vstd::prelude::*;

verus! {

// `UCKeyTranslate` expects Carbon `modifierKeyState` values: the Carbon
// cmdKey/shiftKey/alphaLock/optionKey/controlKey masks shifted right by 8.
pub const MODIFIER_STATE_NONE: u32 = 0;
pub const MODIFIER_STATE_COMMAND: u32 = 1;
pub const MODIFIER_STATE_SHIFT: u32 = 2;
pub const MODIFIER_STATE_CAPS_LOCK: u32 = 4;
pub const MODIFIER_STATE_ALT: u32 = 8;
pub const MODIFIER_STATE_CONTROL: u32 = 16;

/// `bit` when `on`, else nothing.
pub open spec fn flag_bit(on: bool, bit: u32) -> u32 {
    if on {
        bit
    } else {
        0
    }
}

/// The modifier-key state that holds exactly the given modifiers.
pub open spec fn modifier_bits(
    command: bool,
    shift: bool,
    caps_lock: bool,
    alt: bool,
    control: bool,
) -> u32 {
    (flag_bit(command, MODIFIER_STATE_COMMAND) + flag_bit(shift, MODIFIER_STATE_SHIFT) + flag_bit(
        caps_lock,
        MODIFIER_STATE_CAPS_LOCK,
    ) + flag_bit(alt, MODIFIER_STATE_ALT) + flag_bit(control, MODIFIER_STATE_CONTROL)) as u32
}

/// `m | bit` when `on`, else `m`: one step of accumulating a modifier state.
pub open spec fn or_if(m: u32, on: bool, bit: u32) -> u32 {
    if on {
        m | bit
    } else {
        m
    }
}

/// Setting the modifier bits one after another, in any of the orders this
/// library uses, gives `modifier_bits`.
pub proof fn lemma_or_chain(command: bool, shift: bool, caps_lock: bool, alt: bool, control: bool)
    ensures
        or_if(or_if(or_if(or_if(or_if(0, command, 1), shift, 2), caps_lock, 4), alt, 8), control, 16)
            == modifier_bits(command, shift, caps_lock, alt, control),
        or_if(or_if(or_if(0, shift, 2), caps_lock, 4), alt, 8) == modifier_bits(
            false,
            shift,
            caps_lock,
            alt,
            false,
        ),
{
    assert(or_if(or_if(or_if(or_if(or_if(0, command, 1), shift, 2), caps_lock, 4), alt, 8), control, 16)
        == flag_bit(command, 1) + flag_bit(shift, 2) + flag_bit(caps_lock, 4) + flag_bit(alt, 8)
        + flag_bit(control, 16)) by (bit_vector);
    assert(or_if(or_if(or_if(0, shift, 2), caps_lock, 4), alt, 8) == flag_bit(false, 1) + flag_bit(
        shift,
        2,
    ) + flag_bit(caps_lock, 4) + flag_bit(alt, 8) + flag_bit(false, 16)) by (bit_vector);
}

/// Each modifier owns one bit of the state, and no other bit is ever set.
pub proof fn lemma_modifier_bits(command: bool, shift: bool, caps_lock: bool, alt: bool, control: bool)
    ensures
        (modifier_bits(command, shift, caps_lock, alt, control) & MODIFIER_STATE_COMMAND != 0)
            == command,
        (modifier_bits(command, shift, caps_lock, alt, control) & MODIFIER_STATE_SHIFT != 0)
            == shift,
        (modifier_bits(command, shift, caps_lock, alt, control) & MODIFIER_STATE_CAPS_LOCK != 0)
            == caps_lock,
        (modifier_bits(command, shift, caps_lock, alt, control) & MODIFIER_STATE_ALT != 0) == alt,
        (modifier_bits(command, shift, caps_lock, alt, control) & MODIFIER_STATE_CONTROL != 0)
            == control,
        modifier_bits(command, shift, caps_lock, alt, control) < 32,
{
    let m = modifier_bits(command, shift, caps_lock, alt, control);
    assert(m == flag_bit(command, 1) + flag_bit(shift, 2) + flag_bit(caps_lock, 4) + flag_bit(alt, 8)
        + flag_bit(control, 16));
    assert((m & 1 != 0) == command && (m & 2 != 0) == shift && (m & 4 != 0) == caps_lock && (m
        & 8 != 0) == alt && (m & 16 != 0) == control && m < 32) by (bit_vector)
        requires
            m == flag_bit(command, 1) + flag_bit(shift, 2) + flag_bit(caps_lock, 4) + flag_bit(
                alt,
                8,
            ) + flag_bit(control, 16),
    ;
}

} // verus!
