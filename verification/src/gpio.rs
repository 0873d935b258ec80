//! Output pins of port A, driven through its bit set/reset register: the low half
//! of a word written there sets pins, the high half resets them.

use vstd::prelude::*;

verus! {

/// Pin of the heartbeat LED.
pub const HEARTBEAT_PIN: u8 = 4;

/// Data pin of the second strip.
pub const WS_B_PIN: u8 = 5;

/// Data pin of the first strip.
pub const WS_A_PIN: u8 = 6;

/// Pin of the relay.
pub const RELAY_PIN: u8 = 7;

/// One operation on the port.
#[derive(Clone, Copy, Debug, PartialEq, Eq, Structural)]
pub enum PinOp {
    /// Write this word to the bit set/reset register.
    Write(u32),
    /// Wait this many core cycles.
    Delay(u32),
}

/// The word that drives one pin high or low.
pub open spec fn pin_mask(pin_number: u8, high: bool) -> u32 {
    if high {
        1u32 << pin_number
    } else {
        (1u32 << pin_number) << 16u32
    }
}

/// Whether `mask` has bit `bit` set.
pub open spec fn has_bit(mask: u32, bit: u8) -> bool {
    mask & (1u32 << bit) != 0
}

/// The level of a pin after one operation. Setting wins over resetting.
pub open spec fn level_after(pin_number: u8, level: bool, op: PinOp) -> bool {
    match op {
        PinOp::Write(mask) => if has_bit(mask, pin_number) {
            true
        } else if has_bit(mask, (pin_number + 16) as u8) {
            false
        } else {
            level
        },
        PinOp::Delay(_) => level,
    }
}

/// The level of a pin after a run of operations.
pub open spec fn level_after_all(pin_number: u8, level: bool, ops: Seq<PinOp>) -> bool
    decreases ops.len(),
{
    if ops.len() == 0 {
        level
    } else {
        level_after(
            pin_number,
            level_after_all(pin_number, level, ops.drop_last()),
            ops.last(),
        )
    }
}

/// The operation that drives pin `pin_number` high or low.
pub fn gpioa_write_pin(pin_number: u8, high: bool) -> (op: PinOp)
    requires
        pin_number < 32,
    ensures
        op == PinOp::Write(pin_mask(pin_number, high)),
{
    let bit: u32 = 1u32 << pin_number;
    let mask: u32 = if high {
        bit
    } else {
        bit << 16u32
    };
    PinOp::Write(mask)
}

/// The operation that switches the relay.
pub fn set_relay(on: bool) -> (op: PinOp)
    ensures
        op == PinOp::Write(pin_mask(RELAY_PIN, on)),
{
    gpioa_write_pin(RELAY_PIN, on)
}

/// A pin write brings its own pin to the level asked for and leaves every other
/// pin of the port as it was.
pub proof fn law_pin_write_is_local(pin_number: u8, high: bool, other: u8, level: bool)
    requires
        pin_number < 16,
        other < 16,
    ensures
        level_after(other, level, PinOp::Write(pin_mask(pin_number, high))) == (if other
            == pin_number {
            high
        } else {
            level
        }),
{
    let low_bit = 1u32 << pin_number;
    let high_bit = (1u32 << pin_number) << 16u32;
    let reset = (other + 16) as u8;
    assert((low_bit & (1u32 << other) != 0) == (other == pin_number)) by (bit_vector)
        requires
            pin_number < 16,
            other < 16,
            low_bit == 1u32 << pin_number,
    ;
    assert(low_bit & (1u32 << reset) == 0) by (bit_vector)
        requires
            pin_number < 16,
            16 <= reset < 32,
            low_bit == 1u32 << pin_number,
    ;
    assert(high_bit & (1u32 << other) == 0) by (bit_vector)
        requires
            pin_number < 16,
            other < 16,
            high_bit == (1u32 << pin_number) << 16u32,
    ;
    assert((high_bit & (1u32 << reset) != 0) == (other == pin_number)) by (bit_vector)
        requires
            pin_number < 16,
            other < 16,
            reset == other + 16,
            high_bit == (1u32 << pin_number) << 16u32,
    ;
}

/// The word that drives a pin has one bit: the one of the pin in the low half to set
/// it, the one of the pin in the high half to reset it. A pin past the port has no
/// bit there.
pub proof fn law_pin_word(pin_number: u8, high: bool, bit: u8)
    requires
        pin_number < 32,
        bit < 32,
    ensures
        pin_mask(pin_number, high) & (1u32 << bit) != 0 <==> bit == (if high {
            pin_number as int
        } else {
            pin_number + 16
        }),
{
    if high {
        assert(((1u32 << pin_number) & (1u32 << bit) != 0) == (bit == pin_number)) by (bit_vector)
            requires
                pin_number < 32,
                bit < 32,
        ;
    } else {
        assert((((1u32 << pin_number) << 16u32) & (1u32 << bit) != 0) == (bit == pin_number + 16))
            by (bit_vector)
            requires
                pin_number < 32,
                bit < 32,
        ;
    }
}

} // verus!
