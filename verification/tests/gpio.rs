use lamp_control::gpio::{gpioa_write_pin, set_relay, PinOp, HEARTBEAT_PIN, RELAY_PIN};

#[test]
fn low_half_sets_and_high_half_resets() {
    assert_eq!(gpioa_write_pin(HEARTBEAT_PIN, true), PinOp::Write(0x0000_0010));
    assert_eq!(gpioa_write_pin(HEARTBEAT_PIN, false), PinOp::Write(0x0010_0000));
    assert_eq!(gpioa_write_pin(0, true), PinOp::Write(1));
    assert_eq!(gpioa_write_pin(15, false), PinOp::Write(0x8000_0000));
}

#[test]
fn pins_past_the_port_lose_their_reset_bit() {
    assert_eq!(gpioa_write_pin(31, true), PinOp::Write(0x8000_0000));
    assert_eq!(gpioa_write_pin(16, false), PinOp::Write(0));
}

#[test]
fn relay_is_a_pin() {
    assert_eq!(RELAY_PIN, 7);
    assert_eq!(set_relay(true), PinOp::Write(0x0000_0080));
    assert_eq!(set_relay(false), PinOp::Write(0x0080_0000));
}

#[test]
fn pin_write_is_local() {
    let mut port: u16 = 0b1010_0000_0101_0101;
    for pin in 0..16u8 {
        for high in [true, false] {
            let mask = match gpioa_write_pin(pin, high) {
                PinOp::Write(mask) => mask,
                PinOp::Delay(_) => unreachable!(),
            };
            let next = (port & !((mask >> 16) as u16)) | mask as u16;
            assert_eq!(next & (1 << pin) != 0, high);
            assert_eq!(next & !(1 << pin), port & !(1 << pin));
            port = next;
        }
    }
}
