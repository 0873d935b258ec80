use lamp_control::gpio::PinOp;
use lamp_control::progress::LED_COUNT;
use lamp_control::ws2815::{write_bit, FrameCursor, Signal, Ws2815, FRAME_SIGNALS};

fn send(colors: &[[u8; 3]; LED_COUNT]) -> Vec<Signal> {
    let mut cursor = FrameCursor::new();
    let mut line = Vec::new();
    while let Some(signal) = cursor.next(colors) {
        line.push(signal);
    }
    assert_eq!(cursor.next(colors), None);
    line
}

fn value(bits: &[Signal]) -> u8 {
    bits.iter().fold(0, |acc, &bit| {
        assert_ne!(bit, Signal::Reset);
        acc * 2 + (bit == Signal::One) as u8
    })
}

#[test]
fn strip_masks() {
    assert_eq!(Ws2815::new(6), Ws2815 { set_mask: 0x40, clear_mask: 0x40_0000 });
    assert_eq!(Ws2815::new(5), Ws2815 { set_mask: 0x20, clear_mask: 0x20_0000 });
    assert_eq!(Ws2815::new(20), Ws2815 { set_mask: 0x10_0000, clear_mask: 0 });
}

#[test]
fn pulses() {
    let strip = Ws2815::new(6);
    assert_eq!(strip.set_high(), PinOp::Write(0x40));
    assert_eq!(strip.set_low(), PinOp::Write(0x40_0000));
    assert_eq!(
        strip.send_reset(),
        [PinOp::Write(0x40_0000), PinOp::Delay(500_000)]
    );
    assert_eq!(
        strip.write_zero(),
        [PinOp::Write(0x40), PinOp::Write(0x40_0000), PinOp::Delay(10)]
    );
    assert_eq!(
        strip.write_one(),
        [
            PinOp::Write(0x40),
            PinOp::Delay(10),
            PinOp::Write(0x40_0000),
            PinOp::Delay(0)
        ]
    );
}

#[test]
fn every_pulse_ends_low() {
    let strip = Ws2815::new(5);
    let last_write = |ops: &[PinOp]| ops.iter().rev().find(|op| matches!(op, PinOp::Write(_))).copied();
    assert_eq!(last_write(&strip.send_reset()), Some(strip.set_low()));
    assert_eq!(last_write(&strip.write_zero()), Some(strip.set_low()));
    assert_eq!(last_write(&strip.write_one()), Some(strip.set_low()));
}

#[test]
fn bits_of_a_byte() {
    assert_eq!(write_bit(0x80, 7), Signal::One);
    assert_eq!(write_bit(0x80, 0), Signal::Zero);
    assert_eq!(write_bit(0x01, 0), Signal::One);
    for byte in 0..=255u8 {
        let bits: Vec<Signal> = (0..8).rev().map(|bit| write_bit(byte, bit)).collect();
        assert_eq!(value(&bits), byte);
    }
}

#[test]
fn frame_is_green_red_blue_between_resets() {
    let mut colors = [[0u8; 3]; LED_COUNT];
    for (i, color) in colors.iter_mut().enumerate() {
        *color = [i as u8, 255 - i as u8, (i * 2) as u8];
    }
    let line = send(&colors);
    assert_eq!(line.len(), FRAME_SIGNALS);
    assert_eq!(line.len(), 2354);
    assert_eq!(line[0], Signal::Reset);
    assert_eq!(line[line.len() - 1], Signal::Reset);
    for (i, bits) in line[1..line.len() - 1].chunks_exact(24).enumerate() {
        assert_eq!(value(&bits[..8]), colors[i][1]);
        assert_eq!(value(&bits[8..16]), colors[i][0]);
        assert_eq!(value(&bits[16..]), colors[i][2]);
    }
}

#[test]
fn dark_frame_is_all_zeros() {
    let line = send(&[[0; 3]; LED_COUNT]);
    assert!(line[1..line.len() - 1].iter().all(|&s| s == Signal::Zero));
}

#[test]
fn most_significant_bit_goes_first() {
    let mut colors = [[0; 3]; LED_COUNT];
    colors[0] = [0, 0x80, 0x01];
    let line = send(&colors);
    assert_eq!(line[1], Signal::One);
    assert!(line[2..24].iter().all(|&s| s == Signal::Zero));
    assert_eq!(line[24], Signal::One);
}
