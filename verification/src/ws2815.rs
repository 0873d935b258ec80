//! The addressable LED strips: how a frame becomes pulses on a strip's data pin.

use crate::gpio::{law_pin_write_is_local, level_after_all, pin_mask, PinOp};
use crate::progress::LED_COUNT;
use vstd::prelude::*;

verus! {

/// Cycles for which the line is held low around a frame.
pub const WS_RESET_DELAY: u32 = 500_000;

/// Cycles for which the line stays low after a zero.
pub const WS_T0L: u32 = 10;

/// Cycles for which the line stays high for a one.
pub const WS_T1H: u32 = 10;

/// Cycles for which the line stays low after a one.
pub const WS_T1L: u32 = 0;

/// Signals in the transmission of one frame: 24 bits for each LED between two
/// resets.
pub const FRAME_SIGNALS: usize = LED_COUNT * 24 + 2;

/// What the data line of a strip carries.
#[derive(Clone, Copy, Debug, PartialEq, Eq, Structural)]
pub enum Signal {
    Reset,
    Zero,
    One,
}

/// The signal of bit `bit` of a byte.
pub open spec fn bit_signal(byte: u8, bit: u8) -> Signal {
    if byte & (1u8 << bit) != 0 {
        Signal::One
    } else {
        Signal::Zero
    }
}

/// A byte on the line, most significant bit first.
pub open spec fn byte_signals(byte: u8) -> Seq<Signal> {
    Seq::new(8, |i: int| bit_signal(byte, (7 - i) as u8))
}

/// A colour on the line. The strips take green, red, blue.
pub open spec fn color_signals(color: [u8; 3]) -> Seq<Signal> {
    byte_signals(color[1]) + byte_signals(color[0]) + byte_signals(color[2])
}

/// The colours on the line, one after the other.
pub open spec fn data_signals(colors: Seq<[u8; 3]>) -> Seq<Signal>
    decreases colors.len(),
{
    if colors.len() == 0 {
        Seq::empty()
    } else {
        data_signals(colors.drop_last()) + color_signals(colors.last())
    }
}

/// A frame on the line: the colours between two resets.
pub open spec fn frame_signals(colors: Seq<[u8; 3]>) -> Seq<Signal> {
    seq![Signal::Reset] + data_signals(colors) + seq![Signal::Reset]
}

/// One strip, by the words that drive its data pin high and low.
#[derive(Clone, Copy, Debug, PartialEq, Eq, Structural)]
pub struct Ws2815 {
    pub set_mask: u32,
    pub clear_mask: u32,
}

impl Ws2815 {
    /// The pin operations that make up a signal.
    pub open spec fn signal_ops(self, signal: Signal) -> Seq<PinOp> {
        match signal {
            Signal::Reset => seq![PinOp::Write(self.clear_mask), PinOp::Delay(WS_RESET_DELAY)],
            Signal::Zero => seq![
                PinOp::Write(self.set_mask),
                PinOp::Write(self.clear_mask),
                PinOp::Delay(WS_T0L),
            ],
            Signal::One => seq![
                PinOp::Write(self.set_mask),
                PinOp::Delay(WS_T1H),
                PinOp::Write(self.clear_mask),
                PinOp::Delay(WS_T1L),
            ],
        }
    }

    /// The pin operations that make up a run of signals.
    pub open spec fn all_ops(self, signals: Seq<Signal>) -> Seq<PinOp>
        decreases signals.len(),
    {
        if signals.len() == 0 {
            Seq::empty()
        } else {
            self.all_ops(signals.drop_last()) + self.signal_ops(signals.last())
        }
    }

    /// The strip whose data line is pin `pin_number`.
    pub fn new(pin_number: u8) -> (strip: Self)
        requires
            pin_number < 32,
        ensures
            strip.set_mask == pin_mask(pin_number, true),
            strip.clear_mask == pin_mask(pin_number, false),
    {
        let bit: u32 = 1u32 << pin_number;
        Self { set_mask: bit, clear_mask: bit << 16u32 }
    }

    /// The operation that drives the line high.
    #[inline(always)]
    pub fn set_high(&self) -> (op: PinOp)
        ensures
            op == PinOp::Write(self.set_mask),
    {
        PinOp::Write(self.set_mask)
    }

    /// The operation that drives the line low.
    #[inline(always)]
    pub fn set_low(&self) -> (op: PinOp)
        ensures
            op == PinOp::Write(self.clear_mask),
    {
        PinOp::Write(self.clear_mask)
    }

    /// The operations of a reset.
    #[inline(always)]
    pub fn send_reset(&self) -> (ops: [PinOp; 2])
        ensures
            ops@ == self.signal_ops(Signal::Reset),
    {
        [self.set_low(), PinOp::Delay(WS_RESET_DELAY)]
    }

    /// The operations of a zero bit.
    #[inline(always)]
    pub fn write_zero(&self) -> (ops: [PinOp; 3])
        ensures
            ops@ == self.signal_ops(Signal::Zero),
    {
        [self.set_high(), self.set_low(), PinOp::Delay(WS_T0L)]
    }

    /// The operations of a one bit.
    #[inline(always)]
    pub fn write_one(&self) -> (ops: [PinOp; 4])
        ensures
            ops@ == self.signal_ops(Signal::One),
    {
        [self.set_high(), PinOp::Delay(WS_T1H), self.set_low(), PinOp::Delay(WS_T1L)]
    }
}

/// The signal for bit `bit` of `byte`.
#[inline(always)]
pub fn write_bit(byte: u8, bit: u8) -> (signal: Signal)
    requires
        bit < 8,
    ensures
        signal == bit_signal(byte, bit),
{
    if (byte & (1u8 << bit)) != 0 {
        Signal::One
    } else {
        Signal::Zero
    }
}

/// How far the transmission of a frame has come.
pub struct FrameCursor {
    started: bool,
    led: usize,
    channel: usize,
    bit: u8,
    finished: bool,
}

impl FrameCursor {
    /// The cursor stands on one of the signals of a frame, or behind them all.
    pub closed spec fn wf(&self) -> bool {
        &&& self.led <= LED_COUNT
        &&& self.channel < 3
        &&& self.bit < 8
        &&& self.led == LED_COUNT ==> self.channel == 0 && self.bit == 7
        &&& !self.started ==> self.led == 0 && self.channel == 0 && self.bit == 7
        &&& self.finished ==> self.started && self.led == LED_COUNT
    }

    /// The number of signals that have been sent.
    pub closed spec fn position(&self) -> nat {
        if !self.started {
            0
        } else if self.finished {
            FRAME_SIGNALS as nat
        } else {
            (1 + self.led * 24 + self.channel * 8 + (7 - self.bit)) as nat
        }
    }

    /// The start of a frame.
    pub fn new() -> (cursor: Self)
        ensures
            cursor.wf(),
            cursor.position() == 0,
    {
        FrameCursor { started: false, led: 0, channel: 0, bit: 7, finished: false }
    }

    /// The next signal of the frame `colors`: a reset, then for each LED its green,
    /// red and blue byte with the most significant bit first, then a reset.
    #[inline]
    pub fn next(&mut self, colors: &[[u8; 3]; LED_COUNT]) -> (signal: Option<Signal>)
        requires
            old(self).wf(),
        ensures
            final(self).wf(),
            signal == (if old(self).position() < FRAME_SIGNALS {
                Some(frame_signals(colors@)[old(self).position() as int])
            } else {
                None
            }),
            final(self).position() == (if old(self).position() < FRAME_SIGNALS {
                old(self).position() + 1
            } else {
                old(self).position()
            }),
    {
        proof {
            lemma_data_length(colors@);
        }
        if !self.started {
            self.started = true;
            return Some(Signal::Reset);
        }
        if self.led < LED_COUNT {
            let color: [u8; 3] = colors[self.led];
            let byte: u8 = if self.channel == 0 {
                color[1]
            } else if self.channel == 1 {
                color[0]
            } else {
                color[2]
            };
            let signal: Signal = write_bit(byte, self.bit);
            proof {
                lemma_data_signals(colors@, self.led as int, self.channel * 8 + (7 - self.bit));
            }
            if self.bit > 0 {
                self.bit -= 1;
            } else {
                self.bit = 7;
                if self.channel < 2 {
                    self.channel += 1;
                } else {
                    self.channel = 0;
                    self.led += 1;
                }
            }
            return Some(signal);
        }
        if !self.finished {
            self.finished = true;
            return Some(Signal::Reset);
        }
        None
    }
}

proof fn lemma_data_length(colors: Seq<[u8; 3]>)
    ensures
        data_signals(colors).len() == colors.len() * 24,
    decreases colors.len(),
{
    if colors.len() > 0 {
        lemma_data_length(colors.drop_last());
    }
}

proof fn lemma_data_signals(colors: Seq<[u8; 3]>, led: int, offset: int)
    requires
        0 <= led < colors.len(),
        0 <= offset < 24,
    ensures
        data_signals(colors)[led * 24 + offset] == color_signals(colors[led])[offset],
    decreases colors.len(),
{
    lemma_data_length(colors.drop_last());
    if led < colors.len() - 1 {
        lemma_data_signals(colors.drop_last(), led, offset);
    }
}

/// The number that a run of bits spells, most significant bit first.
pub open spec fn signals_value(signals: Seq<Signal>) -> nat
    decreases signals.len(),
{
    if signals.len() == 0 {
        0
    } else {
        2 * signals_value(signals.drop_last()) + (if signals.last() == Signal::One {
            1nat
        } else {
            0nat
        })
    }
}

/// The signals of a byte spell that byte.
pub proof fn law_byte_reads_back(byte: u8)
    ensures
        byte_signals(byte).len() == 8,
        signals_value(byte_signals(byte)) == byte,
{
    let s = byte_signals(byte);
    assert(s.take(8) == s);
    assert forall|n: int| 0 < n <= 8 implies #[trigger] s.take(n).drop_last() == s.take(n - 1)
        && s.take(n).last() == bit_signal(byte, (8 - n) as u8) by {}
    reveal_with_fuel(signals_value, 9);
    assert(s.take(0).len() == 0);
    let b = byte;
    assert(b == (if b & (1u8 << 7u8) != 0 { 128int } else { 0 }) + (if b & (1u8 << 6u8) != 0 {
        64int
    } else {
        0
    }) + (if b & (1u8 << 5u8) != 0 { 32int } else { 0 }) + (if b & (1u8 << 4u8) != 0 {
        16int
    } else {
        0
    }) + (if b & (1u8 << 3u8) != 0 { 8int } else { 0 }) + (if b & (1u8 << 2u8) != 0 {
        4int
    } else {
        0
    }) + (if b & (1u8 << 1u8) != 0 { 2int } else { 0 }) + (if b & (1u8 << 0u8) != 0 {
        1int
    } else {
        0
    })) by (bit_vector);
}

/// A frame of `n` LEDs takes 24 signals for each of them and two resets.
pub proof fn law_frame_length(colors: Seq<[u8; 3]>)
    ensures
        frame_signals(colors).len() == colors.len() * 24 + 2,
{
    lemma_data_length(colors);
}

proof fn lemma_color_reads_back(a: [u8; 3], b: [u8; 3])
    requires
        color_signals(a) == color_signals(b),
    ensures
        a == b,
{
    let line = color_signals(a);
    assert(byte_signals(a[1]) == line.subrange(0, 8));
    assert(byte_signals(a[0]) == line.subrange(8, 16));
    assert(byte_signals(a[2]) == line.subrange(16, 24));
    assert(byte_signals(b[1]) == line.subrange(0, 8));
    assert(byte_signals(b[0]) == line.subrange(8, 16));
    assert(byte_signals(b[2]) == line.subrange(16, 24));
    assert forall|i: int| 0 <= i < 3 implies a[i] == b[i] by {
        law_byte_reads_back(a[i]);
        law_byte_reads_back(b[i]);
    }
    assert(a =~= b);
}

/// Two frames that put the same signals on the line are the same frame.
pub proof fn law_frame_reads_back(a: Seq<[u8; 3]>, b: Seq<[u8; 3]>)
    requires
        frame_signals(a) == frame_signals(b),
    ensures
        a == b,
{
    law_frame_length(a);
    law_frame_length(b);
    let line = frame_signals(a);
    assert(data_signals(a) == line.subrange(1, line.len() - 1));
    assert(data_signals(b) == line.subrange(1, line.len() - 1));
    assert forall|led: int| 0 <= led < a.len() implies a[led] == b[led] by {
        assert forall|offset: int| 0 <= offset < 24 implies color_signals(a[led])[offset]
            == color_signals(b[led])[offset] by {
            lemma_data_signals(a, led, offset);
            lemma_data_signals(b, led, offset);
        }
        assert(color_signals(a[led]) == color_signals(b[led]));
        lemma_color_reads_back(a[led], b[led]);
    }
}

proof fn lemma_level_after_concat(pin_number: u8, level: bool, a: Seq<PinOp>, b: Seq<PinOp>)
    ensures
        level_after_all(pin_number, level, a + b) == level_after_all(
            pin_number,
            level_after_all(pin_number, level, a),
            b,
        ),
    decreases b.len(),
{
    if b.len() == 0 {
        assert(a + b == a);
    } else {
        assert((a + b).drop_last() == a + b.drop_last());
        lemma_level_after_concat(pin_number, level, a, b.drop_last());
    }
}

proof fn lemma_signal_levels(
    strip: Ws2815,
    pin_number: u8,
    signal: Signal,
    other: u8,
    level: bool,
)
    requires
        pin_number < 16,
        other < 16,
        strip.set_mask == pin_mask(pin_number, true),
        strip.clear_mask == pin_mask(pin_number, false),
    ensures
        level_after_all(other, level, strip.signal_ops(signal)) == (if other == pin_number {
            false
        } else {
            level
        }),
{
    let ops = strip.signal_ops(signal);
    law_pin_write_is_local(pin_number, true, other, level);
    law_pin_write_is_local(pin_number, false, other, level);
    law_pin_write_is_local(pin_number, false, other, true);
    reveal_with_fuel(level_after_all, 5);
}

/// Sending any run of signals leaves the line of the strip low and touches no
/// other pin of the port.
pub proof fn law_signals_stay_on_their_line(
    strip: Ws2815,
    pin_number: u8,
    signals: Seq<Signal>,
    other: u8,
    level: bool,
)
    requires
        pin_number < 16,
        other < 16,
        strip.set_mask == pin_mask(pin_number, true),
        strip.clear_mask == pin_mask(pin_number, false),
        signals.len() > 0,
    ensures
        level_after_all(other, level, strip.all_ops(signals)) == (if other == pin_number {
            false
        } else {
            level
        }),
    decreases signals.len(),
{
    let before = signals.drop_last();
    lemma_level_after_concat(
        other,
        level,
        strip.all_ops(before),
        strip.signal_ops(signals.last()),
    );
    lemma_signal_levels(
        strip,
        pin_number,
        signals.last(),
        other,
        level_after_all(other, level, strip.all_ops(before)),
    );
    if before.len() > 0 {
        law_signals_stay_on_their_line(strip, pin_number, before, other, level);
    }
}

/// Where each bit of each LED is on the line. After the reset every LED has 24
/// signals: eight for its green byte, eight for its red and eight for its blue, each
/// with the bit of the highest worth first; a one bit is a one, a zero bit a zero. A
/// reset ends the frame.
pub proof fn law_led_on_the_line(colors: Seq<[u8; 3]>, led: int, place: int)
    requires
        0 <= led < colors.len(),
        0 <= place < 8,
    ensures
        frame_signals(colors).len() == 24 * colors.len() + 2,
        frame_signals(colors)[0] == Signal::Reset,
        frame_signals(colors)[24 * colors.len() as int + 1] == Signal::Reset,
        frame_signals(colors)[1 + 24 * led + place] == (if colors[led][1] & (1u8 << ((7
            - place) as u8)) != 0 {
            Signal::One
        } else {
            Signal::Zero
        }),
        frame_signals(colors)[1 + 24 * led + 8 + place] == (if colors[led][0] & (1u8 << ((7
            - place) as u8)) != 0 {
            Signal::One
        } else {
            Signal::Zero
        }),
        frame_signals(colors)[1 + 24 * led + 16 + place] == (if colors[led][2] & (1u8 << ((7
            - place) as u8)) != 0 {
            Signal::One
        } else {
            Signal::Zero
        }),
{
    lemma_data_length(colors);
    lemma_data_signals(colors, led, place);
    lemma_data_signals(colors, led, 8 + place);
    lemma_data_signals(colors, led, 16 + place);
}

/// What a strip reads from the line is each LED's green, red and blue.
pub proof fn law_led_reads_back(colors: Seq<[u8; 3]>, led: int)
    requires
        0 <= led < colors.len(),
    ensures
        ({
            let line = frame_signals(colors);
            let first = 1 + 24 * led;
            &&& signals_value(line.subrange(first, first + 8)) == colors[led][1]
            &&& signals_value(line.subrange(first + 8, first + 16)) == colors[led][0]
            &&& signals_value(line.subrange(first + 16, first + 24)) == colors[led][2]
        }),
{
    let line = frame_signals(colors);
    let first = 1 + 24 * led;
    law_frame_length(colors);
    assert forall|place: int| 0 <= place < 8 implies {
        &&& #[trigger] byte_signals(colors[led][1])[place] == line[first + place]
        &&& byte_signals(colors[led][0])[place] == line[first + 8 + place]
        &&& byte_signals(colors[led][2])[place] == line[first + 16 + place]
    } by {
        law_led_on_the_line(colors, led, place);
    }
    assert(line.subrange(first, first + 8) =~= byte_signals(colors[led][1]));
    assert(line.subrange(first + 8, first + 16) =~= byte_signals(colors[led][0])) by {
        assert forall|place: int| 0 <= place < 8 implies line[first + 8 + place] == byte_signals(
            colors[led][0],
        )[place] by {
            law_led_on_the_line(colors, led, place);
        }
    }
    assert(line.subrange(first + 16, first + 24) =~= byte_signals(colors[led][2])) by {
        assert forall|place: int| 0 <= place < 8 implies line[first + 16 + place] == byte_signals(
            colors[led][2],
        )[place] by {
            law_led_on_the_line(colors, led, place);
        }
    }
    law_byte_reads_back(colors[led][1]);
    law_byte_reads_back(colors[led][0]);
    law_byte_reads_back(colors[led][2]);
}

/// The signal of a bit is a one exactly where the bit is set, and never a reset.
pub proof fn law_bit_on_the_line(byte: u8, bit: u8)
    ensures
        bit_signal(byte, bit) == Signal::One <==> byte & (1u8 << bit) != 0,
        bit_signal(byte, bit) == Signal::Zero <==> byte & (1u8 << bit) == 0,
{
}

/// The shape of the pulses of any strip. A reset holds the line low for 500000 cycles.
/// A zero is high from one write to the next and then low for 10 cycles; a one is high
/// for 10 cycles.
pub proof fn law_pulse_shapes(strip: Ws2815)
    ensures
        ({
            let reset = strip.signal_ops(Signal::Reset);
            &&& reset.len() == 2
            &&& reset[0] == PinOp::Write(strip.clear_mask)
            &&& reset[1] == PinOp::Delay(500_000)
        }),
        ({
            let zero = strip.signal_ops(Signal::Zero);
            &&& zero.len() == 3
            &&& zero[0] == PinOp::Write(strip.set_mask)
            &&& zero[1] == PinOp::Write(strip.clear_mask)
            &&& zero[2] == PinOp::Delay(10)
        }),
        ({
            let one = strip.signal_ops(Signal::One);
            &&& one.len() == 4
            &&& one[0] == PinOp::Write(strip.set_mask)
            &&& one[1] == PinOp::Delay(10)
            &&& one[2] == PinOp::Write(strip.clear_mask)
            &&& one[3] == PinOp::Delay(0)
        }),
{
}

} // verus!
