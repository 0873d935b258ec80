//! The progress bar that every LED column shows: a fill that grows by one pixel
//! per second, and a runner that climbs the column once per second.

use vstd::prelude::*;

verus! {

/// LED columns on one strip.
pub const COLUMN_COUNT: usize = 7;

/// LEDs in one column.
pub const COLUMN_HEIGHT: usize = 14;

/// LEDs on one strip.
pub const LED_COUNT: usize = COLUMN_COUNT * COLUMN_HEIGHT;

/// Timer ticks in one second: the timer runs at an eighth of the core clock.
pub const PULSE_TICKS: u32 = 6_000_000;

pub const GREEN: [u8; 3] = [0, 255, 0];

pub const BLUE: [u8; 3] = [0, 0, 255];

pub const BLACK: [u8; 3] = [0, 0, 0];

/// Position of the runner within its second, and the number of filled pixels.
#[derive(Clone, Copy, Debug, PartialEq, Eq, Structural)]
pub struct Progress {
    pub phase: u32,
    pub filled: usize,
}

/// The smaller of two numbers.
pub open spec fn least(a: int, b: int) -> int {
    if a <= b {
        a
    } else {
        b
    }
}

impl Progress {
    /// The runner is within its second and the fill within the column.
    pub open spec fn wf(self) -> bool {
        &&& self.phase < PULSE_TICKS
        &&& self.filled <= COLUMN_HEIGHT
    }

    /// Whole seconds that are over once `ticks` more ticks have passed.
    pub open spec fn pulses(self, ticks: int) -> int {
        (self.phase + ticks) / (PULSE_TICKS as int)
    }

    /// The progress `ticks` ticks later.
    pub open spec fn advanced(self, ticks: int) -> Progress {
        Progress {
            phase: ((self.phase + ticks) % (PULSE_TICKS as int)) as u32,
            filled: if self.pulses(ticks) == 0 {
                self.filled
            } else {
                least(self.filled + self.pulses(ticks), COLUMN_HEIGHT as int) as usize
            },
        }
    }

    /// The height at which the runner stands.
    pub open spec fn row(self) -> int {
        (self.phase as int * COLUMN_HEIGHT as int) / (PULSE_TICKS as int)
    }

    /// The colour of the pixel at `height` of every column.
    pub open spec fn pixel(self, height: int, blue_fill: bool) -> [u8; 3] {
        if height == self.row() {
            if blue_fill { GREEN } else { BLUE }
        } else if height < self.filled {
            if blue_fill { BLUE } else { GREEN }
        } else {
            BLACK
        }
    }

    /// The whole strip, column after column.
    pub open spec fn image(self, blue_fill: bool) -> Seq<[u8; 3]> {
        Seq::new(LED_COUNT as nat, |i: int| self.pixel(i % COLUMN_HEIGHT as int, blue_fill))
    }

    /// An empty bar with the runner at the foot.
    pub fn new() -> (progress: Self)
        ensures
            progress == (Progress { phase: 0, filled: 0 }),
            progress.wf(),
    {
        Self { phase: 0, filled: 0 }
    }

    /// Lets `elapsed_ticks` ticks pass. Each whole second adds one pixel to the
    /// fill until the column is full; the runner goes on cycling.
    pub fn advance(&mut self, elapsed_ticks: u32)
        requires
            old(self).phase + elapsed_ticks <= u32::MAX,
            old(self).filled < usize::MAX || old(self).phase + elapsed_ticks < PULSE_TICKS,
        ensures
            *final(self) == old(self).advanced(elapsed_ticks as int),
            old(self).filled <= COLUMN_HEIGHT ==> final(self).wf(),
    {
        let ghost start = *self;
        self.phase += elapsed_ticks;
        let ghost mut done: int = 0;
        while self.phase >= PULSE_TICKS
            invariant
                start.phase + elapsed_ticks <= u32::MAX,
                start.filled < usize::MAX || start.phase + elapsed_ticks < PULSE_TICKS,
                0 <= done,
                self.phase + done * PULSE_TICKS == start.phase + elapsed_ticks,
                self.filled == (if done == 0 {
                    start.filled as int
                } else {
                    least(start.filled + done, COLUMN_HEIGHT as int)
                }),
            decreases self.phase,
        {
            self.phase -= PULSE_TICKS;
            // Keep the full bar glowing while the runner continues cycling.
            let grown: usize = self.filled + 1;
            self.filled = if grown < COLUMN_HEIGHT { grown } else { COLUMN_HEIGHT };
            proof {
                done = done + 1;
            }
        }
        assert(start.pulses(elapsed_ticks as int) == done);
    }

    /// Draws the bar on every column of `frame`. With `blue_fill` the fill is blue
    /// and the runner green, otherwise the other way round.
    pub fn render(&self, frame: &mut [[u8; 3]; LED_COUNT], blue_fill: bool)
        requires
            self.phase * COLUMN_HEIGHT <= u32::MAX,
        ensures
            final(frame)@ == self.image(blue_fill),
    {
        let (fill, runner) = if blue_fill {
            (BLUE, GREEN)
        } else {
            (GREEN, BLUE)
        };
        let row: usize = (self.phase * COLUMN_HEIGHT as u32 / PULSE_TICKS) as usize;
        let mut column: usize = 0;
        while column < COLUMN_COUNT
            invariant
                column <= COLUMN_COUNT,
                row == self.row(),
                fill == (if blue_fill { BLUE } else { GREEN }),
                runner == (if blue_fill { GREEN } else { BLUE }),
                forall|i: int|
                    0 <= i < column * COLUMN_HEIGHT ==> frame@[i] == self.pixel(
                        i % COLUMN_HEIGHT as int,
                        blue_fill,
                    ),
            decreases COLUMN_COUNT - column,
        {
            let mut height: usize = 0;
            while height < COLUMN_HEIGHT
                invariant
                    column < COLUMN_COUNT,
                    height <= COLUMN_HEIGHT,
                    row == self.row(),
                    fill == (if blue_fill { BLUE } else { GREEN }),
                    runner == (if blue_fill { GREEN } else { BLUE }),
                    forall|i: int|
                        0 <= i < column * COLUMN_HEIGHT + height ==> frame@[i] == self.pixel(
                            i % COLUMN_HEIGHT as int,
                            blue_fill,
                        ),
                decreases COLUMN_HEIGHT - height,
            {
                // The runner temporarily overrides filled pixels, preserving its color.
                frame[column * COLUMN_HEIGHT + height] = if height == row {
                    runner
                } else if height < self.filled {
                    fill
                } else {
                    BLACK
                };
                height += 1;
            }
            column += 1;
        }
    }
}

/// Lit pixels among the lowest `height` pixels of a column.
pub open spec fn lit_below(progress: Progress, height: nat, blue_fill: bool) -> nat
    decreases height,
{
    if height == 0 {
        0
    } else {
        let lower = (height - 1) as nat;
        lit_below(progress, lower, blue_fill) + (if progress.pixel(lower as int, blue_fill) != BLACK {
            1nat
        } else {
            0nat
        })
    }
}

proof fn lemma_colours_differ()
    ensures
        GREEN != BLACK,
        BLUE != BLACK,
        GREEN != BLUE,
{
    assert(GREEN@[1] == 255 && BLACK@[1] == 0);
    assert(BLUE@[2] == 255 && BLACK@[2] == 0);
    assert(BLUE@[1] == 0);
}

proof fn lemma_lit_below(progress: Progress, height: nat, blue_fill: bool)
    requires
        progress.wf(),
    ensures
        lit_below(progress, height, blue_fill) == least(height as int, progress.filled as int) + (
        if progress.filled <= progress.row() < height {
            1int
        } else {
            0int
        }),
    decreases height,
{
    lemma_colours_differ();
    if height > 0 {
        lemma_lit_below(progress, (height - 1) as nat, blue_fill);
    }
}

/// Advancing twice is advancing once by the sum.
pub proof fn law_advances_add_up(progress: Progress, first: int, second: int)
    requires
        progress.wf(),
        0 <= first,
        0 <= second,
    ensures
        progress.advanced(first).advanced(second) == progress.advanced(first + second),
{
}

/// One second leaves the runner where it was and adds one pixel to a bar that is
/// not full.
pub proof fn law_one_pixel_per_second(progress: Progress)
    requires
        progress.wf(),
    ensures
        progress.advanced(PULSE_TICKS as int).phase == progress.phase,
        progress.filled < COLUMN_HEIGHT ==> progress.advanced(PULSE_TICKS as int).filled
            == progress.filled + 1,
{
}

/// The fill never shrinks and never leaves the column, however much time passes.
pub proof fn law_fill_only_grows(progress: Progress, ticks: int)
    requires
        progress.wf(),
        0 <= ticks,
    ensures
        progress.filled <= progress.advanced(ticks).filled <= COLUMN_HEIGHT,
        progress.advanced(ticks).wf(),
{
}

/// A full bar stays full, and every LED of the strip stays lit while the runner
/// goes on cycling.
pub proof fn law_full_bar_stays_lit(progress: Progress, ticks: int, blue_fill: bool, led: int)
    requires
        progress.wf(),
        progress.filled == COLUMN_HEIGHT,
        0 <= ticks,
        0 <= led < LED_COUNT,
    ensures
        progress.advanced(ticks).filled == COLUMN_HEIGHT,
        progress.advanced(ticks).image(blue_fill)[led] != BLACK,
{
    lemma_colours_differ();
}

/// The runner is always inside the column, and its colour overrides the fill.
pub proof fn law_runner_keeps_its_colour(progress: Progress, blue_fill: bool)
    requires
        progress.wf(),
    ensures
        0 <= progress.row() < COLUMN_HEIGHT,
        progress.pixel(progress.row(), blue_fill) == (if blue_fill {
            GREEN
        } else {
            BLUE
        }),
        progress.pixel(progress.row(), blue_fill) != progress.pixel(progress.row(), !blue_fill),
{
    lemma_colours_differ();
}

/// Within one second the runner stands on each row for an equal share of the
/// time, from the foot of the column to its top.
pub proof fn law_runner_visits_every_row(progress: Progress, row: int)
    requires
        progress.wf(),
        0 <= row < COLUMN_HEIGHT,
    ensures
        progress.row() == row <==> row * PULSE_TICKS <= progress.phase * COLUMN_HEIGHT < (row + 1)
            * PULSE_TICKS,
        (Progress {
            phase: ((row * PULSE_TICKS + COLUMN_HEIGHT - 1) / (COLUMN_HEIGHT as int)) as u32,
            filled: progress.filled,
        }).row() == row,
{
}

/// All columns of a strip show the same picture.
pub proof fn law_columns_are_alike(
    progress: Progress,
    blue_fill: bool,
    column: int,
    other: int,
    height: int,
)
    requires
        0 <= column < COLUMN_COUNT,
        0 <= other < COLUMN_COUNT,
        0 <= height < COLUMN_HEIGHT,
    ensures
        progress.image(blue_fill)[column * COLUMN_HEIGHT + height] == progress.image(
            blue_fill,
        )[other * COLUMN_HEIGHT + height],
        progress.image(blue_fill)[column * COLUMN_HEIGHT + height] == progress.pixel(
            height,
            blue_fill,
        ),
{
}

/// A column lights its filled pixels, and one more where the runner is above them.
pub proof fn law_lit_pixels(progress: Progress, blue_fill: bool)
    requires
        progress.wf(),
    ensures
        lit_below(progress, COLUMN_HEIGHT as nat, blue_fill) == progress.filled + (if progress.row()
            >= progress.filled {
            1int
        } else {
            0int
        }),
{
    lemma_lit_below(progress, COLUMN_HEIGHT as nat, blue_fill);
}

/// Swapping the fill colour swaps green and blue on every LED and nothing else.
pub proof fn law_fill_colour_swaps(progress: Progress, height: int)
    ensures
        progress.pixel(height, true) == GREEN <==> progress.pixel(height, false) == BLUE,
        progress.pixel(height, true) == BLUE <==> progress.pixel(height, false) == GREEN,
        progress.pixel(height, true) == BLACK <==> progress.pixel(height, false) == BLACK,
{
    lemma_colours_differ();
}

/// No tick is lost or counted twice: the ticks that have passed are whole seconds of
/// 6000000 ticks and what the phase has moved, the phase stays below one second, and
/// every whole second adds one pixel up to the top of the column.
pub proof fn law_time_is_kept(progress: Progress, ticks: int)
    requires
        0 <= ticks,
    ensures
        ({
            let next = progress.advanced(ticks);
            let seconds = (progress.phase + ticks - next.phase) / 6_000_000;
            &&& next.phase < 6_000_000
            &&& seconds * 6_000_000 + next.phase == progress.phase + ticks
            &&& seconds == 0 ==> next.filled == progress.filled
            &&& seconds > 0 && progress.filled + seconds <= 14 ==> next.filled == progress.filled
                + seconds
            &&& seconds > 0 && progress.filled + seconds > 14 ==> next.filled == 14
        }),
{
}

/// Within its second the runner moves by exactly the ticks that pass, the fill stays,
/// and the runner never goes down.
pub proof fn law_runner_climbs(progress: Progress, ticks: int)
    requires
        0 <= ticks,
        progress.phase + ticks < 6_000_000,
    ensures
        progress.advanced(ticks).phase == progress.phase + ticks,
        progress.advanced(ticks).filled == progress.filled,
        progress.row() <= progress.advanced(ticks).row(),
        ticks * 14 >= 6_000_000 ==> progress.row() < progress.advanced(ticks).row(),
{
}

/// The last tick of a second brings the runner back to the foot and, where there is
/// room, fills one more pixel.
pub proof fn law_second_ends(progress: Progress)
    requires
        progress.phase == 5_999_999,
        progress.filled <= 14,
    ensures
        progress.advanced(1).phase == 0,
        progress.advanced(1).filled == (if progress.filled < 14 {
            progress.filled + 1
        } else {
            14
        }),
{
}

/// The colours on the strip, channel by channel. No LED is ever red. The runner is on
/// the row whose share of the second the phase is in; it is green over a blue fill and
/// blue over a green one. The rows below the fill have the fill's colour, and all
/// others are dark.
pub proof fn law_strip_colours(progress: Progress, blue_fill: bool, column: int, height: int)
    requires
        0 <= column < 7,
        0 <= height < 14,
    ensures
        progress.image(blue_fill).len() == 98,
        ({
            let led = progress.image(blue_fill)[column * 14 + height];
            let runner = height * 6_000_000 <= progress.phase * 14 < (height + 1) * 6_000_000;
            let fill = !runner && height < progress.filled;
            &&& led[0] == 0
            &&& led[1] == (if (runner && blue_fill) || (fill && !blue_fill) {
                255int
            } else {
                0
            })
            &&& led[2] == (if (runner && !blue_fill) || (fill && blue_fill) {
                255int
            } else {
                0
            })
        }),
{
    assert(GREEN@[0] == 0 && GREEN@[1] == 255 && GREEN@[2] == 0);
    assert(BLUE@[0] == 0 && BLUE@[1] == 0 && BLUE@[2] == 255);
    assert(BLACK@[0] == 0 && BLACK@[1] == 0 && BLACK@[2] == 0);
    assert((column * 14 + height) % 14 == height);
    assert(0 <= column * 14 + height < 98);
}

/// In each column exactly one LED has the runner's colour: no two rows have it, and
/// the row of the phase does.
pub proof fn law_runner_stands_alone(
    progress: Progress,
    blue_fill: bool,
    column: int,
    height: int,
    other: int,
)
    requires
        progress.phase < 6_000_000,
        0 <= column < 7,
        0 <= height < 14,
        0 <= other < 14,
        height * 6_000_000 <= progress.phase * 14 < (height + 1) * 6_000_000,
    ensures
        ({
            let channel = if blue_fill {
                1int
            } else {
                2int
            };
            &&& progress.image(blue_fill)[column * 14 + height][channel] == 255
            &&& progress.image(blue_fill)[column * 14 + other][channel] == 255 ==> other == height
        }),
{
    law_strip_colours(progress, blue_fill, column, height);
    law_strip_colours(progress, blue_fill, column, other);
}

} // verus!
