use lamp_control::progress::{Progress, BLACK, BLUE, COLUMN_HEIGHT, GREEN, LED_COUNT, PULSE_TICKS};

#[test]
fn runner_traverses_every_column_and_adds_one_pixel_per_second() {
    let mut progress = Progress::new();
    let mut frame = [[0; 3]; LED_COUNT];
    for row in 0..COLUMN_HEIGHT {
        progress.phase =
            (row as u32 * PULSE_TICKS + COLUMN_HEIGHT as u32 - 1) / COLUMN_HEIGHT as u32;
        progress.render(&mut frame, false);
        for column in frame.chunks_exact(COLUMN_HEIGHT) {
            assert_eq!(column[row], BLUE);
            assert_eq!(column.iter().filter(|&&c| c != [0; 3]).count(), 1);
        }
    }
    progress.advance(PULSE_TICKS - progress.phase);
    assert_eq!(progress.filled, 1);
    progress.advance(PULSE_TICKS / 2);
    progress.render(&mut frame, false);
    for column in frame.chunks_exact(COLUMN_HEIGHT) {
        assert_eq!(column[0], GREEN);
        assert_eq!(column[7], BLUE);
        assert_eq!(column.iter().filter(|&&c| c != [0; 3]).count(), 2);
    }
    progress.render(&mut frame, true);
    assert_eq!(frame[0], BLUE);
    assert_eq!(frame[7], GREEN);
}

#[test]
fn full_bar_stays_lit_with_runner_and_new_mode_starts_empty() {
    let mut progress = Progress::new();
    for filled in 1..=COLUMN_HEIGHT {
        progress.advance(PULSE_TICKS);
        assert_eq!(progress.filled, filled);
    }
    let mut frame = [[0; 3]; LED_COUNT];
    progress.render(&mut frame, false);
    assert!(frame.iter().all(|&c| c == GREEN || c == BLUE));
    for _ in 0..20 {
        progress.advance(PULSE_TICKS);
        assert_eq!(progress.filled, COLUMN_HEIGHT);
    }
    progress.advance(PULSE_TICKS / 2);
    for blue_fill in [false, true] {
        progress.render(&mut frame, blue_fill);
        let (fill, runner) = if blue_fill {
            (BLUE, GREEN)
        } else {
            (GREEN, BLUE)
        };
        for column in frame.chunks_exact(COLUMN_HEIGHT) {
            assert_eq!(column[7], runner);
            assert_eq!(
                column.iter().filter(|&&c| c == fill).count(),
                COLUMN_HEIGHT - 1
            );
        }
    }
    let fresh = Progress::new();
    assert_eq!((fresh.phase, fresh.filled), (0, 0));
}

#[test]
fn seconds_in_one_go_or_one_by_one() {
    let mut once = Progress { phase: 5_999_999, filled: 3 };
    let mut twice = once;
    once.advance(13_000_002);
    twice.advance(6_500_001);
    assert_eq!(twice, Progress { phase: 500_000, filled: 5 });
    twice.advance(6_500_001);
    assert_eq!(once, twice);
    assert_eq!(once, Progress { phase: 1_000_001, filled: 6 });
}

#[test]
fn largest_step_that_fits() {
    let mut progress = Progress { phase: 0, filled: 13 };
    progress.advance(u32::MAX);
    assert_eq!(progress, Progress { phase: 4_967_295, filled: 14 });
}

#[test]
fn fill_above_the_column_is_cut_only_when_a_second_ends() {
    let mut progress = Progress { phase: 0, filled: 40 };
    progress.advance(PULSE_TICKS - 1);
    assert_eq!(progress.filled, 40);
    progress.advance(1);
    assert_eq!(progress, Progress { phase: 0, filled: 14 });
}

#[test]
fn runner_outside_the_column_is_not_drawn() {
    let progress = Progress { phase: PULSE_TICKS, filled: 2 };
    let mut frame = [[9; 3]; LED_COUNT];
    progress.render(&mut frame, false);
    for column in frame.chunks_exact(COLUMN_HEIGHT) {
        assert_eq!(column[..2], [GREEN, GREEN]);
        assert!(column[2..].iter().all(|&c| c == BLACK));
    }
}

#[test]
fn runner_covers_a_filled_pixel() {
    let progress = Progress { phase: 0, filled: 1 };
    let mut frame = [[9; 3]; LED_COUNT];
    progress.render(&mut frame, true);
    for column in frame.chunks_exact(COLUMN_HEIGHT) {
        assert_eq!(column[0], GREEN);
        assert!(column[1..].iter().all(|&c| c == BLACK));
    }
}

#[test]
fn row_changes_at_the_share_of_the_second() {
    let mut frame = [[0; 3]; LED_COUNT];
    let before = Progress { phase: 428_571, filled: 0 };
    before.render(&mut frame, false);
    assert_eq!(frame[0], BLUE);
    assert_eq!(frame[1], BLACK);
    let after = Progress { phase: 428_572, filled: 0 };
    after.render(&mut frame, false);
    assert_eq!(frame[0], BLACK);
    assert_eq!(frame[1], BLUE);
    assert_eq!(frame[LED_COUNT - COLUMN_HEIGHT + 1], BLUE);
}
