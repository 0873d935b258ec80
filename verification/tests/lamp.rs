use lamp_control::action::{Action, Actions, ACTION_CAPACITY};
use lamp_control::dfplayer::Command;
use lamp_control::gpio::PinOp;
use lamp_control::lamp::{boot_sequence, elapsed_ticks, LampMode, LampSystem};
use lamp_control::progress::{Progress, BLACK, BLUE, GREEN, LED_COUNT};
use lamp_control::ws2815::Ws2815;

const VOLUME: Action = Action::Send(Command { code: 0x06, param: 24 });
const STOP: Action = Action::Send(Command { code: 0x16, param: 0 });
const RELAY_ON: Action = Action::Pin(PinOp::Write(0x80));
const RELAY_OFF: Action = Action::Pin(PinOp::Write(0x80_0000));
const HEART_HIGH: Action = Action::Pin(PinOp::Write(0x10));
const HEART_LOW: Action = Action::Pin(PinOp::Write(0x10_0000));
const WAIT: Action = Action::Pin(PinOp::Delay(100_000));

fn play(track: u16) -> Action {
    Action::Send(Command { code: 0x12, param: track })
}

fn lamp() -> LampSystem {
    LampSystem::new(1_000, Ws2815::new(6), Ws2815::new(5))
}

fn list(actions: &Actions) -> Vec<Action> {
    (0..actions.len()).map(|i| actions.get(i).unwrap()).collect()
}

fn step(lamp: &mut LampSystem, now: u32, mode: LampMode) -> Vec<Action> {
    let (a0, a1) = match mode {
        LampMode::Off => (false, false),
        LampMode::Starting => (true, false),
        LampMode::On => (true, true),
    };
    list(&lamp.step(now, Some(a0), Some(a1)))
}

/// The actions of a step without heartbeat, frames and delay.
fn essence(actions: &[Action]) -> Vec<Action> {
    let n = actions.len();
    assert_eq!(actions[n - 3..], [Action::ShowA, Action::ShowB, WAIT]);
    actions[..n - 3]
        .iter()
        .copied()
        .filter(|&a| a != HEART_HIGH && a != HEART_LOW)
        .collect()
}

#[test]
fn new_lamp_is_dark() {
    let lamp = lamp();
    assert_eq!(lamp.current_mode, LampMode::Off);
    assert_eq!(lamp.progress, Progress { phase: 0, filled: 0 });
    assert_eq!(lamp.last_animation_tick, 1_000);
    assert_eq!(lamp.rng, 0x1234_abcd);
    assert_eq!(lamp.failed_track_duration_steps, 360);
    assert_eq!(lamp.last_failed_track, 0);
    assert_eq!(lamp.pending_track, 0);
    assert!(lamp.frame_a.iter().all(|&c| c == BLACK));
    assert!(lamp.frame_b.iter().all(|&c| c == BLACK));
}

#[test]
fn switches_select_the_mode() {
    for (a0, a1, mode) in [
        (Some(false), Some(false), LampMode::Off),
        (Some(true), Some(false), LampMode::Starting),
        (Some(false), Some(true), LampMode::On),
        (Some(true), Some(true), LampMode::On),
        (None, None, LampMode::Off),
        (None, Some(false), LampMode::Off),
        (Some(true), None, LampMode::Starting),
        (None, Some(true), LampMode::On),
    ] {
        assert_eq!(LampSystem::read_mode(a0, a1), mode);
    }
}

#[test]
fn timer_counts_down_and_wraps() {
    assert_eq!(elapsed_ticks(100, 40), 60);
    assert_eq!(elapsed_ticks(40, 100), 0x00ff_ffc4);
    assert_eq!(elapsed_ticks(0, 0x00ff_ffff), 1);
    assert_eq!(elapsed_ticks(7, 7), 0);
    assert_eq!(elapsed_ticks(0, u32::MAX), 1);
    for passed in [0u32, 1, 77, 0x00ff_ffff] {
        let later = 55u32.wrapping_sub(passed) & 0x00ff_ffff;
        assert_eq!(elapsed_ticks(55, later), passed);
    }
}

#[test]
fn power_up() {
    assert_eq!(
        list(&boot_sequence()),
        [
            HEART_LOW,
            RELAY_OFF,
            Action::Pin(PinOp::Delay(96_000_000)),
            Action::Send(Command { code: 0x0c, param: 0 }),
            Action::Pin(PinOp::Delay(96_000_000)),
            Action::Send(Command { code: 0x09, param: 2 }),
            Action::Pin(PinOp::Delay(8_000_000)),
            VOLUME,
            Action::Pin(PinOp::Delay(8_000_000)),
            STOP,
        ]
    );
}

#[test]
fn action_list_keeps_its_order() {
    let mut actions = Actions::new();
    assert_eq!(actions.len(), 0);
    assert_eq!(actions.get(0), None);
    for i in 0..ACTION_CAPACITY {
        actions.push(Action::Pin(PinOp::Delay(i as u32)));
    }
    assert_eq!(actions.len(), 12);
    assert_eq!(actions.get(11), Some(Action::Pin(PinOp::Delay(11))));
    assert_eq!(actions.get(12), None);
}

#[test]
fn heartbeat_toggles_every_fourth_step() {
    let mut lamp = lamp();
    for n in 1..=40u32 {
        let actions = step(&mut lamp, 1_000, LampMode::Off);
        let expected = match n % 8 {
            4 => Some(HEART_HIGH),
            0 => Some(HEART_LOW),
            _ => None,
        };
        match expected {
            Some(beat) => assert_eq!(actions[0], beat),
            None => assert!(!actions.contains(&HEART_HIGH) && !actions.contains(&HEART_LOW)),
        }
        assert_eq!(lamp.heartbeat_high, (n / 4) % 2 == 1);
    }
}

#[test]
fn off_sets_the_module_up_and_silences_it_once() {
    let mut lamp = lamp();
    for n in 1..=300 {
        let actions = step(&mut lamp, 1_000, LampMode::Off);
        let expected = match n {
            81 => vec![VOLUME],
            82 => vec![STOP],
            _ => vec![],
        };
        assert_eq!(essence(&actions), expected);
        assert!(lamp.frame_a.iter().all(|&c| c == BLACK));
    }
    assert!(lamp.audio_configured && lamp.audio_stopped_after_boot);
}

#[test]
fn failed_start_plays_track_after_track() {
    let mut lamp = lamp();
    for n in 1..=3_200 {
        let actions = essence(&step(&mut lamp, 1_000, LampMode::Starting));
        let expected = match n {
            1 => vec![RELAY_OFF, VOLUME, play(4)],
            81 => vec![VOLUME],
            557 => vec![VOLUME, play(2)],
            1_151 => vec![VOLUME, play(3)],
            1_902 => vec![VOLUME, play(4)],
            2_481 => vec![VOLUME, play(3)],
            3_191 => vec![VOLUME, play(2)],
            _ => vec![],
        };
        assert_eq!(actions, expected, "step {}", n);
    }
    assert_eq!(lamp.last_failed_track, 2);
    assert_eq!(lamp.failed_track_duration_steps, 392);
    assert_eq!(lamp.rng, 0x201f_a719);
}

#[test]
fn failed_tracks_never_repeat() {
    let mut lamp = lamp();
    let mut seen = [0; 5];
    let mut last = 0;
    for _ in 0..3_000 {
        let track = lamp.next_failed_track();
        assert!((2..=4).contains(&track));
        assert_ne!(track, last);
        seen[track as usize] += 1;
        last = track;
    }
    assert!(seen[2] > 0 && seen[3] > 0 && seen[4] > 0);
}

#[test]
fn repeated_choice_moves_on_to_the_following_track() {
    for (last, expected) in [(4, 2), (2, 4), (3, 4), (0, 4)] {
        let mut lamp = lamp();
        lamp.last_failed_track = last;
        assert_eq!(lamp.next_failed_track(), expected);
        assert_eq!(lamp.last_failed_track, expected);
        assert_eq!(lamp.rng, 0xec94_5ac8);
    }
}

#[test]
fn random_byte_is_the_top_byte() {
    let mut lamp = lamp();
    let bytes: Vec<u8> = (0..6).map(|_| lamp.next_u8()).collect();
    assert_eq!(bytes, [236, 57, 153, 234, 121, 161]);
}

#[test]
fn successful_start_switches_relay_and_running_track() {
    let mut lamp = lamp();
    for n in 1..=1_100 {
        let actions = essence(&step(&mut lamp, 1_000, LampMode::On));
        let expected = match n {
            1 => vec![RELAY_OFF, VOLUME, play(1), RELAY_OFF],
            81 => vec![RELAY_OFF, VOLUME],
            85 => vec![RELAY_OFF, VOLUME, play(5)],
            585 | 1_085 => vec![RELAY_ON, play(5)],
            2..=84 => vec![RELAY_OFF],
            _ => vec![RELAY_ON],
        };
        assert_eq!(actions, expected, "step {}", n);
    }
}

#[test]
fn step_count_wraps_and_the_relay_with_it() {
    let mut lamp = lamp();
    let mut relay = Vec::new();
    for _ in 1..=65_536 + 90 {
        let actions = step(&mut lamp, 1_000, LampMode::On);
        relay.push(actions.contains(&RELAY_ON));
    }
    assert!(!relay[84] && relay[85]);
    assert!(relay[65_535]);
    assert!(!relay[65_536] && !relay[65_536 + 84]);
    assert!(relay[65_536 + 85]);
    assert!(lamp.played_run_loop);
}

#[test]
fn switching_off_stops_sound_and_relay() {
    let mut lamp = lamp();
    for _ in 0..100 {
        step(&mut lamp, 1_000, LampMode::On);
    }
    assert_eq!(
        essence(&step(&mut lamp, 1_000, LampMode::Off)),
        [STOP, RELAY_OFF, STOP]
    );
    assert!(lamp.frame_a.iter().all(|&c| c == BLACK));
    assert!(lamp.frame_b.iter().all(|&c| c == BLACK));
    assert!(!lamp.played_run_loop);
    assert_eq!(lamp.mode_steps, 1);
    assert_eq!(essence(&step(&mut lamp, 1_000, LampMode::Off)), []);
    assert_eq!(lamp.mode_steps, 2);
}

#[test]
fn new_mode_starts_with_an_empty_bar() {
    let mut lamp = lamp();
    step(&mut lamp, 0, LampMode::Starting);
    for n in 1..=5u32 {
        let now = 0x0100_0000 - n * 3_000_000;
        step(&mut lamp, now, LampMode::Starting);
    }
    assert_eq!(lamp.progress, Progress { phase: 3_000_000, filled: 2 });
    assert_eq!(lamp.frame_a[0], GREEN);
    assert_eq!(lamp.frame_a[1], GREEN);
    assert_eq!(lamp.frame_a[7], BLUE);
    assert_eq!(lamp.frame_a[8], BLACK);
    assert_eq!(lamp.frame_a[14 + 7], BLUE);
    assert_eq!(lamp.frame_a, lamp.frame_b);

    step(&mut lamp, 5, LampMode::On);
    assert_eq!(lamp.progress, Progress { phase: 0, filled: 0 });
    assert_eq!(lamp.last_animation_tick, 5);
    for (i, &color) in lamp.frame_b.iter().enumerate() {
        assert_eq!(color, if i % 14 == 0 { GREEN } else { BLACK });
    }
}

#[test]
fn lit_bar_swaps_colours_between_modes() {
    let mut lamp = lamp();
    step(&mut lamp, 6_000_000, LampMode::On);
    step(&mut lamp, 0, LampMode::On);
    assert_eq!(lamp.progress, Progress { phase: 0, filled: 1 });
    step(&mut lamp, 0x0100_0000 - 3_000_000, LampMode::On);
    assert_eq!(lamp.frame_a[0], BLUE);
    assert_eq!(lamp.frame_a[7], GREEN);
    assert_eq!(lamp.frame_a[LED_COUNT - 14], BLUE);
}

#[test]
fn bar_of_a_dark_lamp_stands_still() {
    let mut lamp = lamp();
    step(&mut lamp, 900, LampMode::Off);
    assert_eq!(lamp.progress, Progress { phase: 0, filled: 0 });
    assert_eq!(lamp.last_animation_tick, 900);
}

fn queue(lamp: &mut LampSystem) -> Vec<Action> {
    let mut actions = Actions::new();
    lamp.update_audio_queue(&mut actions);
    list(&actions)
}

#[test]
fn queued_track_is_started_twice() {
    let mut lamp = lamp();
    lamp.current_mode = LampMode::On;
    lamp.audio_boot_steps = 80;
    lamp.audio_configured = true;
    lamp.pending_track = 9;
    lamp.pending_retry_steps = 1;
    assert_eq!(queue(&mut lamp), []);
    assert_eq!(lamp.pending_retry_steps, 0);
    assert_eq!(queue(&mut lamp), [play(9)]);
    assert!(lamp.audio_started);
    assert_eq!(lamp.pending_retry_steps, 80);
    for _ in 0..80 {
        assert_eq!(queue(&mut lamp), []);
    }
    lamp.pending_loop = true;
    assert_eq!(queue(&mut lamp), [play(9)]);
    assert_eq!(lamp.pending_track, 0);
    assert_eq!(queue(&mut lamp), []);
}

#[test]
fn counters_wrap() {
    let mut lamp = lamp();
    lamp.heartbeat_counter = 255;
    let mut actions = Actions::new();
    lamp.tick_heartbeat(&mut actions);
    assert_eq!((lamp.heartbeat_counter, actions.len()), (0, 0));
    lamp.mode_steps = u16::MAX;
    lamp.sound_steps = u16::MAX;
    lamp.update_sound(&mut actions);
    assert_eq!((lamp.mode_steps, lamp.sound_steps), (0, 0));
    assert_eq!(actions.len(), 0);
}

#[test]
fn frames_do_not_steer() {
    let mut plain = lamp();
    let mut painted = lamp();
    painted.frame_a = [[1, 2, 3]; LED_COUNT];
    painted.frame_b = [[4, 5, 6]; LED_COUNT];
    for n in 0..200u32 {
        let mode = if n % 70 < 30 { LampMode::Off } else { LampMode::Starting };
        let a = step(&mut plain, 0x00ff_ffff - n * 1_000, mode);
        let b = step(&mut painted, 0x00ff_ffff - n * 1_000, mode);
        assert_eq!(a, b);
        assert!(a.len() <= 11);
        assert_eq!(plain.frame_a, painted.frame_a);
        assert_eq!(plain.frame_b, painted.frame_b);
    }
}

#[test]
fn power_up_leaves_relay_and_heartbeat_low() {
    for before in [0u16, 0xffff] {
        let mut port = before;
        for action in list(&boot_sequence()) {
            if let Action::Pin(PinOp::Write(mask)) = action {
                port = (port & !((mask >> 16) as u16)) | mask as u16;
            }
        }
        assert_eq!(port, before & !0x90);
    }
    assert!(!lamp().heartbeat_high);
}
