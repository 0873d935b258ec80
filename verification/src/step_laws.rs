//! What one step of the lamp does, in plain numbers: the new state, and the commands
//! and words that go out.

use crate::action::Action;
use crate::dfplayer::Command;
use crate::gpio::{pin_mask, PinOp};
use crate::lamp::{selected_mode, ticks_between, LampMode, LampSystem};
use crate::tracks::{
    law_failed_track_picked, law_random_byte, law_track_lengths, rng_after, rng_byte,
};
use vstd::prelude::*;

verus! {

proof fn lemma_pin_words()
    ensures
        pin_mask(4, true) == 0x10,
        pin_mask(4, false) == 0x10_0000,
        pin_mask(7, true) == 0x80,
        pin_mask(7, false) == 0x80_0000,
{
    assert(1u32 << 4u8 == 0x10) by (bit_vector);
    assert((1u32 << 4u8) << 16u32 == 0x10_0000) by (bit_vector);
    assert(1u32 << 7u8 == 0x80) by (bit_vector);
    assert((1u32 << 7u8) << 16u32 == 0x80_0000) by (bit_vector);
}

/// The lamp is on exactly where the second pin reads low, starting exactly where only
/// the first does, and off otherwise.
pub proof fn law_mode_of_switches(a0_low: Option<bool>, a1_low: Option<bool>)
    ensures
        selected_mode(a0_low, a1_low) == LampMode::On <==> a1_low == Some(true),
        selected_mode(a0_low, a1_low) == LampMode::Starting <==> a0_low == Some(true) && a1_low
            != Some(true),
        selected_mode(a0_low, a1_low) == LampMode::Off <==> a0_low != Some(true) && a1_low != Some(
            true,
        ),
{
}

/// The ticks between any two readings are below 2^24, and going back that many from the
/// earlier reading gives the later one, up to multiples of 2^24.
pub proof fn law_ticks_lead_to_later(earlier: u32, later: u32)
    ensures
        0 <= ticks_between(earlier, later) < 0x100_0000,
        (earlier - ticks_between(earlier, later) - later) % 0x100_0000 == 0,
{
}

/// The state that a step leads to is settled but for the frames, which `law_step_draws`
/// settles.
pub proof fn law_step_lands(lamp: LampSystem, now: u32, mode: LampMode, next: LampSystem)
    requires
        lamp.steps_to(now, mode, next),
    ensures
        next == (LampSystem {
            frame_a: next.frame_a,
            frame_b: next.frame_b,
            ..lamp.after_step(now, mode)
        }),
{
}

/// A step leaves the wiring alone, notes the timer, and is in the mode that was asked
/// for.
pub proof fn law_step_notes_inputs(lamp: LampSystem, now: u32, mode: LampMode)
    ensures
        lamp.after_step(now, mode).current_mode == mode,
        lamp.after_step(now, mode).last_animation_tick == now,
        lamp.after_step(now, mode).ws_a == lamp.ws_a,
        lamp.after_step(now, mode).ws_b == lamp.ws_b,
{
}

/// The heartbeat counts up to four steps, and the fourth one turns the LED over.
pub proof fn law_step_beats(lamp: LampSystem, now: u32, mode: LampMode)
    ensures
        ({
            let next = lamp.after_step(now, mode);
            &&& lamp.heartbeat_counter < 3 ==> next.heartbeat_counter == lamp.heartbeat_counter + 1
                && next.heartbeat_high == lamp.heartbeat_high
            &&& 3 <= lamp.heartbeat_counter < 255 ==> next.heartbeat_counter == 0
                && next.heartbeat_high != lamp.heartbeat_high
            &&& lamp.heartbeat_counter == 255 ==> next.heartbeat_counter == 0
                && next.heartbeat_high == lamp.heartbeat_high
        }),
{
}

/// A new mode starts with an empty bar, a lamp that stays off keeps its bar, and the bar
/// of a lamp that stays lit moves on by the ticks since the step before.
pub proof fn law_step_moves_bar(lamp: LampSystem, now: u32, mode: LampMode)
    ensures
        ({
            let next = lamp.after_step(now, mode);
            &&& mode != lamp.current_mode ==> next.progress.phase == 0 && next.progress.filled == 0
            &&& mode == lamp.current_mode && mode == LampMode::Off ==> next.progress
                == lamp.progress
            &&& mode == lamp.current_mode && mode != LampMode::Off ==> next.progress
                == lamp.progress.advanced(ticks_between(lamp.last_animation_tick, now))
        }),
{
}

/// The frames after a step: both are the same, dark where the lamp is off, the bar with
/// a green fill where it is starting and with a blue fill where it is on.
pub proof fn law_step_draws(
    lamp: LampSystem,
    now: u32,
    mode: LampMode,
    next: LampSystem,
    led: int,
    channel: int,
)
    requires
        lamp.steps_to(now, mode, next),
        0 <= led < 98,
        0 <= channel < 3,
    ensures
        next.current_mode == mode,
        next.frame_b@ == next.frame_a@,
        mode == LampMode::Off ==> next.frame_a@[led][channel] == 0,
        mode == LampMode::Starting ==> next.frame_a@ == next.progress.image(false),
        mode == LampMode::On ==> next.frame_a@ == next.progress.image(true),
{
    assert(crate::progress::BLACK@[0] == 0 && crate::progress::BLACK@[1] == 0
        && crate::progress::BLACK@[2] == 0);
}

/// The counts of a step. A new mode has made one step, and so has its sound. In a mode
/// that goes on both counts grow, modulo 65536, and the count of the sound starts again
/// where a track is over or the running track comes for the first time.
pub proof fn law_step_counts(lamp: LampSystem, now: u32, mode: LampMode)
    ensures
        ({
            let next = lamp.after_step(now, mode);
            let mode_steps = (lamp.mode_steps + 1) % 65536;
            let sound_steps = (lamp.sound_steps + 1) % 65536;
            &&& mode != lamp.current_mode ==> next.mode_steps == 1 && next.sound_steps == 1
                && !next.played_run_loop
            &&& mode == lamp.current_mode ==> next.mode_steps == mode_steps
            &&& mode == lamp.current_mode && mode == LampMode::Off ==> next.sound_steps
                == sound_steps && next.played_run_loop == lamp.played_run_loop
            &&& mode == lamp.current_mode && mode == LampMode::Starting ==> next.played_run_loop
                == lamp.played_run_loop && next.sound_steps == (if sound_steps
                >= lamp.failed_track_duration_steps {
                0
            } else {
                sound_steps
            })
            &&& mode == lamp.current_mode && mode == LampMode::On && !lamp.played_run_loop ==> (
            if mode_steps >= 85 {
                next.played_run_loop && next.sound_steps == 0
            } else {
                !next.played_run_loop && next.sound_steps == sound_steps
            })
            &&& mode == lamp.current_mode && mode == LampMode::On && lamp.played_run_loop
                ==> next.played_run_loop && next.sound_steps == (if sound_steps >= 500 {
                0
            } else {
                sound_steps
            })
        }),
{
}

/// Picking a track of a failed start moves the random state on twice. The first state
/// picks one of the tracks 2, 3 and 4, never the last one; the second adds its top byte
/// to the steps that the track lasts. Nothing else changes.
pub proof fn law_failed_track_pick(lamp: LampSystem)
    ensures
        ({
            let next = lamp.after_failed_track();
            let number = (rng_after(lamp.rng) as int / 0x100_0000) % 3 + 2;
            let track = if number != lamp.last_failed_track {
                number
            } else if number == 4 {
                2
            } else {
                number + 1
            };
            let lasts: int = if track == 2 {
                360
            } else if track == 3 {
                590
            } else {
                500
            };
            &&& next.rng == rng_after(rng_after(lamp.rng))
            &&& lamp.upcoming_failed_track() == track
            &&& next.last_failed_track == track
            &&& next.failed_track_duration_steps == lasts + next.rng as int / 0x100_0000
            &&& next == (LampSystem {
                rng: next.rng,
                last_failed_track: next.last_failed_track,
                failed_track_duration_steps: next.failed_track_duration_steps,
                ..lamp
            })
        }),
{
    let first = rng_after(lamp.rng);
    let second = rng_after(first);
    law_random_byte(first);
    law_random_byte(second);
    law_failed_track_picked(rng_byte(first), lamp.last_failed_track);
    law_track_lengths(lamp.upcoming_failed_track());
}

/// A step picks a track of a failed start where the lamp begins to start, and where a
/// start goes on and its track is over. In every other step the random state and the
/// last track stay.
pub proof fn law_step_picks_tracks(lamp: LampSystem, now: u32, mode: LampMode)
    ensures
        ({
            let next = lamp.after_step(now, mode);
            let picks = mode == LampMode::Starting && (lamp.current_mode != LampMode::Starting || (
            lamp.sound_steps + 1) % 65536 >= lamp.failed_track_duration_steps);
            let picked = lamp.after_failed_track();
            &&& next.rng == (if picks {
                picked.rng
            } else {
                lamp.rng
            })
            &&& next.last_failed_track == (if picks {
                picked.last_failed_track
            } else {
                lamp.last_failed_track
            })
            &&& next.failed_track_duration_steps == (if picks {
                picked.failed_track_duration_steps
            } else {
                lamp.failed_track_duration_steps
            })
        }),
{
}

/// The sound module has 80 steps to come up. The step after that has its volume set, and
/// from then on the first step in which the lamp is off silences it; both happen once.
pub proof fn law_step_sets_module_up(lamp: LampSystem, now: u32, mode: LampMode)
    ensures
        ({
            let next = lamp.after_step(now, mode);
            &&& lamp.audio_boot_steps < 80 ==> next.audio_boot_steps == lamp.audio_boot_steps + 1
                && next.audio_configured == lamp.audio_configured && next.audio_stopped_after_boot
                == lamp.audio_stopped_after_boot
            &&& lamp.audio_boot_steps >= 80 ==> next.audio_boot_steps == lamp.audio_boot_steps
                && next.audio_configured && next.audio_stopped_after_boot == (
            lamp.audio_stopped_after_boot || (lamp.audio_configured && mode == LampMode::Off))
        }),
{
}

/// What is queued. A new mode empties the queue. Otherwise a queued track waits for the
/// module to be set up and for its turn, is started, waits 80 steps, is started again and
/// leaves the queue.
pub proof fn law_step_serves_queue(lamp: LampSystem, now: u32, mode: LampMode)
    ensures
        ({
            let next = lamp.after_step(now, mode);
            let served = lamp.audio_boot_steps >= 80 && lamp.audio_configured && (mode
                != LampMode::Off || lamp.audio_stopped_after_boot) && lamp.pending_track != 0;
            &&& mode != lamp.current_mode ==> next.pending_track == 0 && !next.pending_loop
                && next.pending_retry_steps == 0 && !next.audio_started
            &&& mode == lamp.current_mode ==> next.pending_loop == lamp.pending_loop
            &&& mode == lamp.current_mode && !served ==> next.pending_track == lamp.pending_track
                && next.pending_retry_steps == lamp.pending_retry_steps && next.audio_started
                == lamp.audio_started
            &&& mode == lamp.current_mode && served && lamp.pending_retry_steps > 0
                ==> next.pending_track == lamp.pending_track && next.pending_retry_steps
                == lamp.pending_retry_steps - 1 && next.audio_started == lamp.audio_started
            &&& mode == lamp.current_mode && served && lamp.pending_retry_steps == 0
                && !lamp.audio_started ==> next.pending_track == lamp.pending_track
                && next.pending_retry_steps == 80 && next.audio_started
            &&& mode == lamp.current_mode && served && lamp.pending_retry_steps == 0
                && lamp.audio_started ==> next.pending_track == 0 && next.pending_retry_steps == 0
                && next.audio_started
        }),
{
}

/// The parts of a step touch nothing but their own: the heartbeat its count and level,
/// the sound its counts and its tracks, the queue the module and what is queued.
pub proof fn law_parts_keep_to_their_own(lamp: LampSystem)
    ensures
        ({
            let beaten = lamp.after_heartbeat();
            beaten == (LampSystem {
                heartbeat_counter: beaten.heartbeat_counter,
                heartbeat_high: beaten.heartbeat_high,
                ..lamp
            })
        }),
        ({
            let sounded = lamp.after_sound();
            sounded == (LampSystem {
                mode_steps: sounded.mode_steps,
                sound_steps: sounded.sound_steps,
                played_run_loop: sounded.played_run_loop,
                rng: sounded.rng,
                last_failed_track: sounded.last_failed_track,
                failed_track_duration_steps: sounded.failed_track_duration_steps,
                ..lamp
            })
        }),
        ({
            let queued = lamp.after_queue();
            queued == (LampSystem {
                audio_boot_steps: queued.audio_boot_steps,
                audio_configured: queued.audio_configured,
                audio_stopped_after_boot: queued.audio_stopped_after_boot,
                pending_track: queued.pending_track,
                pending_retry_steps: queued.pending_retry_steps,
                audio_started: queued.audio_started,
                ..lamp
            })
        }),
{
}

/// The heartbeat writes its pin in the step that turns it over, and asks for nothing
/// in the others.
pub proof fn law_heartbeat_write(lamp: LampSystem)
    ensures
        lamp.after_heartbeat().heartbeat_high == lamp.heartbeat_high
            ==> lamp.heartbeat_actions().len() == 0,
        lamp.after_heartbeat().heartbeat_high != lamp.heartbeat_high ==> lamp.heartbeat_actions()
            == seq![
            Action::Pin(
                PinOp::Write(
                    if lamp.heartbeat_high {
                        0x10_0000
                    } else {
                        0x10
                    },
                ),
            ),
        ],
        lamp.after_heartbeat().heartbeat_high != lamp.heartbeat_high <==> 3
            <= lamp.heartbeat_counter < 255,
{
    lemma_pin_words();
}

/// What a change of mode sends. Off stops the sound and drops the relay, whatever the
/// mode was; a start that may fail drops the relay and plays the track that is picked; a
/// start that succeeds drops the relay and plays track 1. Both play at volume 24. A mode
/// that goes on sends nothing here.
pub proof fn law_change_of_mode_sends(lamp: LampSystem, mode: LampMode)
    ensures
        mode == lamp.current_mode ==> lamp.switch_actions(mode).len() == 0,
        mode != lamp.current_mode && mode == LampMode::Off ==> lamp.switch_actions(mode) == seq![
            Action::Send(Command { code: 0x16, param: 0 }),
            Action::Pin(PinOp::Write(0x80_0000)),
        ],
        mode != lamp.current_mode && mode == LampMode::Starting ==> lamp.switch_actions(mode)
            == seq![
            Action::Pin(PinOp::Write(0x80_0000)),
            Action::Send(Command { code: 0x06, param: 24 }),
            Action::Send(
                Command { code: 0x12, param: lamp.after_failed_track().last_failed_track as u16 },
            ),
        ],
        mode != lamp.current_mode && mode == LampMode::On ==> lamp.switch_actions(mode) == seq![
            Action::Pin(PinOp::Write(0x80_0000)),
            Action::Send(Command { code: 0x06, param: 24 }),
            Action::Send(Command { code: 0x12, param: 1 }),
        ],
{
    lemma_pin_words();
}

/// What the sound of a step sends, for every state: nothing where the lamp is off, a new
/// track of a failed start where the last one is over, and track 5 where a start has just
/// succeeded or the running track is over. The first time it comes with the volume.
pub proof fn law_sound_sends(lamp: LampSystem)
    ensures
        ({
            let mode_steps = (lamp.mode_steps + 1) % 65536;
            let sound_steps = (lamp.sound_steps + 1) % 65536;
            let sent = lamp.sound_actions();
            &&& lamp.current_mode == LampMode::Off ==> sent.len() == 0
            &&& lamp.current_mode == LampMode::Starting && sound_steps
                < lamp.failed_track_duration_steps ==> sent.len() == 0
            &&& lamp.current_mode == LampMode::Starting && sound_steps
                >= lamp.failed_track_duration_steps ==> sent == seq![
                Action::Send(Command { code: 0x06, param: 24 }),
                Action::Send(
                    Command {
                        code: 0x12,
                        param: lamp.after_failed_track().last_failed_track as u16,
                    },
                ),
            ]
            &&& lamp.current_mode == LampMode::On && !lamp.played_run_loop && mode_steps < 85
                ==> sent.len() == 0
            &&& lamp.current_mode == LampMode::On && !lamp.played_run_loop && mode_steps >= 85
                ==> sent == seq![
                Action::Send(Command { code: 0x06, param: 24 }),
                Action::Send(Command { code: 0x12, param: 5 }),
            ]
            &&& lamp.current_mode == LampMode::On && lamp.played_run_loop && sound_steps < 500
                ==> sent.len() == 0
            &&& lamp.current_mode == LampMode::On && lamp.played_run_loop && sound_steps >= 500
                ==> sent == seq![Action::Send(Command { code: 0x12, param: 5 })]
        }),
{
}

/// What the queue of a step sends, for every state: nothing while the module comes up,
/// then the volume, then a stop where the lamp is off, and after that the queued track
/// when it is its turn.
pub proof fn law_queue_sends(lamp: LampSystem)
    ensures
        ({
            let sent = lamp.queue_actions();
            let up = lamp.audio_boot_steps >= 80;
            let quiet = lamp.current_mode != LampMode::Off || lamp.audio_stopped_after_boot;
            &&& !up ==> sent.len() == 0
            &&& up && !lamp.audio_configured ==> sent == seq![
                Action::Send(Command { code: 0x06, param: 24 }),
            ]
            &&& up && lamp.audio_configured && !quiet ==> sent == seq![
                Action::Send(Command { code: 0x16, param: 0 }),
            ]
            &&& up && lamp.audio_configured && quiet && (lamp.pending_track == 0
                || lamp.pending_retry_steps > 0) ==> sent.len() == 0
            &&& up && lamp.audio_configured && quiet && lamp.pending_track != 0
                && lamp.pending_retry_steps == 0 ==> sent == seq![
                Action::Send(Command { code: 0x12, param: lamp.pending_track as u16 }),
            ]
        }),
{
}

proof fn lemma_middle_of_step(lamp: LampSystem, now: u32, mode: LampMode)
    ensures
        ({
            let mid = lamp.mid_step(now, mode);
            let changed = mode != lamp.current_mode;
            &&& mid.current_mode == mode
            &&& changed ==> mid.mode_steps == 0 && mid.sound_steps == 0 && !mid.played_run_loop
                && mid.pending_track == 0
            &&& changed && mode == LampMode::Starting ==> mid.failed_track_duration_steps
                == lamp.after_failed_track().failed_track_duration_steps
            &&& !changed ==> mid.mode_steps == lamp.mode_steps && mid.sound_steps
                == lamp.sound_steps && mid.played_run_loop == lamp.played_run_loop
                && mid.pending_track == lamp.pending_track && mid.pending_retry_steps
                == lamp.pending_retry_steps && mid.failed_track_duration_steps
                == lamp.failed_track_duration_steps && mid.rng == lamp.rng && mid.last_failed_track
                == lamp.last_failed_track
            &&& mid.audio_boot_steps == lamp.audio_boot_steps
            &&& mid.audio_configured == lamp.audio_configured
            &&& mid.audio_stopped_after_boot == lamp.audio_stopped_after_boot
        }),
{
}

proof fn lemma_sound_of_step(lamp: LampSystem, now: u32, mode: LampMode)
    ensures
        ({
            let mid = lamp.mid_step(now, mode);
            let mode_steps = (lamp.mode_steps + 1) % 65536;
            let sound_steps = (lamp.sound_steps + 1) % 65536;
            mid.sound_actions() == (if mode != lamp.current_mode || mode == LampMode::Off {
                Seq::<Action>::empty()
            } else if mode == LampMode::Starting {
                if sound_steps >= lamp.failed_track_duration_steps {
                    seq![
                        Action::Send(Command { code: 0x06, param: 24 }),
                        Action::Send(
                            Command {
                                code: 0x12,
                                param: lamp.after_failed_track().last_failed_track as u16,
                            },
                        ),
                    ]
                } else {
                    Seq::empty()
                }
            } else if !lamp.played_run_loop {
                if mode_steps >= 85 {
                    seq![
                        Action::Send(Command { code: 0x06, param: 24 }),
                        Action::Send(Command { code: 0x12, param: 5 }),
                    ]
                } else {
                    Seq::empty()
                }
            } else if sound_steps >= 500 {
                seq![Action::Send(Command { code: 0x12, param: 5 })]
            } else {
                Seq::empty()
            })
        }),
{
    let mid = lamp.mid_step(now, mode);
    lemma_middle_of_step(lamp, now, mode);
    law_failed_track_pick(lamp);
    law_failed_track_pick(mid);
    law_sound_sends(mid);
    assert(mode != lamp.current_mode ==> mid.sound_actions() =~= Seq::<Action>::empty());
}

proof fn lemma_queue_of_step(lamp: LampSystem, now: u32, mode: LampMode)
    ensures
        lamp.mid_step(now, mode).after_sound().queue_actions() == (if lamp.audio_boot_steps < 80 {
            Seq::<Action>::empty()
        } else if !lamp.audio_configured {
            seq![Action::Send(Command { code: 0x06, param: 24 })]
        } else if mode == LampMode::Off && !lamp.audio_stopped_after_boot {
            seq![Action::Send(Command { code: 0x16, param: 0 })]
        } else if mode == lamp.current_mode && lamp.pending_track != 0 && lamp.pending_retry_steps
            == 0 {
            seq![Action::Send(Command { code: 0x12, param: lamp.pending_track as u16 })]
        } else {
            Seq::empty()
        }),
{
    let mid = lamp.mid_step(now, mode);
    lemma_middle_of_step(lamp, now, mode);
    law_parts_keep_to_their_own(mid);
    law_queue_sends(mid.after_sound());
    assert(lamp.audio_boot_steps < 80 ==> mid.after_sound().queue_actions() =~= Seq::<
        Action,
    >::empty());
}

/// All that a step asks for, in its order, for every state and input. The heartbeat comes
/// first; then what a change of mode sends; then the relay of a lamp that is on, up where
/// the mode has gone on for 85 steps; then the sound that is due in a mode that goes on;
/// then what sets the module up or is queued for it. Both frames and a wait of 100000
/// cycles end the step.
pub proof fn law_step_sends(lamp: LampSystem, now: u32, mode: LampMode)
    ensures
        ({
            let changed = mode != lamp.current_mode;
            let mode_steps = (lamp.mode_steps + 1) % 65536;
            let sound_steps = (lamp.sound_steps + 1) % 65536;
            let failed_track = lamp.after_failed_track().last_failed_track as u16;
            let none = Seq::<Action>::empty();
            let heartbeat = if 3 <= lamp.heartbeat_counter < 255 {
                seq![
                    Action::Pin(
                        PinOp::Write(
                            if lamp.heartbeat_high {
                                0x10_0000
                            } else {
                                0x10
                            },
                        ),
                    ),
                ]
            } else {
                none
            };
            let switch = if !changed {
                none
            } else {
                match mode {
                    LampMode::Off => seq![
                        Action::Send(Command { code: 0x16, param: 0 }),
                        Action::Pin(PinOp::Write(0x80_0000)),
                    ],
                    LampMode::Starting => seq![
                        Action::Pin(PinOp::Write(0x80_0000)),
                        Action::Send(Command { code: 0x06, param: 24 }),
                        Action::Send(Command { code: 0x12, param: failed_track }),
                    ],
                    LampMode::On => seq![
                        Action::Pin(PinOp::Write(0x80_0000)),
                        Action::Send(Command { code: 0x06, param: 24 }),
                        Action::Send(Command { code: 0x12, param: 1 }),
                    ],
                }
            };
            let relay = if mode != LampMode::On {
                none
            } else if !changed && lamp.mode_steps >= 85 {
                seq![Action::Pin(PinOp::Write(0x80))]
            } else {
                seq![Action::Pin(PinOp::Write(0x80_0000))]
            };
            let sound = if changed || mode == LampMode::Off {
                none
            } else if mode == LampMode::Starting {
                if sound_steps >= lamp.failed_track_duration_steps {
                    seq![
                        Action::Send(Command { code: 0x06, param: 24 }),
                        Action::Send(Command { code: 0x12, param: failed_track }),
                    ]
                } else {
                    none
                }
            } else if !lamp.played_run_loop {
                if mode_steps >= 85 {
                    seq![
                        Action::Send(Command { code: 0x06, param: 24 }),
                        Action::Send(Command { code: 0x12, param: 5 }),
                    ]
                } else {
                    none
                }
            } else if sound_steps >= 500 {
                seq![Action::Send(Command { code: 0x12, param: 5 })]
            } else {
                none
            };
            let queue = if lamp.audio_boot_steps < 80 {
                none
            } else if !lamp.audio_configured {
                seq![Action::Send(Command { code: 0x06, param: 24 })]
            } else if mode == LampMode::Off && !lamp.audio_stopped_after_boot {
                seq![Action::Send(Command { code: 0x16, param: 0 })]
            } else if !changed && lamp.pending_track != 0 && lamp.pending_retry_steps == 0 {
                seq![Action::Send(Command { code: 0x12, param: lamp.pending_track as u16 })]
            } else {
                none
            };
            lamp.step_actions(now, mode) == heartbeat + switch + relay + sound + queue + seq![
                Action::ShowA,
                Action::ShowB,
                Action::Pin(PinOp::Delay(100_000)),
            ]
        }),
{
    let mid = lamp.mid_step(now, mode);
    let none = Seq::<Action>::empty();
    lemma_pin_words();
    lemma_middle_of_step(lamp, now, mode);
    lemma_sound_of_step(lamp, now, mode);
    lemma_queue_of_step(lamp, now, mode);
    law_heartbeat_write(lamp);
    law_change_of_mode_sends(lamp, mode);
    assert(lamp.heartbeat_actions().len() == 0 ==> lamp.heartbeat_actions() =~= none);
    assert(lamp.switch_actions(mode).len() == 0 ==> lamp.switch_actions(mode) =~= none);
    assert(mid.relay_actions() == (if mode != LampMode::On {
        none
    } else if mode == lamp.current_mode && lamp.mode_steps >= 85 {
        seq![Action::Pin(PinOp::Write(0x80))]
    } else {
        seq![Action::Pin(PinOp::Write(0x80_0000))]
    }));
}

/// Switching off silences the lamp from every other mode: a stop goes out, and the step
/// plays no track, neither after the stop nor before it. The relay is dropped with it.
pub proof fn law_switching_off_stops_sound(lamp: LampSystem, now: u32)
    requires
        lamp.current_mode != LampMode::Off,
    ensures
        ({
            let actions = lamp.step_actions(now, LampMode::Off);
            &&& actions.contains(Action::Send(Command { code: 0x16, param: 0 }))
            &&& actions.contains(Action::Pin(PinOp::Write(0x80_0000)))
            &&& forall|i: int|
                0 <= i < actions.len() ==> match #[trigger] actions[i] {
                    Action::Send(command) => command.code != 0x12 && command.code != 0x03,
                    _ => true,
                }
        }),
{
    law_step_sends(lamp, now, LampMode::Off);
    let actions = lamp.step_actions(now, LampMode::Off);
    let first: int = if 3 <= lamp.heartbeat_counter < 255 {
        1
    } else {
        0
    };
    assert(actions[first] == Action::Send(Command { code: 0x16, param: 0 }));
    assert(actions[first + 1] == Action::Pin(PinOp::Write(0x80_0000)));
}

/// A lamp that stays off and has nothing queued plays nothing and leaves the relay alone.
pub proof fn law_staying_off_plays_nothing(lamp: LampSystem, now: u32, i: int)
    requires
        lamp.current_mode == LampMode::Off,
        lamp.pending_track == 0,
        0 <= i < lamp.step_actions(now, LampMode::Off).len(),
    ensures
        match lamp.step_actions(now, LampMode::Off)[i] {
            Action::Send(command) => command.code != 0x12 && command.code != 0x03,
            Action::Pin(PinOp::Write(word)) => word != 0x80 && word != 0x80_0000,
            _ => true,
        },
{
    law_step_sends(lamp, now, LampMode::Off);
}

/// A lamp that begins to start or goes on plays exactly one track, right after the volume: the
/// picked one of 2, 3 and 4 for a start that may fail, and the first for one that
/// succeeds. The relay is low from the first write of it to the last.
pub proof fn law_new_mode_plays_its_track(lamp: LampSystem, now: u32, mode: LampMode, i: int)
    requires
        mode != lamp.current_mode,
        mode != LampMode::Off,
        0 <= i < lamp.step_actions(now, mode).len(),
    ensures
        ({
            let actions = lamp.step_actions(now, mode);
            let at: int = if 3 <= lamp.heartbeat_counter < 255 {
                3
            } else {
                2
            };
            &&& at < actions.len()
            &&& actions[at - 1] == Action::Send(Command { code: 0x06, param: 24 })
            &&& actions[at] matches Action::Send(command) && command.code == 0x12 && (if mode
                == LampMode::On {
                command.param == 1
            } else {
                2 <= command.param <= 4 && command.param != lamp.last_failed_track
                    && command.param == lamp.after_step(now, mode).last_failed_track
            })
            &&& i != at ==> match actions[i] {
                Action::Send(command) => command.code != 0x12 && command.code != 0x03,
                Action::Pin(PinOp::Write(word)) => word != 0x80,
                _ => true,
            }
        }),
{
    let mid = lamp.mid_step(now, mode);
    let rest = mid.relay_actions() + mid.sound_actions() + mid.after_sound().queue_actions();
    let tail = seq![Action::ShowA, Action::ShowB, Action::Pin(PinOp::Delay(100_000))];
    let before = lamp.heartbeat_actions() + lamp.switch_actions(mode);
    law_failed_track_pick(lamp);
    law_step_picks_tracks(lamp, now, mode);
    law_heartbeat_write(lamp);
    law_change_of_mode_sends(lamp, mode);
    assert(lamp.step_actions(now, mode) == before + (rest + tail));
    assert(forall|j: int|
        0 <= j < rest.len() ==> match #[trigger] rest[j] {
            Action::Send(command) => command.code != 0x12 && command.code != 0x03,
            Action::Pin(PinOp::Write(word)) => word != 0x80,
            _ => true,
        }) by {
        lemma_pin_words();
        lemma_middle_of_step(lamp, now, mode);
        lemma_sound_of_step(lamp, now, mode);
        lemma_queue_of_step(lamp, now, mode);
    }
}

/// Both frames go out once in every step, the first strip before the second, after
/// everything else but the closing wait.
pub proof fn law_frames_go_out_last(lamp: LampSystem, now: u32, mode: LampMode, i: int)
    requires
        0 <= i < lamp.step_actions(now, mode).len(),
    ensures
        ({
            let actions = lamp.step_actions(now, mode);
            &&& actions[i] == Action::ShowA <==> i == actions.len() - 3
            &&& actions[i] == Action::ShowB <==> i == actions.len() - 2
            &&& actions[i] == Action::Pin(PinOp::Delay(100_000)) <==> i == actions.len() - 1
        }),
{
    let mid = lamp.mid_step(now, mode);
    let early = lamp.heartbeat_actions() + lamp.switch_actions(mode) + mid.relay_actions();
    let front = early + mid.sound_actions() + mid.after_sound().queue_actions();
    let tail = seq![Action::ShowA, Action::ShowB, Action::Pin(PinOp::Delay(100_000))];
    lemma_sent_by_parts(lamp, mode, i);
    lemma_sent_by_parts(lamp, mode, i - lamp.heartbeat_actions().len());
    lemma_sent_by_parts(
        mid,
        mode,
        i - lamp.heartbeat_actions().len() - lamp.switch_actions(mode).len(),
    );
    lemma_sent_by_parts(mid, mode, i - early.len());
    lemma_sent_by_parts(mid.after_sound(), mode, i - early.len() - mid.sound_actions().len());
    assert(lamp.step_actions(now, mode) == front + tail);
}

proof fn lemma_sent_by_parts(lamp: LampSystem, mode: LampMode, i: int)
    ensures
        0 <= i < lamp.heartbeat_actions().len() ==> lamp.heartbeat_actions()[i] is Send
            || lamp.heartbeat_actions()[i] is Pin && lamp.heartbeat_actions()[i]->Pin_0 is Write,
        0 <= i < lamp.switch_actions(mode).len() ==> lamp.switch_actions(mode)[i] is Send
            || lamp.switch_actions(mode)[i] is Pin && lamp.switch_actions(mode)[i]->Pin_0 is Write,
        0 <= i < lamp.relay_actions().len() ==> lamp.relay_actions()[i] is Pin
            && lamp.relay_actions()[i]->Pin_0 is Write,
        0 <= i < lamp.sound_actions().len() ==> lamp.sound_actions()[i] is Send,
        0 <= i < lamp.queue_actions().len() ==> lamp.queue_actions()[i] is Send,
{
}

} // verus!
