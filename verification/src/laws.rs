//! What holds of the lamp as a whole, over its steps and its output pins.

use crate::action::Action;
use crate::dfplayer::{stop_command, track_command, volume_command};
use crate::gpio::{
    law_pin_write_is_local, level_after, level_after_all, pin_mask, PinOp, HEARTBEAT_PIN,
    RELAY_PIN,
};
use crate::lamp::{
    boot_actions, pin_action, play_actions, selected_mode, ticks_between, LampMode, LampSystem,
    DFPLAYER_BOOT_DELAY_STEPS, DFPLAYER_VOLUME, HEARTBEAT_TOGGLE_FRAMES, RUN_TRACK_REPEAT_STEPS,
    SUCCESS_START_STEPS, UPDATE_DELAY,
};
use crate::progress::{Progress, BLACK, LED_COUNT};
use crate::tracks::{FAILED_START_MIN_TRACK, FAILED_START_TRACKS, RUN_TRACK};
use crate::ws2815::{frame_signals, law_signals_stay_on_their_line, Ws2815};
use vstd::prelude::*;

verus! {

/// Whether `strip` is wired to pin `pin_number`.
pub open spec fn wired_to(strip: Ws2815, pin_number: u8) -> bool {
    &&& strip.set_mask == pin_mask(pin_number, true)
    &&& strip.clear_mask == pin_mask(pin_number, false)
}

/// The level of a pin after one action of `lamp`.
pub open spec fn level_after_action(
    lamp: LampSystem,
    pin_number: u8,
    level: bool,
    action: Action,
) -> bool {
    match action {
        Action::Pin(op) => level_after(pin_number, level, op),
        Action::Send(_) => level,
        Action::ShowA => level_after_all(
            pin_number,
            level,
            lamp.ws_a.all_ops(frame_signals(lamp.frame_a@)),
        ),
        Action::ShowB => level_after_all(
            pin_number,
            level,
            lamp.ws_b.all_ops(frame_signals(lamp.frame_b@)),
        ),
    }
}

/// The level of a pin after a run of actions of `lamp`.
pub open spec fn level_after_actions(
    lamp: LampSystem,
    pin_number: u8,
    level: bool,
    actions: Seq<Action>,
) -> bool
    decreases actions.len(),
{
    if actions.len() == 0 {
        level
    } else {
        level_after_action(
            lamp,
            pin_number,
            level_after_actions(lamp, pin_number, level, actions.drop_last()),
            actions.last(),
        )
    }
}

/// What one step sees: the reading of the timer, and the mode that the switches ask
/// for.
pub struct Input {
    pub now: u32,
    pub mode: LampMode,
}

/// The lamp after one step, but for the frames.
#[verifier::opaque]
pub open spec fn stepped(lamp: LampSystem, input: Input) -> LampSystem {
    lamp.after_step(input.now, input.mode)
}

/// The lamp after a run of steps, but for the frames.
pub open spec fn after_steps(lamp: LampSystem, inputs: Seq<Input>) -> LampSystem
    decreases inputs.len(),
{
    if inputs.len() == 0 {
        lamp
    } else {
        stepped(after_steps(lamp, inputs.drop_last()), inputs.last())
    }
}

proof fn lemma_heartbeat_of_step(lamp: LampSystem, input: Input)
    ensures
        stepped(lamp, input).heartbeat_counter == lamp.after_heartbeat().heartbeat_counter,
        stepped(lamp, input).heartbeat_high == lamp.after_heartbeat().heartbeat_high,
{
    reveal(stepped);
}

proof fn lemma_counts_of_step(lamp: LampSystem, input: Input)
    requires
        lamp.control_wf(),
    ensures
        ({
            let next = stepped(lamp, input);
            &&& next.current_mode == input.mode
            &&& next.mode_steps == (if lamp.current_mode == input.mode {
                (lamp.mode_steps + 1) % 65536
            } else {
                1
            })
            &&& input.mode == LampMode::On ==> next.played_run_loop == (lamp.current_mode
                == LampMode::On && (lamp.played_run_loop || lamp.mode_steps + 1
                >= SUCCESS_START_STEPS))
        }),
{
    reveal(stepped);
}

proof fn lemma_control_of_step(lamp: LampSystem, input: Input)
    requires
        lamp.control_wf(),
    ensures
        stepped(lamp, input).control_wf(),
{
    reveal(stepped);
}

proof fn lemma_module_of_step(lamp: LampSystem, input: Input)
    requires
        lamp.control_wf(),
    ensures
        ({
            let next = stepped(lamp, input);
            &&& next.audio_boot_steps == (if lamp.audio_boot_steps < DFPLAYER_BOOT_DELAY_STEPS {
                lamp.audio_boot_steps + 1
            } else {
                lamp.audio_boot_steps as int
            })
            &&& next.audio_configured == (lamp.audio_boot_steps >= DFPLAYER_BOOT_DELAY_STEPS)
            &&& next.audio_stopped_after_boot == (lamp.audio_stopped_after_boot || (
            lamp.audio_configured && input.mode == LampMode::Off))
        }),
{
    reveal(stepped);
}

proof fn lemma_level_concat(
    lamp: LampSystem,
    pin_number: u8,
    level: bool,
    a: Seq<Action>,
    b: Seq<Action>,
)
    ensures
        level_after_actions(lamp, pin_number, level, a + b) == level_after_actions(
            lamp,
            pin_number,
            level_after_actions(lamp, pin_number, level, a),
            b,
        ),
    decreases b.len(),
{
    if b.len() == 0 {
        assert(a + b == a);
    } else {
        assert((a + b).drop_last() == a + b.drop_last());
        lemma_level_concat(lamp, pin_number, level, a, b.drop_last());
    }
}

/// An action that does not drive pin `pin_number`.
spec fn leaves_alone(lamp: LampSystem, pin_number: u8, action: Action) -> bool {
    forall|level: bool| #[trigger]
        level_after_action(lamp, pin_number, level, action) == level
}

proof fn lemma_left_alone(lamp: LampSystem, pin_number: u8, level: bool, actions: Seq<Action>)
    requires
        forall|i: int|
            0 <= i < actions.len() ==> leaves_alone(lamp, pin_number, #[trigger] actions[i]),
    ensures
        level_after_actions(lamp, pin_number, level, actions) == level,
    decreases actions.len(),
{
    if actions.len() > 0 {
        lemma_left_alone(lamp, pin_number, level, actions.drop_last());
        assert(leaves_alone(lamp, pin_number, actions[actions.len() - 1]));
    }
}

proof fn lemma_shows_leave_alone(lamp: LampSystem, pin_a: u8, pin_b: u8, pin_number: u8)
    requires
        pin_a < 16,
        pin_b < 16,
        pin_number < 16,
        pin_number != pin_a,
        pin_number != pin_b,
        wired_to(lamp.ws_a, pin_a),
        wired_to(lamp.ws_b, pin_b),
    ensures
        leaves_alone(lamp, pin_number, Action::ShowA),
        leaves_alone(lamp, pin_number, Action::ShowB),
{
    assert forall|level: bool|
        #[trigger] level_after_action(lamp, pin_number, level, Action::ShowA) == level by {
        law_signals_stay_on_their_line(
            lamp.ws_a,
            pin_a,
            frame_signals(lamp.frame_a@),
            pin_number,
            level,
        );
    }
    assert forall|level: bool|
        #[trigger] level_after_action(lamp, pin_number, level, Action::ShowB) == level by {
        law_signals_stay_on_their_line(
            lamp.ws_b,
            pin_b,
            frame_signals(lamp.frame_b@),
            pin_number,
            level,
        );
    }
}

proof fn lemma_pin_action(lamp: LampSystem, pin_number: u8, high: bool, other: u8)
    requires
        pin_number < 16,
        other < 16,
    ensures
        other != pin_number ==> leaves_alone(lamp, other, pin_action(pin_number, high)),
        forall|level: bool|
            other == pin_number ==> #[trigger] level_after_action(
                lamp,
                other,
                level,
                pin_action(pin_number, high),
            ) == high,
{
    law_pin_write_is_local(pin_number, high, other, true);
    law_pin_write_is_local(pin_number, high, other, false);
}

proof fn lemma_sends_leave_alone(wiring: LampSystem, lamp: LampSystem, pin_number: u8, level: bool)
    ensures
        level_after_actions(wiring, pin_number, level, lamp.sound_actions()) == level,
        level_after_actions(wiring, pin_number, level, lamp.queue_actions()) == level,
{
    lemma_left_alone(wiring, pin_number, level, lamp.sound_actions());
    lemma_left_alone(wiring, pin_number, level, lamp.queue_actions());
}

proof fn lemma_step_level(
    lamp: LampSystem,
    now: u32,
    mode: LampMode,
    wiring: LampSystem,
    pin_a: u8,
    pin_b: u8,
    pin_number: u8,
    level: bool,
)
    requires
        pin_a < 16,
        pin_b < 16,
        pin_number < 16,
        pin_number != pin_a,
        pin_number != pin_b,
        wired_to(wiring.ws_a, pin_a),
        wired_to(wiring.ws_b, pin_b),
    ensures
        level_after_actions(wiring, pin_number, level, lamp.step_actions(now, mode))
            == level_after_actions(
            wiring,
            pin_number,
            level_after_actions(
                wiring,
                pin_number,
                level_after_actions(wiring, pin_number, level, lamp.heartbeat_actions()),
                lamp.switch_actions(mode),
            ),
            lamp.mid_step(now, mode).relay_actions(),
        ),
{
    let heartbeat = lamp.heartbeat_actions();
    let switch = lamp.switch_actions(mode);
    let mid = lamp.mid_step(now, mode);
    let relay = mid.relay_actions();
    let sound = mid.sound_actions();
    let queue = mid.after_sound().queue_actions();
    let tail = seq![Action::ShowA, Action::ShowB, Action::Pin(PinOp::Delay(UPDATE_DELAY))];
    lemma_level_concat(wiring, pin_number, level, heartbeat, switch);
    lemma_level_concat(wiring, pin_number, level, heartbeat + switch, relay);
    lemma_level_concat(wiring, pin_number, level, heartbeat + switch + relay, sound);
    lemma_level_concat(wiring, pin_number, level, heartbeat + switch + relay + sound, queue);
    lemma_level_concat(wiring, pin_number, level, heartbeat + switch + relay + sound + queue, tail);
    let set = level_after_actions(wiring, pin_number, level, heartbeat + switch + relay);
    lemma_sends_leave_alone(wiring, mid, pin_number, set);
    lemma_sends_leave_alone(wiring, mid.after_sound(), pin_number, set);
    lemma_shows_leave_alone(wiring, pin_a, pin_b, pin_number);
    lemma_left_alone(wiring, pin_number, set, tail);
}

proof fn lemma_switch_level(lamp: LampSystem, wiring: LampSystem, mode: LampMode, level: bool)
    ensures
        level_after_actions(wiring, RELAY_PIN, level, lamp.switch_actions(mode)) == (if mode
            == lamp.current_mode {
            level
        } else {
            false
        }),
        level_after_actions(wiring, HEARTBEAT_PIN, level, lamp.switch_actions(mode)) == level,
{
    lemma_pin_action(wiring, RELAY_PIN, false, RELAY_PIN);
    lemma_pin_action(wiring, RELAY_PIN, false, HEARTBEAT_PIN);
    reveal_with_fuel(level_after_actions, 4);
    lemma_left_alone(wiring, HEARTBEAT_PIN, level, lamp.switch_actions(mode));
}

/// Power-up leaves the relay and the heartbeat LED off, whatever the pins carried
/// before: a new lamp starts with the levels that it has noted for them.
pub proof fn law_boot_leaves_pins_low(lamp: LampSystem, pin_number: u8, level: bool)
    requires
        pin_number == RELAY_PIN || pin_number == HEARTBEAT_PIN,
    ensures
        !level_after_actions(lamp, pin_number, level, boot_actions()),
{
    lemma_pin_action(lamp, HEARTBEAT_PIN, false, pin_number);
    lemma_pin_action(lamp, RELAY_PIN, false, pin_number);
    let pins = boot_actions().take(2);
    let rest = boot_actions().skip(2);
    assert(boot_actions() == pins + rest);
    lemma_level_concat(lamp, pin_number, level, pins, rest);
    reveal_with_fuel(level_after_actions, 3);
    lemma_left_alone(
        lamp,
        pin_number,
        level_after_actions(lamp, pin_number, level, pins),
        rest,
    );
}

/// The relay is on only while the lamp is on and its start has succeeded: whatever
/// a step does to the other pins, after it the relay is at the level that the mode
/// and the count of its steps ask for, and off in every other mode.
pub proof fn law_relay_follows_success(
    lamp: LampSystem,
    now: u32,
    mode: LampMode,
    next: LampSystem,
    pin_a: u8,
    pin_b: u8,
    level: bool,
)
    requires
        lamp.steps_to(now, mode, next),
        pin_a < 16,
        pin_b < 16,
        pin_a != RELAY_PIN,
        pin_b != RELAY_PIN,
        wired_to(lamp.ws_a, pin_a),
        wired_to(lamp.ws_b, pin_b),
        lamp.current_mode != LampMode::On ==> !level,
    ensures
        level_after_actions(next, RELAY_PIN, level, lamp.step_actions(now, mode)) == (mode
            == LampMode::On && lamp.current_mode == LampMode::On && lamp.mode_steps
            >= SUCCESS_START_STEPS),
        next.current_mode == mode,
{
    lemma_same_strips(lamp, now, mode, next);
    lemma_relay_level(lamp, now, mode, next, pin_a, pin_b, level);
}

proof fn lemma_same_strips(lamp: LampSystem, now: u32, mode: LampMode, next: LampSystem)
    requires
        lamp.steps_to(now, mode, next),
    ensures
        next.ws_a == lamp.ws_a,
        next.ws_b == lamp.ws_b,
        next.current_mode == mode,
        next.heartbeat_high == lamp.after_heartbeat().heartbeat_high,
{
}

proof fn lemma_mid_step(lamp: LampSystem, now: u32, mode: LampMode)
    ensures
        lamp.mid_step(now, mode).current_mode == mode,
        lamp.mid_step(now, mode).mode_steps == (if mode == lamp.current_mode {
            lamp.mode_steps
        } else {
            0
        }),
{
}

proof fn lemma_relay_level(
    lamp: LampSystem,
    now: u32,
    mode: LampMode,
    wiring: LampSystem,
    pin_a: u8,
    pin_b: u8,
    level: bool,
)
    requires
        pin_a < 16,
        pin_b < 16,
        pin_a != RELAY_PIN,
        pin_b != RELAY_PIN,
        wired_to(wiring.ws_a, pin_a),
        wired_to(wiring.ws_b, pin_b),
        lamp.current_mode != LampMode::On ==> !level,
    ensures
        level_after_actions(wiring, RELAY_PIN, level, lamp.step_actions(now, mode)) == (mode
            == LampMode::On && lamp.current_mode == LampMode::On && lamp.mode_steps
            >= SUCCESS_START_STEPS),
{
    let heartbeat = lamp.heartbeat_actions();
    let mid = lamp.mid_step(now, mode);
    lemma_step_level(lamp, now, mode, wiring, pin_a, pin_b, RELAY_PIN, level);
    lemma_pin_action(wiring, HEARTBEAT_PIN, !lamp.heartbeat_high, RELAY_PIN);
    lemma_left_alone(wiring, RELAY_PIN, level, heartbeat);
    lemma_switch_level(lamp, wiring, mode, level);
    lemma_mid_step(lamp, now, mode);
    lemma_pin_action(wiring, RELAY_PIN, mid.mode_steps >= SUCCESS_START_STEPS, RELAY_PIN);
    reveal_with_fuel(level_after_actions, 2);
}

/// The heartbeat pin carries the level that the lamp has noted for it.
pub proof fn law_heartbeat_pin_follows(
    lamp: LampSystem,
    now: u32,
    mode: LampMode,
    next: LampSystem,
    pin_a: u8,
    pin_b: u8,
)
    requires
        lamp.steps_to(now, mode, next),
        pin_a < 16,
        pin_b < 16,
        pin_a != HEARTBEAT_PIN,
        pin_b != HEARTBEAT_PIN,
        wired_to(lamp.ws_a, pin_a),
        wired_to(lamp.ws_b, pin_b),
    ensures
        level_after_actions(
            next,
            HEARTBEAT_PIN,
            lamp.heartbeat_high,
            lamp.step_actions(now, mode),
        ) == next.heartbeat_high,
{
    lemma_same_strips(lamp, now, mode, next);
    lemma_heartbeat_level(lamp, now, mode, next, pin_a, pin_b);
}

proof fn lemma_heartbeat_level(
    lamp: LampSystem,
    now: u32,
    mode: LampMode,
    wiring: LampSystem,
    pin_a: u8,
    pin_b: u8,
)
    requires
        pin_a < 16,
        pin_b < 16,
        pin_a != HEARTBEAT_PIN,
        pin_b != HEARTBEAT_PIN,
        wired_to(wiring.ws_a, pin_a),
        wired_to(wiring.ws_b, pin_b),
    ensures
        level_after_actions(
            wiring,
            HEARTBEAT_PIN,
            lamp.heartbeat_high,
            lamp.step_actions(now, mode),
        ) == lamp.after_heartbeat().heartbeat_high,
{
    let level = lamp.heartbeat_high;
    let mid = lamp.mid_step(now, mode);
    lemma_step_level(lamp, now, mode, wiring, pin_a, pin_b, HEARTBEAT_PIN, level);
    lemma_pin_action(wiring, HEARTBEAT_PIN, !lamp.heartbeat_high, HEARTBEAT_PIN);
    lemma_pin_action(
        wiring,
        RELAY_PIN,
        mid.mode_steps >= SUCCESS_START_STEPS,
        HEARTBEAT_PIN,
    );
    reveal_with_fuel(level_after_actions, 2);
    lemma_switch_level(lamp, wiring, mode, level);
    lemma_switch_level(lamp, wiring, mode, !level);
    let beaten = level_after_actions(wiring, HEARTBEAT_PIN, level, lamp.heartbeat_actions());
    lemma_left_alone(wiring, HEARTBEAT_PIN, beaten, mid.relay_actions());
}

/// The heartbeat LED changes exactly once in as many steps as its half period has,
/// whatever the switches do.
pub proof fn law_heartbeat_period(lamp: LampSystem, inputs: Seq<Input>)
    requires
        lamp.control_wf(),
        inputs.len() == HEARTBEAT_TOGGLE_FRAMES,
    ensures
        after_steps(lamp, inputs).heartbeat_counter == lamp.heartbeat_counter,
        after_steps(lamp, inputs).heartbeat_high == !lamp.heartbeat_high,
        forall|n: int|
            0 <= n < HEARTBEAT_TOGGLE_FRAMES ==> (#[trigger] after_steps(
                lamp,
                inputs.take(n),
            )).heartbeat_due() == (n == HEARTBEAT_TOGGLE_FRAMES - 1 - lamp.heartbeat_counter),
{
    assert forall|n: int| 0 <= n <= HEARTBEAT_TOGGLE_FRAMES implies ({
        let reached = #[trigger] after_steps(lamp, inputs.take(n));
        &&& reached.heartbeat_counter == (lamp.heartbeat_counter + n) % (
        HEARTBEAT_TOGGLE_FRAMES as int)
        &&& reached.heartbeat_high == (lamp.heartbeat_high != (lamp.heartbeat_counter + n
            >= HEARTBEAT_TOGGLE_FRAMES))
    }) by {
        lemma_beats(lamp, inputs.take(n));
    }
    assert(inputs.take(HEARTBEAT_TOGGLE_FRAMES as int) == inputs);
}

proof fn lemma_beats(lamp: LampSystem, inputs: Seq<Input>)
    requires
        lamp.control_wf(),
        inputs.len() <= HEARTBEAT_TOGGLE_FRAMES,
    ensures
        ({
            let reached = after_steps(lamp, inputs);
            &&& reached.heartbeat_counter == (lamp.heartbeat_counter + inputs.len()) % (
            HEARTBEAT_TOGGLE_FRAMES as int)
            &&& reached.heartbeat_high == (lamp.heartbeat_high != (lamp.heartbeat_counter
                + inputs.len() >= HEARTBEAT_TOGGLE_FRAMES))
        }),
    decreases inputs.len(),
{
    if inputs.len() > 0 {
        lemma_beats(lamp, inputs.drop_last());
        lemma_heartbeat_of_step(after_steps(lamp, inputs.drop_last()), inputs.last());
    }
}

/// A new mode starts with an empty bar, the runner at the foot of the columns, and
/// its steps counted from the beginning.
pub proof fn law_new_mode_starts_empty(
    lamp: LampSystem,
    now: u32,
    mode: LampMode,
    next: LampSystem,
)
    requires
        lamp.control_wf(),
        lamp.steps_to(now, mode, next),
        mode != lamp.current_mode,
    ensures
        next.progress == (Progress { phase: 0, filled: 0 }),
        next.mode_steps == 1,
        next.sound_steps == 1,
        !next.played_run_loop,
        !next.audio_started,
        next.pending_track == 0,
{
}

/// Both strips of a lamp that is off are dark.
pub proof fn law_off_is_dark(
    lamp: LampSystem,
    now: u32,
    mode: LampMode,
    next: LampSystem,
    led: int,
)
    requires
        lamp.steps_to(now, mode, next),
        mode == LampMode::Off,
        0 <= led < LED_COUNT,
    ensures
        next.frame_a@[led] == BLACK,
        next.frame_b@[led] == BLACK,
{
}

/// A lamp that stays off, once its sound module has been silenced, asks for nothing
/// but its heartbeat and its dark frames.
pub proof fn law_off_is_quiet(lamp: LampSystem, now: u32)
    requires
        lamp.control_wf(),
        lamp.current_mode == LampMode::Off,
        lamp.audio_stopped_after_boot,
    ensures
        lamp.step_actions(now, LampMode::Off) == lamp.heartbeat_actions() + seq![
            Action::ShowA,
            Action::ShowB,
            Action::Pin(PinOp::Delay(UPDATE_DELAY)),
        ],
        lamp.after_step(now, LampMode::Off).audio_stopped_after_boot,
{
}

/// The bar of a lit lamp that stays in its mode moves by the ticks that the timer
/// has counted since the step before.
pub proof fn law_bar_follows_timer(lamp: LampSystem, now: u32, mode: LampMode, next: LampSystem)
    requires
        lamp.steps_to(now, mode, next),
        mode == lamp.current_mode,
        mode != LampMode::Off,
    ensures
        next.progress == lamp.progress.advanced(ticks_between(lamp.last_animation_tick, now)),
        next.last_animation_tick == now,
{
}

/// The timer counts down over 24 bits and starts again: the ticks between two
/// readings are right across the wrap, as long as fewer than 2^24 have passed.
pub proof fn law_timer_wraps(earlier: u32, passed: int)
    requires
        earlier < 0x100_0000,
        0 <= passed < 0x100_0000,
    ensures
        ticks_between(earlier, ((earlier - passed) % 0x100_0000) as u32) == passed,
{
}

/// The second switch goes before the first, and a pin that cannot be read counts
/// as an open switch.
pub proof fn law_switches(a0_low: Option<bool>, a1_low: Option<bool>)
    ensures
        selected_mode(a0_low, Some(true)) == LampMode::On,
        a1_low != Some(true) ==> selected_mode(Some(true), a1_low) == LampMode::Starting,
        selected_mode(a0_low, None) == selected_mode(a0_low, Some(false)),
        selected_mode(None, a1_low) == selected_mode(Some(false), a1_low),
        selected_mode(None, None) == LampMode::Off,
{
}

/// Each track of a failed start is another one than the track before it.
pub proof fn law_failed_starts_vary(lamp: LampSystem)
    ensures
        lamp.after_failed_track().last_failed_track != lamp.last_failed_track,
        FAILED_START_MIN_TRACK <= lamp.after_failed_track().last_failed_track
            < FAILED_START_MIN_TRACK + FAILED_START_TRACKS,
        lamp.after_failed_track().last_failed_track == lamp.upcoming_failed_track(),
{
}

/// In a mode that goes on, sound is asked for exactly when a count is full: a new
/// track of a failed start when the last one is over, the running track when the
/// start has succeeded, and again whenever it is over. Otherwise the count goes on.
pub proof fn law_sound_comes_when_due(lamp: LampSystem)
    requires
        lamp.control_wf(),
    ensures
        lamp.current_mode == LampMode::Off ==> lamp.sound_actions() == Seq::<Action>::empty(),
        lamp.current_mode == LampMode::Starting ==> lamp.sound_actions() == (if lamp.sound_steps + 1
            == lamp.failed_track_duration_steps {
            play_actions(lamp.upcoming_failed_track())
        } else {
            Seq::<Action>::empty()
        }),
        lamp.current_mode == LampMode::On && !lamp.played_run_loop ==> lamp.sound_actions() == (
        if lamp.mode_steps + 1 == SUCCESS_START_STEPS {
            play_actions(RUN_TRACK)
        } else {
            Seq::<Action>::empty()
        }),
        lamp.played_run_loop ==> lamp.sound_actions() == (if lamp.sound_steps + 1
            == RUN_TRACK_REPEAT_STEPS {
            seq![Action::Send(track_command(RUN_TRACK))]
        } else {
            Seq::<Action>::empty()
        }),
        lamp.current_mode != LampMode::Off ==> lamp.after_sound().sound_steps == (
        if lamp.sound_actions().len() > 0 {
            0int
        } else {
            (lamp.sound_steps + 1) % 65536
        }),
{
    assert(play_actions(RUN_TRACK).len() == 2);
}

/// The queue never starts a track: it sets the volume once the sound module has
/// come up, and stops the module where the lamp is off.
pub proof fn law_queue_only_sets_up(lamp: LampSystem)
    requires
        lamp.control_wf(),
    ensures
        ({
            ||| lamp.queue_actions() == Seq::<Action>::empty()
            ||| lamp.queue_actions() == seq![Action::Send(volume_command(DFPLAYER_VOLUME))]
            ||| lamp.queue_actions() == seq![Action::Send(stop_command())]
        }),
        lamp.audio_configured ==> lamp.queue_actions() != seq![
            Action::Send(volume_command(DFPLAYER_VOLUME)),
        ],
        lamp.audio_stopped_after_boot ==> lamp.queue_actions() == Seq::<Action>::empty(),
{
    if lamp.audio_configured {
        let volume = seq![Action::Send(volume_command(DFPLAYER_VOLUME))];
        assert(volume.len() == 1);
        assert(volume[0] != Action::Send(stop_command()));
        assert(lamp.queue_actions() =~= Seq::<Action>::empty() || lamp.queue_actions()[0]
            == Action::Send(stop_command()));
    }
}

/// A step asks for no more than a list of actions can hold.
pub proof fn law_step_fits(lamp: LampSystem, now: u32, mode: LampMode)
    ensures
        lamp.step_actions(now, mode).len() <= 11,
{
}

/// The control state stays sound over any number of steps.
pub proof fn law_steps_keep_control(lamp: LampSystem, inputs: Seq<Input>)
    requires
        lamp.control_wf(),
    ensures
        after_steps(lamp, inputs).control_wf(),
    decreases inputs.len(),
{
    if inputs.len() > 0 {
        law_steps_keep_control(lamp, inputs.drop_last());
        lemma_control_of_step(after_steps(lamp, inputs.drop_last()), inputs.last());
    }
}

/// The steps of a mode are counted from its start, modulo 65536; in the mode that is
/// on, the running track has been started once the start has succeeded.
pub proof fn law_steps_are_counted(lamp: LampSystem, inputs: Seq<Input>, mode: LampMode)
    requires
        lamp.control_wf(),
        lamp.current_mode != mode,
        inputs.len() > 0,
        forall|i: int| 0 <= i < inputs.len() ==> (#[trigger] inputs[i]).mode == mode,
    ensures
        after_steps(lamp, inputs).current_mode == mode,
        after_steps(lamp, inputs).mode_steps == inputs.len() % 65536,
        mode == LampMode::On ==> after_steps(lamp, inputs).played_run_loop == (inputs.len()
            >= SUCCESS_START_STEPS),
    decreases inputs.len(),
{
    let earlier = inputs.drop_last();
    law_steps_keep_control(lamp, earlier);
    lemma_counts_of_step(after_steps(lamp, earlier), inputs.last());
    assert(inputs.last().mode == mode);
    if inputs.len() > 1 {
        assert forall|i: int| 0 <= i < earlier.len() implies (#[trigger] earlier[i]).mode == mode by {
            assert(earlier[i] == inputs[i]);
        }
        law_steps_are_counted(lamp, earlier, mode);
    }
}

/// The relay of a lamp that stays on is asked to be on from the step on that follows
/// the last one of the start. The count of steps wraps, and the relay with it.
pub proof fn law_relay_comes_on(lamp: LampSystem, inputs: Seq<Input>, now: u32)
    requires
        lamp.control_wf(),
        lamp.current_mode != LampMode::On,
        inputs.len() > 0,
        forall|i: int| 0 <= i < inputs.len() ==> (#[trigger] inputs[i]).mode == LampMode::On,
    ensures
        after_steps(lamp, inputs).mid_step(now, LampMode::On).relay_actions() == seq![
            pin_action(RELAY_PIN, inputs.len() % 65536 >= SUCCESS_START_STEPS),
        ],
{
    law_steps_are_counted(lamp, inputs, LampMode::On);
    lemma_mid_step(after_steps(lamp, inputs), now, LampMode::On);
}

/// Whether two lamps differ in their frames at most.
pub open spec fn same_control(lamp: LampSystem, other: LampSystem) -> bool {
    lamp == (LampSystem { frame_a: lamp.frame_a, frame_b: lamp.frame_b, ..other })
}

proof fn lemma_same_mid(lamp: LampSystem, other: LampSystem, now: u32, mode: LampMode)
    requires
        same_control(lamp, other),
    ensures
        same_control(lamp.mid_step(now, mode), other.mid_step(now, mode)),
        lamp.heartbeat_actions() == other.heartbeat_actions(),
        lamp.switch_actions(mode) == other.switch_actions(mode),
{
}

proof fn lemma_same_sound(lamp: LampSystem, other: LampSystem)
    requires
        same_control(lamp, other),
    ensures
        same_control(lamp.after_sound(), other.after_sound()),
        lamp.relay_actions() == other.relay_actions(),
        lamp.sound_actions() == other.sound_actions(),
{
}

proof fn lemma_same_queue(lamp: LampSystem, other: LampSystem)
    requires
        same_control(lamp, other),
    ensures
        same_control(lamp.after_queue(), other.after_queue()),
        lamp.queue_actions() == other.queue_actions(),
{
}

proof fn lemma_same_step(lamp: LampSystem, other: LampSystem, input: Input)
    requires
        same_control(lamp, other),
    ensures
        same_control(stepped(lamp, input), stepped(other, input)),
        lamp.step_actions(input.now, input.mode) == other.step_actions(input.now, input.mode),
{
    reveal(stepped);
    let mid = lamp.mid_step(input.now, input.mode);
    let other_mid = other.mid_step(input.now, input.mode);
    lemma_same_mid(lamp, other, input.now, input.mode);
    lemma_same_sound(mid, other_mid);
    lemma_same_queue(mid.after_sound(), other_mid.after_sound());
}

/// What was drawn before has no say in what comes next: lamps that differ in their
/// frames at most take the same step and ask for the same actions.
pub proof fn law_frames_do_not_steer(
    lamp: LampSystem,
    other: LampSystem,
    input: Input,
    next: LampSystem,
)
    requires
        same_control(lamp, other),
        lamp.steps_to(input.now, input.mode, next),
    ensures
        same_control(next, stepped(other, input)),
        lamp.step_actions(input.now, input.mode) == other.step_actions(input.now, input.mode),
{
    lemma_same_step(lamp, other, input);
    assert(same_control(next, stepped(lamp, input))) by {
        reveal(stepped);
    }
}

/// The sound module is set up once it has had its time to come up, whatever the
/// switches do, and silenced by the first step after that in which the lamp is off.
pub proof fn law_module_comes_up(lamp: LampSystem, inputs: Seq<Input>)
    requires
        lamp.control_wf(),
    ensures
        inputs.len() > DFPLAYER_BOOT_DELAY_STEPS ==> after_steps(lamp, inputs).audio_configured,
        inputs.len() > DFPLAYER_BOOT_DELAY_STEPS + 1 && inputs.last().mode == LampMode::Off
            ==> after_steps(lamp, inputs).audio_stopped_after_boot,
{
    lemma_boot_steps(lamp, inputs);
    if inputs.len() > 0 {
        let earlier = inputs.drop_last();
        lemma_boot_steps(lamp, earlier);
        law_steps_keep_control(lamp, earlier);
        lemma_module_of_step(after_steps(lamp, earlier), inputs.last());
    }
}

proof fn lemma_boot_steps(lamp: LampSystem, inputs: Seq<Input>)
    requires
        lamp.control_wf(),
    ensures
        ({
            let reached = after_steps(lamp, inputs);
            &&& reached.audio_boot_steps >= inputs.len() || reached.audio_boot_steps
                == DFPLAYER_BOOT_DELAY_STEPS
            &&& inputs.len() > DFPLAYER_BOOT_DELAY_STEPS ==> reached.audio_configured
        }),
    decreases inputs.len(),
{
    if inputs.len() > 0 {
        let earlier = inputs.drop_last();
        lemma_boot_steps(lamp, earlier);
        law_steps_keep_control(lamp, earlier);
        lemma_module_of_step(after_steps(lamp, earlier), inputs.last());
    }
}

} // verus!
