//! The lamp: from the two switches and the timer to light, sound and relay, one
//! step at a time.

use crate::action::{Action, Actions, ACTION_CAPACITY};
use crate::dfplayer::{
    stop_command, track_command, volume_command, Command, DFPLAYER_USE_MP3_FOLDER,
};
use crate::gpio::{gpioa_write_pin, pin_mask, set_relay, PinOp, HEARTBEAT_PIN, RELAY_PIN};
use crate::progress::{least, Progress, BLACK, LED_COUNT};
use crate::tracks::{
    failed_track_choice, failed_track_duration_steps, next_rng, rng_after, rng_byte, track_steps,
    FAILED_START_MIN_TRACK, FAILED_START_TRACKS, FAILED_TRACK_MIN_STEPS,
    LONGEST_FAILED_TRACK_STEPS, RUN_TRACK, START_TRACK,
};
use crate::ws2815::Ws2815;
use vstd::prelude::*;

verus! {

/// Cycles to wait at the end of a step.
pub const UPDATE_DELAY: u32 = 100_000;

/// Steps after which the heartbeat LED toggles.
pub const HEARTBEAT_TOGGLE_FRAMES: u8 = 4;

/// Steps after which a start has succeeded.
pub const SUCCESS_START_STEPS: u16 = 85;

/// Steps after which the running track is played again.
pub const RUN_TRACK_REPEAT_STEPS: u16 = 500;

/// Steps that the sound module is given to come up.
pub const DFPLAYER_BOOT_DELAY_STEPS: u16 = 80;

/// Steps between the two times that a queued track is started.
pub const DFPLAYER_START_RETRY_STEPS: u16 = 80;

/// The volume that the lamp plays at.
pub const DFPLAYER_VOLUME: u8 = 24;

/// The random state that the lamp starts with.
pub const RNG_SEED: u32 = 0x1234_abcd;

/// Cycles for which the sound module is left alone before and after its restart.
pub const MODULE_START_DELAY: u32 = 96_000_000;

/// Cycles between the commands that set up the sound module.
pub const MODULE_SETUP_DELAY: u32 = 8_000_000;

/// What the switches ask for.
#[derive(Clone, Copy, Debug, PartialEq, Eq, Structural)]
pub enum LampMode {
    Off,
    Starting,
    On,
}

/// Where the sound module's queue stands.
pub enum QueueStage {
    /// The module is still coming up.
    Booting,
    /// The volume is to be set.
    Configuring,
    /// The lamp is off and the module is to be silenced.
    Silencing,
    /// Nothing is queued.
    Idle,
    /// A queued track waits for its turn.
    Waiting,
    /// A queued track is to be started.
    Starting,
    /// A queued track is to be started for the second and last time.
    Restarting,
}

/// The state of the lamp.
pub struct LampSystem {
    pub ws_a: Ws2815,
    pub ws_b: Ws2815,
    pub current_mode: LampMode,
    pub progress: Progress,
    pub last_animation_tick: u32,
    pub heartbeat_counter: u8,
    pub heartbeat_high: bool,
    pub rng: u32,
    pub mode_steps: u16,
    pub sound_steps: u16,
    pub last_failed_track: u8,
    pub failed_track_duration_steps: u16,
    pub played_run_loop: bool,
    pub audio_boot_steps: u16,
    pub pending_track: u8,
    pub pending_loop: bool,
    pub pending_retry_steps: u16,
    pub audio_started: bool,
    pub audio_configured: bool,
    pub audio_stopped_after_boot: bool,
    pub frame_a: [[u8; 3]; LED_COUNT],
    pub frame_b: [[u8; 3]; LED_COUNT],
}

/// A switch is closed when its pin reads low; a pin that cannot be read counts as
/// open.
pub open spec fn closed_switch(pin_low: Option<bool>) -> bool {
    pin_low == Some(true)
}

/// The mode that the switches ask for. The second one goes before the first.
pub open spec fn selected_mode(a0_low: Option<bool>, a1_low: Option<bool>) -> LampMode {
    if closed_switch(a1_low) {
        LampMode::On
    } else if closed_switch(a0_low) {
        LampMode::Starting
    } else {
        LampMode::Off
    }
}

/// Ticks between two readings of the timer, which counts down modulo 2^24.
pub open spec fn ticks_between(earlier: u32, later: u32) -> int {
    (earlier - later) % 0x100_0000
}

/// The action that drives a pin high or low.
pub open spec fn pin_action(pin_number: u8, high: bool) -> Action {
    Action::Pin(PinOp::Write(pin_mask(pin_number, high)))
}

/// The actions that play a track at the volume of the lamp.
pub open spec fn play_actions(track: u8) -> Seq<Action> {
    seq![Action::Send(volume_command(DFPLAYER_VOLUME)), Action::Send(track_command(track))]
}

/// Ticks between two readings of the timer.
pub fn elapsed_ticks(earlier: u32, later: u32) -> (ticks: u32)
    ensures
        ticks == ticks_between(earlier, later),
{
    let difference: u32 = earlier.wrapping_sub(later);
    assert(difference & 0x00ff_ffff == difference % 0x100_0000) by (bit_vector);
    difference & 0x00ff_ffff
}

impl LampSystem {
    /// The picture that belongs to the mode and the progress.
    pub open spec fn picture(self) -> Seq<[u8; 3]> {
        match self.current_mode {
            LampMode::Off => Seq::new(LED_COUNT as nat, |i: int| BLACK),
            LampMode::Starting => self.progress.image(false),
            LampMode::On => self.progress.image(true),
        }
    }

    /// What holds of the lamp between two steps: its control state is sound, and both
    /// frames show its picture.
    pub open spec fn wf(self) -> bool {
        &&& self.control_wf()
        &&& self.frame_a@ == self.picture()
        &&& self.frame_b@ == self.picture()
    }

    /// What holds of the control state between two steps. No count runs past the point
    /// where it is acted on, and no track is left in the queue.
    pub open spec fn control_wf(self) -> bool {
        &&& self.progress.wf()
        &&& self.heartbeat_counter < HEARTBEAT_TOGGLE_FRAMES
        &&& self.last_failed_track == 0 || FAILED_START_MIN_TRACK <= self.last_failed_track
            < FAILED_START_MIN_TRACK + FAILED_START_TRACKS
        &&& FAILED_TRACK_MIN_STEPS <= self.failed_track_duration_steps
            <= LONGEST_FAILED_TRACK_STEPS
        &&& self.played_run_loop ==> self.current_mode == LampMode::On
        &&& self.audio_boot_steps <= DFPLAYER_BOOT_DELAY_STEPS
        &&& self.audio_configured ==> self.audio_boot_steps == DFPLAYER_BOOT_DELAY_STEPS
        &&& self.audio_stopped_after_boot ==> self.audio_configured
        &&& self.pending_track == 0
        &&& self.current_mode == LampMode::Starting ==> self.sound_steps
            < self.failed_track_duration_steps
        &&& self.current_mode == LampMode::On && !self.played_run_loop ==> self.mode_steps
            < SUCCESS_START_STEPS
        &&& self.played_run_loop ==> self.sound_steps < RUN_TRACK_REPEAT_STEPS
    }

    /// Whether the heartbeat LED toggles in this step.
    pub open spec fn heartbeat_due(self) -> bool {
        (self.heartbeat_counter + 1) % 256 >= HEARTBEAT_TOGGLE_FRAMES
    }

    /// The lamp after the heartbeat of a step.
    pub open spec fn after_heartbeat(self) -> LampSystem {
        if self.heartbeat_due() {
            LampSystem { heartbeat_counter: 0, heartbeat_high: !self.heartbeat_high, ..self }
        } else {
            LampSystem {
                heartbeat_counter: ((self.heartbeat_counter + 1) % 256) as u8,
                ..self
            }
        }
    }

    /// What the heartbeat of a step asks for.
    pub open spec fn heartbeat_actions(self) -> Seq<Action> {
        if self.heartbeat_due() {
            seq![pin_action(HEARTBEAT_PIN, !self.heartbeat_high)]
        } else {
            Seq::empty()
        }
    }

    /// The track of a failed start that is played next.
    pub open spec fn upcoming_failed_track(self) -> u8 {
        failed_track_choice(rng_byte(rng_after(self.rng)), self.last_failed_track)
    }

    /// The lamp after it has picked the next track of a failed start, and how long
    /// to wait for its end.
    pub open spec fn after_failed_track(self) -> LampSystem {
        let track = self.upcoming_failed_track();
        let rng = rng_after(rng_after(self.rng));
        LampSystem {
            rng,
            last_failed_track: track,
            failed_track_duration_steps: least(
                track_steps(track) + rng_byte(rng),
                u16::MAX as int,
            ) as u16,
            ..self
        }
    }

    /// The lamp after the switches have been read: a new mode starts afresh, an
    /// old one goes on, and the bar of a lit lamp with it.
    pub open spec fn after_switches(self, mode: LampMode, ticks: int) -> LampSystem {
        if mode != self.current_mode {
            let fresh = LampSystem {
                current_mode: mode,
                mode_steps: 0,
                sound_steps: 0,
                played_run_loop: false,
                pending_track: 0,
                pending_loop: false,
                pending_retry_steps: 0,
                audio_started: false,
                progress: Progress { phase: 0, filled: 0 },
                ..self
            };
            if mode == LampMode::Starting {
                fresh.after_failed_track()
            } else {
                fresh
            }
        } else if mode != LampMode::Off {
            LampSystem { progress: self.progress.advanced(ticks), ..self }
        } else {
            self
        }
    }

    /// What a change of mode asks for.
    pub open spec fn switch_actions(self, mode: LampMode) -> Seq<Action> {
        if mode == self.current_mode {
            Seq::empty()
        } else {
            match mode {
                LampMode::Off => seq![Action::Send(stop_command()), pin_action(RELAY_PIN, false)],
                LampMode::Starting => seq![pin_action(RELAY_PIN, false)] + play_actions(
                    self.upcoming_failed_track(),
                ),
                LampMode::On => seq![pin_action(RELAY_PIN, false)] + play_actions(START_TRACK),
            }
        }
    }

    /// What a lit lamp asks of its relay: on once the start has succeeded.
    pub open spec fn relay_actions(self) -> Seq<Action> {
        if self.current_mode == LampMode::On {
            seq![pin_action(RELAY_PIN, self.mode_steps >= SUCCESS_START_STEPS)]
        } else {
            Seq::empty()
        }
    }

    /// The lamp with one more step counted for the mode and for the sound.
    pub open spec fn counted(self) -> LampSystem {
        LampSystem {
            mode_steps: ((self.mode_steps + 1) % 65536) as u16,
            sound_steps: ((self.sound_steps + 1) % 65536) as u16,
            ..self
        }
    }

    /// Whether the track of a failed start is over.
    pub open spec fn failed_track_over(self) -> bool {
        self.current_mode == LampMode::Starting && self.sound_steps
            >= self.failed_track_duration_steps
    }

    /// Whether the running track is due for the first time.
    pub open spec fn run_track_due(self) -> bool {
        self.current_mode == LampMode::On && !self.played_run_loop && self.mode_steps
            >= SUCCESS_START_STEPS
    }

    /// Whether the running track is over.
    pub open spec fn run_track_over(self) -> bool {
        self.current_mode == LampMode::On && self.played_run_loop && self.sound_steps
            >= RUN_TRACK_REPEAT_STEPS
    }

    /// The lamp after the sound of a step.
    pub open spec fn after_sound(self) -> LampSystem {
        let now = self.counted();
        if now.failed_track_over() {
            (LampSystem { sound_steps: 0, ..now }).after_failed_track()
        } else if now.run_track_due() {
            LampSystem { sound_steps: 0, played_run_loop: true, ..now }
        } else if now.run_track_over() {
            LampSystem { sound_steps: 0, ..now }
        } else {
            now
        }
    }

    /// What the sound of a step asks for.
    pub open spec fn sound_actions(self) -> Seq<Action> {
        let now = self.counted();
        if now.failed_track_over() {
            play_actions(self.upcoming_failed_track())
        } else if now.run_track_due() {
            play_actions(RUN_TRACK)
        } else if now.run_track_over() {
            seq![Action::Send(track_command(RUN_TRACK))]
        } else {
            Seq::empty()
        }
    }

    /// Where the queue stands.
    pub open spec fn queue_stage(self) -> QueueStage {
        if self.audio_boot_steps < DFPLAYER_BOOT_DELAY_STEPS {
            QueueStage::Booting
        } else if !self.audio_configured {
            QueueStage::Configuring
        } else if self.current_mode == LampMode::Off && !self.audio_stopped_after_boot {
            QueueStage::Silencing
        } else if self.pending_track == 0 {
            QueueStage::Idle
        } else if self.pending_retry_steps > 0 {
            QueueStage::Waiting
        } else if !self.audio_started {
            QueueStage::Starting
        } else {
            QueueStage::Restarting
        }
    }

    /// The lamp after the queue of a step.
    pub open spec fn after_queue(self) -> LampSystem {
        match self.queue_stage() {
            QueueStage::Booting => LampSystem {
                audio_boot_steps: (self.audio_boot_steps + 1) as u16,
                ..self
            },
            QueueStage::Configuring => LampSystem { audio_configured: true, ..self },
            QueueStage::Silencing => LampSystem { audio_stopped_after_boot: true, ..self },
            QueueStage::Idle => self,
            QueueStage::Waiting => LampSystem {
                pending_retry_steps: (self.pending_retry_steps - 1) as u16,
                ..self
            },
            QueueStage::Starting => LampSystem {
                audio_started: true,
                pending_retry_steps: DFPLAYER_START_RETRY_STEPS,
                ..self
            },
            QueueStage::Restarting => LampSystem { pending_track: 0, ..self },
        }
    }

    /// What the queue of a step asks for.
    pub open spec fn queue_actions(self) -> Seq<Action> {
        match self.queue_stage() {
            QueueStage::Configuring => seq![Action::Send(volume_command(DFPLAYER_VOLUME))],
            QueueStage::Silencing => seq![Action::Send(stop_command())],
            QueueStage::Starting | QueueStage::Restarting => seq![
                Action::Send(track_command(self.pending_track)),
            ],
            QueueStage::Booting | QueueStage::Idle | QueueStage::Waiting => Seq::empty(),
        }
    }

    /// The lamp in the middle of a step: heartbeat and switches are dealt with,
    /// sound and queue are not.
    pub open spec fn mid_step(self, now: u32, mode: LampMode) -> LampSystem {
        (LampSystem { last_animation_tick: now, ..self.after_heartbeat() }).after_switches(
            mode,
            ticks_between(self.last_animation_tick, now),
        )
    }

    /// The lamp after a step, but for the frames.
    pub open spec fn after_step(self, now: u32, mode: LampMode) -> LampSystem {
        self.mid_step(now, mode).after_sound().after_queue()
    }

    /// Whether a step leads to `next`: the state is the one after the step, and
    /// both frames show its picture.
    pub open spec fn steps_to(self, now: u32, mode: LampMode, next: LampSystem) -> bool {
        &&& next == (LampSystem {
            frame_a: next.frame_a,
            frame_b: next.frame_b,
            ..self.after_step(now, mode)
        })
        &&& next.frame_a@ == next.picture()
        &&& next.frame_b@ == next.picture()
    }

    /// What a step asks for.
    pub open spec fn step_actions(self, now: u32, mode: LampMode) -> Seq<Action> {
        let mid = self.mid_step(now, mode);
        self.heartbeat_actions() + self.switch_actions(mode) + mid.relay_actions()
            + mid.sound_actions() + mid.after_sound().queue_actions() + seq![
            Action::ShowA,
            Action::ShowB,
            Action::Pin(PinOp::Delay(UPDATE_DELAY)),
        ]
    }

    /// A dark lamp that has just been switched on, with the timer at `now`.
    pub fn new(now: u32, ws_a: Ws2815, ws_b: Ws2815) -> (lamp: Self)
        ensures
            lamp.wf(),
            lamp == (LampSystem {
                ws_a,
                ws_b,
                current_mode: LampMode::Off,
                progress: Progress { phase: 0, filled: 0 },
                last_animation_tick: now,
                heartbeat_counter: 0,
                heartbeat_high: false,
                rng: RNG_SEED,
                mode_steps: 0,
                sound_steps: 0,
                last_failed_track: 0,
                failed_track_duration_steps: FAILED_TRACK_MIN_STEPS,
                played_run_loop: false,
                audio_boot_steps: 0,
                pending_track: 0,
                pending_loop: false,
                pending_retry_steps: 0,
                audio_started: false,
                audio_configured: false,
                audio_stopped_after_boot: false,
                frame_a: lamp.frame_a,
                frame_b: lamp.frame_b,
            }),
    {
        let lamp = LampSystem {
            ws_a,
            ws_b,
            current_mode: LampMode::Off,
            progress: Progress::new(),
            last_animation_tick: now,
            heartbeat_counter: 0,
            heartbeat_high: false,
            rng: RNG_SEED,
            mode_steps: 0,
            sound_steps: 0,
            last_failed_track: 0,
            failed_track_duration_steps: failed_track_duration_steps(FAILED_START_MIN_TRACK),
            played_run_loop: false,
            audio_boot_steps: 0,
            pending_track: 0,
            pending_loop: false,
            pending_retry_steps: 0,
            audio_started: false,
            audio_configured: false,
            audio_stopped_after_boot: false,
            frame_a: [BLACK; LED_COUNT],
            frame_b: [BLACK; LED_COUNT],
        };
        assert(lamp.frame_a@ =~= lamp.picture());
        assert(lamp.frame_b@ =~= lamp.picture());
        lamp
    }

    /// The mode that the switches ask for, from what their pins read.
    pub fn read_mode(a0_low: Option<bool>, a1_low: Option<bool>) -> (mode: LampMode)
        ensures
            mode == selected_mode(a0_low, a1_low),
    {
        let a0_low: bool = a0_low.unwrap_or(false);
        let a1_low: bool = a1_low.unwrap_or(false);

        match (a0_low, a1_low) {
            (false, false) => LampMode::Off,
            (true, false) => LampMode::Starting,
            (_, true) => LampMode::On,
        }
    }

    /// One step: reads the timer and the switches, and returns what is to be done.
    pub fn step(&mut self, now: u32, a0_low: Option<bool>, a1_low: Option<bool>) -> (actions:
        Actions)
        requires
            old(self).progress.wf(),
        ensures
            old(self).steps_to(now, selected_mode(a0_low, a1_low), *final(self)),
            actions@ == old(self).step_actions(now, selected_mode(a0_low, a1_low)),
            final(self).progress.wf(),
            old(self).wf() ==> final(self).wf(),
    {
        let ghost before = *self;
        let mode = LampSystem::read_mode(a0_low, a1_low);
        let mut actions = Actions::new();
        self.begin_step(now, mode, &mut actions);
        let ghost drawn = *self;
        self.finish_step(&mut actions);
        proof {
            lemma_end_of_step(before, now, mode, drawn, *self);
            if before.wf() {
                law_step_keeps_invariant(before, now, mode, *self);
            }
        }
        actions
    }

    /// The start of a step: heartbeat, switches and light.
    fn begin_step(&mut self, now: u32, mode: LampMode, actions: &mut Actions)
        requires
            old(self).progress.wf(),
            old(actions)@.len() + 5 <= ACTION_CAPACITY,
        ensures
            *final(self) == (LampSystem {
                frame_a: final(self).frame_a,
                frame_b: final(self).frame_b,
                ..old(self).mid_step(now, mode)
            }),
            final(self).progress.wf(),
            final(self).frame_a@ == final(self).picture(),
            final(self).frame_b@ == final(self).picture(),
            final(actions)@ == old(actions)@ + old(self).heartbeat_actions()
                + old(self).switch_actions(mode) + old(self).mid_step(now, mode).relay_actions(),
            final(actions)@.len() <= old(actions)@.len() + 5,
    {
        self.take_inputs(now, mode, actions);
        self.draw(actions);
    }

    /// The heartbeat of a step, and what the timer and the switches change.
    fn take_inputs(&mut self, now: u32, mode: LampMode, actions: &mut Actions)
        requires
            old(self).progress.wf(),
            old(actions)@.len() + 4 <= ACTION_CAPACITY,
        ensures
            *final(self) == (LampSystem {
                frame_a: final(self).frame_a,
                frame_b: final(self).frame_b,
                ..old(self).mid_step(now, mode)
            }),
            final(self).progress.wf(),
            final(actions)@ == old(actions)@ + old(self).heartbeat_actions()
                + old(self).switch_actions(mode),
            final(actions)@.len() <= old(actions)@.len() + 4,
    {
        self.tick_heartbeat(actions);
        let elapsed: u32 = elapsed_ticks(self.last_animation_tick, now);
        self.last_animation_tick = now;
        self.follow_switches(mode, elapsed, actions);
    }

    /// The end of a step: sound and queue, then the frames go out.
    fn finish_step(&mut self, actions: &mut Actions)
        requires
            old(actions)@.len() + 6 <= ACTION_CAPACITY,
        ensures
            *final(self) == old(self).after_sound().after_queue(),
            final(actions)@ == old(actions)@ + old(self).sound_actions()
                + old(self).after_sound().queue_actions() + seq![
                Action::ShowA,
                Action::ShowB,
                Action::Pin(PinOp::Delay(UPDATE_DELAY)),
            ],
    {
        self.update_sound(actions);
        self.update_audio_queue(actions);
        actions.push(Action::ShowA);
        actions.push(Action::ShowB);
        actions.push(Action::Pin(PinOp::Delay(UPDATE_DELAY)));
    }

    /// Starts a mode that the switches have changed to, or moves the bar of a lit
    /// lamp on.
    fn follow_switches(&mut self, mode: LampMode, elapsed: u32, actions: &mut Actions)
        requires
            old(self).progress.wf(),
            old(self).progress.phase + elapsed <= u32::MAX,
            old(actions)@.len() + 3 <= ACTION_CAPACITY,
        ensures
            *final(self) == (LampSystem {
                frame_a: final(self).frame_a,
                frame_b: final(self).frame_b,
                ..old(self).after_switches(mode, elapsed as int)
            }),
            if mode == LampMode::Off && old(self).current_mode != LampMode::Off {
                &&& final(self).frame_a@ == final(self).picture()
                &&& final(self).frame_b@ == final(self).picture()
            } else {
                &&& final(self).frame_a == old(self).frame_a
                &&& final(self).frame_b == old(self).frame_b
            },
            final(self).progress.wf(),
            final(actions)@ == old(actions)@ + old(self).switch_actions(mode),
    {
        if mode != self.current_mode {
            self.mode_steps = 0;
            self.sound_steps = 0;
            self.played_run_loop = false;
            self.pending_track = 0;
            self.pending_loop = false;
            self.pending_retry_steps = 0;
            self.audio_started = false;
            self.progress = Progress::new();

            match mode {
                LampMode::Off => {
                    actions.push(Action::Send(Command::stop()));
                    self.clear();
                    actions.push(Action::Pin(set_relay(false)));
                },
                LampMode::Starting => {
                    actions.push(Action::Pin(set_relay(false)));
                    self.play_failed_start_track_now(actions);
                },
                LampMode::On => {
                    actions.push(Action::Pin(set_relay(false)));
                    actions.push(Action::Send(Command::set_volume(DFPLAYER_VOLUME)));
                    actions.push(Action::Send(Command::play_configured_track(START_TRACK)));
                },
            }
            self.current_mode = mode;
        } else if mode != LampMode::Off {
            self.progress.advance(elapsed);
        }
    }

    /// Draws both frames and sets the relay of a lit lamp.
    fn draw(&mut self, actions: &mut Actions)
        requires
            old(self).progress.wf(),
            old(actions)@.len() + 1 <= ACTION_CAPACITY,
        ensures
            *final(self) == (LampSystem {
                frame_a: final(self).frame_a,
                frame_b: final(self).frame_b,
                ..*old(self)
            }),
            final(self).frame_a@ == old(self).picture(),
            final(self).frame_b@ == old(self).picture(),
            final(actions)@ == old(actions)@ + old(self).relay_actions(),
    {
        match self.current_mode {
            LampMode::Off => self.clear(),
            LampMode::Starting => self.progress.render(&mut self.frame_a, false),
            LampMode::On => {
                actions.push(Action::Pin(set_relay(self.mode_steps >= SUCCESS_START_STEPS)));
                self.progress.render(&mut self.frame_a, true);
            },
        }
        self.frame_b = self.frame_a;
    }

    /// Makes both frames dark.
    pub fn clear(&mut self)
        ensures
            *final(self) == (LampSystem {
                frame_a: final(self).frame_a,
                frame_b: final(self).frame_b,
                ..*old(self)
            }),
            final(self).frame_a@ == Seq::new(LED_COUNT as nat, |i: int| BLACK),
            final(self).frame_b@ == Seq::new(LED_COUNT as nat, |i: int| BLACK),
    {
        self.frame_a = [BLACK; LED_COUNT];
        self.frame_b = [BLACK; LED_COUNT];
    }

    /// Counts the step and plays what is due in the current mode.
    pub fn update_sound(&mut self, actions: &mut Actions)
        requires
            old(actions)@.len() + 2 <= ACTION_CAPACITY,
        ensures
            *final(self) == old(self).after_sound(),
            final(actions)@ == old(actions)@ + old(self).sound_actions(),
    {
        self.mode_steps = self.mode_steps.wrapping_add(1);
        self.sound_steps = self.sound_steps.wrapping_add(1);

        match self.current_mode {
            LampMode::Off => {},
            LampMode::Starting => {
                if self.sound_steps >= self.failed_track_duration_steps {
                    self.sound_steps = 0;
                    self.play_failed_start_track_now(actions);
                }
            },
            LampMode::On => {
                if !self.played_run_loop && self.mode_steps >= SUCCESS_START_STEPS {
                    self.played_run_loop = true;
                    self.sound_steps = 0;
                    actions.push(Action::Send(Command::set_volume(DFPLAYER_VOLUME)));
                    actions.push(Action::Send(Command::play_configured_track(RUN_TRACK)));
                } else if self.played_run_loop && self.sound_steps >= RUN_TRACK_REPEAT_STEPS {
                    self.sound_steps = 0;
                    actions.push(Action::Send(Command::play_configured_track(RUN_TRACK)));
                }
            },
        }
    }

    /// Picks the next track of a failed start and plays it.
    pub fn play_failed_start_track_now(&mut self, actions: &mut Actions)
        requires
            old(actions)@.len() + 2 <= ACTION_CAPACITY,
        ensures
            *final(self) == old(self).after_failed_track(),
            final(actions)@ == old(actions)@ + play_actions(old(self).upcoming_failed_track()),
    {
        let track: u8 = self.next_failed_track();
        let extra: u8 = self.next_u8();
        self.failed_track_duration_steps =
        failed_track_duration_steps(track).saturating_add(extra as u16);
        actions.push(Action::Send(Command::set_volume(DFPLAYER_VOLUME)));
        actions.push(Action::Send(Command::play_configured_track(track)));
    }

    /// Brings the sound module up, and plays what is queued for it.
    pub fn update_audio_queue(&mut self, actions: &mut Actions)
        requires
            old(actions)@.len() + 1 <= ACTION_CAPACITY,
        ensures
            *final(self) == old(self).after_queue(),
            final(actions)@ == old(actions)@ + old(self).queue_actions(),
    {
        if self.audio_boot_steps < DFPLAYER_BOOT_DELAY_STEPS {
            self.audio_boot_steps = self.audio_boot_steps.wrapping_add(1);
            return;
        }
        if !self.audio_configured {
            actions.push(Action::Send(Command::set_volume(DFPLAYER_VOLUME)));
            self.audio_configured = true;
            return;
        }
        if self.current_mode == LampMode::Off && !self.audio_stopped_after_boot {
            actions.push(Action::Send(Command::stop()));
            self.audio_stopped_after_boot = true;
            return;
        }
        if self.pending_track == 0 {
            return;
        }
        if self.pending_retry_steps > 0 {
            self.pending_retry_steps -= 1;
            return;
        }
        if self.pending_loop {
            actions.push(Action::Send(Command::play_configured_track(self.pending_track)));
        } else if DFPLAYER_USE_MP3_FOLDER {
            actions.push(Action::Send(Command::play_mp3_folder_track(self.pending_track)));
        } else {
            actions.push(Action::Send(Command::play_track(self.pending_track)));
        }

        if self.audio_started {
            self.pending_track = 0;
            return;
        }
        self.audio_started = true;
        self.pending_retry_steps = DFPLAYER_START_RETRY_STEPS;
    }

    /// Picks the next track of a failed start, other than the last one.
    pub fn next_failed_track(&mut self) -> (track: u8)
        ensures
            track == old(self).upcoming_failed_track(),
            *final(self) == (LampSystem {
                rng: rng_after(old(self).rng),
                last_failed_track: track,
                ..*old(self)
            }),
    {
        let byte: u8 = self.next_u8();
        let mut track: u8 = FAILED_START_MIN_TRACK + (byte % FAILED_START_TRACKS);
        if track == self.last_failed_track {
            track = FAILED_START_MIN_TRACK + ((track - FAILED_START_MIN_TRACK + 1)
                % FAILED_START_TRACKS);
        }
        self.last_failed_track = track;
        track
    }

    /// Counts the step and toggles the heartbeat LED when it is due.
    pub fn tick_heartbeat(&mut self, actions: &mut Actions)
        requires
            old(actions)@.len() + 1 <= ACTION_CAPACITY,
        ensures
            *final(self) == old(self).after_heartbeat(),
            final(actions)@ == old(actions)@ + old(self).heartbeat_actions(),
    {
        self.heartbeat_counter = self.heartbeat_counter.wrapping_add(1);
        if self.heartbeat_counter < HEARTBEAT_TOGGLE_FRAMES {
            return;
        }
        self.heartbeat_counter = 0;
        self.heartbeat_high = !self.heartbeat_high;
        actions.push(Action::Pin(gpioa_write_pin(HEARTBEAT_PIN, self.heartbeat_high)));
    }

    /// Moves the random state on and returns its top byte.
    pub fn next_u8(&mut self) -> (byte: u8)
        ensures
            *final(self) == (LampSystem { rng: rng_after(old(self).rng), ..*old(self) }),
            byte == rng_byte(final(self).rng),
    {
        self.rng = next_rng(self.rng);
        let rng: u32 = self.rng;
        assert((rng >> 24) as u8 == (rng / 0x100_0000) as u8) by (bit_vector);
        (self.rng >> 24) as u8
    }
}

/// What is to be done when the lamp gets power: heartbeat LED and relay off, then
/// the sound module is restarted and set up.
pub open spec fn boot_actions() -> Seq<Action> {
    seq![
        pin_action(HEARTBEAT_PIN, false),
        pin_action(RELAY_PIN, false),
        Action::Pin(PinOp::Delay(MODULE_START_DELAY)),
        Action::Send(Command { code: 0x0c, param: 0 }),
        Action::Pin(PinOp::Delay(MODULE_START_DELAY)),
        Action::Send(Command { code: 0x09, param: 2 }),
        Action::Pin(PinOp::Delay(MODULE_SETUP_DELAY)),
        Action::Send(volume_command(DFPLAYER_VOLUME)),
        Action::Pin(PinOp::Delay(MODULE_SETUP_DELAY)),
        Action::Send(stop_command()),
    ]
}

/// What is to be done when the lamp gets power.
pub fn boot_sequence() -> (actions: Actions)
    ensures
        actions@ == boot_actions(),
{
    let mut actions = Actions::new();
    actions.push(Action::Pin(gpioa_write_pin(HEARTBEAT_PIN, false)));
    actions.push(Action::Pin(set_relay(false)));
    actions.push(Action::Pin(PinOp::Delay(MODULE_START_DELAY)));
    actions.push(Action::Send(Command::reset_module()));
    actions.push(Action::Pin(PinOp::Delay(MODULE_START_DELAY)));
    actions.push(Action::Send(Command::select_tf_card()));
    actions.push(Action::Pin(PinOp::Delay(MODULE_SETUP_DELAY)));
    actions.push(Action::Send(Command::set_volume(DFPLAYER_VOLUME)));
    actions.push(Action::Pin(PinOp::Delay(MODULE_SETUP_DELAY)));
    actions.push(Action::Send(Command::stop()));
    actions
}

proof fn lemma_end_of_step(
    before: LampSystem,
    now: u32,
    mode: LampMode,
    drawn: LampSystem,
    after: LampSystem,
)
    requires
        drawn == (LampSystem {
            frame_a: drawn.frame_a,
            frame_b: drawn.frame_b,
            ..before.mid_step(now, mode)
        }),
        after == drawn.after_sound().after_queue(),
    ensures
        after == (LampSystem {
            frame_a: drawn.frame_a,
            frame_b: drawn.frame_b,
            ..before.after_step(now, mode)
        }),
        after.picture() == drawn.picture(),
        after.progress == drawn.progress,
        before.step_actions(now, mode) == before.heartbeat_actions() + before.switch_actions(mode)
            + before.mid_step(now, mode).relay_actions() + drawn.sound_actions()
            + drawn.after_sound().queue_actions() + seq![
            Action::ShowA,
            Action::ShowB,
            Action::Pin(PinOp::Delay(UPDATE_DELAY)),
        ],
{
}

/// A step keeps what holds of the lamp between steps.
pub proof fn law_step_keeps_invariant(
    lamp: LampSystem,
    now: u32,
    mode: LampMode,
    next: LampSystem,
)
    requires
        lamp.wf(),
        lamp.steps_to(now, mode, next),
    ensures
        next.wf(),
{
}

} // verus!
