//! Which track is played when, and for how long.

use vstd::prelude::*;

verus! {

/// Track played when the lamp goes on.
pub const START_TRACK: u8 = 1;

/// The first of the tracks of a start that fails.
pub const FAILED_START_MIN_TRACK: u8 = 2;

/// Number of tracks of a start that fails.
pub const FAILED_START_TRACKS: u8 = 3;

/// Track played while the lamp is on.
pub const RUN_TRACK: u8 = 5;

/// Steps for which the shortest track of a failed start lasts.
pub const FAILED_TRACK_MIN_STEPS: u16 = 360;

/// Twice the steps that an odd track lasts longer.
pub const FAILED_TRACK_RANDOM_STEPS: u16 = 320;

/// The most steps that are waited for the end of a track of a failed start: the
/// longest of them and the largest random byte.
pub const LONGEST_FAILED_TRACK_STEPS: u16 = 590 + 255;

/// The random state that follows `value`, by a linear congruence modulo 2^32.
pub open spec fn rng_after(value: u32) -> u32 {
    ((value * 1_664_525 + 1_013_904_223) % 0x1_0000_0000) as u32
}

/// The random byte of a random state: its top eight bits.
pub open spec fn rng_byte(value: u32) -> u8 {
    (value / 0x100_0000) as u8
}

/// The steps after which track `track` of a failed start is over.
pub open spec fn track_steps(track: u8) -> int {
    FAILED_TRACK_MIN_STEPS + (if track >= FAILED_START_MIN_TRACK {
        (track - FAILED_START_MIN_TRACK) * 70
    } else {
        0
    }) + (if track % 2 == 1 {
        FAILED_TRACK_RANDOM_STEPS as int / 2
    } else {
        0
    })
}

/// The track of a failed start that comes after `number` others in their cycle.
pub open spec fn failed_track(number: int) -> u8 {
    (FAILED_START_MIN_TRACK + number % (FAILED_START_TRACKS as int)) as u8
}

/// The track of a failed start that a random byte picks: where that would repeat
/// the last one, the track that follows it.
pub open spec fn failed_track_choice(byte: u8, last: u8) -> u8 {
    if failed_track(byte as int) == last {
        failed_track(byte + 1)
    } else {
        failed_track(byte as int)
    }
}

/// The random state that follows `value`.
pub fn next_rng(value: u32) -> (next: u32)
    ensures
        next == rng_after(value),
{
    proof {
        let product = value as int * 1_664_525;
        vstd::arithmetic::div_mod::lemma_add_mod_noop(product, 1_013_904_223, 0x1_0000_0000);
        assert(1_013_904_223int % 0x1_0000_0000 == 1_013_904_223);
    }
    value.wrapping_mul(1_664_525).wrapping_add(1_013_904_223)
}

/// The steps after which track `track` of a failed start is over.
pub fn failed_track_duration_steps(track: u8) -> (steps: u16)
    ensures
        steps == track_steps(track),
{
    let track_offset: u16 = (track.saturating_sub(FAILED_START_MIN_TRACK) as u16) * 70;
    FAILED_TRACK_MIN_STEPS + track_offset + (track as u16 % 2) * FAILED_TRACK_RANDOM_STEPS / 2
}

/// The track of a failed start is one of those on the card and never the one that
/// was played last.
pub proof fn law_failed_track_varies(byte: u8, last: u8)
    ensures
        FAILED_START_MIN_TRACK <= failed_track_choice(byte, last) < FAILED_START_MIN_TRACK
            + FAILED_START_TRACKS,
        failed_track_choice(byte, last) != last,
{
}

/// The wait for the end of a track of a failed start is within its bounds.
pub proof fn law_failed_track_wait(track: u8, byte: u8)
    requires
        FAILED_START_MIN_TRACK <= track < FAILED_START_MIN_TRACK + FAILED_START_TRACKS,
    ensures
        FAILED_TRACK_MIN_STEPS <= track_steps(track) + byte <= LONGEST_FAILED_TRACK_STEPS,
{
}

/// Each track of a failed start can follow each other one.
pub proof fn law_failed_track_reaches_all(track: u8, last: u8)
    requires
        FAILED_START_MIN_TRACK <= track < FAILED_START_MIN_TRACK + FAILED_START_TRACKS,
        track != last,
    ensures
        failed_track_choice((track - FAILED_START_MIN_TRACK) as u8, last) == track,
{
}

/// The random state is a linear congruence: every state is that multiple of the one
/// before it and that increment, up to multiples of 2^32.
pub proof fn law_random_states(value: u32)
    ensures
        (1_664_525 * value + 1_013_904_223 - rng_after(value)) % 0x1_0000_0000 == 0,
{
}

/// The random byte is the top eight bits of the state.
pub proof fn law_random_byte(value: u32)
    ensures
        rng_byte(value) * 0x100_0000 <= value < (rng_byte(value) + 1) * 0x100_0000,
{
}

/// How long the tracks last: 360 steps, 70 more for each track above the second, and
/// 160 more for a track with an odd number.
pub proof fn law_track_lengths(track: u8)
    ensures
        track <= 2 && track % 2 == 0 ==> track_steps(track) == 360,
        track == 1 ==> track_steps(track) == 520,
        track >= 2 && track % 2 == 0 ==> track_steps(track) == 220 + 70 * track,
        track >= 2 && track % 2 == 1 ==> track_steps(track) == 380 + 70 * track,
{
}

/// The random byte picks one of the tracks 2, 3 and 4 in turn, and the one that
/// follows it in the round where that is the last one played.
pub proof fn law_failed_track_picked(byte: u8, last: u8)
    ensures
        last != 2 && byte % 3 == 0 ==> failed_track_choice(byte, last) == 2,
        last != 3 && byte % 3 == 1 ==> failed_track_choice(byte, last) == 3,
        last != 4 && byte % 3 == 2 ==> failed_track_choice(byte, last) == 4,
        last == 2 && byte % 3 == 0 ==> failed_track_choice(byte, last) == 3,
        last == 3 && byte % 3 == 1 ==> failed_track_choice(byte, last) == 4,
        last == 4 && byte % 3 == 2 ==> failed_track_choice(byte, last) == 2,
{
}

} // verus!
