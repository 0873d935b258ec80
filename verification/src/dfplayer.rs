//! The sound module: its commands, the packets that carry them over the serial
//! line, and the sending of a packet byte by byte.

use vstd::prelude::*;

verus! {

/// Whether tracks are played by their number in the module's MP3 folder.
pub const DFPLAYER_USE_MP3_FOLDER: bool = true;

/// Attempts that are made at one byte before it is given up.
pub const DFPLAYER_WRITE_TIMEOUT: u16 = 30_000;

/// Cycles to wait before a byte is offered again.
pub const DFPLAYER_RETRY_DELAY: u32 = 80;

/// The loudest volume that the module knows.
pub const DFPLAYER_MAX_VOLUME: u8 = 30;

/// Bytes in a packet.
pub const PACKET_LENGTH: usize = 10;

/// A command to the sound module.
#[derive(Clone, Copy, Debug, PartialEq, Eq, Structural)]
pub struct Command {
    pub code: u8,
    pub param: u16,
}

/// The sum of a run of bytes.
pub open spec fn byte_sum(data: Seq<u8>) -> nat
    decreases data.len(),
{
    if data.len() == 0 {
        0
    } else {
        byte_sum(data.drop_last()) + data.last() as nat
    }
}

/// The number that brings the sum of the bytes to a multiple of 65536.
pub open spec fn checksum_of(data: Seq<u8>) -> int {
    (-byte_sum(data)) % 65536
}

/// The bytes of a packet that its checksum covers: version, length, command,
/// feedback flag and parameter.
pub open spec fn packet_body(command: Command) -> Seq<u8> {
    seq![
        0xFF,
        0x06,
        command.code,
        0x00,
        (command.param / 256) as u8,
        (command.param % 256) as u8,
    ]
}

/// A whole packet: the body and its checksum between the start and the end byte.
pub open spec fn packet_bytes(command: Command) -> Seq<u8> {
    let sum = checksum_of(packet_body(command));
    seq![0x7Eu8] + packet_body(command) + seq![(sum / 256) as u8, (sum % 256) as u8, 0xEF]
}

/// The command that sets the volume, capped at the loudest.
pub open spec fn volume_command(volume: u8) -> Command {
    Command {
        code: 0x06,
        param: if volume <= DFPLAYER_MAX_VOLUME {
            volume as u16
        } else {
            DFPLAYER_MAX_VOLUME as u16
        },
    }
}

/// The command that stops playing.
pub open spec fn stop_command() -> Command {
    Command { code: 0x16, param: 0 }
}

/// The command that plays a track the way the module is set up.
pub open spec fn track_command(track: u8) -> Command {
    Command { code: if DFPLAYER_USE_MP3_FOLDER { 0x12 } else { 0x03 }, param: track as u16 }
}

/// The two's complement of the sum of the bytes, both modulo 65536.
pub fn checksum(data: &[u8]) -> (sum: u16)
    ensures
        sum == checksum_of(data@),
{
    let mut sum: u16 = 0;
    let mut i: usize = 0;
    while i < data.len()
        invariant
            i <= data.len(),
            sum == byte_sum(data@.take(i as int)) % 65536,
        decreases data.len() - i,
    {
        assert(data@.take(i + 1).drop_last() == data@.take(i as int));
        sum = sum.wrapping_add(data[i] as u16);
        i += 1;
    }
    assert(data@.take(i as int) == data@);
    assert(!sum == 65535 - sum) by (bit_vector);
    (!sum).wrapping_add(1)
}

impl Command {
    /// Plays a track by its number on the card.
    pub fn play_track(track: u8) -> (command: Command)
        ensures
            command == (Command { code: 0x03, param: track as u16 }),
    {
        Command { code: 0x03, param: track as u16 }
    }

    /// Plays a track the way the module is set up.
    pub fn play_configured_track(track: u8) -> (command: Command)
        ensures
            command == track_command(track),
    {
        if DFPLAYER_USE_MP3_FOLDER {
            Command::play_mp3_folder_track(track)
        } else {
            Command::play_track(track)
        }
    }

    /// Plays a track by its number in the MP3 folder.
    pub fn play_mp3_folder_track(track: u8) -> (command: Command)
        ensures
            command == (Command { code: 0x12, param: track as u16 }),
    {
        Command { code: 0x12, param: track as u16 }
    }

    /// Selects the memory card as the source of tracks.
    pub fn select_tf_card() -> (command: Command)
        ensures
            command == (Command { code: 0x09, param: 2 }),
    {
        Command { code: 0x09, param: 2 }
    }

    /// Sets the volume, capped at the loudest.
    pub fn set_volume(volume: u8) -> (command: Command)
        ensures
            command == volume_command(volume),
    {
        let capped: u8 = if volume < DFPLAYER_MAX_VOLUME {
            volume
        } else {
            DFPLAYER_MAX_VOLUME
        };
        Command { code: 0x06, param: capped as u16 }
    }

    /// Restarts the module.
    pub fn reset_module() -> (command: Command)
        ensures
            command == (Command { code: 0x0c, param: 0 }),
    {
        Command { code: 0x0c, param: 0 }
    }

    /// Stops playing.
    pub fn stop() -> (command: Command)
        ensures
            command == stop_command(),
    {
        Command { code: 0x16, param: 0 }
    }

    /// The packet that carries the command.
    pub fn packet(&self) -> (packet: [u8; PACKET_LENGTH])
        ensures
            packet@ == packet_bytes(*self),
    {
        let param: u16 = self.param;
        assert((param >> 8) as u8 == (param / 256) as u8) by (bit_vector);
        assert(param as u8 == (param % 256) as u8) by (bit_vector);
        let mut packet: [u8; PACKET_LENGTH] = [0u8; PACKET_LENGTH];
        packet[0] = 0x7E;
        packet[1] = 0xFF;
        packet[2] = 0x06;
        packet[3] = self.code;
        packet[4] = 0x00;
        packet[5] = (param >> 8) as u8;
        packet[6] = param as u8;

        let sum: u16 = checksum(&packet[1..7]);
        assert(packet@.subrange(1, 7) == packet_body(*self));
        assert((sum >> 8) as u8 == (sum / 256) as u8) by (bit_vector);
        assert(sum as u8 == (sum % 256) as u8) by (bit_vector);
        packet[7] = (sum >> 8) as u8;
        packet[8] = sum as u8;
        packet[9] = 0xEF;
        packet
    }
}

/// What became of a byte that was offered to the serial line.
#[derive(Clone, Copy, Debug, PartialEq, Eq, Structural)]
pub enum WriteResult {
    /// The line took the byte.
    Sent,
    /// The line was not ready.
    WouldBlock,
    /// The line reported an error.
    Failed,
}

/// A packet on its way out: the byte that is next, and how often it was offered
/// in vain.
#[derive(Clone, Copy, Debug)]
pub struct Transmission {
    pub packet: [u8; PACKET_LENGTH],
    pub index: usize,
    pub attempts: u16,
}

impl Transmission {
    /// There are attempts left for the byte that is next.
    pub open spec fn wf(self) -> bool {
        &&& self.index <= PACKET_LENGTH
        &&& self.attempts < DFPLAYER_WRITE_TIMEOUT
    }

    /// All bytes have been dealt with.
    pub open spec fn finished(self) -> bool {
        self.index >= PACKET_LENGTH
    }

    /// Whether `result` ends the sending of the current byte: it was taken, the
    /// line failed, or the last attempt was in vain.
    pub open spec fn ends_byte(self, result: WriteResult) -> bool {
        result != WriteResult::WouldBlock || self.attempts + 1 >= DFPLAYER_WRITE_TIMEOUT
    }

    /// The transmission after one attempt.
    pub open spec fn after(self, result: WriteResult) -> Transmission {
        if self.finished() {
            self
        } else if self.ends_byte(result) {
            Transmission { packet: self.packet, index: (self.index + 1) as usize, attempts: 0 }
        } else {
            Transmission {
                packet: self.packet,
                index: self.index,
                attempts: (self.attempts + 1) as u16,
            }
        }
    }

    /// Starts sending a command.
    pub fn send_command(command: Command) -> (transmission: Self)
        ensures
            transmission.wf(),
            transmission.packet@ == packet_bytes(command),
            transmission.index == 0,
            transmission.attempts == 0,
    {
        Transmission { packet: command.packet(), index: 0, attempts: 0 }
    }

    /// The byte to offer to the line, if one is left.
    pub fn next_byte(&self) -> (byte: Option<u8>)
        ensures
            byte == (if self.finished() {
                None
            } else {
                Some(self.packet@[self.index as int])
            }),
    {
        if self.index < PACKET_LENGTH {
            Some(self.packet[self.index])
        } else {
            None
        }
    }

    /// Takes note of what became of the byte that was offered. Returns the cycles
    /// to wait, where the line was not ready.
    pub fn write_byte_timeout(&mut self, result: WriteResult) -> (delay: Option<u32>)
        requires
            old(self).wf(),
            !old(self).finished(),
        ensures
            final(self).wf(),
            *final(self) == old(self).after(result),
            delay == (if result == WriteResult::WouldBlock {
                Some(DFPLAYER_RETRY_DELAY)
            } else {
                None
            }),
    {
        match result {
            WriteResult::WouldBlock => {
                self.attempts = self.attempts.wrapping_add(1);
                if self.attempts >= DFPLAYER_WRITE_TIMEOUT {
                    self.index += 1;
                    self.attempts = 0;
                }
                Some(DFPLAYER_RETRY_DELAY)
            },
            WriteResult::Sent | WriteResult::Failed => {
                self.index += 1;
                self.attempts = 0;
                None
            },
        }
    }
}

/// The transmission after a run of attempts.
pub open spec fn after_all(start: Transmission, results: Seq<WriteResult>) -> Transmission
    decreases results.len(),
{
    if results.len() == 0 {
        start
    } else {
        after_all(start, results.drop_last()).after(results.last())
    }
}

/// The bytes that the line has taken in a run of attempts.
pub open spec fn delivered(start: Transmission, results: Seq<WriteResult>) -> Seq<u8>
    decreases results.len(),
{
    if results.len() == 0 {
        Seq::empty()
    } else {
        let before = after_all(start, results.drop_last());
        let earlier = delivered(start, results.drop_last());
        if !before.finished() && results.last() == WriteResult::Sent {
            earlier.push(before.packet@[before.index as int])
        } else {
            earlier
        }
    }
}

/// The places in the packet of the bytes that the line has taken in a run of
/// attempts.
pub open spec fn taken_at(start: Transmission, results: Seq<WriteResult>) -> Seq<int>
    decreases results.len(),
{
    if results.len() == 0 {
        Seq::empty()
    } else {
        let before = after_all(start, results.drop_last());
        let earlier = taken_at(start, results.drop_last());
        if !before.finished() && results.last() == WriteResult::Sent {
            earlier.push(before.index as int)
        } else {
            earlier
        }
    }
}

/// The number of bytes that were passed over in a run of attempts.
pub open spec fn passed_over(start: Transmission, results: Seq<WriteResult>) -> nat
    decreases results.len(),
{
    if results.len() == 0 {
        0
    } else {
        let before = after_all(start, results.drop_last());
        let earlier = passed_over(start, results.drop_last());
        if !before.finished() && results.last() != WriteResult::Sent && before.ends_byte(
            results.last(),
        ) {
            earlier + 1
        } else {
            earlier
        }
    }
}

/// The checksum brings the sum of the bytes it covers to zero, modulo 65536.
pub proof fn law_packet_sums_to_zero(command: Command)
    ensures
        packet_bytes(command).len() == PACKET_LENGTH,
        packet_bytes(command).subrange(1, 7) == packet_body(command),
        (byte_sum(packet_bytes(command).subrange(1, 7)) + packet_bytes(command)[7] * 256
            + packet_bytes(command)[8]) % 65536 == 0,
{
    assert(packet_bytes(command).subrange(1, 7) == packet_body(command));
    let sum = checksum_of(packet_body(command));
    assert(packet_bytes(command)[7] == sum / 256);
    assert(packet_bytes(command)[8] == sum % 256);
}

/// A packet tells which command it carries.
pub proof fn law_packet_reads_back(command: Command)
    ensures
        packet_bytes(command)[3] == command.code,
        packet_bytes(command)[5] * 256 + packet_bytes(command)[6] == command.param,
{
}

/// The transmission moves forward over a packet that stays the same, whatever the
/// line does.
pub proof fn law_transmission_moves_forward(start: Transmission, results: Seq<WriteResult>)
    requires
        start.wf(),
    ensures
        after_all(start, results).wf(),
        after_all(start, results).packet == start.packet,
        after_all(start, results).index >= start.index,
    decreases results.len(),
{
    if results.len() > 0 {
        law_transmission_moves_forward(start, results.drop_last());
    }
}

/// Every byte gets a bounded number of attempts, so a packet is over after at
/// most 300000 of them even where the line never takes a byte.
pub proof fn law_transmission_ends(start: Transmission, results: Seq<WriteResult>)
    requires
        start.wf(),
        results.len() >= PACKET_LENGTH * DFPLAYER_WRITE_TIMEOUT,
    ensures
        after_all(start, results).finished(),
{
    lemma_attempts_left(start, results);
}

proof fn lemma_attempts_left(start: Transmission, results: Seq<WriteResult>)
    requires
        start.wf(),
    ensures
        ({
            let now = after_all(start, results);
            now.finished() || now.index * DFPLAYER_WRITE_TIMEOUT + now.attempts >= results.len()
        }),
    decreases results.len(),
{
    law_transmission_moves_forward(start, results);
    if results.len() > 0 {
        lemma_attempts_left(start, results.drop_last());
        law_transmission_moves_forward(start, results.drop_last());
    }
}

/// Each byte that is dealt with was either delivered or passed over. The line takes
/// bytes in packet order, never the same one twice, also where bytes were passed
/// over in between; where none was, it has taken every byte up to the next one, and
/// all that were left once the transmission is over.
pub proof fn law_delivered_in_order(start: Transmission, results: Seq<WriteResult>)
    requires
        start.wf(),
    ensures
        delivered(start, results).len() + passed_over(start, results) == after_all(
            start,
            results,
        ).index - start.index,
        delivered(start, results) == taken_at(start, results).map_values(
            |i: int| start.packet@[i],
        ),
        forall|j: int, k: int|
            0 <= j < k < taken_at(start, results).len() ==> taken_at(start, results)[j] < taken_at(
                start,
                results,
            )[k],
        forall|j: int|
            0 <= j < taken_at(start, results).len() ==> start.index <= #[trigger] taken_at(
                start,
                results,
            )[j] < after_all(start, results).index,
        passed_over(start, results) == 0 ==> delivered(start, results) == start.packet@.subrange(
            start.index as int,
            after_all(start, results).index as int,
        ),
        passed_over(start, results) == 0 && after_all(start, results).finished() ==> delivered(
            start,
            results,
        ) == start.packet@.skip(start.index as int),
    decreases results.len(),
{
    law_transmission_moves_forward(start, results);
    if results.len() > 0 {
        let earlier = results.drop_last();
        law_delivered_in_order(start, earlier);
        law_transmission_moves_forward(start, earlier);
        let before = after_all(start, earlier);
        if !before.finished() {
            assert(start.packet@.subrange(start.index as int, before.index + 1)
                == start.packet@.subrange(start.index as int, before.index as int).push(
                start.packet@[before.index as int],
            ));
        }
    }
}

/// The sum grows by each byte that is added, from nothing.
pub proof fn law_byte_sum_adds(data: Seq<u8>, byte: u8)
    ensures
        byte_sum(Seq::<u8>::empty()) == 0,
        byte_sum(data.push(byte)) == byte_sum(data) + byte,
{
    assert(data.push(byte).drop_last() == data);
}

/// The checksum of any bytes is a 16-bit number that brings their sum to a multiple of
/// 65536.
pub proof fn law_checksum_completes(data: Seq<u8>)
    ensures
        0 <= checksum_of(data) < 65536,
        (byte_sum(data) + checksum_of(data)) % 65536 == 0,
{
}

/// The layout of a packet, byte by byte: start, version, length, command, no feedback,
/// parameter with the high byte first, checksum with the high byte first, end.
pub proof fn law_packet_layout(command: Command)
    ensures
        ({
            let p = packet_bytes(command);
            &&& p.len() == 10
            &&& p[0] == 0x7E
            &&& p[1] == 0xFF
            &&& p[2] == 0x06
            &&& p[3] == command.code
            &&& p[4] == 0x00
            &&& p[5] * 256 + p[6] == command.param
            &&& (p[1] + p[2] + p[3] + p[4] + p[5] + p[6] + p[7] * 256 + p[8]) % 65536 == 0
            &&& p[9] == 0xEF
        }),
{
    law_packet_sums_to_zero(command);
    let p = packet_bytes(command);
    let body = packet_body(command);
    reveal_with_fuel(byte_sum, 7);
    assert(body.len() == 6);
    assert(body.drop_last() == body.take(5));
    assert(body.take(5).drop_last() == body.take(4));
    assert(body.take(4).drop_last() == body.take(3));
    assert(body.take(3).drop_last() == body.take(2));
    assert(body.take(2).drop_last() == body.take(1));
    assert(body.take(1).drop_last() == body.take(0));
    assert(byte_sum(body) == p[1] + p[2] + p[3] + p[4] + p[5] + p[6]);
}

/// The commands, whatever the track or the volume: a track keeps its number, a volume
/// is kept up to 30 and held there above.
pub proof fn law_command_codes(track: u8, volume: u8)
    ensures
        track_command(track).code == 0x12,
        track_command(track).param == track,
        volume_command(volume).code == 0x06,
        volume <= 30 ==> volume_command(volume).param == volume,
        volume > 30 ==> volume_command(volume).param == 30,
        stop_command().code == 0x16,
        stop_command().param == 0,
{
}

/// What one attempt does, for every packet and byte: a busy line has the same byte
/// offered again until it was offered 30000 times, and everything else ends the byte
/// and turns to the next one with no attempts made. The packet never changes, and a
/// transmission that is over stays as it is.
pub proof fn law_attempt(transmission: Transmission, result: WriteResult)
    ensures
        ({
            let next = transmission.after(result);
            &&& next.packet == transmission.packet
            &&& transmission.index >= 10 ==> next.index == transmission.index && next.attempts
                == transmission.attempts
            &&& transmission.index < 10 && result == WriteResult::WouldBlock
                && transmission.attempts + 1 < 30_000 ==> next.index == transmission.index
                && next.attempts == transmission.attempts + 1
            &&& transmission.index < 10 && (result == WriteResult::Sent || result
                == WriteResult::Failed || transmission.attempts + 1 >= 30_000) ==> next.index
                == transmission.index + 1 && next.attempts == 0
        }),
        transmission.finished() <==> transmission.index >= 10,
{
}

proof fn lemma_attempts_are_in_vain(start: Transmission, results: Seq<WriteResult>)
    requires
        start.wf(),
        start.attempts == 0,
    ensures
        ({
            let attempts = after_all(start, results).attempts;
            &&& attempts <= results.len()
            &&& after_all(start, results).finished() ==> attempts == 0
            &&& forall|i: int|
                results.len() - attempts <= i < results.len() ==> results[i]
                    == WriteResult::WouldBlock
        }),
    decreases results.len(),
{
    if results.len() > 0 {
        let earlier = results.drop_last();
        lemma_attempts_are_in_vain(start, earlier);
        let before = after_all(start, earlier);
        let now = after_all(start, results);
        assert(now == before.after(results.last()));
        assert forall|i: int|
            results.len() - now.attempts <= i < results.len() implies results[i]
            == WriteResult::WouldBlock by {
            if i < earlier.len() {
                assert(results[i] == earlier[i]);
            }
        }
    }
}

/// A busy line costs no byte: where the line never fails and is never busy 30000 times
/// in a row, no byte is passed over, and what the line has taken is the packet from its
/// first byte, all of it once the transmission is over.
pub proof fn law_busy_line_loses_nothing(start: Transmission, results: Seq<WriteResult>)
    requires
        start.wf(),
        start.index == 0,
        start.attempts == 0,
        forall|i: int| 0 <= i < results.len() ==> results[i] != WriteResult::Failed,
        forall|from: int, to: int|
            0 <= from && to == from + 30_000 && to <= results.len() ==> #[trigger] results.subrange(
                from,
                to,
            ) != Seq::new(30_000, |i: int| WriteResult::WouldBlock),
    ensures
        passed_over(start, results) == 0,
        delivered(start, results) == start.packet@.take(after_all(start, results).index as int),
        after_all(start, results).index >= 10 ==> delivered(start, results) == start.packet@,
    decreases results.len(),
{
    law_delivered_in_order(start, results);
    law_transmission_moves_forward(start, results);
    if results.len() > 0 {
        let earlier = results.drop_last();
        assert forall|i: int| 0 <= i < earlier.len() implies earlier[i] != WriteResult::Failed by {
            assert(earlier[i] == results[i]);
        }
        assert forall|from: int, to: int|
            0 <= from && to == from + 30_000 && to <= earlier.len() implies #[trigger] earlier.subrange(
            from,
            to,
        ) != Seq::new(30_000, |i: int| WriteResult::WouldBlock) by {
            assert(earlier.subrange(from, to) == results.subrange(from, to));
        }
        law_busy_line_loses_nothing(start, earlier);
        lemma_attempts_are_in_vain(start, earlier);
        law_transmission_moves_forward(start, earlier);
        let before = after_all(start, earlier);
        law_attempt(before, results.last());
        if before.attempts + 1 >= 30_000 && results.last() == WriteResult::WouldBlock {
            let from = results.len() - 30_000;
            let window = results.subrange(from, results.len() as int);
            assert forall|i: int| 0 <= i < 30_000 implies window[i] == WriteResult::WouldBlock by {
                if from + i < earlier.len() {
                    assert(results[from + i] == earlier[from + i]);
                }
            }
            assert(window =~= Seq::new(30_000, |i: int| WriteResult::WouldBlock));
        }
    }
}

} // verus!
