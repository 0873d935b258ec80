use lamp_control::dfplayer::{
    checksum, Command, Transmission, WriteResult, DFPLAYER_WRITE_TIMEOUT, PACKET_LENGTH,
};

#[test]
fn checksum_is_the_two_s_complement_of_the_sum() {
    assert_eq!(checksum(&[]), 0);
    assert_eq!(checksum(&[1]), 0xffff);
    assert_eq!(checksum(&[0xff, 0x06, 0x12, 0x00, 0x00, 0x01]), 0xfee8);
    assert_eq!(checksum(&[0xff; 257]), 1);
    assert_eq!(checksum(&[0xff; 514]), 2);
    assert_eq!(checksum(&[0xff; 258]), 0xff02);
}

#[test]
fn packets() {
    assert_eq!(
        Command::play_mp3_folder_track(1).packet(),
        [0x7e, 0xff, 0x06, 0x12, 0x00, 0x00, 0x01, 0xfe, 0xe8, 0xef]
    );
    assert_eq!(
        Command::set_volume(24).packet(),
        [0x7e, 0xff, 0x06, 0x06, 0x00, 0x00, 0x18, 0xfe, 0xdd, 0xef]
    );
    assert_eq!(
        Command::stop().packet(),
        [0x7e, 0xff, 0x06, 0x16, 0x00, 0x00, 0x00, 0xfe, 0xe5, 0xef]
    );
    assert_eq!(
        Command::reset_module().packet(),
        [0x7e, 0xff, 0x06, 0x0c, 0x00, 0x00, 0x00, 0xfe, 0xef, 0xef]
    );
    assert_eq!(
        Command::select_tf_card().packet(),
        [0x7e, 0xff, 0x06, 0x09, 0x00, 0x00, 0x02, 0xfe, 0xf0, 0xef]
    );
    assert_eq!(
        Command { code: 0x03, param: 0x1234 }.packet(),
        [0x7e, 0xff, 0x06, 0x03, 0x00, 0x12, 0x34, 0xfe, 0xb2, 0xef]
    );
    assert_eq!(
        Command { code: 0xff, param: 0xffff }.packet(),
        [0x7e, 0xff, 0x06, 0xff, 0x00, 0xff, 0xff, 0xfb, 0xfe, 0xef]
    );
}

#[test]
fn commands() {
    assert_eq!(Command::play_track(200), Command { code: 0x03, param: 200 });
    assert_eq!(Command::play_mp3_folder_track(7), Command { code: 0x12, param: 7 });
    assert_eq!(Command::play_configured_track(7), Command { code: 0x12, param: 7 });
    assert_eq!(Command::set_volume(29).param, 29);
    assert_eq!(Command::set_volume(30).param, 30);
    assert_eq!(Command::set_volume(31).param, 30);
    assert_eq!(Command::set_volume(255).param, 30);
}

#[test]
fn packet_sums_to_zero_and_reads_back() {
    for code in [0u8, 1, 0x16, 0x80, 0xff] {
        for param in [0u16, 1, 255, 256, 0x1234, 0xffff] {
            let packet = Command { code, param }.packet();
            let sum: u32 = packet[1..7].iter().map(|&b| b as u32).sum();
            let check = packet[7] as u32 * 256 + packet[8] as u32;
            assert_eq!((sum + check) % 65536, 0);
            assert_eq!(packet[3], code);
            assert_eq!(packet[5] as u16 * 256 + packet[6] as u16, param);
        }
    }
}

#[test]
fn ready_line_takes_the_packet_in_order() {
    let command = Command::stop();
    let mut transmission = Transmission::send_command(command);
    let mut taken = Vec::new();
    while let Some(byte) = transmission.next_byte() {
        taken.push(byte);
        assert_eq!(transmission.write_byte_timeout(WriteResult::Sent), None);
    }
    assert_eq!(taken, command.packet());
}

#[test]
fn byte_is_offered_again_until_the_line_is_ready() {
    let command = Command::stop();
    let mut transmission = Transmission::send_command(command);
    for _ in 0..DFPLAYER_WRITE_TIMEOUT - 1 {
        assert_eq!(transmission.next_byte(), Some(0x7e));
        assert_eq!(transmission.write_byte_timeout(WriteResult::WouldBlock), Some(80));
    }
    assert_eq!(transmission.next_byte(), Some(0x7e));
    assert_eq!(transmission.attempts, 29_999);
    assert_eq!(transmission.write_byte_timeout(WriteResult::Sent), None);
    assert_eq!(transmission.next_byte(), Some(0xff));
    assert_eq!(transmission.attempts, 0);
}

#[test]
fn byte_is_given_up_after_the_last_attempt() {
    let mut transmission = Transmission::send_command(Command::stop());
    for _ in 0..DFPLAYER_WRITE_TIMEOUT {
        assert_eq!(transmission.next_byte(), Some(0x7e));
        assert_eq!(transmission.write_byte_timeout(WriteResult::WouldBlock), Some(80));
    }
    assert_eq!(transmission.next_byte(), Some(0xff));
}

#[test]
fn failed_byte_is_passed_over() {
    let mut transmission = Transmission::send_command(Command::stop());
    transmission.write_byte_timeout(WriteResult::WouldBlock);
    assert_eq!(transmission.write_byte_timeout(WriteResult::Failed), None);
    assert_eq!(transmission.next_byte(), Some(0xff));
    assert_eq!(transmission.index, 1);
    assert_eq!(transmission.attempts, 0);
}

#[test]
fn dead_line_ends_the_transmission() {
    let mut transmission = Transmission::send_command(Command::reset_module());
    let mut attempts = 0u32;
    while transmission.next_byte().is_some() {
        transmission.write_byte_timeout(WriteResult::WouldBlock);
        attempts += 1;
    }
    assert_eq!(attempts, 300_000);
    assert_eq!(transmission.index, PACKET_LENGTH);
}

#[test]
fn rest_of_the_packet_goes_out_in_order_after_bytes_are_passed_over() {
    let command = Command::set_volume(24);
    let mut transmission = Transmission::send_command(command);
    let mut taken = Vec::new();
    while let Some(byte) = transmission.next_byte() {
        let result = match transmission.index {
            2 | 5 => WriteResult::Failed,
            7 => WriteResult::WouldBlock,
            _ => WriteResult::Sent,
        };
        if result == WriteResult::Sent {
            taken.push(byte);
        }
        transmission.write_byte_timeout(result);
    }
    assert_eq!(taken, [0x7e, 0xff, 0x06, 0x00, 0x18, 0xdd, 0xef]);
}
