use flacplay::block::SampleBlock;
use flacplay::decoder::{decoded_event, holds_zero_run, opened, Decoder, ZERO_RUN_LIMIT};
use flacplay::device::{Access, DeviceState, HardwareParams, SoftwareParams, StreamInfo};
use flacplay::error::PlayError;
use flacplay::format::SampleFormat;
use flacplay::player::Player;
use flacplay::session::{Action, Event, Phase};

/// Two channels at 16 bits and 44100 Hz: a block of 16 frames, then one of 3.
fn stereo_16_bit() -> Vec<u8> {
    vec![
        0x66, 0x4c, 0x61, 0x43, 0x80, 0x00, 0x00, 0x22, 0x00, 0x10, 0x00, 0x10,
        0x00, 0x00, 0x00, 0x00, 0x00, 0x00, 0x0a, 0xc4, 0x42, 0xf0, 0x00, 0x00,
        0x00, 0x13, 0x00, 0x00, 0x00, 0x00, 0x00, 0x00, 0x00, 0x00, 0x00, 0x00,
        0x00, 0x00, 0x00, 0x00, 0x00, 0x00, 0xff, 0xf8, 0x69, 0x18, 0x00, 0x0f,
        0x92, 0x02, 0xfd, 0x44, 0xfd, 0xa8, 0xfe, 0x0c, 0xfe, 0x70, 0xfe, 0xd4,
        0xff, 0x38, 0xff, 0x9c, 0x00, 0x00, 0x00, 0x64, 0x00, 0xc8, 0x01, 0x2c,
        0x01, 0x90, 0x01, 0xf4, 0x02, 0x58, 0x02, 0xbc, 0x03, 0x20, 0x02, 0x00,
        0x05, 0x00, 0x02, 0xff, 0xf9, 0xff, 0xea, 0xff, 0xd5, 0xff, 0xba, 0xff,
        0x99, 0xff, 0x72, 0xff, 0x45, 0xff, 0x12, 0xfe, 0xd9, 0xfe, 0x9a, 0xfe,
        0x55, 0xfe, 0x0a, 0xfd, 0xb9, 0xfd, 0x62, 0x01, 0xb0, 0xff, 0xf8, 0x69,
        0x18, 0x01, 0x02, 0xa4, 0x02, 0x7f, 0xff, 0x80, 0x00, 0x00, 0x01, 0x02,
        0xff, 0xff, 0x00, 0x00, 0x01, 0x00, 0xed, 0xac,
    ]
}

/// One channel at 24 bits and 48000 Hz: one block of 16 frames.
fn mono_24_bit() -> Vec<u8> {
    vec![
        0x66, 0x4c, 0x61, 0x43, 0x80, 0x00, 0x00, 0x22, 0x00, 0x10, 0x00, 0x10,
        0x00, 0x00, 0x00, 0x00, 0x00, 0x00, 0x0b, 0xb8, 0x01, 0x70, 0x00, 0x00,
        0x00, 0x10, 0x00, 0x00, 0x00, 0x00, 0x00, 0x00, 0x00, 0x00, 0x00, 0x00,
        0x00, 0x00, 0x00, 0x00, 0x00, 0x00, 0xff, 0xf8, 0x6a, 0x0c, 0x00, 0x0f,
        0xa1, 0x02, 0x12, 0x34, 0x56, 0xff, 0xff, 0xfe, 0x80, 0x00, 0x00, 0x7f,
        0xff, 0xff, 0x00, 0x00, 0x00, 0x00, 0x00, 0x00, 0x00, 0x00, 0x00, 0x00,
        0x00, 0x00, 0x00, 0x00, 0x00, 0x00, 0x00, 0x00, 0x00, 0x00, 0x00, 0x00,
        0x00, 0x00, 0x00, 0x00, 0x00, 0x00, 0x00, 0x00, 0x00, 0x00, 0x00, 0x00,
        0x00, 0x00, 0x37, 0xb1,
    ]
}

/// A header and no block at all.
fn no_blocks() -> Vec<u8> {
    vec![
        0x66, 0x4c, 0x61, 0x43, 0x80, 0x00, 0x00, 0x22, 0x00, 0x10, 0x00, 0x10,
        0x00, 0x00, 0x00, 0x00, 0x00, 0x00, 0x0a, 0xc4, 0x42, 0xf0, 0x00, 0x00,
        0x00, 0x00, 0x00, 0x00, 0x00, 0x00, 0x00, 0x00, 0x00, 0x00, 0x00, 0x00,
        0x00, 0x00, 0x00, 0x00, 0x00, 0x00,
    ]
}

/// One channel at 8 bits, a depth that is not played.
fn mono_8_bit() -> Vec<u8> {
    vec![
        0x66, 0x4c, 0x61, 0x43, 0x80, 0x00, 0x00, 0x22, 0x00, 0x10, 0x00, 0x10,
        0x00, 0x00, 0x00, 0x00, 0x00, 0x00, 0x01, 0xf4, 0x00, 0x70, 0x00, 0x00,
        0x00, 0x10, 0x00, 0x00, 0x00, 0x00, 0x00, 0x00, 0x00, 0x00, 0x00, 0x00,
        0x00, 0x00, 0x00, 0x00, 0x00, 0x00, 0xff, 0xf8, 0x64, 0x02, 0x00, 0x0f,
        0x49, 0x02, 0x01, 0xff, 0x00, 0x00, 0x00, 0x00, 0x00, 0x00, 0x00, 0x00,
        0x00, 0x00, 0x00, 0x00, 0x00, 0x00, 0x64, 0xdf,
    ]
}

fn first_left() -> Vec<i32> {
    (0..16).map(|i| 100 * i - 700).collect()
}

fn first_right() -> Vec<i32> {
    (0..16).map(|i| -3 * i * i + 5).collect()
}

fn first_block() -> SampleBlock {
    let mut samples = first_left();
    samples.extend(first_right());
    SampleBlock::new(2, 16, samples).unwrap()
}

fn second_block() -> SampleBlock {
    SampleBlock::new(2, 3, vec![32767, -32768, 1, -1, 0, 256]).unwrap()
}

/// Answers every request as a willing device would that reports `state`.
fn answer(action: &Action, state: DeviceState) -> Event {
    match action {
        Action::ConfigureHardware(_) => Event::HardwareApplied(2048),
        Action::ConfigureSoftware(_) => Event::SoftwareApplied,
        Action::Write(bytes) => Event::Written(bytes.len() / 4),
        Action::QueryState => Event::State(state),
        Action::Start => Event::Started,
        Action::Drain => Event::Drained,
        other => panic!("not for the device: {:?}", other),
    }
}

/// Plays `bytes` to the end and returns every action that was asked for.
fn play(bytes: Vec<u8>) -> (Player, Vec<Action>) {
    let (mut player, first) = Player::open(bytes).unwrap();
    let mut actions = vec![first];
    loop {
        let event = match actions.last().unwrap() {
            Action::Finish | Action::Abort(_) => return (player, actions),
            action => answer(action, DeviceState::Prepared),
        };
        actions.push(player.resume(event).unwrap());
    }
}

#[test]
fn decoder_reads_what_the_stream_says_of_itself() {
    let decoder = Decoder::open(stereo_16_bit()).unwrap();
    assert_eq!(
        decoder.info(),
        StreamInfo { channels: 2, sample_rate: 44100, bits_per_sample: 16, max_block_size: 16 }
    );
    let decoder = Decoder::open(mono_24_bit()).unwrap();
    assert_eq!(
        decoder.info(),
        StreamInfo { channels: 1, sample_rate: 48000, bits_per_sample: 24, max_block_size: 16 }
    );
}

#[test]
fn decoder_hands_out_the_blocks_in_order_and_then_the_end() {
    let mut decoder = Decoder::open(stereo_16_bit()).unwrap();
    assert_eq!(decoder.next_event(Vec::new()), Event::Block(first_block()));
    assert_eq!(decoder.next_event(Vec::new()), Event::Block(second_block()));
    assert_eq!(decoder.next_event(Vec::new()), Event::EndOfStream);
    assert_eq!(decoder.next_event(Vec::new()), Event::EndOfStream);
}

#[test]
fn decoder_overwrites_the_storage_it_is_given() {
    let mut decoder = Decoder::open(stereo_16_bit()).unwrap();
    assert_eq!(decoder.next_event(vec![77; 100]), Event::Block(first_block()));
    assert_eq!(decoder.next_event(vec![77; 2]), Event::Block(second_block()));
}

#[test]
fn decoder_extends_the_sign_of_24_bit_samples() {
    let mut decoder = Decoder::open(mono_24_bit()).unwrap();
    let mut samples = vec![0x123456, -2, -8388608, 8388607];
    samples.extend(vec![0; 12]);
    assert_eq!(decoder.next_event(Vec::new()), Event::Block(SampleBlock::new(1, 16, samples).unwrap()));
    assert_eq!(decoder.next_event(Vec::new()), Event::EndOfStream);
}

#[test]
fn decoder_refuses_what_is_no_flac_stream() {
    assert_eq!(Decoder::open(Vec::new()).err(), Some(PlayError::FileOpenFailure));
    assert_eq!(Decoder::open(vec![0x66, 0x4c, 0x61]).err(), Some(PlayError::FileOpenFailure));
    assert_eq!(Decoder::open(b"RIFF....WAVEfmt ".to_vec()).err(), Some(PlayError::FileOpenFailure));
    let mut no_streaminfo = stereo_16_bit();
    no_streaminfo[4] = 0x81;
    assert_eq!(Decoder::open(no_streaminfo).err(), Some(PlayError::FileOpenFailure));
    let mut cut_header = stereo_16_bit();
    cut_header.truncate(30);
    assert_eq!(Decoder::open(cut_header).err(), Some(PlayError::FileOpenFailure));
}

#[test]
fn decoder_reports_a_damaged_block_as_a_failure() {
    // One flipped sample bit breaks the checksum of the first frame.
    let mut damaged = stereo_16_bit();
    damaged[60] ^= 0x01;
    let mut decoder = Decoder::open(damaged).unwrap();
    assert_eq!(decoder.next_event(Vec::new()), Event::Failed);

    // A stream cut in the middle of its second frame.
    let mut cut = stereo_16_bit();
    let shorter = cut.len() - 5;
    cut.truncate(shorter);
    let mut decoder = Decoder::open(cut).unwrap();
    assert_eq!(decoder.next_event(Vec::new()), Event::Block(first_block()));
    assert_eq!(decoder.next_event(Vec::new()), Event::Failed);
}

#[test]
fn player_plays_a_stream_from_the_first_byte_to_the_last() {
    let (player, actions) = play(stereo_16_bit());
    assert_eq!(player.phase(), Phase::Finished);
    assert!(!player.underrun());
    assert_eq!(
        actions,
        vec![
            Action::ConfigureHardware(HardwareParams {
                channels: 2,
                rate: 44100,
                format: SampleFormat::S16,
                access: Access::Interleaved,
            }),
            Action::ConfigureSoftware(SoftwareParams { start_threshold: 2048 }),
            Action::Write(first_block().to_bytes(SampleFormat::S16)),
            Action::QueryState,
            Action::Start,
            Action::Write(second_block().to_bytes(SampleFormat::S16)),
            Action::QueryState,
            Action::Start,
            Action::Drain,
            Action::Finish,
        ]
    );
}

#[test]
fn player_writes_each_frame_as_left_then_right() {
    let (_, actions) = play(stereo_16_bit());
    let Action::Write(bytes) = &actions[2] else { panic!("no write") };
    assert_eq!(bytes.len(), 16 * 2 * 2);
    let left = first_left();
    let right = first_right();
    for frame in 0..16 {
        let at = frame * 4;
        assert_eq!(&bytes[at..at + 2], &(left[frame] as i16).to_le_bytes());
        assert_eq!(&bytes[at + 2..at + 4], &(right[frame] as i16).to_le_bytes());
    }
    let Action::Write(last) = &actions[5] else { panic!("no write") };
    assert_eq!(last, &vec![0xff, 0x7f, 0xff, 0xff, 0x00, 0x80, 0x00, 0x00, 0x01, 0x00, 0x00, 0x01]);
}

#[test]
fn player_writes_24_bit_samples_in_three_bytes() {
    let (player, actions) = play(mono_24_bit());
    assert_eq!(player.info().bits_per_sample, 24);
    let Action::Write(bytes) = &actions[2] else { panic!("no write") };
    assert_eq!(bytes.len(), 16 * 3);
    assert_eq!(
        &bytes[..12],
        &[0x56, 0x34, 0x12, 0xfe, 0xff, 0xff, 0x00, 0x00, 0x80, 0xff, 0xff, 0x7f]
    );
}

#[test]
fn player_never_writes_nor_starts_for_a_stream_without_blocks() {
    let (player, actions) = play(no_blocks());
    assert_eq!(player.phase(), Phase::Finished);
    assert_eq!(actions.len(), 4);
    assert_eq!(actions[2], Action::Drain);
    assert_eq!(actions[3], Action::Finish);
    assert!(!actions.iter().any(|a| matches!(a, Action::Write(_) | Action::Start)));
}

#[test]
fn player_does_not_start_a_device_that_runs() {
    let (mut player, first) = Player::open(stereo_16_bit()).unwrap();
    let mut action = first;
    let mut starts = 0;
    let mut writes = 0;
    loop {
        let event = match &action {
            Action::Finish => break,
            Action::Start => {
                starts += 1;
                Event::Started
            }
            Action::Write(bytes) => {
                writes += 1;
                Event::Written(bytes.len() / 4)
            }
            other => answer(other, DeviceState::Running),
        };
        action = player.resume(event).unwrap();
    }
    assert_eq!(writes, 2);
    assert_eq!(starts, 0);
}

#[test]
fn player_refuses_a_depth_it_cannot_play() {
    assert_eq!(Player::open(mono_8_bit()).err(), Some(PlayError::UnsupportedFormat));
}

#[test]
fn player_refuses_what_is_no_flac_stream() {
    assert_eq!(Player::open(vec![1, 2, 3, 4, 5, 6, 7, 8]).err(), Some(PlayError::FileOpenFailure));
}

#[test]
fn player_gives_up_on_a_damaged_block() {
    let mut damaged = stereo_16_bit();
    let last = damaged.len() - 1;
    damaged[last] ^= 0xff;
    let (player, actions) = play(damaged);
    assert_eq!(player.phase(), Phase::Failed);
    assert_eq!(actions.last(), Some(&Action::Abort(PlayError::DecodeError)));
    assert_eq!(actions.iter().filter(|a| matches!(a, Action::Write(_))).count(), 1);
}

#[test]
fn player_names_a_refusal_of_the_device() {
    let (mut player, _) = Player::open(stereo_16_bit()).unwrap();
    assert_eq!(player.resume(Event::Failed), Some(Action::Abort(PlayError::DeviceNegotiationFailure)));

    let (mut player, _) = Player::open(stereo_16_bit()).unwrap();
    player.resume(Event::HardwareApplied(64)).unwrap();
    let write = player.resume(Event::SoftwareApplied).unwrap();
    assert!(matches!(write, Action::Write(_)));
    assert_eq!(player.resume(Event::Failed), Some(Action::Abort(PlayError::WriteFailure)));
}

#[test]
fn player_ignores_an_event_it_does_not_wait_for() {
    let (mut player, _) = Player::open(stereo_16_bit()).unwrap();
    assert_eq!(player.resume(Event::Started), None);
    assert_eq!(player.resume(Event::EndOfStream), None);
    assert_eq!(player.phase(), Phase::Configuring);
}

#[test]
fn an_answer_with_a_block_becomes_a_block_event() {
    let event = decoded_event(Ok(Some((2, 3, vec![1, 2, 3, 4, 5, 6]))));
    assert_eq!(event, Event::Block(SampleBlock::new(2, 3, vec![1, 2, 3, 4, 5, 6]).unwrap()));
}

#[test]
fn an_answer_without_a_block_is_the_end_of_the_stream() {
    assert_eq!(decoded_event(Ok(None)), Event::EndOfStream);
}

#[test]
fn an_answer_with_a_lopsided_block_is_a_failure() {
    assert_eq!(decoded_event(Ok(Some((2, 3, vec![1, 2, 3, 4, 5])))), Event::Failed);
    assert_eq!(decoded_event(Ok(Some((0, 0, vec![1])))), Event::Failed);
}

#[test]
fn an_error_of_the_decoder_is_a_failure() {
    assert_eq!(decoded_event(Err(claxon::Error::FormatError("frame CRC mismatch"))), Event::Failed);
    assert_eq!(decoded_event(Err(claxon::Error::Unsupported("anything"))), Event::Failed);
}

#[test]
fn an_error_at_the_header_is_a_failure_to_open() {
    let refused = opened(Err(claxon::Error::FormatError("invalid stream header")));
    assert_eq!(refused.err(), Some(PlayError::FileOpenFailure));
}

#[test]
fn zero_runs_are_found_wherever_they_lie() {
    let bytes = vec![1, 0, 0, 2, 0, 0, 0, 3, 0];
    assert!(holds_zero_run(&bytes, 0));
    assert!(holds_zero_run(&bytes, 1));
    assert!(holds_zero_run(&bytes, 2));
    assert!(holds_zero_run(&bytes, 3));
    assert!(!holds_zero_run(&bytes, 4));
    assert!(holds_zero_run(&vec![0, 0, 0, 0], 4));
    assert!(!holds_zero_run(&vec![0, 0, 0, 0], 5));
    assert!(holds_zero_run(&vec![7, 7, 0, 0], 2));
    assert!(holds_zero_run(&vec![0, 0, 7, 7], 2));
    assert!(!holds_zero_run(&vec![0, 7, 0, 7, 0], 2));
    assert!(holds_zero_run(&Vec::new(), 0));
    assert!(!holds_zero_run(&Vec::new(), 1));
    assert!(!holds_zero_run(&vec![1, 2, 3], usize::MAX));
}

#[test]
fn test_streams_hold_no_long_zero_run() {
    assert_eq!(ZERO_RUN_LIMIT, 268_435_456);
    assert!(!holds_zero_run(&stereo_16_bit(), ZERO_RUN_LIMIT));
    assert!(holds_zero_run(&mono_24_bit(), 30));
}

#[test]
fn a_stream_with_too_many_zero_bytes_in_a_row_is_refused() {
    // A good header, then zero bytes up to the limit.
    let mut bytes = no_blocks();
    bytes.push(0xff);
    bytes.resize(bytes.len() + ZERO_RUN_LIMIT, 0);
    assert_eq!(Decoder::open(bytes).err(), Some(PlayError::FileOpenFailure));
}

#[test]
fn a_stream_with_fewer_zero_bytes_in_a_row_is_read() {
    // One zero byte fewer: the stream is opened, and what follows its header
    // is no frame.
    let mut bytes = no_blocks();
    bytes.push(0xff);
    bytes.resize(bytes.len() + ZERO_RUN_LIMIT - 1, 0);
    let mut decoder = Decoder::open(bytes).unwrap();
    assert_eq!(decoder.info().sample_rate, 44100);
    assert_eq!(decoder.next_event(Vec::new()), Event::Failed);
}

#[test]
fn player_stops_at_a_block_with_other_channels_than_the_stream() {
    // The header says two channels; the second frame is changed to hold one
    // channel of six frames, with its checksums set right.
    let (player, actions) = play(odd_second_frame());
    assert_eq!(player.phase(), Phase::Failed);
    assert_eq!(actions.last(), Some(&Action::Abort(PlayError::DecodeError)));
    assert_eq!(actions.iter().filter(|a| matches!(a, Action::Write(_))).count(), 1);
    assert!(!actions.contains(&Action::Drain));
}

/// Two channels by its header; its second frame holds one channel.
fn odd_second_frame() -> Vec<u8> {
    vec![
        0x66, 0x4c, 0x61, 0x43, 0x80, 0x00, 0x00, 0x22, 0x00, 0x10, 0x00, 0x10,
        0x00, 0x00, 0x00, 0x00, 0x00, 0x00, 0x0a, 0xc4, 0x42, 0xf0, 0x00, 0x00,
        0x00, 0x16, 0x00, 0x00, 0x00, 0x00, 0x00, 0x00, 0x00, 0x00, 0x00, 0x00,
        0x00, 0x00, 0x00, 0x00, 0x00, 0x00, 0xff, 0xf8, 0x69, 0x18, 0x00, 0x0f,
        0x92, 0x02, 0xfd, 0x44, 0xfd, 0xa8, 0xfe, 0x0c, 0xfe, 0x70, 0xfe, 0xd4,
        0xff, 0x38, 0xff, 0x9c, 0x00, 0x00, 0x00, 0x64, 0x00, 0xc8, 0x01, 0x2c,
        0x01, 0x90, 0x01, 0xf4, 0x02, 0x58, 0x02, 0xbc, 0x03, 0x20, 0x02, 0x00,
        0x05, 0x00, 0x02, 0xff, 0xf9, 0xff, 0xea, 0xff, 0xd5, 0xff, 0xba, 0xff,
        0x99, 0xff, 0x72, 0xff, 0x45, 0xff, 0x12, 0xfe, 0xd9, 0xfe, 0x9a, 0xfe,
        0x55, 0xfe, 0x0a, 0xfd, 0xb9, 0xfd, 0x62, 0x01, 0xb0, 0xff, 0xf8, 0x69,
        0x08, 0x01, 0x05, 0x13, 0x02, 0x00, 0x01, 0x00, 0x02, 0x00, 0x03, 0x00,
        0x04, 0x00, 0x05, 0x00, 0x06, 0x3e, 0x3e,
    ]
}
