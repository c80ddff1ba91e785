use winaudio::util::{check_multimedia_error, is_multimedia_status, read_u16, read_u32, Event};
use winaudio::wave::out::{BUFFER_SIZE, WOM_CLOSE, WOM_DONE, WOM_OPEN};
use winaudio::wave::{Action, Buffer, Format, Out, Player, Request, State, Tag};
use winaudio::{DecodeError, Error};

const PREPARED: u32 = 2;

fn record(tag: u16, channels: u16, rate: u32, avg: u32, align: u16, bits: u16) -> Vec<u8> {
    let mut bytes = Vec::new();
    bytes.extend_from_slice(&tag.to_le_bytes());
    bytes.extend_from_slice(&channels.to_le_bytes());
    bytes.extend_from_slice(&rate.to_le_bytes());
    bytes.extend_from_slice(&avg.to_le_bytes());
    bytes.extend_from_slice(&align.to_le_bytes());
    bytes.extend_from_slice(&bits.to_le_bytes());
    bytes
}

fn wav(format_record: &[u8], data: &[u8]) -> Vec<u8> {
    let mut bytes = Vec::new();
    bytes.extend_from_slice(b"RIFF");
    bytes.extend_from_slice(&((36 + data.len()) as u32).to_le_bytes());
    bytes.extend_from_slice(b"WAVE");
    bytes.extend_from_slice(b"fmt ");
    bytes.extend_from_slice(&16u32.to_le_bytes());
    bytes.extend_from_slice(format_record);
    bytes.extend_from_slice(b"data");
    bytes.extend_from_slice(&(data.len() as u32).to_le_bytes());
    bytes.extend_from_slice(data);
    bytes
}

fn pcm(channels: u16, rate: u32, bits: u16) -> Format {
    let align = channels * bits / 8;
    Format {
        format_tag: Tag::Pcm,
        channels,
        samples_per_sec: rate,
        avg_bytes_per_sec: rate * align as u32,
        block_align: align,
        bits_per_sample: bits,
    }
}

fn ready_device(format: &Format) -> Out {
    let mut out = Out::open(7, format);
    out.reply(0, 0);
    out.reply(0, PREPARED);
    out.reply(0, PREPARED);
    assert!(out.is_ready());
    out
}

#[test]
fn status_codes_name_their_errors() {
    assert_eq!(check_multimedia_error(0), Ok(()));
    assert_eq!(check_multimedia_error(1), Err(Error::Error));
    assert_eq!(check_multimedia_error(2), Err(Error::BadDeviceId));
    assert_eq!(check_multimedia_error(4), Err(Error::Allocated));
    assert_eq!(check_multimedia_error(5), Err(Error::InvalidHandle));
    assert_eq!(check_multimedia_error(6), Err(Error::NoDriver));
    assert_eq!(check_multimedia_error(7), Err(Error::NoMemory));
    assert_eq!(check_multimedia_error(10), Err(Error::InvalidFlag));
    assert_eq!(check_multimedia_error(11), Err(Error::InvalidParam));
    assert_eq!(check_multimedia_error(21), Err(Error::MoreData));
    assert_eq!(check_multimedia_error(32), Err(Error::BadFormat));
    assert_eq!(check_multimedia_error(33), Err(Error::StillPlaying));
    assert_eq!(check_multimedia_error(34), Err(Error::Unprepared));
    assert_eq!(check_multimedia_error(35), Err(Error::Sync));
}

#[test]
fn every_error_has_its_native_code() {
    let table = [
        (Error::Error, 1),
        (Error::BadDeviceId, 2),
        (Error::NotEnabled, 3),
        (Error::Allocated, 4),
        (Error::InvalidHandle, 5),
        (Error::NoDriver, 6),
        (Error::NoMemory, 7),
        (Error::NotSupported, 8),
        (Error::BadErrorNumber, 9),
        (Error::InvalidFlag, 10),
        (Error::InvalidParam, 11),
        (Error::HandleBusy, 12),
        (Error::InvalidAlias, 13),
        (Error::BadDatabase, 14),
        (Error::KeyNotFound, 15),
        (Error::ReadError, 16),
        (Error::WriteError, 17),
        (Error::DeleteError, 18),
        (Error::ValueNotFound, 19),
        (Error::NoDriverCallback, 20),
        (Error::MoreData, 21),
        (Error::BadFormat, 32),
        (Error::StillPlaying, 33),
        (Error::Unprepared, 34),
        (Error::Sync, 35),
    ];
    for (error, code) in table {
        assert_eq!(error.code(), code);
        assert_eq!(Error::try_from(code), Ok(error));
        assert_eq!(check_multimedia_error(code), Err(error));
    }
}

#[test]
fn error_codes_round_trip() {
    let mut known = 0;
    for code in 0..=100u32 {
        match Error::try_from(code) {
            Ok(error) => {
                known += 1;
                assert_eq!(error.code(), code);
                assert!(is_multimedia_status(code));
            }
            Err(value) => {
                assert_eq!(value, code);
                assert_eq!(is_multimedia_status(code), code == 0);
            }
        }
    }
    assert_eq!(known, 25);
    assert_eq!(Error::try_from(22), Err(22));
    assert_eq!(Error::try_from(36), Err(36));
    assert_eq!(Error::try_from(0), Err(0));
}

#[test]
fn tags_are_found_by_their_number() {
    assert_eq!(Tag::try_from(1), Ok(Tag::Pcm));
    assert_eq!(Tag::try_from(0), Ok(Tag::Unknown));
    assert_eq!(Tag::try_from(2), Ok(Tag::AdPcm));
    assert_eq!(Tag::try_from(3), Ok(Tag::IeeeFloat));
    assert_eq!(Tag::try_from(6), Ok(Tag::Alaw));
    assert_eq!(Tag::try_from(7), Ok(Tag::Mulaw));
    assert_eq!(Tag::try_from(0xf1ac), Ok(Tag::Flac));
    assert_eq!(Tag::try_from(0xffff), Err(0xffff));
    assert_eq!(Tag::try_from(0x000d), Err(0x000d));
    assert_eq!(Tag::Pcm.code(), 1);
    assert_eq!(Tag::Flac.code(), 0xf1ac);
    let mut known = 0;
    for code in 0..=u16::MAX {
        if let Ok(tag) = Tag::try_from(code) {
            known += 1;
            assert_eq!(tag.code(), code);
        }
    }
    assert_eq!(known, 265);
}

#[test]
fn little_endian_reads() {
    let data = [0x34, 0x12, 0x78, 0x56, 0xff];
    assert_eq!(read_u16(&data, 0), Some(0x1234));
    assert_eq!(read_u16(&data, 3), Some(0xff56));
    assert_eq!(read_u16(&data, 4), None);
    assert_eq!(read_u16(&data, usize::MAX), None);
    assert_eq!(read_u32(&data, 0), Some(0x5678_1234));
    assert_eq!(read_u32(&data, 1), Some(0xff56_7812));
    assert_eq!(read_u32(&data, 2), None);
    assert_eq!(read_u32(&[0xff, 0xff, 0xff, 0xff], 0), Some(u32::MAX));
    assert_eq!(read_u16(&[], 0), None);
}

#[test]
fn event_starts_clear_and_follows_set_and_clear() {
    let mut event = Event::new();
    assert!(!event.wait());
    event.set();
    assert!(event.wait());
    event.set();
    assert!(event.wait());
    event.clear();
    assert!(!event.wait());
}

#[test]
fn format_is_read_field_by_field() {
    let bytes = record(1, 2, 44100, 176400, 4, 16);
    let format = Format::from_wav_stream(&bytes, 0).unwrap();
    assert_eq!(format.format_tag, Tag::Pcm);
    assert_eq!(format.channels, 2);
    assert_eq!(format.samples_per_sec, 44100);
    assert_eq!(format.avg_bytes_per_sec, 176400);
    assert_eq!(format.block_align, 4);
    assert_eq!(format.bits_per_sample, 16);
}

#[test]
fn format_is_read_at_the_offset() {
    let mut bytes = vec![0xaa; 20];
    bytes.extend_from_slice(&record(3, 1, 0x0102_0304, 0xfffe_fdfc, 0xffff, 0x8001));
    bytes.extend_from_slice(&[0xbb; 5]);
    let format = Format::from_wav_stream(&bytes, 20).unwrap();
    assert_eq!(
        format,
        Format {
            format_tag: Tag::IeeeFloat,
            channels: 1,
            samples_per_sec: 0x0102_0304,
            avg_bytes_per_sec: 0xfffe_fdfc,
            block_align: 0xffff,
            bits_per_sample: 0x8001,
        }
    );
}

#[test]
fn format_errors() {
    let good = record(1, 1, 8000, 8000, 1, 8);
    assert_eq!(Format::from_wav_stream(&good[..15], 0), Err(DecodeError::Truncated));
    assert_eq!(Format::from_wav_stream(&good, 1), Err(DecodeError::Truncated));
    assert_eq!(Format::from_wav_stream(&good, 4), Err(DecodeError::UnknownTag(8000)));
    assert_eq!(Format::from_wav_stream(&good, 14), Err(DecodeError::Truncated));
    assert_eq!(Format::from_wav_stream(&good, 8), Err(DecodeError::UnknownTag(8000)));
    assert_eq!(Format::from_wav_stream(&good, 16), Err(DecodeError::Truncated));
    assert_eq!(Format::from_wav_stream(&good, 15), Err(DecodeError::Truncated));
    assert_eq!(Format::from_wav_stream(&good, u64::MAX), Err(DecodeError::Truncated));
    assert_eq!(Format::from_wav_stream(&[], 0), Err(DecodeError::Truncated));
    let unknown = record(0x000d, 1, 8000, 8000, 1, 8);
    assert_eq!(Format::from_wav_stream(&unknown, 0), Err(DecodeError::UnknownTag(0x000d)));
    assert_eq!(Format::from_wav_stream(&unknown[..2], 0), Err(DecodeError::UnknownTag(0x000d)));
    assert_eq!(Format::from_wav_stream(&good[..2], 0), Err(DecodeError::Truncated));
}

#[test]
fn string_is_found_at_its_first_occurrence() {
    assert_eq!(Player::find_string_in_file(b"RIFF....WAVEfmt ....", b"fmt "), Some(16));
    assert_eq!(Player::find_string_in_file(b"fmt fmt ", b"fmt "), Some(4));
    assert_eq!(Player::find_string_in_file(b"ffmt", b"fmt"), Some(4));
    assert_eq!(Player::find_string_in_file(b"fmt", b"fmt "), None);
    assert_eq!(Player::find_string_in_file(b"", b"f"), None);
    assert_eq!(Player::find_string_in_file(b"abcfm t fmt", b"fmt "), None);
    assert_eq!(Player::find_string_in_file(b"aaab", b"ab"), Some(4));
    assert_eq!(Player::find_string_in_file(b"x", b"x"), Some(1));
}

#[test]
fn string_is_found_across_a_chunk_boundary() {
    for start in 505..=515usize {
        let mut file = vec![b'.'; 1200];
        file[start..start + 4].copy_from_slice(b"fmt ");
        assert_eq!(Player::find_string_in_file(&file, b"fmt "), Some(start as u64 + 4));
    }
    let file = vec![b'f'; 2048];
    assert_eq!(Player::find_string_in_file(&file, b"fmt "), None);
}

#[test]
fn player_reads_the_format_of_a_canonical_file() {
    let file = wav(&record(1, 2, 22050, 88200, 4, 16), &[1, 2, 3, 4]);
    let player = Player::from_file(file).unwrap();
    assert_eq!(player.fmt(), pcm(2, 22050, 16));
    assert!(!player.is_finished());
}

#[test]
fn player_finds_the_format_behind_other_chunks() {
    let mut file = Vec::new();
    file.extend_from_slice(b"RIFF");
    file.extend_from_slice(&[0; 4]);
    file.extend_from_slice(b"WAVE");
    file.extend_from_slice(b"LIST");
    file.extend_from_slice(&600u32.to_le_bytes());
    file.extend_from_slice(&[b'-'; 600]);
    file.extend_from_slice(b"fmt ");
    file.extend_from_slice(&16u32.to_le_bytes());
    file.extend_from_slice(&record(1, 1, 11025, 11025, 1, 8));
    let player = Player::from_file(file).unwrap();
    assert_eq!(player.fmt(), pcm(1, 11025, 8));
}

#[test]
fn player_rejects_a_missing_signature_before_anything_else() {
    let mut file = wav(&record(1, 1, 8000, 8000, 1, 8), &[0; 8]);
    file[0] = b'r';
    assert!(matches!(Player::from_file(file), Err(DecodeError::MissingSignature)));
    let mut no_marker = b"RIFX".to_vec();
    no_marker.extend_from_slice(&[0; 64]);
    assert!(matches!(Player::from_file(no_marker), Err(DecodeError::MissingSignature)));
    let mut bad_tag = wav(&record(0xffff, 1, 8000, 8000, 1, 8), &[]);
    bad_tag[3] = b'f';
    assert!(matches!(Player::from_file(bad_tag), Err(DecodeError::MissingSignature)));
    assert!(matches!(Player::from_file(b"fmt ".to_vec()), Err(DecodeError::MissingSignature)));
}

#[test]
fn player_errors() {
    assert!(matches!(Player::from_file(Vec::new()), Err(DecodeError::Truncated)));
    assert!(matches!(Player::from_file(b"RIF".to_vec()), Err(DecodeError::Truncated)));
    assert!(matches!(Player::from_file(b"RIFF".to_vec()), Err(DecodeError::MarkerNotFound)));
    assert!(matches!(
        Player::from_file(b"RIFF....WAVEfmt".to_vec()),
        Err(DecodeError::MarkerNotFound)
    ));
    assert!(matches!(
        Player::from_file(b"RIFF....WAVEfmt ".to_vec()),
        Err(DecodeError::Truncated)
    ));
    let whole = wav(&record(1, 1, 8000, 8000, 1, 8), &[]);
    assert!(matches!(
        Player::from_file(whole[..35].to_vec()),
        Err(DecodeError::Truncated)
    ));
    assert!(Player::from_file(whole[..36].to_vec()).is_ok());
    let unknown = wav(&record(0x7777, 1, 8000, 8000, 1, 8), &[]);
    assert!(matches!(Player::from_file(unknown), Err(DecodeError::UnknownTag(0x7777))));
}

#[test]
fn buffer_starts_zeroed_and_unprepared() {
    let buffer = Buffer::new(16);
    assert_eq!(buffer.data(), &[0u8; 16][..]);
    assert_eq!(buffer.capacity(), 16);
    assert_eq!(buffer.len(), 16);
    assert_eq!(buffer.flags(), 0);
    assert!(!buffer.is_prepared());
}

#[test]
fn buffer_filled_from_a_short_source_is_exhausted_and_padded() {
    let mut buffer = Buffer::new(8);
    assert!(!buffer.read(&[9; 8]));
    assert!(buffer.read(&[1, 2, 3]));
    assert_eq!(buffer.data(), &[1, 2, 3, 0, 0, 0, 0, 0][..]);
    assert_eq!(buffer.len(), 3);
    assert_eq!(buffer.capacity(), 8);
    assert!(buffer.read(&[]));
    assert_eq!(buffer.data(), &[0u8; 8][..]);
    assert_eq!(buffer.len(), 0);
}

#[test]
fn buffer_filled_from_a_long_source_is_full() {
    let mut buffer = Buffer::new(4);
    assert!(!buffer.read(&[1, 2, 3, 4]));
    assert_eq!(buffer.data(), &[1, 2, 3, 4][..]);
    assert_eq!(buffer.len(), 4);
    assert!(!buffer.read(&[5, 6, 7, 8, 9, 10]));
    assert_eq!(buffer.data(), &[5, 6, 7, 8][..]);
    assert_eq!(buffer.len(), 4);
}

#[test]
fn empty_buffer_is_never_exhausted() {
    let mut buffer = Buffer::new(0);
    assert!(!buffer.read(&[]));
    assert!(!buffer.read(&[1]));
    assert_eq!(buffer.len(), 0);
}

#[test]
fn blocks_are_rounded_up_to_the_alignment() {
    assert_eq!(BUFFER_SIZE, 256 * 1024);
    assert_eq!(Out::prepare_block(1, BUFFER_SIZE).capacity(), 262144);
    assert_eq!(Out::prepare_block(4, BUFFER_SIZE).capacity(), 262144);
    assert_eq!(Out::prepare_block(3, BUFFER_SIZE).capacity(), 262146);
    assert_eq!(Out::prepare_block(6, BUFFER_SIZE).capacity(), 262146);
    assert_eq!(Out::prepare_block(65535, BUFFER_SIZE).capacity(), 327675);
    assert_eq!(Out::prepare_block(5, 11).capacity(), 15);
    assert_eq!(Out::prepare_block(5, 10).capacity(), 10);
    assert_eq!(Out::prepare_block(5, 0).capacity(), 0);
    let block = Out::prepare_block(3, 4);
    assert_eq!(block.data(), &[0u8; 6][..]);
    assert_eq!(block.len(), 6);
    assert!(!block.is_prepared());
}

#[test]
fn setup_opens_then_prepares_both_buffers() {
    let format = pcm(2, 44100, 16);
    let mut out = Out::open(7, &format);
    assert_eq!(out.current_state(), State::Opening);
    assert_eq!(out.opened(), None);
    assert_eq!(out.request(), Some(Request::Open { device_id: 7, format }));
    assert!(out.wait());
    out.reply(0, 0);
    assert_eq!(out.request(), Some(Request::PrepareHeader { slot: 0 }));
    out.reply(0, PREPARED);
    assert_eq!(out.request(), Some(Request::PrepareHeader { slot: 1 }));
    assert_eq!(out.opened(), None);
    out.reply(0, PREPARED | 0x10);
    assert_eq!(out.current_state(), State::Ready);
    assert_eq!(out.request(), None);
    assert_eq!(out.opened(), Some(Ok(())));
    assert!(out.buffers()[0].is_prepared());
    assert_eq!(out.buffers()[0].flags(), PREPARED);
    assert_eq!(out.buffers()[1].flags(), PREPARED | 0x10);
    assert_eq!(out.buffers()[0].capacity(), 262144);
    assert_eq!(out.buffers()[1].capacity(), 262144);
    out.reply(5, 0);
    assert_eq!(out.current_state(), State::Ready);
}

#[test]
fn failed_open_holds_nothing() {
    let mut out = Out::open(99, &pcm(1, 8000, 8));
    out.reply(2, 0);
    assert_eq!(out.current_state(), State::Failed { error: Error::BadDeviceId });
    assert_eq!(out.request(), None);
    assert_eq!(out.opened(), Some(Err(Error::BadDeviceId)));
    out.reply(0, PREPARED);
    assert_eq!(out.opened(), Some(Err(Error::BadDeviceId)));
    let mut busy = Out::open(0, &pcm(1, 8000, 8));
    busy.reply(4, 0);
    assert_eq!(busy.opened(), Some(Err(Error::Allocated)));
    let mut format = Out::open(0, &pcm(1, 8000, 8));
    format.reply(32, 0);
    assert_eq!(format.opened(), Some(Err(Error::BadFormat)));
    let mut driver = Out::open(0, &pcm(1, 8000, 8));
    driver.reply(6, 0);
    assert_eq!(driver.opened(), Some(Err(Error::NoDriver)));
}

#[test]
fn failed_preparation_releases_the_device() {
    let mut out = Out::open(0, &pcm(1, 8000, 8));
    out.reply(0, 0);
    out.reply(7, PREPARED);
    assert_eq!(out.current_state(), State::Aborting { error: Error::NoMemory });
    assert_eq!(out.request(), Some(Request::Close));
    assert_eq!(out.opened(), None);
    out.reply(5, 0);
    assert_eq!(out.current_state(), State::Failed { error: Error::NoMemory });
    assert_eq!(out.request(), None);

    let mut second = Out::open(0, &pcm(1, 8000, 8));
    second.reply(0, 0);
    second.reply(0, PREPARED);
    second.reply(5, PREPARED);
    assert_eq!(second.request(), Some(Request::Close));
    second.reply(0, 0);
    assert_eq!(second.opened(), Some(Err(Error::InvalidHandle)));
}

#[test]
fn preparation_without_the_prepared_flag_is_an_invalid_flag() {
    let mut out = Out::open(0, &pcm(1, 8000, 8));
    out.reply(0, 0);
    out.reply(0, 0x1c);
    assert_eq!(out.current_state(), State::Aborting { error: Error::InvalidFlag });
    assert_eq!(out.request(), Some(Request::Close));
    out.reply(0, 0);
    assert_eq!(out.opened(), Some(Err(Error::InvalidFlag)));
    assert!(!out.buffers()[0].is_prepared());
}

#[test]
fn first_submission_does_not_wait() {
    let mut out = ready_device(&pcm(1, 8000, 8));
    assert!(out.wait());
    assert_eq!(out.write_first(), Action::Call(Request::Write { slot: 0 }));
    assert!(!out.wait());
}

#[test]
fn submission_waits_for_the_completion_before_it() {
    let mut out = ready_device(&pcm(1, 8000, 8));
    assert_eq!(out.write_first(), Action::Call(Request::Write { slot: 0 }));
    assert_eq!(out.write_second(), Action::Wait);
    assert_eq!(out.write_second(), Action::Wait);
    assert_eq!(out.write_first(), Action::Wait);
    out.callback(WOM_DONE);
    assert!(out.wait());
    assert_eq!(out.write_second(), Action::Call(Request::Write { slot: 1 }));
    assert_eq!(out.write_first(), Action::Wait);
    out.callback(WOM_DONE);
    assert_eq!(out.write_first(), Action::Call(Request::Write { slot: 0 }));
}

#[test]
fn every_completion_admits_one_submission() {
    let mut out = ready_device(&pcm(2, 44100, 16));
    let mut writes = 0;
    let mut completions = 0;
    let mut seed: u32 = 12345;
    for _ in 0..10_000 {
        seed = seed.wrapping_mul(1_103_515_245).wrapping_add(12345);
        let pick = (seed >> 16) % 3;
        if pick == 0 && writes > completions {
            out.callback(WOM_DONE);
            completions += 1;
        } else {
            let action = if writes % 2 == 0 { out.write_first() } else { out.write_second() };
            if writes == completions {
                assert_eq!(action, Action::Call(Request::Write { slot: writes % 2 }));
                writes += 1;
            } else {
                assert_eq!(action, Action::Wait);
            }
        }
        assert!(writes == completions || writes == completions + 1);
        assert_eq!(out.wait(), writes == completions);
    }
    assert!(writes > 1000);
}

#[test]
fn a_second_completion_is_not_kept() {
    let mut out = ready_device(&pcm(1, 8000, 8));
    out.callback(WOM_DONE);
    out.callback(WOM_DONE);
    assert_eq!(out.write_first(), Action::Call(Request::Write { slot: 0 }));
    assert_eq!(out.write_second(), Action::Wait);
}

#[test]
fn open_and_close_messages_leave_the_signal() {
    let mut out = ready_device(&pcm(1, 8000, 8));
    out.callback(WOM_OPEN);
    assert!(out.wait());
    assert_eq!(out.write_first(), Action::Call(Request::Write { slot: 0 }));
    out.callback(WOM_OPEN);
    out.callback(WOM_CLOSE);
    assert!(!out.wait());
    out.callback(WOM_DONE);
    assert!(out.wait());
    out.callback(WOM_CLOSE);
    assert!(out.wait());
}

#[test]
fn pause_resume_and_stop_name_their_calls() {
    let out = ready_device(&pcm(1, 8000, 8));
    assert_eq!(out.pause(), Action::Call(Request::Pause));
    assert_eq!(out.pause(), Action::Call(Request::Pause));
    assert_eq!(out.resume(), Action::Call(Request::Restart));
    assert_eq!(out.resume(), Action::Call(Request::Restart));
    assert_eq!(out.stop(), Action::Call(Request::Reset));
    let opening = Out::open(0, &pcm(1, 8000, 8));
    assert_eq!(opening.pause(), Action::Idle);
    assert_eq!(opening.resume(), Action::Idle);
    assert_eq!(opening.stop(), Action::Idle);
}

#[test]
fn nothing_is_submitted_before_the_device_is_ready() {
    let mut out = Out::open(0, &pcm(1, 8000, 8));
    assert_eq!(out.write_first(), Action::Idle);
    assert_eq!(out.write_second(), Action::Idle);
    assert!(out.wait());
    out.reply(0, 0);
    assert_eq!(out.write_first(), Action::Idle);
}

#[test]
fn volume_is_packed_left_low_right_high() {
    let out = ready_device(&pcm(2, 44100, 16));
    assert_eq!(out.set_volume(0, 0), Ok(Action::Call(Request::SetVolume { volume: 0 })));
    assert_eq!(
        out.set_volume(0xffff, 0xffff),
        Ok(Action::Call(Request::SetVolume { volume: 0xffff_ffff }))
    );
    assert_eq!(
        out.set_volume(1, 2),
        Ok(Action::Call(Request::SetVolume { volume: 0x0002_0001 }))
    );
    assert_eq!(
        out.set_volume(0x8000, 0x1234),
        Ok(Action::Call(Request::SetVolume { volume: 0x1234_8000 }))
    );
    assert_eq!(
        out.set_volume(0xffff, 0),
        Ok(Action::Call(Request::SetVolume { volume: 0x0000_ffff }))
    );
}

#[test]
fn volume_out_of_range_is_refused_without_a_call() {
    let out = ready_device(&pcm(2, 44100, 16));
    assert_eq!(out.set_volume(0x1_0000, 0), Err(Error::InvalidParam));
    assert_eq!(out.set_volume(0, 0x1_0000), Err(Error::InvalidParam));
    assert_eq!(out.set_volume(u32::MAX, u32::MAX), Err(Error::InvalidParam));
    let opening = Out::open(0, &pcm(1, 8000, 8));
    assert_eq!(opening.set_volume(0x1_0000, 0), Err(Error::InvalidParam));
    assert_eq!(opening.set_volume(1, 1), Ok(Action::Idle));
}

#[test]
fn player_sets_the_volume_of_its_device() {
    let player = Player::from_file(wav(&record(1, 1, 8000, 8000, 1, 8), &[0; 4])).unwrap();
    let out = ready_device(&player.fmt());
    assert_eq!(
        player.set_volume(&out, 3, 4),
        Ok(Action::Call(Request::SetVolume { volume: 0x0004_0003 }))
    );
    assert_eq!(player.set_volume(&out, 0, 70000), Err(Error::InvalidParam));
}

#[test]
fn teardown_stops_unprepares_and_closes() {
    let mut out = ready_device(&pcm(1, 8000, 8));
    out.close();
    assert_eq!(out.current_state(), State::Stopping);
    assert_eq!(out.request(), Some(Request::Reset));
    out.reply(0, 0);
    assert_eq!(out.request(), Some(Request::UnprepareHeader { slot: 0 }));
    out.reply(0, 0);
    assert!(!out.buffers()[0].is_prepared());
    assert_eq!(out.request(), Some(Request::UnprepareHeader { slot: 1 }));
    out.reply(0, 0);
    assert!(!out.buffers()[1].is_prepared());
    assert_eq!(out.request(), Some(Request::Close));
    out.reply(0, 0);
    assert_eq!(out.current_state(), State::Closed);
    assert_eq!(out.request(), None);
    assert_eq!(out.write_first(), Action::Idle);
    out.close();
    assert_eq!(out.current_state(), State::Closed);
}

#[test]
fn teardown_goes_on_when_a_step_fails() {
    let mut out = ready_device(&pcm(1, 8000, 8));
    out.close();
    assert_eq!(out.request(), Some(Request::Reset));
    out.reply(5, 0);
    assert_eq!(out.request(), Some(Request::UnprepareHeader { slot: 0 }));
    out.reply(33, 0);
    assert!(out.buffers()[0].is_prepared());
    assert_eq!(out.request(), Some(Request::UnprepareHeader { slot: 1 }));
    out.reply(0xdead, 0);
    assert_eq!(out.request(), Some(Request::Close));
    out.reply(5, 0);
    assert_eq!(out.current_state(), State::Closed);
}

#[test]
fn teardown_skips_buffers_that_are_not_prepared() {
    let mut out = ready_device(&pcm(1, 8000, 8));
    out.buffers()[0] = Buffer::new(262144);
    out.close();
    out.reply(1, 0);
    assert_eq!(out.request(), Some(Request::UnprepareHeader { slot: 1 }));
    out.reply(0, 0);
    assert_eq!(out.request(), Some(Request::Close));

    let mut bare = ready_device(&pcm(1, 8000, 8));
    bare.buffers()[0] = Buffer::new(262144);
    bare.buffers()[1] = Buffer::new(262144);
    bare.close();
    assert_eq!(bare.request(), Some(Request::Reset));
    bare.reply(0, 0);
    assert_eq!(bare.request(), Some(Request::Close));
    bare.reply(0, 0);
    assert_eq!(bare.current_state(), State::Closed);
}

#[test]
fn close_leaves_a_device_that_is_not_ready() {
    let mut out = Out::open(0, &pcm(1, 8000, 8));
    out.close();
    assert_eq!(out.current_state(), State::Opening);
}

#[test]
fn one_second_of_8khz_mono_plays_in_one_cycle() {
    let samples: Vec<u8> = (0..8000u32).map(|i| (i % 251) as u8).collect();
    let file = wav(&record(1, 1, 8000, 8000, 1, 8), &samples);
    assert_eq!(file.len(), 8044);
    let mut player = Player::from_file(file.clone()).unwrap();
    let mut out = ready_device(&player.fmt());
    let mut writes = Vec::new();
    let mut steps = 0;
    loop {
        steps += 1;
        match player.play(&mut out) {
            Action::Call(request) => {
                writes.push(request);
                assert_eq!(check_multimedia_error(0), Ok(()));
            }
            Action::Wait => out.callback(WOM_DONE),
            Action::Idle => break,
        }
        assert!(steps < 10);
    }
    assert_eq!(writes, vec![Request::Write { slot: 0 }]);
    assert_eq!(steps, 2);
    assert!(player.is_finished());
    assert_eq!(out.buffers()[0].len(), 8044);
    assert_eq!(&out.buffers()[0].data()[..8044], &file[..]);
    assert!(out.buffers()[0].data()[8044..].iter().all(|byte| *byte == 0));
    assert_eq!(out.buffers()[1].len(), 262144);
}

#[test]
fn long_file_alternates_the_slots() {
    let data = vec![0x5a; 3 * 262144 + 100 - 44];
    let file = wav(&record(1, 1, 8000, 8000, 1, 8), &data);
    assert_eq!(file.len(), 3 * 262144 + 100);
    let mut player = Player::from_file(file.clone()).unwrap();
    let mut out = ready_device(&player.fmt());
    let mut writes = Vec::new();
    let mut lengths = Vec::new();
    let mut waits = 0;
    loop {
        match player.play(&mut out) {
            Action::Call(Request::Write { slot }) => {
                writes.push(slot);
                lengths.push(out.buffers()[slot].len());
            }
            Action::Call(other) => panic!("unexpected call {:?}", other),
            Action::Wait => {
                waits += 1;
                assert_eq!(player.play(&mut out), Action::Wait);
                out.callback(WOM_DONE);
            }
            Action::Idle => break,
        }
    }
    assert_eq!(writes, vec![0, 1, 0, 1]);
    assert_eq!(lengths, vec![262144, 262144, 262144, 100]);
    assert_eq!(waits, 3);
    assert_eq!(out.buffers()[1].data()[99], 0x5a);
    assert_eq!(out.buffers()[1].data()[100], 0);
    assert_eq!(player.play(&mut out), Action::Idle);
}

#[test]
fn file_of_exactly_one_block_submits_an_empty_last_block() {
    let data = vec![7; 262144 - 44];
    let file = wav(&record(1, 1, 8000, 8000, 1, 8), &data);
    let mut player = Player::from_file(file).unwrap();
    let mut out = ready_device(&player.fmt());
    assert_eq!(player.play(&mut out), Action::Call(Request::Write { slot: 0 }));
    assert!(!player.is_finished());
    out.callback(WOM_DONE);
    assert_eq!(player.play(&mut out), Action::Call(Request::Write { slot: 1 }));
    assert!(player.is_finished());
    assert_eq!(out.buffers()[1].len(), 0);
    assert!(out.buffers()[1].data().iter().all(|byte| *byte == 0));
}

#[test]
fn player_does_nothing_on_a_device_that_is_not_ready() {
    let file = wav(&record(1, 1, 8000, 8000, 1, 8), &[1; 10]);
    let mut player = Player::from_file(file).unwrap();
    let mut out = Out::open(0, &player.fmt());
    assert_eq!(player.play(&mut out), Action::Idle);
    assert!(!player.is_finished());
    assert_eq!(out.buffers()[0].data()[0], 0);
}
