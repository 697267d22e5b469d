use dot_matrix::accel;
use dot_matrix::color::Color;
use dot_matrix::dtmf;
use dot_matrix::lcd;
use dot_matrix::melody::{GreenHill, Note, Tetris};
use dot_matrix::mp3::{classify_reply, command_frame, Mp3Command, ReplyAction, ReplyPoll};
use dot_matrix::player::Player;
use dot_matrix::registers::{DecodeMode, Intensity, Mode, RegisterAddressMap, ScanLimit};
use dot_matrix::sdcard::{FileEntry, FileList, SdLocalTimeSource};

#[test]
fn color_constructors_set_channels() {
    assert_eq!(Color::new(1, 2, 3), Color::new(1, 2, 3));
    assert_eq!(Color::clear(), Color::new(0, 0, 0));
    assert_eq!(Color::yellow(), Color::new(255, 255, 0));
    assert_eq!(Color::red(), Color::new(255, 0, 0));
    assert_eq!(Color::green(), Color::new(0, 255, 0));
    assert_eq!(Color::blue(), Color::new(0, 0, 255));
}

#[test]
fn color_from_word_unpacks_channels() {
    assert_eq!(Color::from(0x00123456), Color::new(0x12, 0x34, 0x56));
    assert_eq!(Color::from(0), Color::new(0, 0, 0));
    assert_eq!(Color::from(0xFFFFFFFF), Color::new(0xFF, 0xFF, 0xFF));
}

#[test]
fn register_bytes_match_the_datasheet() {
    assert_eq!(RegisterAddressMap::Noop.byte(), 0x0);
    assert_eq!(RegisterAddressMap::Digit0.byte(), 0x1);
    assert_eq!(RegisterAddressMap::Digit7.byte(), 0x8);
    assert_eq!(RegisterAddressMap::DecodeMode.byte(), 0x9);
    assert_eq!(RegisterAddressMap::Intensity.byte(), 0xA);
    assert_eq!(RegisterAddressMap::ScanLimit.byte(), 0xB);
    assert_eq!(RegisterAddressMap::Shutdown.byte(), 0xC);
    assert_eq!(RegisterAddressMap::DisplayTest.byte(), 0xF);
    assert_eq!(Intensity::OneThirtyTwo.byte(), 0x00);
    assert_eq!(Intensity::ThirtyOneThirtyTwo.byte(), 0x0F);
    assert_eq!(ScanLimit::DisplayDigit0To7.byte(), 0x07);
    assert_eq!(DecodeMode::NoDecode.byte(), 0x00);
    assert_eq!(DecodeMode::CodeBDE.byte(), 0xFF);
    assert_eq!(Mode::Shutdown.byte(), 0x00);
    assert_eq!(Mode::NormalOperation.byte(), 0x01);
}

#[test]
fn lcd_command_nibbles_split_the_byte() {
    assert_eq!(lcd::command_nibbles(0xAB, lcd::Mode::Command), (0xA0, 0xB0));
    assert_eq!(lcd::command_nibbles(0xAB, lcd::Mode::Data), (0xA1, 0xB1));
    assert_eq!(lcd::command_nibbles(0x01, lcd::Mode::Command), (0x00, 0x10));
}

#[test]
fn lcd_cursor_commands_cover_all_settings() {
    assert_eq!(lcd::cursor_command(false, false), 0b0000_1100);
    assert_eq!(lcd::cursor_command(false, true), 0b0000_1101);
    assert_eq!(lcd::cursor_command(true, false), 0b0000_1110);
    assert_eq!(lcd::cursor_command(true, true), 0b0000_1111);
}

#[test]
fn lcd_scroll_and_function_set_bytes() {
    assert_eq!(lcd::scroll_command(lcd::Direction::Right), 0b0001_1100);
    assert_eq!(lcd::scroll_command(lcd::Direction::Left), 0b0001_1000);
    assert_eq!(lcd::function_set(lcd::BitMode::Bit8), 0b0011_0000);
    assert_eq!(lcd::function_set(lcd::BitMode::Bit4), 0b0010_0000);
    assert_eq!(
        lcd::function_set_full(lcd::Rows::TwoLines, lcd::Font::FiveByEleven),
        0b0010_1100
    );
}

#[test]
fn lcd_strobe_and_shift_helpers() {
    assert_eq!(lcd::strobe_bytes(0xA0, lcd::Backlight::On), (0xAC, 0x08));
    assert_eq!(lcd::strobe_bytes(0xA0, lcd::Backlight::Off), (0xA4, 0x00));
    assert_eq!(lcd::cursor_shift_count(0, 0), 0);
    assert_eq!(lcd::cursor_shift_count(1, 5), 45);
}

#[test]
fn melodies_hold_their_notes() {
    let green_hill = GreenHill::new();
    assert_eq!(green_hill.tempo_bpm(), 140);
    let notes = green_hill.notes();
    assert_eq!(notes.len(), 175);
    assert_eq!(notes[0], (Note(0), 2));
    assert_eq!(notes[1], (Note(587), 8));
    assert_eq!(notes[174], (Note(880), -4));
    for (_, divider) in notes.iter() {
        assert_ne!(*divider, 0);
    }

    let tetris = Tetris::new();
    assert_eq!(tetris.tempo_bpm(), 144);
    let notes = tetris.notes();
    assert_eq!(notes.len(), 99);
    assert_eq!(notes[0], (Note(659), 4));
    assert_eq!(notes[98], (Note(831), 2));
    for (_, divider) in notes.iter() {
        assert_ne!(*divider, 0);
    }
}

#[test]
fn dtmf_codes_compose_from_lines() {
    assert_eq!(dtmf::key_code(false, false, false, false), 0);
    assert_eq!(dtmf::key_code(true, false, false, false), 1);
    assert_eq!(dtmf::key_code(false, true, false, true), 10);
    assert_eq!(dtmf::key_code(true, true, true, true), 15);
}

#[test]
fn dtmf_labels_match_the_keypad() {
    assert_eq!(dtmf::key_label(0), "D");
    assert_eq!(dtmf::key_label(5), "5");
    assert_eq!(dtmf::key_label(10), "0");
    assert_eq!(dtmf::key_label(11), "*");
    assert_eq!(dtmf::key_label(12), "#");
    assert_eq!(dtmf::key_label(13), "A");
    assert_eq!(dtmf::key_label(14), "B");
    assert_eq!(dtmf::key_label(15), "C");
}

#[test]
fn accelerometer_axes_decode_little_endian() {
    assert_eq!(accel::decode_axis(0x34, 0x12), 0x1234);
    assert_eq!(accel::decode_axis(0xFF, 0xFF), -1);
    assert_eq!(accel::decode_axis(0x00, 0x80), i16::MIN);
    assert_eq!(accel::decode_axis(0xFF, 0x7F), i16::MAX);
    let response = vec![0x34, 0x12, 0x00, 0x80, 0xFF, 0xFF, 0, 0];
    assert_eq!(accel::decode_acceleration(&response), (0x1234, i16::MIN, -1));
}

#[test]
fn accelerometer_register_bytes() {
    assert_eq!(accel::RegisterMap::DeviceId.byte(), 0x00);
    assert_eq!(accel::RegisterMap::AxisXData0.byte(), 0x32);
    assert_eq!(accel::RegisterMap::PowerControl.byte(), 0x2D);
    assert_eq!(accel::PowerControl::Measure.byte(), 0b0000_1000);
}

#[test]
fn sd_time_source_reports_the_epoch() {
    assert_eq!(SdLocalTimeSource.get_timestamp(), (0, 0, 0, 0, 0, 0));
}

#[test]
fn file_list_scrolls_within_bounds() {
    let files: Vec<FileEntry> = (0..10)
        .map(|i| FileEntry { name: format!("FILE{}", i), size: i as u32 * 100 })
        .collect();
    let mut list = FileList::new(files);
    assert!(list.can_scroll_up());
    assert!(!list.can_scroll_down());
    assert_eq!(list.visible_bounds(), (0, 6));
    for _ in 0..4 {
        list.scroll_up();
    }
    assert_eq!(list.visible_bounds(), (4, 10));
    assert!(!list.can_scroll_up());
    list.scroll_up();
    assert_eq!(list.visible_bounds(), (4, 10));
    list.scroll_down();
    assert_eq!(list.visible_bounds(), (3, 9));
    assert_eq!(list.entry(3).name, "FILE3");
}

#[test]
fn short_file_list_never_scrolls() {
    let files = vec![FileEntry { name: String::from("ONLY"), size: 1 }];
    let mut list = FileList::new(files);
    assert!(!list.can_scroll_up());
    assert!(!list.can_scroll_down());
    list.scroll_up();
    list.scroll_down();
    assert_eq!(list.visible_bounds(), (0, 1));
}

#[test]
fn player_walks_the_playlist() {
    let mut player = Player::new(4);
    assert_eq!(player.play(), 0);
    assert_eq!(player.next(), 1);
    assert_eq!(player.next(), 2);
    assert_eq!(player.next(), 3);
    assert_eq!(player.next(), 0);
    assert_eq!(player.previous(), 3);
    assert!(player.stop());
    assert!(!player.stop());
}

#[test]
fn mp3_track_frame_matches_the_wire_format() {
    let frame = command_frame(Mp3Command::Track(1), false);
    assert_eq!(frame, vec![0x7e, 0xff, 0x06, 0x03, 0x00, 0x00, 0x01, 0xfe, 0xf7, 0xef]);
}

#[test]
fn mp3_reset_frame_with_ack() {
    let frame = command_frame(Mp3Command::Reset, true);
    assert_eq!(frame, vec![0x7e, 0xff, 0x06, 0x0c, 0x01, 0x00, 0x00, 0xfe, 0xee, 0xef]);
}

#[test]
fn mp3_volume_frame_carries_the_parameter() {
    let frame = command_frame(Mp3Command::SetVolume(20), true);
    assert_eq!(frame[3], 0x06);
    assert_eq!(frame[5], 0x00);
    assert_eq!(frame[6], 20);
    let checksum: i16 = -(frame[1..7].iter().map(|b| *b as i16).sum::<i16>());
    assert_eq!(frame[7], (checksum >> 8) as u8);
    assert_eq!(frame[8], checksum as u8);
}

#[test]
fn reply_poll_gives_up_after_ten_attempts() {
    let mut poll = ReplyPoll::new();
    let garbage = vec![0u8; 10];
    for _ in 0..9 {
        assert_eq!(poll.step(10, &garbage), None);
    }
    // The tenth attempt exhausts the budget and gives up with 0, even for
    // a reply that would otherwise report a value.
    let mut value_reply = vec![0u8; 10];
    value_reply[3] = 0x43;
    value_reply[6] = 7;
    assert_eq!(poll.step(10, &value_reply), Some(0));
}

#[test]
fn reply_poll_hands_out_an_early_value() {
    let mut poll = ReplyPoll::new();
    let mut buffer = vec![0u8; 10];
    buffer[3] = 0x40;
    assert_eq!(poll.step(10, &buffer), None);
    assert_eq!(poll.step(0, &buffer), None);
    buffer[3] = 0x3f;
    buffer[6] = 0x2a;
    assert_eq!(poll.step(10, &buffer), Some(0x2a));
}

#[test]
fn mp3_replies_classify_into_retry_or_value() {
    let mut buffer = vec![0u8; 10];
    buffer[3] = 0x43;
    buffer[6] = 0x2a;
    assert_eq!(classify_reply(10, &buffer), ReplyAction::Value(0x2a));
    buffer[3] = 0x3f;
    assert_eq!(classify_reply(10, &buffer), ReplyAction::Value(0x2a));
    assert_eq!(classify_reply(0, &buffer), ReplyAction::Retry);
    buffer[3] = 0x40;
    assert_eq!(classify_reply(10, &buffer), ReplyAction::Retry);
    buffer[3] = 0x41;
    assert_eq!(classify_reply(10, &buffer), ReplyAction::Retry);
}
