use sparko_esp_std::display::{
    command_payload, jd9853_init, repeated_pixel_chunk, to_rgb565, Color, InitStep, Rgb565Color,
    CMD_CASET, CMD_RASET, MAX_G, MAX_RB, PIXEL_BUFFER_LEN,
};

fn rgb(c: Color) -> (u8, u8, u8) {
    let Rgb565Color { r, g, b } = to_rgb565(c);
    (r, g, b)
}

#[test]
fn colour_conversion() {
    assert_eq!(rgb(Color::Black), (0, 0, 0));
    assert_eq!(rgb(Color::Red), (31, 0, 0));
    assert_eq!(rgb(Color::Green), (0, 63, 0));
    assert_eq!(rgb(Color::Blue), (0, 0, 31));
    assert_eq!(rgb(Color::Yellow), (31, 63, 0));
    assert_eq!(rgb(Color::Magenta), (31, 0, 31));
    assert_eq!(rgb(Color::Cyan), (0, 63, 31));
    assert_eq!(rgb(Color::White), (MAX_RB, MAX_G, MAX_RB));
}

#[test]
fn colours_are_distinct() {
    let all = [
        Color::Black, Color::Red, Color::Green, Color::Blue, Color::Yellow, Color::Magenta,
        Color::Cyan, Color::White,
    ];
    for (i, a) in all.iter().enumerate() {
        for b in all[i + 1..].iter() {
            assert_ne!(rgb(*a), rgb(*b));
        }
    }
}

#[test]
fn command_without_arguments_sends_no_payload() {
    assert_eq!(command_payload(0x11, &[], 34, 0), None);
    assert_eq!(command_payload(CMD_CASET, &[], 34, 0), None);
    assert_eq!(command_payload(CMD_CASET, &[], i16::MIN, 0), None);
    assert_eq!(command_payload(CMD_RASET, &[], 0, i16::MIN), None);
}

#[test]
fn column_window_moved_by_x_offset() {
    assert_eq!(command_payload(CMD_CASET, &[0, 0, 0, 0x3F], 34, 7), Some(vec![0, 34, 0, 97]));
    assert_eq!(command_payload(CMD_CASET, &[0x01, 0x00, 0x01, 0x3F], 34, 7), Some(vec![1, 34, 1, 97]));
}

#[test]
fn row_window_moved_by_y_offset_saturating_at_zero() {
    assert_eq!(command_payload(CMD_RASET, &[0, 5, 1, 0], 34, -10), Some(vec![0, 0, 0, 246]));
}

#[test]
fn window_saturates_at_top() {
    assert_eq!(command_payload(CMD_CASET, &[0xFF, 0xF0, 0xFF, 0xFF], 0x20, 0), Some(vec![0xFF, 0xFF, 0xFF, 0xFF]));
}

#[test]
fn window_without_offset_passes_through() {
    assert_eq!(command_payload(CMD_CASET, &[1, 2, 3, 4, 5], 0, 9), Some(vec![1, 2, 3, 4, 5]));
    assert_eq!(command_payload(0x3A, &[0x05], 34, 9), Some(vec![0x05]));
}

#[test]
fn shift_and_back_restores_window() {
    let moved = command_payload(CMD_CASET, &[0, 10, 0, 200], 34, 0).unwrap();
    let back = command_payload(CMD_CASET, &moved, -34, 0).unwrap();
    assert_eq!(back, vec![0, 10, 0, 200]);
}

#[test]
fn repeated_pixel_chunks() {
    let (bytes, left) = repeated_pixel_chunk(&[0xF8, 0x00], 100);
    assert_eq!(bytes.len(), PIXEL_BUFFER_LEN);
    assert!(bytes.chunks(2).all(|c| c == [0xF8, 0x00]));
    assert_eq!(left, 68);

    let (bytes, left) = repeated_pixel_chunk(&[1, 2, 3], 5);
    assert_eq!(bytes, vec![1, 2, 3, 1, 2, 3, 1, 2, 3, 1, 2, 3, 1, 2, 3]);
    assert_eq!(left, 0);

    let (bytes, left) = repeated_pixel_chunk(&[9], 0);
    assert!(bytes.is_empty());
    assert_eq!(left, 0);
}

#[test]
fn chunked_run_sends_pixel_count_times() {
    let pixel = [0x12, 0x34, 0x56];
    let mut remaining: u32 = 1000;
    let mut sent: Vec<u8> = Vec::new();
    while remaining > 0 {
        let (bytes, left) = repeated_pixel_chunk(&pixel, remaining);
        assert!(bytes.len() <= PIXEL_BUFFER_LEN);
        assert!(left < remaining);
        sent.extend(bytes);
        remaining = left;
    }
    assert_eq!(sent.len(), 3000);
    assert!(sent.chunks(3).all(|c| c == pixel));
}

#[test]
fn jd9853_start_up_sequence() {
    let steps = jd9853_init();
    assert_eq!(steps.len(), 29);
    assert!(matches!(&steps[0], InitStep::Command(0x11, d) if d.is_empty()));
    assert!(matches!(&steps[1], InitStep::DelayNs(120_000_000)));
    assert!(matches!(&steps[2], InitStep::Command(0xDF, d) if d == &vec![0x98, 0x53]));
    assert!(matches!(&steps[11], InitStep::Command(0xC8, d) if d.len() == 32));
    assert!(matches!(&steps[26], InitStep::Command(0x3A, d) if d == &vec![0x05]));
    assert!(matches!(&steps[27], InitStep::Command(0x2B, d) if d == &vec![0x00, 0x00, 0x01, 0x3F]));
    assert!(matches!(&steps[28], InitStep::Command(0x29, d) if d.is_empty()));
}
