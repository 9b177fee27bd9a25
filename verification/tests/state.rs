use hexview::state::{Line, ViewState, MAX_FILE_LEN};

fn state(len: u64) -> ViewState {
    ViewState::new(len).unwrap()
}

fn file(len: usize) -> Vec<u8> {
    (0..len).map(|i| (i % 251) as u8).collect()
}

fn lines_until_end(s: &mut ViewState, window: &[u8]) -> Vec<Line> {
    let mut lines = Vec::new();
    s.reset();
    loop {
        let line = s.next_line(window);
        if line.valid_len == 0 {
            return lines;
        }
        lines.push(line);
    }
}

#[test]
fn new_state_starts_at_the_top() {
    let s = state(4096);
    assert_eq!(s.len(), 4096);
    assert_eq!(s.offset(), 0);
    assert_eq!(s.cursor(), 0);
    assert_eq!(s.visible_line_count(), 0);
    assert_eq!(s.remaining_bytes(), 4096);
}

#[test]
fn new_state_of_longest_file() {
    let s = ViewState::new(MAX_FILE_LEN).unwrap();
    assert_eq!(s.len(), 0x7fff_ffff_ffff_ffff);
}

#[test]
fn file_too_long_has_no_view() {
    assert!(ViewState::new(MAX_FILE_LEN + 1).is_none());
    assert!(ViewState::new(u64::MAX).is_none());
}

#[test]
fn two_pages_down_reach_offset_512() {
    let data = file(4096);
    let mut s = state(4096);
    s.scroll(256);
    s.scroll(256);
    assert_eq!(s.offset(), 512);
    assert_eq!(s.remaining_bytes(), 4096 - 512);
    s.reset();
    let line = s.next_line(&data[512..]);
    assert_eq!(line.valid_len, 16);
    assert_eq!(&line.bytes[..], &data[512..528]);
    let line = s.next_line(&data[512..]);
    assert_eq!(&line.bytes[..], &data[528..544]);
}

#[test]
fn scroll_up_and_down() {
    let mut s = state(4096);
    s.scroll(16);
    assert_eq!(s.offset(), 16);
    s.scroll(256);
    assert_eq!(s.offset(), 272);
    s.scroll(-16);
    assert_eq!(s.offset(), 256);
    s.scroll(-256);
    assert_eq!(s.offset(), 0);
    s.scroll(5);
    assert_eq!(s.offset(), 5);
    s.scroll(0);
    assert_eq!(s.offset(), 5);
}

#[test]
fn scroll_stops_at_the_start() {
    let mut s = state(4096);
    s.scroll(-16);
    assert_eq!(s.offset(), 0);
    s.scroll(32);
    s.scroll(-256);
    assert_eq!(s.offset(), 0);
    s.scroll(i64::MIN);
    assert_eq!(s.offset(), 0);
}

#[test]
fn scroll_stops_at_the_end_of_the_file() {
    let mut s = state(100);
    s.scroll(256);
    assert_eq!(s.offset(), 100);
    assert_eq!(s.remaining_bytes(), 0);
    s.scroll(i64::MAX);
    assert_eq!(s.offset(), 100);
    s.scroll(-16);
    assert_eq!(s.offset(), 84);
}

#[test]
fn scroll_stops_where_the_last_line_shows_the_end() {
    let mut s = state(4096);
    s.set_visible_line_count(10);
    s.scroll(4000);
    assert_eq!(s.offset(), 4096 - 160);
    s.scroll(16);
    assert_eq!(s.offset(), 4096 - 160);
    s.scroll(i64::MAX);
    assert_eq!(s.offset(), 4096 - 160);
    s.scroll(-16);
    assert_eq!(s.offset(), 4096 - 176);
}

#[test]
fn scroll_in_a_file_shorter_than_the_window_stays_at_the_start() {
    let mut s = state(20);
    s.set_visible_line_count(2);
    s.scroll(16);
    assert_eq!(s.offset(), 0);
    s.scroll(256);
    assert_eq!(s.offset(), 0);
}

#[test]
fn scroll_in_an_empty_file() {
    let mut s = state(0);
    s.scroll(16);
    assert_eq!(s.offset(), 0);
    s.scroll(-16);
    assert_eq!(s.offset(), 0);
    assert_eq!(s.remaining_bytes(), 0);
}

#[test]
fn scroll_in_the_longest_file() {
    let mut s = state(MAX_FILE_LEN);
    s.scroll(i64::MAX);
    assert_eq!(s.offset(), 0x7fff_ffff_ffff_ffff);
    s.scroll(i64::MAX);
    assert_eq!(s.offset(), 0x7fff_ffff_ffff_ffff);
    s.scroll(i64::MIN);
    assert_eq!(s.offset(), 0);
}

#[test]
fn scroll_leaves_the_cursor() {
    let mut s = state(4096);
    s.move_cursor(5);
    s.scroll(256);
    assert_eq!(s.cursor(), 5);
    assert_eq!(s.len(), 4096);
}

#[test]
fn cursor_moves_by_nibbles() {
    let mut s = state(4096);
    s.move_cursor(1);
    assert_eq!(s.cursor(), 1);
    s.move_cursor(1);
    assert_eq!(s.cursor(), 2);
    s.move_cursor(-1);
    assert_eq!(s.cursor(), 1);
    s.move_cursor(100);
    assert_eq!(s.cursor(), 101);
    assert_eq!(s.offset(), 0);
}

#[test]
fn cursor_stops_at_the_first_nibble() {
    let mut s = state(4096);
    s.move_cursor(-1);
    assert_eq!(s.cursor(), 0);
    s.move_cursor(3);
    s.move_cursor(-10);
    assert_eq!(s.cursor(), 0);
    s.move_cursor(i64::MIN);
    assert_eq!(s.cursor(), 0);
}

#[test]
fn cursor_stops_at_the_last_nibble() {
    let mut s = state(4);
    s.move_cursor(7);
    assert_eq!(s.cursor(), 7);
    s.move_cursor(1);
    assert_eq!(s.cursor(), 7);
    s.move_cursor(i64::MAX);
    assert_eq!(s.cursor(), 7);
}

#[test]
fn cursor_in_an_empty_file() {
    let mut s = state(0);
    s.move_cursor(1);
    assert_eq!(s.cursor(), 1);
    s.move_cursor(1);
    assert_eq!(s.cursor(), 1);
    s.move_cursor(-5);
    assert_eq!(s.cursor(), 0);
}

#[test]
fn cursor_in_the_longest_file() {
    let mut s = state(MAX_FILE_LEN);
    s.move_cursor(i64::MAX);
    assert_eq!(s.cursor(), 0x7fff_ffff_ffff_ffff);
    s.move_cursor(i64::MAX);
    assert_eq!(s.cursor(), 0xffff_ffff_ffff_fffd);
    s.move_cursor(i64::MAX);
    assert_eq!(s.cursor(), 0xffff_ffff_ffff_fffd);
}

#[test]
fn visible_line_count_is_what_was_set() {
    let mut s = state(4096);
    s.set_visible_line_count(22);
    assert_eq!(s.visible_line_count(), 22);
    s.set_visible_line_count(usize::MAX);
    assert_eq!(s.visible_line_count(), usize::MAX);
    s.scroll(i64::MAX);
    assert_eq!(s.offset(), 0);
}

#[test]
fn remaining_bytes_is_length_less_offset() {
    let mut s = state(1000);
    assert_eq!(s.remaining_bytes(), 1000);
    s.scroll(256);
    assert_eq!(s.remaining_bytes(), 744);
    s.scroll(1000);
    assert_eq!(s.remaining_bytes(), 0);
}

#[test]
fn lines_to_read_is_bounded_by_file_and_surface() {
    let s = state(20);
    assert_eq!(s.lines_to_read(0), 0);
    assert_eq!(s.lines_to_read(1), 1);
    assert_eq!(s.lines_to_read(2), 2);
    assert_eq!(s.lines_to_read(10), 2);
    assert_eq!(state(0).lines_to_read(10), 0);
    assert_eq!(state(1).lines_to_read(10), 1);
    assert_eq!(state(16).lines_to_read(10), 1);
    assert_eq!(state(17).lines_to_read(10), 2);
    assert_eq!(state(4096).lines_to_read(24), 24);
    assert_eq!(state(MAX_FILE_LEN).lines_to_read(u16::MAX), 65535);
}

#[test]
fn twenty_byte_file_has_a_full_and_a_short_line() {
    let data = file(20);
    let mut s = state(20);
    s.reset();
    let first = s.next_line(&data);
    assert_eq!(first.valid_len, 16);
    assert_eq!(&first.bytes[..], &data[0..16]);
    let second = s.next_line(&data);
    assert_eq!(second.valid_len, 4);
    assert_eq!(&second.bytes[..4], &data[16..20]);
    assert_eq!(&second.bytes[4..], &[0u8; 12]);
    let third = s.next_line(&data);
    assert_eq!(third.valid_len, 0);
    assert_eq!(third.bytes, [0u8; 16]);
    let fourth = s.next_line(&data);
    assert_eq!(fourth.valid_len, 0);
}

#[test]
fn reading_to_the_end_gives_the_lines_of_the_rest() {
    for len in [0usize, 1, 15, 16, 17, 31, 32, 33, 100, 256, 1000] {
        let data = file(len);
        for offset in (0..=len).step_by(16) {
            let mut s = state(len as u64);
            s.scroll(offset as i64);
            assert_eq!(s.offset(), offset as u64);
            let rest = len - offset;
            let lines = lines_until_end(&mut s, &data[offset..]);
            assert_eq!(lines.len(), (rest + 15) / 16, "len {} offset {}", len, offset);
            for (i, line) in lines.iter().enumerate() {
                let expected = if i + 1 < lines.len() || rest % 16 == 0 { 16 } else { rest % 16 };
                assert_eq!(line.valid_len, expected);
                let start = offset + 16 * i;
                assert_eq!(&line.bytes[..expected], &data[start..start + expected]);
                assert!(line.bytes[expected..].iter().all(|b| *b == 0));
            }
        }
    }
}

#[test]
fn reading_from_an_offset_off_the_line_boundary() {
    let data = file(100);
    let mut s = state(100);
    s.scroll(85);
    let lines = lines_until_end(&mut s, &data[85..]);
    assert_eq!(lines.len(), 1);
    assert_eq!(lines[0].valid_len, 15);
    assert_eq!(&lines[0].bytes[..15], &data[85..100]);
}

#[test]
fn reset_starts_reading_at_the_offset_again() {
    let data = file(64);
    let mut s = state(64);
    let first = s.next_line(&data);
    let second = s.next_line(&data);
    assert_eq!(first.bytes[0], 0);
    assert_eq!(second.bytes[0], 16);
    s.reset();
    let again = s.next_line(&data);
    assert_eq!(again.bytes, first.bytes);
}

#[test]
fn scroll_starts_reading_at_the_new_offset() {
    let data = file(64);
    let mut s = state(64);
    let _ = s.next_line(&data);
    let _ = s.next_line(&data);
    s.scroll(16);
    let line = s.next_line(&data[16..]);
    assert_eq!(&line.bytes[..], &data[16..32]);
}

#[test]
fn short_window_buffer_cuts_the_lines_short() {
    let data = file(64);
    let mut s = state(64);
    s.reset();
    let first = s.next_line(&data[..20]);
    assert_eq!(first.valid_len, 16);
    let second = s.next_line(&data[..20]);
    assert_eq!(second.valid_len, 4);
    assert_eq!(&second.bytes[..4], &data[16..20]);
    assert!(second.bytes[4..].iter().all(|b| *b == 0));
    let third = s.next_line(&data[..20]);
    assert_eq!(third.valid_len, 0);
}

#[test]
fn empty_window_buffer_gives_empty_lines() {
    let mut s = state(64);
    let line = s.next_line(&[]);
    assert_eq!(line.valid_len, 0);
    assert_eq!(line.bytes, [0u8; 16]);
}

#[test]
fn long_window_buffer_is_read_to_the_end_of_the_file_only() {
    let data = file(64);
    let mut s = state(20);
    let _ = s.next_line(&data);
    let second = s.next_line(&data);
    assert_eq!(second.valid_len, 4);
    assert!(second.bytes[4..].iter().all(|b| *b == 0));
}

#[test]
fn cursor_row_counts_from_the_offset() {
    let mut s = state(4096);
    assert_eq!(s.cursor_row(), Some(0));
    s.move_cursor(31);
    assert_eq!(s.cursor_row(), Some(0));
    s.move_cursor(1);
    assert_eq!(s.cursor_row(), Some(1));
    s.move_cursor(32 * 9);
    assert_eq!(s.cursor_row(), Some(10));
    s.scroll(32);
    assert_eq!(s.cursor_row(), Some(8));
    s.scroll(128);
    assert_eq!(s.cursor_row(), Some(0));
}

#[test]
fn cursor_above_the_window_is_on_no_row() {
    let mut s = state(4096);
    s.move_cursor(10);
    s.scroll(16);
    assert_eq!(s.cursor_row(), None);
    s.scroll(-16);
    assert_eq!(s.cursor_row(), Some(0));
}

#[test]
fn cursor_in_line_is_the_nibble_in_the_line() {
    let mut s = state(4096);
    assert_eq!(s.cursor_in_line(), 0);
    s.move_cursor(5);
    assert_eq!(s.cursor_in_line(), 5);
    s.move_cursor(32);
    assert_eq!(s.cursor_in_line(), 5);
    s.move_cursor(26);
    assert_eq!(s.cursor_in_line(), 31);
    s.move_cursor(1);
    assert_eq!(s.cursor_in_line(), 0);
}
