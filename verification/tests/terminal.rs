use unsegen_terminal::cell::Color;
use unsegen_terminal::input::{input_action, InputAction, KeyPress};
use unsegen_terminal::processor::Processor;
use unsegen_terminal::screen::Screen;

fn feed(screen: &mut Screen, proc_: &mut Processor, bytes: &[u8]) -> Vec<u8> {
    proc_.process_bytes(screen, bytes)
}

fn fresh(w: usize, h: usize, cap: usize) -> (Screen, Processor) {
    (Screen::new(w, h, cap), Processor::new())
}

fn same_screen(a: &Screen, b: &Screen) -> bool {
    a.width == b.width
        && a.height == b.height
        && a.primary == b.primary
        && a.alternate == b.alternate
        && a.alt_active == b.alt_active
        && a.cursor_row == b.cursor_row
        && a.cursor_col == b.cursor_col
        && a.saved_row == b.saved_row
        && a.saved_col == b.saved_col
        && a.cursor_visible == b.cursor_visible
        && a.wrap == b.wrap
        && a.pen == b.pen
        && a.scrollback == b.scrollback
        && a.scrollback_cap == b.scrollback_cap
        && a.scroll_top == b.scroll_top
        && a.scroll_bot == b.scroll_bot
        && a.view_offset == b.view_offset
}

#[test]
fn omitted_count_defaults_to_one() {
    let (mut s1, mut p1) = fresh(10, 5, 0);
    let (mut s2, mut p2) = fresh(10, 5, 0);
    feed(&mut s1, &mut p1, b"\x1b[3;3H\x1b[B\x1b[C");
    feed(&mut s2, &mut p2, b"\x1b[3;3H\x1b[1B\x1b[1C");
    assert_eq!(s1.cursor_row, s2.cursor_row);
    assert_eq!(s1.cursor_col, s2.cursor_col);
    assert_eq!(s1.cursor_row, 3);
    assert_eq!(s1.cursor_col, 3);
}

#[test]
fn split_buffers_match_contiguous() {
    let bytes: &[u8] = b"hi\x1b[2;2Hthere\x1b[1K\xc3\xa9\x1b[31mx\nend";
    let (mut s1, mut p1) = fresh(8, 4, 5);
    let mut r1: Vec<u8> = Vec::new();
    r1.extend(feed(&mut s1, &mut p1, bytes));
    for cut in 0..bytes.len() {
        let (mut s2, mut p2) = fresh(8, 4, 5);
        let mut r2: Vec<u8> = Vec::new();
        r2.extend(feed(&mut s2, &mut p2, &bytes[..cut]));
        r2.extend(feed(&mut s2, &mut p2, &bytes[cut..]));
        assert!(same_screen(&s1, &s2), "screens differ for cut at {}", cut);
        assert_eq!(r1, r2);
    }
}

#[test]
fn split_escape_sequence_across_buffers() {
    let (mut s1, mut p1) = fresh(10, 4, 0);
    feed(&mut s1, &mut p1, b"\x1b[2");
    feed(&mut s1, &mut p1, b";4H");
    assert_eq!(s1.cursor_row, 1);
    assert_eq!(s1.cursor_col, 3);
}

#[test]
fn wrap_at_last_column_moves_to_next_row() {
    let (mut s, mut p) = fresh(4, 3, 10);
    feed(&mut s, &mut p, b"\x1b[1;4HA");
    assert_eq!(s.cursor_row, 1);
    assert_eq!(s.cursor_col, 0);
    assert_eq!(s.primary[0][3].ch, 'A' as u32);
}

#[test]
fn wrap_on_last_row_scrolls_and_feeds_scrollback() {
    let (mut s, mut p) = fresh(4, 2, 10);
    feed(&mut s, &mut p, b"\x1b[1;1Htop!");
    // the wrap after "top!" already moved the cursor to row 1
    assert_eq!(s.cursor_row, 1);
    feed(&mut s, &mut p, b"\x1b[2;4HB");
    // writing in the bottom-right corner scrolled the grid once
    assert_eq!(s.cursor_row, 1);
    assert_eq!(s.cursor_col, 0);
    assert_eq!(s.scrollback.len(), 1);
    let evicted: Vec<u32> = s.scrollback[0].iter().map(|c| c.ch).collect();
    assert_eq!(evicted, vec!['t' as u32, 'o' as u32, 'p' as u32, '!' as u32]);
}

#[test]
fn wrap_off_keeps_cursor_in_last_column() {
    let (mut s, mut p) = fresh(4, 2, 0);
    feed(&mut s, &mut p, b"\x1b[?7l\x1b[1;4HAB");
    assert_eq!(s.cursor_row, 0);
    assert_eq!(s.cursor_col, 3);
    assert_eq!(s.primary[0][3].ch, 'B' as u32);
}

#[test]
fn alternate_screen_roundtrip_restores_primary() {
    let (mut s, mut p) = fresh(6, 3, 4);
    feed(&mut s, &mut p, b"one\r\ntwo");
    let primary_before = s.primary.clone();
    let row_before = s.cursor_row;
    let col_before = s.cursor_col;
    feed(&mut s, &mut p, b"\x1b[?1049h");
    assert!(s.alt_active);
    feed(&mut s, &mut p, b"\x1b[2Jgarbage all over\x1b[2;2H\x1b[1K");
    feed(&mut s, &mut p, b"\x1b[?1049l");
    assert!(!s.alt_active);
    assert_eq!(s.primary, primary_before);
    assert_eq!(s.cursor_row, row_before);
    assert_eq!(s.cursor_col, col_before);
}

#[test]
fn scrollback_is_bounded_and_drops_oldest() {
    let (mut s, mut p) = fresh(3, 2, 2);
    // number the rows, pushing each off the top in turn
    feed(&mut s, &mut p, b"0\r\n1\r\n2\r\n3\r\n4\r\n");
    assert!(s.scrollback.len() <= 2);
    assert_eq!(s.scrollback.len(), 2);
    // the two newest evicted rows survive, the oldest are gone
    assert_eq!(s.scrollback[0][0].ch, '2' as u32);
    assert_eq!(s.scrollback[1][0].ch, '3' as u32);
}

#[test]
fn scrollback_capacity_zero_keeps_nothing() {
    let (mut s, mut p) = fresh(3, 2, 0);
    feed(&mut s, &mut p, b"a\r\nb\r\nc\r\nd\r\n");
    assert_eq!(s.scrollback.len(), 0);
}

#[test]
fn resize_keeps_cursor_in_bounds() {
    let (mut s, mut p) = fresh(10, 6, 4);
    feed(&mut s, &mut p, b"\x1b[6;10Hx");
    s.resize(3, 2);
    assert!(s.cursor_row < 2);
    assert!(s.cursor_col < 3);
    assert_eq!(s.height, 2);
    assert_eq!(s.width, 3);
    s.resize(1, 1);
    assert_eq!(s.cursor_row, 0);
    assert_eq!(s.cursor_col, 0);
    s.resize(40, 12);
    assert!(s.cursor_row < 12);
    assert!(s.cursor_col < 40);
}

#[test]
fn move_erase_write_end_to_end() {
    let (mut s, mut p) = fresh(8, 4, 0);
    // fill the second row so the erasure is visible
    feed(&mut s, &mut p, b"\x1b[2;1Hxxxxxxxx");
    feed(&mut s, &mut p, b"\x1b[2;5H\x1b[KOK");
    // row 2 (index 1): columns 1..4 keep their 'x', 5-6 hold "OK", the rest is blank
    for c in 0..3 {
        assert_eq!(s.primary[1][c].ch, 'x' as u32);
    }
    assert_eq!(s.primary[1][4].ch, 'O' as u32);
    assert_eq!(s.primary[1][5].ch, 'K' as u32);
    for c in 6..8 {
        assert_eq!(s.primary[1][c].ch, 0);
    }
    assert_eq!(s.primary[1][3].ch, 'x' as u32);
}

#[test]
fn malformed_escape_leaves_screen_unchanged() {
    let (mut s, mut p) = fresh(6, 3, 2);
    feed(&mut s, &mut p, b"some text\r\nmore");
    let snapshot = Screen::new(6, 3, 2);
    let mut p2 = Processor::new();
    let mut s2 = snapshot;
    feed(&mut s2, &mut p2, b"some text\r\nmore");
    let out = feed(&mut s, &mut p, b"\x1bz");
    assert!(out.is_empty());
    assert!(same_screen(&s, &s2));
}

#[test]
fn cursor_position_report() {
    let (mut s, mut p) = fresh(20, 10, 0);
    let out = feed(&mut s, &mut p, b"\x1b[4;12H\x1b[6n");
    assert_eq!(out, b"\x1b[4;12R".to_vec());
}

#[test]
fn device_attributes_report() {
    let (mut s, mut p) = fresh(20, 10, 0);
    let out = feed(&mut s, &mut p, b"\x1b[c");
    assert_eq!(out, b"\x1b[?6c".to_vec());
}

#[test]
fn sgr_sets_cell_attributes() {
    let (mut s, mut p) = fresh(5, 2, 0);
    feed(&mut s, &mut p, b"\x1b[1;4;31;42mA\x1b[mB");
    let a = s.primary[0][0];
    assert!(a.attrs.bold);
    assert!(a.attrs.underline);
    assert!(!a.attrs.inverse);
    assert_eq!(a.fg, Color::Indexed(1));
    assert_eq!(a.bg, Color::Indexed(2));
    let b = s.primary[0][1];
    assert!(!b.attrs.bold);
    assert_eq!(b.fg, Color::Default);
    assert_eq!(b.bg, Color::Default);
}

#[test]
fn erase_uses_current_background() {
    let (mut s, mut p) = fresh(4, 2, 0);
    feed(&mut s, &mut p, b"\x1b[44m\x1b[2J");
    assert_eq!(s.primary[1][3].ch, 0);
    assert_eq!(s.primary[1][3].bg, Color::Indexed(4));
}

#[test]
fn utf8_across_boundary_decodes_once() {
    let (mut s, mut p) = fresh(5, 2, 0);
    feed(&mut s, &mut p, &[0xc3]);
    feed(&mut s, &mut p, &[0xa9]);
    assert_eq!(s.primary[0][0].ch, 0xe9);
    assert_eq!(s.cursor_col, 1);
}

#[test]
fn invalid_utf8_becomes_replacement() {
    let (mut s, mut p) = fresh(5, 2, 0);
    feed(&mut s, &mut p, &[0xff, 0x80]);
    assert_eq!(s.primary[0][0].ch, 0xfffd);
    assert_eq!(s.primary[0][1].ch, 0xfffd);
}

#[test]
fn scroll_region_confines_scrolling() {
    let (mut s, mut p) = fresh(3, 4, 10);
    feed(&mut s, &mut p, b"\x1b[1;1HA\x1b[2;1HB\x1b[3;1HC\x1b[4;1HD");
    // confine scrolling to rows 2..3 and scroll up once
    feed(&mut s, &mut p, b"\x1b[2;3r\x1b[1S");
    assert_eq!(s.primary[0][0].ch, 'A' as u32);
    assert_eq!(s.primary[1][0].ch, 'C' as u32);
    assert_eq!(s.primary[2][0].ch, 0);
    assert_eq!(s.primary[3][0].ch, 'D' as u32);
    // a partial region never feeds the scrollback
    assert_eq!(s.scrollback.len(), 0);
}

#[test]
fn tab_and_backspace_and_cr() {
    let (mut s, mut p) = fresh(20, 2, 0);
    feed(&mut s, &mut p, b"ab\t");
    assert_eq!(s.cursor_col, 8);
    feed(&mut s, &mut p, b"\x08");
    assert_eq!(s.cursor_col, 7);
    feed(&mut s, &mut p, b"\r");
    assert_eq!(s.cursor_col, 0);
}

#[test]
fn cursor_motion_clamps_at_edges() {
    let (mut s, mut p) = fresh(5, 4, 0);
    feed(&mut s, &mut p, b"\x1b[99A\x1b[99D");
    assert_eq!(s.cursor_row, 0);
    assert_eq!(s.cursor_col, 0);
    feed(&mut s, &mut p, b"\x1b[99B\x1b[99C");
    assert_eq!(s.cursor_row, 3);
    assert_eq!(s.cursor_col, 4);
}

#[test]
fn viewport_scrolling_is_read_side_only() {
    let (mut s, mut p) = fresh(3, 2, 10);
    feed(&mut s, &mut p, b"a\r\nb\r\nc\r\nd\r\n");
    let primary_before = s.primary.clone();
    assert!(s.scroll_view_backwards());
    assert!(s.view_offset > 0);
    assert!(s.scroll_view_to_end() || s.view_offset == 0);
    assert_eq!(s.view_offset, 0);
    assert!(s.scroll_view_to_beginning());
    assert_eq!(s.view_offset, s.scrollback.len());
    s.scroll_view_forwards();
    assert_eq!(s.primary, primary_before);
}

#[test]
fn visible_rows_follow_viewport_offset() {
    let (mut s, mut p) = fresh(3, 2, 10);
    feed(&mut s, &mut p, b"a\r\nb\r\nc\r\nd\r\n");
    // live view: the active grid itself
    assert_eq!(s.visible_row(0), &s.primary[0]);
    assert_eq!(s.visible_row(1), &s.primary[1]);
    // scrolled one page back: the window slides into history
    assert!(s.scroll_view_backwards());
    assert_eq!(s.view_offset, 2);
    let sb_len = s.scrollback.len();
    assert_eq!(s.visible_row(0), &s.scrollback[sb_len - 2]);
    assert_eq!(s.visible_row(1), &s.scrollback[sb_len - 1]);
}

#[test]
fn cursor_visibility_mode() {
    let (mut s, mut p) = fresh(4, 2, 0);
    assert!(s.cursor_visible);
    feed(&mut s, &mut p, b"\x1b[?25l");
    assert!(!s.cursor_visible);
    feed(&mut s, &mut p, b"\x1b[?25h");
    assert!(s.cursor_visible);
}

#[test]
fn osc_and_dcs_payloads_are_discarded() {
    let (mut s, mut p) = fresh(6, 3, 0);
    let (mut s2, mut p2) = fresh(6, 3, 0);
    let out = feed(&mut s, &mut p, b"\x1b]0;window title\x07\x1bPsome dcs\x1b\\hi");
    feed(&mut s2, &mut p2, b"hi");
    assert!(out.is_empty());
    assert!(same_screen(&s, &s2));
}

#[test]
fn input_chain_intercepts_scroll_keys() {
    assert_eq!(input_action(KeyPress::PageUp), InputAction::ScrollBackwards);
    assert_eq!(input_action(KeyPress::PageDown), InputAction::ScrollForwards);
    assert_eq!(input_action(KeyPress::Home), InputAction::ScrollToBeginning);
    assert_eq!(input_action(KeyPress::End), InputAction::ScrollToEnd);
    assert_eq!(input_action(KeyPress::Other), InputAction::Forward);
}
