use vstd::prelude::*;

use crate::cell::Cell;
use crate::processor::{ProcV, PState, spec_csi_dispatch, spec_run, spec_step};
use crate::screen::{
    ScreenV, spec_backspace, spec_carriage_return, spec_cursor_back, spec_cursor_down,
    spec_cursor_forward, spec_cursor_up, spec_erase_line, spec_erase_screen, spec_goto,
    spec_linefeed, spec_put_char, spec_restore_cursor, spec_reverse_index, spec_save_cursor,
    spec_sb_push, spec_scroll_down, spec_scroll_up, spec_scroll_up_once, spec_set_cell,
    spec_set_region, spec_sgr, spec_tab,
};

verus! {

/// Splitting a byte stream across hand-off buffers does not matter: running
/// the decoder over `a + b` reaches the same decoder state and the same
/// screen as running it over `a` and then over `b`, and its responses are
/// the responses of `a` followed by those of `b`.
pub proof fn lemma_run_append(p: ProcV, s: ScreenV, a: Seq<u8>, b: Seq<u8>)
    ensures
        spec_run(p, s, a + b).0 == spec_run(spec_run(p, s, a).0, spec_run(p, s, a).1, b).0,
        spec_run(p, s, a + b).1 == spec_run(spec_run(p, s, a).0, spec_run(p, s, a).1, b).1,
        spec_run(p, s, a + b).2 == spec_run(p, s, a).2
            + spec_run(spec_run(p, s, a).0, spec_run(p, s, a).1, b).2,
    decreases a.len(),
{
    if a.len() == 0 {
        assert(a + b =~= b);
        assert(spec_run(p, s, a).2 + spec_run(p, s, b).2 =~= spec_run(p, s, b).2);
    } else {
        let st = spec_step(p, s, a[0]);
        lemma_run_append(st.0, st.1, a.drop_first(), b);
        assert((a + b)[0] == a[0]);
        assert((a + b).drop_first() =~= a.drop_first() + b);
        let ra = spec_run(p, s, a);
        let rb = spec_run(ra.0, ra.1, b);
        assert(st.2 + (spec_run(st.0, st.1, a.drop_first()).2
            + spec_run(ra.0, ra.1, b).2)
            =~= (st.2 + spec_run(st.0, st.1, a.drop_first()).2) + spec_run(ra.0, ra.1, b).2);
    }
}

/// A well-formed CSI cursor-motion sequence whose count parameter is
/// omitted behaves exactly as with an explicit count of one.
pub proof fn lemma_omitted_count_is_one(s: ScreenV, fb: u8)
    requires
        fb == 0x41 || fb == 0x42 || fb == 0x43 || fb == 0x44 || fb == 0x45 || fb == 0x46
            || fb == 0x47 || fb == 0x64 || fb == 0x48 || fb == 0x66,
    ensures
        spec_csi_dispatch(s, false, false, Seq::empty(), fb)
            == spec_csi_dispatch(s, false, false, seq![1u16], fb),
{
}

/// Writing a printable character in the last column with wrapping on moves
/// the cursor to column zero of the next row; on the scroll region's last
/// row the grid scrolls instead, and — when the whole primary grid scrolls —
/// the evicted top row (with the just-written cell, if it was there) goes
/// onto the scrollback ring.
pub proof fn lemma_wrap_at_last_column(s: ScreenV, ch: u32)
    requires
        s.wf(),
        s.wrap,
        s.col == s.width - 1,
    ensures
        spec_put_char(s, ch).col == 0,
        s.row + 1 < s.bot ==> spec_put_char(s, ch).row == s.row + 1,
        s.row == s.bot - 1 ==> spec_put_char(s, ch).row == s.row,
        (s.row == s.bot - 1 && !s.alt_active && s.top == 0 && s.bot == s.height)
            ==> spec_put_char(s, ch).scrollback == spec_sb_push(
                s.scrollback,
                s.cap,
                spec_set_cell(
                    s.active(),
                    s.row,
                    s.col,
                    Cell { ch, fg: s.pen.fg, bg: s.pen.bg, attrs: s.pen.attrs },
                )[0],
            ),
{
}

/// The operations a program can apply to the active grid between switching
/// to the alternate screen and switching back. Entering or leaving the
/// alternate screen itself, and resizing, are not among them.
pub ghost enum ScreenOp {
    Put(u32),
    CursorUp(int),
    CursorDown(int),
    CursorForward(int),
    CursorBack(int),
    Goto(int, int),
    CarriageReturn,
    Linefeed,
    Backspace,
    Tab,
    EraseLine(int),
    EraseScreen(int),
    ScrollUp(int),
    ScrollDown(int),
    SetRegion(int, int),
    Sgr(Seq<u16>),
    SetWrap(bool),
    SetCursorVisible(bool),
    SaveCursor,
    RestoreCursor,
    ReverseIndex,
}

/// The screen after one such operation.
pub open spec fn spec_apply_op(s: ScreenV, op: ScreenOp) -> ScreenV {
    match op {
        ScreenOp::Put(ch) => spec_put_char(s, ch),
        ScreenOp::CursorUp(n) => spec_cursor_up(s, n),
        ScreenOp::CursorDown(n) => spec_cursor_down(s, n),
        ScreenOp::CursorForward(n) => spec_cursor_forward(s, n),
        ScreenOp::CursorBack(n) => spec_cursor_back(s, n),
        ScreenOp::Goto(r, c) => spec_goto(s, r, c),
        ScreenOp::CarriageReturn => spec_carriage_return(s),
        ScreenOp::Linefeed => spec_linefeed(s),
        ScreenOp::Backspace => spec_backspace(s),
        ScreenOp::Tab => spec_tab(s),
        ScreenOp::EraseLine(m) => spec_erase_line(s, m),
        ScreenOp::EraseScreen(m) => spec_erase_screen(s, m),
        ScreenOp::ScrollUp(n) => spec_scroll_up(s, n),
        ScreenOp::ScrollDown(n) => spec_scroll_down(s, n),
        ScreenOp::SetRegion(t, b) => spec_set_region(s, t, b),
        ScreenOp::Sgr(ps) => ScreenV { pen: spec_sgr(s.pen, ps), ..s },
        ScreenOp::SetWrap(on) => ScreenV { wrap: on, ..s },
        ScreenOp::SetCursorVisible(on) => ScreenV { cursor_visible: on, ..s },
        ScreenOp::SaveCursor => spec_save_cursor(s),
        ScreenOp::RestoreCursor => spec_restore_cursor(s),
        ScreenOp::ReverseIndex => spec_reverse_index(s),
    }
}

/// The screen after a sequence of such operations.
pub open spec fn spec_apply_ops(s: ScreenV, ops: Seq<ScreenOp>) -> ScreenV
    decreases ops.len(),
{
    if ops.len() == 0 {
        s
    } else {
        spec_apply_ops(spec_apply_op(s, ops[0]), ops.drop_first())
    }
}

/// While the alternate screen is active, scrolling it up never touches the
/// primary grid or the scrollback.
proof fn lemma_scroll_up_preserves_primary(s: ScreenV, n: int)
    requires
        s.alt_active,
    ensures
        spec_scroll_up(s, n).alt_active,
        spec_scroll_up(s, n).primary == s.primary,
        spec_scroll_up(s, n).scrollback == s.scrollback,
    decreases n,
{
    if n > 0 {
        lemma_scroll_up_preserves_primary(s, n - 1);
        assert(spec_scroll_up_once(spec_scroll_up(s, n - 1)).primary
            == spec_scroll_up(s, n - 1).primary);
    }
}

/// The same for scrolling down.
proof fn lemma_scroll_down_preserves_primary(s: ScreenV, n: int)
    requires
        s.alt_active,
    ensures
        spec_scroll_down(s, n).alt_active,
        spec_scroll_down(s, n).primary == s.primary,
        spec_scroll_down(s, n).scrollback == s.scrollback,
    decreases n,
{
    if n > 0 {
        lemma_scroll_down_preserves_primary(s, n - 1);
    }
}

/// While the alternate screen is active, no grid operation touches the
/// primary grid or the scrollback, and the alternate screen stays active.
pub proof fn lemma_op_preserves_primary(s: ScreenV, op: ScreenOp)
    requires
        s.alt_active,
    ensures
        spec_apply_op(s, op).alt_active,
        spec_apply_op(s, op).primary == s.primary,
        spec_apply_op(s, op).scrollback == s.scrollback,
{
    match op {
        ScreenOp::ScrollUp(n) => lemma_scroll_up_preserves_primary(s, n),
        ScreenOp::ScrollDown(n) => lemma_scroll_down_preserves_primary(s, n),
        _ => {
        },
    }
}

/// The same for a whole sequence of grid operations.
pub proof fn lemma_ops_preserve_primary(s: ScreenV, ops: Seq<ScreenOp>)
    requires
        s.alt_active,
    ensures
        spec_apply_ops(s, ops).alt_active,
        spec_apply_ops(s, ops).primary == s.primary,
        spec_apply_ops(s, ops).scrollback == s.scrollback,
    decreases ops.len(),
{
    if ops.len() > 0 {
        lemma_op_preserves_primary(s, ops[0]);
        lemma_ops_preserve_primary(spec_apply_op(s, ops[0]), ops.drop_first());
    }
}

/// Switching to the alternate screen, applying any sequence of grid
/// operations to it, and switching back leaves the primary grid's content
/// (and the scrollback) exactly as it was before the switch, with the
/// cursor restored.
pub proof fn lemma_alternate_roundtrip(s: ScreenV, ops: Seq<ScreenOp>)
    requires
        !s.alt_active,
    ensures
        crate::screen::spec_exit_alt(
            spec_apply_ops(crate::screen::spec_enter_alt(s), ops),
        ).primary == s.primary,
        crate::screen::spec_exit_alt(
            spec_apply_ops(crate::screen::spec_enter_alt(s), ops),
        ).scrollback == s.scrollback,
        !crate::screen::spec_exit_alt(spec_apply_ops(crate::screen::spec_enter_alt(s), ops))
            .alt_active,
{
    lemma_ops_preserve_primary(crate::screen::spec_enter_alt(s), ops);
}

/// The scrollback after a whole sequence of evicted rows.
pub open spec fn spec_sb_push_all(sb: Seq<Seq<Cell>>, cap: int, rows: Seq<Seq<Cell>>)
    -> Seq<Seq<Cell>>
    decreases rows.len(),
{
    if rows.len() == 0 {
        sb
    } else {
        spec_sb_push_all(spec_sb_push(sb, cap, rows[0]), cap, rows.drop_first())
    }
}

/// The scrollback ring is bounded: however many rows are evicted into it,
/// its size never exceeds the configured capacity, and what it holds is
/// exactly the newest rows — the oldest are dropped first.
pub proof fn lemma_scrollback_ring(sb: Seq<Seq<Cell>>, cap: int, rows: Seq<Seq<Cell>>)
    requires
        0 <= cap,
        sb.len() <= cap,
    ensures
        spec_sb_push_all(sb, cap, rows).len() <= cap,
        cap > 0 ==> spec_sb_push_all(sb, cap, rows) == (sb + rows).skip(
            if sb.len() + rows.len() <= cap {
                0
            } else {
                sb.len() + rows.len() - cap
            },
        ),
    decreases rows.len(),
{
    if rows.len() == 0 {
        assert(sb + rows =~= sb);
        assert((sb + rows).skip(0) =~= sb);
    } else {
        let sb2 = spec_sb_push(sb, cap, rows[0]);
        lemma_scrollback_ring(sb2, cap, rows.drop_first());
        if cap > 0 {
            if sb.len() < cap {
                assert(sb2 + rows.drop_first() =~= sb + rows);
            } else {
                assert(sb2 + rows.drop_first() =~= (sb + rows).skip(1));
                let k = if sb2.len() + rows.drop_first().len() <= cap {
                    0
                } else {
                    sb2.len() + rows.drop_first().len() - cap
                };
                assert((sb + rows).skip(1).skip(k) =~= (sb + rows).skip(1 + k));
            }
        }
    }
}

/// A malformed sequence — `ESC` followed by a final byte that introduces
/// nothing and performs no recognized action — is consumed without any
/// effect: the screen is unchanged, no response bytes are produced, and the
/// decoder returns to `Ground`.
pub proof fn lemma_malformed_escape_ignored(p: ProcV, s: ScreenV, b: u8)
    requires
        p.state == PState::Escape,
        b != 0x5b,
        b != 0x5d,
        b != 0x50,
        b != 0x58,
        b != 0x5e,
        b != 0x5f,
        b != 0x1b,
        b != 0x37,
        b != 0x38,
        b != 0x44,
        b != 0x4d,
    ensures
        spec_step(p, s, b).0.state == PState::Ground,
        spec_step(p, s, b).1 == s,
        spec_step(p, s, b).2 == Seq::<u8>::empty(),
{
}

} // verus!
