use vstd::prelude::*;

use crate::cell::{Attrs, Cell, Color, Pen, spec_blank_cell, spec_pen_reset};

verus! {

/// Mathematical model of the screen: both grids as sequences of rows, the
/// cursor, the pen, the scrollback ring and the scroll region.
#[verifier::ext_equal]
pub ghost struct ScreenV {
    pub width: int,
    pub height: int,
    pub primary: Seq<Seq<Cell>>,
    pub alternate: Seq<Seq<Cell>>,
    pub alt_active: bool,
    pub row: int,
    pub col: int,
    pub saved_row: int,
    pub saved_col: int,
    pub cursor_visible: bool,
    pub wrap: bool,
    pub pen: Pen,
    pub scrollback: Seq<Seq<Cell>>,
    pub cap: int,
    pub top: int,
    pub bot: int,
    pub view_offset: int,
}

/// A grid is a rectangle: `h` rows of `w` cells each.
pub open spec fn grid_wf(g: Seq<Seq<Cell>>, w: int, h: int) -> bool {
    &&& g.len() == h
    &&& forall|i: int| 0 <= i < h ==> (#[trigger] g[i]).len() == w
}

impl ScreenV {
    /// Well-formedness: rectangular grids, cursor and saved cursor in bounds,
    /// a valid scroll region, and a scrollback no larger than its capacity.
    pub open spec fn wf(self) -> bool {
        &&& 1 <= self.width
        &&& 1 <= self.height
        &&& grid_wf(self.primary, self.width, self.height)
        &&& grid_wf(self.alternate, self.width, self.height)
        &&& 0 <= self.row < self.height
        &&& 0 <= self.col < self.width
        &&& 0 <= self.saved_row < self.height
        &&& 0 <= self.saved_col < self.width
        &&& 0 <= self.top < self.bot <= self.height
        &&& 0 <= self.cap
        &&& self.scrollback.len() <= self.cap
        &&& 0 <= self.view_offset <= self.scrollback.len()
    }

    /// The grid that operations currently apply to.
    pub open spec fn active(self) -> Seq<Seq<Cell>> {
        if self.alt_active {
            self.alternate
        } else {
            self.primary
        }
    }

    /// The same screen with the active grid replaced.
    pub open spec fn with_active(self, g: Seq<Seq<Cell>>) -> ScreenV {
        if self.alt_active {
            ScreenV { alternate: g, ..self }
        } else {
            ScreenV { primary: g, ..self }
        }
    }
}

/// A row of `w` erased cells on the given background.
pub open spec fn spec_blank_row(w: int, bg: Color) -> Seq<Cell> {
    Seq::new(w as nat, |i: int| spec_blank_cell(bg))
}

/// The grid with the cell at (`r`, `c`) replaced.
pub open spec fn spec_set_cell(g: Seq<Seq<Cell>>, r: int, c: int, cell: Cell) -> Seq<Seq<Cell>> {
    g.update(r, g[r].update(c, cell))
}

/// The scrollback ring after one more evicted row: bounded by `cap`, the
/// oldest row dropped on overflow. A capacity of zero keeps no history.
pub open spec fn spec_sb_push(sb: Seq<Seq<Cell>>, cap: int, row: Seq<Cell>) -> Seq<Seq<Cell>> {
    if cap <= 0 {
        sb
    } else if sb.len() < cap {
        sb.push(row)
    } else {
        sb.drop_first().push(row)
    }
}

/// The view of the exec grid representation.
pub open spec fn grid_view(g: Vec<Vec<Cell>>) -> Seq<Seq<Cell>> {
    g@.map_values(|r: Vec<Cell>| r@)
}

/// The dual-buffer screen model: primary and alternate grid, cursor, pen,
/// scrollback ring and the read-side viewport offset into it.
pub struct Screen {
    pub width: usize,
    pub height: usize,
    pub primary: Vec<Vec<Cell>>,
    pub alternate: Vec<Vec<Cell>>,
    pub alt_active: bool,
    pub cursor_row: usize,
    pub cursor_col: usize,
    pub saved_row: usize,
    pub saved_col: usize,
    pub cursor_visible: bool,
    pub wrap: bool,
    pub pen: Pen,
    pub scrollback: Vec<Vec<Cell>>,
    pub scrollback_cap: usize,
    pub scroll_top: usize,
    pub scroll_bot: usize,
    pub view_offset: usize,
}

impl View for Screen {
    type V = ScreenV;

    open spec fn view(&self) -> ScreenV {
        ScreenV {
            width: self.width as int,
            height: self.height as int,
            primary: grid_view(self.primary),
            alternate: grid_view(self.alternate),
            alt_active: self.alt_active,
            row: self.cursor_row as int,
            col: self.cursor_col as int,
            saved_row: self.saved_row as int,
            saved_col: self.saved_col as int,
            cursor_visible: self.cursor_visible,
            wrap: self.wrap,
            pen: self.pen,
            scrollback: grid_view(self.scrollback),
            cap: self.scrollback_cap as int,
            top: self.scroll_top as int,
            bot: self.scroll_bot as int,
            view_offset: self.view_offset as int,
        }
    }
}

/// A freshly created screen: both grids blank on the default background, the
/// cursor at the origin, wrapping on, the scroll region covering everything.
pub open spec fn spec_screen_new(w: int, h: int, cap: int) -> ScreenV {
    ScreenV {
        width: w,
        height: h,
        primary: Seq::new(h as nat, |r: int| spec_blank_row(w, Color::Default)),
        alternate: Seq::new(h as nat, |r: int| spec_blank_row(w, Color::Default)),
        alt_active: false,
        row: 0,
        col: 0,
        saved_row: 0,
        saved_col: 0,
        cursor_visible: true,
        wrap: true,
        pen: spec_pen_reset(),
        scrollback: Seq::empty(),
        cap: cap,
        top: 0,
        bot: h,
        view_offset: 0,
    }
}

/// Builds a row of `w` blank cells.
fn blank_row(w: usize, bg: Color) -> (r: Vec<Cell>)
    ensures
        r@ == spec_blank_row(w as int, bg),
{
    let mut r: Vec<Cell> = Vec::new();
    let mut i: usize = 0;
    while i < w
        invariant
            i <= w,
            r@.len() == i,
            forall|j: int| 0 <= j < i ==> r@[j] == spec_blank_cell(bg),
        decreases w - i,
    {
        r.push(Cell::blank(bg));
        i = i + 1;
    }
    proof {
        assert(r@ =~= spec_blank_row(w as int, bg));
    }
    r
}

/// Builds a grid of `h` blank rows of `w` cells.
fn blank_grid(w: usize, h: usize, bg: Color) -> (g: Vec<Vec<Cell>>)
    ensures
        grid_view(g) == Seq::new(h as nat, |r: int| spec_blank_row(w as int, bg)),
{
    let mut g: Vec<Vec<Cell>> = Vec::new();
    let mut i: usize = 0;
    while i < h
        invariant
            i <= h,
            g@.len() == i,
            forall|j: int| 0 <= j < i ==> (#[trigger] g@[j])@ == spec_blank_row(w as int, bg),
        decreases h - i,
    {
        g.push(blank_row(w, bg));
        i = i + 1;
    }
    proof {
        assert(grid_view(g) =~~= Seq::new(h as nat, |r: int| spec_blank_row(w as int, bg)));
    }
    g
}

/// Replaces the cell at (`r`, `c`) of the grid.
fn grid_set_cell(g: &mut Vec<Vec<Cell>>, r: usize, c: usize, cell: Cell)
    requires
        r < old(g)@.len(),
        c < old(g)@[r as int]@.len(),
    ensures
        grid_view(*final(g)) == spec_set_cell(grid_view(*old(g)), r as int, c as int, cell),
{
    g[r][c] = cell;
    proof {
        assert(grid_view(*g) =~~= spec_set_cell(grid_view(*old(g)), r as int, c as int, cell));
    }
}

impl Screen {
    /// Well-formedness of the model behind this screen.
    pub open spec fn wf(&self) -> bool {
        self@.wf()
    }

    /// A new screen of `w` by `h` cells with a scrollback of at most `cap`
    /// rows.
    pub fn new(w: usize, h: usize, cap: usize) -> (s: Screen)
        requires
            1 <= w,
            1 <= h,
        ensures
            s@ == spec_screen_new(w as int, h as int, cap as int),
            s.wf(),
    {
        let s = Screen {
            width: w,
            height: h,
            primary: blank_grid(w, h, Color::Default),
            alternate: blank_grid(w, h, Color::Default),
            alt_active: false,
            cursor_row: 0,
            cursor_col: 0,
            saved_row: 0,
            saved_col: 0,
            cursor_visible: true,
            wrap: true,
            pen: Pen::reset(),
            scrollback: Vec::new(),
            scrollback_cap: cap,
            scroll_top: 0,
            scroll_bot: h,
            view_offset: 0,
        };
        proof {
            assert(s@ =~~= spec_screen_new(w as int, h as int, cap as int));
            assert(grid_view(s.primary) =~~= s@.primary);
        }
        s
    }
}

/// Clamps `x` into `[lo, hi]`.
pub open spec fn spec_clamp(x: int, lo: int, hi: int) -> int {
    if x < lo {
        lo
    } else if x > hi {
        hi
    } else {
        x
    }
}

/// Cursor up by `n`, stopping at the top edge.
pub open spec fn spec_cursor_up(s: ScreenV, n: int) -> ScreenV {
    ScreenV { row: spec_clamp(s.row - n, 0, s.height - 1), ..s }
}

/// Cursor down by `n`, stopping at the bottom edge.
pub open spec fn spec_cursor_down(s: ScreenV, n: int) -> ScreenV {
    ScreenV { row: spec_clamp(s.row + n, 0, s.height - 1), ..s }
}

/// Cursor right by `n`, stopping at the right edge.
pub open spec fn spec_cursor_forward(s: ScreenV, n: int) -> ScreenV {
    ScreenV { col: spec_clamp(s.col + n, 0, s.width - 1), ..s }
}

/// Cursor left by `n`, stopping at the left edge.
pub open spec fn spec_cursor_back(s: ScreenV, n: int) -> ScreenV {
    ScreenV { col: spec_clamp(s.col - n, 0, s.width - 1), ..s }
}

/// Absolute cursor motion, clamped to the grid.
pub open spec fn spec_goto(s: ScreenV, r: int, c: int) -> ScreenV {
    ScreenV {
        row: spec_clamp(r, 0, s.height - 1),
        col: spec_clamp(c, 0, s.width - 1),
        ..s
    }
}

/// Carriage return: column zero.
pub open spec fn spec_carriage_return(s: ScreenV) -> ScreenV {
    ScreenV { col: 0, ..s }
}

/// Backspace: one column left, stopping at the left edge.
pub open spec fn spec_backspace(s: ScreenV) -> ScreenV {
    ScreenV { col: if s.col > 0 { s.col - 1 } else { 0 }, ..s }
}

/// Horizontal tab: the next tab stop (every eight columns), stopping at the
/// last column.
pub open spec fn spec_tab(s: ScreenV) -> ScreenV {
    let t = s.col + (8 - s.col % 8);
    ScreenV { col: if t < s.width { t } else { s.width - 1 }, ..s }
}

/// One upward shift of the scroll region: the region's top row leaves, a
/// blank row enters at the region's bottom. When the region covers the whole
/// primary grid, the evicted row goes onto the scrollback ring.
pub open spec fn spec_scroll_up_once(s: ScreenV) -> ScreenV {
    let g = s.active();
    let g2 = g.subrange(0, s.top) + g.subrange(s.top + 1, s.bot)
        + seq![spec_blank_row(s.width, s.pen.bg)] + g.subrange(s.bot, s.height);
    let s1 = if !s.alt_active && s.top == 0 && s.bot == s.height {
        ScreenV { scrollback: spec_sb_push(s.scrollback, s.cap, g[0]), ..s }
    } else {
        s
    };
    s1.with_active(g2)
}

/// `n` upward shifts.
pub open spec fn spec_scroll_up(s: ScreenV, n: int) -> ScreenV
    decreases n,
{
    if n <= 0 {
        s
    } else {
        spec_scroll_up_once(spec_scroll_up(s, n - 1))
    }
}

/// One downward shift of the scroll region: a blank row enters at the
/// region's top, the region's bottom row is discarded. Scrollback is never
/// touched.
pub open spec fn spec_scroll_down_once(s: ScreenV) -> ScreenV {
    let g = s.active();
    let g2 = g.subrange(0, s.top) + seq![spec_blank_row(s.width, s.pen.bg)]
        + g.subrange(s.top, s.bot - 1) + g.subrange(s.bot, s.height);
    s.with_active(g2)
}

/// `n` downward shifts.
pub open spec fn spec_scroll_down(s: ScreenV, n: int) -> ScreenV
    decreases n,
{
    if n <= 0 {
        s
    } else {
        spec_scroll_down_once(spec_scroll_down(s, n - 1))
    }
}

/// Line feed: one row down; at the bottom of the scroll region the region
/// scrolls instead.
pub open spec fn spec_linefeed(s: ScreenV) -> ScreenV {
    if s.row == s.bot - 1 {
        spec_scroll_up_once(s)
    } else if s.row + 1 < s.height {
        ScreenV { row: s.row + 1, ..s }
    } else {
        s
    }
}

/// Writing one character at the cursor with the current pen. Past the last
/// column the cursor wraps to column zero of the next row when wrapping is
/// on (scrolling at the bottom), and stays put when it is off.
pub open spec fn spec_put_char(s: ScreenV, ch: u32) -> ScreenV {
    let cell = Cell { ch, fg: s.pen.fg, bg: s.pen.bg, attrs: s.pen.attrs };
    let s1 = s.with_active(spec_set_cell(s.active(), s.row, s.col, cell));
    if s.col + 1 < s.width {
        ScreenV { col: s.col + 1, ..s1 }
    } else if !s.wrap {
        s1
    } else {
        spec_linefeed(ScreenV { col: 0, ..s1 })
    }
}

/// The row with columns `[lo, hi)` erased onto the given background.
pub open spec fn spec_erase_range(row: Seq<Cell>, lo: int, hi: int, bg: Color) -> Seq<Cell> {
    Seq::new(row.len(), |i: int| if lo <= i < hi { spec_blank_cell(bg) } else { row[i] })
}

/// Line erasure: mode 0 from the cursor to the end, mode 1 from the start
/// through the cursor, mode 2 the whole line. Other modes have no effect.
pub open spec fn spec_erase_line(s: ScreenV, mode: int) -> ScreenV {
    if 0 <= mode <= 2 {
        let g = s.active();
        let lo = if mode == 0 { s.col } else { 0 };
        let hi = if mode == 1 { s.col + 1 } else { s.width };
        s.with_active(g.update(s.row, spec_erase_range(g[s.row], lo, hi, s.pen.bg)))
    } else {
        s
    }
}

/// Screen erasure: mode 0 from the cursor to the end of the screen, mode 1
/// from the start through the cursor, mode 2 the whole screen. Other modes
/// have no effect.
pub open spec fn spec_erase_screen(s: ScreenV, mode: int) -> ScreenV {
    let g = s.active();
    let bg = s.pen.bg;
    if mode == 0 {
        s.with_active(Seq::new(g.len(), |r: int|
            if r > s.row {
                spec_blank_row(s.width, bg)
            } else if r == s.row {
                spec_erase_range(g[r], s.col, s.width, bg)
            } else {
                g[r]
            }))
    } else if mode == 1 {
        s.with_active(Seq::new(g.len(), |r: int|
            if r < s.row {
                spec_blank_row(s.width, bg)
            } else if r == s.row {
                spec_erase_range(g[r], 0, s.col + 1, bg)
            } else {
                g[r]
            }))
    } else if mode == 2 {
        s.with_active(Seq::new(g.len(), |r: int| spec_blank_row(s.width, bg)))
    } else {
        s
    }
}

/// Blanks columns `[lo, hi)` of the row.
fn row_erase_range(row: &mut Vec<Cell>, lo: usize, hi: usize, bg: Color)
    requires
        lo <= hi,
        hi <= old(row)@.len(),
    ensures
        final(row)@ == spec_erase_range(old(row)@, lo as int, hi as int, bg),
{
    let mut i: usize = lo;
    while i < hi
        invariant
            lo <= i <= hi,
            hi <= row@.len(),
            row@.len() == old(row)@.len(),
            forall|j: int| 0 <= j < row@.len() ==> row@[j] == (if lo <= j < i {
                spec_blank_cell(bg)
            } else {
                old(row)@[j]
            }),
        decreases hi - i,
    {
        row[i] = Cell::blank(bg);
        i = i + 1;
    }
    proof {
        assert(row@ =~= spec_erase_range(old(row)@, lo as int, hi as int, bg));
    }
}

/// Blanks columns `[lo, hi)` of row `r` of the grid.
fn grid_erase_row_range(g: &mut Vec<Vec<Cell>>, r: usize, lo: usize, hi: usize, bg: Color)
    requires
        r < grid_view(*old(g)).len(),
        lo <= hi,
        hi <= grid_view(*old(g))[r as int].len(),
    ensures
        grid_view(*final(g)) == grid_view(*old(g)).update(
            r as int,
            spec_erase_range(grid_view(*old(g))[r as int], lo as int, hi as int, bg),
        ),
{
    proof {
        assert(grid_view(*g).len() == g@.len());
        assert(grid_view(*g)[r as int] == g@[r as int]@);
    }
    row_erase_range(&mut g[r], lo, hi, bg);
    proof {
        assert(grid_view(*g) =~~= grid_view(*old(g)).update(
            r as int,
            spec_erase_range(grid_view(*old(g))[r as int], lo as int, hi as int, bg),
        ));
    }
}

/// Removes the region's top row and inserts a blank row at its bottom;
/// returns the removed row.
fn grid_scroll_up_once(g: &mut Vec<Vec<Cell>>, top: usize, bot: usize, w: usize, bg: Color)
    -> (evicted: Vec<Cell>)
    requires
        top < bot,
        bot <= old(g)@.len(),
    ensures
        evicted@ == grid_view(*old(g))[top as int],
        grid_view(*final(g)) == grid_view(*old(g)).subrange(0, top as int)
            + grid_view(*old(g)).subrange(top as int + 1, bot as int)
            + seq![spec_blank_row(w as int, bg)]
            + grid_view(*old(g)).subrange(bot as int, grid_view(*old(g)).len() as int),
{
    let evicted = g.remove(top);
    let blank = blank_row(w, bg);
    g.insert(bot - 1, blank);
    proof {
        assert(grid_view(*g) =~~= grid_view(*old(g)).subrange(0, top as int)
            + grid_view(*old(g)).subrange(top as int + 1, bot as int)
            + seq![spec_blank_row(w as int, bg)]
            + grid_view(*old(g)).subrange(bot as int, grid_view(*old(g)).len() as int));
    }
    evicted
}

/// Inserts a blank row at the region's top and discards the region's bottom
/// row.
fn grid_scroll_down_once(g: &mut Vec<Vec<Cell>>, top: usize, bot: usize, w: usize, bg: Color)
    requires
        top < bot,
        bot <= old(g)@.len(),
    ensures
        grid_view(*final(g)) == grid_view(*old(g)).subrange(0, top as int)
            + seq![spec_blank_row(w as int, bg)]
            + grid_view(*old(g)).subrange(top as int, bot as int - 1)
            + grid_view(*old(g)).subrange(bot as int, grid_view(*old(g)).len() as int),
{
    g.remove(bot - 1);
    let blank = blank_row(w, bg);
    g.insert(top, blank);
    proof {
        assert(grid_view(*g) =~~= grid_view(*old(g)).subrange(0, top as int)
            + seq![spec_blank_row(w as int, bg)]
            + grid_view(*old(g)).subrange(top as int, bot as int - 1)
            + grid_view(*old(g)).subrange(bot as int, grid_view(*old(g)).len() as int));
    }
}

impl Screen {
    /// Cursor up by `n` rows.
    pub fn cursor_up(&mut self, n: usize)
        requires
            old(self).wf(),
        ensures
            final(self).wf(),
            final(self)@ == spec_cursor_up(old(self)@, n as int),
    {
        self.cursor_row = if self.cursor_row >= n {
            self.cursor_row - n
        } else {
            0
        };
        proof {
            assert(self@ =~~= spec_cursor_up(old(self)@, n as int));
        }
    }

    /// Cursor down by `n` rows.
    pub fn cursor_down(&mut self, n: usize)
        requires
            old(self).wf(),
        ensures
            final(self).wf(),
            final(self)@ == spec_cursor_down(old(self)@, n as int),
    {
        self.cursor_row = if self.height - self.cursor_row > n {
            self.cursor_row + n
        } else {
            self.height - 1
        };
        proof {
            assert(self@ =~~= spec_cursor_down(old(self)@, n as int));
        }
    }

    /// Cursor right by `n` columns.
    pub fn cursor_forward(&mut self, n: usize)
        requires
            old(self).wf(),
        ensures
            final(self).wf(),
            final(self)@ == spec_cursor_forward(old(self)@, n as int),
    {
        self.cursor_col = if self.width - self.cursor_col > n {
            self.cursor_col + n
        } else {
            self.width - 1
        };
        proof {
            assert(self@ =~~= spec_cursor_forward(old(self)@, n as int));
        }
    }

    /// Cursor left by `n` columns.
    pub fn cursor_back(&mut self, n: usize)
        requires
            old(self).wf(),
        ensures
            final(self).wf(),
            final(self)@ == spec_cursor_back(old(self)@, n as int),
    {
        self.cursor_col = if self.cursor_col >= n {
            self.cursor_col - n
        } else {
            0
        };
        proof {
            assert(self@ =~~= spec_cursor_back(old(self)@, n as int));
        }
    }

    /// Absolute cursor motion to row `r`, column `c` (zero-based), clamped.
    pub fn goto(&mut self, r: usize, c: usize)
        requires
            old(self).wf(),
        ensures
            final(self).wf(),
            final(self)@ == spec_goto(old(self)@, r as int, c as int),
    {
        self.cursor_row = if r < self.height {
            r
        } else {
            self.height - 1
        };
        self.cursor_col = if c < self.width {
            c
        } else {
            self.width - 1
        };
        proof {
            assert(self@ =~~= spec_goto(old(self)@, r as int, c as int));
        }
    }

    /// Carriage return.
    pub fn carriage_return(&mut self)
        requires
            old(self).wf(),
        ensures
            final(self).wf(),
            final(self)@ == spec_carriage_return(old(self)@),
    {
        self.cursor_col = 0;
        proof {
            assert(self@ =~~= spec_carriage_return(old(self)@));
        }
    }

    /// Backspace.
    pub fn backspace(&mut self)
        requires
            old(self).wf(),
        ensures
            final(self).wf(),
            final(self)@ == spec_backspace(old(self)@),
    {
        if self.cursor_col > 0 {
            self.cursor_col = self.cursor_col - 1;
        }
        proof {
            assert(self@ =~~= spec_backspace(old(self)@));
        }
    }

    /// Horizontal tab.
    pub fn tab(&mut self)
        requires
            old(self).wf(),
        ensures
            final(self).wf(),
            final(self)@ == spec_tab(old(self)@),
    {
        let step: usize = 8 - self.cursor_col % 8;
        self.cursor_col = if self.width - self.cursor_col > step {
            self.cursor_col + step
        } else {
            self.width - 1
        };
        proof {
            assert(self@ =~~= spec_tab(old(self)@));
        }
    }

    /// Appends an evicted row to the scrollback ring, dropping the oldest row
    /// when the ring is at capacity.
    fn push_scrollback(&mut self, row: Vec<Cell>)
        requires
            old(self)@.scrollback.len() <= old(self)@.cap,
        ensures
            final(self)@ == (ScreenV {
                scrollback: spec_sb_push(old(self)@.scrollback, old(self)@.cap, row@),
                ..old(self)@
            }),
    {
        if self.scrollback_cap == 0 {
            proof {
                assert(self@ =~~= (ScreenV {
                    scrollback: spec_sb_push(old(self)@.scrollback, old(self)@.cap, row@),
                    ..old(self)@
                }));
            }
            return;
        }
        if self.scrollback.len() == self.scrollback_cap {
            self.scrollback.remove(0);
        }
        self.scrollback.push(row);
        proof {
            assert(grid_view(self.scrollback) =~~= spec_sb_push(
                old(self)@.scrollback, old(self)@.cap, row@));
            assert(self@ =~~= (ScreenV {
                scrollback: spec_sb_push(old(self)@.scrollback, old(self)@.cap, row@),
                ..old(self)@
            }));
        }
    }

    /// One upward shift of the scroll region, feeding the scrollback ring
    /// when the whole primary grid scrolls.
    pub fn scroll_up_once(&mut self)
        requires
            old(self).wf(),
        ensures
            final(self).wf(),
            final(self)@ == spec_scroll_up_once(old(self)@),
    {
        let top = self.scroll_top;
        let bot = self.scroll_bot;
        let w = self.width;
        let bg = self.pen.bg;
        if self.alt_active {
            let _evicted = grid_scroll_up_once(&mut self.alternate, top, bot, w, bg);
        } else {
            let evicted = grid_scroll_up_once(&mut self.primary, top, bot, w, bg);
            if top == 0 && bot == self.height {
                self.push_scrollback(evicted);
            }
        }
        proof {
            assert(self@ =~~= spec_scroll_up_once(old(self)@));
        }
    }

    /// One downward shift of the scroll region.
    pub fn scroll_down_once(&mut self)
        requires
            old(self).wf(),
        ensures
            final(self).wf(),
            final(self)@ == spec_scroll_down_once(old(self)@),
    {
        let top = self.scroll_top;
        let bot = self.scroll_bot;
        let w = self.width;
        let bg = self.pen.bg;
        if self.alt_active {
            grid_scroll_down_once(&mut self.alternate, top, bot, w, bg);
        } else {
            grid_scroll_down_once(&mut self.primary, top, bot, w, bg);
        }
        proof {
            assert(self@ =~~= spec_scroll_down_once(old(self)@));
        }
    }

    /// `n` upward shifts.
    pub fn scroll_up(&mut self, n: usize)
        requires
            old(self).wf(),
        ensures
            final(self).wf(),
            final(self)@ == spec_scroll_up(old(self)@, n as int),
    {
        let mut i: usize = 0;
        while i < n
            invariant
                i <= n,
                self.wf(),
                self@ == spec_scroll_up(old(self)@, i as int),
            decreases n - i,
        {
            self.scroll_up_once();
            i = i + 1;
        }
    }

    /// `n` downward shifts.
    pub fn scroll_down(&mut self, n: usize)
        requires
            old(self).wf(),
        ensures
            final(self).wf(),
            final(self)@ == spec_scroll_down(old(self)@, n as int),
    {
        let mut i: usize = 0;
        while i < n
            invariant
                i <= n,
                self.wf(),
                self@ == spec_scroll_down(old(self)@, i as int),
            decreases n - i,
        {
            self.scroll_down_once();
            i = i + 1;
        }
    }

    /// Line feed.
    pub fn linefeed(&mut self)
        requires
            old(self).wf(),
        ensures
            final(self).wf(),
            final(self)@ == spec_linefeed(old(self)@),
    {
        if self.cursor_row + 1 == self.scroll_bot {
            self.scroll_up_once();
        } else if self.cursor_row + 1 < self.height {
            self.cursor_row = self.cursor_row + 1;
        }
        proof {
            assert(self@ =~~= spec_linefeed(old(self)@));
        }
    }

    /// Writes one character at the cursor with the current pen and advances
    /// the cursor, wrapping and scrolling as the model says.
    pub fn put_char(&mut self, ch: u32)
        requires
            old(self).wf(),
        ensures
            final(self).wf(),
            final(self)@ == spec_put_char(old(self)@, ch),
    {
        let cell = Cell { ch, fg: self.pen.fg, bg: self.pen.bg, attrs: self.pen.attrs };
        let r = self.cursor_row;
        let c = self.cursor_col;
        if self.alt_active {
            grid_set_cell(&mut self.alternate, r, c, cell);
        } else {
            grid_set_cell(&mut self.primary, r, c, cell);
        }
        proof {
            assert(self@.wf());
        }
        if self.cursor_col + 1 < self.width {
            self.cursor_col = self.cursor_col + 1;
        } else if self.wrap {
            self.cursor_col = 0;
            proof {
                assert(self@.wf());
            }
            self.linefeed();
        }
        proof {
            assert(self@ =~~= spec_put_char(old(self)@, ch));
        }
    }

    /// Erases part of the cursor's line (see `spec_erase_line`).
    pub fn erase_line(&mut self, mode: u16)
        requires
            old(self).wf(),
        ensures
            final(self).wf(),
            final(self)@ == spec_erase_line(old(self)@, mode as int),
    {
        if mode > 2 {
            proof {
                assert(self@ =~~= spec_erase_line(old(self)@, mode as int));
            }
            return;
        }
        let lo = if mode == 0 {
            self.cursor_col
        } else {
            0
        };
        let hi = if mode == 1 {
            self.cursor_col + 1
        } else {
            self.width
        };
        let r = self.cursor_row;
        let bg = self.pen.bg;
        if self.alt_active {
            grid_erase_row_range(&mut self.alternate, r, lo, hi, bg);
        } else {
            grid_erase_row_range(&mut self.primary, r, lo, hi, bg);
        }
        proof {
            assert(self@ =~~= spec_erase_line(old(self)@, mode as int));
        }
    }

    /// Erases part of the screen (see `spec_erase_screen`).
    pub fn erase_screen(&mut self, mode: u16)
        requires
            old(self).wf(),
        ensures
            final(self).wf(),
            final(self)@ == spec_erase_screen(old(self)@, mode as int),
    {
        let r = self.cursor_row;
        let c = self.cursor_col;
        let bg = self.pen.bg;
        let w = self.width;
        let h = self.height;
        if mode == 0 {
            if self.alt_active {
                grid_erase_row_range(&mut self.alternate, r, c, w, bg);
            } else {
                grid_erase_row_range(&mut self.primary, r, c, w, bg);
            }
            let mut i: usize = r + 1;
            proof {
                assert(self@ =~~= old(self)@.with_active(
                    Seq::new(old(self)@.active().len(), |rr: int|
                        if r < rr < i {
                            spec_blank_row(w as int, bg)
                        } else if rr == r {
                            spec_erase_range(old(self)@.active()[rr], c as int, w as int, bg)
                        } else {
                            old(self)@.active()[rr]
                        })));
            }
            while i < h
                invariant
                    old(self).wf(),
                    r as int == old(self)@.row,
                    c as int == old(self)@.col,
                    bg == old(self)@.pen.bg,
                    w as int == old(self)@.width,
                    h as int == old(self)@.height,
                    r < i <= h,
                    self@ == old(self)@.with_active(
                        Seq::new(old(self)@.active().len(), |rr: int|
                            if r < rr < i {
                                spec_blank_row(w as int, bg)
                            } else if rr == r {
                                spec_erase_range(old(self)@.active()[rr], c as int, w as int, bg)
                            } else {
                                old(self)@.active()[rr]
                            })),
                decreases h - i,
            {
                if self.alt_active {
                    grid_erase_row_range(&mut self.alternate, i, 0, w, bg);
                } else {
                    grid_erase_row_range(&mut self.primary, i, 0, w, bg);
                }
                i = i + 1;
                proof {
                    assert(spec_erase_range(old(self)@.active()[i - 1], 0, w as int, bg)
                        =~= spec_blank_row(w as int, bg));
                    assert(self@ =~~= old(self)@.with_active(
                        Seq::new(old(self)@.active().len(), |rr: int|
                            if r < rr < i {
                                spec_blank_row(w as int, bg)
                            } else if rr == r {
                                spec_erase_range(old(self)@.active()[rr], c as int, w as int, bg)
                            } else {
                                old(self)@.active()[rr]
                            })));
                }
            }
            proof {
                assert(self@ =~~= spec_erase_screen(old(self)@, mode as int));
            }
        } else if mode == 1 {
            let mut i: usize = 0;
            proof {
                assert(self@ =~~= old(self)@.with_active(
                    Seq::new(old(self)@.active().len(), |rr: int|
                        if rr < i {
                            spec_blank_row(w as int, bg)
                        } else {
                            old(self)@.active()[rr]
                        })));
            }
            while i < r
                invariant
                    old(self).wf(),
                    r as int == old(self)@.row,
                    c as int == old(self)@.col,
                    bg == old(self)@.pen.bg,
                    w as int == old(self)@.width,
                    i <= r,
                    self@ == old(self)@.with_active(
                        Seq::new(old(self)@.active().len(), |rr: int|
                            if rr < i {
                                spec_blank_row(w as int, bg)
                            } else {
                                old(self)@.active()[rr]
                            })),
                decreases r - i,
            {
                if self.alt_active {
                    grid_erase_row_range(&mut self.alternate, i, 0, w, bg);
                } else {
                    grid_erase_row_range(&mut self.primary, i, 0, w, bg);
                }
                i = i + 1;
                proof {
                    assert(spec_erase_range(old(self)@.active()[i - 1], 0, w as int, bg)
                        =~= spec_blank_row(w as int, bg));
                    assert(self@ =~~= old(self)@.with_active(
                        Seq::new(old(self)@.active().len(), |rr: int|
                            if rr < i {
                                spec_blank_row(w as int, bg)
                            } else {
                                old(self)@.active()[rr]
                            })));
                }
            }
            if self.alt_active {
                grid_erase_row_range(&mut self.alternate, r, 0, c + 1, bg);
            } else {
                grid_erase_row_range(&mut self.primary, r, 0, c + 1, bg);
            }
            proof {
                assert(self@ =~~= spec_erase_screen(old(self)@, mode as int));
            }
        } else if mode == 2 {
            let fresh = blank_grid(w, h, bg);
            if self.alt_active {
                self.alternate = fresh;
            } else {
                self.primary = fresh;
            }
            proof {
                assert(self@ =~~= spec_erase_screen(old(self)@, mode as int));
            }
        } else {
            proof {
                assert(self@ =~~= spec_erase_screen(old(self)@, mode as int));
            }
        }
    }
}

/// Effect of one SGR parameter on the pen.
pub open spec fn spec_sgr_one(pen: Pen, p: int) -> Pen {
    if p == 0 {
        spec_pen_reset()
    } else if p == 1 {
        Pen { attrs: Attrs { bold: true, ..pen.attrs }, ..pen }
    } else if p == 4 {
        Pen { attrs: Attrs { underline: true, ..pen.attrs }, ..pen }
    } else if p == 7 {
        Pen { attrs: Attrs { inverse: true, ..pen.attrs }, ..pen }
    } else if p == 22 {
        Pen { attrs: Attrs { bold: false, ..pen.attrs }, ..pen }
    } else if p == 24 {
        Pen { attrs: Attrs { underline: false, ..pen.attrs }, ..pen }
    } else if p == 27 {
        Pen { attrs: Attrs { inverse: false, ..pen.attrs }, ..pen }
    } else if 30 <= p <= 37 {
        Pen { fg: Color::Indexed((p - 30) as u8), ..pen }
    } else if p == 39 {
        Pen { fg: Color::Default, ..pen }
    } else if 40 <= p <= 47 {
        Pen { bg: Color::Indexed((p - 40) as u8), ..pen }
    } else if p == 49 {
        Pen { bg: Color::Default, ..pen }
    } else if 90 <= p <= 97 {
        Pen { fg: Color::Indexed((p - 90 + 8) as u8), ..pen }
    } else if 100 <= p <= 107 {
        Pen { bg: Color::Indexed((p - 100 + 8) as u8), ..pen }
    } else {
        pen
    }
}

/// Effect of an SGR parameter list on the pen, applied in parameter order.
pub open spec fn spec_sgr(pen: Pen, params: Seq<u16>) -> Pen
    decreases params.len(),
{
    if params.len() == 0 {
        pen
    } else {
        spec_sgr(spec_sgr_one(pen, params[0] as int), params.drop_first())
    }
}

/// Entering the alternate screen: saves the cursor, clears the alternate
/// grid and homes the cursor. A second enter has no effect.
pub open spec fn spec_enter_alt(s: ScreenV) -> ScreenV {
    if s.alt_active {
        s
    } else {
        ScreenV {
            alt_active: true,
            alternate: Seq::new(s.height as nat, |r: int| spec_blank_row(s.width, s.pen.bg)),
            saved_row: s.row,
            saved_col: s.col,
            row: 0,
            col: 0,
            ..s
        }
    }
}

/// Leaving the alternate screen: the primary grid reappears untouched and
/// the saved cursor is restored. A second leave has no effect.
pub open spec fn spec_exit_alt(s: ScreenV) -> ScreenV {
    if !s.alt_active {
        s
    } else {
        ScreenV { alt_active: false, row: s.saved_row, col: s.saved_col, ..s }
    }
}

/// Setting the scroll region to rows `[t, b)`; out-of-range bounds leave the
/// region alone. The cursor homes on success.
pub open spec fn spec_set_region(s: ScreenV, t: int, b: int) -> ScreenV {
    if 0 <= t && t < b && b <= s.height {
        ScreenV { top: t, bot: b, row: 0, col: 0, ..s }
    } else {
        s
    }
}

/// The row clipped or padded (with blanks on the default background) to
/// width `w`.
pub open spec fn spec_resize_row(row: Seq<Cell>, w: int) -> Seq<Cell> {
    Seq::new(w as nat, |c: int| if c < row.len() {
        row[c]
    } else {
        spec_blank_cell(Color::Default)
    })
}

/// The grid clipped or padded to `w` by `h`: content keeps its top-left
/// position, new area is blank.
pub open spec fn spec_resize_grid(g: Seq<Seq<Cell>>, w: int, h: int) -> Seq<Seq<Cell>> {
    Seq::new(h as nat, |r: int| if r < g.len() {
        spec_resize_row(g[r], w)
    } else {
        spec_blank_row(w, Color::Default)
    })
}

/// Resizing to `w` by `h`: both grids are clipped or padded, the cursor and
/// the saved cursor are re-clamped, the scroll region resets to the whole
/// screen. Scrollback rows keep their old width.
pub open spec fn spec_resize(s: ScreenV, w: int, h: int) -> ScreenV {
    ScreenV {
        width: w,
        height: h,
        primary: spec_resize_grid(s.primary, w, h),
        alternate: spec_resize_grid(s.alternate, w, h),
        row: spec_clamp(s.row, 0, h - 1),
        col: spec_clamp(s.col, 0, w - 1),
        saved_row: spec_clamp(s.saved_row, 0, h - 1),
        saved_col: spec_clamp(s.saved_col, 0, w - 1),
        top: 0,
        bot: h,
        ..s
    }
}

/// The row shown at viewport line `i`: the viewport is a window of `height`
/// rows into the combined scrollback-plus-active-grid sequence, starting
/// `view_offset` rows before the live screen.
pub open spec fn spec_visible_row(s: ScreenV, i: int) -> Seq<Cell> {
    (s.scrollback + s.active())[s.scrollback.len() - s.view_offset + i]
}

/// Saving the cursor position.
pub open spec fn spec_save_cursor(s: ScreenV) -> ScreenV {
    ScreenV { saved_row: s.row, saved_col: s.col, ..s }
}

/// Restoring the saved cursor position.
pub open spec fn spec_restore_cursor(s: ScreenV) -> ScreenV {
    ScreenV { row: s.saved_row, col: s.saved_col, ..s }
}

/// Reverse index: one row up; at the top of the scroll region the region
/// scrolls down instead.
pub open spec fn spec_reverse_index(s: ScreenV) -> ScreenV {
    if s.row == s.top {
        spec_scroll_down_once(s)
    } else if s.row > 0 {
        ScreenV { row: s.row - 1, ..s }
    } else {
        s
    }
}

/// Scrolling the viewport one page towards the history's beginning.
pub open spec fn spec_view_backwards(s: ScreenV) -> ScreenV {
    ScreenV {
        view_offset: if s.view_offset + s.height <= s.scrollback.len() {
            s.view_offset + s.height
        } else {
            s.scrollback.len() as int
        },
        ..s
    }
}

/// Scrolling the viewport one page towards the live screen.
pub open spec fn spec_view_forwards(s: ScreenV) -> ScreenV {
    ScreenV {
        view_offset: if s.view_offset >= s.height {
            s.view_offset - s.height
        } else {
            0
        },
        ..s
    }
}

/// Applies one SGR parameter to the pen.
fn sgr_one(pen: Pen, p: u16) -> (r: Pen)
    ensures
        r == spec_sgr_one(pen, p as int),
{
    if p == 0 {
        Pen::reset()
    } else if p == 1 {
        Pen { attrs: Attrs { bold: true, ..pen.attrs }, ..pen }
    } else if p == 4 {
        Pen { attrs: Attrs { underline: true, ..pen.attrs }, ..pen }
    } else if p == 7 {
        Pen { attrs: Attrs { inverse: true, ..pen.attrs }, ..pen }
    } else if p == 22 {
        Pen { attrs: Attrs { bold: false, ..pen.attrs }, ..pen }
    } else if p == 24 {
        Pen { attrs: Attrs { underline: false, ..pen.attrs }, ..pen }
    } else if p == 27 {
        Pen { attrs: Attrs { inverse: false, ..pen.attrs }, ..pen }
    } else if 30 <= p && p <= 37 {
        Pen { fg: Color::Indexed((p - 30) as u8), ..pen }
    } else if p == 39 {
        Pen { fg: Color::Default, ..pen }
    } else if 40 <= p && p <= 47 {
        Pen { bg: Color::Indexed((p - 40) as u8), ..pen }
    } else if p == 49 {
        Pen { bg: Color::Default, ..pen }
    } else if 90 <= p && p <= 97 {
        Pen { fg: Color::Indexed((p - 90 + 8) as u8), ..pen }
    } else if 100 <= p && p <= 107 {
        Pen { bg: Color::Indexed((p - 100 + 8) as u8), ..pen }
    } else {
        pen
    }
}

/// Clips or pads the grid to `w` by `h`.
fn resize_grid(g: &Vec<Vec<Cell>>, w: usize, h: usize) -> (out: Vec<Vec<Cell>>)
    ensures
        grid_view(out) == spec_resize_grid(grid_view(*g), w as int, h as int),
{
    let mut out: Vec<Vec<Cell>> = Vec::new();
    let mut i: usize = 0;
    while i < h
        invariant
            i <= h,
            out@.len() == i,
            forall|j: int| 0 <= j < i ==> (#[trigger] out@[j])@
                == spec_resize_grid(grid_view(*g), w as int, h as int)[j],
        decreases h - i,
    {
        if i < g.len() {
            let mut row: Vec<Cell> = Vec::new();
            let mut j: usize = 0;
            while j < w
                invariant
                    i < g@.len(),
                    j <= w,
                    row@.len() == j,
                    forall|k: int| 0 <= k < j ==> row@[k]
                        == spec_resize_row(g@[i as int]@, w as int)[k],
                decreases w - j,
            {
                if j < g[i].len() {
                    let cell = g[i][j];
                    row.push(cell);
                } else {
                    row.push(Cell::blank(Color::Default));
                }
                j = j + 1;
            }
            proof {
                assert(row@ =~= spec_resize_row(grid_view(*g)[i as int], w as int));
            }
            out.push(row);
        } else {
            out.push(blank_row(w, Color::Default));
        }
        i = i + 1;
    }
    proof {
        assert(grid_view(out) =~~= spec_resize_grid(grid_view(*g), w as int, h as int));
    }
    out
}

impl Screen {
    /// Applies an SGR parameter list to the pen, in parameter order.
    pub fn apply_sgr(&mut self, params: &Vec<u16>)
        requires
            old(self).wf(),
        ensures
            final(self).wf(),
            final(self)@ == (ScreenV { pen: spec_sgr(old(self)@.pen, params@), ..old(self)@ }),
    {
        let mut i: usize = 0;
        proof {
            assert(params@.skip(0) =~= params@);
        }
        while i < params.len()
            invariant
                i <= params@.len(),
                spec_sgr(old(self)@.pen, params@) == spec_sgr(self@.pen, params@.skip(i as int)),
                self@ == (ScreenV { pen: self@.pen, ..old(self)@ }),
            decreases params@.len() - i,
        {
            self.pen = sgr_one(self.pen, params[i]);
            i = i + 1;
            proof {
                assert(params@.skip(i - 1)[0] == params@[i - 1]);
                assert(params@.skip(i - 1).drop_first() =~= params@.skip(i as int));
            }
        }
        proof {
            assert(params@.skip(params@.len() as int) =~= Seq::<u16>::empty());
            assert(self@ =~~= (ScreenV { pen: spec_sgr(old(self)@.pen, params@), ..old(self)@ }));
        }
    }

    /// Switches to the alternate screen.
    pub fn enter_alt(&mut self)
        requires
            old(self).wf(),
        ensures
            final(self).wf(),
            final(self)@ == spec_enter_alt(old(self)@),
    {
        if !self.alt_active {
            self.alternate = blank_grid(self.width, self.height, self.pen.bg);
            self.saved_row = self.cursor_row;
            self.saved_col = self.cursor_col;
            self.cursor_row = 0;
            self.cursor_col = 0;
            self.alt_active = true;
        }
        proof {
            assert(self@ =~~= spec_enter_alt(old(self)@));
        }
    }

    /// Switches back to the primary screen.
    pub fn exit_alt(&mut self)
        requires
            old(self).wf(),
        ensures
            final(self).wf(),
            final(self)@ == spec_exit_alt(old(self)@),
            final(self)@.primary == old(self)@.primary,
    {
        if self.alt_active {
            self.alt_active = false;
            self.cursor_row = self.saved_row;
            self.cursor_col = self.saved_col;
        }
        proof {
            assert(self@ =~~= spec_exit_alt(old(self)@));
        }
    }

    /// Turns line wrapping on or off.
    pub fn set_wrap(&mut self, on: bool)
        requires
            old(self).wf(),
        ensures
            final(self).wf(),
            final(self)@ == (ScreenV { wrap: on, ..old(self)@ }),
    {
        self.wrap = on;
        proof {
            assert(self@ =~~= (ScreenV { wrap: on, ..old(self)@ }));
        }
    }

    /// Shows or hides the cursor.
    pub fn set_cursor_visible(&mut self, on: bool)
        requires
            old(self).wf(),
        ensures
            final(self).wf(),
            final(self)@ == (ScreenV { cursor_visible: on, ..old(self)@ }),
    {
        self.cursor_visible = on;
        proof {
            assert(self@ =~~= (ScreenV { cursor_visible: on, ..old(self)@ }));
        }
    }

    /// Sets the scroll region to rows `[t, b)` and homes the cursor;
    /// out-of-range bounds are ignored.
    pub fn set_scroll_region(&mut self, t: usize, b: usize)
        requires
            old(self).wf(),
        ensures
            final(self).wf(),
            final(self)@ == spec_set_region(old(self)@, t as int, b as int),
    {
        if t < b && b <= self.height {
            self.scroll_top = t;
            self.scroll_bot = b;
            self.cursor_row = 0;
            self.cursor_col = 0;
        }
        proof {
            assert(self@ =~~= spec_set_region(old(self)@, t as int, b as int));
        }
    }

    /// Resizes both grids to `w` by `h` (clip/pad policy), re-clamping the
    /// cursor. The cursor always ends inside the new bounds.
    pub fn resize(&mut self, w: usize, h: usize)
        requires
            old(self).wf(),
            1 <= w,
            1 <= h,
        ensures
            final(self).wf(),
            final(self)@ == spec_resize(old(self)@, w as int, h as int),
            final(self).cursor_row < h,
            final(self).cursor_col < w,
    {
        self.primary = resize_grid(&self.primary, w, h);
        self.alternate = resize_grid(&self.alternate, w, h);
        self.width = w;
        self.height = h;
        if self.cursor_row >= h {
            self.cursor_row = h - 1;
        }
        if self.cursor_col >= w {
            self.cursor_col = w - 1;
        }
        if self.saved_row >= h {
            self.saved_row = h - 1;
        }
        if self.saved_col >= w {
            self.saved_col = w - 1;
        }
        self.scroll_top = 0;
        self.scroll_bot = h;
        proof {
            assert(self@ =~~= spec_resize(old(self)@, w as int, h as int));
        }
    }

    /// The row shown at viewport line `i`: with the viewport scrolled back
    /// by `view_offset` rows into history, line `i` shows that row of the
    /// combined scrollback-plus-active-grid sequence. Reading never mutates
    /// the canonical grid content.
    pub fn visible_row(&self, i: usize) -> (row: &Vec<Cell>)
        requires
            self.wf(),
            i < self@.height,
        ensures
            row@ == spec_visible_row(self@, i as int),
    {
        if i < self.view_offset {
            let start = self.scrollback.len() - self.view_offset;
            &self.scrollback[start + i]
        } else {
            let gi = i - self.view_offset;
            if self.alt_active {
                &self.alternate[gi]
            } else {
                &self.primary[gi]
            }
        }
    }

    /// Saves the cursor position.
    pub fn save_cursor(&mut self)
        requires
            old(self).wf(),
        ensures
            final(self).wf(),
            final(self)@ == spec_save_cursor(old(self)@),
    {
        self.saved_row = self.cursor_row;
        self.saved_col = self.cursor_col;
        proof {
            assert(self@ =~~= spec_save_cursor(old(self)@));
        }
    }

    /// Restores the saved cursor position.
    pub fn restore_cursor(&mut self)
        requires
            old(self).wf(),
        ensures
            final(self).wf(),
            final(self)@ == spec_restore_cursor(old(self)@),
    {
        self.cursor_row = self.saved_row;
        self.cursor_col = self.saved_col;
        proof {
            assert(self@ =~~= spec_restore_cursor(old(self)@));
        }
    }

    /// Reverse index.
    pub fn reverse_index(&mut self)
        requires
            old(self).wf(),
        ensures
            final(self).wf(),
            final(self)@ == spec_reverse_index(old(self)@),
    {
        if self.cursor_row == self.scroll_top {
            self.scroll_down_once();
        } else if self.cursor_row > 0 {
            self.cursor_row = self.cursor_row - 1;
        }
        proof {
            assert(self@ =~~= spec_reverse_index(old(self)@));
        }
    }

    /// Scrolls the viewport one page back into history; reports whether the
    /// offset changed.
    pub fn scroll_view_backwards(&mut self) -> (changed: bool)
        requires
            old(self).wf(),
        ensures
            final(self).wf(),
            final(self)@ == spec_view_backwards(old(self)@),
            changed == (final(self)@.view_offset != old(self)@.view_offset),
    {
        let prev = self.view_offset;
        self.view_offset = if self.scrollback.len() - self.view_offset >= self.height {
            self.view_offset + self.height
        } else {
            self.scrollback.len()
        };
        proof {
            assert(self@ =~~= spec_view_backwards(old(self)@));
        }
        self.view_offset != prev
    }

    /// Scrolls the viewport one page towards the live screen; reports
    /// whether the offset changed.
    pub fn scroll_view_forwards(&mut self) -> (changed: bool)
        requires
            old(self).wf(),
        ensures
            final(self).wf(),
            final(self)@ == spec_view_forwards(old(self)@),
            changed == (final(self)@.view_offset != old(self)@.view_offset),
    {
        let prev = self.view_offset;
        self.view_offset = if self.view_offset >= self.height {
            self.view_offset - self.height
        } else {
            0
        };
        proof {
            assert(self@ =~~= spec_view_forwards(old(self)@));
        }
        self.view_offset != prev
    }

    /// Scrolls the viewport to the beginning of history; reports whether the
    /// offset changed.
    pub fn scroll_view_to_beginning(&mut self) -> (changed: bool)
        requires
            old(self).wf(),
        ensures
            final(self).wf(),
            final(self)@ == (ScreenV { view_offset: old(self)@.scrollback.len() as int, ..old(self)@ }),
            changed == (final(self)@.view_offset != old(self)@.view_offset),
    {
        let prev = self.view_offset;
        self.view_offset = self.scrollback.len();
        proof {
            assert(self@ =~~= (ScreenV {
                view_offset: old(self)@.scrollback.len() as int,
                ..old(self)@
            }));
        }
        self.view_offset != prev
    }

    /// Scrolls the viewport back to the live screen; reports whether the
    /// offset changed.
    pub fn scroll_view_to_end(&mut self) -> (changed: bool)
        requires
            old(self).wf(),
        ensures
            final(self).wf(),
            final(self)@ == (ScreenV { view_offset: 0, ..old(self)@ }),
            changed == (final(self)@.view_offset != old(self)@.view_offset),
    {
        let prev = self.view_offset;
        self.view_offset = 0;
        proof {
            assert(self@ =~~= (ScreenV { view_offset: 0, ..old(self)@ }));
        }
        self.view_offset != prev
    }
}

} // verus!
