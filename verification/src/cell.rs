use vstd::prelude::*;

verus! {

/// Colour of a cell: the terminal's default, or one of the 256 indexed colours.
#[derive(Clone, Copy, PartialEq, Eq, Structural, Debug)]
pub enum Color {
    Default,
    Indexed(u8),
}

/// Display attribute flags of a cell, or of the current pen.
#[derive(Clone, Copy, PartialEq, Eq, Structural, Debug)]
pub struct Attrs {
    pub bold: bool,
    pub underline: bool,
    pub inverse: bool,
}

impl Attrs {
    /// All attributes off.
    pub fn plain() -> (r: Attrs)
        ensures
            r == (Attrs { bold: false, underline: false, inverse: false }),
    {
        Attrs { bold: false, underline: false, inverse: false }
    }
}

/// The pen: the colours and attributes that the next written cell receives.
/// It persists in the screen model from sequence to sequence.
#[derive(Clone, Copy, PartialEq, Eq, Structural, Debug)]
pub struct Pen {
    pub fg: Color,
    pub bg: Color,
    pub attrs: Attrs,
}

impl Pen {
    /// The pen after a full attribute reset.
    pub fn reset() -> (r: Pen)
        ensures
            r == spec_pen_reset(),
    {
        Pen { fg: Color::Default, bg: Color::Default, attrs: Attrs::plain() }
    }
}

pub open spec fn spec_pen_reset() -> Pen {
    Pen {
        fg: Color::Default,
        bg: Color::Default,
        attrs: Attrs { bold: false, underline: false, inverse: false },
    }
}

/// One character cell of the grid. `ch` is a Unicode scalar value; `0` is the
/// empty (erased) marker.
#[derive(Clone, Copy, PartialEq, Eq, Structural, Debug)]
pub struct Cell {
    pub ch: u32,
    pub fg: Color,
    pub bg: Color,
    pub attrs: Attrs,
}

/// The cell that erasure writes: the empty marker on the given background,
/// with default foreground and no attributes.
pub open spec fn spec_blank_cell(bg: Color) -> Cell {
    Cell {
        ch: 0,
        fg: Color::Default,
        bg,
        attrs: Attrs { bold: false, underline: false, inverse: false },
    }
}

impl Cell {
    /// An erased cell on the given background colour.
    pub fn blank(bg: Color) -> (r: Cell)
        ensures
            r == spec_blank_cell(bg),
    {
        Cell { ch: 0, fg: Color::Default, bg, attrs: Attrs::plain() }
    }
}

} // verus!
