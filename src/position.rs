//! Cursor and viewport coordinates: where the cursor is in the buffer, which
//! buffer cell is drawn at the top-left of the terminal, and how the two are
//! reconciled against the visible size.
use vstd::prelude::*;

verus! {

/// Rows kept free at the bottom of the screen for the status and prompt
/// lines; every mode keeps the cursor above them.
pub const RESERVED_ROWS: usize = 2;

/// Visible rows and columns of the terminal.
#[derive(Copy, Clone, Default, PartialEq, Eq, Debug, Structural)]
pub struct Size {
    pub height: usize,
    pub width: usize,
}

/// A cell of the terminal, relative to its top-left corner.
#[derive(Copy, Clone, Default, Debug)]
pub struct ScreenPosition {
    pub height: usize,
    pub width: usize,
}

/// Shared vocabulary of `Position` and `ScreenOffset`: both are a row and a
/// column that can be moved to an edge.
pub trait Coordinate {
    spec fn row(&self) -> usize;

    spec fn col(&self) -> usize;

    fn set_width(&mut self, val: usize)
        ensures
            final(self).col() == val,
            final(self).row() == old(self).row(),
    ;

    fn set_height(&mut self, val: usize)
        ensures
            final(self).row() == val,
            final(self).col() == old(self).col(),
    ;

    fn page_up(&mut self)
        ensures
            final(self).row() == 0,
            final(self).col() == old(self).col(),
    ;

    fn page_down(&mut self, max: usize)
        ensures
            final(self).row() == max,
            final(self).col() == old(self).col(),
    ;

    fn at_max_width(&self, max_width: usize) -> (r: bool)
        ensures
            r == (self.col() == max_width),
    ;

    fn at_max_height(&self, max_height: usize) -> (r: bool)
        ensures
            r == (self.row() == max_height),
    ;

    fn at_top(&self) -> (r: bool)
        ensures
            r == (self.row() == 0),
    ;

    fn at_left_edge(&self) -> (r: bool)
        ensures
            r == (self.col() == 0),
    ;

    fn snap_right(&mut self, new_width: usize)
        ensures
            final(self).col() == new_width,
            final(self).row() == old(self).row(),
    ;

    fn snap_left(&mut self)
        ensures
            final(self).col() == 0,
            final(self).row() == old(self).row(),
    ;
}

/// The cursor: a row and a display column of the buffer, with the column that
/// vertical moves try to return to.
#[derive(Copy, Clone, Default, Eq, Debug)]
pub struct Position {
    pub width: usize,
    pub height: usize,
    pub max_width: usize,
}

impl PartialEq for Position {
    /// Two positions are equal when they name the same cell; the remembered
    /// column takes no part.
    fn eq(&self, rhs: &Position) -> (r: bool) {
        self.width == rhs.width && self.height == rhs.height
    }
}

impl vstd::std_specs::cmp::PartialEqSpecImpl for Position {
    open spec fn obeys_eq_spec() -> bool {
        true
    }

    open spec fn eq_spec(&self, rhs: &Position) -> bool {
        self.width == rhs.width && self.height == rhs.height
    }
}

impl Coordinate for Position {
    open spec fn row(&self) -> usize {
        self.height
    }

    open spec fn col(&self) -> usize {
        self.width
    }

    fn set_width(&mut self, val: usize) {
        self.width = val;
        self.max_width = val;
    }

    fn set_height(&mut self, val: usize) {
        self.height = val;
    }

    fn page_up(&mut self) {
        self.height = 0;
    }

    fn page_down(&mut self, max: usize) {
        self.height = max;
    }

    fn at_max_width(&self, max_width: usize) -> (r: bool) {
        self.width == max_width
    }

    fn at_max_height(&self, max_height: usize) -> (r: bool) {
        self.height == max_height
    }

    fn at_top(&self) -> (r: bool) {
        self.height == 0
    }

    fn at_left_edge(&self) -> (r: bool) {
        self.width == 0
    }

    fn snap_right(&mut self, new_width: usize) {
        self.width = new_width;
        self.max_width = new_width;
    }

    fn snap_left(&mut self) {
        self.width = 0;
        self.max_width = 0;
    }
}

/// Bottom edge (exclusive) of the rows available for text.
pub open spec fn view_cutoff(offset: ScreenOffset, size: Size, reserved: usize) -> usize {
    offset.height.saturating_add(size.height).saturating_sub(reserved)
}

/// Right edge (exclusive) of the visible columns.
pub open spec fn view_right_edge(offset: ScreenOffset, size: Size) -> usize {
    offset.width.saturating_add(size.width)
}

/// The cursor lies in the visible rectangle: rows `[offset.height, cutoff)`
/// and columns `[offset.width, offset.width + size.width)`.
pub open spec fn in_view(pos: Position, offset: ScreenOffset, size: Size, reserved: usize) -> bool {
    &&& offset.height <= pos.height < view_cutoff(offset, size, reserved)
    &&& offset.width <= pos.width < view_right_edge(offset, size)
}

/// How many rows the cursor lies outside the visible rows.
pub open spec fn height_overflow(pos: Position, offset: ScreenOffset, size: Size, reserved: usize) -> usize {
    if pos.height < offset.height {
        (offset.height - pos.height) as usize
    } else if pos.height >= view_cutoff(offset, size, reserved) {
        ((pos.height - view_cutoff(offset, size, reserved)) as usize).saturating_add(1)
    } else {
        0
    }
}

/// How many columns the cursor lies outside the visible columns.
pub open spec fn width_overflow(pos: Position, offset: ScreenOffset, size: Size) -> usize {
    if pos.width < offset.width {
        (offset.width - pos.width) as usize
    } else if pos.width >= view_right_edge(offset, size) {
        ((pos.width - view_right_edge(offset, size)) as usize).saturating_add(1)
    } else {
        0
    }
}

pub open spec fn displacement(pos: Position, offset: ScreenOffset, size: Size, reserved: usize) -> usize {
    let h = height_overflow(pos, offset, size, reserved);
    let w = width_overflow(pos, offset, size);
    if h >= w {
        h
    } else {
        w
    }
}

impl Position {
    pub fn to_screen_position(self) -> (r: ScreenPosition)
        ensures
            r.height == self.height,
            r.width == self.width,
    {
        ScreenPosition { height: self.height, width: self.width }
    }

    /// Number of rows between two positions.
    pub fn diff_height(&self, other: &Position) -> (r: usize)
        ensures
            r as int == if self.height > other.height {
                self.height - other.height
            } else {
                other.height - self.height
            },
    {
        if self.height > other.height {
            return self.height - other.height;
        }
        other.height - self.height
    }

    /// Moves `delta` columns left, stopping at column 0; the column is
    /// remembered for later vertical moves.
    pub fn left(&mut self, delta: usize)
        ensures
            final(self).width == old(self).width.saturating_sub(delta),
            final(self).max_width == final(self).width,
            final(self).height == old(self).height,
    {
        self.width = self.width.saturating_sub(delta);
        self.max_width = self.width;
    }

    /// Moves `delta` columns right, stopping at `max`; the column is
    /// remembered for later vertical moves.
    pub fn right(&mut self, delta: usize, max: usize)
        ensures
            final(self).width == if old(self).width.saturating_add(delta) < max {
                old(self).width.saturating_add(delta)
            } else {
                max
            },
            final(self).max_width == final(self).width,
            final(self).height == old(self).height,
    {
        let moved = self.width.saturating_add(delta);
        self.width = if moved < max {
            moved
        } else {
            max
        };
        self.max_width = self.width;
    }

    pub fn up(&mut self, delta: usize)
        ensures
            final(self).height == old(self).height.saturating_sub(delta),
            final(self).width == old(self).width,
            final(self).max_width == old(self).max_width,
    {
        self.height = self.height.saturating_sub(delta);
    }

    pub fn down(&mut self, delta: usize, max: usize)
        ensures
            final(self).height == if old(self).height.saturating_add(delta) < max {
                old(self).height.saturating_add(delta)
            } else {
                max
            },
            final(self).width == old(self).width,
            final(self).max_width == old(self).max_width,
    {
        let moved = self.height.saturating_add(delta);
        self.height = if moved < max {
            moved
        } else {
            max
        };
    }

    /// Moves to the cell of `new`.
    pub fn set_position(&mut self, new: Position)
        ensures
            final(self).height == new.height,
            final(self).width == new.width,
            final(self).max_width == new.width,
    {
        self.height = new.height;
        self.width = new.width;
        self.max_width = new.width;
    }

    /// 0 when the cursor is inside the visible rectangle, else how far
    /// outside it lies, the larger of the row and column overflow.
    pub fn max_displacement_from_view(
        &self,
        offset: &ScreenOffset,
        size: &Size,
        reserved_lines: usize,
    ) -> (r: usize)
        ensures
            r == displacement(*self, *offset, *size, reserved_lines),
    {
        let right_edge = offset.width.saturating_add(size.width);
        let width_displacement: usize = if self.width < offset.width {
            offset.width - self.width
        } else if self.width >= right_edge {
            (self.width - right_edge).saturating_add(1)
        } else {
            0
        };

        let cutoff: usize = offset.height.saturating_add(size.height).saturating_sub(reserved_lines);
        let height_displacement: usize = if self.height < offset.height {
            offset.height - self.height
        } else if self.height >= cutoff {
            (self.height - cutoff).saturating_add(1)
        } else {
            0
        };

        if height_displacement >= width_displacement {
            height_displacement
        } else {
            width_displacement
        }
    }

    /// Where the cursor is drawn on the terminal.
    pub fn relative_view_position(&self, offset: &ScreenOffset) -> (r: ScreenPosition)
        ensures
            r.height == self.height.saturating_sub(offset.height),
            r.width == self.width.saturating_sub(offset.width),
    {
        ScreenPosition {
            height: self.height.saturating_sub(offset.height),
            width: self.width.saturating_sub(offset.width),
        }
    }

    pub fn right_of_view(&self, offset: &ScreenOffset, size: &Size) -> (r: bool)
        ensures
            r == (self.width >= view_right_edge(*offset, *size)),
    {
        self.width >= offset.width.saturating_add(size.width)
    }

    pub fn left_of_view(&self, offset: &ScreenOffset) -> (r: bool)
        ensures
            r == (self.width < offset.width),
    {
        self.width < offset.width
    }

    pub fn above_view(&self, offset: &ScreenOffset) -> (r: bool)
        ensures
            r == (self.height < offset.height),
    {
        self.height < offset.height
    }

    pub fn below_view(&self, offset: &ScreenOffset, size: &Size, reserved_lines: usize) -> (r: bool)
        ensures
            r == (self.height >= offset.height.saturating_add(
                size.height.saturating_sub(reserved_lines),
            )),
    {
        self.height >= offset.height.saturating_add(size.height.saturating_sub(reserved_lines))
    }

    /// Returns to the remembered column, or to `max` when the line is shorter.
    pub fn resolve_width(&mut self, max: usize)
        ensures
            final(self).width == if old(self).max_width < max {
                old(self).max_width
            } else {
                max
            },
            final(self).height == old(self).height,
            final(self).max_width == old(self).max_width,
    {
        self.width = if self.max_width < max {
            self.max_width
        } else {
            max
        };
    }
}

/// The buffer cell drawn at the terminal's top-left corner.
#[derive(Debug, Clone, Copy, Default, PartialEq, Eq, Structural)]
pub struct ScreenOffset {
    pub height: usize,
    pub width: usize,
}

/// Row of the offset after a snap to `pos` (see `handle_offset_screen_snap`).
pub open spec fn snap_height(
    off: ScreenOffset,
    pos: Position,
    size: Size,
    reserved: usize,
    buffer_len: usize,
) -> usize {
    let h = if pos.height >= view_cutoff(off, size, reserved) {
        let by_buffer = buffer_len.saturating_add(reserved).saturating_sub(size.height);
        let by_cursor = pos.height.saturating_add(1).saturating_add(reserved).saturating_sub(size.height);
        if by_buffer < by_cursor {
            by_buffer
        } else {
            by_cursor
        }
    } else if pos.height < off.height {
        pos.height
    } else {
        off.height
    };
    if pos.height == 0 {
        0
    } else {
        h
    }
}

/// Column of the offset after a snap to `pos` (see `handle_offset_screen_snap`).
pub open spec fn snap_width(off: ScreenOffset, pos: Position, size: Size) -> usize {
    let w = if pos.width == 0 {
        0
    } else {
        off.width
    };
    if pos.width >= size.width.saturating_add(w) {
        pos.width.saturating_sub(size.width).saturating_add(1)
    } else if pos.width < w {
        pos.width
    } else {
        w
    }
}

/// Row of the offset after a single-step move (see `update_offset_single_move`).
pub open spec fn step_height(off: ScreenOffset, pos: Position, size: Size, reserved: usize) -> usize {
    let h = if pos.height >= view_cutoff(off, size, reserved) {
        let by_one = off.height.saturating_add(1);
        let by_cursor = pos.height.saturating_add(1).saturating_add(reserved).saturating_sub(size.height);
        if by_one < by_cursor {
            by_one
        } else {
            by_cursor
        }
    } else {
        off.height
    };
    if pos.height < h {
        pos.height
    } else {
        h
    }
}

/// Column of the offset after a single-step move (see `update_offset_single_move`).
pub open spec fn step_width(off: ScreenOffset, pos: Position, size: Size) -> usize {
    let w = if pos.width < off.width {
        pos.width
    } else {
        off.width
    };
    if pos.width >= w.saturating_add(size.width) {
        w.saturating_add(1)
    } else {
        w
    }
}

impl ScreenOffset {
    pub fn to_position(self) -> (r: ScreenPosition)
        ensures
            r.height == self.height,
            r.width == self.width,
    {
        ScreenPosition { height: self.height, width: self.width }
    }

    /// Recomputes the offset from the cursor after a jump, a resize or a
    /// structural edit.
    pub fn handle_offset_screen_snap(
        &mut self,
        pos: &Position,
        size: &Size,
        reserved: usize,
        buffer_len: usize,
    )
        ensures
            final(self).height == snap_height(*old(self), *pos, *size, reserved, buffer_len),
            final(self).width == snap_width(*old(self), *pos, *size),
            pos.height < buffer_len && reserved < size.height && size.width > 0 && pos.height
                + size.height < usize::MAX && pos.width + size.width < usize::MAX ==> in_view(
                *pos,
                *final(self),
                *size,
                reserved,
            ),
    {
        let cutoff = self.height.saturating_add(size.height).saturating_sub(reserved);
        if pos.height >= cutoff {
            let by_buffer = buffer_len.saturating_add(reserved).saturating_sub(size.height);
            let by_cursor = pos.height.saturating_add(1).saturating_add(reserved).saturating_sub(size.height);
            self.set_height(
                if by_buffer < by_cursor {
                    by_buffer
                } else {
                    by_cursor
                },
            );
        } else if pos.above_view(self) {
            self.set_height(pos.height);
        }
        if pos.at_top() {
            self.page_up();
        }
        if pos.at_left_edge() {
            self.snap_left();
        }
        if pos.width >= size.width.saturating_add(self.width) {
            self.width = pos.width.saturating_sub(size.width).saturating_add(1);
        } else if pos.width < self.width {
            self.width = pos.width;
        }
    }

    /// Nudges the offset by one row or column after the cursor stepped just
    /// outside the visible rectangle.
    pub fn update_offset_single_move(&mut self, pos: &Position, size: &Size, reserved: usize)
        ensures
            final(self).height == step_height(*old(self), *pos, *size, reserved),
            final(self).width == step_width(*old(self), *pos, *size),
            displacement(*pos, *old(self), *size, reserved) == 1 && reserved < size.height
                && size.width > 0 && old(self).height + size.height < usize::MAX && old(self).width
                + size.width < usize::MAX ==> in_view(*pos, *final(self), *size, reserved),
    {
        let cutoff = self.height.saturating_add(size.height).saturating_sub(reserved);
        if pos.height >= cutoff {
            let by_one = self.height.saturating_add(1);
            let by_cursor = pos.height.saturating_add(1).saturating_add(reserved).saturating_sub(size.height);
            self.set_height(
                if by_one < by_cursor {
                    by_one
                } else {
                    by_cursor
                },
            );
        }
        if pos.above_view(self) {
            self.set_height(pos.height);
        }
        if pos.left_of_view(self) {
            self.set_width(pos.width);
        }
        if pos.right_of_view(self, size) {
            self.width = self.width.saturating_add(1);
        }
    }
}

impl Coordinate for ScreenOffset {
    open spec fn row(&self) -> usize {
        self.height
    }

    open spec fn col(&self) -> usize {
        self.width
    }

    fn set_width(&mut self, val: usize) {
        self.width = val;
    }

    fn set_height(&mut self, val: usize) {
        self.height = val;
    }

    fn page_up(&mut self) {
        self.height = 0;
    }

    fn page_down(&mut self, max: usize) {
        self.height = max;
    }

    fn at_max_width(&self, max_width: usize) -> (r: bool) {
        self.width == max_width
    }

    fn at_max_height(&self, max_height: usize) -> (r: bool) {
        self.height == max_height
    }

    fn at_top(&self) -> (r: bool) {
        self.height == 0
    }

    fn at_left_edge(&self) -> (r: bool) {
        self.width == 0
    }

    fn snap_right(&mut self, new_width: usize) {
        self.width = new_width;
    }

    fn snap_left(&mut self) {
        self.width = 0;
    }
}

/// A displacement of 0 means exactly that the cursor is visible.
pub proof fn lemma_displacement_zero_iff_in_view(
    pos: Position,
    offset: ScreenOffset,
    size: Size,
    reserved: usize,
)
    ensures
        (displacement(pos, offset, size, reserved) == 0) <==> in_view(pos, offset, size, reserved),
{
}

/// Away from the ends of `usize`, a displacement of 0 means that the cursor
/// lies in rows `[offset.height, offset.height + size.height - reserved)`
/// and columns `[offset.width, offset.width + size.width)`.
pub proof fn lemma_displacement_zero_iff_inside(
    pos: Position,
    offset: ScreenOffset,
    size: Size,
    reserved: usize,
)
    requires
        reserved <= size.height,
        offset.height + size.height <= usize::MAX,
        offset.width + size.width <= usize::MAX,
    ensures
        (displacement(pos, offset, size, reserved) == 0) <==> (offset.height <= pos.height
            < offset.height + size.height - reserved && offset.width <= pos.width < offset.width
            + size.width),
{
}

/// The editing mode shown on the status line.
#[derive(Copy, Clone, PartialEq, Eq, Debug, Structural)]
pub enum Mode {
    Insert,
    Vim,
    Search,
    Highlight,
}

impl Mode {
    pub fn to_string(&self) -> (r: &'static str)
        ensures
            r@ == match *self {
                Mode::Insert => "Insert"@,
                Mode::Vim => "Vim"@,
                Mode::Search => "Search"@,
                Mode::Highlight => "Highlight"@,
            },
    {
        proof {
            reveal_strlit("Insert");
            reveal_strlit("Vim");
            reveal_strlit("Search");
            reveal_strlit("Highlight");
        }
        match *self {
            Mode::Insert => "Insert",
            Mode::Vim => "Vim",
            Mode::Search => "Search",
            Mode::Highlight => "Highlight",
        }
    }
}

} // verus!
