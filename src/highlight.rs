//! Visual selection: a fixed anchor and a moving end, which of the two comes
//! first, the lines they cover, the text they select, and deleting it.
use crate::buffer::{
    col_after, col_index, cut, lemma_col_from_past_ge, lines_wf, segment, view_cols, Buffer,
};
use crate::commands::{moved, HighlightCommand};
use crate::line::FragmentView;
use crate::position::{displacement, Position, ScreenOffset, Size, RESERVED_ROWS};
use vstd::prelude::*;

verus! {

/// Whether the anchor (`StartFirst`) or the moving end (`EndFirst`) comes
/// first in the buffer.
#[derive(Copy, Clone, Debug, PartialEq, Eq, Structural)]
pub enum Orientation {
    StartFirst,
    EndFirst,
}

/// Which part of a line a selection covers.
#[derive(Copy, Clone, Debug, PartialEq, Eq, Structural)]
pub enum LineType {
    Middle,
    Leading,
    Trailing,
    All,
}

/// The orientation of a selection from `start` to `end`.
pub open spec fn orientation_of(start: Position, end: Position) -> Orientation {
    if start.height == end.height {
        if start.width <= end.width {
            Orientation::StartFirst
        } else {
            Orientation::EndFirst
        }
    } else if start.height < end.height {
        Orientation::StartFirst
    } else {
        Orientation::EndFirst
    }
}

/// The text a selection copies: from whichever end comes first to the other.
pub open spec fn copy_text(
    t: Seq<crate::line::Line>,
    or: Orientation,
    start: Position,
    end: Position,
) -> Seq<char> {
    match or {
        Orientation::StartFirst => segment(t, start, end),
        Orientation::EndFirst => segment(t, end, start),
    }
}

/// Copying a selection whose end comes first gives the text of the selection
/// with anchor and end swapped, which then comes first from its anchor.
pub proof fn lemma_copy_orientation_symmetric(
    t: Seq<crate::line::Line>,
    start: Position,
    end: Position,
)
    ensures
        copy_text(t, Orientation::EndFirst, start, end) == copy_text(
            t,
            Orientation::StartFirst,
            end,
            start,
        ),
{
}

/// Swapping anchor and end of a selection does not change what it copies,
/// each with the orientation its own ends give.
pub proof fn lemma_copy_swap_ends(t: Seq<crate::line::Line>, start: Position, end: Position)
    ensures
        copy_text(t, orientation_of(start, end), start, end) == copy_text(
            t,
            orientation_of(end, start),
            end,
            start,
        ),
{
}

/// The view after scrolling by one row or column to follow the moving end
/// `end` of a selection.
pub open spec fn follow_offset(off: ScreenOffset, end: Position, size: Size) -> ScreenOffset {
    let h0 = if end.height >= size.height.saturating_add(off.height).saturating_sub(1) {
        let by_one = off.height.saturating_add(1);
        let by_end = end.height.saturating_sub(size.height).saturating_add(2);
        if by_one < by_end {
            by_one
        } else {
            by_end
        }
    } else {
        off.height
    };
    let w0 = if end.width < off.width {
        end.width
    } else {
        off.width
    };
    ScreenOffset {
        height: if end.height <= h0 {
            end.height
        } else {
            h0
        },
        width: if end.width >= size.width.saturating_add(w0) {
            w0.saturating_add(1)
        } else {
            w0
        },
    }
}

/// The selection: the anchor where it began, the end that moves, and the
/// view while it is shown.
pub struct Highlight {
    pub end: Position,
    pub offset: ScreenOffset,
    pub or: Orientation,
    pub line_range: std::ops::RangeInclusive<usize>,
    pub start: Position,
}

impl Highlight {
    /// A selection anchored at the cursor, empty so far.
    pub fn new(end: Position, offset: ScreenOffset) -> (r: Highlight)
        ensures
            r.start == end,
            r.end == end,
            r.offset == offset,
            r.or == Orientation::StartFirst,
            r.line_range@.start == 0 && r.line_range@.end == 0,
    {
        Highlight {
            end,
            offset,
            or: Orientation::StartFirst,
            line_range: std::ops::RangeInclusive::new(0, 0),
            start: end,
        }
    }

    /// The lines covered, from the one that comes first to the other.
    pub fn adjust_range(&mut self)
        ensures
            final(self).line_range@.start == match old(self).or {
                Orientation::StartFirst => old(self).start.height,
                Orientation::EndFirst => old(self).end.height,
            },
            final(self).line_range@.end == match old(self).or {
                Orientation::StartFirst => old(self).end.height,
                Orientation::EndFirst => old(self).start.height,
            },
            final(self).start == old(self).start,
            final(self).end == old(self).end,
            final(self).or == old(self).or,
            final(self).offset == old(self).offset,
    {
        self.line_range = match self.or {
            Orientation::StartFirst => std::ops::RangeInclusive::new(self.start.height, self.end.height),
            Orientation::EndFirst => std::ops::RangeInclusive::new(self.end.height, self.start.height),
        };
    }

    /// Recomputes which end comes first.
    pub fn resolve_orientation(&mut self)
        ensures
            final(self).or == orientation_of(old(self).start, old(self).end),
            final(self).start == old(self).start,
            final(self).end == old(self).end,
            final(self).offset == old(self).offset,
            final(self).line_range == old(self).line_range,
    {
        if self.start.height == self.end.height {
            if self.start.width <= self.end.width {
                self.or = Orientation::StartFirst;
            } else {
                self.or = Orientation::EndFirst;
            }
            return;
        }
        if self.start.height < self.end.height {
            self.or = Orientation::StartFirst;
        } else {
            self.or = Orientation::EndFirst;
        }
    }

    /// The selected text, both ends included, lines joined by newlines.
    pub fn generate_copy_str(&self, buffer: &Buffer) -> (r: String)
        requires
            self.or == orientation_of(self.start, self.end),
            self.start.height < buffer.text@.len(),
            self.end.height < buffer.text@.len(),
        ensures
            r@ == copy_text(buffer.text@, self.or, self.start, self.end),
    {
        match self.or {
            Orientation::StartFirst => buffer.get_segment(&self.start, &self.end),
            Orientation::EndFirst => buffer.get_segment(&self.end, &self.start),
        }
    }

    /// Scrolls the view by one row or column to follow the moving end.
    pub fn update_offset(&mut self, size: &Size)
        ensures
            final(self).offset == follow_offset(old(self).offset, old(self).end, *size),
            final(self).start == old(self).start,
            final(self).end == old(self).end,
            final(self).or == old(self).or,
            final(self).line_range == old(self).line_range,
    {
        if self.end.height >= size.height.saturating_add(self.offset.height).saturating_sub(1) {
            let by_one = self.offset.height.saturating_add(1);
            let by_end = self.end.height.saturating_sub(size.height).saturating_add(2);
            self.offset.height = if by_one < by_end {
                by_one
            } else {
                by_end
            };
        }
        if self.end.height <= self.offset.height {
            self.offset.height = self.end.height;
        }
        if self.end.width < self.offset.width {
            self.offset.width = self.end.width;
        }
        if self.end.width >= size.width.saturating_add(self.offset.width) {
            self.offset.width = self.offset.width.saturating_add(1);
        }
    }

    /// The columns a one-line selection covers, end excluded, and which part
    /// of the line that is (whether it starts at column 0, whether it reaches
    /// the line's last byte).
    pub fn single_line_span(&self, buffer: &Buffer) -> (r: (usize, usize, LineType))
        requires
            self.start.height < buffer.text@.len(),
        ensures
            ({
                let a = if self.or == Orientation::EndFirst {
                    self.end.width
                } else {
                    self.start.width
                };
                let b = if self.or == Orientation::EndFirst {
                    self.start.width
                } else {
                    self.end.width
                };
                let n = buffer.text@[self.start.height as int].bytes().len() as usize;
                let te = n.saturating_sub(1) == b;
                let ts = a == 0;
                &&& r.0 == a
                &&& r.1 == b
                &&& r.2 == if te && ts {
                    LineType::All
                } else if te {
                    LineType::Trailing
                } else if ts {
                    LineType::Leading
                } else {
                    LineType::Middle
                }
            }),
    {
        let a = if self.or == Orientation::EndFirst {
            self.end.width
        } else {
            self.start.width
        };
        let b = if self.or == Orientation::EndFirst {
            self.start.width
        } else {
            self.end.width
        };
        let n = buffer.text[self.start.height].raw_string.as_str().len();
        let te = n.saturating_sub(1) == b;
        let ts = a == 0;
        let kind = if te && ts {
            LineType::All
        } else if te {
            LineType::Trailing
        } else if ts {
            LineType::Leading
        } else {
            LineType::Middle
        };
        (a, b, kind)
    }
}


/// What is left of line `l` after deleting from the grapheme at column
/// `from` to its end.
pub open spec fn keep_before(l: Seq<FragmentView>, from: int) -> Seq<FragmentView> {
    l.subrange(0, col_index(l, from))
}

/// What is left of line `l` after deleting from its start to the grapheme
/// at column `to` (included).
pub open spec fn keep_after(l: Seq<FragmentView>, to: int) -> Seq<FragmentView> {
    l.subrange(col_after(l, to), l.len() as int)
}

/// Line `l` with its graphemes from the one at column `from` to the one at
/// column `to` (both included) deleted.
pub open spec fn keep_outside(l: Seq<FragmentView>, from: int, to: int) -> Seq<FragmentView> {
    let lo = col_index(l, from);
    let hi = col_after(l, to);
    if lo < hi {
        cut(l, lo, hi)
    } else {
        l
    }
}

/// `t1` is `t0` with the selection from `top` to `bottom` deleted: on one
/// line the span between them; across lines the lines between them go, and
/// the rest of `top`'s line joins what is left of `bottom`'s.
pub open spec fn selection_deleted(
    t0: Seq<crate::line::Line>,
    t1: Seq<crate::line::Line>,
    top: Position,
    bottom: Position,
) -> bool {
    let h = top.height as int;
    let gone = bottom.height - top.height;
    &&& t1.len() == t0.len() - gone
    &&& forall|i: int| 0 <= i < h ==> #[trigger] t1[i] == t0[i]
    &&& forall|i: int| h < i < t1.len() ==> #[trigger] t1[i] == t0[i + gone]
    &&& t1[h]@ == if gone == 0 {
        keep_outside(t0[h]@, top.width as int, bottom.width as int)
    } else {
        keep_before(t0[h]@, top.width as int) + keep_after(t0[bottom.height as int]@, bottom.width as int)
    }
}

impl Highlight {
    /// The end that comes first.
    pub open spec fn first(&self) -> Position {
        if orientation_of(self.start, self.end) == Orientation::StartFirst {
            self.start
        } else {
            self.end
        }
    }

    /// The end that comes last.
    pub open spec fn last(&self) -> Position {
        if orientation_of(self.start, self.end) == Orientation::StartFirst {
            self.end
        } else {
            self.start
        }
    }

    /// Deletes the selection: on one line the span between the ends; across
    /// lines the lines between them, the rest of the first line and the
    /// start of the last, which are then joined. Both ends go to where the
    /// selection began.
    pub fn batch_delete(&mut self, buffer: &mut Buffer)
        requires
            old(buffer).wf(),
            old(self).start.height < old(buffer).text@.len(),
            old(self).end.height < old(buffer).text@.len(),
        ensures
            final(buffer).wf(),
            final(buffer).filename == old(buffer).filename,
            final(self).start == old(self).first(),
            final(self).end == old(self).first(),
            final(self).or == orientation_of(old(self).start, old(self).end),
            selection_deleted(old(buffer).text@, final(buffer).text@, old(self).first(), old(self).last()),
    {
        self.resolve_orientation();
        let top = if self.or == Orientation::StartFirst {
            self.start
        } else {
            self.end
        };
        let bottom = if self.or == Orientation::StartFirst {
            self.end
        } else {
            self.start
        };
        let ghost t = buffer.text@;
        let h = top.height;
        if top.height == bottom.height {
            let mut right = bottom;
            buffer.delete_segment(&top, &mut right);
        } else {
            let mut k = bottom.height - 1;
            while k > h
                invariant
                    h < bottom.height < t.len(),
                    h <= k < bottom.height,
                    lines_wf(buffer.text@),
                    buffer.filename == old(buffer).filename,
                    buffer.text@ == t.subrange(0, k + 1) + t.subrange(
                        bottom.height as int,
                        t.len() as int,
                    ),
                decreases k,
            {
                buffer.pop_line(k);
                assert(buffer.text@ =~= t.subrange(0, k as int) + t.subrange(
                    bottom.height as int,
                    t.len() as int,
                ));
                k = k - 1;
            }
            let ghost mid = buffer.text@;
            assert(mid[h as int] == t[h as int]);
            assert(mid[h + 1] == t[bottom.height as int]);
            let bh = h + 1;
            let mut right = Position { height: bh, width: bottom.width, max_width: bottom.width };
            let origin = Position { height: bh, width: 0, max_width: 0 };
            buffer.delete_segment(&origin, &mut right);
            let ghost mid2 = buffer.text@;
            proof {
                let b0 = t[bottom.height as int]@;
                assert(col_index(b0, 0) == 0);
                if col_after(b0, bottom.width as int) <= 0 {
                    lemma_col_from_past_ge(b0, 1, view_cols(b0[0]) as int, bottom.width as int);
                }
                assert(mid2[h + 1]@ =~= keep_after(b0, bottom.width as int));
            }
            buffer.cut_rest_of_line(&top);
            let ghost mid3 = buffer.text@;
            assert(mid3[h + 1] == mid2[h + 1]);
            assert(mid3[h as int]@ =~= keep_before(t[h as int]@, top.width as int));
            buffer.join_line(bh);
            assert forall|i: int| h < i < buffer.text@.len() implies #[trigger] buffer.text@[i] == t[i
                + (bottom.height - top.height)] by {
                assert(buffer.text@[i] == mid3[i + 1]);
                assert(mid3[i + 1] == mid[i + 1]);
            }
        }
        self.start = top;
        self.end = top;
    }
}


/// What the caller does after a selection command.
#[derive(Clone, Debug)]
pub enum HighlightOutcome {
    /// Keep selecting; `true` when the whole screen must be drawn again.
    Redraw(bool),
    /// Nothing to do for this key.
    Idle,
    /// The selection ends; this text goes to the clipboard.
    Copied(String),
    /// The selection ends without a change.
    Cancelled,
    /// The selection ends; its text was deleted.
    Deleted,
}

impl Highlight {
    /// Handles one selection command on a buffer.
    pub fn process(&mut self, command: HighlightCommand, buffer: &mut Buffer, size: &mut Size) -> (r: HighlightOutcome)
        requires
            old(buffer).wf(),
            old(buffer).holds(old(self).start),
            old(buffer).holds(old(self).end),
        ensures
            final(buffer).wf(),
            final(buffer).holds(final(self).start),
            final(buffer).holds(final(self).end),
            match command {
                HighlightCommand::Move(d) => {
                    &&& final(self).end === moved(d, old(self).end, old(buffer).text@)
                    &&& final(self).start == old(self).start
                    &&& final(self).or == orientation_of(final(self).start, final(self).end)
                    &&& *final(buffer) == *old(buffer)
                    &&& final(self).offset == follow_offset(old(self).offset, final(self).end, *old(size))
                    &&& final(self).line_range@.start == final(self).first().height
                    &&& final(self).line_range@.end == final(self).last().height
                    &&& r matches HighlightOutcome::Redraw(full) && full == (displacement(
                        final(self).end,
                        old(self).offset,
                        *old(size),
                        RESERVED_ROWS,
                    ) > 0)
                },
                HighlightCommand::Copy => {
                    &&& *final(buffer) == *old(buffer)
                    &&& (old(buffer).text@.len() > 0 ==> (r matches HighlightOutcome::Copied(s) && s@ == copy_text(
                        old(buffer).text@,
                        orientation_of(old(self).start, old(self).end),
                        old(self).start,
                        old(self).end,
                    )))
                },
                HighlightCommand::RevertState => *final(buffer) == *old(buffer) && r is Cancelled,
                HighlightCommand::NoAction => *final(buffer) == *old(buffer) && r is Idle,
                HighlightCommand::Resize(s) => {
                    &&& *final(size) == s
                    &&& *final(buffer) == *old(buffer)
                    &&& final(self).start == old(self).start
                    &&& final(self).end == old(self).end
                    &&& final(self).offset == follow_offset(old(self).offset, old(self).end, s)
                    &&& final(self).line_range@.start == final(self).first().height
                    &&& final(self).line_range@.end == final(self).last().height
                    &&& r matches HighlightOutcome::Redraw(full) && full == (displacement(
                        old(self).end,
                        old(self).offset,
                        s,
                        RESERVED_ROWS,
                    ) > 0)
                },
                HighlightCommand::Delete => r is Deleted && if (old(self).start.height == old(self).end.height
                    && old(self).start.width == old(self).end.width) || old(buffer).text@.len() == 0 {
                    *final(buffer) == *old(buffer)
                } else {
                    selection_deleted(old(buffer).text@, final(buffer).text@, old(self).first(), old(self).last())
                },
            },
    {
        match command {
            HighlightCommand::Move(dir) => {
                let mut end = self.end;
                dir.move_cursor(&mut end, buffer);
                self.end = end;
            },
            HighlightCommand::Copy => {
                if buffer.is_empty() {
                    return HighlightOutcome::Copied(String::new());
                }
                self.resolve_orientation();
                return HighlightOutcome::Copied(self.generate_copy_str(buffer));
            },
            HighlightCommand::Resize(new_size) => {
                *size = new_size;
            },
            HighlightCommand::RevertState => {
                return HighlightOutcome::Cancelled;
            },
            HighlightCommand::Delete => {
                if self.start != self.end && !buffer.is_empty() {
                    self.batch_delete(buffer);
                }
                return HighlightOutcome::Deleted;
            },
            HighlightCommand::NoAction => {
                return HighlightOutcome::Idle;
            },
        }
        let end = self.end;
        let view_delta = end.max_displacement_from_view(&self.offset, size, RESERVED_ROWS);
        self.update_offset(size);
        self.resolve_orientation();
        self.adjust_range();
        HighlightOutcome::Redraw(view_delta > 0)
    }
}


/// How one row of a selection over several lines is drawn: the screen row,
/// the bytes of the line that are visible (`blank` for an empty line, drawn
/// as one space), and the bytes of that visible text that are selected.
#[derive(Copy, Clone, Debug, PartialEq, Eq, Structural)]
pub struct RowSpan {
    pub relative_row: usize,
    pub visible_start: usize,
    pub visible_end: usize,
    pub blank: bool,
    pub start: usize,
    pub end: usize,
    pub kind: LineType,
}

impl Highlight {
    /// How line `row` of a selection over several lines is drawn; `None`
    /// when it lies outside the view.
    pub fn multi_line_span(&self, row: usize, buffer: &Buffer, size: &Size) -> (r: Option<RowSpan>)
        requires
            row < buffer.text@.len(),
        ensures
            ({
                let n = buffer.text@[row as int].bytes().len() as usize;
                let left = self.offset.width;
                let in_rows = self.offset.height <= row <= self.offset.height.saturating_add(size.height);
                let shown = n == 0 || n > left;
                match r {
                    None => !in_rows || n.saturating_sub(1) < left || !shown,
                    Some(span) => {
                        let last = if left.saturating_add(size.width) < n - 1 {
                            left.saturating_add(size.width)
                        } else {
                            (n - 1) as usize
                        };
                        let vlen: usize = if n == 0 {
                            1
                        } else {
                            (last + 1 - left) as usize
                        };
                        &&& in_rows && n.saturating_sub(1) >= left && shown
                        &&& span.relative_row == row - self.offset.height
                        &&& span.blank == (n == 0)
                        &&& n > 0 ==> span.visible_start == left && span.visible_end == last + 1
                        &&& if row == self.start.height {
                            match self.or {
                                Orientation::StartFirst => span.start == self.start.width && span.end == vlen
                                    && span.kind == LineType::Trailing,
                                Orientation::EndFirst => span.start == 0 && span.end
                                    == self.start.width.saturating_add(1) && span.kind == LineType::Leading,
                            }
                        } else if row == self.end.height {
                            match self.or {
                                Orientation::StartFirst => span.start == 0 && span.end == self.end.width
                                    && span.kind == LineType::Leading,
                                Orientation::EndFirst => span.start == self.end.width && span.end == vlen
                                    && span.kind == LineType::Trailing,
                            }
                        } else {
                            span.start == 0 && span.end == vlen && span.kind == LineType::All
                        }
                    },
                }
            }),
    {
        let n = buffer.text[row].raw_string.as_str().len();
        let left = self.offset.width;
        if row < self.offset.height || row > self.offset.height.saturating_add(size.height) {
            return None;
        }
        if n.saturating_sub(1) < left {
            return None;
        }
        let blank = n == 0;
        if !blank && n <= left {
            return None;
        }
        let (visible_start, visible_end, vlen) = if blank {
            (0, 0, 1)
        } else {
            let right = left.saturating_add(size.width);
            let last = if right < n - 1 {
                right
            } else {
                n - 1
            };
            (left, last + 1, last + 1 - left)
        };
        let (start, end, kind) = if row == self.start.height {
            match self.or {
                Orientation::StartFirst => (self.start.width, vlen, LineType::Trailing),
                Orientation::EndFirst => (0, self.start.width.saturating_add(1), LineType::Leading),
            }
        } else if row == self.end.height {
            match self.or {
                Orientation::StartFirst => (0, self.end.width, LineType::Leading),
                Orientation::EndFirst => (self.end.width, vlen, LineType::Trailing),
            }
        } else {
            (0, vlen, LineType::All)
        };
        Some(
            RowSpan {
                relative_row: row - self.offset.height,
                visible_start,
                visible_end,
                blank,
                start,
                end,
                kind,
            },
        )
    }
}

} // verus!
