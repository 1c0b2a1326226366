//! The Insert-mode controller: applies a command to the buffer and the
//! cursor, keeps the cursor in view, and says how much of the screen must be
//! drawn again or what the caller has to do.
use crate::buffer::{
    at, col_index, delete_step, line_cols, next_word_target, prev_word_target, space_run_end, spaces,
    split_spec, typed, view_cols, Buffer,
};
use crate::commands::{moved, Direction, EditorCommand, JumpCommand};
use crate::line::FragmentView;
use crate::position::{
    displacement, in_view, snap_height, snap_width, step_height, step_width, Position, ScreenOffset, Size,
    RESERVED_ROWS,
};
use vstd::prelude::*;

verus! {

/// How much of the screen a command requires to be drawn again.
#[derive(Copy, Clone, Debug, PartialEq, Eq, Structural)]
pub enum ScreenUpdateType {
    FullScreen,
    MultiLineRender,
    SingleLineRender,
    DefaultAction,
}

/// What the caller does after a command: draw, or run the interaction that
/// the command opens.
#[derive(Copy, Clone, Debug, PartialEq, Eq, Structural)]
pub enum ViewAction {
    Render(ScreenUpdateType),
    Save,
    Paste,
    EnterVim,
    EnterHighlight,
    EnterSearch,
    JumpLine,
    Help,
    Theme,
    Quit,
}

/// What a key does while a line number is being entered.
#[derive(Copy, Clone, Debug, PartialEq, Eq, Structural)]
pub enum JumpStep {
    Continue(usize),
    Go(usize),
    Cancel,
}

/// The offset after reconciling it with the cursor: unchanged when the
/// cursor is in view, nudged by one step when it is one row or column out,
/// recomputed otherwise.
pub open spec fn reconciled(off: ScreenOffset, pos: Position, size: Size, len: usize) -> ScreenOffset {
    let d = displacement(pos, off, size, RESERVED_ROWS);
    if d == 0 {
        off
    } else if d == 1 {
        ScreenOffset {
            height: step_height(off, pos, size, RESERVED_ROWS),
            width: step_width(off, pos, size),
        }
    } else {
        ScreenOffset {
            height: snap_height(off, pos, size, RESERVED_ROWS, len),
            width: snap_width(off, pos, size),
        }
    }
}

/// The line number after typing a digit (the largest `usize` when it
/// would not fit).
pub open spec fn with_digit(line: usize, digit: usize) -> usize {
    if line * 10 + digit <= usize::MAX {
        (line * 10 + digit) as usize
    } else {
        usize::MAX
    }
}

/// After an edit or motion: the view reconciled with the new cursor, and
/// `quiet` drawn when the cursor stayed in view, else the whole screen.
pub open spec fn redrawn(v0: ViewState, v1: ViewState, r: ViewAction, quiet: ScreenUpdateType) -> bool {
    let d = displacement(v1.cursor_position, v0.screen_offset, v0.size, RESERVED_ROWS);
    &&& v1.size == v0.size
    &&& v1.screen_offset == reconciled(
        v0.screen_offset,
        v1.cursor_position,
        v0.size,
        v1.buffer.text@.len() as usize,
    )
    &&& r == ViewAction::Render(
        if d == 0 {
            quiet
        } else {
            ScreenUpdateType::FullScreen
        },
    )
}

/// `v1` is `v0` after typing `c` at the cursor.
pub open spec fn inserted(v0: ViewState, v1: ViewState, c: char) -> bool {
    let t0 = v0.buffer.text@;
    let t1 = v1.buffer.text@;
    let p = v0.cursor_position;
    let h = p.height as int;
    let before = if t0.len() == 0 {
        Seq::<FragmentView>::empty()
    } else {
        t0[h]@
    };
    &&& t1.len() == if t0.len() == 0 {
        1
    } else {
        t0.len()
    }
    &&& t1[h]@ == before.insert(col_index(before, p.width as int), typed(c))
    &&& forall|i: int| 0 <= i < t0.len() && i != h ==> #[trigger] t1[i] == t0[i]
    &&& v1.cursor_position.height == p.height
    &&& v1.cursor_position.width == p.width.saturating_add(view_cols(typed(c)) as usize)
    &&& !v1.buffer.is_saved
}

/// `v1` is `v0` after a backspace: at the origin (or in an empty buffer)
/// nothing changes; at a line's start the line joins the one above; else
/// the grapheme (or soft tab) left of the cursor goes.
pub open spec fn backspaced(v0: ViewState, v1: ViewState) -> bool {
    let t0 = v0.buffer.text@;
    let t1 = v1.buffer.text@;
    let p = v0.cursor_position;
    let h = p.height as int;
    if t0.len() == 0 || (p.width == 0 && p.height == 0) {
        v1.buffer == v0.buffer && v1.cursor_position == p
    } else if p.width == 0 {
        &&& t1.len() == t0.len() - 1
        &&& t1[h - 1]@ == t0[h - 1]@ + t0[h]@
        &&& v1.cursor_position.height == h - 1
        &&& v1.cursor_position.width == line_cols(t0, h - 1)
    } else if t0[h].string@.len() == 0 {
        v1.buffer == v0.buffer && v1.cursor_position.height == p.height && v1.cursor_position.width == 0
    } else {
        &&& t1.len() == t0.len()
        &&& (t1[h]@, v1.cursor_position.width as int) == delete_step(t0[h]@, p.width as int)
        &&& forall|i: int| 0 <= i < t0.len() && i != h ==> #[trigger] t1[i] == t0[i]
        &&& v1.cursor_position.height == p.height
    }
}

/// `v1` is `v0` after a soft tab: four spaces appended to the cursor's line
/// and the cursor four columns right.
pub open spec fn tabbed(v0: ViewState, v1: ViewState) -> bool {
    let t0 = v0.buffer.text@;
    let t1 = v1.buffer.text@;
    let p = v0.cursor_position;
    let h = p.height as int;
    let before = if t0.len() == 0 {
        Seq::<FragmentView>::empty()
    } else {
        t0[h]@
    };
    &&& t1.len() == if t0.len() == 0 {
        1
    } else {
        t0.len()
    }
    &&& t1[h]@ == before + spaces(4)
    &&& forall|i: int| 0 <= i < t0.len() && i != h ==> #[trigger] t1[i] == t0[i]
    &&& v1.cursor_position.height == p.height
    &&& v1.cursor_position.width == p.width.saturating_add(4)
}

/// `v1` is `v0` after Enter: at a line's end a new line below takes the
/// line's indentation; elsewhere the line splits at the cursor. The cursor
/// goes to the new line, after its indentation.
pub open spec fn entered(v0: ViewState, v1: ViewState) -> bool {
    let t0 = v0.buffer.text@;
    let t1 = v1.buffer.text@;
    let p = v0.cursor_position;
    let h = p.height as int;
    if t0.len() == 0 {
        &&& t1.len() == 2
        &&& t1[0]@.len() == 0
        &&& t1[1]@.len() == 0
        &&& v1.cursor_position == (Position { width: 0, height: 1, max_width: 0 })
    } else if col_index(t0[h]@, p.width as int) >= t0[h].string@.len() {
        let indent = spaces(4 * (space_run_end(t0[h].bytes(), 0) / 4) as nat);
        &&& t1.len() == t0.len() + 1
        &&& t1[h + 1]@ == indent
        &&& forall|i: int| 0 <= i <= h ==> #[trigger] t1[i] == t0[i]
        &&& forall|i: int| h + 1 < i < t1.len() ==> #[trigger] t1[i] == t0[i - 1]
        &&& v1.cursor_position.height == h + 1
        &&& v1.cursor_position.width == indent.len()
    } else {
        &&& split_spec(t0, t1, h, col_index(t0[h]@, p.width as int))
        &&& v1.cursor_position.height == h + 1
        &&& v1.cursor_position.width == 0
    }
}

/// `v1` is `v0` after a word jump in `dir` (only left and right move).
pub open spec fn word_jumped(v0: ViewState, v1: ViewState, dir: Direction) -> bool {
    let t = v0.buffer.text@;
    &&& v1.buffer == v0.buffer
    &&& if t.len() > 0 && dir == Direction::Right {
        at(v1.cursor_position, next_word_target(t, v0.cursor_position))
    } else if t.len() > 0 && dir == Direction::Left {
        at(v1.cursor_position, prev_word_target(t, v0.cursor_position))
    } else {
        v1.cursor_position == v0.cursor_position
    }
}

/// The editing session's state in Insert mode.
pub struct ViewState {
    pub size: Size,
    pub cursor_position: Position,
    pub screen_offset: ScreenOffset,
    pub buffer: Buffer,
}

impl ViewState {
    /// The buffer's caches are current and the cursor names one of its lines
    /// (the origin when it is empty).
    pub open spec fn wf(&self) -> bool {
        self.buffer.wf() && self.buffer.holds(self.cursor_position)
    }

    /// A session on `buffer` with the cursor at its origin.
    pub fn new(buffer: Buffer, size: Size) -> (r: ViewState)
        requires
            buffer.wf(),
        ensures
            r.wf(),
            r.buffer == buffer,
            r.size == size,
            r.cursor_position == (Position { width: 0, height: 0, max_width: 0 }),
            r.screen_offset == (ScreenOffset { height: 0, width: 0 }),
    {
        ViewState {
            size,
            cursor_position: Position { width: 0, height: 0, max_width: 0 },
            screen_offset: ScreenOffset { height: 0, width: 0 },
            buffer,
        }
    }

    /// Brings the cursor back into view; returns how far outside it was.
    pub fn check_offset(&mut self) -> (r: usize)
        ensures
            r == displacement(old(self).cursor_position, old(self).screen_offset, old(self).size, RESERVED_ROWS),
            final(self).screen_offset == reconciled(
                old(self).screen_offset,
                old(self).cursor_position,
                old(self).size,
                old(self).buffer.text@.len() as usize,
            ),
            final(self).cursor_position == old(self).cursor_position,
            final(self).buffer == old(self).buffer,
            final(self).size == old(self).size,
            ({
                let p = old(self).cursor_position;
                let o = old(self).screen_offset;
                let z = old(self).size;
                p.height < old(self).buffer.text@.len() && RESERVED_ROWS < z.height && z.width > 0
                    && p.height + z.height < usize::MAX && p.width + z.width < usize::MAX && o.height
                    + z.height < usize::MAX && o.width + z.width < usize::MAX ==> in_view(
                    p,
                    final(self).screen_offset,
                    z,
                    RESERVED_ROWS,
                )
            }),
    {
        let pos = self.cursor_position;
        let view_delta = pos.max_displacement_from_view(&self.screen_offset, &self.size, RESERVED_ROWS);
        if view_delta == 1 {
            self.screen_offset.update_offset_single_move(&pos, &self.size, RESERVED_ROWS);
        } else if view_delta > 1 {
            let len = self.buffer.len();
            self.screen_offset.handle_offset_screen_snap(&pos, &self.size, RESERVED_ROWS, len);
        }
        view_delta
    }

    /// Moves the cursor (to the origin in an empty buffer).
    pub fn move_cursor(&mut self, dir: Direction)
        requires
            old(self).wf(),
        ensures
            final(self).wf(),
            final(self).cursor_position === moved(dir, old(self).cursor_position, old(self).buffer.text@),
            final(self).buffer == old(self).buffer,
            final(self).screen_offset == old(self).screen_offset,
            final(self).size == old(self).size,
    {
        let mut pos = self.cursor_position;
        dir.move_cursor(&mut pos, &self.buffer);
        self.cursor_position = pos;
    }

    /// Types a character at the cursor.
    pub fn insert_char(&mut self, insert_char: char)
        requires
            old(self).wf(),
        ensures
            final(self).wf(),
            inserted(*old(self), *final(self), insert_char),
            final(self).screen_offset == old(self).screen_offset,
            final(self).size == old(self).size,
    {
        let mut pos = self.cursor_position;
        self.buffer.update_line_insert(&mut pos, insert_char);
        self.cursor_position = pos;
    }

    /// Appends a soft tab to the cursor's line and moves four columns right.
    pub fn insert_tab(&mut self)
        requires
            old(self).wf(),
        ensures
            final(self).wf(),
            tabbed(*old(self), *final(self)),
            final(self).screen_offset == old(self).screen_offset,
            final(self).size == old(self).size,
    {
        let pos = self.cursor_position;
        self.buffer.insert_tab(&pos, 1);
        self.cursor_position.width = self.cursor_position.width.saturating_add(4);
        self.cursor_position.max_width = self.cursor_position.width;
    }

    /// Deletes left of the cursor; at a line's start the line joins the one
    /// above (an empty line is removed). Nothing happens at the origin.
    pub fn deletion(&mut self)
        requires
            old(self).wf(),
        ensures
            final(self).wf(),
            backspaced(*old(self), *final(self)),
            final(self).screen_offset == old(self).screen_offset,
            final(self).size == old(self).size,
    {
        if self.buffer.is_empty() || (self.cursor_position.width == 0 && self.cursor_position.height == 0) {
            return;
        }
        let h = self.cursor_position.height;
        if self.cursor_position.width == 0 {
            let prev_line_width = self.buffer.text[h - 1].grapheme_len();
            self.buffer.join_line(h);
            self.cursor_position.height = h - 1;
            self.cursor_position.width = prev_line_width;
            self.cursor_position.max_width = prev_line_width;
            return;
        }
        let n = self.buffer.text[h].string.len();
        if n == 0 {
            self.cursor_position.width = 0;
            self.cursor_position.max_width = 0;
            return;
        }
        let mut pos = self.cursor_position;
        self.buffer.update_line_delete(&mut pos);
        self.cursor_position = pos;
    }

    /// Enter: at a line's end a new line below inherits its indentation;
    /// elsewhere the line is split before the grapheme at the cursor's column. The cursor goes to the new
    /// line, after its indentation.
    pub fn new_line(&mut self)
        requires
            old(self).wf(),
        ensures
            final(self).wf(),
            entered(*old(self), *final(self)),
            final(self).screen_offset == old(self).screen_offset,
            final(self).size == old(self).size,
    {
        let h = self.cursor_position.height;
        if self.buffer.is_empty() {
            self.buffer.new_line(0);
            self.cursor_position = Position { width: 0, height: 1, max_width: 0 };
            return;
        }
        let len = self.buffer.len();
        assert(h < len);
        let n = self.buffer.text[h].string.len();
        let k = crate::buffer::fragment_at_column(&self.buffer.text[h], self.cursor_position.width);
        if k >= n {
            self.buffer.new_line(h);
            let indent = self.buffer.text[h + 1].string.len();
            self.cursor_position = Position { width: indent, height: h + 1, max_width: indent };
        } else {
            let pos = self.cursor_position;
            self.buffer.split_line(&pos);
            self.cursor_position = Position { width: 0, height: h + 1, max_width: 0 };
        }
    }

    /// Word motion to the right or left (other directions do nothing).
    pub fn jump_word(&mut self, dir: Direction)
        requires
            old(self).wf(),
        ensures
            final(self).wf(),
            word_jumped(*old(self), *final(self), dir),
            final(self).screen_offset == old(self).screen_offset,
            final(self).size == old(self).size,
    {
        let mut pos = self.cursor_position;
        match dir {
            Direction::Right => self.buffer.find_next_word(&mut pos),
            Direction::Left => self.buffer.find_prev_word(&mut pos),
            _ => {},
        }
        self.cursor_position = pos;
    }

    /// Takes a new terminal size and snaps the view to the cursor.
    pub fn resize(&mut self, size: Size)
        ensures
            final(self).size == size,
            final(self).cursor_position == old(self).cursor_position,
            final(self).buffer == old(self).buffer,
            final(self).screen_offset.height == snap_height(
                old(self).screen_offset,
                old(self).cursor_position,
                size,
                RESERVED_ROWS,
                old(self).buffer.text@.len() as usize,
            ),
            final(self).screen_offset.width == snap_width(
                old(self).screen_offset,
                old(self).cursor_position,
                size,
            ),
    {
        self.size = size;
        let pos = self.cursor_position;
        let len = self.buffer.len();
        self.screen_offset.handle_offset_screen_snap(&pos, &self.size, RESERVED_ROWS, len);
    }

    /// Moves the cursor to line `line` (counted from 1; past the end: the
    /// last line) and says whether the whole screen must be drawn.
    pub fn jump_to_line(&mut self, line: usize) -> (r: ScreenUpdateType)
        requires
            old(self).wf(),
        ensures
            final(self).wf(),
            final(self).buffer == old(self).buffer,
            final(self).size == old(self).size,
            old(self).buffer.text@.len() > 0 ==> final(self).cursor_position.height == if line
                < old(self).buffer.text@.len() {
                line.saturating_sub(1)
            } else {
                (old(self).buffer.text@.len() - 1) as usize
            },
            old(self).buffer.text@.len() > 0 ==> final(self).cursor_position.width
                == old(self).cursor_position.width,
            ({
                let p = final(self).cursor_position;
                let o = old(self).screen_offset;
                let z = old(self).size;
                if displacement(p, o, z, RESERVED_ROWS) == 0 {
                    r == ScreenUpdateType::DefaultAction && final(self).screen_offset == o
                } else {
                    &&& r == ScreenUpdateType::FullScreen
                    &&& final(self).screen_offset == (ScreenOffset {
                        height: snap_height(o, p, z, RESERVED_ROWS, old(self).buffer.text@.len() as usize),
                        width: snap_width(o, p, z),
                    })
                }
            }),
    {
        if line < self.buffer.len() {
            self.cursor_position.height = line.saturating_sub(1);
        } else {
            self.move_cursor(Direction::PageDown);
        }
        let pos = self.cursor_position;
        if pos.max_displacement_from_view(&self.screen_offset, &self.size, RESERVED_ROWS) > 0 {
            let len = self.buffer.len();
            self.screen_offset.handle_offset_screen_snap(&pos, &self.size, RESERVED_ROWS, len);
            return ScreenUpdateType::FullScreen;
        }
        ScreenUpdateType::DefaultAction
    }

    /// Quitting asks first when the buffer holds unsaved text.
    pub fn needs_quit_confirmation(&self) -> (r: bool)
        ensures
            r == (!self.buffer.is_saved && self.buffer.text@.len() > 0),
    {
        !self.buffer.is_saved && !self.buffer.is_empty()
    }

    /// Applies a command. Edits and motions are done here and answered with
    /// how much to draw again; the others name the interaction the caller
    /// runs.
    pub fn handle_event(&mut self, command: EditorCommand) -> (r: ViewAction)
        requires
            old(self).wf(),
        ensures
            final(self).wf(),
            match command {
                EditorCommand::Move(d) => {
                    &&& final(self).cursor_position === moved(d, old(self).cursor_position, old(self).buffer.text@)
                    &&& final(self).buffer == old(self).buffer
                    &&& redrawn(*old(self), *final(self), r, ScreenUpdateType::DefaultAction)
                },
                EditorCommand::Insert(c) => inserted(*old(self), *final(self), c) && redrawn(
                    *old(self),
                    *final(self),
                    r,
                    ScreenUpdateType::SingleLineRender,
                ),
                EditorCommand::Delete => backspaced(*old(self), *final(self)) && redrawn(
                    *old(self),
                    *final(self),
                    r,
                    ScreenUpdateType::MultiLineRender,
                ),
                EditorCommand::Tab => tabbed(*old(self), *final(self)) && redrawn(
                    *old(self),
                    *final(self),
                    r,
                    ScreenUpdateType::SingleLineRender,
                ),
                EditorCommand::NewLine => {
                    &&& entered(*old(self), *final(self))
                    &&& final(self).size == old(self).size
                    &&& final(self).screen_offset == reconciled(
                        old(self).screen_offset,
                        final(self).cursor_position,
                        old(self).size,
                        final(self).buffer.text@.len() as usize,
                    )
                    &&& r == ViewAction::Render(
                        if displacement(final(self).cursor_position, old(self).screen_offset, old(self).size, RESERVED_ROWS) > 1 {
                            ScreenUpdateType::FullScreen
                        } else {
                            ScreenUpdateType::MultiLineRender
                        },
                    )
                },
                EditorCommand::JumpWord(d) => word_jumped(*old(self), *final(self), d) && redrawn(
                    *old(self),
                    *final(self),
                    r,
                    ScreenUpdateType::DefaultAction,
                ),
                EditorCommand::Resize(s) => {
                    let p = old(self).cursor_position;
                    let len = old(self).buffer.text@.len() as usize;
                    let snapped = ScreenOffset {
                        height: snap_height(old(self).screen_offset, p, s, RESERVED_ROWS, len),
                        width: snap_width(old(self).screen_offset, p, s),
                    };
                    &&& final(self).size == s
                    &&& final(self).buffer == old(self).buffer
                    &&& final(self).cursor_position == p
                    &&& final(self).screen_offset == reconciled(snapped, p, s, len)
                    &&& r == ViewAction::Render(ScreenUpdateType::FullScreen)
                },
                EditorCommand::NoAction => *final(self) == *old(self) && r == ViewAction::Render(ScreenUpdateType::DefaultAction),
                EditorCommand::Save => *final(self) == *old(self) && r == ViewAction::Save,
                EditorCommand::Paste => *final(self) == *old(self) && r == ViewAction::Paste,
                EditorCommand::VimMode => *final(self) == *old(self) && r == ViewAction::EnterVim,
                EditorCommand::Highlight => *final(self) == *old(self) && r == ViewAction::EnterHighlight,
                EditorCommand::Search => *final(self) == *old(self) && r == ViewAction::EnterSearch,
                EditorCommand::JumpLine => *final(self) == *old(self) && r == ViewAction::JumpLine,
                EditorCommand::Help => *final(self) == *old(self) && r == ViewAction::Help,
                EditorCommand::Theme => *final(self) == *old(self) && r == ViewAction::Theme,
                EditorCommand::Quit => *final(self) == *old(self) && r == ViewAction::Quit,
            },
    {
        match command {
            EditorCommand::Move(direction) => {
                self.move_cursor(direction);
                let view_delta = self.check_offset();
                ViewAction::Render(
                    if view_delta == 0 {
                        ScreenUpdateType::DefaultAction
                    } else {
                        ScreenUpdateType::FullScreen
                    },
                )
            },
            EditorCommand::Insert(c) => {
                self.insert_char(c);
                let view_delta = self.check_offset();
                ViewAction::Render(
                    if view_delta == 0 {
                        ScreenUpdateType::SingleLineRender
                    } else {
                        ScreenUpdateType::FullScreen
                    },
                )
            },
            EditorCommand::Delete => {
                self.deletion();
                let view_delta = self.check_offset();
                ViewAction::Render(
                    if view_delta == 0 {
                        ScreenUpdateType::MultiLineRender
                    } else {
                        ScreenUpdateType::FullScreen
                    },
                )
            },
            EditorCommand::Tab => {
                self.insert_tab();
                let view_delta = self.check_offset();
                ViewAction::Render(
                    if view_delta == 0 {
                        ScreenUpdateType::SingleLineRender
                    } else {
                        ScreenUpdateType::FullScreen
                    },
                )
            },
            EditorCommand::NewLine => {
                self.new_line();
                let view_delta = self.check_offset();
                ViewAction::Render(
                    if view_delta > 1 {
                        ScreenUpdateType::FullScreen
                    } else {
                        ScreenUpdateType::MultiLineRender
                    },
                )
            },
            EditorCommand::JumpWord(direction) => {
                self.jump_word(direction);
                let view_delta = self.check_offset();
                ViewAction::Render(
                    if view_delta == 0 {
                        ScreenUpdateType::DefaultAction
                    } else {
                        ScreenUpdateType::FullScreen
                    },
                )
            },
            EditorCommand::Resize(size) => {
                self.resize(size);
                self.check_offset();
                ViewAction::Render(ScreenUpdateType::FullScreen)
            },
            EditorCommand::NoAction => ViewAction::Render(ScreenUpdateType::DefaultAction),
            EditorCommand::Save => ViewAction::Save,
            EditorCommand::Paste => ViewAction::Paste,
            EditorCommand::VimMode => ViewAction::EnterVim,
            EditorCommand::Highlight => ViewAction::EnterHighlight,
            EditorCommand::Search => ViewAction::EnterSearch,
            EditorCommand::JumpLine => ViewAction::JumpLine,
            EditorCommand::Help => ViewAction::Help,
            EditorCommand::Theme => ViewAction::Theme,
            EditorCommand::Quit => ViewAction::Quit,
        }
    }
}

impl JumpCommand {
    /// The line number being entered after this key: a digit is appended,
    /// backspace drops the last digit, Enter
    /// jumps, Esc cancels.
    pub fn apply(self, line: usize) -> (r: JumpStep)
        ensures
            r == match self {
                JumpCommand::Enter(d) => JumpStep::Continue(with_digit(line, d)),
                JumpCommand::Delete => JumpStep::Continue(
                    if line > 9 {
                        line / 10
                    } else {
                        0
                    },
                ),
                JumpCommand::Move => JumpStep::Go(line),
                JumpCommand::Exit => JumpStep::Cancel,
                JumpCommand::NoAction => JumpStep::Continue(line),
            },
    {
        match self {
            JumpCommand::Enter(digit) => {
                let v: usize = if line <= (usize::MAX - digit) / 10 {
                    proof {
                        assert(line * 10 + digit <= usize::MAX) by (nonlinear_arith)
                            requires
                                line <= (usize::MAX - digit) / 10,
                                digit <= usize::MAX,
                        ;
                    }
                    line * 10 + digit
                } else {
                    proof {
                        assert(line * 10 + digit > usize::MAX) by (nonlinear_arith)
                            requires
                                line > (usize::MAX - digit) / 10,
                                digit <= usize::MAX,
                        ;
                    }
                    usize::MAX
                };
                JumpStep::Continue(v)
            },
            JumpCommand::Delete => JumpStep::Continue(
                if line > 9 {
                    line / 10
                } else {
                    0
                },
            ),
            JumpCommand::Move => JumpStep::Go(line),
            JumpCommand::Exit => JumpStep::Cancel,
            JumpCommand::NoAction => JumpStep::Continue(line),
        }
    }
}

} // verus!
