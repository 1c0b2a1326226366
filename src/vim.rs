//! Vim mode: motions, the commands that wait for one more key (`gg`, `GG`,
//! `d`, `y`), and the colon command line.
use crate::buffer::{
    at, segment, next_word_start_target, word_end_target, word_start_target, Buffer,
};
use crate::commands::{moved, ColonQueueActions, Direction, Key, QueueInitCommand, VimColonQueue, VimModeCommands};
use crate::position::{
    displacement, snap_height, snap_width, step_height, step_width, Position, ScreenOffset, Size,
    RESERVED_ROWS,
};
use crate::highlight::keep_outside;
use crate::view::reconciled;
use vstd::prelude::*;

verus! {

/// What the caller does after a Vim-mode command.
#[derive(Copy, Clone, Debug, PartialEq, Eq, Structural)]
pub enum VimAction {
    /// Stay in Vim mode; `true` when the whole screen must be drawn again.
    Redraw(bool),
    /// Read one more key (or the colon command line) for this command.
    Pending(QueueInitCommand),
    EnterHighlight,
    Paste,
    ShowHelp,
    /// Leave Vim mode, handing the cursor and view back.
    Exit,
}

/// What a colon command asks for.
#[derive(Copy, Clone, Debug, PartialEq, Eq, Structural)]
pub enum ColonOutcome {
    /// `w`: save and stay in Vim mode.
    Save,
    /// `wq`: save and end the session.
    SaveAndExit,
    /// `q` on a saved buffer, or `q!`: end the session.
    Exit,
    /// `q` on an unsaved buffer: warn and stay.
    NotSaved,
    /// Anything else: say so and stay.
    Invalid,
    /// A number: jump to that line.
    Jump(usize),
}

/// What a key does on the colon command line.
#[derive(Copy, Clone, Debug, PartialEq, Eq, Structural)]
pub enum ColonEntry {
    Editing,
    Leave,
    Submit,
}

/// What the key that completes a pending command did.
#[derive(Clone, Debug)]
pub enum PendingOutcome {
    Done,
    Invalid,
    Yanked(String),
}

pub open spec fn is_digit(c: char) -> bool {
    '0' <= c && c <= '9'
}

/// The number the decimal digits `s` spell.
pub open spec fn digits_value(s: Seq<char>) -> int
    decreases s.len(),
{
    if s.len() == 0 {
        0
    } else {
        digits_value(s.drop_last()) * 10 + (s.last() as u32 - '0' as u32)
    }
}

/// The tokens of a colon command: a line number when it is all digits (and
/// fits), else one token per character; `None` when a character is not a
/// token.
pub open spec fn colon_tokens(s: Seq<char>) -> Option<Seq<ColonQueueActions>> {
    if s.len() > 0 && (forall|i: int| 0 <= i < s.len() ==> is_digit(#[trigger] s[i])) && digits_value(s)
        <= usize::MAX {
        Some(seq![ColonQueueActions::Jump(digits_value(s) as usize)])
    } else if forall|i: int| 0 <= i < s.len() ==> (s[i] == 'w' || s[i] == 'q' || s[i] == '!') {
        Some(
            s.map_values(
                |c: char|
                    if c == 'w' {
                        ColonQueueActions::Write
                    } else if c == 'q' {
                        ColonQueueActions::Quit
                    } else {
                        ColonQueueActions::Override
                    },
            ),
        )
    } else {
        None
    }
}

/// What a colon command of these tokens does on a buffer saved or not.
pub open spec fn colon_outcome(q: Seq<ColonQueueActions>, saved: bool) -> ColonOutcome {
    if q.len() == 1 {
        match q[0] {
            ColonQueueActions::Write => ColonOutcome::Save,
            ColonQueueActions::Quit => if saved {
                ColonOutcome::Exit
            } else {
                ColonOutcome::NotSaved
            },
            ColonQueueActions::Override => ColonOutcome::Invalid,
            ColonQueueActions::Jump(l) => ColonOutcome::Jump(l),
        }
    } else if q.len() == 2 && q[0] == ColonQueueActions::Write && q[1] == ColonQueueActions::Quit {
        ColonOutcome::SaveAndExit
    } else if q.len() == 2 && q[0] == ColonQueueActions::Quit && q[1] == ColonQueueActions::Override {
        ColonOutcome::Exit
    } else {
        ColonOutcome::Invalid
    }
}

/// After a Vim motion: the view reconciled with the new cursor, and whether
/// the whole screen must be drawn.
pub open spec fn followed(v0: VimMode, v1: VimMode, t: Seq<crate::line::Line>, r: VimAction) -> bool {
    let d = displacement(v1.cursor_position, v0.screen_offset, v0.size, RESERVED_ROWS);
    &&& v1.size == v0.size
    &&& v1.screen_offset == reconciled(v0.screen_offset, v1.cursor_position, v0.size, t.len() as usize)
    &&& r == VimAction::Redraw(d > 0)
}

/// After a jump to another line: the column is kept, and when the buffer
/// has lines the view is reconciled with the cursor and `r` says how far
/// outside the old view the cursor landed; an empty buffer changes nothing.
pub open spec fn jumped(v0: VimMode, v1: VimMode, t: Seq<crate::line::Line>, r: usize) -> bool {
    if t.len() == 0 {
        v1 == v0 && r == 0
    } else {
        &&& v1.cursor_position.width == v0.cursor_position.width
        &&& v1.cursor_position.max_width == v0.cursor_position.max_width
        &&& v1.size == v0.size
        &&& v1.screen_offset == reconciled(v0.screen_offset, v1.cursor_position, v0.size, t.len() as usize)
        &&& r == displacement(v1.cursor_position, v0.screen_offset, v0.size, RESERVED_ROWS)
    }
}

/// Vim mode's own cursor, view and size, handed back when it ends.
pub struct VimMode {
    pub cursor_position: Position,
    pub screen_offset: ScreenOffset,
    pub size: Size,
}

impl VimMode {
    pub fn new(cursor_position: Position, screen_offset: ScreenOffset, size: Size) -> (r: VimMode)
        ensures
            r.cursor_position == cursor_position,
            r.screen_offset == screen_offset,
            r.size == size,
    {
        VimMode { cursor_position, screen_offset, size }
    }

    /// Brings the cursor back into view; returns how far outside it was.
    pub fn resolve_displacement(&mut self, buffer: &Buffer) -> (r: usize)
        ensures
            r == displacement(old(self).cursor_position, old(self).screen_offset, old(self).size, RESERVED_ROWS),
            final(self).cursor_position == old(self).cursor_position,
            final(self).size == old(self).size,
            final(self).screen_offset == if r == 0 {
                old(self).screen_offset
            } else if r == 1 {
                ScreenOffset {
                    height: step_height(
                        old(self).screen_offset,
                        old(self).cursor_position,
                        old(self).size,
                        RESERVED_ROWS,
                    ),
                    width: step_width(old(self).screen_offset, old(self).cursor_position, old(self).size),
                }
            } else {
                ScreenOffset {
                    height: snap_height(
                        old(self).screen_offset,
                        old(self).cursor_position,
                        old(self).size,
                        RESERVED_ROWS,
                        buffer.text@.len() as usize,
                    ),
                    width: snap_width(old(self).screen_offset, old(self).cursor_position, old(self).size),
                }
            },
    {
        let pos = self.cursor_position;
        let dis = pos.max_displacement_from_view(&self.screen_offset, &self.size, RESERVED_ROWS);
        if dis == 1 {
            self.screen_offset.update_offset_single_move(&pos, &self.size, RESERVED_ROWS);
        } else if dis > 1 {
            let len = buffer.len();
            self.screen_offset.handle_offset_screen_snap(&pos, &self.size, RESERVED_ROWS, len);
        }
        dis
    }

    /// Moves the cursor and brings it into view.
    pub fn move_and_resolve(&mut self, dir: Direction, buffer: &Buffer) -> (r: usize)
        requires
            buffer.holds(old(self).cursor_position),
        ensures
            buffer.holds(final(self).cursor_position),
            final(self).cursor_position === moved(dir, old(self).cursor_position, buffer.text@),
            r == displacement(final(self).cursor_position, old(self).screen_offset, old(self).size, RESERVED_ROWS),
            final(self).size == old(self).size,
            final(self).screen_offset == reconciled(
                old(self).screen_offset,
                final(self).cursor_position,
                old(self).size,
                buffer.text@.len() as usize,
            ),
    {
        let mut pos = self.cursor_position;
        dir.move_cursor(&mut pos, buffer);
        self.cursor_position = pos;
        self.resolve_displacement(buffer)
    }

    /// Moves the cursor (to the origin in an empty buffer, without scrolling).
    pub fn move_cursor(&mut self, dir: Direction, buffer: &Buffer) -> (r: usize)
        requires
            buffer.holds(old(self).cursor_position),
        ensures
            buffer.holds(final(self).cursor_position),
            final(self).cursor_position === moved(dir, old(self).cursor_position, buffer.text@),
            final(self).size == old(self).size,
            buffer.text@.len() == 0 ==> r == 0 && final(self).screen_offset == old(self).screen_offset,
            buffer.text@.len() > 0 ==> r == displacement(
                final(self).cursor_position,
                old(self).screen_offset,
                old(self).size,
                RESERVED_ROWS,
            ) && final(self).screen_offset == reconciled(
                old(self).screen_offset,
                final(self).cursor_position,
                old(self).size,
                buffer.text@.len() as usize,
            ),
    {
        if buffer.is_empty() {
            self.cursor_position = Position { width: 0, height: 0, max_width: 0 };
            return 0;
        }
        self.move_and_resolve(dir, buffer)
    }

    /// Puts the cursor on line `line` (at most the last) and scrolls to it.
    pub fn jump_cursor_to(&mut self, line: usize, buffer: &Buffer) -> (r: usize)
        requires
            buffer.holds(old(self).cursor_position),
        ensures
            buffer.holds(final(self).cursor_position),
            buffer.text@.len() > 0 ==> final(self).cursor_position.height == if line < buffer.text@.len() {
                line as int
            } else {
                buffer.text@.len() - 1
            },
            jumped(*old(self), *final(self), buffer.text@, r),
    {
        if buffer.is_empty() {
            return 0;
        }
        let last = buffer.len() - 1;
        self.cursor_position.height = if line < last {
            line
        } else {
            last
        };
        self.resolve_displacement(buffer)
    }

    /// Ten lines down (at most to the last).
    pub fn jump_down(&mut self, buffer: &Buffer) -> (r: usize)
        requires
            buffer.holds(old(self).cursor_position),
        ensures
            buffer.holds(final(self).cursor_position),
            buffer.text@.len() > 0 ==> final(self).cursor_position.height == if old(self).cursor_position.height
                + 10 < buffer.text@.len() {
                old(self).cursor_position.height + 10
            } else {
                buffer.text@.len() - 1
            },
            jumped(*old(self), *final(self), buffer.text@, r),
    {
        let len = buffer.len();
        let target = self.cursor_position.height.saturating_add(10);
        self.jump_cursor_to(target, buffer)
    }

    /// Ten lines up (at most to the first).
    pub fn jump_up(&mut self, buffer: &Buffer) -> (r: usize)
        requires
            buffer.holds(old(self).cursor_position),
        ensures
            buffer.holds(final(self).cursor_position),
            buffer.text@.len() > 0 ==> final(self).cursor_position.height
                == old(self).cursor_position.height.saturating_sub(10),
            jumped(*old(self), *final(self), buffer.text@, r),
    {
        let target = self.cursor_position.height.saturating_sub(10);
        self.jump_cursor_to(target, buffer)
    }

    pub fn resize(&mut self, new_size: Size)
        ensures
            final(self).size == new_size,
            final(self).cursor_position == old(self).cursor_position,
            final(self).screen_offset == old(self).screen_offset,
    {
        self.size = new_size;
    }

    /// Hands the cursor, view and size back to Insert mode.
    pub fn hand_back_state(&self, pos: &mut Position, offset: &mut ScreenOffset, size: &mut Size)
        ensures
            *final(pos) == self.cursor_position,
            *final(offset) == self.screen_offset,
            *final(size) == self.size,
    {
        *pos = self.cursor_position;
        *offset = self.screen_offset;
        *size = self.size;
    }

    /// Handles one Vim-mode command.
    pub fn process(&mut self, command: VimModeCommands, buffer: &Buffer) -> (r: VimAction)
        requires
            buffer.holds(old(self).cursor_position),
        ensures
            buffer.holds(final(self).cursor_position),
            match command {
                VimModeCommands::Move(d) => if d == Direction::PageUp || d == Direction::PageDown {
                    final(self).cursor_position == old(self).cursor_position && r == VimAction::Redraw(false)
                } else {
                    &&& final(self).cursor_position === moved(d, old(self).cursor_position, buffer.text@)
                    &&& if buffer.text@.len() > 0 {
                        followed(*old(self), *final(self), buffer.text@, r)
                    } else {
                        r == VimAction::Redraw(false) && final(self).screen_offset == old(self).screen_offset
                    }
                },
                VimModeCommands::StartOfNextWord => followed(*old(self), *final(self), buffer.text@, r) && (
                buffer.text@.len() > 0 ==> at(
                    final(self).cursor_position,
                    next_word_start_target(buffer.text@, old(self).cursor_position),
                )),
                VimModeCommands::EndOfCurrentWord => followed(*old(self), *final(self), buffer.text@, r) && (
                buffer.text@.len() > 0 ==> at(
                    final(self).cursor_position,
                    word_end_target(buffer.text@, old(self).cursor_position),
                )),
                VimModeCommands::BeginingOfCurrentWord => followed(*old(self), *final(self), buffer.text@, r) && (
                buffer.text@.len() > 0 ==> at(
                    final(self).cursor_position,
                    word_start_target(buffer.text@, old(self).cursor_position),
                )),
                VimModeCommands::ComplexCommand(q) => r == VimAction::Pending(q) && *final(self) == *old(self),
                VimModeCommands::Highlight => r == VimAction::EnterHighlight && *final(self) == *old(self),
                VimModeCommands::Paste => r == VimAction::Paste && *final(self) == *old(self),
                VimModeCommands::NoAction => r == VimAction::ShowHelp && *final(self) == *old(self),
                VimModeCommands::Exit => r == VimAction::Exit && *final(self) == *old(self),
                VimModeCommands::Resize(s) => {
                    &&& final(self).size == s
                    &&& final(self).cursor_position == old(self).cursor_position
                    &&& final(self).screen_offset == old(self).screen_offset
                    &&& r == VimAction::Redraw(true)
                },
            },
    {
        match command {
            VimModeCommands::Move(dir) => {
                if dir == Direction::PageUp || dir == Direction::PageDown {
                    return VimAction::Redraw(false);
                }
                let dis = self.move_cursor(dir, buffer);
                VimAction::Redraw(dis > 0)
            },
            VimModeCommands::StartOfNextWord => {
                let mut pos = self.cursor_position;
                buffer.begining_of_next_word(&mut pos);
                self.cursor_position = pos;
                VimAction::Redraw(self.resolve_displacement(buffer) > 0)
            },
            VimModeCommands::EndOfCurrentWord => {
                let mut pos = self.cursor_position;
                buffer.end_of_current_word(&mut pos);
                self.cursor_position = pos;
                VimAction::Redraw(self.resolve_displacement(buffer) > 0)
            },
            VimModeCommands::BeginingOfCurrentWord => {
                let mut pos = self.cursor_position;
                buffer.begining_of_current_word(&mut pos);
                self.cursor_position = pos;
                VimAction::Redraw(self.resolve_displacement(buffer) > 0)
            },
            VimModeCommands::ComplexCommand(q) => VimAction::Pending(q),
            VimModeCommands::Highlight => VimAction::EnterHighlight,
            VimModeCommands::Paste => VimAction::Paste,
            VimModeCommands::NoAction => VimAction::ShowHelp,
            VimModeCommands::Resize(new_size) => {
                self.resize(new_size);
                VimAction::Redraw(true)
            },
            VimModeCommands::Exit => VimAction::Exit,
        }
    }

    /// Completes `gg` or `GG` with its second key: the first or last line;
    /// any other key makes the command invalid.
    pub fn complete_page(&mut self, command: QueueInitCommand, key: Key, buffer: &Buffer) -> (r: bool)
        requires
            buffer.holds(old(self).cursor_position),
            command == QueueInitCommand::PageUp || command == QueueInitCommand::PageDown,
        ensures
            buffer.holds(final(self).cursor_position),
            r == (if command == QueueInitCommand::PageUp {
                key == Key::Char('g')
            } else {
                key == Key::Char('G')
            }),
            r ==> final(self).cursor_position === moved(
                if command == QueueInitCommand::PageUp {
                    Direction::PageUp
                } else {
                    Direction::PageDown
                },
                old(self).cursor_position,
                buffer.text@,
            ),
            !r ==> final(self).cursor_position == old(self).cursor_position,
    {
        if command == QueueInitCommand::PageUp {
            if key == Key::Char('g') {
                self.move_and_resolve(Direction::PageUp, buffer);
                return true;
            }
            false
        } else {
            if key == Key::Char('G') {
                self.move_and_resolve(Direction::PageDown, buffer);
                return true;
            }
            false
        }
    }

    /// Completes `d` with its text object: `w` up to the next word's start,
    /// `b` back to the current word's start, `e` to the current word's end
    /// (each on the cursor's line only), `d` the whole line. Any other key
    /// makes the command invalid.
    pub fn complete_delete(&mut self, key: Key, buffer: &mut Buffer) -> (r: bool)
        requires
            old(buffer).wf(),
            old(buffer).holds(old(self).cursor_position),
        ensures
            final(buffer).wf(),
            final(buffer).holds(final(self).cursor_position),
            final(buffer).filename == old(buffer).filename,
            r == (key == Key::Char('w') || key == Key::Char('b') || key == Key::Char('e') || key == Key::Char('d')),
            !r ==> *final(buffer) == *old(buffer) && final(self).cursor_position == old(self).cursor_position,
            key == Key::Char('d') && old(buffer).text@.len() > 0 ==> final(buffer).text@ == old(buffer).text@.remove(
                old(self).cursor_position.height as int,
            ),
            ({
                let t = old(buffer).text@;
                let p = old(self).cursor_position;
                let h = p.height as int;
                let tgt = if key == Key::Char('w') {
                    next_word_start_target(t, p)
                } else if key == Key::Char('e') {
                    word_end_target(t, p)
                } else {
                    word_start_target(t, p)
                };
                t.len() > 0 && (key == Key::Char('w') || key == Key::Char('e') || key == Key::Char('b'))
                    ==> if tgt.0 == h {
                    &&& final(buffer).text@.len() == t.len()
                    &&& forall|i: int| 0 <= i < t.len() && i != h ==> #[trigger] final(buffer).text@[i] == t[i]
                    &&& final(buffer).text@[h]@ == if key == Key::Char('b') {
                        keep_outside(t[h]@, tgt.1, p.width as int)
                    } else {
                        keep_outside(t[h]@, p.width as int, tgt.1)
                    }
                    &&& final(self).cursor_position.height == p.height
                    &&& final(self).cursor_position.width == if key == Key::Char('b') {
                        tgt.1
                    } else {
                        p.width as int
                    }
                } else {
                    *final(buffer) == *old(buffer) && final(self).cursor_position == p
                }
            }),
            ({
                let p = old(self).cursor_position;
                let n = old(buffer).text@.len() - 1;
                key == Key::Char('d') && old(buffer).text@.len() > 0 ==> if n == 0 {
                    final(self).cursor_position == (Position { width: 0, height: 0, max_width: 0 })
                } else {
                    &&& final(self).cursor_position.height == if p.height < n {
                        p.height as int
                    } else {
                        n - 1
                    }
                    &&& final(self).cursor_position.width == p.width
                }
            }),
    {
        if buffer.is_empty() {
            return key == Key::Char('w') || key == Key::Char('b') || key == Key::Char('e') || key == Key::Char('d');
        }
        let cur = self.cursor_position;
        match key {
            Key::Char('w') | Key::Char('e') => {
                let mut right = cur;
                if key == Key::Char('w') {
                    buffer.begining_of_next_word(&mut right);
                } else {
                    buffer.end_of_current_word(&mut right);
                }
                if right.height == cur.height {
                    buffer.delete_segment(&cur, &mut right);
                }
                true
            },
            Key::Char('b') => {
                let mut left = cur;
                buffer.begining_of_current_word(&mut left);
                if left.height == cur.height {
                    let mut right = cur;
                    buffer.delete_segment(&left, &mut right);
                    self.cursor_position = Position {
                        height: cur.height,
                        width: left.width,
                        max_width: left.width,
                    };
                }
                true
            },
            Key::Char('d') => {
                buffer.pop_line(cur.height);
                let len = buffer.len();
                if len == 0 {
                    self.cursor_position = Position { width: 0, height: 0, max_width: 0 };
                } else if cur.height >= len {
                    self.cursor_position.height = len - 1;
                }
                true
            },
            _ => false,
        }
    }

    /// Completes `y` with its text object (`w`, `b`, `e` as for `d`, `y` the
    /// whole line): the text to copy. Any other key makes the command
    /// invalid.
    pub fn complete_yank(&self, key: Key, buffer: &Buffer) -> (r: PendingOutcome)
        requires
            buffer.holds(self.cursor_position),
        ensures
            (r is Invalid) == !(key == Key::Char('w') || key == Key::Char('b') || key == Key::Char('e') || key
                == Key::Char('y')),
            key == Key::Char('y') && buffer.text@.len() > 0 ==> (r matches PendingOutcome::Yanked(s) && s@
                == buffer.text@[self.cursor_position.height as int].raw_string@),
            ({
                let t = buffer.text@;
                let p = self.cursor_position;
                let tgt = if key == Key::Char('w') {
                    next_word_start_target(t, p)
                } else if key == Key::Char('e') {
                    word_end_target(t, p)
                } else {
                    word_start_target(t, p)
                };
                let q = Position { height: tgt.0 as usize, width: tgt.1 as usize, max_width: tgt.1 as usize };
                t.len() > 0 && (key == Key::Char('w') || key == Key::Char('e') || key == Key::Char('b'))
                    ==> (r matches PendingOutcome::Yanked(s) && s@ == if key == Key::Char('b') {
                    segment(t, q, p)
                } else {
                    segment(t, p, q)
                })
            }),
    {
        let valid = key == Key::Char('w') || key == Key::Char('b') || key == Key::Char('e') || key == Key::Char('y');
        if !valid {
            return PendingOutcome::Invalid;
        }
        if buffer.is_empty() {
            return PendingOutcome::Done;
        }
        let cur = self.cursor_position;
        let text = match key {
            Key::Char('w') => {
                let mut right = cur;
                buffer.begining_of_next_word(&mut right);
                buffer.get_segment(&cur, &right)
            },
            Key::Char('b') => {
                let mut left = cur;
                buffer.begining_of_current_word(&mut left);
                buffer.get_segment(&left, &cur)
            },
            Key::Char('e') => {
                let mut right = cur;
                buffer.end_of_current_word(&mut right);
                buffer.get_segment(&cur, &right)
            },
            _ => buffer.text[cur.height].raw_string.clone(),
        };
        PendingOutcome::Yanked(text)
    }

    /// The tokens of a colon command (see `colon_tokens`).
    pub fn map_string_to_queue_vec(string_queue: &Vec<char>) -> (r: Option<Vec<ColonQueueActions>>)
        ensures
            match r {
                Some(v) => colon_tokens(string_queue@) == Some(v@),
                None => colon_tokens(string_queue@) is None,
            },
    {
        let n = string_queue.len();
        let mut all_digits = n > 0;
        let mut value: usize = 0;
        let mut fits = true;
        let mut i: usize = 0;
        while i < n
            invariant
                i <= n == string_queue@.len(),
                all_digits == (n > 0 && forall|k: int| 0 <= k < i ==> is_digit(#[trigger] string_queue@[k])),
                all_digits && fits ==> value == digits_value(string_queue@.subrange(0, i as int)),
                all_digits && !fits ==> digits_value(string_queue@.subrange(0, i as int)) > usize::MAX,
            decreases n - i,
        {
            let c = string_queue[i];
            proof {
                let pre = string_queue@.subrange(0, i + 1);
                assert(pre.drop_last() =~= string_queue@.subrange(0, i as int));
                assert(pre.last() == c);
            }
            if '0' <= c && c <= '9' {
                let d = (c as u32 - '0' as u32) as usize;
                if all_digits && fits {
                    if value <= (usize::MAX - d) / 10 {
                        proof {
                            assert(value * 10 + d <= usize::MAX) by (nonlinear_arith)
                                requires
                                    value <= (usize::MAX - d) / 10,
                                    d <= 9,
                            ;
                        }
                        value = value * 10 + d;
                    } else {
                        proof {
                            assert(value * 10 + d > usize::MAX) by (nonlinear_arith)
                                requires
                                    value > (usize::MAX - d) / 10,
                                    d <= 9,
                            ;
                        }
                        fits = false;
                    }
                } else if all_digits {
                    proof {
                        let pre = string_queue@.subrange(0, i as int);
                        assert(digits_value(pre) * 10 + d > usize::MAX) by (nonlinear_arith)
                            requires
                                digits_value(pre) > usize::MAX,
                                d <= 9,
                        ;
                    }
                }
            } else {
                all_digits = false;
            }
            i = i + 1;
        }
        assert(string_queue@.subrange(0, n as int) =~= string_queue@);
        if all_digits && fits {
            let mut one: Vec<ColonQueueActions> = Vec::new();
            one.push(ColonQueueActions::Jump(value));
            assert(one@ =~= seq![ColonQueueActions::Jump(value)]);
            return Some(one);
        }
        let ghost s = string_queue@;
        assert(!(s.len() > 0 && (forall|k: int| 0 <= k < s.len() ==> is_digit(#[trigger] s[k]))
            && digits_value(s) <= usize::MAX));
        let mut res: Vec<ColonQueueActions> = Vec::new();
        let mut j: usize = 0;
        while j < n
            invariant
                j <= n == string_queue@.len(),
                s == string_queue@,
                !(s.len() > 0 && (forall|k: int| 0 <= k < s.len() ==> is_digit(#[trigger] s[k]))
                    && digits_value(s) <= usize::MAX),
                res@.len() == j,
                forall|k: int| 0 <= k < j ==> (string_queue@[k] == 'w' || string_queue@[k] == 'q' || string_queue@[k] == '!'),
                forall|k: int|
                    0 <= k < j ==> #[trigger] res@[k] == (if string_queue@[k] == 'w' {
                        ColonQueueActions::Write
                    } else if string_queue@[k] == 'q' {
                        ColonQueueActions::Quit
                    } else {
                        ColonQueueActions::Override
                    }),
            decreases n - j,
        {
            match ColonQueueActions::from_char(string_queue[j]) {
                Some(a) => res.push(a),
                None => {
                    assert(!(s[j as int] == 'w' || s[j as int] == 'q' || s[j as int] == '!'));
                    return None;
                },
            }
            j = j + 1;
        }
        proof {
            let f = |c: char|
                if c == 'w' {
                    ColonQueueActions::Write
                } else if c == 'q' {
                    ColonQueueActions::Quit
                } else {
                    ColonQueueActions::Override
                };
            assert(res@ =~= string_queue@.map_values(f));
        }
        Some(res)
    }

    /// What the tokens of a colon command do.
    pub fn eval_colon_queue(queue: &Vec<ColonQueueActions>, buffer: &Buffer) -> (r: ColonOutcome)
        ensures
            r == colon_outcome(queue@, buffer.is_saved),
    {
        if queue.len() == 1 {
            return match queue[0] {
                ColonQueueActions::Write => ColonOutcome::Save,
                ColonQueueActions::Quit => if buffer.is_saved {
                    ColonOutcome::Exit
                } else {
                    ColonOutcome::NotSaved
                },
                ColonQueueActions::Override => ColonOutcome::Invalid,
                ColonQueueActions::Jump(l) => ColonOutcome::Jump(l),
            };
        }
        if queue.len() == 2 {
            if queue[0] == ColonQueueActions::Write && queue[1] == ColonQueueActions::Quit {
                return ColonOutcome::SaveAndExit;
            }
            if queue[0] == ColonQueueActions::Quit && queue[1] == ColonQueueActions::Override {
                return ColonOutcome::Exit;
            }
        }
        ColonOutcome::Invalid
    }

    /// Parses and evaluates a colon command line.
    pub fn run_colon(string_queue: &Vec<char>, buffer: &Buffer) -> (r: ColonOutcome)
        ensures
            r == match colon_tokens(string_queue@) {
                Some(q) => colon_outcome(q, buffer.is_saved),
                None => ColonOutcome::Invalid,
            },
    {
        match Self::map_string_to_queue_vec(string_queue) {
            Some(q) => Self::eval_colon_queue(&q, buffer),
            None => ColonOutcome::Invalid,
        }
    }
}

/// Edits the colon command line with one key: characters are appended,
/// backspace removes the last one (or leaves the line when it is empty),
/// Enter submits it.
pub fn colon_step(queue: &mut Vec<char>, key: VimColonQueue) -> (r: ColonEntry)
    ensures
        match key {
            VimColonQueue::New(c) => final(queue)@ == old(queue)@.push(c) && r == ColonEntry::Editing,
            VimColonQueue::Backspace => if old(queue)@.len() == 0 {
                final(queue)@ == old(queue)@ && r == ColonEntry::Leave
            } else {
                final(queue)@ == old(queue)@.drop_last() && r == ColonEntry::Editing
            },
            VimColonQueue::Execute => final(queue)@ == old(queue)@ && r == ColonEntry::Submit,
            _ => final(queue)@ == old(queue)@ && r == ColonEntry::Editing,
        },
{
    match key {
        VimColonQueue::New(c) => {
            queue.push(c);
            ColonEntry::Editing
        },
        VimColonQueue::Backspace => {
            if queue.len() == 0 {
                return ColonEntry::Leave;
            }
            queue.pop();
            ColonEntry::Editing
        },
        VimColonQueue::Execute => ColonEntry::Submit,
        _ => ColonEntry::Editing,
    }
}

} // verus!
