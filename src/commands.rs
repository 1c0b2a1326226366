//! Cursor motions shared by every mode, and the commands that key events
//! become in each mode.
use crate::buffer::{line_cols, Buffer};
use crate::line::Line;
use crate::position::{Coordinate, Position, Size};
use vstd::prelude::*;

verus! {

#[derive(Copy, Clone, Debug, PartialEq, Eq, Structural)]
pub enum Direction {
    Up,
    Down,
    Left,
    Right,
    PageUp,
    PageDown,
    End,
    Home,
}

/// The cursor after a motion in `dir` over the lines `t`.
pub open spec fn moved(dir: Direction, p: Position, t: Seq<Line>) -> Position {
    if t.len() == 0 {
        Position { width: 0, height: 0, max_width: 0 }
    } else {
        let last = (t.len() - 1) as usize;
        match dir {
            Direction::Down => {
                let h = if p.height < last {
                    (p.height + 1) as usize
                } else {
                    last
                };
                let cols = line_cols(t, h as int);
                Position {
                    height: h,
                    width: if p.max_width < cols {
                        p.max_width
                    } else {
                        cols
                    },
                    max_width: p.max_width,
                }
            },
            Direction::Up => {
                let h = p.height.saturating_sub(1);
                let cols = line_cols(t, h as int);
                Position {
                    height: h,
                    width: if p.max_width < cols {
                        p.max_width
                    } else {
                        cols
                    },
                    max_width: p.max_width,
                }
            },
            Direction::Left => if p.width == 0 && p.height != 0 {
                let cols = line_cols(t, p.height - 1);
                Position { height: (p.height - 1) as usize, width: cols, max_width: cols }
            } else {
                let w = p.width.saturating_sub(1);
                Position { height: p.height, width: w, max_width: w }
            },
            Direction::Right => {
                let cols = line_cols(t, p.height as int);
                if p.width == cols && p.height != last {
                    Position { height: (p.height + 1) as usize, width: 0, max_width: 0 }
                } else {
                    let w = if p.width.saturating_add(1) < cols {
                        p.width.saturating_add(1)
                    } else {
                        cols
                    };
                    Position { height: p.height, width: w, max_width: w }
                }
            },
            Direction::PageDown => Position { height: last, ..p },
            Direction::PageUp => Position { height: 0, ..p },
            Direction::End => {
                let cols = line_cols(t, p.height as int);
                Position { width: cols, max_width: cols, ..p }
            },
            Direction::Home => Position { width: 0, max_width: 0, ..p },
        }
    }
}

impl Direction {
    /// Moves the cursor one step in this direction: up and down keep the
    /// remembered column where the new line is long enough; left at a line's
    /// start and right at its end wrap onto the neighbouring line; page moves
    /// go to the first or last line; home and end to the line's edges. In an
    /// empty buffer the cursor goes to the origin.
    pub fn move_cursor(&self, cursor_position: &mut Position, buffer: &Buffer)
        requires
            buffer.holds(*old(cursor_position)),
        ensures
            *final(cursor_position) === moved(*self, *old(cursor_position), buffer.text@),
    {
        if buffer.is_empty() {
            *cursor_position = Position { width: 0, height: 0, max_width: 0 };
            return;
        }
        let last = buffer.len() - 1;
        match *self {
            Direction::Down => {
                cursor_position.down(1, last);
                cursor_position.resolve_width(buffer.text[cursor_position.height].grapheme_len());
            },
            Direction::Up => {
                cursor_position.up(1);
                cursor_position.resolve_width(buffer.text[cursor_position.height].grapheme_len());
            },
            Direction::Left => {
                if cursor_position.at_left_edge() && !cursor_position.at_top() {
                    cursor_position.up(1);
                    let cols = buffer.text[cursor_position.height].grapheme_len();
                    cursor_position.width = cols;
                    cursor_position.max_width = cols;
                } else {
                    cursor_position.left(1);
                }
            },
            Direction::Right => {
                let cols = buffer.text[cursor_position.height].grapheme_len();
                if cursor_position.at_max_width(cols) && !cursor_position.at_max_height(last) {
                    cursor_position.down(1, last);
                    cursor_position.width = 0;
                    cursor_position.max_width = 0;
                } else {
                    cursor_position.right(1, cols);
                }
            },
            Direction::PageDown => {
                cursor_position.height = last;
            },
            Direction::PageUp => {
                cursor_position.height = 0;
            },
            Direction::End => {
                let cols = buffer.text[cursor_position.height].grapheme_len();
                cursor_position.width = cols;
                cursor_position.max_width = cols;
            },
            Direction::Home => {
                cursor_position.width = 0;
                cursor_position.max_width = 0;
            },
        }
    }
}

/// After a move up or down the cursor's column lies within the new line.
pub proof fn lemma_vertical_move_within_line(dir: Direction, p: Position, t: Seq<Line>)
    requires
        dir == Direction::Up || dir == Direction::Down,
        t.len() > 0,
        p.height < t.len(),
    ensures
        moved(dir, p, t).height < t.len(),
        moved(dir, p, t).width <= line_cols(t, moved(dir, p, t).height as int),
{
}


/// A key as the editor distinguishes it.
#[derive(Copy, Clone, Debug, PartialEq, Eq, Structural)]
pub enum Key {
    Char(char),
    Up,
    Down,
    Left,
    Right,
    Backspace,
    Enter,
    Tab,
    Esc,
    Other,
}

/// The modifier keys held with a key: none, exactly control, exactly shift,
/// or any other combination.
#[derive(Copy, Clone, Debug, PartialEq, Eq, Structural)]
pub enum Modifiers {
    Plain,
    Control,
    Shift,
    Other,
}

#[derive(Copy, Clone, Debug, PartialEq, Eq, Structural)]
pub struct KeyPress {
    pub code: Key,
    pub modifiers: Modifiers,
}

/// An input event: a key press, a new terminal size (columns, rows), or
/// anything else.
#[derive(Copy, Clone, Debug, PartialEq, Eq, Structural)]
pub enum InputEvent {
    Key(KeyPress),
    Resize(u16, u16),
    Other,
}

pub open spec fn size_of(width: u16, height: u16) -> Size {
    Size { height: height as usize, width: width as usize }
}

fn resize(width: u16, height: u16) -> (r: Size)
    ensures
        r == size_of(width, height),
{
    Size { height: height as usize, width: width as usize }
}

#[derive(Copy, Clone, Debug, PartialEq, Eq, Structural)]
pub enum EditorCommand {
    Move(Direction),
    Insert(char),
    Resize(Size),
    JumpWord(Direction),
    JumpLine,
    Highlight,
    Paste,
    Tab,
    NewLine,
    Save,
    Theme,
    Delete,
    VimMode,
    Search,
    Help,
    NoAction,
    Quit,
}

/// The Insert-mode command of a key with control held.
pub open spec fn control_command(c: char) -> Option<EditorCommand> {
    if c == 'q' {
        Some(EditorCommand::Quit)
    } else if c == 'j' {
        Some(EditorCommand::JumpLine)
    } else if c == 'l' {
        Some(EditorCommand::Move(Direction::Home))
    } else if c == 'u' {
        Some(EditorCommand::Move(Direction::PageUp))
    } else if c == 'd' {
        Some(EditorCommand::Move(Direction::PageDown))
    } else if c == 'r' {
        Some(EditorCommand::Move(Direction::End))
    } else if c == 'w' {
        Some(EditorCommand::Save)
    } else if c == 'h' {
        Some(EditorCommand::Help)
    } else if c == 'f' {
        Some(EditorCommand::Search)
    } else if c == 't' {
        Some(EditorCommand::Theme)
    } else if c == 'v' {
        Some(EditorCommand::Paste)
    } else if c == 'c' {
        Some(EditorCommand::Highlight)
    } else if c == 'n' {
        Some(EditorCommand::VimMode)
    } else {
        None
    }
}

/// The Insert-mode command of a key press.
pub open spec fn editor_command_of(k: KeyPress) -> EditorCommand {
    match (k.code, k.modifiers) {
        (Key::Char(c), Modifiers::Control) if control_command(c) is Some => control_command(c)->0,
        (Key::Left, Modifiers::Shift) => EditorCommand::JumpWord(Direction::Left),
        (Key::Right, Modifiers::Shift) => EditorCommand::JumpWord(Direction::Right),
        (Key::Up, _) => EditorCommand::Move(Direction::Up),
        (Key::Down, _) => EditorCommand::Move(Direction::Down),
        (Key::Left, _) => EditorCommand::Move(Direction::Left),
        (Key::Right, _) => EditorCommand::Move(Direction::Right),
        (Key::Char(c), _) => EditorCommand::Insert(c),
        (Key::Backspace, _) => EditorCommand::Delete,
        (Key::Enter, _) => EditorCommand::NewLine,
        (Key::Tab, _) => EditorCommand::Tab,
        _ => EditorCommand::NoAction,
    }
}

impl EditorCommand {
    /// The Insert-mode command of an event; `None` for an event the editor
    /// does not handle.
    pub fn from_event(event: InputEvent) -> (r: Option<EditorCommand>)
        ensures
            r == match event {
                InputEvent::Key(k) => Some(editor_command_of(k)),
                InputEvent::Resize(w, h) => Some(EditorCommand::Resize(size_of(w, h))),
                InputEvent::Other => None,
            },
    {
        match event {
            InputEvent::Key(k) => {
                if let (Key::Char(c), Modifiers::Control) = (k.code, k.modifiers) {
                    let found = if c == 'q' {
                        Some(EditorCommand::Quit)
                    } else if c == 'j' {
                        Some(EditorCommand::JumpLine)
                    } else if c == 'l' {
                        Some(EditorCommand::Move(Direction::Home))
                    } else if c == 'u' {
                        Some(EditorCommand::Move(Direction::PageUp))
                    } else if c == 'd' {
                        Some(EditorCommand::Move(Direction::PageDown))
                    } else if c == 'r' {
                        Some(EditorCommand::Move(Direction::End))
                    } else if c == 'w' {
                        Some(EditorCommand::Save)
                    } else if c == 'h' {
                        Some(EditorCommand::Help)
                    } else if c == 'f' {
                        Some(EditorCommand::Search)
                    } else if c == 't' {
                        Some(EditorCommand::Theme)
                    } else if c == 'v' {
                        Some(EditorCommand::Paste)
                    } else if c == 'c' {
                        Some(EditorCommand::Highlight)
                    } else if c == 'n' {
                        Some(EditorCommand::VimMode)
                    } else {
                        None
                    };
                    if let Some(cmd) = found {
                        return Some(cmd);
                    }
                }
                let cmd = match (k.code, k.modifiers) {
                    (Key::Left, Modifiers::Shift) => EditorCommand::JumpWord(Direction::Left),
                    (Key::Right, Modifiers::Shift) => EditorCommand::JumpWord(Direction::Right),
                    (Key::Up, _) => EditorCommand::Move(Direction::Up),
                    (Key::Down, _) => EditorCommand::Move(Direction::Down),
                    (Key::Left, _) => EditorCommand::Move(Direction::Left),
                    (Key::Right, _) => EditorCommand::Move(Direction::Right),
                    (Key::Char(c), _) => EditorCommand::Insert(c),
                    (Key::Backspace, _) => EditorCommand::Delete,
                    (Key::Enter, _) => EditorCommand::NewLine,
                    (Key::Tab, _) => EditorCommand::Tab,
                    _ => EditorCommand::NoAction,
                };
                Some(cmd)
            },
            InputEvent::Resize(w, h) => Some(EditorCommand::Resize(resize(w, h))),
            InputEvent::Other => None,
        }
    }
}

#[derive(Copy, Clone, Debug, PartialEq, Eq, Structural)]
pub enum SearchCommand {
    Insert(char),
    Next,
    Previous,
    BackSpace,
    RevertState,
    AssumeState,
    Resize(Size),
    NoAction,
}

/// The Search-mode command of a key press.
pub open spec fn search_command_of(k: KeyPress) -> SearchCommand {
    match (k.code, k.modifiers) {
        (Key::Char('n'), Modifiers::Control) => SearchCommand::Next,
        (Key::Char('p'), Modifiers::Control) => SearchCommand::Previous,
        (_, Modifiers::Control) => SearchCommand::NoAction,
        (Key::Char(c), _) => SearchCommand::Insert(c),
        (Key::Enter, _) => SearchCommand::AssumeState,
        (Key::Esc, _) => SearchCommand::RevertState,
        (Key::Backspace, _) => SearchCommand::BackSpace,
        _ => SearchCommand::NoAction,
    }
}

impl SearchCommand {
    pub fn from_event(event: InputEvent) -> (r: Option<SearchCommand>)
        ensures
            r == match event {
                InputEvent::Key(k) => Some(search_command_of(k)),
                InputEvent::Resize(w, h) => Some(SearchCommand::Resize(size_of(w, h))),
                InputEvent::Other => None,
            },
    {
        match event {
            InputEvent::Key(k) => Some(
                match (k.code, k.modifiers) {
                    (Key::Char('n'), Modifiers::Control) => SearchCommand::Next,
                    (Key::Char('p'), Modifiers::Control) => SearchCommand::Previous,
                    (_, Modifiers::Control) => SearchCommand::NoAction,
                    (Key::Char(c), _) => SearchCommand::Insert(c),
                    (Key::Enter, _) => SearchCommand::AssumeState,
                    (Key::Esc, _) => SearchCommand::RevertState,
                    (Key::Backspace, _) => SearchCommand::BackSpace,
                    _ => SearchCommand::NoAction,
                },
            ),
            InputEvent::Resize(w, h) => Some(SearchCommand::Resize(resize(w, h))),
            InputEvent::Other => None,
        }
    }
}


#[derive(Copy, Clone, Debug, PartialEq, Eq, Structural)]
pub enum HighlightCommand {
    RevertState,
    Copy,
    Resize(Size),
    Move(Direction),
    NoAction,
    Delete,
}

/// The Highlight-mode command of a key press in Insert mode's selection.
pub open spec fn highlight_command_of(k: KeyPress) -> HighlightCommand {
    match (k.code, k.modifiers) {
        (Key::Char('c'), Modifiers::Control) => HighlightCommand::Copy,
        (_, Modifiers::Control) => HighlightCommand::NoAction,
        (Key::Up, _) | (Key::Char('k'), _) => HighlightCommand::Move(Direction::Up),
        (Key::Down, _) | (Key::Char('j'), _) => HighlightCommand::Move(Direction::Down),
        (Key::Right, _) | (Key::Char('l'), _) => HighlightCommand::Move(Direction::Right),
        (Key::Left, _) | (Key::Char('h'), _) => HighlightCommand::Move(Direction::Left),
        (Key::Esc, _) => HighlightCommand::RevertState,
        (Key::Backspace, _) => HighlightCommand::Delete,
        _ => HighlightCommand::NoAction,
    }
}

impl HighlightCommand {
    pub fn from_event(event: InputEvent) -> (r: Option<HighlightCommand>)
        ensures
            r == match event {
                InputEvent::Key(k) => Some(highlight_command_of(k)),
                InputEvent::Resize(w, h) => Some(HighlightCommand::Resize(size_of(w, h))),
                InputEvent::Other => None,
            },
    {
        match event {
            InputEvent::Key(k) => Some(
                match (k.code, k.modifiers) {
                    (Key::Char('c'), Modifiers::Control) => HighlightCommand::Copy,
                    (_, Modifiers::Control) => HighlightCommand::NoAction,
                    (Key::Up, _) | (Key::Char('k'), _) => HighlightCommand::Move(Direction::Up),
                    (Key::Down, _) | (Key::Char('j'), _) => HighlightCommand::Move(Direction::Down),
                    (Key::Right, _) | (Key::Char('l'), _) => HighlightCommand::Move(Direction::Right),
                    (Key::Left, _) | (Key::Char('h'), _) => HighlightCommand::Move(Direction::Left),
                    (Key::Esc, _) => HighlightCommand::RevertState,
                    (Key::Backspace, _) => HighlightCommand::Delete,
                    _ => HighlightCommand::NoAction,
                },
            ),
            InputEvent::Resize(w, h) => Some(HighlightCommand::Resize(resize(w, h))),
            InputEvent::Other => None,
        }
    }

    /// The same command given in Vim mode's selection.
    pub fn from_vim(v: VimHighlightCommand) -> (r: HighlightCommand)
        ensures
            r == match v {
                VimHighlightCommand::Move(d) => HighlightCommand::Move(d),
                VimHighlightCommand::Copy => HighlightCommand::Copy,
                VimHighlightCommand::Resize(s) => HighlightCommand::Resize(s),
                VimHighlightCommand::RevertState => HighlightCommand::RevertState,
                VimHighlightCommand::NoAction => HighlightCommand::NoAction,
                VimHighlightCommand::Delete => HighlightCommand::Delete,
            },
    {
        match v {
            VimHighlightCommand::Move(d) => HighlightCommand::Move(d),
            VimHighlightCommand::Copy => HighlightCommand::Copy,
            VimHighlightCommand::Resize(s) => HighlightCommand::Resize(s),
            VimHighlightCommand::RevertState => HighlightCommand::RevertState,
            VimHighlightCommand::NoAction => HighlightCommand::NoAction,
            VimHighlightCommand::Delete => HighlightCommand::Delete,
        }
    }
}

#[derive(Copy, Clone, Debug, PartialEq, Eq, Structural)]
pub enum VimHighlightCommand {
    RevertState,
    Copy,
    Resize(Size),
    Move(Direction),
    NoAction,
    Delete,
}

/// The selection command of a key in Vim mode (modifiers play no part).
pub open spec fn vim_highlight_command_of(k: Key) -> VimHighlightCommand {
    match k {
        Key::Char('y') => VimHighlightCommand::Copy,
        Key::Char('k') => VimHighlightCommand::Move(Direction::Up),
        Key::Char('j') => VimHighlightCommand::Move(Direction::Down),
        Key::Char('l') => VimHighlightCommand::Move(Direction::Right),
        Key::Char('h') => VimHighlightCommand::Move(Direction::Left),
        Key::Char('$') => VimHighlightCommand::Move(Direction::End),
        Key::Char('0') => VimHighlightCommand::Move(Direction::Home),
        Key::Char('d') => VimHighlightCommand::Delete,
        Key::Esc => VimHighlightCommand::RevertState,
        _ => VimHighlightCommand::NoAction,
    }
}

impl VimHighlightCommand {
    pub fn from_event(event: InputEvent) -> (r: Option<VimHighlightCommand>)
        ensures
            r == match event {
                InputEvent::Key(k) => Some(vim_highlight_command_of(k.code)),
                InputEvent::Resize(w, h) => Some(VimHighlightCommand::Resize(size_of(w, h))),
                InputEvent::Other => None,
            },
    {
        match event {
            InputEvent::Key(k) => Some(
                match k.code {
                    Key::Char('y') => VimHighlightCommand::Copy,
                    Key::Char('k') => VimHighlightCommand::Move(Direction::Up),
                    Key::Char('j') => VimHighlightCommand::Move(Direction::Down),
                    Key::Char('l') => VimHighlightCommand::Move(Direction::Right),
                    Key::Char('h') => VimHighlightCommand::Move(Direction::Left),
                    Key::Char('$') => VimHighlightCommand::Move(Direction::End),
                    Key::Char('0') => VimHighlightCommand::Move(Direction::Home),
                    Key::Char('d') => VimHighlightCommand::Delete,
                    Key::Esc => VimHighlightCommand::RevertState,
                    _ => VimHighlightCommand::NoAction,
                },
            ),
            InputEvent::Resize(w, h) => Some(VimHighlightCommand::Resize(resize(w, h))),
            InputEvent::Other => None,
        }
    }
}

#[derive(Copy, Clone, Debug, PartialEq, Eq, Structural)]
pub enum FileNameCommand {
    Insert(char),
    BackSpace,
    SaveFileName,
    Quit,
    NoAction,
}

impl FileNameCommand {
    pub fn from_event(event: InputEvent) -> (r: FileNameCommand)
        ensures
            r == match event {
                InputEvent::Key(k) => match k.code {
                    Key::Char(c) => FileNameCommand::Insert(c),
                    Key::Backspace => FileNameCommand::BackSpace,
                    Key::Enter => FileNameCommand::SaveFileName,
                    Key::Esc => FileNameCommand::Quit,
                    _ => FileNameCommand::NoAction,
                },
                _ => FileNameCommand::NoAction,
            },
    {
        match event {
            InputEvent::Key(k) => match k.code {
                Key::Char(c) => FileNameCommand::Insert(c),
                Key::Backspace => FileNameCommand::BackSpace,
                Key::Enter => FileNameCommand::SaveFileName,
                Key::Esc => FileNameCommand::Quit,
                _ => FileNameCommand::NoAction,
            },
            _ => FileNameCommand::NoAction,
        }
    }
}

/// The first key of a Vim command that waits for more input.
#[derive(Copy, Clone, Debug, PartialEq, Eq, Structural)]
pub enum QueueInitCommand {
    PageUp,
    PageDown,
    Colon,
    Delete,
    Yank,
}

#[derive(Copy, Clone, Debug, PartialEq, Eq, Structural)]
pub enum VimModeCommands {
    Move(Direction),
    StartOfNextWord,
    EndOfCurrentWord,
    BeginingOfCurrentWord,
    Highlight,
    Paste,
    NoAction,
    Resize(Size),
    ComplexCommand(QueueInitCommand),
    Exit,
}

/// The Vim-mode command of a key (modifiers play no part).
pub open spec fn vim_command_of(k: Key) -> VimModeCommands {
    match k {
        Key::Char('h') => VimModeCommands::Move(Direction::Left),
        Key::Char('k') => VimModeCommands::Move(Direction::Up),
        Key::Char('j') => VimModeCommands::Move(Direction::Down),
        Key::Char('l') => VimModeCommands::Move(Direction::Right),
        Key::Char('0') => VimModeCommands::Move(Direction::Home),
        Key::Char('$') => VimModeCommands::Move(Direction::End),
        Key::Char('b') => VimModeCommands::BeginingOfCurrentWord,
        Key::Char('e') => VimModeCommands::EndOfCurrentWord,
        Key::Char('w') => VimModeCommands::StartOfNextWord,
        Key::Char('g') => VimModeCommands::ComplexCommand(QueueInitCommand::PageUp),
        Key::Char('G') => VimModeCommands::ComplexCommand(QueueInitCommand::PageDown),
        Key::Char(':') => VimModeCommands::ComplexCommand(QueueInitCommand::Colon),
        Key::Char('d') => VimModeCommands::ComplexCommand(QueueInitCommand::Delete),
        Key::Char('y') => VimModeCommands::ComplexCommand(QueueInitCommand::Yank),
        Key::Char('p') => VimModeCommands::Paste,
        Key::Char('v') => VimModeCommands::Highlight,
        Key::Esc => VimModeCommands::Exit,
        _ => VimModeCommands::NoAction,
    }
}

impl VimModeCommands {
    pub fn from_event(event: InputEvent) -> (r: VimModeCommands)
        ensures
            r == match event {
                InputEvent::Key(k) => vim_command_of(k.code),
                InputEvent::Resize(w, h) => VimModeCommands::Resize(size_of(w, h)),
                InputEvent::Other => VimModeCommands::NoAction,
            },
    {
        match event {
            InputEvent::Key(k) => match k.code {
                Key::Char('h') => VimModeCommands::Move(Direction::Left),
                Key::Char('k') => VimModeCommands::Move(Direction::Up),
                Key::Char('j') => VimModeCommands::Move(Direction::Down),
                Key::Char('l') => VimModeCommands::Move(Direction::Right),
                Key::Char('0') => VimModeCommands::Move(Direction::Home),
                Key::Char('$') => VimModeCommands::Move(Direction::End),
                Key::Char('b') => VimModeCommands::BeginingOfCurrentWord,
                Key::Char('e') => VimModeCommands::EndOfCurrentWord,
                Key::Char('w') => VimModeCommands::StartOfNextWord,
                Key::Char('g') => VimModeCommands::ComplexCommand(QueueInitCommand::PageUp),
                Key::Char('G') => VimModeCommands::ComplexCommand(QueueInitCommand::PageDown),
                Key::Char(':') => VimModeCommands::ComplexCommand(QueueInitCommand::Colon),
                Key::Char('d') => VimModeCommands::ComplexCommand(QueueInitCommand::Delete),
                Key::Char('y') => VimModeCommands::ComplexCommand(QueueInitCommand::Yank),
                Key::Char('p') => VimModeCommands::Paste,
                Key::Char('v') => VimModeCommands::Highlight,
                Key::Esc => VimModeCommands::Exit,
                _ => VimModeCommands::NoAction,
            },
            InputEvent::Resize(w, h) => VimModeCommands::Resize(resize(w, h)),
            InputEvent::Other => VimModeCommands::NoAction,
        }
    }
}

/// A key typed on the colon command line.
#[derive(Copy, Clone, Debug, PartialEq, Eq, Structural)]
pub enum VimColonQueue {
    New(char),
    Other,
    Execute,
    Backspace,
    Resize(Size),
}

impl VimColonQueue {
    pub fn from_event(event: InputEvent) -> (r: VimColonQueue)
        ensures
            r == match event {
                InputEvent::Key(k) => match k.code {
                    Key::Backspace => VimColonQueue::Backspace,
                    Key::Enter => VimColonQueue::Execute,
                    Key::Char(c) => VimColonQueue::New(c),
                    _ => VimColonQueue::Other,
                },
                InputEvent::Resize(w, h) => VimColonQueue::Resize(size_of(w, h)),
                InputEvent::Other => VimColonQueue::Other,
            },
    {
        match event {
            InputEvent::Key(k) => match k.code {
                Key::Backspace => VimColonQueue::Backspace,
                Key::Enter => VimColonQueue::Execute,
                Key::Char(c) => VimColonQueue::New(c),
                _ => VimColonQueue::Other,
            },
            InputEvent::Resize(w, h) => VimColonQueue::Resize(resize(w, h)),
            InputEvent::Other => VimColonQueue::Other,
        }
    }
}

/// One token of a colon command: `w`, `q`, `!`, or a line to jump to.
#[derive(Copy, Clone, Debug, PartialEq, Eq, Structural)]
pub enum ColonQueueActions {
    Write,
    Quit,
    Override,
    Jump(usize),
}

impl ColonQueueActions {
    /// The token of one character of a colon command; `None` for any other.
    pub fn from_char(val: char) -> (r: Option<ColonQueueActions>)
        ensures
            r == if val == 'w' {
                Some(ColonQueueActions::Write)
            } else if val == 'q' {
                Some(ColonQueueActions::Quit)
            } else if val == '!' {
                Some(ColonQueueActions::Override)
            } else {
                None::<ColonQueueActions>
            },
    {
        if val == 'w' {
            Some(ColonQueueActions::Write)
        } else if val == 'q' {
            Some(ColonQueueActions::Quit)
        } else if val == '!' {
            Some(ColonQueueActions::Override)
        } else {
            None
        }
    }
}

/// A key typed while entering a line number to jump to.
#[derive(Copy, Clone, Debug, PartialEq, Eq, Structural)]
pub enum JumpCommand {
    Enter(usize),
    Delete,
    Move,
    Exit,
    NoAction,
}

impl JumpCommand {
    pub fn from_event(event: InputEvent) -> (r: JumpCommand)
        ensures
            r == match event {
                InputEvent::Key(k) => match k.code {
                    Key::Char(c) => if '0' <= c && c <= '9' {
                        JumpCommand::Enter((c as u32 - '0' as u32) as usize)
                    } else {
                        JumpCommand::NoAction
                    },
                    Key::Backspace => JumpCommand::Delete,
                    Key::Esc => JumpCommand::Exit,
                    Key::Enter => JumpCommand::Move,
                    _ => JumpCommand::NoAction,
                },
                _ => JumpCommand::NoAction,
            },
    {
        match event {
            InputEvent::Key(k) => match k.code {
                Key::Char(c) => if '0' <= c && c <= '9' {
                    JumpCommand::Enter((c as u32 - '0' as u32) as usize)
                } else {
                    JumpCommand::NoAction
                },
                Key::Backspace => JumpCommand::Delete,
                Key::Esc => JumpCommand::Exit,
                Key::Enter => JumpCommand::Move,
                _ => JumpCommand::NoAction,
            },
            _ => JumpCommand::NoAction,
        }
    }
}

#[derive(Copy, Clone, Debug, PartialEq, Eq, Structural)]
pub enum HelpCommand {
    Exit,
    NoAction,
    Resize(Size),
}

impl HelpCommand {
    pub fn from_event(event: InputEvent) -> (r: HelpCommand)
        ensures
            r == match event {
                InputEvent::Key(k) => match (k.code, k.modifiers) {
                    (Key::Char('h'), Modifiers::Control) | (Key::Esc, _) => HelpCommand::Exit,
                    _ => HelpCommand::NoAction,
                },
                InputEvent::Resize(w, h) => HelpCommand::Resize(size_of(w, h)),
                InputEvent::Other => HelpCommand::NoAction,
            },
    {
        match event {
            InputEvent::Key(k) => match (k.code, k.modifiers) {
                (Key::Char('h'), Modifiers::Control) | (Key::Esc, _) => HelpCommand::Exit,
                _ => HelpCommand::NoAction,
            },
            InputEvent::Resize(w, h) => HelpCommand::Resize(resize(w, h)),
            InputEvent::Other => HelpCommand::NoAction,
        }
    }
}

/// The selection command of an event in Insert mode's selection.
pub fn parse_highlight_normal_mode(event: InputEvent) -> (r: Option<HighlightCommand>)
    ensures
        r == match event {
            InputEvent::Key(k) => Some(highlight_command_of(k)),
            InputEvent::Resize(w, h) => Some(HighlightCommand::Resize(size_of(w, h))),
            InputEvent::Other => None,
        },
{
    HighlightCommand::from_event(event)
}

/// The selection command of an event in Vim mode's selection.
pub fn parse_highlight_vim_mode(event: InputEvent) -> (r: Option<HighlightCommand>)
    ensures
        r == match event {
            InputEvent::Key(k) => Some(
                match vim_highlight_command_of(k.code) {
                    VimHighlightCommand::Move(d) => HighlightCommand::Move(d),
                    VimHighlightCommand::Copy => HighlightCommand::Copy,
                    VimHighlightCommand::Resize(s) => HighlightCommand::Resize(s),
                    VimHighlightCommand::RevertState => HighlightCommand::RevertState,
                    VimHighlightCommand::NoAction => HighlightCommand::NoAction,
                    VimHighlightCommand::Delete => HighlightCommand::Delete,
                },
            ),
            InputEvent::Resize(w, h) => Some(HighlightCommand::Resize(size_of(w, h))),
            InputEvent::Other => None,
        },
{
    match VimHighlightCommand::from_event(event) {
        Some(v) => Some(HighlightCommand::from_vim(v)),
        None => None,
    }
}

} // verus!
