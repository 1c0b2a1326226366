use minivim::buffer::Buffer;
use minivim::commands::{
    ColonQueueActions, Direction, EditorCommand, HighlightCommand, InputEvent, JumpCommand, Key,
    KeyPress, Modifiers, QueueInitCommand, SearchCommand, VimColonQueue, VimModeCommands,
};
use minivim::highlight::{Highlight, HighlightOutcome};
use minivim::line::Line;
use minivim::position::{Mode, Position, ScreenOffset, Size};
use minivim::search::Search;
use minivim::view::{JumpStep, ScreenUpdateType, ViewAction, ViewState};
use minivim::vim::{colon_step, ColonEntry, ColonOutcome, PendingOutcome, VimAction, VimMode};

fn buffer_of(lines: &[&str]) -> Buffer {
    Buffer {
        text: lines.iter().map(|l| Line::from(l)).collect(),
        filename: None,
        is_saved: true,
    }
}

fn at(height: usize, width: usize) -> Position {
    Position { height, width, max_width: width }
}

fn key(code: Key, modifiers: Modifiers) -> InputEvent {
    InputEvent::Key(KeyPress { code, modifiers })
}

#[test]
fn insert_mode_key_table() {
    assert_eq!(
        EditorCommand::from_event(key(Key::Char('q'), Modifiers::Control)),
        Some(EditorCommand::Quit)
    );
    assert_eq!(
        EditorCommand::from_event(key(Key::Char('a'), Modifiers::Plain)),
        Some(EditorCommand::Insert('a'))
    );
    assert_eq!(
        EditorCommand::from_event(key(Key::Char('z'), Modifiers::Control)),
        Some(EditorCommand::Insert('z'))
    );
    assert_eq!(
        EditorCommand::from_event(key(Key::Left, Modifiers::Shift)),
        Some(EditorCommand::JumpWord(Direction::Left))
    );
    assert_eq!(
        EditorCommand::from_event(key(Key::Left, Modifiers::Plain)),
        Some(EditorCommand::Move(Direction::Left))
    );
    assert_eq!(
        EditorCommand::from_event(InputEvent::Resize(80, 24)),
        Some(EditorCommand::Resize(Size { height: 24, width: 80 }))
    );
    assert_eq!(EditorCommand::from_event(InputEvent::Other), None);
    assert_eq!(
        EditorCommand::from_event(key(Key::Esc, Modifiers::Plain)),
        Some(EditorCommand::NoAction)
    );
}

#[test]
fn vim_and_search_key_tables() {
    assert_eq!(
        VimModeCommands::from_event(key(Key::Char('g'), Modifiers::Plain)),
        VimModeCommands::ComplexCommand(QueueInitCommand::PageUp)
    );
    assert_eq!(
        VimModeCommands::from_event(key(Key::Char('0'), Modifiers::Plain)),
        VimModeCommands::Move(Direction::Home)
    );
    assert_eq!(
        SearchCommand::from_event(key(Key::Char('n'), Modifiers::Control)),
        Some(SearchCommand::Next)
    );
    assert_eq!(
        SearchCommand::from_event(key(Key::Char('x'), Modifiers::Control)),
        Some(SearchCommand::NoAction)
    );
    assert_eq!(
        JumpCommand::from_event(key(Key::Char('7'), Modifiers::Plain)),
        JumpCommand::Enter(7)
    );
    assert_eq!(
        JumpCommand::from_event(key(Key::Char('x'), Modifiers::Plain)),
        JumpCommand::NoAction
    );
}

#[test]
fn mode_names() {
    assert_eq!(Mode::Insert.to_string(), "Insert");
    assert_eq!(Mode::Highlight.to_string(), "Highlight");
}

#[test]
fn jump_entry_accumulates_digits() {
    assert_eq!(JumpCommand::Enter(5).apply(0), JumpStep::Continue(5));
    assert_eq!(JumpCommand::Enter(3).apply(12), JumpStep::Continue(123));
    assert_eq!(JumpCommand::Enter(0).apply(0), JumpStep::Continue(0));
    assert_eq!(JumpCommand::Enter(5).apply(0), JumpStep::Continue(5));
    assert_eq!(JumpCommand::Delete.apply(123), JumpStep::Continue(12));
    assert_eq!(JumpCommand::Delete.apply(7), JumpStep::Continue(0));
    assert_eq!(JumpCommand::Move.apply(4), JumpStep::Go(4));
    assert_eq!(JumpCommand::Exit.apply(4), JumpStep::Cancel);
}

#[test]
fn colon_commands() {
    assert_eq!(
        VimMode::map_string_to_queue_vec(&vec!['w', 'q']),
        Some(vec![ColonQueueActions::Write, ColonQueueActions::Quit])
    );
    assert_eq!(
        VimMode::map_string_to_queue_vec(&vec!['1', '2']),
        Some(vec![ColonQueueActions::Jump(12)])
    );
    assert_eq!(VimMode::map_string_to_queue_vec(&vec!['x']), None);
    let mut b = buffer_of(&["a"]);
    b.is_saved = false;
    assert_eq!(VimMode::run_colon(&vec!['q'], &b), ColonOutcome::NotSaved);
    assert_eq!(VimMode::run_colon(&vec!['q', '!'], &b), ColonOutcome::Exit);
    assert_eq!(VimMode::run_colon(&vec!['w', 'q'], &b), ColonOutcome::SaveAndExit);
    assert_eq!(VimMode::run_colon(&vec!['w'], &b), ColonOutcome::Save);
    assert_eq!(VimMode::run_colon(&vec!['!'], &b), ColonOutcome::Invalid);
    assert_eq!(VimMode::run_colon(&vec!['q', 'q', 'q'], &b), ColonOutcome::Invalid);
    b.is_saved = true;
    assert_eq!(VimMode::run_colon(&vec!['q'], &b), ColonOutcome::Exit);
}

#[test]
fn colon_line_editing() {
    let mut q = Vec::new();
    assert_eq!(colon_step(&mut q, VimColonQueue::New('w')), ColonEntry::Editing);
    assert_eq!(q, vec!['w']);
    assert_eq!(colon_step(&mut q, VimColonQueue::Backspace), ColonEntry::Editing);
    assert_eq!(colon_step(&mut q, VimColonQueue::Backspace), ColonEntry::Leave);
    assert_eq!(colon_step(&mut q, VimColonQueue::Execute), ColonEntry::Submit);
}

#[test]
fn vim_pending_commands() {
    let mut b = buffer_of(&["one two", "three", "four"]);
    let size = Size { height: 20, width: 40 };
    let mut vim = VimMode::new(at(1, 0), ScreenOffset::default(), size);
    assert!(vim.complete_page(QueueInitCommand::PageDown, Key::Char('G'), &b));
    assert_eq!(vim.cursor_position.height, 2);
    assert!(!vim.complete_page(QueueInitCommand::PageUp, Key::Char('x'), &b));
    assert_eq!(vim.cursor_position.height, 2);
    vim.cursor_position = at(0, 0);
    match vim.complete_yank(Key::Char('y'), &b) {
        PendingOutcome::Yanked(s) => assert_eq!(s, "one two"),
        _ => panic!("yy copies the line"),
    }
    assert!(matches!(vim.complete_yank(Key::Char('q'), &b), PendingOutcome::Invalid));
    assert!(vim.complete_delete(Key::Char('e'), &mut b));
    assert_eq!(b.text[0].raw_string, " two");
    vim.cursor_position = at(2, 0);
    assert!(vim.complete_delete(Key::Char('d'), &mut b));
    assert_eq!(b.len(), 2);
    assert_eq!(vim.cursor_position.height, 1);
}

#[test]
fn vim_motions_and_exit() {
    let b = buffer_of(&["alpha beta", "gamma"]);
    let mut vim = VimMode::new(at(0, 0), ScreenOffset::default(), Size { height: 20, width: 40 });
    assert_eq!(vim.process(VimModeCommands::StartOfNextWord, &b), VimAction::Redraw(false));
    assert_eq!(vim.cursor_position, at(0, 6));
    assert_eq!(vim.process(VimModeCommands::Move(Direction::Down), &b), VimAction::Redraw(false));
    assert_eq!(vim.cursor_position, at(1, 5));
    assert_eq!(vim.process(VimModeCommands::Exit, &b), VimAction::Exit);
    let mut pos = Position::default();
    let mut off = ScreenOffset { height: 3, width: 3 };
    let mut size = Size::default();
    vim.hand_back_state(&mut pos, &mut off, &mut size);
    assert_eq!(pos, at(1, 5));
    assert_eq!(off, ScreenOffset::default());
    assert_eq!(size, Size { height: 20, width: 40 });
}

#[test]
fn insert_mode_edits_and_render_kinds() {
    let mut view = ViewState::new(Buffer::default(), Size { height: 10, width: 20 });
    assert_eq!(
        view.handle_event(EditorCommand::Insert('h')),
        ViewAction::Render(ScreenUpdateType::SingleLineRender)
    );
    view.handle_event(EditorCommand::Insert('i'));
    assert_eq!(view.buffer.text[0].raw_string, "hi");
    assert_eq!(
        view.handle_event(EditorCommand::NewLine),
        ViewAction::Render(ScreenUpdateType::MultiLineRender)
    );
    assert_eq!(view.buffer.len(), 2);
    assert_eq!(view.cursor_position, at(1, 0));
    assert_eq!(
        view.handle_event(EditorCommand::Delete),
        ViewAction::Render(ScreenUpdateType::MultiLineRender)
    );
    assert_eq!(view.buffer.len(), 1);
    assert_eq!(view.cursor_position, at(0, 2));
    assert_eq!(view.handle_event(EditorCommand::Save), ViewAction::Save);
    assert!(view.needs_quit_confirmation());
}

#[test]
fn insert_mode_scrolls_when_the_cursor_leaves_the_view() {
    let lines: Vec<String> = (0..30).map(|i| format!("line {i}")).collect();
    let refs: Vec<&str> = lines.iter().map(|s| s.as_str()).collect();
    let mut view = ViewState::new(buffer_of(&refs), Size { height: 10, width: 20 });
    for _ in 0..7 {
        assert_eq!(
            view.handle_event(EditorCommand::Move(Direction::Down)),
            ViewAction::Render(ScreenUpdateType::DefaultAction)
        );
    }
    assert_eq!(
        view.handle_event(EditorCommand::Move(Direction::Down)),
        ViewAction::Render(ScreenUpdateType::FullScreen)
    );
    assert_eq!(view.screen_offset.height, 1);
    assert_eq!(
        view.handle_event(EditorCommand::Move(Direction::PageDown)),
        ViewAction::Render(ScreenUpdateType::FullScreen)
    );
    assert_eq!(view.cursor_position.height, 29);
    assert_eq!(view.jump_to_line(3), ScreenUpdateType::FullScreen);
    assert_eq!(view.cursor_position.height, 2);
}

#[test]
fn search_session_types_cycles_and_accepts() {
    let b = buffer_of(&["cat", "dog", "cat dog", "x"]);
    let mut prev = at(3, 0);
    let mut prev_off = ScreenOffset::default();
    let mut size = Size { height: 20, width: 40 };
    let mut s = Search::new(prev, prev_off);
    assert!(s.process(SearchCommand::Insert('d'), &b, &mut prev, &mut prev_off, &mut size));
    assert_eq!(s.cursor_position, at(2, 4));
    assert!(s.process(SearchCommand::Insert('o'), &b, &mut prev, &mut prev_off, &mut size));
    assert_eq!(s.stack.len(), 2);
    assert!(s.process(SearchCommand::Next, &b, &mut prev, &mut prev_off, &mut size));
    assert_eq!(s.cursor_position, at(1, 0));
    assert!(s.process(SearchCommand::Insert('z'), &b, &mut prev, &mut prev_off, &mut size));
    assert_eq!(s.cursor_position, at(3, 0));
    assert!(s.process(SearchCommand::BackSpace, &b, &mut prev, &mut prev_off, &mut size));
    assert_eq!(s.string, vec!['d', 'o']);
    assert!(!s.process(SearchCommand::AssumeState, &b, &mut prev, &mut prev_off, &mut size));
    assert_eq!(prev, s.cursor_position);
}

#[test]
fn search_cancel_restores_the_cursor() {
    let b = buffer_of(&["abc", "abd"]);
    let mut prev = at(1, 1);
    let mut prev_off = ScreenOffset::default();
    let mut size = Size { height: 20, width: 40 };
    let mut s = Search::new(prev, prev_off);
    s.process(SearchCommand::Insert('a'), &b, &mut prev, &mut prev_off, &mut size);
    assert_eq!(s.cursor_position, at(1, 0));
    assert!(!s.process(SearchCommand::RevertState, &b, &mut prev, &mut prev_off, &mut size));
    assert_eq!(s.cursor_position, at(1, 1));
    assert_eq!(prev, at(1, 1));
}

#[test]
fn text_round_trip() {
    let b = Buffer::from_text("first\nsecond line\n", "notes.txt");
    assert_eq!(b.len(), 2);
    assert!(b.is_saved);
    assert_eq!(b.filename.as_deref(), Some("notes.txt"));
    assert_eq!(b.to_text(), "first\nsecond line\n");
    let crlf = Buffer::from_text("a\r\nb", "x");
    assert_eq!(crlf.to_text(), "a\nb\n");
    assert_eq!(Buffer::from_text("", "x").len(), 0);
    let named = Buffer::load_named_empty("new.txt");
    assert!(named.is_empty());
    assert!(!named.is_saved);
}

#[test]
fn paste_types_first_line_and_appends_the_rest() {
    let mut b = buffer_of(&["ab"]);
    let mut pos = at(0, 1);
    b.add_text_from_clipboard("XY\nnew", &mut pos);
    assert_eq!(b.text[0].raw_string, "aXYb");
    assert_eq!(b.len(), 2);
    assert_eq!(b.text[1].raw_string, "new");
    assert_eq!(pos.height, 1);
    let mut empty = Buffer::default();
    let mut origin = at(0, 0);
    empty.add_text_from_clipboard("hi", &mut origin);
    assert_eq!(empty.text[0].raw_string, "hi");
    assert_eq!(origin, at(0, 2));
}

#[test]
fn word_jumps_in_insert_mode() {
    let b = buffer_of(&["foo bar baz", "qux"]);
    let mut pos = at(0, 0);
    b.find_next_word(&mut pos);
    assert_eq!(pos, at(0, 7));
    let mut last = at(0, 8);
    b.find_next_word(&mut last);
    assert_eq!(last, at(1, 3));
    let mut end = at(1, 3);
    b.find_prev_word(&mut end);
    assert_eq!(end.height, 0);
}

#[test]
fn vim_actions_and_outcomes() {
    let b = buffer_of(&["x"]);
    let mut vim = VimMode::new(at(0, 0), ScreenOffset::default(), Size { height: 20, width: 40 });
    assert_eq!(
        vim.process(VimModeCommands::ComplexCommand(QueueInitCommand::Yank), &b),
        VimAction::Pending(QueueInitCommand::Yank)
    );
    assert_eq!(vim.process(VimModeCommands::NoAction, &b), VimAction::ShowHelp);
    assert_eq!(vim.process(VimModeCommands::Paste, &b), VimAction::Paste);
    assert_eq!(vim.process(VimModeCommands::Highlight, &b), VimAction::EnterHighlight);
    assert_eq!(
        vim.process(VimModeCommands::Move(Direction::PageDown), &b),
        VimAction::Redraw(false)
    );
    assert_eq!(VimMode::run_colon(&vec!['1', '2'], &b), ColonOutcome::Jump(12));
    let empty = Buffer::default();
    let origin = VimMode::new(at(0, 0), ScreenOffset::default(), Size::default());
    assert!(matches!(origin.complete_yank(Key::Char('w'), &empty), PendingOutcome::Done));
}

#[test]
fn selection_outcomes_idle_and_delete() {
    let mut b = buffer_of(&["abcdef"]);
    let mut size = Size { height: 20, width: 40 };
    let mut h = Highlight::new(at(0, 1), ScreenOffset::default());
    assert!(matches!(
        h.process(HighlightCommand::NoAction, &mut b, &mut size),
        HighlightOutcome::Idle
    ));
    h.end = at(0, 3);
    assert!(matches!(
        h.process(HighlightCommand::Delete, &mut b, &mut size),
        HighlightOutcome::Deleted
    ));
    assert_eq!(b.text[0].raw_string, "aef");
    assert_eq!(h.start, at(0, 1));
}
