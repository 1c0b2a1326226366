use minivim::buffer::Buffer;
use minivim::commands::Direction;
use minivim::help::{HelpKeys, VimKeyBindings, HELP_ITEMS, VIM_BINDINGS};
use minivim::highlight::{Highlight, HighlightOutcome, LineType, Orientation};
use minivim::commands::HighlightCommand;
use minivim::line::{GraphemeWidth, Line};
use minivim::position::{Position, ScreenOffset, Size};
use minivim::search::nearest_match;

fn buffer_of(lines: &[&str]) -> Buffer {
    Buffer {
        text: lines.iter().map(|l| Line::from(l)).collect(),
        filename: None,
        is_saved: true,
    }
}

fn at(height: usize, width: usize) -> Position {
    Position { height, width, max_width: width }
}

fn shown(b: &Buffer, i: usize) -> String {
    b.text[i].raw_string.clone()
}

#[test]
fn right_wraps_to_next_line_and_left_wraps_back() {
    let b = buffer_of(&["hello", "world"]);
    let mut pos = at(0, 5);
    Direction::Right.move_cursor(&mut pos, &b);
    assert_eq!(pos, at(1, 0));
    Direction::Left.move_cursor(&mut pos, &b);
    assert_eq!(pos, at(0, 5));
}

#[test]
fn every_move_in_an_empty_buffer_stays_at_origin() {
    let b = Buffer::default();
    let dirs = [
        Direction::Up,
        Direction::Down,
        Direction::Left,
        Direction::Right,
        Direction::PageUp,
        Direction::PageDown,
        Direction::End,
        Direction::Home,
    ];
    for d in dirs {
        let mut pos = at(0, 0);
        d.move_cursor(&mut pos, &b);
        assert_eq!(pos, at(0, 0));
    }
}

#[test]
fn vertical_moves_clamp_and_remember_the_column() {
    let b = buffer_of(&["a long line", "ab", "another long one"]);
    let mut pos = at(0, 8);
    Direction::Down.move_cursor(&mut pos, &b);
    assert_eq!(pos, at(1, 2));
    assert!(pos.width <= b.text[1].grapheme_len());
    Direction::Down.move_cursor(&mut pos, &b);
    assert_eq!(pos, at(2, 8));
    Direction::Up.move_cursor(&mut pos, &b);
    Direction::Up.move_cursor(&mut pos, &b);
    assert_eq!(pos, at(0, 8));
}

#[test]
fn right_at_the_end_of_the_last_line_stays() {
    let b = buffer_of(&["ab"]);
    let mut pos = at(0, 2);
    Direction::Right.move_cursor(&mut pos, &b);
    assert_eq!(pos, at(0, 2));
    let mut top = at(0, 0);
    Direction::Left.move_cursor(&mut top, &b);
    assert_eq!(top, at(0, 0));
}

#[test]
fn page_home_and_end_moves() {
    let b = buffer_of(&["one", "three", "x"]);
    let mut pos = at(1, 2);
    Direction::End.move_cursor(&mut pos, &b);
    assert_eq!(pos, at(1, 5));
    Direction::Home.move_cursor(&mut pos, &b);
    assert_eq!(pos, at(1, 0));
    Direction::PageDown.move_cursor(&mut pos, &b);
    assert_eq!(pos.height, 2);
    Direction::PageUp.move_cursor(&mut pos, &b);
    assert_eq!(pos.height, 0);
}

#[test]
fn nearest_match_between_lines() {
    let ps: Vec<Position> = [4, 9, 12, 30, 39, 45, 56, 63].iter().map(|h| at(*h, 0)).collect();
    assert_eq!(nearest_match(&ps, 15), Some(2));
    assert_eq!(nearest_match(&ps, 25), Some(3));
    assert_eq!(nearest_match(&ps, 0), Some(0));
    assert_eq!(nearest_match(&ps, 100), Some(7));
    assert_eq!(nearest_match(&Vec::new(), 3), None);
}

#[test]
fn nearest_match_tie_takes_the_lower_line() {
    let ps: Vec<Position> = [10, 20, 20].iter().map(|h| at(*h, 0)).collect();
    assert_eq!(nearest_match(&ps, 15), Some(0));
    assert_eq!(nearest_match(&ps, 19), Some(1));
}

#[test]
fn columns_are_the_sum_of_fragment_widths() {
    let line = Line::from("a漢b");
    assert_eq!(line.len(), 3);
    assert_eq!(line.string[1].render_width, GraphemeWidth::Full);
    assert_eq!(line.grapheme_len(), 4);
    assert_eq!(Line::from("").grapheme_len(), 0);
}

#[test]
fn clusters_make_one_fragment_each() {
    let line = Line::from("e\u{301}x");
    assert_eq!(line.len(), 2);
    assert_eq!(line.raw_string, "e\u{301}x");
}

#[test]
fn zero_width_grapheme_shows_a_placeholder() {
    let line = Line::from("a\u{200B}b");
    assert_eq!(line.len(), 3);
    assert_eq!(line.raw_string, "a.b");
}

#[test]
fn insert_then_delete_restores_line_and_cursor() {
    let mut b = buffer_of(&["hello"]);
    let mut pos = at(0, 2);
    b.update_line_insert(&mut pos, 'x');
    assert_eq!(shown(&b, 0), "hexllo");
    assert_eq!(pos, at(0, 3));
    assert!(!b.is_saved);
    b.update_line_delete(&mut pos);
    assert_eq!(shown(&b, 0), "hello");
    assert_eq!(pos, at(0, 2));
}

#[test]
fn insert_full_width_moves_two_columns() {
    let mut b = buffer_of(&["ab"]);
    let mut pos = at(0, 1);
    b.update_line_insert(&mut pos, '漢');
    assert_eq!(shown(&b, 0), "a漢b");
    assert_eq!(pos, at(0, 3));
}

#[test]
fn insert_into_empty_buffer_creates_a_line() {
    let mut b = Buffer::default();
    let mut pos = at(0, 0);
    b.update_line_insert(&mut pos, 'q');
    assert_eq!(b.len(), 1);
    assert_eq!(shown(&b, 0), "q");
    assert_eq!(pos, at(0, 1));
}

#[test]
fn delete_removes_a_whole_soft_tab() {
    let mut b = buffer_of(&["x"]);
    let pos0 = at(0, 1);
    b.insert_tab(&pos0, 1);
    assert_eq!(shown(&b, 0), "x    ");
    let mut pos = at(0, 5);
    assert!(b.is_tab(&pos));
    b.update_line_delete(&mut pos);
    assert_eq!(shown(&b, 0), "x");
    assert_eq!(pos, at(0, 1));
}

#[test]
fn split_then_join_restores_the_line() {
    let mut b = buffer_of(&["first", "hello world", "last"]);
    let pos = at(1, 5);
    b.split_line(&pos);
    assert_eq!(b.len(), 4);
    assert_eq!(shown(&b, 1), "hello");
    assert_eq!(shown(&b, 2), " world");
    b.join_line(2);
    assert_eq!(b.len(), 3);
    assert_eq!(shown(&b, 1), "hello world");
    assert_eq!(shown(&b, 2), "last");
}

#[test]
fn new_line_inherits_indentation() {
    let mut b = buffer_of(&["        deep", "x"]);
    b.new_line(0);
    assert_eq!(b.len(), 3);
    assert_eq!(shown(&b, 1), "        ");
    assert_eq!(shown(&b, 2), "x");
    let mut flat = buffer_of(&["flat"]);
    flat.new_line(0);
    assert_eq!(shown(&flat, 1), "");
}

#[test]
fn new_line_in_empty_buffer_makes_two_lines() {
    let mut b = Buffer::default();
    b.new_line(0);
    assert_eq!(b.len(), 2);
}

#[test]
fn delete_segment_is_inclusive() {
    let mut b = buffer_of(&["abcdef"]);
    let left = at(0, 1);
    let mut right = at(0, 3);
    b.delete_segment(&left, &mut right);
    assert_eq!(shown(&b, 0), "aef");
    assert_eq!(right.width, 1);
}

#[test]
fn segment_across_lines_joins_with_newlines() {
    let b = buffer_of(&["abc", "middle", "xyz"]);
    assert_eq!(b.get_segment(&at(0, 1), &at(2, 1)), "bc\nmiddle\nxy");
    assert_eq!(b.get_segment(&at(1, 2), &at(1, 4)), "ddl");
}

#[test]
fn search_finds_non_overlapping_matches() {
    let b = buffer_of(&["foo boo", "none", "oooo"]);
    let hits: Vec<(usize, usize)> = b.search("oo").iter().map(|p| (p.height, p.width)).collect();
    assert_eq!(hits, vec![(0, 1), (0, 5), (2, 0), (2, 2)]);
    assert!(b.search("").is_empty());
    assert!(b.search("zz").is_empty());
}

#[test]
fn highlight_copy_is_the_same_either_way() {
    let b = buffer_of(&["abc", "middle", "xyz"]);
    let mut backward = Highlight::new(at(2, 1), ScreenOffset::default());
    backward.end = at(0, 1);
    backward.resolve_orientation();
    assert!(backward.or == Orientation::EndFirst);
    let mut forward = Highlight::new(at(0, 1), ScreenOffset::default());
    forward.end = at(2, 1);
    forward.resolve_orientation();
    assert!(forward.or == Orientation::StartFirst);
    assert_eq!(backward.generate_copy_str(&b), forward.generate_copy_str(&b));
    assert_eq!(forward.generate_copy_str(&b), "bc\nmiddle\nxy");
}

#[test]
fn highlight_delete_across_lines_joins_the_rest() {
    let mut b = buffer_of(&["abcd", "gone", "wxyz", "tail"]);
    let mut h = Highlight::new(at(0, 2), ScreenOffset::default());
    h.end = at(2, 1);
    h.batch_delete(&mut b);
    assert_eq!(b.len(), 2);
    assert_eq!(shown(&b, 0), "abyz");
    assert_eq!(shown(&b, 1), "tail");
    assert_eq!(h.start, at(0, 2));
}

#[test]
fn highlight_process_moves_copies_and_cancels() {
    let mut b = buffer_of(&["hello", "world"]);
    let mut size = Size { height: 20, width: 20 };
    let mut h = Highlight::new(at(0, 1), ScreenOffset::default());
    match h.process(HighlightCommand::Move(Direction::Right), &mut b, &mut size) {
        HighlightOutcome::Redraw(full) => assert!(!full),
        _ => panic!("a move keeps selecting"),
    }
    assert_eq!(h.end, at(0, 2));
    match h.process(HighlightCommand::Copy, &mut b, &mut size) {
        HighlightOutcome::Copied(s) => assert_eq!(s, "el"),
        _ => panic!("copy ends the selection"),
    }
    assert!(matches!(
        h.process(HighlightCommand::RevertState, &mut b, &mut size),
        HighlightOutcome::Cancelled
    ));
}

#[test]
fn selection_rows_over_several_lines() {
    let b = buffer_of(&["abcdef", "", "uvwxyz"]);
    let size = Size { height: 10, width: 4 };
    let mut h = Highlight::new(at(0, 2), ScreenOffset::default());
    h.end = at(2, 3);
    h.resolve_orientation();
    h.adjust_range();
    let first = h.multi_line_span(0, &b, &size).unwrap();
    assert_eq!((first.visible_start, first.visible_end), (0, 5));
    assert_eq!((first.start, first.end), (2, 5));
    assert!(first.kind == LineType::Trailing);
    let middle = h.multi_line_span(1, &b, &size).unwrap();
    assert!(middle.blank);
    assert_eq!((middle.start, middle.end), (0, 1));
    let last = h.multi_line_span(2, &b, &size).unwrap();
    assert_eq!((last.start, last.end), (0, 3));
    assert!(last.kind == LineType::Leading);
    h.offset = ScreenOffset { height: 0, width: 7 };
    assert!(h.multi_line_span(0, &b, &size).is_none());
}

#[test]
fn one_line_selection_span() {
    let b = buffer_of(&["abcdef"]);
    let mut h = Highlight::new(at(0, 4), ScreenOffset::default());
    h.end = at(0, 0);
    h.resolve_orientation();
    let (start, end, kind) = h.single_line_span(&b);
    assert_eq!((start, end), (0, 4));
    assert!(kind == LineType::Leading);
}

#[test]
fn help_entries() {
    assert_eq!(HelpKeys::Save.value(), (2, "Ctrl-w = save       "));
    assert_eq!(VimKeyBindings::PageLeft.value().0, 12);
    assert_eq!(HELP_ITEMS.len(), 8);
    assert_eq!(VIM_BINDINGS.len(), 12);
}
