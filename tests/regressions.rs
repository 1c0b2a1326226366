use minivim::buffer::Buffer;
use minivim::highlight::Highlight;
use minivim::line::Line;
use minivim::commands::JumpCommand;
use minivim::position::{Position, ScreenOffset, Size, RESERVED_ROWS};
use minivim::view::JumpStep;

fn buffer_of(lines: &[&str]) -> Buffer {
    Buffer {
        text: lines.iter().map(|l| Line::from(l)).collect(),
        filename: None,
        is_saved: true,
    }
}

fn at(height: usize, width: usize) -> Position {
    Position { height, width, max_width: width }
}

#[test]
fn selection_delete_keeps_spaces_outside_it() {
    let mut b = buffer_of(&["     ", "     "]);
    let mut h = Highlight::new(at(0, 3), ScreenOffset::default());
    h.end = at(1, 0);
    h.batch_delete(&mut b);
    assert_eq!(b.len(), 1);
    assert_eq!(b.text[0].len(), 7);
}

#[test]
fn segment_delete_removes_exactly_the_span() {
    let mut b = buffer_of(&["     "]);
    let left = at(0, 1);
    let mut right = at(0, 3);
    b.delete_segment(&left, &mut right);
    assert_eq!(b.text[0].len(), 2);
    assert_eq!(right.width, 1);
}

#[test]
fn snap_brings_the_cursor_into_view() {
    let mut offset = ScreenOffset::default();
    let size = Size { height: 3, width: 80 };
    let pos = at(2, 0);
    offset.handle_offset_screen_snap(&pos, &size, RESERVED_ROWS, 10);
    assert_eq!(pos.max_displacement_from_view(&offset, &size, RESERVED_ROWS), 0);
    assert_eq!(offset.height, 2);
}

#[test]
fn indentation_counts_leading_spaces_only() {
    let b = buffer_of(&["", "    x    "]);
    assert_eq!(b.num_tabs(0), 0);
    assert_eq!(b.num_tabs(1), 1);
    let mut c = buffer_of(&["    x    "]);
    c.new_line(0);
    assert_eq!(c.text[1].raw_string, "    ");
}

#[test]
fn vim_w_lands_on_the_next_lines_word() {
    let b = buffer_of(&["a", "  b"]);
    let mut pos = at(0, 0);
    b.begining_of_next_word(&mut pos);
    assert_eq!(pos, at(1, 2));
}

#[test]
fn saving_writes_graphemes_not_placeholders() {
    let b = Buffer::from_text("a\u{200B}b\n\n", "x");
    assert_eq!(b.text[0].raw_string, "a.b");
    assert_eq!(b.to_text(), "a\u{200B}b\n\n");
}

#[test]
fn empty_line_has_no_fragments() {
    let line = Line::from("");
    assert!(line.is_empty());
    assert_eq!(line.grapheme_len(), 0);
}

#[test]
fn paste_types_each_line_into_the_rows_below() {
    let mut b = buffer_of(&["ab", "cd", "ef"]);
    let mut pos = at(0, 1);
    b.add_text_from_clipboard("X\nY", &mut pos);
    assert_eq!(b.text[0].raw_string, "aXb");
    assert_eq!(b.text[1].raw_string, "Ycd");
    assert_eq!(b.text[2].raw_string, "ef");
    assert_eq!(pos, at(1, 1));
}

#[test]
fn full_width_insert_then_delete_restores_the_line() {
    let mut b = buffer_of(&["ab"]);
    let mut pos = at(0, 1);
    b.update_line_insert(&mut pos, '漢');
    assert_eq!(b.text[0].raw_string, "a漢b");
    assert_eq!(pos, at(0, 3));
    b.update_line_delete(&mut pos);
    assert_eq!(b.text[0].raw_string, "ab");
    assert_eq!(pos, at(0, 1));
}

#[test]
fn typing_after_a_full_width_character_uses_its_column() {
    let mut b = buffer_of(&["漢b"]);
    let mut pos = at(0, 2);
    b.update_line_insert(&mut pos, 'x');
    assert_eq!(b.text[0].raw_string, "漢xb");
}

#[test]
fn vim_w_from_a_space_lands_on_the_word() {
    let b = buffer_of(&[" a "]);
    let mut pos = at(0, 0);
    b.begining_of_next_word(&mut pos);
    assert_eq!(pos, at(0, 1));
}

#[test]
fn vim_b_from_between_spaces_goes_to_the_previous_word() {
    let line = Line::from("ab  cd");
    assert_eq!(line.begining_of_current_word(3), Some(0));
}

#[test]
fn digits_belong_to_words() {
    let line = Line::from("x1 y2");
    assert_eq!(line.begining_of_next_word(0), Some(3));
    assert_eq!(line.end_of_current_word(0), Some(1));
}

#[test]
fn leading_zero_in_a_line_number_counts_as_zero() {
    let JumpStep::Continue(first) = JumpCommand::Enter(0).apply(0) else { panic!("digit continues") };
    assert_eq!(JumpCommand::Enter(5).apply(first), JumpStep::Continue(5));
}

#[test]
fn split_and_copy_use_display_columns() {
    let mut b = buffer_of(&["漢字ab"]);
    b.split_line(&at(0, 2));
    assert_eq!(b.text[0].raw_string, "漢");
    assert_eq!(b.text[1].raw_string, "字ab");
    let c = buffer_of(&["漢字ab"]);
    assert_eq!(c.get_segment(&at(0, 2), &at(0, 4)), "字a");
}

#[test]
fn segment_delete_uses_display_columns() {
    let mut b = buffer_of(&["漢字ab"]);
    let left = at(0, 2);
    let mut right = at(0, 4);
    b.delete_segment(&left, &mut right);
    assert_eq!(b.text[0].raw_string, "漢b");
    assert_eq!(right.width, 2);
}
