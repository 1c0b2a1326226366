use minivim::buffer::Buffer;
use minivim::line::Line;
use minivim::position::Position;

fn two_lines(first: &str, second: &str) -> Buffer {
    Buffer {
        text: vec![Line::from(first), Line::from(second)],
        filename: None,
        is_saved: true,
    }
}

fn at(height: usize, width: usize) -> Position {
    Position { height, width, max_width: width }
}

#[test]
fn end_of_current_word() {
    let buff = two_lines("I have a bunch of text", "This is a bunch more text");
    let mut pos = at(0, 3);
    buff.end_of_current_word(&mut pos);
    assert_eq!(pos, at(0, 5));
}

#[test]
fn end_of_current_word_spillover() {
    let buff = two_lines("I have a bunch of text ", "This is a bunch more text");
    let mut pos = at(0, 22);
    buff.end_of_current_word(&mut pos);
    assert_eq!(pos, at(1, 3));
}

#[test]
fn end_of_current_word_end() {
    let buff = two_lines("I have a bunch of text ", "This is a bunch more text");
    let mut pos = at(1, 22);
    buff.end_of_current_word(&mut pos);
    assert_eq!(pos, at(1, 24));
}

#[test]
fn buffer_begining_of_current_word() {
    let buff = two_lines("I have a bunch of text ", "This is a bunch more text");
    let mut pos = at(0, 4);
    buff.begining_of_current_word(&mut pos);
    assert_eq!(pos, at(0, 2));
}

#[test]
fn begining_of_current_word_origin() {
    let buff = two_lines("  I have a bunch of text ", "This is a bunch more text");
    let mut pos = at(0, 2);
    buff.begining_of_current_word(&mut pos);
    assert_eq!(pos, at(0, 0));
}

#[test]
fn num_tabs() {
    let buff = two_lines("              I have a bunch of text ", "This is a bunch more text");
    assert_eq!(buff.num_tabs(0), 3);
}
