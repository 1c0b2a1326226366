use minivim::line::Line;

#[test]
fn alpha_helper() {
    let line = Line::from("I have a bunch: of text. variable_name too");
    let bytes = line.raw_string.as_bytes();
    assert_eq!(Line::forward_from_alpha(10, bytes).unwrap(), 14);
    assert_eq!(Line::forward_from_non_alpha(14, bytes).unwrap(), 16);
}

#[test]
fn test_begining_of_next_word() {
    let line = Line::from("I have a bunch: of text. variable_name too");
    assert_eq!(line.begining_of_next_word(7).unwrap(), 9);
    assert_eq!(line.begining_of_next_word(25).unwrap(), 39);
    assert!(line.begining_of_next_word(39).is_none());
}

#[test]
fn backward_alpha_helper() {
    let line = Line::from("I have a bunch: of text. variable_name too");
    let bytes = line.raw_string.as_bytes();
    assert_eq!(Line::backward_from_alpha(12, bytes), Some(8));
    assert_eq!(Line::backward_from_non_alpha(15, bytes), Some(13));
}

#[test]
fn line_begining_of_current_word() {
    let line = Line::from("I have a bunch: of text. variable_name too");
    assert_eq!(line.begining_of_current_word(5), Some(2));
    assert_eq!(line.begining_of_current_word(0), None);
    assert_eq!(line.begining_of_current_word(14), Some(9));
    let line2 = Line::from("  I have a bunch: of text. variable_name too");
    assert_eq!(line2.begining_of_current_word(2), None);
}

#[test]
fn begining_of_current_word_spillover() {
    let line = Line::from("I have a bunch: of text. variable_name too");
    let len = line.raw_string.len().saturating_sub(1);
    assert_eq!(
        line.begining_of_current_word_spillover(),
        Some(len.saturating_sub(2))
    );
}
