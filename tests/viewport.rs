use minivim::position::{Position, ScreenOffset, Size};

fn pos(height: usize, width: usize) -> Position {
    Position { height, width, max_width: usize::default() }
}

#[test]
fn test_pos_in_view() {
    let size1 = Size { height: 20, width: 20 };
    let offset1 = ScreenOffset { height: 1, width: 1 };
    assert_eq!(pos(12, 12).max_displacement_from_view(&offset1, &size1, 1), 0);
}

#[test]
fn test_displacement_height_1() {
    let size1 = Size { height: 20, width: 20 };
    let offset1 = ScreenOffset { height: 1, width: 1 };
    assert_eq!(pos(0, 12).max_displacement_from_view(&offset1, &size1, 1), 1);
}

#[test]
fn test_displacement_height_2() {
    let size1 = Size { height: 20, width: 20 };
    let offset1 = ScreenOffset { height: 2, width: 2 };
    assert_eq!(pos(0, 12).max_displacement_from_view(&offset1, &size1, 1), 2);
}

#[test]
fn test_displacement_width_1() {
    let size1 = Size { height: 20, width: 20 };
    let offset1 = ScreenOffset { height: 1, width: 0 };
    assert_eq!(pos(0, 12).max_displacement_from_view(&offset1, &size1, 1), 1);
}

#[test]
fn test_displacement_width_2() {
    let size1 = Size { height: 20, width: 20 };
    let offset1 = ScreenOffset { height: 1, width: 2 };
    assert_eq!(pos(0, 0).max_displacement_from_view(&offset1, &size1, 1), 2);
}

#[test]
fn test_displacement_height_and_width() {
    let size1 = Size { height: 20, width: 20 };
    let offset1 = ScreenOffset { height: 9, width: 8 };
    assert_eq!(pos(0, 6).max_displacement_from_view(&offset1, &size1, 1), 9);
}
