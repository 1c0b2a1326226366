use minivim::position::{Position, ScreenOffset};
use minivim::search::Search;

fn matches_on(lines: &[usize]) -> Vec<Position> {
    lines
        .iter()
        .map(|h| Position { height: *h, width: 0, max_width: 0 })
        .collect()
}

#[test]
fn search_find_closest_position() {
    let mut search = Search::new(Position::default(), ScreenOffset::default());
    search.stack = vec![matches_on(&[4, 9, 12, 30, 39, 45, 56, 63])];
    search.string = vec!['x'];
    let mut pos = search.find_relative_start(10);
    assert_eq!(pos.unwrap(), 1);
    pos = search.find_relative_start(15);
    assert_eq!(pos.unwrap(), 2);
    pos = search.find_relative_start(25);
    assert_eq!(pos.unwrap(), 3);
    pos = search.find_relative_start(40);
    assert_eq!(pos.unwrap(), 4);
}
