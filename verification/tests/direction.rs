use ruins::direction::{Direction, Position};

fn pos(x: i32, y: i32) -> Position {
    Position { x, y }
}

#[test]
fn reverse_involution_all_directions() {
    let dirs = [Direction::North, Direction::East, Direction::South, Direction::West];
    for d in dirs {
        assert_eq!(d.reverse().reverse(), d);
    }
}

#[test]
fn reverse_pairs() {
    assert_eq!(Direction::North.reverse(), Direction::South);
    assert_eq!(Direction::South.reverse(), Direction::North);
    assert_eq!(Direction::East.reverse(), Direction::West);
    assert_eq!(Direction::West.reverse(), Direction::East);
}

#[test]
fn displacement_vectors() {
    assert_eq!(Direction::North.displacement(), (0, 1));
    assert_eq!(Direction::East.displacement(), (1, 0));
    assert_eq!(Direction::South.displacement(), (0, -1));
    assert_eq!(Direction::West.displacement(), (-1, 0));
}

#[test]
fn go_adds_displacement() {
    assert_eq!(Direction::North.go(pos(3, -4)), pos(3, -3));
    assert_eq!(Direction::East.go(pos(3, -4)), pos(4, -4));
    assert_eq!(Direction::South.go(pos(3, -4)), pos(3, -5));
    assert_eq!(Direction::West.go(pos(3, -4)), pos(2, -4));
}

#[test]
fn go_then_reverse_go_returns_home() {
    let dirs = [Direction::North, Direction::East, Direction::South, Direction::West];
    let starts = [pos(0, 0), pos(17, -9), pos(-100, 100)];
    for d in dirs {
        for p in starts {
            assert_eq!(d.reverse().go(d.go(p)), p);
        }
    }
}

#[test]
fn describe_compass_names() {
    assert_eq!(Direction::North.describe(), "north");
    assert_eq!(Direction::East.describe(), "east");
    assert_eq!(Direction::South.describe(), "south");
    assert_eq!(Direction::West.describe(), "west");
}
