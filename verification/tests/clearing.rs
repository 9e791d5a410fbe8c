use ruins::direction::{Direction, Position};
use ruins::engine::{clear, ClearOutcome};
use ruins::grid::Grid;
use ruins::room::{ExitStatus, Exits, Room, RoomStatus};

fn pos(x: i32, y: i32) -> Position {
    Position { x, y }
}

fn room(
    north: Option<ExitStatus>,
    east: Option<ExitStatus>,
    south: Option<ExitStatus>,
    west: Option<ExitStatus>,
    status: RoomStatus,
    infested: i8,
) -> Room {
    Room { exits: Exits { north, east, south, west }, status, infested }
}

#[test]
fn clearing_a_blocked_exit_clears_it_locally() {
    let mut grid = Grid {
        rooms: vec![
            (pos(0, 0), room(Some(ExitStatus::Blocked), None, None, None, RoomStatus::Empty, 3)),
            (
                pos(0, 1),
                room(None, None, Some(ExitStatus::Blocked), None, RoomStatus::Empty, 0),
            ),
        ],
    };
    let (new_pos, outcome) = clear(pos(0, 0), &mut grid, Direction::North);
    assert_eq!(outcome, ClearOutcome::ClearedNow);
    assert_eq!(new_pos, pos(0, 0));
    assert_eq!(outcome.message(Direction::North), "You clear the northern exit.");
    let origin = grid.room(pos(0, 0)).unwrap();
    assert_eq!(origin.exits.north, Some(ExitStatus::Cleared));
    assert_eq!(origin.status, RoomStatus::Empty);
    assert_eq!(origin.infested, 3);
    // The far side's own exit status is never touched.
    assert_eq!(grid.room(pos(0, 1)).unwrap().exits.south, Some(ExitStatus::Blocked));
}

#[test]
fn clearing_in_the_void_clears_nothing() {
    let mut grid = Grid { rooms: vec![] };
    let (new_pos, outcome) = clear(pos(0, 0), &mut grid, Direction::East);
    assert_eq!(outcome, ClearOutcome::NothingToClear);
    assert_eq!(new_pos, pos(0, 0));
    assert_eq!(
        outcome.message(Direction::East),
        "You are in the void. There is nothing to clear."
    );
}

#[test]
fn clearing_a_missing_exit_fails() {
    let mut grid = Grid {
        rooms: vec![(pos(0, 0), room(None, None, None, None, RoomStatus::Empty, 0))],
    };
    let (_, outcome) = clear(pos(0, 0), &mut grid, Direction::West);
    assert_eq!(outcome, ClearOutcome::NoExit);
    assert_eq!(
        outcome.message(Direction::West),
        "You cannot clear the west exit. There is no exit!"
    );
}

#[test]
fn clearing_cannot_reach_a_blocked_far_side() {
    let mut grid = Grid {
        rooms: vec![
            (pos(0, 0), room(Some(ExitStatus::Cleared), None, None, None, RoomStatus::Empty, 0)),
            (
                pos(0, 1),
                room(None, None, Some(ExitStatus::Blocked), None, RoomStatus::Empty, 0),
            ),
        ],
    };
    let (_, outcome) = clear(pos(0, 0), &mut grid, Direction::North);
    assert_eq!(outcome, ClearOutcome::FarBlocked);
    assert_eq!(
        outcome.message(Direction::North),
        "You try to clear the entrance to the northern room from this side, but you cannot."
    );
    // No mutation anywhere: the far side stays blocked, this side cleared.
    assert_eq!(grid.room(pos(0, 1)).unwrap().exits.south, Some(ExitStatus::Blocked));
    assert_eq!(grid.room(pos(0, 0)).unwrap().exits.north, Some(ExitStatus::Cleared));
}

#[test]
fn clearing_a_clear_exit_without_far_entrance() {
    let mut grid = Grid {
        rooms: vec![
            (pos(0, 0), room(Some(ExitStatus::Cleared), None, None, None, RoomStatus::Empty, 0)),
            (pos(0, 1), room(None, None, None, None, RoomStatus::Empty, 0)),
        ],
    };
    let (_, outcome) = clear(pos(0, 0), &mut grid, Direction::North);
    assert_eq!(outcome, ClearOutcome::NoFarEntrance);
    assert_eq!(
        outcome.message(Direction::North),
        "The northern exit is already clear, but there is no entrance to the new room."
    );
}

#[test]
fn clearing_an_already_clear_passage_does_nothing() {
    let mut grid = Grid {
        rooms: vec![
            (pos(0, 0), room(Some(ExitStatus::Cleared), None, None, None, RoomStatus::Empty, 0)),
            (
                pos(0, 1),
                room(None, None, Some(ExitStatus::Cleared), None, RoomStatus::Empty, 0),
            ),
        ],
    };
    let (_, outcome) = clear(pos(0, 0), &mut grid, Direction::North);
    assert_eq!(outcome, ClearOutcome::AlreadyClear);
    assert_eq!(outcome.message(Direction::North), "The northern exit is already clear.");
    assert_eq!(grid.room(pos(0, 0)).unwrap().exits.north, Some(ExitStatus::Cleared));
    assert_eq!(grid.room(pos(0, 1)).unwrap().exits.south, Some(ExitStatus::Cleared));
}

#[test]
fn clearing_a_clear_exit_at_the_grid_edge() {
    let mut grid = Grid {
        rooms: vec![
            (pos(0, 0), room(Some(ExitStatus::Cleared), None, None, None, RoomStatus::Empty, 0)),
        ],
    };
    let (_, outcome) = clear(pos(0, 0), &mut grid, Direction::North);
    assert_eq!(outcome, ClearOutcome::AlreadyClear);
}
