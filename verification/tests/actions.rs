use ruins::direction::Position;
use ruins::engine::{leave, take, LeaveOutcome, TakeOutcome};
use ruins::grid::Grid;
use ruins::room::{ExitStatus, Exits, Room, RoomStatus};

fn pos(x: i32, y: i32) -> Position {
    Position { x, y }
}

fn bare_room(status: RoomStatus, infested: i8) -> Room {
    Room {
        exits: Exits { north: None, east: None, south: None, west: None },
        status,
        infested,
    }
}

#[test]
fn taking_treasure_in_a_clean_room_seeds_infestation() {
    let mut grid = Grid {
        rooms: vec![(pos(0, 0), bare_room(RoomStatus::TreasureFilled, 0))],
    };
    let (new_pos, outcome) = take(pos(0, 0), &mut grid);
    assert_eq!(outcome, TakeOutcome::Taken);
    assert_eq!(new_pos, pos(0, 0));
    assert_eq!(outcome.message(), "You take the treasure.");
    let room = grid.room(pos(0, 0)).unwrap();
    assert_eq!(room.status, RoomStatus::Empty);
    assert_eq!(room.infested, 1);
}

#[test]
fn taking_treasure_keeps_an_existing_infestation() {
    let mut grid = Grid {
        rooms: vec![(pos(0, 0), bare_room(RoomStatus::TreasureFilled, 5))],
    };
    let (_, outcome) = take(pos(0, 0), &mut grid);
    assert_eq!(outcome, TakeOutcome::Taken);
    let room = grid.room(pos(0, 0)).unwrap();
    assert_eq!(room.status, RoomStatus::Empty);
    assert_eq!(room.infested, 5);
}

#[test]
fn taking_in_an_empty_room_finds_nothing() {
    let mut grid = Grid {
        rooms: vec![(pos(0, 0), bare_room(RoomStatus::Empty, 0))],
    };
    let (_, outcome) = take(pos(0, 0), &mut grid);
    assert_eq!(outcome, TakeOutcome::NothingToTake);
    assert_eq!(outcome.message(), "There is nothing to take.");
    assert_eq!(grid.room(pos(0, 0)).unwrap().status, RoomStatus::Empty);
}

#[test]
fn taking_in_the_void_reports_the_trap() {
    let mut grid = Grid { rooms: vec![] };
    let (_, outcome) = take(pos(3, 3), &mut grid);
    assert_eq!(outcome, TakeOutcome::Trapped);
    assert_eq!(outcome.message(), "You are in the void. You are trapped, forever.");
}

#[test]
fn leave_succeeds_at_an_entrance_with_all_treasure_taken() {
    let grid = Grid {
        rooms: vec![
            (pos(0, 0), bare_room(RoomStatus::Entrance, 0)),
            (pos(0, 1), bare_room(RoomStatus::Empty, 2)),
        ],
    };
    let mut finished = false;
    let (new_pos, outcome) = leave(pos(0, 0), &grid, &mut finished);
    assert_eq!(outcome, LeaveOutcome::Left);
    assert_eq!(new_pos, pos(0, 0));
    assert!(finished);
    assert_eq!(outcome.message(), "You have left with the treasure. Congratulations!");
}

#[test]
fn leave_fails_while_treasure_remains() {
    let grid = Grid {
        rooms: vec![
            (pos(0, 0), bare_room(RoomStatus::Entrance, 0)),
            (pos(0, 1), bare_room(RoomStatus::TreasureFilled, 0)),
        ],
    };
    let mut finished = false;
    let (_, outcome) = leave(pos(0, 0), &grid, &mut finished);
    assert_eq!(outcome, LeaveOutcome::TreasureRemains);
    assert!(!finished);
    assert_eq!(outcome.message(), "You do not have all the treasure. You cannot leave.");
}

#[test]
fn leave_away_from_an_entrance_asks_for_one() {
    // No treasure-filled room anywhere, but the player stands in a plain
    // empty room: the failure is the need for an entrance, not missing
    // treasure.
    let grid = Grid {
        rooms: vec![
            (pos(0, 0), bare_room(RoomStatus::Entrance, 0)),
            (pos(0, 1), bare_room(RoomStatus::Empty, 0)),
        ],
    };
    let mut finished = false;
    let (_, outcome) = leave(pos(0, 1), &grid, &mut finished);
    assert_eq!(outcome, LeaveOutcome::NeedEntrance);
    assert!(!finished);
    assert_eq!(outcome.message(), "You need to get to an entrance to leave.");
}

#[test]
fn leave_from_the_void_asks_for_an_entrance() {
    let grid = Grid { rooms: vec![(pos(0, 0), bare_room(RoomStatus::Empty, 0))] };
    let mut finished = false;
    let (_, outcome) = leave(pos(9, 9), &grid, &mut finished);
    assert_eq!(outcome, LeaveOutcome::NeedEntrance);
    assert!(!finished);
}
