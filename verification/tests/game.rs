use ruins::direction::{Direction, Position};
use ruins::game::{get_rooms, start_position, Command, Ending, GameState, TICKS_PER_TURN};
use ruins::grid::Grid;
use ruins::room::{ExitStatus, Exits, Room, RoomStatus};

fn pos(x: i32, y: i32) -> Position {
    Position { x, y }
}

fn bare_room(status: RoomStatus, infested: i8) -> Room {
    Room {
        exits: Exits { north: None, east: None, south: None, west: None },
        status,
        infested,
    }
}

#[test]
fn the_fixed_map_has_its_twelve_rooms() {
    let grid = get_rooms();
    assert_eq!(grid.rooms.len(), 12);
    assert_eq!(start_position(), pos(0, 0));

    let entrance = grid.room(pos(0, 0)).unwrap();
    assert_eq!(entrance.status, RoomStatus::Entrance);
    assert_eq!(entrance.exits.north, Some(ExitStatus::Cleared));
    assert_eq!(entrance.exits.south, None);

    let first_treasure = grid.room(pos(0, 1)).unwrap();
    assert_eq!(first_treasure.status, RoomStatus::TreasureFilled);
    assert_eq!(first_treasure.exits.south, Some(ExitStatus::Cleared));
    assert_eq!(first_treasure.exits.north, Some(ExitStatus::Blocked));

    let far_treasure = grid.room(pos(-1, 5)).unwrap();
    assert_eq!(far_treasure.status, RoomStatus::TreasureFilled);
    assert_eq!(far_treasure.exits.east, Some(ExitStatus::Cleared));

    for (_, room) in &grid.rooms {
        assert_eq!(room.infested, 0);
    }
}

#[test]
fn two_ticks_run_before_each_command() {
    assert_eq!(TICKS_PER_TURN, 2);
}

#[test]
fn a_new_game_is_active_at_the_entrance() {
    let state = GameState::new(get_rooms(), start_position());
    assert!(state.active());
    assert!(!state.finished);
    assert_eq!(state.position, pos(0, 0));
    assert_eq!(
        state.describe_current(),
        "You find yourself in an entrance room. There is one exit to the north."
    );
}

#[test]
fn a_move_command_updates_the_position() {
    let mut state = GameState::new(get_rooms(), start_position());
    let msgs = state.apply_command(Command::Go(Direction::North));
    assert_eq!(msgs, vec!["Moving north.".to_string()]);
    assert_eq!(state.position, pos(0, 1));
    assert!(!state.finished);
}

#[test]
fn entering_a_deadly_room_ends_the_game() {
    let grid = Grid {
        rooms: vec![
            (
                pos(0, 0),
                Room {
                    exits: Exits {
                        north: Some(ExitStatus::Cleared),
                        east: None,
                        south: None,
                        west: None,
                    },
                    status: RoomStatus::Entrance,
                    infested: 0,
                },
            ),
            (
                pos(0, 1),
                Room {
                    exits: Exits {
                        north: None,
                        east: None,
                        south: Some(ExitStatus::Cleared),
                        west: None,
                    },
                    status: RoomStatus::Empty,
                    infested: 12,
                },
            ),
        ],
    };
    let mut state = GameState::new(grid, pos(0, 0));
    let msgs = state.apply_command(Command::Go(Direction::North));
    assert!(state.finished);
    assert_eq!(state.position, pos(0, 1));
    assert_eq!(msgs.len(), 2);
    assert_eq!(msgs[0], "Moving north.");
    assert_eq!(
        msgs[1],
        "You find yourself in a room with many snakes pouring in. There is one exit to the south."
    );
    assert_eq!(state.ending(), Ending::Dead);
    assert_eq!(state.ending().message(), "You have fallen to the snakes. Game over!");
}

#[test]
fn remaining_in_a_deadly_room_ends_the_game() {
    let grid = Grid { rooms: vec![(pos(0, 0), bare_room(RoomStatus::Empty, 12))] };
    let mut state = GameState::new(grid, pos(0, 0));
    let msgs = state.apply_command(Command::Take);
    assert!(state.finished);
    assert_eq!(msgs.len(), 2);
    assert_eq!(msgs[0], "There is nothing to take.");
    assert_eq!(state.ending(), Ending::Dead);
}

#[test]
fn stepping_nowhere_classifies_as_the_void() {
    let grid = Grid { rooms: vec![(pos(0, 0), bare_room(RoomStatus::Empty, 0))] };
    let state = GameState::new(grid, pos(7, 7));
    assert!(!state.active());
    assert_eq!(state.ending(), Ending::Void);
    assert_eq!(
        state.ending().message(),
        "Somehow, you have escaped into the void. You are safe... for now."
    );
}

#[test]
fn a_full_run_collects_both_treasures_and_escapes() {
    // The whole fixed map, played through without infestation turns: down
    // the corridor, around the loop, both treasures, back, and out.
    let mut state = GameState::new(get_rooms(), start_position());
    let script = [
        Command::Go(Direction::North),
        Command::Take,
        Command::Clear(Direction::North),
        Command::Go(Direction::North),
        Command::Go(Direction::North),
        Command::Go(Direction::North),
        Command::Go(Direction::East),
        Command::Clear(Direction::East),
        Command::Go(Direction::East),
        Command::Go(Direction::North),
        Command::Go(Direction::West),
        Command::Clear(Direction::West),
        Command::Go(Direction::West),
        Command::Clear(Direction::West),
        Command::Go(Direction::West),
        Command::Take,
        Command::Go(Direction::East),
        Command::Go(Direction::East),
        Command::Go(Direction::East),
        Command::Go(Direction::South),
        Command::Go(Direction::West),
        Command::Go(Direction::West),
        Command::Go(Direction::South),
        Command::Go(Direction::South),
        Command::Go(Direction::South),
        Command::Go(Direction::South),
    ];
    for cmd in script {
        assert!(state.active());
        let msgs = state.apply_command(cmd);
        assert_eq!(msgs.len(), 1);
        assert!(!msgs[0].starts_with("You cannot"), "unexpected failure: {}", msgs[0]);
    }
    assert_eq!(state.position, pos(0, 0));
    assert!(!state.finished);

    let msgs = state.apply_command(Command::Leave);
    assert_eq!(msgs, vec!["You have left with the treasure. Congratulations!".to_string()]);
    assert!(state.finished);
    assert!(!state.active());
    assert_eq!(state.ending(), Ending::Escaped);
    assert_eq!(state.ending().message(), "You have escaped!");
}

#[test]
fn leaving_with_treasure_left_behind_fails() {
    let mut state = GameState::new(get_rooms(), start_position());
    let msgs = state.apply_command(Command::Leave);
    assert_eq!(msgs, vec!["You do not have all the treasure. You cannot leave.".to_string()]);
    assert!(!state.finished);
}
