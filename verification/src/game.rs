//! The turn state machine and the fixed starting map.

use vstd::prelude::*;
use crate::direction::{Direction, Position};
use crate::grid::Grid;
use crate::room::{Exits, ExitStatus, Room, RoomStatus};
use crate::engine::{
    go, clear, take, leave, update_rooms, spec_move_allowed, spec_move_outcome,
    spec_clear_outcome, spec_take_outcome, spec_leave_allowed, spec_leave_outcome,
    spec_cleared_grid_rel, spec_taken_grid_rel, spec_tick_rel, ClearOutcome, TakeOutcome,
};

verus! {

/// One player command, as the input loop hands it to the engine.
#[derive(Clone, Copy, PartialEq, Eq, Structural, Debug)]
pub enum Command {
    Go(Direction),
    Clear(Direction),
    Take,
    Leave,
}

/// How many infestation ticks run before each command. The doubled pace
/// relative to player action is a fixed design constant of the game.
pub const TICKS_PER_TURN: u8 = 2;

/// The whole game: the player's position, the finished flag, and the grid.
pub struct GameState {
    pub position: Position,
    pub finished: bool,
    pub grid: Grid,
}

/// How the game ended, once the turn loop stops.
#[derive(Clone, Copy, PartialEq, Eq, Structural, Debug)]
pub enum Ending {
    /// The current position has no room: the player escaped into the void.
    Void,
    /// The current room is deadly: the infestation won.
    Dead,
    /// The player left through an entrance with all the treasure.
    Escaped,
}

impl Ending {
    /// The closing narration line for this ending.
    pub open spec fn spec_message(self) -> Seq<char> {
        match self {
            Ending::Void => "Somehow, you have escaped into the void. You are safe... for now."@,
            Ending::Dead => "You have fallen to the snakes. Game over!"@,
            Ending::Escaped => "You have escaped!"@,
        }
    }

    /// The closing narration line for this ending.
    pub fn message(&self) -> (r: String)
        ensures
            r@ == self.spec_message(),
    {
        match self {
            Ending::Void => "Somehow, you have escaped into the void. You are safe... for now.".to_string(),
            Ending::Dead => "You have fallen to the snakes. Game over!".to_string(),
            Ending::Escaped => "You have escaped!".to_string(),
        }
    }
}

/// The position a command leaves the player at: the destination for an
/// allowed move, the old position in every other case.
pub open spec fn spec_post_position(s: GameState, cmd: Command) -> Position {
    match cmd {
        Command::Go(d) => if spec_move_allowed(s.grid, s.position, d) {
            d.spec_go(s.position)
        } else {
            s.position
        },
        _ => s.position,
    }
}

/// How the grid after a command relates to the grid before it: moves and
/// leave attempts never change it; clearing and taking change at most the
/// current room, as their relations state.
pub open spec fn spec_grid_rel(s: GameState, cmd: Command, g2: Grid) -> bool {
    match cmd {
        Command::Go(_) => g2 == s.grid,
        Command::Clear(d) => if spec_clear_outcome(s.grid, s.position, d)
            == ClearOutcome::ClearedNow {
            spec_cleared_grid_rel(s.grid, s.position, d, g2)
        } else {
            g2 == s.grid
        },
        Command::Take => if spec_take_outcome(s.grid, s.position) == TakeOutcome::Taken {
            spec_taken_grid_rel(s.grid, s.position, g2)
        } else {
            g2 == s.grid
        },
        Command::Leave => g2 == s.grid,
    }
}

/// The narration line a command produces, by its outcome.
pub open spec fn spec_command_message(s: GameState, cmd: Command) -> Seq<char> {
    match cmd {
        Command::Go(d) => spec_move_outcome(s.grid, s.position, d).spec_message(d),
        Command::Clear(d) => spec_clear_outcome(s.grid, s.position, d).spec_message(d),
        Command::Take => spec_take_outcome(s.grid, s.position).spec_message(),
        Command::Leave => spec_leave_outcome(s.grid, s.position).spec_message(),
    }
}

impl GameState {
    /// The game invariant: the grid is well formed.
    pub open spec fn wf(self) -> bool {
        self.grid.wf()
    }

    /// Whether the turn loop keeps running: the player stands in a room
    /// and the game is not finished.
    pub open spec fn spec_active(self) -> bool {
        self.grid.dom_has(self.position) && !self.finished
    }

    /// Whether the room at the player's current position is deadly.
    pub open spec fn spec_in_deadly_room(self) -> bool {
        self.grid.dom_has(self.position) && self.grid.room_at(self.position).spec_is_deadly()
    }

    /// Starts a game at the given position with the given grid.
    pub fn new(grid: Grid, start: Position) -> (r: GameState)
        requires
            grid.wf(),
        ensures
            r.wf(),
            r.position == start,
            !r.finished,
            r.grid == grid,
    {
        GameState { position: start, finished: false, grid }
    }

    /// Whether the turn loop keeps running.
    pub fn active(&self) -> (r: bool)
        requires
            self.wf(),
        ensures
            r == self.spec_active(),
    {
        self.grid.has_room(self.position) && !self.finished
    }

    /// The description of the room the player stands in.
    pub fn describe_current(&self) -> (r: String)
        requires
            self.wf(),
            self.grid.dom_has(self.position),
        ensures
            r@ == self.grid.room_at(self.position).spec_describe(),
    {
        let room = self.grid.room(self.position).unwrap();
        room.describe()
    }

    /// Runs the `TICKS_PER_TURN` (two) infestation ticks of one turn. The
    /// returned ghost grid is the state between the two ticks, so that
    /// each tick is pinned to its own snapshot.
    pub fn advance_infestation(&mut self) -> (mid: Ghost<Grid>)
        requires
            old(self).wf(),
        ensures
            final(self).wf(),
            final(self).position == old(self).position,
            final(self).finished == old(self).finished,
            mid@.wf(),
            spec_tick_rel(old(self).grid, mid@),
            spec_tick_rel(mid@, final(self).grid),
    {
        update_rooms(&mut self.grid);
        let ghost between = self.grid;
        update_rooms(&mut self.grid);
        Ghost(between)
    }

    /// Applies one command: dispatches it to the movement engine, moves
    /// the player when the move is allowed, and then — standing in the
    /// possibly new room — finishes the game if that room is deadly,
    /// appending its description as the final line.
    pub fn apply_command(&mut self, cmd: Command) -> (msgs: Vec<String>)
        requires
            old(self).wf(),
        ensures
            final(self).wf(),
            final(self).position == spec_post_position(*old(self), cmd),
            spec_grid_rel(*old(self), cmd, final(self).grid),
            final(self).finished == (old(self).finished || (cmd == Command::Leave
                && spec_leave_allowed(old(self).grid, old(self).position))
                || final(self).spec_in_deadly_room()),
            msgs@.len() == (if final(self).spec_in_deadly_room() {
                2int
            } else {
                1int
            }),
            msgs@[0]@ == spec_command_message(*old(self), cmd),
            final(self).spec_in_deadly_room() ==> msgs@[1]@ == final(self).grid.room_at(
                final(self).position,
            ).spec_describe(),
    {
        let mut msgs: Vec<String> = Vec::new();
        let position = self.position;
        match cmd {
            Command::Go(d) => {
                let (new_position, outcome) = go(position, &self.grid, d);
                msgs.push(outcome.message(d));
                self.position = new_position;
            },
            Command::Clear(d) => {
                let (_, outcome) = clear(position, &mut self.grid, d);
                msgs.push(outcome.message(d));
            },
            Command::Take => {
                let (_, outcome) = take(position, &mut self.grid);
                msgs.push(outcome.message());
            },
            Command::Leave => {
                let (_, outcome) = leave(position, &self.grid, &mut self.finished);
                msgs.push(outcome.message());
            },
        }
        match self.grid.room(self.position) {
            Some(room) => {
                if room.is_deadly() {
                    self.finished = true;
                    msgs.push(room.describe());
                }
            },
            None => {},
        }
        msgs
    }

    /// How the game ended: into the void, to the infestation, or out
    /// through an entrance.
    pub open spec fn spec_ending(self) -> Ending {
        if !self.grid.dom_has(self.position) {
            Ending::Void
        } else if self.grid.room_at(self.position).spec_is_deadly() {
            Ending::Dead
        } else {
            Ending::Escaped
        }
    }

    /// How the game ended, judged once the turn loop has stopped.
    pub fn ending(&self) -> (r: Ending)
        requires
            self.wf(),
        ensures
            r == self.spec_ending(),
    {
        match self.grid.room(self.position) {
            None => Ending::Void,
            Some(room) => if room.is_deadly() {
                Ending::Dead
            } else {
                Ending::Escaped
            },
        }
    }
}

/// Standing in a deadly room when the loop stops is classified as the
/// losing ending; `apply_command` finishes the game whenever the player
/// enters or remains in such a room.
pub proof fn lemma_deadly_room_is_loss(s: GameState)
    requires
        s.spec_in_deadly_room(),
    ensures
        s.spec_ending() == Ending::Dead,
{
}

/// The fixed starting map, as one sequence of position/room entries.
pub open spec fn spec_initial_rooms() -> Seq<(Position, Room)> {
    seq![
        (
            Position { x: 0, y: 0 },
            Room {
                exits: Exits {
                    north: Some(ExitStatus::Cleared),
                    east: None,
                    south: None,
                    west: None,
                },
                status: RoomStatus::Entrance,
                infested: 0,
            },
        ),
        (
            Position { x: 0, y: 1 },
            Room {
                exits: Exits {
                    north: Some(ExitStatus::Blocked),
                    east: None,
                    south: Some(ExitStatus::Cleared),
                    west: None,
                },
                status: RoomStatus::TreasureFilled,
                infested: 0,
            },
        ),
        (
            Position { x: 0, y: 2 },
            Room {
                exits: Exits {
                    north: Some(ExitStatus::Cleared),
                    east: None,
                    south: Some(ExitStatus::Cleared),
                    west: None,
                },
                status: RoomStatus::Empty,
                infested: 0,
            },
        ),
        (
            Position { x: 0, y: 3 },
            Room {
                exits: Exits {
                    north: Some(ExitStatus::Cleared),
                    east: None,
                    south: Some(ExitStatus::Cleared),
                    west: None,
                },
                status: RoomStatus::Empty,
                infested: 0,
            },
        ),
        (
            Position { x: 0, y: 4 },
            Room {
                exits: Exits {
                    north: Some(ExitStatus::Blocked),
                    east: Some(ExitStatus::Cleared),
                    south: Some(ExitStatus::Cleared),
                    west: None,
                },
                status: RoomStatus::Empty,
                infested: 0,
            },
        ),
        (
            Position { x: 1, y: 4 },
            Room {
                exits: Exits {
                    north: None,
                    east: Some(ExitStatus::Blocked),
                    south: None,
                    west: Some(ExitStatus::Cleared),
                },
                status: RoomStatus::Empty,
                infested: 0,
            },
        ),
        (
            Position { x: 2, y: 4 },
            Room {
                exits: Exits {
                    north: Some(ExitStatus::Cleared),
                    east: None,
                    south: None,
                    west: Some(ExitStatus::Cleared),
                },
                status: RoomStatus::Empty,
                infested: 0,
            },
        ),
        (
            Position { x: 2, y: 5 },
            Room {
                exits: Exits {
                    north: None,
                    east: None,
                    south: Some(ExitStatus::Cleared),
                    west: Some(ExitStatus::Cleared),
                },
                status: RoomStatus::Empty,
                infested: 0,
            },
        ),
        (
            Position { x: 1, y: 5 },
            Room {
                exits: Exits {
                    north: Some(ExitStatus::Blocked),
                    east: Some(ExitStatus::Cleared),
                    south: None,
                    west: Some(ExitStatus::Blocked),
                },
                status: RoomStatus::Empty,
                infested: 0,
            },
        ),
        (
            Position { x: 1, y: 6 },
            Room {
                exits: Exits {
                    north: None,
                    east: None,
                    south: Some(ExitStatus::Cleared),
                    west: None,
                },
                status: RoomStatus::Empty,
                infested: 0,
            },
        ),
        (
            Position { x: 0, y: 5 },
            Room {
                exits: Exits {
                    north: None,
                    east: Some(ExitStatus::Cleared),
                    south: Some(ExitStatus::Blocked),
                    west: Some(ExitStatus::Blocked),
                },
                status: RoomStatus::Empty,
                infested: 0,
            },
        ),
        (
            Position { x: -1i32, y: 5 },
            Room {
                exits: Exits {
                    north: None,
                    east: Some(ExitStatus::Cleared),
                    south: None,
                    west: None,
                },
                status: RoomStatus::TreasureFilled,
                infested: 0,
            },
        ),
    ]
}

/// The position the player starts at: the entrance room.
pub open spec fn spec_start_position() -> Position {
    Position { x: 0, y: 0 }
}

/// The position the player starts at: the entrance room.
pub fn start_position() -> (r: Position)
    ensures
        r == spec_start_position(),
{
    Position { x: 0, y: 0 }
}

/// Builds the fixed starting map.
pub fn get_rooms() -> (r: Grid)
    ensures
        r.wf(),
        r.rooms@ == spec_initial_rooms(),
{
    let mut rooms: Vec<(Position, Room)> = Vec::new();
    rooms.push(
        (
            Position { x: 0, y: 0 },
            Room {
                exits: Exits {
                    north: Some(ExitStatus::Cleared),
                    east: None,
                    south: None,
                    west: None,
                },
                status: RoomStatus::Entrance,
                infested: 0,
            },
        ),
    );
    rooms.push(
        (
            Position { x: 0, y: 1 },
            Room {
                exits: Exits {
                    north: Some(ExitStatus::Blocked),
                    east: None,
                    south: Some(ExitStatus::Cleared),
                    west: None,
                },
                status: RoomStatus::TreasureFilled,
                infested: 0,
            },
        ),
    );
    rooms.push(
        (
            Position { x: 0, y: 2 },
            Room {
                exits: Exits {
                    north: Some(ExitStatus::Cleared),
                    east: None,
                    south: Some(ExitStatus::Cleared),
                    west: None,
                },
                status: RoomStatus::Empty,
                infested: 0,
            },
        ),
    );
    rooms.push(
        (
            Position { x: 0, y: 3 },
            Room {
                exits: Exits {
                    north: Some(ExitStatus::Cleared),
                    east: None,
                    south: Some(ExitStatus::Cleared),
                    west: None,
                },
                status: RoomStatus::Empty,
                infested: 0,
            },
        ),
    );
    rooms.push(
        (
            Position { x: 0, y: 4 },
            Room {
                exits: Exits {
                    north: Some(ExitStatus::Blocked),
                    east: Some(ExitStatus::Cleared),
                    south: Some(ExitStatus::Cleared),
                    west: None,
                },
                status: RoomStatus::Empty,
                infested: 0,
            },
        ),
    );
    rooms.push(
        (
            Position { x: 1, y: 4 },
            Room {
                exits: Exits {
                    north: None,
                    east: Some(ExitStatus::Blocked),
                    south: None,
                    west: Some(ExitStatus::Cleared),
                },
                status: RoomStatus::Empty,
                infested: 0,
            },
        ),
    );
    rooms.push(
        (
            Position { x: 2, y: 4 },
            Room {
                exits: Exits {
                    north: Some(ExitStatus::Cleared),
                    east: None,
                    south: None,
                    west: Some(ExitStatus::Cleared),
                },
                status: RoomStatus::Empty,
                infested: 0,
            },
        ),
    );
    rooms.push(
        (
            Position { x: 2, y: 5 },
            Room {
                exits: Exits {
                    north: None,
                    east: None,
                    south: Some(ExitStatus::Cleared),
                    west: Some(ExitStatus::Cleared),
                },
                status: RoomStatus::Empty,
                infested: 0,
            },
        ),
    );
    rooms.push(
        (
            Position { x: 1, y: 5 },
            Room {
                exits: Exits {
                    north: Some(ExitStatus::Blocked),
                    east: Some(ExitStatus::Cleared),
                    south: None,
                    west: Some(ExitStatus::Blocked),
                },
                status: RoomStatus::Empty,
                infested: 0,
            },
        ),
    );
    rooms.push(
        (
            Position { x: 1, y: 6 },
            Room {
                exits: Exits {
                    north: None,
                    east: None,
                    south: Some(ExitStatus::Cleared),
                    west: None,
                },
                status: RoomStatus::Empty,
                infested: 0,
            },
        ),
    );
    rooms.push(
        (
            Position { x: 0, y: 5 },
            Room {
                exits: Exits {
                    north: None,
                    east: Some(ExitStatus::Cleared),
                    south: Some(ExitStatus::Blocked),
                    west: Some(ExitStatus::Blocked),
                },
                status: RoomStatus::Empty,
                infested: 0,
            },
        ),
    );
    rooms.push(
        (
            Position { x: -1, y: 5 },
            Room {
                exits: Exits {
                    north: None,
                    east: Some(ExitStatus::Cleared),
                    south: None,
                    west: None,
                },
                status: RoomStatus::TreasureFilled,
                infested: 0,
            },
        ),
    );
    let r = Grid { rooms };
    proof {
        assert(r.rooms@ =~= spec_initial_rooms());
        assert forall|i: int, j: int| 0 <= i < j < r.rooms@.len()
            implies r.rooms@[i].0 != r.rooms@[j].0 by {
        }
        assert forall|i: int| 0 <= i < r.rooms@.len()
            implies Grid::interior(#[trigger] r.rooms@[i].0) by {
        }
        assert forall|i: int| 0 <= i < r.rooms@.len() implies (#[trigger] r.rooms@[i].1).wf() by {
        }
    }
    r
}

} // verus!
