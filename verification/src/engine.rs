//! The movement engine and the infestation simulator.
//!
//! Every command outcome is a variant of an outcome enum, paired with the
//! narration line the original game printed for it. Movement and clearing
//! follow the double-sided exit rule: a passage is traversable only when
//! the origin's exit and the destination's reverse exit are both cleared.

use vstd::prelude::*;
use vstd::string::StringExecFns;
use crate::direction::{Direction, Position};
use crate::grid::Grid;
use crate::room::{ExitStatus, Room, RoomStatus};

verus! {

/// The result of attempting to move in a direction.
#[derive(Clone, Copy, PartialEq, Eq, Structural, Debug)]
pub enum MoveOutcome {
    /// The current position has no room at all.
    Trapped,
    /// The current room has no exit on that side.
    NoExit,
    /// The current room's exit on that side is blocked.
    ExitBlocked,
    /// No room exists on the far side of the exit.
    NoRoomConnected,
    /// The far room has no exit back towards the origin.
    NoEntrance,
    /// The far room's exit back towards the origin is blocked.
    EntranceBlocked,
    /// The move succeeded.
    Moved,
}

/// Whether a move from `p` in direction `d` succeeds: the origin room
/// exists with a cleared exit, and the destination room exists with a
/// cleared exit back.
pub open spec fn spec_move_allowed(g: Grid, p: Position, d: Direction) -> bool {
    &&& g.dom_has(p)
    &&& g.room_at(p).exits.of(d) == Some(ExitStatus::Cleared)
    &&& g.dom_has(d.spec_go(p))
    &&& g.room_at(d.spec_go(p)).exits.of(d.spec_reverse()) == Some(ExitStatus::Cleared)
}

/// The outcome of a move attempt, checked in the order the game checks it:
/// origin room, origin exit, destination room, destination's reverse exit.
pub open spec fn spec_move_outcome(g: Grid, p: Position, d: Direction) -> MoveOutcome {
    if !g.dom_has(p) {
        MoveOutcome::Trapped
    } else if g.room_at(p).exits.of(d) is None {
        MoveOutcome::NoExit
    } else if g.room_at(p).exits.of(d) == Some(ExitStatus::Blocked) {
        MoveOutcome::ExitBlocked
    } else if !g.dom_has(d.spec_go(p)) {
        MoveOutcome::NoRoomConnected
    } else {
        match g.room_at(d.spec_go(p)).exits.of(d.spec_reverse()) {
            None => MoveOutcome::NoEntrance,
            Some(ExitStatus::Blocked) => MoveOutcome::EntranceBlocked,
            Some(ExitStatus::Cleared) => MoveOutcome::Moved,
        }
    }
}

/// A position stored in a well-formed grid sits strictly inside the
/// machine range, so a step in any direction from it is representable.
pub proof fn lemma_dom_interior(g: Grid, p: Position)
    requires
        g.wf(),
        g.dom_has(p),
    ensures
        Grid::interior(p),
        forall|d: Direction| #[trigger] d.fits(p),
{
    let i = g.index_of(p);
    assert(g.rooms@[i].0 == p);
    assert(Grid::interior(p));
    assert forall|d: Direction| #[trigger] d.fits(p) by {
        assert(-1 <= d.spec_displacement().0 <= 1);
        assert(-1 <= d.spec_displacement().1 <= 1);
    }
}

/// A move succeeds exactly when both sides of the passage are cleared and
/// the destination room exists.
pub proof fn lemma_move_succeeds_iff(g: Grid, p: Position, d: Direction)
    ensures
        spec_move_outcome(g, p, d) == MoveOutcome::Moved <==> spec_move_allowed(g, p, d),
{
    if g.dom_has(p) {
        match g.room_at(p).exits.of(d) {
            None => {},
            Some(ExitStatus::Blocked) => {},
            Some(ExitStatus::Cleared) => {},
        }
    }
}

/// Attempts to move in a direction. The grid is never changed; the
/// returned position is the destination exactly when the move is allowed,
/// and the starting position otherwise.
pub fn go(position: Position, grid: &Grid, dir: Direction) -> (r: (Position, MoveOutcome))
    requires
        grid.wf(),
    ensures
        r.1 == spec_move_outcome(*grid, position, dir),
        r.0 == if spec_move_allowed(*grid, position, dir) {
            dir.spec_go(position)
        } else {
            position
        },
{
    match grid.room(position) {
        None => {
            return (position, MoveOutcome::Trapped);
        },
        Some(room) => {
            match room.exits.get(dir) {
                None => {
                    return (position, MoveOutcome::NoExit);
                },
                Some(ExitStatus::Blocked) => {
                    return (position, MoveOutcome::ExitBlocked);
                },
                Some(ExitStatus::Cleared) => {},
            }
        },
    }
    proof {
        lemma_dom_interior(*grid, position);
    }
    let next_position = dir.go(position);
    match grid.room(next_position) {
        None => (position, MoveOutcome::NoRoomConnected),
        Some(next_room) => {
            match next_room.exits.get(dir.reverse()) {
                None => (position, MoveOutcome::NoEntrance),
                Some(ExitStatus::Blocked) => (position, MoveOutcome::EntranceBlocked),
                Some(ExitStatus::Cleared) => (next_position, MoveOutcome::Moved),
            }
        },
    }
}

impl MoveOutcome {
    /// The narration line for this outcome of a move towards `d`.
    pub open spec fn spec_message(self, d: Direction) -> Seq<char> {
        match self {
            MoveOutcome::Trapped => "You are in the void. You are trapped, forever."@,
            MoveOutcome::NoExit => "You cannot go "@ + d.spec_describe()
                + ". There is no exit!"@,
            MoveOutcome::ExitBlocked => "You cannot go "@ + d.spec_describe()
                + ". The exit is blocked!"@,
            MoveOutcome::NoRoomConnected => "You cannot go "@ + d.spec_describe()
                + ". There is no room connected to the exit!"@,
            MoveOutcome::NoEntrance => "You cannot go "@ + d.spec_describe()
                + ". There is no entrance to the new room."@,
            MoveOutcome::EntranceBlocked => "You cannot go "@ + d.spec_describe()
                + ". The entrance to the new room is blocked!"@,
            MoveOutcome::Moved => "Moving "@ + d.spec_describe() + "."@,
        }
    }

    /// The narration line for this outcome of a move towards `d`.
    pub fn message(&self, d: Direction) -> (r: String)
        ensures
            r@ == self.spec_message(d),
    {
        match self {
            MoveOutcome::Trapped => "You are in the void. You are trapped, forever.".to_string(),
            MoveOutcome::NoExit => {
                let mut s = "You cannot go ".to_string();
                s.append(d.describe().as_str());
                s.append(". There is no exit!");
                s
            },
            MoveOutcome::ExitBlocked => {
                let mut s = "You cannot go ".to_string();
                s.append(d.describe().as_str());
                s.append(". The exit is blocked!");
                s
            },
            MoveOutcome::NoRoomConnected => {
                let mut s = "You cannot go ".to_string();
                s.append(d.describe().as_str());
                s.append(". There is no room connected to the exit!");
                s
            },
            MoveOutcome::NoEntrance => {
                let mut s = "You cannot go ".to_string();
                s.append(d.describe().as_str());
                s.append(". There is no entrance to the new room.");
                s
            },
            MoveOutcome::EntranceBlocked => {
                let mut s = "You cannot go ".to_string();
                s.append(d.describe().as_str());
                s.append(". The entrance to the new room is blocked!");
                s
            },
            MoveOutcome::Moved => {
                let mut s = "Moving ".to_string();
                s.append(d.describe().as_str());
                s.append(".");
                s
            },
        }
    }
}

/// Whether a move in the given direction would succeed.
pub fn can_go(position: Position, grid: &Grid, dir: Direction) -> (r: bool)
    requires
        grid.wf(),
    ensures
        r == spec_move_allowed(*grid, position, dir),
{
    let (new_position, _) = go(position, grid, dir);
    proof {
        if spec_move_allowed(*grid, position, dir) {
            lemma_dom_interior(*grid, position);
            assert(dir.spec_go(position) != position);
        }
    }
    new_position != position
}

/// The result of attempting to clear an exit.
#[derive(Clone, Copy, PartialEq, Eq, Structural, Debug)]
pub enum ClearOutcome {
    /// The current position has no room at all.
    NothingToClear,
    /// The current room has no exit on that side.
    NoExit,
    /// The exit was blocked and is now cleared.
    ClearedNow,
    /// This side is clear, but the far room's side is blocked and cannot
    /// be cleared from here.
    FarBlocked,
    /// This side is clear, but the far room has no entrance at all.
    NoFarEntrance,
    /// This side is already clear and nothing needs doing.
    AlreadyClear,
}

impl ClearOutcome {
    /// The narration line for this outcome of clearing towards `d`.
    pub open spec fn spec_message(self, d: Direction) -> Seq<char> {
        match self {
            ClearOutcome::NothingToClear => "You are in the void. There is nothing to clear."@,
            ClearOutcome::NoExit => "You cannot clear the "@ + d.spec_describe()
                + " exit. There is no exit!"@,
            ClearOutcome::ClearedNow => "You clear the "@ + d.spec_describe() + "ern exit."@,
            ClearOutcome::FarBlocked => "You try to clear the entrance to the "@
                + d.spec_describe() + "ern room from this side, but you cannot."@,
            ClearOutcome::NoFarEntrance => "The "@ + d.spec_describe()
                + "ern exit is already clear, but there is no entrance to the new room."@,
            ClearOutcome::AlreadyClear => "The "@ + d.spec_describe()
                + "ern exit is already clear."@,
        }
    }

    /// The narration line for this outcome of clearing towards `d`.
    pub fn message(&self, d: Direction) -> (r: String)
        ensures
            r@ == self.spec_message(d),
    {
        match self {
            ClearOutcome::NothingToClear => "You are in the void. There is nothing to clear.".to_string(),
            ClearOutcome::NoExit => {
                let mut s = "You cannot clear the ".to_string();
                s.append(d.describe().as_str());
                s.append(" exit. There is no exit!");
                s
            },
            ClearOutcome::ClearedNow => {
                let mut s = "You clear the ".to_string();
                s.append(d.describe().as_str());
                s.append("ern exit.");
                s
            },
            ClearOutcome::FarBlocked => {
                let mut s = "You try to clear the entrance to the ".to_string();
                s.append(d.describe().as_str());
                s.append("ern room from this side, but you cannot.");
                s
            },
            ClearOutcome::NoFarEntrance => {
                let mut s = "The ".to_string();
                s.append(d.describe().as_str());
                s.append("ern exit is already clear, but there is no entrance to the new room.");
                s
            },
            ClearOutcome::AlreadyClear => {
                let mut s = "The ".to_string();
                s.append(d.describe().as_str());
                s.append("ern exit is already clear.");
                s
            },
        }
    }
}

/// The outcome of a clear attempt: the local side is cleared when it is
/// blocked; when it is already clear, the far side is inspected but never
/// changed.
pub open spec fn spec_clear_outcome(g: Grid, p: Position, d: Direction) -> ClearOutcome {
    if !g.dom_has(p) {
        ClearOutcome::NothingToClear
    } else if g.room_at(p).exits.of(d) is None {
        ClearOutcome::NoExit
    } else if g.room_at(p).exits.of(d) == Some(ExitStatus::Blocked) {
        ClearOutcome::ClearedNow
    } else if g.dom_has(d.spec_go(p)) {
        match g.room_at(d.spec_go(p)).exits.of(d.spec_reverse()) {
            Some(ExitStatus::Blocked) => ClearOutcome::FarBlocked,
            None => ClearOutcome::NoFarEntrance,
            Some(ExitStatus::Cleared) => ClearOutcome::AlreadyClear,
        }
    } else {
        ClearOutcome::AlreadyClear
    }
}

/// How a grid after a successful clear at `(p, d)` relates to the grid
/// before it: the positions are the same, the one cleared exit is the only
/// change to the room at `p`, and every other room — the far side of the
/// wall included — is exactly as it was.
pub open spec fn spec_cleared_grid_rel(g1: Grid, p: Position, d: Direction, g2: Grid) -> bool {
    &&& forall|q: Position| g2.dom_has(q) == g1.dom_has(q)
    &&& g2.room_at(p).exits.of(d) == Some(ExitStatus::Cleared)
    &&& forall|e: Direction| e != d ==> g2.room_at(p).exits.of(e) == g1.room_at(p).exits.of(e)
    &&& g2.room_at(p).status == g1.room_at(p).status
    &&& g2.room_at(p).infested == g1.room_at(p).infested
    &&& forall|q: Position| g1.dom_has(q) && q != p ==> g2.room_at(q) == g1.room_at(q)
}

/// Attempts to clear an exit of the current room. Clearing is strictly
/// local: when the outcome is `ClearedNow`, the one cleared exit of the
/// current room is the only change in the whole grid — the far side's
/// status is never touched; on every other outcome the grid is unchanged.
pub fn clear(position: Position, grid: &mut Grid, dir: Direction) -> (r: (Position, ClearOutcome))
    requires
        old(grid).wf(),
    ensures
        final(grid).wf(),
        r.0 == position,
        r.1 == spec_clear_outcome(*old(grid), position, dir),
        r.1 == ClearOutcome::ClearedNow ==> spec_cleared_grid_rel(
            *old(grid),
            position,
            dir,
            *final(grid),
        ),
        r.1 != ClearOutcome::ClearedNow ==> *final(grid) == *old(grid),
{
    let looked = grid.room(position);
    match looked {
        None => {
            return (position, ClearOutcome::NothingToClear);
        },
        Some(room) => {
            match room.exits.get(dir) {
                None => {
                    return (position, ClearOutcome::NoExit);
                },
                Some(ExitStatus::Blocked) => {
                    let mut updated = room;
                    updated.exits.set(dir, ExitStatus::Cleared);
                    grid.update(position, updated);
                    return (position, ClearOutcome::ClearedNow);
                },
                Some(ExitStatus::Cleared) => {},
            }
        },
    }
    proof {
        lemma_dom_interior(*grid, position);
    }
    let next_position = dir.go(position);
    match grid.room(next_position) {
        Some(next_room) => {
            match next_room.exits.get(dir.reverse()) {
                Some(ExitStatus::Blocked) => (position, ClearOutcome::FarBlocked),
                None => (position, ClearOutcome::NoFarEntrance),
                Some(ExitStatus::Cleared) => (position, ClearOutcome::AlreadyClear),
            }
        },
        None => (position, ClearOutcome::AlreadyClear),
    }
}

/// The result of attempting to take treasure.
#[derive(Clone, Copy, PartialEq, Eq, Structural, Debug)]
pub enum TakeOutcome {
    /// The current position has no room at all.
    Trapped,
    /// Treasure was here and has been taken.
    Taken,
    /// The room holds no treasure.
    NothingToTake,
}

impl TakeOutcome {
    /// The narration line for this outcome of a take attempt.
    pub open spec fn spec_message(self) -> Seq<char> {
        match self {
            TakeOutcome::Trapped => "You are in the void. You are trapped, forever."@,
            TakeOutcome::Taken => "You take the treasure."@,
            TakeOutcome::NothingToTake => "There is nothing to take."@,
        }
    }

    /// The narration line for this outcome of a take attempt.
    pub fn message(&self) -> (r: String)
        ensures
            r@ == self.spec_message(),
    {
        match self {
            TakeOutcome::Trapped => "You are in the void. You are trapped, forever.".to_string(),
            TakeOutcome::Taken => "You take the treasure.".to_string(),
            TakeOutcome::NothingToTake => "There is nothing to take.".to_string(),
        }
    }
}

/// The outcome of a take attempt.
pub open spec fn spec_take_outcome(g: Grid, p: Position) -> TakeOutcome {
    if !g.dom_has(p) {
        TakeOutcome::Trapped
    } else if g.room_at(p).status == RoomStatus::TreasureFilled {
        TakeOutcome::Taken
    } else {
        TakeOutcome::NothingToTake
    }
}

/// The current room after its treasure is taken: the status collapses to
/// `Empty` and taking disturbs the room, seeding infestation level 1 when
/// the room was clean; an existing infestation is left as it is.
pub open spec fn spec_after_take(room: Room) -> Room {
    Room {
        status: RoomStatus::Empty,
        infested: if room.infested < 1 { 1 as i8 } else { room.infested },
        ..room
    }
}

/// How a grid after a successful take at `p` relates to the grid before
/// it: the positions are the same, the room at `p` is the taken-from room,
/// and every other room is exactly as it was.
pub open spec fn spec_taken_grid_rel(g1: Grid, p: Position, g2: Grid) -> bool {
    &&& forall|q: Position| g2.dom_has(q) == g1.dom_has(q)
    &&& g2.room_at(p) == spec_after_take(g1.room_at(p))
    &&& forall|q: Position| g1.dom_has(q) && q != p ==> g2.room_at(q) == g1.room_at(q)
}

/// Attempts to take the treasure in the current room. The position never
/// changes; on success the current room alone is updated.
pub fn take(position: Position, grid: &mut Grid) -> (r: (Position, TakeOutcome))
    requires
        old(grid).wf(),
    ensures
        final(grid).wf(),
        r.0 == position,
        r.1 == spec_take_outcome(*old(grid), position),
        r.1 == TakeOutcome::Taken ==> spec_taken_grid_rel(*old(grid), position, *final(grid)),
        r.1 != TakeOutcome::Taken ==> *final(grid) == *old(grid),
{
    match grid.room(position) {
        None => (position, TakeOutcome::Trapped),
        Some(room) => {
            if room.status == RoomStatus::TreasureFilled {
                let mut updated = room;
                if updated.infested < 1 {
                    updated.infested = 1;
                }
                updated.status = RoomStatus::Empty;
                grid.update(position, updated);
                (position, TakeOutcome::Taken)
            } else {
                (position, TakeOutcome::NothingToTake)
            }
        },
    }
}

/// The result of attempting to leave.
#[derive(Clone, Copy, PartialEq, Eq, Structural, Debug)]
pub enum LeaveOutcome {
    /// The player stands at an entrance with every treasure taken: the
    /// game is won.
    Left,
    /// Every treasure is taken, but the player is not at an entrance.
    NeedEntrance,
    /// Some room still holds treasure.
    TreasureRemains,
}

impl LeaveOutcome {
    /// The narration line for this outcome of a leave attempt.
    pub open spec fn spec_message(self) -> Seq<char> {
        match self {
            LeaveOutcome::Left => "You have left with the treasure. Congratulations!"@,
            LeaveOutcome::NeedEntrance => "You need to get to an entrance to leave."@,
            LeaveOutcome::TreasureRemains => "You do not have all the treasure. You cannot leave."@,
        }
    }

    /// The narration line for this outcome of a leave attempt.
    pub fn message(&self) -> (r: String)
        ensures
            r@ == self.spec_message(),
    {
        match self {
            LeaveOutcome::Left => "You have left with the treasure. Congratulations!".to_string(),
            LeaveOutcome::NeedEntrance => "You need to get to an entrance to leave.".to_string(),
            LeaveOutcome::TreasureRemains => "You do not have all the treasure. You cannot leave.".to_string(),
        }
    }
}

/// Whether leaving succeeds: the current room is an entrance and no room
/// anywhere in the grid still holds treasure.
pub open spec fn spec_leave_allowed(g: Grid, p: Position) -> bool {
    &&& g.dom_has(p)
    &&& g.room_at(p).status == RoomStatus::Entrance
    &&& g.spec_all_treasure_taken()
}

/// The outcome of a leave attempt. When treasure remains, that failure is
/// reported even when the player is also away from an entrance.
pub open spec fn spec_leave_outcome(g: Grid, p: Position) -> LeaveOutcome {
    if spec_leave_allowed(g, p) {
        LeaveOutcome::Left
    } else if g.spec_all_treasure_taken() {
        LeaveOutcome::NeedEntrance
    } else {
        LeaveOutcome::TreasureRemains
    }
}

/// Leaving succeeds exactly when the current room is an entrance and no
/// room in the grid still holds treasure.
pub proof fn lemma_leave_succeeds_iff(g: Grid, p: Position)
    ensures
        spec_leave_outcome(g, p) == LeaveOutcome::Left <==> (g.dom_has(p) && g.room_at(p).status
            == RoomStatus::Entrance && g.spec_all_treasure_taken()),
{
}

/// Attempts to leave. The grid and position never change; the finished
/// flag is raised exactly when leaving is allowed, and otherwise keeps its
/// old value.
pub fn leave(position: Position, grid: &Grid, finished_game: &mut bool) -> (r: (
    Position,
    LeaveOutcome,
))
    requires
        grid.wf(),
    ensures
        r.0 == position,
        r.1 == spec_leave_outcome(*grid, position),
        *final(finished_game) == (*old(finished_game) || spec_leave_allowed(*grid, position)),
{
    let at_entrance = match grid.room(position) {
        Some(room) => room.status == RoomStatus::Entrance,
        None => false,
    };
    let taken_treasure = grid.all_treasure_taken();
    if at_entrance && taken_treasure {
        *finished_game = true;
        (position, LeaveOutcome::Left)
    } else if taken_treasure {
        (position, LeaveOutcome::NeedEntrance)
    } else {
        (position, LeaveOutcome::TreasureRemains)
    }
}

/// Whether some neighbouring room, reachable through a passage cleared on
/// both sides, is infested. Infestation never leaks through blocked or
/// missing exits.
pub open spec fn spec_has_infested_neighbor(g: Grid, p: Position) -> bool {
    exists|d: Direction|
        spec_move_allowed(g, p, d) && g.room_at(d.spec_go(p)).spec_is_infested()
}

/// Whether the room stored at index `i` advances on this tick: it is
/// already infested, or an infested room sits behind a traversable
/// passage.
pub open spec fn spec_qualifies(g: Grid, i: int) -> bool {
    g.rooms@[i].1.spec_is_infested() || spec_has_infested_neighbor(g, g.rooms@[i].0)
}

/// The room stored at index `i` after one tick of the snapshot `g`.
pub open spec fn spec_ticked(g: Grid, i: int) -> Room {
    if spec_qualifies(g, i) {
        g.rooms@[i].1.spec_infest()
    } else {
        g.rooms@[i].1
    }
}

/// Whether the room one step in direction `d` is reachable through a
/// two-sided-cleared passage and infested.
fn neighbor_infested(position: Position, grid: &Grid, dir: Direction) -> (r: bool)
    requires
        grid.wf(),
    ensures
        r == (spec_move_allowed(*grid, position, dir) && grid.room_at(
            dir.spec_go(position),
        ).spec_is_infested()),
{
    if can_go(position, grid, dir) {
        proof {
            lemma_dom_interior(*grid, position);
        }
        let target = dir.go(position);
        match grid.room(target) {
            Some(room) => room.is_infested(),
            None => false,
        }
    } else {
        false
    }
}

/// Whether any of the four neighbouring rooms is infested and reachable
/// through a two-sided-cleared passage.
pub fn has_infested_neighbor(position: Position, grid: &Grid) -> (r: bool)
    requires
        grid.wf(),
    ensures
        r == spec_has_infested_neighbor(*grid, position),
{
    let north = neighbor_infested(position, grid, Direction::North);
    let south = neighbor_infested(position, grid, Direction::South);
    let east = neighbor_infested(position, grid, Direction::East);
    let west = neighbor_infested(position, grid, Direction::West);
    let r = north || south || east || west;
    proof {
        if !r {
            assert forall|d: Direction|
                !(spec_move_allowed(*grid, position, d) && grid.room_at(
                    d.spec_go(position),
                ).spec_is_infested()) by {
                match d {
                    Direction::North => {},
                    Direction::East => {},
                    Direction::South => {},
                    Direction::West => {},
                }
            }
        }
    }
    r
}

/// For each stored room, whether it qualifies to advance on this tick,
/// judged against the grid as it stands.
fn qualifying_flags(grid: &Grid) -> (r: Vec<bool>)
    requires
        grid.wf(),
    ensures
        r@.len() == grid.rooms@.len(),
        forall|j: int| 0 <= j < r@.len() ==> r@[j] == spec_qualifies(*grid, j),
{
    let n = grid.rooms.len();
    let mut flags: Vec<bool> = Vec::new();
    let mut i: usize = 0;
    while i < n
        invariant
            grid.wf(),
            n == grid.rooms@.len(),
            i <= n,
            flags@.len() == i,
            forall|j: int| 0 <= j < i ==> flags@[j] == spec_qualifies(*grid, j),
        decreases n - i,
    {
        let entry = grid.rooms[i];
        let q = entry.1.is_infested() || has_infested_neighbor(entry.0, grid);
        flags.push(q);
        i = i + 1;
    }
    flags
}

/// How a grid one tick later relates to its pre-tick snapshot: the same
/// positions in the same order, each room ticked against the snapshot.
pub open spec fn spec_tick_rel(g1: Grid, g2: Grid) -> bool {
    &&& g2.rooms@.len() == g1.rooms@.len()
    &&& forall|i: int| 0 <= i < g1.rooms@.len() ==> g2.rooms@[i].0 == g1.rooms@[i].0
    &&& forall|i: int| 0 <= i < g1.rooms@.len() ==> g2.rooms@[i].1 == spec_ticked(g1, i)
}

/// An infestation tick never takes a level outside `[0, DEADLY_LIMIT]`:
/// ticks starting from a well-formed grid keep every room's level in
/// range, however many of them run.
pub proof fn lemma_tick_preserves_bounds(g1: Grid, g2: Grid)
    requires
        g1.wf(),
        spec_tick_rel(g1, g2),
    ensures
        forall|i: int|
            0 <= i < g2.rooms@.len() ==> 0 <= (#[trigger] g2.rooms@[i].1).infested
                <= crate::room::DEADLY_LIMIT,
{
    assert forall|i: int| 0 <= i < g2.rooms@.len()
        implies 0 <= (#[trigger] g2.rooms@[i].1).infested <= crate::room::DEADLY_LIMIT by {
        assert(g1.rooms@[i].1.wf());
        assert(g2.rooms@[i].1 == spec_ticked(g1, i));
    }
}

/// One infestation tick over the whole grid, judged atomically against the
/// pre-tick snapshot: every qualifying room rises one level, capped at the
/// deadly limit; no position, exit or status changes, and every level
/// stays within `[0, DEADLY_LIMIT]`.
pub fn update_rooms(grid: &mut Grid)
    requires
        old(grid).wf(),
    ensures
        final(grid).wf(),
        spec_tick_rel(*old(grid), *final(grid)),
{
    let ghost snapshot = *grid;
    let flags = qualifying_flags(grid);
    let n = grid.rooms.len();
    let mut i: usize = 0;
    while i < n
        invariant
            snapshot.wf(),
            n == grid.rooms@.len(),
            n == snapshot.rooms@.len(),
            n == flags@.len(),
            i <= n,
            forall|j: int| 0 <= j < n ==> flags@[j] == spec_qualifies(snapshot, j),
            forall|j: int| 0 <= j < n ==> grid.rooms@[j].0 == snapshot.rooms@[j].0,
            forall|j: int| 0 <= j < i ==> grid.rooms@[j].1 == spec_ticked(snapshot, j),
            forall|j: int| i <= j < n ==> grid.rooms@[j].1 == snapshot.rooms@[j].1,
        decreases n - i,
    {
        if flags[i] {
            let entry = grid.rooms[i];
            let mut updated = entry.1;
            proof {
                assert(snapshot.rooms@[i as int].1.wf());
            }
            updated.infest();
            grid.rooms[i] = (entry.0, updated);
        }
        i = i + 1;
    }
    proof {
        assert forall|a: int, b: int| 0 <= a < b < grid.rooms@.len()
            implies grid.rooms@[a].0 != grid.rooms@[b].0 by {
            assert(snapshot.rooms@[a].0 != snapshot.rooms@[b].0);
        }
        assert forall|j: int| 0 <= j < grid.rooms@.len()
            implies Grid::interior(#[trigger] grid.rooms@[j].0) by {
            assert(Grid::interior(snapshot.rooms@[j].0));
        }
        assert forall|j: int| 0 <= j < grid.rooms@.len()
            implies (#[trigger] grid.rooms@[j].1).wf() by {
            assert(snapshot.rooms@[j].1.wf());
            assert(grid.rooms@[j].1 == spec_ticked(snapshot, j));
        }
        assert(grid.wf());
    }
}

} // verus!
