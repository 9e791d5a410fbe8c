//! Rooms: exits, occupancy status, and the infestation counter.

use vstd::prelude::*;
use vstd::string::StringExecFns;
use crate::direction::Direction;

verus! {

/// The infestation level at which a room becomes lethal to occupy.
pub const DEADLY_LIMIT: i8 = 12;

/// Whether passage through one side of a wall is currently possible.
///
/// Each room tracks its own status for each of its exits; the rooms on the
/// two sides of a shared wall hold independent statuses, and a passage is
/// traversable only when both sides are `Cleared`.
#[derive(Clone, Copy, PartialEq, Eq, Structural, Debug)]
pub enum ExitStatus {
    Cleared,
    Blocked,
}

impl ExitStatus {
    /// The suffix narration appends to an exit's mention.
    pub open spec fn spec_describe(self) -> Seq<char> {
        match self {
            ExitStatus::Cleared => ""@,
            ExitStatus::Blocked => " blocked"@,
        }
    }

    /// The suffix narration appends to an exit's mention.
    pub fn describe(&self) -> (r: String)
        ensures
            r@ == self.spec_describe(),
    {
        match self {
            ExitStatus::Cleared => "".to_string(),
            ExitStatus::Blocked => " blocked".to_string(),
        }
    }
}

/// What a room holds: an entrance, nothing, or treasure yet to be taken.
#[derive(Clone, Copy, PartialEq, Eq, Structural, Debug)]
pub enum RoomStatus {
    Entrance,
    Empty,
    TreasureFilled,
}

impl RoomStatus {
    /// The noun phrase narration uses for a room of this status.
    pub open spec fn spec_describe(self) -> Seq<char> {
        match self {
            RoomStatus::Entrance => "an entrance room"@,
            RoomStatus::Empty => "a room"@,
            RoomStatus::TreasureFilled => "a treasure-filled room"@,
        }
    }

    /// The noun phrase narration uses for a room of this status.
    pub fn describe(&self) -> (r: String)
        ensures
            r@ == self.spec_describe(),
    {
        match self {
            RoomStatus::Entrance => "an entrance room".to_string(),
            RoomStatus::Empty => "a room".to_string(),
            RoomStatus::TreasureFilled => "a treasure-filled room".to_string(),
        }
    }
}

/// A room's exits, one optional status per compass direction.
///
/// `None` means the room has no exit on that side at all — nothing to
/// clear, nothing to pass through.
#[derive(Clone, Copy, Debug)]
pub struct Exits {
    pub north: Option<ExitStatus>,
    pub east: Option<ExitStatus>,
    pub south: Option<ExitStatus>,
    pub west: Option<ExitStatus>,
}

impl Exits {
    /// The exit status on the given side, if that side has an exit.
    pub open spec fn of(self, d: Direction) -> Option<ExitStatus> {
        match d {
            Direction::North => self.north,
            Direction::East => self.east,
            Direction::South => self.south,
            Direction::West => self.west,
        }
    }

    /// A room with no exits in any direction.
    pub open spec fn spec_none() -> Exits {
        Exits { north: None, east: None, south: None, west: None }
    }

    /// How many sides have an exit.
    pub open spec fn spec_count(self) -> int {
        (if self.north is Some { 1int } else { 0int })
        + (if self.east is Some { 1int } else { 0int })
        + (if self.south is Some { 1int } else { 0int })
        + (if self.west is Some { 1int } else { 0int })
    }

    /// The present exits in fixed compass order: north, east, south, west.
    pub open spec fn spec_list(self) -> Seq<(Direction, ExitStatus)> {
        let s = Seq::<(Direction, ExitStatus)>::empty();
        let s = if let Some(st) = self.north { s.push((Direction::North, st)) } else { s };
        let s = if let Some(st) = self.east { s.push((Direction::East, st)) } else { s };
        let s = if let Some(st) = self.south { s.push((Direction::South, st)) } else { s };
        if let Some(st) = self.west { s.push((Direction::West, st)) } else { s }
    }

    /// Builds an exit set with no exits.
    pub fn none() -> (r: Exits)
        ensures
            r == Exits::spec_none(),
    {
        Exits { north: None, east: None, south: None, west: None }
    }

    /// The exit status on the given side, if that side has an exit.
    pub fn get(&self, d: Direction) -> (r: Option<ExitStatus>)
        ensures
            r == self.of(d),
    {
        match d {
            Direction::North => self.north,
            Direction::East => self.east,
            Direction::South => self.south,
            Direction::West => self.west,
        }
    }

    /// Sets the exit status on the given side, leaving the other sides
    /// untouched.
    pub fn set(&mut self, d: Direction, status: ExitStatus)
        ensures
            final(self).of(d) == Some(status),
            forall|e: Direction| e != d ==> final(self).of(e) == old(self).of(e),
    {
        match d {
            Direction::North => self.north = Some(status),
            Direction::East => self.east = Some(status),
            Direction::South => self.south = Some(status),
            Direction::West => self.west = Some(status),
        }
    }

    /// The present exits in fixed compass order: north, east, south, west.
    pub fn list(&self) -> (r: Vec<(Direction, ExitStatus)>)
        ensures
            r@ == self.spec_list(),
    {
        let mut r: Vec<(Direction, ExitStatus)> = Vec::new();
        if let Some(st) = self.north {
            r.push((Direction::North, st));
        }
        if let Some(st) = self.east {
            r.push((Direction::East, st));
        }
        if let Some(st) = self.south {
            r.push((Direction::South, st));
        }
        if let Some(st) = self.west {
            r.push((Direction::West, st));
        }
        r
    }
}

/// A room whose infestation has reached the deadly limit is classified
/// deadly, and a well-formed room is deadly only at exactly that level.
pub proof fn lemma_deadly_at_limit(r: Room)
    ensures
        r.infested == DEADLY_LIMIT ==> r.spec_is_deadly(),
        r.wf() ==> (r.spec_is_deadly() <==> r.infested == DEADLY_LIMIT),
{
}

/// A graph node: its exits, its occupancy status, and its infestation level.
///
/// The room's position is the key it is stored under in the grid; the room
/// does not hold it itself.
#[derive(Clone, Copy, Debug)]
pub struct Room {
    pub exits: Exits,
    pub status: RoomStatus,
    pub infested: i8,
}

impl Room {
    /// The room invariant: the infestation level stays in
    /// `[0, DEADLY_LIMIT]`.
    pub open spec fn wf(self) -> bool {
        0 <= self.infested <= DEADLY_LIMIT
    }

    /// Whether the infestation has taken hold here at all.
    pub open spec fn spec_is_infested(self) -> bool {
        1 <= self.infested <= DEADLY_LIMIT
    }

    /// Whether the room is lethal to occupy.
    pub open spec fn spec_is_deadly(self) -> bool {
        self.infested >= DEADLY_LIMIT
    }

    /// The room after one infestation advance: the level rises by one,
    /// capped at the deadly limit; nothing else changes.
    pub open spec fn spec_infest(self) -> Room {
        Room {
            infested: if self.infested < DEADLY_LIMIT { (self.infested + 1) as i8 } else { DEADLY_LIMIT },
            ..self
        }
    }

    /// The infestation level at which this room becomes deadly.
    pub fn infested_deadly_limit(&self) -> (r: i8)
        ensures
            r == DEADLY_LIMIT,
    {
        DEADLY_LIMIT
    }

    /// Whether the infestation has taken hold here at all.
    pub fn is_infested(&self) -> (r: bool)
        ensures
            r == self.spec_is_infested(),
    {
        1 <= self.infested && self.infested <= DEADLY_LIMIT
    }

    /// Whether the room is lethal to occupy.
    pub fn is_deadly(&self) -> (r: bool)
        ensures
            r == self.spec_is_deadly(),
    {
        self.infested >= DEADLY_LIMIT
    }

    /// Advances the infestation by one level, capped at the deadly limit.
    pub fn infest(&mut self)
        requires
            old(self).wf(),
        ensures
            *final(self) == old(self).spec_infest(),
            final(self).wf(),
    {
        if self.infested < DEADLY_LIMIT {
            self.infested = self.infested + 1;
        } else {
            self.infested = DEADLY_LIMIT;
        }
    }

    /// The narration inserted after the room's noun phrase, by infestation
    /// level.
    pub open spec fn spec_describe_infestation(self) -> Seq<char> {
        if self.infested <= 0 {
            ""@
        } else if self.infested < DEADLY_LIMIT - 2 {
            " where you can hear faint slithering noises"@
        } else if self.infested <= DEADLY_LIMIT {
            " with many snakes pouring in"@
        } else {
            " that has echoes of the void"@
        }
    }

    /// The narration inserted after the room's noun phrase, by infestation
    /// level.
    pub fn describe_infestation(&self) -> (r: String)
        ensures
            r@ == self.spec_describe_infestation(),
    {
        let lim = self.infested_deadly_limit();
        if self.infested <= 0 {
            "".to_string()
        } else if self.infested < lim - 2 {
            " where you can hear faint slithering noises".to_string()
        } else if self.infested <= lim {
            " with many snakes pouring in".to_string()
        } else {
            " that has echoes of the void".to_string()
        }
    }

    /// The phrase for one listed exit: "one[ blocked] exit to the <dir>"
    /// followed by ", ", " and " or "." according to its place in the list.
    pub open spec fn spec_exit_phrase(entry: (Direction, ExitStatus), i: int, n: int) -> Seq<char> {
        "one"@ + entry.1.spec_describe() + " exit to the "@ + entry.0.spec_describe()
        + if i + 2 < n {
            ", "@
        } else if i + 2 == n {
            " and "@
        } else {
            "."@
        }
    }

    /// The first `k` exit phrases of the list, concatenated.
    pub open spec fn spec_exit_phrases(list: Seq<(Direction, ExitStatus)>, k: int) -> Seq<char>
        decreases k,
    {
        if k <= 0 {
            Seq::<char>::empty()
        } else {
            Room::spec_exit_phrases(list, k - 1) + Room::spec_exit_phrase(list[k - 1], k - 1, list.len() as int)
        }
    }

    /// The sentence narration uses for this room's exits.
    pub open spec fn spec_describe_exits(self) -> Seq<char> {
        let list = self.exits.spec_list();
        if list.len() == 0 {
            "There are no exits."@
        } else {
            "There is "@ + Room::spec_exit_phrases(list, list.len() as int)
        }
    }

    /// The sentence narration uses for this room's exits.
    #[verifier::rlimit(50)]
    pub fn describe_exits(&self) -> (r: String)
        ensures
            r@ == self.spec_describe_exits(),
    {
        let list = self.exits.list();
        if list.len() == 0 {
            "There are no exits.".to_string()
        } else {
            let mut out = "There is ".to_string();
            let n = list.len();
            let mut i: usize = 0;
            while i < n
                invariant
                    n == list@.len(),
                    0 < n <= 4,
                    i <= n,
                    out@ == "There is "@ + Room::spec_exit_phrases(list@, i as int),
                decreases n - i,
            {
                let (direction, status) = list[i];
                out.append("one");
                out.append(status.describe().as_str());
                out.append(" exit to the ");
                out.append(direction.describe().as_str());
                if i + 2 < n {
                    out.append(", ");
                } else if i + 2 == n {
                    out.append(" and ");
                } else {
                    out.append(".");
                }
                i = i + 1;
            }
            out
        }
    }

    /// The full room description: status, infestation, then the exits.
    pub open spec fn spec_describe(self) -> Seq<char> {
        "You find yourself in "@ + self.status.spec_describe()
        + self.spec_describe_infestation() + ". "@ + self.spec_describe_exits()
    }

    /// The full room description: status, infestation, then the exits.
    pub fn describe(&self) -> (r: String)
        ensures
            r@ == self.spec_describe(),
    {
        let mut out = "You find yourself in ".to_string();
        out.append(self.status.describe().as_str());
        out.append(self.describe_infestation().as_str());
        out.append(". ");
        out.append(self.describe_exits().as_str());
        out
    }
}

} // verus!
