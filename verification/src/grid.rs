//! The room grid: a mapping from positions to rooms.
//!
//! The grid is fixed in membership after construction — rooms mutate, none
//! are added or removed. Positions absent from the grid are "the void".

use vstd::prelude::*;
use crate::direction::Position;
use crate::room::{Room, RoomStatus};

verus! {

/// The mapping from grid positions to rooms, keyed by exact coordinates.
pub struct Grid {
    pub rooms: Vec<(Position, Room)>,
}

impl Grid {
    /// Whether coordinates sit strictly inside the machine range, so that
    /// every neighbouring cell is representable.
    pub open spec fn interior(p: Position) -> bool {
        &&& i32::MIN < p.x < i32::MAX
        &&& i32::MIN < p.y < i32::MAX
    }

    /// The grid invariant: positions are distinct and interior, and every
    /// room satisfies the room invariant.
    pub open spec fn wf(self) -> bool {
        &&& forall|i: int, j: int|
            0 <= i < j < self.rooms@.len() ==> self.rooms@[i].0 != self.rooms@[j].0
        &&& forall|i: int| 0 <= i < self.rooms@.len() ==> Grid::interior(#[trigger] self.rooms@[i].0)
        &&& forall|i: int| 0 <= i < self.rooms@.len() ==> (#[trigger] self.rooms@[i].1).wf()
    }

    /// Whether a room exists at the given position.
    pub open spec fn dom_has(self, p: Position) -> bool {
        exists|i: int| 0 <= i < self.rooms@.len() && self.rooms@[i].0 == p
    }

    /// The index at which the given position is stored; meaningful when
    /// `dom_has(p)` holds (and unique under `wf`).
    pub open spec fn index_of(self, p: Position) -> int {
        choose|i: int| 0 <= i < self.rooms@.len() && self.rooms@[i].0 == p
    }

    /// The room stored at the given position; meaningful when `dom_has(p)`
    /// holds.
    pub open spec fn room_at(self, p: Position) -> Room {
        self.rooms@[self.index_of(p)].1
    }

    /// Whether no room anywhere in the grid still holds treasure.
    pub open spec fn spec_all_treasure_taken(self) -> bool {
        forall|i: int|
            0 <= i < self.rooms@.len() ==> (#[trigger] self.rooms@[i].1).status != RoomStatus::TreasureFilled
    }

    /// An empty grid.
    pub fn new() -> (r: Grid)
        ensures
            r.wf(),
            r.rooms@.len() == 0,
    {
        Grid { rooms: Vec::new() }
    }

    /// Adds a room at a position not yet in the grid.
    pub fn add_room(&mut self, p: Position, room: Room)
        requires
            old(self).wf(),
            !old(self).dom_has(p),
            Grid::interior(p),
            room.wf(),
        ensures
            final(self).wf(),
            final(self).rooms@ == old(self).rooms@.push((p, room)),
    {
        self.rooms.push((p, room));
    }

    /// Looks a position up, returning the index it is stored at.
    fn find(&self, p: Position) -> (r: Option<usize>)
        requires
            self.wf(),
        ensures
            match r {
                Some(i) => self.dom_has(p) && i < self.rooms@.len() && self.rooms@[i as int].0 == p
                    && self.index_of(p) == i,
                None => !self.dom_has(p),
            },
    {
        let n = self.rooms.len();
        let mut i: usize = 0;
        while i < n
            invariant
                self.wf(),
                n == self.rooms@.len(),
                i <= n,
                forall|j: int| 0 <= j < i ==> self.rooms@[j].0 != p,
            decreases n - i,
        {
            if self.rooms[i].0 == p {
                proof {
                    lemma_index_unique(*self, i as int, p);
                }
                return Some(i);
            }
            i = i + 1;
        }
        None
    }

    /// Whether a room exists at the given position.
    pub fn has_room(&self, p: Position) -> (r: bool)
        requires
            self.wf(),
        ensures
            r == self.dom_has(p),
    {
        self.find(p).is_some()
    }

    /// The room at the given position, if one exists, by copy.
    pub fn room(&self, p: Position) -> (r: Option<Room>)
        requires
            self.wf(),
        ensures
            match r {
                Some(room) => self.dom_has(p) && room == self.room_at(p),
                None => !self.dom_has(p),
            },
    {
        match self.find(p) {
            Some(i) => Some(self.rooms[i].1),
            None => None,
        }
    }

    /// Replaces the room at a position already in the grid, leaving every
    /// other room, and the set of positions, untouched.
    pub fn update(&mut self, p: Position, room: Room)
        requires
            old(self).wf(),
            old(self).dom_has(p),
            room.wf(),
        ensures
            final(self).wf(),
            final(self).rooms@.len() == old(self).rooms@.len(),
            forall|i: int|
                0 <= i < old(self).rooms@.len() ==> final(self).rooms@[i].0 == old(self).rooms@[i].0,
            forall|q: Position| final(self).dom_has(q) == old(self).dom_has(q),
            forall|q: Position| old(self).dom_has(q) ==> final(self).index_of(q) == old(self).index_of(q),
            final(self).room_at(p) == room,
            forall|q: Position|
                old(self).dom_has(q) && q != p ==> final(self).room_at(q) == old(self).room_at(q),
    {
        let i = self.find(p).unwrap();
        let ghost prev = *self;
        self.rooms[i] = (p, room);
        proof {
            assert forall|a: int, b: int| 0 <= a < b < self.rooms@.len()
                implies self.rooms@[a].0 != self.rooms@[b].0 by {
                assert(prev.rooms@[a].0 == self.rooms@[a].0);
                assert(prev.rooms@[b].0 == self.rooms@[b].0);
            }
            assert(self.wf());
            assert forall|q: Position| self.dom_has(q) == prev.dom_has(q) by {
                if prev.dom_has(q) {
                    let j = prev.index_of(q);
                    assert(self.rooms@[j].0 == q);
                }
                if self.dom_has(q) {
                    let j = self.index_of(q);
                    assert(prev.rooms@[j].0 == q);
                }
            }
            assert forall|q: Position| prev.dom_has(q)
                implies self.index_of(q) == prev.index_of(q) by {
                let j = prev.index_of(q);
                assert(self.rooms@[j].0 == q);
                lemma_index_unique(*self, j, q);
            }
            lemma_index_unique(prev, i as int, p);
        }
    }

    /// Whether no room anywhere in the grid still holds treasure.
    pub fn all_treasure_taken(&self) -> (r: bool)
        ensures
            r == self.spec_all_treasure_taken(),
    {
        let n = self.rooms.len();
        let mut i: usize = 0;
        while i < n
            invariant
                n == self.rooms@.len(),
                i <= n,
                forall|j: int|
                    0 <= j < i ==> (#[trigger] self.rooms@[j].1).status != RoomStatus::TreasureFilled,
            decreases n - i,
        {
            if self.rooms[i].1.status == RoomStatus::TreasureFilled {
                return false;
            }
            i = i + 1;
        }
        true
    }
}

/// Under the grid invariant, a position occurs at one index only, so any
/// index that holds it is the index `index_of` denotes.
pub proof fn lemma_index_unique(g: Grid, i: int, p: Position)
    requires
        g.wf(),
        0 <= i < g.rooms@.len(),
        g.rooms@[i].0 == p,
    ensures
        g.dom_has(p),
        g.index_of(p) == i,
{
    let j = g.index_of(p);
    if j != i {
        if j < i {
            assert(g.rooms@[j].0 != g.rooms@[i].0);
        } else {
            assert(g.rooms@[i].0 != g.rooms@[j].0);
        }
    }
}

} // verus!
