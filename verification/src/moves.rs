//! The moves a player makes on the grid, and the log that collects them.

use vstd::prelude::*;

verus! {

/// Where a tile sits in the grid; `(0, 0)` is the bottom-left tile.
#[derive(Debug, Clone, Copy, PartialEq, Eq)]
pub struct GridPos {
    pub x: u32,
    pub y: u32,
}

impl GridPos {
    pub fn new(x: u32, y: u32) -> (pos: Self)
        ensures
            pos.x == x,
            pos.y == y,
    {
        Self { x, y }
    }
}

/// One unit of player intent, derived from what the pointer did to a tile.
#[derive(Debug, Clone, Copy, PartialEq, Eq)]
pub enum Move {
    /// The button went down over the tile.
    Push(GridPos),
    /// The pointer entered the tile with the button already down.
    Drag(GridPos),
    /// The button came up over a tile that was held.
    Release,
    /// Reserved: a tile pressed and released quickly. Nothing produces it yet.
    Tap(GridPos),
    /// Reserved: a pushed tile held down for this many nanoseconds. Nothing
    /// produces it yet.
    Hold(u64),
}

impl Move {
    /// The moves that the pointer logic can produce: every variant but the
    /// reserved ones.
    pub open spec fn is_produced(self) -> bool {
        self is Push || self is Drag || self is Release
    }
}

/// The moves that the player has input in the current round, oldest first.
#[derive(Debug)]
pub struct InputMoves(pub Vec<Move>);

impl View for InputMoves {
    type V = Seq<Move>;

    open spec fn view(&self) -> Seq<Move> {
        self.0@
    }
}

impl InputMoves {
    /// An empty log.
    pub fn new() -> (log: Self)
        ensures
            log@ == Seq::<Move>::empty(),
    {
        InputMoves(Vec::new())
    }

    /// Appends `mv` after every move already in the log.
    pub fn record(&mut self, mv: Move)
        ensures
            final(self)@ == old(self)@.push(mv),
    {
        self.0.push(mv);
    }
}

impl Default for InputMoves {
    fn default() -> (log: Self)
        ensures
            log@ == Seq::<Move>::empty(),
    {
        InputMoves::new()
    }
}

} // verus!
