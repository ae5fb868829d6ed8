//! One tile of the grid, and what a tick of pointer input does to it.

use vstd::prelude::*;
use crate::collision::{Point, RectCollision};
use crate::interact::{InteractState, MouseInteractState};
use crate::moves::{GridPos, Move};

verus! {

/// The colour a tile asks to be drawn in.
#[derive(Debug, Clone, Copy, PartialEq, Eq)]
pub enum Tint {
    /// The pointer is elsewhere.
    Idle,
    /// The pointer is over the tile and the button is up.
    Hovered,
    /// The pointer is over the tile and the button is down.
    Held,
}

impl Tint {
    /// The colour that goes with what the pointer is doing to a tile.
    pub open spec fn of(state: MouseInteractState) -> Tint {
        if state.held.on {
            Tint::Held
        } else if state.hovered.on {
            Tint::Hovered
        } else {
            Tint::Idle
        }
    }
}

/// A tile: where it sits in the grid, its bounds in the world, and what the
/// pointer is doing to it.
#[derive(Debug, Clone, Copy, PartialEq, Eq)]
pub struct GridTile {
    pub pos: GridPos,
    pub collision: RectCollision,
    /// The tile's position in the world, on which `collision` is centred.
    pub center: Point,
    pub interact: InteractState,
    pub tint: Tint,
}

/// The move that a tick over the tile at `pos` amounts to, given the button
/// and the flags that the tile had before the tick.
///
/// With the button down: a push if it went down in this tick; else a drag if
/// the pointer has only just come over the tile; else nothing, the tile is
/// simply still held. With the button up: a release if the tile was held.
pub open spec fn inferred_move(
    pos: GridPos,
    pressed: bool,
    just_pressed: bool,
    last_hovered: bool,
    last_held: bool,
) -> Option<Move> {
    if pressed {
        if just_pressed {
            Some(Move::Push(pos))
        } else if !last_hovered {
            Some(Move::Drag(pos))
        } else {
            None
        }
    } else if last_held {
        Some(Move::Release)
    } else {
        None
    }
}

/// Computes the move that a tick over the tile at `pos` amounts to.
/// `last_hovered` and `last_held` are the tile's flags before the tick.
pub fn infer_move(
    pos: GridPos,
    pressed: bool,
    just_pressed: bool,
    last_hovered: bool,
    last_held: bool,
) -> (mv: Option<Move>)
    ensures
        mv == inferred_move(pos, pressed, just_pressed, last_hovered, last_held),
{
    if pressed {
        if just_pressed {
            Some(Move::Push(pos))
        } else if !last_hovered {
            Some(Move::Drag(pos))
        } else {
            None
        }
    } else if last_held {
        Some(Move::Release)
    } else {
        None
    }
}

impl GridTile {
    /// The interaction state is well formed, and the tile asks for the
    /// colour that goes with it.
    pub open spec fn wf(self) -> bool {
        &&& self.interact.mouse.wf()
        &&& self.tint == Tint::of(self.interact.mouse)
    }

    /// Whether a pointer at `cursor` is over the tile.
    pub open spec fn hovered_by(self, cursor: Point) -> bool {
        self.collision.contains(self.center, cursor)
    }

    /// Whether a tick of `elapsed` nanoseconds with the pointer at `cursor`
    /// fits in the tile's counters. A tile that the pointer is not over
    /// always has room.
    pub open spec fn has_room(self, cursor: Point, elapsed: u64, pressed: bool) -> bool {
        self.hovered_by(cursor) ==> self.interact.mouse.has_room(elapsed, pressed)
    }

    /// The tile after a tick of `elapsed` nanoseconds with the pointer at
    /// `cursor`.
    pub open spec fn updated(self, cursor: Point, elapsed: u64, pressed: bool) -> GridTile
        recommends
            self.has_room(cursor, elapsed, pressed),
    {
        if self.hovered_by(cursor) {
            GridTile {
                interact: InteractState { mouse: self.interact.mouse.interacted(elapsed, pressed) },
                tint: if pressed {
                    Tint::Held
                } else {
                    Tint::Hovered
                },
                ..self
            }
        } else {
            GridTile {
                interact: InteractState { mouse: self.interact.mouse.ended() },
                tint: Tint::Idle,
                ..self
            }
        }
    }

    /// The move, if any, that the tile adds to the log in a tick with the
    /// pointer at `cursor`.
    pub open spec fn emitted(
        self,
        cursor: Point,
        pressed: bool,
        just_pressed: bool,
    ) -> Option<Move> {
        if self.hovered_by(cursor) {
            inferred_move(
                self.pos,
                pressed,
                just_pressed,
                self.interact.mouse.hovered.on,
                self.interact.mouse.held.on,
            )
        } else {
            None
        }
    }

    /// A tile that nothing interacts with.
    pub fn new(pos: GridPos, collision: RectCollision, center: Point) -> (tile: Self)
        ensures
            tile.pos == pos,
            tile.collision == collision,
            tile.center == center,
            tile.interact == InteractState::idle(),
            tile.tint == Tint::Idle,
            tile.wf(),
    {
        GridTile { pos, collision, center, interact: InteractState::new(), tint: Tint::Idle }
    }

    /// Tells whether `update` may be called with these arguments.
    pub fn can_update(&self, cursor: Point, elapsed: u64, pressed: bool) -> (fits: bool)
        ensures
            fits == self.has_room(cursor, elapsed, pressed),
    {
        !self.collision.meets_point(self.center, cursor) || self.interact.mouse.can_interact(
            elapsed,
            pressed,
        )
    }

    /// Advances the tile by one tick of `elapsed` nanoseconds in which the
    /// pointer was at `cursor`, and returns the move that this amounts to.
    ///
    /// With the pointer elsewhere the interaction ends: both flags go off and
    /// no move is made, not even a release. With the pointer over the tile the
    /// hover flag is turned on and the held flag follows the button; the move,
    /// if any, is inferred from the button and the flags before the tick.
    pub fn update(
        &mut self,
        cursor: Point,
        elapsed: u64,
        pressed: bool,
        just_pressed: bool,
    ) -> (mv: Option<Move>)
        requires
            old(self).has_room(cursor, elapsed, pressed),
        ensures
            *final(self) == old(self).updated(cursor, elapsed, pressed),
            mv == old(self).emitted(cursor, pressed, just_pressed),
            old(self).wf() ==> final(self).wf(),
    {
        if self.collision.meets_point(self.center, cursor) {
            let (last_hovered, last_held) = self.interact.mouse.interact(elapsed, pressed);
            self.tint = if pressed {
                Tint::Held
            } else {
                Tint::Hovered
            };
            infer_move(self.pos, pressed, just_pressed, last_hovered, last_held)
        } else {
            self.interact.mouse.end_interaction();
            self.tint = Tint::Idle;
            None
        }
    }
}

/// A tile makes a push exactly when the button goes down in a tick in which
/// the pointer is over it; the tile is then held.
pub proof fn lemma_push(
    tile: GridTile,
    cursor: Point,
    elapsed: u64,
    pressed: bool,
    just_pressed: bool,
)
    ensures
        tile.emitted(cursor, pressed, just_pressed) == Some(Move::Push(tile.pos)) <==> {
            &&& tile.hovered_by(cursor)
            &&& pressed
            &&& just_pressed
        },
        tile.hovered_by(cursor) && pressed ==> tile.updated(
            cursor,
            elapsed,
            pressed,
        ).interact.mouse.held.on,
{
}

/// A tile makes a drag exactly when the pointer is over it with the button
/// down, the button did not go down in this tick, and the tile was not
/// hovered before. So a pointer that comes from outside with the button
/// already down drags the tile and does not push it.
pub proof fn lemma_drag(
    tile: GridTile,
    cursor: Point,
    pressed: bool,
    just_pressed: bool,
    outside: Point,
    elapsed: u64,
    pressed_before: bool,
)
    ensures
        tile.emitted(cursor, pressed, just_pressed) == Some(Move::Drag(tile.pos)) <==> {
            &&& tile.hovered_by(cursor)
            &&& pressed
            &&& !just_pressed
            &&& !tile.interact.mouse.hovered.on
        },
        !tile.hovered_by(outside) && tile.hovered_by(cursor) ==> tile.updated(
            outside,
            elapsed,
            pressed_before,
        ).emitted(cursor, true, false) == Some(Move::Drag(tile.pos)),
{
}

/// A tile makes a release exactly when the pointer is over it with the
/// button up and the tile was held before. The release is made once: in the
/// ticks that follow, with the button still up, the tile makes no move.
pub proof fn lemma_release(
    tile: GridTile,
    cursor: Point,
    pressed: bool,
    just_pressed: bool,
    elapsed: u64,
    next_cursor: Point,
    next_just_pressed: bool,
)
    ensures
        tile.emitted(cursor, pressed, just_pressed) == Some(Move::Release) <==> {
            &&& tile.hovered_by(cursor)
            &&& !pressed
            &&& tile.interact.mouse.held.on
        },
        tile.hovered_by(cursor) ==> tile.updated(cursor, elapsed, true).emitted(
            cursor,
            false,
            just_pressed,
        ) == Some(Move::Release),
        tile.updated(cursor, elapsed, false).emitted(next_cursor, false, next_just_pressed) is None,
{
}

/// A pointer that is elsewhere ends the interaction: both flags are off after
/// the tick, the tile asks for its idle colour, and it makes no move. Leaving
/// a held tile is not a release.
pub proof fn lemma_exit_clears(
    tile: GridTile,
    cursor: Point,
    elapsed: u64,
    pressed: bool,
    just_pressed: bool,
)
    requires
        !tile.hovered_by(cursor),
    ensures
        tile.updated(cursor, elapsed, pressed).interact.mouse == MouseInteractState::idle(),
        tile.updated(cursor, elapsed, pressed).tint == Tint::Idle,
        tile.emitted(cursor, pressed, just_pressed) is None,
        tile.has_room(cursor, elapsed, pressed),
{
}

/// A tick changes what the pointer does to a tile and nothing else: the tile
/// stays where it is, its flags say where the pointer and the button are, its
/// colour goes with its flags, and a well-formed tile stays well formed.
pub proof fn lemma_update_keeps_tile(tile: GridTile, cursor: Point, elapsed: u64, pressed: bool)
    ensures
        tile.updated(cursor, elapsed, pressed).pos == tile.pos,
        tile.updated(cursor, elapsed, pressed).collision == tile.collision,
        tile.updated(cursor, elapsed, pressed).center == tile.center,
        tile.updated(cursor, elapsed, pressed).tint == (if !tile.hovered_by(cursor) {
            Tint::Idle
        } else if pressed {
            Tint::Held
        } else {
            Tint::Hovered
        }),
        tile.updated(cursor, elapsed, pressed).interact.mouse.hovered.on == tile.hovered_by(cursor),
        tile.updated(cursor, elapsed, pressed).interact.mouse.held.on == (tile.hovered_by(cursor)
            && pressed),
        tile.wf() && tile.has_room(cursor, elapsed, pressed) ==> tile.updated(
            cursor,
            elapsed,
            pressed,
        ).wf(),
{
}

/// The reserved moves are never made: whatever a tile emits is a push, a drag
/// or a release, and a push or a drag names the tile that made it.
pub proof fn lemma_only_produced_moves(
    tile: GridTile,
    cursor: Point,
    pressed: bool,
    just_pressed: bool,
)
    ensures
        match tile.emitted(cursor, pressed, just_pressed) {
            Some(Move::Push(pos)) => pos == tile.pos,
            Some(Move::Drag(pos)) => pos == tile.pos,
            Some(Move::Release) => true,
            Some(_) => false,
            None => true,
        },
        tile.emitted(cursor, pressed, just_pressed) matches Some(mv) ==> mv.is_produced(),
{
}

} // verus!
