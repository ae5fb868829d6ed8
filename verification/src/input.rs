//! The per-tick update of every tile from the pointer, and the moves that it
//! appends to the log.

use vstd::prelude::*;
use bevy::input::mouse::MouseButton;
use bevy::input::ButtonInput;
use crate::buttons::{is_just_pressed, is_pressed, primary_just_pressed, primary_pressed};
use crate::collision::Point;
use crate::interact::InteractState;
use crate::moves::{InputMoves, Move};
use crate::tile::GridTile;

verus! {

/// Whether a tick of `elapsed` nanoseconds fits in the counters of every
/// tile. A tick without a pointer sample touches no tile and always fits.
pub open spec fn tiles_have_room(
    tiles: Seq<GridTile>,
    cursor_world_pos: Option<Point>,
    elapsed: u64,
    pressed: bool,
) -> bool {
    cursor_world_pos matches Some(cursor) ==> forall|i: int|
        0 <= i < tiles.len() ==> (#[trigger] tiles[i]).has_room(cursor, elapsed, pressed)
}

/// Every tile after a tick with the pointer at `cursor`.
pub open spec fn tiles_updated(
    tiles: Seq<GridTile>,
    cursor: Point,
    elapsed: u64,
    pressed: bool,
) -> Seq<GridTile> {
    tiles.map_values(|tile: GridTile| tile.updated(cursor, elapsed, pressed))
}

/// The moves that the tiles make in a tick with the pointer at `cursor`, in
/// the order of the tiles.
pub open spec fn moves_emitted(
    tiles: Seq<GridTile>,
    cursor: Point,
    pressed: bool,
    just_pressed: bool,
) -> Seq<Move>
    decreases tiles.len(),
{
    if tiles.len() == 0 {
        Seq::empty()
    } else {
        let earlier = moves_emitted(tiles.drop_last(), cursor, pressed, just_pressed);
        match tiles.last().emitted(cursor, pressed, just_pressed) {
            Some(mv) => earlier.push(mv),
            None => earlier,
        }
    }
}

/// Every tile after a tick. Without a pointer sample the tiles are as they
/// were.
pub open spec fn tiles_after_tick(
    tiles: Seq<GridTile>,
    cursor_world_pos: Option<Point>,
    elapsed: u64,
    pressed: bool,
) -> Seq<GridTile> {
    match cursor_world_pos {
        Some(cursor) => tiles_updated(tiles, cursor, elapsed, pressed),
        None => tiles,
    }
}

/// The moves that a tick appends to the log, in order. Without a pointer
/// sample there are none.
pub open spec fn moves_in_tick(
    tiles: Seq<GridTile>,
    cursor_world_pos: Option<Point>,
    pressed: bool,
    just_pressed: bool,
) -> Seq<Move> {
    match cursor_world_pos {
        Some(cursor) => moves_emitted(tiles, cursor, pressed, just_pressed),
        None => Seq::empty(),
    }
}

/// Tells whether `update_grid_tile_mouse_states` may be called with these
/// arguments.
pub fn can_update_grid_tiles(
    tiles: &Vec<GridTile>,
    elapsed: u64,
    pressed: bool,
    cursor_world_pos: Option<Point>,
) -> (fits: bool)
    ensures
        fits == tiles_have_room(tiles@, cursor_world_pos, elapsed, pressed),
{
    match cursor_world_pos {
        None => true,
        Some(cursor) => {
            let mut i: usize = 0;
            while i < tiles.len()
                invariant
                    i <= tiles.len(),
                    cursor_world_pos == Some(cursor),
                    forall|j: int|
                        0 <= j < i ==> (#[trigger] tiles@[j]).has_room(cursor, elapsed, pressed),
                decreases tiles.len() - i,
            {
                if !tiles[i].can_update(cursor, elapsed, pressed) {
                    assert(!tiles@[i as int].has_room(cursor, elapsed, pressed));
                    return false;
                }
                i = i + 1;
            }
            true
        },
    }
}

/// Runs one tick of `elapsed` nanoseconds over the grid.
///
/// Without a pointer sample nothing is evaluated: every tile keeps its state
/// as it is, and no move is made. With a sample, every tile is advanced by
/// the tick, in order, and the move that each makes, if any, is appended to
/// `input_moves` in that order.
pub fn update_grid_tile_mouse_states(
    tiles: &mut Vec<GridTile>,
    elapsed: u64,
    pressed: bool,
    just_pressed: bool,
    cursor_world_pos: Option<Point>,
    input_moves: &mut InputMoves,
)
    requires
        tiles_have_room(old(tiles)@, cursor_world_pos, elapsed, pressed),
    ensures
        final(tiles)@ == tiles_after_tick(old(tiles)@, cursor_world_pos, elapsed, pressed),
        final(input_moves)@ == old(input_moves)@ + moves_in_tick(
            old(tiles)@,
            cursor_world_pos,
            pressed,
            just_pressed,
        ),
        cursor_world_pos is None ==> final(tiles)@ == old(tiles)@ && final(input_moves)@ == old(
            input_moves,
        )@,
        old(input_moves)@.is_prefix_of(final(input_moves)@),
{
    if let Some(cursor) = cursor_world_pos {
        let ghost before = tiles@;
        let ghost logged = input_moves@;
        let mut i: usize = 0;
        while i < tiles.len()
            invariant
                i <= tiles.len(),
                tiles@.len() == before.len(),
                forall|j: int|
                    0 <= j < i ==> tiles@[j] == (#[trigger] before[j]).updated(
                        cursor,
                        elapsed,
                        pressed,
                    ),
                forall|j: int| i <= j < before.len() ==> tiles@[j] == #[trigger] before[j],
                forall|j: int|
                    0 <= j < before.len() ==> (#[trigger] before[j]).has_room(
                        cursor,
                        elapsed,
                        pressed,
                    ),
                input_moves@ == logged + moves_emitted(
                    before.take(i as int),
                    cursor,
                    pressed,
                    just_pressed,
                ),
            decreases tiles.len() - i,
        {
            assert(before[i as int].has_room(cursor, elapsed, pressed));
            let mut tile = tiles[i];
            let mv = tile.update(cursor, elapsed, pressed, just_pressed);
            tiles.set(i, tile);
            proof {
                assert(before.take(i + 1).drop_last() == before.take(i as int));
                assert(before.take(i + 1).last() == before[i as int]);
            }
            if let Some(mv) = mv {
                input_moves.record(mv);
            }
            i = i + 1;
        }
        proof {
            assert(before.take(i as int) == before);
            assert(tiles@ == tiles_updated(before, cursor, elapsed, pressed));
        }
    }
}

/// Runs one tick of `elapsed` nanoseconds over the grid, with the primary
/// button as `mouse_input` has it: the left button, down if it is among the
/// pressed buttons, and gone down in this tick if it is among those just
/// pressed.
///
/// Returns whether the tick was run. It is not run, and nothing is changed,
/// when it does not fit in the counters of some tile.
pub fn update_from_mouse_input(
    tiles: &mut Vec<GridTile>,
    elapsed: u64,
    mouse_input: &ButtonInput<MouseButton>,
    cursor_world_pos: Option<Point>,
    input_moves: &mut InputMoves,
) -> (ran: bool)
    ensures
        ran == tiles_have_room(
            old(tiles)@,
            cursor_world_pos,
            elapsed,
            primary_pressed(*mouse_input),
        ),
        ran ==> final(tiles)@ == tiles_after_tick(
            old(tiles)@,
            cursor_world_pos,
            elapsed,
            primary_pressed(*mouse_input),
        ),
        ran ==> final(input_moves)@ == old(input_moves)@ + moves_in_tick(
            old(tiles)@,
            cursor_world_pos,
            primary_pressed(*mouse_input),
            primary_just_pressed(*mouse_input),
        ),
        !ran ==> final(tiles)@ == old(tiles)@ && final(input_moves)@ == old(input_moves)@,
{
    let pressed = is_pressed(mouse_input, MouseButton::Left);
    let just_pressed = is_just_pressed(mouse_input, MouseButton::Left);
    if can_update_grid_tiles(tiles, elapsed, pressed, cursor_world_pos) {
        update_grid_tile_mouse_states(
            tiles,
            elapsed,
            pressed,
            just_pressed,
            cursor_world_pos,
            input_moves,
        );
        true
    } else {
        false
    }
}

/// A tick advances every tile on its own: the tiles stay as many as they
/// were, and each is what its own update makes of it.
pub proof fn lemma_tick_updates_each_tile(
    tiles: Seq<GridTile>,
    cursor: Point,
    elapsed: u64,
    pressed: bool,
)
    ensures
        tiles_updated(tiles, cursor, elapsed, pressed).len() == tiles.len(),
        forall|i: int|
            0 <= i < tiles.len() ==> tiles_updated(tiles, cursor, elapsed, pressed)[i]
                == (#[trigger] tiles[i]).updated(cursor, elapsed, pressed),
{
}

/// A tick keeps every tile well formed.
pub proof fn lemma_tick_keeps_tiles_wf(
    tiles: Seq<GridTile>,
    cursor_world_pos: Option<Point>,
    elapsed: u64,
    pressed: bool,
)
    requires
        forall|i: int| 0 <= i < tiles.len() ==> (#[trigger] tiles[i]).wf(),
        tiles_have_room(tiles, cursor_world_pos, elapsed, pressed),
    ensures
        tiles_after_tick(tiles, cursor_world_pos, elapsed, pressed).len() == tiles.len(),
        forall|i: int|
            0 <= i < tiles.len() ==> (#[trigger] tiles_after_tick(
                tiles,
                cursor_world_pos,
                elapsed,
                pressed,
            )[i]).wf(),
{
    let after = tiles_after_tick(tiles, cursor_world_pos, elapsed, pressed);
    assert forall|i: int| 0 <= i < tiles.len() implies (#[trigger] after[i]).wf() by {
        assert(tiles[i].wf());
        if let Some(cursor) = cursor_world_pos {
            assert(tiles[i].has_room(cursor, elapsed, pressed));
        }
    }
}

/// A tick makes at most one move per tile.
pub proof fn lemma_at_most_one_move_per_tile(
    tiles: Seq<GridTile>,
    cursor: Point,
    pressed: bool,
    just_pressed: bool,
)
    ensures
        moves_emitted(tiles, cursor, pressed, just_pressed).len() <= tiles.len(),
    decreases tiles.len(),
{
    if tiles.len() > 0 {
        lemma_at_most_one_move_per_tile(tiles.drop_last(), cursor, pressed, just_pressed);
    }
}

/// Every move that a tick appends was made by one of the tiles, and none is
/// a reserved move.
pub proof fn lemma_moves_come_from_tiles(
    tiles: Seq<GridTile>,
    cursor: Point,
    pressed: bool,
    just_pressed: bool,
)
    ensures
        forall|k: int|
            0 <= k < moves_emitted(tiles, cursor, pressed, just_pressed).len() ==> {
                let mv = #[trigger] moves_emitted(tiles, cursor, pressed, just_pressed)[k];
                &&& mv.is_produced()
                &&& exists|i: int|
                    0 <= i < tiles.len() && (#[trigger] tiles[i]).emitted(
                        cursor,
                        pressed,
                        just_pressed,
                    ) == Some(mv)
            },
    decreases tiles.len(),
{
    if tiles.len() > 0 {
        let earlier = tiles.drop_last();
        lemma_moves_come_from_tiles(earlier, cursor, pressed, just_pressed);
        let moves = moves_emitted(tiles, cursor, pressed, just_pressed);
        let before = moves_emitted(earlier, cursor, pressed, just_pressed);
        assert forall|k: int| 0 <= k < moves.len() implies {
            let mv = #[trigger] moves[k];
            &&& mv.is_produced()
            &&& exists|i: int|
                0 <= i < tiles.len() && (#[trigger] tiles[i]).emitted(cursor, pressed, just_pressed)
                    == Some(mv)
        } by {
            let mv = moves[k];
            if k < before.len() {
                assert(mv == before[k]);
                let i = choose|i: int|
                    0 <= i < earlier.len() && (#[trigger] earlier[i]).emitted(
                        cursor,
                        pressed,
                        just_pressed,
                    ) == Some(mv);
                assert(tiles[i] == earlier[i]);
            } else {
                assert(tiles[tiles.len() - 1].emitted(cursor, pressed, just_pressed) == Some(mv));
            }
        }
    }
}

/// With the pointer over none of the tiles, a tick makes no move and leaves
/// every tile idle; such a tick always fits.
pub proof fn lemma_pointer_off_grid(
    tiles: Seq<GridTile>,
    cursor: Point,
    elapsed: u64,
    pressed: bool,
    just_pressed: bool,
)
    requires
        forall|i: int| 0 <= i < tiles.len() ==> !(#[trigger] tiles[i]).hovered_by(cursor),
    ensures
        moves_emitted(tiles, cursor, pressed, just_pressed) == Seq::<Move>::empty(),
        tiles_have_room(tiles, Some(cursor), elapsed, pressed),
        forall|i: int|
            0 <= i < tiles.len() ==> (#[trigger] tiles_updated(
                tiles,
                cursor,
                elapsed,
                pressed,
            )[i]).interact == InteractState::idle(),
    decreases tiles.len(),
{
    if tiles.len() > 0 {
        let earlier = tiles.drop_last();
        assert forall|i: int| 0 <= i < earlier.len() implies !(#[trigger] earlier[i]).hovered_by(
            cursor,
        ) by {
            assert(earlier[i] == tiles[i]);
        }
        lemma_pointer_off_grid(earlier, cursor, elapsed, pressed, just_pressed);
        assert(!tiles[tiles.len() - 1].hovered_by(cursor));
    }
    assert forall|i: int| 0 <= i < tiles.len() implies (#[trigger] tiles_updated(
        tiles,
        cursor,
        elapsed,
        pressed,
    )[i]).interact == InteractState::idle() by {
        assert(!tiles[i].hovered_by(cursor));
    }
}

/// Where the pointer is over no tile but the one at `at`, a tick appends the
/// move that this tile makes, if it makes one, and nothing else.
pub proof fn lemma_only_the_hovered_tile_moves(
    tiles: Seq<GridTile>,
    at: int,
    cursor: Point,
    pressed: bool,
    just_pressed: bool,
)
    requires
        0 <= at < tiles.len(),
        forall|i: int|
            0 <= i < tiles.len() && i != at ==> !(#[trigger] tiles[i]).hovered_by(cursor),
    ensures
        moves_emitted(tiles, cursor, pressed, just_pressed) == match tiles[at].emitted(
            cursor,
            pressed,
            just_pressed,
        ) {
            Some(mv) => seq![mv],
            None => Seq::<Move>::empty(),
        },
    decreases tiles.len(),
{
    let earlier = tiles.drop_last();
    let last = tiles.len() - 1;
    assert forall|i: int| 0 <= i < earlier.len() && i != at implies !(
    #[trigger] earlier[i]).hovered_by(cursor) by {
        assert(earlier[i] == tiles[i]);
    }
    if at == last {
        lemma_pointer_off_grid(earlier, cursor, 0, pressed, just_pressed);
        let moves = moves_emitted(tiles, cursor, pressed, just_pressed);
        match tiles[at].emitted(cursor, pressed, just_pressed) {
            Some(mv) => {
                assert(moves == seq![mv]);
            },
            None => {},
        }
    } else {
        assert(!tiles[last].hovered_by(cursor));
        assert(earlier[at] == tiles[at]);
        lemma_only_the_hovered_tile_moves(earlier, at, cursor, pressed, just_pressed);
    }
}

/// Where the bounds of the tiles do not overlap at the pointer, so that it is
/// over one tile at most, a tick makes one move at most.
pub proof fn lemma_one_hovered_tile_one_move(
    tiles: Seq<GridTile>,
    cursor: Point,
    pressed: bool,
    just_pressed: bool,
)
    requires
        forall|i: int, j: int|
            0 <= i < j < tiles.len() ==> !((#[trigger] tiles[i]).hovered_by(cursor)
                && (#[trigger] tiles[j]).hovered_by(cursor)),
    ensures
        moves_emitted(tiles, cursor, pressed, just_pressed).len() <= 1,
    decreases tiles.len(),
{
    if tiles.len() > 0 {
        let earlier = tiles.drop_last();
        let last = tiles.len() - 1;
        assert forall|i: int, j: int| 0 <= i < j < earlier.len() implies !((
        #[trigger] earlier[i]).hovered_by(cursor) && (#[trigger] earlier[j]).hovered_by(
            cursor,
        )) by {
            assert(earlier[i] == tiles[i] && earlier[j] == tiles[j]);
        }
        if tiles[last].hovered_by(cursor) {
            assert forall|i: int| 0 <= i < earlier.len() implies !(
            #[trigger] earlier[i]).hovered_by(cursor) by {
                assert(earlier[i] == tiles[i]);
                assert(!(tiles[i].hovered_by(cursor) && tiles[last].hovered_by(cursor)));
            }
            lemma_pointer_off_grid(earlier, cursor, 0, pressed, just_pressed);
        } else {
            lemma_one_hovered_tile_one_move(earlier, cursor, pressed, just_pressed);
        }
    }
}

} // verus!
