//! The layout of the grid: which tiles there are, and where each one stands.

use vstd::prelude::*;
use crate::collision::{lemma_sized, Point, RectCollision};
use crate::interact::InteractState;
use crate::moves::GridPos;
use crate::tile::{GridTile, Tint};

verus! {

/// A grid of equal tiles, centred on the world's origin.
#[derive(Debug, Clone, Copy, PartialEq, Eq)]
pub struct GridLayout {
    /// Tiles per row.
    pub columns: u32,
    /// Tiles per column.
    pub rows: u32,
    pub tile_width: u64,
    pub tile_height: u64,
    /// The gap between two tiles that stand side by side.
    pub padding_x: u64,
    /// The gap between two tiles that stand one above the other.
    pub padding_y: u64,
}

impl GridLayout {
    /// The distance between the centres of two tiles that stand side by side.
    /// It is also the width of a tile's collision bounds: the padding
    /// belongs to the tile.
    pub open spec fn delta_x(self) -> int {
        self.tile_width + self.padding_x
    }

    /// The distance between the centres of two tiles that stand one above
    /// the other, and the height of a tile's collision bounds.
    pub open spec fn delta_y(self) -> int {
        self.tile_height + self.padding_y
    }

    /// The horizontal position of the tiles in column `x`. The columns are
    /// `delta_x` apart, and the first stands to the left of the origin by
    /// half the distance from the first to the last, rounded down to a whole
    /// unit.
    pub open spec fn center_x(self, x: int) -> int {
        x * self.delta_x() - ((self.columns - 1) * self.delta_x()) / 2
    }

    /// The vertical position of the tiles in row `y`: the rows are `delta_y`
    /// apart, and the first stands below the origin by half the distance
    /// from the first to the last, rounded down to a whole unit.
    pub open spec fn center_y(self, y: int) -> int {
        y * self.delta_y() - ((self.rows - 1) * self.delta_y()) / 2
    }

    /// The tile in column `x` and row `y`, as it is spawned.
    pub open spec fn tile_at(self, x: int, y: int) -> GridTile {
        GridTile {
            pos: GridPos { x: x as u32, y: y as u32 },
            collision: RectCollision::sized(self.delta_x() as u64, self.delta_y() as u64),
            center: Point { x: self.center_x(x) as i64, y: self.center_y(y) as i64 },
            interact: InteractState::idle(),
            tint: Tint::Idle,
        }
    }

    /// Whether the grid can be built: the collision bounds are not empty and
    /// fit in a `u64`, the tiles can be counted in a `usize`, and their
    /// positions fit in an `i64`.
    pub open spec fn valid(self) -> bool {
        &&& 0 < self.delta_x() <= u64::MAX
        &&& 0 < self.delta_y() <= u64::MAX
        &&& self.columns * self.rows <= usize::MAX
        &&& (self.columns - 1) * self.delta_x() <= i64::MAX
        &&& (self.rows - 1) * self.delta_y() <= i64::MAX
    }

    /// Tells whether `spawn_grid` may be called on this layout.
    pub fn is_valid(&self) -> (valid: bool)
        ensures
            valid == self.valid(),
    {
        let dx: u128 = self.tile_width as u128 + self.padding_x as u128;
        let dy: u128 = self.tile_height as u128 + self.padding_y as u128;
        assert(self.columns * self.rows <= 0x1_0000_0000 * 0x1_0000_0000) by (nonlinear_arith)
            requires
                self.columns < 0x1_0000_0000,
                self.rows < 0x1_0000_0000,
        ;
        let count: u128 = self.columns as u128 * self.rows as u128;
        if dx == 0 || dx > u64::MAX as u128 || dy == 0 || dy > u64::MAX as u128 {
            return false;
        }
        if count > usize::MAX as u128 {
            return false;
        }
        assert(self.columns * dx <= 0x1_0000_0000 * 0x1_0000_0000_0000_0000) by (nonlinear_arith)
            requires
                self.columns < 0x1_0000_0000,
                dx < 0x1_0000_0000_0000_0000,
        ;
        assert(self.rows * dy <= 0x1_0000_0000 * 0x1_0000_0000_0000_0000) by (nonlinear_arith)
            requires
                self.rows < 0x1_0000_0000,
                dy < 0x1_0000_0000_0000_0000,
        ;
        let span_x: u128 = self.columns as u128 * dx;
        let span_y: u128 = self.rows as u128 * dy;
        assert((self.columns - 1) * dx == span_x - dx) by (nonlinear_arith)
            requires
                span_x == self.columns * dx,
        ;
        assert((self.rows - 1) * dy == span_y - dy) by (nonlinear_arith)
            requires
                span_y == self.rows * dy,
        ;
        span_x <= i64::MAX as u128 + dx && span_y <= i64::MAX as u128 + dy
    }
}

/// In a grid of `rows` rows whose tiles are numbered column by column, the
/// tile in column `a` and row `b` comes before the one in column `x` and
/// row `y` exactly when it stands in an earlier column, or in the same
/// column and an earlier row.
proof fn lemma_cell_order(rows: int, a: int, b: int, x: int, y: int)
    requires
        0 <= a,
        0 <= x,
        0 <= b < rows,
        0 <= y < rows,
    ensures
        a < x ==> a * rows + b < x * rows + y,
        a == x ==> a * rows + b == x * rows + b,
        a < x ==> a * rows + b < x * rows,
{
    if a < x {
        assert(a * rows + rows <= x * rows) by (nonlinear_arith)
            requires
                a + 1 <= x,
                rows > 0,
        ;
    }
}

/// The positions of a valid layout fit in an `i64`.
proof fn lemma_centers_fit(span: int, delta: int, count: int, at: int)
    requires
        0 <= at < count,
        0 < delta,
        span == (count - 1) * delta,
        span <= i64::MAX,
    ensures
        0 <= at * delta <= span,
        i64::MIN <= at * delta - span / 2 <= i64::MAX,
{
    assert(0 <= at * delta <= (count - 1) * delta) by (nonlinear_arith)
        requires
            0 <= at <= count - 1,
            0 < delta,
    ;
}

/// The tiles of a layout touch but do not overlap: a point that lies within
/// the bounds of two different tiles lies on the edge of both. A pointer
/// there is over both tiles at once.
pub proof fn lemma_tiles_meet_on_edges_only(
    layout: GridLayout,
    x1: int,
    y1: int,
    x2: int,
    y2: int,
    point: Point,
)
    requires
        layout.valid(),
        0 <= x1 < layout.columns && 0 <= y1 < layout.rows,
        0 <= x2 < layout.columns && 0 <= y2 < layout.rows,
        x1 != x2 || y1 != y2,
        layout.tile_at(x1, y1).hovered_by(point),
        layout.tile_at(x2, y2).hovered_by(point),
    ensures
        layout.tile_at(x1, y1).collision.on_edge(layout.tile_at(x1, y1).center, point),
        layout.tile_at(x2, y2).collision.on_edge(layout.tile_at(x2, y2).center, point),
{
    let dx = layout.delta_x();
    let dy = layout.delta_y();
    lemma_sized(dx as u64, dy as u64);
    lemma_centers_fit((layout.columns - 1) * dx, dx, layout.columns as int, x1);
    lemma_centers_fit((layout.columns - 1) * dx, dx, layout.columns as int, x2);
    lemma_centers_fit((layout.rows - 1) * dy, dy, layout.rows as int, y1);
    lemma_centers_fit((layout.rows - 1) * dy, dy, layout.rows as int, y2);
    if x1 != x2 {
        lemma_columns_apart(dx, x1, x2);
    }
    if y1 != y2 {
        lemma_columns_apart(dy, y1, y2);
    }
}

/// Two different columns (or rows) are at least one `delta` apart.
proof fn lemma_columns_apart(delta: int, a: int, b: int)
    requires
        0 < delta,
        a != b,
    ensures
        a < b ==> b * delta - a * delta >= delta,
        b < a ==> a * delta - b * delta >= delta,
{
    if a < b {
        assert(b * delta - a * delta >= delta) by (nonlinear_arith)
            requires
                a + 1 <= b,
                0 < delta,
        ;
    } else {
        assert(a * delta - b * delta >= delta) by (nonlinear_arith)
            requires
                b + 1 <= a,
                0 < delta,
        ;
    }
}

/// Builds the tiles of the grid, column by column and, within a column, from
/// the bottom row up. Every tile is idle, carries collision bounds of
/// `delta_x` by `delta_y`, and stands at its place in the layout.
pub fn spawn_grid(layout: &GridLayout) -> (tiles: Vec<GridTile>)
    requires
        layout.valid(),
    ensures
        tiles@.len() == layout.columns * layout.rows,
        forall|x: int, y: int|
            0 <= x < layout.columns && 0 <= y < layout.rows ==> tiles@[x * layout.rows + y]
                == #[trigger] layout.tile_at(x, y),
        forall|i: int| 0 <= i < tiles@.len() ==> (#[trigger] tiles@[i]).wf(),
{
    let mut tiles: Vec<GridTile> = Vec::new();
    let columns: u32 = layout.columns;
    let rows: u32 = layout.rows;
    if columns == 0 || rows == 0 {
        assert(columns * rows == 0) by (nonlinear_arith)
            requires
                columns == 0 || rows == 0,
        ;
        return tiles;
    }
    let delta_x: u64 = layout.tile_width + layout.padding_x;
    let delta_y: u64 = layout.tile_height + layout.padding_y;
    let span_x: i128 = (columns - 1) as i128 * delta_x as i128;
    let span_y: i128 = (rows - 1) as i128 * delta_y as i128;
    let collision = RectCollision::new(delta_x, delta_y);

    let mut tile_x: u32 = 0;
    while tile_x < columns
        invariant
            layout.valid(),
            columns == layout.columns,
            rows == layout.rows,
            rows > 0,
            delta_x == layout.delta_x(),
            delta_y == layout.delta_y(),
            span_x == (columns - 1) * delta_x,
            span_y == (rows - 1) * delta_y,
            collision == RectCollision::sized(delta_x, delta_y),
            tile_x <= columns,
            tiles@.len() == tile_x * rows,
            forall|i: int| 0 <= i < tiles@.len() ==> (#[trigger] tiles@[i]).wf(),
            forall|x: int, y: int|
                0 <= x < tile_x && 0 <= y < rows ==> tiles@[x * rows + y]
                    == #[trigger] layout.tile_at(x, y),
        decreases columns - tile_x,
    {
        proof {
            lemma_centers_fit(span_x as int, delta_x as int, columns as int, tile_x as int);
        }
        let pos_x: i64 = (tile_x as i128 * delta_x as i128 - span_x / 2) as i64;

        let mut tile_y: u32 = 0;
        while tile_y < rows
            invariant
                layout.valid(),
                columns == layout.columns,
                rows == layout.rows,
                rows > 0,
                delta_x == layout.delta_x(),
                delta_y == layout.delta_y(),
                span_y == (rows - 1) * delta_y,
                collision == RectCollision::sized(delta_x, delta_y),
                tile_x < columns,
                tile_y <= rows,
                pos_x == layout.center_x(tile_x as int),
                tiles@.len() == tile_x * rows + tile_y,
                forall|i: int| 0 <= i < tiles@.len() ==> (#[trigger] tiles@[i]).wf(),
                forall|x: int, y: int|
                    0 <= x < tile_x && 0 <= y < rows ==> tiles@[x * rows + y]
                        == #[trigger] layout.tile_at(x, y),
                forall|y: int|
                    0 <= y < tile_y ==> tiles@[tile_x * rows + y] == #[trigger] layout.tile_at(
                        tile_x as int,
                        y,
                    ),
            decreases rows - tile_y,
        {
            proof {
                lemma_centers_fit(span_y as int, delta_y as int, rows as int, tile_y as int);
            }
            let pos_y: i64 = (tile_y as i128 * delta_y as i128 - span_y / 2) as i64;
            let tile = GridTile::new(
                GridPos::new(tile_x, tile_y),
                collision,
                Point::new(pos_x, pos_y),
            );
            assert(tile == layout.tile_at(tile_x as int, tile_y as int));
            let ghost earlier = tiles@;
            tiles.push(tile);
            proof {
                assert forall|x: int, y: int| 0 <= x < tile_x && 0 <= y < rows implies tiles@[x
                    * rows + y] == #[trigger] layout.tile_at(x, y) by {
                    lemma_cell_order(rows as int, x, y, tile_x as int, tile_y as int);
                    assert(tiles@[x * rows + y] == earlier[x * rows + y]);
                }
                assert forall|y: int| 0 <= y < tile_y + 1 implies tiles@[tile_x * rows + y]
                    == #[trigger] layout.tile_at(tile_x as int, y) by {
                    if y < tile_y {
                        assert(tiles@[tile_x * rows + y] == earlier[tile_x * rows + y]);
                    }
                }
            }
            tile_y = tile_y + 1;
        }
        proof {
            assert((tile_x + 1) * rows == tile_x * rows + rows) by (nonlinear_arith);
            assert forall|x: int, y: int| 0 <= x < tile_x + 1 && 0 <= y < rows implies tiles@[x
                * rows + y] == #[trigger] layout.tile_at(x, y) by {
                if x == tile_x {
                    assert(tiles@[tile_x * rows + y] == layout.tile_at(tile_x as int, y));
                }
            }
        }
        tile_x = tile_x + 1;
    }
    tiles
}

} // verus!
