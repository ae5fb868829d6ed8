use tile_input::collision::{Point, RectCollision};
use tile_input::grid::{spawn_grid, GridLayout};
use tile_input::interact::InteractState;
use tile_input::moves::GridPos;
use tile_input::tile::{GridTile, Tint};

fn three_by_three() -> GridLayout {
    GridLayout {
        columns: 3,
        rows: 3,
        tile_width: 100,
        tile_height: 100,
        padding_x: 5,
        padding_y: 5,
    }
}

#[test]
fn three_by_three_is_centred_on_the_origin() {
    let tiles = spawn_grid(&three_by_three());
    let places: Vec<(GridPos, Point)> = tiles.iter().map(|tile| (tile.pos, tile.center)).collect();
    assert_eq!(
        places,
        vec![
            (GridPos::new(0, 0), Point::new(-105, -105)),
            (GridPos::new(0, 1), Point::new(-105, 0)),
            (GridPos::new(0, 2), Point::new(-105, 105)),
            (GridPos::new(1, 0), Point::new(0, -105)),
            (GridPos::new(1, 1), Point::new(0, 0)),
            (GridPos::new(1, 2), Point::new(0, 105)),
            (GridPos::new(2, 0), Point::new(105, -105)),
            (GridPos::new(2, 1), Point::new(105, 0)),
            (GridPos::new(2, 2), Point::new(105, 105)),
        ]
    );
}

#[test]
fn every_spawned_tile_is_idle_and_bounded_by_tile_and_padding() {
    for tile in spawn_grid(&three_by_three()) {
        assert_eq!(tile.collision, RectCollision::new(105, 105));
        assert_eq!(tile.interact, InteractState::default());
        assert_eq!(tile.tint, Tint::Idle);
    }
}

#[test]
fn an_uneven_grid_goes_column_by_column() {
    let layout = GridLayout {
        columns: 2,
        rows: 3,
        tile_width: 10,
        tile_height: 4,
        padding_x: 2,
        padding_y: 0,
    };
    let tiles = spawn_grid(&layout);
    assert_eq!(tiles.len(), 6);
    for x in 0..2u32 {
        for y in 0..3u32 {
            assert_eq!(
                tiles[(x * 3 + y) as usize],
                GridTile::new(
                    GridPos::new(x, y),
                    RectCollision::new(12, 4),
                    Point::new(12 * x as i64 - 6, 4 * y as i64 - 4),
                )
            );
        }
    }
}

#[test]
fn half_a_unit_is_cut_from_the_offset() {
    // Two columns, 5 apart: the centres would be at -2.5 and 2.5.
    let layout = GridLayout {
        columns: 2,
        rows: 1,
        tile_width: 5,
        tile_height: 1,
        padding_x: 0,
        padding_y: 0,
    };
    let tiles = spawn_grid(&layout);
    assert_eq!(tiles[0].center, Point::new(-2, 0));
    assert_eq!(tiles[1].center, Point::new(3, 0));
}

#[test]
fn a_grid_without_columns_or_rows_has_no_tiles() {
    let mut layout = three_by_three();
    layout.columns = 0;
    assert!(layout.is_valid());
    assert!(spawn_grid(&layout).is_empty());

    let mut layout = three_by_three();
    layout.rows = 0;
    assert!(layout.is_valid());
    assert!(spawn_grid(&layout).is_empty());
}

#[test]
fn a_single_tile_stands_on_the_origin() {
    let layout = GridLayout {
        columns: 1,
        rows: 1,
        tile_width: u64::MAX - 1,
        tile_height: 1,
        padding_x: 1,
        padding_y: 0,
    };
    assert!(layout.is_valid());
    let tiles = spawn_grid(&layout);
    assert_eq!(
        tiles,
        vec![GridTile::new(GridPos::new(0, 0), RectCollision::new(u64::MAX, 1), Point::new(0, 0))]
    );
}

#[test]
fn is_valid_refuses_what_does_not_fit() {
    assert!(three_by_three().is_valid());

    // Empty bounds.
    let mut layout = three_by_three();
    layout.tile_width = 0;
    layout.padding_x = 0;
    assert!(!layout.is_valid());
    let mut layout = three_by_three();
    layout.tile_height = 0;
    layout.padding_y = 0;
    assert!(!layout.is_valid());

    // Bounds wider than a u64.
    let mut layout = three_by_three();
    layout.tile_width = u64::MAX;
    layout.padding_x = 1;
    assert!(!layout.is_valid());

    // Positions beyond an i64.
    let mut layout = three_by_three();
    layout.tile_width = i64::MAX as u64;
    layout.padding_x = 0;
    layout.columns = 2;
    assert!(layout.is_valid());
    layout.padding_x = 1;
    assert!(!layout.is_valid());
    let mut layout = three_by_three();
    layout.tile_height = 1 << 62;
    layout.rows = 2;
    assert!(layout.is_valid());
    layout.rows = 3;
    assert!(!layout.is_valid());
}

#[test]
fn the_widest_grid_that_fits_keeps_its_positions() {
    let layout = GridLayout {
        columns: 2,
        rows: 1,
        tile_width: i64::MAX as u64,
        tile_height: 1,
        padding_x: 0,
        padding_y: 0,
    };
    let tiles = spawn_grid(&layout);
    assert_eq!(tiles[0].center, Point::new(-(i64::MAX / 2), 0));
    assert_eq!(tiles[1].center, Point::new(i64::MAX - i64::MAX / 2, 0));
}
