use vstd::prelude::*;

use crate::collision::{vec3_in_collision_range, walls_in_collision_range};
use crate::configuration_properties::{MAP_ORIGIN_X, MAP_TILE_SIZE, Z_MAP};
use crate::geometry::Vec3;

verus! {

/// A static solid tile that blocks player and projectile movement.
#[derive(Clone, Copy, Debug, PartialEq, Eq, Structural)]
pub struct TileCollider {
    pub translation: Vec3,
}

/// The layout glyph that marks a solid, collidable tile.
pub const SOLID_TILE_GLYPH: u8 = 35;

/// The layout glyph for an empty cell: nothing is spawned for it.
pub const EMPTY_TILE_GLYPH: u8 = 46;

/// One tile read from the map layout: its column and row in the layout
/// text, the glyph that produced it, and whether it blocks movement.
/// Every glyph but the empty one becomes a background tile; only the
/// solid glyph also collides.
#[derive(Clone, Copy, Debug, PartialEq, Eq, Structural)]
pub struct MapTile {
    pub x: usize,
    pub y: usize,
    pub glyph: u8,
    pub is_collider: bool,
}

/// The loaded map: its tiles and whether the map layer is drawn.
#[derive(Clone, Debug)]
pub struct TileMap {
    pub tiles: Vec<MapTile>,
    pub visible: bool,
}

/// The tiles of one layout line at row `y`: one tile per glyph, in column
/// order, skipping empty cells.
pub open spec fn parse_line_spec(line: Seq<u8>, y: usize) -> Seq<MapTile>
    decreases line.len(),
{
    if line.len() == 0 {
        Seq::empty()
    } else {
        let rest = parse_line_spec(line.drop_last(), y);
        let glyph = line.last();
        if glyph == EMPTY_TILE_GLYPH {
            rest
        } else {
            rest.push(
                MapTile {
                    x: (line.len() - 1) as usize,
                    y,
                    glyph,
                    is_collider: glyph == SOLID_TILE_GLYPH,
                },
            )
        }
    }
}

/// The tiles of a whole layout: the lines' tiles in row order.
pub open spec fn parse_lines_spec(lines: Seq<Seq<u8>>) -> Seq<MapTile>
    decreases lines.len(),
{
    if lines.len() == 0 {
        Seq::empty()
    } else {
        parse_lines_spec(lines.drop_last()) + parse_line_spec(
            lines.last(),
            (lines.len() - 1) as usize,
        )
    }
}

/// Read a map layout, one line of glyph bytes per text row: each glyph
/// maps to the tile at its column and row, empty cells are skipped, and
/// the solid glyph marks its tile as a collider. The map starts visible.
pub fn generate_map_outline(lines: &Vec<Vec<u8>>) -> (map: TileMap)
    ensures
        map.tiles@ == parse_lines_spec(lines@.map_values(|l: Vec<u8>| l@)),
        map.visible,
{
    let ghost rows: Seq<Seq<u8>> = lines@.map_values(|l: Vec<u8>| l@);
    let mut tiles: Vec<MapTile> = Vec::new();
    let mut y: usize = 0;
    while y < lines.len()
        invariant
            0 <= y <= lines@.len(),
            rows == lines@.map_values(|l: Vec<u8>| l@),
            tiles@ == parse_lines_spec(rows.take(y as int)),
        decreases lines@.len() - y,
    {
        let line = &lines[y];
        let mut x: usize = 0;
        while x < line.len()
            invariant
                0 <= x <= line@.len(),
                line@ == rows[y as int],
                0 <= y < rows.len(),
                rows == lines@.map_values(|l: Vec<u8>| l@),
                tiles@ == parse_lines_spec(rows.take(y as int)) + parse_line_spec(
                    rows[y as int].take(x as int),
                    y,
                ),
            decreases line@.len() - x,
        {
            proof {
                assert(rows[y as int].take(x + 1).drop_last() =~= rows[y as int].take(x as int));
                assert(rows[y as int].take(x + 1).last() == rows[y as int][x as int]);
            }
            let glyph = line[x];
            if glyph != EMPTY_TILE_GLYPH {
                tiles.push(
                    MapTile { x, y, glyph, is_collider: glyph == SOLID_TILE_GLYPH },
                );
            }
            x = x + 1;
        }
        proof {
            assert(rows[y as int].take(rows[y as int].len() as int) =~= rows[y as int]);
            assert(rows.take(y + 1).drop_last() =~= rows.take(y as int));
            assert(rows.take(y + 1).last() == rows[y as int]);
        }
        y = y + 1;
    }
    proof {
        assert(rows.take(rows.len() as int) =~= rows);
    }
    TileMap { tiles, visible: true }
}

/// The world position of the tile at layout column `x` and row `y`: rows
/// run downward from the origin line, columns rightward from the left map
/// edge, on the map depth layer.
pub open spec fn tile_translation_spec(x: usize, y: usize) -> Vec3 {
    Vec3 {
        x: (x * MAP_TILE_SIZE + MAP_ORIGIN_X) as i64,
        y: (-(y as int) * MAP_TILE_SIZE) as i64,
        z: Z_MAP,
    }
}

pub fn tile_translation(x: usize, y: usize) -> (r: Vec3)
    requires
        x <= 100_000,
        y <= 100_000,
    ensures
        r == tile_translation_spec(x, y),
        r.x == x * MAP_TILE_SIZE + MAP_ORIGIN_X,
        r.y == -(y as int) * MAP_TILE_SIZE,
        r.z == Z_MAP,
        vec3_in_collision_range(r),
{
    Vec3 { x: (x as i64) * MAP_TILE_SIZE + MAP_ORIGIN_X, y: -((y as i64) * MAP_TILE_SIZE), z: Z_MAP }
}

/// The colliders of a tile set: one per collider tile, at the tile's
/// world position, in tile order.
pub open spec fn colliders_spec(tiles: Seq<MapTile>) -> Seq<TileCollider>
    decreases tiles.len(),
{
    if tiles.len() == 0 {
        Seq::empty()
    } else {
        let rest = colliders_spec(tiles.drop_last());
        let tile = tiles.last();
        if tile.is_collider {
            rest.push(TileCollider { translation: tile_translation_spec(tile.x, tile.y) })
        } else {
            rest
        }
    }
}

/// Tile coordinates small enough to place in the world.
pub open spec fn tiles_in_grid_range(tiles: Seq<MapTile>) -> bool {
    forall|i: int| 0 <= i < tiles.len() ==> (#[trigger] tiles[i]).x <= 100_000 && tiles[i].y <= 100_000
}

/// The terrain collider set of a loaded map, ready for the collision
/// detector.
pub fn collider_translations(map: &TileMap) -> (r: Vec<TileCollider>)
    requires
        tiles_in_grid_range(map.tiles@),
    ensures
        r@ == colliders_spec(map.tiles@),
        walls_in_collision_range(r@),
{
    let tiles = &map.tiles;
    let mut r: Vec<TileCollider> = Vec::new();
    let mut i: usize = 0;
    while i < tiles.len()
        invariant
            0 <= i <= tiles@.len(),
            tiles_in_grid_range(tiles@),
            r@ == colliders_spec(tiles@.take(i as int)),
            walls_in_collision_range(r@),
        decreases tiles@.len() - i,
    {
        proof {
            assert(tiles@.take(i + 1).drop_last() =~= tiles@.take(i as int));
            assert(tiles@.take(i + 1).last() == tiles@[i as int]);
        }
        let tile = tiles[i];
        if tile.is_collider {
            r.push(TileCollider { translation: tile_translation(tile.x, tile.y) });
        }
        i = i + 1;
    }
    proof {
        assert(tiles@.take(tiles@.len() as int) =~= tiles@);
    }
    r
}

/// Draw or hide the map layer; the tiles themselves are untouched.
pub fn set_map_visibility(map: &mut TileMap, visible: bool)
    ensures
        final(map).visible == visible,
        final(map).tiles@ == old(map).tiles@,
{
    map.visible = visible;
}

pub fn hide_map(map: &mut TileMap)
    ensures
        !final(map).visible,
        final(map).tiles@ == old(map).tiles@,
{
    set_map_visibility(map, false);
}

pub fn show_map(map: &mut TileMap)
    ensures
        final(map).visible,
        final(map).tiles@ == old(map).tiles@,
{
    set_map_visibility(map, true);
}

} // verus!
