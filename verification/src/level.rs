//! The level's static geometry: tile size, map dimensions, and the
//! conversion from tile coordinates to world coordinates. The context is
//! passed explicitly into every conversion instead of living in ambient
//! global state.

use vstd::prelude::*;

verus! {

/// Largest tile edge the simulation accepts, in world units.
pub const TILE_SIZE_LIMIT: u32 = 1_024;

/// Largest map edge the simulation accepts, in tiles.
pub const MAP_TILES_LIMIT: u32 = 1_000_000;

/// The loaded level's grid: tile edge length in world units and the map's
/// size in tiles. The map is centred on the world origin.
#[derive(Clone, Copy, PartialEq, Eq, Structural, Debug)]
pub struct LevelContext {
    pub tile_size: u32,
    pub map_width_tiles: u32,
    pub map_height_tiles: u32,
}

impl LevelContext {
    /// Well-formedness: a positive tile size and map within the
    /// simulation's limits.
    pub open spec fn wf(self) -> bool {
        &&& 1 <= self.tile_size <= TILE_SIZE_LIMIT
        &&& 1 <= self.map_width_tiles <= MAP_TILES_LIMIT
        &&& 1 <= self.map_height_tiles <= MAP_TILES_LIMIT
    }

    /// The world x of the map's left edge, in milliunits.
    pub open spec fn map_left_milli(self) -> int {
        -(self.map_width_tiles * self.tile_size * 500)
    }

    /// The world x of the map's right edge, in milliunits.
    pub open spec fn map_right_milli(self) -> int {
        self.map_width_tiles * self.tile_size * 500
    }

    /// The world y of the map's top edge, in milliunits.
    pub open spec fn map_top_milli(self) -> int {
        self.map_height_tiles * self.tile_size * 500
    }

    /// Executable left edge.
    pub fn map_left_milli_exec(&self) -> (r: i64)
        requires
            self.wf(),
        ensures
            r == self.map_left_milli(),
    {
        proof {
            lemma_grid_product_bounded(self.map_width_tiles as int, self.tile_size as int);
        }
        -((self.map_width_tiles as i64) * (self.tile_size as i64) * 500)
    }

    /// Executable right edge.
    pub fn map_right_milli_exec(&self) -> (r: i64)
        requires
            self.wf(),
        ensures
            r == self.map_right_milli(),
    {
        proof {
            lemma_grid_product_bounded(self.map_width_tiles as int, self.tile_size as int);
        }
        (self.map_width_tiles as i64) * (self.tile_size as i64) * 500
    }
}

/// One tile placement in a level file: grid position and sprite-atlas
/// index.
#[derive(Clone, Copy, PartialEq, Eq, Structural, Debug)]
pub struct TilePosition {
    pub x: u32,
    pub y: u32,
    pub id: u32,
}

/// One layer of the level file: its depth, the path naming what the
/// layer holds, and the tiles on it.
#[derive(Debug)]
pub struct LayerData {
    pub name: u32,
    pub path: String,
    pub positions: Vec<TilePosition>,
}

/// A parsed level: the grid geometry and the layers of tiles.
#[derive(Debug)]
pub struct LevelData {
    pub tile_size: u32,
    pub map_width: u32,
    pub map_height: u32,
    pub layers: Vec<LayerData>,
}

impl LevelData {
    /// The grid context the level describes.
    pub open spec fn spec_context(self) -> LevelContext {
        LevelContext {
            tile_size: self.tile_size,
            map_width_tiles: self.map_width,
            map_height_tiles: self.map_height,
        }
    }

    /// Every tile placement sits on the grid.
    pub open spec fn positions_wf(self) -> bool {
        forall|l: int, p: int|
            0 <= l < self.layers@.len() && 0 <= p < self.layers@[l].positions@.len()
                ==> (#[trigger] self.layers@[l].positions@[p]).x <= MAP_TILES_LIMIT
                && self.layers@[l].positions@[p].y <= MAP_TILES_LIMIT
    }
}

/// A tile-grid coordinate times a tile size stays far inside `i64`.
proof fn lemma_grid_product_bounded(n: int, ts: int)
    by (nonlinear_arith)
    requires
        0 <= n <= MAP_TILES_LIMIT,
        0 <= ts <= TILE_SIZE_LIMIT,
    ensures
        0 <= n * ts <= 0x10_0000_0000_0000,
{
}

/// Where the centre of the tile in grid column `x`, row `y` sits in the
/// world, in milliunits. Rows count downward from the map's top edge, so
/// the world y axis is flipped.
pub open spec fn spec_tile_center(ctx: LevelContext, x: int, y: int) -> (int, int) {
    (
        x * ctx.tile_size * 1000 + ctx.map_left_milli() + ctx.tile_size * 500,
        -(y * ctx.tile_size * 1000) + ctx.map_top_milli() - ctx.tile_size * 500,
    )
}

/// Converts a tile-grid position to the world position of that tile's
/// centre.
pub fn tile_to_world(ctx: &LevelContext, x: u32, y: u32) -> (r: (i64, i64))
    requires
        ctx.wf(),
        x <= MAP_TILES_LIMIT,
        y <= MAP_TILES_LIMIT,
    ensures
        (r.0 as int, r.1 as int) == spec_tile_center(*ctx, x as int, y as int),
{
    let ts = ctx.tile_size as i64;
    proof {
        lemma_grid_product_bounded(x as int, ts as int);
        lemma_grid_product_bounded(y as int, ts as int);
        lemma_grid_product_bounded(ctx.map_width_tiles as int, ts as int);
        lemma_grid_product_bounded(ctx.map_height_tiles as int, ts as int);
    }
    let wx = (x as i64) * ts * 1000 + ctx.map_left_milli_exec() + ts * 500;
    let wy = -((y as i64) * ts * 1000) + (ctx.map_height_tiles as i64) * ts * 500 - ts * 500;
    (wx, wy)
}

} // verus!
