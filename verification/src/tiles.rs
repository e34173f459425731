//! Tile and collectible data: per-tile-type tuning, the path-to-properties
//! table used when a level spawns, collider shapes, and the collision
//! groups behind the one-way-platform filter.

use vstd::prelude::*;
use vstd::string::*;
use vstd::utf8::encode_utf8;
use crate::level::{LayerData, LevelContext, LevelData, TilePosition, MAP_TILES_LIMIT};
use crate::physics::Velocity;
use crate::timer::TimerMs;

verus! {

/// The collision-group bit the player's body occupies.
pub const PLAYER_GROUP: u32 = 0x0000_0001;

/// The collision-group bit one-way platforms occupy.
pub const ONE_WAY_PLATFORM_GROUP: u32 = 0x0000_0002;

/// Every collision-group bit.
pub const ALL_GROUPS: u32 = 0xffff_ffff;

/// Every collision-group bit except the one-way platforms'.
pub const ALL_BUT_ONE_WAY: u32 = 0xffff_fffd;

/// Every collision-group bit except the player's.
pub const ALL_BUT_PLAYER: u32 = 0xffff_fffe;

/// A collision filter: which groups a body belongs to and which it
/// collides with.
#[derive(Clone, Copy, PartialEq, Eq, Structural, Debug)]
pub struct CollisionGroups {
    pub memberships: u32,
    pub filters: u32,
}

impl Default for CollisionGroups {
    /// With no filter set a body belongs to, and collides with, every
    /// group.
    fn default() -> (r: Self)
        ensures
            r.memberships == ALL_GROUPS && r.filters == ALL_GROUPS,
    {
        CollisionGroups { memberships: ALL_GROUPS, filters: ALL_GROUPS }
    }
}

/// The special tile kinds a level can place.
#[derive(Clone, Copy, PartialEq, Eq, Structural, Debug)]
pub enum TileType {
    Solid,
    Falling,
    Damage,
    PipeBottomLeft,
    PipeBottomRight,
    Bouncy,
    EndLevel,
}

/// The collectible kinds a level can place.
#[derive(Clone, Copy, PartialEq, Eq, Structural, Debug)]
pub enum CollectibleType {
    Heart,
    YarnBall,
    BoneCookie,
}

/// Collider footprints a tile can carry, each a single axis-aligned box.
#[derive(Clone, Copy, PartialEq, Eq, Structural, Debug)]
pub enum ColliderShape {
    FullTile,
    ThinHorizontal,
    HalfVertical,
    QuarterBottomLeft,
    QuarterBottomRight,
}

/// An axis-aligned collider box: centre offset from the tile centre and
/// half-extents, all in milliunits.
#[derive(Clone, Copy, PartialEq, Eq, Structural, Debug)]
pub struct ColliderRect {
    pub offset_x_milli: i64,
    pub offset_y_milli: i64,
    pub half_x_milli: i64,
    pub half_y_milli: i64,
}

/// The collider box each shape denotes on a tile of the given edge
/// length: the full square, a thin ledge along the top, the lower half,
/// or one of the two bottom quarters.
pub open spec fn spec_collider_rect(shape: ColliderShape, tile_size: u32) -> ColliderRect {
    let half = tile_size * 500;
    let quarter = tile_size * 250;
    match shape {
        ColliderShape::FullTile => ColliderRect {
            offset_x_milli: 0,
            offset_y_milli: 0,
            half_x_milli: half as i64,
            half_y_milli: half as i64,
        },
        ColliderShape::ThinHorizontal => ColliderRect {
            offset_x_milli: 0,
            offset_y_milli: (quarter + 2_000) as i64,
            half_x_milli: half as i64,
            half_y_milli: 4_000,
        },
        ColliderShape::HalfVertical => ColliderRect {
            offset_x_milli: 0,
            offset_y_milli: ((-quarter) as i64),
            half_x_milli: half as i64,
            half_y_milli: quarter as i64,
        },
        ColliderShape::QuarterBottomLeft => ColliderRect {
            offset_x_milli: ((-quarter) as i64),
            offset_y_milli: ((-quarter) as i64),
            half_x_milli: quarter as i64,
            half_y_milli: quarter as i64,
        },
        ColliderShape::QuarterBottomRight => ColliderRect {
            offset_x_milli: quarter as i64,
            offset_y_milli: ((-quarter) as i64),
            half_x_milli: quarter as i64,
            half_y_milli: quarter as i64,
        },
    }
}

/// Builds the collider box for a shape on a tile of the given edge
/// length.
pub fn create_collider_from_shape(shape: &ColliderShape, tile_size: u32) -> (r: ColliderRect)
    requires
        tile_size <= crate::level::TILE_SIZE_LIMIT,
    ensures
        r == spec_collider_rect(*shape, tile_size),
{
    let half = (tile_size * 500) as i64;
    let quarter = (tile_size * 250) as i64;
    match shape {
        ColliderShape::FullTile => ColliderRect {
            offset_x_milli: 0,
            offset_y_milli: 0,
            half_x_milli: half,
            half_y_milli: half,
        },
        ColliderShape::ThinHorizontal => ColliderRect {
            offset_x_milli: 0,
            offset_y_milli: quarter + 2_000,
            half_x_milli: half,
            half_y_milli: 4_000,
        },
        ColliderShape::HalfVertical => ColliderRect {
            offset_x_milli: 0,
            offset_y_milli: -quarter,
            half_x_milli: half,
            half_y_milli: quarter,
        },
        ColliderShape::QuarterBottomLeft => ColliderRect {
            offset_x_milli: -quarter,
            offset_y_milli: -quarter,
            half_x_milli: quarter,
            half_y_milli: quarter,
        },
        ColliderShape::QuarterBottomRight => ColliderRect {
            offset_x_milli: quarter,
            offset_y_milli: -quarter,
            half_x_milli: quarter,
            half_y_milli: quarter,
        },
    }
}

/// Per-tile tuning: kind, damage dealt on contact, and the falling-tile
/// delays; durations in milliseconds.
#[derive(Clone, Copy, PartialEq, Eq, Structural, Debug)]
pub struct TileProperties {
    pub tile_type: TileType,
    pub damage: u32,
    pub fall_delay_ms: u32,
    pub shake_duration_ms: u32,
    pub custom_collider: Option<ColliderShape>,
}

impl Default for TileProperties {
    /// A plain solid tile.
    fn default() -> (r: Self)
        ensures
            r == TileProperties::spec_default(),
    {
        TileProperties {
            tile_type: TileType::Solid,
            damage: 0,
            fall_delay_ms: 1_000,
            shake_duration_ms: 500,
            custom_collider: Some(ColliderShape::FullTile),
        }
    }
}

impl TileProperties {
    /// The baseline tuning every factory starts from.
    pub open spec fn spec_default() -> TileProperties {
        TileProperties {
            tile_type: TileType::Solid,
            damage: 0,
            fall_delay_ms: 1_000,
            shake_duration_ms: 500,
            custom_collider: Some(ColliderShape::FullTile),
        }
    }

    /// A solid tile with the full-square collider.
    pub fn solid() -> (r: Self)
        ensures
            r == TileProperties::spec_default(),
    {
        TileProperties { ..Default::default() }
    }

    /// A falling tile: a thin top ledge that shakes for 0.8 s and falls
    /// for 1.5 s once stepped on.
    pub fn falling() -> (r: Self)
        ensures
            r == (TileProperties {
                tile_type: TileType::Falling,
                fall_delay_ms: 1_500,
                shake_duration_ms: 800,
                custom_collider: Some(ColliderShape::ThinHorizontal),
                ..TileProperties::spec_default()
            }),
    {
        TileProperties {
            tile_type: TileType::Falling,
            fall_delay_ms: 1_500,
            shake_duration_ms: 800,
            custom_collider: Some(ColliderShape::ThinHorizontal),
            ..Default::default()
        }
    }

    /// A damage tile dealing the given amount, with the lower-half
    /// collider.
    pub fn damage(damage_amount: u32) -> (r: Self)
        ensures
            r == (TileProperties {
                tile_type: TileType::Damage,
                damage: damage_amount,
                custom_collider: Some(ColliderShape::HalfVertical),
                ..TileProperties::spec_default()
            }),
    {
        TileProperties {
            tile_type: TileType::Damage,
            damage: damage_amount,
            custom_collider: Some(ColliderShape::HalfVertical),
            ..Default::default()
        }
    }

    /// The lower-left pipe corner.
    pub fn pipe_bottom_left() -> (r: Self)
        ensures
            r == (TileProperties {
                tile_type: TileType::PipeBottomLeft,
                custom_collider: Some(ColliderShape::QuarterBottomLeft),
                ..TileProperties::spec_default()
            }),
    {
        TileProperties {
            tile_type: TileType::PipeBottomLeft,
            custom_collider: Some(ColliderShape::QuarterBottomLeft),
            ..Default::default()
        }
    }

    /// The lower-right pipe corner.
    pub fn pipe_bottom_right() -> (r: Self)
        ensures
            r == (TileProperties {
                tile_type: TileType::PipeBottomRight,
                custom_collider: Some(ColliderShape::QuarterBottomRight),
                ..TileProperties::spec_default()
            }),
    {
        TileProperties {
            tile_type: TileType::PipeBottomRight,
            custom_collider: Some(ColliderShape::QuarterBottomRight),
            ..Default::default()
        }
    }

    /// A bouncy platform tile.
    pub fn bouncy() -> (r: Self)
        ensures
            r == (TileProperties { tile_type: TileType::Bouncy, ..TileProperties::spec_default() }),
    {
        TileProperties { tile_type: TileType::Bouncy, ..Default::default() }
    }

    /// The tile that marks the end of the level.
    fn end_level() -> (r: Self)
        ensures
            r == (TileProperties {
                tile_type: TileType::EndLevel,
                ..TileProperties::spec_default()
            }),
    {
        TileProperties { tile_type: TileType::EndLevel, ..Default::default() }
    }
}

/// Byte-for-byte equality of two string slices.
pub(crate) fn str_eq(a: &str, b: &str) -> (r: bool)
    ensures
        r == (a.spec_bytes() =~= b.spec_bytes()),
{
    let ab = a.as_bytes();
    let bb = b.as_bytes();
    if ab.len() != bb.len() {
        return false;
    }
    let n = ab.len();
    let mut i: usize = 0;
    while i < n
        invariant
            n == ab@.len() == bb@.len(),
            ab@ == a.spec_bytes(),
            bb@ == b.spec_bytes(),
            i <= n,
            forall|j: int| 0 <= j < i ==> ab@[j] == bb@[j],
        decreases n - i,
    {
        if ab[i] != bb[i] {
            return false;
        }
        i = i + 1;
    }
    proof {
        assert(a.spec_bytes() =~= b.spec_bytes());
    }
    true
}

/// The tile kind a layer's path names, if any: the table the level
/// spawner consults for each layer of the level file.
pub open spec fn spec_tile_for_path(p: Seq<u8>) -> Option<TileProperties> {
    if p =~= "solid".spec_bytes() || p =~= "ground".spec_bytes() || p =~= "box".spec_bytes() {
        Some(TileProperties::spec_default())
    } else if p =~= "falling".spec_bytes() || p =~= "falling_platform".spec_bytes() {
        Some(
            TileProperties {
                tile_type: TileType::Falling,
                fall_delay_ms: 1_500,
                shake_duration_ms: 800,
                custom_collider: Some(ColliderShape::ThinHorizontal),
                ..TileProperties::spec_default()
            },
        )
    } else if p =~= "damage".spec_bytes() || p =~= "spikes".spec_bytes() || p
        =~= "hurt".spec_bytes() {
        Some(
            TileProperties {
                tile_type: TileType::Damage,
                damage: 1,
                custom_collider: Some(ColliderShape::HalfVertical),
                ..TileProperties::spec_default()
            },
        )
    } else if p =~= "pipe_left".spec_bytes() || p =~= "pipe_bottom_left".spec_bytes() {
        Some(
            TileProperties {
                tile_type: TileType::PipeBottomLeft,
                custom_collider: Some(ColliderShape::QuarterBottomLeft),
                ..TileProperties::spec_default()
            },
        )
    } else if p =~= "pipe_right".spec_bytes() || p =~= "pipe_bottom_right".spec_bytes() {
        Some(
            TileProperties {
                tile_type: TileType::PipeBottomRight,
                custom_collider: Some(ColliderShape::QuarterBottomRight),
                ..TileProperties::spec_default()
            },
        )
    } else if p =~= "bouncy".spec_bytes() || p =~= "bouncy_platform".spec_bytes() || p
        =~= "moving_platform".spec_bytes() {
        Some(TileProperties { tile_type: TileType::Bouncy, ..TileProperties::spec_default() })
    } else if p =~= "end_level".spec_bytes() {
        Some(TileProperties { tile_type: TileType::EndLevel, ..TileProperties::spec_default() })
    } else {
        None
    }
}

/// Looks a layer path up in the tile table; background layers and other
/// unrecognized paths get no special properties.
pub fn get_tile_properties_from_path(path: &str) -> (r: Option<TileProperties>)
    ensures
        r == spec_tile_for_path(path.spec_bytes()),
{
    if str_eq(path, "solid") || str_eq(path, "ground") || str_eq(path, "box") {
        Some(TileProperties::solid())
    } else if str_eq(path, "falling") || str_eq(path, "falling_platform") {
        Some(TileProperties::falling())
    } else if str_eq(path, "damage") || str_eq(path, "spikes") || str_eq(path, "hurt") {
        Some(TileProperties::damage(1))
    } else if str_eq(path, "pipe_left") || str_eq(path, "pipe_bottom_left") {
        Some(TileProperties::pipe_bottom_left())
    } else if str_eq(path, "pipe_right") || str_eq(path, "pipe_bottom_right") {
        Some(TileProperties::pipe_bottom_right())
    } else if str_eq(path, "bouncy") || str_eq(path, "bouncy_platform") || str_eq(
        path,
        "moving_platform",
    ) {
        Some(TileProperties::bouncy())
    } else if str_eq(path, "end_level") {
        Some(TileProperties::end_level())
    } else {
        None
    }
}

/// Per-collectible tuning; the boost multiplier is in thousandths.
#[derive(Clone, Copy, PartialEq, Eq, Structural, Debug)]
pub struct CollectibleProperties {
    pub collectible_type: CollectibleType,
    pub health_restore: u32,
    pub points_value: u32,
    pub boost_duration_ms: u32,
    pub boost_multiplier_milli: u32,
}

impl CollectibleProperties {
    /// A heart restoring the given hit points.
    pub fn heart(health_amount: u32) -> (r: Self)
        ensures
            r == (CollectibleProperties {
                collectible_type: CollectibleType::Heart,
                health_restore: health_amount,
                points_value: 0,
                boost_duration_ms: 0,
                boost_multiplier_milli: 1_000,
            }),
    {
        CollectibleProperties {
            collectible_type: CollectibleType::Heart,
            health_restore: health_amount,
            points_value: 0,
            boost_duration_ms: 0,
            boost_multiplier_milli: 1_000,
        }
    }

    /// A yarn ball worth the given points.
    pub fn yarn_ball(points: u32) -> (r: Self)
        ensures
            r == (CollectibleProperties {
                collectible_type: CollectibleType::YarnBall,
                health_restore: 0,
                points_value: points,
                boost_duration_ms: 0,
                boost_multiplier_milli: 1_000,
            }),
    {
        CollectibleProperties {
            collectible_type: CollectibleType::YarnBall,
            health_restore: 0,
            points_value: points,
            boost_duration_ms: 0,
            boost_multiplier_milli: 1_000,
        }
    }

    /// A bone cookie granting a timed speed boost.
    pub fn bone_cookie(duration_ms: u32, multiplier_milli: u32) -> (r: Self)
        ensures
            r == (CollectibleProperties {
                collectible_type: CollectibleType::BoneCookie,
                health_restore: 0,
                points_value: 0,
                boost_duration_ms: duration_ms,
                boost_multiplier_milli: multiplier_milli,
            }),
    {
        CollectibleProperties {
            collectible_type: CollectibleType::BoneCookie,
            health_restore: 0,
            points_value: 0,
            boost_duration_ms: duration_ms,
            boost_multiplier_milli: multiplier_milli,
        }
    }
}

/// A collectible placed in the level, with its pickup latch and bobbing
/// animation timer.
#[derive(Clone, Copy, PartialEq, Eq, Structural, Debug)]
pub struct CollectibleItem {
    pub properties: CollectibleProperties,
    pub collected: bool,
    pub bob_timer: TimerMs,
    pub bob_amplitude_milli: i64,
}

impl Default for CollectibleItem {
    /// An uncollected ten-point yarn ball bobbing on a two-second cycle.
    fn default() -> (r: Self)
        ensures
            r.properties == (CollectibleProperties {
                collectible_type: CollectibleType::YarnBall,
                health_restore: 0,
                points_value: 10,
                boost_duration_ms: 0,
                boost_multiplier_milli: 1_000,
            }),
            !r.collected,
            r.bob_timer.elapsed_ms == 0 && r.bob_timer.duration_ms == 2_000,
            r.bob_amplitude_milli == 5_000,
    {
        CollectibleItem {
            properties: CollectibleProperties::yarn_ball(10),
            collected: false,
            bob_timer: TimerMs::new(2_000),
            bob_amplitude_milli: 5_000,
        }
    }
}

/// A tile that hurts the player on contact.
#[derive(Clone, Copy, PartialEq, Eq, Structural, Debug)]
pub struct DamageTile {
    pub damage_amount: u32,
}

impl Default for DamageTile {
    /// Damage tiles deal one hit point by default.
    fn default() -> (r: Self)
        ensures
            r.damage_amount == 1,
    {
        DamageTile { damage_amount: 1 }
    }
}

/// Marker for the two pipe-corner tiles.
pub struct PipeTile {}

/// A platform that recoils from the player; the stored velocity is the
/// platform's own travelling velocity, in milliunits per second.
#[derive(Clone, Copy, PartialEq, Eq, Structural, Debug)]
pub struct BouncyPlatform {
    pub velocity: Velocity,
    pub bounce_force_milli: i64,
    pub original_x_milli: i64,
    pub original_y_milli: i64,
}

impl Default for BouncyPlatform {
    /// A platform at rest with the standard recoil strength.
    fn default() -> (r: Self)
        ensures
            r.velocity == (Velocity { x: 0, y: 0 }),
            r.bounce_force_milli == 100_000,
            r.original_x_milli == 0 && r.original_y_milli == 0,
    {
        BouncyPlatform {
            velocity: Velocity { x: 0, y: 0 },
            bounce_force_milli: 100_000,
            original_x_milli: 0,
            original_y_milli: 0,
        }
    }
}

/// Everything a special tile carries beyond its sprite: the behaviour
/// record for its kind and, for a falling tile, the collision groups
/// that make it a one-way platform.
#[derive(Clone, Copy, PartialEq, Eq, Structural, Debug)]
pub enum TileSetup {
    Solid,
    EndLevel,
    Pipe,
    Damage(DamageTile),
    Falling(FallingTile, CollisionGroups),
    Bouncy(BouncyPlatform),
}

/// The behaviour records each special tile kind spawns with: a falling
/// tile gets its state machine, timers from the tile's tuning, and
/// membership in the one-way platform group; a damage tile gets its
/// damage record; a bouncy tile gets a platform at rest at its spawn
/// position.
pub open spec fn spec_special_tile(
    properties: TileProperties,
    x_milli: i64,
    y_milli: i64,
) -> TileSetup {
    match properties.tile_type {
        TileType::Solid => TileSetup::Solid,
        TileType::EndLevel => TileSetup::EndLevel,
        TileType::PipeBottomLeft => TileSetup::Pipe,
        TileType::PipeBottomRight => TileSetup::Pipe,
        TileType::Damage => TileSetup::Damage(DamageTile { damage_amount: properties.damage }),
        TileType::Falling => TileSetup::Falling(
            FallingTile {
                state: FallingState::Stable,
                shake_timer: TimerMs { elapsed_ms: 0, duration_ms: properties.shake_duration_ms },
                fall_timer: TimerMs { elapsed_ms: 0, duration_ms: properties.fall_delay_ms },
                original_x_milli: x_milli,
                original_y_milli: y_milli,
                shake_intensity_milli: 2_000,
            },
            CollisionGroups { memberships: ONE_WAY_PLATFORM_GROUP, filters: ALL_BUT_PLAYER },
        ),
        TileType::Bouncy => TileSetup::Bouncy(
            BouncyPlatform {
                velocity: Velocity { x: 0, y: 0 },
                bounce_force_milli: 100_000,
                original_x_milli: x_milli,
                original_y_milli: y_milli,
            },
        ),
    }
}

/// Builds the behaviour records a special tile spawns with.
pub fn spawn_special_tile(properties: &TileProperties, x_milli: i64, y_milli: i64) -> (s: TileSetup)
    ensures
        s == spec_special_tile(*properties, x_milli, y_milli),
{
    match properties.tile_type {
        TileType::Solid => TileSetup::Solid,
        TileType::EndLevel => TileSetup::EndLevel,
        TileType::PipeBottomLeft => TileSetup::Pipe,
        TileType::PipeBottomRight => TileSetup::Pipe,
        TileType::Damage => TileSetup::Damage(DamageTile { damage_amount: properties.damage }),
        TileType::Falling => TileSetup::Falling(
            FallingTile {
                state: FallingState::Stable,
                shake_timer: TimerMs::new(properties.shake_duration_ms),
                fall_timer: TimerMs::new(properties.fall_delay_ms),
                original_x_milli: x_milli,
                original_y_milli: y_milli,
                shake_intensity_milli: 2_000,
            },
            CollisionGroups { memberships: ONE_WAY_PLATFORM_GROUP, filters: ALL_BUT_PLAYER },
        ),
        TileType::Bouncy => TileSetup::Bouncy(
            BouncyPlatform {
                velocity: Velocity { x: 0, y: 0 },
                bounce_force_milli: 100_000,
                original_x_milli: x_milli,
                original_y_milli: y_milli,
            },
        ),
    }
}

/// One tile the level spawner creates: world position, sprite depth
/// and atlas index, tuning, behaviour records and collider box.
#[derive(Clone, Copy, PartialEq, Eq, Structural, Debug)]
pub struct TileSpawn {
    pub x_milli: i64,
    pub y_milli: i64,
    pub depth: u32,
    pub tile_id: u32,
    pub properties: TileProperties,
    pub setup: TileSetup,
    pub collider: Option<ColliderRect>,
}

/// The tile the spawner creates for one placement on a layer with the
/// given tuning and depth.
pub open spec fn spec_tile_spawn(
    ctx: LevelContext,
    props: TileProperties,
    depth: u32,
    p: TilePosition,
) -> TileSpawn {
    let c = crate::level::spec_tile_center(ctx, p.x as int, p.y as int);
    TileSpawn {
        x_milli: c.0 as i64,
        y_milli: c.1 as i64,
        depth,
        tile_id: p.id,
        properties: props,
        setup: spec_special_tile(props, c.0 as i64, c.1 as i64),
        collider: match props.custom_collider {
            Some(shape) => Some(spec_collider_rect(shape, ctx.tile_size)),
            None => None,
        },
    }
}

/// What one layer contributes: nothing for a background layer, and one
/// tile per placement for a layer whose path names a special tile.
pub open spec fn spec_layer_spawns(ctx: LevelContext, layer: LayerData) -> Seq<TileSpawn> {
    match spec_tile_for_path(encode_utf8(layer.path@)) {
        None => Seq::empty(),
        Some(props) => Seq::new(
            layer.positions@.len(),
            |i: int| spec_tile_spawn(ctx, props, layer.name, layer.positions@[i]),
        ),
    }
}

/// Every tile the level's layers spawn, in layer order.
pub open spec fn spec_level_spawns(ctx: LevelContext, layers: Seq<LayerData>) -> Seq<TileSpawn>
    decreases layers.len(),
{
    if layers.len() == 0 {
        Seq::empty()
    } else {
        spec_level_spawns(ctx, layers.drop_last()) + spec_layer_spawns(ctx, layers.last())
    }
}

/// Walks the level's layers and builds every special tile they place:
/// each layer's path names the tuning, each grid position fixes a world
/// position, and the tile kind fixes the behaviour records and the
/// collider box.
pub fn spawn_level_tiles(level: &LevelData) -> (tiles: Vec<TileSpawn>)
    requires
        level.spec_context().wf(),
        level.positions_wf(),
    ensures
        tiles@ == spec_level_spawns(level.spec_context(), level.layers@),
{
    let ctx = LevelContext {
        tile_size: level.tile_size,
        map_width_tiles: level.map_width,
        map_height_tiles: level.map_height,
    };
    let mut out: Vec<TileSpawn> = Vec::new();
    let mut li: usize = 0;
    while li < level.layers.len()
        invariant
            li <= level.layers@.len(),
            ctx == level.spec_context(),
            ctx.wf(),
            level.positions_wf(),
            out@ == spec_level_spawns(ctx, level.layers@.subrange(0, li as int)),
        decreases level.layers@.len() - li,
    {
        let layer = &level.layers[li];
        let depth = layer.name;
        let ghost before = out@;
        match get_tile_properties_from_path(layer.path.as_str()) {
            Some(props) => {
                let ghost entry = |i: int|
                    spec_tile_spawn(ctx, props, depth, level.layers@[li as int].positions@[i]);
                let mut pi: usize = 0;
                while pi < layer.positions.len()
                    invariant
                        pi <= layer.positions@.len(),
                        ctx.wf(),
                        li < level.layers@.len(),
                        layer == &level.layers@[li as int],
                        depth == layer.name,
                        level.positions_wf(),
                        entry == (|i: int|
                            spec_tile_spawn(
                                ctx,
                                props,
                                depth,
                                level.layers@[li as int].positions@[i],
                            )),
                        out@ == before + Seq::new(pi as nat, entry),
                    decreases layer.positions@.len() - pi,
                {
                    let p = layer.positions[pi];
                    proof {
                        assert(level.layers@[li as int].positions@[pi as int].x <= MAP_TILES_LIMIT
                            && level.layers@[li as int].positions@[pi as int].y
                            <= MAP_TILES_LIMIT);
                    }
                    let (wx, wy) = crate::level::tile_to_world(&ctx, p.x, p.y);
                    let setup = spawn_special_tile(&props, wx, wy);
                    let collider = match &props.custom_collider {
                        Some(shape) => Some(create_collider_from_shape(shape, ctx.tile_size)),
                        None => None,
                    };
                    out.push(
                        TileSpawn {
                            x_milli: wx,
                            y_milli: wy,
                            depth,
                            tile_id: p.id,
                            properties: props,
                            setup,
                            collider,
                        },
                    );
                    proof {
                        assert(Seq::new(pi as nat + 1, entry) =~= Seq::new(pi as nat, entry).push(
                            entry(pi as int),
                        ));
                        assert(before + Seq::new(pi as nat, entry).push(entry(pi as int)) =~= (
                        before + Seq::new(pi as nat, entry)).push(entry(pi as int)));
                    }
                    pi = pi + 1;
                }
                proof {
                    assert(level.layers@.subrange(0, li as int + 1).drop_last() =~= level.layers@
                        .subrange(0, li as int));
                    assert(level.layers@.subrange(0, li as int + 1).last() == level.layers@[
                        li as int]);
                    assert(spec_layer_spawns(ctx, level.layers@[li as int]) =~= Seq::new(
                        level.layers@[li as int].positions@.len(),
                        entry,
                    ));
                    assert(out@ =~= before + Seq::new(
                        level.layers@[li as int].positions@.len(),
                        entry,
                    ));
                }
            },
            None => {
                proof {
                    assert(level.layers@.subrange(0, li as int + 1).drop_last() =~= level.layers@
                        .subrange(0, li as int));
                    assert(level.layers@.subrange(0, li as int + 1).last() == level.layers@[
                        li as int]);
                    assert(spec_layer_spawns(ctx, level.layers@[li as int]) =~= Seq::<
                        TileSpawn,
                    >::empty());
                    assert(before + Seq::<TileSpawn>::empty() =~= before);
                }
            },
        }
        li = li + 1;
    }
    proof {
        assert(level.layers@.subrange(0, level.layers@.len() as int) =~= level.layers@);
    }
    out
}

/// The lifecycle of a falling tile, from resting through its one-tick
/// trigger latency, the shake, the fall, and its removal.
#[derive(Clone, Copy, PartialEq, Eq, Structural, Debug)]
pub enum FallingState {
    Stable,
    Triggered,
    Shaking,
    Falling,
    Fallen,
}

/// A tile that gives way shortly after the player steps on it.
#[derive(Clone, Copy, PartialEq, Eq, Structural, Debug)]
pub struct FallingTile {
    pub state: FallingState,
    pub shake_timer: TimerMs,
    pub fall_timer: TimerMs,
    pub original_x_milli: i64,
    pub original_y_milli: i64,
    pub shake_intensity_milli: i64,
}

impl FallingTile {
    /// Well-formedness: both timers are sound and the shake amplitude is
    /// a small non-negative offset.
    pub open spec fn wf(self) -> bool {
        &&& self.shake_timer.wf()
        &&& self.fall_timer.wf()
        &&& 0 <= self.shake_intensity_milli <= 1_000_000
    }
}

impl Default for FallingTile {
    /// A stable tile that will shake for 0.8 s and fall for 1.5 s.
    fn default() -> (r: Self)
        ensures
            r.state == FallingState::Stable,
            r.shake_timer.elapsed_ms == 0 && r.shake_timer.duration_ms == 800,
            r.fall_timer.elapsed_ms == 0 && r.fall_timer.duration_ms == 1_500,
            r.original_x_milli == 0 && r.original_y_milli == 0,
            r.shake_intensity_milli == 2_000,
            r.wf(),
    {
        FallingTile {
            state: FallingState::Stable,
            shake_timer: TimerMs::new(800),
            fall_timer: TimerMs::new(1_500),
            original_x_milli: 0,
            original_y_milli: 0,
            shake_intensity_milli: 2_000,
        }
    }
}

} // verus!
