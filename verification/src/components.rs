use vstd::prelude::*;
use crate::constants::{
    BALL_SIZE, BALL_SPEED, BALL_STARTING_X, BALL_STARTING_Y, BRICK_COLUMN_COUNT,
    BRICK_COUNT_TOTAL, BRICK_SIZE_X, BRICK_SIZE_Y,
    HALF_WALL_TILE, PADDLE_SIZE_X, PADDLE_SIZE_Y, PADDLE_STARTING_X, PADDLE_STARTING_Y,
    PLAY_AREA_CENTER, SCREEN_LEFT, SCREEN_TOP, WALL_LENGTH_HORIZONTAL,
    WALL_LENGTH_HORIZONTAL_WITH_CORNERS, WALL_LENGTH_VERTICAL, WALL_LOCATION_CENTER,
    WALL_TILE_SIZE, WORLD_LIMIT,
};
use crate::geometry::Vec2;

verus! {

/// 2D position and scale of a simulated body. The position is the entity's
/// center in world units; for rectangular colliders the scale is the full
/// width and height of the rectangle, so the half-extents are `scale / 2`.
#[derive(Clone, Copy, PartialEq, Eq, Structural, Debug)]
pub struct Transform {
    pub translation: Vec2,
    pub scale: Vec2,
}

impl Transform {
    /// Well-formed for collision queries: centered inside the world, with a
    /// nonnegative, bounded scale.
    pub open spec fn wf(self) -> bool {
        &&& self.translation.in_world()
        &&& 0 <= self.scale.x <= WORLD_LIMIT
        &&& 0 <= self.scale.y <= WORLD_LIMIT
    }

    pub fn new(translation: Vec2, scale: Vec2) -> (r: Transform)
        ensures
            r.translation == translation,
            r.scale == scale,
    {
        Transform { translation, scale }
    }
}

/// The ball's velocity in world units per time unit. Only the collision
/// resolver mutates it, by flipping the sign of one or both components.
#[derive(Clone, Copy, PartialEq, Eq, Structural, Debug)]
pub struct Velocity(pub Vec2);

impl Velocity {
    /// Both components are small enough that sign flips and one tick of
    /// integration stay inside `i64`.
    pub open spec fn wf(self) -> bool {
        &&& -WORLD_LIMIT <= self.0.x <= WORLD_LIMIT
        &&& -WORLD_LIMIT <= self.0.y <= WORLD_LIMIT
    }

    pub fn new(x: i64, y: i64) -> (r: Velocity)
        ensures
            r.0.x == x,
            r.0.y == y,
    {
        Velocity(Vec2 { x, y })
    }
}

impl Default for Velocity {
    /// The spawn velocity: the fixed ball speed on both axes, so the initial
    /// travel direction is diagonal at 45 degrees.
    fn default() -> (r: Velocity)
        ensures
            r.0.x == BALL_SPEED,
            r.0.y == BALL_SPEED,
    {
        Velocity(Vec2 { x: BALL_SPEED, y: BALL_SPEED })
    }
}

/// Tags an entity as participating in collision queries. It carries no data;
/// the collision geometry derives from the entity's `Transform`.
#[derive(Clone, Copy, PartialEq, Eq, Structural, Debug)]
pub struct Collider;

/// The single probing body of the simulation. The ball owns a `Transform` and
/// a `Velocity` and is itself collider-free.
#[derive(Clone, Copy, PartialEq, Eq, Structural, Debug)]
pub struct Ball;

impl Ball {
    /// The ball's spawn state: its starting position, a scale of the ball's
    /// diameter on both axes, and the default diagonal velocity.
    pub fn new() -> (r: (Ball, Transform, Velocity))
        ensures
            r.1.translation.x == BALL_STARTING_X,
            r.1.translation.y == BALL_STARTING_Y,
            r.1.scale.x == BALL_SIZE,
            r.1.scale.y == BALL_SIZE,
            r.2.0.x == BALL_SPEED,
            r.2.0.y == BALL_SPEED,
    {
        let transform = Transform {
            translation: Vec2 { x: BALL_STARTING_X, y: BALL_STARTING_Y },
            scale: Vec2 { x: BALL_SIZE, y: BALL_SIZE },
        };
        (Ball, transform, Velocity::default())
    }
}

/// The single player-controlled body; a collider like the walls and bricks.
#[derive(Clone, Copy, PartialEq, Eq, Structural, Debug)]
pub struct Paddle;

impl Paddle {
    /// The paddle's spawn state: centered at the paddle start position with
    /// the paddle's full size as its scale.
    pub fn new() -> (r: (Paddle, Transform, Collider))
        ensures
            r.1.translation.x == PADDLE_STARTING_X,
            r.1.translation.y == PADDLE_STARTING_Y,
            r.1.scale.x == PADDLE_SIZE_X,
            r.1.scale.y == PADDLE_SIZE_Y,
    {
        let transform = Transform {
            translation: Vec2 { x: PADDLE_STARTING_X, y: PADDLE_STARTING_Y },
            scale: Vec2 { x: PADDLE_SIZE_X, y: PADDLE_SIZE_Y },
        };
        (Paddle, transform, Collider)
    }
}

/// The visual kind of a brick. Every brick is destroyed on first contact;
/// the variant only selects its representation.
#[derive(Clone, Copy, PartialEq, Eq, Structural, Debug)]
pub enum BrickVariant {
    Normal,
    MultiHit,
}

/// The level-sheet code of a normal brick.
pub const NORMAL: u8 = 1;

/// The level-sheet code of a multi-hit brick.
pub const MULTIHIT: u8 = 2;

impl BrickVariant {
    /// The brick variant a level-sheet cell encodes: 1 is a normal brick, 2 a
    /// multi-hit brick, anything else an empty cell.
    pub open spec fn from_u8_spec(value: u8) -> Option<BrickVariant> {
        if value == NORMAL {
            Some(BrickVariant::Normal)
        } else if value == MULTIHIT {
            Some(BrickVariant::MultiHit)
        } else {
            None
        }
    }

    /// Decodes a level-sheet cell: 1 is a normal brick, 2 a multi-hit brick,
    /// anything else is an empty cell.
    pub fn from_u8(value: u8) -> (r: Option<BrickVariant>)
        ensures
            r == BrickVariant::from_u8_spec(value),
            value == 1 ==> r == Some(BrickVariant::Normal),
            value == 2 ==> r == Some(BrickVariant::MultiHit),
            value != 1 && value != 2 ==> r is None,
    {
        match value {
            NORMAL => Some(Self::Normal),
            MULTIHIT => Some(Self::MultiHit),
            _ => None,
        }
    }
}

/// A destructible collider: removed by the resolver on its first contact
/// with the ball.
#[derive(Clone, Copy, PartialEq, Eq, Structural, Debug)]
pub struct Brick;

impl Brick {
    /// A brick's spawn state at the given position, with the brick's full
    /// size as its scale. The brick's variant only selects its sprite, which
    /// the presentation layer owns, so it plays no part here.
    pub fn new(position: Vec2) -> (r: (Brick, Transform, Collider))
        ensures
            r.1.translation == position,
            r.1.scale.x == BRICK_SIZE_X,
            r.1.scale.y == BRICK_SIZE_Y,
    {
        let transform = Transform {
            translation: position,
            scale: Vec2 { x: BRICK_SIZE_X, y: BRICK_SIZE_Y },
        };
        (Brick, transform, Collider)
    }
}


/// The center of the level-sheet cell `index` counts row-major from the
/// top-left of the brick field, whose first cell sits one wall tile in from
/// the top-left corner of the screen; the added 8 and subtracted 4 are half a
/// brick's width and height.
pub open spec fn brick_position_spec(index: int) -> Vec2 {
    Vec2 {
        x: (SCREEN_LEFT + WALL_TILE_SIZE + 8 + (index % (BRICK_COLUMN_COUNT as int))
            * BRICK_SIZE_X) as i64,
        y: (SCREEN_TOP - WALL_TILE_SIZE - 4 - (index / (BRICK_COLUMN_COUNT as int))
            * BRICK_SIZE_Y) as i64,
    }
}

/// Where the brick of the given level-sheet cell spawns.
pub fn brick_position(index: usize) -> (p: Vec2)
    requires
        index < BRICK_COUNT_TOTAL,
    ensures
        p == brick_position_spec(index as int),
{
    let horizontal_tile = (index % BRICK_COLUMN_COUNT) as i64;
    let vertical_tile = (index / BRICK_COLUMN_COUNT) as i64;
    Vec2 {
        x: SCREEN_LEFT + WALL_TILE_SIZE + 8 + horizontal_tile * BRICK_SIZE_X,
        y: SCREEN_TOP - WALL_TILE_SIZE - 4 - vertical_tile * BRICK_SIZE_Y,
    }
}

/// The bricks the first `n` cells of a level sheet call for: one entry per
/// cell that encodes a brick, pairing its variant with its spawn position,
/// in cell order.
pub open spec fn brick_layout_spec(level: Seq<u8>, n: int) -> Seq<(BrickVariant, Vec2)>
    decreases n,
{
    if n <= 0 {
        Seq::empty()
    } else {
        let prefix = brick_layout_spec(level, n - 1);
        match BrickVariant::from_u8_spec(level[n - 1]) {
            Option::None => prefix,
            Option::Some(variant) => prefix.push((variant, brick_position_spec(n - 1))),
        }
    }
}

/// Reads a full level sheet and returns the bricks to spawn: the variant and
/// the position for every cell that encodes a brick, in cell order.
pub fn brick_layout(level: &Vec<u8>) -> (r: Vec<(BrickVariant, Vec2)>)
    requires
        level@.len() == BRICK_COUNT_TOTAL,
    ensures
        r@ == brick_layout_spec(level@, level@.len() as int),
{
    let mut bricks: Vec<(BrickVariant, Vec2)> = Vec::new();
    let mut index: usize = 0;
    while index < level.len()
        invariant
            index <= level@.len(),
            level@.len() == BRICK_COUNT_TOTAL,
            bricks@ == brick_layout_spec(level@, index as int),
        decreases level@.len() - index,
    {
        match BrickVariant::from_u8(level[index]) {
            Option::Some(variant) => {
                let position = brick_position(index);
                bricks.push((variant, position));
            },
            Option::None => {},
        }
        index += 1;
    }
    bricks
}

/// The two corner tiles closing the top wall against the side walls.
#[derive(Clone, Copy, PartialEq, Eq, Structural, Debug)]
pub enum CornerLocation {
    TopLeft,
    TopRight,
}

impl CornerLocation {
    /// The world position of the corner tile's center.
    pub open spec fn position_spec(self) -> Vec2 {
        match self {
            CornerLocation::TopLeft => Vec2 {
                x: (SCREEN_LEFT + HALF_WALL_TILE) as i64,
                y: (SCREEN_TOP - HALF_WALL_TILE) as i64,
            },
            CornerLocation::TopRight => Vec2 {
                x: (SCREEN_LEFT + WALL_LENGTH_HORIZONTAL_WITH_CORNERS - HALF_WALL_TILE) as i64,
                y: (SCREEN_TOP - HALF_WALL_TILE) as i64,
            },
        }
    }

    /// Whether the corner's sprite is mirrored horizontally.
    pub open spec fn flip_x_spec(self) -> bool {
        match self {
            CornerLocation::TopLeft => false,
            CornerLocation::TopRight => true,
        }
    }

    pub fn position(&self) -> (p: Vec2)
        ensures
            p == self.position_spec(),
    {
        match self {
            CornerLocation::TopLeft => Vec2 {
                x: SCREEN_LEFT + HALF_WALL_TILE,
                y: SCREEN_TOP - HALF_WALL_TILE,
            },
            CornerLocation::TopRight => Vec2 {
                x: SCREEN_LEFT + WALL_LENGTH_HORIZONTAL_WITH_CORNERS - HALF_WALL_TILE,
                y: SCREEN_TOP - HALF_WALL_TILE,
            },
        }
    }

    pub fn flip_x(&self) -> (r: bool)
        ensures
            r == self.flip_x_spec(),
    {
        match self {
            CornerLocation::TopLeft => false,
            CornerLocation::TopRight => true,
        }
    }
}

/// Where a wall stands: one of the three straight walls, or a corner tile.
#[derive(Clone, Copy, PartialEq, Eq, Structural, Debug)]
pub enum WallLocation {
    Left,
    Right,
    Top,
    Corner(CornerLocation),
}

impl WallLocation {
    /// The world position of the wall's center.
    pub open spec fn position_spec(self) -> Vec2 {
        match self {
            WallLocation::Left => Vec2 {
                x: (SCREEN_LEFT + HALF_WALL_TILE) as i64,
                y: WALL_LOCATION_CENTER,
            },
            WallLocation::Right => Vec2 {
                x: (SCREEN_LEFT + WALL_LENGTH_HORIZONTAL_WITH_CORNERS - HALF_WALL_TILE) as i64,
                y: WALL_LOCATION_CENTER,
            },
            WallLocation::Top => Vec2 {
                x: PLAY_AREA_CENTER,
                y: (SCREEN_TOP - HALF_WALL_TILE) as i64,
            },
            WallLocation::Corner(location) => location.position_spec(),
        }
    }

    /// The wall's full width and height; the collider half-extents are half
    /// of it.
    pub open spec fn size_spec(self) -> Vec2 {
        match self {
            WallLocation::Left | WallLocation::Right => Vec2 {
                x: WALL_TILE_SIZE,
                y: WALL_LENGTH_VERTICAL,
            },
            WallLocation::Top => Vec2 { x: WALL_LENGTH_HORIZONTAL, y: WALL_TILE_SIZE },
            WallLocation::Corner(_) => Vec2 { x: WALL_TILE_SIZE, y: WALL_TILE_SIZE },
        }
    }

    /// Whether the wall's sprite is mirrored horizontally.
    pub open spec fn flip_x_spec(self) -> bool {
        match self {
            WallLocation::Left | WallLocation::Top => false,
            WallLocation::Right => true,
            WallLocation::Corner(location) => location.flip_x_spec(),
        }
    }

    pub fn position(&self) -> (p: Vec2)
        ensures
            p == self.position_spec(),
    {
        match self {
            WallLocation::Left => Vec2 { x: SCREEN_LEFT + HALF_WALL_TILE, y: WALL_LOCATION_CENTER },
            WallLocation::Right => Vec2 {
                x: SCREEN_LEFT + WALL_LENGTH_HORIZONTAL_WITH_CORNERS - HALF_WALL_TILE,
                y: WALL_LOCATION_CENTER,
            },
            WallLocation::Top => Vec2 { x: PLAY_AREA_CENTER, y: SCREEN_TOP - HALF_WALL_TILE },
            WallLocation::Corner(location) => location.position(),
        }
    }

    pub fn size(&self) -> (s: Vec2)
        ensures
            s == self.size_spec(),
    {
        match self {
            WallLocation::Left | WallLocation::Right => Vec2 {
                x: WALL_TILE_SIZE,
                y: WALL_LENGTH_VERTICAL,
            },
            WallLocation::Top => Vec2 { x: WALL_LENGTH_HORIZONTAL, y: WALL_TILE_SIZE },
            WallLocation::Corner(_) => Vec2 { x: WALL_TILE_SIZE, y: WALL_TILE_SIZE },
        }
    }

    pub fn flip_x(&self) -> (r: bool)
        ensures
            r == self.flip_x_spec(),
    {
        match self {
            WallLocation::Left | WallLocation::Top => false,
            WallLocation::Right => true,
            WallLocation::Corner(location) => location.flip_x(),
        }
    }
}

/// A static boundary tile of the play field.
#[derive(Clone, Copy, PartialEq, Eq, Structural, Debug)]
pub struct Wall;

impl Wall {
    /// A wall's spawn state: centered at its location's position, with its
    /// location's full size as its scale.
    pub fn new(location: WallLocation) -> (r: (Wall, Transform))
        ensures
            r.1.translation == location.position_spec(),
            r.1.scale == location.size_spec(),
    {
        let transform = Transform { translation: location.position(), scale: location.size() };
        (Wall, transform)
    }

    /// A wall's spawn state together with its collider marker.
    pub fn with_collision(location: WallLocation) -> (r: (Wall, Transform, Collider))
        ensures
            r.1.translation == location.position_spec(),
            r.1.scale == location.size_spec(),
    {
        let (wall, transform) = Self::new(location);
        (wall, transform, Collider)
    }
}

} // verus!
