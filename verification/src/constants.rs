use vstd::prelude::*;

verus! {

// All lengths and positions are integer world units. One world unit is half a
// display pixel of the 160x144 target screen, so that the half-extents and the
// tile midpoints of every sprite-sized collider are exactly representable.

/// Largest magnitude a world coordinate, scale or radius handled by the core
/// may have. Keeps every squared distance comfortably inside `i64`.
pub const WORLD_LIMIT: i64 = 1_000_000;

/// Largest elapsed time (in time units) a single simulation tick may carry.
pub const TICK_LIMIT: i64 = 1_000_000;

/// The width of the game screen in world units.
pub const DMG_WIDTH: i64 = 320;

/// The height of the game screen in world units.
pub const DMG_HEIGHT: i64 = 288;

/// The farthest top point of the viewable screen.
pub const SCREEN_TOP: i64 = 144;

/// The farthest right point of the viewable screen.
pub const SCREEN_RIGHT: i64 = 160;

/// The farthest left point of the viewable screen.
pub const SCREEN_LEFT: i64 = -SCREEN_RIGHT;

/// The farthest bottom point of the viewable screen.
pub const SCREEN_BOTTOM: i64 = -SCREEN_TOP;

/// The length and width of a wall tile.
pub const WALL_TILE_SIZE: i64 = 16;

/// Half of the length and width of a wall tile, used in positioning logic.
pub const HALF_WALL_TILE: i64 = 8;

/// The number of left/right wall tiles stacked vertically.
pub const WALL_TILE_COUNT_VERTICAL: i64 = 17;

/// The number of top wall tiles laid out horizontally.
pub const WALL_TILE_COUNT_HORIZONTAL: i64 = 13;

/// The total length of the left and right walls.
pub const WALL_LENGTH_VERTICAL: i64 = WALL_TILE_COUNT_VERTICAL * WALL_TILE_SIZE;

/// The total length of the top wall.
pub const WALL_LENGTH_HORIZONTAL: i64 = WALL_TILE_COUNT_HORIZONTAL * WALL_TILE_SIZE;

/// The total length of the top wall including the two corner tiles.
pub const WALL_LENGTH_HORIZONTAL_WITH_CORNERS: i64 = WALL_LENGTH_HORIZONTAL + WALL_TILE_SIZE * 2;

/// The vertical center point of the left and right walls.
pub const WALL_LOCATION_CENTER: i64 = -WALL_TILE_SIZE + HALF_WALL_TILE;

/// The horizontal center of the playable area: `SCREEN_LEFT` plus half of
/// `WALL_LENGTH_HORIZONTAL_WITH_CORNERS`.
pub const PLAY_AREA_CENTER: i64 = SCREEN_LEFT + 120;

/// The width of a breakable brick.
pub const BRICK_SIZE_X: i64 = 16;

/// The height of a breakable brick.
pub const BRICK_SIZE_Y: i64 = 8;

/// The maximum number of brick rows in a level.
pub const BRICK_ROW_COUNT: usize = 18;

/// The maximum number of brick columns in a level.
pub const BRICK_COLUMN_COUNT: usize = 13;

/// The total maximum number of bricks in a level.
pub const BRICK_COUNT_TOTAL: usize = BRICK_ROW_COUNT * BRICK_COLUMN_COUNT;

/// The width of the player paddle.
pub const PADDLE_SIZE_X: i64 = 52;

/// The height of the player paddle.
pub const PADDLE_SIZE_Y: i64 = 10;

/// The amount of space between the paddle and the bottom of the screen.
pub const PADDLE_BOTTOM_PADDING: i64 = 16;

/// The starting horizontal position of the player paddle.
pub const PADDLE_STARTING_X: i64 = PLAY_AREA_CENTER;

/// The starting vertical position of the player paddle; the trailing term is
/// half of `PADDLE_SIZE_Y`.
pub const PADDLE_STARTING_Y: i64 = SCREEN_BOTTOM + PADDLE_BOTTOM_PADDING + 5;

/// The paddle's horizontal speed, in world units per time unit.
pub const PADDLE_SPEED: i64 = 200;

/// The leftmost position the paddle's center may reach: the inner edge of the
/// left wall plus half of `PADDLE_SIZE_X`.
pub const PADDLE_LEFT_BOUND: i64 = SCREEN_LEFT + WALL_TILE_SIZE + 26;

/// The rightmost position the paddle's center may reach: the inner edge of the
/// right wall minus half of `PADDLE_SIZE_X`.
pub const PADDLE_RIGHT_BOUND: i64 =
    SCREEN_LEFT + WALL_LENGTH_HORIZONTAL_WITH_CORNERS - WALL_TILE_SIZE - 26;

/// The diameter of the ball; its bounding circle uses half of it.
pub const BALL_SIZE: i64 = 10;

/// The radius of the ball's bounding circle: half of `BALL_SIZE`.
pub const BALL_RADIUS: i64 = 5;

/// The ball's default speed on each axis, in world units per time unit, so the
/// initial travel direction is diagonal at 45 degrees.
pub const BALL_SPEED: i64 = 100;

/// The starting horizontal position of the ball.
pub const BALL_STARTING_X: i64 = PLAY_AREA_CENTER;

/// The starting vertical position of the ball.
pub const BALL_STARTING_Y: i64 = -100;

/// Physical-key identifier for the left arrow key.
pub const KEY_ARROW_LEFT: u32 = 37;

/// Physical-key identifier for the right arrow key.
pub const KEY_ARROW_RIGHT: u32 = 39;

/// Physical-key identifier for the space bar.
pub const KEY_SPACE: u32 = 32;

} // verus!
