use breakout_core::components::{
    brick_layout, brick_position, Ball, Brick, BrickVariant, CornerLocation, Paddle, Velocity,
    Wall, WallLocation, MULTIHIT, NORMAL,
};
use breakout_core::constants::{
    BALL_RADIUS, BALL_SIZE, BALL_SPEED, BALL_STARTING_X, BALL_STARTING_Y, BRICK_COLUMN_COUNT,
    BRICK_COUNT_TOTAL, BRICK_ROW_COUNT, BRICK_SIZE_X, BRICK_SIZE_Y, PADDLE_LEFT_BOUND,
    PADDLE_RIGHT_BOUND, PADDLE_SIZE_X, PADDLE_SIZE_Y, PADDLE_STARTING_X, PADDLE_STARTING_Y,
    PLAY_AREA_CENTER, SCREEN_BOTTOM, SCREEN_LEFT, SCREEN_RIGHT, SCREEN_TOP, WALL_LENGTH_HORIZONTAL,
    WALL_LENGTH_HORIZONTAL_WITH_CORNERS, WALL_LENGTH_VERTICAL, WALL_TILE_SIZE,
};
use breakout_core::geometry::Vec2;

#[test]
fn constants_fit_together() {
    // The screen extents are symmetric and the derived layout constants
    // match their defining arithmetic.
    assert_eq!(SCREEN_LEFT, -SCREEN_RIGHT);
    assert_eq!(SCREEN_BOTTOM, -SCREEN_TOP);
    assert_eq!(BALL_RADIUS, BALL_SIZE / 2);
    assert_eq!(PLAY_AREA_CENTER, SCREEN_LEFT + WALL_LENGTH_HORIZONTAL_WITH_CORNERS / 2);
    assert_eq!(PADDLE_LEFT_BOUND, SCREEN_LEFT + WALL_TILE_SIZE + PADDLE_SIZE_X / 2);
    assert_eq!(
        PADDLE_RIGHT_BOUND,
        SCREEN_LEFT + WALL_LENGTH_HORIZONTAL_WITH_CORNERS - WALL_TILE_SIZE - PADDLE_SIZE_X / 2
    );
    assert_eq!(PADDLE_STARTING_Y, SCREEN_BOTTOM + 16 + PADDLE_SIZE_Y / 2);
    assert_eq!(BRICK_COUNT_TOTAL, BRICK_ROW_COUNT * BRICK_COLUMN_COUNT);
    assert!(PADDLE_LEFT_BOUND < PADDLE_RIGHT_BOUND);
}

#[test]
fn ball_spawns_at_start_with_default_velocity() {
    let (_ball, transform, velocity) = Ball::new();
    assert_eq!(transform.translation, Vec2::new(BALL_STARTING_X, BALL_STARTING_Y));
    assert_eq!(transform.scale, Vec2::new(BALL_SIZE, BALL_SIZE));
    assert_eq!(velocity, Velocity::new(BALL_SPEED, BALL_SPEED));
}

#[test]
fn default_velocity_is_diagonal() {
    let velocity = Velocity::default();
    assert_eq!(velocity.0.x, velocity.0.y);
    assert_eq!(velocity.0.x, BALL_SPEED);
}

#[test]
fn paddle_spawns_centered_above_the_bottom() {
    let (_paddle, transform, _collider) = Paddle::new();
    assert_eq!(transform.translation, Vec2::new(PADDLE_STARTING_X, PADDLE_STARTING_Y));
    assert_eq!(transform.scale, Vec2::new(PADDLE_SIZE_X, PADDLE_SIZE_Y));
}

#[test]
fn brick_spawns_at_given_position_with_brick_size() {
    let (_brick, transform, _collider) = Brick::new(Vec2::new(20, 20));
    assert_eq!(transform.translation, Vec2::new(20, 20));
    assert_eq!(transform.scale, Vec2::new(BRICK_SIZE_X, BRICK_SIZE_Y));
}

#[test]
fn brick_variant_decodes_level_codes() {
    assert_eq!(BrickVariant::from_u8(NORMAL), Some(BrickVariant::Normal));
    assert_eq!(BrickVariant::from_u8(MULTIHIT), Some(BrickVariant::MultiHit));
    assert_eq!(BrickVariant::from_u8(0), None);
    assert_eq!(BrickVariant::from_u8(3), None);
    assert_eq!(BrickVariant::from_u8(255), None);
}

#[test]
fn brick_positions_walk_the_grid_row_major() {
    let first = brick_position(0);
    assert_eq!(first, Vec2::new(SCREEN_LEFT + WALL_TILE_SIZE + BRICK_SIZE_X / 2,
        SCREEN_TOP - WALL_TILE_SIZE - BRICK_SIZE_Y / 2));
    assert_eq!(first, Vec2::new(-136, 124));
    // One column right.
    assert_eq!(brick_position(1), Vec2::new(-136 + BRICK_SIZE_X, 124));
    // One row down.
    assert_eq!(brick_position(BRICK_COLUMN_COUNT), Vec2::new(-136, 124 - BRICK_SIZE_Y));
    // Second cell of the second row.
    assert_eq!(
        brick_position(BRICK_COLUMN_COUNT + 1),
        Vec2::new(-136 + BRICK_SIZE_X, 124 - BRICK_SIZE_Y)
    );
}

#[test]
fn brick_layout_spawns_only_encoded_cells() {
    let mut level = vec![0u8; BRICK_COUNT_TOTAL];
    level[0] = NORMAL;
    level[1] = 7; // unknown code: empty cell
    level[BRICK_COLUMN_COUNT] = MULTIHIT;
    let bricks = brick_layout(&level);
    assert_eq!(bricks.len(), 2);
    assert_eq!(bricks[0], (BrickVariant::Normal, brick_position(0)));
    assert_eq!(bricks[1], (BrickVariant::MultiHit, brick_position(BRICK_COLUMN_COUNT)));
}

#[test]
fn brick_layout_of_empty_sheet_is_empty() {
    let level = vec![0u8; BRICK_COUNT_TOTAL];
    assert!(brick_layout(&level).is_empty());
}

#[test]
fn wall_positions_frame_the_play_field() {
    assert_eq!(WallLocation::Left.position(), Vec2::new(-152, -8));
    assert_eq!(WallLocation::Right.position(), Vec2::new(72, -8));
    assert_eq!(WallLocation::Top.position(), Vec2::new(PLAY_AREA_CENTER, 136));
    assert_eq!(
        WallLocation::Corner(CornerLocation::TopLeft).position(),
        Vec2::new(-152, 136)
    );
    assert_eq!(
        WallLocation::Corner(CornerLocation::TopRight).position(),
        Vec2::new(72, 136)
    );
}

#[test]
fn wall_sizes_match_their_runs() {
    assert_eq!(WallLocation::Left.size(), Vec2::new(WALL_TILE_SIZE, WALL_LENGTH_VERTICAL));
    assert_eq!(WallLocation::Right.size(), Vec2::new(WALL_TILE_SIZE, WALL_LENGTH_VERTICAL));
    assert_eq!(WallLocation::Top.size(), Vec2::new(WALL_LENGTH_HORIZONTAL, WALL_TILE_SIZE));
    assert_eq!(
        WallLocation::Corner(CornerLocation::TopLeft).size(),
        Vec2::new(WALL_TILE_SIZE, WALL_TILE_SIZE)
    );
}

#[test]
fn wall_sprites_flip_on_the_right_side() {
    assert!(!WallLocation::Left.flip_x());
    assert!(!WallLocation::Top.flip_x());
    assert!(WallLocation::Right.flip_x());
    assert!(!WallLocation::Corner(CornerLocation::TopLeft).flip_x());
    assert!(WallLocation::Corner(CornerLocation::TopRight).flip_x());
}

#[test]
fn wall_new_builds_transform_from_location() {
    let (_wall, transform) = Wall::new(WallLocation::Left);
    assert_eq!(transform.translation, Vec2::new(-152, -8));
    assert_eq!(transform.scale, Vec2::new(WALL_TILE_SIZE, WALL_LENGTH_VERTICAL));
    let (_wall, transform, _collider) = Wall::with_collision(WallLocation::Top);
    assert_eq!(transform.translation, Vec2::new(PLAY_AREA_CENTER, 136));
    assert_eq!(transform.scale, Vec2::new(WALL_LENGTH_HORIZONTAL, WALL_TILE_SIZE));
}
