use vstd::prelude::*;

verus! {

/// Number of length units in one pixel: every length below is in these units.
pub const UNITS_PER_PIXEL: i32 = 100;

/// Width of the playing field.
pub const WIDTH: i32 = 80_000;
/// Height of the window.
pub const HEIGHT: i32 = 60_000;
/// Radius of a player's disc.
pub const RADIUS: i32 = 3_200;
/// How much smaller than its disc a player's collision circle is.
pub const TOLERANCE: i32 = 200;
/// Extra collision radius of a shielded player.
pub const SHIELD_MARGIN: i32 = 500;
/// Height of the ground strip at the bottom of the window.
pub const GROUND_HEIGHT: i32 = 10_000;

/// Upward speed given by a jump, per frame.
pub const JUMP_HEIGHT: i32 = 2_500;
/// Speed added each frame to a player in the air.
pub const JUMP_ATTENUATION: i32 = 150;
/// Multiplier of the fall acceleration while a player dives.
pub const FAST_ATTENUATION: i32 = 3;
/// Horizontal speed that a player steers towards.
pub const PLAYER_SPEED: i32 = 1_000;
/// Horizontal speed lost per frame on the ground.
pub const PLAYER_DAMPING: i32 = 200;
/// Horizontal speed lost per frame in the air.
pub const FLYING_DAMPING: i32 = 100;

/// Margin around the interface elements, in pixels.
pub const UI_MARGIN: i32 = 10;
/// Size of a life icon, in pixels.
pub const LIFE_IMAGE_SIZE: i32 = 32;

/// Lives of a freshly spawned player.
pub const START_PLAYER_LIFE: i32 = 3;

/// A baddie appears every this many frames.
pub const SPAWN_FREQUENCY: u32 = 10;

/// Smallest side of a baddie (inclusive).
pub const BADDIE_MIN_SIZE: i32 = 2_000;
/// Largest side of a baddie (exclusive).
pub const BADDIE_MAX_SIZE: i32 = 5_000;
/// Slowest fall of a baddie, per frame (inclusive).
pub const BADDIE_MIN_SPEED: i32 = 150;
/// Fastest fall of a baddie, per frame (exclusive).
pub const BADDIE_MAX_SPEED: i32 = 300;

/// Lowest position of a player's centre: resting on the ground.
pub const MAX_Y: i32 = HEIGHT - GROUND_HEIGHT - RADIUS;

} // verus!
