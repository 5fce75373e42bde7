//! Control and combat core of a top-down action game: movement with push-out from
//! square obstacles, aiming, a cooldown-gated hitscan weapon, health and game over,
//! and the camera and health bar that follow them. Lengths are integers in
//! millionths of a pixel, times in microseconds, health in thousandths of a point.
pub mod geometry;
pub mod collision;
pub mod movement;
pub mod health;
pub mod ui;
pub mod weapon;
pub mod player;
pub mod settings;
