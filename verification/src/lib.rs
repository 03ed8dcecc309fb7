//! A quarter-turn camera and the platformer physics that depends on it.
//!
//! The world has x and y on the ground and z upwards. The camera looks at it
//! from one of four compass points: from the south towards growing y, from
//! the north towards falling y, from the west towards growing x, from the
//! east towards falling x. The axis that runs across the screen is the one
//! along which the player walks and lands; the other is depth.
//!
//! Every quantity is an integer, and no step of the simulation rounds.
//! Time steps are whole milliseconds. Lengths are half-millionths of a
//! world unit and a speed is the length covered in one millisecond, so
//! that the way walked, the speed lost to gravity and the height gained
//! in a tick are whole numbers. The camera's phase and zoom, and colours,
//! are thousandths.

pub mod camera;
pub mod fixed;
pub mod game;
pub mod level;
pub mod movement;
pub mod player;
