//! The motion of a bouncing ball for a two-dimensional paddle game.
//!
//! The ball owns a velocity and a speed multiplier. Once per physics step
//! its host moves it by [`ball::Ball::displacement`] and reports what, if
//! anything, it ran into; the ball answers by changing its velocity. All
//! quantities are fixed-point integers (see [`fixed`]), so every rule of
//! the ball is stated and proved exactly.

pub mod ball;
pub mod collision;
pub mod fixed;
pub mod laws;
pub mod motion;
pub mod random;
pub mod vector;
