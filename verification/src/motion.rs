//! The speed and velocity of the ball, and how they change.
//!
//! [`State`] is the mathematical model: three integers and the transitions
//! on them, written as specification functions. [`Motion`] is the value that
//! runs; each of its methods is proved to follow the model. Nothing here
//! draws a random number: the coin and the jitter are arguments.

use vstd::prelude::*;
use crate::collision::{Axis, Collision, Reaction};
use crate::fixed::{rebound, rebounded, HALF, ONE};
use crate::vector::{Displacement, Vector2};

verus! {

/// The speed of a new ball: 1.0.
pub const BASE_SPEED: i32 = ONE;

/// The lowest speed that the host's editor should offer: 0.
pub const MIN_SPEED: i32 = 0;

/// The highest speed that the host's editor should offer: 500.0.
pub const MAX_SPEED: i32 = 500 * ONE;

/// The least horizontal velocity, in magnitude, after a bounce: 2.5.
pub const MIN_VELOCITY_X: i32 = 2 * ONE + HALF;

/// The greatest horizontal velocity, in magnitude, after a bounce: 5.0.
pub const MAX_VELOCITY_X: i32 = 5 * ONE;

/// The least vertical velocity, in magnitude, after a bounce: 2.5.
pub const MIN_VELOCITY_Y: i32 = 2 * ONE + HALF;

/// The greatest vertical velocity, in magnitude, after a bounce: 5.0.
pub const MAX_VELOCITY_Y: i32 = 5 * ONE;

/// The greatest jitter, in magnitude, added on a paddle hit: 3.0.
pub const MAX_JITTER: i32 = 3 * ONE;

/// The state of a ball: its speed multiplier and the two components of its
/// velocity, as mathematical integers in fixed-point units.
pub struct State {
    pub speed: int,
    pub x: int,
    pub y: int,
}

impl State {
    /// A ball as it is created: at base speed and at rest.
    pub open spec fn initial() -> State {
        State { speed: BASE_SPEED as int, x: 0, y: 0 }
    }

    /// The state once the ball is ready: a coin of 0 sends it left and a
    /// coin of 1 right, at the least horizontal velocity. Any other draw
    /// changes nothing.
    pub open spec fn launched(self, coin: int) -> State {
        if coin == 0 {
            State { x: -MIN_VELOCITY_X, ..self }
        } else if coin == 1 {
            State { x: MIN_VELOCITY_X as int, ..self }
        } else {
            self
        }
    }

    /// The distance to move by in one physics step: the velocity times the
    /// speed, component by component.
    pub open spec fn displacement(self) -> (int, int) {
        (self.x * self.speed, self.y * self.speed)
    }

    /// The state after the ball has reacted to a collision. A paddle
    /// reverses, perturbs and clamps the velocity along one axis; a wall
    /// reverses the vertical velocity; any other reaction changes nothing.
    pub open spec fn after(self, reaction: Reaction) -> State {
        match reaction {
            Reaction::Paddle { axis: Axis::X, jitter } => State {
                x: rebounded(self.x, jitter as int, MIN_VELOCITY_X as int, MAX_VELOCITY_X as int),
                ..self
            },
            Reaction::Paddle { axis: Axis::Y, jitter } => State {
                y: rebounded(self.y, jitter as int, MIN_VELOCITY_Y as int, MAX_VELOCITY_Y as int),
                ..self
            },
            Reaction::Wall => State { y: -self.y, ..self },
            _ => self,
        }
    }
}

/// The speed and velocity of a ball.
#[derive(Clone, Copy, Debug)]
pub struct Motion {
    speed: i32,
    movement_vec: Vector2,
}

impl View for Motion {
    type V = State;

    closed spec fn view(&self) -> State {
        State {
            speed: self.speed as int,
            x: self.movement_vec.x as int,
            y: self.movement_vec.y as int,
        }
    }
}

impl Motion {
    /// Every velocity that a ball holds can be reversed exactly.
    #[verifier::type_invariant]
    spec fn reversible(self) -> bool {
        self.movement_vec.reversible()
    }

    /// The motion of a new ball: base speed, at rest.
    pub fn new() -> (motion: Motion)
        ensures
            motion@ == State::initial(),
    {
        Motion { speed: BASE_SPEED, movement_vec: Vector2::zero() }
    }

    /// The motion with the given speed and velocity, or nothing if a
    /// component of the velocity is `i32::MIN`, which has no opposite.
    pub fn with_velocity(speed: i32, movement_vec: Vector2) -> (made: Option<Motion>)
        ensures
            made is Some <==> movement_vec.reversible(),
            made matches Some(motion) ==> motion@ == (State {
                speed: speed as int,
                x: movement_vec.x as int,
                y: movement_vec.y as int,
            }),
    {
        if movement_vec.is_reversible() {
            Some(Motion { speed, movement_vec })
        } else {
            None
        }
    }

    /// The speed multiplier.
    pub fn speed(&self) -> (speed: i32)
        ensures
            speed == self@.speed,
    {
        self.speed
    }

    /// Sets the speed multiplier and leaves the velocity alone.
    pub fn set_speed(&mut self, speed: i32)
        ensures
            final(self)@ == (State { speed: speed as int, ..old(self)@ }),
    {
        proof {
            use_type_invariant(&*self);
        }
        self.speed = speed;
    }

    /// The velocity.
    pub fn movement_vec(&self) -> (v: Vector2)
        ensures
            v.x == self@.x,
            v.y == self@.y,
    {
        self.movement_vec
    }

    /// The distance by which the host is to move the ball in this physics
    /// step: the velocity times the speed. The motion itself is not
    /// changed.
    pub fn displacement(&self) -> (d: Displacement)
        ensures
            (d.x as int, d.y as int) == self@.displacement(),
    {
        self.movement_vec.scaled(self.speed)
    }

    /// Sets the ball off as the coin says: to the left on 0, to the right
    /// on 1, at the least horizontal velocity. On any other draw nothing
    /// changes and the result is `false`.
    pub fn ready(&mut self, coin: i32) -> (launched: bool)
        ensures
            final(self)@ == old(self)@.launched(coin as int),
            launched == (coin == 0 || coin == 1),
    {
        proof {
            use_type_invariant(&*self);
        }
        if coin == 0 {
            self.movement_vec.x = -MIN_VELOCITY_X;
            true
        } else if coin == 1 {
            self.movement_vec.x = MIN_VELOCITY_X;
            true
        } else {
            false
        }
    }

    /// Changes the velocity as `reaction` says.
    pub fn apply(&mut self, reaction: Reaction)
        ensures
            final(self)@ == old(self)@.after(reaction),
    {
        proof {
            use_type_invariant(&*self);
        }
        match reaction {
            Reaction::Paddle { axis: Axis::X, jitter } => {
                let next = rebound(self.movement_vec.x, jitter, MIN_VELOCITY_X, MAX_VELOCITY_X);
                self.movement_vec.x = next as i32;
            },
            Reaction::Paddle { axis: Axis::Y, jitter } => {
                let next = rebound(self.movement_vec.y, jitter, MIN_VELOCITY_Y, MAX_VELOCITY_Y);
                self.movement_vec.y = next as i32;
            },
            Reaction::Wall => {
                self.movement_vec.y = -self.movement_vec.y;
            },
            _ => {},
        }
    }

    /// Reacts to what the physics step ended in, given the coin that picks
    /// the axis and the jitter for a paddle hit. Returns the reaction
    /// chosen.
    pub fn collide(&mut self, collision: Collision, coin: i32, jitter: i32) -> (reaction: Reaction)
        ensures
            reaction == collision.reaction(coin, jitter),
            final(self)@ == old(self)@.after(reaction),
    {
        let reaction = collision.react(coin, jitter);
        self.apply(reaction);
        reaction
    }
}

} // verus!
