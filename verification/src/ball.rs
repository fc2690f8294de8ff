//! The ball: a motion and the random source that drives its bounces.

use vstd::prelude::*;
use crate::collision::{Collision, Reaction, COIN_SIDES};
use crate::motion::{Motion, State, MAX_JITTER};
use crate::random::{gen_range_inclusive, sample_uniform};
use crate::vector::Displacement;

verus! {

/// A bouncing ball. It owns its motion and the random generator that it
/// draws its coin flips and jitter from.
pub struct Ball {
    motion: Motion,
    rng: rand::rngs::ThreadRng,
}

impl View for Ball {
    type V = State;

    closed spec fn view(&self) -> State {
        self.motion@
    }
}

impl Ball {
    /// A ball at base speed and at rest, drawing from the generator of the
    /// current thread.
    pub fn new() -> (ball: Ball)
        ensures
            ball@ == State::initial(),
    {
        Ball { motion: Motion::new(), rng: rand::thread_rng() }
    }

    /// A ball that starts from the given motion, drawing from the generator
    /// of the current thread.
    pub fn with_motion(motion: Motion) -> (ball: Ball)
        ensures
            ball@ == motion@,
    {
        Ball { motion, rng: rand::thread_rng() }
    }

    /// The speed and velocity of the ball.
    pub fn motion(&self) -> (motion: Motion)
        ensures
            motion@ == self@,
    {
        self.motion
    }

    /// Sets the speed multiplier and leaves the velocity alone.
    pub fn set_speed(&mut self, speed: i32)
        ensures
            final(self)@ == (State { speed: speed as int, ..old(self)@ }),
    {
        self.motion.set_speed(speed);
    }

    /// The distance by which the host is to move the ball in this physics
    /// step: the velocity times the speed. The ball itself is not changed.
    pub fn displacement(&self) -> (d: Displacement)
        ensures
            (d.x as int, d.y as int) == self@.displacement(),
    {
        self.motion.displacement()
    }

    /// Flips the coin and sets the ball off to the left or to the right at
    /// the least horizontal velocity. Returns the draw.
    pub fn ready(&mut self) -> (coin: i32)
        ensures
            coin == 0 || coin == 1,
            final(self)@ == old(self)@.launched(coin as int),
    {
        let coin = sample_uniform(&mut self.rng, 0, COIN_SIDES);
        self.motion.ready(coin);
        coin
    }

    /// Reacts to what the physics step ended in. On a paddle hit the ball
    /// flips its coin for the axis and draws the jitter; nothing is drawn
    /// otherwise. Returns the reaction chosen.
    pub fn collide(&mut self, collision: Collision) -> (reaction: Reaction)
        ensures
            final(self)@ == old(self)@.after(reaction),
            collision.hits_paddle() ==> (reaction matches Reaction::Paddle { jitter, .. }
                && -MAX_JITTER <= jitter <= MAX_JITTER),
            !collision.hits_paddle() ==> reaction == collision.reaction(0, 0),
    {
        if collision.is_paddle_hit() {
            let coin = sample_uniform(&mut self.rng, 0, COIN_SIDES);
            let jitter = gen_range_inclusive(&mut self.rng, -MAX_JITTER, MAX_JITTER);
            self.motion.collide(collision, coin, jitter)
        } else {
            self.motion.collide(collision, 0, 0)
        }
    }
}

} // verus!
