//! What holds of every ball, proved from the model in [`crate::motion`].

use vstd::prelude::*;
use crate::collision::{Axis, Collision, Reaction};
use crate::motion::{
    State, MAX_VELOCITY_X, MAX_VELOCITY_Y, MIN_VELOCITY_X, MIN_VELOCITY_Y,
};

verus! {

/// Whether `v` lies in one of the two bands of magnitude `min` to `max`:
/// from `-max` to `-min`, or from `min` to `max`.
pub open spec fn in_band(v: int, min: int, max: int) -> bool {
    (-max <= v <= -min) || (min <= v <= max)
}

/// A new ball that has been made ready moves along the horizontal only, at
/// exactly the least horizontal velocity: to the left if the coin showed 0,
/// to the right if it showed 1.
pub proof fn law_initial_direction(coin: int)
    requires
        coin == 0 || coin == 1,
    ensures
        State::initial().launched(coin).y == 0,
        coin == 0 ==> State::initial().launched(coin).x == -MIN_VELOCITY_X,
        coin == 1 ==> State::initial().launched(coin).x == MIN_VELOCITY_X,
        State::initial().launched(coin).speed == State::initial().speed,
{
}

/// Making a ball ready touches nothing but the horizontal velocity, and a
/// coin that shows neither 0 nor 1 touches nothing at all.
pub proof fn law_ready_frame(s: State, coin: int)
    ensures
        s.launched(coin).y == s.y,
        s.launched(coin).speed == s.speed,
        coin != 0 && coin != 1 ==> s.launched(coin) == s,
{
}

/// The displacement of a physics step is the velocity scaled by the speed,
/// component by component, and a step that ends without a collision leaves
/// the state as it was.
pub proof fn law_tick_scaling(s: State, coin: i32, jitter: i32)
    ensures
        s.displacement().0 == s.x * s.speed,
        s.displacement().1 == s.y * s.speed,
        s.after(Collision::Clear.reaction(coin, jitter)) == s,
{
}

/// After a paddle hit that picks the horizontal axis, the horizontal
/// velocity has a magnitude between the least and the greatest horizontal
/// velocity, whatever it was before and whatever the jitter; the vertical
/// velocity and the speed are as before.
pub proof fn law_paddle_bounds_x(s: State, collision: Collision, jitter: i32)
    requires
        collision.hits_paddle(),
    ensures
        collision.reaction(0, jitter) == (Reaction::Paddle { axis: Axis::X, jitter }),
        in_band(
            s.after(collision.reaction(0, jitter)).x,
            MIN_VELOCITY_X as int,
            MAX_VELOCITY_X as int,
        ),
        s.after(collision.reaction(0, jitter)).y == s.y,
        s.after(collision.reaction(0, jitter)).speed == s.speed,
{
}

/// After a paddle hit that picks the vertical axis, the vertical velocity
/// has a magnitude between the least and the greatest vertical velocity,
/// whatever it was before and whatever the jitter; the horizontal velocity
/// and the speed are as before.
pub proof fn law_paddle_bounds_y(s: State, collision: Collision, jitter: i32)
    requires
        collision.hits_paddle(),
    ensures
        collision.reaction(1, jitter) == (Reaction::Paddle { axis: Axis::Y, jitter }),
        in_band(
            s.after(collision.reaction(1, jitter)).y,
            MIN_VELOCITY_Y as int,
            MAX_VELOCITY_Y as int,
        ),
        s.after(collision.reaction(1, jitter)).x == s.x,
        s.after(collision.reaction(1, jitter)).speed == s.speed,
{
}

/// A paddle hit whose coin shows neither 0 nor 1 changes nothing.
pub proof fn law_bad_coin_changes_nothing(s: State, collision: Collision, coin: i32, jitter: i32)
    requires
        collision.hits_paddle(),
        coin != 0 && coin != 1,
    ensures
        collision.reaction(coin, jitter) == (Reaction::BadCoin { coin }),
        s.after(collision.reaction(coin, jitter)) == s,
{
}

/// A wall reverses the vertical velocity exactly and touches neither the
/// horizontal velocity nor the speed.
pub proof fn law_wall_bounce(s: State, coin: i32, jitter: i32)
    ensures
        ({
            let wall = Collision::Object { paddles: false, walls: true };
            let next = s.after(wall.reaction(coin, jitter));
            &&& next.y == -s.y
            &&& next.x == s.x
            &&& next.speed == s.speed
        }),
{
}

/// A collision with an object that is neither a paddle nor a wall, or with
/// one that cannot be identified, changes nothing.
pub proof fn law_other_collider_changes_nothing(s: State, coin: i32, jitter: i32)
    ensures
        s.after((Collision::Object { paddles: false, walls: false }).reaction(coin, jitter)) == s,
        s.after(Collision::Unresolved.reaction(coin, jitter)) == s,
{
}

/// No collision ever changes the speed, and each changes at most one
/// component of the velocity.
pub proof fn law_one_component_at_most(s: State, collision: Collision, coin: i32, jitter: i32)
    ensures
        ({
            let next = s.after(collision.reaction(coin, jitter));
            &&& next.speed == s.speed
            &&& next.x == s.x || next.y == s.y
        }),
{
}

} // verus!
