//! What the ball can run into, and what it does about it.

use vstd::prelude::*;

verus! {

/// One of the two axes of the playing field.
#[derive(Clone, Copy, Debug, PartialEq, Eq, Structural)]
pub enum Axis {
    X,
    Y,
}

/// The number of sides of the coin that picks an axis.
pub const COIN_SIDES: i32 = 2;

/// The axis that a coin draw stands for: 0 for X, 1 for Y, and none for any
/// other number.
pub open spec fn axis_of(coin: i32) -> Option<Axis> {
    if coin == 0 {
        Some(Axis::X)
    } else if coin == 1 {
        Some(Axis::Y)
    } else {
        None
    }
}

impl Axis {
    /// Reads a coin draw as an axis.
    pub fn from_coin(coin: i32) -> (axis: Option<Axis>)
        ensures
            axis == axis_of(coin),
    {
        if coin == 0 {
            Some(Axis::X)
        } else if coin == 1 {
            Some(Axis::Y)
        } else {
            None
        }
    }
}

/// The name of the group that holds the paddles.
pub const PADDLES: &'static str = "Paddles";

/// The name of the group that holds the walls.
pub const WALLS: &'static str = "Walls";

/// What moving the ball for one physics step ended in.
#[derive(Clone, Copy, Debug, PartialEq, Eq, Structural)]
pub enum Collision {
    /// The ball moved the whole way and touched nothing.
    Clear,
    /// The ball touched something that could not be identified.
    Unresolved,
    /// The ball touched an object; the flags say which of the two groups
    /// the object belongs to.
    Object { paddles: bool, walls: bool },
}

/// What the ball does about a collision.
#[derive(Clone, Copy, Debug, PartialEq, Eq, Structural)]
pub enum Reaction {
    /// Nothing: there was no collision, or the object is neither a paddle
    /// nor a wall.
    Ignored,
    /// Nothing, because the collided object could not be identified. The
    /// host should log this.
    Unresolved,
    /// Nothing, because the coin that picks the axis came down on neither
    /// side. The host should log this.
    BadCoin { coin: i32 },
    /// A paddle was hit: the velocity along `axis` is reversed, perturbed by
    /// `jitter` and clamped.
    Paddle { axis: Axis, jitter: i32 },
    /// A wall was hit: the vertical velocity is reversed.
    Wall,
}

impl Collision {
    /// Whether the ball touched a paddle. An object in both groups counts
    /// as a paddle.
    pub open spec fn hits_paddle(self) -> bool {
        self matches Collision::Object { paddles, .. } && paddles
    }

    /// The reaction that this collision calls for, given the coin draw that
    /// picks the axis and the jitter drawn for a paddle hit. Both draws are
    /// ignored unless a paddle was hit, and the jitter also if the coin
    /// names no axis.
    pub open spec fn reaction(self, coin: i32, jitter: i32) -> Reaction {
        match self {
            Collision::Clear => Reaction::Ignored,
            Collision::Unresolved => Reaction::Unresolved,
            Collision::Object { paddles, walls } => {
                if paddles {
                    match axis_of(coin) {
                        Some(axis) => Reaction::Paddle { axis, jitter },
                        None => Reaction::BadCoin { coin },
                    }
                } else if walls {
                    Reaction::Wall
                } else {
                    Reaction::Ignored
                }
            },
        }
    }

    /// Decides [`Collision::hits_paddle`].
    pub fn is_paddle_hit(&self) -> (yes: bool)
        ensures
            yes == self.hits_paddle(),
    {
        match self {
            Collision::Object { paddles, .. } => *paddles,
            _ => false,
        }
    }

    /// Chooses the reaction to this collision from the two draws.
    pub fn react(&self, coin: i32, jitter: i32) -> (reaction: Reaction)
        ensures
            reaction == self.reaction(coin, jitter),
    {
        match self {
            Collision::Clear => Reaction::Ignored,
            Collision::Unresolved => Reaction::Unresolved,
            Collision::Object { paddles, walls } => {
                if *paddles {
                    match Axis::from_coin(coin) {
                        Some(axis) => Reaction::Paddle { axis, jitter },
                        None => Reaction::BadCoin { coin },
                    }
                } else if *walls {
                    Reaction::Wall
                } else {
                    Reaction::Ignored
                }
            },
        }
    }
}

} // verus!
