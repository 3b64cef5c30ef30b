//! The launch: at the start of a rally the ball leaves the centre along one of
//! the four diagonals, picked by two fair coin flips.

use rand::Rng;
use vstd::prelude::*;
use crate::scene::{Ball, Velocity};

verus! {

/// Speed of a launched ball along each axis, in court units per second.
pub const LAUNCH_SPEED: i32 = 500;

/// The velocity of a launch to the right or to the left, upwards or downwards.
pub open spec fn launch_velocity_spec(right: bool, up: bool) -> Velocity {
    Velocity {
        x: if right { LAUNCH_SPEED } else { (-LAUNCH_SPEED) as i32 },
        y: if up { LAUNCH_SPEED } else { (-LAUNCH_SPEED) as i32 },
    }
}

/// The velocity of a launch in the direction that the two flags pick.
pub fn launch_velocity(right: bool, up: bool) -> (velocity: Velocity)
    ensures
        velocity == launch_velocity_spec(right, up),
{
    let x: i32 = if right { LAUNCH_SPEED } else { -LAUNCH_SPEED };
    let y: i32 = if up { LAUNCH_SPEED } else { -LAUNCH_SPEED };
    Velocity { x, y }
}

/// The ball after a launch in the given direction: only its velocity differs.
/// With no ball there is nothing to launch.
pub open spec fn launched(ball: Option<Ball>, right: bool, up: bool) -> Option<Ball> {
    match ball {
        Some(b) => Some(Ball { position: b.position, velocity: launch_velocity_spec(right, up), radius: b.radius }),
        None => None,
    }
}

/// Launches the ball in the direction that the two flags pick.
pub fn kick_off_with(ball: &mut Option<Ball>, right: bool, up: bool)
    ensures
        *final(ball) == launched(*old(ball), right, up),
{
    if let Some(b) = *ball {
        *ball = Some(Ball { position: b.position, velocity: launch_velocity(right, up), radius: b.radius });
    }
}

/// One flip of a fair coin: `Rng::gen_ratio(1, 2)` on `rand::thread_rng()`,
/// which is true with probability one half. Nothing is claimed of the
/// outcome, and two flips need not agree. The generator is seeded by the
/// operating system on a thread's first use and gives up if that fails.
#[verifier::external_body]
pub(crate) fn coin_flip() -> bool {
    rand::thread_rng().gen_ratio(1, 2)
}

/// Launches the ball along a diagonal picked at random. The ball keeps its
/// place and its size; with no ball on the court nothing happens.
pub fn kick_off(ball: &mut Option<Ball>)
    ensures
        exists|right: bool, up: bool| *final(ball) == launched(*old(ball), right, up),
{
    if ball.is_some() {
        let right = coin_flip();
        let up = coin_flip();
        kick_off_with(ball, right, up);
    } else {
        assert(*ball == launched(*old(ball), true, true));
    }
}

} // verus!
