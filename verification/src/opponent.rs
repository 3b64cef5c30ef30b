//! The scripted paddle: it follows the ball while the ball is on its side of
//! the court and goes back to the centre line otherwise.

use vstd::prelude::*;
use crate::scene::{
    at_height, clamp, clamp_spec, first_with_role, find_role, paddle_sides, set_height, set_role, sides_spec, with_role,
    Ball, Paddle, Position, Role, RoleError, PADDLE_LIMIT,
};

verus! {

/// Speed of the scripted paddle, in court units per second.
pub const OPPONENT_SPEED: u32 = 350;

/// Whether the ball is on the half of the court that the paddle defends.
/// A paddle left of the centre defends `x < 0`, any other defends `x > 0`.
pub open spec fn ball_on_side(ball: Position, paddle: Position) -> bool {
    if paddle.x < 0 {
        ball.x < 0
    } else {
        ball.x > 0
    }
}

/// The height that the paddle makes for: the ball's while the ball is on its
/// side, the centre line otherwise.
pub open spec fn target_y(ball: Position, paddle: Position) -> int {
    if ball_on_side(ball, paddle) {
        ball.y as int
    } else {
        0
    }
}

/// Where a point at `from` gets to when it heads for `target` and may cover at
/// most `reach`: the target itself once it is that near.
pub open spec fn approach(from: int, target: int, reach: int) -> int {
    if target - from > reach {
        from + reach
    } else if from - target > reach {
        from - reach
    } else {
        target
    }
}

/// The paddle's height after `dt` milliseconds at no more than `max_speed`
/// units per second.
pub open spec fn opponent_move_spec(ball: Position, paddle: Position, max_speed: int, dt: int) -> int {
    clamp_spec(
        approach(paddle.y as int, target_y(ball, paddle), max_speed * dt),
        -PADDLE_LIMIT as int,
        PADDLE_LIMIT as int,
    )
}

/// Computes the scripted paddle's next height.
///
/// The result never leaves the paddle's range. From a height inside the range
/// the paddle covers at most `max_speed * dt`, moves towards its target or
/// stays, and never passes the target.
pub fn compute_opponent_move(ball: Position, paddle: Position, max_speed: u32, dt: u32) -> (new_y: i32)
    ensures
        new_y == opponent_move_spec(ball, paddle, max_speed as int, dt as int),
        -PADDLE_LIMIT <= new_y <= PADDLE_LIMIT,
        -PADDLE_LIMIT <= paddle.y <= PADDLE_LIMIT ==> new_y - paddle.y <= max_speed * dt,
        -PADDLE_LIMIT <= paddle.y <= PADDLE_LIMIT ==> paddle.y - new_y <= max_speed * dt,
        -PADDLE_LIMIT <= paddle.y <= PADDLE_LIMIT && new_y > paddle.y ==> paddle.y < new_y <= target_y(ball, paddle),
        -PADDLE_LIMIT <= paddle.y <= PADDLE_LIMIT && new_y < paddle.y ==> paddle.y > new_y >= target_y(ball, paddle),
{
    let tracking = if paddle.x < 0 {
        ball.x < 0
    } else {
        ball.x > 0
    };
    let target: i64 = if tracking {
        ball.y as i64
    } else {
        0
    };
    let distance: i64 = target - paddle.y as i64;
    assert(0 <= (max_speed as int) * (dt as int) <= 0xFFFF_FFFF * 0xFFFF_FFFF) by (nonlinear_arith)
        requires
            0 <= max_speed <= 0xFFFF_FFFF,
            0 <= dt <= 0xFFFF_FFFF,
    ;
    let reach: u64 = (max_speed as u64) * (dt as u64);
    let span: u64 = if distance < 0 {
        (-distance) as u64
    } else {
        distance as u64
    };
    let magnitude: i64 = if reach < span {
        reach as i64
    } else {
        span as i64
    };
    let moved: i64 = if distance > 0 {
        paddle.y as i64 + magnitude
    } else if distance < 0 {
        paddle.y as i64 - magnitude
    } else {
        paddle.y as i64
    };
    clamp(moved as i128, -(PADDLE_LIMIT as i128), PADDLE_LIMIT as i128) as i32
}

/// Makes the paddle on the left the opponent's and returns its index. Where
/// the line-up is refused no paddle changes.
pub fn assign_opponent(paddles: &mut Vec<Paddle>) -> (assigned: Result<usize, RoleError>)
    ensures
        (match assigned {
            Ok(opponent) => {
                &&& sides_spec(old(paddles)@) is Ok
                &&& sides_spec(old(paddles)@)->Ok_0.1 == opponent
                &&& final(paddles)@ == old(paddles)@.update(
                    opponent as int,
                    with_role(old(paddles)@[opponent as int], Role::Opponent),
                )
            },
            Err(e) => sides_spec(old(paddles)@) == Err::<(int, int), RoleError>(e) && final(paddles)@ == old(paddles)@,
        }),
{
    match paddle_sides(paddles) {
        Ok((_, opponent)) => {
            set_role(paddles, opponent, Role::Opponent);
            Ok(opponent)
        },
        Err(e) => Err(e),
    }
}

/// The paddles after the opponent's has followed its policy for `dt`
/// milliseconds. The opponent's paddle is the first that has that role; where
/// none has it, or no ball is on the court, nothing moves.
pub open spec fn opponent_moved(ball: Option<Ball>, paddles: Seq<Paddle>, dt: int) -> Seq<Paddle> {
    match (ball, first_with_role(paddles, Role::Opponent)) {
        (Some(b), Some(i)) => paddles.update(
            i,
            at_height(paddles[i], opponent_move_spec(b.position, paddles[i].position, OPPONENT_SPEED as int, dt)),
        ),
        _ => paddles,
    }
}

/// Moves the opponent's paddle by its policy for `dt` milliseconds. Without a
/// ball or without an opponent's paddle nothing happens.
pub fn move_opponent(ball: &Option<Ball>, paddles: &mut Vec<Paddle>, dt: u32)
    ensures
        final(paddles)@ == opponent_moved(*ball, old(paddles)@, dt as int),
{
    let ball = match ball {
        Some(ball) => ball,
        None => return,
    };
    let index: usize = match find_role(paddles, Role::Opponent) {
        Some(index) => index,
        None => return,
    };
    let y: i32 = compute_opponent_move(ball.position, paddles[index].position, OPPONENT_SPEED, dt);
    set_height(paddles, index, y);
}

} // verus!
