//! The human side: what the keys ask for, and where that takes the paddle.

use vstd::prelude::*;
use crate::scene::{
    at_height, clamp, clamp_spec, first_with_role, find_role, key_in, paddle_sides, set_height, set_role, sides_spec,
    with_role, Key, Keyboard, Paddle, Role, RoleError, PADDLE_LIMIT,
};

verus! {

/// Speed of the player's paddle, in court units per second.
pub const PLAYER_SPEED: u32 = 500;

/// The move that a set of held keys asks for: `1` for up, `-1` for down, and
/// `0` where neither or both are held.
pub open spec fn map_input_spec(keys_down: Seq<Key>) -> int {
    if keys_down.contains(Key::Up) && !keys_down.contains(Key::Down) {
        1
    } else if keys_down.contains(Key::Down) && !keys_down.contains(Key::Up) {
        -1
    } else {
        0
    }
}

/// Turns the keys that are held into the move they ask for.
pub fn map_input(keys_down: &Vec<Key>) -> (intent: i32)
    ensures
        intent == map_input_spec(keys_down@),
        -1 <= intent <= 1,
{
    let up = key_in(keys_down, Key::Up);
    let down = key_in(keys_down, Key::Down);
    if up && !down {
        1
    } else if down && !up {
        -1
    } else {
        0
    }
}

/// The height of a paddle that was at `y` and went the way of `intent` for
/// `dt` milliseconds at `speed` units per second.
pub open spec fn player_move_spec(y: int, intent: int, speed: int, dt: int) -> int {
    clamp_spec(y + intent * (speed * dt), -PADDLE_LIMIT as int, PADDLE_LIMIT as int)
}

/// Computes the next height of the player's paddle.
pub fn compute_player_move(y: i32, intent: i32, speed: u32, dt: u32) -> (new_y: i32)
    requires
        -1 <= intent <= 1,
    ensures
        new_y == player_move_spec(y as int, intent as int, speed as int, dt as int),
        -PADDLE_LIMIT <= new_y <= PADDLE_LIMIT,
{
    assert(0 <= (speed as int) * (dt as int) <= 0xFFFF_FFFF * 0xFFFF_FFFF) by (nonlinear_arith)
        requires
            0 <= speed <= 0xFFFF_FFFF,
            0 <= dt <= 0xFFFF_FFFF,
    ;
    let reach: i128 = (speed as i128) * (dt as i128);
    assert(intent * (speed * dt) == if intent > 0 {
        reach as int
    } else if intent < 0 {
        -reach
    } else {
        0
    }) by (nonlinear_arith)
        requires
            -1 <= intent <= 1,
            reach == speed * dt,
    ;
    let moved: i128 = if intent > 0 {
        y as i128 + reach
    } else if intent < 0 {
        y as i128 - reach
    } else {
        y as i128
    };
    clamp(moved, -(PADDLE_LIMIT as i128), PADDLE_LIMIT as i128) as i32
}

/// Makes the paddle on the right the player's and returns its index. Where
/// the line-up is refused no paddle changes.
pub fn assign_player(paddles: &mut Vec<Paddle>) -> (assigned: Result<usize, RoleError>)
    ensures
        (match assigned {
            Ok(player) => {
                &&& sides_spec(old(paddles)@) is Ok
                &&& sides_spec(old(paddles)@)->Ok_0.0 == player
                &&& final(paddles)@ == old(paddles)@.update(
                    player as int,
                    with_role(old(paddles)@[player as int], Role::Player),
                )
            },
            Err(e) => sides_spec(old(paddles)@) == Err::<(int, int), RoleError>(e) && final(paddles)@ == old(paddles)@,
        }),
{
    match paddle_sides(paddles) {
        Ok((player, _)) => {
            set_role(paddles, player, Role::Player);
            Ok(player)
        },
        Err(e) => Err(e),
    }
}

/// The paddles after the player's has moved as the held keys ask, for `dt`
/// milliseconds. The player's paddle is the first that has that role; where
/// none has it, nothing moves.
pub open spec fn player_moved(paddles: Seq<Paddle>, keys_down: Seq<Key>, dt: int) -> Seq<Paddle> {
    match first_with_role(paddles, Role::Player) {
        Some(i) => paddles.update(
            i,
            at_height(
                paddles[i],
                player_move_spec(paddles[i].position.y as int, map_input_spec(keys_down), PLAYER_SPEED as int, dt),
            ),
        ),
        None => paddles,
    }
}

/// Moves the player's paddle as the held keys ask, for `dt` milliseconds,
/// keeping it inside its range. Without a player's paddle nothing happens.
pub fn move_player(paddles: &mut Vec<Paddle>, keyboard: &Keyboard, dt: u32)
    ensures
        final(paddles)@ == player_moved(old(paddles)@, keyboard.pressed@, dt as int),
{
    let index: usize = match find_role(paddles, Role::Player) {
        Some(index) => index,
        None => return,
    };
    let intent: i32 = map_input(&keyboard.pressed);
    let y: i32 = compute_player_move(paddles[index].position.y, intent, PLAYER_SPEED, dt);
    set_height(paddles, index, y);
}

} // verus!
