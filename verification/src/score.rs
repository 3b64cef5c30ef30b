//! The running tally, and the rule that decides who scores.

use vstd::prelude::*;
use crate::scene::{out_of_play, Ball, GameState, Role, GOAL_LINE};

verus! {

/// Signals that one side has just scored.
#[derive(Clone, Copy, Debug, PartialEq, Eq, Structural)]
pub struct GoalEvent {
    pub scorer: Role,
}

/// Goals scored so far by each side. It starts at zero and only grows.
#[derive(Clone, Copy, Debug, PartialEq, Eq, Structural)]
pub struct Scoreboard {
    pub player: u32,
    pub opponent: u32,
}

impl Default for Scoreboard {
    fn default() -> (board: Self)
        ensures
            board == (Scoreboard { player: 0, opponent: 0 }),
    {
        Self { player: 0, opponent: 0 }
    }
}

/// The side that scores, if any. Only a running game has goals: a ball beyond
/// the right goal line scores for the player, one beyond the left goal line
/// for the opponent. A ball on a goal line is still in play.
pub open spec fn scorer(state: GameState, ball: Option<Ball>) -> Option<Role> {
    match ball {
        Some(b) => if state != GameState::Running {
            None
        } else if b.position.x > GOAL_LINE {
            Some(Role::Player)
        } else if b.position.x < -GOAL_LINE {
            Some(Role::Opponent)
        } else {
            None
        },
        None => None,
    }
}

/// A side scores exactly when the ball of a running game has left the court,
/// so that every goal comes with a reset and every such reset with a goal.
pub proof fn lemma_goal_iff_out_of_play(state: GameState, ball: Option<Ball>)
    ensures
        scorer(state, ball) is Some <==> out_of_play(state, ball),
{
}

/// The tally after `side` has been given its goal.
pub open spec fn credited(board: Scoreboard, side: Option<Role>) -> Scoreboard {
    match side {
        Some(Role::Player) => Scoreboard { player: (board.player + 1) as u32, opponent: board.opponent },
        Some(Role::Opponent) => Scoreboard { player: board.player, opponent: (board.opponent + 1) as u32 },
        None => board,
    }
}

/// The event that reports a goal of `side`.
pub open spec fn goal_event(side: Option<Role>) -> Option<GoalEvent> {
    match side {
        Some(s) => Some(GoalEvent { scorer: s }),
        None => None,
    }
}

/// Whether the tally has room for the goal that `side` is about to get.
pub open spec fn has_room(board: Scoreboard, side: Option<Role>) -> bool {
    match side {
        Some(Role::Player) => board.player < u32::MAX,
        Some(Role::Opponent) => board.opponent < u32::MAX,
        None => true,
    }
}

/// Looks whether the ball has crossed a goal line and, if so, gives the goal
/// to the side that scored. With no ball on the court nothing happens.
pub fn detect_goal(state: GameState, ball: &Option<Ball>, score: &mut Scoreboard) -> (goal: Option<GoalEvent>)
    requires
        has_room(*old(score), scorer(state, *ball)),
    ensures
        goal == goal_event(scorer(state, *ball)),
        *final(score) == credited(*old(score), scorer(state, *ball)),
        final(score).player >= old(score).player,
        final(score).opponent >= old(score).opponent,
{
    let ball = match ball {
        Some(ball) => ball,
        None => return None,
    };
    if state != GameState::Running {
        return None;
    }
    if ball.position.x > GOAL_LINE {
        score.player += 1;
        Some(GoalEvent { scorer: Role::Player })
    } else if ball.position.x < -GOAL_LINE {
        score.opponent += 1;
        Some(GoalEvent { scorer: Role::Opponent })
    } else {
        None
    }
}

} // verus!
