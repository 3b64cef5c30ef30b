//! One match: everything on the court, the phase and the tally, with the two
//! steps that drive them. `update` handles the keys, the launch, goals and
//! resets; `fixed_update` moves the paddles.

use vstd::prelude::*;
use crate::ball::{coin_flip, kick_off_with, launched};
use crate::opponent::{assign_opponent, move_opponent, opponent_moved};
use crate::player::{assign_player, move_player, player_moved};
use crate::scene::{
    ball_at_centre, ball_reset, detect_goal, key_in, launch_due, paddle_at, paddle_sides, paddles_reset,
    reset_game, restart_game, role_of_side, sides_spec, spawn_ball, spawn_paddles, spawn_walls, start_game, wall_at,
    with_roles, Ball, GameState, Key, Keyboard, Paddle, Position, ResetGame, Role, RoleError, StartGame, Velocity, Wall,
    PADDLE_LIMIT,
    PADDLE_X, WALL_Y,
};
use crate::score::{credited, goal_event, has_room, scorer, GoalEvent, Scoreboard};

verus! {

/// A match in progress. Each match owns its state; nothing is shared.
#[derive(Debug, PartialEq, Eq)]
pub struct Game {
    pub state: GameState,
    pub ball: Option<Ball>,
    pub paddles: Vec<Paddle>,
    pub walls: Vec<Wall>,
    pub score: Scoreboard,
}

/// What a match holds, as plain mathematical values.
pub struct GameView {
    pub state: GameState,
    pub ball: Option<Ball>,
    pub paddles: Seq<Paddle>,
    pub walls: Seq<Wall>,
    pub score: Scoreboard,
}

/// What happened during one `update`.
#[derive(Clone, Copy, Debug, PartialEq, Eq)]
pub struct Frame {
    /// A rally began.
    pub started: Option<StartGame>,
    /// A side scored.
    pub goal: Option<GoalEvent>,
    /// Ball and paddles went back to where they started.
    pub reset: Option<ResetGame>,
}

impl View for Game {
    type V = GameView;

    open spec fn view(&self) -> GameView {
        GameView { state: self.state, ball: self.ball, paddles: self.paddles@, walls: self.walls@, score: self.score }
    }
}

/// Whether every paddle is inside its vertical range.
pub open spec fn paddles_in_range(paddles: Seq<Paddle>) -> bool {
    forall|i: int| 0 <= i < paddles.len() ==> -PADDLE_LIMIT <= (#[trigger] paddles[i]).position.y <= PADDLE_LIMIT
}

/// Whether the ball, if there is one, does not move.
pub open spec fn at_rest(ball: Option<Ball>) -> bool {
    match ball {
        Some(b) => b.velocity == (Velocity { x: 0, y: 0 }),
        None => true,
    }
}

/// Whether the roles are as assignment leaves them: a paddle that has a role
/// has that of its side, and no two paddles have the same role.
pub open spec fn roles_sound(paddles: Seq<Paddle>) -> bool {
    &&& forall|i: int|
        0 <= i < paddles.len() && (#[trigger] paddles[i]).role is Some ==> paddles[i].role == Some(
            role_of_side(paddles[i].position.x as int),
        )
    &&& forall|i: int, j: int|
        0 <= i < j < paddles.len() && (#[trigger] paddles[i]).role is Some ==> paddles[i].role != (
        #[trigger] paddles[j]).role
}

impl GameView {
    /// What holds of a match at all times: the paddles are inside their
    /// range, the ball moves only while the game is running, and the roles
    /// are sound.
    pub open spec fn wf(self) -> bool {
        &&& paddles_in_range(self.paddles)
        &&& self.state == GameState::Paused ==> at_rest(self.ball)
        &&& roles_sound(self.paddles)
    }

    /// The error that stops this frame, if there is one: a rally is due and
    /// the paddles cannot be given their roles.
    pub open spec fn start_refused(self, just_pressed: Seq<Key>) -> Option<RoleError> {
        if launch_due(self.state, just_pressed) {
            match sides_spec(self.paddles) {
                Ok(_) => None,
                Err(e) => Some(e),
            }
        } else {
            None
        }
    }

    /// The match once a rally that is due has begun: the game runs, the
    /// paddles have their roles, and the ball is launched in the direction
    /// that the two flags pick.
    pub open spec fn started(self, just_pressed: Seq<Key>, right: bool, up: bool) -> GameView {
        if launch_due(self.state, just_pressed) {
            GameView {
                state: GameState::Running,
                ball: launched(self.ball, right, up),
                paddles: with_roles(self.paddles),
                walls: self.walls,
                score: self.score,
            }
        } else {
            self
        }
    }

    /// The match after a reset: ball in the centre and at rest, paddles at
    /// height zero, game paused. Walls and tally stay.
    pub open spec fn reset(self) -> GameView {
        GameView {
            state: GameState::Paused,
            ball: ball_reset(self.ball),
            paddles: paddles_reset(self.paddles),
            walls: self.walls,
            score: self.score,
        }
    }

    /// The match after the goal check: where a side scores it gets its goal
    /// and the match is reset.
    pub open spec fn scored(self) -> GameView {
        match scorer(self.state, self.ball) {
            Some(side) => GameView {
                state: self.state,
                ball: self.ball,
                paddles: self.paddles,
                walls: self.walls,
                score: credited(self.score, Some(side)),
            }.reset(),
            None => self,
        }
    }

    /// The match after the reset key has been looked at.
    pub open spec fn restarted(self, just_pressed: Seq<Key>) -> GameView {
        if just_pressed.contains(Key::Reset) {
            self.reset()
        } else {
            self
        }
    }

    /// The match after one `update` that no error stops: first the start of
    /// a rally, then the goal check, then the reset key.
    pub open spec fn update(self, just_pressed: Seq<Key>, right: bool, up: bool) -> GameView {
        self.started(just_pressed, right, up).scored().restarted(just_pressed)
    }

    /// The side that scores during this `update`, if any.
    pub open spec fn goal_side(self, just_pressed: Seq<Key>) -> Option<Role> {
        let state = if launch_due(self.state, just_pressed) {
            GameState::Running
        } else {
            self.state
        };
        scorer(state, self.ball)
    }

    /// What one `update` reports.
    pub open spec fn frame(self, just_pressed: Seq<Key>) -> Frame {
        let side = self.goal_side(just_pressed);
        Frame {
            started: if launch_due(self.state, just_pressed) {
                Some(StartGame)
            } else {
                None
            },
            goal: goal_event(side),
            reset: if side is Some || just_pressed.contains(Key::Reset) {
                Some(ResetGame)
            } else {
                None
            },
        }
    }

    /// The match after one `fixed_update`: the player's paddle moves first,
    /// then the opponent's.
    pub open spec fn fixed_update(self, keys_down: Seq<Key>, dt: int) -> GameView {
        GameView {
            state: self.state,
            ball: self.ball,
            paddles: opponent_moved(self.ball, player_moved(self.paddles, keys_down, dt), dt),
            walls: self.walls,
            score: self.score,
        }
    }
}

/// The court as `setup` leaves it: a ball at rest in the centre, a paddle on
/// each side, a wall above and one below, the game paused and no goals yet.
pub open spec fn kickoff_view() -> GameView {
    GameView {
        state: GameState::Paused,
        ball: Some(ball_at_centre()),
        paddles: seq![paddle_at(-PADDLE_X), paddle_at(PADDLE_X as int)],
        walls: seq![wall_at(WALL_Y as int), wall_at(-WALL_Y)],
        score: Scoreboard { player: 0, opponent: 0 },
    }
}

impl Game {
    /// An empty court: nothing has been spawned, the game is paused and no
    /// goals have been scored.
    pub fn new() -> (game: Game)
        ensures
            game@ == (GameView {
                state: GameState::Paused,
                ball: None,
                paddles: Seq::empty(),
                walls: Seq::empty(),
                score: Scoreboard { player: 0, opponent: 0 },
            }),
            game@.wf(),
    {
        Game { state: GameState::Paused, ball: None, paddles: Vec::new(), walls: Vec::new(), score: Scoreboard::default() }
    }

    /// A court that is ready for play: ball, paddles and walls are in place.
    /// On this court roles can always be assigned.
    pub fn setup() -> (game: Game)
        ensures
            game@ == kickoff_view(),
            game@.wf(),
            sides_spec(game@.paddles) == Ok::<(int, int), RoleError>((1, 0)),
    {
        let mut game = Game::new();
        spawn_ball(&mut game.ball);
        spawn_paddles(&mut game.paddles);
        spawn_walls(&mut game.walls);
        assert(game.paddles@ =~= kickoff_view().paddles);
        assert(game.walls@ =~= kickoff_view().walls);
        game
    }

    /// Runs one frame with the launch direction given by the two flags.
    ///
    /// A rally that is due begins first: the paddles get their roles and the
    /// ball is launched. Then a ball beyond a goal line gives the scoring side
    /// its goal and resets the match, and last the reset key resets it.
    /// Where the rally is due and the roles cannot be assigned, the error is
    /// returned and the match is left as it was.
    pub fn update_with(&mut self, keyboard: &Keyboard, right: bool, up: bool) -> (frame: Result<Frame, RoleError>)
        requires
            has_room(old(self).score, old(self)@.goal_side(keyboard.just_pressed@)),
        ensures
            (match frame {
                Ok(f) => {
                    &&& old(self)@.start_refused(keyboard.just_pressed@) is None
                    &&& final(self)@ == old(self)@.update(keyboard.just_pressed@, right, up)
                    &&& f == old(self)@.frame(keyboard.just_pressed@)
                },
                Err(e) => {
                    &&& old(self)@.start_refused(keyboard.just_pressed@) == Some(e)
                    &&& final(self)@ == old(self)@
                },
            }),
            final(self).score.player >= old(self).score.player,
            final(self).score.opponent >= old(self).score.opponent,
            old(self)@.wf() ==> final(self)@.wf(),
    {
        let launching = self.state == GameState::Paused && key_in(&keyboard.just_pressed, Key::Launch);
        if launching {
            if let Err(e) = paddle_sides(&self.paddles) {
                return Err(e);
            }
        }
        let started = start_game(&mut self.state, keyboard);
        if started.is_some() {
            let _ = assign_player(&mut self.paddles);
            let _ = assign_opponent(&mut self.paddles);
            kick_off_with(&mut self.ball, right, up);
        }
        let goal = crate::score::detect_goal(self.state, &self.ball, &mut self.score);
        let mut reset = detect_goal(self.state, &self.ball);
        if reset.is_some() {
            reset_game(&mut self.ball, &mut self.paddles, &mut self.state);
        }
        if restart_game(keyboard).is_some() {
            reset_game(&mut self.ball, &mut self.paddles, &mut self.state);
            reset = Some(ResetGame);
        }
        proof {
            if old(self)@.wf() {
                lemma_update_keeps_wf(old(self)@, keyboard.just_pressed@, right, up);
            }
        }
        Ok(Frame { started, goal, reset })
    }

    /// Runs one frame, with the direction of a launch picked at random.
    ///
    /// The outcome is that of `update_with` for one of the four directions,
    /// and for all four the same unless a rally begins in this frame.
    pub fn update(&mut self, keyboard: &Keyboard) -> (frame: Result<Frame, RoleError>)
        requires
            has_room(old(self).score, old(self)@.goal_side(keyboard.just_pressed@)),
        ensures
            (match frame {
                Ok(f) => {
                    &&& old(self)@.start_refused(keyboard.just_pressed@) is None
                    &&& exists|right: bool, up: bool|
                        final(self)@ == old(self)@.update(keyboard.just_pressed@, right, up)
                    &&& f == old(self)@.frame(keyboard.just_pressed@)
                },
                Err(e) => {
                    &&& old(self)@.start_refused(keyboard.just_pressed@) == Some(e)
                    &&& final(self)@ == old(self)@
                },
            }),
            final(self).score.player >= old(self).score.player,
            final(self).score.opponent >= old(self).score.opponent,
            old(self)@.wf() ==> final(self)@.wf(),
    {
        let launching = self.state == GameState::Paused && key_in(&keyboard.just_pressed, Key::Launch);
        let (right, up) = if launching {
            (coin_flip(), coin_flip())
        } else {
            (true, true)
        };
        self.update_with(keyboard, right, up)
    }

    /// Moves the paddles for `dt` milliseconds: the player's as the held keys
    /// ask, then the opponent's by its policy. Ball, walls, phase and tally
    /// are not touched.
    pub fn fixed_update(&mut self, keyboard: &Keyboard, dt: u32)
        ensures
            final(self)@ == old(self)@.fixed_update(keyboard.pressed@, dt as int),
            old(self)@.wf() ==> final(self)@.wf(),
    {
        move_player(&mut self.paddles, keyboard, dt);
        move_opponent(&self.ball, &mut self.paddles, dt);
        proof {
            if old(self)@.wf() {
                lemma_fixed_update_keeps_wf(old(self)@, keyboard.pressed@, dt as int);
            }
        }
    }
}

/// Moving the paddles leaves the match well formed.
pub proof fn lemma_fixed_update_keeps_wf(game: GameView, keys_down: Seq<Key>, dt: int)
    requires
        game.wf(),
    ensures
        game.fixed_update(keys_down, dt).wf(),
{
}

/// A frame that no error stops leaves the match well formed.
pub proof fn lemma_update_keeps_wf(game: GameView, just_pressed: Seq<Key>, right: bool, up: bool)
    requires
        game.wf(),
        game.start_refused(just_pressed) is None,
    ensures
        game.update(just_pressed, right, up).wf(),
{
}

/// Whether the match is as a reset leaves it: the game is paused, the ball is
/// in the centre and at rest, and every paddle is at height zero.
pub open spec fn is_reset(game: GameView) -> bool {
    &&& game.state == GameState::Paused
    &&& match game.ball {
        Some(b) => b.position == (Position { x: 0, y: 0 }) && b.velocity == (Velocity { x: 0, y: 0 }),
        None => true,
    }
    &&& forall|i: int| 0 <= i < game.paddles.len() ==> (#[trigger] game.paddles[i]).position.y == 0
}

/// A reset brings any match whatever to the state `is_reset`, and touches
/// neither the tally nor the walls, nor a paddle's side, role or size, nor
/// the size of the ball.
pub proof fn lemma_reset_restores(game: GameView)
    ensures
        is_reset(game.reset()),
        game.reset().score == game.score,
        game.reset().walls == game.walls,
        game.reset().ball is Some == game.ball is Some,
        game.ball is Some ==> game.reset().ball->Some_0.radius == game.ball->Some_0.radius,
        game.reset().paddles.len() == game.paddles.len(),
        forall|i: int|
            0 <= i < game.paddles.len() ==> ({
                let before = game.paddles[i];
                let after = #[trigger] game.reset().paddles[i];
                &&& after.position.x == before.position.x
                &&& after.role == before.role
                &&& after.width == before.width
                &&& after.height == before.height
            }),
{
}

/// A frame that reports a reset, be it for a goal or for the reset key, ends
/// in the state `is_reset`, whatever the match was like before.
pub proof fn lemma_frame_with_reset(game: GameView, just_pressed: Seq<Key>, right: bool, up: bool)
    requires
        game.frame(just_pressed).reset is Some,
    ensures
        is_reset(game.update(just_pressed, right, up)),
{
}

/// While the game is running the launch key does nothing: no rally is
/// reported, the frame is the same for every launch direction, and unless the
/// frame resets the match, it leaves the match, and with it the velocity of
/// the ball, as it was.
pub proof fn lemma_no_launch_while_running(
    game: GameView,
    just_pressed: Seq<Key>,
    right: bool,
    up: bool,
    other_right: bool,
    other_up: bool,
)
    requires
        game.state == GameState::Running,
    ensures
        game.frame(just_pressed).started is None,
        game.start_refused(just_pressed) is None,
        game.update(just_pressed, right, up) == game.update(just_pressed, other_right, other_up),
        game.frame(just_pressed).reset is None ==> game.update(just_pressed, right, up) == game,
{
}

/// A goal counts once: the frame in which a side scores adds one to that
/// side's goals and nothing to the other's, and the frame after it reports no
/// goal, whatever keys are pressed.
pub proof fn lemma_goal_counts_once(
    game: GameView,
    just_pressed: Seq<Key>,
    right: bool,
    up: bool,
    next_pressed: Seq<Key>,
)
    requires
        game.frame(just_pressed).goal is Some,
        has_room(game.score, game.goal_side(just_pressed)),
    ensures
        ({
            let after = game.update(just_pressed, right, up);
            match game.frame(just_pressed).goal->Some_0.scorer {
                Role::Player => after.score.player == game.score.player + 1 && after.score.opponent
                    == game.score.opponent,
                Role::Opponent => after.score.opponent == game.score.opponent + 1 && after.score.player
                    == game.score.player,
            }
        }),
        game.update(just_pressed, right, up).frame(next_pressed).goal is None,
{
}

/// Without a goal a frame leaves the tally as it was.
pub proof fn lemma_tally_moves_only_on_goal(game: GameView, just_pressed: Seq<Key>, right: bool, up: bool)
    requires
        game.frame(just_pressed).goal is None,
    ensures
        game.update(just_pressed, right, up).score == game.score,
{
}

} // verus!
