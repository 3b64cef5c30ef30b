use pong::ball::{kick_off, kick_off_with, launch_velocity, LAUNCH_SPEED};
use pong::scene::{
    detect_goal, reset_game, restart_game, start_game, Ball, GameState, Key, Keyboard, Paddle, Position, ResetGame, Role,
    StartGame, Velocity,
};
use pong::score::{GoalEvent, Scoreboard};

fn ball_at(x: i32, y: i32) -> Option<Ball> {
    Some(Ball { position: Position { x, y }, velocity: Velocity { x: 500, y: -500 }, radius: 20_000 })
}

fn just(keys: Vec<Key>) -> Keyboard {
    Keyboard { pressed: Vec::new(), just_pressed: keys }
}

#[test]
fn launch_velocity_has_four_values() {
    assert_eq!(LAUNCH_SPEED, 500);
    assert_eq!(launch_velocity(true, true), Velocity { x: 500, y: 500 });
    assert_eq!(launch_velocity(true, false), Velocity { x: 500, y: -500 });
    assert_eq!(launch_velocity(false, true), Velocity { x: -500, y: 500 });
    assert_eq!(launch_velocity(false, false), Velocity { x: -500, y: -500 });
}

#[test]
fn kick_off_with_sets_the_velocity_only() {
    let mut ball = Some(Ball { position: Position { x: 3, y: 4 }, velocity: Velocity { x: 0, y: 0 }, radius: 9 });
    kick_off_with(&mut ball, false, true);
    assert_eq!(ball, Some(Ball { position: Position { x: 3, y: 4 }, velocity: Velocity { x: -500, y: 500 }, radius: 9 }));
}

#[test]
fn kick_off_without_a_ball_does_nothing() {
    let mut ball: Option<Ball> = None;
    kick_off_with(&mut ball, true, true);
    assert_eq!(ball, None);
    kick_off(&mut ball);
    assert_eq!(ball, None);
}

#[test]
fn kick_off_launches_along_a_diagonal() {
    for _ in 0..200 {
        let mut ball = Some(Ball { position: Position { x: 3, y: 4 }, velocity: Velocity { x: 0, y: 0 }, radius: 9 });
        kick_off(&mut ball);
        let ball = ball.unwrap();
        assert_eq!(ball.position, Position { x: 3, y: 4 });
        assert_eq!(ball.radius, 9);
        assert!(ball.velocity.x == 500 || ball.velocity.x == -500);
        assert!(ball.velocity.y == 500 || ball.velocity.y == -500);
    }
}

#[test]
fn kick_off_is_a_fair_coin_on_each_axis() {
    let trials = 4000;
    let mut right = 0;
    let mut up = 0;
    let mut right_and_up = 0;
    for _ in 0..trials {
        let mut ball = Some(Ball::default());
        kick_off(&mut ball);
        let velocity = ball.unwrap().velocity;
        if velocity.x > 0 {
            right += 1;
        }
        if velocity.y > 0 {
            up += 1;
        }
        if velocity.x > 0 && velocity.y > 0 {
            right_and_up += 1;
        }
    }
    assert!(right > trials * 2 / 5 && right < trials * 3 / 5);
    assert!(up > trials * 2 / 5 && up < trials * 3 / 5);
    assert!(right_and_up > trials * 3 / 20 && right_and_up < trials * 7 / 20);
}

#[test]
fn start_game_starts_a_paused_game() {
    let mut state = GameState::Paused;
    assert_eq!(start_game(&mut state, &just(vec![Key::Launch])), Some(StartGame));
    assert_eq!(state, GameState::Running);
}

#[test]
fn start_game_does_nothing_while_running() {
    let mut state = GameState::Running;
    assert_eq!(start_game(&mut state, &just(vec![Key::Launch])), None);
    assert_eq!(state, GameState::Running);
}

#[test]
fn start_game_needs_the_launch_key_to_go_down() {
    let mut state = GameState::Paused;
    assert_eq!(start_game(&mut state, &just(vec![Key::Up, Key::Reset])), None);
    assert_eq!(state, GameState::Paused);
    let held = Keyboard { pressed: vec![Key::Launch], just_pressed: Vec::new() };
    assert_eq!(start_game(&mut state, &held), None);
    assert_eq!(state, GameState::Paused);
}

#[test]
fn ball_beyond_the_right_line_asks_for_a_reset() {
    assert_eq!(detect_goal(GameState::Running, &ball_at(641_000, 0)), Some(ResetGame));
    assert_eq!(detect_goal(GameState::Running, &ball_at(640_001, 0)), Some(ResetGame));
    assert_eq!(detect_goal(GameState::Running, &ball_at(-640_001, 5)), Some(ResetGame));
}

#[test]
fn ball_inside_the_court_asks_for_nothing() {
    assert_eq!(detect_goal(GameState::Running, &ball_at(0, 0)), None);
    assert_eq!(detect_goal(GameState::Running, &ball_at(640_000, 0)), None);
    assert_eq!(detect_goal(GameState::Running, &ball_at(-640_000, 0)), None);
    assert_eq!(detect_goal(GameState::Running, &None), None);
    assert_eq!(detect_goal(GameState::Paused, &ball_at(641_000, 0)), None);
}

#[test]
fn goal_on_the_right_counts_for_the_player() {
    let mut score = Scoreboard::default();
    let goal = pong::score::detect_goal(GameState::Running, &ball_at(641_000, 0), &mut score);
    assert_eq!(goal, Some(GoalEvent { scorer: Role::Player }));
    assert_eq!(score, Scoreboard { player: 1, opponent: 0 });
}

#[test]
fn goal_on_the_left_counts_for_the_opponent() {
    let mut score = Scoreboard { player: 3, opponent: 4 };
    let goal = pong::score::detect_goal(GameState::Running, &ball_at(-641_000, 0), &mut score);
    assert_eq!(goal, Some(GoalEvent { scorer: Role::Opponent }));
    assert_eq!(score, Scoreboard { player: 3, opponent: 5 });
}

#[test]
fn ball_in_the_centre_is_no_goal() {
    let mut score = Scoreboard { player: 3, opponent: 4 };
    assert_eq!(pong::score::detect_goal(GameState::Running, &ball_at(0, 0), &mut score), None);
    assert_eq!(pong::score::detect_goal(GameState::Running, &ball_at(640_000, 0), &mut score), None);
    assert_eq!(pong::score::detect_goal(GameState::Running, &ball_at(-640_000, 0), &mut score), None);
    assert_eq!(pong::score::detect_goal(GameState::Running, &None, &mut score), None);
    assert_eq!(pong::score::detect_goal(GameState::Paused, &ball_at(700_000, 0), &mut score), None);
    assert_eq!(score, Scoreboard { player: 3, opponent: 4 });
}

#[test]
fn a_full_tally_still_takes_the_other_sides_goal() {
    let mut score = Scoreboard { player: u32::MAX, opponent: 0 };
    let goal = pong::score::detect_goal(GameState::Running, &ball_at(-700_000, 0), &mut score);
    assert_eq!(goal, Some(GoalEvent { scorer: Role::Opponent }));
    assert_eq!(score, Scoreboard { player: u32::MAX, opponent: 1 });
}

#[test]
fn scoreboard_starts_at_zero() {
    assert_eq!(Scoreboard::default(), Scoreboard { player: 0, opponent: 0 });
}

#[test]
fn reset_game_puts_everything_back() {
    let mut ball = Some(Ball { position: Position { x: 700_000, y: -3 }, velocity: Velocity { x: 500, y: -500 }, radius: 7 });
    let mut paddles = vec![
        Paddle { position: Position { x: -550_000, y: 275_000 }, role: Some(Role::Opponent), width: 1, height: 2 },
        Paddle { position: Position { x: 550_000, y: -12 }, role: Some(Role::Player), width: 3, height: 4 },
    ];
    let mut state = GameState::Running;
    reset_game(&mut ball, &mut paddles, &mut state);
    assert_eq!(ball, Some(Ball { position: Position { x: 0, y: 0 }, velocity: Velocity { x: 0, y: 0 }, radius: 7 }));
    assert_eq!(
        paddles,
        vec![
            Paddle { position: Position { x: -550_000, y: 0 }, role: Some(Role::Opponent), width: 1, height: 2 },
            Paddle { position: Position { x: 550_000, y: 0 }, role: Some(Role::Player), width: 3, height: 4 },
        ]
    );
    assert_eq!(state, GameState::Paused);
}

#[test]
fn reset_game_on_an_empty_court() {
    let mut ball: Option<Ball> = None;
    let mut paddles: Vec<Paddle> = Vec::new();
    let mut state = GameState::Paused;
    reset_game(&mut ball, &mut paddles, &mut state);
    assert_eq!(ball, None);
    assert!(paddles.is_empty());
    assert_eq!(state, GameState::Paused);
}

#[test]
fn restart_game_listens_to_the_reset_key() {
    assert_eq!(restart_game(&just(vec![Key::Reset])), Some(ResetGame));
    assert_eq!(restart_game(&just(vec![Key::Launch, Key::Reset])), Some(ResetGame));
    assert_eq!(restart_game(&just(vec![Key::Launch])), None);
    assert_eq!(restart_game(&Keyboard { pressed: vec![Key::Reset], just_pressed: Vec::new() }), None);
}
