use pong::opponent::assign_opponent;
use pong::player::assign_player;
use pong::scene::{
    assign_roles, find_role, paddle_sides, set_height, set_role, spawn_ball, spawn_paddles, spawn_walls, Ball, Paddle,
    Position, Role, RoleError, Velocity, Wall,
};

fn paddle(x: i32) -> Paddle {
    Paddle { position: Position { x, y: 0 }, role: None, width: 25_000, height: 125_000 }
}

#[test]
fn roles_go_by_side() {
    let mut paddles = vec![paddle(-550_000), paddle(550_000)];
    assert_eq!(assign_roles(&mut paddles), Ok((1, 0)));
    assert_eq!(paddles[0].role, Some(Role::Opponent));
    assert_eq!(paddles[1].role, Some(Role::Player));
    assert_eq!(paddles[0].position, Position { x: -550_000, y: 0 });
    assert_eq!(paddles[1].position, Position { x: 550_000, y: 0 });
}

#[test]
fn roles_go_by_side_whatever_the_order() {
    let mut paddles = vec![paddle(550_000), paddle(-550_000)];
    assert_eq!(assign_roles(&mut paddles), Ok((0, 1)));
    assert_eq!(paddles[0].role, Some(Role::Player));
    assert_eq!(paddles[1].role, Some(Role::Opponent));
}

#[test]
fn a_paddle_on_the_centre_line_counts_as_right() {
    let mut paddles = vec![paddle(0), paddle(-1)];
    assert_eq!(assign_roles(&mut paddles), Ok((0, 1)));
    assert_eq!(paddles[0].role, Some(Role::Player));
    assert_eq!(paddles[1].role, Some(Role::Opponent));
}

#[test]
fn assigning_twice_changes_nothing() {
    let mut paddles = vec![paddle(-550_000), paddle(550_000)];
    let first = assign_roles(&mut paddles);
    let after_first = paddles.clone();
    let second = assign_roles(&mut paddles);
    assert_eq!(first, second);
    assert_eq!(paddles, after_first);
}

#[test]
fn no_paddles_is_a_missing_paddle() {
    let mut paddles: Vec<Paddle> = Vec::new();
    assert_eq!(assign_roles(&mut paddles), Err(RoleError::MissingPaddle));
    assert!(paddles.is_empty());
}

#[test]
fn one_paddle_is_a_missing_paddle() {
    let mut paddles = vec![paddle(-550_000)];
    assert_eq!(assign_roles(&mut paddles), Err(RoleError::MissingPaddle));
    assert_eq!(paddles, vec![paddle(-550_000)]);
}

#[test]
fn two_paddles_on_the_left_are_refused() {
    let mut paddles = vec![paddle(-550_000), paddle(-10)];
    assert_eq!(assign_roles(&mut paddles), Err(RoleError::SameSide));
    assert_eq!(paddles, vec![paddle(-550_000), paddle(-10)]);
}

#[test]
fn two_paddles_on_the_right_are_refused() {
    let mut paddles = vec![paddle(0), paddle(550_000)];
    assert_eq!(assign_roles(&mut paddles), Err(RoleError::SameSide));
    assert_eq!(paddles[0].role, None);
    assert_eq!(paddles[1].role, None);
}

#[test]
fn three_paddles_are_refused() {
    let mut paddles = vec![paddle(-550_000), paddle(550_000), paddle(100)];
    assert_eq!(assign_roles(&mut paddles), Err(RoleError::SameSide));
    assert_eq!(paddle_sides(&paddles), Err(RoleError::SameSide));
}

#[test]
fn paddle_sides_changes_nothing() {
    let paddles = vec![paddle(-550_000), paddle(550_000)];
    assert_eq!(paddle_sides(&paddles), Ok((1, 0)));
    assert_eq!(paddles[0].role, None);
}

#[test]
fn assign_player_touches_the_right_paddle_only() {
    let mut paddles = vec![paddle(-550_000), paddle(550_000)];
    assert_eq!(assign_player(&mut paddles), Ok(1));
    assert_eq!(paddles[0].role, None);
    assert_eq!(paddles[1].role, Some(Role::Player));
}

#[test]
fn assign_opponent_touches_the_left_paddle_only() {
    let mut paddles = vec![paddle(-550_000), paddle(550_000)];
    assert_eq!(assign_opponent(&mut paddles), Ok(0));
    assert_eq!(paddles[0].role, Some(Role::Opponent));
    assert_eq!(paddles[1].role, None);
}

#[test]
fn assign_player_then_opponent_is_assign_roles() {
    let mut one_by_one = vec![paddle(300), paddle(-300)];
    assert_eq!(assign_player(&mut one_by_one), Ok(0));
    assert_eq!(assign_opponent(&mut one_by_one), Ok(1));
    let mut at_once = vec![paddle(300), paddle(-300)];
    assert_eq!(assign_roles(&mut at_once), Ok((0, 1)));
    assert_eq!(one_by_one, at_once);
}

#[test]
fn assign_player_and_opponent_report_errors() {
    let mut none: Vec<Paddle> = Vec::new();
    assert_eq!(assign_player(&mut none), Err(RoleError::MissingPaddle));
    assert_eq!(assign_opponent(&mut none), Err(RoleError::MissingPaddle));
    let mut same = vec![paddle(5), paddle(6)];
    assert_eq!(assign_player(&mut same), Err(RoleError::SameSide));
    assert_eq!(assign_opponent(&mut same), Err(RoleError::SameSide));
    assert_eq!(same, vec![paddle(5), paddle(6)]);
}

#[test]
fn find_role_gives_the_first_match() {
    let mut paddles = vec![paddle(-1), paddle(1), paddle(2)];
    assert_eq!(find_role(&paddles, Role::Player), None);
    set_role(&mut paddles, 1, Role::Player);
    set_role(&mut paddles, 2, Role::Player);
    assert_eq!(find_role(&paddles, Role::Player), Some(1));
    assert_eq!(find_role(&paddles, Role::Opponent), None);
    set_role(&mut paddles, 0, Role::Opponent);
    assert_eq!(find_role(&paddles, Role::Opponent), Some(0));
}

#[test]
fn set_height_moves_one_paddle() {
    let mut paddles = vec![paddle(-1), paddle(1)];
    set_height(&mut paddles, 1, 42);
    assert_eq!(paddles[0], paddle(-1));
    assert_eq!(paddles[1].position, Position { x: 1, y: 42 });
    assert_eq!(paddles[1].role, None);
    assert_eq!(paddles[1].width, 25_000);
    assert_eq!(paddles[1].height, 125_000);
}

#[test]
fn spawned_ball_rests_in_the_centre() {
    let mut ball = Some(Ball { position: Position { x: 7, y: 8 }, velocity: Velocity { x: 1, y: 2 }, radius: 3 });
    spawn_ball(&mut ball);
    assert_eq!(
        ball,
        Some(Ball { position: Position { x: 0, y: 0 }, velocity: Velocity { x: 0, y: 0 }, radius: 20_000 })
    );
    assert_eq!(ball, Some(Ball::default()));
}

#[test]
fn spawned_paddles_stand_left_and_right() {
    let mut paddles: Vec<Paddle> = Vec::new();
    spawn_paddles(&mut paddles);
    assert_eq!(paddles, vec![paddle(-550_000), paddle(550_000)]);
}

#[test]
fn spawned_walls_stand_above_and_below() {
    let mut walls: Vec<Wall> = Vec::new();
    spawn_walls(&mut walls);
    assert_eq!(
        walls,
        vec![
            Wall { position: Position { x: 0, y: 375_000 }, width: 1_280_000, height: 25_000 },
            Wall { position: Position { x: 0, y: -375_000 }, width: 1_280_000, height: 25_000 },
        ]
    );
}

#[test]
fn defaults_of_paddle_and_wall() {
    assert_eq!(
        Paddle::default(),
        Paddle { position: Position { x: 0, y: 0 }, role: None, width: 25_000, height: 200_000 }
    );
    assert_eq!(Wall::default(), Wall { position: Position { x: 0, y: 0 }, width: 0, height: 0 });
}
