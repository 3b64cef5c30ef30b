//! The court and what stands on it: the ball, the paddles, the walls, and the
//! phase of the session.

use vstd::prelude::*;

verus! {

/// Thousandths in one court unit.
pub const UNIT: i32 = 1000;

/// How far from the centre line a paddle may travel, up or down.
pub const PADDLE_LIMIT: i32 = 275_000;

/// Distance from the centre to either goal line.
pub const GOAL_LINE: i32 = 640_000;

/// Whether the ball is in play.
#[derive(Clone, Copy, Debug, PartialEq, Eq, Structural)]
pub enum GameState {
    Paused,
    Running,
}

/// Signals that a rally has just begun.
#[derive(Clone, Copy, Debug, PartialEq, Eq, Structural)]
pub struct StartGame;

/// Signals that ball and paddles must go back to where they started.
#[derive(Clone, Copy, Debug, PartialEq, Eq, Structural)]
pub struct ResetGame;

/// A point of the court, in thousandths of a unit. The centre is the origin,
/// `x` grows to the right and `y` grows upwards.
#[derive(Clone, Copy, Debug, PartialEq, Eq, Structural)]
pub struct Position {
    pub x: i32,
    pub y: i32,
}

/// A velocity in court units per second.
#[derive(Clone, Copy, Debug, PartialEq, Eq, Structural)]
pub struct Velocity {
    pub x: i32,
    pub y: i32,
}

/// Which side of the match a paddle plays for.
#[derive(Clone, Copy, Debug, PartialEq, Eq, Structural)]
pub enum Role {
    Player,
    Opponent,
}

/// The puck.
#[derive(Clone, Copy, Debug, PartialEq, Eq, Structural)]
pub struct Ball {
    pub position: Position,
    pub velocity: Velocity,
    pub radius: i32,
}

/// A bar that one side moves up and down. It has no role until roles are
/// assigned.
#[derive(Clone, Copy, Debug, PartialEq, Eq)]
pub struct Paddle {
    pub position: Position,
    pub role: Option<Role>,
    pub width: i32,
    pub height: i32,
}

/// A fixed edge of the court.
#[derive(Clone, Copy, Debug, PartialEq, Eq, Structural)]
pub struct Wall {
    pub position: Position,
    pub width: i32,
    pub height: i32,
}

/// The keys that the game listens to.
#[derive(Clone, Copy, Debug, PartialEq, Eq, Structural)]
pub enum Key {
    Up,
    Down,
    Launch,
    Reset,
}

/// What the keyboard reports for one tick: the keys held down, and those that
/// went down since the tick before.
#[derive(Debug, PartialEq, Eq)]
pub struct Keyboard {
    pub pressed: Vec<Key>,
    pub just_pressed: Vec<Key>,
}

/// Whether `key` occurs in `keys`.
pub fn key_in(keys: &Vec<Key>, key: Key) -> (found: bool)
    ensures
        found == keys@.contains(key),
{
    let mut i: usize = 0;
    while i < keys.len()
        invariant
            i <= keys.len(),
            forall|j: int| 0 <= j < i ==> keys@[j] != key,
        decreases keys.len() - i,
    {
        if keys[i] == key {
            return true;
        }
        i += 1;
    }
    false
}

/// `val` brought into `[min, max]`: `min` where it is not above `min`, else
/// `max` where it is not below `max`.
pub open spec fn clamp_spec(val: int, min: int, max: int) -> int {
    if val <= min {
        min
    } else if val >= max {
        max
    } else {
        val
    }
}

/// Brings `val` into `[min, max]`. Where the bounds are the wrong way round
/// the result is still the one `clamp_spec` names.
pub fn clamp(val: i128, min: i128, max: i128) -> (out: i128)
    ensures
        out == clamp_spec(val as int, min as int, max as int),
{
    if val > min {
        if val < max {
            val
        } else {
            max
        }
    } else {
        min
    }
}

/// Why roles could not be assigned.
#[derive(Clone, Copy, Debug, PartialEq, Eq, Structural)]
pub enum RoleError {
    /// Fewer than two paddles are on the court.
    MissingPaddle,
    /// The paddles do not stand one on each side of the centre line.
    SameSide,
}

/// The role that goes with a place on the court: the opponent plays on the
/// left, `x < 0`, the player on the right.
pub open spec fn role_of_side(x: int) -> Role {
    if x < 0 {
        Role::Opponent
    } else {
        Role::Player
    }
}

/// The paddle with its role set to `role`, nothing else changed.
pub open spec fn with_role(paddle: Paddle, role: Role) -> Paddle {
    Paddle { position: paddle.position, role: Some(role), width: paddle.width, height: paddle.height }
}

/// Who plays where: the index of the player's paddle, then that of the
/// opponent's. It is defined for two paddles with one on each side. With fewer
/// paddles one is missing; any other line-up has two paddles on one side.
pub open spec fn sides_spec(paddles: Seq<Paddle>) -> Result<(int, int), RoleError> {
    if paddles.len() < 2 {
        Err(RoleError::MissingPaddle)
    } else if paddles.len() == 2 && (paddles[0].position.x < 0) != (paddles[1].position.x < 0) {
        if paddles[0].position.x < 0 {
            Ok((1, 0))
        } else {
            Ok((0, 1))
        }
    } else {
        Err(RoleError::SameSide)
    }
}

/// Finds the player's paddle and the opponent's by the side they stand on.
pub fn paddle_sides(paddles: &Vec<Paddle>) -> (found: Result<(usize, usize), RoleError>)
    ensures
        (match found {
            Ok((player, opponent)) => sides_spec(paddles@) == Ok::<(int, int), RoleError>((player as int, opponent as int)),
            Err(e) => sides_spec(paddles@) == Err::<(int, int), RoleError>(e),
        }),
{
    if paddles.len() < 2 {
        return Err(RoleError::MissingPaddle);
    }
    if paddles.len() > 2 {
        return Err(RoleError::SameSide);
    }
    let first_left = paddles[0].position.x < 0;
    let second_left = paddles[1].position.x < 0;
    if first_left == second_left {
        Err(RoleError::SameSide)
    } else if first_left {
        Ok((1, 0))
    } else {
        Ok((0, 1))
    }
}

/// The paddles once each has the role of its side; unchanged where
/// `sides_spec` finds no line-up.
pub open spec fn with_roles(paddles: Seq<Paddle>) -> Seq<Paddle> {
    match sides_spec(paddles) {
        Ok((player, opponent)) => paddles.update(player, with_role(paddles[player], Role::Player)).update(
            opponent,
            with_role(paddles[opponent], Role::Opponent),
        ),
        Err(_) => paddles,
    }
}

/// Sets the role of the paddle at `index`.
pub fn set_role(paddles: &mut Vec<Paddle>, index: usize, role: Role)
    requires
        index < old(paddles)@.len(),
    ensures
        final(paddles)@ == old(paddles)@.update(index as int, with_role(old(paddles)@[index as int], role)),
{
    let paddle = paddles[index];
    paddles.set(index, Paddle { position: paddle.position, role: Some(role), width: paddle.width, height: paddle.height });
}

/// Gives both paddles their roles: the one on the left becomes the opponent,
/// the other the player. Returns the player's index and the opponent's.
/// Where the line-up is refused no paddle changes.
pub fn assign_roles(paddles: &mut Vec<Paddle>) -> (assigned: Result<(usize, usize), RoleError>)
    ensures
        (match assigned {
            Ok((player, opponent)) => sides_spec(old(paddles)@) == Ok::<(int, int), RoleError>((player as int, opponent as int)),
            Err(e) => sides_spec(old(paddles)@) == Err::<(int, int), RoleError>(e),
        }),
        final(paddles)@ == with_roles(old(paddles)@),
{
    match paddle_sides(paddles) {
        Ok((player, opponent)) => {
            set_role(paddles, player, Role::Player);
            set_role(paddles, opponent, Role::Opponent);
            Ok((player, opponent))
        },
        Err(e) => Err(e),
    }
}

/// Two paddles with exactly one of them left of the centre line get their
/// roles by side: the one on the left is the opponent's, the other the
/// player's, and each carries that role afterwards.
pub proof fn lemma_roles_follow_sides(paddles: Seq<Paddle>)
    requires
        paddles.len() == 2,
        (paddles[0].position.x < 0) != (paddles[1].position.x < 0),
    ensures
        sides_spec(paddles) is Ok,
        ({
            let (player, opponent) = sides_spec(paddles)->Ok_0;
            &&& 0 <= player < 2 && 0 <= opponent < 2 && player != opponent
            &&& paddles[player].position.x >= 0
            &&& paddles[opponent].position.x < 0
            &&& with_roles(paddles)[player] == with_role(paddles[player], Role::Player)
            &&& with_roles(paddles)[opponent] == with_role(paddles[opponent], Role::Opponent)
        }),
{
}

/// Assigning roles a second time finds the same line-up and changes nothing:
/// the outcome depends on where the paddles stand, not on the roles they have.
pub proof fn lemma_assign_roles_idempotent(paddles: Seq<Paddle>)
    ensures
        sides_spec(with_roles(paddles)) == sides_spec(paddles),
        with_roles(with_roles(paddles)) == with_roles(paddles),
{
    assert(with_roles(with_roles(paddles)) =~= with_roles(paddles));
}

/// A paddle that already has the role of its side keeps it, and keeps its
/// place and size, when roles are assigned.
pub proof fn lemma_assigned_role_stays(paddles: Seq<Paddle>, i: int)
    requires
        0 <= i < paddles.len(),
        paddles[i].role == Some(role_of_side(paddles[i].position.x as int)),
    ensures
        with_roles(paddles)[i] == paddles[i],
{
}

/// Once roles have been assigned, exactly one paddle is the player's and
/// exactly one the opponent's, whatever roles the paddles had before.
pub proof fn lemma_one_paddle_per_role(paddles: Seq<Paddle>)
    requires
        sides_spec(paddles) is Ok,
    ensures
        ({
            let (player, opponent) = sides_spec(paddles)->Ok_0;
            let assigned = with_roles(paddles);
            &&& assigned.len() == paddles.len()
            &&& forall|i: int|
                0 <= i < assigned.len() ==> ((#[trigger] assigned[i]).role == Some(Role::Player) <==> i == player)
            &&& forall|i: int|
                0 <= i < assigned.len() ==> ((#[trigger] assigned[i]).role == Some(Role::Opponent) <==> i == opponent)
        }),
{
}

/// The paddle moved to height `y`, nothing else changed.
pub open spec fn at_height(paddle: Paddle, y: int) -> Paddle {
    Paddle {
        position: Position { x: paddle.position.x, y: y as i32 },
        role: paddle.role,
        width: paddle.width,
        height: paddle.height,
    }
}

/// Moves the paddle at `index` to height `y`.
pub fn set_height(paddles: &mut Vec<Paddle>, index: usize, y: i32)
    requires
        index < old(paddles)@.len(),
    ensures
        final(paddles)@ == old(paddles)@.update(index as int, at_height(old(paddles)@[index as int], y as int)),
{
    let paddle = paddles[index];
    paddles.set(
        index,
        Paddle { position: Position { x: paddle.position.x, y }, role: paddle.role, width: paddle.width, height: paddle.height },
    );
}

/// Whether the paddle at `i` has the role and no paddle before it has.
pub open spec fn is_first_with_role(paddles: Seq<Paddle>, role: Role, i: int) -> bool {
    &&& 0 <= i < paddles.len()
    &&& paddles[i].role == Some(role)
    &&& forall|j: int| 0 <= j < i ==> paddles[j].role != Some(role)
}

/// The index of the first paddle with the role, if any paddle has it.
pub open spec fn first_with_role(paddles: Seq<Paddle>, role: Role) -> Option<int> {
    if exists|i: int| is_first_with_role(paddles, role, i) {
        Some(choose|i: int| is_first_with_role(paddles, role, i))
    } else {
        None
    }
}

/// Finds the first paddle that has the role.
pub fn find_role(paddles: &Vec<Paddle>, role: Role) -> (found: Option<usize>)
    ensures
        (match found {
            Some(i) => is_first_with_role(paddles@, role, i as int) && first_with_role(paddles@, role) == Some(i as int),
            None => first_with_role(paddles@, role) is None,
        }),
{
    let mut i: usize = 0;
    while i < paddles.len()
        invariant
            i <= paddles.len(),
            forall|j: int| 0 <= j < i ==> paddles@[j].role != Some(role),
        decreases paddles.len() - i,
    {
        let has = match paddles[i].role {
            Some(r) => r == role,
            None => false,
        };
        if has {
            assert(is_first_with_role(paddles@, role, i as int));
            return Some(i);
        }
        i += 1;
    }
    None
}

/// Radius of the ball.
pub const BALL_RADIUS: i32 = 20_000;

/// Distance of each paddle from the centre line.
pub const PADDLE_X: i32 = 550_000;

/// Width of a paddle on the court.
pub const PADDLE_WIDTH: i32 = 25_000;

/// Height of a paddle on the court.
pub const PADDLE_HEIGHT: i32 = 125_000;

/// Height of a paddle that was given no size of its own.
pub const PADDLE_DEFAULT_HEIGHT: i32 = 200_000;

/// Distance of each wall from the centre.
pub const WALL_Y: i32 = 375_000;

/// Length of a wall: the width of the court.
pub const WALL_WIDTH: i32 = 1_280_000;

/// Thickness of a wall.
pub const WALL_HEIGHT: i32 = 25_000;

/// A ball at rest in the centre of the court.
pub open spec fn ball_at_centre() -> Ball {
    Ball { position: Position { x: 0, y: 0 }, velocity: Velocity { x: 0, y: 0 }, radius: BALL_RADIUS }
}

/// A paddle without a role, at height zero, `x` from the centre line.
pub open spec fn paddle_at(x: int) -> Paddle {
    Paddle { position: Position { x: x as i32, y: 0 }, role: None, width: PADDLE_WIDTH, height: PADDLE_HEIGHT }
}

/// A wall across the court at height `y`.
pub open spec fn wall_at(y: int) -> Wall {
    Wall { position: Position { x: 0, y: y as i32 }, width: WALL_WIDTH, height: WALL_HEIGHT }
}

impl Default for Ball {
    fn default() -> (ball: Self)
        ensures
            ball == ball_at_centre(),
    {
        Ball { position: Position { x: 0, y: 0 }, velocity: Velocity { x: 0, y: 0 }, radius: BALL_RADIUS }
    }
}

impl Default for Paddle {
    fn default() -> (paddle: Self)
        ensures
            paddle == (Paddle {
                position: Position { x: 0, y: 0 },
                role: None,
                width: PADDLE_WIDTH,
                height: PADDLE_DEFAULT_HEIGHT,
            }),
    {
        Paddle { position: Position { x: 0, y: 0 }, role: None, width: PADDLE_WIDTH, height: PADDLE_DEFAULT_HEIGHT }
    }
}

impl Default for Wall {
    fn default() -> (wall: Self)
        ensures
            wall == (Wall { position: Position { x: 0, y: 0 }, width: 0, height: 0 }),
    {
        Wall { position: Position { x: 0, y: 0 }, width: 0, height: 0 }
    }
}

/// Puts a ball at rest in the centre of the court, in place of any that was
/// there.
pub fn spawn_ball(ball: &mut Option<Ball>)
    ensures
        *final(ball) == Some(ball_at_centre()),
{
    *ball = Some(Ball::default());
}

/// Adds the two paddles, first the left one and then the right one, both at
/// height zero and without a role.
pub fn spawn_paddles(paddles: &mut Vec<Paddle>)
    ensures
        final(paddles)@ == old(paddles)@.push(paddle_at(-PADDLE_X)).push(paddle_at(PADDLE_X as int)),
{
    let base = Paddle::default();
    paddles.push(Paddle { position: Position { x: -PADDLE_X, y: 0 }, role: base.role, width: PADDLE_WIDTH, height: PADDLE_HEIGHT });
    paddles.push(Paddle { position: Position { x: PADDLE_X, y: 0 }, role: base.role, width: PADDLE_WIDTH, height: PADDLE_HEIGHT });
}

/// Adds the two walls, first the upper one and then the lower one.
pub fn spawn_walls(walls: &mut Vec<Wall>)
    ensures
        final(walls)@ == old(walls)@.push(wall_at(WALL_Y as int)).push(wall_at(-WALL_Y)),
{
    walls.push(Wall { position: Position { x: 0, y: WALL_Y }, width: WALL_WIDTH, height: WALL_HEIGHT });
    walls.push(Wall { position: Position { x: 0, y: -WALL_Y }, width: WALL_WIDTH, height: WALL_HEIGHT });
}

/// Whether a rally starts: the launch key has just gone down while the game
/// is paused.
pub open spec fn launch_due(state: GameState, just_pressed: Seq<Key>) -> bool {
    state == GameState::Paused && just_pressed.contains(Key::Launch)
}

/// Starts a rally when the launch key has just gone down and the game is
/// paused. While the game is running the key does nothing.
pub fn start_game(state: &mut GameState, keyboard: &Keyboard) -> (started: Option<StartGame>)
    ensures
        started == (if launch_due(*old(state), keyboard.just_pressed@) {
            Some(StartGame)
        } else {
            None
        }),
        *final(state) == (if launch_due(*old(state), keyboard.just_pressed@) {
            GameState::Running
        } else {
            *old(state)
        }),
{
    if key_in(&keyboard.just_pressed, Key::Launch) && *state == GameState::Paused {
        *state = GameState::Running;
        Some(StartGame)
    } else {
        None
    }
}

/// Whether the ball of a running game has left the court: it is beyond one of
/// the goal lines. A ball on a goal line is still in play.
pub open spec fn out_of_play(state: GameState, ball: Option<Ball>) -> bool {
    match ball {
        Some(b) => state == GameState::Running && (b.position.x > GOAL_LINE || b.position.x < -GOAL_LINE),
        None => false,
    }
}

/// Asks for a reset when the ball of a running game has left the court. With
/// no ball on the court nothing is asked for.
pub fn detect_goal(state: GameState, ball: &Option<Ball>) -> (reset: Option<ResetGame>)
    ensures
        reset == (if out_of_play(state, *ball) {
            Some(ResetGame)
        } else {
            None
        }),
{
    let ball = match ball {
        Some(ball) => ball,
        None => return None,
    };
    if state == GameState::Running && (ball.position.x > GOAL_LINE || ball.position.x < -GOAL_LINE) {
        Some(ResetGame)
    } else {
        None
    }
}

/// The ball back in the centre and at rest, its size kept.
pub open spec fn ball_reset(ball: Option<Ball>) -> Option<Ball> {
    match ball {
        Some(b) => Some(Ball { position: Position { x: 0, y: 0 }, velocity: Velocity { x: 0, y: 0 }, radius: b.radius }),
        None => None,
    }
}

/// Every paddle back at height zero.
pub open spec fn paddles_reset(paddles: Seq<Paddle>) -> Seq<Paddle> {
    Seq::new(paddles.len(), |i: int| at_height(paddles[i], 0))
}

/// Puts the ball back in the centre at rest and every paddle back at height
/// zero, and pauses the game, whatever went before.
pub fn reset_game(ball: &mut Option<Ball>, paddles: &mut Vec<Paddle>, state: &mut GameState)
    ensures
        *final(ball) == ball_reset(*old(ball)),
        final(paddles)@ == paddles_reset(old(paddles)@),
        *final(state) == GameState::Paused,
{
    if let Some(b) = *ball {
        *ball = Some(Ball { position: Position { x: 0, y: 0 }, velocity: Velocity { x: 0, y: 0 }, radius: b.radius });
    }
    let mut i: usize = 0;
    while i < paddles.len()
        invariant
            i <= paddles@.len(),
            paddles@.len() == old(paddles)@.len(),
            forall|j: int| 0 <= j < i ==> paddles@[j] == at_height(old(paddles)@[j], 0),
            forall|j: int| i <= j < paddles@.len() ==> paddles@[j] == old(paddles)@[j],
        decreases paddles@.len() - i,
    {
        set_height(paddles, i, 0);
        i += 1;
    }
    assert(paddles@ =~= paddles_reset(old(paddles)@));
    *state = GameState::Paused;
}

/// Asks for a reset when the reset key has just gone down.
pub fn restart_game(keyboard: &Keyboard) -> (reset: Option<ResetGame>)
    ensures
        reset == (if keyboard.just_pressed@.contains(Key::Reset) {
            Some(ResetGame)
        } else {
            None
        }),
{
    if key_in(&keyboard.just_pressed, Key::Reset) {
        Some(ResetGame)
    } else {
        None
    }
}

} // verus!
