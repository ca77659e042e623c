use vstd::prelude::*;
use crate::geometry::{GoalZone, Point, Position, is_player_in_goal, within_goal};
use crate::movement::{InputSet, apply_movement, can_move, movement_fits, moved};

verus! {

/// Height of the play area; the goal sits on its bottom edge.
pub const SCREEN_HEIGHT: i64 = 480;

/// Width of the play area.
pub const SCREEN_WIDTH: i64 = 480;

/// Units the player moves per tick along each held axis.
pub const PLAYER_SPEED: i64 = 2;

/// Horizontal tolerance of the goal test.
pub const GOAL_HALF_WIDTH: i64 = 15;

/// Vertical tolerance of the goal test.
pub const GOAL_HALF_HEIGHT: i64 = 1;

/// Phase of a session: it starts in `Playing` and, once `Won`, stays there.
#[derive(Clone, Copy, Debug, PartialEq, Eq, Structural)]
pub enum GamePhase {
    Playing,
    Won,
}

/// What a tick asks of the presentation.
#[derive(Clone, Copy, Debug, PartialEq, Eq, Structural)]
pub enum TickEvent {
    /// Nothing to announce.
    Quiet,
    /// The goal was reached on this tick: show the win screen, once.
    Win,
}

/// Abstract state of a session, with the player's position unbounded.
pub struct WorldModel {
    pub player: Point,
    pub goal: GoalZone,
    pub phase: GamePhase,
    pub speed: int,
}

/// One tick: while playing, move the player, then test the goal and switch
/// to `Won` if it is reached. The flag says whether this tick won. A won
/// session is left as it is and the goal is not tested again.
pub open spec fn step(m: WorldModel, input: InputSet) -> (WorldModel, bool) {
    if m.phase == GamePhase::Won {
        (m, false)
    } else {
        let p = moved(m.player, input, m.speed);
        if within_goal(p, m.goal) {
            (WorldModel { player: p, phase: GamePhase::Won, ..m }, true)
        } else {
            (WorldModel { player: p, ..m }, false)
        }
    }
}

/// A tick from `m` keeps the player's position representable.
pub open spec fn tick_fits(m: WorldModel, input: InputSet) -> bool {
    m.phase == GamePhase::Won || can_move(m.player, input, m.speed)
}

/// State after a sequence of ticks.
pub open spec fn run(m: WorldModel, inputs: Seq<InputSet>) -> WorldModel
    decreases inputs.len(),
{
    if inputs.len() == 0 {
        m
    } else {
        run(step(m, inputs[0]).0, inputs.drop_first())
    }
}

/// Number of win events a sequence of ticks emits.
pub open spec fn wins(m: WorldModel, inputs: Seq<InputSet>) -> nat
    decreases inputs.len(),
{
    if inputs.len() == 0 {
        0
    } else {
        (if step(m, inputs[0]).1 {
            1nat
        } else {
            0nat
        }) + wins(step(m, inputs[0]).0, inputs.drop_first())
    }
}

/// The state of one session: the single player, the single goal and the
/// phase. The player moves only through `tick`; goal and speed never change.
#[derive(Clone, Copy, Debug)]
pub struct World {
    player: Position,
    goal: GoalZone,
    phase: GamePhase,
    speed: i64,
}

impl View for World {
    type V = WorldModel;

    closed spec fn view(&self) -> WorldModel {
        WorldModel {
            player: self.player@,
            goal: self.goal,
            phase: self.phase,
            speed: self.speed as int,
        }
    }
}

impl World {
    /// A session in its initial state: player at the origin, goal centred on
    /// the bottom edge of the play area, phase `Playing`.
    pub fn new_session() -> (r: World)
        ensures
            r@.player == (Point { x: 0, y: 0 }),
            r@.goal.center@ == (Point { x: 0, y: -(SCREEN_HEIGHT / 2) }),
            r@.goal.half_width == GOAL_HALF_WIDTH,
            r@.goal.half_height == GOAL_HALF_HEIGHT,
            r@.speed == PLAYER_SPEED,
            r@.phase == GamePhase::Playing,
    {
        let goal = GoalZone::new(
            Position::new(0, -(SCREEN_HEIGHT / 2)),
            GOAL_HALF_WIDTH,
            GOAL_HALF_HEIGHT,
        );
        World::with_layout(Position::origin(), goal, PLAYER_SPEED)
    }

    /// A session in phase `Playing` with the given start, goal and speed.
    pub fn with_layout(start: Position, goal: GoalZone, speed: i64) -> (r: World)
        ensures
            r@ == (WorldModel {
                player: start@,
                goal,
                phase: GamePhase::Playing,
                speed: speed as int,
            }),
    {
        World { player: start, goal, phase: GamePhase::Playing, speed }
    }

    pub fn player(&self) -> (r: Position)
        ensures
            r@ == self@.player,
    {
        self.player
    }

    pub fn goal(&self) -> (r: GoalZone)
        ensures
            r == self@.goal,
    {
        self.goal
    }

    pub fn phase(&self) -> (r: GamePhase)
        ensures
            r == self@.phase,
    {
        self.phase
    }

    pub fn speed(&self) -> (r: i64)
        ensures
            r == self@.speed,
    {
        self.speed
    }

    /// Whether `tick` may be called with `input`: false only when the move
    /// would leave the representable positions.
    pub fn can_tick(&self, input: InputSet) -> (r: bool)
        ensures
            r == tick_fits(self@, input),
    {
        match self.phase {
            GamePhase::Won => true,
            GamePhase::Playing => movement_fits(self.player, input, self.speed),
        }
    }

    /// Processes one tick of input. Returns `Win` exactly on the tick that
    /// moves the player into the goal while playing.
    pub fn tick(&mut self, input: InputSet) -> (ev: TickEvent)
        requires
            tick_fits(old(self)@, input),
        ensures
            (final(self)@, ev == TickEvent::Win) == step(old(self)@, input),
            old(self)@.phase == GamePhase::Playing ==> final(self)@.player == moved(
                old(self)@.player,
                input,
                old(self)@.speed,
            ),
            old(self)@.phase == GamePhase::Won ==> final(self)@ == old(self)@ && ev
                == TickEvent::Quiet,
    {
        match self.phase {
            GamePhase::Won => TickEvent::Quiet,
            GamePhase::Playing => {
                self.player = apply_movement(self.player, input, self.speed);
                if is_player_in_goal(&self.player, &self.goal) {
                    self.phase = GamePhase::Won;
                    TickEvent::Win
                } else {
                    TickEvent::Quiet
                }
            },
        }
    }
}

/// Once a session is won, no sequence of inputs changes it any further, in
/// particular not the player's position, and no further win is announced.
pub proof fn lemma_won_is_terminal(m: WorldModel, inputs: Seq<InputSet>)
    requires
        m.phase == GamePhase::Won,
    ensures
        run(m, inputs) == m,
        wins(m, inputs) == 0,
    decreases inputs.len(),
{
    if inputs.len() > 0 {
        lemma_won_is_terminal(step(m, inputs[0]).0, inputs.drop_first());
    }
}

/// A session changes phase at most once: any sequence of ticks announces a
/// win exactly when it takes a playing session to `Won`, so at most once,
/// and never from a session that was already won.
pub proof fn lemma_at_most_one_win(m: WorldModel, inputs: Seq<InputSet>)
    ensures
        wins(m, inputs) == (if m.phase == GamePhase::Playing && run(m, inputs).phase
            == GamePhase::Won {
            1nat
        } else {
            0nat
        }),
        wins(m, inputs) <= 1,
        m.phase == GamePhase::Won ==> run(m, inputs).phase == GamePhase::Won,
    decreases inputs.len(),
{
    if inputs.len() > 0 {
        let next = step(m, inputs[0]).0;
        lemma_at_most_one_win(next, inputs.drop_first());
        if next.phase == GamePhase::Won {
            lemma_won_is_terminal(next, inputs.drop_first());
        }
    }
}

/// While playing, a tick moves the player by `speed` along each axis towards
/// each held direction and not at all along an axis with nothing held; the
/// displacement depends on the input and the speed alone, not on where the
/// player stands.
pub proof fn lemma_tick_displacement(m: WorldModel, n: WorldModel, input: InputSet)
    requires
        m.phase == GamePhase::Playing,
        n.phase == GamePhase::Playing,
        m.speed == n.speed,
    ensures
        step(m, input).0.player.x - m.player.x == step(n, input).0.player.x - n.player.x,
        step(m, input).0.player.y - m.player.y == step(n, input).0.player.y - n.player.y,
        input.right && !input.left ==> step(m, input).0.player.x == m.player.x + m.speed,
        input.left && !input.right ==> step(m, input).0.player.x == m.player.x - m.speed,
        input.up && !input.down ==> step(m, input).0.player.y == m.player.y + m.speed,
        input.down && !input.up ==> step(m, input).0.player.y == m.player.y - m.speed,
        !input.left && !input.right ==> step(m, input).0.player.x == m.player.x,
        !input.up && !input.down ==> step(m, input).0.player.y == m.player.y,
{
}

} // verus!
