//! The game loop as a state machine: the decisions of each phase, from the
//! current state and one event to the next state and the action to perform.
//! The caller owns the clock, the input source and the display.
use vstd::prelude::*;
use crate::game::{interval_ms, turn_accepted, Game, StepOutcome};
use crate::geometry::{Command, Direction};
use crate::snake::advanced_body;

verus! {

/// The phases of a game session. `GameOver` is terminal.
#[derive(Debug, Clone, Copy, PartialEq, Eq, Structural)]
pub enum Phase {
    Spawning,
    Running,
    GameOver,
}

/// What happened since the last decision.
#[derive(Debug, Clone, Copy, PartialEq, Eq, Structural)]
pub enum Event {
    /// The session was started.
    Started,
    /// The input source delivered a command during the step's interval.
    Input(Command),
    /// The step's interval ran out with no quit.
    IntervalElapsed,
}

/// What the caller does next.
#[derive(Debug, Clone, Copy, PartialEq, Eq, Structural)]
pub enum Action {
    /// Draw the board, then start a new step's interval.
    Render,
    /// Go on polling for input within the current interval.
    KeepPolling,
    /// The game is over: report this final score once.
    ReportScore(u16),
    /// Nothing to do: the event does not apply to this phase.
    Ignore,
}

/// The time left to poll for input in a step, or `None` once the interval
/// has run out.
pub fn poll_budget(interval: u64, elapsed: u64) -> (r: Option<u64>)
    ensures
        r == (if elapsed < interval { Some((interval - elapsed) as u64) } else { None::<u64> }),
{
    if elapsed < interval {
        Some(interval - elapsed)
    } else {
        None
    }
}

/// A game together with its phase and the heading its current step started
/// with.
#[derive(Debug)]
pub struct Session {
    game: Game,
    phase: Phase,
    step_direction: Direction,
}

impl Session {
    pub closed spec fn game_spec(&self) -> Game {
        self.game
    }

    pub closed spec fn phase_spec(&self) -> Phase {
        self.phase
    }

    pub closed spec fn step_direction_spec(&self) -> Direction {
        self.step_direction
    }

    pub open spec fn wf(&self) -> bool {
        self.game_spec().wf()
    }

    /// A session about to spawn `game`.
    pub fn new(game: Game) -> (r: Session)
        requires
            game.wf(),
        ensures
            r.wf(),
            r.game_spec() == game,
            r.phase_spec() == Phase::Spawning,
            r.step_direction_spec() == game.heading(),
    {
        let step_direction = game.snake().get_direction();
        Session { game, phase: Phase::Spawning, step_direction }
    }

    pub fn game(&self) -> (r: &Game)
        ensures
            *r == self.game_spec(),
    {
        &self.game
    }

    pub fn phase(&self) -> (r: Phase)
        ensures
            r == self.phase_spec(),
    {
        self.phase
    }

    /// The time budget of the current step, in milliseconds.
    pub fn interval(&self) -> (r: u64)
        requires
            self.wf(),
        ensures
            r == interval_ms(self.game_spec().speed_spec()),
    {
        self.game.calculate_interval()
    }

    /// Decides on one event.
    /// - Spawning, on `Started`: the food is placed and the session runs;
    ///   the caller renders the first frame.
    /// - Running, on `Quit`: the game is over at once, with nothing moved.
    /// - Running, on a turn: the turn is taken or refused by the turning
    ///   rule, against the heading the step started with; polling goes on.
    /// - Running, when the interval ran out: one step; a collision ends the
    ///   game, otherwise the caller renders and a new step begins.
    /// - Any other event changes nothing.
    pub fn on_event(&mut self, event: Event) -> (action: Action)
        requires
            old(self).wf(),
        ensures
            final(self).wf(),
            match (old(self).phase_spec(), event) {
                (Phase::Spawning, Event::Started) => {
                    &&& action == Action::Render
                    &&& final(self).phase_spec() == Phase::Running
                    &&& final(self).game_spec().food_spec() is None <==> final(self).game_spec().board_full()
                    &&& final(self).game_spec().cells() == old(self).game_spec().cells()
                    &&& final(self).game_spec().score_spec() == old(self).game_spec().score_spec()
                    &&& final(self).step_direction_spec() == old(self).game_spec().heading()
                },
                (Phase::Running, Event::Input(Command::Quit)) => {
                    &&& action == Action::ReportScore(old(self).game_spec().score_spec() as u16)
                    &&& final(self).phase_spec() == Phase::GameOver
                    &&& final(self).game_spec().state() == old(self).game_spec().state()
                },
                (Phase::Running, Event::Input(Command::Turn(towards))) => {
                    let taken = turn_accepted(old(self).step_direction_spec(), towards);
                    &&& action == Action::KeepPolling
                    &&& final(self).phase_spec() == Phase::Running
                    &&& final(self).step_direction_spec() == old(self).step_direction_spec()
                    &&& final(self).game_spec().heading() == (if taken { towards } else { old(self).game_spec().heading() })
                    &&& final(self).game_spec().cells() == old(self).game_spec().cells()
                    &&& final(self).game_spec().food_spec() == old(self).game_spec().food_spec()
                    &&& final(self).game_spec().score_spec() == old(self).game_spec().score_spec()
                    &&& final(self).game_spec().speed_spec() == old(self).game_spec().speed_spec()
                },
                (Phase::Running, Event::IntervalElapsed) => {
                    if old(self).game_spec().collision_ahead() {
                        &&& action == Action::ReportScore(old(self).game_spec().score_spec() as u16)
                        &&& final(self).phase_spec() == Phase::GameOver
                        &&& final(self).game_spec().state() == old(self).game_spec().state()
                    } else {
                        &&& action == Action::Render
                        &&& final(self).phase_spec() == Phase::Running
                        &&& final(self).game_spec().cells() == advanced_body(
                            old(self).game_spec().cells(),
                            old(self).game_spec().cells()[0].moved(old(self).game_spec().heading(), 1),
                            old(self).game_spec().digesting(),
                        )
                        &&& final(self).step_direction_spec() == final(self).game_spec().heading()
                    }
                },
                _ => {
                    &&& action == Action::Ignore
                    &&& final(self).phase_spec() == old(self).phase_spec()
                    &&& final(self).game_spec().state() == old(self).game_spec().state()
                    &&& final(self).step_direction_spec() == old(self).step_direction_spec()
                },
            },
    {
        match (self.phase, event) {
            (Phase::Spawning, Event::Started) => {
                self.game.place_food();
                self.step_direction = self.game.snake().get_direction();
                self.phase = Phase::Running;
                Action::Render
            },
            (Phase::Running, Event::Input(command)) => {
                if self.game.handle_command(self.step_direction, command) {
                    self.phase = Phase::GameOver;
                    Action::ReportScore(self.game.score())
                } else {
                    Action::KeepPolling
                }
            },
            (Phase::Running, Event::IntervalElapsed) => {
                match self.game.advance() {
                    StepOutcome::Collided => {
                        self.phase = Phase::GameOver;
                        Action::ReportScore(self.game.score())
                    },
                    _ => {
                        self.step_direction = self.game.snake().get_direction();
                        Action::Render
                    },
                }
            },
            _ => Action::Ignore,
        }
    }
}

} // verus!
