//! The game-state machine: a flat set of modes and a single-writer record of
//! the current mode together with an optional requested transition.

use vstd::prelude::*;

verus! {

/// The four mutually exclusive modes of the simulation. There is no terminal
/// mode: every mode is reachable from every other by an external request.
#[derive(Clone, Copy, PartialEq, Eq, Structural, Debug)]
pub enum GameState {
    StartMenu,
    Game,
    Pause,
    GameOver,
}

/// The process-wide run state: the current mode and the most recently
/// requested one. Many systems read it; only the transition system commits a
/// change, once per tick, so the last request written before that system runs
/// is the one that wins.
#[derive(Clone, Copy, PartialEq, Eq, Structural, Debug)]
pub struct RunState {
    pub current: GameState,
    pub requested: Option<GameState>,
}

/// The run state after the transition system commits: an absent request, or a
/// request equal to the current mode, changes nothing; any other request
/// becomes the current mode and the request slot is cleared.
pub open spec fn commit_spec(r: RunState) -> RunState {
    match r.requested {
        Option::None => r,
        Option::Some(n) => if n == r.current {
            r
        } else {
            RunState { current: n, requested: Option::None }
        },
    }
}

/// The transition a commit performs, as an `(exited, entered)` pair, or
/// `None` when the commit is a no-op.
pub open spec fn committed_transition(r: RunState) -> Option<(GameState, GameState)> {
    match r.requested {
        Option::None => Option::None,
        Option::Some(n) => if n == r.current {
            Option::None
        } else {
            Option::Some((r.current, n))
        },
    }
}

impl RunState {
    /// A run state that starts in the given mode with no pending request.
    pub fn new(initial: GameState) -> (r: RunState)
        ensures
            r.current == initial,
            r.requested is None,
    {
        RunState { current: initial, requested: Option::None }
    }

    /// Ask for a transition. Overwrites any earlier request made this tick:
    /// the last write before the transition system runs wins.
    pub fn request(&mut self, target: GameState)
        ensures
            final(self).current == old(self).current,
            final(self).requested == Option::Some(target),
    {
        self.requested = Option::Some(target);
    }

    /// Commit the pending transition, if any, and report the `(exited,
    /// entered)` pair so that the entity lifecycle registry can react.
    pub fn commit(&mut self) -> (t: Option<(GameState, GameState)>)
        ensures
            *final(self) == commit_spec(*old(self)),
            t == committed_transition(*old(self)),
    {
        match self.requested {
            Option::None => Option::None,
            Option::Some(n) => {
                if n == self.current {
                    Option::None
                } else {
                    let exited = self.current;
                    self.current = n;
                    self.requested = Option::None;
                    Option::Some((exited, n))
                }
            },
        }
    }
}

} // verus!
