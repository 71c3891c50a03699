use vstd::prelude::*;

use crate::input::Input;
use crate::level::MAX_START_LEVEL;
use crate::running::{tick, Running};
use crate::field::fits;
use crate::state::{fresh, GameState, StateModel};
use crate::tetromino::Kind;

verus! {

/// The game is over; its last state is kept for display.
#[derive(Debug, Hash)]
pub struct Finished {
    pub state: GameState,
}

/// The start screen, waiting for a starting level.
#[derive(PartialEq, Eq, Structural, Clone, Copy, Debug, Hash)]
pub struct Menu {}

/// The top-level mode of the game.
#[derive(Debug, Hash)]
pub enum Phase {
    Menu(Menu),
    Running(Box<Running>),
    Finished(Box<Finished>),
}

/// A phase as plain values.
pub enum PhaseModel {
    Menu,
    Running(StateModel),
    Finished(StateModel),
}

/// The first starting level chosen among the commands, in arrival order.
pub open spec fn menu_choice(inputs: Seq<Input>) -> Option<u32>
    decreases inputs.len(),
{
    if inputs.len() == 0 {
        None
    } else {
        match inputs[0] {
            Input::Number(n) => if n <= MAX_START_LEVEL {
                Some(n)
            } else {
                menu_choice(inputs.drop_first())
            },
            _ => menu_choice(inputs.drop_first()),
        }
    }
}

/// The phase after one tick in which no command ended the run. `first` and `second`
/// are the shapes drawn for pieces this tick may spawn.
pub open spec fn phase_after(p: PhaseModel, inputs: Seq<Input>, first: Kind, second: Kind) -> PhaseModel {
    match p {
        PhaseModel::Menu => match menu_choice(inputs) {
            Some(level) => PhaseModel::Running(fresh(level, first, second)),
            None => PhaseModel::Menu,
        },
        PhaseModel::Running(m) => if fits(m.field, m.current) {
            PhaseModel::Running(tick(m, inputs, first))
        } else {
            PhaseModel::Finished(m)
        },
        PhaseModel::Finished(m) => PhaseModel::Finished(m),
    }
}

impl Menu {
    /// Starts a game at the first level chosen among the commands, with pieces of
    /// shapes `current` and `next`.
    pub fn handle(&self, inputs: &[Input], current: Kind, next: Kind) -> (r: Option<Box<Running>>)
        ensures
            r is Some <==> menu_choice(inputs@) is Some,
            r matches Some(run) ==> run.state.wf() && run.state.model() == fresh(
                menu_choice(inputs@)->0,
                current,
                next,
            ),
    {
        let mut i: usize = 0;
        assert(inputs@.subrange(0, inputs@.len() as int) =~= inputs@);
        while i < inputs.len()
            invariant
                i <= inputs@.len(),
                menu_choice(inputs@) == menu_choice(inputs@.subrange(i as int, inputs@.len() as int)),
            decreases inputs@.len() - i,
        {
            assert(inputs@.subrange(i as int, inputs@.len() as int).drop_first() =~= inputs@.subrange(
                i + 1,
                inputs@.len() as int,
            ));
            if let Input::Number(level) = inputs[i] {
                if level <= MAX_START_LEVEL {
                    return Some(Box::new(Running { state: GameState::new(level, current, next) }));
                }
            }
            i = i + 1;
        }
        None
    }
}

impl Finished {
    /// A finished game ignores every gameplay command: nothing changes.
    pub fn handle(&self) {
    }
}

impl Phase {
    pub open spec fn model(&self) -> PhaseModel {
        match self {
            Phase::Menu(_) => PhaseModel::Menu,
            Phase::Running(r) => PhaseModel::Running(r.state.model()),
            Phase::Finished(f) => PhaseModel::Finished(f.state.model()),
        }
    }

    pub open spec fn wf(&self) -> bool {
        match self {
            Phase::Menu(_) => true,
            Phase::Running(r) => r.state.wf(),
            Phase::Finished(f) => f.state.wf(),
        }
    }
}

impl Clone for Running {
    fn clone(&self) -> (r: Running)
        ensures
            r.state.model() == self.state.model(),
    {
        Running { state: self.state.clone() }
    }
}

impl Clone for Finished {
    fn clone(&self) -> (r: Finished)
        ensures
            r.state.model() == self.state.model(),
    {
        Finished { state: self.state.clone() }
    }
}

impl Clone for Phase {
    fn clone(&self) -> (r: Phase)
        ensures
            r.model() == self.model(),
    {
        match self {
            Phase::Menu(m) => Phase::Menu(*m),
            Phase::Running(r) => Phase::Running(Box::new(Running { state: r.state.clone() })),
            Phase::Finished(f) => Phase::Finished(Box::new(Finished { state: f.state.clone() })),
        }
    }
}

} // verus!
