use vstd::prelude::*;

use std::sync::mpsc::Receiver;

use crate::input::{end_of, End, Input};
use crate::phase::{phase_after, Menu, Phase, PhaseModel};
use crate::tetromino::Kind;

verus! {

/// `std::sync::mpsc::Receiver`, held and passed along without looking inside.
#[verifier::external_type_specification]
#[verifier::external_body]
#[verifier::reject_recursive_types(T)]
pub struct ExReceiver<T>(std::sync::mpsc::Receiver<T>);

/// Relies on `Receiver::try_iter`: takes, without blocking, the commands queued so
/// far, in arrival order. Which ones have arrived depends on timing, so nothing is
/// promised of them.
#[verifier::external_body]
fn drain(inputs: &Receiver<Input>) -> (r: Vec<Input>) {
    inputs.try_iter().collect()
}

/// What a tick hands to the renderer: the phase after it, or the end of the run.
#[derive(Debug)]
pub enum TickResult {
    Phase(Phase),
    End(End),
}

/// The outcome of one tick: a command that ends the run wins; else the phase moves on.
pub open spec fn outcome(p: PhaseModel, inputs: Seq<Input>, first: Kind, second: Kind) -> (PhaseModel, Option<End>) {
    match end_of(inputs) {
        Some(e) => (p, Some(e)),
        None => (phase_after(p, inputs, first, second), None),
    }
}

/// The result matches the outcome: the end it names, or a copy of the new phase.
pub open spec fn result_matches(r: TickResult, o: (PhaseModel, Option<End>)) -> bool {
    match r {
        TickResult::End(e) => o.1 == Some(e),
        TickResult::Phase(p) => o.1 is None && p.model() == o.0 && p.wf(),
    }
}

/// The simulation: the phase and the queue of commands that drives it.
pub struct Logic {
    inputs: Receiver<Input>,
    phase: Phase,
}

impl View for Logic {
    type V = PhaseModel;

    closed spec fn view(&self) -> PhaseModel {
        self.phase.model()
    }
}

impl Logic {
    pub closed spec fn wf(&self) -> bool {
        self.phase.wf()
    }

    /// A simulation at the menu, fed by `inputs`.
    pub fn new(inputs: Receiver<Input>) -> (r: Logic)
        ensures
            r.wf(),
            r@ == PhaseModel::Menu,
    {
        Logic { inputs, phase: Phase::Menu(Menu {}) }
    }

    /// Runs one tick on the commands queued since the last one. `first` and `second` are
    /// the shapes drawn for pieces this tick may spawn.
    pub fn update(&mut self, first: Kind, second: Kind) -> (r: TickResult)
        requires
            old(self).wf(),
        ensures
            final(self).wf(),
            exists|inputs: Seq<Input>|
                {
                    let o = #[trigger] outcome(old(self)@, inputs, first, second);
                    &&& final(self)@ == o.0
                    &&& result_matches(r, o)
                },
    {
        let inputs = drain(&self.inputs);
        self.step(inputs.as_slice(), first, second)
    }

    /// Runs one tick on the given commands: a `Quit` or `Restart` among them ends the
    /// run, the first such one deciding which; else the phase moves on and a copy of it
    /// is returned.
    pub fn step(&mut self, inputs: &[Input], first: Kind, second: Kind) -> (r: TickResult)
        requires
            old(self).wf(),
        ensures
            final(self).wf(),
            final(self)@ == outcome(old(self)@, inputs@, first, second).0,
            result_matches(r, outcome(old(self)@, inputs@, first, second)),
    {
        if let Some(end) = self.check_for_end(inputs) {
            return TickResult::End(end);
        }
        let next = match &mut self.phase {
            Phase::Menu(menu) => match menu.handle(inputs, first, second) {
                Some(running) => Some(Phase::Running(running)),
                None => None,
            },
            Phase::Running(running) => match running.handle(inputs, first) {
                Some(finished) => Some(Phase::Finished(finished)),
                None => None,
            },
            Phase::Finished(finished) => {
                finished.handle();
                None
            },
        };
        if let Some(phase) = next {
            self.phase = phase;
        }
        TickResult::Phase(self.phase.clone())
    }

    /// The end asked for by the first command that asks for one.
    fn check_for_end(&self, inputs: &[Input]) -> (r: Option<End>)
        ensures
            r == end_of(inputs@),
    {
        let mut i: usize = 0;
        assert(inputs@.subrange(0, inputs@.len() as int) =~= inputs@);
        while i < inputs.len()
            invariant
                i <= inputs@.len(),
                end_of(inputs@) == end_of(inputs@.subrange(i as int, inputs@.len() as int)),
            decreases inputs@.len() - i,
        {
            assert(inputs@.subrange(i as int, inputs@.len() as int).drop_first() =~= inputs@.subrange(
                i + 1,
                inputs@.len() as int,
            ));
            let end = Option::<End>::from(inputs[i]);
            if end.is_some() {
                return end;
            }
            i = i + 1;
        }
        None
    }
}

} // verus!
