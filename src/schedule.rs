//! The order of the work in a run: one evaluation of the forces, then for
//! each time step a move of the positions, a new evaluation of the forces at
//! the new positions, and an update of the velocities from the old and new
//! forces.

use vstd::prelude::*;

verus! {

/// One piece of work on the whole particle set.
#[derive(Clone, Copy, Debug, PartialEq, Eq, Structural)]
pub enum Action {
    CalculateForces,
    UpdatePositions,
    UpdateVelocities,
    /// The run is over: nothing is left to do.
    Finish,
}

/// Which action of a time step comes next.
#[derive(Clone, Copy, Debug, PartialEq, Eq, Structural)]
pub enum Phase {
    Positions,
    Forces,
    Velocities,
}

/// How far a run has come.
#[derive(Clone, Copy, Debug, PartialEq, Eq, Structural)]
pub enum Stage {
    /// Not even the first evaluation of the forces has been handed out.
    Initialized,
    /// Time step `step` (from 0) is under way.
    Running { step: u32, phase: Phase },
    /// Every action of the run has been handed out.
    Completed,
}

/// The actions of one time step, from the `k`-th on.
pub open spec fn step_action(k: int) -> Action {
    if k % 3 == 0 {
        Action::UpdatePositions
    } else if k % 3 == 1 {
        Action::CalculateForces
    } else {
        Action::UpdateVelocities
    }
}

/// Every action of a run of `n` time steps, in order.
pub open spec fn schedule(n: nat) -> Seq<Action> {
    seq![Action::CalculateForces] + Seq::new(3 * n, |k: int| step_action(k))
}

/// How many actions of its time step come before `p`.
pub open spec fn phase_index(p: Phase) -> nat {
    match p {
        Phase::Positions => 0,
        Phase::Forces => 1,
        Phase::Velocities => 2,
    }
}

/// Hands out the actions of a run of `n_steps` time steps, one at a time.
pub struct Schedule {
    pub n_steps: u32,
    pub stage: Stage,
}

impl Schedule {
    /// A running step lies within the run.
    pub open spec fn wf(self) -> bool {
        match self.stage {
            Stage::Running { step, .. } => step < self.n_steps,
            _ => true,
        }
    }

    /// How many actions of `schedule(self.n_steps)` have been handed out.
    pub open spec fn done(self) -> nat {
        match self.stage {
            Stage::Initialized => 0,
            Stage::Running { step, phase } => (1 + 3 * step + phase_index(phase)) as nat,
            Stage::Completed => (1 + 3 * self.n_steps) as nat,
        }
    }

    /// A run of `n_steps` time steps that has not begun.
    pub fn new(n_steps: u32) -> (r: Schedule)
        ensures
            r.wf(),
            r.n_steps == n_steps,
            r.done() == 0,
    {
        Schedule { n_steps, stage: Stage::Initialized }
    }

    /// The next action of the run, or `Finish` once all have been handed out.
    pub fn next_action(&mut self) -> (a: Action)
        requires
            old(self).wf(),
        ensures
            final(self).wf(),
            final(self).n_steps == old(self).n_steps,
            old(self).done() < schedule(old(self).n_steps as nat).len() ==> {
                &&& a == schedule(old(self).n_steps as nat)[old(self).done() as int]
                &&& final(self).done() == old(self).done() + 1
            },
            old(self).done() >= schedule(old(self).n_steps as nat).len() ==> {
                &&& a == Action::Finish
                &&& final(self).done() == old(self).done()
            },
    {
        let ghost d = self.done() as int;
        let ghost s = schedule(self.n_steps as nat);
        assert(0 < d < s.len() ==> s[d] == step_action(d - 1));
        match self.stage {
            Stage::Initialized => {
                self.stage = if self.n_steps == 0 {
                    Stage::Completed
                } else {
                    Stage::Running { step: 0, phase: Phase::Positions }
                };
                Action::CalculateForces
            },
            Stage::Running { step, phase: Phase::Positions } => {
                assert((d - 1) % 3 == 0) by (nonlinear_arith)
                    requires d - 1 == 3 * step;
                self.stage = Stage::Running { step, phase: Phase::Forces };
                Action::UpdatePositions
            },
            Stage::Running { step, phase: Phase::Forces } => {
                assert((d - 1) % 3 == 1) by (nonlinear_arith)
                    requires d - 1 == 3 * step + 1;
                self.stage = Stage::Running { step, phase: Phase::Velocities };
                Action::CalculateForces
            },
            Stage::Running { step, phase: Phase::Velocities } => {
                assert((d - 1) % 3 == 2) by (nonlinear_arith)
                    requires d - 1 == 3 * step + 2;
                self.stage = if step + 1 == self.n_steps {
                    Stage::Completed
                } else {
                    Stage::Running { step: step + 1, phase: Phase::Positions }
                };
                Action::UpdateVelocities
            },
            Stage::Completed => Action::Finish,
        }
    }

    /// Whether every action of the run has been handed out.
    pub fn is_completed(&self) -> (r: bool)
        requires
            self.wf(),
        ensures
            r == (self.done() == schedule(self.n_steps as nat).len()),
    {
        match self.stage {
            Stage::Completed => true,
            _ => false,
        }
    }
}

/// A run of `n` steps has `3 * n + 1` actions. It opens with an evaluation
/// of the forces, and time step `s` moves the particles, evaluates the forces
/// at the new positions, then updates the velocities. So every move and every
/// velocity update comes right after an evaluation of the forces.
pub proof fn lemma_schedule_shape(n: nat, s: int)
    requires
        0 <= s < n,
    ensures
        schedule(n).len() == 3 * n + 1,
        schedule(n)[0] == Action::CalculateForces,
        schedule(n)[3 * s + 1] == Action::UpdatePositions,
        schedule(n)[3 * s + 2] == Action::CalculateForces,
        schedule(n)[3 * s + 3] == Action::UpdateVelocities,
        schedule(n)[3 * s] == Action::CalculateForces || schedule(n)[3 * s] == Action::UpdateVelocities,
{
    assert((3 * s) % 3 == 0 && (3 * s + 1) % 3 == 1 && (3 * s + 2) % 3 == 2) by (nonlinear_arith);
    if s > 0 {
        assert((3 * s - 1) % 3 == 2) by (nonlinear_arith)
            requires s > 0;
    }
}

/// With no time steps, a run only evaluates the forces once.
pub proof fn lemma_zero_steps()
    ensures
        schedule(0) == seq![Action::CalculateForces],
{
    assert(schedule(0) =~= seq![Action::CalculateForces]);
}

} // verus!
