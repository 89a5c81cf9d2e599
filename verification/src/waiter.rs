//! The waiter: directives are waited for one after the other, each until it holds.
//!
//! The waiter itself never sleeps and never touches the system. It says which probe is due,
//! takes the observation that the caller made, and answers with what to say and how long to
//! pause before the next attempt.

use crate::args::RetryPolicy;
use crate::args::StepModel;
use crate::args::WaitStep;
use crate::directive::holds;
use crate::directive::probe_of;
use crate::directive::success_text;
use crate::directive::waiting_text;
use crate::directive::Observation;
use crate::directive::ObservationModel;
use crate::directive::Probe;
use vstd::prelude::*;

verus! {

/// The waiter's answer to an observation.
#[derive(Debug, Clone, PartialEq, Eq)]
pub enum WaitOutcome {
    /// The directive holds. Say the message; the next directive, if any, is due.
    Satisfied(String),
    /// The directive does not hold yet. Say the message, pause for the policy's time, and
    /// try the same directive again.
    Waiting(String, RetryPolicy),
    /// No directive was due: every directive has been satisfied already.
    Idle,
}

/// An answer as a mathematical value.
pub enum OutcomeModel {
    Satisfied(Seq<char>),
    Waiting(Seq<char>, RetryPolicy),
    Idle,
}

impl View for WaitOutcome {
    type V = OutcomeModel;

    open spec fn view(&self) -> OutcomeModel {
        match self {
            WaitOutcome::Satisfied(message) => OutcomeModel::Satisfied(message@),
            WaitOutcome::Waiting(message, retry) => OutcomeModel::Waiting(message@, *retry),
            WaitOutcome::Idle => OutcomeModel::Idle,
        }
    }
}

/// The position after `observation` was made at `position`: one further where the directive
/// at `position` holds by it, unchanged otherwise.
pub open spec fn advanced(
    steps: Seq<StepModel>,
    position: nat,
    observation: ObservationModel,
) -> nat {
    if position < steps.len() && holds(steps[position as int].directive, observation) {
        position + 1
    } else {
        position
    }
}

/// The answer to `observation` made at `position`.
pub open spec fn answer(
    steps: Seq<StepModel>,
    position: nat,
    observation: ObservationModel,
) -> OutcomeModel {
    if position >= steps.len() {
        OutcomeModel::Idle
    } else if holds(steps[position as int].directive, observation) {
        OutcomeModel::Satisfied(success_text(steps[position as int].directive))
    } else {
        OutcomeModel::Waiting(
            waiting_text(steps[position as int].directive),
            steps[position as int].retry,
        )
    }
}

/// The position reached from `start` by a run of observations, each made for the directive
/// that was due when it was made.
pub open spec fn position_from(
    steps: Seq<StepModel>,
    start: nat,
    observations: Seq<ObservationModel>,
) -> nat
    decreases observations.len(),
{
    if observations.len() == 0 {
        start
    } else {
        advanced(
            steps,
            position_from(steps, start, observations.drop_last()),
            observations.last(),
        )
    }
}

/// Sequential gating: a directive is only reached through its predecessor. Whenever a run of
/// observations has led from `start` past directive `k`, one observation of that run was
/// made while `k` was due and showed that `k` holds. So no directive is attempted before the
/// one in front of it has been seen to hold at least once.
pub proof fn lemma_sequential_gating(
    steps: Seq<StepModel>,
    start: nat,
    observations: Seq<ObservationModel>,
    k: nat,
)
    requires
        start <= k < position_from(steps, start, observations),
    ensures
        k < steps.len(),
        exists|i: int|
            0 <= i < observations.len() && position_from(
                steps,
                start,
                #[trigger] observations.take(i),
            ) == k && holds(steps[k as int].directive, observations[i]),
    decreases observations.len(),
{
    let front = observations.drop_last();
    let last = observations.len() - 1;
    if position_from(steps, start, front) > k {
        lemma_sequential_gating(steps, start, front, k);
        let i = choose|i: int|
            0 <= i < front.len() && position_from(steps, start, #[trigger] front.take(i)) == k
                && holds(steps[k as int].directive, front[i]);
        assert(observations.take(i) =~= front.take(i));
    } else {
        assert(observations.take(last) =~= front);
    }
}

/// Waiting has no end of its own: as long as no observation shows that the directive that
/// is due holds, that directive stays due, however many attempts are made.
pub proof fn lemma_waits_until_it_holds(
    steps: Seq<StepModel>,
    start: nat,
    observations: Seq<ObservationModel>,
)
    requires
        start < steps.len(),
        forall|i: int|
            0 <= i < observations.len() ==> !holds(
                steps[start as int].directive,
                #[trigger] observations[i],
            ),
    ensures
        position_from(steps, start, observations) == start,
    decreases observations.len(),
{
    if observations.len() > 0 {
        let front = observations.drop_last();
        assert forall|i: int| 0 <= i < front.len() implies !holds(
            steps[start as int].directive,
            #[trigger] front[i],
        ) by {
            assert(front[i] == observations[i]);
        }
        lemma_waits_until_it_holds(steps, start, front);
    }
}

/// A run never goes back, gains at most one directive with each observation, and never goes
/// past the last directive.
pub proof fn lemma_position_bounds(
    steps: Seq<StepModel>,
    start: nat,
    observations: Seq<ObservationModel>,
    shorter: int,
)
    requires
        start <= steps.len(),
        0 <= shorter <= observations.len(),
    ensures
        start <= position_from(steps, start, observations.take(shorter)) <= position_from(
            steps,
            start,
            observations,
        ),
        position_from(steps, start, observations) <= steps.len(),
        position_from(steps, start, observations) <= start + observations.len(),
    decreases observations.len(),
{
    if observations.len() == 0 {
        assert(observations.take(shorter) =~= observations);
    } else if shorter == observations.len() {
        assert(observations.take(shorter) =~= observations);
        lemma_position_bounds(steps, start, observations.drop_last(), 0);
    } else {
        assert(observations.drop_last().take(shorter) =~= observations.take(shorter));
        lemma_position_bounds(steps, start, observations.drop_last(), shorter);
    }
}

/// The state of one wait: the steps, and which of them is due.
#[derive(Debug)]
pub struct Waiter {
    steps: Vec<WaitStep>,
    position: usize,
}

impl Waiter {
    #[verifier::type_invariant]
    spec fn well_formed(self) -> bool {
        self.position <= self.steps.len()
    }

    /// The steps of this wait, in order.
    pub closed spec fn steps(&self) -> Seq<StepModel> {
        self.steps.deep_view()
    }

    /// How many steps have been satisfied; also the index of the step that is due.
    pub closed spec fn position(&self) -> nat {
        self.position as nat
    }

    /// A wait for `steps`, with the first of them due.
    pub fn new(steps: Vec<WaitStep>) -> (r: Waiter)
        ensures
            r.steps() == steps.deep_view(),
            r.position() == 0,
    {
        Waiter { steps, position: 0 }
    }

    /// Whether every step has been satisfied.
    pub fn finished(&self) -> (r: bool)
        ensures
            r == (self.position() >= self.steps().len()),
    {
        self.position >= self.steps.len()
    }

    /// How many steps have been satisfied.
    pub fn satisfied_count(&self) -> (r: usize)
        ensures
            r == self.position(),
            r <= self.steps().len(),
    {
        proof {
            use_type_invariant(self);
        }
        self.position
    }

    /// The probe that is due: that of the first step that has not been satisfied. `None`
    /// once every step has been.
    pub fn due(&self) -> (r: Option<Probe>)
        ensures
            match r {
                Some(probe) => self.position() < self.steps().len() && probe@ == probe_of(
                    self.steps()[self.position() as int].directive,
                ),
                None => self.position() >= self.steps().len(),
            },
    {
        if self.position < self.steps.len() {
            Some(self.steps[self.position].directive.probe())
        } else {
            None
        }
    }

    /// Takes the observation made for the probe that was due. Where it shows that the
    /// directive holds, the next step becomes due; otherwise the same step stays due.
    pub fn observe(&mut self, observation: &Observation) -> (r: WaitOutcome)
        ensures
            final(self).steps() == old(self).steps(),
            final(self).position() == advanced(
                old(self).steps(),
                old(self).position(),
                observation@,
            ),
            r@ == answer(old(self).steps(), old(self).position(), observation@),
    {
        proof {
            use_type_invariant(&*self);
        }
        if self.position >= self.steps.len() {
            return WaitOutcome::Idle;
        }
        let step = &self.steps[self.position];
        if step.directive.satisfied_by(observation) {
            let message = step.directive.success_message();
            self.position = self.position + 1;
            WaitOutcome::Satisfied(message)
        } else {
            WaitOutcome::Waiting(step.directive.waiting_message(), step.retry)
        }
    }
}

} // verus!
