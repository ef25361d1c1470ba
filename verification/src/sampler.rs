//! The decision kernel of the repeat-until-accept HMC sampler.  One kernel
//! produces one posterior draw: it asks the driver for a fresh momentum,
//! for `n_steps` leapfrog steps, and for a Metropolis decision over the
//! endpoints, and it decides what happens next.  On rejection it restarts
//! from the starting position with a fresh momentum; a proposal that turns
//! non-finite is treated as rejected, and a run of consecutive non-finite
//! proposals is surfaced as a diagnostic rather than swallowed.  All
//! floating-point work (the gradient, the leapfrog updates, the acceptance
//! probability and the uniform draw) is done by the driver, which hands
//! the results back as events.
use vstd::prelude::*;

verus! {

/// Where a draw stands.  `Idle` is between proposals (a fresh momentum is
/// wanted, at the start and after every rejection); `Integrating` is a
/// proposal in flight; `DecisionWanted` awaits the Metropolis decision on
/// the endpoints; `Accepted` is terminal for this draw.
#[derive(Clone, Copy, PartialEq, Eq, Structural, Debug)]
pub enum KernelState {
    Idle,
    Integrating { steps_done: usize },
    DecisionWanted,
    Accepted,
}

/// What the driver hands back to the kernel.
pub enum KernelEvent<T> {
    /// A fresh momentum drawn from the momentum source.
    MomentumDrawn { momentum: Vec<T> },
    /// The position and momentum after one leapfrog step from the kernel's
    /// current pair.
    StepComputed { position: Vec<T>, momentum: Vec<T> },
    /// The energy or its gradient turned non-finite during the step.
    StepDiverged,
    /// The Metropolis decision: the uniform draw fell below the acceptance
    /// probability of the endpoints, or not.
    Decision { accepted: bool },
}

/// What the kernel asks the driver to do next.
#[derive(Clone, Copy, PartialEq, Eq, Structural, Debug)]
pub enum KernelAction {
    /// Draw a fresh momentum of the kernel's dimension.
    DrawMomentum,
    /// Advance (position, momentum) by one leapfrog step.
    ComputeStep,
    /// Evaluate the acceptance probability of (position, momentum) against
    /// (start_position, start_momentum) and draw the uniform variate.
    Evaluate,
    /// The draw is done: position is the accepted sample.
    AcceptSample,
    /// The run of consecutive non-finite proposals reached the threshold:
    /// surface the count as a diagnostic, then continue as after a
    /// rejection.
    ReportDivergence,
}

/// The ghost value of a kernel: its vectors as sequences.
pub struct KernelView<T> {
    pub start_position: Seq<T>,
    pub start_momentum: Seq<T>,
    pub position: Seq<T>,
    pub momentum: Seq<T>,
    pub state: KernelState,
    pub n_steps: int,
    pub divergence_threshold: int,
    pub consecutive_divergences: int,
}

/// The ghost value of an event.
pub enum EventView<T> {
    MomentumDrawn(Seq<T>),
    StepComputed(Seq<T>, Seq<T>),
    StepDiverged,
    Decision(bool),
}

/// The kernel's transition function: from a kernel value and an event to
/// the next kernel value and the action the driver performs next.  The
/// executable `step` returns exactly this, so the kernel's behaviour is a
/// pure function of its state and the event: it adds no randomness of its
/// own.
pub open spec fn kernel_step<T>(v: KernelView<T>, e: EventView<T>) -> (KernelView<T>, KernelAction) {
    match e {
        EventView::MomentumDrawn(p) => (
            KernelView {
                position: v.start_position,
                momentum: p,
                start_momentum: p,
                state: KernelState::Integrating { steps_done: 0 },
                ..v
            },
            KernelAction::ComputeStep,
        ),
        EventView::StepComputed(q, p) => {
            let done = v.state->steps_done + 1;
            if done < v.n_steps {
                (
                    KernelView {
                        position: q,
                        momentum: p,
                        state: KernelState::Integrating { steps_done: done as usize },
                        ..v
                    },
                    KernelAction::ComputeStep,
                )
            } else {
                (
                    KernelView { position: q, momentum: p, state: KernelState::DecisionWanted, ..v },
                    KernelAction::Evaluate,
                )
            }
        },
        EventView::StepDiverged => {
            let c = if v.consecutive_divergences < usize::MAX {
                v.consecutive_divergences + 1
            } else {
                v.consecutive_divergences
            };
            (
                KernelView { state: KernelState::Idle, consecutive_divergences: c, ..v },
                if c >= v.divergence_threshold {
                    KernelAction::ReportDivergence
                } else {
                    KernelAction::DrawMomentum
                },
            )
        },
        EventView::Decision(accepted) => {
            if accepted {
                (
                    KernelView { state: KernelState::Accepted, consecutive_divergences: 0, ..v },
                    KernelAction::AcceptSample,
                )
            } else {
                (
                    KernelView { state: KernelState::Idle, consecutive_divergences: 0, ..v },
                    KernelAction::DrawMomentum,
                )
            }
        },
    }
}

/// The kernel for one posterior draw.
pub struct HmcKernel<T> {
    /// theta_0: the position every proposal of this draw integrates from.
    pub start_position: Vec<T>,
    /// p_0 of the proposal in flight.
    pub start_momentum: Vec<T>,
    /// The current position; once `Accepted`, the sample.
    pub position: Vec<T>,
    /// The current momentum.
    pub momentum: Vec<T>,
    /// Where the draw stands.
    pub state: KernelState,
    /// L: leapfrog steps per proposal.
    pub n_steps: usize,
    /// How many consecutive non-finite proposals are surfaced as a
    /// diagnostic.
    pub divergence_threshold: usize,
    /// The current run of consecutive non-finite proposals.
    pub consecutive_divergences: usize,
}

impl<T> HmcKernel<T> {
    /// The ghost value of this kernel.
    pub open spec fn view_spec(self) -> KernelView<T> {
        KernelView {
            start_position: self.start_position@,
            start_momentum: self.start_momentum@,
            position: self.position@,
            momentum: self.momentum@,
            state: self.state,
            n_steps: self.n_steps as int,
            divergence_threshold: self.divergence_threshold as int,
            consecutive_divergences: self.consecutive_divergences as int,
        }
    }

    /// D: the dimension the kernel integrates over.
    pub open spec fn dim(self) -> int {
        self.start_position@.len() as int
    }

    /// Well-formed: at least one leapfrog step per proposal, all vectors of
    /// the kernel's dimension, and a proposal in flight has taken fewer
    /// than `n_steps` steps.
    pub open spec fn wf(self) -> bool {
        &&& self.n_steps >= 1
        &&& self.position@.len() == self.dim()
        &&& self.momentum@.len() == self.dim()
        &&& self.start_momentum@.len() == self.dim()
        &&& (self.state matches KernelState::Integrating { steps_done } ==> steps_done
            < self.n_steps)
    }

    /// Which events the kernel takes in its current state.
    pub open spec fn event_enabled(self, e: KernelEvent<T>) -> bool {
        match e {
            KernelEvent::MomentumDrawn { momentum } => self.state is Idle && momentum@.len()
                == self.dim(),
            KernelEvent::StepComputed { position, momentum } => self.state is Integrating
                && position@.len() == self.dim() && momentum@.len() == self.dim(),
            KernelEvent::StepDiverged => self.state is Integrating,
            KernelEvent::Decision { .. } => self.state is DecisionWanted,
        }
    }
}

/// Copy a vector of scalars.
fn copy_vec<T: Copy>(v: &Vec<T>) -> (r: Vec<T>)
    ensures
        r@ == v@,
{
    let mut r: Vec<T> = Vec::new();
    let mut i: usize = 0;
    while i < v.len()
        invariant
            i <= v@.len(),
            r@.len() == i,
            forall|k: int| 0 <= k < i ==> r@[k] == v@[k],
        decreases v@.len() - i,
    {
        r.push(v[i]);
        i += 1;
    }
    proof {
        assert(r@ =~= v@);
    }
    r
}

impl<T: Copy> HmcKernel<T> {
    /// Begin one draw from `start`: L = `n_steps` leapfrog steps per
    /// proposal, and a diagnostic after `divergence_threshold` consecutive
    /// non-finite proposals.  The first action is to draw a momentum.
    pub fn new(start: Vec<T>, n_steps: usize, divergence_threshold: usize) -> (k: HmcKernel<T>)
        requires
            n_steps >= 1,
        ensures
            k.wf(),
            k.start_position@ == start@,
            k.position@ == start@,
            k.state == KernelState::Idle,
            k.n_steps == n_steps,
            k.divergence_threshold == divergence_threshold,
            k.consecutive_divergences == 0,
    {
        let position = copy_vec(&start);
        let momentum = copy_vec(&start);
        let start_momentum = copy_vec(&start);
        HmcKernel {
            start_position: start,
            start_momentum,
            position,
            momentum,
            state: KernelState::Idle,
            n_steps,
            divergence_threshold,
            consecutive_divergences: 0,
        }
    }

    /// Feed the kernel one event; it moves and says what to do next.  The
    /// result is exactly `kernel_step` of the old kernel and the event.  In
    /// particular: a fresh momentum always starts integrating from
    /// `start_position` (a rejected proposal restarts from theta_0, not
    /// from where it ended), `Evaluate` is requested exactly after the
    /// `n_steps`-th leapfrog step of a proposal, an accepted decision makes
    /// `position` the sample, and a non-finite proposal is treated as
    /// rejected while the run of such proposals is counted.
    pub fn step(&mut self, event: KernelEvent<T>) -> (action: KernelAction)
        requires
            old(self).wf(),
            old(self).event_enabled(event),
        ensures
            final(self).wf(),
            (final(self).view_spec(), action) == kernel_step(
                old(self).view_spec(),
                event_view(event),
            ),
            final(self).start_position@ == old(self).start_position@,
            final(self).n_steps == old(self).n_steps,
            final(self).divergence_threshold == old(self).divergence_threshold,
            final(self).dim() == old(self).dim(),
    {
        match event {
            KernelEvent::MomentumDrawn { momentum } => {
                self.position = copy_vec(&self.start_position);
                self.start_momentum = copy_vec(&momentum);
                self.momentum = momentum;
                self.state = KernelState::Integrating { steps_done: 0 };
                KernelAction::ComputeStep
            },
            KernelEvent::StepComputed { position, momentum } => {
                let steps_done = match self.state {
                    KernelState::Integrating { steps_done } => steps_done,
                    _ => 0,
                };
                self.position = position;
                self.momentum = momentum;
                if steps_done + 1 < self.n_steps {
                    self.state = KernelState::Integrating { steps_done: steps_done + 1 };
                    KernelAction::ComputeStep
                } else {
                    self.state = KernelState::DecisionWanted;
                    KernelAction::Evaluate
                }
            },
            KernelEvent::StepDiverged => {
                if self.consecutive_divergences < usize::MAX {
                    self.consecutive_divergences = self.consecutive_divergences + 1;
                }
                self.state = KernelState::Idle;
                if self.consecutive_divergences >= self.divergence_threshold {
                    KernelAction::ReportDivergence
                } else {
                    KernelAction::DrawMomentum
                }
            },
            KernelEvent::Decision { accepted } => {
                self.consecutive_divergences = 0;
                if accepted {
                    self.state = KernelState::Accepted;
                    KernelAction::AcceptSample
                } else {
                    self.state = KernelState::Idle;
                    KernelAction::DrawMomentum
                }
            },
        }
    }

    /// The current position; once the draw is `Accepted`, the sample to
    /// write back.
    pub fn position(&self) -> (r: &Vec<T>)
        ensures
            r@ == self.position@,
    {
        &self.position
    }

    /// The current momentum.
    pub fn momentum(&self) -> (r: &Vec<T>)
        ensures
            r@ == self.momentum@,
    {
        &self.momentum
    }

    /// theta_0: the position this draw started from.
    pub fn start_position(&self) -> (r: &Vec<T>)
        ensures
            r@ == self.start_position@,
    {
        &self.start_position
    }

    /// p_0 of the proposal in flight.
    pub fn start_momentum(&self) -> (r: &Vec<T>)
        ensures
            r@ == self.start_momentum@,
    {
        &self.start_momentum
    }

    /// Where the draw stands.
    pub fn state(&self) -> (s: KernelState)
        ensures
            s == self.state,
    {
        self.state
    }

    /// The current run of consecutive non-finite proposals, the diagnostic
    /// behind `ReportDivergence`.
    pub fn divergence_count(&self) -> (c: usize)
        ensures
            c == self.consecutive_divergences,
    {
        self.consecutive_divergences
    }
}

/// The ghost value of an event.
pub open spec fn event_view<T>(e: KernelEvent<T>) -> EventView<T> {
    match e {
        KernelEvent::MomentumDrawn { momentum } => EventView::MomentumDrawn(momentum@),
        KernelEvent::StepComputed { position, momentum } => EventView::StepComputed(
            position@,
            momentum@,
        ),
        KernelEvent::StepDiverged => EventView::StepDiverged,
        KernelEvent::Decision { accepted } => EventView::Decision(accepted),
    }
}

/// Determinism of the core: the kernel's transition is a pure function, so
/// two kernels in equal states react to equal events with equal successor
/// states and equal actions.  Identical seeds make the driver hand both
/// kernels identical events, so identical draws follow.
pub proof fn lemma_kernel_deterministic<T>(
    v1: KernelView<T>,
    v2: KernelView<T>,
    e1: EventView<T>,
    e2: EventView<T>,
)
    requires
        v1 == v2,
        e1 == e2,
    ensures
        kernel_step(v1, e1) == kernel_step(v2, e2),
{
}

/// Restart law of the repeat-until-accept policy: however a proposal ended,
/// the next momentum starts integrating from theta_0 again, and theta_0
/// itself is never changed by any transition.
pub proof fn lemma_restart_from_start<T>(v: KernelView<T>, e: EventView<T>)
    ensures
        kernel_step(v, e).0.start_position == v.start_position,
        e is MomentumDrawn ==> kernel_step(v, e).0.position == v.start_position,
        e is MomentumDrawn ==> kernel_step(v, e).0.state == (KernelState::Integrating {
            steps_done: 0,
        }),
{
}

/// Trajectory-length law: the kernel asks for the Metropolis decision
/// exactly when the `n_steps`-th leapfrog step of the proposal has been
/// delivered, so every proposal integrates for exactly L steps.
pub proof fn lemma_exactly_l_steps<T>(v: KernelView<T>, e: EventView<T>)
    requires
        v.state matches KernelState::Integrating { steps_done } && steps_done < v.n_steps,
    ensures
        kernel_step(v, e).1 == KernelAction::Evaluate <==> (e is StepComputed
            && v.state->steps_done + 1 == v.n_steps),
{
}

/// Termination law: the draw reaches its terminal state only through an
/// accepting Metropolis decision, and the accepted sample is exactly the
/// position the proposal ended with.
pub proof fn lemma_accept_only_by_decision<T>(v: KernelView<T>, e: EventView<T>)
    ensures
        kernel_step(v, e).0.state is Accepted <==> (e matches EventView::Decision(a) && a),
        kernel_step(v, e).1 == KernelAction::AcceptSample ==> kernel_step(v, e).0.position
            == v.position,
{
}

/// Divergence law: a non-finite proposal is treated as rejected (the kernel
/// returns to `Idle` and theta_0 stands), the run of consecutive non-finite
/// proposals grows by one, and the diagnostic is requested exactly when the
/// run reaches the threshold; a proposal that reaches its decision finitely
/// resets the run.
pub proof fn lemma_divergence_surfaced<T>(v: KernelView<T>, e: EventView<T>)
    requires
        0 <= v.consecutive_divergences < usize::MAX,
    ensures
        e is StepDiverged ==> {
            &&& kernel_step(v, e).0.state is Idle
            &&& kernel_step(v, e).0.consecutive_divergences == v.consecutive_divergences + 1
            &&& (kernel_step(v, e).1 == KernelAction::ReportDivergence <==> v.consecutive_divergences
                + 1 >= v.divergence_threshold)
        },
        e is Decision ==> kernel_step(v, e).0.consecutive_divergences == 0,
{
}

} // verus!
