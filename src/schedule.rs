use vstd::arithmetic::div_mod::{lemma_fundamental_div_mod, lemma_fundamental_div_mod_converse};
use vstd::prelude::*;

verus! {

/// How many epochs lie between two progress reports: a tenth of the run,
/// and at least one.
pub open spec fn interval_spec(epochs: nat) -> nat {
    if epochs / 10 >= 1 {
        epochs / 10
    } else {
        1
    }
}

/// Whether the loop reports its average error after the epoch `epoch`
/// (counted from zero) of a run of `epochs` epochs.
pub open spec fn reports_after(epoch: nat, epochs: nat) -> bool {
    (epoch + 1) % interval_spec(epochs) == 0
}

/// The reporting interval of a run of `epochs` epochs: `max(epochs / 10, 1)`.
pub fn report_interval(epochs: usize) -> (r: usize)
    ensures
        r == interval_spec(epochs as nat),
        r >= 1,
{
    let tenth: usize = epochs / 10;
    if tenth >= 1 {
        tenth
    } else {
        1
    }
}

/// Whether the average error is reported once epoch `epoch` is finished.
pub fn should_report(epoch: usize, epochs: usize) -> (r: bool)
    requires
        epoch < usize::MAX,
    ensures
        r == reports_after(epoch as nat, epochs as nat),
{
    let interval = report_interval(epochs);
    (epoch + 1) % interval == 0
}


/// What the training loop does next.
#[derive(Debug, Clone, Copy, PartialEq, Eq, Structural)]
pub enum Action {
    /// Measure the error of the example at `index` with the parameters as
    /// they stand, add it to the epoch's total, and only then train on it.
    Step { index: usize },
    /// The epoch `epoch` is over; `report` says whether its average error is
    /// reported.
    EndEpoch { epoch: usize, report: bool },
    /// Every epoch is over: the parameters are to be persisted.
    Finish,
}

/// Where a training run stands: `epoch` epochs of `epochs` are over and
/// `next_example` examples of the current one have been stepped through.
pub ghost struct ScheduleView {
    pub epochs: nat,
    pub examples: nat,
    pub epoch: nat,
    pub next_example: nat,
}

impl ScheduleView {
    pub open spec fn wf(self) -> bool {
        &&& self.epoch <= self.epochs
        &&& self.next_example <= self.examples
        &&& self.epoch == self.epochs ==> self.next_example == 0
    }

    /// The action that this state calls for.
    pub open spec fn action(self) -> Action {
        if self.epoch >= self.epochs {
            Action::Finish
        } else if self.next_example < self.examples {
            Action::Step { index: self.next_example as usize }
        } else {
            Action::EndEpoch {
                epoch: self.epoch as usize,
                report: reports_after(self.epoch, self.epochs),
            }
        }
    }

    /// The state once that action is taken.
    pub open spec fn advance(self) -> ScheduleView {
        if self.epoch >= self.epochs {
            self
        } else if self.next_example < self.examples {
            ScheduleView { next_example: self.next_example + 1, ..self }
        } else {
            ScheduleView { epoch: self.epoch + 1, next_example: 0, ..self }
        }
    }

    /// The state after `k` actions.
    pub open spec fn run(self, k: nat) -> ScheduleView
        decreases k,
    {
        if k == 0 {
            self
        } else {
            self.run((k - 1) as nat).advance()
        }
    }
}

/// The state at the start of a run.
pub open spec fn start(epochs: nat, examples: nat) -> ScheduleView {
    ScheduleView { epochs, examples, epoch: 0, next_example: 0 }
}

/// The action at position `k` of a run of `epochs` epochs over `examples`
/// examples: each epoch steps through every example in order and then ends,
/// and once all epochs are over the run finishes.
pub open spec fn action_at(epochs: nat, examples: nat, k: nat) -> Action {
    let m = examples + 1;
    if k >= epochs * m {
        Action::Finish
    } else if k % m < examples {
        Action::Step { index: (k % m) as usize }
    } else {
        Action::EndEpoch { epoch: (k / m) as usize, report: reports_after(k / m, epochs) }
    }
}

/// The decisions of the training loop, one action at a time.
pub struct TrainingSchedule {
    epochs: usize,
    examples: usize,
    epoch: usize,
    next_example: usize,
}

impl View for TrainingSchedule {
    type V = ScheduleView;

    closed spec fn view(&self) -> ScheduleView {
        ScheduleView {
            epochs: self.epochs as nat,
            examples: self.examples as nat,
            epoch: self.epoch as nat,
            next_example: self.next_example as nat,
        }
    }
}

impl TrainingSchedule {
    /// A run of `epochs` epochs over `examples` examples.
    pub fn new(epochs: usize, examples: usize) -> (r: TrainingSchedule)
        ensures
            r@ == start(epochs as nat, examples as nat),
            r@.wf(),
    {
        TrainingSchedule { epochs, examples, epoch: 0, next_example: 0 }
    }

    /// Decides the next action and moves past it.
    pub fn next(&mut self) -> (r: Action)
        requires
            old(self)@.wf(),
        ensures
            r == old(self)@.action(),
            final(self)@ == old(self)@.advance(),
            final(self)@.wf(),
    {
        if self.epoch >= self.epochs {
            Action::Finish
        } else if self.next_example < self.examples {
            let index = self.next_example;
            self.next_example = self.next_example + 1;
            Action::Step { index }
        } else {
            let epoch = self.epoch;
            let report = should_report(epoch, self.epochs);
            self.epoch = self.epoch + 1;
            self.next_example = 0;
            Action::EndEpoch { epoch, report }
        }
    }
}

proof fn lemma_run_position(epochs: nat, examples: nat, k: nat)
    requires
        k <= epochs * (examples + 1),
    ensures
        start(epochs, examples).run(k) == (ScheduleView {
            epochs,
            examples,
            epoch: k / (examples + 1),
            next_example: k % (examples + 1),
        }),
    decreases k,
{
    let m = examples + 1;
    if k == 0 {
        lemma_fundamental_div_mod_converse(0, m as int, 0, 0);
    } else {
        let j = (k - 1) as nat;
        lemma_run_position(epochs, examples, j);
        let q = j / m;
        let r = j % m;
        lemma_fundamental_div_mod(j as int, m as int);
        assert(j == q * m + r) by (nonlinear_arith)
            requires
                j == m * q + r,
        ;
        assert(q < epochs) by (nonlinear_arith)
            requires
                j == q * m + r,
                j < epochs * m,
                r >= 0,
                m > 0,
        ;
        if r + 1 < m {
            lemma_fundamental_div_mod_converse(k as int, m as int, q as int, (r + 1) as int);
        } else {
            assert(k == (q + 1) * m + 0) by (nonlinear_arith)
                requires
                    j == q * m + r,
                    r + 1 == m,
                    k == j + 1,
            ;
            lemma_fundamental_div_mod_converse(k as int, m as int, (q + 1) as int, 0);
        }
    }
}

proof fn lemma_run_finished(epochs: nat, examples: nat, k: nat)
    requires
        k >= epochs * (examples + 1),
    ensures
        start(epochs, examples).run(k) == (ScheduleView {
            epochs,
            examples,
            epoch: epochs,
            next_example: 0,
        }),
    decreases k,
{
    let m = examples + 1;
    let total = epochs * m;
    if k == total {
        lemma_run_position(epochs, examples, k);
        lemma_fundamental_div_mod_converse(k as int, m as int, epochs as int, 0);
    } else {
        lemma_run_finished(epochs, examples, (k - 1) as nat);
    }
}

/// A run steps through the examples in their order within each epoch, ends
/// each epoch after its last example, runs for exactly `epochs` epochs and
/// then finishes: the action after `k` actions of a fresh run is
/// `action_at(epochs, examples, k)`.
pub proof fn lemma_schedule_order(epochs: nat, examples: nat, k: nat)
    requires
        epochs <= usize::MAX,
        examples <= usize::MAX,
    ensures
        start(epochs, examples).run(k).action() == action_at(epochs, examples, k),
{
    let m = examples + 1;
    if k < epochs * m {
        lemma_run_position(epochs, examples, k);
        assert(k / m < epochs) by (nonlinear_arith)
            requires
                k < epochs * m,
                m > 0,
        ;
    } else {
        lemma_run_finished(epochs, examples, k);
    }
}

/// The run is bounded: after `epochs * (examples + 1)` actions it has
/// finished and stays finished.
pub proof fn lemma_schedule_terminates(epochs: nat, examples: nat, k: nat)
    requires
        k >= epochs * (examples + 1),
    ensures
        start(epochs, examples).run(k).action() == Action::Finish,
        start(epochs, examples).run(k).advance() == start(epochs, examples).run(k),
{
    lemma_run_finished(epochs, examples, k);
}

} // verus!
