//! Procedures: sequences of steps that the caller attempts one at a time.
//!
//! A procedure names the next step; the caller attempts it and reports how it
//! ended. A failed step that is tolerated is passed over. A failed step that is
//! fatal ends the procedure: no later step is ever named, and the failure is
//! the procedure's result.

use vstd::prelude::*;

verus! {

/// One step of a procedure.
#[derive(Debug)]
pub struct Step<A> {
    /// What the caller is to attempt.
    pub action: A,
    /// Whether a failure of this step ends the procedure.
    pub fatal: bool,
}

impl<A> Step<A> {
    /// A step whose failure is passed over.
    pub open spec fn spec_tolerant(action: A) -> Step<A> {
        Step { action, fatal: false }
    }

    /// A step whose failure ends the procedure.
    pub open spec fn spec_strict(action: A) -> Step<A> {
        Step { action, fatal: true }
    }

    /// A step whose failure is passed over.
    #[verifier::when_used_as_spec(spec_tolerant)]
    pub fn tolerant(action: A) -> (step: Step<A>)
        ensures
            step == Step::spec_tolerant(action),
    {
        Step { action, fatal: false }
    }

    /// A step whose failure ends the procedure.
    #[verifier::when_used_as_spec(spec_strict)]
    pub fn strict(action: A) -> (step: Step<A>)
        ensures
            step == Step::spec_strict(action),
    {
        Step { action, fatal: true }
    }
}

/// The fatal failure that ended a procedure.
#[derive(Debug)]
pub struct Failure<A> {
    /// The step that failed.
    pub action: A,
    /// What the caller reported of the failure.
    pub reason: String,
}

/// Where a procedure stands.
#[derive(Debug)]
pub enum Status<A> {
    /// The caller is to attempt this step next.
    Pending(A),
    /// Every step was attempted and no fatal step failed.
    Succeeded,
    /// A fatal step failed; the steps after it were not attempted.
    Failed(Failure<A>),
}

/// The mathematical content of [`Status`].
pub enum StatusView<A> {
    Pending(A),
    Succeeded,
    Failed { action: A, reason: Seq<char> },
}

impl<A> View for Status<A> {
    type V = StatusView<A>;

    open spec fn view(&self) -> StatusView<A> {
        match *self {
            Status::Pending(action) => StatusView::Pending(action),
            Status::Succeeded => StatusView::Succeeded,
            Status::Failed(failure) => StatusView::Failed {
                action: failure.action,
                reason: failure.reason@,
            },
        }
    }
}

/// How an attempt ended, as the procedure's model sees it: `None` for success,
/// the reported reason for failure.
pub open spec fn failure_of(outcome: Result<(), String>) -> Option<Seq<char>> {
    match outcome {
        Ok(_) => None,
        Err(reason) => Some(reason@),
    }
}

/// The mathematical content of a [`Procedure`].
pub struct Progress<A> {
    /// The steps, in the order in which they are attempted.
    pub steps: Seq<Step<A>>,
    /// How many steps have been attempted.
    pub attempted: nat,
    /// The reason why the last attempted step ended the procedure, if it did.
    pub halted: Option<Seq<char>>,
}

impl<A> Progress<A> {
    /// A procedure of which nothing has been attempted.
    pub open spec fn fresh(steps: Seq<Step<A>>) -> Progress<A> {
        Progress { steps, attempted: 0, halted: None }
    }

    /// Only a fatal step that was attempted can have ended the procedure.
    pub open spec fn wf(self) -> bool {
        &&& self.attempted <= self.steps.len()
        &&& self.halted is Some ==> self.attempted > 0 && self.steps[self.attempted - 1].fatal
    }

    /// Where the procedure stands.
    pub open spec fn status(self) -> StatusView<A> {
        match self.halted {
            Some(reason) => StatusView::Failed {
                action: self.steps[self.attempted - 1].action,
                reason,
            },
            None => if self.attempted < self.steps.len() {
                StatusView::Pending(self.steps[self.attempted as int].action)
            } else {
                StatusView::Succeeded
            },
        }
    }

    /// The procedure after the pending step was attempted and ended with
    /// `failure`. Where no step is pending the report changes nothing.
    pub open spec fn record(self, failure: Option<Seq<char>>) -> Progress<A> {
        if self.status() is Pending {
            Progress {
                steps: self.steps,
                attempted: self.attempted + 1,
                halted: if self.steps[self.attempted as int].fatal {
                    failure
                } else {
                    None
                },
            }
        } else {
            self
        }
    }

    /// The procedure after a run of reports, taken in order.
    pub open spec fn replay(self, failures: Seq<Option<Seq<char>>>) -> Progress<A>
        decreases failures.len(),
    {
        if failures.len() == 0 {
            self
        } else {
            self.record(failures[0]).replay(failures.skip(1))
        }
    }
}

/// Whether, in a run from the first step on, step `i` is the one that ends the
/// procedure: it is fatal and failed, and no fatal step before it did.
pub open spec fn halts_at<A>(steps: Seq<Step<A>>, failures: Seq<Option<Seq<char>>>, i: int) -> bool {
    &&& 0 <= i < steps.len()
    &&& i < failures.len()
    &&& steps[i].fatal
    &&& failures[i] is Some
    &&& forall|j: int| 0 <= j < i ==> !(#[trigger] steps[j].fatal && failures[j] is Some)
}

/// A sequence of steps and how far the caller has come with it.
#[derive(Debug)]
pub struct Procedure<A> {
    steps: Vec<Step<A>>,
    attempted: usize,
    halted: Option<String>,
}

impl<A> Procedure<A> {
    /// Never more attempts than steps, and only a fatal step that was
    /// attempted can have ended the procedure.
    #[verifier::type_invariant]
    spec fn inv(self) -> bool {
        &&& self.attempted <= self.steps.len()
        &&& self.halted is Some ==> self.attempted > 0 && self.steps[self.attempted - 1].fatal
    }
}

impl<A> View for Procedure<A> {
    type V = Progress<A>;

    closed spec fn view(&self) -> Progress<A> {
        Progress {
            steps: self.steps@,
            attempted: self.attempted as nat,
            halted: match self.halted {
                Some(reason) => Some(reason@),
                None => None,
            },
        }
    }
}

impl<A: Copy> Procedure<A> {
    /// A procedure over `steps`, of which nothing has been attempted.
    pub fn new(steps: Vec<Step<A>>) -> (procedure: Procedure<A>)
        ensures
            procedure@ == Progress::fresh(steps@),
    {
        Procedure { steps, attempted: 0, halted: None }
    }

    /// Where the procedure stands: the step to attempt next, or how the
    /// procedure ended.
    pub fn status(&self) -> (status: Status<A>)
        ensures
            self@.wf(),
            status@ == self@.status(),
    {
        proof {
            use_type_invariant(self);
        }
        match &self.halted {
            Some(reason) => Status::Failed(
                Failure { action: self.steps[self.attempted - 1].action, reason: reason.clone() },
            ),
            None => if self.attempted < self.steps.len() {
                Status::Pending(self.steps[self.attempted].action)
            } else {
                Status::Succeeded
            },
        }
    }

    /// How the procedure ended: `None` while a step is pending, `Ok` once
    /// every step was attempted and no fatal step failed, and the failure of
    /// the fatal step that ended it otherwise.
    pub fn outcome(&self) -> (outcome: Option<Result<(), Failure<A>>>)
        ensures
            self@.wf(),
            outcome is None <==> self@.status() is Pending,
            outcome matches Some(Ok(_)) <==> self@.status() is Succeeded,
            outcome matches Some(Err(failure)) ==> self@.status() == (StatusView::Failed {
                action: failure.action,
                reason: failure.reason@,
            }),
    {
        match self.status() {
            Status::Pending(_) => None,
            Status::Succeeded => Some(Ok(())),
            Status::Failed(failure) => Some(Err(failure)),
        }
    }

    /// Takes the caller's report of the pending step. A report that comes
    /// when no step is pending is dropped.
    pub fn record(&mut self, outcome: Result<(), String>)
        ensures
            final(self)@ == old(self)@.record(failure_of(outcome)),
            final(self)@.wf(),
    {
        proof {
            use_type_invariant(&*self);
        }
        if self.halted.is_none() && self.attempted < self.steps.len() {
            let fatal = self.steps[self.attempted].fatal;
            self.attempted = self.attempted + 1;
            if fatal {
                match outcome {
                    Ok(_) => {},
                    Err(reason) => {
                        self.halted = Some(reason);
                    },
                }
            }
        }
    }
}

/// Once a procedure has ended, no report changes it.
pub proof fn lemma_ended_stays<A>(progress: Progress<A>, failures: Seq<Option<Seq<char>>>)
    requires
        !(progress.status() is Pending),
    ensures
        progress.replay(failures) == progress,
    decreases failures.len(),
{
    if failures.len() > 0 {
        lemma_ended_stays(progress, failures.skip(1));
    }
}

/// Reports never reorder, add or drop steps, never take an attempt back, and
/// keep a well-formed procedure well-formed.
pub proof fn lemma_replay_keeps_steps<A>(progress: Progress<A>, failures: Seq<Option<Seq<char>>>)
    requires
        progress.wf(),
    ensures
        progress.replay(failures).wf(),
        progress.replay(failures).steps == progress.steps,
        progress.attempted <= progress.replay(failures).attempted <= progress.attempted
            + failures.len(),
    decreases failures.len(),
{
    if failures.len() > 0 {
        lemma_replay_keeps_steps(progress.record(failures[0]), failures.skip(1));
    }
}

/// Whether, counted from where `progress` stands, the report at offset `d` is
/// the first failure of a fatal step.
spec fn stops_after<A>(progress: Progress<A>, failures: Seq<Option<Seq<char>>>, d: int) -> bool {
    &&& 0 <= d < failures.len()
    &&& progress.attempted + d < progress.steps.len()
    &&& progress.steps[progress.attempted + d].fatal
    &&& failures[d] is Some
    &&& forall|j: int|
        0 <= j < d ==> !(#[trigger] progress.steps[progress.attempted + j].fatal
            && failures[j] is Some)
}

/// From where `progress` stands, the first failure of a fatal step ends the
/// run, whatever is reported after it.
proof fn lemma_replay_stops<A>(progress: Progress<A>, failures: Seq<Option<Seq<char>>>, d: int)
    requires
        progress.wf(),
        progress.halted is None,
        stops_after(progress, failures, d),
    ensures
        progress.replay(failures) == (Progress {
            steps: progress.steps,
            attempted: (progress.attempted + d + 1) as nat,
            halted: failures[d],
        }),
    decreases failures.len(),
{
    let next = progress.record(failures[0]);
    let rest = failures.skip(1);
    if d == 0 {
        lemma_ended_stays(next, rest);
    } else {
        let first: int = 0;
        assert(!(progress.steps[progress.attempted + first].fatal && failures[first] is Some));
        assert forall|j: int| 0 <= j < d - 1 implies !(#[trigger] next.steps[next.attempted
            + j].fatal && rest[j] is Some) by {
            assert(!(progress.steps[progress.attempted + (j + 1)].fatal && failures[j + 1] is Some));
        }
        lemma_replay_stops(next, rest, d - 1);
    }
}

/// From where `progress` stands, a run in which no fatal step fails takes one
/// step for each report until none is left.
proof fn lemma_replay_passes<A>(progress: Progress<A>, failures: Seq<Option<Seq<char>>>)
    requires
        progress.wf(),
        progress.halted is None,
        forall|d: int| !stops_after(progress, failures, d),
    ensures
        progress.replay(failures) == (Progress {
            steps: progress.steps,
            attempted: if progress.attempted + failures.len() <= progress.steps.len() {
                progress.attempted + failures.len()
            } else {
                progress.steps.len()
            },
            halted: None,
        }),
    decreases failures.len(),
{
    if failures.len() > 0 {
        let next = progress.record(failures[0]);
        let rest = failures.skip(1);
        if progress.attempted < progress.steps.len() {
            assert(!stops_after(progress, failures, 0));
            assert forall|d: int| !stops_after(next, rest, d) by {
                if stops_after(next, rest, d) {
                    assert forall|j: int| 0 <= j < d + 1 implies !(
                    #[trigger] progress.steps[progress.attempted + j].fatal
                        && failures[j] is Some) by {
                        if j > 0 {
                            assert(!(next.steps[next.attempted + (j - 1)].fatal && rest[j
                                - 1] is Some));
                        }
                    }
                    assert(stops_after(progress, failures, d + 1));
                }
            }
            lemma_replay_passes(next, rest);
        } else {
            lemma_ended_stays(progress, failures);
        }
    }
}

/// A run from the first step ends at the first fatal step that fails: that
/// step is the last one attempted, and its failure is the result.
pub proof fn lemma_run_ends_at_first_fatal_failure<A>(
    steps: Seq<Step<A>>,
    failures: Seq<Option<Seq<char>>>,
    i: int,
)
    requires
        halts_at(steps, failures, i),
    ensures
        Progress::fresh(steps).replay(failures) == (Progress {
            steps,
            attempted: (i + 1) as nat,
            halted: failures[i],
        }),
        Progress::fresh(steps).replay(failures).status() == (StatusView::Failed {
            action: steps[i].action,
            reason: failures[i]->0,
        }),
{
    let start = Progress::fresh(steps);
    assert(stops_after(start, failures, i));
    lemma_replay_stops(start, failures, i);
}

/// A run from the first step in which no fatal step fails attempts one step
/// for each report, in order, until none is left.
pub proof fn lemma_run_passes_without_fatal_failure<A>(
    steps: Seq<Step<A>>,
    failures: Seq<Option<Seq<char>>>,
)
    requires
        forall|i: int| !halts_at(steps, failures, i),
    ensures
        Progress::fresh(steps).replay(failures) == (Progress {
            steps,
            attempted: if failures.len() <= steps.len() {
                failures.len()
            } else {
                steps.len()
            },
            halted: None,
        }),
{
    let start = Progress::fresh(steps);
    assert forall|d: int| !stops_after(start, failures, d) by {
        if stops_after(start, failures, d) {
            assert forall|j: int| 0 <= j < d implies !(#[trigger] steps[j].fatal
                && failures[j] is Some) by {
                assert(!(start.steps[start.attempted + j].fatal && failures[j] is Some));
            }
            assert(halts_at(steps, failures, d));
        }
    }
    lemma_replay_passes(start, failures);
}

/// A procedure without a fatal step succeeds whatever the caller reports:
/// once every step has had its report, nothing is pending and nothing failed.
pub proof fn lemma_tolerant_run_succeeds<A>(steps: Seq<Step<A>>, failures: Seq<Option<Seq<char>>>)
    requires
        forall|i: int| 0 <= i < steps.len() ==> !(#[trigger] steps[i]).fatal,
        failures.len() >= steps.len(),
    ensures
        Progress::fresh(steps).replay(failures).status() is Succeeded,
        Progress::fresh(steps).replay(failures).attempted == steps.len(),
{
    lemma_run_passes_without_fatal_failure(steps, failures);
}

} // verus!
