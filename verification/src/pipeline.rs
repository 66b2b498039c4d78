//! The lifecycle controller: a state machine that sequences the pipeline
//! stages, reacts to failures and to a cancellation signal, and
//! guarantees that cleanup of the temporary download directory is issued
//! exactly once on every terminal path that acquired resources.
//!
//! The controller decides; the surrounding process acts. Each call of
//! [`Controller::step`] consumes one event (a stage completed, a stage
//! failed, an interrupt arrived, cleanup finished) and returns the one
//! action the process must perform next. A stage already in flight when
//! an interrupt wins the race is not forcibly killed: the controller
//! merely never starts another stage.

use vstd::prelude::*;
use crate::errors::Operation;
use crate::errors::PipelineError;

verus! {

/// The stage a run is in. `Failed` is reachable from every non-terminal
/// stage; `Cancelled` is reached through cleanup from the active stages,
/// or directly from `Idle`, where nothing was acquired yet.
#[derive(Clone, Copy, Debug, PartialEq, Eq, Structural)]
pub enum Stage {
    Idle,
    Downloading,
    Extracting,
    Bootstrapping,
    Building,
    CleaningUp,
    Done,
    Failed,
    Cancelled,
}

/// An event the surrounding process reports to the controller.
#[derive(Clone, Copy, Debug, PartialEq, Eq, Structural)]
pub enum Event {
    /// The run should start, or the stage in flight completed successfully.
    Advance,
    /// The stage in flight failed with the given error.
    Failure(PipelineError),
    /// The cancellation signal arrived.
    Interrupt,
    /// The cleanup action completed successfully.
    CleanupSucceeded,
    /// The cleanup action failed with the given error.
    CleanupFailed(PipelineError),
}

/// The one action the surrounding process must perform next.
#[derive(Clone, Copy, Debug, PartialEq, Eq, Structural)]
pub enum Action {
    StartDownload,
    StartExtract,
    StartBootstrap,
    StartBuild,
    RunCleanup,
    /// Nothing to do: await the next event, or the run is over.
    Wait,
}

impl Stage {
    /// A stage with an operation in flight, between acquiring the first
    /// resource and starting cleanup.
    pub open spec fn is_active(self) -> bool {
        self == Stage::Downloading || self == Stage::Extracting
            || self == Stage::Bootstrapping || self == Stage::Building
    }

    /// A terminal stage: the run is over.
    pub open spec fn is_terminal(self) -> bool {
        self == Stage::Done || self == Stage::Failed || self == Stage::Cancelled
    }
}

/// Whether an action starts a pipeline stage.
pub open spec fn is_start_action(a: Action) -> bool {
    a == Action::StartDownload || a == Action::StartExtract || a == Action::StartBootstrap
        || a == Action::StartBuild
}

/// The lifecycle controller.
pub struct Controller {
    /// The stage the run is in.
    pub stage: Stage,
    /// Whether the run ever left `Idle`, i.e. may have acquired resources.
    pub started: bool,
    /// How many cleanup actions have been issued in this run.
    pub cleanups: u64,
    /// The first error of the run, if any.
    pub failure: Option<PipelineError>,
    /// Whether the cancellation signal preempted the run.
    pub cancelled: bool,
}

impl Controller {
    /// The controller's invariant: cleanup is issued exactly once on
    /// every path that left `Idle`, and never before `CleaningUp`; a
    /// failed run remembers its first error; a run that never left
    /// `Idle` has nothing to clean up.
    pub open spec fn wf(self) -> bool {
        &&& self.cleanups <= 1
        &&& self.stage == Stage::Idle ==> !self.started && self.cleanups == 0
            && self.failure is None && !self.cancelled
        &&& self.stage.is_active() ==> self.started && self.cleanups == 0
            && self.failure is None && !self.cancelled
        &&& self.stage == Stage::CleaningUp ==> self.started && self.cleanups == 1
        &&& self.stage == Stage::Done ==> self.started && self.cleanups == 1
            && self.failure is None && !self.cancelled
        &&& self.stage == Stage::Failed ==> self.failure is Some
            && self.cleanups == (if self.started { 1int } else { 0int })
        &&& self.stage == Stage::Cancelled ==> self.cancelled
            && self.cleanups == (if self.started { 1int } else { 0int })
    }

    /// The transition relation of the controller, as one total function
    /// from state and event to next state and action.
    pub open spec fn spec_step(self, event: Event) -> (Controller, Action) {
        match self.stage {
            Stage::Idle => match event {
                Event::Advance => (
                    Controller { stage: Stage::Downloading, started: true, ..self },
                    Action::StartDownload,
                ),
                Event::Failure(err) => (
                    Controller { stage: Stage::Failed, failure: Some(err), ..self },
                    Action::Wait,
                ),
                Event::Interrupt => (
                    Controller { stage: Stage::Cancelled, cancelled: true, ..self },
                    Action::Wait,
                ),
                _ => (self, Action::Wait),
            },
            Stage::Downloading => match event {
                Event::Advance => (
                    Controller { stage: Stage::Extracting, ..self },
                    Action::StartExtract,
                ),
                Event::Failure(err) => self.spec_abort(err),
                Event::Interrupt => self.spec_preempt(),
                _ => (self, Action::Wait),
            },
            Stage::Extracting => match event {
                Event::Advance => (
                    Controller { stage: Stage::Bootstrapping, ..self },
                    Action::StartBootstrap,
                ),
                Event::Failure(err) => self.spec_abort(err),
                Event::Interrupt => self.spec_preempt(),
                _ => (self, Action::Wait),
            },
            Stage::Bootstrapping => match event {
                Event::Advance => (
                    Controller { stage: Stage::Building, ..self },
                    Action::StartBuild,
                ),
                Event::Failure(err) => self.spec_abort(err),
                Event::Interrupt => self.spec_preempt(),
                _ => (self, Action::Wait),
            },
            Stage::Building => match event {
                Event::Advance => (
                    Controller { stage: Stage::CleaningUp, cleanups: 1, ..self },
                    Action::RunCleanup,
                ),
                Event::Failure(err) => self.spec_abort(err),
                Event::Interrupt => self.spec_preempt(),
                _ => (self, Action::Wait),
            },
            Stage::CleaningUp => match event {
                Event::CleanupSucceeded => {
                    if self.failure is Some {
                        (Controller { stage: Stage::Failed, ..self }, Action::Wait)
                    } else if self.cancelled {
                        (Controller { stage: Stage::Cancelled, ..self }, Action::Wait)
                    } else {
                        (Controller { stage: Stage::Done, ..self }, Action::Wait)
                    }
                },
                Event::CleanupFailed(err) => (
                    Controller {
                        stage: Stage::Failed,
                        failure: if self.failure is Some {
                            self.failure
                        } else {
                            Some(err)
                        },
                        ..self
                    },
                    Action::Wait,
                ),
                _ => (self, Action::Wait),
            },
            _ => (self, Action::Wait),
        }
    }

    /// The transition taken when the stage in flight fails: remember the
    /// error and start cleanup.
    pub open spec fn spec_abort(self, err: PipelineError) -> (Controller, Action) {
        (
            Controller { stage: Stage::CleaningUp, failure: Some(err), cleanups: 1, ..self },
            Action::RunCleanup,
        )
    }

    /// The transition taken when the cancellation signal preempts an
    /// active stage: start cleanup, to end in `Cancelled`.
    pub open spec fn spec_preempt(self) -> (Controller, Action) {
        (
            Controller { stage: Stage::CleaningUp, cancelled: true, cleanups: 1, ..self },
            Action::RunCleanup,
        )
    }

    /// A fresh controller, idle, with nothing acquired and nothing to
    /// clean up.
    pub fn new() -> (c: Controller)
        ensures
            c.wf(),
            c == (Controller {
                stage: Stage::Idle,
                started: false,
                cleanups: 0,
                failure: None,
                cancelled: false,
            }),
    {
        Controller { stage: Stage::Idle, started: false, cleanups: 0, failure: None, cancelled: false }
    }

    /// Consumes one event and returns the action the surrounding process
    /// must perform next, exactly as the transition relation says.
    pub fn step(&mut self, event: Event) -> (action: Action)
        requires
            old(self).wf(),
        ensures
            final(self).wf(),
            *final(self) == old(self).spec_step(event).0,
            action == old(self).spec_step(event).1,
    {
        match self.stage {
            Stage::Idle => match event {
                Event::Advance => {
                    self.stage = Stage::Downloading;
                    self.started = true;
                    Action::StartDownload
                },
                Event::Failure(err) => {
                    self.stage = Stage::Failed;
                    self.failure = Some(err);
                    Action::Wait
                },
                Event::Interrupt => {
                    self.stage = Stage::Cancelled;
                    self.cancelled = true;
                    Action::Wait
                },
                _ => Action::Wait,
            },
            Stage::Downloading => match event {
                Event::Advance => {
                    self.stage = Stage::Extracting;
                    Action::StartExtract
                },
                Event::Failure(err) => self.abort(err),
                Event::Interrupt => self.preempt(),
                _ => Action::Wait,
            },
            Stage::Extracting => match event {
                Event::Advance => {
                    self.stage = Stage::Bootstrapping;
                    Action::StartBootstrap
                },
                Event::Failure(err) => self.abort(err),
                Event::Interrupt => self.preempt(),
                _ => Action::Wait,
            },
            Stage::Bootstrapping => match event {
                Event::Advance => {
                    self.stage = Stage::Building;
                    Action::StartBuild
                },
                Event::Failure(err) => self.abort(err),
                Event::Interrupt => self.preempt(),
                _ => Action::Wait,
            },
            Stage::Building => match event {
                Event::Advance => {
                    self.stage = Stage::CleaningUp;
                    self.cleanups = 1;
                    Action::RunCleanup
                },
                Event::Failure(err) => self.abort(err),
                Event::Interrupt => self.preempt(),
                _ => Action::Wait,
            },
            Stage::CleaningUp => match event {
                Event::CleanupSucceeded => {
                    if self.failure.is_some() {
                        self.stage = Stage::Failed;
                    } else if self.cancelled {
                        self.stage = Stage::Cancelled;
                    } else {
                        self.stage = Stage::Done;
                    }
                    Action::Wait
                },
                Event::CleanupFailed(err) => {
                    self.stage = Stage::Failed;
                    if self.failure.is_none() {
                        self.failure = Some(err);
                    }
                    Action::Wait
                },
                _ => Action::Wait,
            },
            _ => Action::Wait,
        }
    }

    /// Records a failure of the stage in flight and starts cleanup.
    fn abort(&mut self, err: PipelineError) -> (action: Action)
        requires
            old(self).stage.is_active(),
            old(self).wf(),
        ensures
            *final(self) == old(self).spec_abort(err).0,
            action == old(self).spec_abort(err).1,
    {
        self.stage = Stage::CleaningUp;
        self.failure = Some(err);
        self.cleanups = 1;
        Action::RunCleanup
    }

    /// Records the cancellation signal and starts cleanup.
    fn preempt(&mut self) -> (action: Action)
        requires
            old(self).stage.is_active(),
            old(self).wf(),
        ensures
            *final(self) == old(self).spec_preempt().0,
            action == old(self).spec_preempt().1,
    {
        self.stage = Stage::CleaningUp;
        self.cancelled = true;
        self.cleanups = 1;
        Action::RunCleanup
    }

    /// The exit code of a finished run: zero after cleanup on both
    /// normal completion and a clean cancellation, non-zero on any
    /// unrecovered error.
    pub fn exit_code(&self) -> (code: i32)
        requires
            self.stage.is_terminal(),
        ensures
            code == 0 <==> (self.stage == Stage::Done || self.stage == Stage::Cancelled),
            self.stage == Stage::Failed ==> code == 1,
    {
        match self.stage {
            Stage::Failed => 1,
            _ => 0,
        }
    }

    /// Returns the first error of the run, if any.
    pub fn current_failure(&self) -> (f: Option<PipelineError>)
        ensures
            f == self.failure,
    {
        self.failure
    }
}

/// The transition relation preserves the controller's invariant: from a
/// well-formed state, every event leads to a well-formed state.
pub proof fn lemma_wf_preserved(c: Controller, event: Event)
    requires
        c.wf(),
    ensures
        c.spec_step(event).0.wf(),
{
}

/// No stage is started out of order: each start action arises only from
/// the one stage before it, and only on its successful completion. In
/// particular no failure, interrupt or cleanup event ever starts a
/// stage.
pub proof fn lemma_stage_order(c: Controller, event: Event)
    requires
        c.wf(),
    ensures
        c.spec_step(event).1 == Action::StartDownload ==> c.stage == Stage::Idle && event
            == Event::Advance,
        c.spec_step(event).1 == Action::StartExtract ==> c.stage == Stage::Downloading && event
            == Event::Advance,
        c.spec_step(event).1 == Action::StartBootstrap ==> c.stage == Stage::Extracting && event
            == Event::Advance,
        c.spec_step(event).1 == Action::StartBuild ==> c.stage == Stage::Bootstrapping && event
            == Event::Advance,
        event != Event::Advance ==> !is_start_action(c.spec_step(event).1),
{
}

/// Cleanup is issued exactly when an active stage ends the forward run,
/// by completion of the last stage, by failure or by cancellation; it is
/// issued at most once per run, and every terminal stage of a run that
/// left `Idle` has seen it exactly once.
pub proof fn lemma_cleanup_once(c: Controller, event: Event)
    requires
        c.wf(),
    ensures
        c.spec_step(event).1 == Action::RunCleanup <==> (c.stage.is_active() && (event
            == Event::Interrupt || event is Failure)) || (c.stage == Stage::Building && event
            == Event::Advance),
        c.spec_step(event).1 == Action::RunCleanup ==> c.cleanups == 0 && c.spec_step(
            event,
        ).0.cleanups == 1,
        c.spec_step(event).0.cleanups <= 1,
        c.cleanups <= c.spec_step(event).0.cleanups,
        c.spec_step(event).0.stage.is_terminal() && c.spec_step(event).0.started ==> c.spec_step(
            event,
        ).0.cleanups == 1,
{
}

/// A failure while downloading never reaches extraction: the controller
/// moves to cleanup at once, and the run ends `Failed` with that error
/// after cleanup.
pub proof fn lemma_download_failure_no_extraction(c: Controller, err: PipelineError)
    requires
        c.wf(),
        c.stage == Stage::Downloading,
    ensures
        ({
            let (c1, a1) = c.spec_step(Event::Failure(err));
            &&& c1.stage == Stage::CleaningUp
            &&& a1 == Action::RunCleanup
            &&& !is_start_action(a1)
            &&& c1.spec_step(Event::CleanupSucceeded).0.stage == Stage::Failed
            &&& c1.spec_step(Event::CleanupSucceeded).0.failure == Some(err)
        }),
{
}

/// A bootstrap subprocess that exits non-zero halts the pipeline before
/// the build stage is ever started, and cleanup of the temporary
/// download directory still occurs, exactly once.
pub proof fn lemma_bootstrap_failure_halts(c: Controller, err: PipelineError)
    requires
        c.wf(),
        c.stage == Stage::Bootstrapping,
    ensures
        ({
            let (c1, a1) = c.spec_step(Event::Failure(err));
            &&& c1.stage == Stage::CleaningUp
            &&& a1 == Action::RunCleanup
            &&& c1.cleanups == 1
            &&& forall|e: Event| (#[trigger] c1.spec_step(e)).1 != Action::StartBuild
            &&& c1.spec_step(Event::CleanupSucceeded).0.stage == Stage::Failed
            &&& c1.spec_step(Event::CleanupSucceeded).0.failure == Some(err)
            &&& c1.spec_step(Event::CleanupSucceeded).0.cleanups == 1
        }),
{
}

/// Cancellation delivered while bootstrapping or building, i.e. after
/// extraction and before build completion, preempts the pipeline:
/// cleanup runs exactly once, no further stage is ever started, and the
/// run ends `Cancelled`, from which every event leaves the controller
/// unchanged.
pub proof fn lemma_cancellation_cleans_up_once(c: Controller)
    requires
        c.wf(),
        c.stage == Stage::Bootstrapping || c.stage == Stage::Building,
    ensures
        ({
            let (c1, a1) = c.spec_step(Event::Interrupt);
            &&& c1.stage == Stage::CleaningUp
            &&& a1 == Action::RunCleanup
            &&& c.cleanups == 0 && c1.cleanups == 1
            &&& forall|e: Event| !is_start_action((#[trigger] c1.spec_step(e)).1)
            &&& ({
                let c2 = c1.spec_step(Event::CleanupSucceeded).0;
                &&& c2.stage == Stage::Cancelled
                &&& c2.cleanups == 1
                &&& forall|e: Event| (#[trigger] c2.spec_step(e)).0 == c2 && !is_start_action(
                    c2.spec_step(e).1,
                )
            })
        }),
{
}

/// Interprets the outcome of the cleanup action. A missing target is
/// tolerated without error, so a second cleanup attempt in one run can
/// not fail the process; a target that existed and could not be removed
/// is a filesystem error.
pub fn cleanup_outcome(existed: bool, removed: bool) -> (r: Result<(), PipelineError>)
    ensures
        r is Ok <==> (!existed || removed),
        r matches Err(e) ==> e == (PipelineError::Filesystem { op: Operation::RemoveTempDir }),
{
    if !existed || removed {
        Ok(())
    } else {
        Err(PipelineError::Filesystem { op: Operation::RemoveTempDir })
    }
}

} // verus!
