use vstd::prelude::*;

verus! {

/// Where the creating thread stands in one invocation.
#[derive(Clone, Copy, Debug, PartialEq, Eq, Structural)]
pub enum CreatorPhase {
    /// The worker has not been requested yet.
    Created,
    /// The worker exists; the creator blocks on the rendezvous signal.
    Waiting,
    /// The signal was observed; the handle went back to the caller.
    Resumed,
    /// The worker could not be created; no handle exists.
    CreationFailed,
}

/// Where the worker stands in one invocation.
pub enum WorkerPhase<T> {
    NotSpawned,
    /// The initialization closure runs and may touch borrowed data.
    Initializing,
    /// The owned continuation runs.
    Executing,
    /// The continuation returned this value.
    Finished(T),
    /// One of the two closures terminated abnormally.
    Failed,
}

/// What happens to an invocation, as either side observes it.
pub enum Event<T> {
    SpawnSucceeded,
    SpawnFailed,
    /// The initialization closure returned its continuation.
    InitReturned,
    /// The initialization closure unwound.
    InitPanicked,
    /// The creator's blocking wait on the rendezvous signal returned.
    SignalReceived,
    /// The continuation returned a value.
    ExecReturned(T),
    /// The continuation unwound.
    ExecPanicked,
}

/// What the side that saw an event does next.
#[derive(Clone, Copy, Debug, PartialEq, Eq, Structural)]
pub enum Action {
    /// The creator blocks on the rendezvous signal.
    Wait,
    /// The creator reports that no worker could be created.
    ReportCreationError,
    /// The guard has fired; the worker runs the continuation.
    RunContinuation,
    /// The creator returns the worker's handle to its caller.
    ReturnHandle,
    /// The worker's outcome is stored for whoever joins it.
    RecordOutcome,
    /// The event cannot occur in this state; nothing changes.
    Ignore,
}

/// The worker terminated abnormally, in either phase.
#[derive(Clone, Copy, Debug, PartialEq, Eq, Structural)]
pub struct ExecutionFailure;

/// One invocation of the protocol: both sides and the one-shot signal
/// that links them.
pub struct Invocation<T> {
    pub creator: CreatorPhase,
    pub worker: WorkerPhase<T>,
    /// The completion guard has fired: a send, or the producer's end
    /// dropped unsent, both of which end the creator's wait.
    pub signalled: bool,
}

impl<T> Invocation<T> {
    pub open spec fn initial() -> Invocation<T> {
        Invocation { creator: CreatorPhase::Created, worker: WorkerPhase::NotSpawned, signalled: false }
    }

    /// The initialization closure may hold references into the creator's data.
    pub open spec fn borrow_live(self) -> bool {
        self.worker is Initializing
    }

    /// The worker is past its initialization phase.
    pub open spec fn init_over(self) -> bool {
        ||| self.worker is Executing
        ||| self.worker is Finished
        ||| self.worker is Failed
    }

    /// The state and the action that follow an event.
    pub open spec fn next(self, e: Event<T>) -> (Invocation<T>, Action) {
        match e {
            Event::SpawnSucceeded => if self.creator == CreatorPhase::Created {
                (Invocation { creator: CreatorPhase::Waiting, worker: WorkerPhase::Initializing, ..self }, Action::Wait)
            } else {
                (self, Action::Ignore)
            },
            Event::SpawnFailed => if self.creator == CreatorPhase::Created {
                (Invocation { creator: CreatorPhase::CreationFailed, ..self }, Action::ReportCreationError)
            } else {
                (self, Action::Ignore)
            },
            Event::InitReturned => if self.worker is Initializing {
                (Invocation { worker: WorkerPhase::Executing, signalled: true, ..self }, Action::RunContinuation)
            } else {
                (self, Action::Ignore)
            },
            Event::InitPanicked => if self.worker is Initializing {
                (Invocation { worker: WorkerPhase::Failed, signalled: true, ..self }, Action::RecordOutcome)
            } else {
                (self, Action::Ignore)
            },
            Event::SignalReceived => if self.creator == CreatorPhase::Waiting {
                if self.signalled {
                    (Invocation { creator: CreatorPhase::Resumed, ..self }, Action::ReturnHandle)
                } else {
                    (self, Action::Wait)
                }
            } else {
                (self, Action::Ignore)
            },
            Event::ExecReturned(v) => if self.worker is Executing {
                (Invocation { worker: WorkerPhase::Finished(v), ..self }, Action::RecordOutcome)
            } else {
                (self, Action::Ignore)
            },
            Event::ExecPanicked => if self.worker is Executing {
                (Invocation { worker: WorkerPhase::Failed, ..self }, Action::RecordOutcome)
            } else {
                (self, Action::Ignore)
            },
        }
    }

    /// What joining the worker yields, once it has terminated.
    pub open spec fn outcome(self) -> Option<Result<T, ExecutionFailure>> {
        match self.worker {
            WorkerPhase::Finished(v) => Some(Ok(v)),
            WorkerPhase::Failed => Some(Err(ExecutionFailure)),
            _ => None,
        }
    }

    /// The relations that hold in every state reachable from `initial`.
    pub open spec fn wf(self) -> bool {
        &&& self.signalled <==> self.init_over()
        &&& self.creator == CreatorPhase::Created ==> self.worker is NotSpawned
        &&& self.creator == CreatorPhase::CreationFailed ==> self.worker is NotSpawned
        &&& self.worker is NotSpawned ==> (self.creator == CreatorPhase::Created
            || self.creator == CreatorPhase::CreationFailed)
        &&& self.creator == CreatorPhase::Resumed ==> self.signalled
    }

    pub fn new() -> (r: Invocation<T>)
        ensures
            r == Invocation::<T>::initial(),
            r.wf(),
    {
        Invocation { creator: CreatorPhase::Created, worker: WorkerPhase::NotSpawned, signalled: false }
    }

    /// Whether the creator's blocking wait returns now.
    pub fn can_resume(&self) -> (r: bool)
        ensures
            r == self.signalled,
    {
        self.signalled
    }

    pub fn is_borrow_live(&self) -> (r: bool)
        ensures
            r == self.borrow_live(),
    {
        match self.worker {
            WorkerPhase::Initializing => true,
            _ => false,
        }
    }

    /// Applies one event and says what the side that saw it does next.
    pub fn step(&mut self, e: Event<T>) -> (r: Action)
        ensures
            (*final(self), r) == old(self).next(e),
            old(self).wf() ==> final(self).wf(),
    {
        let initializing = self.is_borrow_live();
        let executing = match self.worker {
            WorkerPhase::Executing => true,
            _ => false,
        };
        match e {
            Event::SpawnSucceeded => if self.creator == CreatorPhase::Created {
                self.creator = CreatorPhase::Waiting;
                self.worker = WorkerPhase::Initializing;
                Action::Wait
            } else {
                Action::Ignore
            },
            Event::SpawnFailed => if self.creator == CreatorPhase::Created {
                self.creator = CreatorPhase::CreationFailed;
                Action::ReportCreationError
            } else {
                Action::Ignore
            },
            Event::InitReturned => if initializing {
                self.worker = WorkerPhase::Executing;
                self.signalled = true;
                Action::RunContinuation
            } else {
                Action::Ignore
            },
            Event::InitPanicked => if initializing {
                self.worker = WorkerPhase::Failed;
                self.signalled = true;
                Action::RecordOutcome
            } else {
                Action::Ignore
            },
            Event::SignalReceived => if self.creator == CreatorPhase::Waiting {
                if self.signalled {
                    self.creator = CreatorPhase::Resumed;
                    Action::ReturnHandle
                } else {
                    Action::Wait
                }
            } else {
                Action::Ignore
            },
            Event::ExecReturned(v) => if executing {
                self.worker = WorkerPhase::Finished(v);
                Action::RecordOutcome
            } else {
                Action::Ignore
            },
            Event::ExecPanicked => if executing {
                self.worker = WorkerPhase::Failed;
                Action::RecordOutcome
            } else {
                Action::Ignore
            },
        }
    }

    /// Joins the worker: its value, its failure, or `None` while it has not
    /// terminated (a real join would still be blocking).
    pub fn join(self) -> (r: Option<Result<T, ExecutionFailure>>)
        ensures
            r == self.outcome(),
    {
        match self.worker {
            WorkerPhase::Finished(v) => Some(Ok(v)),
            WorkerPhase::Failed => Some(Err(ExecutionFailure)),
            _ => None,
        }
    }
}

} // verus!
