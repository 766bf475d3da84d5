//! Process-wide one-shot initialization for a native runtime that forbids
//! repeated initialization. The registry is the decision core: it says when
//! the initializer may run and what every requester observes afterwards.
//! The first caller initializes; everyone else borrows the same outcome,
//! and a cached failure is never retried.

use vstd::prelude::*;
use crate::engine::CoreError;

verus! {

/// Where the process-wide runtime stands.
#[derive(Debug, Clone)]
pub enum BackendInitState {
    /// Nobody has tried to initialize yet.
    Uninitialized,
    /// The runtime initialized and is shared by every load.
    Ready,
    /// Initialization failed once; the message is cached for good.
    Failed(String),
}

/// What a load request should do, given the registry.
#[derive(Debug, Clone)]
pub enum RegistryAction {
    /// Run the initializer, then record its outcome.
    RunInit,
    /// Borrow the already-initialized runtime.
    UseExisting,
    /// Fail with the cached initialization error.
    Fail(String),
}

/// The action a request observes in each state.
pub open spec fn spec_action(s: BackendInitState) -> RegistryAction {
    match s {
        BackendInitState::Uninitialized => RegistryAction::RunInit,
        BackendInitState::Ready => RegistryAction::UseExisting,
        BackendInitState::Failed(m) => RegistryAction::Fail(m),
    }
}

/// The one-shot registry for the process-wide runtime.
#[derive(Debug, Clone)]
pub struct BackendRegistry {
    pub state: BackendInitState,
}

impl BackendRegistry {
    /// A fresh registry: nothing initialized yet.
    pub fn new() -> (r: Self)
        ensures
            r.state is Uninitialized,
    {
        BackendRegistry { state: BackendInitState::Uninitialized }
    }

    /// What the current load request should do. Pure in the registry, so
    /// every requester against the same state observes the same action.
    pub fn on_request(&self) -> (a: RegistryAction)
        ensures
            a == spec_action(self.state),
    {
        match &self.state {
            BackendInitState::Uninitialized => RegistryAction::RunInit,
            BackendInitState::Ready => RegistryAction::UseExisting,
            BackendInitState::Failed(m) => RegistryAction::Fail(m.clone()),
        }
    }

    /// Record the initializer's outcome. Callable only in the untouched
    /// state, so the initializer's outcome is recorded at most once per
    /// process; afterwards the state never changes again.
    pub fn complete_init(&mut self, outcome: Result<(), String>)
        requires
            old(self).state is Uninitialized,
        ensures
            outcome is Ok ==> final(self).state is Ready,
            (match outcome {
                Err(m) => final(self).state matches BackendInitState::Failed(c) && c@ == m@,
                Ok(_) => true,
            }),
            !(final(self).state is Uninitialized),
    {
        self.state = match outcome {
            Ok(_) => BackendInitState::Ready,
            Err(m) => BackendInitState::Failed(m),
        };
    }

    /// The outcome every load observes once the registry is settled: success
    /// after `Ready`, the cached initialization error after `Failed`.
    pub fn observed(&self) -> (r: Option<Result<(), CoreError>>)
        ensures
            self.state is Uninitialized ==> r is None,
            self.state is Ready ==> (r matches Some(o) && o is Ok),
            (match self.state {
                BackendInitState::Failed(m) => r matches Some(o) && (o matches Err(
                    CoreError::BackendInit(e),
                ) && e@ == m@),
                _ => true,
            }),
    {
        match &self.state {
            BackendInitState::Uninitialized => None,
            BackendInitState::Ready => Some(Ok(())),
            BackendInitState::Failed(m) => Some(Err(CoreError::BackendInit(m.clone()))),
        }
    }
}

/// Once-only law: a request is told to run the initializer exactly in the
/// untouched state. Since recording an outcome demands the untouched state
/// and always leaves it, the initializer can run at most once per process.
pub proof fn lemma_init_only_when_uninitialized(s: BackendInitState)
    ensures
        (spec_action(s) is RunInit) <==> (s is Uninitialized),
{
}

/// Shared-outcome law: in a settled state no request re-runs the
/// initializer, and all requests observe one and the same action —
/// in particular the same cached error message after a failure.
pub proof fn lemma_settled_requests_agree(s: BackendInitState)
    requires
        !(s is Uninitialized),
    ensures
        !(spec_action(s) is RunInit),
        (match s {
            BackendInitState::Failed(m) => spec_action(s) matches RegistryAction::Fail(e) && e
                == m,
            _ => true,
        }),
{
}

} // verus!
