//! The cleaning run as a state machine. The caller performs one HTTP
//! action per state, feeds the outcome back as an event, and `step`
//! decides what follows. A failure of the initial package listing is
//! soft — the run stops, logged, with a failing status — while any
//! later listing or deletion failure is fatal at once; packages that
//! were not reached stay untouched.

use vstd::prelude::*;

verus! {

/// What went wrong with one HTTP operation.
#[derive(Clone, Debug, PartialEq)]
pub enum ApiError {
    /// The request never produced a response (network, TLS, timeout).
    Transport { detail: String },
    /// The response body did not decode as the expected shape.
    Decode { detail: String },
    /// The response carried a non-success HTTP status.
    Status { status: u16, body: String },
}

/// Where a run stands.
#[derive(Clone, Debug, PartialEq)]
pub enum RunState {
    /// Nothing fetched yet; the package listing is owed.
    Start,
    /// The distinct package names are known; the version listing of
    /// `names[pkg_idx]` is owed.
    PackageLoop { names: Vec<String>, pkg_idx: usize },
    /// Dangling version identifiers of `names[pkg_idx]` are in hand;
    /// the deletion of `ids[del_idx]` is owed.
    DeleteLoop { names: Vec<String>, pkg_idx: usize, ids: Vec<i64>, del_idx: usize },
    /// Every package was processed without a fatal error.
    Succeeded,
    /// The initial package listing failed: logged, nothing was mutated,
    /// the run ends with a failing status.
    FailedSoft { error: ApiError },
    /// A version listing or a deletion failed: the run ends at once.
    FailedFatal { error: ApiError },
}

/// What the caller must do next.
#[derive(Clone, Debug, PartialEq)]
pub enum RunAction {
    /// Fetch the organization's package listing.
    ListNames,
    /// Fetch the version listing of this package.
    ListDangling { package: String },
    /// Delete this version of this package.
    Delete { package: String, id: i64 },
}

/// The outcome of the action the caller performed.
#[derive(Debug, PartialEq)]
pub enum RunEvent {
    /// Outcome of `ListNames`: the distinct package names.
    NamesListed { outcome: Result<Vec<String>, ApiError> },
    /// Outcome of `ListDangling`: the dangling version identifiers.
    DanglingListed { outcome: Result<Vec<i64>, ApiError> },
    /// Outcome of `Delete`.
    Deleted { outcome: Result<(), ApiError> },
}

/// Indices in a non-terminal state point into their collections.
pub open spec fn spec_state_wf(s: RunState) -> bool {
    match s {
        RunState::PackageLoop { names, pkg_idx } => pkg_idx < names@.len(),
        RunState::DeleteLoop { names, pkg_idx, ids, del_idx } => pkg_idx < names@.len()
            && del_idx < ids@.len(),
        _ => true,
    }
}

/// The run is over.
pub open spec fn spec_is_terminal(s: RunState) -> bool {
    match s {
        RunState::Succeeded => true,
        RunState::FailedSoft { .. } => true,
        RunState::FailedFatal { .. } => true,
        _ => false,
    }
}

/// The event answers the action the state owes.
pub open spec fn spec_state_expects(s: RunState, e: RunEvent) -> bool {
    match (s, e) {
        (RunState::Start, RunEvent::NamesListed { .. }) => true,
        (RunState::PackageLoop { .. }, RunEvent::DanglingListed { .. }) => true,
        (RunState::DeleteLoop { .. }, RunEvent::Deleted { .. }) => true,
        _ => false,
    }
}

/// The state after the current package is done: the next package, or
/// success when none is left.
pub open spec fn spec_advance_package(names: Vec<String>, pkg_idx: usize) -> RunState
    recommends
        pkg_idx < names@.len(),
{
    if pkg_idx + 1 < names@.len() {
        RunState::PackageLoop { names, pkg_idx: (pkg_idx + 1) as usize }
    } else {
        RunState::Succeeded
    }
}

/// The transition relation of one run.
pub open spec fn spec_step(s: RunState, e: RunEvent) -> RunState
    recommends
        spec_state_wf(s),
        spec_state_expects(s, e),
{
    match (s, e) {
        (RunState::Start, RunEvent::NamesListed { outcome }) => match outcome {
            Ok(names) => if names@.len() == 0 {
                RunState::Succeeded
            } else {
                RunState::PackageLoop { names, pkg_idx: 0 }
            },
            Err(error) => RunState::FailedSoft { error },
        },
        (RunState::PackageLoop { names, pkg_idx }, RunEvent::DanglingListed { outcome }) => match outcome {
            Ok(ids) => if ids@.len() == 0 {
                spec_advance_package(names, pkg_idx)
            } else {
                RunState::DeleteLoop { names, pkg_idx, ids, del_idx: 0 }
            },
            Err(error) => RunState::FailedFatal { error },
        },
        (RunState::DeleteLoop { names, pkg_idx, ids, del_idx }, RunEvent::Deleted { outcome }) => match outcome {
            Ok(_) => if del_idx + 1 < ids@.len() {
                RunState::DeleteLoop { names, pkg_idx, ids, del_idx: (del_idx + 1) as usize }
            } else {
                spec_advance_package(names, pkg_idx)
            },
            Err(error) => RunState::FailedFatal { error },
        },
        (other, _) => other,
    }
}

/// The action a non-terminal state owes.
pub open spec fn spec_action(s: RunState) -> RunAction
    recommends
        spec_state_wf(s),
        !spec_is_terminal(s),
{
    match s {
        RunState::PackageLoop { names, pkg_idx } => RunAction::ListDangling {
            package: names@[pkg_idx as int],
        },
        RunState::DeleteLoop { names, pkg_idx, ids, del_idx } => RunAction::Delete {
            package: names@[pkg_idx as int],
            id: ids@[del_idx as int],
        },
        _ => RunAction::ListNames,
    }
}

impl RunState {
    pub fn is_terminal(&self) -> (b: bool)
        ensures
            b == spec_is_terminal(*self),
    {
        match self {
            RunState::Succeeded => true,
            RunState::FailedSoft { .. } => true,
            RunState::FailedFatal { .. } => true,
            _ => false,
        }
    }

    pub fn is_wf(&self) -> (b: bool)
        ensures
            b == spec_state_wf(*self),
    {
        match self {
            RunState::PackageLoop { names, pkg_idx } => *pkg_idx < names.len(),
            RunState::DeleteLoop { names, pkg_idx, ids, del_idx } => *pkg_idx < names.len()
                && *del_idx < ids.len(),
            _ => true,
        }
    }

    pub fn expects(&self, e: &RunEvent) -> (b: bool)
        ensures
            b == spec_state_expects(*self, *e),
    {
        match (self, e) {
            (RunState::Start, RunEvent::NamesListed { .. }) => true,
            (RunState::PackageLoop { .. }, RunEvent::DanglingListed { .. }) => true,
            (RunState::DeleteLoop { .. }, RunEvent::Deleted { .. }) => true,
            _ => false,
        }
    }

    /// The action owed in this state, for the caller to perform.
    pub fn action(&self) -> (a: RunAction)
        requires
            spec_state_wf(*self),
            !spec_is_terminal(*self),
        ensures
            a == spec_action(*self),
    {
        match self {
            RunState::PackageLoop { names, pkg_idx } => RunAction::ListDangling {
                package: names[*pkg_idx].clone(),
            },
            RunState::DeleteLoop { names, pkg_idx, ids, del_idx } => RunAction::Delete {
                package: names[*pkg_idx].clone(),
                id: ids[*del_idx],
            },
            _ => RunAction::ListNames,
        }
    }
}

/// One transition of the run.
pub fn step(state: RunState, event: RunEvent) -> (next: RunState)
    requires
        spec_state_wf(state),
        spec_state_expects(state, event),
    ensures
        next == spec_step(state, event),
        spec_state_wf(next),
{
    match (state, event) {
        (RunState::Start, RunEvent::NamesListed { outcome }) => match outcome {
            Ok(names) => {
                if names.len() == 0 {
                    RunState::Succeeded
                } else {
                    RunState::PackageLoop { names, pkg_idx: 0 }
                }
            },
            Err(error) => RunState::FailedSoft { error },
        },
        (RunState::PackageLoop { names, pkg_idx }, RunEvent::DanglingListed { outcome }) => match outcome {
            Ok(ids) => {
                if ids.len() == 0 {
                    advance_package(names, pkg_idx)
                } else {
                    RunState::DeleteLoop { names, pkg_idx, ids, del_idx: 0 }
                }
            },
            Err(error) => RunState::FailedFatal { error },
        },
        (RunState::DeleteLoop { names, pkg_idx, ids, del_idx }, RunEvent::Deleted { outcome }) => match outcome {
            Ok(_) => {
                let ids_len = ids.len();
                if del_idx + 1 < ids_len {
                    RunState::DeleteLoop { names, pkg_idx, ids, del_idx: del_idx + 1 }
                } else {
                    advance_package(names, pkg_idx)
                }
            },
            Err(error) => RunState::FailedFatal { error },
        },
        (other, _) => other,
    }
}

fn advance_package(names: Vec<String>, pkg_idx: usize) -> (next: RunState)
    requires
        pkg_idx < names@.len(),
    ensures
        next == spec_advance_package(names, pkg_idx),
        spec_state_wf(next),
{
    let names_len = names.len();
    if pkg_idx + 1 < names_len {
        RunState::PackageLoop { names, pkg_idx: pkg_idx + 1 }
    } else {
        RunState::Succeeded
    }
}

/// A failed initial package listing is soft: the run ends in the
/// logged, non-crashing failure state, so no version listing and no
/// deletion is ever attempted after it.
pub proof fn lemma_initial_listing_failure_is_soft(error: ApiError)
    ensures
        spec_step(RunState::Start, RunEvent::NamesListed { outcome: Err(error) })
            == (RunState::FailedSoft { error }),
        spec_is_terminal(spec_step(RunState::Start, RunEvent::NamesListed { outcome: Err(error) })),
{
}

/// Any failure of a version listing or of a deletion is fatal: the run
/// ends at once, and every package not yet reached stays unprocessed.
pub proof fn lemma_later_failure_is_fatal(state: RunState, error: ApiError)
    requires
        spec_state_wf(state),
    ensures
        state is PackageLoop ==> spec_step(
            state,
            RunEvent::DanglingListed { outcome: Err(error) },
        ) == (RunState::FailedFatal { error }),
        state is DeleteLoop ==> spec_step(state, RunEvent::Deleted { outcome: Err(error) })
            == (RunState::FailedFatal { error }),
        spec_is_terminal(RunState::FailedFatal { error }),
{
}

/// A successful delete call is one whose HTTP status is a success
/// status; any other status surfaces as an error that carries the
/// status and the response body.
pub fn delete_outcome(status: u16, body: String) -> (r: Result<(), ApiError>)
    ensures
        r == (if 200 <= status < 300 {
            Ok::<(), ApiError>(())
        } else {
            Err::<(), ApiError>(ApiError::Status { status, body })
        }),
{
    if 200 <= status && status < 300 {
        Ok(())
    } else {
        Err(ApiError::Status { status, body })
    }
}

} // verus!
