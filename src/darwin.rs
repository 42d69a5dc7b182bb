//! The native-blocking backend, shared by iOS and macOS.
//!
//! The native location manager may only be created and used on the
//! process's owning (main) thread, and answers each call synchronously. The
//! decisions of both operations are a state machine here: the caller starts a
//! session, performs each native action that the session asks for, and hands
//! back what the platform answered, until the session finishes with a result.

use vstd::prelude::*;
use crate::coordinates::Coordinates;

verus! {

/// How long the slow path of `last_known` waits for a fix, in milliseconds.
pub const FIX_WAIT_MILLIS: u64 = 1000;

/// The authorization the platform reports for location access.
#[derive(Clone, Copy, Debug, PartialEq, Eq, Structural)]
pub enum AuthorizationState {
    NotDetermined,
    Denied,
    AuthorizedCoarse,
    AuthorizedFine,
    Restricted,
}

/// The operation a session carries out.
#[derive(Clone, Copy, Debug, PartialEq, Eq, Structural)]
pub enum Operation {
    RequestPermission,
    LastKnown,
}

/// What the session asks the caller to do next.
#[derive(Clone, Copy, Debug, PartialEq, Eq, Structural)]
pub enum NativeAction {
    /// Create the process-wide location manager.
    CreateManager,
    /// Read the current authorization state.
    QueryAuthorization,
    /// Show the "when in use" authorization prompt.
    RequestWhenInUseAuthorization,
    /// Read the manager's cached fix.
    QueryCachedLocation,
    /// Start active location updates.
    StartUpdatingLocation,
    /// Block the calling thread for the given number of milliseconds.
    Sleep { millis: u64 },
    /// Stop active location updates.
    StopUpdatingLocation,
    /// The permission request is over: return this value.
    FinishPermission(bool),
    /// The location query is over: return this value.
    FinishLocation(Option<Coordinates>),
}

/// What the platform answered to the last native action.
#[derive(Clone, Copy, Debug, PartialEq, Eq, Structural)]
pub enum NativeEvent {
    /// The manager now exists.
    ManagerCreated,
    /// The current authorization state.
    Authorization(AuthorizationState),
    /// The manager's cached fix, if it has one.
    CachedLocation(Option<Coordinates>),
    /// An action without an answer (prompt, start, sleep, stop) was carried out.
    Completed,
}

/// Where a session stands: which answer it waits for.
#[derive(Clone, Copy, Debug, PartialEq, Eq, Structural)]
pub enum Phase {
    CreatingManager,
    QueryingAuthorization,
    Prompting,
    FirstLookup,
    StartingUpdates,
    Waiting,
    SecondLookup,
    StoppingUpdates,
    Finished,
}

/// One run of an operation against the native manager.
#[derive(Clone, Copy, Debug, PartialEq, Eq, Structural)]
pub struct NativeSession {
    pub operation: Operation,
    pub phase: Phase,
    /// Active location updates were started and not yet stopped.
    pub updating: bool,
    /// The fix found by the second lookup of the slow path.
    pub found: Option<Coordinates>,
}

/// The action that ends `op` unsuccessfully.
pub open spec fn failure_action(op: Operation) -> NativeAction {
    match op {
        Operation::RequestPermission => NativeAction::FinishPermission(false),
        Operation::LastKnown => NativeAction::FinishLocation(None),
    }
}

/// Whether `a` ends a session.
pub open spec fn is_finish(a: NativeAction) -> bool {
    match a {
        NativeAction::FinishPermission(_) | NativeAction::FinishLocation(_) => true,
        _ => false,
    }
}

/// Whether `a` calls into the platform.
pub open spec fn is_native_call(a: NativeAction) -> bool {
    !is_finish(a)
}

/// The session and first action of `op`, started on the owning thread or not,
/// with the manager created already or not.
pub open spec fn start(op: Operation, on_owning_thread: bool, manager_ready: bool) -> (NativeSession, NativeAction) {
    if !on_owning_thread {
        (
            NativeSession { operation: op, phase: Phase::Finished, updating: false, found: None },
            failure_action(op),
        )
    } else if !manager_ready {
        (
            NativeSession { operation: op, phase: Phase::CreatingManager, updating: false, found: None },
            NativeAction::CreateManager,
        )
    } else {
        (
            NativeSession { operation: op, phase: Phase::QueryingAuthorization, updating: false, found: None },
            NativeAction::QueryAuthorization,
        )
    }
}

/// `s` moved to phase `p`.
pub open spec fn enter(s: NativeSession, p: Phase) -> NativeSession {
    NativeSession { phase: p, ..s }
}

/// How a session that received an answer it did not wait for ends: it stops
/// updates first if they run, else it finishes unsuccessfully. (A session
/// that waits for updates to stop takes any answer as their end.)
pub open spec fn abandon(s: NativeSession) -> (NativeSession, NativeAction) {
    if s.updating {
        (NativeSession { phase: Phase::StoppingUpdates, found: None, ..s }, NativeAction::StopUpdatingLocation)
    } else {
        (enter(s, Phase::Finished), failure_action(s.operation))
    }
}

/// The next session and action after `s` receives `e`.
pub open spec fn transition(s: NativeSession, e: NativeEvent) -> (NativeSession, NativeAction) {
    match (s.phase, e) {
        (Phase::CreatingManager, NativeEvent::ManagerCreated) => (
            enter(s, Phase::QueryingAuthorization),
            NativeAction::QueryAuthorization,
        ),
        (Phase::QueryingAuthorization, NativeEvent::Authorization(state)) => match s.operation {
            Operation::RequestPermission => if state == AuthorizationState::NotDetermined {
                (enter(s, Phase::Prompting), NativeAction::RequestWhenInUseAuthorization)
            } else {
                (enter(s, Phase::Finished), NativeAction::FinishPermission(true))
            },
            Operation::LastKnown => (enter(s, Phase::FirstLookup), NativeAction::QueryCachedLocation),
        },
        (Phase::Prompting, NativeEvent::Completed) => (
            enter(s, Phase::Finished),
            NativeAction::FinishPermission(true),
        ),
        (Phase::FirstLookup, NativeEvent::CachedLocation(Some(c))) => (
            enter(s, Phase::Finished),
            NativeAction::FinishLocation(Some(c)),
        ),
        (Phase::FirstLookup, NativeEvent::CachedLocation(None)) => (
            NativeSession { phase: Phase::StartingUpdates, updating: true, ..s },
            NativeAction::StartUpdatingLocation,
        ),
        (Phase::StartingUpdates, NativeEvent::Completed) => (
            enter(s, Phase::Waiting),
            NativeAction::Sleep { millis: FIX_WAIT_MILLIS },
        ),
        (Phase::Waiting, NativeEvent::Completed) => (
            enter(s, Phase::SecondLookup),
            NativeAction::QueryCachedLocation,
        ),
        (Phase::SecondLookup, NativeEvent::CachedLocation(l)) => (
            NativeSession { phase: Phase::StoppingUpdates, found: l, ..s },
            NativeAction::StopUpdatingLocation,
        ),
        (Phase::StoppingUpdates, NativeEvent::Completed) => (
            NativeSession { phase: Phase::Finished, updating: false, ..s },
            NativeAction::FinishLocation(s.found),
        ),
        (Phase::StoppingUpdates, _) => (
            NativeSession { phase: Phase::Finished, updating: false, found: None, ..s },
            NativeAction::FinishLocation(None),
        ),
        (Phase::Finished, _) => (s, failure_action(s.operation)),
        (_, _) => abandon(s),
    }
}

impl NativeSession {
    /// Active updates run exactly in the phases between starting and
    /// stopping them, and only a location query ever starts them.
    pub open spec fn well_formed(&self) -> bool {
        &&& self.updating <==> (self.phase == Phase::StartingUpdates || self.phase == Phase::Waiting
            || self.phase == Phase::SecondLookup || self.phase == Phase::StoppingUpdates)
        &&& self.updating ==> self.operation == Operation::LastKnown
        &&& self.phase == Phase::FirstLookup ==> self.operation == Operation::LastKnown
        &&& self.phase == Phase::Prompting ==> self.operation == Operation::RequestPermission
    }

    /// Starts `op`. Off the owning thread the session finishes at once.
    pub fn start(op: Operation, on_owning_thread: bool, manager_ready: bool) -> (r: (NativeSession, NativeAction))
        ensures
            r == start(op, on_owning_thread, manager_ready),
            r.0.well_formed(),
    {
        if !on_owning_thread {
            let a = match op {
                Operation::RequestPermission => NativeAction::FinishPermission(false),
                Operation::LastKnown => NativeAction::FinishLocation(None),
            };
            (NativeSession { operation: op, phase: Phase::Finished, updating: false, found: None }, a)
        } else if !manager_ready {
            (
                NativeSession { operation: op, phase: Phase::CreatingManager, updating: false, found: None },
                NativeAction::CreateManager,
            )
        } else {
            (
                NativeSession { operation: op, phase: Phase::QueryingAuthorization, updating: false, found: None },
                NativeAction::QueryAuthorization,
            )
        }
    }

    fn fail(&self) -> (r: NativeAction)
        ensures
            r == failure_action(self.operation),
    {
        match self.operation {
            Operation::RequestPermission => NativeAction::FinishPermission(false),
            Operation::LastKnown => NativeAction::FinishLocation(None),
        }
    }

    /// Hands the session the platform's answer to its last action and
    /// returns the next action.
    pub fn step(&mut self, e: NativeEvent) -> (r: NativeAction)
        requires
            old(self).well_formed(),
        ensures
            (*final(self), r) == transition(*old(self), e),
            final(self).well_formed(),
    {
        match (self.phase, e) {
            (Phase::CreatingManager, NativeEvent::ManagerCreated) => {
                self.phase = Phase::QueryingAuthorization;
                NativeAction::QueryAuthorization
            },
            (Phase::QueryingAuthorization, NativeEvent::Authorization(state)) => match self.operation {
                Operation::RequestPermission => {
                    if state == AuthorizationState::NotDetermined {
                        self.phase = Phase::Prompting;
                        NativeAction::RequestWhenInUseAuthorization
                    } else {
                        self.phase = Phase::Finished;
                        NativeAction::FinishPermission(true)
                    }
                },
                Operation::LastKnown => {
                    self.phase = Phase::FirstLookup;
                    NativeAction::QueryCachedLocation
                },
            },
            (Phase::Prompting, NativeEvent::Completed) => {
                self.phase = Phase::Finished;
                NativeAction::FinishPermission(true)
            },
            (Phase::FirstLookup, NativeEvent::CachedLocation(Some(c))) => {
                self.phase = Phase::Finished;
                NativeAction::FinishLocation(Some(c))
            },
            (Phase::FirstLookup, NativeEvent::CachedLocation(None)) => {
                self.phase = Phase::StartingUpdates;
                self.updating = true;
                NativeAction::StartUpdatingLocation
            },
            (Phase::StartingUpdates, NativeEvent::Completed) => {
                self.phase = Phase::Waiting;
                NativeAction::Sleep { millis: FIX_WAIT_MILLIS }
            },
            (Phase::Waiting, NativeEvent::Completed) => {
                self.phase = Phase::SecondLookup;
                NativeAction::QueryCachedLocation
            },
            (Phase::SecondLookup, NativeEvent::CachedLocation(l)) => {
                self.phase = Phase::StoppingUpdates;
                self.found = l;
                NativeAction::StopUpdatingLocation
            },
            (Phase::StoppingUpdates, NativeEvent::Completed) => {
                self.phase = Phase::Finished;
                self.updating = false;
                NativeAction::FinishLocation(self.found)
            },
            (Phase::StoppingUpdates, _) => {
                self.phase = Phase::Finished;
                self.updating = false;
                self.found = None;
                NativeAction::FinishLocation(None)
            },
            (Phase::Finished, _) => self.fail(),
            (_, _) => {
                if self.updating {
                    self.phase = Phase::StoppingUpdates;
                    self.found = None;
                    NativeAction::StopUpdatingLocation
                } else {
                    self.phase = Phase::Finished;
                    self.fail()
                }
            },
        }
    }

    /// The session has ended.
    pub fn is_finished(&self) -> (r: bool)
        ensures
            r == (self.phase == Phase::Finished),
    {
        self.phase == Phase::Finished
    }
}

/// Starts a permission request: the session and its first action.
pub fn request_permission(on_owning_thread: bool, manager_ready: bool) -> (r: (NativeSession, NativeAction))
    ensures
        r == start(Operation::RequestPermission, on_owning_thread, manager_ready),
        r.0.well_formed(),
{
    NativeSession::start(Operation::RequestPermission, on_owning_thread, manager_ready)
}

/// Starts a last-known-location query: the session and its first action.
pub fn last_known(on_owning_thread: bool, manager_ready: bool) -> (r: (NativeSession, NativeAction))
    ensures
        r == start(Operation::LastKnown, on_owning_thread, manager_ready),
        r.0.well_formed(),
{
    NativeSession::start(Operation::LastKnown, on_owning_thread, manager_ready)
}

/// Off the owning thread, either operation finishes at once with `false` or
/// `None`, before any native call.
pub proof fn lemma_off_thread_is_unavailable(op: Operation, manager_ready: bool)
    ensures
        start(op, false, manager_ready).1 == failure_action(op),
        !is_native_call(start(op, false, manager_ready).1),
        start(op, false, manager_ready).0.phase == Phase::Finished,
{
}

/// A permission request shows the prompt exactly when the authorization
/// state it reads is `NotDetermined`, and no other step of any session shows
/// it; once past the thread check, a request whose state is decided returns
/// `true` at once.
pub proof fn lemma_prompt_iff_not_determined(s: NativeSession, e: NativeEvent)
    requires
        s.well_formed(),
    ensures
        transition(s, e).1 == NativeAction::RequestWhenInUseAuthorization <==> (s.operation
            == Operation::RequestPermission && s.phase == Phase::QueryingAuthorization && e
            == NativeEvent::Authorization(AuthorizationState::NotDetermined)),
        forall|op: Operation, on: bool, ready: bool|
            #[trigger] start(op, on, ready).1 != NativeAction::RequestWhenInUseAuthorization,
        (s.operation == Operation::RequestPermission && s.phase == Phase::QueryingAuthorization)
            ==> forall|state: AuthorizationState|
            state != AuthorizationState::NotDetermined ==> #[trigger] transition(
                s,
                NativeEvent::Authorization(state),
            ).1 == NativeAction::FinishPermission(true),
{
}

/// Every step keeps a session well formed; a session never finishes while
/// active updates run; and updates end only when the caller acknowledges the
/// stop that the session asked for. So a location query that started
/// updates always stops them before it returns, found fix or not.
pub proof fn lemma_updates_stopped_before_finish(s: NativeSession, e: NativeEvent)
    requires
        s.well_formed(),
    ensures
        transition(s, e).0.well_formed(),
        is_finish(transition(s, e).1) ==> !transition(s, e).0.updating,
        s.updating && !transition(s, e).0.updating ==> s.phase == Phase::StoppingUpdates,
        transition(s, e).0.phase == Phase::StoppingUpdates && s.phase != Phase::StoppingUpdates
            ==> transition(s, e).1 == NativeAction::StopUpdatingLocation,
        !s.updating && transition(s, e).0.updating ==> transition(s, e).1
            == NativeAction::StartUpdatingLocation,
{
}

/// The session and the actions it asked for after receiving the answers
/// `es` in order, starting from `s`.
pub open spec fn run(s: NativeSession, es: Seq<NativeEvent>) -> (NativeSession, Seq<NativeAction>)
    decreases es.len(),
{
    if es.len() == 0 {
        (s, Seq::empty())
    } else {
        let (p, acts) = run(s, es.drop_last());
        let (n, a) = transition(p, es.last());
        (n, acts.push(a))
    }
}

/// How many times `a` occurs in `acts`.
pub open spec fn occurrences(acts: Seq<NativeAction>, a: NativeAction) -> nat
    decreases acts.len(),
{
    if acts.len() == 0 {
        0
    } else {
        occurrences(acts.drop_last(), a) + if acts.last() == a {
            1nat
        } else {
            0nat
        }
    }
}

/// Updates run and the session has not yet asked to stop them.
pub open spec fn stop_pending(s: NativeSession) -> bool {
    s.updating && s.phase != Phase::StoppingUpdates
}

/// Over any sequence of answers, a session that starts without active
/// updates asks to stop them once for each time it started them, but for at
/// most one start whose stop is still due; and when it finishes, every start
/// has been matched by a stop and no updates run.
pub proof fn lemma_every_start_is_stopped(s: NativeSession, es: Seq<NativeEvent>)
    requires
        s.well_formed(),
        !s.updating,
    ensures
        run(s, es).0.well_formed(),
        occurrences(run(s, es).1, NativeAction::StartUpdatingLocation) == occurrences(
            run(s, es).1,
            NativeAction::StopUpdatingLocation,
        ) + if stop_pending(run(s, es).0) {
            1nat
        } else {
            0nat
        },
        run(s, es).1.len() > 0 && is_finish(run(s, es).1.last()) ==> {
            &&& !run(s, es).0.updating
            &&& occurrences(run(s, es).1, NativeAction::StartUpdatingLocation) == occurrences(
                run(s, es).1,
                NativeAction::StopUpdatingLocation,
            )
        },
    decreases es.len(),
{
    if es.len() > 0 {
        let p = es.drop_last();
        lemma_every_start_is_stopped(s, p);
        let (q, acts) = run(s, p);
        lemma_updates_stopped_before_finish(q, es.last());
        let (n, a) = transition(q, es.last());
        assert(run(s, es) == (n, acts.push(a)));
        assert(acts.push(a).drop_last() == acts);
    }
}

} // verus!
