//! The status of a peer connection, and the cell in which it is shared.
use crate::error::Error;
use crate::ice::IceCandidate;
use arc_swap::ArcSwap;
use std::sync::Arc;
use tokio::sync::{Mutex, Notify};
use vstd::prelude::*;

verus! {

/// The notifier of `tokio` on which tasks wait for a change of status.
#[verifier::external_type_specification]
#[verifier::external_body]
pub struct ExNotify(tokio::sync::Notify);

/// The asynchronous lock of `tokio`.
#[verifier::external_type_specification]
#[verifier::external_body]
#[verifier::reject_recursive_types(T)]
pub struct ExMutex<T: ?Sized>(tokio::sync::Mutex<T>);

/// `Notify::new`: a notifier on which nobody waits. Nothing is claimed of it.
pub assume_specification[ tokio::sync::Notify::new ]() -> tokio::sync::Notify
    opens_invariants none
;

/// All who wait on a notifier are woken, at one time or another.
pub uninterp spec fn woken(notify: Notify) -> bool;

/// `Notify::notify_waiters`: wakes every task that is waiting on the notifier, and hands the
/// notifier back. Which tasks were waiting is not said.
#[verifier::external_body]
pub(crate) fn wake_waiters(notify: &Notify) -> (same: &Notify)
    ensures
        *same == *notify,
        woken(*same),
    opens_invariants none
{
    notify.notify_waiters();
    notify
}

/// The candidates that a lock was made around.
pub uninterp spec fn made_around(lock: Mutex<Vec<IceCandidate>>) -> Seq<IceCandidate>;

/// `Mutex::new`: an unlocked lock, around no candidates yet. What it guards later is not spoken of.
#[verifier::external_body]
fn lock_around() -> (lock: Mutex<Vec<IceCandidate>>)
    ensures
        made_around(lock) == Seq::<IceCandidate>::empty(),
    opens_invariants none
{
    Mutex::new(Vec::new())
}

/// One round of negotiation with the remote peer.
#[derive(Debug)]
pub struct Negotiation {
    /// Whether this peer is the one that opens the connection.
    pub initiator: bool,
    /// Wakes whoever waits for the negotiation to end.
    pub ready: Notify,
    /// Candidates that came before the description of the remote peer.
    pub pending_candidates: Mutex<Vec<IceCandidate>>,
}

impl Negotiation {
    pub fn new(initiator: bool) -> (negotiation: Self)
        ensures
            negotiation.initiator == initiator,
            made_around(negotiation.pending_candidates) == Seq::<IceCandidate>::empty(),
        opens_invariants none
    {
        Negotiation {
            initiator,
            ready: Notify::new(),
            pending_candidates: lock_around(),
        }
    }

    /// Keeps a candidate for later, after those that came before it.
    pub fn queue(pending: &mut Vec<IceCandidate>, candidate: IceCandidate)
        ensures
            final(pending)@ == old(pending)@.push(candidate),
    {
        pending.push(candidate);
    }

    /// Takes all the candidates that were kept, in the order in which they came.
    pub fn take(pending: &mut Vec<IceCandidate>) -> (candidates: Vec<IceCandidate>)
        ensures
            candidates@ == old(pending)@,
            final(pending)@ == Seq::<IceCandidate>::empty(),
    {
        let mut candidates: Vec<IceCandidate> = Vec::new();
        candidates.append(pending);
        candidates
    }
}

/// What a function may do to the cells that it can reach: change them, or only look at them.
pub open spec fn reach(may_change: bool) -> Set<int> {
    if may_change {
        Set::full()
    } else {
        Set::empty()
    }
}

/// What there is to know of a peer connection's status.
pub enum Phase {
    Waiting,
    Negotiating,
    Ready,
    /// Closed, with the cause where the connection failed.
    Closed(Option<Error>),
}

/// Status of a peer connection, with the notifier of those who wait for it to change.
#[derive(Debug)]
pub enum InnerState {
    Waiting(Notify),
    Negotiating(Negotiation),
    Ready(Notify),
    Closed(Option<Error>),
}

impl View for InnerState {
    type V = Phase;

    open spec fn view(&self) -> Phase {
        match self {
            InnerState::Waiting(_) => Phase::Waiting,
            InnerState::Negotiating(_) => Phase::Negotiating,
            InnerState::Ready(_) => Phase::Ready,
            InnerState::Closed(cause) => Phase::Closed(*cause),
        }
    }
}

/// The status after a change from `old` to `new` was asked for: a closed connection stays as it
/// was closed.
pub open spec fn succ(old: InnerState, new: InnerState) -> InnerState {
    if old@ is Closed {
        old
    } else {
        new
    }
}

/// What asking for a change is answered when the status was `old`: the cause of the failure, if
/// there was one.
pub open spec fn update_result(old: Phase) -> Result<(), Error> {
    match old {
        Phase::Closed(Some(cause)) => Err(cause),
        _ => Ok(()),
    }
}

/// What one who waits for the connection to be established is told in a given status, if
/// anything yet.
pub open spec fn connected_result(phase: Phase) -> Option<Result<(), Error>> {
    match phase {
        Phase::Waiting => None,
        Phase::Negotiating => None,
        Phase::Ready => Some(Ok(())),
        Phase::Closed(Some(cause)) => Some(Err(cause)),
        Phase::Closed(None) => Some(Ok(())),
    }
}

/// What one who waits for the connection to be closed is told in a given status, if anything yet.
pub open spec fn closed_result(phase: Phase) -> Option<Result<(), Error>> {
    match phase {
        Phase::Closed(Some(cause)) => Some(Err(cause)),
        Phase::Closed(None) => Some(Ok(())),
        _ => None,
    }
}

/// The notifier of those who wait for a status to change; none where it never will.
pub open spec fn notifier(state: InnerState) -> Option<Notify> {
    match state {
        InnerState::Waiting(ready) => Some(ready),
        InnerState::Negotiating(negotiation) => Some(negotiation.ready),
        InnerState::Ready(changed) => Some(changed),
        InnerState::Closed(_) => None,
    }
}

/// All who wait for a status to change are woken.
pub open spec fn released(state: InnerState) -> bool {
    notifier(state) matches Some(notify) ==> woken(notify)
}

/// Among the changes of a connection that goes through `states` is the one that was asked for: a
/// status was replaced by `new`, or kept where it was closed. Those who wait for it to change are
/// woken, and `result` is what a request in that status is answered with.
pub open spec fn updated(
    states: Set<InnerState>,
    changes: Set<(InnerState, InnerState)>,
    new: InnerState,
    result: Result<(), Error>,
) -> bool {
    exists|old: InnerState|
        {
            &&& #[trigger] changes.contains((old, succ(old, new)))
            &&& states.contains(old)
            &&& states.contains(succ(old, new))
            &&& released(old)
            &&& result == update_result(old@)
        }
}

/// A change to some status of the given phase was asked for, made and answered.
pub open spec fn updated_to(
    states: Set<InnerState>,
    changes: Set<(InnerState, InnerState)>,
    phase: Phase,
    result: Result<(), Error>,
) -> bool {
    exists|new: InnerState| new@ == phase && #[trigger] updated(states, changes, new, result)
}

impl InnerState {
    pub fn waiting() -> (state: Arc<Self>)
        ensures
            state@ == Phase::Waiting,
    {
        Arc::new(InnerState::Waiting(Notify::new()))
    }

    pub fn ready() -> (state: Arc<Self>)
        ensures
            state@ == Phase::Ready,
    {
        Arc::new(InnerState::Ready(Notify::new()))
    }

    pub fn closed_gracefully() -> (state: Arc<Self>)
        ensures
            *state == InnerState::Closed(None),
    {
        Arc::new(InnerState::Closed(None))
    }

    pub fn failed(e: Error) -> (state: Arc<Self>)
        ensures
            *state == InnerState::Closed(Some(e)),
    {
        Arc::new(InnerState::Closed(Some(e)))
    }

    pub fn negotiating(negotiation: Negotiation) -> (state: Arc<Self>)
        ensures
            *state == InnerState::Negotiating(negotiation),
    {
        Arc::new(InnerState::Negotiating(negotiation))
    }

    pub fn is_closed(&self) -> (closed: bool)
        ensures
            closed == (self@ is Closed),
        opens_invariants none
    {
        if let InnerState::Closed(_) = self {
            true
        } else {
            false
        }
    }

    pub fn is_negotiating(&self) -> (negotiating: bool)
        ensures
            negotiating == (self@ is Negotiating),
        opens_invariants none
    {
        if let InnerState::Negotiating(_) = self {
            true
        } else {
            false
        }
    }

    /// The word for the status.
    pub fn name(&self) -> (name: &'static str)
        ensures
            name@ == phase_name(self@),
        opens_invariants none
    {
        match self {
            InnerState::Waiting(_) => "waiting",
            InnerState::Negotiating(_) => "negotiating",
            InnerState::Ready(_) => "ready",
            InnerState::Closed(_) => "closed",
        }
    }

    /// The notifier of those who wait for this status to change; none where it never will.
    pub fn waiters(&self) -> (notify: Option<&Notify>)
        ensures
            match notify {
                Some(notify) => notifier(*self) == Some(*notify),
                None => notifier(*self) is None,
            },
        opens_invariants none
    {
        match self {
            InnerState::Waiting(ready) => Some(ready),
            InnerState::Negotiating(negotiation) => Some(&negotiation.ready),
            InnerState::Ready(n) => Some(n),
            InnerState::Closed(_) => None,
        }
    }

    /// The candidates that wait for the description of the remote peer; kept only while that is
    /// being negotiated.
    pub fn pending(&self) -> (pending: Option<&Mutex<Vec<IceCandidate>>>)
        ensures
            pending == match *self {
                InnerState::Negotiating(negotiation) => Some(&negotiation.pending_candidates),
                _ => None,
            },
        opens_invariants none
    {
        match self {
            InnerState::Negotiating(negotiation) => Some(&negotiation.pending_candidates),
            _ => None,
        }
    }

    /// The status that follows `old` when a change to `new` is asked for.
    pub fn next(old: &Arc<Self>, new: &Arc<Self>) -> (state: Arc<Self>)
        ensures
            *state == succ(**old, **new),
    {
        if old.is_closed() {
            old.clone()
        } else {
            new.clone()
        }
    }

    /// What the one who asked for a change of this status is answered.
    pub fn update_outcome(&self) -> (result: Result<(), Error>)
        ensures
            result == update_result(self@),
        opens_invariants none
    {
        if let InnerState::Closed(Some(cause)) = self {
            return Err(cause.again());
        }
        Ok(())
    }

    /// What one who waits for the connection to be established is told, if anything yet.
    pub fn connected(&self) -> (result: Option<Result<(), Error>>)
        ensures
            result == connected_result(self@),
        opens_invariants none
    {
        match self {
            InnerState::Waiting(_) => None,
            InnerState::Negotiating(_) => None,
            InnerState::Ready(_) => Some(Ok(())),
            InnerState::Closed(Some(cause)) => Some(Err(cause.again())),
            InnerState::Closed(None) => Some(Ok(())),
        }
    }

    /// What one who waits for the connection to be closed is told, if anything yet.
    pub fn closed(&self) -> (result: Option<Result<(), Error>>)
        ensures
            result == closed_result(self@),
        opens_invariants none
    {
        match self {
            InnerState::Waiting(_) => None,
            InnerState::Negotiating(_) => None,
            InnerState::Ready(_) => None,
            InnerState::Closed(Some(cause)) => Some(Err(cause.again())),
            InnerState::Closed(None) => Some(Ok(())),
        }
    }
}

/// The word for a status.
pub open spec fn phase_name(phase: Phase) -> Seq<char> {
    match phase {
        Phase::Waiting => "waiting"@,
        Phase::Negotiating => "negotiating"@,
        Phase::Ready => "ready"@,
        Phase::Closed(_) => "closed"@,
    }
}

/// The mark of a request for a status. Nothing is known of marks, so that two of them are the same
/// only where the statuses are.
pub open spec fn mark(new: InnerState) -> int {
    (arbitrary::<spec_fn(InnerState) -> int>())(new)
}

/// The marks of all requests for a status of a given phase.
pub open spec fn marks_of(phase: Phase) -> Set<int> {
    Set::new(|i: int| exists|new: InnerState| new@ == phase && i == #[trigger] mark(new))
}

/// A status that is to be put in a cell: one that others hold too, or one of its own.
pub enum Request {
    Shared(Arc<InnerState>),
    Own(InnerState),
}

impl Request {
    /// The status that is asked for.
    pub open spec fn state(self) -> InnerState {
        match self {
            Request::Shared(state) => *state,
            Request::Own(state) => state,
        }
    }
}

/// A place for a status that many tasks read and change at once.
///
/// What a function does to cells shows in the invariants that it may open. Looking at a cell opens
/// none, and putting a status in it opens the one that bears the mark of that status. So a function
/// that promises to open none leaves every cell as it is, and one that promises to open no others
/// than those of some statuses asks for nothing but these.
#[verifier::external_body]
pub struct StateCell(ArcSwap<InnerState>);

/// Every status that a cell holds at one time or another, from when it is made on.
pub uninterp spec fn states_of(cell: StateCell) -> Set<InnerState>;

/// Every change that a cell goes through: what it held, and what was put in its place.
pub uninterp spec fn changes_of(cell: StateCell) -> Set<(InnerState, InnerState)>;

impl StateCell {
    /// `ArcSwap::new`: a cell that holds the given status at first.
    #[verifier::external_body]
    fn new(state: InnerState) -> (cell: Self)
        ensures
            states_of(cell).contains(state),
        opens_invariants none
    {
        StateCell(ArcSwap::new(Arc::new(state)))
    }

    /// `ArcSwap::load_full`: a status that the cell holds. Others may change it at any time, so
    /// which of them is not said.
    #[verifier::external_body]
    fn load(&self) -> (state: Arc<InnerState>)
        ensures
            states_of(*self).contains(*state),
        opens_invariants none
    {
        self.0.load_full()
    }

    /// `ArcSwap::rcu`: puts the status that follows the one held in its place, in one step, and
    /// hands back the one that was held.
    #[verifier::external_body]
    fn rcu(&self, request: Request) -> (old: Arc<InnerState>)
        ensures
            states_of(*self).contains(*old),
            states_of(*self).contains(succ(*old, request.state())),
            changes_of(*self).contains((*old, succ(*old, request.state()))),
        opens_invariants [ mark(request.state()) ]
    {
        let new_state = match request {
            Request::Shared(state) => state,
            Request::Own(state) => Arc::new(state),
        };
        self.0.rcu(move |old| InnerState::next(old, &new_state))
    }
}

/// Status of a peer connection, shared by all who deal with it.
pub struct PeerConnectionState {
    cell: StateCell,
}

impl PeerConnectionState {
    /// Every status that the connection goes through.
    pub closed spec fn states(&self) -> Set<InnerState> {
        states_of(self.cell)
    }

    /// Every change of status that the connection goes through.
    pub closed spec fn changes(&self) -> Set<(InnerState, InnerState)> {
        changes_of(self.cell)
    }

    /// The status at this moment.
    pub fn get(&self) -> (state: Arc<InnerState>)
        ensures
            self.states().contains(*state),
        opens_invariants none
    {
        self.cell.load()
    }

    pub fn set_ready(&self) -> (result: Result<(), Error>)
        ensures
            updated_to(self.states(), self.changes(), Phase::Ready, result),
        opens_invariants marks_of(Phase::Ready)
    {
        self.request(Request::Own(InnerState::Ready(Notify::new())))
    }

    pub fn set_closed(&self) -> (result: Result<(), Error>)
        ensures
            updated(self.states(), self.changes(), InnerState::Closed(None), result),
        opens_invariants [ mark(InnerState::Closed(None)) ]
    {
        self.request(Request::Own(InnerState::Closed(None)))
    }

    pub fn set_failed(&self, cause: Error) -> (result: Result<(), Error>)
        ensures
            updated(self.states(), self.changes(), InnerState::Closed(Some(cause)), result),
        opens_invariants [ mark(InnerState::Closed(Some(cause))) ]
    {
        self.request(Request::Own(InnerState::Closed(Some(cause))))
    }

    pub fn set_negotiating(&self, negotiation: Negotiation) -> (result: Result<(), Error>)
        ensures
            updated(self.states(), self.changes(), InnerState::Negotiating(negotiation), result),
        opens_invariants [ mark(InnerState::Negotiating(negotiation)) ]
    {
        self.request(Request::Own(InnerState::Negotiating(negotiation)))
    }

    /// Changes the status, unless the connection is closed, and wakes those who wait for a
    /// change. A connection that has failed answers with the cause.
    pub fn update(&self, new_state: Arc<InnerState>) -> (result: Result<(), Error>)
        ensures
            updated(self.states(), self.changes(), *new_state, result),
        opens_invariants [ mark(*new_state) ]
    {
        self.request(Request::Shared(new_state))
    }

    /// Changes the status as asked, unless the connection is closed, and wakes those who wait for a
    /// change. A connection that has failed answers with the cause.
    pub fn request(&self, request: Request) -> (result: Result<(), Error>)
        ensures
            updated(self.states(), self.changes(), request.state(), result),
        opens_invariants [ mark(request.state()) ]
    {
        let old = self.cell.rcu(request);
        assert(self.changes().contains((*old, succ(*old, request.state()))));
        if let Some(waiters) = old.waiters() {
            wake_waiters(waiters);
        }
        old.update_outcome()
    }

    /// The status of a connection that waits for its peers to find each other.
    pub fn new() -> (status: Self)
        ensures
            exists|state: InnerState| #[trigger]
                status.states().contains(state) && state@ is Waiting,
        opens_invariants none
    {
        let state = InnerState::Waiting(Notify::new());
        let ghost first = state;
        let status = PeerConnectionState { cell: StateCell::new(state) };
        assert(status.states().contains(first));
        status
    }

    /// The word for the status at this moment.
    pub fn name(&self) -> (name: &'static str)
        ensures
            exists|state: InnerState| #[trigger]
                self.states().contains(state) && name@ == phase_name(state@),
        opens_invariants none
    {
        let state = self.cell.load();
        assert(self.states().contains(*state));
        state.name()
    }
}

impl Default for PeerConnectionState {
    fn default() -> (status: Self)
        ensures
            exists|state: InnerState| #[trigger]
                status.states().contains(state) && state@ is Waiting,
    {
        PeerConnectionState::new()
    }
}

/// The status of a connection that was in `state` after changes were asked for one after another.
pub open spec fn after_all(state: InnerState, requests: Seq<InnerState>) -> InnerState
    decreases requests.len(),
{
    if requests.len() == 0 {
        state
    } else {
        succ(after_all(state, requests.drop_last()), requests.last())
    }
}

/// A closed connection stays as it was closed, whatever is asked of it.
pub proof fn closed_is_final(state: InnerState, requests: Seq<InnerState>)
    requires
        state@ is Closed,
    ensures
        after_all(state, requests) == state,
    decreases requests.len(),
{
    if requests.len() > 0 {
        closed_is_final(state, requests.drop_last());
    }
}

/// A request that was answered has made one change, and that change left a closed connection as it
/// was: nothing but the request itself comes of an open one. Those who waited for that change are
/// woken.
pub proof fn requests_keep_what_is_closed(
    states: Set<InnerState>,
    changes: Set<(InnerState, InnerState)>,
    new: InnerState,
    result: Result<(), Error>,
)
    requires
        updated(states, changes, new, result),
    ensures
        exists|old: InnerState, next: InnerState| #[trigger]
            changes.contains((old, next)) && states.contains(old) && states.contains(next)
                && released(old) && (old@ is Closed ==> next == old && result == update_result(
                next@,
            )) && (!(old@ is Closed) ==> next == new && result == Ok::<(), Error>(())),
{
    let old = choose|old: InnerState|
        {
            &&& #[trigger] changes.contains((old, succ(old, new)))
            &&& states.contains(old)
            &&& states.contains(succ(old, new))
            &&& released(old)
            &&& result == update_result(old@)
        };
    assert(changes.contains((old, succ(old, new))));
}

/// Closing a connection, in whatever way, releases all who wait for it: they are woken, and when
/// they look again they are told, whether they wait for it to be established or to be closed.
pub proof fn closing_releases_all(
    states: Set<InnerState>,
    changes: Set<(InnerState, InnerState)>,
    cause: Option<Error>,
    result: Result<(), Error>,
)
    requires
        updated(states, changes, InnerState::Closed(cause), result),
    ensures
        exists|old: InnerState, next: InnerState| #[trigger]
            changes.contains((old, next)) && states.contains(next) && released(old)
                && closed_result(next@) is Some && connected_result(next@) is Some,
{
    let new = InnerState::Closed(cause);
    let old = choose|old: InnerState|
        {
            &&& #[trigger] changes.contains((old, succ(old, new)))
            &&& states.contains(old)
            &&& states.contains(succ(old, new))
            &&& released(old)
            &&& result == update_result(old@)
        };
    assert(changes.contains((old, succ(old, new))));
}

/// A connection that is not closed is where it was asked to be last, as long as nobody asks for it
/// to be closed.
pub proof fn last_request_counts(state: InnerState, requests: Seq<InnerState>)
    requires
        !(state@ is Closed),
        forall|i: int| 0 <= i < requests.len() ==> !((#[trigger] requests[i])@ is Closed),
    ensures
        after_all(state, requests) == if requests.len() == 0 {
            state
        } else {
            requests.last()
        },
    decreases requests.len(),
{
    if requests.len() > 0 {
        let less = requests.drop_last();
        assert forall|i: int| 0 <= i < less.len() implies !((#[trigger] less[i])@ is Closed) by {
            assert(less[i] == requests[i]);
        }
        last_request_counts(state, less);
        if less.len() > 0 {
            assert(less.last() == requests[less.len() - 1]);
        }
    }
}

/// The first request to close a connection decides how it is closed.
pub proof fn first_close_counts(state: InnerState, requests: Seq<InnerState>, first: int)
    requires
        !(state@ is Closed),
        0 <= first < requests.len(),
        requests[first]@ is Closed,
        forall|i: int| 0 <= i < first ==> !((#[trigger] requests[i])@ is Closed),
    ensures
        after_all(state, requests) == requests[first],
    decreases requests.len(),
{
    let less = requests.drop_last();
    if first == requests.len() - 1 {
        assert forall|i: int| 0 <= i < less.len() implies !((#[trigger] less[i])@ is Closed) by {
            assert(less[i] == requests[i]);
        }
        last_request_counts(state, less);
        if less.len() > 0 {
            assert(less.last() == requests[less.len() - 1]);
        }
    } else {
        assert(less[first] == requests[first]);
        assert forall|i: int| 0 <= i < first implies !((#[trigger] less[i])@ is Closed) by {
            assert(less[i] == requests[i]);
        }
        first_close_counts(state, less, first);
    }
}

/// A connection that has failed answers every later request with the cause of its failure, and
/// tells it to all who wait for it to be established or to be closed.
pub proof fn failure_is_reported(cause: Error, requests: Seq<InnerState>)
    ensures
        ({
            let later = after_all(InnerState::Closed(Some(cause)), requests);
            &&& update_result(later@) == Err::<(), Error>(cause)
            &&& connected_result(later@) == Some(Err::<(), Error>(cause))
            &&& closed_result(later@) == Some(Err::<(), Error>(cause))
        }),
{
    closed_is_final(InnerState::Closed(Some(cause)), requests);
}

/// Only a connection that has failed refuses a request: closing one a second time does no harm.
pub proof fn only_failure_refuses(phase: Phase)
    ensures
        update_result(phase) is Err <==> phase matches Phase::Closed(Some(_)),
{
}

/// Once a connection is asked to be closed, nobody waits for it to be closed any more, and where
/// it had not failed before, all are told that it went well.
pub proof fn close_ends_waiting(state: InnerState)
    ensures
        ({
            let closed = succ(state, InnerState::Closed(None));
            &&& closed_result(closed@) is Some
            &&& connected_result(closed@) is Some
            &&& !(state@ matches Phase::Closed(Some(_))) ==> closed_result(closed@) == Some(
                Ok::<(), Error>(()),
            )
        }),
{
}

/// Once a connection that is not closed is ready, nobody waits for it to be established any more.
pub proof fn ready_ends_negotiation(state: InnerState, ready: InnerState)
    requires
        !(state@ is Closed),
        ready@ is Ready,
    ensures
        connected_result(succ(state, ready)@) == Some(Ok::<(), Error>(())),
        closed_result(succ(state, ready)@) is None,
{
}

/// Those who wait for a connection to be established are told no later than those who wait for it
/// to be closed, and then the same.
pub proof fn established_before_closed(phase: Phase)
    requires
        closed_result(phase) is Some,
    ensures
        connected_result(phase) == closed_result(phase),
{
}

/// Nobody waits for a status that never changes to change.
pub proof fn waiting_can_end(state: InnerState)
    requires
        connected_result(state@) is None || closed_result(state@) is None,
    ensures
        !(state@ is Closed),
        forall|new: InnerState| #[trigger] succ(state, new) == new,
{
}

/// What is kept after candidates were kept one after another.
pub open spec fn all_queued(
    pending: Seq<IceCandidate>,
    candidates: Seq<IceCandidate>,
) -> Seq<IceCandidate>
    decreases candidates.len(),
{
    if candidates.len() == 0 {
        pending
    } else {
        all_queued(pending, candidates.drop_last()).push(candidates.last())
    }
}

/// Candidates that are kept one after another are all there when they are taken, each once, after
/// those that were kept before, and in the order in which they came.
pub proof fn candidates_are_kept_in_order(
    pending: Seq<IceCandidate>,
    candidates: Seq<IceCandidate>,
)
    ensures
        all_queued(pending, candidates) == pending + candidates,
    decreases candidates.len(),
{
    if candidates.len() > 0 {
        candidates_are_kept_in_order(pending, candidates.drop_last());
        assert(pending + candidates =~= (pending + candidates.drop_last()).push(
            candidates.last(),
        ));
    } else {
        assert(pending + candidates =~= pending);
    }
}

/// A request for a status of a given phase puts such a status in the place of one that is not
/// closed, keeps one that is, and wakes those who waited.
pub proof fn requests_for_a_phase(
    states: Set<InnerState>,
    changes: Set<(InnerState, InnerState)>,
    phase: Phase,
    result: Result<(), Error>,
)
    requires
        updated_to(states, changes, phase, result),
    ensures
        exists|old: InnerState, next: InnerState| #[trigger]
            changes.contains((old, next)) && states.contains(old) && states.contains(next)
                && released(old) && (old@ is Closed ==> next == old && result == update_result(
                next@,
            )) && (!(old@ is Closed) ==> next@ == phase && result == Ok::<(), Error>(())),
{
    let new = choose|new: InnerState|
        new@ == phase && #[trigger] updated(states, changes, new, result);
    requests_keep_what_is_closed(states, changes, new, result);
}

/// All wait for a connection to be established until it is ready or closed, and for it to be closed
/// until it is closed: not a moment less, and not a moment more.
pub proof fn how_long_to_wait(phase: Phase)
    ensures
        connected_result(phase) is None <==> phase is Waiting || phase is Negotiating,
        closed_result(phase) is None <==> phase is Waiting || phase is Negotiating || phase is Ready,
{
}

/// An error is told only of a connection that has failed, and it is the cause of that failure. All
/// others are told that it went well.
pub proof fn only_the_cause_is_told(phase: Phase, error: Error)
    ensures
        connected_result(phase) == Some(Err::<(), Error>(error)) <==> phase == Phase::Closed(
            Some(error),
        ),
        closed_result(phase) == Some(Err::<(), Error>(error)) <==> phase == Phase::Closed(
            Some(error),
        ),
        update_result(phase) == Err::<(), Error>(error) <==> phase == Phase::Closed(Some(error)),
        connected_result(phase) == Some(Ok::<(), Error>(())) <==> phase is Ready || phase
            == Phase::Closed(None),
        closed_result(phase) == Some(Ok::<(), Error>(())) <==> phase == Phase::Closed(None),
        update_result(phase) == Ok::<(), Error>(()) <==> !(phase matches Phase::Closed(Some(_))),
{
}

/// Each phase of a connection goes by a word of its own.
pub proof fn phases_have_names(phase: Phase)
    ensures
        phase_name(phase) == "waiting"@ <==> phase is Waiting,
        phase_name(phase) == "negotiating"@ <==> phase is Negotiating,
        phase_name(phase) == "ready"@ <==> phase is Ready,
        phase_name(phase) == "closed"@ <==> phase is Closed,
{
    reveal_strlit("waiting");
    reveal_strlit("negotiating");
    reveal_strlit("ready");
    reveal_strlit("closed");
    assert("waiting"@.len() == 7);
    assert("negotiating"@.len() == 11);
    assert("ready"@.len() == 5);
    assert("closed"@.len() == 6);
}

/// A status is in the phase that it says, and those who wait for it to change wait on the notifier
/// that it holds.
pub proof fn a_status_is_what_it_says(
    notify: Notify,
    negotiation: Negotiation,
    cause: Option<Error>,
)
    ensures
        InnerState::Waiting(notify)@ == Phase::Waiting,
        InnerState::Negotiating(negotiation)@ == Phase::Negotiating,
        InnerState::Ready(notify)@ == Phase::Ready,
        InnerState::Closed(cause)@ == Phase::Closed(cause),
        notifier(InnerState::Waiting(notify)) == Some(notify),
        notifier(InnerState::Negotiating(negotiation)) == Some(negotiation.ready),
        notifier(InnerState::Ready(notify)) == Some(notify),
        notifier(InnerState::Closed(cause)) is None,
        released(InnerState::Waiting(notify)) ==> woken(notify),
        released(InnerState::Negotiating(negotiation)) ==> woken(negotiation.ready),
        released(InnerState::Ready(notify)) ==> woken(notify),
{
}

/// A function that only looks has nothing that it may open, and one that asks for a status of a
/// given phase opens nothing but what bears the mark of such a status.
pub proof fn what_requests_open(invariant_name: int, new: InnerState, phase: Phase)
    ensures
        !reach(false).contains(invariant_name),
        marks_of(new@).contains(mark(new)),
        marks_of(phase).contains(invariant_name) ==> exists|other: InnerState|
            other@ == phase && invariant_name == #[trigger] mark(other),
        mark(new) == (arbitrary::<spec_fn(InnerState) -> int>())(new),
        Request::Own(new).state() == new,
        Request::Shared(Arc::new(new)).state() == new,
{
}

} // verus!
