//! A peer connection: what it knows, and how it reacts to what happens to it.
use crate::error::Error;
use crate::ice::{candidate_line, presents, IceCandidate, IceCandidateInit};
use crate::options::{by_label, labels_differ, Configuration, DataChannelInit, Options};
use crate::signal::{SdpType, Signal};
use crate::status::{
    closed_result, connected_result, made_around, mark, marks_of, phase_name, reach, released,
    requests_keep_what_is_closed, succ, update_result, updated, InnerState, Negotiation,
    PeerConnectionState, Phase, Request,
};
use crate::task::{
    answers, due, first_task, handles_candidates, next_task, what_is_due_is_converted, Reply, ReplyView, Task, TaskView,
};
use std::sync::Arc;
use tokio::sync::Notify;
use vstd::prelude::*;

verus! {

/// State of the underlying connection, as it reports it.
#[derive(Debug, Clone, Copy, PartialEq, Eq, Structural)]
pub enum ConnectionState {
    Unspecified,
    New,
    Connecting,
    Connected,
    Disconnected,
    Failed,
    Closed,
}

/// State of the underlying ICE transport, as it reports it.
#[derive(Debug, Clone, Copy, PartialEq, Eq, Structural)]
pub enum IceConnectionState {
    Unspecified,
    New,
    Checking,
    Connected,
    Completed,
    Disconnected,
    Failed,
    Closed,
}

/// The status that a report of the underlying connection asks for, if it asks for one.
pub open spec fn connection_phase(state: ConnectionState) -> Option<Phase> {
    match state {
        ConnectionState::Connected => Some(Phase::Ready),
        ConnectionState::Failed => Some(Phase::Closed(Some(Error::ConnectionClosed))),
        ConnectionState::Closed => Some(Phase::Closed(None)),
        _ => None,
    }
}

/// The status that a report of the underlying ICE transport asks for, if it asks for one.
pub open spec fn ice_phase(state: IceConnectionState) -> Option<Phase> {
    match state {
        IceConnectionState::Connected | IceConnectionState::Completed => Some(Phase::Ready),
        IceConnectionState::Failed => Some(Phase::Closed(Some(Error::IceConnectionNotStarted))),
        IceConnectionState::Closed => Some(Phase::Closed(None)),
        _ => None,
    }
}

/// What is asked for is a status of the given phase, or nothing where there is none.
pub open spec fn asks_for(request: Option<InnerState>, phase: Option<Phase>) -> bool {
    match (request, phase) {
        (Some(new), Some(phase)) => new@ == phase,
        (None, None) => true,
        (_, _) => false,
    }
}

/// The status of a connection that was in the status `old` after a report that asks for `request`:
/// one that asks for nothing leaves it as it was.
pub open spec fn after_report(old: InnerState, request: Option<InnerState>) -> InnerState {
    match request {
        Some(new) => succ(old, new),
        None => old,
    }
}

/// The marks of what a report may ask for.
pub open spec fn asked_by_report(phase: Option<Phase>) -> Set<int> {
    match phase {
        Some(phase) => marks_of(phase),
        None => Set::empty(),
    }
}

/// What a report asks for was asked of a connection and answered. Nothing is asked of it, and there
/// is no answer, where the report asks for nothing.
pub open spec fn reported(
    states: Set<InnerState>,
    changes: Set<(InnerState, InnerState)>,
    request: Option<InnerState>,
    answer: Option<Result<(), Error>>,
) -> bool {
    match request {
        Some(new) => answer is Some && updated(states, changes, new, answer->0),
        None => answer is None,
    }
}

/// The status that a report of the underlying connection asks for.
pub fn requested_by_connection(state: ConnectionState) -> (new_state: Option<InnerState>)
    ensures
        match new_state {
            Some(new_state) => connection_phase(state) == Some(new_state@),
            None => connection_phase(state) is None,
        },
    opens_invariants none
{
    match state {
        ConnectionState::Connected => Some(InnerState::Ready(Notify::new())),
        ConnectionState::Failed => Some(InnerState::Closed(Some(Error::ConnectionClosed))),
        ConnectionState::Closed => Some(InnerState::Closed(None)),
        ConnectionState::Disconnected => None,
        ConnectionState::Unspecified => None,
        ConnectionState::New => None,
        ConnectionState::Connecting => None,
    }
}

/// The status that a report of the underlying ICE transport asks for.
pub fn requested_by_ice(state: IceConnectionState) -> (new_state: Option<InnerState>)
    ensures
        match new_state {
            Some(new_state) => ice_phase(state) == Some(new_state@),
            None => ice_phase(state) is None,
        },
    opens_invariants none
{
    match state {
        IceConnectionState::Failed => Some(
            InnerState::Closed(Some(Error::IceConnectionNotStarted)),
        ),
        IceConnectionState::Closed => Some(InnerState::Closed(None)),
        IceConnectionState::Completed => Some(InnerState::Ready(Notify::new())),
        IceConnectionState::Connected => Some(InnerState::Ready(Notify::new())),
        IceConnectionState::Unspecified => None,
        IceConnectionState::New => None,
        IceConnectionState::Checking => None,
        IceConnectionState::Disconnected => None,
    }
}

/// How far something that is waited for has come.
#[derive(Debug)]
pub enum Progress {
    /// It has not happened: wait until this status changes, and look again.
    Wait(Arc<InnerState>),
    /// It has happened, or never will.
    Done(Result<(), Error>),
}

/// What is to be done next, and the status of the connection that decided it.
pub struct Step {
    pub task: Task,
    pub status: Arc<InnerState>,
}

/// What a connection starts with.
pub struct Start {
    pub connection: PeerConnection,
    /// The data channels to open, with their properties.
    pub channels: Vec<(String, Option<DataChannelInit>)>,
    /// Configuration of the underlying connection.
    pub rtc_config: Configuration,
}

/// A connection to a remote peer.
pub struct PeerConnection {
    initiator: bool,
    status: PeerConnectionState,
}

/// `after` is what is to be done once `candidate`, which `task` is to bring into its other form,
/// has been brought into that form, or could not be.
pub open spec fn converted(
    task: TaskView,
    candidate: IceCandidate,
    phase: Phase,
    after: TaskView,
) -> bool {
    match candidate_line(candidate@) {
        Some(line) => exists|init: IceCandidateInit| #[trigger]
            presents(init, line) && after == next_task(
                task,
                phase,
                ReplyView::Converted(Ok(init)),
            ),
        None => exists|error: Error|
            error is Webrtc && after == #[trigger] next_task(
                task,
                phase,
                ReplyView::Converted(Err(error)),
            ),
    }
}

/// `after` is what is to be done after a task that went as `reply` says, with the candidate that
/// is due already brought into the form in which the connection takes it.
pub open spec fn advanced(
    task: TaskView,
    phase: Phase,
    reply: ReplyView,
    after: TaskView,
) -> bool {
    let next = next_task(task, phase, reply);
    match next {
        TaskView::ConvertCandidate(candidate) => converted(next, candidate, phase, after),
        TaskView::ConvertNext(rest) => converted(next, rest[0], phase, after),
        _ => after == next,
    }
}

/// The candidate that is due, if there is one, can be brought into its other form, or is refused.
pub open spec fn due_is_convertible(task: TaskView, reply: ReplyView) -> bool {
    due(task, reply) matches Some(candidate) ==> candidate@.is_convertible()
}

/// The task is about the candidates that are kept while the connection is negotiated.
pub open spec fn needs_pending(task: TaskView) -> bool {
    task is QueueCandidate || task is TakeCandidates
}

impl PeerConnection {
    pub closed spec fn initiator(&self) -> bool {
        self.initiator
    }

    /// Every status that the connection goes through.
    pub closed spec fn states(&self) -> Set<InnerState> {
        self.status.states()
    }

    /// Every change of status that the connection goes through.
    pub closed spec fn changes(&self) -> Set<(InnerState, InnerState)> {
        self.status.changes()
    }

    /// A connection that waits for its peers to find each other. Only the one who opens it opens
    /// the data channels.
    pub fn start(initiator: bool, options: Options) -> (start: Start)
        ensures
            start.connection.initiator() == initiator,
            exists|state: InnerState| #[trigger]
                start.connection.states().contains(state) && state@ is Waiting,
            labels_differ(start.channels@),
            by_label(start.channels@) == if initiator {
                options.labels@
            } else {
                Map::empty()
            },
            start.rtc_config == options.rtc_config,
        opens_invariants none
    {
        let status = PeerConnectionState::new();
        let ghost first = choose|state: InnerState| #[trigger]
            status.states().contains(state) && state@ is Waiting;
        let connection = PeerConnection { initiator, status };
        assert(connection.states().contains(first));
        let channels = options.labels.opened_by(initiator);
        Start { connection, channels, rtc_config: options.rtc_config }
    }

    /// Check if current [PeerConnection] is the initiator of the connection.
    pub fn is_initiator(&self) -> (initiator: bool)
        ensures
            initiator == self.initiator(),
        opens_invariants none
    {
        self.initiator
    }

    /// Check if current peer connection is in process of being negotiated with its remote
    /// counterpart.
    pub fn is_negotiating(&self) -> (negotiating: bool)
        ensures
            exists|state: InnerState| #[trigger]
                self.states().contains(state) && negotiating == (state@ is Negotiating),
        opens_invariants none
    {
        let state = self.status.get();
        assert(self.states().contains(*state));
        state.is_negotiating()
    }

    /// The status at this moment.
    pub fn status(&self) -> (state: Arc<InnerState>)
        ensures
            self.states().contains(*state),
        opens_invariants none
    {
        self.status.get()
    }

    /// The word for the status at this moment.
    pub fn status_name(&self) -> (name: &'static str)
        ensures
            exists|state: InnerState| #[trigger]
                self.states().contains(state) && name@ == phase_name(state@),
        opens_invariants none
    {
        let name = self.status.name();
        let ghost state = choose|state: InnerState| #[trigger]
            self.status.states().contains(state) && name@ == phase_name(state@);
        assert(self.states().contains(state));
        name
    }

    /// How far the negotiation with the remote peer has come.
    pub fn connected(&self) -> (progress: Progress)
        ensures
            match progress {
                Progress::Wait(state) => self.states().contains(*state) && connected_result(state@) is None,
                Progress::Done(result) => exists|state: InnerState| #[trigger]
                    self.states().contains(state) && connected_result(state@) == Some(result),
            },
        opens_invariants none
    {
        let state = self.status.get();
        assert(self.states().contains(*state));
        match state.connected() {
            Some(result) => Progress::Done(result),
            None => Progress::Wait(state),
        }
    }

    /// Whether the connection is closed yet, without asking for it to be closed.
    pub fn closed(&self) -> (progress: Progress)
        ensures
            match progress {
                Progress::Wait(state) => self.states().contains(*state) && closed_result(state@) is None,
                Progress::Done(result) => exists|state: InnerState| #[trigger]
                    self.states().contains(state) && closed_result(state@) == Some(result),
            },
        opens_invariants none
    {
        let state = self.status.get();
        assert(self.states().contains(*state));
        match state.closed() {
            Some(result) => Progress::Done(result),
            None => Progress::Wait(state),
        }
    }

    /// Whether there may be messages for the remote peer to wait for. A closed connection has
    /// none.
    pub fn signal(&self) -> (listen: bool)
        ensures
            exists|state: InnerState| #[trigger]
                self.states().contains(state) && listen == !(state@ is Closed),
        opens_invariants none
    {
        let state = self.status.get();
        assert(self.states().contains(*state));
        !state.is_closed()
    }

    /// What is to be done about a message that came from the remote peer.
    pub fn apply_signal(&self, signal: Signal) -> (step: Step)
        ensures
            self.states().contains(*step.status),
            step.task@ == first_task(self.initiator(), step.status@, signal),
        opens_invariants none
    {
        let status = self.status.get();
        Step { task: Task::first(self.initiator, &status, signal), status }
    }

    /// What is to be done when the underlying connection asks to be negotiated.
    pub fn negotiation_needed(&self) -> (step: Step)
        ensures
            self.states().contains(*step.status),
            step.task@ == TaskView::BeginNegotiation,
        opens_invariants none
    {
        Step { task: Task::BeginNegotiation, status: self.status.get() }
    }

    /// What is to be done next, now that the task went as `reply` says. The candidate that is due
    /// can be brought into its other form, or is refused.
    pub fn advance(&self, task: Task, reply: Reply) -> (step: Step)
        requires
            answers(task@, reply@),
            due_is_convertible(task@, reply@),
        ensures
            self.states().contains(*step.status),
            advanced(task@, step.status@, reply@, step.task@),
            needs_pending(step.task@) ==> step.status@ is Negotiating,
            !(step.task@ is ConvertCandidate) && !(step.task@ is ConvertNext),
        opens_invariants reach(handles_candidates(task@, reply@))
    {
        let status = self.status.get();
        proof {
            what_is_due_is_converted(task@, status@, reply@);
        }
        let next = task.next(&status, reply);
        let result = match &next {
            Task::ConvertCandidate(candidate) => candidate.to_json(),
            Task::ConvertNext(rest) => rest[0].to_json(),
            _ => return Step { task: next, status },
        };
        Step { task: next.next(&status, Reply::Converted(result)), status }
    }

    /// What is to be done next, now that the task went as `reply` says. There is nothing where that
    /// is no outcome of the task, or where no priority can be computed for the candidate that is
    /// due.
    pub fn try_advance(&self, task: Task, reply: Reply) -> (step: Option<Step>)
        ensures
            step is Some <==> answers(task@, reply@) && due_is_convertible(task@, reply@),
            step matches Some(step) ==> {
                &&& self.states().contains(*step.status)
                &&& advanced(task@, step.status@, reply@, step.task@)
                &&& needs_pending(step.task@) ==> step.status@ is Negotiating
                &&& !(step.task@ is ConvertCandidate) && !(step.task@ is ConvertNext)
            },
        opens_invariants reach(handles_candidates(task@, reply@))
    {
        if !task.is_answered_by(&reply) {
            return None;
        }
        if let Some(candidate) = task.due(&reply) {
            if let None = candidate.try_to_json() {
                return None;
            }
        }
        Some(self.advance(task, reply))
    }

    /// Enters a new round of negotiation.
    pub fn begin_negotiation(&self) -> (result: Result<(), Error>)
        ensures
            exists|negotiation: Negotiation|
                {
                    &&& negotiation.initiator == self.initiator()
                    &&& made_around(negotiation.pending_candidates) == Seq::<IceCandidate>::empty()
                    &&& #[trigger] updated(
                        self.states(),
                        self.changes(),
                        InnerState::Negotiating(negotiation),
                        result,
                    )
                },
        opens_invariants marks_of(Phase::Negotiating)
    {
        let negotiation = Negotiation::new(self.initiator);
        let result = self.status.set_negotiating(negotiation);
        assert(updated(
            self.states(),
            self.changes(),
            InnerState::Negotiating(negotiation),
            result,
        ));
        result
    }

    /// Closes the connection as failed.
    pub fn fail(&self, cause: Error) -> (result: Result<(), Error>)
        ensures
            updated(self.states(), self.changes(), InnerState::Closed(Some(cause)), result),
        opens_invariants [ mark(InnerState::Closed(Some(cause))) ]
    {
        self.status.set_failed(cause)
    }

    /// Closes the connection gracefully.
    pub fn close(&self) -> (result: Result<(), Error>)
        ensures
            updated(self.states(), self.changes(), InnerState::Closed(None), result),
        opens_invariants [ mark(InnerState::Closed(None)) ]
    {
        self.status.set_closed()
    }

    /// Asks for the status that a report asks for, if it asks for one.
    fn report(&self, request: Option<InnerState>) -> (answer: Option<Result<(), Error>>)
        ensures
            reported(self.states(), self.changes(), request, answer),
        opens_invariants
            match request {
                Some(new) => set![mark(new)],
                None => Set::empty(),
            }
    {
        match request {
            Some(new_state) => Some(self.status.request(Request::Own(new_state))),
            None => None,
        }
    }

    /// Takes note of the state that the underlying connection reports. The answer is that of the
    /// status, if it was asked to change.
    pub fn on_connection_state(&self, state: ConnectionState) -> (answer: Option<
        Result<(), Error>,
    >)
        ensures
            exists|request: Option<InnerState>|
                asks_for(request, connection_phase(state)) && #[trigger] reported(
                    self.states(),
                    self.changes(),
                    request,
                    answer,
                ),
        opens_invariants asked_by_report(connection_phase(state))
    {
        self.report(requested_by_connection(state))
    }

    /// Takes note of the state that the underlying ICE transport reports. The answer is that of
    /// the status, if it was asked to change.
    pub fn on_ice_state(&self, state: IceConnectionState) -> (answer: Option<Result<(), Error>>)
        ensures
            exists|request: Option<InnerState>|
                asks_for(request, ice_phase(state)) && #[trigger] reported(
                    self.states(),
                    self.changes(),
                    request,
                    answer,
                ),
        opens_invariants asked_by_report(ice_phase(state))
    {
        self.report(requested_by_ice(state))
    }

    /// The message for the remote peer about a candidate that was found. When there are no more,
    /// there is nothing to say.
    pub fn on_ice_candidate(candidate: Option<IceCandidate>) -> (signal: Option<Signal>)
        ensures
            signal == match candidate {
                Some(candidate) => Some(Signal::Candidate(candidate)),
                None => None,
            },
        opens_invariants none
    {
        match candidate {
            Some(candidate) => Some(Signal::Candidate(candidate)),
            None => None,
        }
    }
}

/// Where the underlying connection reports that it is connected, a connection that is not closed is
/// established; where it reports that it has failed or is closed, it is closed, with that cause or
/// with none. Every other report leaves its status as it was.
pub proof fn connection_reports(
    old: InnerState,
    state: ConnectionState,
    request: Option<InnerState>,
)
    requires
        !(old@ is Closed),
        asks_for(request, connection_phase(state)),
    ensures
        ({
            let later = after_report(old, request);
            match state {
                ConnectionState::Connected => connected_result(later@) == Some(
                    Ok::<(), Error>(()),
                ) && closed_result(later@) is None,
                ConnectionState::Failed => closed_result(later@) == Some(
                    Err::<(), Error>(Error::ConnectionClosed),
                ),
                ConnectionState::Closed => closed_result(later@) == Some(Ok::<(), Error>(())),
                _ => later == old,
            }
        }),
{
}

/// Where the underlying ICE transport reports that it is connected or has completed, a connection
/// that is not closed is established; where it reports that it has failed or is closed, it is
/// closed, with that cause or with none. Every other report leaves its status as it was: losing
/// contact alone closes nothing.
pub proof fn ice_reports(old: InnerState, state: IceConnectionState, request: Option<InnerState>)
    requires
        !(old@ is Closed),
        asks_for(request, ice_phase(state)),
    ensures
        ({
            let later = after_report(old, request);
            match state {
                IceConnectionState::Connected | IceConnectionState::Completed => connected_result(
                    later@,
                ) == Some(Ok::<(), Error>(())) && closed_result(later@) is None,
                IceConnectionState::Failed => closed_result(later@) == Some(
                    Err::<(), Error>(Error::IceConnectionNotStarted),
                ),
                IceConnectionState::Closed => closed_result(later@) == Some(Ok::<(), Error>(())),
                _ => later == old,
            }
        }),
{
}

/// No report changes the status of a closed connection.
pub proof fn reports_keep_what_is_closed(old: InnerState, request: Option<InnerState>)
    requires
        old@ is Closed,
    ensures
        after_report(old, request) == old,
{
}

/// One who asks how far a connection has come, and is told as [`PeerConnection::connected`] tells,
/// waits while it was never ready nor closed, is told that it is established where it was always
/// ready, and is told the cause where it has failed from the start. To wait is to wait for a
/// status that the connection was in, and that is neither ready nor closed.
pub proof fn establishing_is_waited_for(
    states: Set<InnerState>,
    progress: Progress,
    cause: Error,
)
    requires
        match progress {
            Progress::Wait(state) => states.contains(*state) && connected_result(state@) is None,
            Progress::Done(result) => exists|state: InnerState| #[trigger]
                states.contains(state) && connected_result(state@) == Some(result),
        },
    ensures
        (forall|state: InnerState| #[trigger]
            states.contains(state) ==> state@ is Waiting || state@ is Negotiating)
            ==> progress is Wait,
        (forall|state: InnerState| #[trigger] states.contains(state) ==> state@ is Ready)
            ==> progress == Progress::Done(Ok(())),
        (forall|state: InnerState| #[trigger]
            states.contains(state) ==> state@ == Phase::Closed(Some(cause))) ==> progress
            == Progress::Done(Err(cause)),
        progress matches Progress::Wait(state) ==> states.contains(*state) && (state@ is Waiting
            || state@ is Negotiating),
        progress == Progress::Done(Err(cause)) ==> exists|state: InnerState| #[trigger]
            states.contains(state) && state@ == Phase::Closed(Some(cause)),
        progress == Progress::Done(Ok(())) ==> exists|state: InnerState| #[trigger]
            states.contains(state) && (state@ is Ready || state@ == Phase::Closed(None)),
{
}

/// One who asks whether a connection is closed, and is told as [`PeerConnection::closed`] tells,
/// waits while it was never closed, and is told how it was closed where it was closed from the
/// start. To wait is to wait for a status that the connection was in, and that is not closed.
pub proof fn closing_is_waited_for(states: Set<InnerState>, progress: Progress, cause: Error)
    requires
        match progress {
            Progress::Wait(state) => states.contains(*state) && closed_result(state@) is None,
            Progress::Done(result) => exists|state: InnerState| #[trigger]
                states.contains(state) && closed_result(state@) == Some(result),
        },
    ensures
        (forall|state: InnerState| #[trigger] states.contains(state) ==> !(state@ is Closed))
            ==> progress is Wait,
        (forall|state: InnerState| #[trigger]
            states.contains(state) ==> state@ == Phase::Closed(None)) ==> progress
            == Progress::Done(Ok(())),
        (forall|state: InnerState| #[trigger]
            states.contains(state) ==> state@ == Phase::Closed(Some(cause))) ==> progress
            == Progress::Done(Err(cause)),
        progress matches Progress::Wait(state) ==> states.contains(*state) && !(state@ is Closed),
        progress matches Progress::Done(result) ==> exists|state: InnerState| #[trigger]
            states.contains(state) && match state@ {
                Phase::Closed(Some(cause)) => result == Err::<(), Error>(cause),
                Phase::Closed(None) => result is Ok,
                _ => false,
            },
{
}

/// A report that asks for nothing is not answered. One that asks for a status is answered, and the
/// connection has made the change that it asks for, unless it was closed.
pub proof fn reports_are_answered(
    states: Set<InnerState>,
    changes: Set<(InnerState, InnerState)>,
    request: Option<InnerState>,
    answer: Option<Result<(), Error>>,
)
    requires
        reported(states, changes, request, answer),
    ensures
        request is None <==> answer is None,
        request matches Some(new) ==> exists|old: InnerState, next: InnerState| #[trigger]
            changes.contains((old, next)) && states.contains(old) && states.contains(next) && next
                == after_report(old, request) && (old@ is Closed ==> next == old) && (!(
            old@ is Closed) ==> next == new && answer->0 == Ok::<(), Error>(())),
{
    if let Some(new) = request {
        let result = answer->0;
        requests_keep_what_is_closed(states, changes, new, result);
        let (old, next) = choose|old: InnerState, next: InnerState| #[trigger]
            changes.contains((old, next)) && states.contains(old) && states.contains(next)
                && released(old) && (old@ is Closed ==> next == old && result == update_result(
                next@,
            )) && (!(old@ is Closed) ==> next == new && result == Ok::<(), Error>(()));
        assert(changes.contains((old, next)));
    }
}

/// What a report asks for is what its name says: a connection that works is ready, one that has
/// failed or is closed is closed, and no other report asks for anything.
pub proof fn what_reports_ask_for(state: ConnectionState, ice: IceConnectionState)
    ensures
        connection_phase(state) == Some(Phase::Ready) <==> state is Connected,
        connection_phase(state) == Some(Phase::Closed(None)) <==> state is Closed,
        connection_phase(state) == Some(Phase::Closed(Some(Error::ConnectionClosed))) <==> state
            is Failed,
        connection_phase(state) is None <==> !(state is Connected || state is Closed || state
            is Failed),
        ice_phase(ice) == Some(Phase::Ready) <==> ice is Connected || ice is Completed,
        ice_phase(ice) == Some(Phase::Closed(None)) <==> ice is Closed,
        ice_phase(ice) == Some(Phase::Closed(Some(Error::IceConnectionNotStarted))) <==> ice
            is Failed,
        ice_phase(ice) is None <==> !(ice is Connected || ice is Completed || ice is Closed || ice
            is Failed),
{
}

/// A step after which no candidate is due is the next task, as it is.
pub proof fn steps_without_a_candidate(
    task: TaskView,
    phase: Phase,
    reply: ReplyView,
    after: TaskView,
)
    requires
        answers(task, reply),
        due(task, reply) is None,
        advanced(task, phase, reply, after),
    ensures
        after == next_task(task, phase, reply),
{
}

/// A candidate that came where the remote peer is described is handed over by the attribute line
/// that presents that very candidate. One that cannot be presented ends it with an error.
pub proof fn a_found_candidate_is_presented(
    candidate: IceCandidate,
    sdp_type: SdpType,
    phase: Phase,
    after: TaskView,
)
    requires
        advanced(
            TaskView::FindRemote(candidate),
            phase,
            ReplyView::Remote(Some(sdp_type)),
            after,
        ),
    ensures
        match candidate_line(candidate@) {
            Some(line) => after matches TaskView::AddCandidate(init) && init.candidate@ == line,
            None => after matches TaskView::Finished(Err(error)) && error is Webrtc,
        },
{
}

/// The first of the candidates that were kept, or that are left, is handed over by the attribute
/// line that presents it, and the others are left in their order. One that cannot be presented
/// ends it with an error.
pub proof fn a_kept_candidate_is_presented(
    task: TaskView,
    reply: ReplyView,
    first: IceCandidate,
    others: Seq<IceCandidate>,
    phase: Phase,
    after: TaskView,
)
    requires
        ({
            let all = seq![first] + others;
            ||| task is TakeCandidates && reply == ReplyView::Candidates(all)
            ||| task matches TaskView::AddNext(_, rest) && rest == all && reply
                == ReplyView::Done(Ok(()))
        }),
        advanced(task, phase, reply, after),
    ensures
        match candidate_line(first@) {
            Some(line) => after matches TaskView::AddNext(init, rest) && init.candidate@ == line
                && rest == others,
            None => after matches TaskView::Finished(Err(error)) && error is Webrtc,
        },
{
    let all = seq![first] + others;
    assert(all[0] == first);
    assert(all.drop_first() =~= others);
}

/// There is a next step for every outcome, except where the candidate that is due could be handed
/// over but has no priority.
pub proof fn when_there_is_a_next_step(task: TaskView, reply: ReplyView)
    ensures
        due(task, reply) is None ==> due_is_convertible(task, reply),
        due(task, reply) matches Some(candidate) ==> (due_is_convertible(task, reply)
            <==> candidate@.priority != 0 || candidate@.component <= 256 || candidate@.typ
            is Unspecified || candidate@.is_refused()),
{
}

/// Candidates are kept and taken only while the connection is being negotiated, where there is a
/// place to keep them.
pub proof fn candidates_are_kept_during_negotiation(
    task: TaskView,
    phase: Phase,
    reply: ReplyView,
)
    requires
        answers(task, reply),
    ensures
        next_task(task, phase, reply) is QueueCandidate ==> phase is Negotiating,
        next_task(task, phase, reply) is TakeCandidates ==> phase is Negotiating,
        needs_pending(next_task(task, phase, reply)) <==> next_task(task, phase, reply)
            is QueueCandidate || next_task(task, phase, reply) is TakeCandidates,
{
}

} // verus!
