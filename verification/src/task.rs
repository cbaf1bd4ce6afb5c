//! What a peer connection does about a message, one step at a time.
//!
//! A [`Task`] says what is to be done next on the underlying connection. Once that is done, its
//! outcome and the status of the connection decide what is to be done after it.
use crate::error::Error;
use crate::ice::{IceCandidate, IceCandidateInit};
use crate::signal::{SdpType, SessionDescription, Signal};
use crate::status::{all_queued, candidates_are_kept_in_order, reach, InnerState, Phase};
use vstd::prelude::*;

verus! {

/// What is to be done next.
#[derive(Debug)]
pub enum Task {
    /// Enter a new round of negotiation.
    BeginNegotiation,
    /// Create an offer.
    CreateOffer,
    /// Take the offer as the local description.
    SetOffer(SessionDescription),
    /// Send the offer to the remote peer.
    SendOffer(SessionDescription),
    /// Mark the connection as failed.
    Fail(Error),
    /// See whether the remote peer is described already, for a candidate that came from it.
    FindRemote(IceCandidate),
    /// Bring a candidate into the form in which the connection takes it.
    ConvertCandidate(IceCandidate),
    /// Hand a candidate to the connection.
    AddCandidate(IceCandidateInit),
    /// Keep a candidate for later.
    QueueCandidate(IceCandidate),
    /// Take the description of the remote peer.
    SetRemote(SessionDescription),
    /// See what kind of description the remote peer has given.
    InspectRemote,
    /// Create an answer.
    CreateAnswer,
    /// Take the answer as the local description.
    SetAnswer(SessionDescription),
    /// Send the answer to the remote peer.
    SendAnswer(SessionDescription),
    /// Take all the candidates that were kept for later.
    TakeCandidates,
    /// Bring the first of the candidates into the form in which the connection takes it.
    ConvertNext(Vec<IceCandidate>),
    /// Hand a candidate to the connection, while the others are left.
    AddNext(IceCandidateInit, Vec<IceCandidate>),
    /// Nothing. This is how it went.
    Finished(Result<(), Error>),
}

/// How that which was to be done went.
#[derive(Debug)]
pub enum Reply {
    /// It was done, or it failed.
    Done(Result<(), Error>),
    /// The offer or the answer that was created.
    Created(Result<SessionDescription, Error>),
    /// The connection is gone.
    Gone,
    /// What kind of description the remote peer has given, if any.
    Remote(Option<SdpType>),
    /// The candidate in its other form.
    Converted(Result<IceCandidateInit, Error>),
    /// The candidates that were kept.
    Candidates(Vec<IceCandidate>),
}

/// A task, with the candidates that are left as a sequence.
pub enum TaskView {
    BeginNegotiation,
    CreateOffer,
    SetOffer(SessionDescription),
    SendOffer(SessionDescription),
    Fail(Error),
    FindRemote(IceCandidate),
    ConvertCandidate(IceCandidate),
    AddCandidate(IceCandidateInit),
    QueueCandidate(IceCandidate),
    SetRemote(SessionDescription),
    InspectRemote,
    CreateAnswer,
    SetAnswer(SessionDescription),
    SendAnswer(SessionDescription),
    TakeCandidates,
    ConvertNext(Seq<IceCandidate>),
    AddNext(IceCandidateInit, Seq<IceCandidate>),
    Finished(Result<(), Error>),
}

/// An outcome, with the candidates that were kept as a sequence.
pub enum ReplyView {
    Done(Result<(), Error>),
    Created(Result<SessionDescription, Error>),
    Gone,
    Remote(Option<SdpType>),
    Converted(Result<IceCandidateInit, Error>),
    Candidates(Seq<IceCandidate>),
}

impl View for Task {
    type V = TaskView;

    open spec fn view(&self) -> TaskView {
        match *self {
            Task::BeginNegotiation => TaskView::BeginNegotiation,
            Task::CreateOffer => TaskView::CreateOffer,
            Task::SetOffer(offer) => TaskView::SetOffer(offer),
            Task::SendOffer(offer) => TaskView::SendOffer(offer),
            Task::Fail(cause) => TaskView::Fail(cause),
            Task::FindRemote(candidate) => TaskView::FindRemote(candidate),
            Task::ConvertCandidate(candidate) => TaskView::ConvertCandidate(candidate),
            Task::AddCandidate(init) => TaskView::AddCandidate(init),
            Task::QueueCandidate(candidate) => TaskView::QueueCandidate(candidate),
            Task::SetRemote(sdp) => TaskView::SetRemote(sdp),
            Task::InspectRemote => TaskView::InspectRemote,
            Task::CreateAnswer => TaskView::CreateAnswer,
            Task::SetAnswer(answer) => TaskView::SetAnswer(answer),
            Task::SendAnswer(answer) => TaskView::SendAnswer(answer),
            Task::TakeCandidates => TaskView::TakeCandidates,
            Task::ConvertNext(rest) => TaskView::ConvertNext(rest@),
            Task::AddNext(init, rest) => TaskView::AddNext(init, rest@),
            Task::Finished(result) => TaskView::Finished(result),
        }
    }
}

impl View for Reply {
    type V = ReplyView;

    open spec fn view(&self) -> ReplyView {
        match *self {
            Reply::Done(result) => ReplyView::Done(result),
            Reply::Created(result) => ReplyView::Created(result),
            Reply::Gone => ReplyView::Gone,
            Reply::Remote(sdp_type) => ReplyView::Remote(sdp_type),
            Reply::Converted(result) => ReplyView::Converted(result),
            Reply::Candidates(candidates) => ReplyView::Candidates(candidates@),
        }
    }
}

/// Whether the outcome is one that the task can have.
pub open spec fn answers(task: TaskView, reply: ReplyView) -> bool {
    match task {
        TaskView::BeginNegotiation => reply is Done,
        TaskView::CreateOffer => reply is Created || reply is Gone,
        TaskView::SetOffer(_) => reply is Done,
        TaskView::SendOffer(_) => reply is Done,
        TaskView::Fail(_) => reply is Done,
        TaskView::FindRemote(_) => reply is Remote,
        TaskView::ConvertCandidate(_) => reply is Converted,
        TaskView::AddCandidate(_) => reply is Done,
        TaskView::QueueCandidate(_) => reply is Done,
        TaskView::SetRemote(_) => reply is Done,
        TaskView::InspectRemote => reply is Remote,
        TaskView::CreateAnswer => reply is Created,
        TaskView::SetAnswer(_) => reply is Done,
        TaskView::SendAnswer(_) => reply is Done,
        TaskView::TakeCandidates => reply is Candidates,
        TaskView::ConvertNext(rest) => rest.len() > 0 && reply is Converted,
        TaskView::AddNext(_, _) => reply is Done,
        TaskView::Finished(_) => false,
    }
}

/// What is to be done about a message.
pub open spec fn first_task(initiator: bool, phase: Phase, signal: Signal) -> TaskView {
    match signal {
        Signal::Renegotiate(renegotiate) => if renegotiate && initiator && !(phase is Closed) {
            TaskView::BeginNegotiation
        } else {
            TaskView::Finished(Ok(()))
        },
        Signal::Candidate(candidate) => TaskView::FindRemote(candidate),
        Signal::Sdp(sdp) => TaskView::SetRemote(sdp),
    }
}

/// What is to be done once the description of the remote peer is dealt with: the candidates that
/// were kept are due.
pub open spec fn after_description(phase: Phase) -> TaskView {
    if phase is Negotiating {
        TaskView::TakeCandidates
    } else {
        TaskView::Finished(Ok(()))
    }
}

/// What is to be done about the candidates that are left.
pub open spec fn for_candidates(rest: Seq<IceCandidate>) -> TaskView {
    if rest.len() > 0 {
        TaskView::ConvertNext(rest)
    } else {
        TaskView::Finished(Ok(()))
    }
}

/// What is to be done after a task that went as `reply` says, in a given phase of the connection.
pub open spec fn next_task(task: TaskView, phase: Phase, reply: ReplyView) -> TaskView {
    match (task, reply) {
        // A step failed: so does the whole, except that an offer that cannot be made fails the
        // connection instead.
        (TaskView::CreateOffer, ReplyView::Created(Err(cause))) => TaskView::Fail(cause),
        (TaskView::SetOffer(_), ReplyView::Done(Err(cause))) => TaskView::Fail(cause),
        (TaskView::SendOffer(_), ReplyView::Done(_)) => TaskView::Finished(Ok(())),
        (TaskView::Fail(_), ReplyView::Done(_)) => TaskView::Finished(Ok(())),
        (TaskView::QueueCandidate(_), ReplyView::Done(_)) => TaskView::Finished(Ok(())),
        (TaskView::SendAnswer(_), ReplyView::Done(_)) => after_description(phase),
        (_, ReplyView::Done(Err(error))) => TaskView::Finished(Err(error)),
        (_, ReplyView::Created(Err(error))) => TaskView::Finished(Err(error)),
        (_, ReplyView::Converted(Err(error))) => TaskView::Finished(Err(error)),
        // A step went well.
        (TaskView::BeginNegotiation, ReplyView::Done(Ok(_))) => if phase is Negotiating {
            TaskView::CreateOffer
        } else {
            TaskView::Finished(Ok(()))
        },
        (TaskView::CreateOffer, ReplyView::Created(Ok(offer))) => TaskView::SetOffer(offer),
        (TaskView::SetOffer(offer), ReplyView::Done(Ok(_))) => TaskView::SendOffer(offer),
        (TaskView::FindRemote(candidate), ReplyView::Remote(Some(_))) => {
            TaskView::ConvertCandidate(candidate)
        },
        (TaskView::FindRemote(candidate), ReplyView::Remote(None)) => if phase is Negotiating {
            TaskView::QueueCandidate(candidate)
        } else {
            TaskView::Finished(Ok(()))
        },
        (TaskView::ConvertCandidate(_), ReplyView::Converted(Ok(init))) => {
            TaskView::AddCandidate(init)
        },
        (TaskView::SetRemote(_), ReplyView::Done(Ok(_))) => TaskView::InspectRemote,
        (TaskView::InspectRemote, ReplyView::Remote(sdp_type)) => if sdp_type == Some(
            SdpType::Offer,
        ) {
            if phase is Closed {
                TaskView::Finished(Err(Error::DataChannelNotOpen))
            } else {
                TaskView::CreateAnswer
            }
        } else {
            after_description(phase)
        },
        (TaskView::CreateAnswer, ReplyView::Created(Ok(answer))) => TaskView::SetAnswer(answer),
        (TaskView::SetAnswer(answer), ReplyView::Done(Ok(_))) => TaskView::SendAnswer(answer),
        (TaskView::TakeCandidates, ReplyView::Candidates(rest)) => for_candidates(rest),
        (TaskView::ConvertNext(rest), ReplyView::Converted(Ok(init))) => TaskView::AddNext(
            init,
            rest.drop_first(),
        ),
        (TaskView::AddNext(_, rest), ReplyView::Done(Ok(_))) => for_candidates(rest),
        (_, _) => TaskView::Finished(Ok(())),
    }
}

/// What comes after a task that went as `reply` says is about candidates that were kept, or about
/// one that has no priority: the status of the connection has no say in it.
pub open spec fn handles_candidates(task: TaskView, reply: ReplyView) -> bool {
    match task {
        TaskView::FindRemote(candidate) => due(task, reply) is Some && !candidate@.has_priority(),
        TaskView::TakeCandidates => true,
        TaskView::ConvertNext(_) => true,
        TaskView::AddNext(_, _) => error_in(reply) is None,
        _ => false,
    }
}

/// The candidate that is due to be brought into its other form, now that a task went as `reply`
/// says.
pub open spec fn due(task: TaskView, reply: ReplyView) -> Option<IceCandidate> {
    match (task, reply) {
        (TaskView::FindRemote(candidate), ReplyView::Remote(Some(_))) => Some(candidate),
        (TaskView::TakeCandidates, ReplyView::Candidates(rest)) => first_of(rest),
        (TaskView::AddNext(_, rest), ReplyView::Done(Ok(_))) => first_of(rest),
        (_, _) => None,
    }
}

/// The first of the candidates, if there is one.
pub open spec fn first_of(candidates: Seq<IceCandidate>) -> Option<IceCandidate> {
    if candidates.len() > 0 {
        Some(candidates[0])
    } else {
        None
    }
}

/// The signal that a task sends, if it sends one.
pub open spec fn sent_by(task: TaskView) -> Option<Signal> {
    match task {
        TaskView::SendOffer(offer) => Some(Signal::Sdp(offer)),
        TaskView::SendAnswer(answer) => Some(Signal::Sdp(answer)),
        _ => None,
    }
}

impl Task {
    /// What is to be done about a message that came from the remote peer.
    pub fn first(initiator: bool, status: &InnerState, signal: Signal) -> (task: Task)
        ensures
            task@ == first_task(initiator, status@, signal),
        opens_invariants none
    {
        match signal {
            Signal::Renegotiate(renegotiate) => {
                if renegotiate && !status.is_closed() && initiator {
                    Task::BeginNegotiation
                } else {
                    Task::Finished(Ok(()))
                }
            },
            Signal::Candidate(candidate) => Task::FindRemote(candidate),
            Signal::Sdp(sdp) => Task::SetRemote(sdp),
        }
    }

    fn after_description(status: &InnerState) -> (task: Task)
        ensures
            task@ == after_description(status@),
        opens_invariants none
    {
        if status.is_negotiating() {
            Task::TakeCandidates
        } else {
            Task::Finished(Ok(()))
        }
    }

    fn for_candidates(rest: Vec<IceCandidate>) -> (task: Task)
        ensures
            task@ == for_candidates(rest@),
    {
        if rest.len() > 0 {
            Task::ConvertNext(rest)
        } else {
            Task::Finished(Ok(()))
        }
    }

    /// Whether the outcome is one that the task can have.
    pub fn is_answered_by(&self, reply: &Reply) -> (is_answer: bool)
        ensures
            is_answer == answers(self@, reply@),
        opens_invariants reach(self@ is ConvertNext && reply@ is Converted)
    {
        match (self, reply) {
            (Task::BeginNegotiation, Reply::Done(_)) => true,
            (Task::CreateOffer, Reply::Created(_)) => true,
            (Task::CreateOffer, Reply::Gone) => true,
            (Task::SetOffer(_), Reply::Done(_)) => true,
            (Task::SendOffer(_), Reply::Done(_)) => true,
            (Task::Fail(_), Reply::Done(_)) => true,
            (Task::FindRemote(_), Reply::Remote(_)) => true,
            (Task::ConvertCandidate(_), Reply::Converted(_)) => true,
            (Task::AddCandidate(_), Reply::Done(_)) => true,
            (Task::QueueCandidate(_), Reply::Done(_)) => true,
            (Task::SetRemote(_), Reply::Done(_)) => true,
            (Task::InspectRemote, Reply::Remote(_)) => true,
            (Task::CreateAnswer, Reply::Created(_)) => true,
            (Task::SetAnswer(_), Reply::Done(_)) => true,
            (Task::SendAnswer(_), Reply::Done(_)) => true,
            (Task::TakeCandidates, Reply::Candidates(_)) => true,
            (Task::ConvertNext(rest), Reply::Converted(_)) => rest.len() > 0,
            (Task::AddNext(_, _), Reply::Done(_)) => true,
            (_, _) => false,
        }
    }

    /// The candidate that is due to be brought into its other form, now that what was to be done
    /// went as `reply` says.
    pub fn due<'a>(&'a self, reply: &'a Reply) -> (candidate: Option<&'a IceCandidate>)
        ensures
            match candidate {
                Some(candidate) => due(self@, reply@) == Some(*candidate),
                None => due(self@, reply@) is None,
            },
        opens_invariants reach(handles_candidates(self@, reply@))
    {
        let rest = match (self, reply) {
            (Task::FindRemote(candidate), Reply::Remote(Some(_))) => return Some(candidate),
            (Task::TakeCandidates, Reply::Candidates(rest)) => rest,
            (Task::AddNext(_, rest), Reply::Done(Ok(_))) => rest,
            (_, _) => return None,
        };
        if rest.len() > 0 {
            Some(&rest[0])
        } else {
            None
        }
    }

    /// What is to be done next, now that what was to be done went as `reply` says.
    pub fn next(self, status: &InnerState, reply: Reply) -> (task: Task)
        requires
            answers(self@, reply@),
        ensures
            task@ == next_task(self@, status@, reply@),
        opens_invariants reach(handles_candidates(self@, reply@))
    {
        match (self, reply) {
            (Task::CreateOffer, Reply::Created(Err(cause))) => Task::Fail(cause),
            (Task::SetOffer(_), Reply::Done(Err(cause))) => Task::Fail(cause),
            (Task::SendOffer(_), Reply::Done(_)) => Task::Finished(Ok(())),
            (Task::Fail(_), Reply::Done(_)) => Task::Finished(Ok(())),
            (Task::QueueCandidate(_), Reply::Done(_)) => Task::Finished(Ok(())),
            (Task::SendAnswer(_), Reply::Done(_)) => Task::after_description(status),
            (_, Reply::Done(Err(error))) => Task::Finished(Err(error)),
            (_, Reply::Created(Err(error))) => Task::Finished(Err(error)),
            (_, Reply::Converted(Err(error))) => Task::Finished(Err(error)),
            (Task::BeginNegotiation, Reply::Done(Ok(_))) => {
                if status.is_negotiating() {
                    Task::CreateOffer
                } else {
                    Task::Finished(Ok(()))
                }
            },
            (Task::CreateOffer, Reply::Created(Ok(offer))) => Task::SetOffer(offer),
            (Task::SetOffer(offer), Reply::Done(Ok(_))) => Task::SendOffer(offer),
            (Task::FindRemote(candidate), Reply::Remote(Some(_))) => {
                Task::ConvertCandidate(candidate)
            },
            (Task::FindRemote(candidate), Reply::Remote(None)) => {
                if status.is_negotiating() {
                    Task::QueueCandidate(candidate)
                } else {
                    Task::Finished(Ok(()))
                }
            },
            (Task::ConvertCandidate(_), Reply::Converted(Ok(init))) => Task::AddCandidate(init),
            (Task::SetRemote(_), Reply::Done(Ok(_))) => Task::InspectRemote,
            (Task::InspectRemote, Reply::Remote(Some(SdpType::Offer))) => {
                if status.is_closed() {
                    Task::Finished(Err(Error::channel_closed()))
                } else {
                    Task::CreateAnswer
                }
            },
            (Task::InspectRemote, Reply::Remote(_)) => Task::after_description(status),
            (Task::CreateAnswer, Reply::Created(Ok(answer))) => Task::SetAnswer(answer),
            (Task::SetAnswer(answer), Reply::Done(Ok(_))) => Task::SendAnswer(answer),
            (Task::TakeCandidates, Reply::Candidates(rest)) => Task::for_candidates(rest),
            (Task::ConvertNext(rest), Reply::Converted(Ok(init))) => {
                let mut rest = rest;
                rest.remove(0);
                Task::AddNext(init, rest)
            },
            (Task::AddNext(_, rest), Reply::Done(Ok(_))) => Task::for_candidates(rest),
            (_, _) => Task::Finished(Ok(())),
        }
    }
}

/// How far a task is from its end: the stage of what is done about the message, and how much is
/// left to do in it.
pub open spec fn distance(task: TaskView) -> (nat, nat) {
    match task {
        TaskView::SetRemote(_) => (7, 0),
        TaskView::InspectRemote => (6, 0),
        TaskView::CreateAnswer => (5, 0),
        TaskView::SetAnswer(_) => (4, 0),
        TaskView::SendAnswer(_) => (3, 0),
        TaskView::TakeCandidates => (2, 0),
        TaskView::ConvertNext(rest) => (1, 2 * rest.len()),
        TaskView::AddNext(_, rest) => (1, 2 * rest.len() + 1),
        TaskView::BeginNegotiation => (5, 0),
        TaskView::CreateOffer => (4, 0),
        TaskView::SetOffer(_) => (3, 0),
        TaskView::SendOffer(_) => (1, 0),
        TaskView::Fail(_) => (1, 0),
        TaskView::FindRemote(_) => (3, 0),
        TaskView::ConvertCandidate(_) => (2, 0),
        TaskView::AddCandidate(_) => (1, 0),
        TaskView::QueueCandidate(_) => (1, 0),
        TaskView::Finished(_) => (0, 0),
    }
}

/// Every step brings a task nearer to its end, so that what is done about a message comes to an
/// end, however its steps go.
pub proof fn tasks_end(task: TaskView, phase: Phase, reply: ReplyView)
    requires
        answers(task, reply),
    ensures
        ({
            let (before, after) = (distance(task), distance(next_task(task, phase, reply)));
            after.0 < before.0 || after.0 == before.0 && after.1 < before.1
        }),
{
}

/// A message can only make the initiator begin a new round of negotiation, and only while the
/// connection is not closed.
pub proof fn only_initiator_renegotiates(initiator: bool, phase: Phase, signal: Signal)
    ensures
        first_task(initiator, phase, signal) is BeginNegotiation <==> initiator && !(phase is Closed)
            && signal == Signal::Renegotiate(true),
        signal is Renegotiate && !(first_task(initiator, phase, signal) is BeginNegotiation)
            ==> first_task(initiator, phase, signal) == TaskView::Finished(Ok(())),
{
}

/// A round of negotiation that goes well makes an offer, takes it as the local description, and
/// then sends that same offer.
pub proof fn negotiation_makes_an_offer(offer: SessionDescription, later: Phase)
    ensures
        ({
            let done = ReplyView::Done(Ok(()));
            let begun = next_task(TaskView::BeginNegotiation, Phase::Negotiating, done);
            let created = next_task(begun, later, ReplyView::Created(Ok(offer)));
            let set = next_task(created, later, done);
            &&& begun == TaskView::CreateOffer
            &&& created == TaskView::SetOffer(offer)
            &&& sent_by(set) == Some(Signal::Sdp(offer))
            &&& next_task(set, later, done) == TaskView::Finished(Ok(()))
        }),
{
}

/// An offer that cannot be made or taken fails the connection; whoever passed the message on is
/// not told.
pub proof fn failed_offer_fails_connection(offer: SessionDescription, cause: Error, phase: Phase)
    ensures
        next_task(TaskView::CreateOffer, phase, ReplyView::Created(Err(cause))) == TaskView::Fail(
            cause,
        ),
        next_task(TaskView::SetOffer(offer), phase, ReplyView::Done(Err(cause)))
            == TaskView::Fail(cause),
        forall|result: Result<(), Error>| #[trigger]
            next_task(TaskView::Fail(cause), phase, ReplyView::Done(result)) == TaskView::Finished(
                Ok(()),
            ),
{
}

/// An offer from the remote peer is answered with the answer that is made for it, unless the
/// connection is closed; then it is refused.
pub proof fn offers_are_answered(answer: SessionDescription, phase: Phase, later: Phase)
    ensures
        ({
            let done = ReplyView::Done(Ok(()));
            let offered = ReplyView::Remote(Some(SdpType::Offer));
            let seen = next_task(TaskView::InspectRemote, phase, offered);
            let created = next_task(seen, later, ReplyView::Created(Ok(answer)));
            let set = next_task(created, later, done);
            &&& phase is Closed ==> seen == TaskView::Finished(Err(Error::DataChannelNotOpen))
            &&& !(phase is Closed) ==> seen == TaskView::CreateAnswer
            &&& !(phase is Closed) ==> created == TaskView::SetAnswer(answer)
            &&& !(phase is Closed) ==> sent_by(set) == Some(Signal::Sdp(answer))
        }),
{
}

/// No other description of the remote peer is answered.
pub proof fn only_offers_are_answered(phase: Phase, sdp_type: Option<SdpType>)
    requires
        sdp_type != Some(SdpType::Offer),
    ensures
        next_task(TaskView::InspectRemote, phase, ReplyView::Remote(sdp_type)) == after_description(
            phase,
        ),
        !(after_description(phase) is CreateAnswer),
{
}

/// A candidate is handed over at once where the remote peer is described, kept while that is still
/// being negotiated, and dropped otherwise.
pub proof fn candidates_wait_for_description(
    candidate: IceCandidate,
    phase: Phase,
    sdp_type: Option<SdpType>,
)
    ensures
        next_task(TaskView::FindRemote(candidate), phase, ReplyView::Remote(sdp_type)) == if sdp_type
            is Some {
            TaskView::ConvertCandidate(candidate)
        } else if phase is Negotiating {
            TaskView::QueueCandidate(candidate)
        } else {
            TaskView::Finished(Ok(()))
        },
{
}

/// A candidate is brought into its other form exactly when it is due.
pub proof fn what_is_due_is_converted(task: TaskView, phase: Phase, reply: ReplyView)
    requires
        answers(task, reply),
    ensures
        due(task, reply) == match next_task(task, phase, reply) {
            TaskView::ConvertCandidate(candidate) => Some(candidate),
            TaskView::ConvertNext(rest) => Some(rest[0]),
            _ => None,
        },
{
}

/// What becomes of candidates that were kept, when bringing them into their other form goes as
/// `converted` says, one by one, and handing them over as `added` says: those that are handed
/// over, and what is to be done in the end.
pub open spec fn hand_over(
    task: TaskView,
    phase: Phase,
    converted: Seq<Result<IceCandidateInit, Error>>,
    added: Seq<Result<(), Error>>,
) -> (Seq<IceCandidateInit>, TaskView)
    decreases converted.len() + added.len(),
{
    match task {
        TaskView::ConvertNext(_) if converted.len() > 0 => {
            let next = next_task(task, phase, ReplyView::Converted(converted[0]));
            hand_over(next, phase, converted.drop_first(), added)
        },
        TaskView::AddNext(init, _) if added.len() > 0 => {
            let next = next_task(task, phase, ReplyView::Done(added[0]));
            let (inits, end) = hand_over(next, phase, converted, added.drop_first());
            (seq![init] + inits, end)
        },
        _ => (Seq::empty(), task),
    }
}

/// The candidates that come out of a conversion that goes well.
pub open spec fn inits(converted: Seq<Result<IceCandidateInit, Error>>) -> Seq<IceCandidateInit> {
    converted.map_values(|result: Result<IceCandidateInit, Error>| result->Ok_0)
}

/// Candidates that were kept are handed over once the remote peer is described: all of them, each
/// once, and in the order in which they came.
pub proof fn kept_candidates_are_handed_over(
    rest: Seq<IceCandidate>,
    phase: Phase,
    converted: Seq<Result<IceCandidateInit, Error>>,
    added: Seq<Result<(), Error>>,
)
    requires
        converted.len() == rest.len(),
        added.len() == rest.len(),
        forall|i: int| 0 <= i < rest.len() ==> (#[trigger] converted[i]) is Ok,
        forall|i: int| 0 <= i < rest.len() ==> (#[trigger] added[i]) is Ok,
    ensures
        hand_over(
            next_task(TaskView::TakeCandidates, phase, ReplyView::Candidates(rest)),
            phase,
            converted,
            added,
        ) == (inits(converted), TaskView::Finished(Ok(()))),
    decreases rest.len(),
{
    if rest.len() > 0 {
        reveal_with_fuel(hand_over, 3);
        kept_candidates_are_handed_over(
            rest.drop_first(),
            phase,
            converted.drop_first(),
            added.drop_first(),
        );
        assert(seq![converted[0]->Ok_0] + inits(converted.drop_first()) =~= inits(converted));
    } else {
        assert(inits(converted) =~= Seq::empty());
    }
}

/// Candidates that come while the remote peer is not described yet are kept during the negotiation,
/// and once it is described all of them are handed over, each once, in the order in which they
/// came.
pub proof fn early_candidates_are_handed_over(
    candidates: Seq<IceCandidate>,
    phase: Phase,
    converted: Seq<Result<IceCandidateInit, Error>>,
    added: Seq<Result<(), Error>>,
)
    requires
        converted.len() == candidates.len(),
        added.len() == candidates.len(),
        forall|i: int| 0 <= i < candidates.len() ==> (#[trigger] converted[i]) is Ok,
        forall|i: int| 0 <= i < candidates.len() ==> (#[trigger] added[i]) is Ok,
    ensures
        forall|i: int|
            0 <= i < candidates.len() ==> next_task(
                TaskView::FindRemote(#[trigger] candidates[i]),
                Phase::Negotiating,
                ReplyView::Remote(None),
            ) == TaskView::QueueCandidate(candidates[i]),
        after_description(Phase::Negotiating) is TakeCandidates,
        ({
            let kept = all_queued(Seq::empty(), candidates);
            let taken = next_task(TaskView::TakeCandidates, phase, ReplyView::Candidates(kept));
            hand_over(taken, phase, converted, added) == (
                inits(converted),
                TaskView::Finished(Ok(())),
            )
        }),
{
    candidates_are_kept_in_order(Seq::empty(), candidates);
    assert(Seq::<IceCandidate>::empty() + candidates =~= candidates);
    kept_candidates_are_handed_over(candidates, phase, converted, added);
}

/// The first candidate that cannot be brought into its other form, or cannot be handed over, ends
/// it: those before it are handed over, none after it is, and its failure is reported.
pub proof fn first_failure_ends_hand_over(
    rest: Seq<IceCandidate>,
    phase: Phase,
    converted: Seq<Result<IceCandidateInit, Error>>,
    added: Seq<Result<(), Error>>,
    failed: int,
)
    requires
        converted.len() == rest.len(),
        added.len() == rest.len(),
        0 <= failed < rest.len(),
        forall|i: int| 0 <= i < failed ==> (#[trigger] converted[i]) is Ok,
        forall|i: int| 0 <= i < failed ==> (#[trigger] added[i]) is Ok,
        converted[failed] is Err || added[failed] is Err,
    ensures
        hand_over(
            next_task(TaskView::TakeCandidates, phase, ReplyView::Candidates(rest)),
            phase,
            converted,
            added,
        ) == match converted[failed] {
            Err(error) => (inits(converted.take(failed)), TaskView::Finished(Err(error))),
            Ok(_) => (
                inits(converted.take(failed + 1)),
                TaskView::Finished(Err(added[failed]->Err_0)),
            ),
        },
    decreases rest.len(),
{
    reveal_with_fuel(hand_over, 3);
    if failed == 0 {
        assert(inits(converted.take(0)) =~= Seq::empty());
        assert(inits(converted.take(1)) =~= seq![converted[0]->Ok_0]);
        assert(seq![converted[0]->Ok_0] + Seq::<IceCandidateInit>::empty()
            =~= seq![converted[0]->Ok_0]);
    } else {
        let (less, fewer) = (converted.drop_first(), added.drop_first());
        assert(less[failed - 1] == converted[failed]);
        assert(fewer[failed - 1] == added[failed]);
        first_failure_ends_hand_over(rest.drop_first(), phase, less, fewer, failed - 1);
        assert(seq![converted[0]->Ok_0] + inits(less.take(failed - 1)) =~= inits(
            converted.take(failed),
        ));
        assert(seq![converted[0]->Ok_0] + inits(less.take(failed)) =~= inits(
            converted.take(failed + 1),
        ));
    }
}

/// The messages that are sent while tasks are done one after another, starting with `task`, in
/// phases and with outcomes as `steps` says.
pub open spec fn sent_in(task: TaskView, steps: Seq<(Phase, ReplyView)>) -> Seq<Signal>
    decreases steps.len(),
{
    if steps.len() == 0 || !answers(task, steps[0].1) {
        Seq::empty()
    } else {
        let later = sent_in(next_task(task, steps[0].0, steps[0].1), steps.drop_first());
        match sent_by(task) {
            Some(signal) => seq![signal] + later,
            None => later,
        }
    }
}

/// A message may still be sent from a task on.
pub open spec fn may_send(task: TaskView) -> bool {
    match task {
        TaskView::BeginNegotiation => true,
        TaskView::CreateOffer => true,
        TaskView::SetOffer(_) => true,
        TaskView::SendOffer(_) => true,
        TaskView::SetRemote(_) => true,
        TaskView::InspectRemote => true,
        TaskView::CreateAnswer => true,
        TaskView::SetAnswer(_) => true,
        TaskView::SendAnswer(_) => true,
        _ => false,
    }
}

/// The description that a task has at hand to be sent.
pub open spec fn at_hand(task: TaskView) -> Option<SessionDescription> {
    match task {
        TaskView::SetOffer(offer) => Some(offer),
        TaskView::SendOffer(offer) => Some(offer),
        TaskView::SetAnswer(answer) => Some(answer),
        TaskView::SendAnswer(answer) => Some(answer),
        _ => None,
    }
}

/// The description is one of those that were created along the way.
pub open spec fn was_created(
    steps: Seq<(Phase, ReplyView)>,
    description: SessionDescription,
) -> bool {
    exists|i: int|
        0 <= i < steps.len() && (#[trigger] steps[i]).1 == ReplyView::Created(Ok(description))
}

proof fn lemma_sent_in(task: TaskView, steps: Seq<(Phase, ReplyView)>)
    ensures
        !may_send(task) ==> sent_in(task, steps).len() == 0,
        sent_in(task, steps).len() <= 1,
        sent_in(task, steps).len() == 1 ==> match sent_in(task, steps)[0] {
            Signal::Sdp(sdp) => at_hand(task) == Some(sdp) || was_created(steps, sdp),
            _ => false,
        },
    decreases steps.len(),
{
    if steps.len() > 0 && answers(task, steps[0].1) {
        let next = next_task(task, steps[0].0, steps[0].1);
        let rest = steps.drop_first();
        lemma_sent_in(next, rest);
        if sent_in(next, rest).len() == 1 {
            let sdp = sent_in(next, rest)[0]->Sdp_0;
            if was_created(rest, sdp) {
                let i = choose|i: int|
                    0 <= i < rest.len() && (#[trigger] rest[i]).1 == ReplyView::Created(Ok(sdp));
                assert(steps[i + 1].1 == ReplyView::Created(Ok(sdp)));
            } else if at_hand(task) != Some(sdp) {
                assert(steps[0].1 == ReplyView::Created(Ok(sdp)));
            }
        }
    }
}

/// What is done about a message sends at most one message, and that one is a description that was
/// created for it. About a candidate nothing is sent, so that the exchange comes to an end.
pub proof fn at_most_one_message(
    initiator: bool,
    phase: Phase,
    signal: Signal,
    steps: Seq<(Phase, ReplyView)>,
)
    ensures
        ({
            let sent = sent_in(first_task(initiator, phase, signal), steps);
            &&& sent.len() <= 1
            &&& sent.len() == 1 ==> sent[0] is Sdp && was_created(steps, sent[0]->Sdp_0)
            &&& signal is Candidate ==> sent.len() == 0
            &&& signal is Renegotiate && !initiator ==> sent.len() == 0
        }),
{
    lemma_sent_in(first_task(initiator, phase, signal), steps);
}

/// Nothing is sent about a description that is no offer.
pub proof fn answers_are_not_answered(
    sdp: SessionDescription,
    initiator: bool,
    phase: Phase,
    steps: Seq<(Phase, ReplyView)>,
)
    requires
        steps.len() >= 2,
        steps[1].1 != ReplyView::Remote(Some(SdpType::Offer)),
    ensures
        sent_in(first_task(initiator, phase, Signal::Sdp(sdp)), steps).len() == 0,
{
    reveal_with_fuel(sent_in, 3);
    let first = first_task(initiator, phase, Signal::Sdp(sdp));
    if answers(first, steps[0].1) {
        let second = next_task(first, steps[0].0, steps[0].1);
        assert(steps.drop_first()[0] == steps[1]);
        if answers(second, steps[1].1) {
            let third = next_task(second, steps[1].0, steps[1].1);
            lemma_sent_in(third, steps.drop_first().drop_first());
        }
    }
}

/// What a peer is told of the remote side is always taken as the remote description first,
/// whatever kind of description it is and whatever the connection is doing. Only once it is taken
/// is anything else decided; where it cannot be taken, that is reported.
pub proof fn descriptions_are_taken_first(
    initiator: bool,
    phase: Phase,
    later: Phase,
    sdp: SessionDescription,
    error: Error,
)
    ensures
        ({
            let first = first_task(initiator, phase, Signal::Sdp(sdp));
            &&& first == TaskView::SetRemote(sdp)
            &&& next_task(first, later, ReplyView::Done(Ok(()))) is InspectRemote
            &&& next_task(first, later, ReplyView::Done(Err(error))) == TaskView::Finished(
                Err(error),
            )
        }),
{
}

/// A candidate is never lost from sight: it is the one that the remote description is looked for,
/// the one that is brought into its other form, and in that form the one that is handed over. How
/// handing it over goes is how it all goes.
pub proof fn candidates_are_handed_over(
    initiator: bool,
    phase: Phase,
    later: Phase,
    candidate: IceCandidate,
    sdp_type: SdpType,
    converted: Result<IceCandidateInit, Error>,
    added: Result<(), Error>,
)
    ensures
        ({
            let first = first_task(initiator, phase, Signal::Candidate(candidate));
            let second = next_task(first, later, ReplyView::Remote(Some(sdp_type)));
            let third = next_task(second, later, ReplyView::Converted(converted));
            &&& first == TaskView::FindRemote(candidate)
            &&& second == TaskView::ConvertCandidate(candidate)
            &&& converted matches Err(error) ==> third == TaskView::Finished(Err(error))
            &&& converted matches Ok(init) ==> third == TaskView::AddCandidate(init) && next_task(
                third,
                later,
                ReplyView::Done(added),
            ) == TaskView::Finished(added)
        }),
{
    if let Ok(init) = converted {
        handing_over_ends_as_it_goes(init, later, added);
    }
}

/// A candidate that is handed over well ends well, and one that is refused ends with that error.
pub proof fn handing_over_ends_as_it_goes(
    init: IceCandidateInit,
    phase: Phase,
    result: Result<(), Error>,
)
    ensures
        next_task(TaskView::AddCandidate(init), phase, ReplyView::Done(result))
            == TaskView::Finished(result),
{
    if let Ok(nothing) = result {
        assert(nothing == ());
    }
}

/// The error in an outcome, if it is one.
pub open spec fn error_in(reply: ReplyView) -> Option<Error> {
    match reply {
        ReplyView::Done(Err(error)) => Some(error),
        ReplyView::Created(Err(error)) => Some(error),
        ReplyView::Converted(Err(error)) => Some(error),
        _ => None,
    }
}

/// No error is made up: what is done about a message ends with an error only where a step failed
/// with that error, or where an offer came to a closed connection.
pub proof fn no_error_is_made_up(task: TaskView, phase: Phase, reply: ReplyView, error: Error)
    requires
        answers(task, reply),
        next_task(task, phase, reply) == TaskView::Finished(Err(error)),
    ensures
        error_in(reply) == Some(error) || task is InspectRemote && reply == ReplyView::Remote(
            Some(SdpType::Offer),
        ) && phase is Closed && error == Error::DataChannelNotOpen,
{
}

/// No error is passed over: a step that fails ends it all with its error, except that an offer that
/// cannot be made fails the connection. Where a message was sent, a candidate kept or the
/// connection marked as failed, nobody is there to be told.
pub proof fn no_error_is_passed_over(task: TaskView, phase: Phase, reply: ReplyView, error: Error)
    requires
        answers(task, reply),
        error_in(reply) == Some(error),
        !(task is SendOffer || task is SendAnswer || task is QueueCandidate || task is Fail),
    ensures
        next_task(task, phase, reply) == if task is CreateOffer || task is SetOffer {
            TaskView::Fail(error)
        } else {
            TaskView::Finished(Err(error))
        },
{
}

/// What has been sent, kept or marked as failed ends a round of negotiation or the handling of a
/// candidate well, however it went. So does a connection that is gone, and one that is no longer
/// being negotiated.
pub proof fn what_ends_well(
    offer: SessionDescription,
    candidate: IceCandidate,
    cause: Error,
    phase: Phase,
    result: Result<(), Error>,
)
    ensures
        ({
            let (done, end) = (ReplyView::Done(result), TaskView::Finished(Ok(())));
            &&& next_task(TaskView::SendOffer(offer), phase, done) == end
            &&& next_task(TaskView::QueueCandidate(candidate), phase, done) == end
            &&& next_task(TaskView::Fail(cause), phase, done) == end
            &&& next_task(TaskView::CreateOffer, phase, ReplyView::Gone) == end
            &&& next_task(TaskView::BeginNegotiation, phase, ReplyView::Done(Ok(()))) == if phase
                is Negotiating {
                TaskView::CreateOffer
            } else {
                end
            }
        }),
{
}

/// The description that is set is the one that was created, and the one that is sent is the one
/// that was set.
pub proof fn what_is_created_is_set_and_sent(description: SessionDescription, phase: Phase)
    ensures
        ({
            let (made, done) = (ReplyView::Created(Ok(description)), ReplyView::Done(Ok(())));
            &&& next_task(TaskView::CreateOffer, phase, made) == TaskView::SetOffer(description)
            &&& next_task(TaskView::SetOffer(description), phase, done) == TaskView::SendOffer(
                description,
            )
            &&& next_task(TaskView::CreateAnswer, phase, made) == TaskView::SetAnswer(description)
            &&& next_task(TaskView::SetAnswer(description), phase, done) == TaskView::SendAnswer(
                description,
            )
            &&& sent_by(TaskView::SendOffer(description)) == Some(Signal::Sdp(description))
            &&& sent_by(TaskView::SendAnswer(description)) == Some(Signal::Sdp(description))
        }),
{
}

/// Once the remote peer is described, and answered where it made an offer, the candidates that were
/// kept are taken if the connection is being negotiated. Otherwise there are none, and it ends
/// well.
pub proof fn candidates_are_taken_after_the_description(
    answer: SessionDescription,
    phase: Phase,
    sdp_type: Option<SdpType>,
    sent: Result<(), Error>,
)
    ensures
        ({
            let answered = next_task(TaskView::SendAnswer(answer), phase, ReplyView::Done(sent));
            let seen = next_task(TaskView::InspectRemote, phase, ReplyView::Remote(sdp_type));
            &&& phase is Negotiating ==> answered is TakeCandidates
            &&& !(phase is Negotiating) ==> answered == TaskView::Finished(Ok(()))
            &&& sdp_type != Some(SdpType::Offer) ==> seen == answered
        }),
{
}

/// Of the candidates that were kept, the first is brought into its other form and handed over, and
/// the others are left for later, in their order; when none is left, it ends well.
pub proof fn candidates_leave_from_the_front(
    before: IceCandidateInit,
    init: IceCandidateInit,
    first: IceCandidate,
    others: Seq<IceCandidate>,
    phase: Phase,
)
    ensures
        ({
            let (none, all) = (Seq::<IceCandidate>::empty(), seq![first] + others);
            let (done, made) = (ReplyView::Done(Ok(())), ReplyView::Converted(Ok(init)));
            let end = TaskView::Finished(Ok(()));
            let taken = next_task(TaskView::TakeCandidates, phase, ReplyView::Candidates(all));
            let added = next_task(TaskView::AddNext(before, all), phase, done);
            &&& taken == TaskView::ConvertNext(all)
            &&& added == TaskView::ConvertNext(all)
            &&& next_task(TaskView::ConvertNext(all), phase, made) == TaskView::AddNext(
                init,
                others,
            )
            &&& next_task(TaskView::TakeCandidates, phase, ReplyView::Candidates(none)) == end
            &&& next_task(TaskView::AddNext(before, none), phase, done) == end
        }),
{
    let all = seq![first] + others;
    assert(all.drop_first() =~= others);
}

/// Every task has the outcomes that doing it can have, and no others: a description is created or
/// not, a connection may be gone when an offer is asked for, looking at the remote description
/// tells its kind, candidates are brought into their other form or taken, and all else is done or
/// fails. What is finished has no outcome.
pub proof fn outcomes_of_tasks(task: TaskView, reply: ReplyView)
    ensures
        reply is Created ==> (answers(task, reply) <==> task is CreateOffer || task is CreateAnswer),
        reply is Gone ==> (answers(task, reply) <==> task is CreateOffer),
        reply is Remote ==> (answers(task, reply) <==> task is FindRemote || task is InspectRemote),
        reply is Candidates ==> (answers(task, reply) <==> task is TakeCandidates),
        reply is Converted ==> (answers(task, reply) <==> task is ConvertCandidate || (
        task matches TaskView::ConvertNext(rest) && rest.len() > 0)),
        reply is Done ==> (answers(task, reply) <==> !(task is CreateOffer || task is CreateAnswer
            || task is FindRemote || task is InspectRemote || task is TakeCandidates || task
            is ConvertCandidate || task is ConvertNext || task is Finished)),
{
}

/// Which candidate is due does not depend on anything but the candidate that was looked for where
/// the remote peer is described, or the first of those that are left.
pub proof fn what_is_due(
    candidate: IceCandidate,
    others: Seq<IceCandidate>,
    init: IceCandidateInit,
    sdp_type: SdpType,
    error: Error,
)
    ensures
        ({
            let (none, all) = (Seq::<IceCandidate>::empty(), seq![candidate] + others);
            let done = ReplyView::Done(Ok(()));
            let found = ReplyView::Remote(Some(sdp_type));
            &&& due(TaskView::FindRemote(candidate), found) == Some(candidate)
            &&& due(TaskView::FindRemote(candidate), ReplyView::Remote(None)) is None
            &&& due(TaskView::TakeCandidates, ReplyView::Candidates(all)) == Some(candidate)
            &&& due(TaskView::TakeCandidates, ReplyView::Candidates(none)) is None
            &&& due(TaskView::AddNext(init, all), done) == Some(candidate)
            &&& due(TaskView::AddNext(init, none), done) is None
            &&& due(TaskView::AddNext(init, all), ReplyView::Done(Err(error))) is None
        }),
{
}

/// Only what comes after candidates were taken, or one is due, is about candidates at hand. There
/// the status of the connection has no say; everywhere else it is only looked at.
pub proof fn status_has_no_say_about_candidates(
    task: TaskView,
    reply: ReplyView,
    phase: Phase,
    other: Phase,
)
    requires
        answers(task, reply),
    ensures
        handles_candidates(task, reply) ==> next_task(task, phase, reply) == next_task(
            task,
            other,
            reply,
        ),
        handles_candidates(task, reply) ==> task is FindRemote || task is TakeCandidates || task
            is ConvertNext || task is AddNext,
        handles_candidates(task, reply) && task is FindRemote ==> reply matches ReplyView::Remote(
            Some(_),
        ),
{
}

/// A task is seen for what it is.
pub proof fn tasks_are_what_they_say(task: Task)
    ensures
        match task {
            Task::BeginNegotiation => task@ is BeginNegotiation,
            Task::CreateOffer => task@ is CreateOffer,
            Task::SetOffer(offer) => task@ == TaskView::SetOffer(offer),
            Task::SendOffer(offer) => task@ == TaskView::SendOffer(offer),
            Task::Fail(cause) => task@ == TaskView::Fail(cause),
            Task::FindRemote(candidate) => task@ == TaskView::FindRemote(candidate),
            Task::ConvertCandidate(candidate) => task@ == TaskView::ConvertCandidate(candidate),
            Task::AddCandidate(init) => task@ == TaskView::AddCandidate(init),
            Task::QueueCandidate(candidate) => task@ == TaskView::QueueCandidate(candidate),
            Task::SetRemote(sdp) => task@ == TaskView::SetRemote(sdp),
            Task::InspectRemote => task@ is InspectRemote,
            Task::CreateAnswer => task@ is CreateAnswer,
            Task::SetAnswer(answer) => task@ == TaskView::SetAnswer(answer),
            Task::SendAnswer(answer) => task@ == TaskView::SendAnswer(answer),
            Task::TakeCandidates => task@ is TakeCandidates,
            Task::ConvertNext(rest) => task@ == TaskView::ConvertNext(rest@),
            Task::AddNext(init, rest) => task@ == TaskView::AddNext(init, rest@),
            Task::Finished(result) => task@ == TaskView::Finished(result),
        },
{
}

/// An outcome is seen for what it is.
pub proof fn outcomes_are_what_they_say(reply: Reply)
    ensures
        match reply {
            Reply::Done(result) => reply@ == ReplyView::Done(result),
            Reply::Created(result) => reply@ == ReplyView::Created(result),
            Reply::Gone => reply@ is Gone,
            Reply::Remote(sdp_type) => reply@ == ReplyView::Remote(sdp_type),
            Reply::Converted(result) => reply@ == ReplyView::Converted(result),
            Reply::Candidates(candidates) => reply@ == ReplyView::Candidates(candidates@),
        },
{
}

} // verus!
