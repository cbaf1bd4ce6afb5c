use wrtc::error::Error;
use wrtc::ice::{IceCandidate, IceCandidateType, IceProtocol};
use wrtc::options::Options;
use wrtc::peer_connection::PeerConnection;
use wrtc::signal::{SdpType, SessionDescription, Signal};
use wrtc::task::{Reply, Task};

fn connection(initiator: bool) -> PeerConnection {
    PeerConnection::start(initiator, Options::default()).connection
}

fn candidate(port: u16) -> IceCandidate {
    IceCandidate {
        stats_id: "id".to_string(),
        foundation: "7".to_string(),
        priority: 5,
        address: "192.168.56.1".to_string(),
        protocol: IceProtocol::Udp,
        port,
        typ: IceCandidateType::Host,
        component: 1,
        related_address: String::new(),
        related_port: 0,
        tcp_type: String::new(),
    }
}

fn description(sdp_type: SdpType, sdp: &str) -> SessionDescription {
    SessionDescription {
        sdp_type,
        sdp: sdp.to_string(),
    }
}

fn apply(p: &PeerConnection, signal: Signal) -> Task {
    p.apply_signal(signal).task
}

fn advance(p: &PeerConnection, task: Task, reply: Reply) -> Task {
    p.advance(task, reply).task
}

fn done() -> Reply {
    Reply::Done(Ok(()))
}

fn refused() -> Reply {
    Reply::Done(Err(Error::ConnectionClosed))
}

#[test]
fn only_the_initiator_renegotiates() {
    let p = connection(true);
    assert!(matches!(
        apply(&p, Signal::Renegotiate(true)),
        Task::BeginNegotiation
    ));
    assert!(matches!(
        apply(&p, Signal::Renegotiate(false)),
        Task::Finished(Ok(()))
    ));
    assert!(p.close().is_ok());
    assert!(matches!(
        apply(&p, Signal::Renegotiate(true)),
        Task::Finished(Ok(()))
    ));
    assert!(matches!(
        apply(&connection(false), Signal::Renegotiate(true)),
        Task::Finished(Ok(()))
    ));
}

#[test]
fn negotiation_makes_an_offer() {
    let p = connection(true);
    let task = p.negotiation_needed().task;
    assert!(matches!(task, Task::BeginNegotiation));
    let task = advance(&p, task, Reply::Done(p.begin_negotiation()));
    assert!(matches!(task, Task::CreateOffer));
    let offer = description(SdpType::Offer, "o");
    let task = advance(&p, task, Reply::Created(Ok(offer)));
    assert!(matches!(&task, Task::SetOffer(offer) if offer.sdp == "o"));
    let task = advance(&p, task, done());
    assert!(matches!(&task, Task::SendOffer(offer) if offer.sdp == "o"));
    let task = advance(&p, task, done());
    assert!(matches!(task, Task::Finished(Ok(()))));
}

#[test]
fn a_failed_offer_fails_the_connection() {
    let p = connection(true);
    let error = || Error::IceConnectionNotStarted;
    let task = advance(&p, Task::CreateOffer, Reply::Created(Err(error())));
    assert!(matches!(task, Task::Fail(Error::IceConnectionNotStarted)));
    let task = advance(
        &p,
        Task::SetOffer(description(SdpType::Offer, "o")),
        refused(),
    );
    assert!(matches!(task, Task::Fail(Error::ConnectionClosed)));
    let task = advance(&p, task, refused());
    assert!(matches!(task, Task::Finished(Ok(()))));
    let task = advance(&p, Task::CreateOffer, Reply::Gone);
    assert!(matches!(task, Task::Finished(Ok(()))));
}

#[test]
fn negotiation_on_a_closed_connection() {
    let p = connection(true);
    assert!(p.close().is_ok());
    let task = advance(&p, Task::BeginNegotiation, Reply::Done(p.begin_negotiation()));
    assert!(matches!(task, Task::Finished(Ok(()))));
    let p = connection(true);
    assert!(p.fail(Error::ConnectionClosed).is_ok());
    let task = advance(&p, Task::BeginNegotiation, Reply::Done(p.begin_negotiation()));
    assert!(matches!(task, Task::Finished(Err(Error::ConnectionClosed))));
}

#[test]
fn offers_are_answered() {
    let p = connection(false);
    let task = apply(&p, Signal::Sdp(description(SdpType::Offer, "o")));
    assert!(matches!(&task, Task::SetRemote(offer) if offer.sdp == "o"));
    let task = advance(&p, task, done());
    assert!(matches!(task, Task::InspectRemote));
    let task = advance(&p, task, Reply::Remote(Some(SdpType::Offer)));
    assert!(matches!(task, Task::CreateAnswer));
    let answer = description(SdpType::Answer, "a");
    let task = advance(&p, task, Reply::Created(Ok(answer)));
    assert!(matches!(&task, Task::SetAnswer(answer) if answer.sdp == "a"));
    let task = advance(&p, task, done());
    assert!(matches!(&task, Task::SendAnswer(answer) if answer.sdp == "a"));
    let task = advance(&p, task, done());
    assert!(matches!(task, Task::Finished(Ok(()))));
}

#[test]
fn a_closed_connection_does_not_answer() {
    let p = connection(false);
    assert!(p.close().is_ok());
    let task = advance(&p, Task::InspectRemote, Reply::Remote(Some(SdpType::Offer)));
    assert!(matches!(task, Task::Finished(Err(Error::DataChannelNotOpen))));
}

#[test]
fn only_offers_are_answered() {
    let p = connection(true);
    for sdp_type in [None, Some(SdpType::Answer), Some(SdpType::Pranswer)] {
        let task = advance(&p, Task::InspectRemote, Reply::Remote(sdp_type));
        assert!(matches!(task, Task::Finished(Ok(()))));
    }
    assert!(p.begin_negotiation().is_ok());
    let task = advance(&p, Task::InspectRemote, Reply::Remote(Some(SdpType::Answer)));
    assert!(matches!(task, Task::TakeCandidates));
}

#[test]
fn failures_end_what_is_done() {
    let p = connection(false);
    for task in [
        Task::SetRemote(description(SdpType::Offer, "o")),
        Task::SetAnswer(description(SdpType::Answer, "a")),
    ] {
        let task = advance(&p, task, refused());
        assert!(matches!(task, Task::Finished(Err(Error::ConnectionClosed))));
    }
    let task = advance(
        &p,
        Task::CreateAnswer,
        Reply::Created(Err(Error::ConnectionClosed)),
    );
    assert!(matches!(task, Task::Finished(Err(Error::ConnectionClosed))));
}

#[test]
fn candidates_wait_for_the_description() {
    let p = connection(false);
    let task = apply(&p, Signal::Candidate(candidate(9)));
    assert!(matches!(&task, Task::FindRemote(c) if c.port == 9));
    let task = advance(&p, task, Reply::Remote(Some(SdpType::Offer)));
    match &task {
        Task::AddCandidate(init) => {
            assert_eq!(init.candidate, "candidate:7 1 udp 5 192.168.56.1 9 typ host")
        }
        _ => panic!("a candidate is handed over"),
    }
    let task = advance(&p, task, refused());
    assert!(matches!(task, Task::Finished(Err(Error::ConnectionClosed))));

    let task = advance(&p, Task::FindRemote(candidate(9)), Reply::Remote(None));
    assert!(matches!(task, Task::Finished(Ok(()))));
    assert!(p.begin_negotiation().is_ok());
    let task = advance(&p, Task::FindRemote(candidate(9)), Reply::Remote(None));
    assert!(matches!(&task, Task::QueueCandidate(c) if c.port == 9));
    let step = p.advance(Task::FindRemote(candidate(9)), Reply::Remote(None));
    assert!(step.status.is_negotiating());
    let task = advance(&p, task, done());
    assert!(matches!(task, Task::Finished(Ok(()))));
}

#[test]
fn kept_candidates_are_handed_over_in_order() {
    let p = connection(false);
    let mut task = advance(
        &p,
        Task::TakeCandidates,
        Reply::Candidates(vec![candidate(1), candidate(2), candidate(3)]),
    );
    let mut lines = Vec::new();
    while let Task::AddNext(init, _) = &task {
        lines.push(init.candidate.clone());
        task = advance(&p, task, done());
    }
    assert!(matches!(task, Task::Finished(Ok(()))));
    assert_eq!(
        lines,
        vec![
            "candidate:7 1 udp 5 192.168.56.1 1 typ host",
            "candidate:7 1 udp 5 192.168.56.1 2 typ host",
            "candidate:7 1 udp 5 192.168.56.1 3 typ host",
        ]
    );
    let task = advance(&p, Task::TakeCandidates, Reply::Candidates(Vec::new()));
    assert!(matches!(task, Task::Finished(Ok(()))));
}

#[test]
fn what_is_due_is_converted() {
    let port = |task: &Task, reply: &Reply| task.due(reply).map(|c| c.port);
    let kept = || vec![candidate(1), candidate(2)];
    let init = candidate(3).to_json().unwrap();
    let add = Task::AddNext(init, kept());
    assert_eq!(port(&add, &done()), Some(1));
    assert_eq!(port(&add, &refused()), None);
    assert_eq!(port(&Task::TakeCandidates, &Reply::Candidates(kept())), Some(1));
    assert_eq!(port(&Task::TakeCandidates, &Reply::Candidates(Vec::new())), None);
    let find = Task::FindRemote(candidate(9));
    assert_eq!(port(&find, &Reply::Remote(Some(SdpType::Answer))), Some(9));
    assert_eq!(port(&find, &Reply::Remote(None)), None);

    // A candidate for which no priority can be computed is kept and dropped like any other.
    let p = connection(false);
    let mut odd = candidate(9);
    odd.priority = 0;
    odd.component = 257;
    assert!(!odd.has_priority());
    let task = advance(&p, Task::FindRemote(odd.clone()), Reply::Remote(None));
    assert!(matches!(task, Task::Finished(Ok(()))));
    assert!(p.begin_negotiation().is_ok());
    let task = advance(&p, Task::FindRemote(odd.clone()), Reply::Remote(None));
    assert!(matches!(&task, Task::QueueCandidate(c) if c.port == 9));

    // When it is due, there is nothing to be done about it, unless it is refused anyhow.
    let found = || Reply::Remote(Some(SdpType::Offer));
    assert!(p.try_advance(Task::FindRemote(odd.clone()), found()).is_none());
    odd.address = "nowhere".to_string();
    let step = p.try_advance(Task::FindRemote(odd), found()).unwrap();
    assert!(matches!(step.task, Task::Finished(Err(Error::Webrtc(_)))));
}

#[test]
fn only_outcomes_of_a_task_are_taken() {
    let p = connection(true);
    assert!(p.try_advance(Task::CreateOffer, done()).is_none());
    assert!(p.try_advance(Task::Finished(Ok(())), done()).is_none());
    assert!(p.try_advance(Task::SetRemote(description(SdpType::Offer, "o")), Reply::Gone).is_none());
    let step = p.try_advance(Task::CreateOffer, Reply::Gone).unwrap();
    assert!(matches!(step.task, Task::Finished(Ok(()))));
    let step = p.try_advance(Task::FindRemote(candidate(9)), Reply::Remote(Some(SdpType::Offer)));
    assert!(matches!(step.unwrap().task, Task::AddCandidate(_)));
    assert!(Task::TakeCandidates.is_answered_by(&Reply::Candidates(Vec::new())));
    assert!(!Task::TakeCandidates.is_answered_by(&done()));
}

#[test]
fn the_first_failure_ends_the_hand_over() {
    let p = connection(false);
    let mut broken = candidate(2);
    broken.typ = IceCandidateType::Unspecified;
    let task = advance(
        &p,
        Task::TakeCandidates,
        Reply::Candidates(vec![candidate(1), broken, candidate(3)]),
    );
    assert!(matches!(&task, Task::AddNext(_, rest) if rest.len() == 2));
    let task = advance(&p, task, done());
    match task {
        Task::Finished(Err(error)) => assert_eq!(error.message(), "unknown candidate type"),
        _ => panic!("a candidate of no known type is refused"),
    }
    let task = advance(
        &p,
        Task::TakeCandidates,
        Reply::Candidates(vec![candidate(1), candidate(2)]),
    );
    let task = advance(&p, task, refused());
    assert!(matches!(task, Task::Finished(Err(Error::ConnectionClosed))));
}

#[test]
fn found_candidates_become_messages() {
    let signal = PeerConnection::on_ice_candidate(Some(candidate(4)));
    assert_eq!(signal, Some(Signal::Candidate(candidate(4))));
}

/// Does what is to be done with outcomes that go well, and gathers what is sent.
fn drive(p: &PeerConnection, mut task: Task, remote: Option<SdpType>) -> Vec<SessionDescription> {
    let mut sent = Vec::new();
    for _ in 0..20 {
        let reply = match &task {
            Task::Finished(_) => return sent,
            Task::BeginNegotiation => Reply::Done(p.begin_negotiation()),
            Task::CreateOffer => Reply::Created(Ok(description(SdpType::Offer, "new"))),
            Task::CreateAnswer => Reply::Created(Ok(description(SdpType::Answer, "new"))),
            Task::FindRemote(_) | Task::InspectRemote => Reply::Remote(remote),
            Task::TakeCandidates => Reply::Candidates(vec![candidate(1), candidate(2)]),
            Task::SendOffer(sdp) | Task::SendAnswer(sdp) => {
                sent.push(sdp.clone());
                done()
            }
            _ => done(),
        };
        task = advance(p, task, reply);
    }
    panic!("what is done about a message comes to an end")
}

#[test]
fn at_most_one_message_is_sent_about_another() {
    let p = connection(true);
    let offered = drive(&p, apply(&p, Signal::Renegotiate(true)), None);
    assert_eq!(offered.len(), 1);
    assert_eq!(offered[0].sdp_type, SdpType::Offer);
    assert_eq!(offered[0].sdp, "new");

    let sdp = Signal::Sdp(description(SdpType::Offer, "o"));
    let answered = drive(&p, apply(&p, sdp), Some(SdpType::Offer));
    assert_eq!(answered.len(), 1);
    assert_eq!(answered[0].sdp_type, SdpType::Answer);

    let sdp = Signal::Sdp(description(SdpType::Answer, "a"));
    assert!(drive(&p, apply(&p, sdp), Some(SdpType::Answer)).is_empty());

    let signal = Signal::Candidate(candidate(3));
    assert!(drive(&p, apply(&p, signal.clone()), Some(SdpType::Offer)).is_empty());
    assert!(drive(&p, apply(&p, signal), None).is_empty());
}
