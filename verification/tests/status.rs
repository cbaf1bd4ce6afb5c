use std::sync::Arc;
use wrtc::error::Error;
use wrtc::ice::{IceCandidate, IceCandidateType, IceProtocol};
use wrtc::options::Options;
use wrtc::peer_connection::{ConnectionState, IceConnectionState, PeerConnection, Progress};
use wrtc::status::{InnerState, Negotiation, PeerConnectionState};

fn connection(initiator: bool) -> PeerConnection {
    PeerConnection::start(initiator, Options::with_data_channels(&["dc"])).connection
}

#[test]
fn closed_is_final() {
    let status = PeerConnectionState::default();
    assert_eq!(status.name(), "waiting");
    assert!(status.set_negotiating(Negotiation::new(true)).is_ok());
    assert_eq!(status.name(), "negotiating");
    assert!(status.set_ready().is_ok());
    assert_eq!(status.name(), "ready");
    assert!(status.set_closed().is_ok());
    assert_eq!(status.name(), "closed");
    assert!(status.set_ready().is_ok());
    assert!(status.set_failed(Error::ConnectionClosed).is_ok());
    assert!(status.set_closed().is_ok());
    assert!(matches!(&*status.get(), InnerState::Closed(None)));
}

#[test]
fn failure_is_reported() {
    let status = PeerConnectionState::default();
    assert!(status.set_failed(Error::ConnectionClosed).is_ok());
    assert!(matches!(status.set_closed(), Err(Error::ConnectionClosed)));
    assert!(matches!(status.set_ready(), Err(Error::ConnectionClosed)));
    assert!(matches!(
        status.set_failed(Error::IceConnectionNotStarted),
        Err(Error::ConnectionClosed)
    ));
    assert!(matches!(
        status.get().connected(),
        Some(Err(Error::ConnectionClosed))
    ));
    assert!(matches!(
        status.get().closed(),
        Some(Err(Error::ConnectionClosed))
    ));
}

#[test]
fn next_keeps_what_is_closed() {
    let closed = InnerState::closed_gracefully();
    let ready = InnerState::ready();
    assert!(Arc::ptr_eq(&InnerState::next(&closed, &ready), &closed));
    assert!(Arc::ptr_eq(&InnerState::next(&ready, &closed), &closed));
    assert!(closed.update_outcome().is_ok());
    assert!(InnerState::failed(Error::ConnectionClosed)
        .update_outcome()
        .is_err());
}

#[test]
fn waiting_for_a_connection() {
    let p = connection(true);
    assert!(matches!(p.connected(), Progress::Wait(_)));
    assert!(matches!(p.closed(), Progress::Wait(_)));
    assert!(p.begin_negotiation().is_ok());
    assert!(p.is_negotiating());
    assert!(matches!(p.connected(), Progress::Wait(_)));
    assert!(matches!(p.on_connection_state(ConnectionState::Connected), Some(Ok(()))));
    assert!(!p.is_negotiating());
    assert!(matches!(p.connected(), Progress::Done(Ok(()))));
    assert!(matches!(p.closed(), Progress::Wait(_)));
    assert!(p.signal());
    assert!(p.close().is_ok());
    assert!(matches!(p.connected(), Progress::Done(Ok(()))));
    assert!(matches!(p.closed(), Progress::Done(Ok(()))));
    assert!(!p.signal());
    assert!(p.close().is_ok());
    assert_eq!(p.status_name(), "closed");
}

#[test]
fn a_change_wakes_those_who_wait() {
    let runtime = tokio::runtime::Builder::new_current_thread().build().unwrap();
    for state in [InnerState::waiting(), InnerState::ready()] {
        let status = PeerConnectionState::default();
        assert!(status.update(state).is_ok());
        let before = status.get();
        let notified = before.waiters().unwrap().notified();
        assert!(status.set_closed().is_ok());
        runtime.block_on(notified);
    }
    let p = connection(false);
    assert!(p.begin_negotiation().is_ok());
    if let Progress::Wait(state) = p.connected() {
        let notified = state.waiters().unwrap().notified();
        assert!(p.fail(Error::ConnectionClosed).is_ok());
        runtime.block_on(notified);
    } else {
        panic!("a connection under negotiation is waited for");
    }
    assert!(matches!(p.connected(), Progress::Done(Err(Error::ConnectionClosed))));
    assert!(p.status().waiters().is_none());
}

#[test]
fn closing_releases_all_who_wait() {
    let runtime = tokio::runtime::Builder::new_current_thread().build().unwrap();
    for p in [connection(true), connection(false)] {
        assert!(p.begin_negotiation().is_ok());
        assert!(matches!(p.on_ice_state(IceConnectionState::Connected), Some(Ok(()))));
        let states: Vec<Arc<InnerState>> = (0..2)
            .map(|_| match p.closed() {
                Progress::Wait(state) => state,
                Progress::Done(_) => panic!("an established connection is not closed"),
            })
            .collect();
        let waiting: Vec<_> = states.iter().map(|s| s.waiters().unwrap().notified()).collect();
        assert!(p.close().is_ok());
        for notified in waiting {
            runtime.block_on(notified);
            assert!(matches!(p.closed(), Progress::Done(Ok(()))));
        }
    }
}

#[test]
fn reports_of_the_connection() {
    for state in [
        ConnectionState::Unspecified,
        ConnectionState::New,
        ConnectionState::Connecting,
        ConnectionState::Disconnected,
    ] {
        let p = connection(true);
        assert!(p.on_connection_state(state).is_none());
        assert_eq!(p.status_name(), "waiting");
    }
    let p = connection(true);
    p.on_connection_state(ConnectionState::Failed);
    assert!(matches!(
        &*p.status(),
        InnerState::Closed(Some(Error::ConnectionClosed))
    ));
    assert!(matches!(
        p.on_connection_state(ConnectionState::Closed),
        Some(Err(Error::ConnectionClosed))
    ));
    let p = connection(true);
    p.on_connection_state(ConnectionState::Closed);
    assert!(matches!(&*p.status(), InnerState::Closed(None)));
}

#[test]
fn reports_of_the_ice_transport() {
    for state in [
        IceConnectionState::Unspecified,
        IceConnectionState::New,
        IceConnectionState::Checking,
        IceConnectionState::Disconnected,
    ] {
        let p = connection(true);
        assert!(p.on_ice_state(state).is_none());
        assert_eq!(p.status_name(), "waiting");
    }
    for state in [IceConnectionState::Connected, IceConnectionState::Completed] {
        let p = connection(true);
        assert!(matches!(p.on_ice_state(state), Some(Ok(()))));
        assert_eq!(p.status_name(), "ready");
    }
    let p = connection(true);
    p.on_ice_state(IceConnectionState::Failed);
    assert!(matches!(
        &*p.status(),
        InnerState::Closed(Some(Error::IceConnectionNotStarted))
    ));
    let p = connection(true);
    p.on_ice_state(IceConnectionState::Closed);
    assert!(matches!(&*p.status(), InnerState::Closed(None)));
}

#[test]
fn the_initiator_is_the_one_who_starts() {
    assert!(connection(true).is_initiator());
    assert!(!connection(false).is_initiator());
}

#[test]
fn candidates_are_kept_in_order() {
    let candidate = |port: u16| IceCandidate {
        stats_id: String::new(),
        foundation: "1".to_string(),
        priority: 1,
        address: "192.168.56.1".to_string(),
        protocol: IceProtocol::Udp,
        port,
        typ: IceCandidateType::Host,
        component: 1,
        related_address: String::new(),
        related_port: 0,
        tcp_type: String::new(),
    };
    let p = connection(true);
    assert!(p.status().pending().is_none());
    assert!(p.begin_negotiation().is_ok());
    assert!(matches!(&*p.status(), InnerState::Negotiating(n) if n.initiator));
    assert!(p.status().pending().unwrap().blocking_lock().is_empty());
    for port in [1, 2] {
        let status = p.status();
        let mut pending = status.pending().unwrap().blocking_lock();
        Negotiation::queue(&mut pending, candidate(port));
    }
    let status = p.status();
    let mut pending = status.pending().unwrap().blocking_lock();
    let ports: Vec<u16> = Negotiation::take(&mut pending).iter().map(|c| c.port).collect();
    assert_eq!(ports, vec![1, 2]);
    assert!(Negotiation::take(&mut pending).is_empty());
}

#[test]
fn a_new_round_of_negotiation_starts_afresh() {
    let p = connection(false);
    assert!(p.begin_negotiation().is_ok());
    let first = p.status();
    assert!(matches!(&*first, InnerState::Negotiating(n) if !n.initiator));
    assert!(Arc::ptr_eq(&first, &p.status()));
    assert!(p.begin_negotiation().is_ok());
    assert!(!Arc::ptr_eq(&first, &p.status()));
    assert!(p.is_negotiating());
}

#[test]
fn found_candidates_are_signalled() {
    assert!(PeerConnection::on_ice_candidate(None).is_none());
}
