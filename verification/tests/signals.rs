use wrtc::error::Error;
use wrtc::ice::{IceCandidate, IceCandidateType, IceProtocol};
use wrtc::json::{split_entry, DecodeError};
use wrtc::signal::{SdpType, SessionDescription, Signal};

fn host_candidate() -> IceCandidate {
    IceCandidate {
        stats_id: "candidate:UcZ4TWueGMPo2CVb89j0JmbGbeEgpDyK".to_string(),
        foundation: "3299231860".to_string(),
        priority: 2130706431,
        address: "192.168.56.1".to_string(),
        protocol: IceProtocol::Udp,
        port: 53545,
        typ: IceCandidateType::Host,
        component: 1,
        related_address: "".to_string(),
        related_port: 0,
        tcp_type: "unspecified".to_string(),
    }
}

#[test]
fn signal_serialization() {
    let candidate = IceCandidate {
        stats_id: "candidate:UcZ4TWueGMPo2CVb89j0JmbGbeEgpDyK".to_string(),
        foundation: "3299231860".to_string(),
        priority: 2130706431,
        address: "192.168.56.1".to_string(),
        protocol: IceProtocol::Udp,
        port: 53545,
        typ: IceCandidateType::Host,
        component: 1,
        related_address: "".to_string(),
        related_port: 0,
        tcp_type: "unspecified".to_string(),
    };
    let sdp = r#"v=0
o=- 2043488436270048026 560464900 IN IP4 0.0.0.0
s=-
t=0 0
a=fingerprint:sha-256 D8:53:60:55:F5:04:35:D0:30:3A:8A:DC:2B:26:D6:EF:F5:09:67:0B:0E:B3:C5:CA:B0:85:2E:9C:FC:25:57:45
a=group:BUNDLE 0
m=application 9 UDP/DTLS/SCTP webrtc-datachannel
c=IN IP4 0.0.0.0
a=setup:actpass
a=mid:0
a=sendrecv
a=sctp-port:5000
a=ice-ufrag:aeqnRWKqXnAJjFbZ
a=ice-pwd:cqzvayDwlWVFBfsBYhDgOiPjsnFnSZMC
"#;
    let signals = vec![
        (
            Signal::Sdp(SessionDescription {
                sdp_type: SdpType::Offer,
                sdp: sdp.to_string(),
            }),
            format!(
                r#"{{"sdp":{{"type":"offer","sdp":{}}}}}"#,
                serde_json::to_string(sdp).unwrap()
            ),
        ),
        (
            Signal::Candidate(candidate),
            r#"{"candidate":{"stats_id":"candidate:UcZ4TWueGMPo2CVb89j0JmbGbeEgpDyK","foundation":"3299231860","priority":2130706431,"address":"192.168.56.1","protocol":"udp","port":53545,"typ":"host","component":1,"related_address":"","related_port":0,"tcp_type":"unspecified"}}"#.to_string(),
        ),
        (Signal::Renegotiate(true), r#"{"renegotiate":true}"#.to_string()),
    ];
    for (signal, expected) in signals {
        let json = signal.to_json().unwrap();
        assert_eq!(json, expected);

        let actual: Signal = Signal::from_json(&json).unwrap();
        assert_eq!(actual, signal);
    }
}

#[test]
fn every_variant_survives_its_text() {
    for protocol in [IceProtocol::Unspecified, IceProtocol::Udp, IceProtocol::Tcp] {
        for typ in [
            IceCandidateType::Unspecified,
            IceCandidateType::Host,
            IceCandidateType::Srflx,
            IceCandidateType::Prflx,
            IceCandidateType::Relay,
        ] {
            let mut candidate = host_candidate();
            candidate.protocol = protocol;
            candidate.typ = typ;
            candidate.tcp_type = "\"\\\u{7}\n}:{ \u{1F600}".to_string();
            let signal = Signal::Candidate(candidate);
            let text = signal.to_json().unwrap();
            assert_eq!(Signal::from_json(&text).unwrap(), signal);
        }
    }
    for sdp_type in [
        SdpType::Unspecified,
        SdpType::Offer,
        SdpType::Pranswer,
        SdpType::Answer,
        SdpType::Rollback,
    ] {
        let signal = Signal::Sdp(SessionDescription {
            sdp_type,
            sdp: "} \"quoted\" {\r\n".to_string(),
        });
        let text = signal.to_json().unwrap();
        assert_eq!(Signal::from_json(&text).unwrap(), signal);
    }
    let text = Signal::Renegotiate(false).to_json().unwrap();
    assert_eq!(text, "{\"renegotiate\":false}");
    assert_eq!(Signal::from_json(&text).unwrap(), Signal::Renegotiate(false));
}

#[test]
fn space_and_escapes_are_read() {
    let spaced = " \n{\t\"renegotiate\" \r: true } ";
    assert_eq!(Signal::from_json(spaced).unwrap(), Signal::Renegotiate(true));

    let escaped = "{\"s\\u0064p\":{\"sdp\":\"x\",\"type\":\"answer\",\"extra\":[1]}}";
    assert_eq!(
        Signal::from_json(escaped).unwrap(),
        Signal::Sdp(SessionDescription {
            sdp_type: SdpType::Answer,
            sdp: "x".to_string(),
        })
    );
}

#[test]
fn other_texts_are_refused() {
    for text in [
        "",
        "   ",
        "true",
        "\"renegotiate\"",
        "{}",
        "{\"renegotiate\"}",
        "{\"renegotiate\":true",
        "{\"renegotiate:true}",
        "{renegotiate:true}",
        "{\"re\\qnegotiate\":true}",
        "{\"x\\",
    ] {
        assert!(
            matches!(Signal::from_json(text), Err(DecodeError::NotAnEntry)),
            "{}",
            text
        );
    }
    for text in ["{\"transceiver\":true}", "{\"\":true}", "{\"Sdp\":{}}"] {
        assert!(
            matches!(Signal::from_json(text), Err(DecodeError::UnknownName)),
            "{}",
            text
        );
    }
    for text in [
        "{\"renegotiate\":1}",
        "{\"renegotiate\":}",
        "{\"renegotiate\":true,\"renegotiate\":true}",
        "{\"candidate\":{}}",
        "{\"sdp\":{\"type\":\"offer\"}}",
        "{\"sdp\":{\"type\":\"other\",\"sdp\":\"\"}}",
    ] {
        assert!(
            matches!(Signal::from_json(text), Err(DecodeError::Value(_))),
            "{}",
            text
        );
    }
}

#[test]
fn entries_are_split_as_written() {
    assert_eq!(split_entry("{\"a\":1}"), Some(("\"a\"", "1")));
    assert_eq!(
        split_entry(" { \"a\\\"b\" : {\"c\":[]} } "),
        Some(("\"a\\\"b\"", " {\"c\":[]} "))
    );
    assert_eq!(split_entry("{\"a\":}"), Some(("\"a\"", "")));
    assert_eq!(split_entry("{\"a\":1} x"), None);
    assert_eq!(split_entry("{\"a\" 1}"), None);
}

#[test]
fn signals_are_equal_by_what_they_hold() {
    let sdp = |sdp_type: SdpType, text: &str| {
        Signal::Sdp(SessionDescription {
            sdp_type,
            sdp: text.to_string(),
        })
    };
    assert_eq!(Signal::Renegotiate(true), Signal::Renegotiate(true));
    assert_ne!(Signal::Renegotiate(true), Signal::Renegotiate(false));
    assert_eq!(sdp(SdpType::Offer, "x"), sdp(SdpType::Offer, "x"));
    assert_ne!(sdp(SdpType::Offer, "x"), sdp(SdpType::Answer, "x"));
    assert_ne!(sdp(SdpType::Offer, "x"), sdp(SdpType::Offer, "y"));
    assert_ne!(sdp(SdpType::Offer, "x"), Signal::Renegotiate(true));
    let candidate = host_candidate();
    assert_eq!(
        Signal::Candidate(candidate.clone()),
        Signal::Candidate(candidate.clone())
    );
    let mut other = candidate.clone();
    other.port = 1;
    assert_ne!(Signal::Candidate(candidate.clone()), Signal::Candidate(other));
    let mut other = candidate.clone();
    other.tcp_type = "active".to_string();
    assert_ne!(candidate, other);
}

#[test]
fn candidate_is_presented_by_its_attribute_line() {
    let init = host_candidate().to_json().unwrap();
    assert_eq!(
        init.candidate,
        "candidate:3299231860 1 udp 2130706431 192.168.56.1 53545 typ host"
    );
    assert_eq!(init.sdp_mid, Some("".to_string()));
    assert_eq!(init.sdp_mline_index, Some(0));
    assert_eq!(init.username_fragment, None);

    let mut relayed = host_candidate();
    relayed.typ = IceCandidateType::Relay;
    relayed.related_address = "10.0.0.1".to_string();
    relayed.related_port = 7;
    assert_eq!(
        relayed.to_json().unwrap().candidate,
        "candidate:3299231860 1 udp 2130706431 192.168.56.1 53545 typ relay raddr 10.0.0.1 rport 7"
    );
}

#[test]
fn unknown_candidates_are_refused() {
    let mut candidate = host_candidate();
    candidate.typ = IceCandidateType::Unspecified;
    let error = candidate.to_json().unwrap_err();
    assert_eq!(error.message(), "unknown candidate type");

    let mut candidate = host_candidate();
    candidate.address = "nowhere".to_string();
    assert!(candidate.to_json().is_err());
}

#[test]
fn priority_is_stated_or_computed() {
    let mut candidate = host_candidate();
    assert!(candidate.has_priority());
    candidate.priority = 0;
    assert!(candidate.has_priority());
    assert_eq!(
        candidate.to_json().unwrap().candidate,
        "candidate:3299231860 1 udp 2130706431 192.168.56.1 53545 typ host"
    );
    assert!(matches!(candidate.try_to_json(), Some(Ok(_))));
    candidate.component = 257;
    assert!(!candidate.has_priority());
    assert!(candidate.try_to_json().is_none());
    candidate.priority = 6;
    assert_eq!(
        candidate.try_to_json().unwrap().unwrap().candidate,
        "candidate:3299231860 257 udp 6 192.168.56.1 53545 typ host"
    );
}

#[test]
fn a_candidate_without_an_address_is_refused_whatever_its_priority() {
    for priority in [0, 6] {
        let mut candidate = host_candidate();
        candidate.priority = priority;
        candidate.component = 257;
        candidate.address = "nowhere".to_string();
        assert!(matches!(candidate.try_to_json(), Some(Err(Error::Webrtc(_)))));
        candidate.address = "192.168.56.1".to_string();
        candidate.typ = IceCandidateType::Unspecified;
        let error = candidate.try_to_json().unwrap().unwrap_err();
        assert_eq!(error.message(), "unknown candidate type");
    }
}

#[test]
fn texts_are_escaped_where_they_need_it() {
    let text = |sdp: &str| {
        let sdp = SessionDescription {
            sdp_type: SdpType::Answer,
            sdp: sdp.to_string(),
        };
        Signal::Sdp(sdp).to_json().unwrap()
    };
    assert_eq!(text("v=0 é"), "{\"sdp\":{\"type\":\"answer\",\"sdp\":\"v=0 é\"}}");
    assert_eq!(
        text("a\"b\\\r\n"),
        "{\"sdp\":{\"type\":\"answer\",\"sdp\":\"a\\\"b\\\\\\r\\n\"}}"
    );
}
