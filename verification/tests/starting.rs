use wrtc::error::Error;
use wrtc::options::{DataChannelInit, IceCredentialType, Labels, Options};
use wrtc::peer_connection::PeerConnection;

fn labels(options: &Options) -> Vec<String> {
    let channels = options.labels.channels();
    let mut labels: Vec<String> = channels.iter().map(|c| c.0.clone()).collect();
    labels.sort();
    labels
}

#[test]
fn each_label_once() {
    let options = Options::with_data_channels(&["b", "a", "b", "", "a"]);
    assert_eq!(labels(&options), vec!["", "a", "b"]);
    assert!(options.labels.channels().iter().all(|c| c.1.is_none()));
}

#[test]
fn a_channel_takes_the_place_of_one_with_its_label() {
    let init = |retransmits: u16| DataChannelInit {
        ordered: Some(false),
        max_packet_life_time: None,
        max_retransmits: Some(retransmits),
        protocol: Some("chat".to_string()),
        negotiated: None,
    };
    let mut options = Options::with_data_channels(&["a", "b"]);
    options.labels.insert("a", Some(init(1)));
    options.labels.insert("c", None);
    options.labels.insert("a", Some(init(2)));
    assert_eq!(labels(&options), vec!["a", "b", "c"]);
    for (label, init) in options.labels.clone().into_channels() {
        match init {
            Some(init) => {
                assert_eq!(label, "a");
                assert_eq!(init.ordered, Some(false));
                assert_eq!(init.max_retransmits, Some(2));
                assert_eq!(init.protocol.as_deref(), Some("chat"));
            }
            None => assert_ne!(label, "a"),
        }
    }
    assert!(Labels::new().channels().is_empty());
}

#[test]
fn usual_options() {
    let options = Options::default();
    assert!(options.labels.channels().is_empty());
    let config = &options.rtc_config;
    assert_eq!(config.ice_servers.len(), 1);
    let server = &config.ice_servers[0];
    assert_eq!(server.urls, vec!["stun:stun.l.google.com:19302"]);
    assert_eq!(server.username, "");
    assert_eq!(server.credential, "");
    assert_eq!(server.credential_type, IceCredentialType::Unspecified);
    assert_eq!(config.peer_identity, "");
    assert!(config.certificates.is_empty());
    assert_eq!(config.ice_candidate_pool_size, 0);
}

#[test]
fn copied_options_are_the_same() {
    let mut options = Options::with_data_channels(&["x", "y"]);
    options.rtc_config.peer_identity = "me".to_string();
    options.rtc_config.ice_candidate_pool_size = 3;
    options.rtc_config.ice_servers[0].username = "user".to_string();
    let copy = options.clone();
    assert_eq!(labels(&copy), labels(&options));
    assert_eq!(copy.rtc_config.peer_identity, "me");
    assert_eq!(copy.rtc_config.ice_candidate_pool_size, 3);
    assert_eq!(copy.rtc_config.ice_servers.len(), 1);
    assert_eq!(copy.rtc_config.ice_servers[0].username, "user");
    assert_eq!(
        copy.rtc_config.ice_servers[0].urls,
        options.rtc_config.ice_servers[0].urls
    );
}

#[test]
fn only_the_initiator_opens_channels() {
    let options = Options::with_data_channels(&["x", "y"]);
    let start = PeerConnection::start(true, options.clone());
    let opened: Vec<&str> = start.channels.iter().map(|c| c.0.as_str()).collect();
    assert_eq!(opened.len(), 2);
    assert!(opened.contains(&"x") && opened.contains(&"y"));
    assert_eq!(start.rtc_config.ice_servers.len(), 1);
    let start = PeerConnection::start(false, options);
    assert!(start.channels.is_empty());
}

#[test]
fn errors_in_words() {
    assert_eq!(
        Error::channel_closed().message(),
        webrtc::Error::ErrDataChannelNotOpen.to_string()
    );
    assert_eq!(
        Error::ConnectionClosed.message(),
        webrtc::Error::ErrConnectionClosed.to_string()
    );
    assert_eq!(
        Error::IceConnectionNotStarted.message(),
        webrtc::Error::ErrICEConnectionNotStarted.to_string()
    );
    let error = Error::from(webrtc::Error::ErrUnknownType);
    assert_eq!(error.clone().message(), "unknown");
    assert!(matches!(error, Error::Webrtc(_)));
}
