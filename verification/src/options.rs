//! What a peer connection is started with.
use vstd::prelude::*;
use webrtc::peer_connection::certificate::RTCCertificate;

verus! {

/// A certificate of `webrtc`. It is carried as it came and never looked into.
#[verifier::external_type_specification]
#[verifier::external_body]
pub struct ExCertificate(RTCCertificate);

/// How the credential of a server is to be taken.
#[derive(Debug, Clone, Copy, PartialEq, Eq, Structural)]
pub enum IceCredentialType {
    Unspecified,
    Password,
    Oauth,
}

/// Which candidates may be used.
#[derive(Debug, Clone, Copy, PartialEq, Eq, Structural)]
pub enum IceTransportPolicy {
    Unspecified,
    All,
    Relay,
}

/// How media are bundled.
#[derive(Debug, Clone, Copy, PartialEq, Eq, Structural)]
pub enum BundlePolicy {
    Unspecified,
    Balanced,
    MaxCompat,
    MaxBundle,
}

/// How RTP and RTCP are multiplexed.
#[derive(Debug, Clone, Copy, PartialEq, Eq, Structural)]
pub enum RtcpMuxPolicy {
    Unspecified,
    Negotiate,
    Require,
}

/// A STUN or TURN server.
#[derive(Debug)]
pub struct IceServer {
    pub urls: Vec<String>,
    pub username: String,
    pub credential: String,
    pub credential_type: IceCredentialType,
}

impl IceServer {
    /// The server has nothing to it but its addresses.
    pub open spec fn is_bare(&self) -> bool {
        &&& self.username@ == Seq::<char>::empty()
        &&& self.credential@ == Seq::<char>::empty()
        &&& self.credential_type is Unspecified
    }

    /// The two are the same in all that they hold.
    pub open spec fn is_like(&self, other: &Self) -> bool {
        &&& self.urls@ == other.urls@
        &&& self.username == other.username
        &&& self.credential == other.credential
        &&& self.credential_type == other.credential_type
    }
}

impl Clone for IceServer {
    fn clone(&self) -> (copy: Self)
        ensures
            copy.is_like(self),
    {
        let urls = self.urls.clone();
        assert(urls@ =~= self.urls@);
        IceServer {
            urls,
            username: self.username.clone(),
            credential: self.credential.clone(),
            credential_type: self.credential_type,
        }
    }
}

impl Default for IceServer {
    fn default() -> (server: Self)
        ensures
            server.urls@.len() == 0,
            server.is_bare(),
    {
        IceServer {
            urls: Vec::new(),
            username: String::new(),
            credential: String::new(),
            credential_type: IceCredentialType::Unspecified,
        }
    }
}

/// Configuration of the underlying connection.
pub struct Configuration {
    pub ice_servers: Vec<IceServer>,
    pub ice_transport_policy: IceTransportPolicy,
    pub bundle_policy: BundlePolicy,
    pub rtcp_mux_policy: RtcpMuxPolicy,
    pub peer_identity: String,
    pub certificates: Vec<RTCCertificate>,
    pub ice_candidate_pool_size: u8,
}

impl Configuration {
    /// Nothing is configured but the servers.
    pub open spec fn is_bare(&self) -> bool {
        &&& self.ice_transport_policy is Unspecified
        &&& self.bundle_policy is Unspecified
        &&& self.rtcp_mux_policy is Unspecified
        &&& self.peer_identity@ == Seq::<char>::empty()
        &&& self.certificates@.len() == 0
        &&& self.ice_candidate_pool_size == 0
    }

    /// The two are the same in all that they hold, except that the certificates are only as many.
    pub open spec fn is_like(&self, other: &Self) -> bool {
        &&& self.ice_servers@.len() == other.ice_servers@.len()
        &&& forall|i: int|
            0 <= i < self.ice_servers@.len() ==> (#[trigger] self.ice_servers@[i]).is_like(
                &other.ice_servers@[i],
            )
        &&& self.ice_transport_policy == other.ice_transport_policy
        &&& self.bundle_policy == other.bundle_policy
        &&& self.rtcp_mux_policy == other.rtcp_mux_policy
        &&& self.peer_identity == other.peer_identity
        &&& self.certificates@.len() == other.certificates@.len()
        &&& self.ice_candidate_pool_size == other.ice_candidate_pool_size
    }
}

impl Clone for Configuration {
    /// A copy. What a copied certificate is like is up to `webrtc`.
    fn clone(&self) -> (copy: Self)
        ensures
            copy.is_like(self),
    {
        let mut ice_servers: Vec<IceServer> = Vec::new();
        let mut i: usize = 0;
        while i < self.ice_servers.len()
            invariant
                i <= self.ice_servers@.len(),
                ice_servers@.len() == i,
                forall|j: int|
                    0 <= j < i ==> (#[trigger] ice_servers@[j]).is_like(&self.ice_servers@[j]),
            decreases self.ice_servers@.len() - i,
        {
            ice_servers.push(self.ice_servers[i].clone());
            i = i + 1;
        }
        Configuration {
            ice_servers,
            ice_transport_policy: self.ice_transport_policy,
            bundle_policy: self.bundle_policy,
            rtcp_mux_policy: self.rtcp_mux_policy,
            peer_identity: self.peer_identity.clone(),
            certificates: self.certificates.clone(),
            ice_candidate_pool_size: self.ice_candidate_pool_size,
        }
    }
}

impl Default for Configuration {
    fn default() -> (configuration: Self)
        ensures
            configuration.ice_servers@.len() == 0,
            configuration.is_bare(),
    {
        Configuration {
            ice_servers: Vec::new(),
            ice_transport_policy: IceTransportPolicy::Unspecified,
            bundle_policy: BundlePolicy::Unspecified,
            rtcp_mux_policy: RtcpMuxPolicy::Unspecified,
            peer_identity: String::new(),
            certificates: Vec::new(),
            ice_candidate_pool_size: 0,
        }
    }
}

/// Properties of a data channel.
#[derive(Debug)]
pub struct DataChannelInit {
    pub ordered: Option<bool>,
    pub max_packet_life_time: Option<u16>,
    pub max_retransmits: Option<u16>,
    pub protocol: Option<String>,
    pub negotiated: Option<u16>,
}

impl Clone for DataChannelInit {
    fn clone(&self) -> (copy: Self)
        ensures
            copy == *self,
    {
        DataChannelInit {
            ordered: self.ordered,
            max_packet_life_time: self.max_packet_life_time,
            max_retransmits: self.max_retransmits,
            protocol: match &self.protocol {
                Some(protocol) => Some(protocol.clone()),
                None => None,
            },
            negotiated: self.negotiated,
        }
    }
}

/// `label` is the label of one of the channels.
pub open spec fn is_label(
    channels: Seq<(String, Option<DataChannelInit>)>,
    label: Seq<char>,
) -> bool {
    exists|i: int| 0 <= i < channels.len() && (#[trigger] channels[i]).0@ == label
}

/// No two channels have the same label.
pub open spec fn labels_differ(channels: Seq<(String, Option<DataChannelInit>)>) -> bool {
    forall|i: int, j: int|
        0 <= i < j < channels.len() ==> (#[trigger] channels[i]).0@ != (#[trigger] channels[j]).0@
}

/// The properties of the channels, by their labels.
pub open spec fn by_label(channels: Seq<(String, Option<DataChannelInit>)>) -> Map<
    Seq<char>,
    Option<DataChannelInit>,
> {
    Map::new(
        |label: Seq<char>| is_label(channels, label),
        |label: Seq<char>|
            {
                let i = choose|i: int|
                    0 <= i < channels.len() && (#[trigger] channels[i]).0@ == label;
                channels[i].1
            },
    )
}

/// A channel is found by its label.
pub proof fn lemma_by_label(channels: Seq<(String, Option<DataChannelInit>)>, i: int)
    requires
        labels_differ(channels),
        0 <= i < channels.len(),
    ensures
        by_label(channels).dom().contains(channels[i].0@),
        by_label(channels)[channels[i].0@] == channels[i].1,
{
    let label = channels[i].0@;
    assert(is_label(channels, label));
    let k = choose|k: int| 0 <= k < channels.len() && (#[trigger] channels[k]).0@ == label;
    if k < i {
        assert(channels[k].0@ != channels[i].0@);
    } else if i < k {
        assert(channels[i].0@ != channels[k].0@);
    }
}

/// Where every label of some channels is that of a channel in `entries` with the same properties,
/// and the other way round, both know the same by label.
proof fn lemma_same_by_label(
    channels: Seq<(String, Option<DataChannelInit>)>,
    entries: Map<Seq<char>, Option<DataChannelInit>>,
)
    requires
        labels_differ(channels),
        forall|i: int|
            0 <= i < channels.len() ==> entries.dom().contains((#[trigger] channels[i]).0@)
                && entries[channels[i].0@] == channels[i].1,
        forall|label: Seq<char>| #[trigger]
            entries.dom().contains(label) ==> is_label(channels, label),
    ensures
        by_label(channels) == entries,
{
    assert forall|label: Seq<char>| #[trigger]
        by_label(channels).dom().contains(label) implies entries.dom().contains(label)
        && by_label(channels)[label] == entries[label] by {
        let i = choose|i: int| 0 <= i < channels.len() && (#[trigger] channels[i]).0@ == label;
        lemma_by_label(channels, i);
    }
    assert(by_label(channels) =~= entries);
}

/// The data channels that the initiator opens, each label once, with their properties where they
/// are not the usual ones.
#[derive(Debug)]
pub struct Labels {
    channels: Vec<(String, Option<DataChannelInit>)>,
    /// No channels, for the one who opens none.
    none: Vec<(String, Option<DataChannelInit>)>,
}

impl View for Labels {
    type V = Map<Seq<char>, Option<DataChannelInit>>;

    closed spec fn view(&self) -> Map<Seq<char>, Option<DataChannelInit>> {
        by_label(self.channels@)
    }
}

impl Labels {
    #[verifier::type_invariant]
    spec fn each_once(self) -> bool {
        labels_differ(self.channels@) && self.none@.len() == 0
    }

    /// No data channels.
    pub fn new() -> (labels: Self)
        ensures
            labels@ == Map::<Seq<char>, Option<DataChannelInit>>::empty(),
    {
        let labels = Labels { channels: Vec::new(), none: Vec::new() };
        assert(labels@ =~= Map::empty());
        labels
    }

    fn position(channels: &Vec<(String, Option<DataChannelInit>)>, label: &String) -> (place: Option<
        usize,
    >)
        ensures
            match place {
                Some(i) => i < channels@.len() && channels@[i as int].0@ == label@,
                None => !is_label(channels@, label@),
            },
    {
        let mut i: usize = 0;
        while i < channels.len()
            invariant
                i <= channels@.len(),
                forall|j: int| 0 <= j < i ==> (#[trigger] channels@[j]).0@ != label@,
            decreases channels@.len() - i,
        {
            if channels[i].0 == *label {
                return Some(i);
            }
            i = i + 1;
        }
        None
    }

    /// A data channel with a label. Where there was one with that label, it takes its place.
    pub fn insert(&mut self, label: &str, init: Option<DataChannelInit>)
        ensures
            final(self)@ == old(self)@.insert(label@, init),
    {
        proof {
            use_type_invariant(&*self);
        }
        let ghost before = self.channels@;
        let mut channels: Vec<(String, Option<DataChannelInit>)> = Vec::new();
        std::mem::swap(&mut channels, &mut self.channels);
        let label = label.to_owned();
        let place = Self::position(&channels, &label);
        let ghost k = match place {
            Some(i) => i as int,
            None => before.len() as int,
        };
        match place {
            Some(i) => {
                channels.set(i, (label, init));
            },
            None => {
                channels.push((label, init));
            },
        }
        proof {
            let after = channels@;
            let entries = by_label(before).insert(label@, init);
            assert(after[k] == (label, init));
            assert forall|i: int, j: int| 0 <= i < j < after.len() implies (
            #[trigger] after[i]).0@ != (#[trigger] after[j]).0@ by {
                if i != k {
                    assert(after[i] == before[i]);
                    assert(after[i].0@ != label@);
                }
                if j != k {
                    assert(after[j] == before[j]);
                    assert(after[j].0@ != label@);
                }
            }
            assert forall|i: int| 0 <= i < after.len() implies entries.dom().contains(
                (#[trigger] after[i]).0@,
            ) && entries[after[i].0@] == after[i].1 by {
                if i != k {
                    assert(after[i] == before[i]);
                    lemma_by_label(before, i);
                    assert(after[i].0@ != after[k].0@);
                }
            }
            assert forall|l: Seq<char>| #[trigger] entries.dom().contains(l) implies is_label(
                after,
                l,
            ) by {
                if l == label@ {
                    assert(after[k].0@ == l);
                } else {
                    let i = choose|i: int| 0 <= i < before.len() && (#[trigger] before[i]).0@ == l;
                    assert(after[i].0@ == l);
                }
            }
            lemma_same_by_label(after, entries);
        }
        self.channels = channels;
    }

    /// The data channels, each with its label.
    pub fn channels(&self) -> (channels: &Vec<(String, Option<DataChannelInit>)>)
        ensures
            labels_differ(channels@),
            by_label(channels@) == self@,
    {
        proof {
            use_type_invariant(self);
        }
        &self.channels
    }

    /// The data channels that a peer opens: the initiator all of them, the other peer none.
    pub fn opened_by(self, initiator: bool) -> (channels: Vec<(String, Option<DataChannelInit>)>)
        ensures
            labels_differ(channels@),
            by_label(channels@) == if initiator {
                self@
            } else {
                Map::empty()
            },
        opens_invariants none
    {
        proof {
            use_type_invariant(&self);
            assert(by_label(self.none@) =~= Map::empty());
        }
        if initiator {
            self.channels
        } else {
            self.none
        }
    }

    /// The data channels, each with its label, to be opened.
    pub fn into_channels(self) -> (channels: Vec<(String, Option<DataChannelInit>)>)
        ensures
            labels_differ(channels@),
            by_label(channels@) == self@,
    {
        proof {
            use_type_invariant(&self);
        }
        self.channels
    }
}

impl Clone for Labels {
    fn clone(&self) -> (copy: Self)
        ensures
            copy@ == self@,
    {
        proof {
            use_type_invariant(self);
        }
        let mut channels: Vec<(String, Option<DataChannelInit>)> = Vec::new();
        let mut i: usize = 0;
        while i < self.channels.len()
            invariant
                i <= self.channels@.len(),
                channels@ == self.channels@.take(i as int),
            decreases self.channels@.len() - i,
        {
            let init = match &self.channels[i].1 {
                Some(init) => Some(init.clone()),
                None => None,
            };
            channels.push((self.channels[i].0.clone(), init));
            i = i + 1;
            assert(channels@ =~= self.channels@.take(i as int));
        }
        assert(channels@ =~= self.channels@);
        Labels { channels, none: Vec::new() }
    }
}

/// What a peer connection is started with.
pub struct Options {
    pub labels: Labels,
    pub rtc_config: Configuration,
}

impl Clone for Options {
    /// A copy, to start the other peer with.
    fn clone(&self) -> (copy: Self)
        ensures
            copy.labels@ == self.labels@,
            copy.rtc_config.is_like(&self.rtc_config),
    {
        Options { labels: self.labels.clone(), rtc_config: self.rtc_config.clone() }
    }
}

/// `label` is one of the given words.
pub open spec fn is_among(words: Seq<&str>, label: Seq<char>) -> bool {
    exists|i: int| 0 <= i < words.len() && (#[trigger] words[i])@ == label
}

/// A channel for each of the words, with no properties of its own.
pub open spec fn usual(words: Seq<&str>) -> Map<Seq<char>, Option<DataChannelInit>> {
    Map::new(|label: Seq<char>| is_among(words, label), |label: Seq<char>| None)
}

/// A word more is a channel more.
proof fn lemma_usual_next(words: Seq<&str>, i: int)
    requires
        0 <= i < words.len(),
    ensures
        usual(words.take(i + 1)) == usual(words.take(i)).insert(words[i]@, None),
{
    let (less, more) = (words.take(i), words.take(i + 1));
    assert forall|label: Seq<char>|
        is_among(more, label) <==> is_among(less, label) || words[i]@ == label by {
        if is_among(less, label) {
            let k = choose|k: int| 0 <= k < less.len() && (#[trigger] less[k])@ == label;
            assert(more[k]@ == label);
        }
        if words[i]@ == label {
            assert(more[i]@ == label);
        }
        if is_among(more, label) && words[i]@ != label {
            let k = choose|k: int| 0 <= k < more.len() && (#[trigger] more[k])@ == label;
            assert(less[k]@ == label);
        }
    }
    assert(usual(more) =~= usual(less).insert(words[i]@, None));
}

impl Options {
    /// The connection looks for its public address at the one server that is known to all.
    pub open spec fn uses_public_server(&self) -> bool {
        &&& self.rtc_config.is_bare()
        &&& self.rtc_config.ice_servers@.len() == 1
        &&& self.rtc_config.ice_servers@[0].is_bare()
        &&& self.rtc_config.ice_servers@[0].urls@.len() == 1
        &&& self.rtc_config.ice_servers@[0].urls@[0]@ == "stun:stun.l.google.com:19302"@
    }

    /// Options with a data channel for each of the labels.
    pub fn with_data_channels(labels: &[&str]) -> (options: Self)
        ensures
            options.labels@ == usual(labels@),
            options.uses_public_server(),
    {
        let mut urls: Vec<String> = Vec::new();
        urls.push("stun:stun.l.google.com:19302".to_owned());
        let mut ice_servers: Vec<IceServer> = Vec::new();
        ice_servers.push(IceServer { urls, ..IceServer::default() });
        let rtc_config = Configuration { ice_servers, ..Configuration::default() };
        let mut channels = Labels::new();
        let mut i: usize = 0;
        assert(channels@ =~= usual(labels@.take(0)));
        while i < labels.len()
            invariant
                i <= labels@.len(),
                channels@ == usual(labels@.take(i as int)),
            decreases labels@.len() - i,
        {
            channels.insert(labels[i], None);
            proof {
                lemma_usual_next(labels@, i as int);
            }
            i = i + 1;
        }
        assert(labels@.take(labels@.len() as int) =~= labels@);
        Options { labels: channels, rtc_config }
    }
}

impl Default for Options {
    fn default() -> (options: Self)
        ensures
            options.labels@ == Map::<Seq<char>, Option<DataChannelInit>>::empty(),
            options.uses_public_server(),
    {
        let options = Options::with_data_channels(&[]);
        assert(options.labels@ =~= Map::empty());
        options
    }
}

/// Nothing is found by a label but a channel that has it.
pub proof fn only_channels_are_found(
    channels: Seq<(String, Option<DataChannelInit>)>,
    label: Seq<char>,
)
    requires
        by_label(channels).dom().contains(label),
    ensures
        exists|i: int| 0 <= i < channels.len() && (#[trigger] channels[i]).0@ == label,
{
}

/// There is a channel, with no properties of its own, for each of the labels, and for nothing else.
pub proof fn a_channel_for_each_label(words: Seq<&str>, label: Seq<char>)
    ensures
        usual(words).dom().contains(label) <==> exists|i: int|
            0 <= i < words.len() && (#[trigger] words[i])@ == label,
        usual(words).dom().contains(label) ==> usual(words)[label] is None,
{
}

/// No two channels of which all labels differ have the same label.
pub proof fn labels_tell_channels_apart(
    channels: Seq<(String, Option<DataChannelInit>)>,
    i: int,
    j: int,
)
    requires
        labels_differ(channels),
        0 <= i < channels.len(),
        0 <= j < channels.len(),
        channels[i].0@ == channels[j].0@,
    ensures
        i == j,
{
}

/// Options that use the public server name that one server, without a name or a password, and
/// leave all else as it is usual.
pub proof fn the_public_server(options: Options)
    requires
        options.uses_public_server(),
    ensures
        options.rtc_config.ice_servers@.len() == 1,
        options.rtc_config.ice_servers@[0].urls@.len() == 1,
        options.rtc_config.ice_servers@[0].urls@[0]@ == "stun:stun.l.google.com:19302"@,
        options.rtc_config.ice_servers@[0].username@.len() == 0,
        options.rtc_config.ice_servers@[0].credential@.len() == 0,
        options.rtc_config.ice_servers@[0].credential_type is Unspecified,
        options.rtc_config.ice_transport_policy is Unspecified,
        options.rtc_config.bundle_policy is Unspecified,
        options.rtc_config.rtcp_mux_policy is Unspecified,
        options.rtc_config.peer_identity@.len() == 0,
        options.rtc_config.certificates@.len() == 0,
        options.rtc_config.ice_candidate_pool_size == 0,
{
}

/// A configuration that is like another has the same servers in the same order, and the same in
/// everything else that can be compared.
pub proof fn copies_are_alike(a: Configuration, b: Configuration, i: int)
    requires
        a.is_like(&b),
    ensures
        a.ice_servers@.len() == b.ice_servers@.len(),
        0 <= i < a.ice_servers@.len() ==> {
            &&& a.ice_servers@[i].urls@ == b.ice_servers@[i].urls@
            &&& a.ice_servers@[i].username@ == b.ice_servers@[i].username@
            &&& a.ice_servers@[i].credential@ == b.ice_servers@[i].credential@
            &&& a.ice_servers@[i].credential_type == b.ice_servers@[i].credential_type
        },
        a.ice_transport_policy == b.ice_transport_policy,
        a.bundle_policy == b.bundle_policy,
        a.rtcp_mux_policy == b.rtcp_mux_policy,
        a.peer_identity@ == b.peer_identity@,
        a.certificates@.len() == b.certificates@.len(),
        a.ice_candidate_pool_size == b.ice_candidate_pool_size,
{
    if 0 <= i < a.ice_servers@.len() {
        assert(a.ice_servers@[i].is_like(&b.ice_servers@[i]));
    }
}

} // verus!
