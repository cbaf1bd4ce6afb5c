//! ICE candidates: the addresses at which a peer can be reached.
use crate::error::Error;
use crate::status::reach;
use std::sync::Arc;
use vstd::prelude::*;
use vstd::std_specs::cmp::PartialEqSpec;
use webrtc::ice_transport::ice_candidate::RTCIceCandidate;
use webrtc::ice_transport::ice_candidate_type::RTCIceCandidateType;
use webrtc::ice_transport::ice_protocol::RTCIceProtocol;
use webrtc::Error as WebrtcError;

verus! {

/// Transport protocol of a candidate.
#[derive(Debug, Clone, Copy, PartialEq, Eq, Structural)]
pub enum IceProtocol {
    Unspecified,
    Udp,
    Tcp,
}

/// The name by which a protocol is known to `webrtc`.
pub open spec fn protocol_name(protocol: IceProtocol) -> Seq<char> {
    match protocol {
        IceProtocol::Unspecified => "Unspecified"@,
        IceProtocol::Udp => "udp"@,
        IceProtocol::Tcp => "tcp"@,
    }
}

impl IceProtocol {
    pub fn name(&self) -> (name: &'static str)
        ensures
            name@ == protocol_name(*self),
        opens_invariants none
    {
        match self {
            IceProtocol::Unspecified => "Unspecified",
            IceProtocol::Udp => "udp",
            IceProtocol::Tcp => "tcp",
        }
    }
}

/// How the address of a candidate was found.
#[derive(Debug, Clone, Copy, PartialEq, Eq, Structural)]
pub enum IceCandidateType {
    Unspecified,
    Host,
    Srflx,
    Prflx,
    Relay,
}

/// The name by which a type of candidate is known to `webrtc`.
pub open spec fn candidate_type_name(typ: IceCandidateType) -> Seq<char> {
    match typ {
        IceCandidateType::Unspecified => "Unspecified"@,
        IceCandidateType::Host => "host"@,
        IceCandidateType::Srflx => "srflx"@,
        IceCandidateType::Prflx => "prflx"@,
        IceCandidateType::Relay => "relay"@,
    }
}

impl IceCandidateType {
    pub fn name(&self) -> (name: &'static str)
        ensures
            name@ == candidate_type_name(*self),
        opens_invariants none
    {
        match self {
            IceCandidateType::Unspecified => "Unspecified",
            IceCandidateType::Host => "host",
            IceCandidateType::Srflx => "srflx",
            IceCandidateType::Prflx => "prflx",
            IceCandidateType::Relay => "relay",
        }
    }
}

/// An ICE candidate.
#[derive(Debug)]
pub struct IceCandidate {
    pub stats_id: String,
    pub foundation: String,
    pub priority: u32,
    pub address: String,
    pub protocol: IceProtocol,
    pub port: u16,
    pub typ: IceCandidateType,
    pub component: u16,
    pub related_address: String,
    pub related_port: u16,
    pub tcp_type: String,
}

/// The values that make up a candidate.
pub struct IceCandidateView {
    pub stats_id: Seq<char>,
    pub foundation: Seq<char>,
    pub priority: u32,
    pub address: Seq<char>,
    pub protocol: IceProtocol,
    pub port: u16,
    pub typ: IceCandidateType,
    pub component: u16,
    pub related_address: Seq<char>,
    pub related_port: u16,
    pub tcp_type: Seq<char>,
}

impl View for IceCandidate {
    type V = IceCandidateView;

    open spec fn view(&self) -> IceCandidateView {
        IceCandidateView {
            stats_id: self.stats_id@,
            foundation: self.foundation@,
            priority: self.priority,
            address: self.address@,
            protocol: self.protocol,
            port: self.port,
            typ: self.typ,
            component: self.component,
            related_address: self.related_address@,
            related_port: self.related_port,
            tcp_type: self.tcp_type@,
        }
    }
}

impl Clone for IceCandidate {
    fn clone(&self) -> (copy: Self)
        ensures
            copy == *self,
    {
        IceCandidate {
            stats_id: self.stats_id.clone(),
            foundation: self.foundation.clone(),
            priority: self.priority,
            address: self.address.clone(),
            protocol: self.protocol,
            port: self.port,
            typ: self.typ,
            component: self.component,
            related_address: self.related_address.clone(),
            related_port: self.related_port,
            tcp_type: self.tcp_type.clone(),
        }
    }
}

impl PartialEq for IceCandidate {
    fn eq(&self, other: &Self) -> (equal: bool) {
        self.stats_id == other.stats_id && self.foundation == other.foundation && self.priority
            == other.priority && self.address == other.address && self.protocol == other.protocol
            && self.port == other.port && self.typ == other.typ && self.component
            == other.component && self.related_address == other.related_address
            && self.related_port == other.related_port && self.tcp_type == other.tcp_type
    }
}

impl vstd::std_specs::cmp::PartialEqSpecImpl for IceCandidate {
    open spec fn obeys_eq_spec() -> bool {
        true
    }

    open spec fn eq_spec(&self, other: &Self) -> bool {
        self@ == other@
    }
}

/// A candidate in the form in which a connection takes it.
#[derive(Debug)]
pub struct IceCandidateInit {
    pub candidate: String,
    pub sdp_mid: Option<String>,
    pub sdp_mline_index: Option<u16>,
    pub username_fragment: Option<String>,
}

/// The attribute line by which `RTCIceCandidate::to_json` presents a candidate, if it can be
/// presented.
pub uninterp spec fn candidate_line(candidate: IceCandidateView) -> Option<Seq<char>>;

/// `init` is what a candidate presented by the attribute line `line` is handed over as.
pub open spec fn presents(init: IceCandidateInit, line: Seq<char>) -> bool {
    &&& init.candidate@ == line
    &&& init.sdp_mid matches Some(mid) && mid@ == Seq::<char>::empty()
    &&& init.sdp_mline_index == Some(0u16)
    &&& init.username_fragment is None
}

impl IceCandidateView {
    /// Where a candidate states no priority, one is computed, which takes a component of at most
    /// 256.
    pub open spec fn has_priority(self) -> bool {
        self.priority != 0 || self.component <= 256 || self.typ is Unspecified
    }

    /// The same candidate, stating some priority.
    pub open spec fn stating_one(self) -> Self {
        IceCandidateView { priority: 1, ..self }
    }

    /// The candidate cannot be presented, whatever its priority.
    pub open spec fn is_refused(self) -> bool {
        candidate_line(self.stating_one()) is None
    }

    /// The candidate can be brought into its other form, or is refused. Only one that would be
    /// accepted, but for which no priority can be computed, is neither.
    pub open spec fn is_convertible(self) -> bool {
        self.has_priority() || self.is_refused()
    }
}

/// `result` is what bringing a candidate into its other form comes to.
pub open spec fn conversion(
    candidate: IceCandidateView,
    result: Result<IceCandidateInit, Error>,
) -> bool {
    &&& result is Ok <==> candidate_line(candidate) is Some
    &&& result is Ok <==> !candidate.is_refused()
    &&& result matches Ok(init) ==> presents(init, candidate_line(candidate)->0)
    &&& result matches Err(error) ==> error is Webrtc
    &&& candidate.typ is Unspecified ==> result is Err
}

impl IceCandidate {
    /// Whether the candidate states its priority or one can be computed for it.
    pub fn has_priority(&self) -> (has: bool)
        ensures
            has == self@.has_priority(),
        opens_invariants none
    {
        self.priority != 0 || self.component <= 256 || self.typ == IceCandidateType::Unspecified
    }

    /// The candidate in the form in which a connection takes it.
    pub fn to_json(&self) -> (result: Result<IceCandidateInit, Error>)
        requires
            self@.is_convertible(),
        ensures
            conversion(self@, result),
        opens_invariants none
    {
        match rtc_to_json(self, self.protocol.name(), self.typ.name()) {
            Ok(init) => Ok(init),
            Err(error) => Err(Error::Webrtc(error)),
        }
    }

    /// The candidate in the form in which a connection takes it. There is none, and no reason to
    /// refuse it either, where it would be accepted but no priority can be computed for it.
    pub fn try_to_json(&self) -> (result: Option<Result<IceCandidateInit, Error>>)
        ensures
            match result {
                Some(result) => self@.is_convertible() && conversion(self@, result),
                None => !self@.is_convertible(),
            },
        opens_invariants reach(!self@.has_priority())
    {
        if !self.has_priority() {
            let mut stating = self.clone();
            stating.priority = 1;
            assert(stating@ == self@.stating_one());
            if stating.to_json().is_ok() {
                return None;
            }
        }
        Some(self.to_json())
    }
}

/// `RTCIceCandidate::to_json`. A candidate of no known type is refused; whether another one is
/// accepted, and the attribute line it is presented by, depend on its fields alone. Whether it is
/// accepted does not depend on its priority, which is looked at only once it is.
#[verifier::external_body]
fn rtc_to_json(c: &IceCandidate, protocol: &str, typ: &str) -> (result: Result<
    IceCandidateInit,
    Arc<WebrtcError>,
>)
    requires
        c@.is_convertible(),
        protocol@ == protocol_name(c.protocol),
        typ@ == candidate_type_name(c.typ),
    ensures
        result is Ok <==> candidate_line(c@) is Some,
        result is Ok <==> candidate_line(c@.stating_one()) is Some,
        result matches Ok(init) ==> presents(init, candidate_line(c@)->0),
        c.typ is Unspecified ==> result is Err,
    opens_invariants none
{
    let (stats_id, foundation) = (c.stats_id.clone(), c.foundation.clone());
    let (address, related_address) = (c.address.clone(), c.related_address.clone());
    let (protocol, typ) = (RTCIceProtocol::from(protocol), RTCIceCandidateType::from(typ));
    let (priority, port, component) = (c.priority, c.port, c.component);
    let (related_port, tcp_type) = (c.related_port, c.tcp_type.clone());
    let candidate = RTCIceCandidate {
        stats_id, foundation, priority, address, protocol, port, typ,
        component, related_address, related_port, tcp_type,
    };
    let init = candidate.to_json().map_err(Arc::new)?;
    Ok(IceCandidateInit {
        candidate: init.candidate, sdp_mid: init.sdp_mid,
        sdp_mline_index: init.sdp_mline_index, username_fragment: init.username_fragment,
    })
}

/// A candidate is handed over by its attribute line, in the first media section, and with nothing
/// else to it.
pub proof fn what_presents_a_candidate(init: IceCandidateInit, line: Seq<char>)
    requires
        presents(init, line),
    ensures
        init.candidate@ == line,
        init.sdp_mid is Some,
        init.sdp_mid->0@.len() == 0,
        init.sdp_mline_index == Some(0u16),
        init.username_fragment is None,
{
}

/// Bringing a candidate into its other form goes well exactly where there is an attribute line that
/// presents it, and that line is what comes out. Otherwise an error of `webrtc` does.
pub proof fn conversion_presents(
    candidate: IceCandidateView,
    result: Result<IceCandidateInit, Error>,
)
    requires
        conversion(candidate, result),
    ensures
        result is Ok <==> candidate_line(candidate) is Some,
        result matches Ok(init) ==> candidate_line(candidate) == Some(init.candidate@),
        result matches Err(error) ==> error is Webrtc,
        candidate.typ is Unspecified ==> result is Err,
{
}

/// A candidate that states a priority can always be presented or refused. One that states none
/// takes a component for which the priority that is computed, counting down from 256, does not run
/// out.
pub proof fn when_a_candidate_has_a_priority(candidate: IceCandidateView)
    ensures
        candidate.priority != 0 ==> candidate.is_convertible(),
        256 - candidate.component >= 0 ==> candidate.is_convertible(),
        candidate.is_refused() ==> candidate.is_convertible(),
        !candidate.is_convertible() ==> candidate.priority == 0 && 256 - candidate.component < 0
            && candidate_line(candidate.stating_one()) is Some,
        candidate.has_priority() ==> candidate.priority != 0 || 256 - candidate.component >= 0
            || candidate.typ is Unspecified,
{
}

/// Whether a candidate is refused has nothing to do with its priority.
pub proof fn refusal_ignores_priority(candidate: IceCandidateView, priority: u32)
    ensures
        candidate.is_refused() == (IceCandidateView { priority, ..candidate }).is_refused(),
        candidate.stating_one().address == candidate.address,
        candidate.stating_one().typ == candidate.typ,
        candidate.stating_one().protocol == candidate.protocol,
        candidate.stating_one().component == candidate.component,
        candidate.stating_one().port == candidate.port,
{
    let other = IceCandidateView { priority, ..candidate };
    assert(other.stating_one() == candidate.stating_one());
}

/// Two candidates are equal exactly where they are the same in every one of their fields.
pub proof fn equality_of_candidates(a: IceCandidate, b: IceCandidate)
    ensures
        a.eq_spec(&b) <==> {
            &&& a.stats_id@ == b.stats_id@
            &&& a.foundation@ == b.foundation@
            &&& a.priority == b.priority
            &&& a.address@ == b.address@
            &&& a.protocol == b.protocol
            &&& a.port == b.port
            &&& a.typ == b.typ
            &&& a.component == b.component
            &&& a.related_address@ == b.related_address@
            &&& a.related_port == b.related_port
            &&& a.tcp_type@ == b.tcp_type@
        },
{
}

/// Protocols and types of candidates go by names of their own.
pub proof fn names_of_candidates(protocol: IceProtocol, typ: IceCandidateType)
    ensures
        protocol_name(protocol) == "udp"@ <==> protocol is Udp,
        protocol_name(protocol) == "tcp"@ <==> protocol is Tcp,
        protocol_name(protocol) == "Unspecified"@ <==> protocol is Unspecified,
        candidate_type_name(typ) == "host"@ <==> typ is Host,
        candidate_type_name(typ) == "srflx"@ <==> typ is Srflx,
        candidate_type_name(typ) == "prflx"@ <==> typ is Prflx,
        candidate_type_name(typ) == "relay"@ <==> typ is Relay,
        candidate_type_name(typ) == "Unspecified"@ <==> typ is Unspecified,
{
    reveal_strlit("udp");
    reveal_strlit("tcp");
    reveal_strlit("Unspecified");
    reveal_strlit("host");
    reveal_strlit("srflx");
    reveal_strlit("prflx");
    reveal_strlit("relay");
    assert("udp"@[0] == 'u' && "tcp"@[0] == 't' && "Unspecified"@[0] == 'U');
    assert("host"@[0] == 'h' && "srflx"@[0] == 's' && "prflx"@[0] == 'p' && "relay"@[0] == 'r');
}

} // verus!
