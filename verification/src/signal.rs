//! Messages that two peers exchange to find a connection.
use crate::ice::{IceCandidate, IceCandidateView};
use vstd::prelude::*;
use vstd::std_specs::cmp::PartialEqSpec;

verus! {

/// What a session description stands for.
#[derive(Debug, Clone, Copy, PartialEq, Eq, Structural)]
pub enum SdpType {
    Unspecified,
    Offer,
    Pranswer,
    Answer,
    Rollback,
}

/// The name by which a type of session description is known to `webrtc`.
pub open spec fn sdp_type_name(sdp_type: SdpType) -> Seq<char> {
    match sdp_type {
        SdpType::Unspecified => "Unspecified"@,
        SdpType::Offer => "offer"@,
        SdpType::Pranswer => "pranswer"@,
        SdpType::Answer => "answer"@,
        SdpType::Rollback => "rollback"@,
    }
}

impl SdpType {
    pub fn name(&self) -> (name: &'static str)
        ensures
            name@ == sdp_type_name(*self),
    {
        match self {
            SdpType::Unspecified => "Unspecified",
            SdpType::Offer => "offer",
            SdpType::Pranswer => "pranswer",
            SdpType::Answer => "answer",
            SdpType::Rollback => "rollback",
        }
    }
}

/// Description of one side of a session.
#[derive(Debug)]
pub struct SessionDescription {
    pub sdp_type: SdpType,
    pub sdp: String,
}

/// The values that make up a session description.
pub struct SessionDescriptionView {
    pub sdp_type: SdpType,
    pub sdp: Seq<char>,
}

impl View for SessionDescription {
    type V = SessionDescriptionView;

    open spec fn view(&self) -> SessionDescriptionView {
        SessionDescriptionView { sdp_type: self.sdp_type, sdp: self.sdp@ }
    }
}

impl Clone for SessionDescription {
    fn clone(&self) -> (copy: Self)
        ensures
            copy == *self,
    {
        SessionDescription { sdp_type: self.sdp_type, sdp: self.sdp.clone() }
    }
}

/// A message for the remote peer.
#[derive(Debug)]
pub enum Signal {
    /// Asks the initiator for a new round of negotiation.
    Renegotiate(bool),
    /// An address at which the sender can be reached.
    Candidate(IceCandidate),
    /// The sender's side of the session.
    Sdp(SessionDescription),
}

/// The values that make up a message.
pub enum SignalView {
    Renegotiate(bool),
    Candidate(IceCandidateView),
    Sdp(SessionDescriptionView),
}

impl View for Signal {
    type V = SignalView;

    open spec fn view(&self) -> SignalView {
        match self {
            Signal::Renegotiate(renegotiate) => SignalView::Renegotiate(*renegotiate),
            Signal::Candidate(candidate) => SignalView::Candidate(candidate@),
            Signal::Sdp(sdp) => SignalView::Sdp(sdp@),
        }
    }
}

impl Clone for Signal {
    fn clone(&self) -> (copy: Self)
        ensures
            copy == *self,
    {
        match self {
            Signal::Renegotiate(renegotiate) => Signal::Renegotiate(*renegotiate),
            Signal::Candidate(candidate) => Signal::Candidate(candidate.clone()),
            Signal::Sdp(sdp) => Signal::Sdp(sdp.clone()),
        }
    }
}

impl PartialEq for Signal {
    fn eq(&self, other: &Self) -> (equal: bool) {
        match (self, other) {
            (Signal::Renegotiate(x), Signal::Renegotiate(y)) => *x == *y,
            (Signal::Candidate(c1), Signal::Candidate(c2)) => *c1 == *c2,
            (Signal::Sdp(s1), Signal::Sdp(s2)) => s1.sdp_type == s2.sdp_type && s1.sdp == s2.sdp,
            (_, _) => false,
        }
    }
}

impl vstd::std_specs::cmp::PartialEqSpecImpl for Signal {
    open spec fn obeys_eq_spec() -> bool {
        true
    }

    open spec fn eq_spec(&self, other: &Self) -> bool {
        self@ == other@
    }
}

/// Equality of messages is an equivalence, and tells apart messages of different kinds.
pub proof fn equality_of_signals(a: Signal, b: Signal, c: Signal)
    ensures
        a.eq_spec(&a),
        a.eq_spec(&b) ==> b.eq_spec(&a),
        a.eq_spec(&b) && b.eq_spec(&c) ==> a.eq_spec(&c),
        a.eq_spec(&b) ==> (a is Renegotiate <==> b is Renegotiate) && (a is Candidate <==> b
            is Candidate) && (a is Sdp <==> b is Sdp),
{
}

/// Two messages are equal exactly where they are of the same kind and say the same: the same wish,
/// the same candidate, or a description of the same type with the same text.
pub proof fn equal_signals_say_the_same(a: Signal, b: Signal)
    ensures
        a.eq_spec(&b) <==> match (a, b) {
            (Signal::Renegotiate(x), Signal::Renegotiate(y)) => x == y,
            (Signal::Candidate(x), Signal::Candidate(y)) => x.eq_spec(&y),
            (Signal::Sdp(x), Signal::Sdp(y)) => x.sdp_type == y.sdp_type && x.sdp@ == y.sdp@,
            (_, _) => false,
        },
{
}

/// Types of session descriptions go by names of their own.
pub proof fn names_of_descriptions(sdp_type: SdpType)
    ensures
        sdp_type_name(sdp_type) == "offer"@ <==> sdp_type is Offer,
        sdp_type_name(sdp_type) == "pranswer"@ <==> sdp_type is Pranswer,
        sdp_type_name(sdp_type) == "answer"@ <==> sdp_type is Answer,
        sdp_type_name(sdp_type) == "rollback"@ <==> sdp_type is Rollback,
        sdp_type_name(sdp_type) == "Unspecified"@ <==> sdp_type is Unspecified,
{
    reveal_strlit("offer");
    reveal_strlit("pranswer");
    reveal_strlit("answer");
    reveal_strlit("rollback");
    reveal_strlit("Unspecified");
    assert("offer"@[0] == 'o' && "pranswer"@[0] == 'p' && "answer"@[0] == 'a');
    assert("rollback"@[0] == 'r' && "Unspecified"@[0] == 'U');
}

} // verus!
