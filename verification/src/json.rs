//! The text form in which messages travel: an object with one entry, whose key says what kind of
//! message it is, and whose value is the message itself.
use crate::ice::{
    candidate_type_name, protocol_name, IceCandidate, IceCandidateType, IceCandidateView,
    IceProtocol,
};
use crate::signal::{
    sdp_type_name, SdpType, SessionDescription, SessionDescriptionView, Signal, SignalView,
};
use serde_json::Error as JsonError;
use vstd::prelude::*;
use vstd::string::*;
use webrtc::ice_transport::ice_candidate::RTCIceCandidate;
use webrtc::ice_transport::ice_candidate_type::RTCIceCandidateType;
use webrtc::ice_transport::ice_protocol::RTCIceProtocol;
use webrtc::peer_connection::sdp::sdp_type::RTCSdpType;
use webrtc::peer_connection::sdp::session_description::RTCSessionDescription;

verus! {

/// The error type of `serde_json`. It is carried as it came and never looked into.
#[verifier::external_type_specification]
#[verifier::external_body]
pub struct ExJsonError(JsonError);

/// Characters that may stand between the parts of a JSON text.
pub open spec fn is_space(c: char) -> bool {
    c == ' ' || c == '\n' || c == '\t' || c == '\r'
}

/// The first place from `i` on that holds no space.
pub open spec fn skip_space(s: Seq<char>, i: int) -> int
    decreases s.len() - i,
{
    if 0 <= i < s.len() && is_space(s[i]) {
        skip_space(s, i + 1)
    } else {
        i
    }
}

/// The place behind the last one before `n` that holds no space.
pub open spec fn trim_end(s: Seq<char>, n: int) -> int
    decreases n,
{
    if 0 < n <= s.len() && is_space(s[n - 1]) {
        trim_end(s, n - 1)
    } else {
        n
    }
}

/// The place behind the quote that ends a string whose characters start at `i`.
pub open spec fn string_end(s: Seq<char>, i: int) -> Option<int>
    decreases s.len() - i,
{
    if !(0 <= i < s.len()) {
        None
    } else if s[i] == '"' {
        Some(i + 1)
    } else if s[i] == '\\' {
        if i + 1 < s.len() {
            string_end(s, i + 2)
        } else {
            None
        }
    } else {
        string_end(s, i + 1)
    }
}

/// The key, quotes included, and the value of an object with one entry, both as written. The value
/// is whatever stands between the colon and the last brace.
pub open spec fn frame(s: Seq<char>) -> Option<(Seq<char>, Seq<char>)> {
    let open = skip_space(s, 0);
    let quote = skip_space(s, open + 1);
    let end = trim_end(s, s.len() as int);
    if open < s.len() && s[open] == '{' && quote < s.len() && s[quote] == '"' {
        match string_end(s, quote + 1) {
            Some(after) => {
                let colon = skip_space(s, after);
                if colon < s.len() && s[colon] == ':' && colon < end - 1 && s[end - 1] == '}' {
                    Some((s.subrange(quote, after), s.subrange(colon + 1, end - 1)))
                } else {
                    None
                }
            },
            None => None,
        }
    } else {
        None
    }
}

fn space(c: char) -> (yes: bool)
    ensures
        yes == is_space(c),
{
    c == ' ' || c == '\n' || c == '\t' || c == '\r'
}

fn chars_of(text: &str) -> (chars: Vec<char>)
    ensures
        chars@ == text@,
{
    let mut chars: Vec<char> = Vec::new();
    for c in it: text.chars()
        invariant
            chars@ == it.seq().take(it.index()),
            it.seq() == text@,
    {
        chars.push(c);
    }
    chars
}

fn find_after_space(s: &Vec<char>, from: usize) -> (at: usize)
    requires
        from <= s@.len(),
    ensures
        at == skip_space(s@, from as int),
        from <= at <= s@.len(),
{
    let mut at: usize = from;
    while at < s.len() && space(s[at])
        invariant
            from <= at <= s@.len(),
            skip_space(s@, at as int) == skip_space(s@, from as int),
        decreases s@.len() - at,
    {
        at = at + 1;
    }
    at
}

fn find_end(s: &Vec<char>) -> (end: usize)
    ensures
        end == trim_end(s@, s@.len() as int),
        end <= s@.len(),
{
    let mut end: usize = s.len();
    while 0 < end && space(s[end - 1])
        invariant
            end <= s@.len(),
            trim_end(s@, end as int) == trim_end(s@, s@.len() as int),
        decreases end,
    {
        end = end - 1;
    }
    end
}

fn find_string_end(s: &Vec<char>, from: usize) -> (end: Option<usize>)
    requires
        from <= s@.len(),
    ensures
        match end {
            Some(end) => string_end(s@, from as int) == Some(end as int) && from < end <= s@.len(),
            None => string_end(s@, from as int) is None,
        },
{
    let mut at: usize = from;
    while at < s.len()
        invariant
            from <= at <= s@.len(),
            string_end(s@, at as int) == string_end(s@, from as int),
        decreases s@.len() - at,
    {
        if s[at] == '"' {
            return Some(at + 1);
        }
        if s[at] == '\\' {
            if s.len() - at < 2 {
                return None;
            }
            at = at + 2;
        } else {
            at = at + 1;
        }
    }
    None
}

/// The key and the value of an object with one entry, as they are written.
pub fn split_entry(text: &str) -> (entry: Option<(&str, &str)>)
    ensures
        match entry {
            Some((key, value)) => frame(text@) == Some((key@, value@)),
            None => frame(text@) is None,
        },
{
    let s = chars_of(text);
    let open = find_after_space(&s, 0);
    if open >= s.len() || s[open] != '{' {
        return None;
    }
    let quote = find_after_space(&s, open + 1);
    if quote >= s.len() || s[quote] != '"' {
        return None;
    }
    match find_string_end(&s, quote + 1) {
        Some(after) => {
            let colon = find_after_space(&s, after);
            let end = find_end(&s);
            if colon < s.len() && s[colon] == ':' && 0 < end && colon < end - 1 && s[end - 1]
                == '}' {
                Some((text.substring_char(quote, after), text.substring_char(colon + 1, end - 1)))
            } else {
                None
            }
        },
        None => None,
    }
}

/// A string written without escapes: between its quotes stand only characters that mean
/// themselves.
pub open spec fn is_plain(token: Seq<char>) -> bool {
    &&& 2 <= token.len()
    &&& token[0] == '"'
    &&& token[token.len() - 1] == '"'
    &&& forall|i: int|
        0 < i < token.len() - 1 ==> (#[trigger] token[i]) != '"' && token[i] != '\\' && 0x20
            <= token[i] as u32
}

/// The string that `serde_json::from_str` reads from a text, if it can read one.
pub uninterp spec fn parsed_string(text: Seq<char>) -> Option<Seq<char>>;

/// The string that a text stands for, if for any.
pub open spec fn string_value(text: Seq<char>) -> Option<Seq<char>> {
    if is_plain(text) {
        Some(text.subrange(1, text.len() - 1))
    } else {
        parsed_string(text)
    }
}

/// `serde_json::from_str` for a `String`. One that is written without escapes is what stands
/// between the quotes; any other text is read as it is read.
#[verifier::external_body]
fn parse_string(text: &str) -> (result: Result<String, JsonError>)
    ensures
        is_plain(text@) ==> result is Ok && result->Ok_0@ == text@.subrange(1, text@.len() - 1),
        !is_plain(text@) ==> match result {
            Ok(value) => parsed_string(text@) == Some(value@),
            Err(_) => parsed_string(text@) is None,
        },
{
    serde_json::from_str(text)
}

/// A text without the space at its two ends.
pub open spec fn trimmed(s: Seq<char>) -> Seq<char> {
    let start = skip_space(s, 0);
    let end = trim_end(s, s.len() as int);
    if start < end {
        s.subrange(start, end)
    } else {
        Seq::empty()
    }
}

/// The truth value that a text stands for, if for any.
pub open spec fn flag_value(text: Seq<char>) -> Option<bool> {
    if trimmed(text) == "true"@ {
        Some(true)
    } else if trimmed(text) == "false"@ {
        Some(false)
    } else {
        None
    }
}

/// `serde_json::from_str` for a `bool`: one of the two words, with space around it or none.
#[verifier::external_body]
fn parse_flag(text: &str) -> (result: Result<bool, JsonError>)
    ensures
        match result {
            Ok(value) => flag_value(text@) == Some(value),
            Err(_) => flag_value(text@) is None,
        },
{
    serde_json::from_str(text)
}

/// The candidate that `serde_json::from_str` reads from a text, if it can read one.
pub uninterp spec fn parsed_candidate(text: Seq<char>) -> Option<IceCandidateView>;

/// `serde_json::from_str` for an `RTCIceCandidate`.
#[verifier::external_body]
fn parse_candidate(text: &str) -> (result: Result<IceCandidate, JsonError>)
    ensures
        match result {
            Ok(candidate) => parsed_candidate(text@) == Some(candidate@),
            Err(_) => parsed_candidate(text@) is None,
        },
{
    let c: RTCIceCandidate = serde_json::from_str(text)?;
    let protocol = match c.protocol {
        RTCIceProtocol::Unspecified => IceProtocol::Unspecified,
        RTCIceProtocol::Udp => IceProtocol::Udp, RTCIceProtocol::Tcp => IceProtocol::Tcp };
    let typ = match c.typ {
        RTCIceCandidateType::Unspecified => IceCandidateType::Unspecified,
        RTCIceCandidateType::Host => IceCandidateType::Host,
        RTCIceCandidateType::Srflx => IceCandidateType::Srflx,
        RTCIceCandidateType::Prflx => IceCandidateType::Prflx,
        RTCIceCandidateType::Relay => IceCandidateType::Relay };
    Ok(IceCandidate { stats_id: c.stats_id, foundation: c.foundation, priority: c.priority,
        address: c.address, protocol, port: c.port, typ, component: c.component,
        related_address: c.related_address, related_port: c.related_port, tcp_type: c.tcp_type })
}

/// A text between quotes.
pub open spec fn quoted(text: Seq<char>) -> Seq<char> {
    "\""@ + text + "\""@
}

/// The JSON string that `serde_json::to_string` writes for a text, quotes and escapes included.
pub uninterp spec fn string_text(text: Seq<char>) -> Seq<char>;

/// A text as it is written: between quotes as it is where no character needs an escape.
pub open spec fn written(text: Seq<char>) -> Seq<char> {
    if is_plain(quoted(text)) {
        quoted(text)
    } else {
        string_text(text)
    }
}

/// A number in decimal digits.
pub open spec fn decimal(n: nat) -> Seq<char>
    decreases n,
{
    if n < 10 {
        seq!["0123456789"@[n as int]]
    } else {
        decimal(n / 10).push("0123456789"@[(n % 10) as int])
    }
}

/// The text of a candidate: an object with its fields.
pub open spec fn candidate_text(c: IceCandidateView) -> Seq<char> {
    "{\"stats_id\":"@ + written(c.stats_id)
        + ",\"foundation\":"@ + written(c.foundation)
        + ",\"priority\":"@ + decimal(c.priority as nat)
        + ",\"address\":"@ + written(c.address)
        + ",\"protocol\":"@ + quoted(protocol_name(c.protocol))
        + ",\"port\":"@ + decimal(c.port as nat)
        + ",\"typ\":"@ + quoted(candidate_type_name(c.typ))
        + ",\"component\":"@ + decimal(c.component as nat)
        + ",\"related_address\":"@ + written(c.related_address)
        + ",\"related_port\":"@ + decimal(c.related_port as nat)
        + ",\"tcp_type\":"@ + written(c.tcp_type) + "}"@
}

/// `serde_json::to_string` for an `RTCIceCandidate`: an object with its fields in order. It holds
/// strings, numbers and bare variants only, so that writing it never fails, and reading the text
/// gives the candidate back.
#[verifier::external_body]
fn write_candidate(c: &IceCandidate, protocol: &str, typ: &str) -> (result: Result<
    String,
    JsonError,
>)
    requires
        protocol@ == protocol_name(c.protocol),
        typ@ == candidate_type_name(c.typ),
    ensures
        result is Ok,
        result->Ok_0@ == candidate_text(c@),
        parsed_candidate(result->Ok_0@) == Some(c@),
{
    let (stats_id, foundation) = (c.stats_id.clone(), c.foundation.clone());
    let (address, related_address) = (c.address.clone(), c.related_address.clone());
    let (protocol, typ) = (RTCIceProtocol::from(protocol), RTCIceCandidateType::from(typ));
    let (priority, port, component) = (c.priority, c.port, c.component);
    let (related_port, tcp_type) = (c.related_port, c.tcp_type.clone());
    serde_json::to_string(&RTCIceCandidate {
        stats_id, foundation, priority, address, protocol, port, typ,
        component, related_address, related_port, tcp_type,
    })
}

/// The session description that `serde_json::from_str` reads from a text, if it can read one.
pub uninterp spec fn parsed_description(text: Seq<char>) -> Option<SessionDescriptionView>;

/// `serde_json::from_str` for an `RTCSessionDescription`.
#[verifier::external_body]
fn parse_description(text: &str) -> (result: Result<SessionDescription, JsonError>)
    ensures
        match result {
            Ok(description) => parsed_description(text@) == Some(description@),
            Err(_) => parsed_description(text@) is None,
        },
{
    let description: RTCSessionDescription = serde_json::from_str(text)?;
    let sdp_type = match description.sdp_type {
        RTCSdpType::Unspecified => SdpType::Unspecified,
        RTCSdpType::Offer => SdpType::Offer,
        RTCSdpType::Pranswer => SdpType::Pranswer,
        RTCSdpType::Answer => SdpType::Answer,
        RTCSdpType::Rollback => SdpType::Rollback,
    };
    Ok(SessionDescription { sdp_type, sdp: description.sdp })
}

/// The object that is written for a session description of a given type, whose text is written as
/// `sdp`.
pub open spec fn description_entries(sdp_type: SdpType, sdp: Seq<char>) -> Seq<char> {
    "{\"type\":"@ + quoted(sdp_type_name(sdp_type)) + ",\"sdp\":"@ + sdp + "}"@
}

/// The text of a session description.
pub open spec fn description_text(description: SessionDescriptionView) -> Seq<char> {
    description_entries(description.sdp_type, written(description.sdp))
}

/// `serde_json::to_string` for an `RTCSessionDescription`: an object with the name of its type and
/// with its text, which is put between quotes as it is where no character needs an escape. Writing
/// it never fails, and reading what was written gives the description back.
#[verifier::external_body]
fn write_description(description: &SessionDescription, sdp_type: &str) -> (result: Result<
    String,
    JsonError,
>)
    requires
        sdp_type@ == sdp_type_name(description.sdp_type),
    ensures
        result is Ok,
        is_plain(quoted(description.sdp@)) ==> result->Ok_0@ == description_entries(
            description.sdp_type,
            quoted(description.sdp@),
        ),
        !is_plain(quoted(description.sdp@)) ==> result->Ok_0@ == description_entries(
            description.sdp_type,
            string_text(description.sdp@),
        ),
        parsed_description(result->Ok_0@) == Some(description@),
{
    let mut written = RTCSessionDescription::default();
    written.sdp_type = RTCSdpType::from(sdp_type);
    written.sdp = description.sdp.clone();
    serde_json::to_string(&written)
}

/// The key of a message, quotes included.
pub open spec fn key_of(signal: SignalView) -> Seq<char> {
    match signal {
        SignalView::Renegotiate(_) => "\"renegotiate\""@,
        SignalView::Candidate(_) => "\"candidate\""@,
        SignalView::Sdp(_) => "\"sdp\""@,
    }
}

/// The value of a message, as it is written.
pub open spec fn value_of(signal: SignalView) -> Seq<char> {
    match signal {
        SignalView::Renegotiate(true) => "true"@,
        SignalView::Renegotiate(false) => "false"@,
        SignalView::Candidate(candidate) => candidate_text(candidate),
        SignalView::Sdp(sdp) => description_text(sdp),
    }
}

/// The object with one entry that is written with a given key and value.
pub open spec fn entry_text(key: Seq<char>, value: Seq<char>) -> Seq<char> {
    "{"@ + key + ":"@ + value + "}"@
}

/// The text of a message.
pub open spec fn signal_text(signal: SignalView) -> Seq<char> {
    entry_text(key_of(signal), value_of(signal))
}

/// The message that a text stands for, if for any.
pub open spec fn signal_value(text: Seq<char>) -> Option<SignalView> {
    match frame(text) {
        Some((key, value)) => match string_value(key) {
            Some(name) => named_value(name, value),
            None => None,
        },
        None => None,
    }
}

/// The message of a given name whose value is written in a given way, if there is such a message.
pub open spec fn named_value(name: Seq<char>, value: Seq<char>) -> Option<SignalView> {
    if name == "renegotiate"@ {
        match flag_value(value) {
            Some(renegotiate) => Some(SignalView::Renegotiate(renegotiate)),
            None => None,
        }
    } else if name == "candidate"@ {
        match parsed_candidate(value) {
            Some(candidate) => Some(SignalView::Candidate(candidate)),
            None => None,
        }
    } else if name == "sdp"@ {
        match parsed_description(value) {
            Some(sdp) => Some(SignalView::Sdp(sdp)),
            None => None,
        }
    } else {
        None
    }
}

/// The names that messages have.
pub open spec fn is_name(name: Seq<char>) -> bool {
    name == "renegotiate"@ || name == "candidate"@ || name == "sdp"@
}

/// Why a text is no message.
#[derive(Debug)]
pub enum DecodeError {
    /// It is no object with one entry.
    NotAnEntry,
    /// No message goes by the name that it gives.
    UnknownName,
    /// What it holds is not what a message of that name holds.
    Value(JsonError),
}

/// A written string without escapes ends at its last quote.
proof fn lemma_plain_string_end(s: Seq<char>, start: int, i: int, len: int)
    requires
        0 <= start,
        start + len <= s.len(),
        is_plain(s.subrange(start, start + len)),
        start < i < start + len,
    ensures
        string_end(s, i) == Some(start + len),
    decreases start + len - i,
{
    let token = s.subrange(start, start + len);
    assert(token[i - start] == s[i]);
    if i < start + len - 1 {
        lemma_plain_string_end(s, start, i + 1, len);
    }
}

/// A written entry with a plain key is split where it was put together.
pub proof fn lemma_frame_of_entry(key: Seq<char>, value: Seq<char>)
    requires
        is_plain(key),
    ensures
        frame(entry_text(key, value)) == Some((key, value)),
{
    reveal_strlit("{");
    reveal_strlit(":");
    reveal_strlit("}");
    let s = entry_text(key, value);
    let after = 1 + key.len() as int;
    assert(s[0] == '{');
    assert(s.subrange(1, after) =~= key);
    assert(s[1] == key[0]);
    assert(skip_space(s, 0) == 0);
    assert(skip_space(s, 1) == 1);
    lemma_plain_string_end(s, 1, 2, key.len() as int);
    assert(s[after] == ':');
    assert(skip_space(s, after) == after);
    assert(s[s.len() - 1] == '}');
    assert(trim_end(s, s.len() as int) == s.len());
    assert(s.subrange(after + 1, s.len() - 1) =~= value);
}

/// The keys of messages are plain, and stand for the names of messages.
proof fn lemma_key(signal: SignalView)
    ensures
        is_plain(key_of(signal)),
        string_value(key_of(signal)) == Some(
            match signal {
                SignalView::Renegotiate(_) => "renegotiate"@,
                SignalView::Candidate(_) => "candidate"@,
                SignalView::Sdp(_) => "sdp"@,
            },
        ),
{
    reveal_strlit("\"renegotiate\"");
    reveal_strlit("\"candidate\"");
    reveal_strlit("\"sdp\"");
    reveal_strlit("renegotiate");
    reveal_strlit("candidate");
    reveal_strlit("sdp");
    let key = key_of(signal);
    assert(key.subrange(1, key.len() - 1) =~= match signal {
        SignalView::Renegotiate(_) => "renegotiate"@,
        SignalView::Candidate(_) => "candidate"@,
        SignalView::Sdp(_) => "sdp"@,
    });
}

/// The names of messages are told apart, and the two truth values are read as they are written.
proof fn lemma_words()
    ensures
        flag_value("true"@) == Some(true),
        flag_value("false"@) == Some(false),
        "renegotiate"@ != "candidate"@,
        "renegotiate"@ != "sdp"@,
        "candidate"@ != "sdp"@,
{
    reveal_strlit("true");
    reveal_strlit("false");
    reveal_strlit("renegotiate");
    reveal_strlit("candidate");
    reveal_strlit("sdp");
    assert(trimmed("true"@) =~= "true"@);
    assert(trimmed("false"@) =~= "false"@);
    assert("true"@.len() != "false"@.len());
    assert("renegotiate"@.len() == 11);
    assert("candidate"@.len() == 9);
    assert("sdp"@.len() == 3);
}

impl Signal {
    /// The text of the message. Reading it gives the message back.
    pub fn to_json(&self) -> (result: Result<String, JsonError>)
        ensures
            result is Ok,
            result->Ok_0@ == signal_text(self@),
            signal_value(result->Ok_0@) == Some(self@),
    {
        let key = match self {
            Signal::Renegotiate(_) => "\"renegotiate\"",
            Signal::Candidate(_) => "\"candidate\"",
            Signal::Sdp(_) => "\"sdp\"",
        };
        let value = match self {
            Signal::Renegotiate(true) => "true".to_owned(),
            Signal::Renegotiate(false) => "false".to_owned(),
            Signal::Candidate(candidate) => match write_candidate(
                candidate,
                candidate.protocol.name(),
                candidate.typ.name(),
            ) {
                Ok(value) => value,
                Err(error) => return Err(error),
            },
            Signal::Sdp(sdp) => match write_description(sdp, sdp.sdp_type.name()) {
                Ok(value) => value,
                Err(error) => return Err(error),
            },
        };
        let mut text = "{".to_owned();
        text.append(key);
        text.append(":");
        text.append(value.as_str());
        text.append("}");
        proof {
            lemma_key(self@);
            lemma_frame_of_entry(key_of(self@), value_of(self@));
            lemma_words();
        }
        Ok(text)
    }

    /// The message that a text stands for.
    pub fn from_json(text: &str) -> (result: Result<Signal, DecodeError>)
        ensures
            match result {
                Ok(signal) => signal_value(text@) == Some(signal@),
                Err(_) => signal_value(text@) is None,
            },
            result matches Err(DecodeError::NotAnEntry) <==> match frame(text@) {
                Some((key, _)) => string_value(key) is None,
                None => true,
            },
            result matches Err(DecodeError::UnknownName) <==> match frame(text@) {
                Some((key, _)) => string_value(key) is Some && !is_name(string_value(key)->0),
                None => false,
            },
            result matches Err(DecodeError::Value(_)) <==> match frame(text@) {
                Some((key, value)) => string_value(key) is Some && is_name(string_value(key)->0)
                    && named_value(string_value(key)->0, value) is None,
                None => false,
            },
    {
        let (key, value) = match split_entry(text) {
            Some(entry) => entry,
            None => return Err(DecodeError::NotAnEntry),
        };
        let name = match parse_string(key) {
            Ok(name) => name,
            Err(_) => return Err(DecodeError::NotAnEntry),
        };
        Signal::from_entry(&name, value)
    }

    /// The message of a given name whose value is written in a given way.
    pub fn from_entry(name: &String, value: &str) -> (result: Result<Signal, DecodeError>)
        ensures
            match result {
                Ok(signal) => named_value(name@, value@) == Some(signal@),
                Err(_) => named_value(name@, value@) is None,
            },
            !(result matches Err(DecodeError::NotAnEntry)),
            result matches Err(DecodeError::UnknownName) <==> !is_name(name@),
            result matches Err(DecodeError::Value(_)) <==> is_name(name@) && named_value(
                name@,
                value@,
            ) is None,
    {
        if *name == "renegotiate".to_owned() {
            match parse_flag(value) {
                Ok(renegotiate) => Ok(Signal::Renegotiate(renegotiate)),
                Err(error) => Err(DecodeError::Value(error)),
            }
        } else if *name == "candidate".to_owned() {
            match parse_candidate(value) {
                Ok(candidate) => Ok(Signal::Candidate(candidate)),
                Err(error) => Err(DecodeError::Value(error)),
            }
        } else if *name == "sdp".to_owned() {
            match parse_description(value) {
                Ok(sdp) => Ok(Signal::Sdp(sdp)),
                Err(error) => Err(DecodeError::Value(error)),
            }
        } else {
            Err(DecodeError::UnknownName)
        }
    }
}

/// There is nothing but space in a text.
pub open spec fn is_blank(s: Seq<char>) -> bool {
    forall|i: int| 0 <= i < s.len() ==> is_space(#[trigger] s[i])
}

/// A written string: a quote, and then characters up to the quote that ends it.
pub open spec fn is_string(token: Seq<char>) -> bool {
    token.len() >= 2 && token[0] == '"' && string_end(token, 1) == Some(token.len() as int)
}

/// An object with one entry, with space wherever space may stand around its parts.
pub open spec fn spaced_entry(
    before: Seq<char>,
    inside: Seq<char>,
    key: Seq<char>,
    behind: Seq<char>,
    value: Seq<char>,
    after: Seq<char>,
) -> Seq<char> {
    before + "{"@ + inside + key + behind + ":"@ + value + "}"@ + after
}

/// Space is what JSON says: the blank, the two ends of a line, and the tab.
pub proof fn what_space_is(c: char)
    ensures
        is_space(c) <==> c == ' ' || c == '\n' || c == '\t' || c == '\r',
{
}

proof fn lemma_skip_space(s: Seq<char>, i: int, j: int)
    requires
        0 <= i <= j <= s.len(),
        forall|k: int| i <= k < j ==> is_space(#[trigger] s[k]),
        j < s.len() ==> !is_space(s[j]),
    ensures
        skip_space(s, i) == j,
    decreases j - i,
{
    if i < j {
        lemma_skip_space(s, i + 1, j);
    }
}

proof fn lemma_trim_end(s: Seq<char>, n: int, m: int)
    requires
        0 <= m <= n <= s.len(),
        forall|k: int| m <= k < n ==> is_space(#[trigger] s[k]),
        0 < m ==> !is_space(s[m - 1]),
    ensures
        trim_end(s, n) == m,
    decreases n - m,
{
    if m < n {
        lemma_trim_end(s, n - 1, m);
    }
}

/// Skipping space stops at the first character that is none, and passes over nothing else.
pub proof fn skipping_space(s: Seq<char>, i: int)
    requires
        0 <= i <= s.len(),
    ensures
        i <= skip_space(s, i) <= s.len(),
        forall|k: int| i <= k < skip_space(s, i) ==> is_space(#[trigger] s[k]),
        skip_space(s, i) < s.len() ==> !is_space(s[skip_space(s, i)]),
    decreases s.len() - i,
{
    if i < s.len() && is_space(s[i]) {
        skipping_space(s, i + 1);
    }
}

/// Trimming stops behind the last character that is no space, and takes away nothing else.
pub proof fn trimming_space(s: Seq<char>, n: int)
    requires
        0 <= n <= s.len(),
    ensures
        0 <= trim_end(s, n) <= n,
        forall|k: int| trim_end(s, n) <= k < n ==> is_space(#[trigger] s[k]),
        0 < trim_end(s, n) ==> !is_space(s[trim_end(s, n) - 1]),
    decreases n,
{
    if 0 < n && is_space(s[n - 1]) {
        trimming_space(s, n - 1);
    }
}

/// A string ends with a quote, at the first one that no backslash goes before: a backslash takes
/// the character behind it along, and any other character stands for itself.
pub proof fn where_strings_end(s: Seq<char>, i: int)
    requires
        0 <= i <= s.len(),
    ensures
        string_end(s, i) matches Some(end) ==> i < end <= s.len() && s[end - 1] == '"',
        i < s.len() && s[i] == '"' ==> string_end(s, i) == Some(i + 1),
        i + 1 < s.len() && s[i] == '\\' ==> string_end(s, i) == string_end(s, i + 2),
        i < s.len() && s[i] != '"' && s[i] != '\\' ==> string_end(s, i) == string_end(s, i + 1),
        i == s.len() || (i + 1 == s.len() && s[i] == '\\') ==> string_end(s, i) is None,
    decreases s.len() - i,
{
    if i < s.len() && s[i] != '"' {
        if s[i] != '\\' {
            where_strings_end(s, i + 1);
        } else if i + 1 < s.len() {
            where_strings_end(s, i + 2);
        }
    }
}

proof fn lemma_string_end_within(s: Seq<char>, start: int, len: int, i: int)
    requires
        0 <= start,
        start + len <= s.len(),
        0 <= i <= len,
        string_end(s.subrange(start, start + len), i) is Some,
    ensures
        string_end(s, start + i) == Some(start + string_end(s.subrange(start, start + len), i)->0),
    decreases len - i,
{
    let token = s.subrange(start, start + len);
    if i < len {
        assert(token[i] == s[start + i]);
        if token[i] == '\\' {
            if i + 1 < len {
                lemma_string_end_within(s, start, len, i + 2);
            }
        } else if token[i] != '"' {
            lemma_string_end_within(s, start, len, i + 1);
        }
    }
}

proof fn lemma_string_end_without(s: Seq<char>, start: int, len: int, i: int)
    requires
        0 <= start,
        start + len <= s.len(),
        0 <= i <= len,
        string_end(s, start + i) == Some(start + len),
    ensures
        string_end(s.subrange(start, start + len), i) == Some(len),
    decreases len - i,
{
    let token = s.subrange(start, start + len);
    where_strings_end(s, start + i);
    assert(token[i] == s[start + i]);
    if s[start + i] == '\\' {
        where_strings_end(s, start + i + 2);
        lemma_string_end_without(s, start, len, i + 2);
    } else if s[start + i] != '"' {
        where_strings_end(s, start + i + 1);
        lemma_string_end_without(s, start, len, i + 1);
    }
}

/// An object with one entry is split into its key and its value, wherever space stands around its
/// parts. The value is all that stands between the colon and the last brace, whatever it is.
pub proof fn entries_are_split(
    before: Seq<char>,
    inside: Seq<char>,
    key: Seq<char>,
    behind: Seq<char>,
    value: Seq<char>,
    after: Seq<char>,
)
    requires
        is_blank(before),
        is_blank(inside),
        is_string(key),
        is_blank(behind),
        is_blank(after),
    ensures
        frame(spaced_entry(before, inside, key, behind, value, after)) == Some((key, value)),
{
    reveal_strlit("{");
    reveal_strlit(":");
    reveal_strlit("}");
    let s = spaced_entry(before, inside, key, behind, value, after);
    let open = before.len() as int;
    let quote = open + 1 + inside.len();
    let end_of_key = quote + key.len();
    let colon = end_of_key + behind.len();
    let brace = colon + 1 + value.len();
    assert(s.len() == brace + 1 + after.len());
    assert forall|k: int| 0 <= k < open implies is_space(#[trigger] s[k]) by {
        assert(s[k] == before[k]);
    }
    assert(s[open] == '{');
    assert forall|k: int| open + 1 <= k < quote implies is_space(#[trigger] s[k]) by {
        assert(s[k] == inside[k - open - 1]);
    }
    assert(s[quote] == key[0]);
    assert(s.subrange(quote, end_of_key) =~= key);
    assert forall|k: int| end_of_key <= k < colon implies is_space(#[trigger] s[k]) by {
        assert(s[k] == behind[k - end_of_key]);
    }
    assert(s[colon] == ':');
    assert(s.subrange(colon + 1, brace) =~= value);
    assert(s[brace] == '}');
    assert forall|k: int| brace + 1 <= k < s.len() implies is_space(#[trigger] s[k]) by {
        assert(s[k] == after[k - brace - 1]);
    }
    lemma_skip_space(s, 0, open);
    lemma_skip_space(s, open + 1, quote);
    lemma_string_end_within(s, quote, key.len() as int, 1);
    lemma_skip_space(s, end_of_key, colon);
    lemma_trim_end(s, s.len() as int, brace + 1);
}

/// Whatever is split into a key and a value is an object with one entry, made of that key and that
/// value, with nothing but space around them.
pub proof fn only_entries_are_split(s: Seq<char>, key: Seq<char>, value: Seq<char>) -> (pieces: (
    Seq<char>,
    Seq<char>,
    Seq<char>,
    Seq<char>,
))
    requires
        frame(s) == Some((key, value)),
    ensures
        is_blank(pieces.0),
        is_blank(pieces.1),
        is_blank(pieces.2),
        is_blank(pieces.3),
        s == spaced_entry(pieces.0, pieces.1, key, pieces.2, value, pieces.3),
        is_string(key),
{
    reveal_strlit("{");
    reveal_strlit(":");
    reveal_strlit("}");
    let open = skip_space(s, 0);
    skipping_space(s, 0);
    let quote = skip_space(s, open + 1);
    skipping_space(s, open + 1);
    let end_of_key = string_end(s, quote + 1)->0;
    where_strings_end(s, quote + 1);
    lemma_string_end_without(s, quote, end_of_key - quote, 1);
    let colon = skip_space(s, end_of_key);
    skipping_space(s, end_of_key);
    let end = trim_end(s, s.len() as int);
    trimming_space(s, s.len() as int);
    let before = s.subrange(0, open);
    let inside = s.subrange(open + 1, quote);
    let behind = s.subrange(end_of_key, colon);
    let after = s.subrange(end, s.len() as int);
    assert(is_blank(before));
    assert(is_blank(inside));
    assert(is_blank(behind));
    assert(is_blank(after));
    assert(s =~= spaced_entry(before, inside, key, behind, value, after));
    (before, inside, behind, after)
}

/// A string written without escapes is a written string, and stands for what is between its quotes.
/// Any other string stands for what it is read as.
pub proof fn what_strings_stand_for(token: Seq<char>, word: Seq<char>)
    ensures
        is_plain(token) ==> is_string(token),
        is_plain(quoted(word)) ==> string_value(quoted(word)) == Some(word),
        !is_plain(token) ==> string_value(token) == parsed_string(token),
        (forall|i: int|
            0 <= i < word.len() ==> (#[trigger] word[i]) != '"' && word[i] != '\\' && 0x20
                <= word[i] as u32) ==> is_plain(quoted(word)),
{
    reveal_strlit("\"");
    if is_plain(token) {
        assert(token.subrange(0, token.len() as int) =~= token);
        lemma_plain_string_end(token, 0, 1, token.len() as int);
    }
    let q = quoted(word);
    assert(q.subrange(1, q.len() - 1) =~= word);
    if forall|i: int|
        0 <= i < word.len() ==> (#[trigger] word[i]) != '"' && word[i] != '\\' && 0x20
            <= word[i] as u32 {
        assert forall|i: int| 0 < i < q.len() - 1 implies (#[trigger] q[i]) != '"' && q[i] != '\\'
            && 0x20 <= q[i] as u32 by {
            assert(q[i] == word[i - 1]);
        }
    }
}

/// A truth value is one of the two words, with space around it or none; nothing else is one.
pub proof fn what_truth_values_are(before: Seq<char>, after: Seq<char>, text: Seq<char>)
    requires
        is_blank(before),
        is_blank(after),
    ensures
        flag_value(before + "true"@ + after) == Some(true),
        flag_value(before + "false"@ + after) == Some(false),
        flag_value(text) == Some(true) ==> trimmed(text) == "true"@,
        flag_value(text) == Some(false) ==> trimmed(text) == "false"@,
        flag_value(text) is None ==> trimmed(text) != "true"@ && trimmed(text) != "false"@,
{
    reveal_strlit("true");
    reveal_strlit("false");
    assert("true"@.len() != "false"@.len());
    lemma_trimmed(before, "true"@, after);
    lemma_trimmed(before, "false"@, after);
}

/// Trimming takes away the space around a text, and only that.
proof fn lemma_trimmed(before: Seq<char>, word: Seq<char>, after: Seq<char>)
    requires
        is_blank(before),
        is_blank(after),
        word.len() > 0,
        !is_space(word[0]),
        !is_space(word[word.len() - 1]),
    ensures
        trimmed(before + word + after) == word,
{
    let s = before + word + after;
    let (start, end) = (before.len() as int, (before.len() + word.len()) as int);
    assert forall|k: int| 0 <= k < start implies is_space(#[trigger] s[k]) by {
        assert(s[k] == before[k]);
    }
    assert(s[start] == word[0]);
    assert(s[end - 1] == word[word.len() - 1]);
    assert forall|k: int| end <= k < s.len() implies is_space(#[trigger] s[k]) by {
        assert(s[k] == after[k - end]);
    }
    lemma_skip_space(s, 0, start);
    lemma_trim_end(s, s.len() as int, end);
    assert(s.subrange(start, end) =~= word);
}

/// The message of a given name is exactly what is read from its value: the description with its
/// type and its text, the candidate, or the wish, whatever the value looks like. Where nothing is
/// read from the value there is no message, and there is none of any other name.
pub proof fn messages_are_what_is_read(
    name: Seq<char>,
    value: Seq<char>,
    sdp: SessionDescriptionView,
    candidate: IceCandidateView,
    wish: bool,
)
    ensures
        named_value("sdp"@, value) == Some(SignalView::Sdp(sdp)) <==> parsed_description(value)
            == Some(sdp),
        named_value("candidate"@, value) == Some(SignalView::Candidate(candidate))
            <==> parsed_candidate(value) == Some(candidate),
        named_value("renegotiate"@, value) == Some(SignalView::Renegotiate(wish))
            <==> flag_value(value) == Some(wish),
        named_value("sdp"@, value) is None <==> parsed_description(value) is None,
        named_value("candidate"@, value) is None <==> parsed_candidate(value) is None,
        named_value("renegotiate"@, value) is None <==> flag_value(value) is None,
        named_value(name, value) matches Some(SignalView::Sdp(_)) ==> name == "sdp"@,
        named_value(name, value) matches Some(SignalView::Candidate(_)) ==> name == "candidate"@,
        named_value(name, value) matches Some(SignalView::Renegotiate(_)) ==> name
            == "renegotiate"@,
        is_name(name) <==> name == "sdp"@ || name == "candidate"@ || name == "renegotiate"@,
{
    lemma_words();
}

/// A message is read from its text however that text is spaced: what is read is what its value is
/// read as.
pub proof fn spacing_does_not_matter(
    before: Seq<char>,
    inside: Seq<char>,
    behind: Seq<char>,
    value: Seq<char>,
    after: Seq<char>,
    sdp: SessionDescriptionView,
    candidate: IceCandidateView,
    wish: bool,
)
    requires
        is_blank(before),
        is_blank(inside),
        is_blank(behind),
        is_blank(after),
    ensures
        signal_value(spaced_entry(before, inside, "\"sdp\""@, behind, value, after)) == Some(
            SignalView::Sdp(sdp),
        ) <==> parsed_description(value) == Some(sdp),
        signal_value(spaced_entry(before, inside, "\"candidate\""@, behind, value, after)) == Some(
            SignalView::Candidate(candidate),
        ) <==> parsed_candidate(value) == Some(candidate),
        signal_value(spaced_entry(before, inside, "\"renegotiate\""@, behind, value, after))
            == Some(SignalView::Renegotiate(wish)) <==> flag_value(value) == Some(wish),
{
    lemma_key(SignalView::Sdp(sdp));
    lemma_key(SignalView::Candidate(candidate));
    lemma_key(SignalView::Renegotiate(wish));
    what_strings_stand_for("\"sdp\""@, "sdp"@);
    what_strings_stand_for("\"candidate\""@, "candidate"@);
    what_strings_stand_for("\"renegotiate\""@, "renegotiate"@);
    entries_are_split(before, inside, "\"sdp\""@, behind, value, after);
    entries_are_split(before, inside, "\"candidate\""@, behind, value, after);
    entries_are_split(before, inside, "\"renegotiate\""@, behind, value, after);
    messages_are_what_is_read("sdp"@, value, sdp, candidate, wish);
}

/// Whatever is read as a message is an object with one entry, whose key stands for the name of that
/// kind of message and whose value is read as what the message says.
pub proof fn only_messages_are_read(text: Seq<char>, signal: SignalView)
    requires
        signal_value(text) == Some(signal),
    ensures
        frame(text) is Some,
        ({
            let (key, value) = frame(text)->0;
            match signal {
                SignalView::Sdp(sdp) => string_value(key) == Some("sdp"@) && parsed_description(
                    value,
                ) == Some(sdp),
                SignalView::Candidate(candidate) => string_value(key) == Some("candidate"@)
                    && parsed_candidate(value) == Some(candidate),
                SignalView::Renegotiate(wish) => string_value(key) == Some("renegotiate"@)
                    && flag_value(value) == Some(wish),
            }
        }),
{
    lemma_words();
}

/// Every message is written as an object with one entry, without space around its parts: the name
/// of its kind, and what it says.
pub proof fn how_messages_are_written(sdp: SessionDescriptionView, candidate: IceCandidateView)
    ensures
        signal_text(SignalView::Renegotiate(true)) == "{\"renegotiate\":true}"@,
        signal_text(SignalView::Renegotiate(false)) == "{\"renegotiate\":false}"@,
        signal_text(SignalView::Sdp(sdp)) == "{\"sdp\":"@ + description_text(sdp) + "}"@,
        signal_text(SignalView::Candidate(candidate)) == "{\"candidate\":"@ + candidate_text(
            candidate,
        ) + "}"@,
        description_text(sdp) == "{\"type\":\""@ + sdp_type_name(sdp.sdp_type) + "\",\"sdp\":"@
            + written(sdp.sdp) + "}"@,
{
    reveal_strlit("{");
    reveal_strlit("}");
    reveal_strlit(":");
    reveal_strlit("\"");
    reveal_strlit("true");
    reveal_strlit("false");
    reveal_strlit("\"renegotiate\"");
    reveal_strlit("\"sdp\"");
    reveal_strlit("\"candidate\"");
    reveal_strlit("{\"renegotiate\":true}");
    reveal_strlit("{\"renegotiate\":false}");
    reveal_strlit("{\"sdp\":");
    reveal_strlit("{\"candidate\":");
    reveal_strlit("{\"type\":");
    reveal_strlit("{\"type\":\"");
    reveal_strlit(",\"sdp\":");
    reveal_strlit("\",\"sdp\":");
    assert(signal_text(SignalView::Renegotiate(true)) =~= "{\"renegotiate\":true}"@);
    assert(signal_text(SignalView::Renegotiate(false)) =~= "{\"renegotiate\":false}"@);
    assert(signal_text(SignalView::Sdp(sdp)) =~= "{\"sdp\":"@ + description_text(sdp) + "}"@);
    assert(signal_text(SignalView::Candidate(candidate)) =~= "{\"candidate\":"@ + candidate_text(
        candidate,
    ) + "}"@);
    assert(description_text(sdp) =~= "{\"type\":\""@ + sdp_type_name(sdp.sdp_type)
        + "\",\"sdp\":"@ + written(sdp.sdp) + "}"@);
}

} // verus!
