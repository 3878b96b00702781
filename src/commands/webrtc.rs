//! WebRTC signalling between a client and the streamer.
use vstd::prelude::*;

verus! {

/// Client to streamer requests.
#[derive(Debug)]
pub enum Request {
    /// Get an offer from the streamer.
    GetOffer(GetOfferRequest),
    /// Set the client's answer to the offer.
    SetAnswer(SetAnswerRequest),
    /// Add an ICE candidate of the client.
    AddCandidate(AddCandidateRequest),
    /// Get the streamer's ICE candidates.
    GetCandidates(GetCandidatesRequest),
    /// Close the client's streaming session.
    HangUp(HangUpRequest),
}

#[derive(Debug)]
pub struct GetOfferRequest {
    pub stream_id: String,
}

/// An ICE server entry.
#[derive(Debug, Default)]
pub struct IceServer {
    /// Server addresses such as `stun:stun.l.google.com:19302`.
    pub urls: Vec<String>,
    /// TURN only.
    pub credential: Option<String>,
    /// TURN only.
    pub username: Option<String>,
}

#[derive(Debug)]
pub struct GetOfferResponse(pub Result<Offer, WebRtcError>);

#[derive(Debug)]
pub struct Offer {
    /// The peer, named in every later call.
    pub peer_id: String,
    /// Wire name `iceServers`.
    pub ice_servers: Vec<IceServer>,
    pub sdp: String,
    /// The SDP type; wire name `type`.
    pub sdp_type: String,
}

#[derive(Debug)]
pub struct SetAnswerRequest {
    pub sdp: String,
    /// The SDP type; wire name `type`.
    pub sdp_type: String,
    pub peer_id: Option<String>,
}

#[derive(Debug)]
pub struct SetAnswerResponse(pub Result<(), WebRtcError>);

/// Wire names in camel case.
#[derive(Debug)]
pub struct IceCandidate {
    pub candidate: String,
    pub sdp_m_line_index: u32,
    pub sdp_mid: String,
}

#[derive(Debug)]
pub struct AddCandidateRequest {
    pub candidate: IceCandidate,
    pub peer_id: Option<String>,
}

#[derive(Debug)]
pub struct AddCandidateResponse(pub Result<(), WebRtcError>);

#[derive(Debug)]
pub struct GetCandidatesRequest {
    pub peer_id: String,
}

#[derive(Debug)]
pub struct GetCandidatesResponse(pub Result<Candidates, WebRtcError>);

#[derive(Debug)]
pub struct Candidates {
    /// Whether the list is complete; until it is, the client asks again.
    pub completed: bool,
    /// Candidates to add to the client's peer connection.
    pub candidates: Vec<IceCandidate>,
}

#[derive(Debug)]
pub struct HangUpRequest {
    pub peer_id: String,
}

#[derive(Debug)]
pub struct HangUpResponse(pub Result<(), WebRtcError>);

/// Streamer responses.
#[derive(Debug)]
pub enum Response {
    GetOffer(GetOfferResponse),
    SetAnswer(SetAnswerResponse),
    AddCandidate(AddCandidateResponse),
    GetCandidates(GetCandidatesResponse),
    HangUp(HangUpResponse),
}

/// A failed WebRTC command, with the streamer's message if it gave one.
#[derive(Debug)]
pub struct WebRtcError(Option<String>);

impl View for WebRtcError {
    type V = Option<Seq<char>>;

    closed spec fn view(&self) -> Option<Seq<char>> {
        match self.0 {
            Some(m) => Some(m@),
            None => None,
        }
    }
}

impl WebRtcError {
    pub fn new(msg: String) -> (r: WebRtcError)
        ensures
            r@ == Some(msg@),
    {
        WebRtcError(Some(msg))
    }

    /// An error with the message of `err`.
    pub fn from_error<E: core::fmt::Display>(err: E) -> (r: WebRtcError)
        ensures
            exists|s: String|
                vstd::string::to_string_from_display_ensures::<E>(&err, s) && r@ == Some(
                    s@,
                ),
    {
        let s = err.to_string();
        let r = WebRtcError(Some(s));
        assert(vstd::string::to_string_from_display_ensures::<E>(&err, s) && r@ == Some(s@));
        r
    }

    /// An error without a message, for a streamer that answered null,
    /// false, or an object without an error.
    pub fn null() -> (r: WebRtcError)
        ensures
            r@ is None,
    {
        WebRtcError(None)
    }

    /// The message, or a note that the streamer gave none.
    pub fn message(&self) -> (r: String)
        ensures
            r@ == match self@ {
                Some(m) => m,
                None => "<no error message from WebRTC-streamer>"@,
            },
    {
        match &self.0 {
            Some(m) => m.clone(),
            None => String::from_str("<no error message from WebRTC-streamer>"),
        }
    }
}

/// A response read either as a result or as a bare boolean, as older
/// streamers answer.
pub enum BoolResponseCompat {
    Result(Result<(), WebRtcError>),
    Bool(bool),
}

/// The result a boolean-compatible response stands for.
pub open spec fn bool_compat_result(v: BoolResponseCompat) -> Result<(), Option<Seq<char>>> {
    match v {
        BoolResponseCompat::Result(Ok(())) => Ok(()),
        BoolResponseCompat::Result(Err(e)) => Err(e@),
        BoolResponseCompat::Bool(true) => Ok(()),
        BoolResponseCompat::Bool(false) => Err(None),
    }
}

/// The view of a result with a WebRTC error.
pub open spec fn unit_result_view(r: Result<(), WebRtcError>) -> Result<(), Option<Seq<char>>> {
    match r {
        Ok(()) => Ok(()),
        Err(e) => Err(e@),
    }
}

impl BoolResponseCompat {
    pub fn into_result(self) -> (r: Result<(), WebRtcError>)
        ensures
            unit_result_view(r) == bool_compat_result(self),
            self matches BoolResponseCompat::Result(x) ==> r == x,
    {
        match self {
            BoolResponseCompat::Result(r) => r,
            BoolResponseCompat::Bool(true) => Ok(()),
            BoolResponseCompat::Bool(false) => Err(WebRtcError(None)),
        }
    }
}

/// A response read either as a result or as the bare success value, as
/// older streamers answer.
pub enum StructResponseCompat<T> {
    Result(Result<T, WebRtcError>),
    Struct(T),
}

impl<T> StructResponseCompat<T> {
    pub fn into_result(self) -> (r: Result<T, WebRtcError>)
        ensures
            r == struct_compat_spec(self),
    {
        match self {
            StructResponseCompat::Result(r) => r,
            StructResponseCompat::Struct(s) => Ok(s),
        }
    }
}

/// The result value that `From` gives for a boolean-compatible response; its
/// view is `bool_compat_result`.
pub closed spec fn bool_compat_spec(v: BoolResponseCompat) -> Result<(), WebRtcError> {
    match v {
        BoolResponseCompat::Result(r) => r,
        BoolResponseCompat::Bool(true) => Ok(()),
        BoolResponseCompat::Bool(false) => Err(WebRtcError(None)),
    }
}

/// The result a struct-compatible response stands for.
pub open spec fn struct_compat_spec<T>(v: StructResponseCompat<T>) -> Result<T, WebRtcError> {
    match v {
        StructResponseCompat::Result(x) => x,
        StructResponseCompat::Struct(s) => Ok(s),
    }
}

/// A result is determined by its view and, for a response that holds one, by
/// that result.
proof fn lemma_bool_compat_value(v: BoolResponseCompat, r: Result<(), WebRtcError>)
    requires
        unit_result_view(r) == bool_compat_result(v),
        v matches BoolResponseCompat::Result(x) ==> r == x,
    ensures
        r == bool_compat_spec(v),
{
    match v {
        BoolResponseCompat::Result(x) => {
            assert(r == x);
            assert(bool_compat_spec(v) == x);
        },
        BoolResponseCompat::Bool(b) => {
            if b {
                assert(bool_compat_spec(v) == Ok::<(), WebRtcError>(()));
                assert(r->Ok_0 == ());
                assert(r == bool_compat_spec(v));
            } else {
                assert(r is Err);
                assert(r->Err_0.0 is None);
                assert(r->Err_0 == WebRtcError(None));
                assert(r == bool_compat_spec(v));
            }
        },
    }
}

impl From<BoolResponseCompat> for SetAnswerResponse {
    fn from(val: BoolResponseCompat) -> Self {
        let ghost v = val;
        let r = val.into_result();
        proof {
            lemma_bool_compat_value(v, r);
        }
        SetAnswerResponse(r)
    }
}

impl vstd::std_specs::convert::FromSpecImpl<BoolResponseCompat> for SetAnswerResponse {
    open spec fn obeys_from_spec() -> bool {
        true
    }

    open spec fn from_spec(v: BoolResponseCompat) -> Self {
        SetAnswerResponse(bool_compat_spec(v))
    }
}

impl From<BoolResponseCompat> for AddCandidateResponse {
    fn from(val: BoolResponseCompat) -> Self {
        let ghost v = val;
        let r = val.into_result();
        proof {
            lemma_bool_compat_value(v, r);
        }
        AddCandidateResponse(r)
    }
}

impl vstd::std_specs::convert::FromSpecImpl<BoolResponseCompat> for AddCandidateResponse {
    open spec fn obeys_from_spec() -> bool {
        true
    }

    open spec fn from_spec(v: BoolResponseCompat) -> Self {
        AddCandidateResponse(bool_compat_spec(v))
    }
}

impl From<BoolResponseCompat> for HangUpResponse {
    fn from(val: BoolResponseCompat) -> Self {
        let ghost v = val;
        let r = val.into_result();
        proof {
            lemma_bool_compat_value(v, r);
        }
        HangUpResponse(r)
    }
}

impl vstd::std_specs::convert::FromSpecImpl<BoolResponseCompat> for HangUpResponse {
    open spec fn obeys_from_spec() -> bool {
        true
    }

    open spec fn from_spec(v: BoolResponseCompat) -> Self {
        HangUpResponse(bool_compat_spec(v))
    }
}

impl From<StructResponseCompat<Offer>> for GetOfferResponse {
    fn from(val: StructResponseCompat<Offer>) -> Self {
        GetOfferResponse(val.into_result())
    }
}

impl vstd::std_specs::convert::FromSpecImpl<StructResponseCompat<Offer>> for GetOfferResponse {
    open spec fn obeys_from_spec() -> bool {
        true
    }

    open spec fn from_spec(v: StructResponseCompat<Offer>) -> Self {
        GetOfferResponse(struct_compat_spec(v))
    }
}

impl From<StructResponseCompat<Candidates>> for GetCandidatesResponse {
    fn from(val: StructResponseCompat<Candidates>) -> Self {
        GetCandidatesResponse(val.into_result())
    }
}

impl vstd::std_specs::convert::FromSpecImpl<StructResponseCompat<Candidates>> for GetCandidatesResponse {
    open spec fn obeys_from_spec() -> bool {
        true
    }

    open spec fn from_spec(v: StructResponseCompat<Candidates>) -> Self {
        GetCandidatesResponse(struct_compat_spec(v))
    }
}

} // verus!
