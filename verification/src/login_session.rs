//! The server side of a login: one request body in, one reply out.
//!
//! The handler keeps no state. It decodes the body, checks the token of
//! the session it carries, and confirms the session with the token issued
//! for the subject it found. Every way of failing gives the same reply, so
//! a client learns that a login was turned down and never why.
use vstd::prelude::*;
use crate::protocol::{
    decode_request, decoded_request, decoded_response, encode_response, encoded_response,
    lemma_response_round_trip, DecodeError, Request, RequestView, Response, ResponseView, Session,
};
use crate::token::{
    lemma_accepted_is_issued, lemma_issued_token_validates, subject_of, token_text, validation,
    Token, TokenValidationError,
};

verus! {

/// Status of a reply that confirms a session.
pub const STATUS_OK: u16 = 200;

/// Status of every other reply.
pub const STATUS_UNAUTHORIZED: u16 = 401;

/// Why the handler turned a session down. This stays on the server.
#[derive(Clone, Copy, Debug, PartialEq, Eq, Structural)]
pub enum RejectError {
    /// The token of the session cannot be token text at all.
    MalformedToken,
    /// The token of the session is not a subject with its stamp.
    InvalidToken,
}

/// What goes back to the client: a status and a body.
#[derive(Clone, Debug, PartialEq, Eq)]
pub struct Reply {
    /// The status code, as HTTP numbers them.
    pub status: u16,
    /// The encoded response.
    pub body: Vec<u8>,
}

/// The rejection a failed validation is reported as.
pub open spec fn rejection(e: TokenValidationError) -> RejectError {
    match e {
        TokenValidationError::Malformed => RejectError::MalformedToken,
        TokenValidationError::Invalid => RejectError::InvalidToken,
    }
}

/// What the handler makes of the token of a session: the token of the
/// confirmed session, or the rejection.
pub open spec fn handled(token: Seq<char>) -> Result<Seq<char>, RejectError> {
    match validation(token) {
        Ok(subject) => Ok(token_text(subject)),
        Err(e) => Err(rejection(e)),
    }
}

/// A decoded request, seen as a mathematical value.
pub open spec fn decoded_view(decoded: Result<Request, DecodeError>) -> Result<
    RequestView,
    DecodeError,
> {
    match decoded {
        Ok(m) => Ok(m@),
        Err(e) => Err(e),
    }
}

/// The response to what decoding the body gave.
pub open spec fn response_for(decoded: Result<RequestView, DecodeError>) -> ResponseView {
    match decoded {
        Ok(RequestView::LoginSession(token)) => match handled(token) {
            Ok(confirmed) => ResponseView::Success(confirmed),
            Err(_) => ResponseView::Failure,
        },
        Err(_) => ResponseView::Failure,
    }
}

/// The body of every reply that is not a success: the encoded failure
/// response, or nothing where that cannot be encoded.
pub open spec fn failure_body() -> Seq<u8> {
    match encoded_response(ResponseView::Failure) {
        Ok(bytes) => bytes,
        Err(_) => Seq::empty(),
    }
}

/// The reply to a request body, as status and body.
pub open spec fn reply_to(body: Seq<u8>) -> (u16, Seq<u8>) {
    match response_for(decoded_request(body)) {
        ResponseView::Success(confirmed) => match encoded_response(
            ResponseView::Success(confirmed),
        ) {
            Ok(bytes) => (STATUS_OK, bytes),
            Err(_) => (STATUS_UNAUTHORIZED, failure_body()),
        },
        ResponseView::Failure => (STATUS_UNAUTHORIZED, failure_body()),
    }
}

/// The token the handler confirms a session with is the very token it was
/// shown.
pub proof fn lemma_confirmed_is_presented(token: Seq<char>)
    requires
        handled(token) is Ok,
    ensures
        handled(token) == Ok::<Seq<char>, RejectError>(token),
{
    lemma_accepted_is_issued(token);
}

/// A reply is a success exactly when the body decodes to a login request,
/// the token in it validates, and the success response for it can be
/// encoded. So a body that does not decode, or that carries a token that
/// does not validate, is refused.
pub proof fn lemma_success_exactly_when_valid(body: Seq<u8>)
    ensures
        reply_to(body).0 == STATUS_OK <==> (decoded_request(body) matches Ok(
            RequestView::LoginSession(token),
        ) && validation(token) is Ok && encoded_response(ResponseView::Success(token)) is Ok),
        reply_to(body).0 == STATUS_OK || reply_to(body).0 == STATUS_UNAUTHORIZED,
{
    if let Ok(RequestView::LoginSession(token)) = decoded_request(body) {
        if validation(token) is Ok {
            lemma_confirmed_is_presented(token);
        }
    }
}

/// The body of a successful reply decodes to a success response, and the
/// session in it carries a token that validates.
pub proof fn lemma_success_carries_valid_session(body: Seq<u8>)
    requires
        reply_to(body).0 == STATUS_OK,
    ensures
        decoded_response(reply_to(body).1) matches Ok(ResponseView::Success(token)) && validation(
            token,
        ) is Ok,
{
    let token = response_for(decoded_request(body))->Success_0;
    lemma_response_round_trip(ResponseView::Success(token), reply_to(body).1);
    let presented = decoded_request(body)->Ok_0->LoginSession_0;
    lemma_accepted_is_issued(presented);
    lemma_issued_token_validates(subject_of(presented));
}

impl Reply {
    /// True for a status from 200 to 299.
    pub fn is_success(&self) -> (b: bool)
        ensures
            b == (200 <= self.status <= 299),
    {
        200 <= self.status && self.status <= 299
    }
}

/// Turns one login request into a confirmed session or a rejection.
///
/// The token of the session is validated. Where it stands, the confirmed
/// session carries the token issued for its subject.
pub fn handle(request: &Request) -> (r: Result<Session, RejectError>)
    ensures
        match r {
            Ok(session) => handled(request@->LoginSession_0) == Ok::<Seq<char>, RejectError>(
                session@,
            ),
            Err(e) => handled(request@->LoginSession_0) == Err::<Seq<char>, RejectError>(e),
        },
{
    match request {
        Request::LoginSession(session) => {
            match Token::validate(session.token().as_str()) {
                Err(TokenValidationError::Malformed) => Err(RejectError::MalformedToken),
                Err(TokenValidationError::Invalid) => Err(RejectError::InvalidToken),
                Ok(subject) => {
                    proof {
                        lemma_accepted_is_issued(session@);
                    }
                    match Token::create(subject.as_str()) {
                        Ok(token) => Ok(Session::new(token)),
                        Err(_) => vstd::pervasive::unreached(),
                    }
                },
            }
        },
    }
}

/// The response to what decoding a request body gave: success with the
/// confirmed session where the body was a login request with a token that
/// validates, failure in every other case.
pub fn respond(decoded: Result<Request, DecodeError>) -> (response: Response)
    ensures
        response@ == response_for(decoded_view(decoded)),
{
    match decoded {
        Err(_) => Response::Failure,
        Ok(request) => match handle(&request) {
            Ok(session) => Response::Success(session),
            Err(_) => Response::Failure,
        },
    }
}

/// The reply to every login that is not confirmed: status 401 and the
/// encoded failure response, or an empty body where that cannot be
/// encoded.
pub fn refuse() -> (reply: Reply)
    ensures
        reply.status == STATUS_UNAUTHORIZED,
        reply.body@ == failure_body(),
{
    let body: Vec<u8> = match encode_response(&Response::Failure) {
        Ok(bytes) => bytes,
        Err(_) => Vec::new(),
    };
    Reply { status: STATUS_UNAUTHORIZED, body }
}

/// Answers one request body.
///
/// The reply has status 200 and the encoded confirmed session exactly when
/// the body decodes to a login request, the token in it validates, and the
/// success response can be encoded. Every other body is refused.
pub fn login_session(body: &[u8]) -> (reply: Reply)
    ensures
        (reply.status, reply.body@) == reply_to(body@),
{
    let response: Response = respond(decode_request(body));
    match &response {
        Response::Success(_) => match encode_response(&response) {
            Ok(bytes) => Reply { status: STATUS_OK, body: bytes },
            Err(_) => refuse(),
        },
        Response::Failure => refuse(),
    }
}

} // verus!
