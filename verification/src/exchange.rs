//! What a whole login comes to, with client, wire and server taken
//! together.
//!
//! Nothing here runs. These are the facts that hold of every exchange,
//! proved from the definitions of the three sides. Where a fact speaks of
//! bytes on the wire it holds whenever the encoder handed those bytes out.
use vstd::prelude::*;
use crate::login_session::{
    failure_body, lemma_confirmed_is_presented, reply_to, STATUS_OK, STATUS_UNAUTHORIZED,
};
use crate::protocol::{
    decoded_request, decoded_response, encoded_request, encoded_response, lemma_request_round_trip,
    lemma_response_round_trip, DecodeError, EncodeError, RequestView, ResponseView,
};
use crate::root::{step_answer, step_connected, AuthenticationState, EffectView, RootState};
use crate::token::{lemma_issued_token_validates, token_text, valid_subject, validation};

verus! {

/// The server confirms a login with the token issued for a subject: the
/// reply has status 200, and its body decodes to a success with that
/// token.
pub proof fn lemma_issued_token_logs_in(subject: Seq<char>, request: Seq<u8>, response: Seq<u8>)
    requires
        valid_subject(subject),
        encoded_request(RequestView::LoginSession(token_text(subject))) == Ok::<
            Seq<u8>,
            EncodeError,
        >(request),
        encoded_response(ResponseView::Success(token_text(subject))) == Ok::<Seq<u8>, EncodeError>(
            response,
        ),
    ensures
        reply_to(request) == (STATUS_OK, response),
        decoded_response(response) == Ok::<ResponseView, DecodeError>(
            ResponseView::Success(token_text(subject)),
        ),
{
    let token = token_text(subject);
    lemma_issued_token_validates(subject);
    lemma_request_round_trip(RequestView::LoginSession(token), request);
    lemma_confirmed_is_presented(token);
    lemma_response_round_trip(ResponseView::Success(token), response);
}

/// The server refuses a login with any text that does not validate: the
/// reply has status 401 and the body of every refusal.
pub proof fn lemma_other_text_is_refused(token: Seq<char>, request: Seq<u8>)
    requires
        validation(token) is Err,
        encoded_request(RequestView::LoginSession(token)) == Ok::<Seq<u8>, EncodeError>(request),
    ensures
        reply_to(request) == (STATUS_UNAUTHORIZED, failure_body()),
{
    lemma_request_round_trip(RequestView::LoginSession(token), request);
}

/// The server refuses every body that does not decode to a request.
pub proof fn lemma_other_body_is_refused(body: Seq<u8>)
    requires
        decoded_request(body) is Err,
    ensures
        reply_to(body) == (STATUS_UNAUTHORIZED, failure_body()),
{
}

/// A client that finds the token issued for a subject in its store when
/// the connection opens sends one request, and the server's reply to that
/// request logs it in and has it store the same token again.
pub proof fn lemma_stored_token_logs_in(before: RootState, subject: Seq<char>)
    requires
        !before.login_in_flight,
        valid_subject(subject),
        encoded_request(RequestView::LoginSession(token_text(subject))) is Ok,
        encoded_response(ResponseView::Success(token_text(subject))) is Ok,
    ensures
        ({
            let asked = step_connected(before, Some(token_text(subject)));
            let settled = step_answer(
                asked.after,
                decoded_response(reply_to(asked.effect->Send_0).1),
            );
            &&& asked.effect is Send
            &&& !asked.should_render
            &&& asked.after.authentication_state == before.authentication_state
            &&& asked.after.login_in_flight
            &&& reply_to(asked.effect->Send_0).0 == STATUS_OK
            &&& settled.after.authentication_state == AuthenticationState::Authenticated
            &&& !settled.after.login_in_flight
            &&& settled.should_render
            &&& settled.effect == EffectView::StoreCredential(token_text(subject))
        }),
{
    let token = token_text(subject);
    let request = encoded_request(RequestView::LoginSession(token))->Ok_0;
    let response = encoded_response(ResponseView::Success(token))->Ok_0;
    lemma_issued_token_logs_in(subject, request, response);
}

/// A client that finds anything else in its store sends one request too,
/// and the server's reply to that request logs it out and has it remove
/// what it had stored.
pub proof fn lemma_stored_text_is_removed(before: RootState, token: Seq<char>)
    requires
        !before.login_in_flight,
        validation(token) is Err,
        encoded_request(RequestView::LoginSession(token)) is Ok,
        encoded_response(ResponseView::Failure) is Ok,
    ensures
        ({
            let asked = step_connected(before, Some(token));
            let settled = step_answer(
                asked.after,
                decoded_response(reply_to(asked.effect->Send_0).1),
            );
            &&& asked.effect is Send
            &&& reply_to(asked.effect->Send_0).0 == STATUS_UNAUTHORIZED
            &&& settled.after.authentication_state == AuthenticationState::UnAuthenticated
            &&& !settled.after.login_in_flight
            &&& settled.should_render
            &&& settled.effect == EffectView::RemoveCredential
        }),
{
    let request = encoded_request(RequestView::LoginSession(token))->Ok_0;
    lemma_other_text_is_refused(token, request);
    lemma_response_round_trip(ResponseView::Failure, failure_body());
}

} // verus!
