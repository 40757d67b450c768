use webapp::login_session::{
    handle, login_session, respond, RejectError, Reply, STATUS_OK, STATUS_UNAUTHORIZED,
};
use webapp::protocol::{
    decode_response, encode_request, encode_response, DecodeError, Request, Response, Session,
};
use webapp::token::Token;

fn login_body(token: Token) -> Vec<u8> {
    encode_request(&Request::LoginSession(Session::new(token))).unwrap()
}

#[test]
fn succeed_to_login_with_session() {
    // Given
    let token = Token::create("username").unwrap();
    let body = login_body(token);

    // When
    let response = login_session(&body);

    // Then
    assert!(response.is_success());
}

#[test]
fn fail_to_login_with_wrong_session() {
    // Given
    let body = login_body(Token::from_text("wrong".to_string()));

    // When
    let response = login_session(&body);

    // Then
    assert_eq!(response.is_success(), false);
}

#[test]
fn fail_to_login_with_invalid_cbor() {
    // Given
    let body = serde_cbor::to_vec(&()).unwrap();

    // When
    let response = login_session(&body);

    // Then
    assert_eq!(response.is_success(), false);
}

#[test]
fn success_reply_carries_the_confirmed_session() {
    let token = Token::create("username").unwrap();
    let reply = login_session(&login_body(token.clone()));
    assert_eq!(reply.status, STATUS_OK);
    assert_eq!(reply.status, 200);
    let confirmed = match decode_response(&reply.body) {
        Ok(Response::Success(session)) => session,
        other => panic!("no success response: {:?}", other),
    };
    assert_eq!(confirmed.token().as_str(), "username.a37a3bab33752a30");
    assert_eq!(confirmed, Session::new(token));
    assert_eq!(
        Token::validate(confirmed.token().as_str()),
        Ok("username".to_string())
    );
}

#[test]
fn failure_reply_is_the_encoded_failure() {
    let reply = login_session(&login_body(Token::from_text("wrong".to_string())));
    assert_eq!(reply.status, STATUS_UNAUTHORIZED);
    assert_eq!(reply.status, 401);
    assert_eq!(reply.body, encode_response(&Response::Failure).unwrap());
    assert_eq!(decode_response(&reply.body), Ok(Response::Failure));
}

#[test]
fn every_refusal_looks_the_same() {
    let wrong = login_session(&login_body(Token::from_text("wrong".to_string())));
    let malformed = login_session(&login_body(Token::from_text("not a token".to_string())));
    let other_stamp =
        login_session(&login_body(Token::from_text("username.0000000000000000".to_string())));
    let no_cbor = login_session(&[0xff, 0x00, 0x01]);
    let empty = login_session(&[]);
    let a_response = login_session(&encode_response(&Response::Failure).unwrap());
    for reply in [&malformed, &other_stamp, &no_cbor, &empty, &a_response] {
        assert_eq!(*reply, wrong);
    }
}

#[test]
fn a_stamp_of_another_subject_is_refused() {
    let issued = Token::create("alice").unwrap();
    let stamp = &issued.as_str()["alice.".len()..];
    let forged = Token::from_text(format!("admin.{}", stamp));
    let reply = login_session(&login_body(forged));
    assert_eq!(reply.is_success(), false);
}

#[test]
fn handle_confirms_a_valid_session() {
    let token = Token::create("username").unwrap();
    let request = Request::LoginSession(Session::new(token.clone()));
    assert_eq!(handle(&request), Ok(Session::new(token)));
}

#[test]
fn handle_says_why_it_rejects() {
    let wrong = Request::LoginSession(Session::new(Token::from_text("wrong".to_string())));
    assert_eq!(handle(&wrong), Err(RejectError::InvalidToken));
    let blank = Request::LoginSession(Session::new(Token::from_text("a b".to_string())));
    assert_eq!(handle(&blank), Err(RejectError::MalformedToken));
    let empty = Request::LoginSession(Session::new(Token::from_text(String::new())));
    assert_eq!(handle(&empty), Err(RejectError::MalformedToken));
}

#[test]
fn respond_fails_on_what_did_not_decode() {
    assert_eq!(respond(Err(DecodeError::Truncated)), Response::Failure);
    assert_eq!(respond(Err(DecodeError::TypeMismatch)), Response::Failure);
    assert_eq!(respond(Err(DecodeError::UnknownVariant)), Response::Failure);
}

#[test]
fn respond_answers_a_decoded_request() {
    let token = Token::create("username").unwrap();
    let good = Request::LoginSession(Session::new(token.clone()));
    assert_eq!(respond(Ok(good)), Response::Success(Session::new(token)));
    let bad = Request::LoginSession(Session::new(Token::from_text("wrong".to_string())));
    assert_eq!(respond(Ok(bad)), Response::Failure);
}

#[test]
fn reply_success_is_the_two_hundreds() {
    let with = |status: u16| Reply { status, body: Vec::new() };
    assert_eq!(with(199).is_success(), false);
    assert_eq!(with(200).is_success(), true);
    assert_eq!(with(299).is_success(), true);
    assert_eq!(with(300).is_success(), false);
    assert_eq!(with(401).is_success(), false);
}
