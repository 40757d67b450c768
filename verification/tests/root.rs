use webapp::login_session::login_session;
use webapp::protocol::{
    decode_request, encode_request, encode_response, DecodeError, EncodeError, Request, Response,
    Session,
};
use webapp::root::{
    AuthenticationState, Effect, Message, RootComponent, Screen, Update, SESSION_COOKIE,
};
use webapp::token::Token;

/// A credential store and a transport that record what was asked of them.
struct Outside {
    cookie: Option<String>,
    sent: Vec<Vec<u8>>,
    sets: Vec<String>,
    removes: usize,
}

impl Outside {
    fn with_cookie(cookie: Option<&str>) -> Outside {
        Outside {
            cookie: cookie.map(|c| c.to_string()),
            sent: Vec::new(),
            sets: Vec::new(),
            removes: 0,
        }
    }

    fn deliver(&mut self, component: &mut RootComponent, msg: Message) -> Update {
        let update = component.update(msg, self.cookie.clone());
        match &update.effect {
            Effect::Nothing => {}
            Effect::Send(bytes) => self.sent.push(bytes.clone()),
            Effect::StoreCredential(token) => {
                self.cookie = Some(token.clone());
                self.sets.push(token.clone());
            }
            Effect::RemoveCredential => {
                self.cookie = None;
                self.removes += 1;
            }
        }
        update
    }
}

fn authenticated() -> RootComponent {
    let mut component = RootComponent::create();
    let token = Token::create("username").unwrap();
    component.login_answered(Ok(Response::Success(Session::new(token))));
    assert_eq!(component.authentication_state(), AuthenticationState::Authenticated);
    component
}

fn unauthenticated() -> RootComponent {
    let mut component = RootComponent::create();
    component.login_answered(Ok(Response::Failure));
    assert_eq!(component.authentication_state(), AuthenticationState::UnAuthenticated);
    component
}

#[test]
fn the_cookie_has_its_name() {
    assert_eq!(SESSION_COOKIE, "sessionToken");
}

#[test]
fn a_new_component_knows_nothing() {
    let component = RootComponent::create();
    assert_eq!(component.authentication_state(), AuthenticationState::Unknown);
    assert_eq!(component.initial_message(), "Loading application\u{2026}");
    assert_eq!(component.login_in_flight(), false);
    assert_eq!(component.view(), Screen::Loading("Loading application\u{2026}".to_string()));
}

#[test]
fn change_asks_for_a_render_and_changes_nothing() {
    let mut component = RootComponent::create();
    assert_eq!(component.change(), true);
    assert_eq!(component.authentication_state(), AuthenticationState::Unknown);
    assert_eq!(component.initial_message(), "Loading application\u{2026}");
    assert_eq!(component.login_in_flight(), false);
}

#[test]
fn connected_without_credential_is_unauthenticated() {
    let mut outside = Outside::with_cookie(None);
    let mut component = RootComponent::create();
    let update = outside.deliver(&mut component, Message::WebSocketConnected);
    assert_eq!(update, Update { should_render: true, effect: Effect::Nothing });
    assert_eq!(component.authentication_state(), AuthenticationState::UnAuthenticated);
    assert_eq!(component.login_in_flight(), false);
    assert!(outside.sent.is_empty());
    assert!(outside.sets.is_empty());
    assert_eq!(outside.removes, 0);
    assert_eq!(component.view(), Screen::Login);
}

#[test]
fn connected_with_credential_and_success_is_authenticated() {
    let token = Token::create("username").unwrap();
    let mut outside = Outside::with_cookie(Some(token.as_str()));
    let mut component = RootComponent::create();

    let update = outside.deliver(&mut component, Message::WebSocketConnected);
    assert_eq!(update.should_render, false);
    assert_eq!(component.authentication_state(), AuthenticationState::Unknown);
    assert_eq!(component.login_in_flight(), true);
    assert_eq!(outside.sent.len(), 1);
    assert_eq!(
        decode_request(&outside.sent[0]),
        Ok(Request::LoginSession(Session::new(token.clone())))
    );

    let reply = login_session(&outside.sent[0]);
    assert!(reply.is_success());
    let update = outside.deliver(&mut component, Message::LoginResponse(reply.body));
    assert_eq!(
        update,
        Update {
            should_render: true,
            effect: Effect::StoreCredential("username.a37a3bab33752a30".to_string()),
        }
    );
    assert_eq!(component.authentication_state(), AuthenticationState::Authenticated);
    assert_eq!(component.login_in_flight(), false);
    assert_eq!(outside.sets, vec!["username.a37a3bab33752a30".to_string()]);
    assert_eq!(outside.removes, 0);
    assert_eq!(outside.cookie, Some(token.into_string()));
    assert_eq!(component.view(), Screen::Content);
}

#[test]
fn connected_with_credential_and_failure_is_unauthenticated() {
    let mut outside = Outside::with_cookie(Some("wrong"));
    let mut component = RootComponent::create();

    outside.deliver(&mut component, Message::WebSocketConnected);
    assert_eq!(outside.sent.len(), 1);
    assert_eq!(component.authentication_state(), AuthenticationState::Unknown);

    let reply = login_session(&outside.sent[0]);
    assert_eq!(reply.is_success(), false);
    let update = outside.deliver(&mut component, Message::LoginResponse(reply.body));
    assert_eq!(update, Update { should_render: true, effect: Effect::RemoveCredential });
    assert_eq!(component.authentication_state(), AuthenticationState::UnAuthenticated);
    assert_eq!(component.login_in_flight(), false);
    assert_eq!(outside.removes, 1);
    assert!(outside.sets.is_empty());
    assert_eq!(outside.cookie, None);
    assert_eq!(component.view(), Screen::Login);
}

#[test]
fn connected_with_credential_and_undecodable_answer_is_unauthenticated() {
    for answer in [vec![], vec![0xff, 0x00], vec![0xf6], vec![0x82, 0x67]] {
        let token = Token::create("username").unwrap();
        let mut outside = Outside::with_cookie(Some(token.as_str()));
        let mut component = RootComponent::create();
        outside.deliver(&mut component, Message::WebSocketConnected);
        assert_eq!(outside.sent.len(), 1);

        let update = outside.deliver(&mut component, Message::LoginResponse(answer));
        assert_eq!(update, Update { should_render: true, effect: Effect::RemoveCredential });
        assert_eq!(component.authentication_state(), AuthenticationState::UnAuthenticated);
        assert_eq!(outside.removes, 1);
        assert_eq!(outside.cookie, None);
    }
}

#[test]
fn a_request_is_no_answer() {
    let mut component = RootComponent::create();
    let token = Token::create("username").unwrap();
    let request = encode_request(&Request::LoginSession(Session::new(token))).unwrap();
    let update = component.update(Message::LoginResponse(request), None);
    assert_eq!(update.effect, Effect::RemoveCredential);
    assert_eq!(component.authentication_state(), AuthenticationState::UnAuthenticated);
}

#[test]
fn no_second_request_while_one_is_in_flight() {
    let token = Token::create("username").unwrap();
    let mut outside = Outside::with_cookie(Some(token.as_str()));
    let mut component = RootComponent::create();
    outside.deliver(&mut component, Message::WebSocketConnected);
    assert_eq!(outside.sent.len(), 1);

    let update = outside.deliver(&mut component, Message::WebSocketConnected);
    assert_eq!(update, Update { should_render: false, effect: Effect::Nothing });
    assert_eq!(outside.sent.len(), 1);
    assert_eq!(component.login_in_flight(), true);
    assert_eq!(component.authentication_state(), AuthenticationState::Unknown);
}

#[test]
fn a_lost_connection_frees_the_way_for_a_new_request() {
    let token = Token::create("username").unwrap();
    let mut outside = Outside::with_cookie(Some(token.as_str()));
    let mut component = RootComponent::create();
    outside.deliver(&mut component, Message::WebSocketConnected);
    outside.deliver(&mut component, Message::WebSocketFailure);
    assert_eq!(component.login_in_flight(), false);
    assert_eq!(component.authentication_state(), AuthenticationState::Unknown);
    outside.deliver(&mut component, Message::WebSocketConnected);
    assert_eq!(outside.sent.len(), 2);
    assert_eq!(outside.sent[0], outside.sent[1]);
}

#[test]
fn a_failed_connection_shows_the_error_text() {
    let mut component = RootComponent::create();
    let update = component.update(Message::WebSocketFailure, None);
    assert_eq!(update, Update { should_render: true, effect: Effect::Nothing });
    assert_eq!(component.authentication_state(), AuthenticationState::Unknown);
    assert_eq!(component.initial_message(), "Error loading application.");
    assert_eq!(
        component.view(),
        Screen::Loading("Error loading application.".to_string())
    );
}

#[test]
fn a_login_request_falls_back_to_the_error_text() {
    let token = Token::create("username").unwrap();
    let mut outside = Outside::with_cookie(Some(token.as_str()));
    let mut component = RootComponent::create();
    outside.deliver(&mut component, Message::WebSocketConnected);
    let update = outside.deliver(&mut component, Message::LoginRequest("username".to_string()));
    assert_eq!(update, Update { should_render: true, effect: Effect::Nothing });
    assert_eq!(component.authentication_state(), AuthenticationState::Unknown);
    assert_eq!(component.initial_message(), "Error loading application.");
    assert_eq!(component.login_in_flight(), true);
    assert_eq!(outside.sent.len(), 1);
}

#[test]
fn a_request_that_cannot_be_written_drops_the_credential() {
    let mut component = RootComponent::create();
    let update = component.credential_found(Err(EncodeError::Unencodable));
    assert_eq!(update, Update { should_render: true, effect: Effect::RemoveCredential });
    assert_eq!(component.authentication_state(), AuthenticationState::UnAuthenticated);
    assert_eq!(component.login_in_flight(), false);
}

#[test]
fn a_written_request_goes_out() {
    let mut component = RootComponent::create();
    let update = component.credential_found(Ok(vec![1, 2, 3]));
    assert_eq!(update, Update { should_render: false, effect: Effect::Send(vec![1, 2, 3]) });
    assert_eq!(component.authentication_state(), AuthenticationState::Unknown);
    assert_eq!(component.login_in_flight(), true);
}

#[test]
fn every_answer_settles_the_credential() {
    let answers: Vec<Result<Response, DecodeError>> = vec![
        Ok(Response::Failure),
        Err(DecodeError::Truncated),
        Err(DecodeError::TypeMismatch),
        Err(DecodeError::UnknownVariant),
    ];
    for answer in answers {
        let mut component = authenticated();
        let update = component.login_answered(answer);
        assert_eq!(update, Update { should_render: true, effect: Effect::RemoveCredential });
        assert_eq!(component.authentication_state(), AuthenticationState::UnAuthenticated);
    }
    let mut component = unauthenticated();
    let session = Session::new(Token::from_text("abc".to_string()));
    let update = component.login_answered(Ok(Response::Success(session)));
    assert_eq!(
        update,
        Update { should_render: true, effect: Effect::StoreCredential("abc".to_string()) }
    );
    assert_eq!(component.authentication_state(), AuthenticationState::Authenticated);
}

#[test]
fn unknown_is_never_entered_again() {
    let token = Token::create("username").unwrap();
    let events = || {
        vec![
            Message::WebSocketConnected,
            Message::WebSocketFailure,
            Message::LoginRequest("username".to_string()),
            Message::LoginResponse(vec![0xf6]),
            Message::LoginResponse(encode_response(&Response::Failure).unwrap()),
            Message::LoginResponse(
                encode_response(&Response::Success(Session::new(
                    Token::create("username").unwrap(),
                )))
                .unwrap(),
            ),
        ]
    };
    for stored in [None, Some(token.as_str().to_string()), Some("wrong".to_string())] {
        for msg in events() {
            let mut component = authenticated();
            component.update(msg, stored.clone());
            assert_ne!(component.authentication_state(), AuthenticationState::Unknown);
        }
        for msg in events() {
            let mut component = unauthenticated();
            component.update(msg, stored.clone());
            assert_ne!(component.authentication_state(), AuthenticationState::Unknown);
        }
    }
}

#[test]
fn reconnecting_while_authenticated_asks_again_and_keeps_the_state() {
    let token = Token::create("username").unwrap();
    let mut outside = Outside::with_cookie(Some(token.as_str()));
    let mut component = authenticated();
    let update = outside.deliver(&mut component, Message::WebSocketConnected);
    assert_eq!(update.should_render, false);
    assert_eq!(outside.sent.len(), 1);
    assert_eq!(component.authentication_state(), AuthenticationState::Authenticated);
}

#[test]
fn view_follows_the_state() {
    assert_eq!(authenticated().view(), Screen::Content);
    assert_eq!(unauthenticated().view(), Screen::Login);
    let mut failed = authenticated();
    failed.update(Message::WebSocketFailure, None);
    assert_eq!(failed.view(), Screen::Content);
    assert_eq!(failed.initial_message(), "Error loading application.");
}
