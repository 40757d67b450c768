//! The client side of a login: the root component and its state machine.
//!
//! The component starts out not knowing whether the user is logged in.
//! When the connection opens it looks for a stored credential and, if
//! there is one, asks the server to confirm it; the answer settles the
//! state and the credential store together.
//!
//! The component does no input or output. The caller hands it each event,
//! with the stored credential where the event is the opening of the
//! connection, and carries out the [`Effect`] that comes back.
use vstd::prelude::*;
use vstd::string::*;
use crate::protocol::{
    decode_response, decoded_response, encode_request, encoded_request, DecodeError, EncodeError,
    Request, RequestView, Response, ResponseView, Session,
};
use crate::token::Token;

verus! {

/// Name under which the credential is kept in the credential store.
pub const SESSION_COOKIE: &'static str = "sessionToken";

/// The events the component reacts to.
#[derive(Debug)]
pub enum Message {
    /// The user asks to log in under a name. The root component does not
    /// act on this; it takes it like any event it has no answer to.
    LoginRequest(String),
    /// The server answered a login; these are the bytes it sent.
    LoginResponse(Vec<u8>),
    /// The connection to the server is open.
    WebSocketConnected,
    /// The connection to the server failed or closed.
    WebSocketFailure,
}

/// What the client knows of its login.
#[derive(Clone, Copy, Debug, PartialEq, Eq, Structural)]
pub enum AuthenticationState {
    /// Nothing yet. This is where every component starts.
    Unknown,
    /// The server confirmed a session.
    Authenticated,
    /// There is no valid session.
    UnAuthenticated,
}

/// What the caller is to do after an event.
#[derive(Clone, Debug, PartialEq, Eq)]
pub enum Effect {
    /// Nothing.
    Nothing,
    /// Send these bytes to the server.
    Send(Vec<u8>),
    /// Keep this token under [`SESSION_COOKIE`].
    StoreCredential(String),
    /// Remove what is kept under [`SESSION_COOKIE`].
    RemoveCredential,
}

/// The outcome of one event.
#[derive(Clone, Debug, PartialEq, Eq)]
pub struct Update {
    /// Whether the screen has to be drawn again.
    pub should_render: bool,
    /// What the caller is to do.
    pub effect: Effect,
}

/// What the component shows.
#[derive(Clone, Debug, PartialEq, Eq)]
pub enum Screen {
    /// A line of text in the middle of the page.
    Loading(String),
    /// The content for a logged-in user.
    Content,
    /// The login form.
    Login,
}

/// The root component.
#[derive(Debug)]
pub struct RootComponent {
    authentication_state: AuthenticationState,
    initial_message: String,
    login_in_flight: bool,
}

/// The component as a mathematical value.
pub struct RootState {
    pub authentication_state: AuthenticationState,
    pub initial_message: Seq<char>,
    /// A login request was sent and neither answered nor lost.
    pub login_in_flight: bool,
}

/// An effect as a mathematical value.
pub enum EffectView {
    Nothing,
    Send(Seq<u8>),
    StoreCredential(Seq<char>),
    RemoveCredential,
}

/// One step of the state machine: the state after an event, and the
/// outcome handed to the caller.
pub struct Step {
    pub after: RootState,
    pub should_render: bool,
    pub effect: EffectView,
}

impl RootComponent {
    /// The component as a mathematical value.
    pub closed spec fn state(&self) -> RootState {
        RootState {
            authentication_state: self.authentication_state,
            initial_message: self.initial_message@,
            login_in_flight: self.login_in_flight,
        }
    }
}

impl View for Effect {
    type V = EffectView;

    open spec fn view(&self) -> EffectView {
        match self {
            Effect::Nothing => EffectView::Nothing,
            Effect::Send(bytes) => EffectView::Send(bytes@),
            Effect::StoreCredential(token) => EffectView::StoreCredential(token@),
            Effect::RemoveCredential => EffectView::RemoveCredential,
        }
    }
}

/// The text shown while nothing is known.
pub open spec fn loading_message() -> Seq<char> {
    "Loading application…"@
}

/// The text shown after the connection failed.
pub open spec fn error_message() -> Seq<char> {
    "Error loading application."@
}

/// The state a component starts in.
pub open spec fn initial_state() -> RootState {
    RootState {
        authentication_state: AuthenticationState::Unknown,
        initial_message: loading_message(),
        login_in_flight: false,
    }
}

/// A stored credential, seen as a mathematical value.
pub open spec fn credential_view(stored: Option<String>) -> Option<Seq<char>> {
    match stored {
        Some(token) => Some(token@),
        None => None,
    }
}

/// A decoded response, seen as a mathematical value.
pub open spec fn answer_view(decoded: Result<Response, DecodeError>) -> Result<
    ResponseView,
    DecodeError,
> {
    match decoded {
        Ok(m) => Ok(m@),
        Err(e) => Err(e),
    }
}

/// An encoded request, seen as a mathematical value.
pub open spec fn encoded_view(encoded: Result<Vec<u8>, EncodeError>) -> Result<
    Seq<u8>,
    EncodeError,
> {
    match encoded {
        Ok(bytes) => Ok(bytes@),
        Err(e) => Err(e),
    }
}

/// The connection opened and no credential is stored: nobody is logged in.
pub open spec fn step_no_credential(before: RootState) -> Step {
    Step {
        after: RootState { authentication_state: AuthenticationState::UnAuthenticated, ..before },
        should_render: true,
        effect: EffectView::Nothing,
    }
}

/// The connection opened and a credential is stored; `encoded` is what
/// encoding the login request for it gave. The request goes out and the
/// state waits for the answer, or the credential is dropped where no
/// request could be written.
pub open spec fn step_credential(before: RootState, encoded: Result<Seq<u8>, EncodeError>) -> Step {
    match encoded {
        Ok(bytes) => Step {
            after: RootState { login_in_flight: true, ..before },
            should_render: false,
            effect: EffectView::Send(bytes),
        },
        Err(_) => Step {
            after: RootState {
                authentication_state: AuthenticationState::UnAuthenticated,
                ..before
            },
            should_render: true,
            effect: EffectView::RemoveCredential,
        },
    }
}

/// The connection opened. While a login request is in flight the event
/// changes nothing and no second request goes out.
pub open spec fn step_connected(before: RootState, stored: Option<Seq<char>>) -> Step {
    if before.login_in_flight {
        Step { after: before, should_render: false, effect: EffectView::Nothing }
    } else {
        match stored {
            None => step_no_credential(before),
            Some(token) => step_credential(
                before,
                encoded_request(RequestView::LoginSession(token)),
            ),
        }
    }
}

/// The server answered; `decoded` is what decoding its bytes gave. A
/// success logs the user in and stores the confirmed token; a failure, or
/// bytes that are no response, logs the user out and removes the
/// credential.
pub open spec fn step_answer(
    before: RootState,
    decoded: Result<ResponseView, DecodeError>,
) -> Step {
    match decoded {
        Ok(ResponseView::Success(token)) => Step {
            after: RootState {
                authentication_state: AuthenticationState::Authenticated,
                login_in_flight: false,
                ..before
            },
            should_render: true,
            effect: EffectView::StoreCredential(token),
        },
        _ => Step {
            after: RootState {
                authentication_state: AuthenticationState::UnAuthenticated,
                login_in_flight: false,
                ..before
            },
            should_render: true,
            effect: EffectView::RemoveCredential,
        },
    }
}

/// Any other event: the message turns into the error text, and the login
/// state stays as it is. Where the connection was lost, so is a request
/// in flight.
pub open spec fn step_fallback(before: RootState, connection_lost: bool) -> Step {
    Step {
        after: RootState {
            initial_message: error_message(),
            login_in_flight: before.login_in_flight && !connection_lost,
            ..before
        },
        should_render: true,
        effect: EffectView::Nothing,
    }
}

/// The step the state machine takes on an event. `stored` is the
/// credential found in the store; only the opening of the connection
/// looks at it.
pub open spec fn step(before: RootState, msg: Message, stored: Option<Seq<char>>) -> Step {
    match msg {
        Message::WebSocketConnected => step_connected(before, stored),
        Message::LoginResponse(bytes) => step_answer(before, decoded_response(bytes@)),
        Message::WebSocketFailure => step_fallback(before, true),
        Message::LoginRequest(_) => step_fallback(before, false),
    }
}

/// Once the state has left `Unknown`, no event brings it back there.
pub proof fn lemma_unknown_is_never_reentered(
    before: RootState,
    msg: Message,
    stored: Option<Seq<char>>,
)
    requires
        before.authentication_state != AuthenticationState::Unknown,
    ensures
        step(before, msg, stored).after.authentication_state != AuthenticationState::Unknown,
{
}

/// Every answer of the server settles the credential store: the token is
/// stored exactly when the state becomes `Authenticated`, and removed
/// exactly when it becomes `UnAuthenticated`; no answer leaves the state
/// `Unknown` or a request in flight.
pub proof fn lemma_answer_settles_credential(
    before: RootState,
    bytes: Vec<u8>,
    stored: Option<Seq<char>>,
)
    ensures
        ({
            let s = step(before, Message::LoginResponse(bytes), stored);
            &&& s.should_render
            &&& !s.after.login_in_flight
            &&& s.after.authentication_state == AuthenticationState::Authenticated
                <==> s.effect is StoreCredential
            &&& s.after.authentication_state == AuthenticationState::UnAuthenticated
                <==> s.effect is RemoveCredential
            &&& s.effect is StoreCredential || s.effect is RemoveCredential
            &&& s.effect is StoreCredential <==> decoded_response(bytes@) matches Ok(
                ResponseView::Success(_),
            )
        }),
{
}

/// A login request goes out only when the connection opens with a
/// credential in the store and no request in flight, and it is then in
/// flight: there is never a second one on its way.
pub proof fn lemma_one_request_in_flight(before: RootState, msg: Message, stored: Option<Seq<char>>)
    requires
        step(before, msg, stored).effect is Send,
    ensures
        msg is WebSocketConnected,
        stored is Some,
        !before.login_in_flight,
        step(before, msg, stored).after.login_in_flight,
        encoded_request(RequestView::LoginSession(stored->Some_0)) == Ok::<Seq<u8>, EncodeError>(
            step(before, msg, stored).effect->Send_0,
        ),
{
}

/// The state becomes `Authenticated` only through an answer of the server
/// that decodes to a success.
pub proof fn lemma_authenticated_by_success_only(
    before: RootState,
    msg: Message,
    stored: Option<Seq<char>>,
)
    requires
        before.authentication_state != AuthenticationState::Authenticated,
        step(before, msg, stored).after.authentication_state == AuthenticationState::Authenticated,
    ensures
        msg matches Message::LoginResponse(bytes) && decoded_response(bytes@) matches Ok(
            ResponseView::Success(_),
        ),
{
}

impl RootComponent {
    /// A new component: state `Unknown`, the loading text, nothing in
    /// flight.
    pub fn create() -> (component: RootComponent)
        ensures
            component.state() == initial_state(),
    {
        RootComponent {
            authentication_state: AuthenticationState::Unknown,
            initial_message: String::from_str("Loading application…"),
            login_in_flight: false,
        }
    }

    /// The component has no properties, so a change of them changes
    /// nothing; the screen is drawn again all the same.
    pub fn change(&mut self) -> (should_render: bool)
        ensures
            should_render,
            final(self).state() == old(self).state(),
    {
        true
    }

    /// What the client knows of its login.
    pub fn authentication_state(&self) -> (state: AuthenticationState)
        ensures
            state == self.state().authentication_state,
    {
        self.authentication_state
    }

    /// The text shown while the state is `Unknown`.
    pub fn initial_message(&self) -> (message: &str)
        ensures
            message@ == self.state().initial_message,
    {
        self.initial_message.as_str()
    }

    /// Whether a login request was sent and neither answered nor lost.
    pub fn login_in_flight(&self) -> (in_flight: bool)
        ensures
            in_flight == self.state().login_in_flight,
    {
        self.login_in_flight
    }

    /// The connection opened with a credential in the store and no
    /// request in flight; `encoded` is what encoding the login request
    /// gave.
    pub fn credential_found(&mut self, encoded: Result<Vec<u8>, EncodeError>) -> (update: Update)
        ensures
            (Step {
                after: final(self).state(),
                should_render: update.should_render,
                effect: update.effect@,
            }) == step_credential(old(self).state(), encoded_view(encoded)),
    {
        match encoded {
            Ok(bytes) => {
                self.login_in_flight = true;
                Update { should_render: false, effect: Effect::Send(bytes) }
            },
            Err(_) => {
                self.authentication_state = AuthenticationState::UnAuthenticated;
                Update { should_render: true, effect: Effect::RemoveCredential }
            },
        }
    }

    /// The server answered; `decoded` is what decoding its bytes gave.
    pub fn login_answered(&mut self, decoded: Result<Response, DecodeError>) -> (update: Update)
        ensures
            (Step {
                after: final(self).state(),
                should_render: update.should_render,
                effect: update.effect@,
            }) == step_answer(old(self).state(), answer_view(decoded)),
    {
        self.login_in_flight = false;
        match decoded {
            Ok(Response::Success(session)) => {
                self.authentication_state = AuthenticationState::Authenticated;
                Update {
                    should_render: true,
                    effect: Effect::StoreCredential(session.into_token().into_string()),
                }
            },
            _ => {
                self.authentication_state = AuthenticationState::UnAuthenticated;
                Update { should_render: true, effect: Effect::RemoveCredential }
            },
        }
    }

    /// Takes one event and says what the caller is to do.
    ///
    /// `stored` is what the credential store holds under
    /// [`SESSION_COOKIE`]; it is looked at only when the connection opens.
    pub fn update(&mut self, msg: Message, stored: Option<String>) -> (update: Update)
        ensures
            (Step {
                after: final(self).state(),
                should_render: update.should_render,
                effect: update.effect@,
            }) == step(old(self).state(), msg, credential_view(stored)),
    {
        match msg {
            Message::WebSocketConnected => {
                if self.login_in_flight {
                    return Update { should_render: false, effect: Effect::Nothing };
                }
                match stored {
                    Some(token) => {
                        let request = Request::LoginSession(Session::new(Token::from_text(token)));
                        let encoded = encode_request(&request);
                        self.credential_found(encoded)
                    },
                    None => {
                        self.authentication_state = AuthenticationState::UnAuthenticated;
                        Update { should_render: true, effect: Effect::Nothing }
                    },
                }
            },
            Message::LoginResponse(response) => {
                let decoded = decode_response(response.as_slice());
                self.login_answered(decoded)
            },
            Message::WebSocketFailure => {
                self.initial_message = String::from_str("Error loading application.");
                self.login_in_flight = false;
                Update { should_render: true, effect: Effect::Nothing }
            },
            Message::LoginRequest(_) => {
                self.initial_message = String::from_str("Error loading application.");
                Update { should_render: true, effect: Effect::Nothing }
            },
        }
    }

    /// What to show: the message while the state is `Unknown`, the content
    /// once `Authenticated`, the login form when `UnAuthenticated`.
    pub fn view(&self) -> (screen: Screen)
        ensures
            match self.state().authentication_state {
                AuthenticationState::Unknown => screen matches Screen::Loading(message)
                    && message@ == self.state().initial_message,
                AuthenticationState::Authenticated => screen is Content,
                AuthenticationState::UnAuthenticated => screen is Login,
            },
    {
        match self.authentication_state {
            AuthenticationState::Unknown => Screen::Loading(self.initial_message.clone()),
            AuthenticationState::Authenticated => Screen::Content,
            AuthenticationState::UnAuthenticated => Screen::Login,
        }
    }
}

} // verus!
