//! Session-token authentication between a browser client and its server.
//!
//! * [`token`] issues and validates the stamped credential a session rests on.
//! * [`protocol`] holds the session record, the login messages and their
//!   CBOR wire form.
//! * [`login_session`] is the server side: one request body in, one reply out.
//! * [`root`] is the client side: the state machine that reacts to the
//!   connection and to login responses.
//! * [`exchange`] states what holds of a whole login, all sides together.
//!
//! Everything here is pure: the transport, the credential store and the
//! rendering live with the caller, which feeds events in and carries the
//! requested effects out.
pub mod cbor;
pub mod exchange;
pub mod login_session;
pub mod protocol;
pub mod root;
pub mod token;
