//! The session record, the login messages, and their wire form.
//!
//! On the wire a message is a CBOR array of text strings: the name of the
//! variant first, then what the variant carries.
//!
//! | message                     | array                       |
//! |-----------------------------|-----------------------------|
//! | `Request::LoginSession(s)`  | `["LoginSession", token]`   |
//! | `Response::Success(s)`      | `["Success", token]`        |
//! | `Response::Failure`         | `["Failure"]`               |
//!
//! Both directions check themselves against the other. The encoder reads
//! its bytes back and hands them out only if they give the same strings;
//! the decoder writes the strings it read and accepts the input only if it
//! gets the same bytes. So the accepted inputs are exactly the outputs of
//! the encoder, one byte string for each message.
use vstd::prelude::*;
use vstd::string::*;
use crate::cbor::{cbor_encoding, cbor_parse, texts_from_slice, texts_to_vec, CborFault};
use crate::token::Token;

verus! {

/// One authenticated context: a token and nothing besides.
#[derive(Clone, Debug, PartialEq, Eq)]
pub struct Session {
    token: Token,
}

impl View for Session {
    type V = Seq<char>;

    closed spec fn view(&self) -> Seq<char> {
        self.token@
    }
}

impl Session {
    /// Wraps a token. This cannot fail: whether the session is any good is
    /// the token's matter.
    pub fn new(token: Token) -> (session: Session)
        ensures
            session@ == token@,
    {
        Session { token }
    }

    /// The token of the session.
    pub fn token(&self) -> (token: &Token)
        ensures
            token@ == self@,
    {
        &self.token
    }

    /// Gives up the session for its token.
    pub fn into_token(self) -> (token: Token)
        ensures
            token@ == self@,
    {
        self.token
    }
}

/// What a client asks of the server.
#[derive(Clone, Debug, PartialEq, Eq)]
pub enum Request {
    /// Authenticate me with this session.
    LoginSession(Session),
}

/// What the server answers to a login.
#[derive(Clone, Debug, PartialEq, Eq)]
pub enum Response {
    /// The login stands; this is the confirmed session.
    Success(Session),
    /// The login was turned down.
    Failure,
}

/// A request as a mathematical value.
pub enum RequestView {
    LoginSession(Seq<char>),
}

/// A response as a mathematical value.
pub enum ResponseView {
    Success(Seq<char>),
    Failure,
}

impl View for Request {
    type V = RequestView;

    open spec fn view(&self) -> RequestView {
        match self {
            Request::LoginSession(session) => RequestView::LoginSession(session@),
        }
    }
}

impl View for Response {
    type V = ResponseView;

    open spec fn view(&self) -> ResponseView {
        match self {
            Response::Success(session) => ResponseView::Success(session@),
            Response::Failure => ResponseView::Failure,
        }
    }
}

/// Why bytes were not accepted as a message.
#[derive(Clone, Copy, Debug, PartialEq, Eq, Structural)]
pub enum DecodeError {
    /// The input ends before the message does.
    Truncated,
    /// The input is not an array of text strings in the form the encoder
    /// writes, or the array has the wrong number of strings for its variant.
    TypeMismatch,
    /// The array names a variant this kind of message does not have.
    UnknownVariant,
}

/// Why a message was not written.
#[derive(Clone, Copy, Debug, PartialEq, Eq, Structural)]
pub enum EncodeError {
    /// The CBOR writer gave no bytes for the message, or bytes that do not
    /// read back as the message.
    Unencodable,
}

/// The strings a request is written as.
pub open spec fn request_texts(m: RequestView) -> Seq<Seq<char>> {
    match m {
        RequestView::LoginSession(token) => seq!["LoginSession"@, token],
    }
}

/// The strings a response is written as.
pub open spec fn response_texts(m: ResponseView) -> Seq<Seq<char>> {
    match m {
        ResponseView::Success(token) => seq!["Success"@, token],
        ResponseView::Failure => seq!["Failure"@],
    }
}

/// The request an array of strings stands for.
pub open spec fn request_of_texts(texts: Seq<Seq<char>>) -> Result<RequestView, DecodeError> {
    if texts.len() == 0 {
        Err(DecodeError::TypeMismatch)
    } else if texts[0] != "LoginSession"@ {
        Err(DecodeError::UnknownVariant)
    } else if texts.len() != 2 {
        Err(DecodeError::TypeMismatch)
    } else {
        Ok(RequestView::LoginSession(texts[1]))
    }
}

/// The response an array of strings stands for.
pub open spec fn response_of_texts(texts: Seq<Seq<char>>) -> Result<ResponseView, DecodeError> {
    if texts.len() == 0 {
        Err(DecodeError::TypeMismatch)
    } else if texts[0] == "Success"@ {
        if texts.len() == 2 {
            Ok(ResponseView::Success(texts[1]))
        } else {
            Err(DecodeError::TypeMismatch)
        }
    } else if texts[0] == "Failure"@ {
        if texts.len() == 1 {
            Ok(ResponseView::Failure)
        } else {
            Err(DecodeError::TypeMismatch)
        }
    } else {
        Err(DecodeError::UnknownVariant)
    }
}

/// The decode error a fault of the CBOR reader is reported as.
pub open spec fn fault_error(fault: CborFault) -> DecodeError {
    match fault {
        CborFault::Eof => DecodeError::Truncated,
        _ => DecodeError::TypeMismatch,
    }
}

/// The bytes an array of strings is sent as: what the CBOR writer gives,
/// provided the CBOR reader gets the same strings back from it.
pub open spec fn encoding_of(texts: Seq<Seq<char>>) -> Result<Seq<u8>, EncodeError> {
    match cbor_encoding(texts) {
        Some(bytes) if cbor_parse(bytes) == Ok::<Seq<Seq<char>>, CborFault>(texts) => Ok(bytes),
        _ => Err(EncodeError::Unencodable),
    }
}

/// The strings received bytes are taken for: what the CBOR reader gives,
/// provided the CBOR writer gives the same bytes back for them.
pub open spec fn texts_of(bytes: Seq<u8>) -> Result<Seq<Seq<char>>, DecodeError> {
    match cbor_parse(bytes) {
        Err(fault) => Err(fault_error(fault)),
        Ok(texts) => if cbor_encoding(texts) == Some(bytes) {
            Ok(texts)
        } else {
            Err(DecodeError::TypeMismatch)
        },
    }
}

/// What encoding a request yields.
pub open spec fn encoded_request(m: RequestView) -> Result<Seq<u8>, EncodeError> {
    encoding_of(request_texts(m))
}

/// What encoding a response yields.
pub open spec fn encoded_response(m: ResponseView) -> Result<Seq<u8>, EncodeError> {
    encoding_of(response_texts(m))
}

/// What decoding bytes as a request yields.
pub open spec fn decoded_request(bytes: Seq<u8>) -> Result<RequestView, DecodeError> {
    match texts_of(bytes) {
        Err(e) => Err(e),
        Ok(texts) => request_of_texts(texts),
    }
}

/// What decoding bytes as a response yields.
pub open spec fn decoded_response(bytes: Seq<u8>) -> Result<ResponseView, DecodeError> {
    match texts_of(bytes) {
        Err(e) => Err(e),
        Ok(texts) => response_of_texts(texts),
    }
}

/// The three variant names differ from one another.
pub proof fn lemma_variant_names()
    ensures
        "LoginSession"@ != "Success"@,
        "LoginSession"@ != "Failure"@,
        "Success"@ != "Failure"@,
{
    reveal_strlit("LoginSession");
    reveal_strlit("Success");
    reveal_strlit("Failure");
    assert("Success"@[0] != "Failure"@[0]);
}

/// A request is recovered from the strings it is written as, and no other
/// strings stand for it.
pub proof fn lemma_request_texts(m: RequestView, texts: Seq<Seq<char>>)
    ensures
        request_of_texts(request_texts(m)) == Ok::<RequestView, DecodeError>(m),
        request_of_texts(texts) == Ok::<RequestView, DecodeError>(m) ==> texts == request_texts(m),
{
    if request_of_texts(texts) == Ok::<RequestView, DecodeError>(m) {
        assert(texts =~= request_texts(m));
    }
}

/// A response is recovered from the strings it is written as, and no
/// other strings stand for it.
pub proof fn lemma_response_texts(m: ResponseView, texts: Seq<Seq<char>>)
    ensures
        response_of_texts(response_texts(m)) == Ok::<ResponseView, DecodeError>(m),
        response_of_texts(texts) == Ok::<ResponseView, DecodeError>(m) ==> texts
            == response_texts(m),
{
    lemma_variant_names();
    if response_of_texts(texts) == Ok::<ResponseView, DecodeError>(m) {
        assert(texts =~= response_texts(m));
    }
}

/// Whenever a request is encoded, decoding the bytes gives the request
/// back.
pub proof fn lemma_request_round_trip(m: RequestView, bytes: Seq<u8>)
    requires
        encoded_request(m) == Ok::<Seq<u8>, EncodeError>(bytes),
    ensures
        decoded_request(bytes) == Ok::<RequestView, DecodeError>(m),
{
    lemma_request_texts(m, request_texts(m));
}

/// Whenever a response is encoded, decoding the bytes gives the response
/// back.
pub proof fn lemma_response_round_trip(m: ResponseView, bytes: Seq<u8>)
    requires
        encoded_response(m) == Ok::<Seq<u8>, EncodeError>(bytes),
    ensures
        decoded_response(bytes) == Ok::<ResponseView, DecodeError>(m),
{
    lemma_response_texts(m, response_texts(m));
}

/// Bytes that are not the encoding of any request are not decoded as one:
/// whatever decodes to a request is that request's encoding.
pub proof fn lemma_request_only_encodings_decode(bytes: Seq<u8>)
    ensures
        decoded_request(bytes) matches Ok(m) ==> encoded_request(m) == Ok::<Seq<u8>, EncodeError>(
            bytes,
        ),
        (forall|m: RequestView| encoded_request(m) != Ok::<Seq<u8>, EncodeError>(bytes))
            ==> decoded_request(bytes) is Err,
{
    if let Ok(m) = decoded_request(bytes) {
        lemma_request_texts(m, texts_of(bytes)->Ok_0);
    }
}

/// Bytes that are not the encoding of any response are not decoded as
/// one: whatever decodes to a response is that response's encoding.
pub proof fn lemma_response_only_encodings_decode(bytes: Seq<u8>)
    ensures
        decoded_response(bytes) matches Ok(m) ==> encoded_response(m) == Ok::<
            Seq<u8>,
            EncodeError,
        >(bytes),
        (forall|m: ResponseView| encoded_response(m) != Ok::<Seq<u8>, EncodeError>(bytes))
            ==> decoded_response(bytes) is Err,
{
    if let Ok(m) = decoded_response(bytes) {
        lemma_response_texts(m, texts_of(bytes)->Ok_0);
    }
}

/// True when the two vectors hold the same strings in the same order.
fn same_texts(a: &Vec<String>, b: &Vec<String>) -> (same: bool)
    ensures
        same == (a.deep_view() == b.deep_view()),
{
    if a.len() != b.len() {
        assert(a.deep_view().len() != b.deep_view().len());
        return false;
    }
    let mut i: usize = 0;
    while i < a.len()
        invariant
            i <= a.len(),
            a.len() == b.len(),
            forall|j: int| 0 <= j < i ==> a[j]@ == b[j]@,
        decreases a.len() - i,
    {
        if !(a[i] == b[i]) {
            assert(a.deep_view()[i as int] != b.deep_view()[i as int]);
            return false;
        }
        i += 1;
    }
    assert(a.deep_view() =~= b.deep_view());
    true
}

/// True when the vector holds exactly the bytes of the slice.
fn same_bytes(a: &Vec<u8>, b: &[u8]) -> (same: bool)
    ensures
        same == (a@ == b@),
{
    if a.len() != b.len() {
        return false;
    }
    let mut i: usize = 0;
    while i < a.len()
        invariant
            i <= a.len(),
            a.len() == b.len(),
            forall|j: int| 0 <= j < i ==> a[j] == b[j],
        decreases a.len() - i,
    {
        if a[i] != b[i] {
            return false;
        }
        i += 1;
    }
    assert(a@ =~= b@);
    true
}

/// The CBOR reader gave exactly these strings.
pub open spec fn reads_back_as(
    read_back: Result<Vec<String>, CborFault>,
    texts: Seq<Seq<char>>,
) -> bool {
    read_back matches Ok(read) && read.deep_view() == texts
}

/// The CBOR writer gave exactly these bytes.
pub open spec fn rewritten_as(rewritten: Option<Vec<u8>>, bytes: Seq<u8>) -> bool {
    rewritten matches Some(written) && written@ == bytes
}

/// The decode error a fault of the CBOR reader is reported as: running
/// out of input is `Truncated`, everything else a `TypeMismatch`.
pub fn fault_to_error(fault: CborFault) -> (e: DecodeError)
    ensures
        e == fault_error(fault),
{
    match fault {
        CborFault::Eof => DecodeError::Truncated,
        _ => DecodeError::TypeMismatch,
    }
}

/// Settles an encoding. `written` is what the CBOR writer gave for
/// `texts`, `read_back` what the CBOR reader made of `written`. The bytes
/// are handed out if they read back as the same strings, and refused if
/// not.
pub fn confirm_encoding(
    texts: &Vec<String>,
    written: Vec<u8>,
    read_back: Result<Vec<String>, CborFault>,
) -> (r: Result<Vec<u8>, EncodeError>)
    ensures
        match r {
            Ok(bytes) => bytes@ == written@ && reads_back_as(read_back, texts.deep_view()),
            Err(e) => e == EncodeError::Unencodable && !reads_back_as(
                read_back,
                texts.deep_view(),
            ),
        },
{
    match read_back {
        Ok(read) => {
            if same_texts(&read, texts) {
                Ok(written)
            } else {
                Err(EncodeError::Unencodable)
            }
        },
        Err(_) => Err(EncodeError::Unencodable),
    }
}

/// Settles a decoding. `read` is what the CBOR reader made of `bytes`,
/// `rewritten` what the CBOR writer gave for `read`. The strings are
/// accepted if they are written as the very bytes received, and refused
/// as a `TypeMismatch` if not.
pub fn confirm_decoding(bytes: &[u8], read: Vec<String>, rewritten: Option<Vec<u8>>) -> (r: Result<
    Vec<String>,
    DecodeError,
>)
    ensures
        match r {
            Ok(texts) => texts.deep_view() == read.deep_view() && rewritten_as(rewritten, bytes@),
            Err(e) => e == DecodeError::TypeMismatch && !rewritten_as(rewritten, bytes@),
        },
{
    match rewritten {
        Some(w) => {
            if same_bytes(&w, bytes) {
                Ok(read)
            } else {
                Err(DecodeError::TypeMismatch)
            }
        },
        None => Err(DecodeError::TypeMismatch),
    }
}

/// Writes an array of strings and reads it back before handing it out.
fn encode_texts(texts: &Vec<String>) -> (r: Result<Vec<u8>, EncodeError>)
    ensures
        match r {
            Ok(bytes) => encoding_of(texts.deep_view()) == Ok::<Seq<u8>, EncodeError>(bytes@),
            Err(e) => encoding_of(texts.deep_view()) == Err::<Seq<u8>, EncodeError>(e),
        },
{
    match texts_to_vec(texts) {
        None => Err(EncodeError::Unencodable),
        Some(written) => {
            let read_back = texts_from_slice(written.as_slice());
            confirm_encoding(texts, written, read_back)
        },
    }
}

/// Reads an array of strings and writes it again before accepting it.
fn decode_texts(bytes: &[u8]) -> (r: Result<Vec<String>, DecodeError>)
    ensures
        match r {
            Ok(texts) => texts_of(bytes@) == Ok::<Seq<Seq<char>>, DecodeError>(texts.deep_view()),
            Err(e) => texts_of(bytes@) == Err::<Seq<Seq<char>>, DecodeError>(e),
        },
{
    match texts_from_slice(bytes) {
        Err(fault) => Err(fault_to_error(fault)),
        Ok(read) => {
            let rewritten = texts_to_vec(&read);
            confirm_decoding(bytes, read, rewritten)
        },
    }
}

/// The strings a request is written as.
pub fn request_to_texts(m: &Request) -> (texts: Vec<String>)
    ensures
        texts.deep_view() == request_texts(m@),
{
    let mut texts: Vec<String> = Vec::new();
    match m {
        Request::LoginSession(session) => {
            texts.push(String::from_str("LoginSession"));
            texts.push(String::from_str(session.token().as_str()));
        },
    }
    assert(texts.deep_view() =~= request_texts(m@));
    texts
}

/// The strings a response is written as.
pub fn response_to_texts(m: &Response) -> (texts: Vec<String>)
    ensures
        texts.deep_view() == response_texts(m@),
{
    let mut texts: Vec<String> = Vec::new();
    match m {
        Response::Success(session) => {
            texts.push(String::from_str("Success"));
            texts.push(String::from_str(session.token().as_str()));
        },
        Response::Failure => {
            texts.push(String::from_str("Failure"));
        },
    }
    assert(texts.deep_view() =~= response_texts(m@));
    texts
}

/// The request an array of strings stands for.
///
/// An empty array is a `TypeMismatch`; a first string other than
/// `LoginSession` is an `UnknownVariant`; `LoginSession` with anything but
/// one string after it is a `TypeMismatch`.
pub fn request_from_texts(texts: &Vec<String>) -> (r: Result<Request, DecodeError>)
    ensures
        match r {
            Ok(m) => request_of_texts(texts.deep_view()) == Ok::<RequestView, DecodeError>(m@),
            Err(e) => request_of_texts(texts.deep_view()) == Err::<RequestView, DecodeError>(e),
        },
{
    if texts.len() == 0 {
        return Err(DecodeError::TypeMismatch);
    }
    let name: String = String::from_str("LoginSession");
    if !(texts[0] == name) {
        return Err(DecodeError::UnknownVariant);
    }
    if texts.len() != 2 {
        return Err(DecodeError::TypeMismatch);
    }
    Ok(Request::LoginSession(Session::new(Token::from_text(texts[1].clone()))))
}

/// The response an array of strings stands for.
///
/// An empty array is a `TypeMismatch`; `Success` takes one string after
/// it and `Failure` none, and any other count is a `TypeMismatch`; any
/// other first string is an `UnknownVariant`.
pub fn response_from_texts(texts: &Vec<String>) -> (r: Result<Response, DecodeError>)
    ensures
        match r {
            Ok(m) => response_of_texts(texts.deep_view()) == Ok::<ResponseView, DecodeError>(m@),
            Err(e) => response_of_texts(texts.deep_view()) == Err::<ResponseView, DecodeError>(e),
        },
{
    if texts.len() == 0 {
        return Err(DecodeError::TypeMismatch);
    }
    let success: String = String::from_str("Success");
    let failure: String = String::from_str("Failure");
    if texts[0] == success {
        if texts.len() == 2 {
            Ok(Response::Success(Session::new(Token::from_text(texts[1].clone()))))
        } else {
            Err(DecodeError::TypeMismatch)
        }
    } else if texts[0] == failure {
        if texts.len() == 1 {
            Ok(Response::Failure)
        } else {
            Err(DecodeError::TypeMismatch)
        }
    } else {
        Err(DecodeError::UnknownVariant)
    }
}

/// Encodes a request for the wire.
///
/// The bytes are those the CBOR writer gives for the strings of the
/// request, and they are handed out only after the CBOR reader has got the
/// same strings back from them.
pub fn encode_request(m: &Request) -> (r: Result<Vec<u8>, EncodeError>)
    ensures
        match r {
            Ok(bytes) => encoded_request(m@) == Ok::<Seq<u8>, EncodeError>(bytes@),
            Err(e) => encoded_request(m@) == Err::<Seq<u8>, EncodeError>(e),
        },
{
    let texts: Vec<String> = request_to_texts(m);
    encode_texts(&texts)
}

/// Encodes a response for the wire, in the same way as a request.
pub fn encode_response(m: &Response) -> (r: Result<Vec<u8>, EncodeError>)
    ensures
        match r {
            Ok(bytes) => encoded_response(m@) == Ok::<Seq<u8>, EncodeError>(bytes@),
            Err(e) => encoded_response(m@) == Err::<Seq<u8>, EncodeError>(e),
        },
{
    let texts: Vec<String> = response_to_texts(m);
    encode_texts(&texts)
}

/// Decodes a request from the wire.
///
/// `Truncated` when the CBOR reader ran out of input; `TypeMismatch` when
/// it failed otherwise, when the input is not what the writer gives for
/// the strings read, or when the count of strings is wrong;
/// `UnknownVariant` when the first string is not `LoginSession`.
pub fn decode_request(bytes: &[u8]) -> (r: Result<Request, DecodeError>)
    ensures
        match r {
            Ok(m) => decoded_request(bytes@) == Ok::<RequestView, DecodeError>(m@),
            Err(e) => decoded_request(bytes@) == Err::<RequestView, DecodeError>(e),
        },
{
    match decode_texts(bytes) {
        Err(e) => Err(e),
        Ok(texts) => request_from_texts(&texts),
    }
}

/// Decodes a response from the wire, in the same way as a request.
pub fn decode_response(bytes: &[u8]) -> (r: Result<Response, DecodeError>)
    ensures
        match r {
            Ok(m) => decoded_response(bytes@) == Ok::<ResponseView, DecodeError>(m@),
            Err(e) => decoded_response(bytes@) == Err::<ResponseView, DecodeError>(e),
        },
{
    match decode_texts(bytes) {
        Err(e) => Err(e),
        Ok(texts) => response_from_texts(&texts),
    }
}

} // verus!
