//! The boundary to `serde_cbor`.
//!
//! A login message travels as a CBOR array of text strings. Writing and
//! reading such an array is left to `serde_cbor`; the two functions at the
//! end of this file make those calls, and nothing in them is verified.
//! What the rest of the library knows of them is only that each result is
//! a function of the argument: [`cbor_encoding`] and [`cbor_parse`] name
//! those functions without saying what they compute.
use vstd::prelude::*;

verus! {

/// The four categories `serde_cbor` sorts its errors into.
#[derive(Clone, Copy, Debug, PartialEq, Eq, Structural)]
pub enum CborFault {
    /// Reading or writing bytes failed.
    Io,
    /// The input is not CBOR.
    Syntax,
    /// The input is CBOR, but not an array of text strings.
    Data,
    /// The input ends before the value does.
    Eof,
}

/// The bytes `serde_cbor::to_vec` writes for an array of text strings,
/// `None` where it reports an error.
pub uninterp spec fn cbor_encoding(texts: Seq<Seq<char>>) -> Option<Seq<u8>>;

/// What `serde_cbor::from_slice` reads from bytes when asked for an array
/// of text strings: the strings, or the category of its error.
pub uninterp spec fn cbor_parse(bytes: Seq<u8>) -> Result<Seq<Seq<char>>, CborFault>;

/// Calls `serde_cbor::to_vec` on a vector of strings.
///
/// Believed, not proved: the outcome depends on the strings alone, so it
/// is `cbor_encoding` of them. Nothing is claimed about which bytes are
/// written, nor that the call succeeds.
#[verifier::external_body]
pub(crate) fn texts_to_vec(texts: &Vec<String>) -> (r: Option<Vec<u8>>)
    ensures
        match r {
            Some(bytes) => cbor_encoding(texts.deep_view()) == Some(bytes@),
            None => cbor_encoding(texts.deep_view()) is None,
        },
{
    serde_cbor::to_vec(texts).ok()
}

/// Calls `serde_cbor::from_slice` for a vector of strings, and
/// `serde_cbor::Error::classify` on the error where there is one.
///
/// Believed, not proved: the outcome depends on the bytes alone, so it is
/// `cbor_parse` of them. Nothing is claimed about which inputs are read
/// successfully.
#[verifier::external_body]
pub(crate) fn texts_from_slice(bytes: &[u8]) -> (r: Result<Vec<String>, CborFault>)
    ensures
        match r {
            Ok(texts) => cbor_parse(bytes@) == Ok::<Seq<Seq<char>>, CborFault>(texts.deep_view()),
            Err(fault) => cbor_parse(bytes@) == Err::<Seq<Seq<char>>, CborFault>(fault),
        },
{
    match serde_cbor::from_slice::<Vec<String>>(bytes) {
        Ok(texts) => Ok(texts),
        Err(error) => Err(match error.classify() {
            serde_cbor::error::Category::Io => CborFault::Io,
            serde_cbor::error::Category::Syntax => CborFault::Syntax,
            serde_cbor::error::Category::Data => CborFault::Data,
            serde_cbor::error::Category::Eof => CborFault::Eof,
        }),
    }
}

} // verus!
