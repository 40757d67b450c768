//! Stamped session tokens.
//!
//! A token is the subject it was issued for, a dot, and sixteen lower-case
//! hexadecimal digits: the stamp of the subject under the key of this
//! library. Nothing else is needed to check one, so validation keeps no
//! table of issued tokens.
//!
//! The stamp is a keyed 64-bit checksum in the style of FNV-1a. It ties a
//! token to its subject and catches damaged or invented credentials; it is
//! not a cryptographic signature.
use vstd::prelude::*;
use vstd::string::*;

verus! {

/// Key the stamp starts from.
pub const STAMP_KEY: u64 = 0x6a09_e667_f3bc_c908;

/// Multiplier of one stamping step.
pub const STAMP_PRIME: u64 = 0x0000_0100_0000_01b3;

/// Number of hexadecimal digits a stamp is written with.
pub const STAMP_DIGITS: usize = 16;

/// Why no token could be issued.
#[derive(Clone, Copy, Debug, PartialEq, Eq, Structural)]
pub enum TokenCreationError {
    /// The subject is empty or holds a character no token can carry.
    InvalidSubject,
}

/// Why a candidate was not accepted as a token.
#[derive(Clone, Copy, Debug, PartialEq, Eq, Structural)]
pub enum TokenValidationError {
    /// The candidate is empty or holds a character no token can carry.
    Malformed,
    /// The candidate reads as token text but is not a subject with its stamp.
    Invalid,
}

/// The characters a token is written in: visible ASCII, `!` to `~`.
pub open spec fn is_token_char(c: char) -> bool {
    '!' <= c <= '~'
}

/// Every character of `s` can stand in a token.
pub open spec fn token_chars(s: Seq<char>) -> bool {
    forall|i: int| 0 <= i < s.len() ==> is_token_char(#[trigger] s[i])
}

/// A subject a token can be issued for: not empty, token characters only.
pub open spec fn valid_subject(s: Seq<char>) -> bool {
    s.len() > 0 && token_chars(s)
}

/// One stamping step: fold the character into the running stamp.
pub open spec fn stamp_step(h: u64, c: char) -> u64 {
    (h ^ (c as u64)).wrapping_mul(STAMP_PRIME)
}

/// The stamp of a subject: the key, folded over the characters from the left.
pub open spec fn stamp_of(s: Seq<char>) -> u64
    decreases s.len(),
{
    if s.len() == 0 {
        STAMP_KEY
    } else {
        stamp_step(stamp_of(s.drop_last()), s.last())
    }
}

/// The hexadecimal digits, in order of their value.
pub open spec fn hex_alphabet() -> Seq<char> {
    "0123456789abcdef"@
}

/// Digit `i` of a stamp, counted from the most significant.
pub open spec fn stamp_digit(h: u64, i: int) -> char {
    hex_alphabet()[((h >> ((60 - 4 * i) as u64)) & 0xf) as int]
}

/// A stamp as it is written in a token.
pub open spec fn stamp_digits(h: u64) -> Seq<char> {
    Seq::new(STAMP_DIGITS as nat, |i: int| stamp_digit(h, i))
}

/// The token issued for a subject.
pub open spec fn token_text(subject: Seq<char>) -> Seq<char> {
    subject + seq!['.'] + stamp_digits(stamp_of(subject))
}

/// The part of a candidate that stands where a token has its subject.
pub open spec fn subject_of(candidate: Seq<char>) -> Seq<char> {
    candidate.subrange(0, candidate.len() - STAMP_DIGITS - 1)
}

/// The candidate is a subject followed by that subject's own stamp.
pub open spec fn authentic(candidate: Seq<char>) -> bool {
    candidate.len() >= STAMP_DIGITS + 2 && candidate == token_text(subject_of(candidate))
}

/// What validating a candidate yields.
pub open spec fn validation(candidate: Seq<char>) -> Result<Seq<char>, TokenValidationError> {
    if candidate.len() == 0 || !token_chars(candidate) {
        Err(TokenValidationError::Malformed)
    } else if !authentic(candidate) {
        Err(TokenValidationError::Invalid)
    } else {
        Ok(subject_of(candidate))
    }
}

/// The sixteen hexadecimal digits are token characters.
pub proof fn lemma_hex_alphabet()
    ensures
        hex_alphabet().len() == 16,
        token_chars(hex_alphabet()),
{
    reveal_strlit("0123456789abcdef");
}

/// A stamp is written in sixteen token characters.
pub proof fn lemma_stamp_digits(h: u64)
    ensures
        stamp_digits(h).len() == STAMP_DIGITS,
        token_chars(stamp_digits(h)),
{
    lemma_hex_alphabet();
    assert forall|i: int| 0 <= i < stamp_digits(h).len() implies is_token_char(
        #[trigger] stamp_digits(h)[i],
    ) by {
        let shift = (60 - 4 * i) as u64;
        assert(((h >> shift) & 0xf) < 16) by (bit_vector);
    }
}

/// The token issued for a valid subject is accepted, and validating it
/// gives the subject back.
pub proof fn lemma_issued_token_validates(subject: Seq<char>)
    requires
        valid_subject(subject),
    ensures
        validation(token_text(subject)) == Ok::<Seq<char>, TokenValidationError>(subject),
{
    let text = token_text(subject);
    lemma_stamp_digits(stamp_of(subject));
    assert(subject_of(text) =~= subject);
    assert(token_chars(text));
}

/// Whatever is accepted is the token issued for the subject it names,
/// and that subject is valid.
pub proof fn lemma_accepted_is_issued(candidate: Seq<char>)
    requires
        validation(candidate) is Ok,
    ensures
        valid_subject(subject_of(candidate)),
        candidate == token_text(subject_of(candidate)),
{
    let subject = subject_of(candidate);
    assert forall|i: int| 0 <= i < subject.len() implies is_token_char(#[trigger] subject[i]) by {
        assert(subject[i] == candidate[i]);
    }
}

/// A credential as presented: the text of a token, checked or not.
#[derive(Clone, Debug, PartialEq, Eq)]
pub struct Token {
    text: String,
}

impl View for Token {
    type V = Seq<char>;

    closed spec fn view(&self) -> Seq<char> {
        self.text@
    }
}

/// True when `s` is not empty and written in token characters only.
fn is_token_text(s: &str) -> (b: bool)
    ensures
        b == (s@.len() > 0 && token_chars(s@)),
        b ==> is_ascii(s),
{
    if !s.is_ascii() {
        proof {
            let i = choose|i: int| 0 <= i < s@.len() && !('\0' <= #[trigger] s@[i] <= '\u{7f}');
            assert(!is_token_char(s@[i]));
        }
        return false;
    }
    let n: usize = s.unicode_len();
    if n == 0 {
        return false;
    }
    let mut i: usize = 0;
    while i < n
        invariant
            i <= n,
            n == s@.len(),
            is_ascii(s),
            forall|j: int| 0 <= j < i ==> is_token_char(#[trigger] s@[j]),
        decreases n - i,
    {
        let b: u8 = s.get_ascii(i);
        if b < 0x21 || b > 0x7e {
            assert(!is_token_char(s@[i as int]));
            return false;
        }
        i += 1;
    }
    true
}

/// The stamp of an ASCII subject.
fn stamp(subject: &str) -> (h: u64)
    requires
        is_ascii(subject),
    ensures
        h == stamp_of(subject@),
{
    let n: usize = subject.unicode_len();
    let mut h: u64 = STAMP_KEY;
    let mut i: usize = 0;
    assert(subject@.subrange(0, 0) =~= Seq::<char>::empty());
    while i < n
        invariant
            i <= n,
            n == subject@.len(),
            is_ascii(subject),
            h == stamp_of(subject@.subrange(0, i as int)),
        decreases n - i,
    {
        let b: u8 = subject.get_ascii(i);
        proof {
            let next = subject@.subrange(0, i + 1);
            assert(next.drop_last() =~= subject@.subrange(0, i as int));
            assert(next.last() == subject@[i as int]);
            assert(b as u64 == subject@[i as int] as u64);
        }
        h = (h ^ (b as u64)).wrapping_mul(STAMP_PRIME);
        i += 1;
    }
    assert(subject@.subrange(0, n as int) =~= subject@);
    h
}

/// A stamp written out in hexadecimal digits.
fn stamp_text(h: u64) -> (s: String)
    ensures
        s@ == stamp_digits(h),
{
    let alphabet: &str = "0123456789abcdef";
    proof {
        reveal_strlit("0123456789abcdef");
    }
    let mut s: String = String::new();
    let mut i: u64 = 0;
    while i < 16
        invariant
            i <= 16,
            alphabet@ == hex_alphabet(),
            alphabet@.len() == 16,
            is_ascii(alphabet),
            s@.len() == i,
            forall|j: int| 0 <= j < i ==> s@[j] == stamp_digit(h, j),
        decreases 16 - i,
    {
        let shift: u64 = 60 - 4 * i;
        let d: u64 = (h >> shift) & 0xf;
        assert(d < 16) by (bit_vector)
            requires
                d == (h >> shift) & 0xf,
        ;
        let digit: &str = alphabet.substring_ascii(d as usize, d as usize + 1);
        assert(digit@ =~= seq![stamp_digit(h, i as int)]);
        s.append(digit);
        i += 1;
    }
    assert(s@ =~= stamp_digits(h));
    s
}

/// The token text for an ASCII subject.
fn issue(subject: &str) -> (text: String)
    requires
        is_ascii(subject),
    ensures
        text@ == token_text(subject@),
{
    let mut text: String = String::from_str(subject);
    proof {
        reveal_strlit(".");
    }
    text.append(".");
    let digits: String = stamp_text(stamp(subject));
    text.append(digits.as_str());
    assert(text@ =~= token_text(subject@));
    text
}

impl Token {
    /// Issues the token for `subject`.
    ///
    /// Issuing is deterministic: the same subject always gets the same token.
    /// It fails exactly when the subject is empty or holds a character
    /// outside `!` to `~`.
    pub fn create(subject: &str) -> (r: Result<Token, TokenCreationError>)
        ensures
            match r {
                Ok(token) => valid_subject(subject@) && token@ == token_text(subject@),
                Err(e) => !valid_subject(subject@) && e == TokenCreationError::InvalidSubject,
            },
    {
        if !is_token_text(subject) {
            return Err(TokenCreationError::InvalidSubject);
        }
        Ok(Token { text: issue(subject) })
    }

    /// Checks a candidate and returns the subject it was issued for.
    ///
    /// `Malformed` is for text that cannot be token text at all, `Invalid`
    /// for token text that is not a subject with that subject's stamp: a
    /// bare word, a damaged token, a stamp made for another subject.
    pub fn validate(candidate: &str) -> (r: Result<String, TokenValidationError>)
        ensures
            match r {
                Ok(subject) => validation(candidate@) == Ok::<Seq<char>, TokenValidationError>(
                    subject@,
                ),
                Err(e) => validation(candidate@) == Err::<Seq<char>, TokenValidationError>(e),
            },
    {
        if !is_token_text(candidate) {
            return Err(TokenValidationError::Malformed);
        }
        let n: usize = candidate.unicode_len();
        if n < STAMP_DIGITS + 2 {
            return Err(TokenValidationError::Invalid);
        }
        let subject: &str = candidate.substring_ascii(0, n - STAMP_DIGITS - 1);
        let expected: String = issue(subject);
        let presented: String = String::from_str(candidate);
        if expected == presented {
            Ok(String::from_str(subject))
        } else {
            Err(TokenValidationError::Invalid)
        }
    }

    /// Wraps presented text without checking it.
    pub fn from_text(text: String) -> (token: Token)
        ensures
            token@ == text@,
    {
        Token { text }
    }

    /// The text of the token.
    pub fn as_str(&self) -> (text: &str)
        ensures
            text@ == self@,
    {
        self.text.as_str()
    }

    /// Gives up the token for its text.
    pub fn into_string(self) -> (text: String)
        ensures
            text@ == self@,
    {
        self.text
    }
}

} // verus!
