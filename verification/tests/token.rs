use webapp::token::{
    Token, TokenCreationError, TokenValidationError, STAMP_DIGITS, STAMP_KEY, STAMP_PRIME,
};

#[test]
fn create_writes_subject_dot_stamp() {
    let token = Token::create("username").unwrap();
    assert_eq!(token.as_str(), "username.a37a3bab33752a30");
    assert_eq!(Token::create("a").unwrap().as_str(), "a.eb9beba329ca3d6b");
    assert_eq!(
        Token::create("alice@example.com").unwrap().into_string(),
        "alice@example.com.68884b86f8d01f2d"
    );
}

#[test]
fn stamp_is_the_keyed_fold_of_the_subject() {
    let mut h: u64 = STAMP_KEY;
    for b in "username".bytes() {
        h = (h ^ (b as u64)).wrapping_mul(STAMP_PRIME);
    }
    let token = Token::create("username").unwrap();
    assert_eq!(token.as_str(), format!("username.{:016x}", h));
    assert_eq!(token.as_str().len(), "username".len() + 1 + STAMP_DIGITS);
}

#[test]
fn create_is_deterministic() {
    assert_eq!(Token::create("username"), Token::create("username"));
    assert_ne!(Token::create("username"), Token::create("usernamf"));
}

#[test]
fn create_refuses_an_invalid_subject() {
    assert_eq!(Token::create(""), Err(TokenCreationError::InvalidSubject));
    assert_eq!(Token::create("two words"), Err(TokenCreationError::InvalidSubject));
    assert_eq!(Token::create("na\u{ef}ve"), Err(TokenCreationError::InvalidSubject));
    assert_eq!(Token::create("tab\there"), Err(TokenCreationError::InvalidSubject));
    assert_eq!(Token::create("del\u{7f}"), Err(TokenCreationError::InvalidSubject));
}

#[test]
fn create_accepts_the_whole_visible_range() {
    assert!(Token::create("!").is_ok());
    assert!(Token::create("~").is_ok());
    assert!(Token::create("a.b.c").is_ok());
}

#[test]
fn validate_returns_the_subject_of_a_created_token() {
    for subject in ["username", "a", "alice@example.com", "a.b.c", "!", "~", "0123456789abcdef"] {
        let token = Token::create(subject).unwrap();
        assert_eq!(Token::validate(token.as_str()), Ok(subject.to_string()));
    }
}

#[test]
fn validate_accepts_a_token_written_by_hand() {
    assert_eq!(
        Token::validate("username.a37a3bab33752a30"),
        Ok("username".to_string())
    );
}

#[test]
fn validate_calls_a_bare_word_invalid() {
    assert_eq!(Token::validate("wrong"), Err(TokenValidationError::Invalid));
    assert_eq!(Token::validate("username"), Err(TokenValidationError::Invalid));
    assert_eq!(Token::validate("."), Err(TokenValidationError::Invalid));
}

#[test]
fn validate_calls_a_wrong_stamp_invalid() {
    assert_eq!(
        Token::validate("username.a37a3bab33752a31"),
        Err(TokenValidationError::Invalid)
    );
    assert_eq!(
        Token::validate("usernamf.a37a3bab33752a30"),
        Err(TokenValidationError::Invalid)
    );
    assert_eq!(
        Token::validate("username.A37A3BAB33752A30"),
        Err(TokenValidationError::Invalid)
    );
    assert_eq!(
        Token::validate("username-a37a3bab33752a30"),
        Err(TokenValidationError::Invalid)
    );
    assert_eq!(
        Token::validate("username.a37a3bab33752a3"),
        Err(TokenValidationError::Invalid)
    );
}

#[test]
fn validate_calls_a_stamp_without_subject_invalid() {
    // Seventeen characters: a dot and the stamp of the empty subject.
    let text = format!(".{:016x}", STAMP_KEY);
    assert_eq!(Token::validate(&text), Err(TokenValidationError::Invalid));
}

#[test]
fn validate_calls_foreign_characters_malformed() {
    assert_eq!(Token::validate(""), Err(TokenValidationError::Malformed));
    assert_eq!(Token::validate("not a token"), Err(TokenValidationError::Malformed));
    assert_eq!(
        Token::validate("user name.a37a3bab33752a30"),
        Err(TokenValidationError::Malformed)
    );
    assert_eq!(Token::validate("t\u{f6}ken"), Err(TokenValidationError::Malformed));
    assert_eq!(Token::validate("line\n"), Err(TokenValidationError::Malformed));
}

#[test]
fn from_text_keeps_the_text() {
    let token = Token::from_text("wrong".to_string());
    assert_eq!(token.as_str(), "wrong");
    assert_eq!(token.into_string(), "wrong".to_string());
}
