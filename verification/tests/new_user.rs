use makrust::domain::new_user::{NewUser, NewUserError, Password, PasswordError, UserEmail, Username};

#[test]
fn a_50_characters_username_is_valid() {
    let name = "a".repeat(50);
    assert!(Username::parse(name).is_ok());
}

#[test]
fn a_username_bigger_than_50_characters_is_not_valid() {
    let name = "a".repeat(51);
    assert!(Username::parse(name).is_err())
}

#[test]
fn whitespace_username_is_not_valid() {
    let name = " ".to_string();
    assert!(Username::parse(name).is_err())
}

#[test]
fn empty_string_is_not_valid() {
    let name = "".to_string();
    assert!(Username::parse(name).is_err())
}

#[test]
fn username_with_forbidden_characters_is_not_valid() {
    let name = "jonager@".to_string();
    assert!(Username::parse(name).is_err())
}

#[test]
fn username_with_space_is_not_valid() {
    let name = "thaichess master".to_string();
    assert!(Username::parse(name).is_err())
}

#[test]
fn valid_username_is_parsed_successfully() {
    let name = "thaiChessMaster27".to_string();
    assert!(Username::parse(name).is_ok())
}

#[test]
fn valid_emails_are_parsed_sucessfully() {
    let valid_emails: Vec<&str> = vec![
        "email@example.com",
        "firstname.lastname@example.com",
        "email@subdomain.example.com",
        "firstname+lastname@example.com",
        "email@123.123.123.123",
        "email@[123.123.123.123]",
        "1234567890@example.com",
        "email@example-one.com",
        "_______@example.com",
        "email@example.name",
        "email@example.museum",
        "email@example.co.jp",
        "firstname-lastname@example.com",
    ];

    for email in valid_emails {
        assert!(UserEmail::parse(email.to_string()).is_ok());
    }
}

#[test]
fn empty_string_is_rejected() {
    let email = "".to_string();
    assert!(UserEmail::parse(email).is_err());
}

#[test]
fn email_missing_at_symbol_is_rejected() {
    let email = "ursuladomain.com".to_string();
    assert!(UserEmail::parse(email).is_err());
}

#[test]
fn email_missing_subject_is_rejected() {
    let email = "@domain.com".to_string();
    assert!(UserEmail::parse(email).is_err());
}

#[test]
fn short_password_is_not_valid() {
    let password = "short".to_string();
    assert!(Password::parse(password).is_err());
}

#[test]
fn long_password_is_not_valid() {
    let password = "toolong".repeat(10);
    assert!(Password::parse(password).is_err());
}

#[test]
fn space_is_not_valid() {
    let password = "this has spaces".to_string();
    assert!(Password::parse(password).is_err());
}

#[test]
fn password_is_valid() {
    let password = "thisPasswordI$Valid".to_string();
    assert!(Password::parse(password).is_ok());
}

#[test]
fn username_keeps_the_text_as_given() {
    let parsed = Username::parse("  thaichess  ".to_string());
    match parsed {
        Ok(u) => assert_eq!(u.as_str(), "  thaichess  "),
        Err(_) => panic!("a padded user name is accepted"),
    }
}

#[test]
fn username_length_counts_utf8_bytes() {
    // 25 two-byte characters are 50 bytes, 26 are 52.
    assert!(Username::parse("é".repeat(25)).is_ok());
    assert!(Username::parse("é".repeat(26)).is_err());
}

#[test]
fn username_forbidden_characters_count_only_inside_the_trimmed_text() {
    assert!(Username::parse("\tchess\n".to_string()).is_ok());
    assert!(Username::parse("chess.master".to_string()).is_err());
    assert!(Username::parse("chess-master".to_string()).is_err());
    assert!(Username::parse("\u{3000}\u{3000}".to_string()).is_err());
}

#[test]
fn password_bounds_are_measured_after_trimming() {
    assert!(Password::parse("  1234567  ".to_string()).is_err());
    assert!(Password::parse("  12345678  ".to_string()).is_ok());
    assert!(Password::parse("a".repeat(64)).is_ok());
    assert!(Password::parse("a".repeat(65)).is_err());
    assert!(Password::parse("tab\tinside".to_string()).is_err());
    assert!(Password::parse("nbsp\u{a0}inside".to_string()).is_err());
}

#[test]
fn hashed_password_verifies_and_a_wrong_one_does_not() {
    let password = Password::parse("password123".to_string()).ok().unwrap();
    let hash = match password.hash() {
        Ok(h) => h,
        Err(_) => panic!("hashing failed"),
    };
    assert!(hash.starts_with("$argon2id$v=19$m=19456,t=2,p=1$"));
    assert_eq!(hash.chars().count(), 97);
    assert!(!hash.contains(char::is_whitespace));
    assert!(matches!(Password::verify(&"password123".to_string(), &hash), Ok(true)));
    assert!(matches!(
        Password::verify(&"wrong-password".to_string(), &hash),
        Err(PasswordError::InvalidPassword)
    ));
}

#[test]
fn an_unreadable_hash_is_a_hashing_error() {
    assert!(matches!(
        Password::verify(&"password123".to_string(), &"not a phc string".to_string()),
        Err(PasswordError::HashingError(_))
    ));
}

#[test]
fn new_user_reports_the_first_invalid_field() {
    let r = NewUser::new("".to_string(), "bad".to_string(), "short".to_string());
    assert!(matches!(r, Err(NewUserError::UsernameParsingError)));
    let r = NewUser::new("thaichess".to_string(), "@thaichess.org".to_string(), "short".to_string());
    assert!(matches!(r, Err(NewUserError::EmailParsingError)));
    let r = NewUser::new(
        "thaichess".to_string(),
        "thaichess@thaichess.org".to_string(),
        "short".to_string(),
    );
    assert!(matches!(r, Err(NewUserError::PasswordError(PasswordError::InvalidPassword))));
}

#[test]
fn new_user_hash_verifies_against_its_password() {
    let r = NewUser::new(
        "thaichess".to_string(),
        "thaichess@thaichess.com".to_string(),
        "password123".to_string(),
    );
    let user = match r {
        Ok(u) => u,
        Err(_) => panic!("valid sign-up input is accepted"),
    };
    assert_eq!(user.username.as_str(), "thaichess");
    assert_eq!(user.email.as_str(), "thaichess@thaichess.com");
    assert!(user.password_hash.starts_with("$argon2id$"));
    assert_ne!(user.password_hash, "password123");
    assert!(matches!(Password::verify(&"password123".to_string(), &user.password_hash), Ok(true)));
}
