use user_auth::user::{Credentials, SignUpPayload};
use user_auth::validation::{validate_password, validate_username};

#[test]
fn username_rules() {
    assert!(validate_username("alice"));
    assert!(validate_username("al-ce-9"));
    assert!(validate_username("ABCD"));
    assert!(validate_username("----"));
    // Too short.
    assert!(!validate_username(""));
    assert!(!validate_username("abc"));
    // Characters outside letters, digits and dashes.
    assert!(!validate_username("al ce"));
    assert!(!validate_username("alice!"));
    assert!(!validate_username("al_ce"));
    assert!(!validate_username("a@example.com"));
}

#[test]
fn password_rules() {
    assert!(validate_password("Passw0rd"));
    assert!(validate_password("abc1"));
    assert!(validate_password("9zzz"));
    // Letters only, digits only.
    assert!(!validate_password("abcd"));
    assert!(!validate_password("1234"));
    // Too short, too long.
    assert!(!validate_password("a1"));
    let long_ok = format!("{}a1", "x".repeat(48));
    assert_eq!(long_ok.len(), 50);
    assert!(validate_password(&long_ok));
    let too_long = format!("{}a1", "x".repeat(49));
    assert_eq!(too_long.len(), 51);
    assert!(!validate_password(&too_long));
    // Spaces and special characters.
    assert!(!validate_password("pass w0rd"));
    assert!(!validate_password("pass-w0rd"));
    assert!(!validate_password("passw0rd!"));
}

#[test]
fn payload_and_credentials_validate() {
    let good = SignUpPayload {
        username: "alice".to_string(),
        email: Some("a@example.com".to_string()),
        password: "Passw0rd".to_string(),
    };
    assert!(good.validate());

    let bad_username = SignUpPayload {
        username: "al".to_string(),
        email: None,
        password: "Passw0rd".to_string(),
    };
    assert!(!bad_username.validate());

    let good_creds = Credentials {
        username: "alice".to_string(),
        password: "Passw0rd".to_string(),
    };
    assert!(good_creds.validate());

    let bad_creds = Credentials {
        username: "alice".to_string(),
        password: "password".to_string(),
    };
    assert!(!bad_creds.validate());
}
