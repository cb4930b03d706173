use user_auth::store::UserStore;
use user_auth::user::{Credentials, SignUpPayload, UserError};

fn payload(username: &str, email: Option<&str>, password: &str) -> SignUpPayload {
    SignUpPayload {
        username: username.to_string(),
        email: email.map(|e| e.to_string()),
        password: password.to_string(),
    }
}

fn creds(username: &str, password: &str) -> Credentials {
    Credentials {
        username: username.to_string(),
        password: password.to_string(),
    }
}

#[test]
fn sign_up_then_get_matches() {
    let mut store = UserStore::new();
    let id = store
        .sign_up(payload("alice", Some("a@example.com"), "Passw0rd"), 7)
        .unwrap();
    let user = store.get(id).unwrap();
    assert_eq!(user.id, id);
    assert_eq!(user.username, "alice");
    assert_eq!(user.email.as_deref(), Some("a@example.com"));
    assert_eq!(user.created_at, 7);
    assert_eq!(user.updated_at, None);
    assert_eq!(user.last_login, None);
    assert!(user.active);
    // The stored password is the hash, never the submitted plaintext.
    assert_ne!(user.password, "Passw0rd");
    assert!(user.password.starts_with('$'));
}

#[test]
fn duplicate_username_rejected() {
    let mut store = UserStore::new();
    store
        .sign_up(payload("alice", None, "Passw0rd"), 0)
        .unwrap();
    assert_eq!(store.len(), 1);
    let second = store.sign_up(payload("alice", Some("other@example.com"), "0therPw0"), 1);
    assert!(matches!(second, Err(UserError::Registeration(_))));
    // No new row was created.
    assert_eq!(store.len(), 1);
}

#[test]
fn sign_in_correct_wrong_and_unknown() {
    let mut store = UserStore::new();
    store
        .sign_up(payload("alice", None, "Passw0rd"), 0)
        .unwrap();

    let ok = store.sign_in(creds("alice", "Passw0rd")).unwrap();
    assert_eq!(ok.username, "alice");

    let wrong = store.sign_in(creds("alice", "wrong1"));
    let unknown = store.sign_in(creds("nobody99", "Passw0rd"));
    let wrong = match wrong {
        Err(e) => e,
        Ok(_) => panic!("wrong password accepted"),
    };
    let unknown = match unknown {
        Err(e) => e,
        Ok(_) => panic!("unknown username accepted"),
    };
    assert!(matches!(wrong, UserError::BadCredientials(_)));
    assert!(matches!(unknown, UserError::BadCredientials(_)));
    // The two rejections read the same: no username enumeration.
    assert_eq!(wrong.message(), unknown.message());
    assert_eq!(wrong.message(), "Credentials do not match our records");
}

#[test]
fn activate_and_deactivate_toggle_is_active() {
    let mut store = UserStore::new();
    let id = store
        .sign_up(payload("alice", None, "Passw0rd"), 0)
        .unwrap();
    assert_eq!(store.is_active(id).unwrap(), true);

    store.de_activate(id).unwrap();
    assert_eq!(store.is_active(id).unwrap(), false);

    store.activate(id).unwrap();
    assert_eq!(store.is_active(id).unwrap(), true);
}

#[test]
fn is_active_unknown_id_fails() {
    let store = UserStore::new();
    assert!(matches!(
        store.is_active(42),
        Err(UserError::ActivationCheck(_))
    ));
}

#[test]
fn get_unknown_id_fails() {
    let store = UserStore::new();
    assert!(matches!(store.get(0), Err(UserError::Fetching(_))));
}

#[test]
fn update_password_switches_accepted_plaintext() {
    let mut store = UserStore::new();
    let id = store
        .sign_up(payload("alice", None, "Passw0rd"), 0)
        .unwrap();

    assert_eq!(store.update_password(id, "N3wsecret".to_string(), 9).unwrap(), true);

    let fresh = store.sign_in(creds("alice", "N3wsecret")).unwrap();
    assert_eq!(fresh.username, "alice");
    assert_eq!(fresh.updated_at, Some(9));

    let stale = store.sign_in(creds("alice", "Passw0rd"));
    assert!(matches!(stale, Err(UserError::BadCredientials(_))));
}

#[test]
fn update_email_rewrites_email_and_stamps_time() {
    let mut store = UserStore::new();
    let id = store
        .sign_up(payload("alice", Some("a@example.com"), "Passw0rd"), 0)
        .unwrap();

    assert_eq!(store.update_email(id, "new@example.com".to_string(), 5).unwrap(), true);

    let user = store.get(id).unwrap();
    assert_eq!(user.email.as_deref(), Some("new@example.com"));
    assert_eq!(user.updated_at, Some(5));
    assert_eq!(user.username, "alice");
}

#[test]
fn updates_on_unknown_id_report_success_and_change_nothing() {
    let mut store = UserStore::new();
    store
        .sign_up(payload("alice", None, "Passw0rd"), 0)
        .unwrap();

    assert_eq!(store.update_email(999, "x@example.com".to_string(), 1).unwrap(), true);
    assert_eq!(store.update_password(999, "0therPw0".to_string(), 1).unwrap(), true);
    store.activate(999).unwrap();
    store.de_activate(999).unwrap();

    assert_eq!(store.len(), 1);
    let ok = store.sign_in(creds("alice", "Passw0rd")).unwrap();
    assert_eq!(ok.email, None);
    assert_eq!(ok.updated_at, None);
    assert!(ok.active);
}

#[test]
fn scenario_alice() {
    let mut store = UserStore::new();

    let id = store
        .sign_up(payload("alice", Some("a@example.com"), "Passw0rd"), 0)
        .unwrap();

    let alice = store.sign_in(creds("alice", "Passw0rd")).unwrap();
    assert_eq!(alice.username, "alice");

    let rejected = store.sign_in(creds("alice", "wrong1"));
    assert!(matches!(rejected, Err(UserError::BadCredientials(_))));

    store.de_activate(id).unwrap();
    assert_eq!(store.is_active(id).unwrap(), false);
}

#[test]
fn decimal_rendering() {
    assert_eq!(user_auth::user::u128_to_decimal(0), "0");
    assert_eq!(user_auth::user::u128_to_decimal(7), "7");
    assert_eq!(user_auth::user::u128_to_decimal(10), "10");
    assert_eq!(user_auth::user::u128_to_decimal(90210), "90210");
    assert_eq!(
        user_auth::user::u128_to_decimal(u128::MAX),
        "340282366920938463463374607431768211455"
    );
}

#[test]
fn redacted_hides_password() {
    let mut store = UserStore::new();
    let id = store
        .sign_up(payload("alice", None, "Passw0rd"), 0)
        .unwrap();
    let user = store.get(id).unwrap();
    let text = user.redacted();
    assert_eq!(text, "User { id: 0, username: alice, password: [redacted] }");
    assert!(!text.contains("Passw0rd"));
    assert!(!text.contains(&user.password));
}

#[test]
fn error_messages_by_kind() {
    let cases = [
        (
            UserError::BadCredientials(String::new()),
            "Credentials do not match our records",
        ),
        (UserError::Registeration(String::new()), "Error while saving user"),
        (UserError::Fetching(String::new()), "Error while getting user"),
        (UserError::Activation(String::new()), "Error while activating user"),
        (UserError::DeActivation(String::new()), "Error while deactivating user"),
        (
            UserError::ActivationCheck(String::new()),
            "Error while checking user activity",
        ),
        (
            UserError::UpdateingEmail(String::new()),
            "Error while updating user email",
        ),
        (
            UserError::UpdateingPassword(String::new()),
            "Error while updating user password",
        ),
    ];
    for (err, expected) in cases {
        assert_eq!(err.message(), expected);
    }
}
