use auth_core::create_user::CreateUserJSONBody;
use auth_core::login::LoginJSONBody;
use auth_core::store::AuthState;
use auth_core::verify_2fa::Verify2FaJSONBody;

fn register(
    state: &mut AuthState,
    username: &str,
    password: &str,
) -> auth_core::create_user::CreateUserJSONResponse {
    state.handle_create_user(CreateUserJSONBody {
        username: username.to_string(),
        password: password.to_string(),
    })
}

/// The code an authenticator app would currently show for this account,
/// reconstructed from the base32 secret returned at registration.
fn current_code(secret_b32: &str, id: &str, username: &str) -> String {
    let bytes = totp_rs::Secret::Encoded(secret_b32.to_string())
        .to_bytes()
        .unwrap();
    let totp = auth_core::totp::make_totp(bytes, id.to_string(), username.to_string());
    totp.generate_current().unwrap()
}

fn wrong_code(correct: &str) -> String {
    if correct == "123456" {
        "654321".to_string()
    } else {
        "123456".to_string()
    }
}

fn verify(state: &mut AuthState, id: &str, code: &str) -> auth_core::verify_2fa::Verify2FaJSONResponse {
    state.handle_verify_2fa(&Verify2FaJSONBody { id: id.to_string(), code: code.to_string() })
}

fn login(
    state: &mut AuthState,
    username: &str,
    password: &str,
    code: &str,
) -> auth_core::login::LoginJSONResponse {
    state.handle_login(&LoginJSONBody {
        username: username.to_string(),
        password: password.to_string(),
        two_factor_code: code.to_string(),
    })
}

#[test]
fn duplicate_username_differs_only_by_case() {
    let mut state = AuthState::new();
    assert!(register(&mut state, "alice", "Valid1Pass!").success);
    let second = register(&mut state, "ALICE", "Valid1Pass!");
    assert!(!second.success);
    assert_eq!(second.message.unwrap(), "Username already exists");
    assert_eq!(state.users.len(), 1);
}

#[test]
fn colon_username_is_a_generic_internal_failure() {
    // No otpauth label can carry a colon, so no second factor can be built
    // for such a name; the request fails generically instead of crashing.
    let mut state = AuthState::new();
    let resp = register(&mut state, "evil:name", "Valid1Pass!");
    assert!(!resp.success);
    assert_eq!(resp.message.unwrap(), "Internal error");
    assert!(resp.user_id.is_none());
    assert_eq!(state.users.len(), 0);
}

#[test]
fn registration_returns_enrollment_data() {
    let mut state = AuthState::new();
    let resp = register(&mut state, "alice", "Valid1Pass!");
    assert!(resp.success);
    let setup = resp.two_factor_setup_data.unwrap();
    // The returned secret is valid base32 for the full 160-bit secret.
    let bytes = totp_rs::Secret::Encoded(setup.secret_key.clone())
        .to_bytes()
        .unwrap();
    assert_eq!(bytes.len(), 20);
    // The QR text rendering is derived from the URI, not the URI itself.
    assert!(!setup.ascii_qr_code.is_empty());
    assert_ne!(setup.ascii_qr_code, setup.qr_code);
    assert!(setup.qr_code.starts_with("otpauth://totp/"));
    // Identifiers are decimal renderings of snowflake values.
    let id = resp.user_id.unwrap();
    id.parse::<i64>().unwrap();
}

#[test]
fn enrollment_starts_disabled_and_latches() {
    let mut state = AuthState::new();
    let resp = register(&mut state, "bob", "Valid1Pass!");
    let id = resp.user_id.unwrap();
    let secret = resp.two_factor_setup_data.unwrap().secret_key;
    assert!(!state.users[0].two_factor_state.enabled);

    let code = current_code(&secret, &id, "bob");
    let first = verify(&mut state, &id, &code);
    assert!(first.success);
    assert!(first.message.is_none());
    assert!(state.users[0].two_factor_state.enabled);

    // The latch is one-way: a second verification is refused even with a
    // currently-valid code.
    let again = verify(&mut state, &id, &current_code(&secret, &id, "bob"));
    assert!(!again.success);
    assert_eq!(again.message.unwrap(), "2FA is already enabled");
    assert!(state.users[0].two_factor_state.enabled);
}

#[test]
fn enrollment_with_wrong_code_changes_nothing() {
    let mut state = AuthState::new();
    let resp = register(&mut state, "bob", "Valid1Pass!");
    let id = resp.user_id.unwrap();
    let secret = resp.two_factor_setup_data.unwrap().secret_key;

    let bad = wrong_code(&current_code(&secret, &id, "bob"));
    let attempt = verify(&mut state, &id, &bad);
    assert!(!attempt.success);
    assert_eq!(attempt.message.unwrap(), "Invalid 2FA code");
    assert!(!state.users[0].two_factor_state.enabled);
}

#[test]
fn enrollment_for_unknown_id_is_not_found() {
    let mut state = AuthState::new();
    register(&mut state, "bob", "Valid1Pass!");
    let attempt = verify(&mut state, "999", "123456");
    assert!(!attempt.success);
    assert_eq!(attempt.message.unwrap(), "User not found");
}

#[test]
fn login_before_enrollment_is_refused() {
    let mut state = AuthState::new();
    let resp = register(&mut state, "carol", "Valid1Pass!");
    let id = resp.user_id.unwrap();
    let secret = resp.two_factor_setup_data.unwrap().secret_key;

    // Correct password and a code that would otherwise validate: still
    // refused, because the second factor was never enabled.
    let code = current_code(&secret, &id, "carol");
    let attempt = login(&mut state, "carol", "Valid1Pass!", &code);
    assert!(!attempt.success);
    assert_eq!(attempt.message.unwrap(), "2FA is not enabled");
    assert!(attempt.session_token.is_none());
}

#[test]
fn login_for_unknown_user_is_not_found() {
    let mut state = AuthState::new();
    let attempt = login(&mut state, "nobody", "Valid1Pass!", "123456");
    assert!(!attempt.success);
    assert_eq!(attempt.message.unwrap(), "User not found");
}

#[test]
fn login_with_wrong_password_is_refused() {
    let mut state = AuthState::new();
    register(&mut state, "carol", "Valid1Pass!");
    let attempt = login(&mut state, "carol", "Wrong1Pass!", "123456");
    assert!(!attempt.success);
    assert_eq!(attempt.message.unwrap(), "Invalid credentials");
}

#[test]
fn login_with_wrong_code_is_refused() {
    let mut state = AuthState::new();
    let resp = register(&mut state, "carol", "Valid1Pass!");
    let id = resp.user_id.unwrap();
    let secret = resp.two_factor_setup_data.unwrap().secret_key;
    let code = current_code(&secret, &id, "carol");
    assert!(verify(&mut state, &id, &code).success);

    let attempt = login(&mut state, "carol", "Valid1Pass!", &wrong_code(&code));
    assert!(!attempt.success);
    assert_eq!(attempt.message.unwrap(), "Invalid 2FA code");
    assert!(attempt.session_token.is_none());
}

#[test]
fn two_logins_yield_two_distinct_retained_tokens() {
    let mut state = AuthState::new();
    let resp = register(&mut state, "dora", "Valid1Pass!");
    let id = resp.user_id.unwrap();
    let secret = resp.two_factor_setup_data.unwrap().secret_key;
    assert!(verify(&mut state, &id, &current_code(&secret, &id, "dora")).success);

    let first = login(&mut state, "dora", "Valid1Pass!", &current_code(&secret, &id, "dora"));
    assert!(first.success);
    assert_eq!(first.user_id.as_deref(), Some(id.as_str()));
    let t1 = first.session_token.unwrap();

    let second = login(&mut state, "dora", "Valid1Pass!", &current_code(&secret, &id, "dora"));
    assert!(second.success);
    let t2 = second.session_token.unwrap();

    assert_ne!(t1, t2);

    // Both tokens are retained in that account's session list, and each is
    // the base64 form of the identifier, a dot, and a 64-character payload.
    let prefix = base64::Engine::encode(&base64::engine::general_purpose::STANDARD_NO_PAD, &id);
    assert_ne!(prefix, id);
    for token in [&t1, &t2] {
        let (head, tail) = token.split_at(token.len() - 65);
        assert_eq!(head, prefix);
        assert!(tail.starts_with('.'));
        assert_eq!(tail.len(), 65);
        assert!(tail[1..].chars().all(|c| c.is_ascii_alphanumeric()));
    }
    assert_eq!(state.sessions.len(), 1);
    assert_eq!(state.sessions[0].user_id, id);
    assert_eq!(state.sessions[0].tokens, vec![t1, t2]);
}

#[test]
fn many_registrations_distinct_identifiers_no_lost_updates() {
    // Password hashing is deliberately slow, so the batch is sized to fit
    // the test harness; every registration must land, with a fresh id.
    let mut state = AuthState::new();
    let mut ids: Vec<String> = Vec::new();
    for n in 0..25 {
        let resp = register(&mut state, &format!("user{}", n), "Valid1Pass!");
        assert!(resp.success);
        ids.push(resp.user_id.unwrap());
    }
    assert_eq!(state.users.len(), 25);
    for i in 0..ids.len() {
        for j in 0..i {
            assert_ne!(ids[i], ids[j]);
        }
    }
}
