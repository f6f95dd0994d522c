use auth_core::create_user::CreateUserJSONBody;
use auth_core::store::AuthState;

fn register(state: &mut AuthState, username: &str, password: &str) {
    let resp = state.handle_create_user(CreateUserJSONBody {
        username: username.to_string(),
        password: password.to_string(),
    });
    assert!(resp.success);
}

fn argon2_verifies(password: &str, stored: &str) -> bool {
    let parsed = argon2::PasswordHash::new(stored).unwrap();
    argon2::PasswordVerifier::verify_password(
        &argon2::Argon2::default(),
        password.as_bytes(),
        &parsed,
    )
    .is_ok()
}

#[test]
fn stored_hash_is_not_the_password() {
    let mut state = AuthState::new();
    register(&mut state, "alice", "Secret1!pw");
    let stored = state.users[0].password_hash.clone();
    assert_ne!(stored, "Secret1!pw");
    assert!(stored.starts_with('$'));
    assert!(argon2_verifies("Secret1!pw", &stored));
    assert!(!argon2_verifies("Wrong1!pw", &stored));
}

#[test]
fn repeated_hashing_uses_distinct_salts() {
    let mut state = AuthState::new();
    register(&mut state, "alice", "Secret1!pw");
    register(&mut state, "bob", "Secret1!pw");
    let first = state.users[0].password_hash.clone();
    let second = state.users[1].password_hash.clone();
    // Same password, different stored material (per-call random salt)...
    assert_ne!(first, second);
    // ...and both still verify against the password.
    assert!(argon2_verifies("Secret1!pw", &first));
    assert!(argon2_verifies("Secret1!pw", &second));
}
