use auth_core::password::validate_password;
use auth_core::create_user::CreateUserJSONBody;
use auth_core::store::AuthState;

#[test]
fn password_rejects_too_short() {
    assert!(!validate_password("abc"));
}

#[test]
fn password_rejects_all_lowercase() {
    assert!(!validate_password("alllowercase1!"));
}

#[test]
fn password_rejects_all_uppercase() {
    assert!(!validate_password("ALLUPPER1!"));
}

#[test]
fn password_rejects_missing_digit() {
    assert!(!validate_password("NoDigits!"));
}

#[test]
fn password_rejects_missing_symbol() {
    assert!(!validate_password("NoSymbol1"));
}

#[test]
fn password_accepts_valid() {
    assert!(validate_password("Valid1Pass!"));
}

#[test]
fn register_rejects_weak_password() {
    let mut state = AuthState::new();
    let resp = state.handle_create_user(CreateUserJSONBody {
        username: "alice".to_string(),
        password: "abc".to_string(),
    });
    assert!(!resp.success);
    assert_eq!(
        resp.message.unwrap(),
        "Password must be at least 8 characters long and contain at least one uppercase letter, \
         one lowercase letter, one number, and one special character"
    );
    assert!(resp.user_id.is_none());
    assert!(resp.two_factor_setup_data.is_none());
    assert_eq!(state.users.len(), 0);
}

#[test]
fn register_accepts_valid_password() {
    let mut state = AuthState::new();
    let resp = state.handle_create_user(CreateUserJSONBody {
        username: "alice".to_string(),
        password: "Valid1Pass!".to_string(),
    });
    assert!(resp.success);
    assert!(resp.message.is_none());
    assert!(resp.user_id.is_some());
    assert_eq!(state.users.len(), 1);
}
