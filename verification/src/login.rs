//! The login flow: username lookup, password verification against the
//! stored hash, the second-factor gate, the TOTP code check, and session
//! issuance. Each gate short-circuits; a session token is minted only after
//! all of them pass.

use vstd::prelude::*;
use crate::password::{argon2_matches, verify_password};
use crate::session::{alphanumeric, base64_of, generate_random_string, issue_session, tokens_of};
use crate::store::{AuthState, has_user_named, is_first_named, lemma_first_named_unique};
use crate::totp::totp_check_current;

verus! {

/// A login request.
pub struct LoginJSONBody {
    pub username: String,
    pub password: String,
    pub two_factor_code: String,
}

/// The login response.
pub struct LoginJSONResponse {
    pub success: bool,
    pub message: Option<String>,
    pub user_id: Option<String>,
    pub session_token: Option<String>,
}

/// Why a login was refused.
pub enum LoginError {
    NotFound,
    InvalidCredentials,
    TwoFactorNotEnabled,
    InvalidTwoFactorCode,
}

/// A completed login: the account's identifier and a fresh session token.
pub struct LoginSuccess {
    pub user_id: String,
    pub session_token: String,
}

impl AuthState {
    /// Commits the outcome of the TOTP gate for the account at `i`, whose
    /// earlier gates have passed: a valid code mints a session token from
    /// the 64-character `payload` and appends it to that account's tokens;
    /// an invalid one changes nothing and is refused with
    /// `InvalidTwoFactorCode`.
    pub fn complete_login(&mut self, i: usize, code_ok: bool, payload: String) -> (r: Result<
        LoginSuccess,
        LoginError,
    >)
        requires
            old(self).wf(),
            i < old(self).users@.len(),
            payload@.len() == 64,
        ensures
            final(self).wf(),
            final(self).users == old(self).users,
            final(self).id_generator == old(self).id_generator,
            !code_ok ==> (r matches Err(LoginError::InvalidTwoFactorCode)) && *final(self) == *old(
                self,
            ),
            code_ok ==> (r matches Ok(out) && ({
                let uid = old(self).users@[i as int].id@;
                &&& out.user_id@ == uid
                &&& out.session_token@ == base64_of(uid) + seq!['.'] + payload@
                &&& tokens_of(final(self).sessions@, uid) == tokens_of(
                    old(self).sessions@,
                    uid,
                ).push(out.session_token@)
                &&& forall|other: Seq<char>|
                    other != uid ==> tokens_of(final(self).sessions@, other) == tokens_of(
                        old(self).sessions@,
                        other,
                    )
            })),
    {
        if !code_ok {
            return Err(LoginError::InvalidTwoFactorCode);
        }
        let user_id = self.users[i].id.clone();
        let token = issue_session(&mut self.sessions, &user_id, payload);
        Ok(LoginSuccess { user_id, session_token: token })
    }

    /// Logs an account in. `NotFound` exactly when no account's username
    /// matches up to ASCII case; `InvalidCredentials` exactly when one does
    /// but the password does not verify against its stored hash;
    /// `TwoFactorNotEnabled` exactly when the password verifies but the
    /// account's second factor was never enabled. Past those gates the code
    /// is checked against the account's TOTP instance: on success a fresh
    /// token — the base64 form of the identifier, a dot, and 64 random
    /// characters — is appended to that account's sessions and returned, and
    /// nothing else changes; on failure nothing changes.
    pub fn login(&mut self, username: &str, password: &str, two_factor_code: &str) -> (r: Result<
        LoginSuccess,
        LoginError,
    >)
        requires
            old(self).wf(),
        ensures
            final(self).wf(),
            final(self).users == old(self).users,
            final(self).id_generator == old(self).id_generator,
            (r matches Err(LoginError::NotFound)) <==> !has_user_named(
                old(self).users@,
                username@,
            ),
            (r matches Err(LoginError::InvalidCredentials)) <==> (exists|i: int|
                is_first_named(old(self).users@, username@, i) && !argon2_matches(
                    password@,
                    old(self).users@[i].password_hash@,
                )),
            (r matches Err(LoginError::TwoFactorNotEnabled)) <==> (exists|i: int|
                is_first_named(old(self).users@, username@, i) && argon2_matches(
                    password@,
                    old(self).users@[i].password_hash@,
                ) && !old(self).users@[i].two_factor_state.enabled),
            (r matches Err(LoginError::InvalidTwoFactorCode)) ==> (exists|i: int|
                is_first_named(old(self).users@, username@, i) && argon2_matches(
                    password@,
                    old(self).users@[i].password_hash@,
                ) && old(self).users@[i].two_factor_state.enabled),
            r is Err ==> *final(self) == *old(self),
            r matches Ok(out) ==> (exists|i: int|
                {
                    let uid = old(self).users@[i].id@;
                    &&& #[trigger] is_first_named(old(self).users@, username@, i)
                    &&& argon2_matches(password@, old(self).users@[i].password_hash@)
                    &&& old(self).users@[i].two_factor_state.enabled
                    &&& out.user_id@ == uid
                    &&& (exists|payload: Seq<char>|
                        payload.len() == 64 && alphanumeric(payload) && out.session_token@
                            == base64_of(uid) + seq!['.'] + payload)
                    &&& tokens_of(final(self).sessions@, uid) == tokens_of(
                        old(self).sessions@,
                        uid,
                    ).push(out.session_token@)
                    &&& forall|other: Seq<char>|
                        other != uid ==> tokens_of(final(self).sessions@, other) == tokens_of(
                            old(self).sessions@,
                            other,
                        )
                }),
    {
        match self.find_by_username(username) {
            None => Err(LoginError::NotFound),
            Some(i) => {
                if !verify_password(password, self.users[i].password_hash.as_str()) {
                    return Err(LoginError::InvalidCredentials);
                }
                if !self.users[i].two_factor_state.enabled {
                    return Err(LoginError::TwoFactorNotEnabled);
                }
                let code_ok = totp_check_current(&self.users[i].totp, two_factor_code);
                let payload = generate_random_string(64);
                self.complete_login(i, code_ok, payload)
            },
        }
    }

    /// The login flow behind the login route: maps the outcome of `login`
    /// to the wire response and its fixed messages.
    pub fn handle_login(&mut self, body: &LoginJSONBody) -> (resp: LoginJSONResponse)
        requires
            old(self).wf(),
        ensures
            final(self).wf(),
            final(self).users == old(self).users,
            !resp.success ==> *final(self) == *old(self) && resp.user_id is None
                && resp.session_token is None,
            !has_user_named(old(self).users@, body.username@) ==> !resp.success && (resp.message
                matches Some(m) && m@ == "User not found"@),
            (exists|i: int|
                is_first_named(old(self).users@, body.username@, i) && !argon2_matches(
                    body.password@,
                    old(self).users@[i].password_hash@,
                )) ==> !resp.success && (resp.message matches Some(m) && m@
                == "Invalid credentials"@),
            (exists|i: int|
                is_first_named(old(self).users@, body.username@, i) && argon2_matches(
                    body.password@,
                    old(self).users@[i].password_hash@,
                ) && !old(self).users@[i].two_factor_state.enabled) ==> !resp.success
                && (resp.message matches Some(m) && m@ == "2FA is not enabled"@),
            ((exists|i: int|
                #[trigger] is_first_named(old(self).users@, body.username@, i) && argon2_matches(
                    body.password@,
                    old(self).users@[i].password_hash@,
                ) && old(self).users@[i].two_factor_state.enabled) && !resp.success) ==> (
            resp.message matches Some(m) && m@ == "Invalid 2FA code"@),
            resp.success ==> resp.message is None && (exists|i: int|
                {
                    let uid = old(self).users@[i].id@;
                    &&& #[trigger] is_first_named(old(self).users@, body.username@, i)
                    &&& argon2_matches(body.password@, old(self).users@[i].password_hash@)
                    &&& old(self).users@[i].two_factor_state.enabled
                    &&& (resp.user_id matches Some(u) && u@ == uid)
                    &&& (resp.session_token matches Some(t) && tokens_of(
                        final(self).sessions@,
                        uid,
                    ) == tokens_of(old(self).sessions@, uid).push(t@) && (exists|
                        payload: Seq<char>,
                    |
                        payload.len() == 64 && alphanumeric(payload) && t@ == base64_of(uid)
                            + seq!['.'] + payload))
                }),
    {
        match self.login(body.username.as_str(), body.password.as_str(), body.two_factor_code.as_str()) {
            Ok(out) => LoginJSONResponse {
                success: true,
                message: None,
                user_id: Some(out.user_id),
                session_token: Some(out.session_token),
            },
            Err(LoginError::NotFound) => {
                proof {
                    if exists|i: int|
                        #[trigger] is_first_named(old(self).users@, body.username@, i)
                            && argon2_matches(body.password@, old(self).users@[i].password_hash@)
                            && old(self).users@[i].two_factor_state.enabled {
                        let i = choose|i: int|
                            #[trigger] is_first_named(old(self).users@, body.username@, i)
                                && argon2_matches(
                                body.password@,
                                old(self).users@[i].password_hash@,
                            ) && old(self).users@[i].two_factor_state.enabled;
                        assert(has_user_named(old(self).users@, body.username@));
                    }
                }
                LoginJSONResponse {
                    success: false,
                    message: Some(String::from_str("User not found")),
                    user_id: None,
                    session_token: None,
                }
            },
            Err(LoginError::InvalidCredentials) => {
                proof {
                    if exists|i: int|
                        #[trigger] is_first_named(old(self).users@, body.username@, i)
                            && argon2_matches(body.password@, old(self).users@[i].password_hash@)
                            && old(self).users@[i].two_factor_state.enabled {
                        let i = choose|i: int|
                            #[trigger] is_first_named(old(self).users@, body.username@, i)
                                && argon2_matches(
                                body.password@,
                                old(self).users@[i].password_hash@,
                            ) && old(self).users@[i].two_factor_state.enabled;
                        let j = choose|j: int|
                            is_first_named(old(self).users@, body.username@, j) && !argon2_matches(
                                body.password@,
                                old(self).users@[j].password_hash@,
                            );
                        lemma_first_named_unique(old(self).users@, body.username@, i, j);
                    }
                }
                LoginJSONResponse {
                    success: false,
                    message: Some(String::from_str("Invalid credentials")),
                    user_id: None,
                    session_token: None,
                }
            },
            Err(LoginError::TwoFactorNotEnabled) => {
                proof {
                    if exists|i: int|
                        #[trigger] is_first_named(old(self).users@, body.username@, i)
                            && argon2_matches(body.password@, old(self).users@[i].password_hash@)
                            && old(self).users@[i].two_factor_state.enabled {
                        let i = choose|i: int|
                            #[trigger] is_first_named(old(self).users@, body.username@, i)
                                && argon2_matches(
                                body.password@,
                                old(self).users@[i].password_hash@,
                            ) && old(self).users@[i].two_factor_state.enabled;
                        let j = choose|j: int|
                            is_first_named(old(self).users@, body.username@, j) && argon2_matches(
                                body.password@,
                                old(self).users@[j].password_hash@,
                            ) && !old(self).users@[j].two_factor_state.enabled;
                        lemma_first_named_unique(old(self).users@, body.username@, i, j);
                    }
                }
                LoginJSONResponse {
                    success: false,
                    message: Some(String::from_str("2FA is not enabled")),
                    user_id: None,
                    session_token: None,
                }
            },
            Err(LoginError::InvalidTwoFactorCode) => LoginJSONResponse {
                success: false,
                message: Some(String::from_str("Invalid 2FA code")),
                user_id: None,
                session_token: None,
            },
        }
    }
}

/// Tokens are retained: appending a second token keeps the first, so two
/// completed logins leave both their tokens in the account's session list.
pub proof fn lemma_tokens_retained(
    first: Seq<Seq<char>>,
    t1: Seq<char>,
    t2: Seq<char>,
)
    ensures
        first.push(t1).push(t2).contains(t1),
        first.push(t1).push(t2).contains(t2),
{
    let two = first.push(t1).push(t2);
    assert(two[first.len() as int] == t1);
    assert(two[first.len() as int + 1] == t2);
}

} // verus!
