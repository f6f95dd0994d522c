//! The registration flow: enforce username uniqueness (up to ASCII case) and
//! the password policy, then create the account with a hashed password and a
//! fresh, still-disabled second factor.

use vstd::prelude::*;
use crate::account::User;
use crate::idgen::next_raw_id;
use crate::password::{argon2_matches, hash_password, valid_password, validate_password};
use crate::store::{AuthState, has_user_named, users_wf};
use crate::text::{i64_to_decimal, lemma_signed_decimal_no_colon, str_has_char};
use crate::totp::{base32_of, qr_text_of, url_of};

verus! {

/// A registration request.
pub struct CreateUserJSONBody {
    pub username: String,
    pub password: String,
}

/// The one-time enrollment data handed back at registration so the caller
/// can add the account to an authenticator.
pub struct CreateUser2FaSetupJSONBody {
    pub secret_key: String,
    pub qr_code: String,
    pub ascii_qr_code: String,
}

/// The registration response.
pub struct CreateUserJSONResponse {
    pub success: bool,
    pub message: Option<String>,
    pub user_id: Option<String>,
    pub two_factor_setup_data: Option<CreateUser2FaSetupJSONBody>,
}

/// Why a registration was refused. `Internal` is the generic failure for a
/// request whose inputs no second factor can be built for (the otpauth label
/// admits no colon), surfaced instead of a crash.
pub enum RegisterError {
    DuplicateUsername,
    PasswordTooWeak,
    Internal,
}

/// A successful registration: the new identifier and the one-time
/// enrollment data.
pub struct RegisteredAccount {
    pub user_id: String,
    pub secret_key: String,
    pub qr_code: String,
    pub ascii_qr_code: String,
}

impl AuthState {
    /// Registers a new account. Refused with `DuplicateUsername` exactly when
    /// some account's username equals the requested one up to ASCII case;
    /// with `PasswordTooWeak` exactly when the name is free but the password
    /// fails the policy; and with the generic `Internal` exactly when both
    /// gates pass but the username holds a colon, which no otpauth label can
    /// carry. Otherwise one account is appended, its password stored only as
    /// a PHC hash that verifies against the given password, its second
    /// factor generated and disabled, its provisioning URI derived from the
    /// same secret whose base32 form is stored. No session changes.
    pub fn register(&mut self, username: String, password: String) -> (r: Result<
        RegisteredAccount,
        RegisterError,
    >)
        requires
            old(self).wf(),
            password@.len() <= 0x3FFF_FFFF,
        ensures
            final(self).wf(),
            (r matches Err(RegisterError::DuplicateUsername)) <==> has_user_named(
                old(self).users@,
                username@,
            ),
            (r matches Err(RegisterError::PasswordTooWeak)) <==> (!has_user_named(
                old(self).users@,
                username@,
            ) && !valid_password(password@)),
            (r matches Err(RegisterError::Internal)) <==> (!has_user_named(
                old(self).users@,
                username@,
            ) && valid_password(password@) && username@.contains(':')),
            r is Ok <==> (!has_user_named(old(self).users@, username@) && valid_password(
                password@,
            ) && !username@.contains(':')),
            r is Err ==> *final(self) == *old(self),
            r matches Ok(acct) ==> ({
                let u = final(self).users@.last();
                &&& final(self).users@ == old(self).users@.push(u)
                &&& u.username@ == username@
                &&& u.id@ == acct.user_id@
                &&& argon2_matches(password@, u.password_hash@)
                &&& u.password_hash@.len() > 0 && u.password_hash@[0] == '$'
                &&& u.two_factor_state.enabled == false
                &&& (exists|sb: Seq<u8>|
                    sb.len() == 20 && u.two_factor_state.secret@ == base32_of(sb)
                        && u.two_factor_state.qr_code_url@ == url_of(sb, u.id@, username@))
                &&& u.two_factor_state.terminal_qr_code@ == qr_text_of(
                    u.two_factor_state.qr_code_url@,
                )
                &&& acct.secret_key@ == u.two_factor_state.secret@
                &&& acct.qr_code@ == u.two_factor_state.qr_code_url@
                &&& acct.ascii_qr_code@ == u.two_factor_state.terminal_qr_code@
                &&& final(self).sessions == old(self).sessions
            }),
    {
        if self.find_by_username(username.as_str()).is_some() {
            return Err(RegisterError::DuplicateUsername);
        }
        if !validate_password(password.as_str()) {
            return Err(RegisterError::PasswordTooWeak);
        }
        if str_has_char(username.as_str(), ':') {
            return Err(RegisterError::Internal);
        }
        let raw_id = next_raw_id(&mut self.id_generator);
        let id = i64_to_decimal(raw_id);
        proof {
            lemma_signed_decimal_no_colon(raw_id as int);
        }
        let password_hash = hash_password(password.as_str());
        let user = User::new(id.clone(), username, password_hash);
        let account = RegisteredAccount {
            user_id: id,
            secret_key: user.two_factor_state.secret.clone(),
            qr_code: user.two_factor_state.qr_code_url.clone(),
            ascii_qr_code: user.two_factor_state.terminal_qr_code.clone(),
        };
        let ghost old_users = self.users@;
        self.users.push(user);
        proof {
            assert(users_wf(self.users@)) by {
                assert(forall|j: int|
                    0 <= j < old_users.len() ==> !crate::text::eq_ignore_case(
                        old_users[j].username@,
                        self.users@.last().username@,
                    ));
            }
        }
        Ok(account)
    }

    /// The registration flow behind the account-creation route: maps the
    /// outcome of `register` to the wire response and its fixed
    /// messages.
    pub fn handle_create_user(&mut self, body: CreateUserJSONBody) -> (resp:
        CreateUserJSONResponse)
        requires
            old(self).wf(),
            body.password@.len() <= 0x3FFF_FFFF,
        ensures
            final(self).wf(),
            resp.success == (!has_user_named(old(self).users@, body.username@) && valid_password(
                body.password@,
            ) && !body.username@.contains(':')),
            !resp.success ==> *final(self) == *old(self) && resp.user_id is None
                && resp.two_factor_setup_data is None,
            has_user_named(old(self).users@, body.username@) ==> (resp.message matches Some(m)
                && m@ == "Username already exists"@),
            (!has_user_named(old(self).users@, body.username@) && !valid_password(body.password@))
                ==> (resp.message matches Some(m)
                && m@ == "Password must be at least 8 characters long and contain at least one uppercase letter, one lowercase letter, one number, and one special character"@),
            (!has_user_named(old(self).users@, body.username@) && valid_password(body.password@)
                && body.username@.contains(':')) ==> (resp.message matches Some(m)
                && m@ == "Internal error"@),
            resp.success ==> ({
                let u = final(self).users@.last();
                &&& final(self).users@ == old(self).users@.push(u)
                &&& u.username@ == body.username@
                &&& u.two_factor_state.enabled == false
                &&& argon2_matches(body.password@, u.password_hash@)
                &&& u.password_hash@.len() > 0 && u.password_hash@[0] == '$'
                &&& (exists|sb: Seq<u8>|
                    sb.len() == 20 && u.two_factor_state.secret@ == base32_of(sb)
                        && u.two_factor_state.qr_code_url@ == url_of(sb, u.id@, body.username@))
                &&& resp.message is None
                &&& (resp.user_id matches Some(uid) && uid@ == u.id@)
                &&& (resp.two_factor_setup_data matches Some(d) && d.secret_key@
                    == u.two_factor_state.secret@ && d.qr_code@ == u.two_factor_state.qr_code_url@
                    && d.ascii_qr_code@ == u.two_factor_state.terminal_qr_code@)
                &&& final(self).sessions == old(self).sessions
            }),
    {
        match self.register(body.username, body.password) {
            Ok(account) => CreateUserJSONResponse {
                success: true,
                message: None,
                user_id: Some(account.user_id),
                two_factor_setup_data: Some(
                    CreateUser2FaSetupJSONBody {
                        secret_key: account.secret_key,
                        qr_code: account.qr_code,
                        ascii_qr_code: account.ascii_qr_code,
                    },
                ),
            },
            Err(RegisterError::DuplicateUsername) => CreateUserJSONResponse {
                success: false,
                message: Some(String::from_str("Username already exists")),
                user_id: None,
                two_factor_setup_data: None,
            },
            Err(RegisterError::PasswordTooWeak) => CreateUserJSONResponse {
                success: false,
                message: Some(
                    String::from_str(
                        "Password must be at least 8 characters long and contain at least one uppercase letter, one lowercase letter, one number, and one special character",
                    ),
                ),
                user_id: None,
                two_factor_setup_data: None,
            },
            Err(RegisterError::Internal) => CreateUserJSONResponse {
                success: false,
                message: Some(String::from_str("Internal error")),
                user_id: None,
                two_factor_setup_data: None,
            },
        }
    }
}

} // verus!
