//! Account records: one registered principal with its one-way-hashed
//! password and its second-factor state.

use vstd::prelude::*;
use crate::totp::{base32_of, build_totp, generate_secret_bytes, encode_secret_base32,
    qr_code_text, qr_text_of, url_of};

verus! {

/// The second factor of one account, created atomically with it. `enabled`
/// starts false and is a one-way latch; the secret and the derived fields
/// never change after creation.
pub struct TwoFactorState {
    pub enabled: bool,
    pub secret: String,
    pub qr_code_url: String,
    pub terminal_qr_code: String,
}

impl TwoFactorState {
    /// A field-for-field copy.
    pub fn duplicate(&self) -> (r: TwoFactorState)
        ensures
            r.enabled == self.enabled,
            r.secret@ == self.secret@,
            r.qr_code_url@ == self.qr_code_url@,
            r.terminal_qr_code@ == self.terminal_qr_code@,
    {
        TwoFactorState {
            enabled: self.enabled,
            secret: self.secret.clone(),
            qr_code_url: self.qr_code_url.clone(),
            terminal_qr_code: self.terminal_qr_code.clone(),
        }
    }
}

/// One registered account. The identifier and the username are fixed at
/// creation; only the second factor's `enabled` latch ever changes.
pub struct User {
    pub id: String,
    pub username: String,
    pub password_hash: String,
    pub two_factor_state: TwoFactorState,
    pub totp: totp_rs::TOTP,
}

impl User {
    /// A fresh account record: generates the 160-bit TOTP secret, derives the
    /// provisioning URI and its QR text rendering, and starts with the second
    /// factor disabled.
    pub fn new(id: String, username: String, password_hash: String) -> (u: User)
        requires
            !id@.contains(':'),
            !username@.contains(':'),
        ensures
            u.id == id,
            u.username == username,
            u.password_hash == password_hash,
            u.two_factor_state.enabled == false,
            exists|sb: Seq<u8>|
                sb.len() == 20 && u.two_factor_state.secret@ == base32_of(sb)
                    && u.two_factor_state.qr_code_url@ == url_of(sb, id@, username@),
            u.two_factor_state.terminal_qr_code@ == qr_text_of(u.two_factor_state.qr_code_url@),
    {
        let secret_bytes = generate_secret_bytes();
        let encoded = encode_secret_base32(&secret_bytes);
        let (totp, qr_url) = build_totp(secret_bytes, id.clone(), username.clone());
        let qr_text = qr_code_text(qr_url.as_str());
        User {
            id,
            username,
            password_hash,
            two_factor_state: TwoFactorState {
                enabled: false,
                secret: encoded,
                qr_code_url: qr_url,
                terminal_qr_code: qr_text,
            },
            totp,
        }
    }

    /// A field-for-field copy of an account record.
    pub fn from_user(user: &User) -> (u: User)
        ensures
            u.id@ == user.id@,
            u.username@ == user.username@,
            u.password_hash@ == user.password_hash@,
            u.two_factor_state.enabled == user.two_factor_state.enabled,
            u.two_factor_state.secret@ == user.two_factor_state.secret@,
            u.two_factor_state.qr_code_url@ == user.two_factor_state.qr_code_url@,
            u.two_factor_state.terminal_qr_code@ == user.two_factor_state.terminal_qr_code@,
            u.totp == user.totp,
    {
        User {
            id: user.id.clone(),
            username: user.username.clone(),
            password_hash: user.password_hash.clone(),
            two_factor_state: user.two_factor_state.duplicate(),
            totp: user.totp.clone(),
        }
    }
}

} // verus!
