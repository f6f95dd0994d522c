//! Core of a small authentication service: account registration with a
//! password policy and salted one-way hashing, enrollment and verification of
//! a TOTP second factor, and session-token issuance after a full
//! username/password/TOTP login.
//!
//! All account and session state lives in [`store::AuthState`]; the three
//! request flows are `create_user`, `verify_2fa` and `login`. Transport,
//! JSON encoding and process setup live outside this crate.

pub mod account;
pub mod create_user;
pub mod idgen;
pub mod login;
pub mod password;
pub mod session;
pub mod store;
pub mod text;
pub mod totp;
pub mod verify_2fa;
