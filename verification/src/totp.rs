//! The TOTP engine: secret generation, construction of the per-account TOTP
//! instance and its provisioning URI, code checking against the current time
//! step, and the QR text rendering of the URI.

use vstd::prelude::*;

verus! {

/// totp_rs's TOTP value, opaque here: it carries the shared secret and the
/// otpauth parameters (SHA-256, six digits, 30-second step, skew one).
#[verifier::external_type_specification]
#[verifier::external_body]
pub struct ExTotp(totp_rs::TOTP);

/// The RFC 4648 base32 encoding (no padding) of a byte string, as
/// totp_rs::Secret::to_encoded computes it through base32::encode.
pub uninterp spec fn base32_of(bytes: Seq<u8>) -> Seq<char>;

/// The unicode half-block text rendering of the QR code for a string, as
/// qrcode::QrCode::new followed by the Dense1x2 renderer computes it; empty
/// when the data exceeds what any QR code version can carry.
pub uninterp spec fn qr_text_of(data: Seq<char>) -> Seq<char>;

/// Relies on totp_rs::Secret::generate_secret: 160 random bits from a
/// CSPRNG, handed back raw (Secret::to_bytes cannot fail on a raw secret).
/// The bytes are random, so only their number is stated.
#[verifier::external_body]
pub(crate) fn generate_secret_bytes() -> (b: Vec<u8>)
    ensures
        b@.len() == 20,
{
    totp_rs::Secret::generate_secret().to_bytes().unwrap()
}

/// Relies on totp_rs::Secret::to_encoded, which base32-encodes raw secret
/// bytes: a function of the bytes alone. A raw secret always encodes to the
/// `Encoded` variant.
#[verifier::external_body]
pub(crate) fn encode_secret_base32(bytes: &Vec<u8>) -> (s: String)
    ensures
        s@ == base32_of(bytes@),
{
    match totp_rs::Secret::Raw(bytes.clone()).to_encoded() {
        totp_rs::Secret::Encoded(s) => s,
        totp_rs::Secret::Raw(_) => String::new(),
    }
}

/// The otpauth provisioning URI that this service's TOTP configuration
/// (SHA-256, six digits, skew one, 30-second step, issuer "SSC Example App",
/// label "<username> - <id>") derives for a secret, an account identifier
/// and a username, as totp_rs::TOTP::get_url computes it: a function of
/// those three alone.
pub uninterp spec fn url_of(secret: Seq<u8>, id: Seq<char>, username: Seq<char>) -> Seq<char>;

/// Builds an account's TOTP instance together with its provisioning URI.
///
/// Relies on totp_rs::TOTP::new, which accepts exactly these parameters
/// whenever the secret holds at least 128 bits and neither the issuer nor
/// the label holds a colon (the issuer literal holds none), and on
/// totp_rs::TOTP::get_url, whose result is derived from the secret bytes,
/// the fixed parameters and the label alone.
#[verifier::external_body]
pub(crate) fn build_totp(secret: Vec<u8>, id: String, username: String) -> (r: (
    totp_rs::TOTP,
    String,
))
    requires
        secret@.len() >= 16,
        !id@.contains(':'),
        !username@.contains(':'),
    ensures
        r.1@ == url_of(secret@, id@, username@),
{
    let totp = totp_rs::TOTP::new(
        totp_rs::Algorithm::SHA256,
        6,
        1,
        30,
        secret,
        Some("SSC Example App".to_string()),
        format!("{} - {}", username, id),
    )
        .unwrap();
    let url = totp.get_url();
    (totp, url)
}

/// Builds an account's TOTP instance: SHA-256, six digits, skew one,
/// 30-second step, issuer "SSC Example App", label "<username> - <id>".
pub fn make_totp(secret: Vec<u8>, id: String, username: String) -> totp_rs::TOTP
    requires
        secret@.len() >= 16,
        !id@.contains(':'),
        !username@.contains(':'),
{
    build_totp(secret, id, username).0
}

/// Relies on totp_rs::TOTP::check_current: whether the submitted code
/// matches the current time step within the configured skew; a clock failure
/// counts as a mismatch. The outcome depends on the wall clock, so nothing
/// relates it to the inputs here.
#[verifier::external_body]
pub(crate) fn totp_check_current(totp: &totp_rs::TOTP, code: &str) -> bool {
    totp.check_current(code).unwrap_or(false)
}

/// Relies on the Clone impl of totp_rs::TOTP, a field-for-field derive over
/// plain data: the copy equals the instance cloned.
pub assume_specification[ <totp_rs::TOTP as Clone>::clone ](totp: &totp_rs::TOTP) -> (r:
    totp_rs::TOTP)
    ensures
        r == *totp,
;

/// Relies on qrcode::QrCode::new and the Dense1x2 unicode renderer: the text
/// QR rendering of `data`, a function of `data` alone.
#[verifier::external_body]
pub(crate) fn qr_code_text(data: &str) -> (s: String)
    ensures
        s@ == qr_text_of(data@),
{
    match qrcode::QrCode::new(data) {
        Ok(code) => code.render::<qrcode::render::unicode::Dense1x2>().build(),
        Err(_) => String::new(),
    }
}

} // verus!
