//! The credential hasher and the password policy: a password needs at least
//! eight characters, an uppercase letter, a lowercase letter, a digit and a
//! symbol; accepted passwords are stored only as salted Argon2 hashes.

use vstd::prelude::*;

verus! {

/// Whether `c` has the Unicode uppercase property, as `char::is_uppercase`
/// decides it.
pub uninterp spec fn uppercase_char(c: char) -> bool;

/// Whether `c` has the Unicode lowercase property, as `char::is_lowercase`
/// decides it.
pub uninterp spec fn lowercase_char(c: char) -> bool;

/// Whether `c` is numeric, as `char::is_numeric` decides it.
pub uninterp spec fn numeric_char(c: char) -> bool;

/// Relies on char::is_uppercase: a function of the character alone.
#[verifier::external_body]
fn char_is_uppercase(c: char) -> (r: bool)
    ensures
        r == uppercase_char(c),
{
    c.is_uppercase()
}

/// Relies on char::is_lowercase: a function of the character alone.
#[verifier::external_body]
fn char_is_lowercase(c: char) -> (r: bool)
    ensures
        r == lowercase_char(c),
{
    c.is_lowercase()
}

/// Relies on char::is_numeric: a function of the character alone.
#[verifier::external_body]
fn char_is_numeric(c: char) -> (r: bool)
    ensures
        r == numeric_char(c),
{
    c.is_numeric()
}

/// The fixed set of accepted password symbols.
pub open spec fn symbol_char(c: char) -> bool {
    c == '!' || c == '@' || c == '#' || c == '$' || c == '%' || c == '^' || c == '&' || c == '*'
        || c == '(' || c == ')'
}

fn char_is_symbol(c: char) -> (r: bool)
    ensures
        r == symbol_char(c),
{
    c == '!' || c == '@' || c == '#' || c == '$' || c == '%' || c == '^' || c == '&' || c == '*'
        || c == '(' || c == ')'
}

/// The password policy: at least eight characters, among them an uppercase
/// letter, a lowercase letter, a digit and a symbol.
pub open spec fn valid_password(s: Seq<char>) -> bool {
    &&& s.len() >= 8
    &&& (exists|i: int| 0 <= i < s.len() && uppercase_char(s[i]))
    &&& (exists|i: int| 0 <= i < s.len() && lowercase_char(s[i]))
    &&& (exists|i: int| 0 <= i < s.len() && numeric_char(s[i]))
    &&& (exists|i: int| 0 <= i < s.len() && symbol_char(s[i]))
}

/// Decides the password policy.
pub fn validate_password(password: &str) -> (r: bool)
    ensures
        r == valid_password(password@),
{
    let len = password.unicode_len();
    if len < 8 {
        return false;
    }
    let mut has_upper = false;
    let mut has_lower = false;
    let mut has_digit = false;
    let mut has_symbol = false;
    let mut i: usize = 0;
    while i < len
        invariant
            0 <= i <= len,
            len == password@.len(),
            has_upper == (exists|j: int| 0 <= j < i && uppercase_char(password@[j])),
            has_lower == (exists|j: int| 0 <= j < i && lowercase_char(password@[j])),
            has_digit == (exists|j: int| 0 <= j < i && numeric_char(password@[j])),
            has_symbol == (exists|j: int| 0 <= j < i && symbol_char(password@[j])),
        decreases len - i,
    {
        let c = password.get_char(i);
        if char_is_uppercase(c) {
            has_upper = true;
        }
        if char_is_lowercase(c) {
            has_lower = true;
        }
        if char_is_numeric(c) {
            has_digit = true;
        }
        if char_is_symbol(c) {
            has_symbol = true;
        }
        i = i + 1;
    }
    has_upper && has_lower && has_digit && has_symbol
}

/// What Argon2 verification (default parameters) decides for a password and
/// a stored PHC hash string: a function of the two arguments alone.
pub uninterp spec fn argon2_matches(password: Seq<char>, hash: Seq<char>) -> bool;

/// Relies on argon2::Argon2::hash_password (the `PasswordHasher` impl) with a
/// fresh 128-bit salt from the operating system's CSPRNG. The result is a
/// PHC-format string, which always starts with `'$'`; verification against it
/// re-derives the hash from the salt and parameters carried in the string, so
/// the hashed password verifies. The salt is random, so nothing more is
/// stated of the result.
#[verifier::external_body]
pub(crate) fn hash_password(password: &str) -> (h: String)
    requires
        password@.len() <= 0x3FFF_FFFF,
    ensures
        h@.len() > 0,
        h@[0] == '$',
        argon2_matches(password@, h@),
{
    let mut salt_bytes = [0u8; 16];
    rand::TryRngCore::try_fill_bytes(&mut rand::rngs::OsRng, &mut salt_bytes).unwrap();
    let salt = argon2::password_hash::SaltString::encode_b64(&salt_bytes).unwrap();
    argon2::password_hash::PasswordHasher::hash_password(
        &argon2::Argon2::default(),
        password.as_bytes(),
        salt.as_salt(),
    )
        .unwrap()
        .to_string()
}

/// Relies on argon2::PasswordVerifier::verify_password with default
/// parameters: deterministic in the password bytes and the PHC hash string;
/// a malformed stored hash verifies as false.
#[verifier::external_body]
pub(crate) fn verify_password(password: &str, hash: &str) -> (r: bool)
    ensures
        r == argon2_matches(password@, hash@),
{
    match argon2::PasswordHash::new(hash) {
        Ok(parsed) => argon2::PasswordVerifier::verify_password(
            &argon2::Argon2::default(),
            password.as_bytes(),
            &parsed,
        ).is_ok(),
        Err(_) => false,
    }
}

/// Hashing is not the identity: a stored hash never equals the password it
/// was derived from, for any password that does not itself start with `'$'`
/// (PHC hash strings always do).
pub proof fn lemma_hash_not_password(password: Seq<char>, h: Seq<char>)
    requires
        h.len() > 0,
        h[0] == '$',
        password.len() == 0 || password[0] != '$',
    ensures
        h != password,
{
}

} // verus!
