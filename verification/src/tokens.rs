//! Secret tokens: random hex tokens, their SHA-256 hashes for storage,
//! random passwords and password hashing.

use rand::Rng;
use sha2::Digest;
use vstd::prelude::*;
use vstd::string::*;
use vstd::utf8::*;

use crate::text::{ascii_hexdigit, chars_of, is_ascii_alnum, is_ascii_hexdigit};

verus! {

// ---------------------------------------------------------------------------
// Hex encoding
// ---------------------------------------------------------------------------

/// The lowercase hex digit of a value below 16.
pub open spec fn hex_digit(v: nat) -> char {
    if v < 10 {
        ((v + 48) as u8) as char
    } else {
        ((v + 87) as u8) as char
    }
}

/// Lowercase hex encoding: two digits per byte, high nibble first.
pub open spec fn hex_lower(bytes: Seq<u8>) -> Seq<char>
    decreases bytes.len(),
{
    if bytes.len() == 0 {
        seq![]
    } else {
        seq![hex_digit((bytes[0] / 16) as nat), hex_digit((bytes[0] % 16) as nat)] + hex_lower(
            bytes.drop_first(),
        )
    }
}

/// A lowercase hexadecimal digit `0`..=`9` or `a`..=`f`.
pub open spec fn is_lower_hexdigit(c: char) -> bool {
    ('0' <= c && c <= '9') || ('a' <= c && c <= 'f')
}

/// `hex::encode`: lowercase hex, two digits per byte.
#[verifier::external_body]
fn hex_encode(bytes: &[u8]) -> (r: String)
    ensures
        r@ == hex_lower(bytes@),
{
    hex::encode(bytes)
}

/// Hex encoding doubles the length and uses lowercase hex digits only.
pub proof fn lemma_hex_lower_shape(bytes: Seq<u8>)
    ensures
        hex_lower(bytes).len() == 2 * bytes.len(),
        forall|i: int| 0 <= i < hex_lower(bytes).len() ==> is_lower_hexdigit(#[trigger] hex_lower(bytes)[i]),
    decreases bytes.len(),
{
    if bytes.len() > 0 {
        lemma_hex_lower_shape(bytes.drop_first());
        let hi = (bytes[0] / 16) as nat;
        let lo = (bytes[0] % 16) as nat;
        assert(is_lower_hexdigit(hex_digit(hi)));
        assert(is_lower_hexdigit(hex_digit(lo)));
        let h = hex_lower(bytes);
        let t = hex_lower(bytes.drop_first());
        assert forall|i: int| 0 <= i < h.len() implies is_lower_hexdigit(#[trigger] h[i]) by {
            if i >= 2 {
                assert(h[i] == t[i - 2]);
            }
        }
    }
}

// ---------------------------------------------------------------------------
// SHA-256 and randomness
// ---------------------------------------------------------------------------

/// The SHA-256 digest of a byte sequence.
pub uninterp spec fn sha256_digest(data: Seq<u8>) -> Seq<u8>;

/// `sha2::Sha256` (new, update, finalize): the 32-byte digest, named by `sha256_digest`.
#[verifier::external_body]
fn sha256(data: &[u8]) -> (r: Vec<u8>)
    ensures
        r@ == sha256_digest(data@),
        r@.len() == 32,
{
    let mut hasher = sha2::Sha256::new();
    hasher.update(data);
    hasher.finalize().to_vec()
}

/// `rand::rng().fill`: `n` random bytes; nothing is known of their values.
#[verifier::external_body]
fn random_bytes(n: usize) -> (r: Vec<u8>)
    ensures
        r@.len() == n,
{
    let mut buf = vec![0u8; n];
    rand::rng().fill(&mut buf[..]);
    buf
}

/// `rand::rng().sample_iter(Alphanumeric)`: `n` random ASCII letters and digits.
#[verifier::external_body]
fn random_alphanumeric(n: usize) -> (r: String)
    ensures
        r@.len() == n,
        forall|i: int| 0 <= i < n ==> is_ascii_alnum(#[trigger] r@[i]),
{
    rand::rng().sample_iter(&rand::distr::Alphanumeric).take(n).map(char::from).collect()
}

/// `rand::rng().random_range(lo..=hi)`: a random number in `lo..=hi`.
#[verifier::external_body]
pub(crate) fn random_in_range(lo: u32, hi: u32) -> (r: u32)
    requires
        lo <= hi,
    ensures
        lo <= r <= hi,
{
    rand::rng().random_range(lo..=hi)
}

// ---------------------------------------------------------------------------
// Tokens
// ---------------------------------------------------------------------------

/// Number of random bytes in a token (256 bits).
pub const TOKEN_BYTES: usize = 32;

/// A token as issued: 64 lowercase hex digits.
pub open spec fn is_issued_token(s: Seq<char>) -> bool {
    s.len() == 64 && forall|i: int| 0 <= i < 64 ==> is_lower_hexdigit(#[trigger] s[i])
}

/// The stored form of a token: hex of the SHA-256 digest of its UTF-8 bytes.
pub open spec fn token_hash(token: Seq<char>) -> Seq<char> {
    hex_lower(sha256_digest(encode_utf8(token)))
}

/// The token made of the given bytes: their lowercase hex digits, two per
/// byte.
pub fn token_from_bytes(bytes: &[u8]) -> (r: String)
    ensures
        r@ == hex_lower(bytes@),
        r@.len() == 2 * bytes@.len(),
{
    let r = hex_encode(bytes);
    proof {
        lemma_hex_lower_shape(bytes@);
    }
    r
}

/// Generate a random token: 32 random bytes as 64 lowercase hex digits.
pub fn generate_token() -> (r: String)
    ensures
        is_issued_token(r@),
        exists|b: Seq<u8>| b.len() == 32 && r@ == hex_lower(b),
{
    let bytes = random_bytes(TOKEN_BYTES);
    let r = token_from_bytes(bytes.as_slice());
    proof {
        lemma_hex_lower_shape(bytes@);
    }
    r
}

/// Hash a token for storage.
pub fn hash_token(token: &str) -> (r: String)
    ensures
        r@ == token_hash(token@),
        r@.len() == 64,
{
    let bytes = token.as_bytes();
    proof {
        assert(token.spec_bytes() == encode_utf8(token@));
    }
    let digest = sha256(bytes);
    let r = hex_encode(digest.as_slice());
    proof {
        lemma_hex_lower_shape(digest@);
    }
    r
}

/// Generate a refresh token string.
pub fn generate_refresh_token_string() -> (r: String)
    ensures
        is_issued_token(r@),
{
    generate_token()
}

/// Generate an email verification token.
pub fn generate_verification_token() -> (r: String)
    ensures
        is_issued_token(r@),
{
    generate_token()
}

/// Hash an email verification token for storage.
pub fn hash_verification_token(token: &str) -> (r: String)
    ensures
        r@ == token_hash(token@),
        r@.len() == 64,
{
    hash_token(token)
}

/// Generate a password reset token.
pub fn generate_password_reset_token() -> (r: String)
    ensures
        is_issued_token(r@),
{
    generate_token()
}

/// Hash a password reset token for storage.
pub fn hash_password_reset_token(token: &str) -> (r: String)
    ensures
        r@ == token_hash(token@),
        r@.len() == 64,
{
    hash_token(token)
}

/// An unsubscribe token is well-formed when it is 64 bytes of hex digits.
pub open spec fn valid_unsubscribe_token(raw: Seq<char>) -> bool {
    encode_utf8(raw).len() == 64 && forall|i: int| 0 <= i < raw.len() ==> is_ascii_hexdigit(#[trigger] raw[i])
}

proof fn lemma_ascii_utf8_len(s: Seq<char>)
    requires
        forall|i: int| 0 <= i < s.len() ==> (#[trigger] s[i] as u32) < 0x80,
    ensures
        encode_utf8(s).len() == s.len(),
    decreases s.len(),
{
    if s.len() > 0 {
        assert(s[0] as u32 <= 0x7F);
        let t = s.drop_first();
        assert forall|i: int| 0 <= i < t.len() implies (#[trigger] t[i] as u32) < 0x80 by {
            assert(t[i] == s[i + 1]);
        }
        lemma_ascii_utf8_len(t);
    }
}

/// Every token as issued passes the unsubscribe format check: 64 lowercase
/// hex digits are 64 bytes, each a hex digit.
pub proof fn lemma_issued_token_valid(s: Seq<char>)
    requires
        is_issued_token(s),
    ensures
        valid_unsubscribe_token(s),
{
    assert forall|i: int| 0 <= i < s.len() implies (#[trigger] s[i] as u32) < 0x80 by {
        assert(is_lower_hexdigit(s[i]));
    }
    assert forall|i: int| 0 <= i < s.len() implies is_ascii_hexdigit(#[trigger] s[i]) by {
        assert(is_lower_hexdigit(s[i]));
    }
    lemma_ascii_utf8_len(s);
}

/// The hex encoding of any 32 bytes, the form in which tokens are made,
/// passes the unsubscribe format check.
pub proof fn lemma_hex_token_valid(bytes: Seq<u8>)
    requires
        bytes.len() == 32,
    ensures
        valid_unsubscribe_token(hex_lower(bytes)),
{
    lemma_hex_lower_shape(bytes);
    lemma_issued_token_valid(hex_lower(bytes));
}

/// Check the format of an unsubscribe token (hex string, 64 chars for a 32-byte token).
pub fn is_valid_unsubscribe_token_format(raw_token: &str) -> (r: bool)
    ensures
        r == valid_unsubscribe_token(raw_token@),
        is_issued_token(raw_token@) ==> r,
{
    proof {
        if is_issued_token(raw_token@) {
            lemma_issued_token_valid(raw_token@);
        }
    }
    let s = chars_of(raw_token);
    let mut i: usize = 0;
    while i < s.len()
        invariant
            i <= s.len(),
            s@ == raw_token@,
            forall|j: int| 0 <= j < i ==> is_ascii_hexdigit(#[trigger] s@[j]),
        decreases s.len() - i,
    {
        if !ascii_hexdigit(s[i]) {
            return false;
        }
        i = i + 1;
    }
    proof {
        assert forall|j: int| 0 <= j < s@.len() implies (#[trigger] s@[j] as u32) < 0x80 by {
            assert(is_ascii_hexdigit(s@[j]));
        }
        lemma_ascii_utf8_len(s@);
    }
    s.len() == 64
}

// ---------------------------------------------------------------------------
// Passwords
// ---------------------------------------------------------------------------

/// Length of a password generated for an admin reset.
pub const RESET_PASSWORD_LEN: usize = 12;

/// Generate a random password for an admin reset: 12 ASCII letters and digits.
pub fn generate_random_password() -> (r: String)
    ensures
        r@.len() == 12,
        forall|i: int| 0 <= i < 12 ==> is_ascii_alnum(#[trigger] r@[i]),
{
    random_alphanumeric(RESET_PASSWORD_LEN)
}

#[verifier::external_type_specification]
#[verifier::external_body]
pub struct ExBcryptError(bcrypt::BcryptError);

/// Whether bcrypt accepts a password for a hash: `Some(matches)`, or `None`
/// when the hash is malformed.
pub uninterp spec fn bcrypt_verdict(password: Seq<char>, hash: Seq<char>) -> Option<bool>;

/// `bcrypt::hash` with the default cost: a hash with a random salt, so its
/// value is not stated; `bcrypt::verify` accepts the password for it.
#[verifier::external_body]
fn bcrypt_hash(password: &str) -> (r: Result<String, bcrypt::BcryptError>)
    ensures
        r matches Ok(h) ==> bcrypt_verdict(password@, h@) == Some(true),
{
    bcrypt::hash(password, bcrypt::DEFAULT_COST)
}

/// `bcrypt::verify`: its result is named by `bcrypt_verdict`.
#[verifier::external_body]
fn bcrypt_verify(password: &str, hash: &str) -> (r: Result<bool, bcrypt::BcryptError>)
    ensures
        r matches Ok(b) ==> bcrypt_verdict(password@, hash@) == Some(b),
        r is Err ==> bcrypt_verdict(password@, hash@) is None,
{
    bcrypt::verify(password, hash)
}

/// The text bcrypt gives for an error (its `Display`). What the text
/// holds is not stated: it depends on the error, which is opaque here.
#[verifier::external_body]
fn bcrypt_error_text(e: bcrypt::BcryptError) -> (r: String) {
    e.to_string()
}

/// Failure of password hashing or checking, with bcrypt's own message.
#[derive(Clone, PartialEq, Eq, Debug)]
pub enum PasswordError {
    /// The hashing library failed (salt generation or cost).
    HashingFailed(String),
    /// The stored hash is not a bcrypt hash.
    MalformedHash(String),
}

impl PasswordError {
    /// The text of the message for this error: bcrypt's message.
    pub open spec fn text(self) -> Seq<char> {
        match self {
            PasswordError::HashingFailed(t) => t@,
            PasswordError::MalformedHash(t) => t@,
        }
    }

    /// The message shown for this error.
    pub fn message(&self) -> (r: String)
        ensures
            r@ == self.text(),
    {
        match self {
            PasswordError::HashingFailed(t) => t.clone(),
            PasswordError::MalformedHash(t) => t.clone(),
        }
    }
}

/// Hash a password with bcrypt at the default cost; a failure carries
/// bcrypt's message.
pub fn hash_password(password: &str) -> (r: Result<String, PasswordError>)
    ensures
        r matches Ok(h) ==> bcrypt_verdict(password@, h@) == Some(true),
        r is Err ==> r matches Err(PasswordError::HashingFailed(_)),
{
    match bcrypt_hash(password) {
        Ok(h) => Ok(h),
        Err(e) => Err(PasswordError::HashingFailed(bcrypt_error_text(e))),
    }
}

/// Check a password against a stored bcrypt hash; a malformed hash gives
/// bcrypt's message.
pub fn verify_password(password: &str, hash: &str) -> (r: Result<bool, PasswordError>)
    ensures
        r matches Ok(b) ==> bcrypt_verdict(password@, hash@) == Some(b),
        r is Err <==> bcrypt_verdict(password@, hash@) is None,
        r is Err ==> r matches Err(PasswordError::MalformedHash(_)),
{
    match bcrypt_verify(password, hash) {
        Ok(b) => Ok(b),
        Err(e) => Err(PasswordError::MalformedHash(bcrypt_error_text(e))),
    }
}

} // verus!
