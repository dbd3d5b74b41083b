//! Domain services: API key generation and hashing, refresh-token hashing,
//! secret encryption at rest, key derivation and password hashing.
//!
//! The cryptographic primitives come from their crates; what is proved here
//! is how they are combined: which bytes are hashed, how a key is laid out,
//! and how an encrypted blob is framed and read back.

use vstd::prelude::*;
use vstd::string::*;
use vstd::utf8::*;

use crate::codec::{
    b62_encode, b62_encode_exec, hex_digit, is_lower_hex, is_lower_hex_char, is_uuid_v7, lemma_b62_len_lower_bound,
    new_uuid_v7,
};
use crate::domain::constants::API_KEY_PREFIX;
use crate::domain::errors::DomainError;
use crate::text::{concat2, has_prefix};

verus! {

// ── Names of the primitives' results ─────────────────────────────────────────

/// BLAKE2b with a 32-byte output, applied to `data`.
pub uninterp spec fn blake2b_256(data: Seq<u8>) -> Seq<u8>;

/// SHA-256 of `data`.
pub uninterp spec fn sha_256(data: Seq<u8>) -> Seq<u8>;

/// Standard-alphabet, padded base64 text of `data`.
pub uninterp spec fn base64_text(data: Seq<u8>) -> Seq<char>;

/// The bytes that standard padded base64 decoding gives for `text`, or
/// `None` where it rejects the text.
pub uninterp spec fn base64_bytes(text: Seq<char>) -> Option<Seq<u8>>;

/// AES-256-GCM sealing (ciphertext followed by the 16-byte tag) of
/// `plaintext` under `key` and `nonce`, with no associated data.
pub uninterp spec fn aes256gcm_seal(key: Seq<u8>, nonce: Seq<u8>, plaintext: Seq<u8>) -> Seq<u8>;

/// AES-256-GCM opening of `sealed` under `key` and `nonce`: the plaintext,
/// or `None` where authentication fails.
pub uninterp spec fn aes256gcm_open(key: Seq<u8>, nonce: Seq<u8>, sealed: Seq<u8>) -> Option<Seq<u8>>;

/// Largest plaintext, in bytes, that AES-GCM seals.
pub const AES_GCM_MAX_PLAINTEXT: u64 = 68_719_476_736;

// ── Trusted wrappers ─────────────────────────────────────────────────────────

/// `Blake2b<U32>::digest`: the 32-byte BLAKE2b digest of `data`.
#[verifier::external_body]
fn blake2b_256_digest(data: &[u8]) -> (r: Vec<u8>)
    ensures
        r@ == blake2b_256(data@),
        r@.len() == 32,
{
    <blake2::Blake2b<blake2::digest::consts::U32> as blake2::Digest>::digest(data).to_vec()
}

/// Lowercase hexadecimal text of a byte string, two digits per byte.
pub open spec fn hex_lower(bytes: Seq<u8>) -> Seq<char>
    decreases bytes.len(),
{
    if bytes.len() == 0 {
        Seq::empty()
    } else {
        hex_lower(bytes.drop_last()) + seq![
            hex_digit((bytes.last() / 16) as nat),
            hex_digit((bytes.last() % 16) as nat),
        ]
    }
}

/// The hexadecimal text of `n` bytes is `2 * n` lowercase hex digits.
pub proof fn lemma_hex_lower_shape(bytes: Seq<u8>)
    ensures
        hex_lower(bytes).len() == 2 * bytes.len(),
        is_lower_hex(hex_lower(bytes)),
    decreases bytes.len(),
{
    if bytes.len() > 0 {
        lemma_hex_lower_shape(bytes.drop_last());
        let b = bytes.last();
        assert(b / 16 < 16 && b % 16 < 16);
        let h = hex_lower(bytes.drop_last());
        let t = seq![hex_digit((b / 16) as nat), hex_digit((b % 16) as nat)];
        assert(is_lower_hex_char(t[0]) && is_lower_hex_char(t[1]));
        assert forall|i: int| 0 <= i < (h + t).len() implies is_lower_hex_char(#[trigger] (h + t)[i]) by {
            if i < h.len() {
                assert((h + t)[i] == h[i]);
            } else {
                assert((h + t)[i] == t[i - h.len()]);
            }
        }
    }
}

/// `hex::encode`: lowercase hexadecimal, high nibble first, for each byte.
#[verifier::external_body]
fn hex_encode(bytes: &[u8]) -> (r: String)
    ensures
        r@ == hex_lower(bytes@),
{
    hex::encode(bytes)
}

/// `Sha256::digest`: the 32-byte SHA-256 digest of `data`.
#[verifier::external_body]
fn sha256_digest(data: &[u8]) -> (r: [u8; 32])
    ensures
        r@ == sha_256(data@),
{
    <sha2::Sha256 as sha2::Digest>::digest(data).into()
}

/// `base64::engine::general_purpose::STANDARD.encode`. Decoding the text
/// gives the bytes back (the engine's documented round trip); being padded,
/// the text has four characters for every started group of three bytes.
#[verifier::external_body]
fn base64_encode(data: &[u8]) -> (r: String)
    ensures
        r@ == base64_text(data@),
        base64_bytes(r@) == Some(data@),
        r@.len() == 4 * ((data@.len() + 2) / 3),
{
    base64::Engine::encode(&base64::engine::general_purpose::STANDARD, data)
}

/// `base64::engine::general_purpose::STANDARD.decode`; the error is the
/// display text of the decoding error.
#[verifier::external_body]
fn base64_decode(text: &str) -> (r: Result<Vec<u8>, String>)
    ensures
        match r {
            Ok(b) => base64_bytes(text@) == Some(b@),
            Err(_) => base64_bytes(text@) is None,
        },
{
    match base64::Engine::decode(&base64::engine::general_purpose::STANDARD, text) {
        Ok(b) => Ok(b),
        Err(e) => Err(format!("{e}")),
    }
}

/// `Aes256Gcm::generate_nonce(&mut OsRng)`: a fresh random 96-bit nonce.
#[verifier::external_body]
fn random_nonce() -> (r: [u8; 12]) {
    <aes_gcm::Aes256Gcm as aes_gcm::AeadCore>::generate_nonce(&mut aes_gcm::aead::OsRng).into()
}

/// `Aead::encrypt` of `Aes256Gcm` with no associated data. It fails only on
/// a plaintext longer than `AES_GCM_MAX_PLAINTEXT` bytes; what it returns is
/// the ciphertext (as long as the plaintext) followed by the 16-byte tag,
/// and opening it under the same key and nonce gives the plaintext back. The error is
/// the display text of `aead::Error`.
#[verifier::external_body]
fn aes_seal(key: &[u8; 32], nonce: &[u8; 12], plaintext: &[u8]) -> (r: Result<Vec<u8>, String>)
    ensures
        r is Ok <==> plaintext@.len() <= AES_GCM_MAX_PLAINTEXT,
        r matches Ok(c) ==> c@ == aes256gcm_seal(key@, nonce@, plaintext@),
        r matches Ok(c) ==> c@.len() == plaintext@.len() + 16,
        r matches Ok(c) ==> aes256gcm_open(key@, nonce@, c@) == Some(plaintext@),
{
    let cipher = <aes_gcm::Aes256Gcm as aes_gcm::KeyInit>::new(key.into());
    match aes_gcm::aead::Aead::encrypt(&cipher, nonce.into(), plaintext) {
        Ok(c) => Ok(c),
        Err(e) => Err(format!("{e}")),
    }
}

/// `Aead::decrypt` of `Aes256Gcm` with no associated data; the error is the
/// display text of `aead::Error`.
#[verifier::external_body]
fn aes_open(key: &[u8; 32], nonce: &[u8], sealed: &[u8]) -> (r: Result<Vec<u8>, String>)
    requires
        nonce@.len() == 12,
    ensures
        match r {
            Ok(p) => aes256gcm_open(key@, nonce@, sealed@) == Some(p@),
            Err(_) => aes256gcm_open(key@, nonce@, sealed@) is None,
        },
{
    let cipher = <aes_gcm::Aes256Gcm as aes_gcm::KeyInit>::new(key.into());
    match aes_gcm::aead::Aead::decrypt(&cipher, aes_gcm::Nonce::from_slice(nonce), sealed) {
        Ok(p) => Ok(p),
        Err(e) => Err(format!("{e}")),
    }
}

/// `String::from_utf8`: succeeds exactly on valid UTF-8; the error is the
/// display text of `FromUtf8Error`.
#[verifier::external_body]
fn utf8_string(bytes: Vec<u8>) -> (r: Result<String, String>)
    ensures
        r is Ok <==> valid_utf8(bytes@),
        r matches Ok(s) ==> s@ == decode_utf8(bytes@),
{
    match String::from_utf8(bytes) {
        Ok(s) => Ok(s),
        Err(e) => Err(format!("{e}")),
    }
}

/// `rand::thread_rng().fill_bytes` on 16 bytes, read big-endian.
#[verifier::external_body]
fn random_u128() -> (r: u128) {
    let mut bytes = [0u8; 16];
    rand::RngCore::fill_bytes(&mut rand::thread_rng(), &mut bytes);
    u128::from_be_bytes(bytes)
}

/// Argon2 verification of `password` against the PHC string `phc`: false
/// when the string does not parse or the password does not match.
pub uninterp spec fn argon2_accepts(password: Seq<u8>, phc: Seq<char>) -> bool;

/// Start of the PHC string of an Argon2 hash made with the default
/// algorithm (Argon2id), version (19) and parameters (19456 KiB, 2 passes,
/// 1 lane), before the salt and the hash.
pub const ARGON2_DEFAULT_PHC_PREFIX: &'static str = "$argon2id$v=19$m=19456,t=2,p=1$";

/// Longest password, in bytes, that Argon2 hashes (`argon2::MAX_PWD_LEN`).
pub const ARGON2_MAX_PASSWORD_BYTES: u64 = 0xFFFF_FFFF;

/// `Argon2::default().hash_password` of `password` with a fresh random salt
/// (`SaltString::generate`), displayed as its PHC string; the error is the
/// display text of `password_hash::Error`. With the default parameters and a
/// generated 16-byte salt, the only input check that can fail is the
/// password length (`verify_inputs`), so a password of at most
/// `MAX_PWD_LEN` bytes is hashed. A string it returns starts with the
/// default algorithm, version and parameters, and verification of the same
/// password against it succeeds (verification recomputes the hash from the
/// salt and parameters in the string). Which salt was drawn is left unsaid.
#[verifier::external_body]
fn argon2_hash(password: &[u8]) -> (r: Result<String, String>)
    ensures
        password@.len() <= ARGON2_MAX_PASSWORD_BYTES ==> r is Ok,
        r matches Ok(h) ==> has_prefix(h@, ARGON2_DEFAULT_PHC_PREFIX@) && argon2_accepts(password@, h@),
{
    let salt = argon2::password_hash::SaltString::generate(&mut argon2::password_hash::rand_core::OsRng);
    match argon2::PasswordHasher::hash_password(&argon2::Argon2::default(), password, &salt) {
        Ok(h) => Ok(h.to_string()),
        Err(e) => Err(format!("{e}")),
    }
}

// ── Byte helpers ─────────────────────────────────────────────────────────────

/// Concatenation of two byte strings.
fn concat_bytes(a: &[u8], b: &[u8]) -> (r: Vec<u8>)
    ensures
        r@ == a@ + b@,
{
    let mut r: Vec<u8> = Vec::new();
    let mut i: usize = 0;
    while i < a.len()
        invariant
            i <= a@.len(),
            r@ == a@.subrange(0, i as int),
        decreases a@.len() - i,
    {
        r.push(a[i]);
        i += 1;
    }
    let mut j: usize = 0;
    while j < b.len()
        invariant
            j <= b@.len(),
            r@ == a@ + b@.subrange(0, j as int),
        decreases b@.len() - j,
    {
        r.push(b[j]);
        j += 1;
    }
    assert(a@.subrange(0, a@.len() as int) =~= a@);
    assert(b@.subrange(0, b@.len() as int) =~= b@);
    r
}

// ── Hashing ──────────────────────────────────────────────────────────────────

/// Hex BLAKE2b-256 of the UTF-8 bytes of `s`.
pub open spec fn blake2_hex(bytes: Seq<u8>) -> Seq<char> {
    hex_lower(blake2b_256(bytes))
}

/// Hashes a raw API key: lowercase hex of BLAKE2b-256 over its UTF-8 bytes.
pub fn hash_api_key(raw_key: &str) -> (r: String)
    ensures
        r@ == blake2_hex(raw_key.spec_bytes()),
        r@.len() == 64,
        is_lower_hex(r@),
{
    let digest = blake2b_256_digest(raw_key.as_bytes());
    proof {
        lemma_hex_lower_shape(digest@);
    }
    hex_encode(digest.as_slice())
}

/// Domain-separation prefix hashed in front of every refresh token.
pub const REFRESH_TOKEN_HASH_CONTEXT: &'static str = "veronex-refresh-token-v1:";

/// Hashes a refresh token: lowercase hex of BLAKE2b-256 over the context
/// prefix followed by the token's UTF-8 bytes.
pub fn hash_token(raw: &str) -> (r: String)
    ensures
        r@ == blake2_hex(REFRESH_TOKEN_HASH_CONTEXT.spec_bytes() + raw.spec_bytes()),
        r@.len() == 64,
        is_lower_hex(r@),
{
    let data = concat_bytes(REFRESH_TOKEN_HASH_CONTEXT.as_bytes(), raw.as_bytes());
    let digest = blake2b_256_digest(data.as_slice());
    proof {
        lemma_hex_lower_shape(digest@);
    }
    hex_encode(digest.as_slice())
}

// ── API key generation ───────────────────────────────────────────────────────

/// Smallest random value whose base62 text has nine digits (`62^8`), so
/// that the key text `iq_<base62>` has its twelve-character prefix.
pub const MIN_KEY_RANDOM: u128 = 218_340_105_584_896;

/// Plaintext of the API key made from `random`: the key prefix followed by
/// the base62 digits of `random`.
pub open spec fn api_key_text(random: u128) -> Seq<char> {
    API_KEY_PREFIX@ + b62_encode(random as nat)
}

/// The parts of a freshly generated API key.
#[derive(Debug, Clone, PartialEq, Eq)]
pub struct GeneratedApiKey {
    /// Database id (UUIDv7, as its 128-bit value).
    pub id: u128,
    /// The plaintext key, shown once to its owner.
    pub plaintext: String,
    /// Stored hash of the plaintext.
    pub key_hash: String,
    /// First twelve characters of the plaintext, kept for display.
    pub key_prefix: String,
}

proof fn lemma_min_key_random_digits(random: u128)
    requires
        random >= MIN_KEY_RANDOM,
    ensures
        b62_encode(random as nat).len() >= 9,
{
    reveal_with_fuel(vstd::arithmetic::power::pow, 9);
    assert(vstd::arithmetic::power::pow(62, 8) == 218_340_105_584_896);
    lemma_b62_len_lower_bound(random as nat, 8);
}

/// Builds the key material for id `id` from the random value `random`.
pub fn api_key_from_random(id: u128, random: u128) -> (r: GeneratedApiKey)
    requires
        random >= MIN_KEY_RANDOM,
    ensures
        r.id == id,
        r.plaintext@ == api_key_text(random),
        r.key_hash@ == blake2_hex(encode_utf8(r.plaintext@)),
        r.key_hash@.len() == 64,
        is_lower_hex(r.key_hash@),
        r.key_prefix@ == r.plaintext@.subrange(0, 12),
        r.key_prefix@.len() == 12,
{
    let encoded = b62_encode_exec(random);
    proof {
        lemma_min_key_random_digits(random);
        reveal_strlit("iq_");
    }
    let plaintext = concat2(API_KEY_PREFIX, encoded.as_str());
    let key_hash = hash_api_key(plaintext.as_str());
    let key_prefix = plaintext.as_str().substring_char(0, 12).to_owned();
    GeneratedApiKey { id, plaintext, key_hash, key_prefix }
}

/// Generates a new API key: a UUIDv7 id and 128 random bits rendered as
/// `iq_<base62>`. A draw below `MIN_KEY_RANDOM` (one in about 2^80), whose
/// text would be too short for the twelve-character prefix, is raised by
/// `MIN_KEY_RANDOM`.
pub fn generate_api_key() -> (r: GeneratedApiKey)
    ensures
        is_uuid_v7(r.id),
        exists|random: u128| random >= MIN_KEY_RANDOM && r.plaintext@ == api_key_text(random),
        r.key_hash@ == blake2_hex(encode_utf8(r.plaintext@)),
        r.key_hash@.len() == 64,
        is_lower_hex(r.key_hash@),
        r.key_prefix@ == r.plaintext@.subrange(0, 12),
        r.key_prefix@.len() == 12,
{
    let id = new_uuid_v7();
    let drawn = random_u128();
    let random = if drawn < MIN_KEY_RANDOM {
        drawn + MIN_KEY_RANDOM
    } else {
        drawn
    };
    api_key_from_random(id, random)
}

// ── Encryption at rest ───────────────────────────────────────────────────────

/// Why encryption or decryption failed; each carries the display text of the
/// underlying error where there is one.
#[derive(Debug, Clone, PartialEq, Eq)]
pub enum CryptoError {
    Encrypt(String),
    Base64(String),
    TooShort,
    Decrypt(String),
    Utf8(String),
}

/// Which step of decryption fails, or none.
#[derive(Debug, Clone, Copy, PartialEq, Eq)]
pub enum DecryptStep {
    Base64,
    TooShort,
    Decrypt,
    Utf8,
}

/// The outcome of decrypting `encoded` under `key`: base64-decode, take a
/// 12-byte nonce, open the rest, read it as UTF-8.
pub open spec fn decryption(key: Seq<u8>, encoded: Seq<char>) -> Result<Seq<char>, DecryptStep> {
    match base64_bytes(encoded) {
        None => Err(DecryptStep::Base64),
        Some(b) => if b.len() < 12 {
            Err(DecryptStep::TooShort)
        } else {
            match aes256gcm_open(key, b.subrange(0, 12), b.subrange(12, b.len() as int)) {
                None => Err(DecryptStep::Decrypt),
                Some(p) => if valid_utf8(p) {
                    Ok(decode_utf8(p))
                } else {
                    Err(DecryptStep::Utf8)
                },
            }
        },
    }
}

impl CryptoError {
    /// The decryption step this error reports.
    pub open spec fn step(&self) -> Option<DecryptStep> {
        match self {
            CryptoError::Encrypt(_) => None,
            CryptoError::Base64(_) => Some(DecryptStep::Base64),
            CryptoError::TooShort => Some(DecryptStep::TooShort),
            CryptoError::Decrypt(_) => Some(DecryptStep::Decrypt),
            CryptoError::Utf8(_) => Some(DecryptStep::Utf8),
        }
    }

    /// Display text of the error.
    pub open spec fn message(&self) -> Seq<char> {
        match self {
            CryptoError::Encrypt(e) => "encryption failed: "@ + e@,
            CryptoError::Base64(e) => "base64 decode failed: "@ + e@,
            CryptoError::TooShort => "ciphertext too short"@,
            CryptoError::Decrypt(e) => "decryption failed: "@ + e@,
            CryptoError::Utf8(e) => "invalid UTF-8: "@ + e@,
        }
    }

    /// Renders the display text.
    pub fn to_string(&self) -> (r: String)
        ensures
            r@ == self.message(),
    {
        match self {
            CryptoError::Encrypt(e) => concat2("encryption failed: ", e.as_str()),
            CryptoError::Base64(e) => concat2("base64 decode failed: ", e.as_str()),
            CryptoError::TooShort => "ciphertext too short".to_owned(),
            CryptoError::Decrypt(e) => concat2("decryption failed: ", e.as_str()),
            CryptoError::Utf8(e) => concat2("invalid UTF-8: ", e.as_str()),
        }
    }
}

/// The UTF-8 encoding of a text has at least one byte per character.
proof fn lemma_utf8_at_least_chars(cs: Seq<char>)
    ensures
        encode_utf8(cs).len() >= cs.len(),
    decreases cs.len(),
{
    if cs.len() > 0 {
        lemma_utf8_at_least_chars(cs.drop_first());
        assert(encode_scalar(cs[0] as u32).len() >= 1);
    }
}

/// Encrypts `plaintext` with AES-256-GCM under a fresh random nonce and
/// returns base64 of `nonce || ciphertext`. Decrypting the result under the
/// same key gives the plaintext back.
pub fn encrypt(plaintext: &str, master_key: &[u8; 32]) -> (r: Result<String, CryptoError>)
    ensures
        r is Ok <==> plaintext.spec_bytes().len() <= AES_GCM_MAX_PLAINTEXT,
        r matches Ok(t) ==> exists|nonce: Seq<u8>|
            nonce.len() == 12 && t@ == base64_text(
                nonce + aes256gcm_seal(master_key@, nonce, plaintext.spec_bytes()),
            ),
        r matches Ok(t) ==> decryption(master_key@, t@) == Ok::<Seq<char>, DecryptStep>(plaintext@),
        r matches Ok(t) ==> t@.len() > plaintext@.len() && t@ != plaintext@,
        r matches Err(e) ==> e is Encrypt,
{
    let nonce = random_nonce();
    match aes_seal(master_key, &nonce, plaintext.as_bytes()) {
        Ok(sealed) => {
            let combined = concat_bytes(nonce.as_slice(), sealed.as_slice());
            let text = base64_encode(combined.as_slice());
            proof {
                let b = combined@;
                assert(b.subrange(0, 12) =~= nonce@);
                assert(b.subrange(12, b.len() as int) =~= sealed@);
                encode_utf8_valid_utf8(plaintext@);
                encode_utf8_decode_utf8(plaintext@);
                lemma_utf8_at_least_chars(plaintext@);
                let m = b.len() as int;
                assert(4 * ((m + 2) / 3) >= m) by (nonlinear_arith)
                    requires
                        m >= 0,
                ;
                assert(text@.len() > plaintext@.len());
            }
            Ok(text)
        },
        Err(e) => Err(CryptoError::Encrypt(e)),
    }
}

/// Decrypts base64 `nonce || ciphertext` with AES-256-GCM.
pub fn decrypt(encoded: &str, master_key: &[u8; 32]) -> (r: Result<String, CryptoError>)
    ensures
        match decryption(master_key@, encoded@) {
            Ok(p) => r matches Ok(s) && s@ == p,
            Err(step) => r matches Err(e) && e.step() == Some(step),
        },
{
    let combined = match base64_decode(encoded) {
        Ok(b) => b,
        Err(e) => {
            return Err(CryptoError::Base64(e));
        },
    };
    if combined.len() < 12 {
        return Err(CryptoError::TooShort);
    }
    let (nonce, sealed) = combined.as_slice().split_at(12);
    let opened = match aes_open(master_key, nonce, sealed) {
        Ok(p) => p,
        Err(e) => {
            return Err(CryptoError::Decrypt(e));
        },
    };
    match utf8_string(opened) {
        Ok(s) => Ok(s),
        Err(e) => Err(CryptoError::Utf8(e)),
    }
}

/// Smallest base64-decoded length of a real ciphertext blob: a 12-byte
/// nonce and a 16-byte tag.
pub const MIN_CIPHERTEXT_BYTES: usize = 28;

/// `encoded` decodes as base64 to at least `MIN_CIPHERTEXT_BYTES` bytes.
pub open spec fn looks_like_ciphertext(encoded: Seq<char>) -> bool {
    match base64_bytes(encoded) {
        Some(b) => b.len() >= MIN_CIPHERTEXT_BYTES,
        None => false,
    }
}

/// Decrypts a stored secret, telling legacy plaintext from a damaged
/// ciphertext. Returns the plaintext and whether it must be re-encrypted:
/// on success `(plaintext, false)`; for a value that looks like a
/// ciphertext blob but does not decrypt, `(value, false)` so that it is not
/// overwritten; otherwise the value is legacy plaintext, `(value, true)`.
pub fn decrypt_or_legacy(encoded: &str, master_key: &[u8; 32]) -> (r: (String, bool))
    ensures
        match decryption(master_key@, encoded@) {
            Ok(p) => r.0@ == p && !r.1,
            Err(_) => r.0@ == encoded@ && r.1 == !looks_like_ciphertext(encoded@),
        },
{
    match decrypt(encoded, master_key) {
        Ok(plaintext) => (plaintext, false),
        Err(_) => {
            let looks = match base64_decode(encoded) {
                Ok(b) => b.len() >= MIN_CIPHERTEXT_BYTES,
                Err(_) => false,
            };
            (encoded.to_owned(), !looks)
        },
    }
}

/// Derives a 32-byte key from a secret of any length: SHA-256 of its UTF-8
/// bytes.
pub fn derive_key(secret: &str) -> (r: [u8; 32])
    ensures
        r@ == sha_256(secret.spec_bytes()),
{
    sha256_digest(secret.as_bytes())
}

// ── Passwords ────────────────────────────────────────────────────────────────

/// Hashes a password with Argon2 and a fresh random salt; a hashing failure
/// becomes a configuration error `password hashing failed: <reason>`. The
/// hash is a default-parameter Argon2id PHC string that the same password
/// verifies against. A password of at most `ARGON2_MAX_PASSWORD_BYTES`
/// bytes is always hashed.
pub fn hash_password(password: &str) -> (r: Result<String, DomainError>)
    ensures
        password.spec_bytes().len() <= ARGON2_MAX_PASSWORD_BYTES ==> r is Ok,
        r matches Ok(h) ==> has_prefix(h@, ARGON2_DEFAULT_PHC_PREFIX@)
            && argon2_accepts(password.spec_bytes(), h@),
        r matches Err(e) ==> (e matches DomainError::Configuration(m) && has_prefix(
            m@,
            "password hashing failed: "@,
        )),
{
    match argon2_hash(password.as_bytes()) {
        Ok(h) => Ok(h),
        Err(e) => {
            let m = concat2("password hashing failed: ", e.as_str());
            proof {
                assert(m@.subrange(0, "password hashing failed: "@.len() as int) =~= "password hashing failed: "@);
            }
            Err(DomainError::Configuration(m))
        },
    }
}

} // verus!
