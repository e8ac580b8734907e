//! Sealing of secure save data.
//!
//! With a secret, data is sealed in an envelope: a random 16-byte salt, a
//! random 12-byte nonce, and the AES-256-GCM encryption of the data under the
//! key that Argon2 derives from the secret and the salt.  Without a secret,
//! data is only obfuscated with standard base64.

use vstd::prelude::*;
use aes_gcm::aead::{Aead, KeyInit};
use aes_gcm::aead::rand_core::RngCore;
use base64::Engine;

verus! {

/// The length of the salt at the start of an envelope.
pub const SALT_LEN: usize = 16;

/// The length of the nonce that follows the salt.
pub const NONCE_LEN: usize = 12;

/// The length of an envelope's header: salt and nonce.
pub const HEADER_LEN: usize = 28;

/// The largest plaintext that AES-GCM encrypts, in bytes.
pub const AES_GCM_MAX_PLAINTEXT: u64 = 0x10_0000_0000;

/// The 32-byte key that Argon2, with its default parameters, derives from a
/// password and a salt.
pub uninterp spec fn argon2_key(password: Seq<u8>, salt: Seq<u8>) -> Seq<u8>;

/// Whether Argon2 with its default parameters accepts a password and a salt.
pub open spec fn argon2_accepts(password: Seq<u8>, salt: Seq<u8>) -> bool {
    &&& password.len() <= 0xFFFF_FFFF
    &&& 8 <= salt.len() <= 0xFFFF_FFFF
}

/// Derives a 32-byte key from a password and a salt.
///
/// Trusted: `argon2::Argon2::default().hash_password_into`.  Its source
/// refuses a password longer than `0xFFFF_FFFF` bytes and a salt shorter than
/// 8 or longer than `0xFFFF_FFFF` bytes, and accepts a 32-byte output with
/// the default parameters.  The contract claims exactly that, and names the
/// key `argon2_key(password, salt)`.
#[verifier::external_body]
pub(crate) fn argon2_derive(password: &[u8], salt: &[u8]) -> (r: Option<Vec<u8>>)
    ensures
        r is Some <==> argon2_accepts(password@, salt@),
        r matches Some(k) ==> k@ == argon2_key(password@, salt@) && k@.len() == 32,
{
    let mut key = [0u8; 32];
    match argon2::Argon2::default().hash_password_into(password, salt, &mut key) {
        Ok(()) => Some(key.to_vec()),
        Err(_) => None,
    }
}

/// The AES-256-GCM encryption, with its 16-byte tag appended, of a
/// plaintext under a key and a nonce.
pub uninterp spec fn aes_gcm_seal(key: Seq<u8>, nonce: Seq<u8>, plaintext: Seq<u8>) -> Seq<u8>;

/// The AES-256-GCM decryption of a ciphertext with its tag under a key and a
/// nonce: `None` when the tag does not authenticate it.
pub uninterp spec fn aes_gcm_open(key: Seq<u8>, nonce: Seq<u8>, ciphertext: Seq<u8>) -> Option<
    Seq<u8>,
>;

/// Encrypts `plaintext` with AES-256-GCM.
///
/// Trusted: `aes_gcm::Aes256Gcm::new` and `Aead::encrypt`.  The key and the
/// nonce are taken by `from_slice`, which panics on another length; the
/// source refuses a plaintext longer than 2^36 bytes, and otherwise returns
/// the plaintext's length in ciphertext followed by a 16-byte tag.  The
/// contract claims that, and names the ciphertext
/// `aes_gcm_seal(key, nonce, plaintext)`.
#[verifier::external_body]
pub(crate) fn aes_gcm_encrypt(key: &[u8], nonce: &[u8], plaintext: &[u8]) -> (r: Option<Vec<u8>>)
    requires
        key@.len() == 32,
        nonce@.len() == 12,
    ensures
        r is Some <==> plaintext@.len() <= AES_GCM_MAX_PLAINTEXT,
        r matches Some(c) ==> c@ == aes_gcm_seal(key@, nonce@, plaintext@),
        r matches Some(c) ==> c@.len() == plaintext@.len() + 16,
{
    let cipher = aes_gcm::Aes256Gcm::new(aes_gcm::Key::<aes_gcm::Aes256Gcm>::from_slice(key));
    cipher.encrypt(aes_gcm::Nonce::from_slice(nonce), plaintext).ok()
}

/// Decrypts `ciphertext` with AES-256-GCM.
///
/// Trusted: `aes_gcm::Aes256Gcm::new` and `Aead::decrypt`.  The key and the
/// nonce are taken by `from_slice`, which panics on another length.  The
/// contract names the outcome `aes_gcm_open(key, nonce, ciphertext)`,
/// claims that a ciphertext shorter than the 16-byte tag is refused (as the
/// source checks before anything else), and claims what AES-GCM is for: what
/// was encrypted under a key and a nonce decrypts under them to the
/// plaintext.
#[verifier::external_body]
pub(crate) fn aes_gcm_decrypt(key: &[u8], nonce: &[u8], ciphertext: &[u8]) -> (r: Option<Vec<u8>>)
    requires
        key@.len() == 32,
        nonce@.len() == 12,
    ensures
        match r {
            Some(p) => aes_gcm_open(key@, nonce@, ciphertext@) == Some(p@),
            None => aes_gcm_open(key@, nonce@, ciphertext@) is None,
        },
        ciphertext@.len() < 16 ==> r is None,
        forall|p: Seq<u8>|
            p.len() <= AES_GCM_MAX_PLAINTEXT && #[trigger] aes_gcm_seal(key@, nonce@, p)
                == ciphertext@ ==> r.is_some() && r.unwrap()@ == p,
{
    let cipher = aes_gcm::Aes256Gcm::new(aes_gcm::Key::<aes_gcm::Aes256Gcm>::from_slice(key));
    cipher.decrypt(aes_gcm::Nonce::from_slice(nonce), ciphertext).ok()
}

/// `n` random bytes.
///
/// Trusted: `rand_core::OsRng::fill_bytes` through `aes_gcm::aead::OsRng`.
/// The bytes come from the operating system, so the contract claims only
/// their number.
#[verifier::external_body]
pub(crate) fn random_bytes(n: usize) -> (r: Vec<u8>)
    ensures
        r@.len() == n,
{
    let mut bytes = vec![0u8; n];
    aes_gcm::aead::OsRng.fill_bytes(&mut bytes);
    bytes
}

/// The standard base64 encoding, with padding, of some bytes, as the bytes
/// of its ASCII text.
pub uninterp spec fn base64_encoding(data: Seq<u8>) -> Seq<u8>;

/// The bytes that a standard base64 text decodes to, or `None` when it is no
/// valid base64.
pub uninterp spec fn base64_decoding(text: Seq<u8>) -> Option<Seq<u8>>;

/// Whether base64 can encode `n` bytes without its length computation
/// overflowing a `usize`.
pub open spec fn base64_encodable_len(n: int) -> bool {
    if n % 3 == 0 {
        (n / 3) * 4 <= usize::MAX
    } else {
        (n / 3) * 4 + 4 <= usize::MAX
    }
}

/// Encodes `data` in standard base64.
///
/// Trusted: `base64::engine::general_purpose::STANDARD.encode`, whose
/// source panics when the length of the encoding overflows a `usize`.  The
/// contract names the result `base64_encoding(data)`.
#[verifier::external_body]
pub(crate) fn base64_encode(data: &[u8]) -> (r: Vec<u8>)
    requires
        base64_encodable_len(data@.len() as int),
    ensures
        r@ == base64_encoding(data@),
{
    base64::engine::general_purpose::STANDARD.encode(data).into_bytes()
}

/// Decodes standard base64 text.
///
/// Trusted: `base64::engine::general_purpose::STANDARD.decode`.  The
/// contract names the outcome `base64_decoding(text)`, and claims what the
/// encoding is for: the encoding of some bytes decodes to them.  The text of
/// the error is the crate's and is not stated.
#[verifier::external_body]
pub(crate) fn base64_decode(text: &[u8]) -> (r: Result<Vec<u8>, String>)
    ensures
        match r {
            Ok(d) => base64_decoding(text@) == Some(d@),
            Err(_) => base64_decoding(text@) is None,
        },
        forall|d: Seq<u8>| #[trigger] base64_encoding(d) == text@ ==> r.is_ok() && r.unwrap()@ == d,
{
    base64::engine::general_purpose::STANDARD.decode(text).map_err(|e| e.to_string())
}

/// The text that some bytes are the UTF-8 encoding of.
///
/// Trusted: `String::from_utf8`, which succeeds exactly on valid UTF-8 and
/// then holds the characters those bytes encode.  The text of the error is
/// std's and is not stated.
#[verifier::external_body]
pub(crate) fn string_from_utf8(bytes: Vec<u8>) -> (r: Result<String, String>)
    ensures
        match r {
            Ok(s) => vstd::utf8::valid_utf8(bytes@) && s@ == vstd::utf8::decode_utf8(bytes@),
            Err(_) => !vstd::utf8::valid_utf8(bytes@),
        },
{
    String::from_utf8(bytes).map_err(|e| e.to_string())
}

/// The envelope that sealing `data` under `secret` with a salt and a nonce
/// gives.
pub open spec fn seal_envelope(secret: Seq<u8>, salt: Seq<u8>, nonce: Seq<u8>, data: Seq<u8>) -> Seq<u8> {
    salt + nonce + aes_gcm_seal(argon2_key(secret, salt), nonce, data)
}

/// What opening an envelope under `secret` gives: the data, or `None` when
/// the envelope is too short for its header, Argon2 refuses the secret, or
/// the ciphertext does not authenticate.
pub open spec fn open_envelope(secret: Seq<u8>, envelope: Seq<u8>) -> Option<Seq<u8>> {
    if envelope.len() < HEADER_LEN {
        None
    } else {
        let salt = envelope.subrange(0, SALT_LEN as int);
        let nonce = envelope.subrange(SALT_LEN as int, HEADER_LEN as int);
        let ciphertext = envelope.subrange(HEADER_LEN as int, envelope.len() as int);
        if !argon2_accepts(secret, salt) {
            None
        } else {
            aes_gcm_open(argon2_key(secret, salt), nonce, ciphertext)
        }
    }
}

/// `envelope` is what sealing `data` under `secret` gives for some salt and
/// nonce.
pub open spec fn is_sealed(secret: Seq<u8>, data: Seq<u8>, envelope: Seq<u8>) -> bool {
    exists|salt: Seq<u8>, nonce: Seq<u8>|
        salt.len() == SALT_LEN && nonce.len() == NONCE_LEN && argon2_accepts(secret, salt)
            && data.len() <= AES_GCM_MAX_PLAINTEXT && #[trigger] seal_envelope(
            secret,
            salt,
            nonce,
            data,
        ) == envelope
}

/// The salt, nonce and ciphertext of a sealed envelope are where opening it
/// reads them.
pub proof fn lemma_envelope_parts(secret: Seq<u8>, salt: Seq<u8>, nonce: Seq<u8>, data: Seq<u8>)
    requires
        salt.len() == SALT_LEN,
        nonce.len() == NONCE_LEN,
    ensures
        ({
            let e = seal_envelope(secret, salt, nonce, data);
            &&& e.len() >= HEADER_LEN
            &&& e.subrange(0, SALT_LEN as int) == salt
            &&& e.subrange(SALT_LEN as int, HEADER_LEN as int) == nonce
            &&& e.subrange(HEADER_LEN as int, e.len() as int) == aes_gcm_seal(
                argon2_key(secret, salt),
                nonce,
                data,
            )
        }),
{
    let e = seal_envelope(secret, salt, nonce, data);
    assert(e.subrange(0, SALT_LEN as int) =~= salt);
    assert(e.subrange(SALT_LEN as int, HEADER_LEN as int) =~= nonce);
    assert(e.subrange(HEADER_LEN as int, e.len() as int) =~= aes_gcm_seal(
        argon2_key(secret, salt),
        nonce,
        data,
    ));
}

} // verus!
