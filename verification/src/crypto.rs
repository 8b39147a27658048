//! The cryptographic primitives, each behind a small trusted wrapper.
//!
//! The container logic in `codec` is verified against the contracts stated
//! here; the primitives themselves (Argon2, SHA-256, AES-256-CBC, the OS
//! random source) are supplied by outside crates and taken on trust.

use vstd::prelude::*;

verus! {

/// The key that Argon2 (default parameters) derives from a password and a
/// salt: a pure function of the two inputs.
pub uninterp spec fn key_of(password: Seq<u8>, salt: Seq<u8>) -> Seq<u8>;

/// The SHA-256 digest of a byte sequence: a pure function of the input.
pub uninterp spec fn sha256_of(data: Seq<u8>) -> Seq<u8>;

/// AES-256-CBC encryption with PKCS#7 padding: a pure function of the key,
/// the IV and the plaintext.
pub uninterp spec fn aes256_cbc_enc(key: Seq<u8>, iv: Seq<u8>, plain: Seq<u8>) -> Seq<u8>;

/// AES-256-CBC decryption with PKCS#7 un-padding: a pure function of the key,
/// the IV and the ciphertext.
pub uninterp spec fn aes256_cbc_dec(key: Seq<u8>, iv: Seq<u8>, data: Seq<u8>) -> Seq<u8>;

/// Relies on argon2::Argon2::hash_password_into with Argon2::default():
/// it fills the 32-byte output from the password and salt alone. With a
/// 16-byte salt and a 32-byte output it succeeds for every password up to
/// argon2's documented limit of 0xFFFFFFFF bytes, which the precondition
/// holds the callers to.
#[verifier::external_body]
pub(crate) fn derive_key(password: &Vec<u8>, salt: &Vec<u8>) -> (r: Vec<u8>)
    requires
        password@.len() <= 0xFFFF_FFFF,
        salt@.len() == 16,
    ensures
        r@ == key_of(password@, salt@),
        r@.len() == 32,
{
    let mut okm = [0u8; 32];
    let _ = argon2::Argon2::default().hash_password_into(password, salt, &mut okm);
    okm.to_vec()
}

/// Relies on rand::rngs::OsRng::fill_bytes: it fills the buffer from the
/// operating system's cryptographic random source. Nothing can be promised
/// of the values drawn.
#[verifier::external_body]
pub(crate) fn random_block() -> (r: Vec<u8>)
    ensures
        r@.len() == 16,
{
    let mut buf = [0u8; 16];
    rand::RngCore::fill_bytes(&mut rand::rngs::OsRng, &mut buf);
    buf.to_vec()
}

/// Relies on sha2::Sha256 through the Digest trait: a 32-byte digest that
/// depends on the input bytes alone.
#[verifier::external_body]
pub(crate) fn sha256(data: &Vec<u8>) -> (r: Vec<u8>)
    ensures
        r@ == sha256_of(data@),
        r@.len() == 32,
{
    let digest = <sha2::Sha256 as sha2::Digest>::digest(data.as_slice());
    digest.to_vec()
}

/// Relies on libaes::Cipher::new_256 and Cipher::cbc_encrypt: AES-256 in CBC
/// mode with PKCS#7 padding. The output depends on the key, the IV and the
/// plaintext alone; its length is the plaintext length rounded up to the next
/// multiple of 16 (at least one padding byte is always added); and
/// Cipher::cbc_decrypt under the same key and IV recovers the plaintext
/// exactly.
#[verifier::external_body]
pub(crate) fn aes256_cbc_encrypt(key: &Vec<u8>, iv: &Vec<u8>, plain: &Vec<u8>) -> (r: Vec<u8>)
    requires
        key@.len() == 32,
        iv@.len() == 16,
        plain@.len() + 16 <= usize::MAX,
    ensures
        r@ == aes256_cbc_enc(key@, iv@, plain@),
        r@.len() == plain@.len() + (16 - plain@.len() % 16),
        aes256_cbc_dec(key@, iv@, r@) == plain@,
{
    let mut k = [0u8; 32];
    k.copy_from_slice(key);
    let cipher = libaes::Cipher::new_256(&k);
    cipher.cbc_encrypt(iv, plain)
}

/// Relies on libaes::Cipher::new_256 and Cipher::cbc_decrypt: AES-256-CBC
/// decryption with PKCS#7 un-padding. The output depends on the key, the IV
/// and the input alone; an input whose length is not a multiple of 16 gives
/// an empty output, and the call never panics when the IV holds 16 bytes.
#[verifier::external_body]
pub(crate) fn aes256_cbc_decrypt(key: &Vec<u8>, iv: &Vec<u8>, data: &Vec<u8>) -> (r: Vec<u8>)
    requires
        key@.len() == 32,
        iv@.len() == 16,
    ensures
        r@ == aes256_cbc_dec(key@, iv@, data@),
{
    let mut k = [0u8; 32];
    k.copy_from_slice(key);
    let cipher = libaes::Cipher::new_256(&k);
    cipher.cbc_decrypt(iv, data)
}

} // verus!
