//! Password-based symmetric file encryption.
//!
//! A plaintext byte sequence and a password are turned into a self-contained
//! encrypted container: `Salt(16) ‖ Ciphertext ‖ IV(16) ‖ Digest(32)`.
//! The key is derived from the password and a fresh random salt with Argon2,
//! the body is AES-256-CBC, and a SHA-256 digest of the plaintext lets
//! decryption detect tampering or a wrong password.

pub mod codec;
pub mod crypto;
