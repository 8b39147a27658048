//! The container codec: the on-disk byte layout and the encrypt and decrypt
//! pipelines, verified against the contracts of the primitives in `crypto`.
//!
//! A container is `Salt(16) ‖ Ciphertext ‖ IV(16) ‖ Digest(32)`: the trailer
//! fields sit at fixed offsets from the end, so the minimum length of a
//! container that decryption accepts as structurally sound is 48 bytes.

use vstd::prelude::*;

use crate::crypto::aes256_cbc_dec;
use crate::crypto::aes256_cbc_enc;
use crate::crypto::key_of;
use crate::crypto::sha256_of;

verus! {

/// Length of the salt at the start of a container.
pub const SALT_LEN: usize = 16;

/// Length of the initialization vector in a container's trailer.
pub const IV_LEN: usize = 16;

/// Length of the integrity digest at the end of a container.
pub const DIGEST_LEN: usize = 32;

/// Length of the trailer (IV and digest) behind the ciphertext.
pub const TRAILER_LEN: usize = 48;

/// Why a decryption failed.
#[derive(Clone, Copy, Debug, PartialEq, Eq, Structural)]
pub enum CryptError {
    /// The container is shorter than the 48-byte trailer: it cannot hold
    /// a salt, an IV and a digest, so no cipher work is attempted.
    Format,
    /// The digest recomputed from the decrypted bytes does not match the
    /// stored digest: the container was tampered with or the password is
    /// wrong; the two causes cannot be told apart.
    Integrity,
}

/// The ciphertext length that AES-256-CBC with PKCS#7 padding produces for a
/// plaintext of length `n`: rounded up to the next multiple of 16, with at
/// least one padding byte always added.
pub open spec fn padded_len(n: nat) -> nat {
    (n + (16 - n % 16)) as nat
}

/// What decryption returns on a container `c` under password `password`.
///
/// A container shorter than the trailer is malformed. Otherwise the salt is
/// the first 16 bytes, the trailer starts 48 bytes from the end (the
/// ciphertext region is what lies between; empty when the trailer overlaps
/// the salt), and the plaintext is accepted exactly when its SHA-256 digest
/// matches the stored one.
pub open spec fn decrypt_model(c: Seq<u8>, password: Seq<u8>) -> Result<Seq<u8>, CryptError> {
    if c.len() < TRAILER_LEN {
        Err(CryptError::Format)
    } else {
        let t = c.len() - TRAILER_LEN;
        let salt = c.subrange(0, SALT_LEN as int);
        let body = if t >= SALT_LEN { c.subrange(SALT_LEN as int, t as int) } else { Seq::empty() };
        let iv = c.subrange(t as int, t + IV_LEN);
        let stored = c.subrange(t + IV_LEN, c.len() as int);
        let plain = aes256_cbc_dec(key_of(password, salt), iv, body);
        if sha256_of(plain) == stored {
            Ok(plain)
        } else {
            Err(CryptError::Integrity)
        }
    }
}

/// The container that encryption builds from a salt, an IV, a password and
/// a plaintext.
pub open spec fn container_model(
    salt: Seq<u8>,
    iv: Seq<u8>,
    password: Seq<u8>,
    plain: Seq<u8>,
) -> Seq<u8> {
    salt + aes256_cbc_enc(key_of(password, salt), iv, plain) + iv + sha256_of(plain)
}

/// The bytes of `v` from `start` (inclusive) to `end` (exclusive), as a new
/// vector.
pub fn subvec(v: &Vec<u8>, start: usize, end: usize) -> (r: Vec<u8>)
    requires
        start <= end <= v@.len(),
    ensures
        r@ == v@.subrange(start as int, end as int),
{
    let mut r: Vec<u8> = Vec::new();
    let mut i: usize = start;
    while i < end
        invariant
            start <= i <= end <= v@.len(),
            r@ == v@.subrange(start as int, i as int),
        decreases end - i,
    {
        r.push(v[i]);
        i = i + 1;
        proof {
            assert(r@ =~= v@.subrange(start as int, i as int));
        }
    }
    r
}

/// Appends all bytes of `src` to `dst`.
pub fn append_bytes(dst: &mut Vec<u8>, src: &Vec<u8>)
    requires
        old(dst)@.len() + src@.len() <= usize::MAX,
    ensures
        final(dst)@ == old(dst)@ + src@,
{
    let mut i: usize = 0;
    while i < src.len()
        invariant
            i <= src@.len(),
            old(dst)@.len() + src@.len() <= usize::MAX,
            dst@ == old(dst)@ + src@.subrange(0, i as int),
        decreases src@.len() - i,
    {
        dst.push(src[i]);
        i = i + 1;
        proof {
            assert(dst@ =~= old(dst)@ + src@.subrange(0, i as int));
        }
    }
    proof {
        assert(dst@ =~= old(dst)@ + src@);
    }
}

/// Whether `a` and `b` hold the same bytes.
pub fn eq_bytes(a: &Vec<u8>, b: &Vec<u8>) -> (r: bool)
    ensures
        r == (a@ == b@),
{
    if a.len() != b.len() {
        return false;
    }
    let n = a.len();
    let mut i: usize = 0;
    while i < n
        invariant
            i <= n,
            n == a@.len() == b@.len(),
            forall|j: int| 0 <= j < i ==> a@[j] == b@[j],
        decreases n - i,
    {
        if a[i] != b[i] {
            return false;
        }
        i = i + 1;
    }
    proof {
        assert(a@ =~= b@);
    }
    true
}

/// Encrypts `plain` under `password` into a fresh container.
///
/// A fresh random salt and IV are drawn, so two calls on the same inputs
/// produce different containers; but every container this returns decrypts
/// back to `plain` under the same password, and its layout is
/// `Salt(16) ‖ Ciphertext ‖ IV(16) ‖ Digest(32)`.
pub fn encrypt_bytes(plain: &Vec<u8>, password: &Vec<u8>) -> (c: Vec<u8>)
    requires
        plain@.len() + 80 <= usize::MAX,
        password@.len() <= 0xFFFF_FFFF,
    ensures
        c@.len() == 64 + padded_len(plain@.len()),
        decrypt_model(c@, password@) == Ok::<Seq<u8>, CryptError>(plain@),
        exists|salt: Seq<u8>, iv: Seq<u8>|
            #![auto]
            salt.len() == 16 && iv.len() == 16 && c@ == container_model(
                salt,
                iv,
                password@,
                plain@,
            ),
{
    let salt = crate::crypto::random_block();
    let iv = crate::crypto::random_block();
    let key = crate::crypto::derive_key(password, &salt);
    let body = crate::crypto::aes256_cbc_encrypt(&key, &iv, plain);
    let digest = crate::crypto::sha256(plain);

    let mut c: Vec<u8> = Vec::new();
    append_bytes(&mut c, &salt);
    append_bytes(&mut c, &body);
    append_bytes(&mut c, &iv);
    append_bytes(&mut c, &digest);

    proof {
        assert(c@ =~= salt@ + body@ + iv@ + digest@);
        lemma_container_parses(salt@, body@, iv@, digest@, c@);
        assert(c@ == container_model(salt@, iv@, password@, plain@));
    }
    c
}

/// Decrypts the container `c` under `password`.
///
/// Fails with `CryptError::Format` exactly when `c` is shorter than 48
/// bytes, with `CryptError::Integrity` exactly when the digest recomputed
/// from the decrypted bytes differs from the stored one, and otherwise
/// returns the recovered plaintext.
pub fn decrypt_bytes(c: &Vec<u8>, password: &Vec<u8>) -> (r: Result<Vec<u8>, CryptError>)
    requires
        password@.len() <= 0xFFFF_FFFF,
    ensures
        match r {
            Ok(plain) => decrypt_model(c@, password@) == Ok::<Seq<u8>, CryptError>(plain@),
            Err(e) => decrypt_model(c@, password@) == Err::<Seq<u8>, CryptError>(e),
        },
        c@.len() < 48 <==> r matches Err(CryptError::Format),
{
    if c.len() < TRAILER_LEN {
        return Err(CryptError::Format);
    }
    let t = c.len() - TRAILER_LEN;
    let salt = subvec(c, 0, SALT_LEN);
    let body = if t >= SALT_LEN {
        subvec(c, SALT_LEN, t)
    } else {
        Vec::new()
    };
    let iv = subvec(c, t, t + IV_LEN);
    let stored = subvec(c, t + IV_LEN, c.len());

    let key = crate::crypto::derive_key(password, &salt);
    let plain = crate::crypto::aes256_cbc_decrypt(&key, &iv, &body);
    let computed = crate::crypto::sha256(&plain);

    if eq_bytes(&computed, &stored) {
        Ok(plain)
    } else {
        Err(CryptError::Integrity)
    }
}

/// Parsing inverts building: the salt, ciphertext, IV and digest of a
/// container assembled from fields of the fixed lengths are recovered by the
/// fixed-offset reads that `decrypt_model` makes.
proof fn lemma_container_parses(
    salt: Seq<u8>,
    body: Seq<u8>,
    iv: Seq<u8>,
    digest: Seq<u8>,
    c: Seq<u8>,
)
    requires
        salt.len() == 16,
        iv.len() == 16,
        digest.len() == 32,
        body.len() >= 16,
        c == salt + body + iv + digest,
    ensures
        c.len() == 64 + body.len(),
        c.subrange(0, 16) == salt,
        c.subrange(16, c.len() - 48) == body,
        c.subrange(c.len() - 48, c.len() - 32) == iv,
        c.subrange(c.len() - 32, c.len() as int) == digest,
{
    assert(c.subrange(0, 16) =~= salt);
    assert(c.subrange(16, c.len() - 48) =~= body);
    assert(c.subrange(c.len() - 48, c.len() - 32) =~= iv);
    assert(c.subrange(c.len() - 32, c.len() as int) =~= digest);
}

/// A container shorter than the 48-byte trailer is always rejected as
/// malformed, whatever the password.
pub proof fn lemma_short_container_rejected(c: Seq<u8>, password: Seq<u8>)
    requires
        c.len() < 48,
    ensures
        decrypt_model(c, password) == Err::<Seq<u8>, CryptError>(CryptError::Format),
{
}

} // verus!
