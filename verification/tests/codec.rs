use rust_encrypt::codec::append_bytes;
use rust_encrypt::codec::decrypt_bytes;
use rust_encrypt::codec::encrypt_bytes;
use rust_encrypt::codec::eq_bytes;
use rust_encrypt::codec::subvec;
use rust_encrypt::codec::CryptError;

#[test]
fn round_trip_hello() {
    let plain: Vec<u8> = b"hello".to_vec();
    let password: Vec<u8> = b"pw123".to_vec();
    let container = encrypt_bytes(&plain, &password);
    // 16-byte salt, 5 bytes padded to one 16-byte block, 16-byte IV, 32-byte digest.
    assert_eq!(container.len(), 80);
    assert!(container.len() >= 48 + 16);
    let recovered = decrypt_bytes(&container, &password).expect("same password must decrypt");
    assert_eq!(recovered, plain);
}

#[test]
fn wrong_password_fails() {
    let plain: Vec<u8> = b"hello".to_vec();
    let container = encrypt_bytes(&plain, &b"pw123".to_vec());
    let r = decrypt_bytes(&container, &b"wrong".to_vec());
    assert_eq!(r, Err(CryptError::Integrity));
}

#[test]
fn round_trip_empty() {
    let plain: Vec<u8> = Vec::new();
    let password: Vec<u8> = b"secret".to_vec();
    let container = encrypt_bytes(&plain, &password);
    // Padding always adds a full block, so even an empty input gives one.
    assert_eq!(container.len(), 80);
    let recovered = decrypt_bytes(&container, &password).expect("empty input must round-trip");
    assert_eq!(recovered.len(), 0);
}

#[test]
fn two_encryptions_differ() {
    let plain: Vec<u8> = b"same input".to_vec();
    let password: Vec<u8> = b"pw".to_vec();
    let c1 = encrypt_bytes(&plain, &password);
    let c2 = encrypt_bytes(&plain, &password);
    assert_ne!(c1, c2);
    assert_eq!(decrypt_bytes(&c1, &password), Ok(plain.clone()));
    assert_eq!(decrypt_bytes(&c2, &password), Ok(plain));
}

#[test]
fn tampered_ciphertext_fails() {
    let plain: Vec<u8> = b"attack at dawn".to_vec();
    let password: Vec<u8> = b"pw123".to_vec();
    let mut container = encrypt_bytes(&plain, &password);
    // First byte of the ciphertext region, just past the 16-byte salt.
    container[16] ^= 0x01;
    let r = decrypt_bytes(&container, &password);
    assert_eq!(r, Err(CryptError::Integrity));
}

#[test]
fn each_ciphertext_byte_matters() {
    let plain: Vec<u8> = b"abc".to_vec();
    let password: Vec<u8> = b"pw".to_vec();
    let container = encrypt_bytes(&plain, &password);
    // The ciphertext region is bytes 16..len-48: flipping its first, a
    // middle and its last byte must each be detected.
    let last = container.len() - 49;
    for i in [16, 24, last] {
        let mut bent = container.clone();
        bent[i] ^= 0x80;
        assert_eq!(decrypt_bytes(&bent, &password), Err(CryptError::Integrity));
    }
}

#[test]
fn short_container_is_malformed() {
    let password: Vec<u8> = b"pw".to_vec();
    assert_eq!(decrypt_bytes(&Vec::new(), &password), Err(CryptError::Format));
    let forty_seven: Vec<u8> = vec![0u8; 47];
    assert_eq!(decrypt_bytes(&forty_seven, &password), Err(CryptError::Format));
}

#[test]
fn minimum_length_is_not_format_error() {
    // 48 zero bytes parse structurally (empty ciphertext region) but the
    // digest cannot match, so the failure is an integrity failure.
    let password: Vec<u8> = b"pw".to_vec();
    let zeros: Vec<u8> = vec![0u8; 48];
    assert_eq!(decrypt_bytes(&zeros, &password), Err(CryptError::Integrity));
}

#[test]
fn container_length_formula() {
    let password: Vec<u8> = b"pw".to_vec();
    // A 16-byte plaintext pads to two blocks.
    let sixteen: Vec<u8> = vec![7u8; 16];
    assert_eq!(encrypt_bytes(&sixteen, &password).len(), 96);
}

#[test]
fn subvec_extracts_range() {
    let v: Vec<u8> = vec![1, 2, 3, 4, 5];
    assert_eq!(subvec(&v, 1, 4), vec![2, 3, 4]);
    assert_eq!(subvec(&v, 2, 2), Vec::<u8>::new());
}

#[test]
fn append_bytes_concatenates() {
    let mut a: Vec<u8> = vec![1, 2];
    let b: Vec<u8> = vec![3, 4, 5];
    append_bytes(&mut a, &b);
    assert_eq!(a, vec![1, 2, 3, 4, 5]);
}

#[test]
fn eq_bytes_compares_contents() {
    assert!(eq_bytes(&vec![1, 2, 3], &vec![1, 2, 3]));
    assert!(!eq_bytes(&vec![1, 2, 3], &vec![1, 2, 4]));
    assert!(!eq_bytes(&vec![1, 2], &vec![1, 2, 3]));
    assert!(eq_bytes(&Vec::new(), &Vec::new()));
}
