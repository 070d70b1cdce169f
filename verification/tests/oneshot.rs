use chacha_cli::aead::{build_cipher, generate_key};
use chacha_cli::chacha::{decrypt, encrypt};
use chacha_cli::error::CryptoError;

#[test]
fn decrypt_undoes_encrypt() {
    let cipher = build_cipher(&generate_key()).unwrap();
    for plaintext in [&b""[..], &b"h"[..], &b"hello"[..], &[0x55u8; 4096][..]] {
        let stream = encrypt(cipher.clone(), plaintext.to_vec()).unwrap();
        assert_eq!(stream.len(), 12 + plaintext.len() + 16);
        assert_eq!(decrypt(&cipher, stream), Ok(plaintext.to_vec()));
    }
}

#[test]
fn encrypt_starts_with_the_nonce_it_sealed_under() {
    let cipher = build_cipher(&[7u8; 32]).unwrap();
    let stream = encrypt(cipher.clone(), b"hello".to_vec()).unwrap();
    let sealed = cipher.seal(&stream[..12], b"hello".to_vec()).unwrap();
    assert_eq!(&stream[12..], sealed.as_slice());
}

#[test]
fn encrypt_draws_a_nonce_each_time() {
    let cipher = build_cipher(&[7u8; 32]).unwrap();
    let first = encrypt(cipher.clone(), b"hello".to_vec()).unwrap();
    let second = encrypt(cipher, b"hello".to_vec()).unwrap();
    assert_ne!(first, second);
}

#[test]
fn decrypt_refuses_short_stream() {
    let cipher = build_cipher(&[7u8; 32]).unwrap();
    assert_eq!(decrypt(&cipher, Vec::new()), Err(CryptoError::MalformedInput));
    assert_eq!(decrypt(&cipher, vec![0u8; 11]), Err(CryptoError::MalformedInput));
}

#[test]
fn decrypt_refuses_forged_stream() {
    let cipher = build_cipher(&[7u8; 32]).unwrap();
    assert_eq!(decrypt(&cipher, vec![0u8; 12]), Err(CryptoError::AuthenticationFailed));
    assert_eq!(decrypt(&cipher, vec![0u8; 64]), Err(CryptoError::AuthenticationFailed));
}

#[test]
fn decrypt_refuses_another_key() {
    let cipher = build_cipher(&generate_key()).unwrap();
    let other = build_cipher(&generate_key()).unwrap();
    let stream = encrypt(cipher, b"hello".to_vec()).unwrap();
    assert_eq!(decrypt(&other, stream), Err(CryptoError::AuthenticationFailed));
}
