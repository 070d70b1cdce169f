use chacha_cli::aead::{
    build_cipher, generate_key, opened_chunk, sealed_chunk, KEY_SIZE, MAX_MESSAGE_SIZE,
    NONCE_SIZE, TAG_SIZE,
};
use chacha_cli::error::CryptoError;

#[test]
fn sizes_are_those_of_chacha20_poly1305() {
    assert_eq!(KEY_SIZE, 32);
    assert_eq!(NONCE_SIZE, 12);
    assert_eq!(TAG_SIZE, 16);
    assert_eq!(MAX_MESSAGE_SIZE, 64 * (u32::MAX as u64 - 1));
    assert_eq!(MAX_MESSAGE_SIZE, 274877906816);
}

#[test]
fn generated_key_has_key_size() {
    assert_eq!(generate_key().len(), 32);
}

#[test]
fn generated_keys_differ() {
    assert_ne!(generate_key(), generate_key());
}

#[test]
fn build_cipher_takes_thirty_two_bytes() {
    assert!(build_cipher(&[0u8; 32]).is_ok());
}

#[test]
fn build_cipher_refuses_other_lengths() {
    for length in [0usize, 1, 16, 31, 33, 64] {
        let key = vec![0u8; length];
        assert_eq!(build_cipher(&key).err(), Some(CryptoError::InvalidKeyLength));
    }
}

#[test]
fn seal_appends_a_tag() {
    let cipher = build_cipher(&[3u8; 32]).unwrap();
    let plaintext = b"attack at dawn".to_vec();
    let sealed = cipher.seal(&[0u8; 12], plaintext.clone()).unwrap();
    assert_eq!(sealed.len(), plaintext.len() + 16);
    assert_ne!(&sealed[..plaintext.len()], plaintext.as_slice());
}

#[test]
fn seal_depends_on_key_nonce_and_plaintext_alone() {
    let cipher = build_cipher(&[3u8; 32]).unwrap();
    let again = build_cipher(&[3u8; 32]).unwrap();
    let first = cipher.seal(&[1u8; 12], b"hello".to_vec());
    let second = again.seal(&[1u8; 12], b"hello".to_vec());
    assert_eq!(first, second);
    assert_ne!(first, cipher.seal(&[2u8; 12], b"hello".to_vec()));
    assert_ne!(first, cipher.seal(&[1u8; 12], b"hellp".to_vec()));
}

#[test]
fn open_gives_back_what_was_sealed() {
    let cipher = build_cipher(&[3u8; 32]).unwrap();
    let sealed = cipher.seal(&[4u8; 12], b"hello".to_vec()).unwrap();
    assert_eq!(cipher.open(&[4u8; 12], sealed.clone()), Ok(b"hello".to_vec()));
    assert_ne!(cipher.open(&[4u8; 12], sealed.clone()), Ok(sealed));
}

#[test]
fn open_refuses_another_nonce() {
    let cipher = build_cipher(&[3u8; 32]).unwrap();
    let sealed = cipher.seal(&[4u8; 12], b"hello".to_vec()).unwrap();
    assert_eq!(cipher.open(&[5u8; 12], sealed), Err(CryptoError::AuthenticationFailed));
}

#[test]
fn open_refuses_what_is_shorter_than_a_tag() {
    let cipher = build_cipher(&[3u8; 32]).unwrap();
    for length in 0..16usize {
        assert_eq!(
            cipher.open(&[4u8; 12], vec![0u8; length]),
            Err(CryptoError::AuthenticationFailed)
        );
    }
}

#[test]
fn cloned_cipher_opens_what_the_first_sealed() {
    let cipher = build_cipher(&[8u8; 32]).unwrap();
    let copy = cipher.clone();
    let sealed = cipher.seal(&[4u8; 12], b"hello".to_vec()).unwrap();
    assert_eq!(copy.open(&[4u8; 12], sealed), Ok(b"hello".to_vec()));
}

#[test]
fn sealed_chunk_passes_bytes_on() {
    assert_eq!(sealed_chunk(Some(vec![1, 2, 3])), Ok(vec![1, 2, 3]));
}

#[test]
fn sealed_chunk_reports_refusal() {
    assert_eq!(sealed_chunk(None), Err(CryptoError::EncryptionFailed));
}

#[test]
fn opened_chunk_passes_bytes_on() {
    assert_eq!(opened_chunk(Some(vec![1, 2, 3])), Ok(vec![1, 2, 3]));
}

#[test]
fn opened_chunk_reports_refusal() {
    assert_eq!(opened_chunk(None), Err(CryptoError::AuthenticationFailed));
}

#[test]
fn each_error_has_its_message() {
    assert_eq!(CryptoError::InvalidKeyLength.message(), "key must be exactly 32 bytes long");
    assert_eq!(
        CryptoError::MalformedInput.message(),
        "ciphertext is shorter than one nonce of 12 bytes"
    );
    assert_eq!(CryptoError::AuthenticationFailed.message(), "failed to decrypt buffer");
    assert_eq!(CryptoError::EncryptionFailed.message(), "failed to encrypt buffer");
}
