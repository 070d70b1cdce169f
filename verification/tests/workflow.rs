use chacha_cli::aead::{build_cipher, generate_key};
use chacha_cli::chacha::{ChaChaDecryptor, ChaChaEncryptor};
use chacha_cli::chunks::{ByteChunks, BUFFER_SIZE};
use chacha_cli::error::CryptoError;
use chacha_cli::producer::ChunkProducer;
use chacha_cli::sink::write_iter_bytes;

#[test]
fn test_workflow() {
    // Generate a key and write the bytes to storage.
    let key = generate_key();
    let mut key_bytes: Vec<u8> = Vec::new();
    write_iter_bytes(ByteChunks::new(key.clone(), BUFFER_SIZE), &mut key_bytes).unwrap();

    // Build a cipher from the key bytes.
    let cipher = build_cipher(key_bytes.as_slice()).unwrap();

    // Encrypt some plaintext and write the ciphertext to storage.
    let original_plaintext = Box::new("hello".as_bytes());
    let mut ciphertext: Vec<u8> = Vec::new();
    write_iter_bytes(
        ChaChaEncryptor::new(cipher.clone(), original_plaintext.to_vec()),
        &mut ciphertext,
    )
    .unwrap();

    // Decrypt the ciphertext and write the plaintext to storage.
    let mut decrypted_plaintext: Vec<u8> = Vec::new();
    write_iter_bytes(ChaChaDecryptor::new(cipher, ciphertext), &mut decrypted_plaintext).unwrap();
    assert_eq!(original_plaintext.to_vec(), decrypted_plaintext);
}

#[test]
fn written_key_is_the_key() {
    let key = generate_key();
    let mut key_bytes: Vec<u8> = Vec::new();
    assert_eq!(write_iter_bytes(ByteChunks::new(key.clone(), BUFFER_SIZE), &mut key_bytes), Ok(()));
    assert_eq!(key_bytes, key);
}

#[test]
fn buffer_size_is_one_mebibyte() {
    assert_eq!(BUFFER_SIZE, 1048576);
}

#[test]
fn sink_keeps_what_it_held() {
    let mut sink = vec![1u8, 2, 3];
    let chunks = ByteChunks::new(vec![4, 5, 6, 7, 8], 2);
    assert_eq!(write_iter_bytes(chunks, &mut sink), Ok(()));
    assert_eq!(sink, vec![1, 2, 3, 4, 5, 6, 7, 8]);
}

#[test]
fn sink_gets_nonce_then_ciphertext() {
    let cipher = build_cipher(&[6u8; 32]).unwrap();
    let mut sink = Vec::new();
    let encryptor = ChaChaEncryptor::new(cipher.clone(), b"hello".to_vec());
    assert_eq!(write_iter_bytes(encryptor, &mut sink), Ok(()));
    assert_eq!(sink.len(), 33);
    let sealed = cipher.seal(&sink[..12], b"hello".to_vec()).unwrap();
    assert_eq!(&sink[12..], sealed.as_slice());
}

#[test]
fn sink_is_left_alone_by_malformed_stream() {
    let cipher = build_cipher(&[6u8; 32]).unwrap();
    let mut sink = vec![9u8];
    let decryptor = ChaChaDecryptor::new(cipher, vec![0u8; 5]);
    assert_eq!(write_iter_bytes(decryptor, &mut sink), Err(CryptoError::MalformedInput));
    assert_eq!(sink, vec![9u8]);
}

#[test]
fn sink_is_left_alone_by_unauthentic_stream() {
    let cipher = build_cipher(&[6u8; 32]).unwrap();
    let mut sink = Vec::new();
    let decryptor = ChaChaDecryptor::new(cipher, vec![0u8; 40]);
    assert_eq!(write_iter_bytes(decryptor, &mut sink), Err(CryptoError::AuthenticationFailed));
    assert_eq!(sink, Vec::<u8>::new());
}

#[test]
fn chunks_are_cut_at_the_chunk_size() {
    let mut chunks = ByteChunks::new((0..10u8).collect(), 4);
    assert_eq!(chunks.next(), Some(Ok(vec![0, 1, 2, 3])));
    assert_eq!(chunks.next(), Some(Ok(vec![4, 5, 6, 7])));
    assert_eq!(chunks.next(), Some(Ok(vec![8, 9])));
    assert_eq!(chunks.next(), None);
    assert_eq!(chunks.next(), None);
}

#[test]
fn chunks_of_whole_multiple_have_no_short_end() {
    let mut chunks = ByteChunks::new((0..6u8).collect(), 3);
    assert_eq!(chunks.next(), Some(Ok(vec![0, 1, 2])));
    assert_eq!(chunks.next(), Some(Ok(vec![3, 4, 5])));
    assert_eq!(chunks.next(), None);
}

#[test]
fn chunks_of_nothing_are_none() {
    let mut chunks = ByteChunks::new(Vec::new(), 4);
    assert_eq!(chunks.next(), None);
}

#[test]
fn chunk_larger_than_data_holds_all() {
    let mut chunks = ByteChunks::new(vec![1, 2, 3], usize::MAX);
    assert_eq!(chunks.next(), Some(Ok(vec![1, 2, 3])));
    assert_eq!(chunks.next(), None);
}
