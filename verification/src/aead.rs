use chacha20poly1305::aead::{AeadCore, AeadInPlace, OsRng};
use chacha20poly1305::{ChaCha20Poly1305, Key, KeyInit, Nonce};
use vstd::prelude::*;
use vstd::slice::slice_to_vec;

use crate::error::CryptoError;

verus! {

/// Length of a key in bytes.
pub const KEY_SIZE: usize = 32;

/// Length of a nonce in bytes.
pub const NONCE_SIZE: usize = 12;

/// Length of the authentication tag that sealing appends, in bytes.
pub const TAG_SIZE: usize = 16;

/// The longest message that is sealed or opened, in bytes: 64 bytes for each
/// of the 2^32 - 2 blocks of keystream that are left once the first block has
/// gone into the authentication key. The cipher is never called on a longer
/// one: just above this length it would run out of keystream and panic.
pub const MAX_MESSAGE_SIZE: u64 = 274877906816;

/// What `encrypt_in_place` of ChaCha20-Poly1305 leaves in the buffer, without
/// associated data: the ciphertext followed by its tag, or `None` where it
/// returns an error.
pub uninterp spec fn sealed(key: Seq<u8>, nonce: Seq<u8>, plaintext: Seq<u8>) -> Option<Seq<u8>>;

/// What `decrypt_in_place` of ChaCha20-Poly1305 leaves in the buffer, without
/// associated data: the plaintext, or `None` where the tag does not fit.
pub uninterp spec fn opened(key: Seq<u8>, nonce: Seq<u8>, ciphertext: Seq<u8>) -> Option<Seq<u8>>;

/// The bytes of an optional buffer.
pub open spec fn bytes_of(buffer: Option<Vec<u8>>) -> Option<Seq<u8>> {
    match buffer {
        Some(bytes) => Some(bytes@),
        None => None,
    }
}

/// The bytes of a chunk, or the error that came in its place.
pub open spec fn chunk_view(chunk: Result<Vec<u8>, CryptoError>) -> Result<Seq<u8>, CryptoError> {
    match chunk {
        Ok(bytes) => Ok(bytes@),
        Err(error) => Err(error),
    }
}

/// The chunk for what the cipher's sealing returned: the sealed bytes, or
/// `EncryptionFailed`.
pub open spec fn seal_outcome(sealed: Option<Seq<u8>>) -> Result<Seq<u8>, CryptoError> {
    match sealed {
        Some(ciphertext) => Ok(ciphertext),
        None => Err(CryptoError::EncryptionFailed),
    }
}

/// The chunk for what the cipher's opening returned: the plaintext, or
/// `AuthenticationFailed` whatever made the cipher refuse.
pub open spec fn open_outcome(opened: Option<Seq<u8>>) -> Result<Seq<u8>, CryptoError> {
    match opened {
        Some(plaintext) => Ok(plaintext),
        None => Err(CryptoError::AuthenticationFailed),
    }
}

/// What sealing `plaintext` under `key` and `nonce` gives: a plaintext longer
/// than `MAX_MESSAGE_SIZE` fails without the cipher being asked, any other
/// gives what the cipher returns.
pub open spec fn sealing(key: Seq<u8>, nonce: Seq<u8>, plaintext: Seq<u8>) -> Result<
    Seq<u8>,
    CryptoError,
> {
    if plaintext.len() > MAX_MESSAGE_SIZE {
        Err(CryptoError::EncryptionFailed)
    } else {
        seal_outcome(sealed(key, nonce, plaintext))
    }
}

/// What opening `ciphertext` under `key` and `nonce` gives: a ciphertext
/// longer than a tag and `MAX_MESSAGE_SIZE` fails without the cipher being
/// asked, any other gives what the cipher returns.
pub open spec fn opening(key: Seq<u8>, nonce: Seq<u8>, ciphertext: Seq<u8>) -> Result<
    Seq<u8>,
    CryptoError,
> {
    if ciphertext.len() > MAX_MESSAGE_SIZE + TAG_SIZE {
        Err(CryptoError::AuthenticationFailed)
    } else {
        open_outcome(opened(key, nonce, ciphertext))
    }
}

/// Calls `ChaCha20Poly1305::encrypt_in_place` with no associated data, under
/// a cipher made of `key`, on a plaintext of at most `MAX_MESSAGE_SIZE`
/// bytes: on a longer one the call panics or returns an error. Believed of
/// it: the result is a function of key, nonce and plaintext; the call
/// succeeds; what it gives is the plaintext's length and a tag long, and
/// `decrypt_in_place` under the same key and nonce turns it back into the
/// plaintext.
#[verifier::external_body]
fn seal(key: &[u8], nonce: &[u8], plaintext: Vec<u8>) -> (r: Option<Vec<u8>>)
    requires
        key@.len() == KEY_SIZE,
        nonce@.len() == NONCE_SIZE,
        plaintext@.len() <= MAX_MESSAGE_SIZE,
    ensures
        bytes_of(r) == sealed(key@, nonce@, plaintext@),
        r is Some,
        r matches Some(c) ==> c@.len() == plaintext@.len() + TAG_SIZE,
        r matches Some(c) ==> opened(key@, nonce@, c@) == Some(plaintext@),
{
    let cipher = ChaCha20Poly1305::new(Key::from_slice(key));
    let mut buffer = plaintext;
    match cipher.encrypt_in_place(Nonce::from_slice(nonce), &[], &mut buffer) {
        Ok(()) => Some(buffer),
        Err(_) => None,
    }
}

/// Calls `ChaCha20Poly1305::decrypt_in_place` with no associated data, under
/// a cipher made of `key`, on a ciphertext of at most a tag and
/// `MAX_MESSAGE_SIZE` bytes: on a longer one the call panics or returns an
/// error. Believed of it: the result is a function of key, nonce and
/// ciphertext, and a plaintext that it gives is one tag shorter than the
/// ciphertext.
#[verifier::external_body]
fn open(key: &[u8], nonce: &[u8], ciphertext: Vec<u8>) -> (r: Option<Vec<u8>>)
    requires
        key@.len() == KEY_SIZE,
        nonce@.len() == NONCE_SIZE,
        ciphertext@.len() <= MAX_MESSAGE_SIZE + TAG_SIZE,
    ensures
        bytes_of(r) == opened(key@, nonce@, ciphertext@),
        r matches Some(p) ==> p@.len() + TAG_SIZE == ciphertext@.len(),
{
    let cipher = ChaCha20Poly1305::new(Key::from_slice(key));
    let mut buffer = ciphertext;
    match cipher.decrypt_in_place(Nonce::from_slice(nonce), &[], &mut buffer) {
        Ok(()) => Some(buffer),
        Err(_) => None,
    }
}

/// Calls `ChaCha20Poly1305::generate_nonce` on the operating system's random
/// generator. Believed of it: the nonce is `NONCE_SIZE` bytes long. Which
/// bytes they are is left open. The call panics where the operating system
/// gives no random bytes.
#[verifier::external_body]
pub(crate) fn random_nonce() -> (nonce: Vec<u8>)
    ensures
        nonce@.len() == NONCE_SIZE,
{
    ChaCha20Poly1305::generate_nonce(&mut OsRng).to_vec()
}

/// Calls `ChaCha20Poly1305::generate_key` on the operating system's random
/// generator. Believed of it: the key is `KEY_SIZE` bytes long. Which bytes
/// they are is left open. The call panics where the operating system gives no
/// random bytes.
#[verifier::external_body]
fn random_key() -> (key: Vec<u8>)
    ensures
        key@.len() == KEY_SIZE,
{
    ChaCha20Poly1305::generate_key(&mut OsRng).to_vec()
}

/// The chunk for what sealing returned.
pub fn sealed_chunk(outcome: Option<Vec<u8>>) -> (chunk: Result<Vec<u8>, CryptoError>)
    ensures
        chunk_view(chunk) == seal_outcome(bytes_of(outcome)),
{
    match outcome {
        Some(ciphertext) => Ok(ciphertext),
        None => Err(CryptoError::EncryptionFailed),
    }
}

/// The chunk for what opening returned.
pub fn opened_chunk(outcome: Option<Vec<u8>>) -> (chunk: Result<Vec<u8>, CryptoError>)
    ensures
        chunk_view(chunk) == open_outcome(bytes_of(outcome)),
{
    match outcome {
        Some(plaintext) => Ok(plaintext),
        None => Err(CryptoError::AuthenticationFailed),
    }
}

/// A ChaCha20-Poly1305 context: the secret key it is bound to.
pub struct Cipher {
    key: Vec<u8>,
}

impl View for Cipher {
    type V = Seq<u8>;

    /// The key.
    closed spec fn view(&self) -> Seq<u8> {
        self.key@
    }
}

impl Clone for Cipher {
    fn clone(&self) -> (copy: Self)
        ensures
            copy@ == self@,
    {
        proof {
            use_type_invariant(self);
        }
        Cipher { key: slice_to_vec(self.key.as_slice()) }
    }
}

impl Cipher {
    #[verifier::type_invariant]
    spec fn key_sized(&self) -> bool {
        self.key@.len() == KEY_SIZE
    }

    /// Seals `plaintext` under this key and `nonce`. A plaintext longer than
    /// `MAX_MESSAGE_SIZE` is refused here; every other is sealed.
    pub fn seal(&self, nonce: &[u8], plaintext: Vec<u8>) -> (chunk: Result<Vec<u8>, CryptoError>)
        requires
            nonce@.len() == NONCE_SIZE,
        ensures
            chunk_view(chunk) == sealing(self@, nonce@, plaintext@),
            chunk is Ok <==> plaintext@.len() <= MAX_MESSAGE_SIZE,
            chunk matches Ok(c) ==> c@.len() == plaintext@.len() + TAG_SIZE,
            chunk matches Ok(c) ==> opening(self@, nonce@, c@) == Ok::<Seq<u8>, CryptoError>(
                plaintext@,
            ),
            chunk matches Err(error) ==> error == CryptoError::EncryptionFailed,
    {
        proof {
            use_type_invariant(self);
        }
        if plaintext.len() as u64 > MAX_MESSAGE_SIZE {
            return Err(CryptoError::EncryptionFailed);
        }
        sealed_chunk(seal(self.key.as_slice(), nonce, plaintext))
    }

    /// Opens `ciphertext` under this key and `nonce`. A ciphertext longer
    /// than a tag and `MAX_MESSAGE_SIZE` is refused here, with the error that
    /// the cipher's own refusal gives.
    pub fn open(&self, nonce: &[u8], ciphertext: Vec<u8>) -> (chunk: Result<Vec<u8>, CryptoError>)
        requires
            nonce@.len() == NONCE_SIZE,
        ensures
            chunk_view(chunk) == opening(self@, nonce@, ciphertext@),
            chunk matches Ok(p) ==> p@.len() + TAG_SIZE == ciphertext@.len(),
            chunk matches Err(error) ==> error == CryptoError::AuthenticationFailed,
    {
        proof {
            use_type_invariant(self);
        }
        if ciphertext.len() as u64 > MAX_MESSAGE_SIZE + TAG_SIZE as u64 {
            return Err(CryptoError::AuthenticationFailed);
        }
        opened_chunk(open(self.key.as_slice(), nonce, ciphertext))
    }
}

/// Builds a cipher from key material: `key_bytes` must be `KEY_SIZE` long.
pub fn build_cipher(key_bytes: &[u8]) -> (r: Result<Cipher, CryptoError>)
    ensures
        match r {
            Ok(cipher) => key_bytes@.len() == KEY_SIZE && cipher@ == key_bytes@,
            Err(error) => key_bytes@.len() != KEY_SIZE && error == CryptoError::InvalidKeyLength,
        },
{
    if key_bytes.len() != KEY_SIZE {
        return Err(CryptoError::InvalidKeyLength);
    }
    Ok(Cipher { key: slice_to_vec(key_bytes) })
}

/// Draws a new random key.
pub fn generate_key() -> (key: Vec<u8>)
    ensures
        key@.len() == KEY_SIZE,
{
    random_key()
}

} // verus!
