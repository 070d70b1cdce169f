use vstd::prelude::*;
use vstd::slice::slice_to_vec;

use crate::aead::{
    chunk_view, opening, random_nonce, sealed, sealing, Cipher, MAX_MESSAGE_SIZE, NONCE_SIZE,
    TAG_SIZE,
};
use crate::error::CryptoError;
use crate::producer::{pulled, ChunkProducer, Pending};
use crate::sink::{drained, written};

verus! {

/// What a decryptor makes of a whole ciphertext stream under `key`: the
/// first `NONCE_SIZE` bytes are the nonce, all that follows is opened under
/// it. A stream too short to hold a nonce is malformed.
pub open spec fn decrypted_stream(key: Seq<u8>, stream: Seq<u8>) -> Result<Seq<u8>, CryptoError> {
    if stream.len() < NONCE_SIZE {
        Err(CryptoError::MalformedInput)
    } else {
        opening(
            key,
            stream.subrange(0, NONCE_SIZE as int),
            stream.subrange(NONCE_SIZE as int, stream.len() as int),
        )
    }
}

/// A stream made of a nonce and of a ciphertext that the cipher opens under
/// that nonce decrypts to what the cipher opens it to.
pub proof fn lemma_round_trip(key: Seq<u8>, nonce: Seq<u8>, plaintext: Seq<u8>, ciphertext: Seq<u8>)
    requires
        nonce.len() == NONCE_SIZE,
        opening(key, nonce, ciphertext) == Ok::<Seq<u8>, CryptoError>(plaintext),
    ensures
        decrypted_stream(key, nonce + ciphertext) == Ok::<Seq<u8>, CryptoError>(plaintext),
{
    let stream = nonce + ciphertext;
    assert(stream.subrange(0, NONCE_SIZE as int) =~= nonce);
    assert(stream.subrange(NONCE_SIZE as int, stream.len() as int) =~= ciphertext);
}

/// A stream that holds a whole nonce fails to decrypt in one way only:
/// whatever made the cipher refuse what follows the nonce, the error is
/// `AuthenticationFailed`, and no plaintext comes with it.
pub proof fn lemma_refusal_is_opaque(key: Seq<u8>, stream: Seq<u8>)
    requires
        stream.len() >= NONCE_SIZE,
    ensures
        decrypted_stream(key, stream) matches Err(error) ==> error
            == CryptoError::AuthenticationFailed,
{
}

/// Takes a ciphertext stream apart into its nonce and what follows it.
pub fn split_nonce(stream: Vec<u8>) -> (r: Result<(Vec<u8>, Vec<u8>), CryptoError>)
    ensures
        match r {
            Ok((nonce, ciphertext)) => {
                &&& stream@.len() >= NONCE_SIZE
                &&& nonce@ == stream@.subrange(0, NONCE_SIZE as int)
                &&& ciphertext@ == stream@.subrange(NONCE_SIZE as int, stream@.len() as int)
            },
            Err(error) => stream@.len() < NONCE_SIZE && error == CryptoError::MalformedInput,
        },
{
    if stream.len() < NONCE_SIZE {
        return Err(CryptoError::MalformedInput);
    }
    let mut nonce = stream;
    let ciphertext = nonce.split_off(NONCE_SIZE);
    Ok((nonce, ciphertext))
}

/// Decrypts a whole ciphertext stream under `cipher`: takes the nonce off its
/// front and opens what follows under it.
pub fn decrypt(cipher: &Cipher, stream: Vec<u8>) -> (r: Result<Vec<u8>, CryptoError>)
    ensures
        chunk_view(r) == decrypted_stream(cipher@, stream@),
        stream@.len() < NONCE_SIZE ==> r == Err::<Vec<u8>, CryptoError>(
            CryptoError::MalformedInput,
        ),
        NONCE_SIZE <= stream@.len() < NONCE_SIZE + TAG_SIZE ==> r == Err::<Vec<u8>, CryptoError>(
            CryptoError::AuthenticationFailed,
        ),
        stream@.len() >= NONCE_SIZE ==> (r matches Err(error) ==> error
            == CryptoError::AuthenticationFailed),
        r matches Ok(plaintext) ==> NONCE_SIZE + plaintext@.len() + TAG_SIZE == stream@.len(),
{
    match split_nonce(stream) {
        Err(error) => Err(error),
        Ok((nonce, buffer)) => cipher.open(nonce.as_slice(), buffer),
    }
}

/// Where an encryptor stands.
#[derive(Clone, Copy, Debug, PartialEq, Eq, Structural)]
pub enum ChaChaEncryptorPhase {
    /// The nonce is to be handed out next.
    Nonce,
    /// The ciphertext is to be handed out next.
    Ciphertext,
    /// Nothing is left.
    Complete,
}

/// Where a decryptor stands.
#[derive(Clone, Copy, Debug, PartialEq, Eq, Structural)]
pub enum ChaChaDecryptorPhase {
    /// The plaintext is to be handed out next.
    Plaintext,
    /// Nothing is left.
    Complete,
}

/// An encryptor as the contracts see it.
pub struct EncryptorView {
    pub key: Seq<u8>,
    pub nonce: Seq<u8>,
    pub input: Seq<u8>,
    pub phase: ChaChaEncryptorPhase,
}

/// A decryptor as the contracts see it.
pub struct DecryptorView {
    pub key: Seq<u8>,
    pub input: Seq<u8>,
    pub phase: ChaChaDecryptorPhase,
}

/// Hands out a fresh nonce, then the plaintext sealed under it.
pub struct ChaChaEncryptor {
    cipher: Cipher,
    nonce: Vec<u8>,
    input_stream: Vec<u8>,
    phase: ChaChaEncryptorPhase,
}

impl View for ChaChaEncryptor {
    type V = EncryptorView;

    closed spec fn view(&self) -> EncryptorView {
        EncryptorView {
            key: self.cipher@,
            nonce: self.nonce@,
            input: self.input_stream@,
            phase: self.phase,
        }
    }
}

impl ChaChaEncryptor {
    /// An encryptor of `input_stream` under `cipher`. Its nonce is drawn
    /// here, before anything is pulled.
    pub fn new(cipher: Cipher, input_stream: Vec<u8>) -> (encryptor: Self)
        ensures
            encryptor.wf(),
            encryptor@.key == cipher@,
            encryptor@.input == input_stream@,
            encryptor@.phase == ChaChaEncryptorPhase::Nonce,
    {
        ChaChaEncryptor::with_nonce(cipher, random_nonce(), input_stream)
    }

    /// An encryptor of `input_stream` under `cipher` and the given nonce,
    /// which must not have been used under this key before.
    pub fn with_nonce(cipher: Cipher, nonce: Vec<u8>, input_stream: Vec<u8>) -> (encryptor: Self)
        requires
            nonce@.len() == NONCE_SIZE,
        ensures
            encryptor.wf(),
            encryptor@ == (EncryptorView {
                key: cipher@,
                nonce: nonce@,
                input: input_stream@,
                phase: ChaChaEncryptorPhase::Nonce,
            }),
    {
        let phase = ChaChaEncryptorPhase::Nonce;
        ChaChaEncryptor { cipher, nonce, input_stream, phase }
    }
}

impl ChunkProducer for ChaChaEncryptor {
    open spec fn wf(&self) -> bool {
        self@.nonce.len() == NONCE_SIZE
    }

    open spec fn pending(&self) -> Pending {
        let ciphertext = sealing(self@.key, self@.nonce, self@.input);
        match self@.phase {
            ChaChaEncryptorPhase::Nonce => seq![Ok(self@.nonce), ciphertext],
            ChaChaEncryptorPhase::Ciphertext => seq![ciphertext],
            ChaChaEncryptorPhase::Complete => Seq::empty(),
        }
    }

    fn next(&mut self) -> (chunk: Option<Result<Vec<u8>, CryptoError>>)
        ensures
            final(self)@.key == old(self)@.key,
            final(self)@.nonce == old(self)@.nonce,
            final(self)@.input == if old(self)@.phase == ChaChaEncryptorPhase::Ciphertext {
                Seq::<u8>::empty()
            } else {
                old(self)@.input
            },
            final(self)@.phase == match old(self)@.phase {
                ChaChaEncryptorPhase::Nonce => ChaChaEncryptorPhase::Ciphertext,
                _ => ChaChaEncryptorPhase::Complete,
            },
            old(self)@.phase == ChaChaEncryptorPhase::Ciphertext ==> (chunk matches Some(Ok(c))
                <==> old(self)@.input.len() <= MAX_MESSAGE_SIZE),
            old(self)@.phase == ChaChaEncryptorPhase::Ciphertext ==> (chunk matches Some(Ok(c))
                ==> c@.len() == old(self)@.input.len() + TAG_SIZE && decrypted_stream(
                old(self)@.key,
                old(self)@.nonce + c@,
            ) == Ok::<Seq<u8>, CryptoError>(old(self)@.input)),
    {
        match self.phase {
            ChaChaEncryptorPhase::Nonce => {
                let nonce_buffer = slice_to_vec(self.nonce.as_slice());
                self.phase = ChaChaEncryptorPhase::Ciphertext;
                proof {
                    assert(self.pending() =~= old(self).pending().drop_first());
                }
                Some(Ok(nonce_buffer))
            },
            ChaChaEncryptorPhase::Ciphertext => {
                let mut buffer = Vec::new();
                buffer.append(&mut self.input_stream);
                let sealed_buffer = self.cipher.seal(self.nonce.as_slice(), buffer);
                self.phase = ChaChaEncryptorPhase::Complete;
                proof {
                    assert(old(self)@.input =~= buffer@);
                    assert(self.pending() =~= old(self).pending().drop_first());
                    if sealed_buffer is Ok {
                        lemma_round_trip(
                            self@.key,
                            self@.nonce,
                            old(self)@.input,
                            sealed_buffer->Ok_0@,
                        );
                    }
                }
                Some(sealed_buffer)
            },
            ChaChaEncryptorPhase::Complete => None,
        }
    }
}

/// Takes a nonce and a ciphertext from its input and hands out the plaintext.
pub struct ChaChaDecryptor {
    cipher: Cipher,
    input_stream: Vec<u8>,
    phase: ChaChaDecryptorPhase,
}

impl View for ChaChaDecryptor {
    type V = DecryptorView;

    closed spec fn view(&self) -> DecryptorView {
        DecryptorView { key: self.cipher@, input: self.input_stream@, phase: self.phase }
    }
}

impl ChaChaDecryptor {
    /// A decryptor of `input_stream` under `cipher`.
    pub fn new(cipher: Cipher, input_stream: Vec<u8>) -> (decryptor: Self)
        ensures
            decryptor.wf(),
            decryptor@ == (DecryptorView {
                key: cipher@,
                input: input_stream@,
                phase: ChaChaDecryptorPhase::Plaintext,
            }),
    {
        let phase = ChaChaDecryptorPhase::Plaintext;
        ChaChaDecryptor { cipher, input_stream, phase }
    }
}

impl ChunkProducer for ChaChaDecryptor {
    open spec fn wf(&self) -> bool {
        true
    }

    open spec fn pending(&self) -> Pending {
        match self@.phase {
            ChaChaDecryptorPhase::Plaintext => seq![decrypted_stream(self@.key, self@.input)],
            ChaChaDecryptorPhase::Complete => Seq::empty(),
        }
    }

    fn next(&mut self) -> (chunk: Option<Result<Vec<u8>, CryptoError>>)
        ensures
            final(self)@.key == old(self)@.key,
            final(self)@.phase == ChaChaDecryptorPhase::Complete,
            final(self)@.input == if old(self)@.phase == ChaChaDecryptorPhase::Plaintext {
                Seq::<u8>::empty()
            } else {
                old(self)@.input
            },
            old(self)@.phase == ChaChaDecryptorPhase::Plaintext && old(self)@.input.len()
                < NONCE_SIZE ==> chunk == Some(
                Err::<Vec<u8>, CryptoError>(CryptoError::MalformedInput),
            ),
            chunk matches Some(Ok(plaintext)) ==> NONCE_SIZE + plaintext@.len() + TAG_SIZE == old(
                self,
            )@.input.len(),
    {
        match self.phase {
            ChaChaDecryptorPhase::Plaintext => {
                let mut stream = Vec::new();
                stream.append(&mut self.input_stream);
                self.phase = ChaChaDecryptorPhase::Complete;
                proof {
                    assert(old(self)@.input =~= stream@);
                    assert(self.pending() =~= old(self).pending().drop_first());
                }
                Some(decrypt(&self.cipher, stream))
            },
            ChaChaDecryptorPhase::Complete => None,
        }
    }
}

/// Whether `stream` is what encrypting `plaintext` under `key` may give: a
/// nonce, then the plaintext sealed under that nonce, and the whole decrypts
/// to the plaintext again.
pub open spec fn is_encryption_of(stream: Seq<u8>, key: Seq<u8>, plaintext: Seq<u8>) -> bool {
    &&& plaintext.len() <= MAX_MESSAGE_SIZE
    &&& stream.len() == NONCE_SIZE + plaintext.len() + TAG_SIZE
    &&& sealed(key, stream.subrange(0, NONCE_SIZE as int), plaintext) == Some(
        stream.subrange(NONCE_SIZE as int, stream.len() as int),
    )
    &&& decrypted_stream(key, stream) == Ok::<Seq<u8>, CryptoError>(plaintext)
}

/// Encrypts a whole plaintext under `cipher`: pulls a new encryptor until it
/// is exhausted and joins what it hands out.
pub fn encrypt(cipher: Cipher, plaintext: Vec<u8>) -> (r: Result<Vec<u8>, CryptoError>)
    ensures
        r is Ok <==> plaintext@.len() <= MAX_MESSAGE_SIZE,
        r matches Err(error) ==> error == CryptoError::EncryptionFailed,
        r matches Ok(stream) ==> is_encryption_of(stream@, cipher@, plaintext@),
{
    let mut encryptor = ChaChaEncryptor::new(cipher, plaintext);
    let ghost nonce = encryptor@.nonce;
    let mut stream = Vec::new();
    loop
        invariant
            encryptor.wf(),
            encryptor@.key == cipher@,
            encryptor@.nonce == nonce,
            match encryptor@.phase {
                ChaChaEncryptorPhase::Nonce => stream@.len() == 0 && encryptor@.input
                    == plaintext@,
                ChaChaEncryptorPhase::Ciphertext => stream@ == nonce && encryptor@.input
                    == plaintext@,
                ChaChaEncryptorPhase::Complete => plaintext@.len() <= MAX_MESSAGE_SIZE
                    && is_encryption_of(stream@, cipher@, plaintext@),
            },
        decreases encryptor.pending().len(),
    {
        let ghost before = stream@;
        match encryptor.next() {
            None => {
                return Ok(stream);
            },
            Some(Err(error)) => {
                return Err(error);
            },
            Some(Ok(bytes)) => {
                let mut chunk = bytes;
                stream.append(&mut chunk);
                proof {
                    assert(stream@ =~= before + bytes@);
                    if encryptor@.phase == ChaChaEncryptorPhase::Ciphertext {
                        assert(stream@ =~= nonce);
                    } else {
                        assert(stream@.subrange(0, NONCE_SIZE as int) =~= nonce);
                        assert(stream@.subrange(NONCE_SIZE as int, stream@.len() as int)
                            =~= bytes@);
                    }
                }
            },
        }
    }
}

/// An encryptor hands out exactly two chunks, the nonce and then the
/// plaintext sealed under it (or the error that sealing gave), and then
/// signals the end: `first`, `second`, `third` are what three pulls of a new
/// encryptor gave, `after_first` and what follows it what they left pending.
pub proof fn lemma_encryptor_chunk_order(
    encryptor: ChaChaEncryptor,
    first: Option<Result<Vec<u8>, CryptoError>>,
    after_first: Pending,
    second: Option<Result<Vec<u8>, CryptoError>>,
    after_second: Pending,
    third: Option<Result<Vec<u8>, CryptoError>>,
    after_third: Pending,
)
    requires
        encryptor@.phase == ChaChaEncryptorPhase::Nonce,
        pulled(encryptor.pending(), first, after_first),
        pulled(after_first, second, after_second),
        pulled(after_second, third, after_third),
    ensures
        first matches Some(Ok(nonce)) && nonce@ == encryptor@.nonce,
        second matches Some(c) && chunk_view(c) == sealing(
            encryptor@.key,
            encryptor@.nonce,
            encryptor@.input,
        ),
        third is None,
        after_third.len() == 0,
{
}

/// A decryptor hands out exactly one chunk, what its input decrypts to, and
/// then signals the end: `first` and `second` are what two pulls of a new
/// decryptor gave, `after_first` and `after_second` what they left pending.
pub proof fn lemma_decryptor_chunk_order(
    decryptor: ChaChaDecryptor,
    first: Option<Result<Vec<u8>, CryptoError>>,
    after_first: Pending,
    second: Option<Result<Vec<u8>, CryptoError>>,
    after_second: Pending,
)
    requires
        decryptor@.phase == ChaChaDecryptorPhase::Plaintext,
        pulled(decryptor.pending(), first, after_first),
        pulled(after_first, second, after_second),
    ensures
        first matches Some(c) && chunk_view(c) == decrypted_stream(
            decryptor@.key,
            decryptor@.input,
        ),
        second is None,
        after_second.len() == 0,
{
}

/// The stream that a new encryptor leaves in a sink: its nonce, then the
/// plaintext sealed under it. Where sealing fails the draining fails with
/// the same error, after the nonce was written.
pub proof fn lemma_encryptor_drain(encryptor: ChaChaEncryptor)
    requires
        encryptor@.phase == ChaChaEncryptorPhase::Nonce,
    ensures
        match sealing(encryptor@.key, encryptor@.nonce, encryptor@.input) {
            Ok(ciphertext) => {
                &&& written(encryptor.pending()) == encryptor@.nonce + ciphertext
                &&& drained(encryptor.pending()) == Ok::<(), CryptoError>(())
            },
            Err(error) => {
                &&& written(encryptor.pending()) == encryptor@.nonce
                &&& drained(encryptor.pending()) == Err::<(), CryptoError>(error)
            },
        },
{
    reveal_with_fuel(written, 3);
    reveal_with_fuel(drained, 3);
    let pending = encryptor.pending();
    let nonce = encryptor@.nonce;
    assert(pending.drop_first().drop_first() =~= Seq::empty());
    match sealing(encryptor@.key, nonce, encryptor@.input) {
        Ok(ciphertext) => {
            assert(written(pending) =~= nonce + ciphertext);
        },
        Err(_) => {
            assert(written(pending) =~= nonce);
        },
    }
}

/// What a new decryptor leaves in a sink: the plaintext that its input
/// decrypts to, or nothing at all where it does not decrypt.
pub proof fn lemma_decryptor_drain(decryptor: ChaChaDecryptor)
    requires
        decryptor@.phase == ChaChaDecryptorPhase::Plaintext,
    ensures
        match decrypted_stream(decryptor@.key, decryptor@.input) {
            Ok(plaintext) => {
                &&& written(decryptor.pending()) == plaintext
                &&& drained(decryptor.pending()) == Ok::<(), CryptoError>(())
            },
            Err(error) => {
                &&& written(decryptor.pending()) == Seq::<u8>::empty()
                &&& drained(decryptor.pending()) == Err::<(), CryptoError>(error)
            },
        },
{
    reveal_with_fuel(written, 2);
    reveal_with_fuel(drained, 2);
    let pending = decryptor.pending();
    assert(pending.drop_first() =~= Seq::empty());
    match decrypted_stream(decryptor@.key, decryptor@.input) {
        Ok(plaintext) => {
            assert(written(pending) =~= plaintext);
        },
        Err(_) => {},
    }
}

} // verus!
