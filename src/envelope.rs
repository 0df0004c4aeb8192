use crate::cipher::{fresh_nonce, open, seal, siv_open, siv_seal, TAG_LEN};
use crate::key::{derive_key, padded_key, KEY_CAPACITY};
use crate::wire::{frame, from_wire, lemma_parse_frame, parse_frame, to_wire, HEADER_LEN, NONCE_LEN};
use vstd::prelude::*;

verus! {

/// A sealed message: the nonce it was sealed with, and the ciphertext with
/// its authentication tag.
pub struct Encrypted {
    nonce: [u8; 16],
    ciphertext: Vec<u8>,
}

/// Why encryption failed.
#[derive(Debug, Clone, Copy, PartialEq, Eq, Structural)]
pub enum EncryptError {
    /// The password is longer than the key.
    PasswordSize,
    /// The cipher refused the message.
    EncryptionFail,
    /// The envelope could not be written out.
    SerializeFail,
}

/// Why decryption failed.
#[derive(Debug, Clone, Copy, PartialEq, Eq, Structural)]
pub enum DecryptError {
    /// The password is longer than the key.
    PasswordSize,
    /// The ciphertext is not authentic under this password and nonce: a wrong
    /// password and tampered data are not told apart.
    DecryptFail,
    /// The bytes do not hold an envelope.
    DeserializeFail,
}

impl View for Encrypted {
    type V = (Seq<u8>, Seq<u8>);

    /// The nonce and the ciphertext.
    closed spec fn view(&self) -> (Seq<u8>, Seq<u8>) {
        (self.nonce@, self.ciphertext@)
    }
}

impl Encrypted {
    /// An envelope holding the given nonce and ciphertext.
    pub fn from_parts(nonce: [u8; 16], ciphertext: Vec<u8>) -> (r: Encrypted)
        ensures
            r@ == (nonce@, ciphertext@),
    {
        Encrypted { nonce, ciphertext }
    }

    /// The nonce that the message was sealed with.
    pub fn nonce(&self) -> (r: [u8; 16])
        ensures
            r@ == self@.0,
    {
        self.nonce
    }

    /// The ciphertext, authentication tag included.
    pub fn ciphertext(&self) -> (r: &Vec<u8>)
        ensures
            r@ == self@.1,
    {
        &self.ciphertext
    }
}

/// The ciphertext that sealing `plaintext` with `password` and `nonce` gives.
pub open spec fn seal_spec(password: Seq<u8>, nonce: Seq<u8>, plaintext: Seq<u8>) -> Result<Seq<u8>, EncryptError> {
    if password.len() > KEY_CAPACITY {
        Err(EncryptError::PasswordSize)
    } else {
        match siv_seal(padded_key(password), nonce, plaintext) {
            Some(c) => Ok(c),
            None => Err(EncryptError::EncryptionFail),
        }
    }
}

/// The bytes of the envelope that sealing `plaintext` with `password` and
/// `nonce` gives.
pub open spec fn seal_wire_spec(password: Seq<u8>, nonce: Seq<u8>, plaintext: Seq<u8>) -> Result<Seq<u8>, EncryptError> {
    match seal_spec(password, nonce, plaintext) {
        Ok(c) => if c.len() <= u64::MAX {
            Ok(frame(nonce, c))
        } else {
            Err(EncryptError::SerializeFail)
        },
        Err(e) => Err(e),
    }
}

/// The plaintext that opening `ciphertext` with `password` and `nonce` gives.
pub open spec fn open_spec(password: Seq<u8>, nonce: Seq<u8>, ciphertext: Seq<u8>) -> Result<Seq<u8>, DecryptError> {
    if password.len() > KEY_CAPACITY {
        Err(DecryptError::PasswordSize)
    } else {
        match siv_open(padded_key(password), nonce, ciphertext) {
            Some(m) => Ok(m),
            None => Err(DecryptError::DecryptFail),
        }
    }
}

/// The plaintext that opening the envelope in `bytes` with `password` gives;
/// every failure after the envelope was read is reported as `DecryptFail`.
pub open spec fn open_wire_spec(password: Seq<u8>, bytes: Seq<u8>) -> Result<Seq<u8>, DecryptError> {
    match parse_frame(bytes) {
        None => Err(DecryptError::DeserializeFail),
        Some((nonce, ciphertext)) => match open_spec(password, nonce, ciphertext) {
            Ok(m) => Ok(m),
            Err(_) => Err(DecryptError::DecryptFail),
        },
    }
}

/// Under one password and nonce, plaintexts that seal to different ciphertexts
/// differ. Since `decrypt` and `deserialize_and_decrypt` only return a
/// plaintext that seals back to exactly the ciphertext it was read from, an
/// altered ciphertext never opens to the original plaintext.
pub proof fn lemma_altered_ciphertext_other_plaintext(
    password: Seq<u8>,
    nonce: Seq<u8>,
    plaintext: Seq<u8>,
    ciphertext: Seq<u8>,
    opened: Seq<u8>,
    altered: Seq<u8>,
)
    requires
        seal_spec(password, nonce, plaintext) == Ok::<Seq<u8>, EncryptError>(ciphertext),
        seal_spec(password, nonce, opened) == Ok::<Seq<u8>, EncryptError>(altered),
        altered != ciphertext,
    ensures
        opened != plaintext,
{
}

/// Seals `bytes` with the key derived from `password` and the given nonce.
/// A nonce must never be used twice under one key: sealing two different
/// messages with the same key and nonce gives away their confidentiality and
/// integrity. `encrypt` draws a fresh random nonce for every call.
pub fn encrypt_with_nonce(password: &[u8], nonce: [u8; 16], bytes: &[u8]) -> (r: Result<Encrypted, EncryptError>)
    requires
        bytes@.len() + TAG_LEN + HEADER_LEN <= isize::MAX,
    ensures
        r is Ok <==> password@.len() <= KEY_CAPACITY,
        r matches Ok(e) ==> e@.1.len() == bytes@.len() + TAG_LEN,
        match r {
            Ok(e) => e@.0 == nonce@ && seal_spec(password@, nonce@, bytes@) == Ok::<Seq<u8>, EncryptError>(e@.1),
            Err(err) => seal_spec(password@, nonce@, bytes@) == Err::<Seq<u8>, EncryptError>(err),
        },
        r matches Ok(e) ==> open_spec(password@, e@.0, e@.1) == Ok::<Seq<u8>, DecryptError>(bytes@),
{
    let key = match derive_key(password) {
        Some(k) => k,
        None => return Err(EncryptError::PasswordSize),
    };
    match seal(&key, &nonce, bytes) {
        Some(ciphertext) => Ok(Encrypted { nonce, ciphertext }),
        None => Err(EncryptError::EncryptionFail),
    }
}

/// Seals `bytes` with the key derived from `password` and a fresh random nonce.
/// `decrypt` with the same password gives `bytes` back.
pub fn encrypt(password: &[u8], bytes: &[u8]) -> (r: Result<Encrypted, EncryptError>)
    requires
        bytes@.len() + TAG_LEN + HEADER_LEN <= isize::MAX,
    ensures
        r is Ok <==> password@.len() <= KEY_CAPACITY,
        r matches Ok(e) ==> e@.1.len() == bytes@.len() + TAG_LEN,
        r matches Err(EncryptError::PasswordSize) <==> password@.len() > KEY_CAPACITY,
        r matches Ok(e) ==> e@.0.len() == NONCE_LEN && seal_spec(password@, e@.0, bytes@) == Ok::<Seq<u8>, EncryptError>(e@.1),
        r matches Ok(e) ==> open_spec(password@, e@.0, e@.1) == Ok::<Seq<u8>, DecryptError>(bytes@),
        !(r matches Err(EncryptError::SerializeFail)),
{
    let nonce = fresh_nonce();
    encrypt_with_nonce(password, nonce, bytes)
}

/// Seals `bytes` as `encrypt` does and writes the envelope out as bytes.
/// `deserialize_and_decrypt` with the same password gives `bytes` back.
pub fn encrypt_and_serialize(password: &[u8], bytes: &[u8]) -> (r: Result<Vec<u8>, EncryptError>)
    requires
        bytes@.len() + TAG_LEN + HEADER_LEN <= isize::MAX,
    ensures
        r is Ok <==> password@.len() <= KEY_CAPACITY,
        r matches Ok(b) ==> b@.len() == bytes@.len() + TAG_LEN + HEADER_LEN,
        r matches Err(EncryptError::PasswordSize) <==> password@.len() > KEY_CAPACITY,
        r matches Ok(b) ==> b@.len() >= NONCE_LEN
            && seal_wire_spec(password@, b@.subrange(0, NONCE_LEN as int), bytes@) == Ok::<Seq<u8>, EncryptError>(b@),
        r matches Ok(b) ==> open_wire_spec(password@, b@) == Ok::<Seq<u8>, DecryptError>(bytes@),
{
    let encrypted = encrypt(password, bytes)?;
    let ciphertext_len = encrypted.ciphertext.len();
    assert(ciphertext_len <= usize::MAX <= u64::MAX);
    match to_wire(&encrypted.nonce, &encrypted.ciphertext) {
        Some(b) => {
            assert(b@.subrange(0, NONCE_LEN as int) =~= encrypted.nonce@);
            proof {
                lemma_parse_frame(encrypted.nonce@, encrypted.ciphertext@);
            }
            Ok(b)
        },
        None => Err(EncryptError::SerializeFail),
    }
}

/// Opens `encrypted` with the key derived from `password`.
pub fn decrypt(password: &[u8], encrypted: &Encrypted) -> (r: Result<Vec<u8>, DecryptError>)
    ensures
        match r {
            Ok(m) => open_spec(password@, encrypted@.0, encrypted@.1) == Ok::<Seq<u8>, DecryptError>(m@),
            Err(err) => open_spec(password@, encrypted@.0, encrypted@.1) == Err::<Seq<u8>, DecryptError>(err),
        },
        r matches Err(DecryptError::PasswordSize) <==> password@.len() > KEY_CAPACITY,
        r matches Ok(m) ==> seal_spec(password@, encrypted@.0, m@) == Ok::<Seq<u8>, EncryptError>(encrypted@.1),
{
    let key = match derive_key(password) {
        Some(k) => k,
        None => return Err(DecryptError::PasswordSize),
    };
    match open(&key, &encrypted.nonce, encrypted.ciphertext.as_slice()) {
        Some(m) => Ok(m),
        None => Err(DecryptError::DecryptFail),
    }
}

/// Reads an envelope from `serialized` and opens it with `password`.
pub fn deserialize_and_decrypt(password: &[u8], serialized: &[u8]) -> (r: Result<Vec<u8>, DecryptError>)
    ensures
        match r {
            Ok(m) => open_wire_spec(password@, serialized@) == Ok::<Seq<u8>, DecryptError>(m@),
            Err(err) => open_wire_spec(password@, serialized@) == Err::<Seq<u8>, DecryptError>(err),
        },
        r matches Err(DecryptError::DeserializeFail) <==> parse_frame(serialized@) is None,
        !(r matches Err(DecryptError::PasswordSize)),
        r matches Ok(m) ==> parse_frame(serialized@) matches Some((nonce, ciphertext))
            && seal_spec(password@, nonce, m@) == Ok::<Seq<u8>, EncryptError>(ciphertext),
{
    let (nonce, ciphertext) = match from_wire(serialized) {
        Some(e) => e,
        None => return Err(DecryptError::DeserializeFail),
    };
    let encrypted = Encrypted { nonce, ciphertext };
    match decrypt(password, &encrypted) {
        Ok(m) => Ok(m),
        Err(_) => Err(DecryptError::DecryptFail),
    }
}

} // verus!
