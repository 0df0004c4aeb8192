use aes_siv::aead::generic_array::GenericArray;
use aes_siv::aead::{Aead, NewAead};
use aes_siv::Aes128SivAead;
use rand::RngCore;
use vstd::prelude::*;

verus! {

/// Length in bytes of the authentication tag that sealing puts in front of
/// the encrypted plaintext.
pub const TAG_LEN: usize = 16;

/// What AES-128-SIV (in its AEAD form) makes of a plaintext under a key and a
/// nonce: the ciphertext with its tag, or `None` when the cipher refuses.
pub uninterp spec fn siv_seal(key: Seq<u8>, nonce: Seq<u8>, plaintext: Seq<u8>) -> Option<Seq<u8>>;

/// What AES-128-SIV (in its AEAD form) makes of a ciphertext under a key and a
/// nonce: the plaintext, or `None` when the ciphertext is not authentic.
pub uninterp spec fn siv_open(key: Seq<u8>, nonce: Seq<u8>, ciphertext: Seq<u8>) -> Option<Seq<u8>>;

/// Relies on `Aead::encrypt` of `aes_siv::Aes128SivAead`: SIV is deterministic,
/// what it seals opens again under the same key and nonce, and the result is
/// the 16-byte tag followed by the encrypted plaintext. With a `Vec` buffer and
/// two headers (associated data and nonce) it does not fail; it allocates the
/// plaintext's length plus the tag, which must fit in `isize`.
#[verifier::external_body]
pub(crate) fn seal(key: &[u8; 32], nonce: &[u8; 16], plaintext: &[u8]) -> (r: Option<Vec<u8>>)
    requires
        plaintext@.len() + TAG_LEN <= isize::MAX,
    ensures
        r is Some,
        r matches Some(c) ==> c@.len() == plaintext@.len() + TAG_LEN,
        match r {
            Some(c) => siv_seal(key@, nonce@, plaintext@) == Some(c@)
                && siv_open(key@, nonce@, c@) == Some(plaintext@),
            None => siv_seal(key@, nonce@, plaintext@) is None,
        },
{
    let cipher = Aes128SivAead::new(&GenericArray::from(*key));
    cipher.encrypt(&GenericArray::from(*nonce), plaintext).ok()
}

/// Relies on `Aead::decrypt` of `aes_siv::Aes128SivAead`: it succeeds only when
/// the tag recomputed from the recovered plaintext matches, so sealing that
/// plaintext gives back the ciphertext.
#[verifier::external_body]
pub(crate) fn open(key: &[u8; 32], nonce: &[u8; 16], ciphertext: &[u8]) -> (r: Option<Vec<u8>>)
    ensures
        match r {
            Some(p) => siv_open(key@, nonce@, ciphertext@) == Some(p@)
                && siv_seal(key@, nonce@, p@) == Some(ciphertext@),
            None => siv_open(key@, nonce@, ciphertext@) is None,
        },
{
    let cipher = Aes128SivAead::new(&GenericArray::from(*key));
    cipher.decrypt(&GenericArray::from(*nonce), ciphertext).ok()
}

/// Relies on `rand::thread_rng` and `RngCore::fill_bytes`: sixteen bytes from
/// a cryptographically secure generator. Nothing is known of their values.
#[verifier::external_body]
pub(crate) fn fresh_nonce() -> (r: [u8; 16]) {
    let mut nonce: [u8; 16] = [0u8; 16];
    rand::thread_rng().fill_bytes(&mut nonce);
    nonce
}

} // verus!
