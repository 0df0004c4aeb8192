//! Password-based authenticated encryption of byte strings.
//!
//! A password of at most 32 bytes is zero-padded into an AES-SIV key, a fresh
//! random 16-byte nonce is drawn for each message, and the nonce travels with
//! the ciphertext in a small envelope that has a fixed binary layout.
mod cipher;
mod envelope;
mod key;
mod wire;

pub use cipher::{siv_open, siv_seal, TAG_LEN};
pub use envelope::{
    decrypt, deserialize_and_decrypt, encrypt, encrypt_and_serialize, encrypt_with_nonce,
    lemma_altered_ciphertext_other_plaintext, open_spec, open_wire_spec, seal_spec,
    seal_wire_spec, DecryptError, EncryptError, Encrypted,
};
pub use key::{derive_key, padded_key, KEY_CAPACITY};
pub use wire::{frame, lemma_parse_frame, parse_frame, HEADER_LEN, NONCE_LEN};
