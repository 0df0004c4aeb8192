use simplestcrypt::{
    decrypt, derive_key, deserialize_and_decrypt, encrypt, encrypt_and_serialize,
    encrypt_with_nonce, DecryptError, EncryptError,
};

const PASSWORD: &[u8] = b"hello wooooooooo";

#[test]
fn example_round_trip() {
    let payload = "Hello world!".as_bytes();
    let encrypted = encrypt_and_serialize(PASSWORD, payload).unwrap();
    assert!(!encrypted.is_empty());
    assert_ne!(encrypted.as_slice(), payload);
    let plain = deserialize_and_decrypt(PASSWORD, &encrypted).unwrap();
    assert_eq!(plain.len(), 12);
    assert_eq!(plain.as_slice(), payload);
}

#[test]
fn round_trip_empty_message() {
    let encrypted = encrypt_and_serialize(PASSWORD, b"").unwrap();
    let plain = deserialize_and_decrypt(PASSWORD, &encrypted).unwrap();
    assert!(plain.is_empty());
}

#[test]
fn round_trip_empty_and_full_passwords() {
    let full = [7u8; 32];
    for password in [&b""[..], &full[..]] {
        let encrypted = encrypt_and_serialize(password, b"some message").unwrap();
        let plain = deserialize_and_decrypt(password, &encrypted).unwrap();
        assert_eq!(plain.as_slice(), b"some message");
    }
}

#[test]
fn round_trip_through_envelope() {
    let encrypted = encrypt(PASSWORD, b"payload").unwrap();
    assert_ne!(encrypted.ciphertext().as_slice(), b"payload");
    let plain = decrypt(PASSWORD, &encrypted).unwrap();
    assert_eq!(plain.as_slice(), b"payload");
}

#[test]
fn password_too_long() {
    let long = [1u8; 33];
    assert_eq!(encrypt(&long, b"m").err(), Some(EncryptError::PasswordSize));
    assert_eq!(encrypt_and_serialize(&long, b"m").err(), Some(EncryptError::PasswordSize));
    let encrypted = encrypt(PASSWORD, b"m").unwrap();
    assert_eq!(decrypt(&long, &encrypted), Err(DecryptError::PasswordSize));
}

#[test]
fn password_too_long_after_deserialize_is_decrypt_fail() {
    let long = [1u8; 33];
    let bytes = encrypt_and_serialize(PASSWORD, b"m").unwrap();
    assert_eq!(deserialize_and_decrypt(&long, &bytes), Err(DecryptError::DecryptFail));
}

#[test]
fn nonces_differ_between_calls() {
    let a = encrypt(PASSWORD, b"same").unwrap();
    let b = encrypt(PASSWORD, b"same").unwrap();
    assert_ne!(a.nonce(), b.nonce());
    assert_ne!(a.ciphertext(), b.ciphertext());
}

#[test]
fn same_nonce_same_ciphertext() {
    let nonce = [9u8; 16];
    let a = encrypt_with_nonce(PASSWORD, nonce, b"same").unwrap();
    let b = encrypt_with_nonce(PASSWORD, nonce, b"same").unwrap();
    assert_eq!(a.nonce(), nonce);
    assert_eq!(a.ciphertext(), b.ciphertext());
    assert_eq!(a.ciphertext().len(), 4 + 16);
    assert_ne!(&a.ciphertext()[16..], b"same");
}

#[test]
fn wrong_password_fails() {
    let encrypted = encrypt(b"password one", b"secret").unwrap();
    assert_eq!(decrypt(b"password two", &encrypted), Err(DecryptError::DecryptFail));
    let bytes = encrypt_and_serialize(b"password one", b"secret").unwrap();
    assert_eq!(
        deserialize_and_decrypt(b"password two", &bytes),
        Err(DecryptError::DecryptFail)
    );
}

#[test]
fn padded_passwords_share_a_key() {
    let encrypted = encrypt(b"abc", b"secret").unwrap();
    let plain = decrypt(b"abc\0\0", &encrypted).unwrap();
    assert_eq!(plain.as_slice(), b"secret");
}

#[test]
fn flipped_ciphertext_bit_fails() {
    let bytes = encrypt_and_serialize(PASSWORD, b"Hello world!").unwrap();
    for i in 24..bytes.len() {
        for bit in 0..8 {
            let mut tampered = bytes.clone();
            tampered[i] ^= 1 << bit;
            assert_eq!(
                deserialize_and_decrypt(PASSWORD, &tampered),
                Err(DecryptError::DecryptFail)
            );
        }
    }
}

#[test]
fn flipped_nonce_bit_fails() {
    let bytes = encrypt_and_serialize(PASSWORD, b"Hello world!").unwrap();
    let mut tampered = bytes.clone();
    tampered[3] ^= 0x10;
    assert_eq!(deserialize_and_decrypt(PASSWORD, &tampered), Err(DecryptError::DecryptFail));
}

#[test]
fn malformed_input_rejected() {
    assert_eq!(deserialize_and_decrypt(PASSWORD, b""), Err(DecryptError::DeserializeFail));
    assert_eq!(deserialize_and_decrypt(PASSWORD, b"not an envelope"), Err(DecryptError::DeserializeFail));
    let mut announces_too_much = vec![0u8; 24];
    announces_too_much[16] = 5;
    announces_too_much.extend_from_slice(&[1, 2, 3, 4]);
    assert_eq!(
        deserialize_and_decrypt(PASSWORD, &announces_too_much),
        Err(DecryptError::DeserializeFail)
    );
    let mut huge = vec![0u8; 24];
    for b in &mut huge[16..24] {
        *b = 0xff;
    }
    assert_eq!(deserialize_and_decrypt(PASSWORD, &huge), Err(DecryptError::DeserializeFail));
}

#[test]
fn well_framed_garbage_is_decrypt_fail() {
    let mut bytes = vec![0u8; 24];
    bytes[16] = 20;
    bytes.extend_from_slice(&[0xab; 20]);
    assert_eq!(deserialize_and_decrypt(PASSWORD, &bytes), Err(DecryptError::DecryptFail));
}

#[test]
fn trailing_bytes_are_ignored() {
    let mut bytes = encrypt_and_serialize(PASSWORD, b"tail").unwrap();
    bytes.extend_from_slice(b"extra");
    assert_eq!(deserialize_and_decrypt(PASSWORD, &bytes).unwrap().as_slice(), b"tail");
}

#[test]
fn wire_layout() {
    let bytes = encrypt_and_serialize(PASSWORD, b"Hello world!").unwrap();
    assert_eq!(bytes.len(), 16 + 8 + 12 + 16);
    let mut len = [0u8; 8];
    len.copy_from_slice(&bytes[16..24]);
    assert_eq!(u64::from_le_bytes(len), 28);
    assert_eq!(&bytes[16..24], &28u64.to_le_bytes());
}

#[test]
fn key_is_zero_padded() {
    let key = derive_key(b"ab").unwrap();
    let mut expected = [0u8; 32];
    expected[0] = b'a';
    expected[1] = b'b';
    assert_eq!(key, expected);
    assert_eq!(derive_key(&[5u8; 32]), Some([5u8; 32]));
    assert_eq!(derive_key(&[5u8; 33]), None);
}

#[test]
fn envelope_from_parts_decrypts() {
    let sealed = encrypt(PASSWORD, b"parts").unwrap();
    let rebuilt = simplestcrypt::Encrypted::from_parts(sealed.nonce(), sealed.ciphertext().clone());
    assert_eq!(decrypt(PASSWORD, &rebuilt).unwrap().as_slice(), b"parts");
}

#[test]
fn full_length_password_ciphertext_carries_tag() {
    let password = [b'a'; 32];
    let encrypted = encrypt(&password, b"Hello world!").unwrap();
    assert_eq!(encrypted.nonce().len(), 16);
    assert_eq!(encrypted.ciphertext().len(), 28);
}

#[test]
fn empty_password_and_message_give_tag_only() {
    let encrypted = encrypt(b"", b"").unwrap();
    assert_eq!(encrypted.ciphertext().len(), 16);
    assert_eq!(decrypt(b"", &encrypted).unwrap().len(), 0);
}

#[test]
fn serialized_length_is_message_plus_forty() {
    for len in [0usize, 1, 12, 100] {
        let message = vec![3u8; len];
        let bytes = encrypt_and_serialize(PASSWORD, &message).unwrap();
        assert_eq!(bytes.len(), len + 40);
    }
}
