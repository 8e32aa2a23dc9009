use beater::{decrypt, strip_header, DecryptError, DecryptionKey, ENCRYPTED_HEADER_SIZE};

const HEADER: usize = ENCRYPTED_HEADER_SIZE as usize;

fn key() -> DecryptionKey {
    DecryptionKey([
        0x0f, 0x1e, 0x2d, 0x3c, 0x4b, 0x5a, 0x69, 0x78, 0x87, 0x96, 0xa5, 0xb4, 0xc3, 0xd2, 0xe1,
        0xf0,
    ])
}

#[test]
fn header_size_is_167() {
    assert_eq!(HEADER, 167);
}

#[test]
fn output_is_input_minus_header() {
    for len in [167usize, 168, 200, 4096] {
        let out = decrypt(&key(), vec![0x55; len]).unwrap();
        assert_eq!(out.len(), len - 167);
    }
}

#[test]
fn short_blob_fails() {
    assert_eq!(decrypt(&key(), vec![0; 166]), Err(DecryptError::TooShort));
    assert_eq!(decrypt(&key(), vec![]), Err(DecryptError::TooShort));
}

#[test]
fn cipher_is_applied_not_copied() {
    let blob: Vec<u8> = (0..400u32).map(|i| (i % 251) as u8).collect();
    let out = decrypt(&key(), blob.clone()).unwrap();
    assert_ne!(out, blob[HEADER..].to_vec());
}

#[test]
fn keystream_is_aligned_after_header() {
    // Decrypting zeros yields the keystream; putting it back behind the header and
    // decrypting again must cancel it out.
    let stream = decrypt(&key(), vec![0; 300]).unwrap();
    let mut again = vec![0u8; HEADER];
    again.extend_from_slice(&stream);
    assert_eq!(decrypt(&key(), again).unwrap(), vec![0u8; 300 - HEADER]);
}

#[test]
fn decryption_is_deterministic_and_keyed() {
    let blob = vec![7u8; 250];
    assert_eq!(decrypt(&key(), blob.clone()), decrypt(&key(), blob.clone()));
    let other = DecryptionKey([1; 16]);
    assert_ne!(decrypt(&key(), blob.clone()), decrypt(&other, blob));
}

#[test]
fn strip_header_drops_exactly_the_header() {
    let plain: Vec<u8> = (0..170u8).collect();
    assert_eq!(strip_header(plain).unwrap(), vec![167, 168, 169]);
    assert_eq!(strip_header(vec![1; 167]).unwrap(), Vec::<u8>::new());
    assert_eq!(strip_header(vec![1; 3]), Err(DecryptError::TooShort));
}
