use vstd::prelude::*;

verus! {

/// Number of leading bytes of every decrypted stream that belong to the container's
/// identification header and are never part of the audio.
pub const ENCRYPTED_HEADER_SIZE: u8 = 0xA7;

/// The secret that decrypts one file of one track.
#[derive(Clone, Copy, Debug)]
pub struct DecryptionKey(pub [u8; 16]);

/// Why a blob could not be decrypted.
#[derive(Clone, Copy, Debug, PartialEq, Eq, Structural, Hash)]
pub enum DecryptError {
    /// The blob is shorter than the header that must be stripped.
    TooShort,
}

/// The keyed stream cipher of the audio service applied to the whole of `blob` from its
/// first byte, as `librespot_audio::AudioDecrypt` computes it.
pub uninterp spec fn audio_keystream(key: Seq<u8>, blob: Seq<u8>) -> Seq<u8>;

/// Relies on `librespot_audio::AudioDecrypt`, read to the end over an in-memory cursor: its
/// `read` applies the keystream to exactly the bytes that the cursor yields, so the output
/// has the length of the input, and it fails only where the cursor does, which reading from
/// memory never does.
#[verifier::external_body]
fn apply_audio_keystream(key: &DecryptionKey, blob: Vec<u8>) -> (r: Option<Vec<u8>>)
    ensures
        r is Some,
        r matches Some(p) ==> p@ == audio_keystream(key.0@, blob@) && p@.len() == blob@.len(),
{
    let mut stream = librespot_audio::AudioDecrypt::new(
        Some(librespot_core::audio_key::AudioKey(key.0)),
        std::io::Cursor::new(blob),
    );
    let mut out = Vec::new();
    match std::io::Read::read_to_end(&mut stream, &mut out) {
        Ok(_) => Some(out),
        Err(_) => None,
    }
}

/// Drops the container header from a decrypted stream; fails on a stream shorter than it.
pub fn strip_header(plain: Vec<u8>) -> (r: Result<Vec<u8>, DecryptError>)
    ensures
        plain@.len() < ENCRYPTED_HEADER_SIZE ==> r == Err::<Vec<u8>, DecryptError>(
            DecryptError::TooShort,
        ),
        plain@.len() >= ENCRYPTED_HEADER_SIZE ==> (r matches Ok(a) && a@ == plain@.subrange(
            ENCRYPTED_HEADER_SIZE as int,
            plain@.len() as int,
        )),
{
    let header = ENCRYPTED_HEADER_SIZE as usize;
    if plain.len() < header {
        return Err(DecryptError::TooShort);
    }
    let mut plain = plain;
    let audio = plain.split_off(header);
    Ok(audio)
}

/// Decrypts a blob fetched from the CDN and strips its header. A blob shorter than the header
/// is refused before any cipher work.
pub fn decrypt(key: &DecryptionKey, blob: Vec<u8>) -> (r: Result<Vec<u8>, DecryptError>)
    ensures
        blob@.len() < ENCRYPTED_HEADER_SIZE ==> r == Err::<Vec<u8>, DecryptError>(
            DecryptError::TooShort,
        ),
        blob@.len() >= ENCRYPTED_HEADER_SIZE ==> r is Ok,
        r matches Ok(a) ==> a@ == audio_keystream(key.0@, blob@).subrange(
            ENCRYPTED_HEADER_SIZE as int,
            blob@.len() as int,
        ) && a@.len() == blob@.len() - ENCRYPTED_HEADER_SIZE,
{
    if blob.len() < ENCRYPTED_HEADER_SIZE as usize {
        return Err(DecryptError::TooShort);
    }
    let plain = apply_audio_keystream(key, blob).unwrap();
    strip_header(plain)
}

} // verus!
