//! The frame pipeline: compression, then AES-256-GCM under the key derived
//! from the shared passphrase. It is the outermost wrapping of every frame.

use crate::crypto::aes::{
    decrypt, derive_key, encrypt, encrypt_with_nonce, open_blob, passphrase_key, sealed_blob, MAX_PLAINTEXT_LEN,
    NONCE_LEN, TAG_LEN,
};
use crate::transport::compression::{compress, decompress, gunzip, gzip_stream};
use vstd::prelude::*;
use vstd::utf8::encode_utf8;

verus! {

/// Why a frame could not be built or read.
#[derive(Debug, Clone, Copy, PartialEq, Eq, Structural)]
pub enum FrameError {
    /// The compressed payload is longer than AES-GCM encrypts.
    PayloadTooLong,
    /// The frame is shorter than a nonce, or its tag does not verify under
    /// the key.
    DecryptionFailure,
    /// The decrypted frame is no gzip stream.
    DecompressionFailure,
    /// The session key for the outer layer is not a key of the right length.
    InvalidSessionKey,
}

/// The frame that `payload` becomes under `passphrase` when `nonce` is drawn.
pub open spec fn frame_encode(payload: Seq<u8>, passphrase: Seq<char>, nonce: Seq<u8>) -> Seq<u8> {
    sealed_blob(passphrase_key(encode_utf8(passphrase)), nonce, gzip_stream(payload))
}

/// The payload that a frame holds under `passphrase`.
pub open spec fn frame_decode(wire: Seq<u8>, passphrase: Seq<char>) -> Result<Seq<u8>, FrameError> {
    match open_blob(passphrase_key(encode_utf8(passphrase)), wire) {
        None => Err(FrameError::DecryptionFailure),
        Some(stream) => match gunzip(stream) {
            None => Err(FrameError::DecompressionFailure),
            Some(payload) => Ok(payload),
        },
    }
}

/// Encodes a payload for the wire with the given nonce.
pub fn prepare_tx_with_nonce(data: Vec<u8>, passphrase: &str, nonce: &[u8; 12]) -> (wire: Result<
    Vec<u8>,
    FrameError,
>)
    ensures
        gzip_stream(data@).len() > MAX_PLAINTEXT_LEN ==> wire == Err::<Vec<u8>, FrameError>(
            FrameError::PayloadTooLong,
        ),
        gzip_stream(data@).len() <= MAX_PLAINTEXT_LEN ==> {
            &&& wire matches Ok(w)
            &&& w@ == frame_encode(data@, passphrase@, nonce@)
            &&& w@.len() == NONCE_LEN + gzip_stream(data@).len() + TAG_LEN
            &&& frame_decode(w@, passphrase@) == Ok::<Seq<u8>, FrameError>(data@)
        },
{
    let compressed_data = compress(data.as_slice());
    let key = derive_key(passphrase.as_bytes());
    match encrypt_with_nonce(compressed_data.as_slice(), key.as_slice(), nonce) {
        Ok(w) => Ok(w),
        Err(_) => Err(FrameError::PayloadTooLong),
    }
}

/// Encodes a payload for the wire: compresses it, then encrypts it under the
/// passphrase key with a fresh nonce. Decoding the frame under the same
/// passphrase gives the payload back.
pub fn prepare_tx(data: Vec<u8>, passphrase: &str) -> (wire: Result<Vec<u8>, FrameError>)
    ensures
        gzip_stream(data@).len() > MAX_PLAINTEXT_LEN ==> wire == Err::<Vec<u8>, FrameError>(
            FrameError::PayloadTooLong,
        ),
        gzip_stream(data@).len() <= MAX_PLAINTEXT_LEN ==> {
            &&& wire matches Ok(w)
            &&& w@ == frame_encode(data@, passphrase@, w@.subrange(0, NONCE_LEN as int))
            &&& w@.len() == NONCE_LEN + gzip_stream(data@).len() + TAG_LEN
            &&& frame_decode(w@, passphrase@) == Ok::<Seq<u8>, FrameError>(data@)
        },
{
    let compressed_data = compress(data.as_slice());
    let key = derive_key(passphrase.as_bytes());
    match encrypt(compressed_data.as_slice(), key.as_slice()) {
        Ok(w) => Ok(w),
        Err(_) => Err(FrameError::PayloadTooLong),
    }
}

/// Decodes a frame from the wire: decrypts it under the passphrase key, then
/// decompresses it.
pub fn prepare_rx(data: Vec<u8>, passphrase: &str) -> (payload: Result<Vec<u8>, FrameError>)
    ensures
        match payload {
            Ok(p) => frame_decode(data@, passphrase@) == Ok::<Seq<u8>, FrameError>(p@),
            Err(e) => frame_decode(data@, passphrase@) == Err::<Seq<u8>, FrameError>(e),
        },
{
    let key = derive_key(passphrase.as_bytes());
    match decrypt(data.as_slice(), key.as_slice()) {
        Err(_) => Err(FrameError::DecryptionFailure),
        Ok(decrypted_data) => match decompress(decrypted_data.as_slice()) {
            None => Err(FrameError::DecompressionFailure),
            Some(p) => Ok(p),
        },
    }
}

} // verus!
