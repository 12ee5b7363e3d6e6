//! Passphrase key derivation and AES-256-GCM with a prepended nonce.

use aes_gcm::aead::{Aead, KeyInit, OsRng};
use aes_gcm::{Aes256Gcm, Nonce};
use hkdf::Hkdf;
use rand::RngCore;
use sha2::Sha256;
use vstd::prelude::*;
use vstd::slice::slice_subrange;

verus! {

/// Length in bytes of every symmetric key.
pub const KEY_LEN: usize = 32;

/// Length in bytes of the nonce that precedes every ciphertext.
pub const NONCE_LEN: usize = 12;

/// Length in bytes of the authentication tag that ends every ciphertext.
pub const TAG_LEN: usize = 16;

/// Longest plaintext, in bytes, that AES-GCM encrypts under one nonce.
pub const MAX_PLAINTEXT_LEN: u64 = 0x10_0000_0000;

/// Why a symmetric operation was refused.
#[derive(Debug, Clone, Copy, PartialEq, Eq, Structural)]
pub enum CryptoError {
    /// The key is not `KEY_LEN` bytes long.
    InvalidKeyLength,
    /// The plaintext is longer than `MAX_PLAINTEXT_LEN`.
    MessageTooLong,
    /// The blob is shorter than a nonce, or its tag does not verify.
    DecryptionFailure,
}

/// HKDF-SHA256 output of `len` bytes for the given salt, input key material
/// and info.
pub uninterp spec fn hkdf_sha256(salt: Option<Seq<u8>>, ikm: Seq<u8>, info: Seq<u8>, len: nat) -> Seq<u8>;

/// AES-256-GCM ciphertext and tag of `plaintext` under `key` and `nonce`, with
/// no associated data.
pub uninterp spec fn aes256_gcm_seal(key: Seq<u8>, nonce: Seq<u8>, plaintext: Seq<u8>) -> Seq<u8>;

/// AES-256-GCM plaintext of `ciphertext` under `key` and `nonce`, with no
/// associated data; `None` where the key is no AES-256 key or the tag does
/// not verify.
pub uninterp spec fn aes256_gcm_open(key: Seq<u8>, nonce: Seq<u8>, ciphertext: Seq<u8>) -> Option<Seq<u8>>;

/// The key that a passphrase stands for: HKDF-SHA256 with no salt and empty
/// info, `KEY_LEN` bytes of output.
pub open spec fn passphrase_key(passphrase: Seq<u8>) -> Seq<u8> {
    hkdf_sha256(None, passphrase, Seq::empty(), KEY_LEN as nat)
}

/// What `encrypt` returns when it draws `nonce`: the nonce, then the
/// ciphertext and tag.
pub open spec fn sealed_blob(key: Seq<u8>, nonce: Seq<u8>, plaintext: Seq<u8>) -> Seq<u8> {
    nonce + aes256_gcm_seal(key, nonce, plaintext)
}

/// The plaintext that a blob holds under `key`: the first `NONCE_LEN` bytes
/// are the nonce, the rest is opened under it.
pub open spec fn open_blob(key: Seq<u8>, blob: Seq<u8>) -> Option<Seq<u8>> {
    if blob.len() < NONCE_LEN {
        None
    } else {
        aes256_gcm_open(key, blob.subrange(0, NONCE_LEN as int), blob.subrange(NONCE_LEN as int, blob.len() as int))
    }
}

/// `Hkdf::<Sha256>::new` followed by `Hkdf::expand` into 32 bytes. The output
/// is the HKDF-SHA256 of the arguments; the expansion cannot fail, 32 bytes
/// being one block of SHA-256.
#[verifier::external_body]
fn hkdf_sha256_expand(salt: Option<&[u8]>, ikm: &[u8], info: &[u8]) -> (okm: [u8; 32])
    ensures
        okm@ == hkdf_sha256(
            match salt { Some(s) => Some(s@), None => None },
            ikm@,
            info@,
            32,
        ),
{
    let hkdf = Hkdf::<Sha256>::new(salt, ikm);
    let mut okm = [0u8; 32];
    hkdf.expand(info, &mut okm).expect("one block of output is always valid");
    okm
}

/// `RngCore::fill_bytes` of the operating system's generator, on a fresh
/// buffer of `len` bytes. Nothing is known of the bytes. Where the operating
/// system has no randomness to give, the generator does not return; the RSA
/// operations, which draw from the same generator, behave alike.
#[verifier::external_body]
fn os_random_bytes(len: usize) -> (bytes: Vec<u8>)
    ensures
        bytes@.len() == len,
{
    let mut bytes = vec![0u8; len];
    OsRng.fill_bytes(&mut bytes);
    bytes
}

/// `Aes256Gcm::new_from_slice` and `Aead::encrypt`. It succeeds exactly on a
/// 32-byte key and a plaintext within the limit of AES-GCM; the result is the
/// ciphertext followed by its 16-byte tag, and `Aead::decrypt` under the same
/// key and nonce gives the plaintext back.
#[verifier::external_body]
fn aes256_gcm_encrypt(key: &[u8], nonce: &[u8], plaintext: &[u8]) -> (sealed: Option<Vec<u8>>)
    requires
        nonce@.len() == 12,
    ensures
        sealed is Some <==> (key@.len() == 32 && plaintext@.len() <= 0x10_0000_0000),
        sealed is Some ==> sealed.unwrap()@ == aes256_gcm_seal(key@, nonce@, plaintext@),
        sealed is Some ==> sealed.unwrap()@.len() == plaintext@.len() + 16,
        sealed is Some ==> aes256_gcm_open(key@, nonce@, sealed.unwrap()@) == Some(plaintext@),
{
    let cipher = Aes256Gcm::new_from_slice(key).ok()?;
    cipher.encrypt(Nonce::from_slice(nonce), plaintext).ok()
}

/// `Aes256Gcm::new_from_slice` and `Aead::decrypt`: the plaintext if the key
/// is 32 bytes long and the tag verifies, `None` otherwise. The result
/// depends on the three arguments alone.
#[verifier::external_body]
fn aes256_gcm_decrypt(key: &[u8], nonce: &[u8], ciphertext: &[u8]) -> (opened: Option<Vec<u8>>)
    requires
        nonce@.len() == 12,
    ensures
        match opened {
            Some(p) => aes256_gcm_open(key@, nonce@, ciphertext@) == Some(p@),
            None => aes256_gcm_open(key@, nonce@, ciphertext@) is None,
        },
{
    let cipher = Aes256Gcm::new_from_slice(key).ok()?;
    cipher.decrypt(Nonce::from_slice(nonce), ciphertext).ok()
}

/// Derives the 32-byte key of a passphrase.
pub fn derive_key(passphrase: &[u8]) -> (key: [u8; 32])
    ensures
        key@ == passphrase_key(passphrase@),
{
    let info: Vec<u8> = Vec::new();
    hkdf_sha256_expand(None, passphrase, info.as_slice())
}

/// Draws a fresh session key from the operating system's generator.
pub fn generate_session_key() -> (key: Vec<u8>)
    ensures
        key@.len() == KEY_LEN,
{
    os_random_bytes(KEY_LEN)
}

/// Draws a fresh nonce from the operating system's generator.
pub fn generate_nonce() -> (nonce: [u8; 12]) {
    let bytes = os_random_bytes(NONCE_LEN);
    [
        bytes[0], bytes[1], bytes[2], bytes[3], bytes[4], bytes[5],
        bytes[6], bytes[7], bytes[8], bytes[9], bytes[10], bytes[11],
    ]
}

/// Encrypts `data` under `key` and the given nonce, and puts the nonce in
/// front.
pub fn encrypt_with_nonce(data: &[u8], key: &[u8], nonce: &[u8; 12]) -> (blob: Result<Vec<u8>, CryptoError>)
    ensures
        key@.len() != KEY_LEN ==> blob == Err::<Vec<u8>, CryptoError>(CryptoError::InvalidKeyLength),
        key@.len() == KEY_LEN && data@.len() > MAX_PLAINTEXT_LEN ==> blob == Err::<Vec<u8>, CryptoError>(
            CryptoError::MessageTooLong,
        ),
        key@.len() == KEY_LEN && data@.len() <= MAX_PLAINTEXT_LEN ==> {
            &&& blob matches Ok(b)
            &&& b@ == sealed_blob(key@, nonce@, data@)
            &&& b@.len() == NONCE_LEN + data@.len() + TAG_LEN
            &&& open_blob(key@, b@) == Some(data@)
        },
{
    if key.len() != KEY_LEN {
        return Err(CryptoError::InvalidKeyLength);
    }
    match aes256_gcm_encrypt(key, nonce.as_slice(), data) {
        None => Err(CryptoError::MessageTooLong),
        Some(mut sealed) => {
            let mut blob: Vec<u8> = Vec::new();
            blob.extend_from_slice(nonce.as_slice());
            let ghost tail = sealed@;
            blob.append(&mut sealed);
            proof {
                assert(blob@ =~= nonce@ + tail);
                assert(blob@.subrange(0, NONCE_LEN as int) =~= nonce@);
                assert(blob@.subrange(NONCE_LEN as int, blob@.len() as int) =~= tail);
            }
            Ok(blob)
        },
    }
}

/// Encrypts `data` under `key` with a fresh random nonce: the result is the
/// nonce followed by the AES-256-GCM ciphertext and tag, and `decrypt` under
/// the same key gives `data` back.
pub fn encrypt(data: &[u8], key: &[u8]) -> (blob: Result<Vec<u8>, CryptoError>)
    ensures
        key@.len() != KEY_LEN ==> blob == Err::<Vec<u8>, CryptoError>(CryptoError::InvalidKeyLength),
        key@.len() == KEY_LEN && data@.len() > MAX_PLAINTEXT_LEN ==> blob == Err::<Vec<u8>, CryptoError>(
            CryptoError::MessageTooLong,
        ),
        key@.len() == KEY_LEN && data@.len() <= MAX_PLAINTEXT_LEN ==> {
            &&& blob matches Ok(b)
            &&& b@ == sealed_blob(key@, b@.subrange(0, NONCE_LEN as int), data@)
            &&& b@.len() == NONCE_LEN + data@.len() + TAG_LEN
            &&& open_blob(key@, b@) == Some(data@)
        },
{
    let nonce = generate_nonce();
    let blob = encrypt_with_nonce(data, key, &nonce);
    proof {
        if blob is Ok {
            assert(blob.unwrap()@.subrange(0, NONCE_LEN as int) =~= nonce@);
        }
    }
    blob
}

/// Splits the first `NONCE_LEN` bytes off as the nonce, then verifies and
/// decrypts the rest under `key`.
pub fn decrypt(encrypted_data: &[u8], key: &[u8]) -> (plain: Result<Vec<u8>, CryptoError>)
    ensures
        match plain {
            Ok(p) => open_blob(key@, encrypted_data@) == Some(p@),
            Err(e) => e == CryptoError::DecryptionFailure && open_blob(key@, encrypted_data@) is None,
        },
{
    if encrypted_data.len() < NONCE_LEN {
        return Err(CryptoError::DecryptionFailure);
    }
    let nonce = slice_subrange(encrypted_data, 0, NONCE_LEN);
    let ciphertext = slice_subrange(encrypted_data, NONCE_LEN, encrypted_data.len());
    match aes256_gcm_decrypt(key, nonce, ciphertext) {
        Some(p) => Ok(p),
        None => Err(CryptoError::DecryptionFailure),
    }
}

} // verus!
