//! RSA key pairs and the wrapping of a session key under PKCS#1 v1.5. Keys are
//! held as their PKCS#1 encodings: the private key in DER, the public key in
//! PEM, as it travels in a handshake response.

use rand::rngs::OsRng;
use rsa::pkcs1::{DecodeRsaPrivateKey, DecodeRsaPublicKey, EncodeRsaPrivateKey, EncodeRsaPublicKey, LineEnding};
use rsa::traits::PublicKeyParts;
use rsa::{Pkcs1v15Encrypt, RsaPrivateKey, RsaPublicKey};
use vstd::prelude::*;

verus! {

/// Size in bits of the modulus of every key pair made here.
pub const RSA_BITS: usize = 2048;

/// Size in bytes of that modulus, which is also the size of what is
/// encrypted to such a key.
pub const RSA_MODULUS_LEN: usize = 256;

/// What PKCS#1 v1.5 padding adds to a message at the least, in bytes.
pub const PADDING_LEN: usize = 11;

/// The size in bytes of the modulus of the public key that `pem` is read as;
/// `None` where it is not read as one: where it is no UTF-8 text that holds
/// one well-formed `RSA PUBLIC KEY` document with an acceptable modulus and
/// exponent.
pub uninterp spec fn rsa_modulus_len(pem: Seq<u8>) -> Option<nat>;

/// Whether `pem` is read as a PKCS#1 public key.
pub open spec fn rsa_pem_accepted(pem: Seq<u8>) -> bool {
    rsa_modulus_len(pem) is Some
}

/// Whether a message of `len` bytes can be encrypted to the key `pem`: the
/// key is read, and the message with its padding is no longer than the
/// modulus.
pub open spec fn takes(pem: Seq<u8>, len: nat) -> bool {
    rsa_modulus_len(pem) is Some && len + PADDING_LEN <= rsa_modulus_len(pem)->0
}

/// Whether `ciphertext` is a PKCS#1 v1.5 encryption of `message` to the public
/// key `pem`: what encryption returns for some choice of its random padding.
pub uninterp spec fn rsa_encrypts(pem: Seq<u8>, message: Seq<u8>, ciphertext: Seq<u8>) -> bool;

/// The message that PKCS#1 v1.5 decryption under the private key `der` finds
/// in `ciphertext`; `None` where the key is not read or the padding is wrong.
pub uninterp spec fn rsa_decrypt(der: Seq<u8>, ciphertext: Seq<u8>) -> Option<Seq<u8>>;

/// The private key `der` and the public key `pem` belong together: whatever
/// is encrypted to `pem` decrypts under `der` to the message that went in.
pub open spec fn is_key_pair(der: Seq<u8>, pem: Seq<u8>) -> bool {
    forall|message: Seq<u8>, ciphertext: Seq<u8>| #[trigger]
        rsa_encrypts(pem, message, ciphertext) ==> rsa_decrypt(der, ciphertext) == Some(message)
}

/// The private half of a key pair. It is made by `generate_key_pair` only and
/// never leaves the peer that made it.
pub struct PrivateKey {
    der: Vec<u8>,
}

/// The public half of a key pair, as PKCS#1 PEM.
pub struct PublicKey {
    pem: Vec<u8>,
}

impl View for PrivateKey {
    type V = Seq<u8>;

    closed spec fn view(&self) -> Seq<u8> {
        self.der@
    }
}

impl View for PublicKey {
    type V = Seq<u8>;

    closed spec fn view(&self) -> Seq<u8> {
        self.pem@
    }
}

/// `RsaPrivateKey::new` with the operating system's generator, for a modulus
/// of 2048 bits; then `RsaPublicKey::from` for the public half. The private
/// key is handed back as PKCS#1 DER and the public key as PKCS#1 PEM with LF
/// line ends. The two belong together. The generator makes a modulus of
/// exactly the bits asked for, so the PEM is read as a key whose modulus
/// takes 256 bytes. Whether a pair is made at all is up to the generator.
#[verifier::external_body]
fn rsa_generate(bits: usize) -> (pair: Option<(Vec<u8>, Vec<u8>)>)
    requires
        bits == 2048,
    ensures
        pair matches Some(p) ==> is_key_pair(p.0@, p.1@),
        pair matches Some(p) ==> rsa_modulus_len(p.1@) == Some(256nat),
{
    let private_key = RsaPrivateKey::new(&mut OsRng, bits).ok()?;
    let pem = RsaPublicKey::from(&private_key).to_pkcs1_pem(LineEnding::LF).ok()?;
    let der = private_key.to_pkcs1_der().ok()?;
    Some((der.as_bytes().to_vec(), pem.into_bytes()))
}

/// `RsaPublicKey::from_pkcs1_pem` on the bytes taken as UTF-8 text, then
/// `PublicKeyParts::size`: the size of the modulus of the key that is read,
/// if one is.
#[verifier::external_body]
fn rsa_read_public(pem: &[u8]) -> (size: Option<usize>)
    ensures
        match size {
            Some(k) => rsa_modulus_len(pem@) == Some(k as nat),
            None => rsa_modulus_len(pem@) is None,
        },
{
    let text = std::str::from_utf8(pem).ok()?;
    let public_key = RsaPublicKey::from_pkcs1_pem(text).ok()?;
    Some(public_key.size())
}

/// `RsaPublicKey::encrypt` with `Pkcs1v15Encrypt` and the operating system's
/// generator, under the key read from `pem`. It succeeds exactly where the
/// PEM is read as a key and the message is at least 11 bytes shorter than the
/// modulus. The padding is random, so only this is known of a ciphertext: it
/// is an encryption of the message to that key, and as long as the modulus.
#[verifier::external_body]
fn rsa_encrypt_to(pem: &[u8], message: &[u8]) -> (ciphertext: Option<Vec<u8>>)
    ensures
        ciphertext is Some <==> takes(pem@, message@.len()),
        ciphertext matches Some(c) ==> rsa_encrypts(pem@, message@, c@),
        ciphertext matches Some(c) ==> rsa_modulus_len(pem@) == Some(c@.len()),
{
    let text = std::str::from_utf8(pem).ok()?;
    let public_key = RsaPublicKey::from_pkcs1_pem(text).ok()?;
    public_key.encrypt(&mut OsRng, Pkcs1v15Encrypt, message).ok()
}

/// `RsaPrivateKey::decrypt` with `Pkcs1v15Encrypt`, under the key read from
/// the DER of `key`. No generator takes part, so the result depends on the key
/// and the ciphertext alone.
#[verifier::external_body]
fn rsa_decrypt_with(key: &PrivateKey, ciphertext: &[u8]) -> (message: Option<Vec<u8>>)
    ensures
        match message {
            Some(m) => rsa_decrypt(key@, ciphertext@) == Some(m@),
            None => rsa_decrypt(key@, ciphertext@) is None,
        },
{
    let private_key = RsaPrivateKey::from_pkcs1_der(&key.der).ok()?;
    private_key.decrypt(Pkcs1v15Encrypt, ciphertext).ok()
}

impl PublicKey {
    /// Takes the PEM of a peer's public key, if it reads as one.
    pub fn from_pkcs1_pem(pem: Vec<u8>) -> (key: Option<PublicKey>)
        ensures
            key is Some <==> rsa_pem_accepted(pem@),
            key matches Some(k) ==> k@ == pem@,
    {
        match rsa_read_public(pem.as_slice()) {
            Some(_) => Some(PublicKey { pem }),
            None => None,
        }
    }

    /// The PEM bytes of this key.
    pub fn to_pkcs1_pem(&self) -> (pem: Vec<u8>)
        ensures
            pem@ == self@,
    {
        self.pem.clone()
    }

    /// A copy of this key.
    pub fn duplicate(&self) -> (copy: PublicKey)
        ensures
            copy@ == self@,
    {
        PublicKey { pem: self.pem.clone() }
    }

    /// Wraps `message` to this key, which succeeds exactly where the message
    /// with its padding fits the modulus. The result is as long as the
    /// modulus. Only the holder of the matching private key unwraps it.
    pub fn encrypt(&self, message: &[u8]) -> (ciphertext: Option<Vec<u8>>)
        ensures
            ciphertext is Some <==> takes(self@, message@.len()),
            ciphertext matches Some(c) ==> rsa_encrypts(self@, message@, c@),
            ciphertext matches Some(c) ==> rsa_modulus_len(self@) == Some(c@.len()),
    {
        rsa_encrypt_to(self.pem.as_slice(), message)
    }
}

impl PrivateKey {
    /// A copy of this key, for the peer that made it.
    pub fn duplicate(&self) -> (copy: PrivateKey)
        ensures
            copy@ == self@,
    {
        PrivateKey { der: self.der.clone() }
    }

    /// Unwraps what was wrapped to the matching public key.
    pub fn decrypt(&self, ciphertext: &[u8]) -> (message: Option<Vec<u8>>)
        ensures
            match message {
                Some(m) => rsa_decrypt(self@, ciphertext@) == Some(m@),
                None => rsa_decrypt(self@, ciphertext@) is None,
            },
    {
        rsa_decrypt_with(self, ciphertext)
    }
}

/// The key pair that the generator handed back, if it handed one back.
fn key_pair_of(generated: Option<(Vec<u8>, Vec<u8>)>) -> (pair: Option<(PrivateKey, PublicKey)>)
    ensures
        match generated {
            Some(g) => pair matches Some(p) && p.0@ == g.0@ && p.1@ == g.1@,
            None => pair is None,
        },
{
    match generated {
        None => None,
        Some((der, pem)) => Some((PrivateKey { der }, PublicKey { pem })),
    }
}

/// Makes a fresh RSA-2048 key pair: two halves that belong together, the
/// public one read as a key with a modulus of `RSA_MODULUS_LEN` bytes. `None`
/// where the generator makes none.
pub fn generate_key_pair() -> (pair: Option<(PrivateKey, PublicKey)>)
    ensures
        pair matches Some(p) ==> is_key_pair(p.0@, p.1@) && rsa_modulus_len(p.1@) == Some(RSA_MODULUS_LEN as nat),
{
    key_pair_of(rsa_generate(RSA_BITS))
}

} // verus!
