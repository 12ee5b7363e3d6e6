//! The envelope: a session key wrapped to the peer's public key, beside a
//! command encrypted under that session key.

use crate::crypto::aes::{
    decrypt, encrypt_with_nonce, generate_nonce, open_blob, sealed_blob, CryptoError, KEY_LEN, MAX_PLAINTEXT_LEN,
    NONCE_LEN, TAG_LEN,
};
use crate::crypto::keys::{
    generate_key_pair, is_key_pair, rsa_decrypt, rsa_encrypts, rsa_modulus_len, takes, PrivateKey, PublicKey,
    RSA_MODULUS_LEN,
};
use vstd::prelude::*;

verus! {

/// A wrapped session key and the command it encrypts.
#[derive(Debug, Clone, PartialEq, Eq)]
pub struct Envelope {
    /// The session key, encrypted to the receiver's public key.
    pub encrypted_session_key: Vec<u8>,
    /// The command, encrypted under the session key, its nonce in front.
    pub encrypted_command: Vec<u8>,
}

/// An envelope as a mathematical value.
pub struct EnvelopeView {
    pub encrypted_session_key: Seq<u8>,
    pub encrypted_command: Seq<u8>,
}

impl View for Envelope {
    type V = EnvelopeView;

    open spec fn view(&self) -> EnvelopeView {
        EnvelopeView {
            encrypted_session_key: self.encrypted_session_key@,
            encrypted_command: self.encrypted_command@,
        }
    }
}

/// Why an envelope could not be sealed or opened.
#[derive(Debug, Clone, Copy, PartialEq, Eq, Structural)]
pub enum EnvelopeError {
    /// The session key could not be wrapped to the public key.
    KeyWrapFailure,
    /// The session key is not `KEY_LEN` bytes long.
    InvalidSessionKey,
    /// The command is longer than AES-GCM encrypts.
    CommandTooLong,
    /// The wrapped session key does not unwrap under the private key.
    KeyUnwrapFailure,
    /// The command does not decrypt under the unwrapped session key.
    DecryptionFailure,
}

/// `envelope` carries `command` under `session_key` to the holder of the
/// private key that matches `public_key`.
pub open spec fn seals(envelope: EnvelopeView, public_key: Seq<u8>, command: Seq<u8>, session_key: Seq<u8>) -> bool {
    &&& rsa_encrypts(public_key, session_key, envelope.encrypted_session_key)
    &&& session_key.len() == KEY_LEN
    &&& open_blob(session_key, envelope.encrypted_command) == Some(command)
}

/// What the holder of `private_key` finds in `envelope`: the session key and
/// the command.
pub open spec fn opened(private_key: Seq<u8>, envelope: EnvelopeView) -> Result<(Seq<u8>, Seq<u8>), EnvelopeError> {
    match rsa_decrypt(private_key, envelope.encrypted_session_key) {
        None => Err(EnvelopeError::KeyUnwrapFailure),
        Some(session_key) => match open_blob(session_key, envelope.encrypted_command) {
            None => Err(EnvelopeError::DecryptionFailure),
            Some(command) => Ok((session_key, command)),
        },
    }
}

/// Opening what was sealed to one's own public key gives back the session key
/// and the command that went in.
pub proof fn lemma_open_sealed(
    private_key: Seq<u8>,
    public_key: Seq<u8>,
    envelope: EnvelopeView,
    command: Seq<u8>,
    session_key: Seq<u8>,
)
    requires
        is_key_pair(private_key, public_key),
        seals(envelope, public_key, command, session_key),
    ensures
        opened(private_key, envelope) == Ok::<(Seq<u8>, Seq<u8>), EnvelopeError>((session_key, command)),
{
}

impl Envelope {
    /// Puts the two parts together.
    pub fn new(encrypted_session_key: Vec<u8>, encrypted_command: Vec<u8>) -> (envelope: Self)
        ensures
            envelope.encrypted_session_key == encrypted_session_key,
            envelope.encrypted_command == encrypted_command,
    {
        Envelope { encrypted_session_key, encrypted_command }
    }

    /// Makes a fresh RSA-2048 key pair: two halves that belong together, the
    /// public one read as a key with a modulus of `RSA_MODULUS_LEN` bytes.
    /// `None` where the generator makes none.
    pub fn generate_rsa_key_pair() -> (pair: Option<(PrivateKey, PublicKey)>)
        ensures
            pair matches Some(p) ==> is_key_pair(p.0@, p.1@) && rsa_modulus_len(p.1@) == Some(
                RSA_MODULUS_LEN as nat,
            ),
    {
        generate_key_pair()
    }

    /// Wraps a session key to a public key, which succeeds exactly where the
    /// session key with its padding fits the modulus of the public key. The
    /// wrapped key is as long as that modulus.
    pub fn encrypt_session_key(public_key: &PublicKey, session_key: &[u8]) -> (wrapped: Option<Vec<u8>>)
        ensures
            wrapped is Some <==> takes(public_key@, session_key@.len()),
            wrapped matches Some(w) ==> rsa_encrypts(public_key@, session_key@, w@),
            wrapped matches Some(w) ==> rsa_modulus_len(public_key@) == Some(w@.len()),
    {
        public_key.encrypt(session_key)
    }

    /// Unwraps a session key with the private key.
    pub fn decrypt_session_key(private_key: &PrivateKey, encrypted_session_key: &[u8]) -> (session_key: Option<
        Vec<u8>,
    >)
        ensures
            match session_key {
                Some(k) => rsa_decrypt(private_key@, encrypted_session_key@) == Some(k@),
                None => rsa_decrypt(private_key@, encrypted_session_key@) is None,
            },
    {
        private_key.decrypt(encrypted_session_key)
    }

    /// Builds the envelope from a session key that was already wrapped, or
    /// could not be, with the given nonce for the command.
    pub fn assemble(wrapped: Option<Vec<u8>>, command: &[u8], session_key: &[u8], nonce: &[u8; 12]) -> (envelope:
        Result<Envelope, EnvelopeError>)
        ensures
            match envelope {
                Ok(e) => {
                    &&& wrapped matches Some(w)
                    &&& session_key@.len() == KEY_LEN
                    &&& command@.len() <= MAX_PLAINTEXT_LEN
                    &&& e@.encrypted_session_key == w@
                    &&& e@.encrypted_command == sealed_blob(session_key@, nonce@, command@)
                    &&& e@.encrypted_command.len() == NONCE_LEN + command@.len() + TAG_LEN
                    &&& open_blob(session_key@, e@.encrypted_command) == Some(command@)
                },
                Err(EnvelopeError::KeyWrapFailure) => wrapped is None,
                Err(EnvelopeError::InvalidSessionKey) => wrapped is Some && session_key@.len() != KEY_LEN,
                Err(EnvelopeError::CommandTooLong) => wrapped is Some && session_key@.len() == KEY_LEN
                    && command@.len() > MAX_PLAINTEXT_LEN,
                Err(_) => false,
            },
    {
        match wrapped {
            None => Err(EnvelopeError::KeyWrapFailure),
            Some(encrypted_session_key) => match encrypt_with_nonce(command, session_key, nonce) {
                Err(CryptoError::InvalidKeyLength) => Err(EnvelopeError::InvalidSessionKey),
                Err(_) => Err(EnvelopeError::CommandTooLong),
                Ok(encrypted_command) => Ok(Envelope::new(encrypted_session_key, encrypted_command)),
            },
        }
    }

    /// Seals a command for the peer: wraps the session key to the peer's
    /// public key and encrypts the command under the session key with a fresh
    /// nonce. The holder of the matching private key opens it to the same
    /// session key and command. The wrapped key is as long as the peer's
    /// modulus, and the encrypted command is the command with a nonce in
    /// front and a tag behind. It fails where the session key does not fit the
    /// peer's modulus, is no key of the right length, or the command is too
    /// long, in this order.
    pub fn create_encrypted_envelope(public_key: &PublicKey, command: &[u8], session_key: &[u8]) -> (envelope:
        Result<Envelope, EnvelopeError>)
        ensures
            match envelope {
                Ok(e) => {
                    &&& seals(e@, public_key@, command@, session_key@)
                    &&& takes(public_key@, session_key@.len())
                    &&& rsa_modulus_len(public_key@) == Some(e@.encrypted_session_key.len())
                    &&& e@.encrypted_command.len() == NONCE_LEN + command@.len() + TAG_LEN
                    &&& command@.len() <= MAX_PLAINTEXT_LEN
                },
                Err(EnvelopeError::KeyWrapFailure) => !takes(public_key@, session_key@.len()),
                Err(EnvelopeError::InvalidSessionKey) => takes(public_key@, session_key@.len())
                    && session_key@.len() != KEY_LEN,
                Err(EnvelopeError::CommandTooLong) => takes(public_key@, session_key@.len())
                    && session_key@.len() == KEY_LEN && command@.len() > MAX_PLAINTEXT_LEN,
                Err(_) => false,
            },
    {
        let wrapped = Self::encrypt_session_key(public_key, session_key);
        let nonce = generate_nonce();
        Self::assemble(wrapped, command, session_key, &nonce)
    }

    /// Opens an envelope with the private key: unwraps the session key, then
    /// decrypts the command under it.
    pub fn decrypt_envelope(private_key: &PrivateKey, envelope: Envelope) -> (parts: Result<
        (Vec<u8>, Vec<u8>),
        EnvelopeError,
    >)
        ensures
            match parts {
                Ok(p) => opened(private_key@, envelope@) == Ok::<(Seq<u8>, Seq<u8>), EnvelopeError>((p.0@, p.1@)),
                Err(e) => opened(private_key@, envelope@) == Err::<(Seq<u8>, Seq<u8>), EnvelopeError>(e),
            },
    {
        match Self::decrypt_session_key(private_key, envelope.encrypted_session_key.as_slice()) {
            None => Err(EnvelopeError::KeyUnwrapFailure),
            Some(session_key) => match decrypt(envelope.encrypted_command.as_slice(), session_key.as_slice()) {
                Err(_) => Err(EnvelopeError::DecryptionFailure),
                Ok(command) => Ok((session_key, command)),
            },
        }
    }
}

} // verus!
