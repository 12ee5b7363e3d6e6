//! The keys that one connection has agreed on so far.

use crate::crypto::keys::{PrivateKey, PublicKey};
use vstd::prelude::*;

verus! {

/// The negotiated keys of a connection. It starts empty, is changed only by
/// the receiver, and is dropped with the connection.
pub struct SharedState {
    /// The public key that the counterparty sent in its handshake response.
    pub peer_public_key: Option<PublicKey>,
    /// The private key that this peer made when it was asked for a handshake.
    pub local_private_key: Option<PrivateKey>,
    /// The key under which the payload of an envelope is encrypted.
    pub session_key: Option<Vec<u8>>,
}

/// The state as a mathematical value: each key by its bytes.
pub struct SharedStateView {
    pub peer_public_key: Option<Seq<u8>>,
    pub local_private_key: Option<Seq<u8>>,
    pub session_key: Option<Seq<u8>>,
}

impl View for SharedState {
    type V = SharedStateView;

    open spec fn view(&self) -> SharedStateView {
        SharedStateView {
            peer_public_key: match self.peer_public_key {
                Some(k) => Some(k@),
                None => None,
            },
            local_private_key: match self.local_private_key {
                Some(k) => Some(k@),
                None => None,
            },
            session_key: match self.session_key {
                Some(k) => Some(k@),
                None => None,
            },
        }
    }
}

impl SharedStateView {
    /// The state of a connection on which nothing was agreed yet.
    pub open spec fn empty() -> SharedStateView {
        SharedStateView { peer_public_key: None, local_private_key: None, session_key: None }
    }

    /// Both keys that sealing an envelope takes are there.
    pub open spec fn ready(self) -> bool {
        self.peer_public_key is Some && self.session_key is Some
    }
}

impl SharedState {
    /// The state of a fresh connection: no key at all.
    pub fn new() -> (state: Self)
        ensures
            state@ == SharedStateView::empty(),
    {
        SharedState { local_private_key: None, peer_public_key: None, session_key: None }
    }

    /// Stores this peer's private key, in place of an earlier one.
    pub fn set_local_private(&mut self, key: PrivateKey)
        ensures
            final(self)@ == (SharedStateView { local_private_key: Some(key@), ..old(self)@ }),
    {
        self.local_private_key = Some(key);
    }

    /// Stores the counterparty's public key, in place of an earlier one.
    pub fn set_peer_public(&mut self, key: PublicKey)
        ensures
            final(self)@ == (SharedStateView { peer_public_key: Some(key@), ..old(self)@ }),
    {
        self.peer_public_key = Some(key);
    }

    /// Stores the session key, in place of an earlier one.
    pub fn set_session_key(&mut self, key: Vec<u8>)
        ensures
            final(self)@ == (SharedStateView { session_key: Some(key@), ..old(self)@ }),
    {
        self.session_key = Some(key);
    }

    /// The three keys as they are now: the peer's public key, the session key
    /// and the private key, each if there is one.
    pub fn snapshot(&self) -> (keys: (Option<PublicKey>, Option<Vec<u8>>, Option<PrivateKey>))
        ensures
            (SharedStateView {
                peer_public_key: match keys.0 {
                    Some(k) => Some(k@),
                    None => None,
                },
                session_key: match keys.1 {
                    Some(k) => Some(k@),
                    None => None,
                },
                local_private_key: match keys.2 {
                    Some(k) => Some(k@),
                    None => None,
                },
            }) == self@,
    {
        let peer_public_key = match &self.peer_public_key {
            Some(k) => Some(k.duplicate()),
            None => None,
        };
        let session_key = match &self.session_key {
            Some(k) => Some(k.clone()),
            None => None,
        };
        let local_private_key = match &self.local_private_key {
            Some(k) => Some(k.duplicate()),
            None => None,
        };
        (peer_public_key, session_key, local_private_key)
    }

    /// Whether the peer's public key and the session key are both there.
    pub fn is_ready(&self) -> (ready: bool)
        ensures
            ready == self@.ready(),
    {
        self.peer_public_key.is_some() && self.session_key.is_some()
    }
}

} // verus!
