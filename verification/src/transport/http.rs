//! What the listener makes of the first bytes of an inbound connection, before
//! any frame: a WebSocket upgrade, a plain page request, or neither.

use crate::wire::encode::lit;
use crate::wire::record::{literal_at, starts};
use vstd::prelude::*;

verus! {

/// What is to be done with an inbound connection.
#[derive(Debug, Clone, Copy, PartialEq, Eq, Structural)]
pub enum Inbound {
    /// The WebSocket handshake proceeds.
    Upgrade,
    /// The static welcome page is served and the connection closed.
    Page,
    /// The connection is closed.
    Close,
}

/// Whether the text occurs somewhere in the request.
pub open spec fn occurs(request: Seq<u8>, text: Seq<u8>) -> bool {
    exists|i: int| 0 <= i <= request.len() && #[trigger] starts(request.skip(i), text)
}

/// What the first bytes of a connection ask for: an upgrade if they hold
/// `Upgrade: websocket`, else the page if they begin with `GET `, else
/// nothing.
pub open spec fn asked(request: Seq<u8>) -> Inbound {
    if occurs(request, lit("Upgrade: websocket")) {
        Inbound::Upgrade
    } else if starts(request, lit("GET ")) {
        Inbound::Page
    } else {
        Inbound::Close
    }
}

/// Whether the first bytes of a connection ask for a WebSocket upgrade.
pub fn is_websocket_upgrade_request(request: &[u8]) -> (upgrade: bool)
    ensures
        upgrade == occurs(request@, lit("Upgrade: websocket")),
{
    let ghost text = lit("Upgrade: websocket");
    let mut i: usize = 0;
    while i < request.len()
        invariant
            i <= request.len(),
            text == lit("Upgrade: websocket"),
            forall|j: int| 0 <= j < i ==> !#[trigger] starts(request@.skip(j), text),
        decreases request.len() - i,
    {
        if literal_at(request, i, "Upgrade: websocket").is_some() {
            assert(starts(request@.skip(i as int), text));
            return true;
        }
        i += 1;
    }
    literal_at(request, i, "Upgrade: websocket").is_some()
}

/// Decides on an inbound connection from its first bytes.
pub fn inbound(request: &[u8]) -> (decision: Inbound)
    ensures
        decision == asked(request@),
{
    if is_websocket_upgrade_request(request) {
        return Inbound::Upgrade;
    }
    proof {
        assert(request@.skip(0) =~= request@);
    }
    if literal_at(request, 0, "GET ").is_some() {
        Inbound::Page
    } else {
        Inbound::Close
    }
}

} // verus!
