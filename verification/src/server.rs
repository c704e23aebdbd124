//! The server-side per-connection state machine.  An inbound buffer either
//! carries a handshake whose credential matches the configured digest — then
//! the server tunnels to the requested destination and forwards the embedded
//! payload — or it does not, and the server relays the entire original
//! buffer, byte for byte, to the fixed decoy destination.  The two paths have
//! the same state shape and the same subsequent relay behavior, so an
//! authentication failure is externally indistinguishable from a plain HTTPS
//! request.

use vstd::prelude::*;
use vstd::slice::slice_to_vec;

use crate::destination::{Destination, DestinationV};
use crate::digest::credential_matches;
use crate::errors::Error;
use crate::protocol::{handshake_decode, HandshakeV, TrojanHandshake};

verus! {

/// What the server does with an inbound buffer.
#[derive(Debug, PartialEq, Eq)]
pub enum ServerAction {
    /// Connect to the requested destination and forward these first bytes.
    Tunnel { destination: Destination, first_bytes: Vec<u8> },
    /// Connect to the configured decoy destination and forward these first
    /// bytes: the entire original buffer, unmodified.
    Camouflage { first_bytes: Vec<u8> },
    /// Forward these bytes over the already-open outbound stream.
    Forward { bytes: Vec<u8> },
}

/// The mathematical model of a server action.
#[verifier::ext_equal]
pub enum ServerActionV {
    Tunnel { destination: DestinationV, first_bytes: Seq<u8> },
    Camouflage { first_bytes: Seq<u8> },
    Forward { bytes: Seq<u8> },
}

impl View for ServerAction {
    type V = ServerActionV;

    open spec fn view(&self) -> ServerActionV {
        match self {
            ServerAction::Tunnel { destination, first_bytes } => ServerActionV::Tunnel {
                destination: destination@,
                first_bytes: first_bytes@,
            },
            ServerAction::Camouflage { first_bytes } => ServerActionV::Camouflage {
                first_bytes: first_bytes@,
            },
            ServerAction::Forward { bytes } => ServerActionV::Forward { bytes: bytes@ },
        }
    }
}

/// Whether a buffer is an accepted handshake: it parses and its credential
/// equals the deployed digest.
pub open spec fn handshake_accepted(b: Seq<u8>, digest: Seq<u8>) -> bool {
    match handshake_decode(b) {
        Ok(m) => m.password == digest,
        Err(_) => false,
    }
}

/// The server's decision on an inbound buffer: tunnel the parsed request, or
/// camouflage by relaying the whole buffer to the decoy.
pub open spec fn server_decision(b: Seq<u8>, digest: Seq<u8>) -> ServerActionV {
    match handshake_decode(b) {
        Ok(m) => if m.password == digest {
            ServerActionV::Tunnel { destination: m.destination, first_bytes: m.payload }
        } else {
            ServerActionV::Camouflage { first_bytes: b }
        },
        Err(_) => ServerActionV::Camouflage { first_bytes: b },
    }
}

/// Parse and authenticate an inbound buffer: the handshake where it is
/// accepted, or the exact reason it is not.
pub fn classify_inbound(buffer: &[u8], digest: &[u8]) -> (r: Result<TrojanHandshake, Error>)
    ensures
        match r {
            Ok(m) => {
                &&& handshake_decode(buffer@) == Ok::<_, Error>(m@)
                &&& m@.password == digest@
                &&& m@.wf()
            },
            Err(e) => match handshake_decode(buffer@) {
                Ok(m) => m.password != digest@ && e == Error::AuthenticationFailed,
                Err(pe) => e == pe,
            },
        },
{
    let m = TrojanHandshake::parse(buffer)?;
    if credential_matches(m.password.as_slice(), digest) {
        Ok(m)
    } else {
        Err(Error::AuthenticationFailed)
    }
}

/// Decide what to do with the first buffer of a connection.  Every outcome is
/// an action: failures collapse into the camouflage fallback and are never
/// surfaced to the peer.
pub fn plan_inbound(buffer: &[u8], digest: &[u8]) -> (a: ServerAction)
    ensures
        a@ == server_decision(buffer@, digest@),
{
    match classify_inbound(buffer, digest) {
        Ok(m) => ServerAction::Tunnel { destination: m.destination, first_bytes: m.payload },
        Err(_) => ServerAction::Camouflage { first_bytes: slice_to_vec(buffer) },
    }
}

/// The per-connection state: replaced on each transition, never mutated in
/// place.
#[derive(Debug, PartialEq, Eq, Structural)]
pub enum ServerState {
    AwaitingHandshake,
    Relaying,
}

/// One step of the server state machine: the first buffer decides between
/// tunnel and camouflage; afterwards every buffer is forwarded unchanged over
/// the open outbound stream.
pub fn server_step(state: ServerState, buffer: &[u8], digest: &[u8]) -> (r: (
    ServerState,
    ServerAction,
))
    ensures
        r.0 is Relaying,
        state is AwaitingHandshake ==> r.1@ == server_decision(buffer@, digest@),
        state is Relaying ==> r.1@ == (ServerActionV::Forward { bytes: buffer@ }),
{
    match state {
        ServerState::AwaitingHandshake => {
            let action = plan_inbound(buffer, digest);
            (ServerState::Relaying, action)
        },
        ServerState::Relaying => (
            ServerState::Relaying,
            ServerAction::Forward { bytes: slice_to_vec(buffer) },
        ),
    }
}

/// Auth symmetry: a wrong-credential handshake and a structurally invalid
/// buffer produce behaviorally identical observable actions — each connects
/// to the decoy and forwards its own original bytes verbatim.
pub proof fn lemma_auth_symmetry(b1: Seq<u8>, b2: Seq<u8>, digest: Seq<u8>)
    requires
        !handshake_accepted(b1, digest),
        !handshake_accepted(b2, digest),
    ensures
        server_decision(b1, digest) == (ServerActionV::Camouflage { first_bytes: b1 }),
        server_decision(b2, digest) == (ServerActionV::Camouflage { first_bytes: b2 }),
{
}

} // verus!
