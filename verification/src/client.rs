//! The client-side per-connection state machine.  It terminates a local
//! SOCKS5 front-end connection: greeting, then request, then a tunnel to the
//! configured server carrying the handshake frame and the first payload,
//! after which the connection becomes an opaque relay.

use vstd::prelude::*;

use crate::destination::Destination;
use crate::errors::Error;
use crate::protocol::{build_frame, handshake_encoding, HandshakeV};
use crate::socks5::{
    identify_block_decode, identify_response, parse_identify_block, request_decode, Command,
    Request, RequestV,
};

verus! {

/// The per-connection state: replaced on each transition, never mutated in
/// place.
#[derive(Debug, PartialEq, Eq)]
pub enum ClientState {
    WaitForIdentify,
    WaitForRequest,
    Open { destination: Destination },
}

impl ClientState {
    /// The structural invariant carried across transitions.
    pub open spec fn wf(self) -> bool {
        match self {
            ClientState::Open { destination } => destination@.size_ok(),
            _ => true,
        }
    }
}

/// What the client does after a step.
#[derive(Debug, PartialEq, Eq)]
pub enum ClientAction {
    /// Write these bytes back to the local application.
    Reply { bytes: Vec<u8> },
    /// Open the tunnel transport to the configured server, then reply to the
    /// local application with the SOCKS5 success frame carrying the tunnel's
    /// locally bound address.
    OpenTunnel,
    /// Write this handshake frame to the tunnel, then relay both directions.
    SendHandshake { frame: Vec<u8> },
}

/// One step of the client state machine on one buffer read from the local
/// application.  A failure at any step tears down the local connection.
pub fn client_step(state: ClientState, buffer: &[u8], credential: &[u8]) -> (r: Result<
    (ClientState, ClientAction),
    Error,
>)
    requires
        state.wf(),
    ensures
        match r {
            Ok((s2, a)) => {
                &&& s2.wf()
                &&& match state {
                    ClientState::WaitForIdentify => {
                        &&& identify_block_decode(buffer@) is Some
                        &&& s2 is WaitForRequest
                        &&& a matches ClientAction::Reply { bytes } && bytes@ == seq![5u8, 0u8]
                    },
                    ClientState::WaitForRequest => match request_decode(buffer@) {
                        Ok((req, _rest)) => {
                            &&& s2 matches ClientState::Open { destination }
                                && destination@ == req.destination
                            &&& a is OpenTunnel
                        },
                        Err(_) => false,
                    },
                    ClientState::Open { destination } => {
                        &&& s2 matches ClientState::Open { destination: d2 } && d2@
                            == destination@
                        &&& a matches ClientAction::SendHandshake { frame } && frame@
                            == handshake_encoding(
                            HandshakeV {
                                password: credential@,
                                command: Command::Connect,
                                destination: destination@,
                                payload: buffer@,
                            },
                        )
                    },
                }
            },
            Err(e) => match state {
                ClientState::WaitForIdentify => {
                    &&& identify_block_decode(buffer@) is None
                    &&& e == Error::ProtocolViolation
                },
                ClientState::WaitForRequest => request_decode(buffer@) == Err::<
                    (RequestV, Seq<u8>),
                    _,
                >(e),
                ClientState::Open { .. } => false,
            },
        },
{
    match state {
        ClientState::WaitForIdentify => match parse_identify_block(buffer) {
            Ok(_) => Ok(
                (ClientState::WaitForRequest, ClientAction::Reply { bytes: identify_response() }),
            ),
            Err(e) => Err(e),
        },
        ClientState::WaitForRequest => match Request::parse(buffer) {
            Ok((request, _rest)) => Ok(
                (
                    ClientState::Open { destination: request.destination },
                    ClientAction::OpenTunnel,
                ),
            ),
            Err(e) => Err(e),
        },
        ClientState::Open { destination } => {
            let frame = build_frame(credential, &Command::Connect, &destination, buffer);
            Ok((ClientState::Open { destination }, ClientAction::SendHandshake { frame }))
        },
    }
}

} // verus!
