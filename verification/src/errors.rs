use vstd::prelude::*;

verus! {

/// The failure taxonomy shared by the codec, the handshake and the session
/// logic.  Handshake and codec failures on the server side are never surfaced
/// to the remote peer: they collapse into the camouflage fallback.
#[derive(Clone, Copy, Debug, PartialEq, Eq, Structural)]
pub enum Error {
    /// The destination bytes are shorter than the address type requires, the
    /// address-type byte is unknown, or a domain name is not valid UTF-8.
    MalformedAddress,
    /// The handshake buffer is too short to hold the credential.
    TruncatedHandshake,
    /// A mandatory CRLF marker is missing, or the credential bytes are not
    /// valid UTF-8.
    MalformedHandshake,
    /// The command byte is not one of the known commands.
    UnknownCommand,
    /// The handshake parsed but its credential does not match the configured
    /// digest.
    AuthenticationFailed,
    /// An outbound connection could not be established.
    UnreachableDestination,
    /// The peer closed the stream: the normal teardown signal, not a fault.
    TransportClosed,
    /// A peer sent bytes that violate the expected plain-text protocol: the
    /// local SOCKS5 negotiation, or a companion HTTP request.
    ProtocolViolation,
}

impl Error {
    /// What `message` returns for each variant.
    pub open spec fn message_spec(self) -> Seq<char> {
        match self {
            Error::MalformedAddress => "malformed address"@,
            Error::TruncatedHandshake => "truncated handshake"@,
            Error::MalformedHandshake => "malformed handshake"@,
            Error::UnknownCommand => "unknown command"@,
            Error::AuthenticationFailed => "authentication failed"@,
            Error::UnreachableDestination => "unreachable destination"@,
            Error::TransportClosed => "transport closed"@,
            Error::ProtocolViolation => "protocol violation"@,
        }
    }

    /// A human-readable description of the error.
    pub fn message(&self) -> (r: String)
        ensures
            r@ == self.message_spec(),
    {
        match self {
            Error::MalformedAddress => "malformed address".to_owned(),
            Error::TruncatedHandshake => "truncated handshake".to_owned(),
            Error::MalformedHandshake => "malformed handshake".to_owned(),
            Error::UnknownCommand => "unknown command".to_owned(),
            Error::AuthenticationFailed => "authentication failed".to_owned(),
            Error::UnreachableDestination => "unreachable destination".to_owned(),
            Error::TransportClosed => "transport closed".to_owned(),
            Error::ProtocolViolation => "protocol violation".to_owned(),
        }
    }
}

} // verus!
