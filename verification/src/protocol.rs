//! The tunnel handshake frame:
//! `[credential:56][CRLF][command:1][destination][CRLF][payload]`.
//! The two CRLF markers are mandatory literal byte pairs; their absence is a
//! hard parse failure, which is what lets the server tell a real client from
//! an arbitrary TLS client probing the port.

use vstd::prelude::*;
use vstd::slice::{slice_subrange, slice_to_vec};
use vstd::utf8::valid_utf8;

use crate::bytes::{advance_buffer, is_utf8, push_bytes};
use crate::destination::{
    dest_decode, dest_encoding, lemma_destination_round_trip_prefix, Destination, DestinationV,
};
use crate::errors::Error;
use crate::socks5::{command_byte, command_of, lemma_command_round_trip, Command};

verus! {

/// The mandatory two-byte frame separator.
pub open spec fn crlf() -> Seq<u8> {
    seq![13u8, 10u8]
}

/// A parsed handshake frame: credential, command, destination, and the
/// leading application bytes already read from the client at handshake time.
#[derive(Debug, PartialEq, Eq)]
pub struct TrojanHandshake {
    pub password: Vec<u8>,
    pub command: Command,
    pub destination: Destination,
    pub payload: Vec<u8>,
}

/// The mathematical model of a handshake frame.
#[verifier::ext_equal]
pub struct HandshakeV {
    pub password: Seq<u8>,
    pub command: Command,
    pub destination: DestinationV,
    pub payload: Seq<u8>,
}

impl View for TrojanHandshake {
    type V = HandshakeV;

    open spec fn view(&self) -> HandshakeV {
        HandshakeV {
            password: self.password@,
            command: self.command,
            destination: self.destination@,
            payload: self.payload@,
        }
    }
}

impl HandshakeV {
    /// A well-formed handshake: a 56-byte UTF-8 credential and a well-formed
    /// destination.
    pub open spec fn wf(self) -> bool {
        &&& self.password.len() == 56
        &&& valid_utf8(self.password)
        &&& self.destination.wf()
    }
}

impl TrojanHandshake {
    /// The structural size invariant the encoder needs.
    pub open spec fn size_ok(&self) -> bool {
        self.destination@.size_ok()
    }
}

/// The binary encoding of a handshake frame.
pub open spec fn handshake_encoding(m: HandshakeV) -> Seq<u8> {
    m.password + crlf() + seq![command_byte(m.command)] + dest_encoding(m.destination) + crlf()
        + m.payload
}

/// The decoding of a handshake frame, with the exact error for each way a
/// buffer can fail to be one.
pub open spec fn handshake_decode(b: Seq<u8>) -> Result<HandshakeV, Error> {
    if b.len() < 56 {
        Err(Error::TruncatedHandshake)
    } else if !valid_utf8(b.take(56)) {
        Err(Error::MalformedHandshake)
    } else {
        let c = b.skip(56);
        if c.len() < 2 || c[0] != 13 || c[1] != 10 {
            Err(Error::MalformedHandshake)
        } else {
            let d = c.skip(2);
            match (if d.len() < 1 {
                None
            } else {
                command_of(d[0])
            }) {
                None => Err(Error::UnknownCommand),
                Some(command) => match dest_decode(d.skip(1)) {
                    None => Err(Error::MalformedAddress),
                    Some((destination, rest)) => {
                        if rest.len() < 2 || rest[0] != 13 || rest[1] != 10 {
                            Err(Error::MalformedHandshake)
                        } else {
                            Ok(
                                HandshakeV {
                                    password: b.take(56),
                                    command,
                                    destination,
                                    payload: rest.skip(2),
                                },
                            )
                        }
                    },
                },
            }
        }
    }
}

/// Check that `buffer` starts with CRLF and return what follows it.
pub fn check_crlf_and_advance(buffer: &[u8]) -> (r: Result<&[u8], Error>)
    ensures
        match r {
            Ok(rest) => {
                &&& buffer@.len() >= 2
                &&& buffer@[0] == 13
                &&& buffer@[1] == 10
                &&& rest@ == buffer@.skip(2)
            },
            Err(e) => {
                &&& buffer@.len() < 2 || buffer@[0] != 13 || buffer@[1] != 10
                &&& e == Error::MalformedHandshake
            },
        },
{
    if buffer.len() < 2 {
        return Err(Error::MalformedHandshake);
    }
    let b0 = *vstd::slice::slice_index_get(buffer, 0);
    let b1 = *vstd::slice::slice_index_get(buffer, 1);
    if b0 != 13 || b1 != 10 {
        return Err(Error::MalformedHandshake);
    }
    match advance_buffer(2, buffer) {
        Some(rest) => Ok(rest),
        None => Err(Error::MalformedHandshake),
    }
}

impl TrojanHandshake {
    /// Parse a handshake frame from a whole inbound buffer, or report the
    /// exact reason it is not one.
    pub fn parse(buffer: &[u8]) -> (r: Result<TrojanHandshake, Error>)
        ensures
            match r {
                Ok(m) => {
                    &&& handshake_decode(buffer@) == Ok::<_, Error>(m@)
                    &&& m@.wf()
                },
                Err(e) => handshake_decode(buffer@) == Err::<HandshakeV, _>(e),
            },
    {
        if buffer.len() < 56 {
            return Err(Error::TruncatedHandshake);
        }
        let pw_slice = slice_subrange(buffer, 0, 56);
        proof {
            assert(pw_slice@ =~= buffer@.take(56));
        }
        if !is_utf8(pw_slice) {
            return Err(Error::MalformedHandshake);
        }
        let password = slice_to_vec(pw_slice);
        let rest = match advance_buffer(56, buffer) {
            Some(rest) => rest,
            None => {
                return Err(Error::MalformedHandshake);
            },
        };
        let rest = check_crlf_and_advance(rest)?;
        let (command, rest) = Command::parse(rest)?;
        let (destination, rest) = Destination::parse(rest)?;
        let payload_slice = check_crlf_and_advance(rest)?;
        let payload = slice_to_vec(payload_slice);
        Ok(TrojanHandshake { password, command, destination, payload })
    }

    /// Encode this handshake into its binary representation: the exact
    /// structural inverse of `parse`, used by the client to build the
    /// outbound frame.
    pub fn as_bytes(&self) -> (r: Vec<u8>)
        requires
            self.size_ok(),
        ensures
            r@ == handshake_encoding(self@),
    {
        build_frame(
            self.password.as_slice(),
            &self.command,
            &self.destination,
            self.payload.as_slice(),
        )
    }
}

/// Build a handshake frame from its parts.
pub fn build_frame(password: &[u8], command: &Command, destination: &Destination, payload: &[u8]) -> (r:
    Vec<u8>)
    requires
        destination@.size_ok(),
    ensures
        r@ == handshake_encoding(
            HandshakeV {
                password: password@,
                command: *command,
                destination: destination@,
                payload: payload@,
            },
        ),
{
    let mut out: Vec<u8> = Vec::new();
    push_bytes(&mut out, password);
    out.push(13);
    out.push(10);
    out.push(command.as_byte());
    let encoded = destination.as_bytes();
    push_bytes(&mut out, encoded.as_slice());
    out.push(13);
    out.push(10);
    push_bytes(&mut out, payload);
    proof {
        assert(out@ =~= handshake_encoding(
            HandshakeV {
                password: password@,
                command: *command,
                destination: destination@,
                payload: payload@,
            },
        ));
    }
    out
}

/// Round trip: parsing an encoded well-formed handshake yields the handshake.
pub proof fn lemma_handshake_round_trip(m: HandshakeV)
    requires
        m.wf(),
    ensures
        handshake_decode(handshake_encoding(m)) == Ok::<_, Error>(m),
{
    let b = handshake_encoding(m);
    let e = dest_encoding(m.destination);
    assert(b.len() == 56 + 2 + 1 + e.len() + 2 + m.payload.len());
    assert(b.take(56) =~= m.password);
    let c = b.skip(56);
    assert(c[0] == 13 && c[1] == 10);
    let d = c.skip(2);
    assert(d[0] == command_byte(m.command));
    lemma_command_round_trip(m.command);
    assert(d.skip(1) =~= e + (crlf() + m.payload));
    lemma_destination_round_trip_prefix(m.destination, crlf() + m.payload);
    let rest = crlf() + m.payload;
    assert(rest[0] == 13 && rest[1] == 10);
    assert(rest.skip(2) =~= m.payload);
    assert(handshake_decode(b) == Ok::<_, Error>(
        HandshakeV { password: b.take(56), command: m.command, destination: m.destination, payload: rest.skip(2) },
    ));
    assert(HandshakeV {
        password: b.take(56),
        command: m.command,
        destination: m.destination,
        payload: rest.skip(2),
    } =~= m);
}

/// CRLF strictness at the first marker: replacing the byte pair after the
/// credential of a valid frame with anything but CRLF makes parsing fail.
pub proof fn lemma_crlf_strictness_first(m: HandshakeV, x: u8, y: u8)
    requires
        m.wf(),
        !(x == 13 && y == 10),
    ensures
        handshake_decode(handshake_encoding(m).update(56, x).update(57, y)) is Err,
{
    let b = handshake_encoding(m);
    let b2 = b.update(56, x).update(57, y);
    assert(b2.len() == b.len());
    assert(b2.take(56) =~= m.password);
    let c = b2.skip(56);
    assert(c[0] == x && c[1] == y);
}

/// CRLF strictness at the second marker: replacing the byte pair after the
/// destination of a valid frame with anything but CRLF makes parsing fail.
pub proof fn lemma_crlf_strictness_second(m: HandshakeV, x: u8, y: u8)
    requires
        m.wf(),
        !(x == 13 && y == 10),
    ensures
        ({
            let p = 59 + dest_encoding(m.destination).len() as int;
            handshake_decode(handshake_encoding(m).update(p, x).update(p + 1, y)) is Err
        }),
{
    let b = handshake_encoding(m);
    let e = dest_encoding(m.destination);
    let p = 59 + e.len() as int;
    let b2 = b.update(p, x).update(p + 1, y);
    assert(b.len() == 61 + e.len() + m.payload.len());
    assert(b2.len() == b.len());
    assert(b2.take(56) =~= m.password);
    let c = b2.skip(56);
    assert(c[0] == 13 && c[1] == 10) by {
        assert(b2[56] == b[56] && b2[57] == b[57]);
        assert(b[56] == 13 && b[57] == 10);
    }
    let d = c.skip(2);
    assert(d[0] == command_byte(m.command)) by {
        assert(b2[58] == b[58]);
        assert(b[58] == command_byte(m.command));
    }
    lemma_command_round_trip(m.command);
    assert(d.skip(1) =~= e + (seq![x, y] + m.payload)) by {
        assert(d.skip(1).len() == e.len() + 2 + m.payload.len());
        assert forall|i: int| 0 <= i < d.skip(1).len() implies d.skip(1)[i] == (e + (seq![x, y]
            + m.payload))[i] by {
            assert(d.skip(1)[i] == b2[59 + i]);
            if i < e.len() {
                assert(b2[59 + i] == b[59 + i]);
                assert(b[59 + i] == e[i]);
            } else if i == e.len() {
                assert(b2[p] == x);
            } else if i == e.len() + 1 {
                assert(b2[p + 1] == y);
            } else {
                assert(b2[59 + i] == b[59 + i]);
                assert(b[59 + i] == m.payload[i - e.len() - 2]);
            }
        }
    }
    lemma_destination_round_trip_prefix(m.destination, seq![x, y] + m.payload);
    let rest = seq![x, y] + m.payload;
    assert(rest[0] == x && rest[1] == y);
}

} // verus!
