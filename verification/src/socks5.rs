//! The SOCKS5 front-end wire format: the greeting (identify block), the
//! connection request, and the reply frames.

use vstd::prelude::*;
use vstd::slice::slice_index_get;

use crate::bytes::{advance_buffer, push_bytes};
use crate::destination::{dest_decode, dest_encoding, Destination, DestinationV, IpAddress};
use crate::errors::Error;

verus! {

/// A SOCKS5 command byte.
#[derive(Clone, Copy, Debug, PartialEq, Eq, Structural)]
pub enum Command {
    Connect,
    Bind,
    UdpAssociate,
}

/// Which command a byte selects, if any.
pub open spec fn command_of(b: u8) -> Option<Command> {
    if b == 0x01 {
        Some(Command::Connect)
    } else if b == 0x02 {
        Some(Command::Bind)
    } else if b == 0x03 {
        Some(Command::UdpAssociate)
    } else {
        None
    }
}

/// The byte that encodes a command.
pub open spec fn command_byte(c: Command) -> u8 {
    match c {
        Command::Connect => 0x01,
        Command::Bind => 0x02,
        Command::UdpAssociate => 0x03,
    }
}

/// Reading back the byte of a command yields the command.
pub proof fn lemma_command_round_trip(c: Command)
    ensures
        command_of(command_byte(c)) == Some(c),
{
}

impl Command {
    /// Read the command byte and return the rest of the buffer.
    pub fn parse(buffer: &[u8]) -> (r: Result<(Command, &[u8]), Error>)
        ensures
            match r {
                Ok((c, rest)) => {
                    &&& buffer@.len() >= 1
                    &&& command_of(buffer@[0]) == Some(c)
                    &&& rest@ == buffer@.skip(1)
                },
                Err(e) => {
                    &&& buffer@.len() == 0 || command_of(buffer@[0]) is None
                    &&& e == Error::UnknownCommand
                },
            },
    {
        if buffer.len() == 0 {
            return Err(Error::UnknownCommand);
        }
        let b = *slice_index_get(buffer, 0);
        let c = if b == 0x01 {
            Command::Connect
        } else if b == 0x02 {
            Command::Bind
        } else if b == 0x03 {
            Command::UdpAssociate
        } else {
            return Err(Error::UnknownCommand);
        };
        match advance_buffer(1, buffer) {
            Some(rest) => Ok((c, rest)),
            None => Err(Error::UnknownCommand),
        }
    }

    /// The byte that encodes this command.
    pub fn as_byte(&self) -> (r: u8)
        ensures
            r == command_byte(*self),
    {
        match self {
            Command::Connect => 0x01,
            Command::Bind => 0x02,
            Command::UdpAssociate => 0x03,
        }
    }
}

/// The command enum used by parsers that run standalone of the `Request`
/// struct; it mirrors `Command` byte for byte.
#[derive(Clone, Copy, Debug, PartialEq, Eq, Structural)]
pub enum RequestCommand {
    Connect,
    Bind,
    UdpAssociate,
}

/// Which standalone command a byte selects, if any.
pub open spec fn request_command_of(b: u8) -> Option<RequestCommand> {
    if b == 0x01 {
        Some(RequestCommand::Connect)
    } else if b == 0x02 {
        Some(RequestCommand::Bind)
    } else if b == 0x03 {
        Some(RequestCommand::UdpAssociate)
    } else {
        None
    }
}

impl RequestCommand {
    /// Read the command byte and return the rest of the buffer.
    pub fn parse(buffer: &[u8]) -> (r: Result<(RequestCommand, &[u8]), Error>)
        ensures
            match r {
                Ok((c, rest)) => {
                    &&& buffer@.len() >= 1
                    &&& request_command_of(buffer@[0]) == Some(c)
                    &&& rest@ == buffer@.skip(1)
                },
                Err(e) => {
                    &&& buffer@.len() == 0 || request_command_of(buffer@[0]) is None
                    &&& e == Error::UnknownCommand
                },
            },
    {
        parse_request_command(buffer)
    }
}

/// Read a standalone command byte and return the rest of the buffer.
pub fn parse_request_command(buffer: &[u8]) -> (r: Result<(RequestCommand, &[u8]), Error>)
    ensures
        match r {
            Ok((c, rest)) => {
                &&& buffer@.len() >= 1
                &&& request_command_of(buffer@[0]) == Some(c)
                &&& rest@ == buffer@.skip(1)
            },
            Err(e) => {
                &&& buffer@.len() == 0 || request_command_of(buffer@[0]) is None
                &&& e == Error::UnknownCommand
            },
        },
{
    if buffer.len() == 0 {
        return Err(Error::UnknownCommand);
    }
    let b = *slice_index_get(buffer, 0);
    let c = if b == 0x01 {
        RequestCommand::Connect
    } else if b == 0x02 {
        RequestCommand::Bind
    } else if b == 0x03 {
        RequestCommand::UdpAssociate
    } else {
        return Err(Error::UnknownCommand);
    };
    match advance_buffer(1, buffer) {
        Some(rest) => Ok((c, rest)),
        None => Err(Error::UnknownCommand),
    }
}

/// The address-type byte as written by reply builders.
#[derive(Clone, Copy, Debug, PartialEq, Eq, Structural)]
pub enum AddressType {
    Ipv4,
    DomainName,
    Ipv6,
}

/// Which address type a byte selects, if any.
pub open spec fn address_type_of(b: u8) -> Option<AddressType> {
    if b == 0x01 {
        Some(AddressType::Ipv4)
    } else if b == 0x03 {
        Some(AddressType::DomainName)
    } else if b == 0x04 {
        Some(AddressType::Ipv6)
    } else {
        None
    }
}

/// The byte that encodes an address type.
pub open spec fn address_type_byte(t: AddressType) -> u8 {
    match t {
        AddressType::Ipv4 => 0x01,
        AddressType::DomainName => 0x03,
        AddressType::Ipv6 => 0x04,
    }
}

impl AddressType {
    /// Read the address-type byte and return the rest of the buffer.
    pub fn parse(buffer: &[u8]) -> (r: Result<(AddressType, &[u8]), Error>)
        ensures
            match r {
                Ok((t, rest)) => {
                    &&& buffer@.len() >= 1
                    &&& address_type_of(buffer@[0]) == Some(t)
                    &&& rest@ == buffer@.skip(1)
                },
                Err(e) => {
                    &&& buffer@.len() == 0 || address_type_of(buffer@[0]) is None
                    &&& e == Error::MalformedAddress
                },
            },
    {
        if buffer.len() == 0 {
            return Err(Error::MalformedAddress);
        }
        let b = *slice_index_get(buffer, 0);
        let t = if b == 0x01 {
            AddressType::Ipv4
        } else if b == 0x03 {
            AddressType::DomainName
        } else if b == 0x04 {
            AddressType::Ipv6
        } else {
            return Err(Error::MalformedAddress);
        };
        match advance_buffer(1, buffer) {
            Some(rest) => Ok((t, rest)),
            None => Err(Error::MalformedAddress),
        }
    }

    /// The byte that encodes this address type.
    pub fn as_byte(&self) -> (r: u8)
        ensures
            r == address_type_byte(*self),
    {
        match self {
            AddressType::Ipv4 => 0x01,
            AddressType::DomainName => 0x03,
            AddressType::Ipv6 => 0x04,
        }
    }
}

/// A parsed SOCKS5 connection request.
#[derive(Debug, PartialEq, Eq)]
pub struct Request {
    pub command: Command,
    pub destination: Destination,
}

/// The mathematical model of a request.
#[verifier::ext_equal]
pub struct RequestV {
    pub command: Command,
    pub destination: DestinationV,
}

impl View for Request {
    type V = RequestV;

    open spec fn view(&self) -> RequestV {
        RequestV { command: self.command, destination: self.destination@ }
    }
}

/// The decoding of a SOCKS5 request from a buffer: version byte 0x05, a
/// command, a zero reserved byte and a destination, with the remaining bytes.
pub open spec fn request_decode(b: Seq<u8>) -> Result<(RequestV, Seq<u8>), Error> {
    if b.len() < 1 || b[0] != 5 {
        Err(Error::ProtocolViolation)
    } else {
        let c = b.skip(1);
        if c.len() < 1 || command_of(c[0]) is None {
            Err(Error::UnknownCommand)
        } else {
            match command_of(c[0]) {
                None => Err(Error::UnknownCommand),
                Some(command) => {
                    let d = c.skip(1);
                    if d.len() < 1 || d[0] != 0 {
                        Err(Error::ProtocolViolation)
                    } else {
                        match dest_decode(d.skip(1)) {
                            None => Err(Error::MalformedAddress),
                            Some((destination, rest)) => Ok(
                                (RequestV { command, destination }, rest),
                            ),
                        }
                    }
                },
            }
        }
    }
}

impl Request {
    /// Parse a SOCKS5 connection request, returning it with the remaining
    /// bytes, or the exact reason the buffer is not one.
    pub fn parse(buffer: &[u8]) -> (r: Result<(Request, &[u8]), Error>)
        ensures
            match r {
                Ok((req, rest)) => {
                    &&& request_decode(buffer@) == Ok::<_, Error>((req@, rest@))
                    &&& req.destination@.wf()
                },
                Err(e) => request_decode(buffer@) == Err::<(RequestV, Seq<u8>), _>(e),
            },
    {
        if buffer.len() == 0 {
            return Err(Error::ProtocolViolation);
        }
        let version = *slice_index_get(buffer, 0);
        if version != 5 {
            return Err(Error::ProtocolViolation);
        }
        let rest = match advance_buffer(1, buffer) {
            Some(rest) => rest,
            None => {
                return Err(Error::ProtocolViolation);
            },
        };
        let (command, rest) = Command::parse(rest)?;
        if rest.len() == 0 {
            return Err(Error::ProtocolViolation);
        }
        let reserved = *slice_index_get(rest, 0);
        if reserved != 0 {
            return Err(Error::ProtocolViolation);
        }
        let rest = match advance_buffer(1, rest) {
            Some(rest) => rest,
            None => {
                return Err(Error::ProtocolViolation);
            },
        };
        let (destination, rest) = match Destination::parse(rest) {
            Ok(p) => p,
            Err(_) => {
                return Err(Error::MalformedAddress);
            },
        };
        Ok((Request { command, destination }, rest))
    }
}

/// The decoding of a SOCKS5 greeting: version byte 0x05, a method count and
/// that many method bytes; yields the remaining bytes.
pub open spec fn identify_block_decode(b: Seq<u8>) -> Option<Seq<u8>> {
    if b.len() < 2 || b[0] != 5 {
        None
    } else if b.len() < 2 + b[1] as int {
        None
    } else {
        Some(b.skip(2 + b[1] as int))
    }
}

/// Parse the SOCKS5 greeting (the identify block), returning the bytes after
/// it, or `ProtocolViolation` exactly where the greeting is malformed.
pub fn parse_identify_block(buffer: &[u8]) -> (r: Result<&[u8], Error>)
    ensures
        match r {
            Ok(rest) => identify_block_decode(buffer@) == Some(rest@),
            Err(e) => identify_block_decode(buffer@) is None && e == Error::ProtocolViolation,
        },
{
    if buffer.len() == 0 {
        return Err(Error::ProtocolViolation);
    }
    let version = *slice_index_get(buffer, 0);
    if version != 5 {
        return Err(Error::ProtocolViolation);
    }
    let rest = match advance_buffer(1, buffer) {
        Some(rest) => rest,
        None => {
            return Err(Error::ProtocolViolation);
        },
    };
    if rest.len() == 0 {
        return Err(Error::ProtocolViolation);
    }
    let length = *slice_index_get(rest, 0) as usize;
    let rest = match advance_buffer(1, rest) {
        Some(rest) => rest,
        None => {
            return Err(Error::ProtocolViolation);
        },
    };
    if rest.len() < length {
        return Err(Error::ProtocolViolation);
    }
    match advance_buffer(length, rest) {
        Some(rest) => {
            proof {
                assert(rest@ =~= buffer@.skip(2 + buffer@[1] as int));
            }
            Ok(rest)
        },
        None => Err(Error::ProtocolViolation),
    }
}

/// The two-byte reply that accepts the no-authentication method.
pub fn identify_response() -> (r: Vec<u8>)
    ensures
        r@ == seq![5u8, 0u8],
{
    let mut out: Vec<u8> = Vec::new();
    out.push(5);
    out.push(0);
    proof {
        assert(out@ =~= seq![5u8, 0u8]);
    }
    out
}

/// The view of a reply-address: the bound IP and port as a destination.
pub open spec fn bound_address_view(ip: IpAddress, port: u16) -> DestinationV {
    match ip {
        IpAddress::V4(a) => DestinationV::V4 { addr: a@, port },
        IpAddress::V6(a) => DestinationV::V6 { addr: a@, port },
    }
}

/// Build the SOCKS5 success reply carrying the locally bound address of the
/// tunnel: `[5, 0, 0]` followed by the destination encoding of that address.
pub fn create_response(ip: &IpAddress, port: u16) -> (r: Vec<u8>)
    ensures
        r@ == seq![5u8, 0u8, 0u8] + dest_encoding(bound_address_view(*ip, port)),
{
    let mut out: Vec<u8> = Vec::new();
    out.push(5);
    out.push(0);
    out.push(0);
    let d = Destination::Address { ip: *ip, port };
    let encoded = d.as_bytes();
    push_bytes(&mut out, encoded.as_slice());
    proof {
        assert(d@ == bound_address_view(*ip, port));
        assert(out@ =~= seq![5u8, 0u8, 0u8] + dest_encoding(bound_address_view(*ip, port)));
    }
    out
}

} // verus!
