//! The destination wire codec: a network destination (IPv4, IPv6 or
//! domain+port) and its shared binary representation,
//! `[atype:1][addr][port:2 BE]` with atype 0x01 = IPv4 (4 address bytes),
//! 0x03 = domain (`[len:1][name:len]`), 0x04 = IPv6 (16 address bytes).

use vstd::prelude::*;
use vstd::slice::{slice_index_get, slice_to_vec};
use vstd::utf8::valid_utf8;

use crate::bytes::{advance_buffer, is_utf8};
use crate::errors::Error;

verus! {

/// The address-type byte of the destination encoding.
#[derive(Clone, Copy, Debug, PartialEq, Eq, Structural)]
pub enum RequestAddressType {
    Ipv4,
    DomainName,
    Ipv6,
}

/// Which address type a leading byte selects, if any.
pub open spec fn atype_of(b: u8) -> Option<RequestAddressType> {
    if b == 0x01 {
        Some(RequestAddressType::Ipv4)
    } else if b == 0x03 {
        Some(RequestAddressType::DomainName)
    } else if b == 0x04 {
        Some(RequestAddressType::Ipv6)
    } else {
        None
    }
}

impl RequestAddressType {
    /// Read the address-type byte and return the rest of the buffer.
    pub fn parse(buffer: &[u8]) -> (r: Result<(RequestAddressType, &[u8]), Error>)
        ensures
            match r {
                Ok((t, rest)) => {
                    &&& buffer@.len() >= 1
                    &&& atype_of(buffer@[0]) == Some(t)
                    &&& rest@ == buffer@.skip(1)
                },
                Err(e) => {
                    &&& buffer@.len() == 0 || atype_of(buffer@[0]) is None
                    &&& e == Error::MalformedAddress
                },
            },
    {
        if buffer.len() == 0 {
            return Err(Error::MalformedAddress);
        }
        let b = *slice_index_get(buffer, 0);
        let t = if b == 0x01 {
            RequestAddressType::Ipv4
        } else if b == 0x03 {
            RequestAddressType::DomainName
        } else if b == 0x04 {
            RequestAddressType::Ipv6
        } else {
            return Err(Error::MalformedAddress);
        };
        match advance_buffer(1, buffer) {
            Some(rest) => Ok((t, rest)),
            None => Err(Error::MalformedAddress),
        }
    }
}

/// An IP address, held as its wire bytes in network order.
#[derive(Clone, Copy, Debug, PartialEq, Eq)]
pub enum IpAddress {
    V4([u8; 4]),
    V6([u8; 16]),
}

/// The remote endpoint a tunneled connection should ultimately reach.
#[derive(Clone, Debug, PartialEq, Eq)]
pub enum Destination {
    Address { ip: IpAddress, port: u16 },
    DomainName { domain: Vec<u8>, port: u16 },
}

/// The mathematical model of a destination.
#[verifier::ext_equal]
pub enum DestinationV {
    V4 { addr: Seq<u8>, port: u16 },
    V6 { addr: Seq<u8>, port: u16 },
    Domain { name: Seq<u8>, port: u16 },
}

impl View for Destination {
    type V = DestinationV;

    open spec fn view(&self) -> DestinationV {
        match self {
            Destination::Address { ip: IpAddress::V4(a), port } => DestinationV::V4 {
                addr: a@,
                port: *port,
            },
            Destination::Address { ip: IpAddress::V6(a), port } => DestinationV::V6 {
                addr: a@,
                port: *port,
            },
            Destination::DomainName { domain, port } => DestinationV::Domain {
                name: domain@,
                port: *port,
            },
        }
    }
}

impl DestinationV {
    /// The structural size invariant: address bytes of the right width, and a
    /// domain name that fits its single length byte.
    pub open spec fn size_ok(self) -> bool {
        match self {
            DestinationV::V4 { addr, .. } => addr.len() == 4,
            DestinationV::V6 { addr, .. } => addr.len() == 16,
            DestinationV::Domain { name, .. } => name.len() <= 255,
        }
    }

    /// A well-formed destination: right sizes, and a domain name that is
    /// valid UTF-8.
    pub open spec fn wf(self) -> bool {
        &&& self.size_ok()
        &&& match self {
            DestinationV::Domain { name, .. } => valid_utf8(name),
            _ => true,
        }
    }
}

impl Destination {
    /// The structural size invariant of the executable type: only the domain
    /// length can violate it.
    pub open spec fn size_ok(&self) -> bool {
        self@.size_ok()
    }
}

/// The high byte of a port in network order.
pub open spec fn port_hi(port: u16) -> u8 {
    (port / 256) as u8
}

/// The low byte of a port in network order.
pub open spec fn port_lo(port: u16) -> u8 {
    (port % 256) as u8
}

/// The two bytes of a port in network order.
pub open spec fn port_bytes(port: u16) -> Seq<u8> {
    seq![port_hi(port), port_lo(port)]
}

/// The port denoted by two bytes in network order.
pub open spec fn port_value(hi: u8, lo: u8) -> u16 {
    (hi as int * 256 + lo as int) as u16
}

/// Reading back the two bytes of a port yields the port.
pub proof fn lemma_port_round_trip(port: u16)
    ensures
        port_value(port_hi(port), port_lo(port)) == port,
{
    assert(port as int == 256 * (port as int / 256) + port as int % 256) by {
        vstd::arithmetic::div_mod::lemma_fundamental_div_mod(port as int, 256);
    }
}

/// The binary encoding of a destination.
pub open spec fn dest_encoding(d: DestinationV) -> Seq<u8> {
    match d {
        DestinationV::V4 { addr, port } => seq![0x01u8] + addr + port_bytes(port),
        DestinationV::Domain { name, port } => seq![0x03u8, name.len() as u8] + name
            + port_bytes(port),
        DestinationV::V6 { addr, port } => seq![0x04u8] + addr + port_bytes(port),
    }
}

/// The decoding of a destination from the front of a buffer: the destination
/// and the remaining bytes, or nothing where the buffer is malformed.
pub open spec fn dest_decode(b: Seq<u8>) -> Option<(DestinationV, Seq<u8>)> {
    if b.len() < 1 {
        None
    } else if b[0] == 0x01 {
        if b.len() < 7 {
            None
        } else {
            Some(
                (
                    DestinationV::V4 { addr: b.subrange(1, 5), port: port_value(b[5], b[6]) },
                    b.skip(7),
                ),
            )
        }
    } else if b[0] == 0x03 {
        if b.len() < 2 {
            None
        } else {
            let n = b[1] as int;
            if b.len() < 4 + n {
                None
            } else {
                let name = b.subrange(2, 2 + n);
                if valid_utf8(name) {
                    Some(
                        (
                            DestinationV::Domain {
                                name,
                                port: port_value(b[2 + n], b[3 + n]),
                            },
                            b.skip(4 + n),
                        ),
                    )
                } else {
                    None
                }
            }
        }
    } else if b[0] == 0x04 {
        if b.len() < 19 {
            None
        } else {
            Some(
                (
                    DestinationV::V6 { addr: b.subrange(1, 17), port: port_value(b[17], b[18]) },
                    b.skip(19),
                ),
            )
        }
    } else {
        None
    }
}

impl Destination {
    /// Decode a destination from the front of `buffer`, returning it with the
    /// remaining bytes, or `MalformedAddress` exactly where the buffer does
    /// not start with a well-formed encoding.
    pub fn parse(buffer: &[u8]) -> (r: Result<(Destination, &[u8]), Error>)
        ensures
            match r {
                Ok((d, rest)) => {
                    &&& dest_decode(buffer@) == Some((d@, rest@))
                    &&& d@.wf()
                },
                Err(e) => {
                    &&& dest_decode(buffer@) is None
                    &&& e == Error::MalformedAddress
                },
            },
    {
        let (address_type, rest) = RequestAddressType::parse(buffer)?;
        let r = match address_type {
            RequestAddressType::Ipv4 => parse_ipv4(rest),
            RequestAddressType::DomainName => parse_domain_name(rest),
            RequestAddressType::Ipv6 => parse_ipv6(rest),
        };
        proof {
            lemma_parse_after_atype(buffer@);
        }
        r
    }

    /// Encode this destination into its binary representation.
    pub fn as_bytes(&self) -> (r: Vec<u8>)
        requires
            self.size_ok(),
        ensures
            r@ == dest_encoding(self@),
    {
        let mut out: Vec<u8> = Vec::new();
        match self {
            Destination::Address { ip: IpAddress::V4(a), port } => {
                out.push(0x01);
                let mut i: usize = 0;
                while i < 4
                    invariant
                        i <= 4,
                        out@ == seq![0x01u8] + a@.take(i as int),
                    decreases 4 - i,
                {
                    out.push(a[i]);
                    proof {
                        assert(out@ =~= seq![0x01u8] + a@.take(i + 1));
                    }
                    i += 1;
                }
                push_port(&mut out, *port);
                proof {
                    assert(a@.take(4) =~= a@);
                    assert(out@ =~= dest_encoding(self@));
                }
            },
            Destination::Address { ip: IpAddress::V6(a), port } => {
                out.push(0x04);
                let mut i: usize = 0;
                while i < 16
                    invariant
                        i <= 16,
                        out@ == seq![0x04u8] + a@.take(i as int),
                    decreases 16 - i,
                {
                    out.push(a[i]);
                    proof {
                        assert(out@ =~= seq![0x04u8] + a@.take(i + 1));
                    }
                    i += 1;
                }
                push_port(&mut out, *port);
                proof {
                    assert(a@.take(16) =~= a@);
                    assert(out@ =~= dest_encoding(self@));
                }
            },
            Destination::DomainName { domain, port } => {
                out.push(0x03);
                out.push(domain.len() as u8);
                let mut i: usize = 0;
                while i < domain.len()
                    invariant
                        i <= domain@.len(),
                        domain@.len() <= 255,
                        out@ == seq![0x03u8, domain@.len() as u8] + domain@.take(i as int),
                    decreases domain@.len() - i,
                {
                    out.push(domain[i]);
                    proof {
                        assert(out@ =~= seq![0x03u8, domain@.len() as u8] + domain@.take(i + 1));
                    }
                    i += 1;
                }
                push_port(&mut out, *port);
                proof {
                    assert(domain@.take(domain@.len() as int) =~= domain@);
                    assert(out@ =~= dest_encoding(self@));
                }
            },
        }
        out
    }
}

/// Append the two network-order bytes of `port`.
fn push_port(out: &mut Vec<u8>, port: u16)
    ensures
        final(out)@ == old(out)@ + port_bytes(port),
{
    out.push((port / 256) as u8);
    out.push((port % 256) as u8);
    proof {
        assert(out@ =~= old(out)@ + port_bytes(port));
    }
}

/// Read a port from the first two bytes of `buffer`.
fn parse_port(buffer: &[u8]) -> (r: Result<(u16, &[u8]), Error>)
    ensures
        match r {
            Ok((p, rest)) => {
                &&& buffer@.len() >= 2
                &&& p == port_value(buffer@[0], buffer@[1])
                &&& rest@ == buffer@.skip(2)
            },
            Err(e) => buffer@.len() < 2 && e == Error::MalformedAddress,
        },
{
    if buffer.len() < 2 {
        return Err(Error::MalformedAddress);
    }
    let hi = *slice_index_get(buffer, 0);
    let lo = *slice_index_get(buffer, 1);
    let port: u16 = (hi as u16) * 256 + (lo as u16);
    match advance_buffer(2, buffer) {
        Some(rest) => Ok((port, rest)),
        None => Err(Error::MalformedAddress),
    }
}

/// Decode the body of an IPv4 destination: `buffer` holds what follows the
/// address-type byte of the whole encoding `all`.
fn parse_ipv4(buffer: &[u8]) -> (r: Result<(Destination, &[u8]), Error>)
    ensures
        match r {
            Ok((d, rest)) => {
                &&& buffer@.len() >= 6
                &&& d@ == (DestinationV::V4 {
                    addr: buffer@.subrange(0, 4),
                    port: port_value(buffer@[4], buffer@[5]),
                })
                &&& rest@ == buffer@.skip(6)
                &&& d@.wf()
            },
            Err(e) => buffer@.len() < 6 && e == Error::MalformedAddress,
        },
{
    if buffer.len() < 4 {
        return Err(Error::MalformedAddress);
    }
    let addr: [u8; 4] = [
        *slice_index_get(buffer, 0),
        *slice_index_get(buffer, 1),
        *slice_index_get(buffer, 2),
        *slice_index_get(buffer, 3),
    ];
    let rest = match advance_buffer(4, buffer) {
        Some(rest) => rest,
        None => {
            return Err(Error::MalformedAddress);
        },
    };
    let (port, rest) = parse_port(rest)?;
    let d = Destination::Address { ip: IpAddress::V4(addr), port };
    proof {
        assert(addr@ =~= buffer@.subrange(0, 4));
        assert(rest@ =~= buffer@.skip(6));
    }
    Ok((d, rest))
}

/// Decode the body of an IPv6 destination.
fn parse_ipv6(buffer: &[u8]) -> (r: Result<(Destination, &[u8]), Error>)
    ensures
        match r {
            Ok((d, rest)) => {
                &&& buffer@.len() >= 18
                &&& d@ == (DestinationV::V6 {
                    addr: buffer@.subrange(0, 16),
                    port: port_value(buffer@[16], buffer@[17]),
                })
                &&& rest@ == buffer@.skip(18)
                &&& d@.wf()
            },
            Err(e) => buffer@.len() < 18 && e == Error::MalformedAddress,
        },
{
    if buffer.len() < 16 {
        return Err(Error::MalformedAddress);
    }
    let addr: [u8; 16] = [
        *slice_index_get(buffer, 0),
        *slice_index_get(buffer, 1),
        *slice_index_get(buffer, 2),
        *slice_index_get(buffer, 3),
        *slice_index_get(buffer, 4),
        *slice_index_get(buffer, 5),
        *slice_index_get(buffer, 6),
        *slice_index_get(buffer, 7),
        *slice_index_get(buffer, 8),
        *slice_index_get(buffer, 9),
        *slice_index_get(buffer, 10),
        *slice_index_get(buffer, 11),
        *slice_index_get(buffer, 12),
        *slice_index_get(buffer, 13),
        *slice_index_get(buffer, 14),
        *slice_index_get(buffer, 15),
    ];
    let rest = match advance_buffer(16, buffer) {
        Some(rest) => rest,
        None => {
            return Err(Error::MalformedAddress);
        },
    };
    let (port, rest) = parse_port(rest)?;
    let d = Destination::Address { ip: IpAddress::V6(addr), port };
    proof {
        assert(addr@ =~= buffer@.subrange(0, 16));
        assert(rest@ =~= buffer@.skip(18));
    }
    Ok((d, rest))
}

/// Decode the body of a domain-name destination.
fn parse_domain_name(buffer: &[u8]) -> (r: Result<(Destination, &[u8]), Error>)
    ensures
        match r {
            Ok((d, rest)) => {
                &&& buffer@.len() >= 1
                &&& buffer@.len() >= 3 + buffer@[0] as int
                &&& valid_utf8(buffer@.subrange(1, 1 + buffer@[0] as int))
                &&& d@ == (DestinationV::Domain {
                    name: buffer@.subrange(1, 1 + buffer@[0] as int),
                    port: port_value(
                        buffer@[1 + buffer@[0] as int],
                        buffer@[2 + buffer@[0] as int],
                    ),
                })
                &&& rest@ == buffer@.skip(3 + buffer@[0] as int)
                &&& d@.wf()
            },
            Err(e) => {
                &&& {
                    ||| buffer@.len() < 1
                    ||| buffer@.len() < 3 + buffer@[0] as int
                    ||| !valid_utf8(buffer@.subrange(1, 1 + buffer@[0] as int))
                }
                &&& e == Error::MalformedAddress
            },
        },
{
    if buffer.len() == 0 {
        return Err(Error::MalformedAddress);
    }
    let length = *slice_index_get(buffer, 0) as usize;
    let rest = match advance_buffer(1, buffer) {
        Some(rest) => rest,
        None => {
            return Err(Error::MalformedAddress);
        },
    };
    if rest.len() < length {
        return Err(Error::MalformedAddress);
    }
    let name_slice = vstd::slice::slice_subrange(rest, 0, length);
    proof {
        assert(name_slice@ =~= buffer@.subrange(1, 1 + buffer@[0] as int));
    }
    if !is_utf8(name_slice) {
        return Err(Error::MalformedAddress);
    }
    let domain: Vec<u8> = slice_to_vec(name_slice);
    let rest = match advance_buffer(length, rest) {
        Some(rest) => rest,
        None => {
            return Err(Error::MalformedAddress);
        },
    };
    let (port, rest2) = parse_port(rest)?;
    let d = Destination::DomainName { domain, port };
    proof {
        assert(rest@ =~= buffer@.skip(1 + buffer@[0] as int));
        assert(rest2@ =~= buffer@.skip(3 + buffer@[0] as int));
    }
    Ok((d, rest2))
}

/// Ties `dest_decode` of a whole buffer to the per-type decoders applied past
/// the address-type byte.
proof fn lemma_parse_after_atype(b: Seq<u8>)
    ensures
        b.len() >= 1 ==> {
            let t = b.skip(1);
            &&& b[0] == 0x01 ==> dest_decode(b) == (if t.len() >= 6 {
                Some(
                    (
                        DestinationV::V4 {
                            addr: t.subrange(0, 4),
                            port: port_value(t[4], t[5]),
                        },
                        t.skip(6),
                    ),
                )
            } else {
                None::<(DestinationV, Seq<u8>)>
            })
            &&& b[0] == 0x04 ==> dest_decode(b) == (if t.len() >= 18 {
                Some(
                    (
                        DestinationV::V6 {
                            addr: t.subrange(0, 16),
                            port: port_value(t[16], t[17]),
                        },
                        t.skip(18),
                    ),
                )
            } else {
                None::<(DestinationV, Seq<u8>)>
            })
            &&& b[0] == 0x03 ==> dest_decode(b) == (if t.len() >= 3 + t[0] as int
                && valid_utf8(t.subrange(1, 1 + t[0] as int)) {
                Some(
                    (
                        DestinationV::Domain {
                            name: t.subrange(1, 1 + t[0] as int),
                            port: port_value(t[1 + t[0] as int], t[2 + t[0] as int]),
                        },
                        t.skip(3 + t[0] as int),
                    ),
                )
            } else {
                None::<(DestinationV, Seq<u8>)>
            })
        },
{
    if b.len() >= 1 {
        let t = b.skip(1);
        assert(t.len() == b.len() - 1);
        if b[0] == 0x01 {
            if b.len() >= 7 {
                assert(b.subrange(1, 5) =~= t.subrange(0, 4));
                assert(b[5] == t[4] && b[6] == t[5]);
                assert(b.skip(7) =~= t.skip(6));
            }
        } else if b[0] == 0x04 {
            if b.len() >= 19 {
                assert(b.subrange(1, 17) =~= t.subrange(0, 16));
                assert(b[17] == t[16] && b[18] == t[17]);
                assert(b.skip(19) =~= t.skip(18));
            }
        } else if b[0] == 0x03 {
            if b.len() >= 2 {
                let n = b[1] as int;
                assert(t[0] == b[1]);
                if b.len() >= 4 + n {
                    assert(b.subrange(2, 2 + n) =~= t.subrange(1, 1 + n));
                    assert(b[2 + n] == t[1 + n] && b[3 + n] == t[2 + n]);
                    assert(b.skip(4 + n) =~= t.skip(3 + n));
                }
            }
        }
    }
}

/// Round trip with a remainder: decoding an encoded destination followed by
/// any suffix yields the destination and the untouched suffix.
pub proof fn lemma_destination_round_trip_prefix(d: DestinationV, suffix: Seq<u8>)
    requires
        d.wf(),
    ensures
        dest_decode(dest_encoding(d) + suffix) == Some((d, suffix)),
{
    let b = dest_encoding(d) + suffix;
    match d {
        DestinationV::V4 { addr, port } => {
            assert(b.len() == 7 + suffix.len());
            assert(b[0] == 0x01);
            assert(b.subrange(1, 5) =~= addr);
            assert(b[5] == port_hi(port) && b[6] == port_lo(port));
            lemma_port_round_trip(port);
            assert(b.skip(7) =~= suffix);
        },
        DestinationV::V6 { addr, port } => {
            assert(b.len() == 19 + suffix.len());
            assert(b[0] == 0x04);
            assert(b.subrange(1, 17) =~= addr);
            assert(b[17] == port_hi(port) && b[18] == port_lo(port));
            lemma_port_round_trip(port);
            assert(b.skip(19) =~= suffix);
        },
        DestinationV::Domain { name, port } => {
            let n = name.len() as int;
            assert(b.len() == 4 + n + suffix.len());
            assert(b[0] == 0x03);
            assert(b[1] == n as u8);
            assert(b[1] as int == n);
            assert(b.subrange(2, 2 + n) =~= name);
            assert(b[2 + n] == port_hi(port) && b[3 + n] == port_lo(port));
            lemma_port_round_trip(port);
            assert(b.skip(4 + n) =~= suffix);
        },
    }
}

/// Round trip: decoding an encoded destination yields the destination and an
/// empty remainder.
pub proof fn lemma_destination_round_trip(d: DestinationV)
    requires
        d.wf(),
    ensures
        dest_decode(dest_encoding(d)) == Some((d, Seq::<u8>::empty())),
{
    lemma_destination_round_trip_prefix(d, Seq::<u8>::empty());
    assert(dest_encoding(d) + Seq::<u8>::empty() =~= dest_encoding(d));
}

} // verus!
