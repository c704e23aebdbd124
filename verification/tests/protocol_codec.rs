use trojan::bytes::advance_buffer;
use trojan::destination::{Destination, IpAddress, RequestAddressType};
use trojan::errors::Error;
use trojan::protocol::{check_crlf_and_advance, TrojanHandshake};
use trojan::socks5::{parse_request_command, Command, RequestCommand};

#[test]
fn test_parse_request_command() {
    assert!(Command::parse(&[]).is_err());
    assert!(Command::parse(&[123u8]).is_err());

    let (command, buffer) = Command::parse(&[0x1, 0x88]).unwrap();
    assert_eq!(Command::Connect, command);
    assert_eq!(0x88, *buffer.first().unwrap());
    assert_eq!(1, buffer.len());
}

#[test]
fn request_test_parse_request_command() {
    assert!(RequestCommand::parse(&[]).is_err());
    assert!(RequestCommand::parse(&[123u8]).is_err());

    let (command, buffer) = RequestCommand::parse(&[0x1, 0x88]).unwrap();
    assert_eq!(RequestCommand::Connect, command);
    assert_eq!(0x88, *buffer.first().unwrap());
    assert_eq!(1, buffer.len());
}

#[test]
fn socks5_test_parse_request_command() {
    assert!(parse_request_command(&[]).is_err());
    assert!(parse_request_command(&[123u8]).is_err());

    let (command, buffer) = parse_request_command(&[0x1, 0x88]).unwrap();
    assert_eq!(RequestCommand::Connect, command);
    assert_eq!(0x88, *buffer.first().unwrap());
    assert_eq!(1, buffer.len());
}

#[test]
fn destination_test_parse_ipv4() {
    let atype = [0x01];
    let ip = [8u8, 8, 8, 8];
    let port = 80u16.to_be_bytes();
    let payload = [1, 2, 3, 4];
    let buffer = [
        atype.as_slice(),
        ip.as_slice(),
        port.as_slice(),
        payload.as_slice(),
    ]
    .concat();
    let (destination, buffer) = Destination::parse(buffer.as_slice()).unwrap();
    if let Destination::Address { ip, port } = destination {
        assert_eq!(IpAddress::V4([8, 8, 8, 8]), ip);
        assert_eq!(80, port);
        assert_eq!(4, buffer.len());
        assert_eq!([1, 2, 3, 4], buffer);
    } else {
        panic!();
    }
}

#[test]
fn test_parse_domain() {
    let atype = [0x3u8];
    let name = "dns.google".as_bytes();
    let length = [name.len() as u8];
    let port = 80u16.to_be_bytes();
    let payload = [1, 2, 3, 4];
    let buffer = [
        atype.as_slice(),
        length.as_slice(),
        name,
        port.as_slice(),
        payload.as_slice(),
    ]
    .concat();
    let (destination, buffer) = Destination::parse(buffer.as_slice()).unwrap();
    if let Destination::DomainName { domain, port } = destination {
        assert_eq!(domain, "dns.google".as_bytes().to_vec());
        assert_eq!(port, 80);
        assert_eq!(4, buffer.len());
        assert_eq!([1, 2, 3, 4], buffer);
    } else {
        panic!()
    }
}

#[test]
fn destination_round_trip_ipv4() {
    let d = Destination::Address {
        ip: IpAddress::V4([93, 184, 216, 34]),
        port: 80,
    };
    let encoded = d.as_bytes();
    assert_eq!(encoded, vec![0x01, 93, 184, 216, 34, 0, 80]);
    let (decoded, rest) = Destination::parse(encoded.as_slice()).unwrap();
    assert_eq!(decoded, d);
    assert!(rest.is_empty());
}

#[test]
fn destination_round_trip_ipv6() {
    let d = Destination::Address {
        ip: IpAddress::V6([0x20, 0x01, 0x0d, 0xb8, 0, 0, 0, 0, 0, 0, 0, 0, 0, 0, 0, 1]),
        port: 8443,
    };
    let encoded = d.as_bytes();
    assert_eq!(encoded.len(), 19);
    assert_eq!(encoded[0], 0x04);
    assert_eq!(&encoded[17..], &[0x20, 0xfb]);
    let (decoded, rest) = Destination::parse(encoded.as_slice()).unwrap();
    assert_eq!(decoded, d);
    assert!(rest.is_empty());
}

#[test]
fn destination_round_trip_domain() {
    let d = Destination::DomainName {
        domain: "example.com".as_bytes().to_vec(),
        port: 443,
    };
    let encoded = d.as_bytes();
    let mut expected = vec![0x03, 11];
    expected.extend_from_slice("example.com".as_bytes());
    expected.extend_from_slice(&[1, 187]);
    assert_eq!(encoded, expected);
    let (decoded, rest) = Destination::parse(encoded.as_slice()).unwrap();
    assert_eq!(decoded, d);
    assert!(rest.is_empty());
}

#[test]
fn destination_parse_errors() {
    assert_eq!(Destination::parse(&[]), Err(Error::MalformedAddress));
    assert_eq!(Destination::parse(&[0x02]), Err(Error::MalformedAddress));
    assert_eq!(Destination::parse(&[0x09, 1, 2]), Err(Error::MalformedAddress));
    // IPv4 too short for its address and port
    assert_eq!(
        Destination::parse(&[0x01, 1, 2, 3]),
        Err(Error::MalformedAddress)
    );
    assert_eq!(
        Destination::parse(&[0x01, 1, 2, 3, 4, 0]),
        Err(Error::MalformedAddress)
    );
    // Domain whose declared length exceeds the buffer
    assert_eq!(
        Destination::parse(&[0x03, 5, b'a', b'b', 0, 80]),
        Err(Error::MalformedAddress)
    );
    // Domain bytes that are not valid UTF-8
    assert_eq!(
        Destination::parse(&[0x03, 1, 0xFF, 0, 80]),
        Err(Error::MalformedAddress)
    );
    // IPv6 too short
    assert_eq!(
        Destination::parse(&[0x04, 0, 0, 0, 0, 0, 0, 0, 0]),
        Err(Error::MalformedAddress)
    );
}

#[test]
fn address_type_parse_behavior() {
    let (t, rest) = RequestAddressType::parse(&[0x03, 7]).unwrap();
    assert_eq!(t, RequestAddressType::DomainName);
    assert_eq!(rest, &[7]);
    assert_eq!(RequestAddressType::parse(&[]), Err(Error::MalformedAddress));
    assert_eq!(
        RequestAddressType::parse(&[0x00]),
        Err(Error::MalformedAddress)
    );
}

fn sample_handshake() -> TrojanHandshake {
    let password: Vec<u8> = "0123456789abcdef0123456789abcdef0123456789abcdef01234567"
        .as_bytes()[..56]
        .to_vec();
    TrojanHandshake {
        password,
        command: Command::Connect,
        destination: Destination::Address {
            ip: IpAddress::V4([10, 0, 0, 1]),
            port: 443,
        },
        payload: b"hello".to_vec(),
    }
}

#[test]
fn handshake_round_trip() {
    let m = sample_handshake();
    let frame = m.as_bytes();
    assert_eq!(frame.len(), 56 + 2 + 1 + 7 + 2 + 5);
    assert_eq!(&frame[56..58], &[0x0D, 0x0A]);
    assert_eq!(frame[58], 0x01);
    assert_eq!(&frame[66..68], &[0x0D, 0x0A]);
    let parsed = TrojanHandshake::parse(frame.as_slice()).unwrap();
    assert_eq!(parsed, m);
}

#[test]
fn handshake_round_trip_empty_payload() {
    let mut m = sample_handshake();
    m.payload = Vec::new();
    let frame = m.as_bytes();
    let parsed = TrojanHandshake::parse(frame.as_slice()).unwrap();
    assert_eq!(parsed, m);
    assert!(parsed.payload.is_empty());
}

#[test]
fn handshake_crlf_mutations() {
    let m = sample_handshake();
    let frame = m.as_bytes();
    let second_crlf = 56 + 2 + 1 + 7;
    for &(x, y) in &[(0u8, 0u8), (10, 13), (13, 13), (10, 10), (b'A', b'B')] {
        let mut mutated = frame.clone();
        mutated[56] = x;
        mutated[57] = y;
        assert!(TrojanHandshake::parse(mutated.as_slice()).is_err());

        let mut mutated = frame.clone();
        mutated[second_crlf] = x;
        mutated[second_crlf + 1] = y;
        assert!(TrojanHandshake::parse(mutated.as_slice()).is_err());
    }
}

#[test]
fn handshake_parse_errors() {
    // Too short for the credential
    assert_eq!(
        TrojanHandshake::parse(b"short"),
        Err(Error::TruncatedHandshake)
    );
    let m = sample_handshake();
    let frame = m.as_bytes();
    // Credential bytes that are not valid UTF-8
    let mut bad_utf8 = frame.clone();
    bad_utf8[0] = 0xFF;
    assert_eq!(
        TrojanHandshake::parse(bad_utf8.as_slice()),
        Err(Error::MalformedHandshake)
    );
    // Unknown command byte
    let mut bad_cmd = frame.clone();
    bad_cmd[58] = 0x09;
    assert_eq!(
        TrojanHandshake::parse(bad_cmd.as_slice()),
        Err(Error::UnknownCommand)
    );
    // Malformed destination
    let mut bad_dest = frame.clone();
    bad_dest[59] = 0x00;
    assert_eq!(
        TrojanHandshake::parse(bad_dest.as_slice()),
        Err(Error::MalformedAddress)
    );
    // Missing trailing CRLF
    let truncated = &frame[..56 + 2 + 1 + 7];
    assert_eq!(
        TrojanHandshake::parse(truncated),
        Err(Error::MalformedHandshake)
    );
}

#[test]
fn check_crlf_behavior() {
    let rest = check_crlf_and_advance(&[0x0D, 0x0A, 7, 8]).unwrap();
    assert_eq!(rest, &[7, 8]);
    assert_eq!(
        check_crlf_and_advance(&[0x0A, 0x0D]),
        Err(Error::MalformedHandshake)
    );
    assert_eq!(
        check_crlf_and_advance(&[0x0D]),
        Err(Error::MalformedHandshake)
    );
}

#[test]
fn advance_buffer_behavior() {
    let buffer = [1u8, 2, 3];
    assert_eq!(advance_buffer(1, &buffer), Some(&buffer[1..]));
    assert_eq!(advance_buffer(3, &buffer), Some(&buffer[3..]));
    assert_eq!(advance_buffer(4, &buffer), None);
}
