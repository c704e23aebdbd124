use trojan::client::{client_step, ClientAction, ClientState};
use trojan::destination::{Destination, IpAddress};
use trojan::digest::{credential_matches, hash_password};
use trojan::errors::Error;
use trojan::relay::{relay_step, RelayAction, RelayEvent};
use trojan::server::{classify_inbound, plan_inbound, server_step, ServerAction, ServerState};
use trojan::socks5::create_response;

fn frame(digest: &[u8], command: u8, destination: &[u8], payload: &[u8]) -> Vec<u8> {
    [
        digest,
        &[0x0D, 0x0A],
        &[command],
        destination,
        &[0x0D, 0x0A],
        payload,
    ]
    .concat()
}

/// Scenario: a handshake with the correct digest, command Connect and an IPv4
/// destination makes the server open a tunnel to exactly that address and
/// forward exactly the embedded payload first.
#[test]
fn scenario_connect_ipv4_payload() {
    let digest = hash_password("password");
    assert_eq!(digest.len(), 56);
    let payload = b"GET / HTTP/1.1\r\n\r\n";
    let buffer = frame(
        digest.as_slice(),
        0x01,
        &[0x01, 93, 184, 216, 34, 0, 80],
        payload,
    );
    let action = plan_inbound(buffer.as_slice(), digest.as_slice());
    assert_eq!(
        action,
        ServerAction::Tunnel {
            destination: Destination::Address {
                ip: IpAddress::V4([93, 184, 216, 34]),
                port: 80,
            },
            first_bytes: payload.to_vec(),
        }
    );
}

/// Scenario: a domain destination decodes to the same name and port, and
/// survives a re-encode unchanged.
#[test]
fn scenario_domain_destination() {
    let digest = hash_password("password");
    let mut destination = vec![0x03, 11];
    destination.extend_from_slice(b"example.com");
    destination.extend_from_slice(&[1, 187]);
    let buffer = frame(digest.as_slice(), 0x01, destination.as_slice(), b"");
    match plan_inbound(buffer.as_slice(), digest.as_slice()) {
        ServerAction::Tunnel {
            destination: parsed,
            first_bytes,
        } => {
            assert_eq!(
                parsed,
                Destination::DomainName {
                    domain: b"example.com".to_vec(),
                    port: 443,
                }
            );
            assert!(first_bytes.is_empty());
            assert_eq!(parsed.as_bytes(), destination);
        }
        other => panic!("expected a tunnel, got {:?}", other),
    }
}

/// Scenario: an inbound buffer that is plain HTTP is relayed to the decoy in
/// its entirety, byte for byte.
#[test]
fn scenario_plain_http_camouflage() {
    let digest = hash_password("password");
    let buffer = b"GET / HTTP/1.1\r\nHost: x\r\n\r\n";
    let action = plan_inbound(buffer, digest.as_slice());
    assert_eq!(
        action,
        ServerAction::Camouflage {
            first_bytes: buffer.to_vec(),
        }
    );
}

/// Scenario: the SOCKS5 greeting earns the no-auth reply, and the request
/// opens a tunnel whose success reply embeds the locally bound address.
#[test]
fn scenario_socks5_front_end() {
    let credential = hash_password("password");
    let (state, action) =
        client_step(ClientState::WaitForIdentify, &[0x05, 0x01, 0x00], credential.as_slice())
            .unwrap();
    assert_eq!(state, ClientState::WaitForRequest);
    assert_eq!(
        action,
        ClientAction::Reply {
            bytes: vec![0x05, 0x00],
        }
    );

    let request = [0x05, 0x01, 0x00, 0x01, 8, 8, 8, 8, 0, 80];
    let (state, action) = client_step(state, &request, credential.as_slice()).unwrap();
    let expected_destination = Destination::Address {
        ip: IpAddress::V4([8, 8, 8, 8]),
        port: 80,
    };
    assert_eq!(
        state,
        ClientState::Open {
            destination: expected_destination.clone(),
        }
    );
    assert_eq!(action, ClientAction::OpenTunnel);

    // The success reply carries the tunnel's local bind address.
    let reply = create_response(&IpAddress::V4([127, 0, 0, 1]), 4321);
    assert_eq!(reply, vec![5, 0, 0, 1, 127, 0, 0, 1, 16, 225]);

    // The first payload becomes the handshake frame.
    let payload = b"hello";
    let (state, action) = client_step(state, payload, credential.as_slice()).unwrap();
    assert_eq!(
        state,
        ClientState::Open {
            destination: expected_destination,
        }
    );
    match action {
        ClientAction::SendHandshake { frame: sent } => {
            let expected = [
                credential.as_slice(),
                &[0x0D, 0x0A],
                &[0x01],
                &[0x01, 8, 8, 8, 8, 0, 80],
                &[0x0D, 0x0A],
                payload,
            ]
            .concat();
            assert_eq!(sent, expected);
        }
        other => panic!("expected a handshake, got {:?}", other),
    }
}

#[test]
fn client_step_rejects_bad_greeting() {
    let credential = hash_password("password");
    assert_eq!(
        client_step(ClientState::WaitForIdentify, &[0x04, 0x01, 0x00], credential.as_slice()),
        Err(Error::ProtocolViolation)
    );
    assert_eq!(
        client_step(ClientState::WaitForIdentify, &[], credential.as_slice()),
        Err(Error::ProtocolViolation)
    );
    assert_eq!(
        client_step(
            ClientState::WaitForRequest,
            &[0x05, 0x09, 0x00, 0x01, 8, 8, 8, 8, 0, 80],
            credential.as_slice()
        ),
        Err(Error::UnknownCommand)
    );
    assert_eq!(
        client_step(
            ClientState::WaitForRequest,
            &[0x05, 0x01, 0x07, 0x01, 8, 8, 8, 8, 0, 80],
            credential.as_slice()
        ),
        Err(Error::ProtocolViolation)
    );
}

/// Auth symmetry: a wrong-credential handshake and a structurally invalid
/// buffer of the same length produce the same kind of action, each forwarding
/// its own bytes verbatim.
#[test]
fn auth_symmetry_wrong_credential_vs_garbage() {
    let digest = hash_password("password");
    let wrong = hash_password("p4ssword");
    let payload = b"data";
    let with_wrong_credential = frame(
        wrong.as_slice(),
        0x01,
        &[0x01, 93, 184, 216, 34, 0, 80],
        payload,
    );
    let garbage: Vec<u8> = vec![0x41; with_wrong_credential.len()];
    assert_eq!(garbage.len(), with_wrong_credential.len());

    let a1 = plan_inbound(with_wrong_credential.as_slice(), digest.as_slice());
    let a2 = plan_inbound(garbage.as_slice(), digest.as_slice());
    assert_eq!(
        a1,
        ServerAction::Camouflage {
            first_bytes: with_wrong_credential,
        }
    );
    assert_eq!(
        a2,
        ServerAction::Camouflage {
            first_bytes: garbage,
        }
    );
}

#[test]
fn classify_inbound_auth_failed() {
    let digest = hash_password("password");
    let wrong = hash_password("other");
    let buffer = frame(wrong.as_slice(), 0x01, &[0x01, 1, 2, 3, 4, 0, 80], b"");
    assert_eq!(
        classify_inbound(buffer.as_slice(), digest.as_slice()).unwrap_err(),
        Error::AuthenticationFailed
    );
    let ok = frame(digest.as_slice(), 0x01, &[0x01, 1, 2, 3, 4, 0, 80], b"");
    let m = classify_inbound(ok.as_slice(), digest.as_slice()).unwrap();
    assert_eq!(m.password, digest);
}

#[test]
fn server_step_relaying_forwards() {
    let digest = hash_password("password");
    let (state, action) = server_step(ServerState::AwaitingHandshake, b"junk", digest.as_slice());
    assert_eq!(state, ServerState::Relaying);
    assert_eq!(
        action,
        ServerAction::Camouflage {
            first_bytes: b"junk".to_vec(),
        }
    );
    let (state, action) = server_step(state, b"more bytes", digest.as_slice());
    assert_eq!(state, ServerState::Relaying);
    assert_eq!(
        action,
        ServerAction::Forward {
            bytes: b"more bytes".to_vec(),
        }
    );
}

#[test]
fn relay_step_behavior() {
    assert_eq!(
        relay_step(RelayEvent::Data {
            bytes: b"abc".to_vec(),
        }),
        RelayAction::Forward {
            bytes: b"abc".to_vec(),
        }
    );
    assert_eq!(relay_step(RelayEvent::Closed), RelayAction::ShutdownBoth);
}

#[test]
fn hash_password_vector() {
    // The standard SHA-224 test vector for "abc".
    let digest = hash_password("abc");
    assert_eq!(
        digest,
        b"23097d223405d8228642a477bda255b32aadbce4bda0b3f7e36c9da7".to_vec()
    );
    assert_eq!(digest.len(), 56);
    // The digest is not the input handed back.
    assert_ne!(digest, b"abc".to_vec());
    for b in digest.iter() {
        assert!(b.is_ascii_hexdigit());
        assert!(!b.is_ascii_uppercase());
    }
}

#[test]
fn credential_matches_behavior() {
    let a = hash_password("password");
    let b = hash_password("password");
    let c = hash_password("Password");
    assert!(credential_matches(a.as_slice(), b.as_slice()));
    assert!(!credential_matches(a.as_slice(), c.as_slice()));
    assert!(!credential_matches(a.as_slice(), &a[..55]));
}
