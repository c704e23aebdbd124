//! The process-wide read-only configuration values and the command-line
//! choices, as plain data.  Loading them from files or arguments happens
//! outside the library; the values are handed to each connection task and
//! never mutated after startup.

use vstd::prelude::*;
use vstd::slice::slice_index_get;
use vstd::utf8::encode_utf8;

use crate::bytes::bytes_eq;

verus! {

/// The client-side configuration.
#[derive(Clone, Debug)]
pub struct ClientConfig {
    pub password: String,
    pub hashed_password: Option<String>,
    pub server_addr: String,
    pub websocket_path: Option<String>,
    pub socks5: Option<Socks5>,
    pub tun: Option<Tun>,
}

/// The SOCKS5 front-end section of the client configuration.
#[derive(Clone, Debug)]
pub struct Socks5 {
    pub listening_addr: String,
}

/// The TUN front-end section of the client configuration.
#[derive(Clone, Debug)]
pub struct Tun {
    pub tun_device_ip: String,
}

impl Default for ClientConfig {
    /// The sample client configuration.
    fn default() -> (r: Self)
        ensures
            r.password@ == "12345"@,
            r.hashed_password is None,
            r.server_addr@ == "example.com:443"@,
            r.websocket_path is None,
            r.socks5 matches Some(s) && s.listening_addr@ == "0.0.0.0:1080"@,
            r.tun matches Some(t) && t.tun_device_ip@ == "10.0.0.1"@,
    {
        ClientConfig {
            password: "12345".to_owned(),
            hashed_password: None,
            server_addr: "example.com:443".to_owned(),
            websocket_path: None,
            socks5: Some(Socks5 { listening_addr: "0.0.0.0:1080".to_owned() }),
            tun: Some(Tun { tun_device_ip: "10.0.0.1".to_owned() }),
        }
    }
}

/// The server-side configuration.
#[derive(Clone, Debug)]
pub struct ServerConfig {
    pub listen_addr: String,
    pub password: String,
    pub fallback_addr: String,
    pub websocket_path: Option<String>,
    pub disable_port_80_redirect: Option<bool>,
    pub serve_files_from: Option<String>,
    pub certificate_path: String,
    pub private_key_path: String,
}

impl Default for ServerConfig {
    /// The sample server configuration.
    fn default() -> (r: Self)
        ensures
            r.listen_addr@ == "0.0.0.0:443"@,
            r.password@ == "12345"@,
            r.fallback_addr@ == "127.0.0.1:8080"@,
            r.websocket_path is None,
            r.disable_port_80_redirect is None,
            r.serve_files_from is None,
            r.certificate_path@ == "samples/cert.pem"@,
            r.private_key_path@ == "samples/private.pem"@,
    {
        ServerConfig {
            listen_addr: "0.0.0.0:443".to_owned(),
            password: "12345".to_owned(),
            fallback_addr: "127.0.0.1:8080".to_owned(),
            websocket_path: None,
            disable_port_80_redirect: None,
            serve_files_from: None,
            certificate_path: "samples/cert.pem".to_owned(),
            private_key_path: "samples/private.pem".to_owned(),
        }
    }
}

/// Which application the process runs.
#[derive(Clone, Copy, Debug, PartialEq, Eq, Structural)]
pub enum Application {
    Client,
    Server,
}

/// Which front-end adapter the client runs.
#[derive(Clone, Copy, Debug, PartialEq, Eq, Structural)]
pub enum ClientAdapterType {
    Socks5,
}

/// The logging verbosity chosen on the command line.
#[derive(Clone, Copy, Debug, PartialEq, Eq, Structural)]
pub enum LogLevel {
    Off,
    Error,
    Warn,
    Info,
    Debug,
    Trace,
}

/// The parsed command line.
#[derive(Debug)]
pub struct Cli {
    pub command: Application,
    pub config_file: Option<String>,
    pub log_level: LogLevel,
    pub client_adapter_type: ClientAdapterType,
}

/// A byte with any ASCII upper-case letter folded to lower case.
pub open spec fn lower_byte(b: u8) -> u8 {
    if 65 <= b <= 90 {
        (b + 32) as u8
    } else {
        b
    }
}

/// A byte sequence with ASCII upper-case letters folded to lower case.
pub open spec fn ascii_lower(s: Seq<u8>) -> Seq<u8> {
    Seq::new(s.len(), |i: int| lower_byte(s[i]))
}

/// Fold ASCII upper-case letters of `name` to lower case.
fn to_ascii_lower(name: &[u8]) -> (r: Vec<u8>)
    ensures
        r@ == ascii_lower(name@),
{
    let mut out: Vec<u8> = Vec::new();
    let mut i: usize = 0;
    while i < name.len()
        invariant
            i <= name@.len(),
            out@ == ascii_lower(name@).take(i as int),
        decreases name@.len() - i,
    {
        let b = *slice_index_get(name, i);
        if 65 <= b && b <= 90 {
            out.push(b + 32);
        } else {
            out.push(b);
        }
        proof {
            assert(out@ =~= ascii_lower(name@).take(i + 1));
        }
        i += 1;
    }
    proof {
        assert(ascii_lower(name@).take(name@.len() as int) =~= ascii_lower(name@));
    }
    out
}

impl Application {
    /// Parse an application name, matching ASCII-case-insensitively.
    pub fn from_name(name: &[u8]) -> (r: Option<Application>)
        ensures
            r == (if ascii_lower(name@) == encode_utf8("client"@) {
                Some(Application::Client)
            } else if ascii_lower(name@) == encode_utf8("server"@) {
                Some(Application::Server)
            } else {
                None::<Application>
            }),
    {
        let lowered = to_ascii_lower(name);
        if bytes_eq(lowered.as_slice(), "client".as_bytes()) {
            Some(Application::Client)
        } else if bytes_eq(lowered.as_slice(), "server".as_bytes()) {
            Some(Application::Server)
        } else {
            None
        }
    }
}

impl ClientAdapterType {
    /// Parse an adapter name, matching ASCII-case-insensitively.
    pub fn from_name(name: &[u8]) -> (r: Option<ClientAdapterType>)
        ensures
            r == (if ascii_lower(name@) == encode_utf8("socks5"@) {
                Some(ClientAdapterType::Socks5)
            } else {
                None::<ClientAdapterType>
            }),
    {
        let lowered = to_ascii_lower(name);
        if bytes_eq(lowered.as_slice(), "socks5".as_bytes()) {
            Some(ClientAdapterType::Socks5)
        } else {
            None
        }
    }
}

impl LogLevel {
    /// Parse a logging verbosity name, matching ASCII-case-insensitively.
    pub fn from_name(name: &[u8]) -> (r: Option<LogLevel>)
        ensures
            r == ({
                let lowered = ascii_lower(name@);
                if lowered == encode_utf8("off"@) {
                    Some(LogLevel::Off)
                } else if lowered == encode_utf8("error"@) {
                    Some(LogLevel::Error)
                } else if lowered == encode_utf8("warn"@) {
                    Some(LogLevel::Warn)
                } else if lowered == encode_utf8("info"@) {
                    Some(LogLevel::Info)
                } else if lowered == encode_utf8("debug"@) {
                    Some(LogLevel::Debug)
                } else if lowered == encode_utf8("trace"@) {
                    Some(LogLevel::Trace)
                } else {
                    None::<LogLevel>
                }
            }),
    {
        let lowered = to_ascii_lower(name);
        let l = lowered.as_slice();
        if bytes_eq(l, "off".as_bytes()) {
            Some(LogLevel::Off)
        } else if bytes_eq(l, "error".as_bytes()) {
            Some(LogLevel::Error)
        } else if bytes_eq(l, "warn".as_bytes()) {
            Some(LogLevel::Warn)
        } else if bytes_eq(l, "info".as_bytes()) {
            Some(LogLevel::Info)
        } else if bytes_eq(l, "debug".as_bytes()) {
            Some(LogLevel::Debug)
        } else if bytes_eq(l, "trace".as_bytes()) {
            Some(LogLevel::Trace)
        } else {
            None
        }
    }
}

} // verus!
