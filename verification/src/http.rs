//! The plain-text HTTP companions: parsing the first two lines of a GET
//! request, the permanent-redirect responder that points port-80 traffic at
//! the HTTPS equivalent URL, and the response frames of the static decoy
//! webserver.

use vstd::prelude::*;
use vstd::slice::{slice_subrange, slice_to_vec};
use vstd::string::StringSliceAdditionalSpecFns;
use vstd::utf8::{encode_utf8, valid_utf8};

use crate::bytes::{bytes_eq, is_utf8, push_bytes};
use crate::errors::Error;

verus! {

/// ASCII whitespace, as the standard library's whitespace splitting sees it.
pub open spec fn is_ws(b: u8) -> bool {
    b == 32 || b == 9 || b == 10 || b == 13 || b == 12
}

/// The position of the first line-feed byte at or after `i`, if any.
pub open spec fn find_lf(s: Seq<u8>, i: int) -> Option<int>
    decreases s.len() - i,
    when 0 <= i <= s.len()
{
    if i >= s.len() {
        None
    } else if s[i] == 10 {
        Some(i)
    } else {
        find_lf(s, i + 1)
    }
}

/// The first non-whitespace position at or after `i`.
pub open spec fn skip_ws(s: Seq<u8>, i: int) -> int
    decreases s.len() - i,
    when 0 <= i <= s.len()
{
    if i < s.len() && is_ws(s[i]) {
        skip_ws(s, i + 1)
    } else {
        i
    }
}

/// The first whitespace position at or after `i`.
pub open spec fn token_end(s: Seq<u8>, i: int) -> int
    decreases s.len() - i,
    when 0 <= i <= s.len()
{
    if i < s.len() && !is_ws(s[i]) {
        token_end(s, i + 1)
    } else {
        i
    }
}

/// The whitespace-delimited token starting at or after `i`: empty where none
/// is left.
pub open spec fn token_at(s: Seq<u8>, i: int) -> Seq<u8> {
    s.subrange(skip_ws(s, i), token_end(s, skip_ws(s, i)))
}

/// The first whitespace-delimited token of a line.
pub open spec fn first_token(s: Seq<u8>) -> Seq<u8> {
    token_at(s, 0)
}

/// The second whitespace-delimited token of a line.
pub open spec fn second_token(s: Seq<u8>) -> Seq<u8> {
    token_at(s, token_end(s, skip_ws(s, 0)))
}

/// The URI and Host header of a GET request.
#[derive(Debug, PartialEq, Eq)]
pub struct GetRequest {
    pub uri: Vec<u8>,
    pub host: Vec<u8>,
}

/// The mathematical model of a parsed GET request.
#[verifier::ext_equal]
pub struct GetRequestV {
    pub uri: Seq<u8>,
    pub host: Seq<u8>,
}

impl View for GetRequest {
    type V = GetRequestV;

    open spec fn view(&self) -> GetRequestV {
        GetRequestV { uri: self.uri@, host: self.host@ }
    }
}

/// The bytes of the GET method token.
pub open spec fn get_token_bytes() -> Seq<u8> {
    encode_utf8("GET"@)
}

/// The bytes of the Host header name token.
pub open spec fn host_token_bytes() -> Seq<u8> {
    encode_utf8("Host:"@)
}

/// The decoding of a GET request: the buffer must be valid UTF-8, the first
/// line must read `GET <uri> ...`, the second `Host: <host> ...`.
pub open spec fn get_request_decode(b: Seq<u8>) -> Result<GetRequestV, Error> {
    if !valid_utf8(b) {
        Err(Error::ProtocolViolation)
    } else {
        match find_lf(b, 0) {
            None => Err(Error::ProtocolViolation),
            Some(lf) => {
                let line1 = b.take(lf);
                let rest = b.skip(lf + 1);
                let line2 = match find_lf(rest, 0) {
                    None => rest,
                    Some(lf2) => rest.take(lf2),
                };
                if first_token(line1) != get_token_bytes() {
                    Err(Error::ProtocolViolation)
                } else if second_token(line1).len() == 0 {
                    Err(Error::ProtocolViolation)
                } else if first_token(line2) != host_token_bytes() {
                    Err(Error::ProtocolViolation)
                } else if second_token(line2).len() == 0 {
                    Err(Error::ProtocolViolation)
                } else {
                    Ok(GetRequestV { uri: second_token(line1), host: second_token(line2) })
                }
            },
        }
    }
}

/// Find the first line-feed byte at or after `from`.
fn find_lf_exec(s: &[u8], from: usize) -> (r: Option<usize>)
    requires
        from <= s@.len(),
    ensures
        match r {
            Some(j) => find_lf(s@, from as int) == Some(j as int) && from <= j < s@.len(),
            None => find_lf(s@, from as int) is None,
        },
{
    let mut i = from;
    while i < s.len()
        invariant
            from <= i <= s@.len(),
            find_lf(s@, from as int) == find_lf(s@, i as int),
        decreases s@.len() - i,
    {
        if *vstd::slice::slice_index_get(s, i) == 10 {
            return Some(i);
        }
        i += 1;
    }
    None
}

/// Find the first non-whitespace position at or after `from`.
fn skip_ws_exec(s: &[u8], from: usize) -> (r: usize)
    requires
        from <= s@.len(),
    ensures
        r == skip_ws(s@, from as int),
        from <= r <= s@.len(),
{
    let mut i = from;
    loop
        invariant
            from <= i <= s@.len(),
            skip_ws(s@, from as int) == skip_ws(s@, i as int),
        decreases s@.len() - i,
    {
        if i >= s.len() {
            return i;
        }
        let b = *vstd::slice::slice_index_get(s, i);
        if !(b == 32 || b == 9 || b == 10 || b == 13 || b == 12) {
            return i;
        }
        i += 1;
    }
}

/// Find the first whitespace position at or after `from`.
fn token_end_exec(s: &[u8], from: usize) -> (r: usize)
    requires
        from <= s@.len(),
    ensures
        r == token_end(s@, from as int),
        from <= r <= s@.len(),
{
    let mut i = from;
    loop
        invariant
            from <= i <= s@.len(),
            token_end(s@, from as int) == token_end(s@, i as int),
        decreases s@.len() - i,
    {
        if i >= s.len() {
            return i;
        }
        let b = *vstd::slice::slice_index_get(s, i);
        if b == 32 || b == 9 || b == 10 || b == 13 || b == 12 {
            return i;
        }
        i += 1;
    }
}

/// The whitespace-delimited token of `s` starting at or after `from`.
fn token_exec<'a>(s: &'a [u8], from: usize) -> (r: (&'a [u8], usize))
    requires
        from <= s@.len(),
    ensures
        r.0@ == token_at(s@, from as int),
        from <= r.1 <= s@.len(),
        r.1 == token_end(s@, skip_ws(s@, from as int)),
{
    let start = skip_ws_exec(s, from);
    let end = token_end_exec(s, start);
    (slice_subrange(s, start, end), end)
}

/// Parse the URI and Host header out of a GET request, or report exactly when
/// the buffer is not one.
pub fn parse_get_request(buffer: &[u8]) -> (r: Result<GetRequest, Error>)
    ensures
        match r {
            Ok(g) => get_request_decode(buffer@) == Ok::<_, Error>(g@),
            Err(e) => get_request_decode(buffer@) == Err::<GetRequestV, _>(e),
        },
{
    if !is_utf8(buffer) {
        return Err(Error::ProtocolViolation);
    }
    let lf = match find_lf_exec(buffer, 0) {
        Some(j) => j,
        None => {
            return Err(Error::ProtocolViolation);
        },
    };
    let line1 = slice_subrange(buffer, 0, lf);
    let buffer_len = buffer.len();
    let rest = slice_subrange(buffer, lf + 1, buffer_len);
    proof {
        assert(line1@ =~= buffer@.take(lf as int));
        assert(rest@ =~= buffer@.skip(lf as int + 1));
    }
    let line2 = match find_lf_exec(rest, 0) {
        Some(j) => {
            let l = slice_subrange(rest, 0, j);
            proof {
                assert(l@ =~= rest@.take(j as int));
            }
            l
        },
        None => {
            proof {
                assert(rest@ =~= rest@.take(rest@.len() as int));
            }
            rest
        },
    };
    let (tok1, t1e) = token_exec(line1, 0);
    if !bytes_eq(tok1, "GET".as_bytes()) {
        return Err(Error::ProtocolViolation);
    }
    let (uri_tok, _t2e) = token_exec(line1, t1e);
    if uri_tok.len() == 0 {
        return Err(Error::ProtocolViolation);
    }
    let (htok1, h1e) = token_exec(line2, 0);
    if !bytes_eq(htok1, "Host:".as_bytes()) {
        return Err(Error::ProtocolViolation);
    }
    let (host_tok, _h2e) = token_exec(line2, h1e);
    if host_tok.len() == 0 {
        return Err(Error::ProtocolViolation);
    }
    Ok(GetRequest { uri: slice_to_vec(uri_tok), host: slice_to_vec(host_tok) })
}

/// The URI a GET request asks the file server for: the root maps to the index
/// page.
pub open spec fn resolved_uri(uri: Seq<u8>) -> Seq<u8> {
    if uri == encode_utf8("/"@) {
        encode_utf8("/index.html"@)
    } else {
        uri
    }
}

/// The file the decoy webserver should serve for a raw request buffer.
pub fn get_uri(buffer: &[u8]) -> (r: Result<Vec<u8>, Error>)
    ensures
        match r {
            Ok(u) => match get_request_decode(buffer@) {
                Ok(g) => u@ == resolved_uri(g.uri),
                Err(_) => false,
            },
            Err(e) => get_request_decode(buffer@) == Err::<GetRequestV, _>(e),
        },
{
    let g = parse_get_request(buffer)?;
    if bytes_eq(g.uri.as_slice(), "/".as_bytes()) {
        Ok(slice_to_vec("/index.html".as_bytes()))
    } else {
        Ok(g.uri)
    }
}

/// The permanent-redirect response pointing a host and path at its HTTPS
/// equivalent.
pub open spec fn redirect_response_bytes(host: Seq<u8>, uri: Seq<u8>) -> Seq<u8> {
    encode_utf8("HTTP/1.1 301 Moved Permanently\r\nLocation: https://"@) + host + uri
        + encode_utf8("\r\n"@)
}

/// Build the permanent-redirect response for a host and path.
pub fn build_redirect_response(host: &[u8], uri: &[u8]) -> (r: Vec<u8>)
    ensures
        r@ == redirect_response_bytes(host@, uri@),
{
    let mut out: Vec<u8> = Vec::new();
    push_bytes(&mut out, "HTTP/1.1 301 Moved Permanently\r\nLocation: https://".as_bytes());
    push_bytes(&mut out, host);
    push_bytes(&mut out, uri);
    push_bytes(&mut out, "\r\n".as_bytes());
    proof {
        assert(out@ =~= redirect_response_bytes(host@, uri@));
    }
    out
}

/// The redirect response owed to a raw port-80 request buffer, or the exact
/// reason the buffer earns none.
pub fn redirect_for(buffer: &[u8]) -> (r: Result<Vec<u8>, Error>)
    ensures
        match r {
            Ok(resp) => match get_request_decode(buffer@) {
                Ok(g) => resp@ == redirect_response_bytes(g.host, g.uri),
                Err(_) => false,
            },
            Err(e) => get_request_decode(buffer@) == Err::<GetRequestV, _>(e),
        },
{
    let g = parse_get_request(buffer)?;
    Ok(build_redirect_response(g.host.as_slice(), g.uri.as_slice()))
}

/// The success response of the decoy webserver for a body of the given
/// content type.
pub open spec fn ok_response_bytes(mime: Seq<u8>, body: Seq<u8>) -> Seq<u8> {
    encode_utf8("HTTP/1.1 200 OK\nContent-Type: "@) + mime + encode_utf8("\n\n"@) + body
        + encode_utf8("\n"@)
}

/// Build the decoy webserver's success response around a file body.
pub fn generate_ok_response(mime: &[u8], body: &[u8]) -> (r: Vec<u8>)
    ensures
        r@ == ok_response_bytes(mime@, body@),
{
    let mut out: Vec<u8> = Vec::new();
    push_bytes(&mut out, "HTTP/1.1 200 OK\nContent-Type: ".as_bytes());
    push_bytes(&mut out, mime);
    push_bytes(&mut out, "\n\n".as_bytes());
    push_bytes(&mut out, body);
    push_bytes(&mut out, "\n".as_bytes());
    proof {
        assert(out@ =~= ok_response_bytes(mime@, body@));
    }
    out
}

/// The not-found response of the decoy webserver.
pub open spec fn not_found_response_bytes() -> Seq<u8> {
    encode_utf8("HTTP/1.1 404 Not Found\nContent-Type: text/html\n\n<h1>404 Not Found</h1>\n"@)
}

/// Build the decoy webserver's not-found response.
pub fn generate_not_found_response() -> (r: Vec<u8>)
    ensures
        r@ == not_found_response_bytes(),
{
    slice_to_vec(
        "HTTP/1.1 404 Not Found\nContent-Type: text/html\n\n<h1>404 Not Found</h1>\n".as_bytes(),
    )
}

} // verus!
