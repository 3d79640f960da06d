//! Connection setup: computing the websocket upgrade request — host,
//! handshake key and authorization header — from the endpoint address
//! and the caller's credential. The application performs the actual
//! connect with these values.

use vstd::prelude::*;
use vstd::utf8::encode_utf8;
use crate::engine::SessionError;
use crate::wire::push_bytes;

verus! {

/// The authority component (userinfo, host and port) of `url`, as the
/// `url` crate parses it, or `None` when the string is not a valid URL.
pub uninterp spec fn authority_of(url: Seq<char>) -> Option<Seq<u8>>;

/// Relies on `url::Url::parse` and `url::Url::authority`: parses the
/// address and yields its authority component — empty for URLs without
/// one, and including any userinfo and port — or `None` when parsing
/// fails.
#[verifier::external_body]
fn parse_authority(url: &str) -> (r: Option<Vec<u8>>)
    ensures
        match r {
            Some(v) => authority_of(url@) == Some(v@),
            None => authority_of(url@) is None,
        },
{
    match url::Url::parse(url) {
        Ok(u) => Some(u.authority().as_bytes().to_vec()),
        Err(_) => None,
    }
}

/// Whether a byte is an ASCII letter or digit.
pub open spec fn is_ascii_alnum(b: u8) -> bool {
    (48 <= b <= 57) || (65 <= b <= 90) || (97 <= b <= 122)
}

/// Relies on `rand::rng` and the `Alphanumeric` distribution: sixteen
/// bytes, each an ASCII letter or digit. The bytes are random, so
/// nothing further can be promised of them.
#[verifier::external_body]
fn handshake_key_material() -> (r: Vec<u8>)
    ensures
        r@.len() == 16,
        forall|i: int| 0 <= i < r@.len() ==> is_ascii_alnum(r@[i]),
{
    let mut rng = rand::rng();
    let mut out: Vec<u8> = Vec::with_capacity(16);
    for _ in 0..16 {
        out.push(rand::RngExt::sample(&mut rng, rand::distr::Alphanumeric));
    }
    out
}

/// The base64 encoding of `data` under the standard alphabet with
/// padding.
pub uninterp spec fn base64_standard_of(data: Seq<u8>) -> Seq<u8>;

/// Relies on base64's `general_purpose::STANDARD` engine: the encoding
/// is a function of the input bytes alone, and the padded output takes
/// four bytes for every started group of three input bytes.
#[verifier::external_body]
fn base64_standard(data: &[u8]) -> (r: Vec<u8>)
    ensures
        r@ == base64_standard_of(data@),
        r@.len() == 4 * ((data@.len() + 2) / 3),
{
    base64::Engine::encode(&base64::engine::general_purpose::STANDARD, data).into_bytes()
}

/// The length of the userinfo prefix of an authority: the index of the
/// first `@`, or the whole length when there is none.
pub open spec fn spec_userinfo_len(a: Seq<u8>) -> nat
    decreases a.len(),
{
    if a.len() == 0 {
        0
    } else if a[0] == 64 {
        0
    } else {
        1 + spec_userinfo_len(a.drop_first())
    }
}

/// The host (and port) part of an authority: what follows the first
/// `@`, or the whole authority when it carries no userinfo.
pub open spec fn spec_host_of(a: Seq<u8>) -> Seq<u8> {
    if spec_userinfo_len(a) == a.len() {
        a
    } else {
        a.skip(spec_userinfo_len(a) as int + 1)
    }
}

proof fn lemma_userinfo_len_at(a: Seq<u8>, i: int)
    requires
        0 <= i <= a.len(),
        forall|j: int| 0 <= j < i ==> a[j] != 64,
        i < a.len() ==> a[i] == 64,
        i == a.len() || a[i] == 64,
    ensures
        spec_userinfo_len(a) == i,
    decreases a.len(),
{
    if a.len() == 0 {
    } else if a[0] == 64 {
        assert(i == 0);
    } else {
        assert(i >= 1);
        lemma_userinfo_len_at(a.drop_first(), i - 1);
    }
}

/// Strips the userinfo from an authority, leaving host and port.
fn host_of_authority(a: &[u8]) -> (r: Vec<u8>)
    ensures
        r@ == spec_host_of(a@),
{
    let mut i: usize = 0;
    while i < a.len()
        invariant
            i <= a@.len(),
            forall|j: int| 0 <= j < i ==> a@[j] != 64,
        decreases a@.len() - i,
    {
        if a[i] == 64 {
            proof {
                lemma_userinfo_len_at(a@, i as int);
            }
            let mut out: Vec<u8> = Vec::new();
            let mut j: usize = i + 1;
            while j < a.len()
                invariant
                    i + 1 <= j <= a@.len(),
                    out@ == a@.subrange(i + 1, j as int),
                decreases a@.len() - j,
            {
                out.push(a[j]);
                proof {
                    assert(a@.subrange(i + 1, j + 1) =~= a@.subrange(i + 1, j as int).push(
                        a@[j as int],
                    ));
                }
                j = j + 1;
            }
            proof {
                assert(out@ =~= spec_host_of(a@));
            }
            return out;
        }
        i = i + 1;
    }
    proof {
        lemma_userinfo_len_at(a@, a@.len() as int);
    }
    let mut out: Vec<u8> = Vec::new();
    push_bytes(&mut out, a);
    out
}

/// The `Authorization` header value: the bearer scheme carrying the
/// caller's credential.
pub fn authorization_header(token: &str) -> (r: Vec<u8>)
    ensures
        r@ == encode_utf8("Bearer "@) + encode_utf8(token@),
{
    let mut out: Vec<u8> = Vec::new();
    push_bytes(&mut out, "Bearer ".as_bytes());
    push_bytes(&mut out, token.as_bytes());
    out
}

/// The headers of the websocket upgrade request, in order: `Host` (the
/// endpoint's host and port, userinfo stripped), the fixed connection
/// upgrade headers, a fresh base64-encoded sixteen-byte handshake key,
/// and the bearer authorization carrying `auth_token`. Fails with
/// `InvalidEndpoint` exactly when the address does not parse or names
/// no host.
pub fn upgrade_request_headers(rt_url: &str, auth_token: &str) -> (r: Result<
    Vec<(Vec<u8>, Vec<u8>)>,
    SessionError,
>)
    ensures
        r is Ok <==> (authority_of(rt_url@) matches Some(a) && spec_host_of(a).len() > 0),
        r matches Err(e) ==> e == SessionError::InvalidEndpoint,
        r matches Ok(hs) ==> {
            &&& authority_of(rt_url@) matches Some(a) && {
                &&& hs@.len() == 6
                &&& hs@[0].0@ == encode_utf8("Host"@)
                &&& hs@[0].1@ == spec_host_of(a)
                &&& hs@[1].0@ == encode_utf8("Connection"@)
                &&& hs@[1].1@ == encode_utf8("keep-alive, Upgrade"@)
                &&& hs@[2].0@ == encode_utf8("Upgrade"@)
                &&& hs@[2].1@ == encode_utf8("websocket"@)
                &&& hs@[3].0@ == encode_utf8("Sec-WebSocket-Version"@)
                &&& hs@[3].1@ == encode_utf8("13"@)
                &&& hs@[4].0@ == encode_utf8("Sec-WebSocket-Key"@)
                &&& hs@[4].1@.len() == 24
                &&& exists|m: Seq<u8>| m.len() == 16 && hs@[4].1@ == base64_standard_of(m)
                &&& hs@[5].0@ == encode_utf8("Authorization"@)
                &&& hs@[5].1@ == encode_utf8("Bearer "@) + encode_utf8(auth_token@)
            }
        },
{
    let authority = match parse_authority(rt_url) {
        Some(a) => a,
        None => {
            return Err(SessionError::InvalidEndpoint);
        },
    };
    let host = host_of_authority(authority.as_slice());
    if host.len() == 0 {
        return Err(SessionError::InvalidEndpoint);
    }
    let material = handshake_key_material();
    let ghost material_view = material@;
    let key = base64_standard(material.as_slice());
    proof {
        assert(key@.len() == 24);
        assert(material_view.len() == 16 && key@ == base64_standard_of(material_view));
    }
    let mut headers: Vec<(Vec<u8>, Vec<u8>)> = Vec::new();
    headers.push((header_name("Host"), host));
    headers.push((header_name("Connection"), header_name("keep-alive, Upgrade")));
    headers.push((header_name("Upgrade"), header_name("websocket")));
    headers.push((header_name("Sec-WebSocket-Version"), header_name("13")));
    headers.push((header_name("Sec-WebSocket-Key"), key));
    headers.push((header_name("Authorization"), authorization_header(auth_token)));
    Ok(headers)
}

/// Copies a header name or fixed value into bytes.
fn header_name(s: &str) -> (r: Vec<u8>)
    ensures
        r@ == encode_utf8(s@),
{
    let mut out: Vec<u8> = Vec::new();
    push_bytes(&mut out, s.as_bytes());
    out
}

} // verus!
