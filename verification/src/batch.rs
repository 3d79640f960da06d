//! Query parameters of the batch jobs API. The application performs the
//! HTTP requests; the parameter lists they carry are computed here.

use vstd::prelude::*;
use vstd::utf8::encode_utf8;
use crate::codec::{spec_bool_json, spec_dec_i32};
use crate::wire::push_bytes;

verus! {

/// The tag every request carries to identify this client.
pub const SDK_TAG: &'static str = "rs-0.1.0";

/// The base URL of the batch jobs API.
pub const DEFAULT_BATCH_URL: &'static str = "https://asr.api.speechmatics.com/v2/";

/// How a boolean is written as a query value.
fn push_bool(out: &mut Vec<u8>, b: bool)
    ensures
        final(out)@ == old(out)@ + spec_bool_json(b),
{
    if b {
        push_bytes(out, "true".as_bytes());
    } else {
        push_bytes(out, "false".as_bytes());
    }
}

/// The decimal rendering of a signed number as a query value.
fn push_i32(out: &mut Vec<u8>, n: i32)
    ensures
        final(out)@ == old(out)@ + spec_dec_i32(n as int),
{
    if n < 0 {
        out.push(45);
        let m: i64 = -(n as i64);
        crate::wire::push_dec(out, m as u64);
        proof {
            assert(out@ =~= old(out)@ + spec_dec_i32(n as int));
        }
    } else {
        crate::wire::push_dec(out, n as u64);
    }
}

fn param(name: &str) -> (r: Vec<u8>)
    ensures
        r@ == encode_utf8(name@),
{
    let mut out: Vec<u8> = Vec::new();
    push_bytes(&mut out, name.as_bytes());
    out
}

/// The query every batch request starts from: the client tag alone.
pub fn default_query() -> (q: Vec<(Vec<u8>, Vec<u8>)>)
    ensures
        q@.len() == 1,
        q@[0].0@ == encode_utf8("sm-sdk"@),
        q@[0].1@ == encode_utf8(SDK_TAG@),
{
    let mut q: Vec<(Vec<u8>, Vec<u8>)> = Vec::new();
    q.push((param("sm-sdk"), param(SDK_TAG)));
    q
}

/// The query of a job-listing request: the client tag, then `limit` and
/// `include_deleted`, each present exactly when the caller set it.
pub fn jobs_query(limit: Option<i32>, include_deleted: Option<bool>) -> (q: Vec<
    (Vec<u8>, Vec<u8>),
>)
    ensures
        q@.len() == 1 + (if limit is Some { 1int } else { 0 }) + (if include_deleted is Some {
            1int
        } else {
            0
        }),
        q@[0].0@ == encode_utf8("sm-sdk"@) && q@[0].1@ == encode_utf8(SDK_TAG@),
        limit matches Some(n) ==> q@[1].0@ == encode_utf8("limit"@) && q@[1].1@ == spec_dec_i32(
            n as int,
        ),
        include_deleted matches Some(b) ==> {
            &&& q@[q@.len() - 1].0@ == encode_utf8("include_deleted"@)
            &&& q@[q@.len() - 1].1@ == spec_bool_json(b)
        },
{
    let mut q = default_query();
    match limit {
        Some(n) => {
            let mut v: Vec<u8> = Vec::new();
            push_i32(&mut v, n);
            q.push((param("limit"), v));
        },
        None => {},
    }
    match include_deleted {
        Some(b) => {
            let mut v: Vec<u8> = Vec::new();
            push_bool(&mut v, b);
            q.push((param("include_deleted"), v));
        },
        None => {},
    }
    q
}

/// The query of a transcript-retrieval request: the client tag and the
/// requested transcript format.
pub fn transcript_query(format: &str) -> (q: Vec<(Vec<u8>, Vec<u8>)>)
    ensures
        q@.len() == 2,
        q@[0].0@ == encode_utf8("sm-sdk"@) && q@[0].1@ == encode_utf8(SDK_TAG@),
        q@[1].0@ == encode_utf8("format"@) && q@[1].1@ == encode_utf8(format@),
{
    let mut q = default_query();
    q.push((param("format"), param(format)));
    q
}

/// The query of a job-deletion request: the client tag, and `force`
/// exactly when the caller set it.
pub fn delete_query(force: Option<bool>) -> (q: Vec<(Vec<u8>, Vec<u8>)>)
    ensures
        q@.len() == 1 + (if force is Some { 1int } else { 0 }),
        q@[0].0@ == encode_utf8("sm-sdk"@) && q@[0].1@ == encode_utf8(SDK_TAG@),
        force matches Some(b) ==> q@[1].0@ == encode_utf8("force"@) && q@[1].1@ == spec_bool_json(
            b,
        ),
{
    let mut q = default_query();
    match force {
        Some(b) => {
            let mut v: Vec<u8> = Vec::new();
            push_bool(&mut v, b);
            q.push((param("force"), v));
        },
        None => {},
    }
    q
}

} // verus!
