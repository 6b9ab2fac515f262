use std::io::Read;
use vstd::prelude::*;

use crate::error::FetchError;

verus! {

/// The bytes that a single gzip member at the start of `b` decompresses to,
/// or `None` where `b` does not start with a complete, valid one.
pub uninterp spec fn gunzip_spec(b: Seq<u8>) -> Option<Seq<u8>>;

/// Relies on `flate2::read::GzDecoder` read to its end: the result depends on
/// the bytes alone, and any read error means the stream is malformed or cut short.
#[verifier::external_body]
fn gunzip(b: &[u8]) -> (r: Option<Vec<u8>>)
    ensures
        r is None <==> gunzip_spec(b@) is None,
        r matches Some(v) ==> gunzip_spec(b@) == Some(v@),
{
    let mut out: Vec<u8> = Vec::new();
    match flate2::read::GzDecoder::new(b).read_to_end(&mut out) {
        Ok(_) => Some(out),
        Err(_) => None,
    }
}

/// Decompresses a gzip stream held in memory.
pub fn decode_gzip(b: &[u8]) -> (r: Result<Vec<u8>, FetchError>)
    ensures
        match gunzip_spec(b@) {
            Some(d) => r matches Ok(v) && v@ == d,
            None => r == Err::<Vec<u8>, FetchError>(FetchError::DecodeError),
        },
{
    match gunzip(b) {
        Some(v) => Ok(v),
        None => Err(FetchError::DecodeError),
    }
}

} // verus!
