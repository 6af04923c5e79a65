//! Decoding a downloaded artifact's LZMA/xz payload.
//!
//! The whole payload is buffered and decoded in memory before installation;
//! this bounds artifact size to available memory and is a deliberate limit
//! of the engine, not an accident.

use std::io::Read;

use vstd::prelude::*;

use crate::error::Error;

verus! {

/// The byte stream a well-formed xz payload decodes to, `None` when the
/// payload is not valid xz.  The decode is a function of the payload bytes
/// alone.
pub uninterp spec fn xz_decoded(data: Seq<u8>) -> Option<Seq<u8>>;

/// Relies on xz2's `XzDecoder` (single-stream lzma/xz decoding): reading the
/// decoder to its end yields the complete decoded stream of `data`, and
/// fails exactly when `data` is not a valid xz payload.
#[verifier::external_body]
fn xz_decode_all(data: &[u8]) -> (r: Option<Vec<u8>>)
    ensures
        r is Some <==> xz_decoded(data@) is Some,
        r is Some ==> Some(r->0@) == xz_decoded(data@),
{
    let mut decoder = xz2::read::XzDecoder::new(data);
    let mut buf = Vec::new();
    match decoder.read_to_end(&mut buf) {
        Ok(_) => Some(buf),
        Err(_) => None,
    }
}

/// Decode a downloaded artifact payload.  Succeeds with the full decoded
/// byte stream exactly when the payload is valid xz; a payload the decoder
/// rejects is reported as an I/O failure, which aborts the run.
pub fn decompress_artifact(data: &Vec<u8>) -> (r: Result<Vec<u8>, Error>)
    ensures
        match r {
            Ok(out) => xz_decoded(data@) == Some(out@),
            Err(e) => xz_decoded(data@) is None && e == Error::IoError,
        },
{
    match xz_decode_all(data.as_slice()) {
        Some(out) => Ok(out),
        None => Err(Error::IoError),
    }
}

} // verus!
