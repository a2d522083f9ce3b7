//! The boundary to `flate2`: inflating a zlib stream.
//!
//! Nothing in this file is proved.

use std::io::Read;
use vstd::prelude::*;

verus! {

#[verifier::external_type_specification]
#[verifier::external_body]
pub struct ExIoError(std::io::Error);

/// What `flate2`'s zlib decoder reads out of `data` up to the end of the
/// stream, or `None` where it reports an error.
pub uninterp spec fn zlib_inflated(data: Seq<u8>) -> Option<Seq<u8>>;

/// `flate2::read::ZlibDecoder` over a byte slice, read to its end: succeeds
/// exactly where the decoder reports no error, with all the bytes it gave.
#[verifier::external_body]
pub(crate) fn inflate(data: &[u8]) -> (r: Result<Vec<u8>, std::io::Error>)
    ensures
        r is Ok == zlib_inflated(data@) is Some,
        r is Ok ==> r->Ok_0@ == zlib_inflated(data@)->0,
{
    let mut out = Vec::new();
    match flate2::read::ZlibDecoder::new(data).read_to_end(&mut out) {
        Ok(_) => Ok(out),
        Err(e) => Err(e),
    }
}

} // verus!
