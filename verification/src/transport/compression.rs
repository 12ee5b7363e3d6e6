//! The compression codec: DEFLATE in gzip framing, with no state between
//! calls.

use flate2::read::GzDecoder;
use flate2::write::GzEncoder;
use flate2::Compression;
use std::io::{Read, Write};
use vstd::prelude::*;

verus! {

/// The gzip stream that the encoder writes for `data` at its default level.
pub uninterp spec fn gzip_stream(data: Seq<u8>) -> Seq<u8>;

/// The bytes that the decoder reads out of a gzip stream; `None` where the
/// input is no well-formed stream.
pub uninterp spec fn gunzip(stream: Seq<u8>) -> Option<Seq<u8>>;

/// `GzEncoder::new` on an empty vector at `Compression::default()`,
/// `write_all` of the data, `finish`. The header holds no time and no
/// operating system, so the stream depends on the data alone; `GzDecoder`
/// reads the data back out of it. Writing to a vector does not fail.
#[verifier::external_body]
fn gz_encode(data: &[u8]) -> (stream: Vec<u8>)
    ensures
        stream@ == gzip_stream(data@),
        gunzip(stream@) == Some(data@),
{
    let mut encoder = GzEncoder::new(Vec::new(), Compression::default());
    encoder.write_all(data).expect("a vector takes every write");
    encoder.finish().expect("a vector takes every write")
}

/// `GzDecoder::new` on the input and `read_to_end`. An error of the decoder
/// (a bad header, corrupt data, a wrong checksum) becomes `None`.
#[verifier::external_body]
fn gz_decode(stream: &[u8]) -> (data: Option<Vec<u8>>)
    ensures
        match data {
            Some(d) => gunzip(stream@) == Some(d@),
            None => gunzip(stream@) is None,
        },
{
    let mut decoder = GzDecoder::new(stream);
    let mut data = Vec::new();
    decoder.read_to_end(&mut data).ok()?;
    Some(data)
}

/// Compresses `data` into a gzip stream.
pub fn compress(data: &[u8]) -> (stream: Vec<u8>)
    ensures
        stream@ == gzip_stream(data@),
        gunzip(stream@) == Some(data@),
{
    gz_encode(data)
}

/// Decompresses a gzip stream; `None` where the input is not one.
pub fn decompress(data: &[u8]) -> (plain: Option<Vec<u8>>)
    ensures
        match plain {
            Some(d) => gunzip(data@) == Some(d@),
            None => gunzip(data@) is None,
        },
{
    gz_decode(data)
}

} // verus!
