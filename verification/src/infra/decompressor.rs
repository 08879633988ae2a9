//! Decompression of response bodies by content encoding.
//!
//! The decoders themselves are those of `flate2` and `brotli`. This module
//! chooses among them, says which bytes go in, and shapes what comes out.

use std::io::Read;
use vstd::prelude::*;
use vstd::slice::*;
use vstd::string::*;

verus! {

/// What `flate2::read::GzDecoder` reads out of a gzip stream: the bytes it
/// holds, or the text of the decoder's error.
pub uninterp spec fn gzip_inflated(data: Seq<u8>) -> Result<Seq<u8>, Seq<char>>;

/// What `flate2::read::DeflateDecoder` reads out of a raw deflate stream: the
/// bytes it holds, or the text of the decoder's error.
pub uninterp spec fn deflate_inflated(data: Seq<u8>) -> Result<Seq<u8>, Seq<char>>;

/// What `brotli::BrotliDecompress` writes for a brotli stream: the bytes it
/// holds, or the text of the decoder's error.
pub uninterp spec fn brotli_decoded(data: Seq<u8>) -> Result<Seq<u8>, Seq<char>>;

/// The exec result `r` stands for the outcome `model`.
pub open spec fn stands_for(r: Result<Vec<u8>, String>, model: Result<Seq<u8>, Seq<char>>) -> bool {
    match r {
        Ok(bytes) => model == Ok::<Seq<u8>, Seq<char>>(bytes@),
        Err(e) => model == Err::<Seq<u8>, Seq<char>>(e@),
    }
}

/// Runs `flate2::read::GzDecoder` over `data` to the end of its stream.
/// Trusted: the result is `gzip_inflated` of the bytes, the error being the
/// decoder's own message.
#[verifier::external_body]
fn gzip_inflate(data: &[u8]) -> (r: Result<Vec<u8>, String>)
    ensures
        stands_for(r, gzip_inflated(data@)),
{
    let mut decoder = flate2::read::GzDecoder::new(data);
    let mut out = Vec::new();
    match decoder.read_to_end(&mut out) {
        Ok(_) => Ok(out),
        Err(e) => Err(e.to_string()),
    }
}

/// Runs `flate2::read::DeflateDecoder` over `data` to the end of its stream.
/// Trusted: the result is `deflate_inflated` of the bytes, the error being
/// the decoder's own message.
#[verifier::external_body]
fn deflate_inflate(data: &[u8]) -> (r: Result<Vec<u8>, String>)
    ensures
        stands_for(r, deflate_inflated(data@)),
{
    let mut decoder = flate2::read::DeflateDecoder::new(data);
    let mut out = Vec::new();
    match decoder.read_to_end(&mut out) {
        Ok(_) => Ok(out),
        Err(e) => Err(e.to_string()),
    }
}

/// Runs `brotli::BrotliDecompress` from `data` into a fresh buffer.
/// Trusted: the result is `brotli_decoded` of the bytes, the error being the
/// decoder's own message.
#[verifier::external_body]
fn brotli_decode(data: &[u8]) -> (r: Result<Vec<u8>, String>)
    ensures
        stands_for(r, brotli_decoded(data@)),
{
    let mut out = Vec::new();
    match brotli::BrotliDecompress(&mut std::io::Cursor::new(data), &mut out) {
        Ok(_) => Ok(out),
        Err(e) => Err(e.to_string()),
    }
}

/// The outcome of a decoder as it is reported: the bytes, or the decoder's
/// message behind `prefix`.
pub open spec fn reported(prefix: Seq<char>, outcome: Result<Seq<u8>, Seq<char>>) -> Result<
    Seq<u8>,
    Seq<char>,
> {
    match outcome {
        Ok(bytes) => Ok(bytes),
        Err(e) => Err(prefix + e),
    }
}

/// What decompression under `encoding` gives for `data`: `gzip`, `deflate`
/// and `br` name their decoders; under any other encoding, or none, the
/// bytes stay as they are.
pub open spec fn decompressed(data: Seq<u8>, encoding: Option<Seq<char>>) -> Result<
    Seq<u8>,
    Seq<char>,
> {
    match encoding {
        Some(name) => if name == "gzip"@ {
            reported("Gzip decompression failed: "@, gzip_inflated(data))
        } else if name == "deflate"@ {
            reported("Deflate decompression failed: "@, deflate_inflated(data))
        } else if name == "br"@ {
            reported("Brotli decompression failed: "@, brotli_decoded(data))
        } else {
            Ok(data)
        },
        None => Ok(data),
    }
}

/// The view of an optional text.
pub open spec fn text_view(s: Option<&str>) -> Option<Seq<char>> {
    match s {
        Some(t) => Some(t@),
        None => None,
    }
}

/// Decompressed bytes with the sizes before and after.
#[derive(Debug)]
pub struct DecompressResult {
    /// The decompressed data.
    pub data: Vec<u8>,
    /// The size of the compressed input.
    pub compressed_size: usize,
    /// The size of the decompressed data.
    pub decompressed_size: usize,
}

/// The exec result `r` reports `outcome` for an input of `compressed_size`
/// bytes.
pub open spec fn reports(
    r: Result<DecompressResult, String>,
    compressed_size: nat,
    outcome: Result<Seq<u8>, Seq<char>>,
) -> bool {
    match r {
        Ok(done) => {
            &&& outcome == Ok::<Seq<u8>, Seq<char>>(done.data@)
            &&& done.compressed_size == compressed_size
            &&& done.decompressed_size == done.data@.len()
        },
        Err(e) => outcome == Err::<Seq<u8>, Seq<char>>(e@),
    }
}

/// Shapes what a decoder returned for an input of `compressed_size` bytes:
/// the bytes with both sizes, or the decoder's message behind `prefix`.
pub fn finish(prefix: &str, compressed_size: usize, outcome: Result<Vec<u8>, String>) -> (r: Result<
    DecompressResult,
    String,
>)
    ensures
        match outcome {
            Ok(bytes) => r matches Ok(done) && done.data == bytes && done.compressed_size
                == compressed_size && done.decompressed_size == bytes@.len(),
            Err(e) => r matches Err(message) && message@ == prefix@ + e@,
        },
{
    match outcome {
        Ok(bytes) => Ok(
            DecompressResult { decompressed_size: bytes.len(), data: bytes, compressed_size },
        ),
        Err(e) => {
            let mut message = String::from_str(prefix);
            message.append(e.as_str());
            Err(message)
        },
    }
}

/// A decoder of one content encoding.
pub trait Decompressor: Send + Sync {
    /// The name of the encoding.
    spec fn label(&self) -> Seq<char>;

    /// What decoding gives for `data`.
    spec fn decoded(&self, data: Seq<u8>) -> Result<Seq<u8>, Seq<char>>;

    /// The content encoding which this decoder handles.
    fn encoding(&self) -> (name: &'static str)
        ensures
            name@ == self.label(),
    ;

    /// Decompresses `data`.
    fn decompress(&self, data: &[u8]) -> (r: Result<DecompressResult, String>)
        ensures
            reports(r, data@.len(), self.decoded(data@)),
    ;
}

/// The decoder of `gzip`.
#[derive(Default)]
pub struct GzipDecompressor;

impl Decompressor for GzipDecompressor {
    open spec fn label(&self) -> Seq<char> {
        "gzip"@
    }

    open spec fn decoded(&self, data: Seq<u8>) -> Result<Seq<u8>, Seq<char>> {
        reported("Gzip decompression failed: "@, gzip_inflated(data))
    }

    fn encoding(&self) -> (name: &'static str) {
        "gzip"
    }

    fn decompress(&self, data: &[u8]) -> (r: Result<DecompressResult, String>) {
        finish("Gzip decompression failed: ", data.len(), gzip_inflate(data))
    }
}

/// The decoder of `deflate`: a raw deflate stream, without a zlib header.
#[derive(Default)]
pub struct DeflateDecompressor;

impl Decompressor for DeflateDecompressor {
    open spec fn label(&self) -> Seq<char> {
        "deflate"@
    }

    open spec fn decoded(&self, data: Seq<u8>) -> Result<Seq<u8>, Seq<char>> {
        reported("Deflate decompression failed: "@, deflate_inflated(data))
    }

    fn encoding(&self) -> (name: &'static str) {
        "deflate"
    }

    fn decompress(&self, data: &[u8]) -> (r: Result<DecompressResult, String>) {
        finish("Deflate decompression failed: ", data.len(), deflate_inflate(data))
    }
}

/// The decoder of `br`.
#[derive(Default)]
pub struct BrotliDecompressor;

impl Decompressor for BrotliDecompressor {
    open spec fn label(&self) -> Seq<char> {
        "br"@
    }

    open spec fn decoded(&self, data: Seq<u8>) -> Result<Seq<u8>, Seq<char>> {
        reported("Brotli decompression failed: "@, brotli_decoded(data))
    }

    fn encoding(&self) -> (name: &'static str) {
        "br"
    }

    fn decompress(&self, data: &[u8]) -> (r: Result<DecompressResult, String>) {
        finish("Brotli decompression failed: ", data.len(), brotli_decode(data))
    }
}

/// The decoders of all encodings, chosen among by name.
pub struct MultiDecompressor {
    gzip: GzipDecompressor,
    deflate: DeflateDecompressor,
    brotli: BrotliDecompressor,
}

impl MultiDecompressor {
    /// The decoders of `gzip`, `deflate` and `br`.
    pub fn new() -> (decoders: Self) {
        MultiDecompressor {
            gzip: GzipDecompressor,
            deflate: DeflateDecompressor,
            brotli: BrotliDecompressor,
        }
    }

    /// Decompresses `data` as `encoding` says. Under an encoding other than
    /// `gzip`, `deflate` and `br`, or none, the data come back as they are.
    pub fn decompress(&self, data: &[u8], encoding: Option<&str>) -> (r: Result<
        DecompressResult,
        String,
    >)
        ensures
            reports(r, data@.len(), decompressed(data@, text_view(encoding))),
    {
        match encoding {
            Some(name) => {
                if crate::shared::text::same_text(name, "gzip") {
                    self.gzip.decompress(data)
                } else if crate::shared::text::same_text(name, "deflate") {
                    self.deflate.decompress(data)
                } else if crate::shared::text::same_text(name, "br") {
                    self.brotli.decompress(data)
                } else {
                    Ok(
                        DecompressResult {
                            compressed_size: data.len(),
                            decompressed_size: data.len(),
                            data: slice_to_vec(data),
                        },
                    )
                }
            },
            None => Ok(
                DecompressResult {
                    compressed_size: data.len(),
                    decompressed_size: data.len(),
                    data: slice_to_vec(data),
                },
            ),
        }
    }
}

impl Default for MultiDecompressor {
    fn default() -> (decoders: Self) {
        MultiDecompressor::new()
    }
}

/// Decompresses a body as its content encoding says. Under an encoding
/// other than `gzip`, `deflate` and `br`, or none, the body comes back as it
/// is.
pub fn decompress_body(body: &[u8], encoding: Option<&str>) -> (r: Result<Vec<u8>, String>)
    ensures
        stands_for(r, decompressed(body@, text_view(encoding))),
{
    match MultiDecompressor::new().decompress(body, encoding) {
        Ok(done) => Ok(done.data),
        Err(e) => Err(e),
    }
}

/// Without a content encoding, and under one that names no decoder, the
/// bytes come back as they are.
pub proof fn lemma_passthrough(data: Seq<u8>, encoding: Option<Seq<char>>)
    requires
        encoding matches Some(name) ==> name != "gzip"@ && name != "deflate"@ && name != "br"@,
    ensures
        decompressed(data, encoding) == Ok::<Seq<u8>, Seq<char>>(data),
{
}

} // verus!
