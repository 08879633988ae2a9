use http_visualizer_app::infra::decompressor::{
    decompress_body, BrotliDecompressor, Decompressor, DeflateDecompressor, GzipDecompressor,
    MultiDecompressor,
};
use std::io::Write;

fn gzip(data: &[u8]) -> Vec<u8> {
    let mut encoder = flate2::write::GzEncoder::new(Vec::new(), flate2::Compression::default());
    encoder.write_all(data).unwrap();
    encoder.finish().unwrap()
}

fn deflate(data: &[u8]) -> Vec<u8> {
    let mut encoder =
        flate2::write::DeflateEncoder::new(Vec::new(), flate2::Compression::default());
    encoder.write_all(data).unwrap();
    encoder.finish().unwrap()
}

fn brotli_compress(data: &[u8]) -> Vec<u8> {
    let mut out = Vec::new();
    {
        let mut writer = brotli::CompressorWriter::new(&mut out, 4096, 5, 22);
        writer.write_all(data).unwrap();
    }
    out
}

#[test]
fn test_gzip_decompression() {
    let original = b"Hello, World!";
    let compressed = gzip(original);

    let decompressor = GzipDecompressor;
    let result = decompressor.decompress(&compressed).unwrap();
    assert_eq!(result.data, original);
}

#[test]
fn test_deflate_decompression() {
    let original = b"Hello, World!";
    let compressed = deflate(original);

    let decompressor = DeflateDecompressor;
    let result = decompressor.decompress(&compressed).unwrap();
    assert_eq!(result.data, original);
}

#[test]
fn test_no_encoding_passthrough() {
    let data = b"Hello, World!";
    let result = decompress_body(data, None).unwrap();
    assert_eq!(result, data);
}

#[test]
fn test_unknown_encoding_passthrough() {
    let data = b"Hello, World!";
    let result = decompress_body(data, Some("unknown")).unwrap();
    assert_eq!(result, data);
}

#[test]
fn gzip_body_round_trips() {
    let compressed = gzip(b"hello");
    assert_ne!(compressed, b"hello".to_vec());
    let result = decompress_body(&compressed, Some("gzip")).unwrap();
    assert_eq!(result, b"hello".to_vec());
}

#[test]
fn deflate_body_round_trips() {
    let compressed = deflate(b"hello hello hello");
    assert_ne!(compressed, b"hello hello hello".to_vec());
    let result = decompress_body(&compressed, Some("deflate")).unwrap();
    assert_eq!(result, b"hello hello hello".to_vec());
}

#[test]
fn brotli_body_round_trips() {
    let original = b"brotli brotli brotli brotli";
    let compressed = brotli_compress(original);
    assert_ne!(compressed, original.to_vec());
    let result = decompress_body(&compressed, Some("br")).unwrap();
    assert_eq!(result, original.to_vec());

    let direct = BrotliDecompressor.decompress(&compressed).unwrap();
    assert_eq!(direct.data, original.to_vec());
    assert_eq!(direct.compressed_size, compressed.len());
    assert_eq!(direct.decompressed_size, original.len());
}

#[test]
fn empty_body_passes_through() {
    let result = decompress_body(b"", None).unwrap();
    assert!(result.is_empty());
    let result = decompress_body(b"", Some("identity")).unwrap();
    assert!(result.is_empty());
}

#[test]
fn encoding_names_are_exact() {
    // Only the exact names select a decoder; anything else is passed through.
    let data = b"not compressed";
    assert_eq!(decompress_body(data, Some("GZIP")).unwrap(), data.to_vec());
    assert_eq!(decompress_body(data, Some("gzip ")).unwrap(), data.to_vec());
    assert_eq!(decompress_body(data, Some("")).unwrap(), data.to_vec());
    assert_eq!(decompress_body(data, Some("x-gzip")).unwrap(), data.to_vec());
}

#[test]
fn broken_gzip_is_reported() {
    let error = decompress_body(b"this is not gzip", Some("gzip")).unwrap_err();
    assert!(error.starts_with("Gzip decompression failed: "));
    assert!(error.len() > "Gzip decompression failed: ".len());
}

#[test]
fn broken_deflate_is_reported() {
    let error = decompress_body(&[0xff, 0xff, 0xff, 0xff], Some("deflate")).unwrap_err();
    assert!(error.starts_with("Deflate decompression failed: "));
}

#[test]
fn broken_brotli_is_reported() {
    let error = decompress_body(&[0xff; 32], Some("br")).unwrap_err();
    assert!(error.starts_with("Brotli decompression failed: "));
}

#[test]
fn decoders_name_their_encoding() {
    assert_eq!(GzipDecompressor.encoding(), "gzip");
    assert_eq!(DeflateDecompressor.encoding(), "deflate");
    assert_eq!(BrotliDecompressor.encoding(), "br");
}

#[test]
fn multi_decompressor_reports_sizes() {
    let decoders = MultiDecompressor::new();
    let compressed = gzip(b"Hello, World!");
    let result = decoders.decompress(&compressed, Some("gzip")).unwrap();
    assert_eq!(result.data, b"Hello, World!".to_vec());
    assert_eq!(result.compressed_size, compressed.len());
    assert_eq!(result.decompressed_size, 13);

    let plain = decoders.decompress(b"abc", None).unwrap();
    assert_eq!(plain.data, b"abc".to_vec());
    assert_eq!(plain.compressed_size, 3);
    assert_eq!(plain.decompressed_size, 3);

    let unknown = MultiDecompressor::default().decompress(b"abc", Some("zstd")).unwrap();
    assert_eq!(unknown.data, b"abc".to_vec());
}
