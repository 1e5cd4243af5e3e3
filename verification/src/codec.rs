//! The encodings that sync data travels in: Base64 for credentials, gzip for book contents.
use std::io::{Read, Write};

use vstd::prelude::*;

verus! {

/// The character of a six-bit group in the standard Base64 alphabet.
pub open spec fn base64_char(d: int) -> char {
    if d < 26 {
        ('A' as int + d) as char
    } else if d < 52 {
        ('a' as int + d - 26) as char
    } else if d < 62 {
        ('0' as int + d - 52) as char
    } else if d == 62 {
        '+'
    } else {
        '/'
    }
}

/// The four characters for three bytes.
pub open spec fn base64_group(a: u8, b: u8, c: u8) -> Seq<char> {
    seq![
        base64_char(a as int / 4),
        base64_char(a as int % 4 * 16 + b as int / 16),
        base64_char(b as int % 16 * 4 + c as int / 64),
        base64_char(c as int % 64),
    ]
}

/// Bytes in standard Base64: three bytes to a group of four characters, the last group padded.
pub open spec fn base64_text(bytes: Seq<u8>) -> Seq<char>
    decreases bytes.len(),
{
    if bytes.len() == 0 {
        Seq::empty()
    } else if bytes.len() == 1 {
        base64_group(bytes[0], 0, 0).take(2) + seq!['=', '=']
    } else if bytes.len() == 2 {
        base64_group(bytes[0], bytes[1], 0).take(3) + seq!['=']
    } else {
        base64_group(bytes[0], bytes[1], bytes[2]) + base64_text(bytes.skip(3))
    }
}

/// `base64::Engine::encode` with the engine `general_purpose::STANDARD`: the standard alphabet,
/// padded.
#[verifier::external_body]
pub(crate) fn base64_encode(bytes: &[u8]) -> (text: String)
    ensures
        text@ == base64_text(bytes@),
{
    base64::Engine::encode(&base64::engine::general_purpose::STANDARD, bytes)
}

/// The gzip file that the default compression level makes of some bytes, or why there is none.
pub uninterp spec fn gzip_encoding(data: Seq<u8>) -> Result<Seq<u8>, Seq<char>>;

/// What the first member of a gzip file holds, or why it cannot be read.
pub uninterp spec fn gzip_decoding(file: Seq<u8>) -> Result<Seq<u8>, Seq<char>>;

/// Whether `bytes` begin as a gzip file does.
pub open spec fn has_gzip_magic(bytes: Seq<u8>) -> bool {
    bytes.len() >= 2 && bytes[0] == 0x1f && bytes[1] == 0x8b
}

/// `flate2::write::GzEncoder` at `flate2::Compression::default()`: the file begins with the
/// gzip magic number, and decoding it gives the bytes back.
#[verifier::external_body]
pub(crate) fn gzip_compress(data: &[u8]) -> (file: Result<Vec<u8>, String>)
    ensures
        crate::reply::bytes_outcome(file) == gzip_encoding(data@),
        file matches Ok(file) ==> has_gzip_magic(file@) && (gzip_decoding(file@) matches Ok(back)
            && back == data@),
{
    let mut encoder = flate2::write::GzEncoder::new(Vec::new(), flate2::Compression::default());
    encoder.write_all(data).map_err(|e| e.to_string())?;
    encoder.finish().map_err(|e| e.to_string())
}

/// `flate2::read::GzDecoder`, read to its end.
#[verifier::external_body]
pub(crate) fn gzip_decompress(file: &[u8]) -> (data: Result<Vec<u8>, String>)
    ensures
        crate::reply::bytes_outcome(data) == gzip_decoding(file@),
{
    let mut data = Vec::new();
    flate2::read::GzDecoder::new(file).read_to_end(&mut data).map_err(|e| e.to_string())?;
    Ok(data)
}

} // verus!
