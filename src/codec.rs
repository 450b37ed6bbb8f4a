use vstd::prelude::*;

verus! {

/// The buffer size handed to the brotli encoder and decoder.
pub const BUFFER_SIZE: usize = 4096;

/// The brotli quality used: the highest.
pub const QUALITY: u32 = 11;

/// The base-2 logarithm of the brotli window size used.
pub const WINDOW_LOG: u32 = 22;

/// The bytes that brotli writes for `data` with the given buffer size,
/// quality and window.
pub uninterp spec fn brotli_compressed(data: Seq<u8>, buffer_size: usize, quality: u32, lgwin: u32) -> Seq<u8>;

/// The bytes that brotli decodes from `data`, or `None` where `data` is not a
/// valid brotli stream.
pub uninterp spec fn brotli_decoded(data: Seq<u8>) -> Option<Seq<u8>>;

/// Relies on brotli::CompressorWriter writing into a `Vec` and handing it back
/// with into_inner: the stream depends on the input and the parameters alone.
/// A failed write is reported with its message.
#[verifier::external_body]
fn brotli_compress(data: &[u8], buffer_size: usize, quality: u32, lgwin: u32) -> (r: Result<Vec<u8>, String>)
    requires
        quality <= 11,
        10 <= lgwin <= 24,
    ensures
        r matches Ok(out) ==> out@ == brotli_compressed(data@, buffer_size, quality, lgwin),
{
    let mut writer = brotli::CompressorWriter::new(Vec::new(), buffer_size, quality, lgwin);
    std::io::Write::write_all(&mut writer, data).map_err(|e| e.to_string())?;
    Ok(writer.into_inner())
}

/// Relies on brotli::Decompressor read to its end: it yields the decoded bytes
/// of a valid stream and an error for any other input, whatever the buffer size.
#[verifier::external_body]
fn brotli_decompress(data: &[u8], buffer_size: usize) -> (r: Result<Vec<u8>, String>)
    ensures
        match r {
            Ok(out) => brotli_decoded(data@) == Some(out@),
            Err(_) => brotli_decoded(data@) is None,
        },
{
    let mut reader = brotli::Decompressor::new(data, buffer_size);
    let mut out = Vec::new();
    std::io::Read::read_to_end(&mut reader, &mut out).map_err(|e| e.to_string())?;
    Ok(out)
}

/// Compresses `data` with brotli at its highest quality.
pub fn compress_data(data: Vec<u8>) -> (r: Result<Vec<u8>, String>)
    ensures
        r matches Ok(out) ==> out@ == brotli_compressed(data@, BUFFER_SIZE, QUALITY, WINDOW_LOG),
{
    brotli_compress(data.as_slice(), BUFFER_SIZE, QUALITY, WINDOW_LOG)
}

/// Decompresses the brotli stream `data`; input that is not such a stream is
/// refused with the decoder's message.
pub fn decompress_data(data: Vec<u8>) -> (r: Result<Vec<u8>, String>)
    ensures
        match r {
            Ok(out) => brotli_decoded(data@) == Some(out@),
            Err(_) => brotli_decoded(data@) is None,
        },
{
    brotli_decompress(data.as_slice(), BUFFER_SIZE)
}

} // verus!
