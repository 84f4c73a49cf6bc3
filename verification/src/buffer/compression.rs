//! Actors for compression algorithms on binary data.

use core::marker::PhantomData;
use vstd::prelude::*;

verus! {

/// An I/O error, as `zstd` reports its failures.
#[verifier::external_type_specification]
#[verifier::external_body]
pub struct ExIoError(std::io::Error);

/// Marker struct for compression.
pub struct Compress;

/// Marker struct for decompression.
pub struct Decompress;

/// An algorithm-agnostic compression actor: `M` says whether it compresses
/// or decompresses, `T` with which algorithm.
pub struct Compression<T, M> {
    pub mode: M,
    pub __algorithm: PhantomData<T>,
}

/// Why a buffer could not be compressed or decompressed.
#[derive(Debug, Clone, Copy, PartialEq, Eq, Structural)]
pub enum CompressionError {
    /// The compressor reported a failure.
    Compress,
    /// The decompressor reported a failure, such as input that is not
    /// compressed data.
    Decompress,
}

/// A general-purpose definition of a compression/decompression algorithm.
pub trait Algorithm {
    /// Compress a given buffer.
    fn compress(buf: Vec<u8>) -> Result<Vec<u8>, CompressionError>;

    /// Decompress a given buffer.
    fn decompress(buf: Vec<u8>) -> Result<Vec<u8>, CompressionError>;
}

/// The zstd frame that `zstd::encode_all` makes of `data` at compression
/// level `level`.
pub uninterp spec fn zstd_frame(data: Seq<u8>, level: i32) -> Seq<u8>;

/// The data that `zstd::decode_all` recovers from `frame`.
pub uninterp spec fn zstd_content(frame: Seq<u8>) -> Seq<u8>;

/// Whether `zstd::decode_all` accepts `frame`: whether it is a sequence of
/// complete zstd frames.
pub uninterp spec fn zstd_decodable(frame: Seq<u8>) -> bool;

/// Compresses `data` into one zstd frame with `zstd::encode_all`.
///
/// It succeeds: compressing from memory into memory fails only when memory
/// runs out, which aborts. The frame is `zstd_frame(data, level)`; decoding
/// accepts it and recovers `data` from it again, as zstd is lossless.
#[verifier::external_body]
fn zstd_encode(data: Vec<u8>, level: i32) -> (res: Result<Vec<u8>, std::io::Error>)
    ensures
        res is Ok,
        res matches Ok(frame) ==> frame@ == zstd_frame(data@, level),
        res matches Ok(frame) ==> zstd_decodable(frame@),
        res matches Ok(frame) ==> zstd_content(frame@) == data@,
{
    zstd::encode_all(std::io::Cursor::new(data), level)
}

/// Decompresses `frame` with `zstd::decode_all`.
///
/// It succeeds exactly on the input that `zstd_decodable` accepts, and then
/// gives `zstd_content(frame)`.
#[verifier::external_body]
fn zstd_decode(frame: Vec<u8>) -> (res: Result<Vec<u8>, std::io::Error>)
    ensures
        res is Ok <==> zstd_decodable(frame@),
        res matches Ok(data) ==> data@ == zstd_content(frame@),
{
    zstd::decode_all(std::io::Cursor::new(frame))
}

/// An [`Algorithm`] provided by zstd.
pub struct Zstd;

/// The compression level that [`Zstd`] uses: zero picks zstd's default.
pub const ZSTD_LEVEL: i32 = 0;

impl Algorithm for Zstd {
    /// Compress `buf` into a zstd frame at the default level; decompressing
    /// the frame gives `buf` back.
    fn compress(buf: Vec<u8>) -> (res: Result<Vec<u8>, CompressionError>)
        ensures
            res is Ok,
            res matches Ok(frame) ==> frame@ == zstd_frame(buf@, ZSTD_LEVEL),
            res matches Ok(frame) ==> zstd_decodable(frame@),
            res matches Ok(frame) ==> zstd_content(frame@) == buf@,
    {
        match zstd_encode(buf, ZSTD_LEVEL) {
            Ok(frame) => Ok(frame),
            Err(_) => Err(CompressionError::Compress),
        }
    }

    /// Decompress the zstd data in `buf`; input that is not zstd data is
    /// refused with [`CompressionError::Decompress`].
    fn decompress(buf: Vec<u8>) -> (res: Result<Vec<u8>, CompressionError>)
        ensures
            res is Ok <==> zstd_decodable(buf@),
            res matches Ok(data) ==> data@ == zstd_content(buf@),
            res matches Err(e) ==> e is Decompress,
    {
        match zstd_decode(buf) {
            Ok(data) => Ok(data),
            Err(_) => Err(CompressionError::Decompress),
        }
    }
}

} // verus!
