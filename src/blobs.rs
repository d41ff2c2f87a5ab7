//! Blobs of a PBF stream: their payload variants and the decompression
//! dispatch that turns a blob into the bytes of the block it carries.

use std::io::Read;
use vstd::prelude::*;

verus! {

/// The bytes that a zlib stream decompresses to; `None` where the stream is malformed or cut short.
pub uninterp spec fn zlib_inflated(data: Seq<u8>) -> Option<Seq<u8>>;

/// The bytes that an LZ4 frame decompresses to; `None` where the frame is malformed or cut short.
pub uninterp spec fn lz4_decoded(data: Seq<u8>) -> Option<Seq<u8>>;

/// The bytes that a raw LZMA2 stream decompresses to; `None` where the stream is malformed.
pub uninterp spec fn lzma2_decoded(data: Seq<u8>) -> Option<Seq<u8>>;

/// The bytes that a sequence of zstd frames decompresses to; `None` where the input is malformed.
pub uninterp spec fn zstd_decoded(data: Seq<u8>) -> Option<Seq<u8>>;

/// Relies on `flate2::read::ZlibDecoder`: reading it to the end yields the
/// decompressed stream, or an error on a malformed or cut one; which, depends
/// on the bytes alone.
#[verifier::external_body]
fn inflate_zlib(data: &[u8]) -> (r: Option<Vec<u8>>)
    ensures
        r is Some == zlib_inflated(data@) is Some,
        r matches Some(v) ==> v@ == zlib_inflated(data@)->0,
{
    let mut out = Vec::new();
    match flate2::read::ZlibDecoder::new(data).read_to_end(&mut out) {
        Ok(_) => Some(out),
        Err(_) => None,
    }
}

/// Relies on `lz4::Decoder`: reading it to the end yields the decompressed
/// frame, or an error on a malformed one; `finish` then fails where the
/// input ended before the frame did. The outcome depends on the bytes alone.
#[verifier::external_body]
fn decode_lz4(data: &[u8]) -> (r: Option<Vec<u8>>)
    ensures
        r is Some == lz4_decoded(data@) is Some,
        r matches Some(v) ==> v@ == lz4_decoded(data@)->0,
{
    let mut out = Vec::new();
    match lz4::Decoder::new(data) {
        Ok(mut decoder) => match decoder.read_to_end(&mut out) {
            Ok(_) => match decoder.finish().1 {
                Ok(()) => Some(out),
                Err(_) => None,
            },
            Err(_) => None,
        },
        Err(_) => None,
    }
}

/// Relies on `lzma_rs::lzma2_decompress`: it writes the decompressed raw
/// LZMA2 stream to the output, or fails on a malformed one; which, depends
/// on the bytes alone.
#[verifier::external_body]
fn decode_lzma2(data: &[u8]) -> (r: Option<Vec<u8>>)
    ensures
        r is Some == lzma2_decoded(data@) is Some,
        r matches Some(v) ==> v@ == lzma2_decoded(data@)->0,
{
    let mut out = Vec::new();
    let mut input = data;
    match lzma_rs::lzma2_decompress(&mut input, &mut out) {
        Ok(()) => Some(out),
        Err(_) => None,
    }
}

/// Relies on `zstd::stream::decode_all`: it returns the decompressed frames,
/// or an error on malformed input; which, depends on the bytes alone.
#[verifier::external_body]
fn decode_zstd(data: &[u8]) -> (r: Option<Vec<u8>>)
    ensures
        r is Some == zstd_decoded(data@) is Some,
        r matches Some(v) ==> v@ == zstd_decoded(data@)->0,
{
    zstd::stream::decode_all(data).ok()
}

/// The compressed payload variants of a blob.
#[derive(Debug, Clone, Copy, PartialEq, Eq, Structural)]
pub enum Codec {
    Zlib,
    Lz4,
    Lzma,
    Zstd,
}

/// What `data` decompresses to under `codec`; `None` where it does not
/// decompress.
pub open spec fn decompressed(codec: Codec, data: Seq<u8>) -> Option<Seq<u8>> {
    match codec {
        Codec::Zlib => zlib_inflated(data),
        Codec::Lz4 => lz4_decoded(data),
        Codec::Lzma => lzma2_decoded(data),
        Codec::Zstd => zstd_decoded(data),
    }
}

/// The payload of a blob: exactly one variant is populated.
#[derive(Debug, Clone)]
pub enum BlobPayload {
    Raw(Vec<u8>),
    Zlib(Vec<u8>),
    Lzma(Vec<u8>),
    Bzip2(Vec<u8>),
    Lz4(Vec<u8>),
    Zstd(Vec<u8>),
}

/// The codec of a compressed payload variant that this library reads.
pub open spec fn codec_of(p: BlobPayload) -> Option<Codec> {
    match p {
        BlobPayload::Zlib(_) => Some(Codec::Zlib),
        BlobPayload::Lz4(_) => Some(Codec::Lz4),
        BlobPayload::Lzma(_) => Some(Codec::Lzma),
        BlobPayload::Zstd(_) => Some(Codec::Zstd),
        _ => None,
    }
}

/// The bytes that a payload variant holds.
pub open spec fn payload_bytes(p: BlobPayload) -> Seq<u8> {
    match p {
        BlobPayload::Raw(d) => d@,
        BlobPayload::Zlib(d) => d@,
        BlobPayload::Lzma(d) => d@,
        BlobPayload::Bzip2(d) => d@,
        BlobPayload::Lz4(d) => d@,
        BlobPayload::Zstd(d) => d@,
    }
}

/// A blob: its payload and, for a compressed payload, the declared size of
/// the uncompressed bytes.
#[derive(Debug, Clone)]
pub struct Blob {
    pub raw_size: Option<i32>,
    pub data: Option<BlobPayload>,
}

/// The header in front of each blob: the type of the block it carries and
/// the byte length of the blob.
#[derive(Debug, Clone)]
pub struct BlobHeader {
    pub blob_type: String,
    pub datasize: i32,
}

/// A blob together with its header.
#[derive(Debug, Clone)]
pub struct BlobData {
    pub header: BlobHeader,
    pub blob: Blob,
}

impl BlobData {
    pub fn new(header: BlobHeader, blob: Blob) -> (r: Self)
        ensures
            r.header == header,
            r.blob == blob,
    {
        BlobData { header, blob }
    }
}

/// Why a blob could not be turned into a block.
#[derive(Debug, Clone, Copy, PartialEq, Eq, Structural)]
pub enum DecodeError {
    /// No payload variant, or one that this library does not read.
    UnsupportedCompression,
    /// A compressed payload without its declared uncompressed size.
    MissingRawSize,
    /// A declared uncompressed size below zero.
    InvalidRawSize,
    /// The compressed payload is malformed.
    Decompression,
    /// The payload decompressed to another length than declared.
    SizeMismatch,
    /// The header names a block type other than `OSMHeader` and `OSMData`.
    InvalidBlobType,
    /// A block's elements break the encoding rules.
    MalformedBlock,
}

/// Checks the outcome of a decompression against the declared size: the
/// bytes are accepted exactly when the decoder succeeded and produced
/// `raw_size` bytes.
pub fn check_decompressed(out: Option<Vec<u8>>, raw_size: usize) -> (r: Result<Vec<u8>, DecodeError>)
    ensures
        match out {
            None => r == Err::<Vec<u8>, DecodeError>(DecodeError::Decompression),
            Some(v) => if v@.len() == raw_size {
                r matches Ok(w) && w@ == v@
            } else {
                r == Err::<Vec<u8>, DecodeError>(DecodeError::SizeMismatch)
            },
        },
{
    match out {
        None => Err(DecodeError::Decompression),
        Some(v) => {
            if v.len() == raw_size {
                Ok(v)
            } else {
                Err(DecodeError::SizeMismatch)
            }
        },
    }
}

/// Decompresses `data` under `codec`.
pub fn decompress(codec: Codec, data: &[u8]) -> (r: Option<Vec<u8>>)
    ensures
        r is Some == decompressed(codec, data@) is Some,
        r matches Some(v) ==> v@ == decompressed(codec, data@)->0,
{
    match codec {
        Codec::Zlib => inflate_zlib(data),
        Codec::Lz4 => decode_lz4(data),
        Codec::Lzma => decode_lzma2(data),
        Codec::Zstd => decode_zstd(data),
    }
}

/// The error that a blob gives whatever its payload holds: no payload or
/// the obsolete bzip2 variant, or a compressed payload without a declared
/// size of zero or more.
pub open spec fn blob_error(b: Blob) -> Option<DecodeError> {
    match b.data {
        None => Some(DecodeError::UnsupportedCompression),
        Some(BlobPayload::Raw(_)) => None,
        Some(BlobPayload::Bzip2(_)) => Some(DecodeError::UnsupportedCompression),
        Some(_) => match b.raw_size {
            None => Some(DecodeError::MissingRawSize),
            Some(n) => if n < 0 {
                Some(DecodeError::InvalidRawSize)
            } else {
                None
            },
        },
    }
}

/// What a blob yields: its raw bytes; or, for a compressed payload that
/// `blob_error` accepts, the decompressed bytes where they are exactly the
/// declared size, else the decompression or size error.
pub open spec fn blob_outcome(b: Blob) -> Result<Seq<u8>, DecodeError> {
    match blob_error(b) {
        Some(e) => Err(e),
        None => match b.data {
            Some(BlobPayload::Raw(d)) => Ok(d@),
            Some(p) => match decompressed(codec_of(p)->0, payload_bytes(p)) {
                None => Err(DecodeError::Decompression),
                Some(c) => if c.len() == b.raw_size->0 {
                    Ok(c)
                } else {
                    Err(DecodeError::SizeMismatch)
                },
            },
            None => Err(DecodeError::UnsupportedCompression),
        },
    }
}

/// Returns the uncompressed payload of a blob.
///
/// A raw payload is returned as it is. A compressed one needs a declared
/// size of zero or more, and is accepted exactly where it decompresses to
/// that many bytes. No payload, or the obsolete bzip2 variant, is an
/// unsupported compression.
pub fn get_blob_data(blob: &Blob) -> (r: Result<Vec<u8>, DecodeError>)
    ensures
        match blob_outcome(*blob) {
            Ok(c) => r matches Ok(v) && v@ == c,
            Err(e) => r == Err::<Vec<u8>, DecodeError>(e),
        },
{
    let (codec, data) = match &blob.data {
        None => {
            return Err(DecodeError::UnsupportedCompression);
        },
        Some(BlobPayload::Raw(d)) => {
            return Ok(d.clone());
        },
        Some(BlobPayload::Bzip2(_)) => {
            return Err(DecodeError::UnsupportedCompression);
        },
        Some(BlobPayload::Zlib(d)) => (Codec::Zlib, d),
        Some(BlobPayload::Lz4(d)) => (Codec::Lz4, d),
        Some(BlobPayload::Lzma(d)) => (Codec::Lzma, d),
        Some(BlobPayload::Zstd(d)) => (Codec::Zstd, d),
    };
    let raw_size = match blob.raw_size {
        None => {
            return Err(DecodeError::MissingRawSize);
        },
        Some(n) => n,
    };
    if raw_size < 0 {
        return Err(DecodeError::InvalidRawSize);
    }
    let out = decompress(codec, data.as_slice());
    check_decompressed(out, raw_size as usize)
}

/// The kind of block that a blob carries, by its header's type tag.
#[derive(Debug, Clone, Copy, PartialEq, Eq, Structural)]
pub enum BlockKind {
    Header,
    Primitive,
}

/// The block kind named by a type tag: `OSMHeader` or `OSMData`.
pub open spec fn kind_of_tag(tag: Seq<char>) -> Option<BlockKind> {
    if tag == "OSMHeader"@ {
        Some(BlockKind::Header)
    } else if tag == "OSMData"@ {
        Some(BlockKind::Primitive)
    } else {
        None
    }
}

/// Reads a header's type tag.
pub fn block_kind(tag: &String) -> (r: Option<BlockKind>)
    ensures
        r == kind_of_tag(tag@),
{
    let header = "OSMHeader".to_owned();
    let data = "OSMData".to_owned();
    if *tag == header {
        Some(BlockKind::Header)
    } else if *tag == data {
        Some(BlockKind::Primitive)
    } else {
        None
    }
}

/// The uncompressed bytes of a block, by its kind. The bytes hold the
/// encoded block message that the caller decodes.
#[derive(Debug, Clone)]
pub enum OsmData {
    Header(Vec<u8>),
    Primitive(Vec<u8>),
}

/// The kind and bytes of an `OsmData`.
pub open spec fn osm_data_view(x: OsmData) -> (BlockKind, Seq<u8>) {
    match x {
        OsmData::Header(v) => (BlockKind::Header, v@),
        OsmData::Primitive(v) => (BlockKind::Primitive, v@),
    }
}

/// Decompresses a blob and tags its bytes with the block kind that its
/// header names. Decompression errors come first; then a type tag other
/// than `OSMHeader` and `OSMData` is an error.
pub fn read_osm_data(data: &BlobData) -> (r: Result<OsmData, DecodeError>)
    ensures
        match blob_outcome(data.blob) {
            Err(e) => r == Err::<OsmData, DecodeError>(e),
            Ok(c) => match kind_of_tag(data.header.blob_type@) {
                Some(k) => (r matches Ok(x) && osm_data_view(x) == (k, c)),
                None => r == Err::<OsmData, DecodeError>(DecodeError::InvalidBlobType),
            },
        },
{
    let buffer = match get_blob_data(&data.blob) {
        Ok(b) => b,
        Err(e) => {
            return Err(e);
        },
    };
    match block_kind(&data.header.blob_type) {
        Some(BlockKind::Header) => Ok(OsmData::Header(buffer)),
        Some(BlockKind::Primitive) => Ok(OsmData::Primitive(buffer)),
        None => Err(DecodeError::InvalidBlobType),
    }
}

} // verus!
