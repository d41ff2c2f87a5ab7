//! Framing of a PBF stream: each frame is a 4-byte big-endian length, a
//! blob header of that many bytes, then a blob of the size the header
//! declares.

use crate::blobs::BlobHeader;
use byteorder::ByteOrder;
use vstd::prelude::*;

verus! {

/// The big-endian value of four bytes.
pub open spec fn be_u32(b: Seq<u8>) -> int {
    b[0] as int * 0x1000000 + b[1] as int * 0x10000 + b[2] as int * 0x100 + b[3] as int
}

/// Relies on `byteorder::NetworkEndian::read_u32`: the big-endian value of
/// the first four bytes; it panics on fewer.
#[verifier::external_body]
fn read_be_u32(buf: &[u8]) -> (r: u32)
    requires
        buf@.len() >= 4,
    ensures
        r as int == be_u32(buf@),
{
    byteorder::NetworkEndian::read_u32(buf)
}

/// How far the read of a frame's length prefix got.
#[derive(Debug, Clone, Copy, PartialEq, Eq, Structural)]
pub enum PrefixStatus {
    /// No byte: the stream ended cleanly between frames.
    End,
    /// Some bytes but not four: the stream was cut inside a frame.
    Truncated,
    /// All four bytes.
    Complete,
}

/// Classifies a read of a length prefix that got `bytes_read` bytes.
pub fn prefix_status(bytes_read: usize) -> (r: PrefixStatus)
    requires
        bytes_read <= 4,
    ensures
        r == (if bytes_read == 0 {
            PrefixStatus::End
        } else if bytes_read < 4 {
            PrefixStatus::Truncated
        } else {
            PrefixStatus::Complete
        }),
{
    if bytes_read == 0 {
        PrefixStatus::End
    } else if bytes_read < 4 {
        PrefixStatus::Truncated
    } else {
        PrefixStatus::Complete
    }
}

/// The byte length of the blob header that a frame's length prefix
/// announces.
pub fn header_size(prefix: &[u8]) -> (r: u32)
    requires
        prefix@.len() == 4,
    ensures
        r as int == be_u32(prefix@),
{
    read_be_u32(prefix)
}

/// The byte length of the blob that a header declares; `None` where the
/// declared size is negative.
pub fn blob_size(header: &BlobHeader) -> (r: Option<usize>)
    ensures
        header.datasize < 0 ==> r is None,
        header.datasize >= 0 ==> r == Some(header.datasize as usize),
{
    if header.datasize < 0 {
        None
    } else {
        Some(header.datasize as usize)
    }
}

/// A reader of frames from a byte source.
pub struct PbfReader<Source> {
    source: Source,
}

impl<Source> PbfReader<Source> {
    pub closed spec fn source_view(&self) -> Source {
        self.source
    }

    pub fn new(source: Source) -> (r: Self)
        ensures
            r.source_view() == source,
    {
        PbfReader { source }
    }

    /// The byte source, to read the next frame from.
    pub fn source_mut(&mut self) -> (r: &mut Source)
        ensures
            *r == old(self).source_view(),
            final(self).source_view() == *final(r),
    {
        &mut self.source
    }
}

} // verus!
