//! Parsing of the fixed-offset leading structure of a region.
//!
//! The header is self-describing: beyond a small fixed prefix it locates the
//! session-info range, the variable table and the rotating buffers by byte
//! offsets relative to the start of the region.  All fields are little-endian
//! 32-bit values at the offsets below.
//!
//! ```text
//! offset  0  version
//! offset  4  status (bit 0 = producer connected)
//! offset  8  tick rate, updates per second
//! offset 12  session-info update count
//! offset 16  session-info length
//! offset 20  session-info offset
//! offset 24  variable count
//! offset 28  variable-header offset
//! offset 32  buffer count
//! offset 36  buffer length
//! offset 40  buffer descriptor table, MAX_BUFFERS entries of
//!            { tick, buffer offset }, 8 bytes each
//! ```

use vstd::prelude::*;
use crate::errors::DecodeError;
use crate::region::{le_u32_at, MemoryRegion};

verus! {

/// Most buffer descriptors a header can carry.
pub const MAX_BUFFERS: usize = 4;

/// Size of the fixed header: the fields plus the full descriptor table.
pub const MIN_HEADER_SIZE: usize = 72;

/// One rotating-buffer slot: the tick when the producer last finished
/// writing it, and where its bytes start in the region.
#[derive(Debug, Clone, Copy, PartialEq, Eq, Structural)]
pub struct BufferDescriptor {
    pub tick: u32,
    pub buffer_offset: u32,
}

/// The parsed leading structure of a region.
pub struct Header {
    pub version: u32,
    pub status: u32,
    pub tick_rate: u32,
    pub session_info_update_count: u32,
    pub session_info_length: u32,
    pub session_info_offset: u32,
    pub variable_count: u32,
    pub variable_header_offset: u32,
    pub buffer_count: u32,
    pub buffer_length: u32,
    pub buffers: Vec<BufferDescriptor>,
}

/// The descriptor the header's table declares at index `i`.
pub open spec fn spec_buffer_at(b: Seq<u8>, i: int) -> BufferDescriptor {
    BufferDescriptor {
        tick: le_u32_at(b, 40 + 8 * i) as u32,
        buffer_offset: le_u32_at(b, 44 + 8 * i) as u32,
    }
}

/// What each header field must equal, given the region bytes `b`.
pub open spec fn header_matches(h: Header, b: Seq<u8>) -> bool {
    &&& h.version == le_u32_at(b, 0)
    &&& h.status == le_u32_at(b, 4)
    &&& h.tick_rate == le_u32_at(b, 8)
    &&& h.session_info_update_count == le_u32_at(b, 12)
    &&& h.session_info_length == le_u32_at(b, 16)
    &&& h.session_info_offset == le_u32_at(b, 20)
    &&& h.variable_count == le_u32_at(b, 24)
    &&& h.variable_header_offset == le_u32_at(b, 28)
    &&& h.buffer_count == le_u32_at(b, 32)
    &&& h.buffer_length == le_u32_at(b, 36)
    &&& h.buffers@.len() == MAX_BUFFERS
    &&& forall|i: int| 0 <= i < MAX_BUFFERS ==> h.buffers@[i] == spec_buffer_at(b, i)
}

impl Header {
    /// Bit 0 of `status`: whether the producer reports itself connected.
    pub open spec fn spec_is_connected(&self) -> bool {
        self.status % 2 == 1
    }

    /// Report whether the producer is connected, per the header's status bit.
    pub fn is_connected(&self) -> (r: bool)
        ensures
            r == self.spec_is_connected(),
    {
        self.status % 2 == 1
    }

    /// Parse the header of `region`.
    ///
    /// Rereads the bytes on every call: a live producer updates status and
    /// buffer ticks asynchronously, so no field of a previous parse may be
    /// reused.  Fails only when the region is closed or smaller than the
    /// fixed header size.
    pub fn parse(region: &MemoryRegion) -> (r: Result<Header, DecodeError>)
        ensures
            !region.is_open() ==> r == Err::<Header, DecodeError>(DecodeError::ClosedRegion),
            region.is_open() && region.bytes().len() < MIN_HEADER_SIZE ==> r == Err::<
                Header,
                DecodeError,
            >(DecodeError::MalformedRegion),
            region.is_open() && region.bytes().len() >= MIN_HEADER_SIZE ==> r is Ok
                && header_matches(r->Ok_0, region.bytes()),
    {
        if !region.check_open() {
            return Err(DecodeError::ClosedRegion);
        }
        if region.len() < MIN_HEADER_SIZE {
            return Err(DecodeError::MalformedRegion);
        }
        let mut buffers: Vec<BufferDescriptor> = Vec::new();
        let mut i: usize = 0;
        while i < MAX_BUFFERS
            invariant
                i <= MAX_BUFFERS,
                region.bytes().len() >= MIN_HEADER_SIZE,
                buffers@.len() == i,
                forall|j: int| 0 <= j < i ==> buffers@[j] == spec_buffer_at(region.bytes(), j),
            decreases MAX_BUFFERS - i,
        {
            let tick = region.read_u32_le(40 + 8 * i);
            let buffer_offset = region.read_u32_le(44 + 8 * i);
            buffers.push(BufferDescriptor { tick, buffer_offset });
            i = i + 1;
        }
        Ok(Header {
            version: region.read_u32_le(0),
            status: region.read_u32_le(4),
            tick_rate: region.read_u32_le(8),
            session_info_update_count: region.read_u32_le(12),
            session_info_length: region.read_u32_le(16),
            session_info_offset: region.read_u32_le(20),
            variable_count: region.read_u32_le(24),
            variable_header_offset: region.read_u32_le(28),
            buffer_count: region.read_u32_le(32),
            buffer_length: region.read_u32_le(36),
            buffers,
        })
    }
}

} // verus!
