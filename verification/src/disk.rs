//! Decoding of a recorded, file-backed region.
//!
//! A recording's leading bytes are layout-compatible with the live header;
//! after the fixed header comes a sub-header describing the recorded-sample
//! layout.  Samples are sequential, fixed-stride records: no buffer
//! rotation happens and no waiting is needed, the file is immutable once
//! opened.
//!
//! Sub-header fields, little-endian 32-bit each, right after the fixed
//! header:
//!
//! ```text
//! offset 72  session-info offset (may duplicate or extend the header's)
//! offset 76  session-info length
//! offset 80  recorded-sample count
//! offset 84  offset of the first recorded sample
//! offset 88  stride in bytes between consecutive samples
//! ```

use vstd::prelude::*;
use crate::errors::DecodeError;
use crate::catalog::{table_valid, VariableCatalog};
use crate::header::{header_matches, Header};
use crate::region::{le_u32_at, MemoryRegion};
use crate::sample::Sample;
use crate::session::{extract_session_range, SessionDetails};
use crate::text::latin1_chars;

verus! {

/// Size of the fixed header plus the recording sub-header.
pub const DISK_MIN_SIZE: usize = 92;

/// The recording sub-header: where the session document and the recorded
/// samples sit.
#[derive(Debug, Clone, Copy, PartialEq, Eq, Structural)]
pub struct DiskSubHeader {
    pub session_info_offset: u32,
    pub session_info_length: u32,
    pub sample_count: u32,
    pub first_sample_offset: u32,
    pub sample_stride: u32,
}

/// What each sub-header field must equal, given the region bytes `b`.
pub open spec fn sub_header_matches(s: DiskSubHeader, b: Seq<u8>) -> bool {
    &&& s.session_info_offset == le_u32_at(b, 72)
    &&& s.session_info_length == le_u32_at(b, 76)
    &&& s.sample_count == le_u32_at(b, 80)
    &&& s.first_sample_offset == le_u32_at(b, 84)
    &&& s.sample_stride == le_u32_at(b, 88)
}

impl DiskSubHeader {
    /// Parse the recording sub-header that follows the fixed header.
    pub fn parse(region: &MemoryRegion) -> (r: Result<DiskSubHeader, DecodeError>)
        ensures
            !region.is_open() ==> r == Err::<DiskSubHeader, DecodeError>(DecodeError::ClosedRegion),
            region.is_open() && region.bytes().len() < DISK_MIN_SIZE ==> r == Err::<
                DiskSubHeader,
                DecodeError,
            >(DecodeError::MalformedRegion),
            region.is_open() && region.bytes().len() >= DISK_MIN_SIZE ==> r is Ok
                && sub_header_matches(r->Ok_0, region.bytes()),
    {
        if !region.check_open() {
            return Err(DecodeError::ClosedRegion);
        }
        if region.len() < DISK_MIN_SIZE {
            return Err(DecodeError::MalformedRegion);
        }
        Ok(DiskSubHeader {
            session_info_offset: region.read_u32_le(72),
            session_info_length: region.read_u32_le(76),
            sample_count: region.read_u32_le(80),
            first_sample_offset: region.read_u32_le(84),
            sample_stride: region.read_u32_le(88),
        })
    }
}

/// An opened recording: its header, sub-header and variable catalog.
///
/// The caller keeps owning the region and passes it to each operation; the
/// connection holds only what it decoded at open time.
pub struct DiskConnection {
    pub header: Header,
    pub sub: DiskSubHeader,
    pub catalog: VariableCatalog,
}

impl DiskConnection {
    /// Every catalog descriptor fits a buffer of the header's declared
    /// length, so every recorded sample decodes in bounds.
    pub open spec fn wf(&self) -> bool {
        &&& self.catalog.fits(self.header.buffer_length as int)
        &&& self.header.buffers@.len() == 4
    }

    /// Parse the header, the sub-header and the variable table of a
    /// recording.
    pub fn open(region: &MemoryRegion) -> (r: Result<DiskConnection, DecodeError>)
        ensures
            !region.is_open() ==> r == Err::<DiskConnection, DecodeError>(
                DecodeError::ClosedRegion,
            ),
            region.is_open() && region.bytes().len() < DISK_MIN_SIZE ==> r == Err::<
                DiskConnection,
                DecodeError,
            >(DecodeError::MalformedRegion),
            region.is_open() && region.bytes().len() >= DISK_MIN_SIZE ==> forall|h: Header|
                header_matches(h, region.bytes()) ==> (r is Ok <==> table_valid(
                    region.bytes(),
                    h,
                )),
            r is Err ==> r == Err::<DiskConnection, DecodeError>(DecodeError::ClosedRegion) || r
                == Err::<DiskConnection, DecodeError>(DecodeError::MalformedRegion),
            r matches Ok(c) ==> {
                &&& header_matches(c.header, region.bytes())
                &&& sub_header_matches(c.sub, region.bytes())
                &&& c.catalog.matches(region.bytes(), c.header)
                &&& c.wf()
            },
    {
        let sub = match DiskSubHeader::parse(region) {
            Ok(s) => s,
            Err(e) => {
                return Err(e);
            },
        };
        let header = match Header::parse(region) {
            Ok(h) => h,
            Err(e) => {
                assert(false);
                return Err(e);
            },
        };
        let catalog = match VariableCatalog::build(region, &header) {
            Ok(c) => c,
            Err(e) => {
                proof {
                    assert forall|h: Header| header_matches(h, region.bytes()) implies !table_valid(
                        region.bytes(),
                        h,
                    ) by {
                        if table_valid(region.bytes(), h) {
                            crate::catalog::lemma_table_valid_same(region.bytes(), h, header);
                        }
                    }
                }
                return Err(e);
            },
        };
        proof {
            assert(table_valid(region.bytes(), header));
            assert forall|h: Header| header_matches(h, region.bytes()) implies table_valid(
                region.bytes(),
                h,
            ) by {
                crate::catalog::lemma_table_valid_same(region.bytes(), header, h);
            }
        }
        Ok(DiskConnection { header, sub, catalog })
    }

    /// Decode recorded sample `index`.
    ///
    /// Returns `IndexOutOfRange` when `index` is at or past the recording's
    /// sample count, and `TruncatedFile` when the sample's declared byte
    /// range lies past the end of the region.
    pub fn sample_at(&self, region: &MemoryRegion, index: u32) -> (r: Result<Sample, DecodeError>)
        requires
            self.wf(),
        ensures
            !region.is_open() ==> r == Err::<Sample, DecodeError>(DecodeError::ClosedRegion),
            region.is_open() && index >= self.sub.sample_count ==> r == Err::<Sample, DecodeError>(
                DecodeError::IndexOutOfRange,
            ),
            region.is_open() && index < self.sub.sample_count && self.sub.first_sample_offset
                + index * self.sub.sample_stride + self.header.buffer_length
                > region.bytes().len() ==> r == Err::<Sample, DecodeError>(
                DecodeError::TruncatedFile,
            ),
            region.is_open() && index < self.sub.sample_count && self.sub.first_sample_offset
                + index * self.sub.sample_stride + self.header.buffer_length
                <= region.bytes().len() ==> (r matches Ok(s) && {
                let off = self.sub.first_sample_offset + index * self.sub.sample_stride;
                &&& s.buffer@ == region.bytes().subrange(off, off + self.header.buffer_length)
                &&& s.tick == index
                &&& !s.possibly_stale
                &&& s.catalog.vars@ == self.catalog.vars@
                &&& s.wf()
            }),
    {
        if !region.check_open() {
            return Err(DecodeError::ClosedRegion);
        }
        if index >= self.sub.sample_count {
            return Err(DecodeError::IndexOutOfRange);
        }
        proof {
            assert((index as int) * (self.sub.sample_stride as int)
                < 0x1_0000_0000_0000_0000) by (nonlinear_arith)
                requires
                    index <= u32::MAX,
                    self.sub.sample_stride <= u32::MAX,
            ;
        }
        let off: u128 = self.sub.first_sample_offset as u128 + (index as u128)
            * (self.sub.sample_stride as u128);
        if off + self.header.buffer_length as u128 > region.len() as u128 {
            return Err(DecodeError::TruncatedFile);
        }
        let start = off as usize;
        let bytes = region.copy_range(start, self.header.buffer_length as usize);
        Ok(Sample::new(index, false, bytes, self.catalog.clone()))
    }

    /// Extract the recording's session document from the range the
    /// sub-header locates.
    pub fn session_info(&self, region: &MemoryRegion) -> (r: Result<SessionDetails, DecodeError>)
        ensures
            !region.is_open() ==> r == Err::<SessionDetails, DecodeError>(
                DecodeError::ClosedRegion,
            ),
            region.is_open() && self.sub.session_info_offset + self.sub.session_info_length
                > region.bytes().len() ==> r == Err::<SessionDetails, DecodeError>(
                DecodeError::MalformedRegion,
            ),
            region.is_open() && self.sub.session_info_offset + self.sub.session_info_length
                <= region.bytes().len() ==> (r is Ok <==> crate::session::yaml_parses(
                latin1_chars(
                    region.bytes().subrange(
                        self.sub.session_info_offset as int,
                        self.sub.session_info_offset + self.sub.session_info_length,
                    ),
                ),
            )),
    {
        extract_session_range(region, self.sub.session_info_offset, self.sub.session_info_length)
    }
}

} // verus!
