//! The read path over a live region: header, catalog, snapshot, document.
//!
//! A live producer rewrites the region asynchronously, so every operation
//! here re-reads the header from the bytes it is given and decodes from
//! scratch.  The caller owns the region and hands it in per call; waiting
//! for a fresh signal happens through [`crate::wait`] outside these pure
//! decode steps.

use vstd::prelude::*;
use crate::errors::DecodeError;
use crate::catalog::{table_valid, VariableCatalog};
use crate::header::{header_matches, Header, MIN_HEADER_SIZE};
use crate::region::{le_u32_at, MemoryRegion};
use crate::sample::Sample;
use crate::selector::{buffer_table_usable, first_freshest, select_once, slot_in_bounds};
use crate::session::{extract_session_info, yaml_parses, SessionDetails};
use crate::text::latin1_chars;

verus! {

/// Whether the producer reports itself connected, per the header's status
/// bit in this read of the region.
pub fn region_is_connected(region: &MemoryRegion) -> (r: Result<bool, DecodeError>)
    ensures
        !region.is_open() ==> r == Err::<bool, DecodeError>(DecodeError::ClosedRegion),
        region.is_open() && region.bytes().len() < MIN_HEADER_SIZE ==> r == Err::<
            bool,
            DecodeError,
        >(DecodeError::MalformedRegion),
        region.is_open() && region.bytes().len() >= MIN_HEADER_SIZE ==> r == Ok::<
            bool,
            DecodeError,
        >(le_u32_at(region.bytes(), 4) % 2 == 1),
{
    match Header::parse(region) {
        Ok(h) => Ok(h.is_connected()),
        Err(e) => Err(e),
    }
}

/// Extract the session document from this read of a live region.
pub fn live_session_info(region: &MemoryRegion) -> (r: Result<SessionDetails, DecodeError>)
    ensures
        !region.is_open() ==> r == Err::<SessionDetails, DecodeError>(DecodeError::ClosedRegion),
        region.is_open() && region.bytes().len() < MIN_HEADER_SIZE ==> r == Err::<
            SessionDetails,
            DecodeError,
        >(DecodeError::MalformedRegion),
        region.is_open() && region.bytes().len() >= MIN_HEADER_SIZE && le_u32_at(
            region.bytes(),
            20,
        ) + le_u32_at(region.bytes(), 16) > region.bytes().len() ==> r == Err::<
            SessionDetails,
            DecodeError,
        >(DecodeError::MalformedRegion),
        region.is_open() && region.bytes().len() >= MIN_HEADER_SIZE && le_u32_at(
            region.bytes(),
            20,
        ) + le_u32_at(region.bytes(), 16) <= region.bytes().len() ==> (r is Ok <==> yaml_parses(
            latin1_chars(
                region.bytes().subrange(
                    le_u32_at(region.bytes(), 20),
                    le_u32_at(region.bytes(), 20) + le_u32_at(region.bytes(), 16),
                ),
            ),
        )),
{
    match Header::parse(region) {
        Ok(h) => extract_session_info(region, &h),
        Err(e) => Err(e),
    }
}

/// Decode the freshest buffer of this read of a live region into a sample.
///
/// The whole read is one consistent set of bytes, so the snapshot is never
/// possibly stale.  Fails with `MalformedRegion` when the header, the
/// variable table or the chosen buffer's byte range is inconsistent with
/// the region's size.
pub fn latest_sample(region: &MemoryRegion) -> (r: Result<Sample, DecodeError>)
    ensures
        !region.is_open() ==> r == Err::<Sample, DecodeError>(DecodeError::ClosedRegion),
        region.is_open() && region.bytes().len() < MIN_HEADER_SIZE ==> r == Err::<
            Sample,
            DecodeError,
        >(DecodeError::MalformedRegion),
        r is Err ==> r == Err::<Sample, DecodeError>(DecodeError::ClosedRegion) || r == Err::<
            Sample,
            DecodeError,
        >(DecodeError::MalformedRegion),
        region.is_open() && region.bytes().len() >= MIN_HEADER_SIZE ==> forall|h: Header|
            header_matches(h, region.bytes()) ==> (r is Ok <==> {
                &&& table_valid(region.bytes(), h)
                &&& buffer_table_usable(h)
                &&& forall|idx: int|
                    first_freshest(h, idx) ==> slot_in_bounds(region.bytes(), h, idx)
            }),
        r matches Ok(s) ==> {
            &&& !s.possibly_stale
            &&& s.wf()
            &&& exists|h: Header|
                {
                    &&& #[trigger] header_matches(h, region.bytes())
                    &&& s.catalog.matches(region.bytes(), h)
                    &&& exists|idx: int|
                        {
                            &&& first_freshest(h, idx)
                            &&& s.tick == h.buffers@[idx].tick
                            &&& s.buffer@ == region.bytes().subrange(
                                h.buffers@[idx].buffer_offset as int,
                                h.buffers@[idx].buffer_offset + h.buffer_length,
                            )
                        }
                }
        },
{
    let header = match Header::parse(region) {
        Ok(h) => h,
        Err(e) => {
            return Err(e);
        },
    };
    let catalog = match VariableCatalog::build(region, &header) {
        Ok(c) => c,
        Err(e) => {
            proof {
                lemma_region_headers_agree(region.bytes(), header);
            }
            return Err(e);
        },
    };
    if header.buffer_count < 1 || header.buffer_count > 4 {
        proof {
            lemma_region_headers_agree(region.bytes(), header);
        }
        return Err(DecodeError::MalformedRegion);
    }
    let selected = match select_once(region, &header) {
        Ok(sb) => sb,
        Err(e) => {
            proof {
                lemma_region_headers_agree(region.bytes(), header);
            }
            return Err(e);
        },
    };
    let sample = Sample::new(selected.tick, false, selected.bytes, catalog);
    proof {
        lemma_region_headers_agree(region.bytes(), header);
        assert(header_matches(header, region.bytes()));
    }
    Ok(sample)
}

/// Any two headers parsed from the same bytes agree on every field, so the
/// table, slot-table and slot-bound judgements coincide across them.
proof fn lemma_region_headers_agree(b: Seq<u8>, h0: Header)
    requires
        header_matches(h0, b),
    ensures
        forall|h: Header| #[trigger] header_matches(h, b) ==> {
            &&& table_valid(b, h) == table_valid(b, h0)
            &&& buffer_table_usable(h) == buffer_table_usable(h0)
            &&& h.buffers@ == h0.buffers@
            &&& h.buffer_length == h0.buffer_length
            &&& h.buffer_count == h0.buffer_count
            &&& (forall|idx: int|
                first_freshest(h, idx) ==> slot_in_bounds(b, h, idx)) == (forall|idx: int|
                first_freshest(h0, idx) ==> slot_in_bounds(b, h0, idx))
        },
{
    assert forall|h: Header| #[trigger] header_matches(h, b) implies {
        &&& table_valid(b, h) == table_valid(b, h0)
        &&& buffer_table_usable(h) == buffer_table_usable(h0)
        &&& h.buffers@ == h0.buffers@
        &&& h.buffer_length == h0.buffer_length
        &&& h.buffer_count == h0.buffer_count
        &&& (forall|idx: int| first_freshest(h, idx) ==> slot_in_bounds(b, h, idx)) == (forall|
            idx: int,
        |
            first_freshest(h0, idx) ==> slot_in_bounds(b, h0, idx))
    } by {
        assert forall|i: int| 0 <= i < h.buffers@.len() implies h.buffers@[i] == h0.buffers@[i] by {
            assert(h.buffers@[i] == crate::header::spec_buffer_at(b, i));
            assert(h0.buffers@[i] == crate::header::spec_buffer_at(b, i));
        }
        assert(h.buffers@ =~= h0.buffers@);
        assert(table_valid(b, h) == table_valid(b, h0)) by {
            if table_valid(b, h) {
                crate::catalog::lemma_table_valid_same(b, h, h0);
            }
            if table_valid(b, h0) {
                crate::catalog::lemma_table_valid_same(b, h0, h);
            }
        }
        assert forall|idx: int| first_freshest(h, idx) == first_freshest(h0, idx)
            && slot_in_bounds(b, h, idx) == slot_in_bounds(b, h0, idx) by {}
    }
}

} // verus!
