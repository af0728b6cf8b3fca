//! Selection of a torn-read-free snapshot among the rotating buffers.
//!
//! The producer writes successive snapshots into one of several fixed-size
//! slots, advancing a tick counter per slot, and never blocks on readers.
//! A reader picks the slot with the greatest tick, copies it, and re-reads
//! the header: if the slot's tick changed during the copy the producer
//! overwrote it, and the reader retries, up to a bound.  After the bound the
//! last copy is returned anyway, marked possibly stale: live telemetry
//! favors availability over perfect freshness, but the condition stays
//! observable to the caller.
//!
//! Each read of a live region can observe different bytes, so the selector
//! is a step machine: every call to [`BufferSelector::step`] hands it one
//! fresh read of the region, and it either asks for another read or yields
//! the selected copy.

use vstd::prelude::*;
use crate::errors::DecodeError;
use crate::header::{header_matches, Header, MAX_BUFFERS};
use crate::region::MemoryRegion;

verus! {

/// Failed attempts after which the selector stops retrying and returns the
/// last copy marked possibly stale.
pub const RETRY_BOUND: u32 = 3;

/// A copy taken from one slot, waiting for its tick to be confirmed.
pub struct PendingCopy {
    /// Tick the slot carried when the copy began.
    pub tick: u32,
    /// Index of the copied slot in the header's descriptor table.
    pub index: usize,
    /// The copied bytes.
    pub bytes: Vec<u8>,
}

/// The outcome of a finished selection.
pub struct SelectedBuffer {
    /// Tick of the copied slot.
    pub tick: u32,
    /// True when the retry bound was exhausted and the copy may mix two
    /// producer writes.
    pub possibly_stale: bool,
    /// The copied buffer bytes.
    pub bytes: Vec<u8>,
}

/// Slot `idx` exists and no slot carries a greater tick.
pub open spec fn is_freshest(h: Header, idx: int) -> bool {
    &&& 0 <= idx < h.buffer_count
    &&& forall|j: int| 0 <= j < h.buffer_count ==> (#[trigger] h.buffers@[j]).tick
        <= h.buffers@[idx].tick
}

/// The header declares at least one slot and no more than the descriptor
/// table holds.
pub open spec fn buffer_table_usable(h: Header) -> bool {
    1 <= h.buffer_count <= MAX_BUFFERS
}

/// Slot `idx` is the one the selector copies: the first slot carrying the
/// greatest tick.
pub open spec fn first_freshest(h: Header, idx: int) -> bool {
    &&& is_freshest(h, idx)
    &&& forall|j: int| 0 <= j < idx ==> (#[trigger] h.buffers@[j]).tick < h.buffers@[idx].tick
}

/// Slot `idx`'s declared byte range lies inside the region bytes `b`.
pub open spec fn slot_in_bounds(b: Seq<u8>, h: Header, idx: int) -> bool {
    h.buffers@[idx].buffer_offset + h.buffer_length <= b.len()
}

/// The pending copy `p` is a full-buffer copy of slot `p.index` as the
/// region bytes `b` and header `h` declare it.
pub open spec fn pending_from(p: PendingCopy, b: Seq<u8>, h: Header) -> bool {
    &&& first_freshest(h, p.index as int)
    &&& p.tick == h.buffers@[p.index as int].tick
    &&& p.bytes@ == b.subrange(
        h.buffers@[p.index as int].buffer_offset as int,
        h.buffers@[p.index as int].buffer_offset + h.buffer_length,
    )
    &&& p.bytes@.len() == h.buffer_length
}

/// The retrying buffer selector.
pub struct BufferSelector {
    /// Failed attempts so far.
    pub attempts: u32,
    /// The copy taken from the most recent read, if one is awaiting
    /// confirmation.
    pub pending: Option<PendingCopy>,
}

impl BufferSelector {
    /// A selector with no copy pending and no attempts spent.
    pub fn new() -> (r: BufferSelector)
        ensures
            r.attempts == 0,
            r.pending is None,
    {
        BufferSelector { attempts: 0, pending: None }
    }

    /// Feed the selector one fresh read of the region, together with the
    /// header parsed from that same read.
    ///
    /// Returns `Ok(None)` when another read is needed: a copy was taken (or
    /// retaken) and its tick must be confirmed against the next read.
    /// Returns `Ok(Some(_))` when selection finished: either the tick was
    /// unchanged (a fresh, consistent copy) or the retry bound ran out (the
    /// last copy, marked possibly stale).  Errors reset the selector.
    pub fn step(&mut self, region: &MemoryRegion, header: &Header) -> (r: Result<
        Option<SelectedBuffer>,
        DecodeError,
    >)
        requires
            region.is_open() ==> header_matches(*header, region.bytes()),
        ensures
            !region.is_open() ==> r == Err::<Option<SelectedBuffer>, DecodeError>(
                DecodeError::ClosedRegion,
            ),
            region.is_open() && !buffer_table_usable(*header) ==> r == Err::<
                Option<SelectedBuffer>,
                DecodeError,
            >(DecodeError::MalformedRegion),
            r is Err ==> final(self).pending is None && final(self).attempts == 0,
            r == Ok::<Option<SelectedBuffer>, DecodeError>(None::<SelectedBuffer>) ==> {
                &&& final(self).pending is Some
                &&& pending_from(final(self).pending->Some_0, region.bytes(), *header)
            },
            (r matches Ok(Some(sb)) ==> {
                &&& old(self).pending is Some
                &&& sb.tick == old(self).pending->Some_0.tick
                &&& sb.bytes == old(self).pending->Some_0.bytes
                &&& final(self).pending is None
                &&& final(self).attempts == 0
                &&& !sb.possibly_stale ==> sb.tick == header.buffers@[old(
                    self,
                ).pending->Some_0.index as int].tick
                &&& sb.possibly_stale ==> old(self).attempts + 1 >= RETRY_BOUND && !(old(
                    self,
                ).pending->Some_0.index < header.buffers@.len() && sb.tick == header.buffers@[old(
                    self,
                ).pending->Some_0.index as int].tick)
            }),
            r is Err ==> r == Err::<Option<SelectedBuffer>, DecodeError>(DecodeError::ClosedRegion)
                || r == Err::<Option<SelectedBuffer>, DecodeError>(DecodeError::MalformedRegion),
            region.is_open() && r is Err ==> r == Err::<Option<SelectedBuffer>, DecodeError>(
                DecodeError::MalformedRegion,
            ),
            region.is_open() && buffer_table_usable(*header) && old(self).pending is None ==> (
            r is Err <==> exists|idx: int|
                first_freshest(*header, idx) && !slot_in_bounds(region.bytes(), *header, idx)),
            region.is_open() && buffer_table_usable(*header) && old(self).pending is Some && old(
                self,
            ).pending->Some_0.index < header.buffers@.len() && header.buffers@[old(
                self,
            ).pending->Some_0.index as int].tick == old(self).pending->Some_0.tick ==> (r matches
                Ok(Some(sb)) && !sb.possibly_stale),
    {
        if !region.check_open() {
            self.attempts = 0;
            self.pending = None;
            return Err(DecodeError::ClosedRegion);
        }
        if header.buffer_count < 1 || header.buffer_count > MAX_BUFFERS as u32 {
            self.attempts = 0;
            self.pending = None;
            return Err(DecodeError::MalformedRegion);
        }
        match self.pending.take() {
            None => {
                match take_copy(region, header) {
                    Ok(p) => {
                        self.pending = Some(p);
                        Ok(None)
                    },
                    Err(e) => {
                        self.attempts = 0;
                        self.pending = None;
                        Err(e)
                    },
                }
            },
            Some(p) => {
                let idx = p.index;
                if idx < header.buffers.len() && header.buffers[idx].tick == p.tick {
                    self.attempts = 0;
                    self.pending = None;
                    return Ok(Some(SelectedBuffer {
                        tick: p.tick,
                        possibly_stale: false,
                        bytes: p.bytes,
                    }));
                }
                if self.attempts >= RETRY_BOUND - 1 {
                    self.attempts = 0;
                    self.pending = None;
                    return Ok(Some(SelectedBuffer {
                        tick: p.tick,
                        possibly_stale: true,
                        bytes: p.bytes,
                    }));
                }
                self.attempts = self.attempts + 1;
                match take_copy(region, header) {
                    Ok(p2) => {
                        self.pending = Some(p2);
                        Ok(None)
                    },
                    Err(e) => {
                        self.attempts = 0;
                        self.pending = None;
                        Err(e)
                    },
                }
            },
        }
    }
}

/// Select and copy the freshest buffer out of a single read of the region.
///
/// Both selector steps see the same bytes, so the confirming read always
/// finds the tick unchanged: the result is never possibly stale.  This is
/// the path for a region whose bytes cannot change under the caller — a
/// snapshot already taken, or a recording.
pub fn select_once(region: &MemoryRegion, header: &Header) -> (r: Result<
    SelectedBuffer,
    DecodeError,
>)
    requires
        region.is_open(),
        header_matches(*header, region.bytes()),
    ensures
        !buffer_table_usable(*header) ==> r == Err::<SelectedBuffer, DecodeError>(
            DecodeError::MalformedRegion,
        ),
        buffer_table_usable(*header) ==> ((r is Err) <==> exists|idx: int|
            first_freshest(*header, idx) && !slot_in_bounds(region.bytes(), *header, idx)),
        r is Err ==> r == Err::<SelectedBuffer, DecodeError>(DecodeError::MalformedRegion),
        r matches Ok(sb) ==> {
            &&& !sb.possibly_stale
            &&& exists|idx: int|
                {
                    &&& first_freshest(*header, idx)
                    &&& sb.tick == header.buffers@[idx].tick
                    &&& sb.bytes@ == region.bytes().subrange(
                        header.buffers@[idx].buffer_offset as int,
                        header.buffers@[idx].buffer_offset + header.buffer_length,
                    )
                    &&& sb.bytes@.len() == header.buffer_length
                }
        },
{
    let mut selector = BufferSelector::new();
    let first = match selector.step(region, header) {
        Ok(v) => v,
        Err(e) => {
            return Err(e);
        },
    };
    if let Some(sb) = first {
        assert(false);
        return Ok(sb);
    }
    let ghost mid = selector;
    let second = match selector.step(region, header) {
        Ok(v) => v,
        Err(e) => {
            assert(false);
            return Err(e);
        },
    };
    match second {
        Some(sb) => {
            proof {
                let p = mid.pending->Some_0;
                assert(first_freshest(*header, p.index as int));
                assert(sb.tick == header.buffers@[p.index as int].tick);
                assert(sb.bytes@ == region.bytes().subrange(
                    header.buffers@[p.index as int].buffer_offset as int,
                    header.buffers@[p.index as int].buffer_offset + header.buffer_length,
                ));
            }
            Ok(sb)
        },
        None => {
            assert(false);
            Err(DecodeError::MalformedRegion)
        },
    }
}

/// Pick the slot with the greatest tick and copy its bytes out of this read
/// of the region.  Fails with `MalformedRegion` when the chosen slot's byte
/// range lies outside the region.
fn take_copy(region: &MemoryRegion, header: &Header) -> (r: Result<PendingCopy, DecodeError>)
    requires
        region.is_open(),
        header_matches(*header, region.bytes()),
        buffer_table_usable(*header),
    ensures
        r matches Ok(p) ==> pending_from(p, region.bytes(), *header),
        r is Err ==> r == Err::<PendingCopy, DecodeError>(DecodeError::MalformedRegion),
        r is Err <==> exists|idx: int|
            first_freshest(*header, idx) && !slot_in_bounds(region.bytes(), *header, idx),
{
    let live = header.buffer_count as usize;
    let mut best: usize = 0;
    let mut i: usize = 1;
    while i < live
        invariant
            1 <= i <= live,
            live == header.buffer_count <= MAX_BUFFERS,
            header.buffers@.len() == MAX_BUFFERS,
            best < i,
            forall|j: int| 0 <= j < i ==> (#[trigger] header.buffers@[j]).tick
                <= header.buffers@[best as int].tick,
            forall|j: int| 0 <= j < best ==> (#[trigger] header.buffers@[j]).tick
                < header.buffers@[best as int].tick,
        decreases live - i,
    {
        if header.buffers[i].tick > header.buffers[best].tick {
            best = i;
        }
        i = i + 1;
    }
    assert(first_freshest(*header, best as int));
    assert forall|idx: int| first_freshest(*header, idx) implies idx == best as int by {
        if idx != best as int {
            if idx < best as int {
                assert(header.buffers@[idx].tick < header.buffers@[best as int].tick);
                assert(header.buffers@[best as int].tick <= header.buffers@[idx].tick);
            } else {
                assert(header.buffers@[best as int].tick < header.buffers@[idx].tick);
                assert(header.buffers@[idx].tick <= header.buffers@[best as int].tick);
            }
        }
    }
    let descriptor = header.buffers[best];
    let end: u64 = descriptor.buffer_offset as u64 + header.buffer_length as u64;
    if end > region.len() as u64 {
        assert(!slot_in_bounds(region.bytes(), *header, best as int));
        return Err(DecodeError::MalformedRegion);
    }
    let bytes = region.copy_range(descriptor.buffer_offset as usize, header.buffer_length as usize);
    Ok(PendingCopy { tick: descriptor.tick, index: best, bytes })
}

} // verus!
