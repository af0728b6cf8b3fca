//! The variable table: an ordered set of typed, named variable descriptors.
//!
//! The header locates a table of fixed-size records, one per variable the
//! producer publishes.  Each record is 144 bytes:
//!
//! ```text
//! offset   0  type tag
//! offset   4  byte offset of the variable inside a buffer
//! offset   8  element count (1 for a scalar, more for a fixed array)
//! offset  12  padding
//! offset  16  name, 32 bytes, padded with NUL
//! offset  48  unit, 32 bytes, padded with NUL
//! offset  80  description, 64 bytes, padded with NUL
//! ```

use vstd::prelude::*;
use crate::errors::DecodeError;
use crate::region::{le_u32_at, MemoryRegion};
use crate::header::Header;
use crate::text::{trimmed_latin1, trimmed_text};

verus! {

/// Bytes each variable-table record occupies.
pub const VAR_RECORD_SIZE: usize = 144;

/// The element type a descriptor's type tag declares.
#[derive(Debug, Clone, Copy, PartialEq, Eq, Structural)]
pub enum VariableType {
    Char,
    Bool,
    Int32,
    Bitfield32,
    Float32,
    Float64,
}

/// The type a raw tag value stands for, if any.
pub open spec fn spec_tag_type(tag: int) -> Option<VariableType> {
    if tag == 0 {
        Some(VariableType::Char)
    } else if tag == 1 {
        Some(VariableType::Bool)
    } else if tag == 2 {
        Some(VariableType::Int32)
    } else if tag == 3 {
        Some(VariableType::Bitfield32)
    } else if tag == 4 {
        Some(VariableType::Float32)
    } else if tag == 5 {
        Some(VariableType::Float64)
    } else {
        None
    }
}

/// Bytes one element of the given type occupies inside a buffer.
pub open spec fn spec_type_width(t: VariableType) -> int {
    match t {
        VariableType::Char => 1,
        VariableType::Bool => 1,
        VariableType::Int32 => 4,
        VariableType::Bitfield32 => 4,
        VariableType::Float32 => 4,
        VariableType::Float64 => 8,
    }
}

/// Byte width of one element of type `t`.
pub fn type_width(t: VariableType) -> (r: usize)
    ensures
        r == spec_type_width(t),
{
    match t {
        VariableType::Char => 1,
        VariableType::Bool => 1,
        VariableType::Int32 => 4,
        VariableType::Bitfield32 => 4,
        VariableType::Float32 => 4,
        VariableType::Float64 => 8,
    }
}

/// Metadata for one named telemetry field inside a buffer.
pub struct VariableDescriptor {
    pub name: String,
    pub var_type: VariableType,
    pub offset: u32,
    pub count: u32,
    pub unit: String,
    pub description: String,
}

impl Clone for VariableDescriptor {
    fn clone(&self) -> (r: Self)
        ensures
            r == *self,
    {
        VariableDescriptor {
            name: self.name.clone(),
            var_type: self.var_type,
            offset: self.offset,
            count: self.count,
            unit: self.unit.clone(),
            description: self.description.clone(),
        }
    }
}

/// Where record `i` of the variable table starts, given header `h`.
pub open spec fn record_base(h: Header, i: int) -> int {
    h.variable_header_offset + VAR_RECORD_SIZE * i
}

/// The raw record `i` declares a known type, a count of at least one, and a
/// byte range that lies inside a buffer of the header's declared length.
pub open spec fn record_valid(b: Seq<u8>, h: Header, i: int) -> bool {
    let base = record_base(h, i);
    let tag = le_u32_at(b, base);
    let offset = le_u32_at(b, base + 4);
    let count = le_u32_at(b, base + 8);
    &&& spec_tag_type(tag) is Some
    &&& count >= 1
    &&& offset + spec_type_width(spec_tag_type(tag)->Some_0) * count <= h.buffer_length
}

/// The parsed descriptor `d` reproduces raw record `i` exactly.
pub open spec fn descriptor_matches(d: VariableDescriptor, b: Seq<u8>, h: Header, i: int) -> bool {
    let base = record_base(h, i);
    &&& spec_tag_type(le_u32_at(b, base)) == Some(d.var_type)
    &&& d.offset == le_u32_at(b, base + 4)
    &&& d.count == le_u32_at(b, base + 8)
    &&& trimmed_text(b.subrange(base + 16, base + 48), d.name@)
    &&& trimmed_text(b.subrange(base + 48, base + 80), d.unit@)
    &&& trimmed_text(b.subrange(base + 80, base + 144), d.description@)
}

/// The whole variable table of header `h` lies inside the region bytes and
/// every record of it is valid.
pub open spec fn table_valid(b: Seq<u8>, h: Header) -> bool {
    &&& h.variable_header_offset + VAR_RECORD_SIZE * h.variable_count <= b.len()
    &&& forall|i: int| 0 <= i < h.variable_count ==> record_valid(b, h, i)
}

/// Table validity reads the region bytes only through the header fields
/// that locate and bound the table, so headers agreeing on those fields
/// agree on it.
pub proof fn lemma_table_valid_same(b: Seq<u8>, h1: Header, h2: Header)
    requires
        h1.variable_header_offset == h2.variable_header_offset,
        h1.variable_count == h2.variable_count,
        h1.buffer_length == h2.buffer_length,
        table_valid(b, h1),
    ensures
        table_valid(b, h2),
{
    assert forall|i: int| 0 <= i < h2.variable_count implies record_valid(b, h2, i) by {
        assert(record_valid(b, h1, i));
        assert(record_base(h1, i) == record_base(h2, i));
    }
}

/// For every well-formed region, a catalog that reproduces the variable
/// table a parsed header locates has every descriptor's byte range within
/// `[0, buffer_length)`: what the table declares is what the catalog
/// enforces.
pub proof fn lemma_catalog_of_valid_table_fits(b: Seq<u8>, h: Header, c: VariableCatalog)
    requires
        table_valid(b, h),
        c.matches(b, h),
    ensures
        c.fits(h.buffer_length as int),
{
    assert forall|i: int| 0 <= i < c.vars@.len() implies (#[trigger] c.vars@[i]).offset
        + spec_type_width(c.vars@[i].var_type) * c.vars@[i].count <= h.buffer_length as int by {
        assert(record_valid(b, h, i));
        assert(descriptor_matches(c.vars@[i], b, h, i));
    }
}

/// The ordered, named variable catalog built from a region's variable table.
pub struct VariableCatalog {
    pub vars: Vec<VariableDescriptor>,
}

impl VariableCatalog {
    /// Every descriptor's byte range lies within `[0, buffer_length)`.
    pub open spec fn fits(&self, buffer_length: int) -> bool {
        forall|i: int| 0 <= i < self.vars@.len() ==> (#[trigger] self.vars@[i]).offset
            + spec_type_width(self.vars@[i].var_type) * self.vars@[i].count <= buffer_length
    }

    /// Some descriptor carries the name `n`.
    pub open spec fn spec_contains_name(&self, n: Seq<char>) -> bool {
        exists|i: int| 0 <= i < self.vars@.len() && (#[trigger] self.vars@[i]).name@ == n
    }

    /// The catalog reproduces the variable table of header `h` in `b`.
    pub open spec fn matches(&self, b: Seq<u8>, h: Header) -> bool {
        &&& self.vars@.len() == h.variable_count
        &&& forall|i: int| 0 <= i < h.variable_count ==> descriptor_matches(
            #[trigger] self.vars@[i],
            b,
            h,
            i,
        )
    }

    /// Parse the variable table that `header` locates in `region`.
    ///
    /// Fails with `MalformedRegion` when the table's declared byte range
    /// exceeds the region, or when any record declares an unknown type, a
    /// zero count, or a byte range past the header's buffer length.
    pub fn build(region: &MemoryRegion, header: &Header) -> (r: Result<
        VariableCatalog,
        DecodeError,
    >)
        ensures
            !region.is_open() ==> r == Err::<VariableCatalog, DecodeError>(
                DecodeError::ClosedRegion,
            ),
            region.is_open() && !table_valid(region.bytes(), *header) ==> r == Err::<
                VariableCatalog,
                DecodeError,
            >(DecodeError::MalformedRegion),
            region.is_open() && table_valid(region.bytes(), *header) ==> r is Ok,
            r is Ok ==> (r->Ok_0).matches(region.bytes(), *header) && (r->Ok_0).fits(
                header.buffer_length as int,
            ),
    {
        if !region.check_open() {
            return Err(DecodeError::ClosedRegion);
        }
        let region_len = region.len();
        let table_end: u64 = header.variable_header_offset as u64 + (VAR_RECORD_SIZE as u64)
            * (header.variable_count as u64);
        if table_end > region_len as u64 {
            return Err(DecodeError::MalformedRegion);
        }
        let count = header.variable_count as usize;
        let mut vars: Vec<VariableDescriptor> = Vec::new();
        let mut i: usize = 0;
        while i < count
            invariant
                i <= count,
                count == header.variable_count,
                region.is_open(),
                header.variable_header_offset + VAR_RECORD_SIZE * header.variable_count
                    <= region.bytes().len(),
                region_len == region.bytes().len(),
                vars@.len() == i,
                forall|j: int| 0 <= j < i ==> record_valid(region.bytes(), *header, j),
                forall|j: int| 0 <= j < i ==> descriptor_matches(
                    #[trigger] vars@[j],
                    region.bytes(),
                    *header,
                    j,
                ),
            decreases count - i,
        {
            assert(header.variable_header_offset + VAR_RECORD_SIZE * (i + 1)
                <= region.bytes().len()) by {
                assert(VAR_RECORD_SIZE * (i + 1) <= VAR_RECORD_SIZE * header.variable_count)
                    by (nonlinear_arith)
                    requires
                        i + 1 <= header.variable_count,
                ;
            }
            let base: usize = header.variable_header_offset as usize + VAR_RECORD_SIZE * i;
            let tag = region.read_u32_le(base);
            let offset = region.read_u32_le(base + 4);
            let elem_count = region.read_u32_le(base + 8);
            let var_type = match exec_tag_type(tag) {
                Some(t) => t,
                None => {
                    assert(!record_valid(region.bytes(), *header, i as int));
                    return Err(DecodeError::MalformedRegion);
                },
            };
            if elem_count < 1 {
                assert(!record_valid(region.bytes(), *header, i as int));
                return Err(DecodeError::MalformedRegion);
            }
            let width = type_width(var_type);
            assert((width as u64) * (elem_count as u64) == spec_type_width(var_type) * elem_count
                <= 0x8_0000_0000) by (nonlinear_arith)
                requires
                    width == spec_type_width(var_type),
                    width <= 8,
                    elem_count <= u32::MAX,
            ;
            if offset as u64 + (width as u64) * (elem_count as u64) > header.buffer_length as u64 {
                assert(!record_valid(region.bytes(), *header, i as int));
                return Err(DecodeError::MalformedRegion);
            }
            assert(record_valid(region.bytes(), *header, i as int));
            let name = read_trimmed_text(region, base + 16, 32);
            let unit = read_trimmed_text(region, base + 48, 32);
            let description = read_trimmed_text(region, base + 80, 64);
            vars.push(VariableDescriptor { name, var_type, offset, count: elem_count, unit, description });
            i = i + 1;
        }
        let catalog = VariableCatalog { vars };
        assert forall|j: int| 0 <= j < catalog.vars@.len() implies (
        #[trigger] catalog.vars@[j]).offset + spec_type_width(catalog.vars@[j].var_type)
            * catalog.vars@[j].count <= header.buffer_length as int by {
            assert(record_valid(region.bytes(), *header, j));
            assert(descriptor_matches(catalog.vars@[j], region.bytes(), *header, j));
        }
        Ok(catalog)
    }

    /// Resolve a variable name, case-sensitively, to the first descriptor
    /// that carries it.
    pub fn lookup(&self, name: &str) -> (r: Option<&VariableDescriptor>)
        ensures
            match r {
                Some(d) => self.spec_contains_name(name@) && d.name@ == name@ && exists|i: int|
                    0 <= i < self.vars@.len() && *d == self.vars@[i] && (forall|j: int|
                        0 <= j < i ==> (#[trigger] self.vars@[j]).name@ != name@),
                None => !self.spec_contains_name(name@),
            },
    {
        let key = String::from_str(name);
        let n = self.vars.len();
        let mut i: usize = 0;
        while i < n
            invariant
                i <= n,
                n == self.vars@.len(),
                key@ == name@,
                forall|j: int| 0 <= j < i ==> (#[trigger] self.vars@[j]).name@ != name@,
            decreases n - i,
        {
            if self.vars[i].name.eq(&key) {
                return Some(&self.vars[i]);
            }
            i = i + 1;
        }
        None
    }
}

impl Clone for VariableCatalog {
    fn clone(&self) -> (r: Self)
        ensures
            r.vars@ == self.vars@,
    {
        let n = self.vars.len();
        let mut vars: Vec<VariableDescriptor> = Vec::new();
        let mut i: usize = 0;
        while i < n
            invariant
                i <= n,
                n == self.vars@.len(),
                vars@ =~= self.vars@.subrange(0, i as int),
            decreases n - i,
        {
            vars.push(self.vars[i].clone());
            assert(vars@ =~= self.vars@.subrange(0, i + 1));
            i = i + 1;
        }
        assert(vars@ =~= self.vars@);
        VariableCatalog { vars }
    }
}

/// One cached catalog, keyed by the header pair that located it.
pub struct CacheEntry {
    /// The `variable_header_offset` the catalog was built from.
    pub offset: u32,
    /// The `variable_count` the catalog was built from.
    pub count: u32,
    /// The catalog itself.
    pub catalog: VariableCatalog,
}

/// Caches the catalog per distinct `(variable_header_offset,
/// variable_count)` pair observed from the header.
///
/// A later header read reporting a different pair signals that the producer
/// restarted with a different variable schema: the catalog is then rebuilt
/// rather than reused.
pub struct CatalogCache {
    entry: Option<CacheEntry>,
}

impl CatalogCache {
    /// The cached entry, if any.
    pub closed spec fn spec_entry(&self) -> Option<CacheEntry> {
        self.entry
    }

    /// The cache holds a catalog for exactly the pair `header` reports.
    pub open spec fn spec_hit(&self, header: Header) -> bool {
        &&& self.spec_entry() is Some
        &&& self.spec_entry()->Some_0.offset == header.variable_header_offset
        &&& self.spec_entry()->Some_0.count == header.variable_count
    }

    /// An empty cache.
    pub fn new() -> (r: CatalogCache)
        ensures
            r.spec_entry() is None,
    {
        CatalogCache { entry: None }
    }

    /// The catalog for the current header: the cached one when the header
    /// reports the pair it was built from, a fresh build otherwise.
    ///
    /// The second component reports whether a rebuild happened.  On a build
    /// failure the cache keeps its previous entry.
    pub fn catalog_for(&mut self, region: &MemoryRegion, header: &Header) -> (r: Result<
        (VariableCatalog, bool),
        DecodeError,
    >)
        ensures
            old(self).spec_hit(*header) ==> {
                &&& r is Ok
                &&& (r->Ok_0).1 == false
                &&& (r->Ok_0).0.vars@ == old(self).spec_entry()->Some_0.catalog.vars@
                &&& final(self).spec_entry() == old(self).spec_entry()
            },
            !old(self).spec_hit(*header) ==> match r {
                Ok(p) => {
                    &&& p.1 == true
                    &&& p.0.matches(region.bytes(), *header)
                    &&& p.0.fits(header.buffer_length as int)
                    &&& final(self).spec_hit(*header)
                    &&& final(self).spec_entry()->Some_0.catalog.vars@ == p.0.vars@
                },
                Err(e) => {
                    &&& final(self).spec_entry() == old(self).spec_entry()
                    &&& (!region.is_open() ==> e == DecodeError::ClosedRegion)
                    &&& (region.is_open() ==> e == DecodeError::MalformedRegion && !table_valid(
                        region.bytes(),
                        *header,
                    ))
                },
            },
    {
        if let Some(e) = &self.entry {
            if e.offset == header.variable_header_offset && e.count == header.variable_count {
                return Ok((e.catalog.clone(), false));
            }
        }
        match VariableCatalog::build(region, header) {
            Ok(catalog) => {
                let stored = catalog.clone();
                self.entry = Some(
                    CacheEntry {
                        offset: header.variable_header_offset,
                        count: header.variable_count,
                        catalog: stored,
                    },
                );
                Ok((catalog, true))
            },
            Err(e) => Err(e),
        }
    }
}

/// The type a raw tag value stands for, if any.
fn exec_tag_type(tag: u32) -> (r: Option<VariableType>)
    ensures
        r == spec_tag_type(tag as int),
{
    if tag == 0 {
        Some(VariableType::Char)
    } else if tag == 1 {
        Some(VariableType::Bool)
    } else if tag == 2 {
        Some(VariableType::Int32)
    } else if tag == 3 {
        Some(VariableType::Bitfield32)
    } else if tag == 4 {
        Some(VariableType::Float32)
    } else if tag == 5 {
        Some(VariableType::Float64)
    } else {
        None
    }
}

/// Decode the `len`-byte field at `off` as single-byte text cut at the
/// first NUL.
fn read_trimmed_text(region: &MemoryRegion, off: usize, len: usize) -> (r: String)
    requires
        off + len <= region.bytes().len(),
    ensures
        trimmed_text(region.bytes().subrange(off as int, off + len), r@),
{
    let field = region.copy_range(off, len);
    let t = trimmed_latin1(&field, 0, len);
    proof {
        assert(field@.subrange(0, len as int) =~= field@);
    }
    t
}

} // verus!
