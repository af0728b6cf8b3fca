//! An immutable decoded snapshot of one buffer, with typed lookups.
//!
//! A `Sample` owns a copy of exactly one buffer's bytes, taken at a specific
//! tick, together with the catalog used to interpret them.  It is never
//! mutated after construction and owns everything it refers to, so it can be
//! handed across thread boundaries freely.

use vstd::prelude::*;
use crate::errors::DecodeError;
use crate::region::{le_u32_at, le_u64_at};
use crate::catalog::{spec_type_width, VariableCatalog, VariableDescriptor, VariableType};
use crate::text::{trimmed_latin1, trimmed_text};

verus! {

/// One decoded variable: a scalar or a fixed-size array of the descriptor's
/// element type.  Floating-point elements are handed out as their IEEE 754
/// bit patterns; the caller reinterprets them.
#[derive(Debug, Clone, PartialEq)]
pub enum SampleValue {
    /// A char-typed field: single-byte text cut at the first NUL.
    Text(String),
    Bool(bool),
    BoolArray(Vec<bool>),
    Int32(i32),
    Int32Array(Vec<i32>),
    Bitfield(u32),
    BitfieldArray(Vec<u32>),
    Float32Bits(u32),
    Float32BitsArray(Vec<u32>),
    Float64Bits(u64),
    Float64BitsArray(Vec<u64>),
}

/// `v` is exactly the value that descriptor `d` denotes inside the buffer
/// bytes `buf`: elements are fixed-width and little-endian at `d.offset`,
/// char fields decode as text, signed and floating-point elements are
/// identified by their 32- or 64-bit patterns.
pub open spec fn value_matches(v: SampleValue, buf: Seq<u8>, d: VariableDescriptor) -> bool {
    let off = d.offset as int;
    match d.var_type {
        VariableType::Char => v matches SampleValue::Text(s) && trimmed_text(
            buf.subrange(off, off + d.count),
            s@,
        ),
        VariableType::Bool => if d.count == 1 {
            v matches SampleValue::Bool(b) && b == (buf[off] != 0)
        } else {
            v matches SampleValue::BoolArray(a) && a@.len() == d.count && forall|i: int|
                0 <= i < d.count ==> a@[i] == (buf[off + i] != 0)
        },
        VariableType::Int32 => if d.count == 1 {
            v matches SampleValue::Int32(x) && x as u32 == le_u32_at(buf, off)
        } else {
            v matches SampleValue::Int32Array(a) && a@.len() == d.count && forall|i: int|
                0 <= i < d.count ==> (#[trigger] a@[i]) as u32 == le_u32_at(buf, off + 4 * i)
        },
        VariableType::Bitfield32 => if d.count == 1 {
            v matches SampleValue::Bitfield(x) && x == le_u32_at(buf, off)
        } else {
            v matches SampleValue::BitfieldArray(a) && a@.len() == d.count && forall|i: int|
                0 <= i < d.count ==> #[trigger] a@[i] == le_u32_at(buf, off + 4 * i)
        },
        VariableType::Float32 => if d.count == 1 {
            v matches SampleValue::Float32Bits(x) && x == le_u32_at(buf, off)
        } else {
            v matches SampleValue::Float32BitsArray(a) && a@.len() == d.count && forall|i: int|
                0 <= i < d.count ==> #[trigger] a@[i] == le_u32_at(buf, off + 4 * i)
        },
        VariableType::Float64 => if d.count == 1 {
            v matches SampleValue::Float64Bits(x) && x == le_u64_at(buf, off)
        } else {
            v matches SampleValue::Float64BitsArray(a) && a@.len() == d.count && forall|i: int|
                0 <= i < d.count ==> #[trigger] a@[i] == le_u64_at(buf, off + 8 * i)
        },
    }
}

/// An owned, immutable snapshot of one buffer, paired with the catalog that
/// interprets it.
pub struct Sample {
    /// Tick at which the producer finished writing this buffer.
    pub tick: u32,
    /// Whether the bounded-retry fallback of buffer selection gave up on a
    /// consistent copy; the bytes may then mix two producer writes.
    pub possibly_stale: bool,
    /// The copied buffer bytes.
    pub buffer: Vec<u8>,
    /// The catalog the buffer is decoded against.
    pub catalog: VariableCatalog,
}

impl Sample {
    /// Every descriptor's byte range lies inside the owned buffer, so every
    /// decode is in bounds.
    pub open spec fn wf(&self) -> bool {
        self.catalog.fits(self.buffer@.len() as int)
    }

    /// Pair buffer bytes with the catalog that interprets them.
    pub fn new(tick: u32, possibly_stale: bool, buffer: Vec<u8>, catalog: VariableCatalog) -> (r:
        Sample)
        requires
            catalog.fits(buffer@.len() as int),
        ensures
            r.tick == tick,
            r.possibly_stale == possibly_stale,
            r.buffer == buffer,
            r.catalog == catalog,
            r.wf(),
    {
        Sample { tick, possibly_stale, buffer, catalog }
    }

    /// Decode the variable called `name`, in the shape and type its
    /// descriptor declares.  Fails with `NotFound` when the catalog has no
    /// such name.
    pub fn get(&self, name: &str) -> (r: Result<SampleValue, DecodeError>)
        requires
            self.wf(),
        ensures
            match r {
                Ok(v) => exists|i: int|
                    0 <= i < self.catalog.vars@.len() && (#[trigger] self.catalog.vars@[i]).name@
                        == name@ && value_matches(v, self.buffer@, self.catalog.vars@[i]),
                Err(e) => e == DecodeError::NotFound && !self.catalog.spec_contains_name(name@),
            },
    {
        let d = match self.catalog.lookup(name) {
            Some(d) => d,
            None => {
                return Err(DecodeError::NotFound);
            },
        };
        proof {
            let i = choose|i: int|
                0 <= i < self.catalog.vars@.len() && *d == self.catalog.vars@[i];
            assert(self.catalog.fits(self.buffer@.len() as int));
            assert(self.catalog.vars@[i].offset + spec_type_width(self.catalog.vars@[i].var_type)
                * self.catalog.vars@[i].count <= self.buffer@.len());
        }
        Ok(self.decode_descriptor(d))
    }

    /// The scalar 32-bit signed variable called `name`.
    ///
    /// `NotFound` when the catalog has no such name; `TypeMismatch` when
    /// the descriptor is not a scalar of the requested type.
    pub fn get_int32(&self, name: &str) -> (r: Result<i32, DecodeError>)
        requires
            self.wf(),
        ensures
            match r {
                Ok(x) => exists|i: int|
                    0 <= i < self.catalog.vars@.len() && (#[trigger] self.catalog.vars@[i]).name@
                        == name@ && self.catalog.vars@[i].var_type == VariableType::Int32
                        && self.catalog.vars@[i].count == 1 && x as u32 == le_u32_at(
                        self.buffer@,
                        self.catalog.vars@[i].offset as int,
                    ),
                Err(e) => (e == DecodeError::NotFound && !self.catalog.spec_contains_name(name@))
                    || (e == DecodeError::TypeMismatch && exists|i: int|
                    0 <= i < self.catalog.vars@.len() && (#[trigger] self.catalog.vars@[i]).name@
                        == name@ && !(self.catalog.vars@[i].var_type == VariableType::Int32
                        && self.catalog.vars@[i].count == 1)),
            },
    {
        match self.get(name) {
            Ok(SampleValue::Int32(x)) => Ok(x),
            Ok(_) => Err(DecodeError::TypeMismatch),
            Err(e) => Err(e),
        }
    }

    /// The scalar boolean variable called `name`.
    ///
    /// `NotFound` when the catalog has no such name; `TypeMismatch` when
    /// the descriptor is not a scalar of the requested type.
    pub fn get_bool(&self, name: &str) -> (r: Result<bool, DecodeError>)
        requires
            self.wf(),
        ensures
            match r {
                Ok(x) => exists|i: int|
                    0 <= i < self.catalog.vars@.len() && (#[trigger] self.catalog.vars@[i]).name@
                        == name@ && self.catalog.vars@[i].var_type == VariableType::Bool
                        && self.catalog.vars@[i].count == 1 && x == (self.buffer@[self.catalog.vars@[i].offset as int]
                        != 0),
                Err(e) => (e == DecodeError::NotFound && !self.catalog.spec_contains_name(name@))
                    || (e == DecodeError::TypeMismatch && exists|i: int|
                    0 <= i < self.catalog.vars@.len() && (#[trigger] self.catalog.vars@[i]).name@
                        == name@ && !(self.catalog.vars@[i].var_type == VariableType::Bool
                        && self.catalog.vars@[i].count == 1)),
            },
    {
        match self.get(name) {
            Ok(SampleValue::Bool(x)) => Ok(x),
            Ok(_) => Err(DecodeError::TypeMismatch),
            Err(e) => Err(e),
        }
    }

    /// The scalar 32-bit flag-set variable called `name`.
    ///
    /// `NotFound` when the catalog has no such name; `TypeMismatch` when
    /// the descriptor is not a scalar of the requested type.
    pub fn get_bitfield(&self, name: &str) -> (r: Result<u32, DecodeError>)
        requires
            self.wf(),
        ensures
            match r {
                Ok(x) => exists|i: int|
                    0 <= i < self.catalog.vars@.len() && (#[trigger] self.catalog.vars@[i]).name@
                        == name@ && self.catalog.vars@[i].var_type == VariableType::Bitfield32
                        && self.catalog.vars@[i].count == 1 && x == le_u32_at(
                        self.buffer@,
                        self.catalog.vars@[i].offset as int,
                    ),
                Err(e) => (e == DecodeError::NotFound && !self.catalog.spec_contains_name(name@))
                    || (e == DecodeError::TypeMismatch && exists|i: int|
                    0 <= i < self.catalog.vars@.len() && (#[trigger] self.catalog.vars@[i]).name@
                        == name@ && !(self.catalog.vars@[i].var_type == VariableType::Bitfield32
                        && self.catalog.vars@[i].count == 1)),
            },
    {
        match self.get(name) {
            Ok(SampleValue::Bitfield(x)) => Ok(x),
            Ok(_) => Err(DecodeError::TypeMismatch),
            Err(e) => Err(e),
        }
    }

    /// The bit pattern of the scalar 32-bit floating-point variable called
    /// `name`.
    ///
    /// `NotFound` when the catalog has no such name; `TypeMismatch` when
    /// the descriptor is not a scalar of the requested type.
    pub fn get_float32_bits(&self, name: &str) -> (r: Result<u32, DecodeError>)
        requires
            self.wf(),
        ensures
            match r {
                Ok(x) => exists|i: int|
                    0 <= i < self.catalog.vars@.len() && (#[trigger] self.catalog.vars@[i]).name@
                        == name@ && self.catalog.vars@[i].var_type == VariableType::Float32
                        && self.catalog.vars@[i].count == 1 && x == le_u32_at(
                        self.buffer@,
                        self.catalog.vars@[i].offset as int,
                    ),
                Err(e) => (e == DecodeError::NotFound && !self.catalog.spec_contains_name(name@))
                    || (e == DecodeError::TypeMismatch && exists|i: int|
                    0 <= i < self.catalog.vars@.len() && (#[trigger] self.catalog.vars@[i]).name@
                        == name@ && !(self.catalog.vars@[i].var_type == VariableType::Float32
                        && self.catalog.vars@[i].count == 1)),
            },
    {
        match self.get(name) {
            Ok(SampleValue::Float32Bits(x)) => Ok(x),
            Ok(_) => Err(DecodeError::TypeMismatch),
            Err(e) => Err(e),
        }
    }

    /// The bit pattern of the scalar 64-bit floating-point variable called
    /// `name`.
    ///
    /// `NotFound` when the catalog has no such name; `TypeMismatch` when
    /// the descriptor is not a scalar of the requested type.
    pub fn get_float64_bits(&self, name: &str) -> (r: Result<u64, DecodeError>)
        requires
            self.wf(),
        ensures
            match r {
                Ok(x) => exists|i: int|
                    0 <= i < self.catalog.vars@.len() && (#[trigger] self.catalog.vars@[i]).name@
                        == name@ && self.catalog.vars@[i].var_type == VariableType::Float64
                        && self.catalog.vars@[i].count == 1 && x == le_u64_at(
                        self.buffer@,
                        self.catalog.vars@[i].offset as int,
                    ),
                Err(e) => (e == DecodeError::NotFound && !self.catalog.spec_contains_name(name@))
                    || (e == DecodeError::TypeMismatch && exists|i: int|
                    0 <= i < self.catalog.vars@.len() && (#[trigger] self.catalog.vars@[i]).name@
                        == name@ && !(self.catalog.vars@[i].var_type == VariableType::Float64
                        && self.catalog.vars@[i].count == 1)),
            },
    {
        match self.get(name) {
            Ok(SampleValue::Float64Bits(x)) => Ok(x),
            Ok(_) => Err(DecodeError::TypeMismatch),
            Err(e) => Err(e),
        }
    }

    /// The char-typed variable called `name`, as text cut at the first
    /// NUL.
    ///
    /// `NotFound` when the catalog has no such name; `TypeMismatch` when
    /// the descriptor is not char-typed.
    pub fn get_text(&self, name: &str) -> (r: Result<String, DecodeError>)
        requires
            self.wf(),
        ensures
            match r {
                Ok(s) => exists|i: int|
                    0 <= i < self.catalog.vars@.len() && (#[trigger] self.catalog.vars@[i]).name@
                        == name@ && self.catalog.vars@[i].var_type == VariableType::Char
                        && trimmed_text(
                        self.buffer@.subrange(
                            self.catalog.vars@[i].offset as int,
                            self.catalog.vars@[i].offset + self.catalog.vars@[i].count,
                        ),
                        s@,
                    ),
                Err(e) => (e == DecodeError::NotFound && !self.catalog.spec_contains_name(name@))
                    || (e == DecodeError::TypeMismatch && exists|i: int|
                    0 <= i < self.catalog.vars@.len() && (#[trigger] self.catalog.vars@[i]).name@
                        == name@ && self.catalog.vars@[i].var_type != VariableType::Char),
            },
    {
        match self.get(name) {
            Ok(SampleValue::Text(s)) => Ok(s),
            Ok(_) => Err(DecodeError::TypeMismatch),
            Err(e) => Err(e),
        }
    }

    /// Decode the value that descriptor `d` locates in the owned buffer.
    fn decode_descriptor(&self, d: &VariableDescriptor) -> (v: SampleValue)
        requires
            d.offset + spec_type_width(d.var_type) * d.count <= self.buffer@.len(),
        ensures
            value_matches(v, self.buffer@, *d),
    {
        let off = d.offset as usize;
        let count = d.count as usize;
        let n = self.buffer.len();
        proof {
            assert(spec_type_width(d.var_type) * d.count >= 1 * d.count) by (nonlinear_arith)
                requires
                    spec_type_width(d.var_type) >= 1,
                    d.count >= 0,
            ;
        }
        match d.var_type {
            VariableType::Char => SampleValue::Text(trimmed_latin1(&self.buffer, off, count)),
            VariableType::Bool => {
                if count == 1 {
                    SampleValue::Bool(self.buffer[off] != 0)
                } else {
                    let mut a: Vec<bool> = Vec::new();
                    let mut i: usize = 0;
                    while i < count
                        invariant
                            i <= count,
                            off + count <= n == self.buffer@.len(),
                            a@.len() == i,
                            forall|j: int| 0 <= j < i ==> a@[j] == (self.buffer@[off + j] != 0),
                        decreases count - i,
                    {
                        a.push(self.buffer[off + i] != 0);
                        i = i + 1;
                    }
                    SampleValue::BoolArray(a)
                }
            },
            VariableType::Int32 => {
                proof {
                    lemma_mul_bound(4, d.count as int, self.buffer@.len() as int, d.offset as int);
                }
                if count == 1 {
                    SampleValue::Int32(read_i32(&self.buffer, off))
                } else {
                    let mut a: Vec<i32> = Vec::new();
                    let mut i: usize = 0;
                    while i < count
                        invariant
                            i <= count,
                            off + 4 * count <= n == self.buffer@.len(),
                            a@.len() == i,
                            forall|j: int| 0 <= j < i ==> (#[trigger] a@[j]) as u32 == le_u32_at(
                                self.buffer@,
                                off + 4 * j,
                            ),
                        decreases count - i,
                    {
                        a.push(read_i32(&self.buffer, off + 4 * i));
                        i = i + 1;
                    }
                    SampleValue::Int32Array(a)
                }
            },
            VariableType::Bitfield32 => {
                proof {
                    lemma_mul_bound(4, d.count as int, self.buffer@.len() as int, d.offset as int);
                }
                if count == 1 {
                    SampleValue::Bitfield(read_u32(&self.buffer, off))
                } else {
                    let mut a: Vec<u32> = Vec::new();
                    let mut i: usize = 0;
                    while i < count
                        invariant
                            i <= count,
                            off + 4 * count <= n == self.buffer@.len(),
                            a@.len() == i,
                            forall|j: int| 0 <= j < i ==> #[trigger] a@[j] == le_u32_at(
                                self.buffer@,
                                off + 4 * j,
                            ),
                        decreases count - i,
                    {
                        a.push(read_u32(&self.buffer, off + 4 * i));
                        i = i + 1;
                    }
                    SampleValue::BitfieldArray(a)
                }
            },
            VariableType::Float32 => {
                proof {
                    lemma_mul_bound(4, d.count as int, self.buffer@.len() as int, d.offset as int);
                }
                if count == 1 {
                    SampleValue::Float32Bits(read_u32(&self.buffer, off))
                } else {
                    let mut a: Vec<u32> = Vec::new();
                    let mut i: usize = 0;
                    while i < count
                        invariant
                            i <= count,
                            off + 4 * count <= n == self.buffer@.len(),
                            a@.len() == i,
                            forall|j: int| 0 <= j < i ==> #[trigger] a@[j] == le_u32_at(
                                self.buffer@,
                                off + 4 * j,
                            ),
                        decreases count - i,
                    {
                        a.push(read_u32(&self.buffer, off + 4 * i));
                        i = i + 1;
                    }
                    SampleValue::Float32BitsArray(a)
                }
            },
            VariableType::Float64 => {
                proof {
                    lemma_mul_bound(8, d.count as int, self.buffer@.len() as int, d.offset as int);
                }
                if count == 1 {
                    SampleValue::Float64Bits(read_u64(&self.buffer, off))
                } else {
                    let mut a: Vec<u64> = Vec::new();
                    let mut i: usize = 0;
                    while i < count
                        invariant
                            i <= count,
                            off + 8 * count <= n == self.buffer@.len(),
                            a@.len() == i,
                            forall|j: int| 0 <= j < i ==> #[trigger] a@[j] == le_u64_at(
                                self.buffer@,
                                off + 8 * j,
                            ),
                        decreases count - i,
                    {
                        a.push(read_u64(&self.buffer, off + 8 * i));
                        i = i + 1;
                    }
                    SampleValue::Float64BitsArray(a)
                }
            },
        }
    }
}

/// From `w * count <= len - off` for the actual element width `w`, conclude
/// the bound needed for elementwise access.
proof fn lemma_mul_bound(w: int, count: int, len: int, off: int)
    requires
        w >= 1,
        count >= 0,
        off + w * count <= len,
    ensures
        forall|j: int| 0 <= j < count ==> off + #[trigger] (w * j) + w <= len,
{
    assert forall|j: int| 0 <= j < count implies off + #[trigger] (w * j) + w <= len by {
        assert(w * j + w == w * (j + 1)) by (nonlinear_arith);
        assert(w * (j + 1) <= w * count) by (nonlinear_arith)
            requires
                w >= 1,
                j + 1 <= count,
        ;
    }
}

/// Little-endian 32-bit read from an owned buffer.
fn read_u32(buf: &Vec<u8>, off: usize) -> (r: u32)
    requires
        off + 4 <= buf@.len(),
    ensures
        r == le_u32_at(buf@, off as int),
{
    let n = buf.len();
    let b0 = buf[off] as u32;
    let b1 = buf[off + 1] as u32;
    let b2 = buf[off + 2] as u32;
    let b3 = buf[off + 3] as u32;
    b0 + 0x100 * b1 + 0x1_0000 * b2 + 0x100_0000 * b3
}

/// Little-endian 64-bit read from an owned buffer.
fn read_u64(buf: &Vec<u8>, off: usize) -> (r: u64)
    requires
        off + 8 <= buf@.len(),
    ensures
        r == le_u64_at(buf@, off as int),
{
    let n = buf.len();
    let lo = read_u32(buf, off);
    let hi = read_u32(buf, off + 4);
    lo as u64 + 0x1_0000_0000 * (hi as u64)
}

/// The signed 32-bit value whose little-endian bit pattern sits at `off`.
fn read_i32(buf: &Vec<u8>, off: usize) -> (r: i32)
    requires
        off + 4 <= buf@.len(),
    ensures
        r as u32 == le_u32_at(buf@, off as int),
{
    let u = read_u32(buf, off);
    let r = u as i32;
    proof {
        assert((u as i32) as u32 == u) by (bit_vector);
    }
    r
}

} // verus!
