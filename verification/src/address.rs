//! Addresses: a location in the target's memory model, given by an owning
//! space and an unsigned 64-bit offset.
//!
//! An address is either invalid (a sentinel carrying no location) or denotes
//! an offset within some registered space. All query operations are pure;
//! on an invalid address they return a zero/false/negative sentinel rather
//! than failing. Only `to_physical` mutates, and demands a valid address.

use crate::space::{AddrSpace, SpaceType};
use vstd::arithmetic::div_mod::{lemma_mod_multiples_vanish, lemma_small_mod};
use vstd::prelude::*;

verus! {

/// Two to the sixty-fourth: offsets wrap modulo this when arithmetic leaves
/// the 64-bit range, mirroring the engine's unsigned offset arithmetic.
pub const OFFSET_MODULUS: u128 = 0x1_0000_0000_0000_0000;

/// `x` reduced modulo two to the sixty-fourth, into `[0, 2^64)`.
pub open spec fn wrap64(x: int) -> int {
    x % 0x1_0000_0000_0000_0000
}

/// The set of byte positions `[off, off + sz)`.
pub open spec fn byte_range(off: int, sz: int) -> Set<int> {
    Set::new(|i: int| off <= i < off + sz)
}

/// A location: an owning space and an offset within it, or the invalid
/// sentinel (no space, offset zero).
#[derive(Debug)]
pub struct Address {
    pub space: Option<AddrSpace>,
    pub offset: u64,
}

impl Address {
    /// Well-formedness: a valid address lies within a well-formed space;
    /// the invalid sentinel carries offset zero.
    pub open spec fn wf(self) -> bool {
        match self.space {
            Some(s) => s.wf() && self.offset <= s.highest,
            None => self.offset == 0,
        }
    }

    /// Whether this is the invalid sentinel.
    pub open spec fn spec_is_invalid(self) -> bool {
        self.space is None
    }

    /// Whether `self` and `other` lie in the same registered space. Spaces
    /// are identified by their unique index.
    pub open spec fn spec_same_space(self, other: Address) -> bool {
        &&& self.space is Some
        &&& other.space is Some
        &&& self.space->Some_0.index == other.space->Some_0.index
    }

    /// The owning space's address size in bytes; zero for the invalid
    /// sentinel.
    pub open spec fn spec_addr_size(self) -> u32 {
        match self.space {
            Some(s) => s.addr_size,
            None => 0,
        }
    }

    /// The owning space's endianness; little-endian for the invalid
    /// sentinel.
    pub open spec fn spec_is_big_endian(self) -> bool {
        match self.space {
            Some(s) => s.big_endian,
            None => false,
        }
    }

    /// An address at `offset` within `space`.
    pub fn new(space: AddrSpace, offset: u64) -> (r: Address)
        requires
            space.wf(),
            offset <= space.highest,
        ensures
            r.wf(),
            r.space == Some(space),
            r.offset == offset,
            !r.spec_is_invalid(),
    {
        Address { space: Some(space), offset }
    }

    /// The invalid sentinel address.
    pub fn invalid() -> (r: Address)
        ensures
            r.wf(),
            r.spec_is_invalid(),
            r.offset == 0,
    {
        Address { space: None, offset: 0 }
    }

    /// Validity test.
    pub fn is_invalid(&self) -> (r: bool)
        ensures
            r == self.spec_is_invalid(),
    {
        match &self.space {
            Some(_) => false,
            None => true,
        }
    }

    /// The offset within the owning space (zero for the invalid sentinel,
    /// by the well-formedness invariant).
    pub fn get_offset(&self) -> (r: u64)
        ensures
            r == self.offset,
    {
        self.offset
    }

    /// A borrowed view of the owning space, if the address is valid.
    pub fn get_space(&self) -> (r: Option<&AddrSpace>)
        ensures
            match r {
                Some(s) => self.space == Some(*s),
                None => self.space is None,
            },
    {
        self.space.as_ref()
    }

    /// The owning space's address size in bytes; zero if invalid.
    pub fn get_addr_size(&self) -> (r: u32)
        ensures
            r == self.spec_addr_size(),
    {
        match &self.space {
            Some(s) => s.addr_size,
            None => 0,
        }
    }

    /// The owning space's endianness; false if invalid.
    pub fn is_big_endian(&self) -> (r: bool)
        ensures
            r == self.spec_is_big_endian(),
    {
        match &self.space {
            Some(s) => s.big_endian,
            None => false,
        }
    }

    /// Whether the address lies in the constant space, where the offset
    /// encodes an immediate value rather than a storage location.
    pub fn is_constant(&self) -> (r: bool)
        ensures
            r == (self.space is Some && self.space->Some_0.kind == SpaceType::Constant),
    {
        match &self.space {
            Some(s) => s.kind == SpaceType::Constant,
            None => false,
        }
    }

    /// Whether the address lies in a join (piece-concatenation) space.
    pub fn is_join(&self) -> (r: bool)
        ensures
            r == (self.space is Some && self.space->Some_0.kind == SpaceType::Join),
    {
        match &self.space {
            Some(s) => s.kind == SpaceType::Join,
            None => false,
        }
    }

    /// An exact copy. Addresses are value types copied freely.
    pub fn duplicate(&self) -> (r: Address)
        ensures
            r == *self,
    {
        Address {
            space: match &self.space {
                Some(s) => Some(s.duplicate()),
                None => None,
            },
            offset: self.offset,
        }
    }

    /// Whether the byte range `[self.offset, self.offset + sz)` is wholly
    /// inside `[other.offset, other.offset + osz)` of the same space.
    pub open spec fn spec_contained_by(self, sz: int, other: Address, osz: int) -> bool {
        &&& self.spec_same_space(other)
        &&& other.offset <= self.offset
        &&& self.offset + sz <= other.offset + osz
    }

    /// Containment test: is this address's `sz`-byte range wholly inside
    /// `op2`'s `sz2`-byte range? Always false across different spaces and
    /// for invalid addresses.
    pub fn contained_by(&self, sz: i32, op2: &Address, sz2: i32) -> (r: bool)
        requires
            1 <= sz,
            1 <= sz2,
        ensures
            r == self.spec_contained_by(sz as int, *op2, sz2 as int),
    {
        match (&self.space, &op2.space) {
            (Some(s), Some(os)) => {
                if s.index != os.index {
                    false
                } else {
                    let lo_ok = op2.offset <= self.offset;
                    let self_end: i128 = self.offset as i128 + sz as i128;
                    let other_end: i128 = op2.offset as i128 + sz2 as i128;
                    lo_ok && self_end <= other_end
                }
            },
            _ => false,
        }
    }

    /// The byte offset at which `other`'s `osz`-byte range begins inside
    /// this address's `sz`-byte range under justified packing, or -1 when
    /// not contained. A big-endian space (unless `forceleft` overrides it)
    /// justifies against the most-significant end, so the offset counts
    /// from the high end of the ranges.
    pub open spec fn spec_justified_contain(
        self,
        sz: int,
        other: Address,
        osz: int,
        forceleft: bool,
    ) -> int {
        if !self.spec_same_space(other) {
            -1
        } else if other.offset < self.offset {
            -1
        } else if self.offset + sz < other.offset + osz {
            -1
        } else if self.space->Some_0.big_endian && !forceleft {
            (self.offset + sz) - (other.offset + osz)
        } else {
            other.offset - self.offset
        }
    }

    /// Justified containment test; see `spec_justified_contain`.
    pub fn justified_contain(&self, sz: i32, op2: &Address, sz2: i32, forceleft: bool) -> (r: i32)
        requires
            1 <= sz,
            1 <= sz2,
        ensures
            r as int == self.spec_justified_contain(sz as int, *op2, sz2 as int, forceleft),
    {
        match (&self.space, &op2.space) {
            (Some(s), Some(os)) => {
                if s.index != os.index {
                    -1
                } else if op2.offset < self.offset {
                    -1
                } else {
                    let self_end: i128 = self.offset as i128 + sz as i128;
                    let other_end: i128 = op2.offset as i128 + sz2 as i128;
                    if self_end < other_end {
                        -1
                    } else if s.big_endian && !forceleft {
                        (self_end - other_end) as i32
                    } else {
                        (op2.offset - self.offset) as i32
                    }
                }
            },
            _ => -1,
        }
    }

    /// The overlap distance: where `self.offset + skip` falls within
    /// `other`'s `size`-byte range, after wrapping into the space's
    /// representable offsets; -1 when it falls outside, when the spaces
    /// differ, or when the space holds constants (immediates never overlap
    /// storage).
    pub open spec fn spec_overlap(self, skip: int, other: Address, size: int) -> int {
        if !self.spec_same_space(other) {
            -1
        } else if self.space->Some_0.kind == SpaceType::Constant {
            -1
        } else {
            let dist = self.space->Some_0.spec_wrap_offset(
                wrap64(self.offset + skip - other.offset) as u64,
            );
            if dist >= size {
                -1
            } else {
                dist as int
            }
        }
    }

    /// Overlap test; see `spec_overlap`.
    pub fn overlap(&self, skip: i32, op: &Address, size: i32) -> (r: i32)
        requires
            0 <= skip,
            0 <= size,
        ensures
            r as int == self.spec_overlap(skip as int, *op, size as int),
    {
        match (&self.space, &op.space) {
            (Some(s), Some(os)) => {
                if s.index != os.index {
                    -1
                } else if s.kind == SpaceType::Constant {
                    -1
                } else {
                    let raw: u128 = self.offset as u128 + skip as u128 + OFFSET_MODULUS
                        - op.offset as u128;
                    let dmod: u128 = raw % OFFSET_MODULUS;
                    proof {
                        lemma_mod_multiples_vanish(
                            1,
                            self.offset + skip - op.offset,
                            0x1_0000_0000_0000_0000,
                        );
                    }
                    let dist: u64 = s.wrap_offset(dmod as u64);
                    if dist >= size as u64 {
                        -1
                    } else {
                        dist as i32
                    }
                }
            },
            _ => -1,
        }
    }

    /// Whether `self` (the most-significant piece) and `loaddr` (the
    /// least-significant piece, `losz` bytes) form one contiguous value:
    /// in a big-endian space the low piece starts right after the high
    /// piece's `sz` bytes; in a little-endian space the high piece starts
    /// right after the low piece's `losz` bytes.
    pub open spec fn spec_is_contiguous(self, sz: int, loaddr: Address, losz: int) -> bool {
        &&& self.spec_same_space(loaddr)
        &&& if self.space->Some_0.big_endian {
            self.space->Some_0.spec_wrap_offset(wrap64(self.offset + sz) as u64) == loaddr.offset
        } else {
            self.space->Some_0.spec_wrap_offset(wrap64(loaddr.offset + losz) as u64) == self.offset
        }
    }

    /// Contiguity test; see `spec_is_contiguous`.
    pub fn is_contiguous(&self, sz: i32, loaddr: &Address, losz: i32) -> (r: bool)
        requires
            0 <= sz,
            0 <= losz,
        ensures
            r == self.spec_is_contiguous(sz as int, *loaddr, losz as int),
    {
        match (&self.space, &loaddr.space) {
            (Some(s), Some(os)) => {
                if s.index != os.index {
                    false
                } else if s.big_endian {
                    let raw: u128 = self.offset as u128 + sz as u128;
                    let dmod: u128 = raw % OFFSET_MODULUS;
                    proof {
                        lemma_small_mod_fact(self.offset + sz);
                    }
                    s.wrap_offset(dmod as u64) == loaddr.offset
                } else {
                    let raw: u128 = loaddr.offset as u128 + losz as u128;
                    let dmod: u128 = raw % OFFSET_MODULUS;
                    proof {
                        lemma_small_mod_fact(loaddr.offset + losz);
                    }
                    s.wrap_offset(dmod as u64) == self.offset
                }
            },
            _ => false,
        }
    }

    /// Replace an overlay-space address by its physical backing: the same
    /// offset within the space the overlay contains. Any other valid
    /// address is left unchanged. Mutating an invalid address is a
    /// contract violation, so validity is demanded.
    pub fn to_physical(&mut self)
        requires
            old(self).wf(),
            !old(self).spec_is_invalid(),
        ensures
            final(self).wf(),
            old(self).space->Some_0.overlay ==> {
                &&& final(self).space == Some(*old(self).space->Some_0.contain->Some_0)
                &&& final(self).offset == old(self).space->Some_0.contain->Some_0.spec_wrap_offset(
                    old(self).offset,
                )
            },
            !old(self).space->Some_0.overlay ==> *final(self) == *old(self),
    {
        let sp = self.space.take();
        match sp {
            Some(s) => {
                if s.overlay {
                    match s.contain {
                        Some(base) => {
                            if self.offset > base.highest {
                                self.offset = base.wrap_offset(self.offset);
                            }
                            assert(self.offset <= base.highest);
                            self.space = Some(*base);
                        },
                        None => {
                            // unreachable: well-formed overlays carry their base
                            self.space = Some(s);
                        },
                    }
                } else {
                    self.space = Some(s);
                }
            },
            None => {},
        }
    }
}

/// `x % 2^64 == x` for `x` already in range.
proof fn lemma_small_mod_fact(x: int)
    requires
        0 <= x,
    ensures
        x < 0x1_0000_0000_0000_0000 ==> wrap64(x) == x,
{
    if x < 0x1_0000_0000_0000_0000 {
        lemma_small_mod(x as nat, 0x1_0000_0000_0000_0000);
    }
}

/// For all valid (address, space) pairs, the address is not invalid and the
/// size/endianness queries agree with the owning space's declaration.
pub proof fn lemma_valid_address_queries(a: Address)
    requires
        a.wf(),
        a.space is Some,
    ensures
        !a.spec_is_invalid(),
        a.spec_addr_size() == a.space->Some_0.addr_size,
        a.spec_is_big_endian() == a.space->Some_0.big_endian,
{
}

/// Containment is exactly byte-range inclusion: within one space,
/// `spec_contained_by` holds iff the byte positions `[a.offset, a.offset+sz)`
/// form a subset of `[b.offset, b.offset+osz)`; across different spaces (or
/// on an invalid address) it never holds.
pub proof fn lemma_contained_by_is_range_subset(a: Address, sz: int, b: Address, osz: int)
    requires
        1 <= sz,
        1 <= osz,
    ensures
        a.spec_same_space(b) ==> (a.spec_contained_by(sz, b, osz) <==> byte_range(
            a.offset as int,
            sz,
        ).subset_of(byte_range(b.offset as int, osz))),
        !a.spec_same_space(b) ==> !a.spec_contained_by(sz, b, osz),
{
    if a.spec_same_space(b) {
        let ra = byte_range(a.offset as int, sz);
        let rb = byte_range(b.offset as int, osz);
        if a.spec_contained_by(sz, b, osz) {
            assert forall|i: int| ra.contains(i) implies rb.contains(i) by {}
            assert(ra.subset_of(rb));
        }
        if ra.subset_of(rb) {
            assert(ra.contains(a.offset as int));
            assert(rb.contains(a.offset as int));
            assert(ra.contains(a.offset + sz - 1));
            assert(rb.contains(a.offset + sz - 1));
        }
    }
}

/// Within one non-constant space whose offsets span the full 64-bit range,
/// and with `other`'s range not wrapping, the overlap result is -1 exactly
/// when the skipped position misses `other`'s byte range, and otherwise is
/// the non-negative distance into that range.
pub proof fn lemma_overlap_intersection(a: Address, skip: int, b: Address, size: int)
    requires
        a.spec_same_space(b),
        a.space->Some_0.kind != SpaceType::Constant,
        a.space->Some_0.highest == u64::MAX,
        0 <= skip,
        0 <= size,
        a.offset + skip < 0x1_0000_0000_0000_0000,
        b.offset + size <= 0x1_0000_0000_0000_0000,
    ensures
        (a.spec_overlap(skip, b, size) == -1) <==> !(b.offset <= a.offset + skip < b.offset
            + size),
        b.offset <= a.offset + skip < b.offset + size ==> a.spec_overlap(skip, b, size)
            == a.offset + skip - b.offset,
{
    let point = a.offset + skip;
    let m = 0x1_0000_0000_0000_0000;
    if point >= b.offset {
        lemma_small_mod((point - b.offset) as nat, m as nat);
        assert(wrap64(point - b.offset) == point - b.offset);
    } else {
        lemma_mod_multiples_vanish(1, point - b.offset, m);
        lemma_small_mod((point + m - b.offset) as nat, m as nat);
        assert(wrap64(point - b.offset) == point + m - b.offset);
        assert(point + m - b.offset >= size);
    }
}

} // verus!
