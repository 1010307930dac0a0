//! Address spaces: the named, independently-addressed memory regions an
//! address can belong to, and the registry that holds them.
//!
//! Spaces are created once when the engine is configured and are read-only
//! afterwards; addresses refer to them by value.

use vstd::prelude::*;

verus! {

/// The closed enumeration of space kinds. The numeric values form a stable
/// wire table: `0` is `Constant` through `6` is `Join`.
#[derive(Clone, Copy, Debug, PartialEq, Eq, Structural)]
pub enum SpaceType {
    Constant,
    Processor,
    SpaceBase,
    Internal,
    Fspec,
    Iop,
    Join,
}

impl SpaceType {
    /// The numeric wire value of this kind.
    pub open spec fn spec_code(self) -> u32 {
        match self {
            SpaceType::Constant => 0,
            SpaceType::Processor => 1,
            SpaceType::SpaceBase => 2,
            SpaceType::Internal => 3,
            SpaceType::Fspec => 4,
            SpaceType::Iop => 5,
            SpaceType::Join => 6,
        }
    }

    /// The kind a numeric wire value stands for, if any.
    pub open spec fn spec_from_u32(val: u32) -> Option<SpaceType> {
        if val == 0 {
            Some(SpaceType::Constant)
        } else if val == 1 {
            Some(SpaceType::Processor)
        } else if val == 2 {
            Some(SpaceType::SpaceBase)
        } else if val == 3 {
            Some(SpaceType::Internal)
        } else if val == 4 {
            Some(SpaceType::Fspec)
        } else if val == 5 {
            Some(SpaceType::Iop)
        } else if val == 6 {
            Some(SpaceType::Join)
        } else {
            None
        }
    }

    /// Decode a numeric wire value; values outside the table yield `None`.
    pub fn from_u32(val: u32) -> (r: Option<SpaceType>)
        ensures
            r == SpaceType::spec_from_u32(val),
    {
        match val {
            0 => Some(SpaceType::Constant),
            1 => Some(SpaceType::Processor),
            2 => Some(SpaceType::SpaceBase),
            3 => Some(SpaceType::Internal),
            4 => Some(SpaceType::Fspec),
            5 => Some(SpaceType::Iop),
            6 => Some(SpaceType::Join),
            _ => None,
        }
    }

    /// Encode this kind as its numeric wire value.
    pub fn code(self) -> (c: u32)
        ensures
            c == self.spec_code(),
    {
        match self {
            SpaceType::Constant => 0,
            SpaceType::Processor => 1,
            SpaceType::SpaceBase => 2,
            SpaceType::Internal => 3,
            SpaceType::Fspec => 4,
            SpaceType::Iop => 5,
            SpaceType::Join => 6,
        }
    }
}

/// Every space-kind wire value in the table decodes to the kind that encodes
/// back to it, and every kind round-trips through its wire value.
pub proof fn lemma_space_type_round_trip(val: u32, t: SpaceType)
    ensures
        val <= 6 ==> {
            &&& SpaceType::spec_from_u32(val) is Some
            &&& SpaceType::spec_from_u32(val)->Some_0.spec_code() == val
        },
        val > 6 ==> SpaceType::spec_from_u32(val) is None,
        SpaceType::spec_from_u32(t.spec_code()) == Some(t),
{
}

/// One named memory region of the target's memory model.
///
/// A space is identified by its unique `index`; `highest` is the largest
/// representable offset. An overlay space carries the space it overlays in
/// `contain`.
#[derive(Debug)]
pub struct AddrSpace {
    pub name: String,
    pub kind: SpaceType,
    pub index: i32,
    pub word_size: u32,
    pub addr_size: u32,
    pub highest: u64,
    pub pointer_lower_bound: u64,
    pub pointer_upper_bound: u64,
    pub minimum_ptr_size: i32,
    pub delay: i32,
    pub deadcode_delay: i32,
    pub big_endian: bool,
    pub heritaged: bool,
    pub has_physical: bool,
    pub reverse_justified: bool,
    pub overlay: bool,
    pub overlay_base: bool,
    pub other_space: bool,
    pub truncated: bool,
    pub near_pointers: bool,
    pub contain: Option<Box<AddrSpace>>,
}

impl AddrSpace {
    /// Well-formedness: sizes are positive, and an overlay space names the
    /// space it overlays, itself well-formed.
    pub open spec fn wf(self) -> bool
        decreases self,
    {
        &&& self.addr_size >= 1
        &&& self.word_size >= 1
        &&& self.overlay ==> self.contain is Some
        &&& match self.contain {
            Some(base) => base.wf(),
            None => true,
        }
    }

    /// `off` brought back into this space's representable range by wrapping
    /// modulo `highest + 1`.
    pub open spec fn spec_wrap_offset(self, off: u64) -> u64 {
        if off <= self.highest {
            off
        } else {
            ((off as int) % (self.highest as int + 1)) as u64
        }
    }

    /// Wrap an offset into the space's representable range.
    pub fn wrap_offset(&self, off: u64) -> (r: u64)
        ensures
            r == self.spec_wrap_offset(off),
    {
        if off <= self.highest {
            off
        } else {
            let m: u128 = (self.highest as u128) + 1;
            let r: u128 = (off as u128) % m;
            assert(r < m);
            r as u64
        }
    }

    /// An exact copy of this space descriptor. Spaces are read-only values;
    /// copying one never aliases engine state.
    pub fn duplicate(&self) -> (r: AddrSpace)
        ensures
            r == *self,
        decreases *self,
    {
        AddrSpace {
            name: self.name.clone(),
            kind: self.kind,
            index: self.index,
            word_size: self.word_size,
            addr_size: self.addr_size,
            highest: self.highest,
            pointer_lower_bound: self.pointer_lower_bound,
            pointer_upper_bound: self.pointer_upper_bound,
            minimum_ptr_size: self.minimum_ptr_size,
            delay: self.delay,
            deadcode_delay: self.deadcode_delay,
            big_endian: self.big_endian,
            heritaged: self.heritaged,
            has_physical: self.has_physical,
            reverse_justified: self.reverse_justified,
            overlay: self.overlay,
            overlay_base: self.overlay_base,
            other_space: self.other_space,
            truncated: self.truncated,
            near_pointers: self.near_pointers,
            contain: match &self.contain {
                Some(base) => Some(Box::new(base.duplicate())),
                None => None,
            },
        }
    }

    /// Whether this space and `other` are the same registered space.
    pub fn same_space(&self, other: &AddrSpace) -> (r: bool)
        ensures
            r == (self.index == other.index),
    {
        self.index == other.index
    }
}

/// The registry of all spaces the engine was configured with, in index order.
pub struct SpaceRegistry {
    pub spaces: Vec<AddrSpace>,
}

impl SpaceRegistry {
    /// Each registered space is well-formed and sits at the position its
    /// unique index names.
    pub open spec fn wf(self) -> bool {
        forall|i: int|
            0 <= i < self.spaces.len() ==> {
                &&& (#[trigger] self.spaces[i]).wf()
                &&& self.spaces[i].index == i
            }
    }

    /// An empty registry.
    pub fn new() -> (r: SpaceRegistry)
        ensures
            r.wf(),
            r.spaces.len() == 0,
    {
        SpaceRegistry { spaces: Vec::new() }
    }

    /// Register the next space; its index must be the next free one.
    pub fn register(&mut self, space: AddrSpace)
        requires
            old(self).wf(),
            space.wf(),
            space.index == old(self).spaces.len() as i32,
            old(self).spaces.len() < i32::MAX,
        ensures
            final(self).wf(),
            final(self).spaces@ == old(self).spaces@.push(space),
    {
        self.spaces.push(space);
    }

    /// The number of registered spaces.
    pub fn len(&self) -> (n: usize)
        ensures
            n == self.spaces.len(),
    {
        self.spaces.len()
    }

    /// The space registered under `index`, if any.
    pub fn get(&self, index: usize) -> (r: Option<&AddrSpace>)
        ensures
            index < self.spaces.len() ==> r == Some(&self.spaces[index as int]),
            index >= self.spaces.len() ==> r is None,
    {
        if index < self.spaces.len() {
            Some(&self.spaces[index])
        } else {
            None
        }
    }
}

} // verus!
