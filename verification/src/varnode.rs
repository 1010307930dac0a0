//! Varnodes: one storage location participating in a micro-operation, as
//! its output or as one of an ordered list of inputs.

use crate::address::Address;
use crate::space::SpaceType;
use vstd::prelude::*;

verus! {

/// A storage location and its width in bytes. For a constant-space varnode
/// the offset of `addr` encodes an immediate value rather than a location.
#[derive(Debug)]
pub struct Varnode {
    pub addr: Address,
    pub size: u32,
}

impl Varnode {
    /// Well-formedness: the location is a valid address and real storage has
    /// a positive byte-width.
    pub open spec fn wf(self) -> bool {
        &&& self.addr.wf()
        &&& !self.addr.spec_is_invalid()
        &&& self.size >= 1
    }

    /// A varnode of `size` bytes at `addr`.
    pub fn new(addr: Address, size: u32) -> (r: Varnode)
        requires
            addr.wf(),
            !addr.spec_is_invalid(),
            size >= 1,
        ensures
            r.wf(),
            r.addr == addr,
            r.size == size,
    {
        Varnode { addr, size }
    }

    /// The storage location.
    pub fn get_addr(&self) -> (r: &Address)
        ensures
            *r == self.addr,
    {
        &self.addr
    }

    /// The byte-width.
    pub fn get_size(&self) -> (r: u32)
        ensures
            r == self.size,
    {
        self.size
    }

    /// Whether this varnode encodes an immediate value (constant space).
    pub fn is_constant(&self) -> (r: bool)
        ensures
            r == (self.addr.space is Some && self.addr.space->Some_0.kind == SpaceType::Constant),
    {
        self.addr.is_constant()
    }

    /// An exact copy. Varnodes handed to a callback are borrowed for the
    /// callback's duration only; copying is how a caller retains one.
    pub fn duplicate(&self) -> (r: Varnode)
        ensures
            r == *self,
    {
        Varnode { addr: self.addr.duplicate(), size: self.size }
    }
}

} // verus!
