//! The emission channels: the push interfaces through which the engine
//! reports disassembly lines and micro-operation sequences back to the
//! caller.
//!
//! Addresses and varnodes handed to a callback are borrowed for that one
//! invocation; an implementation copies out what it wants to keep.

use crate::address::Address;
use crate::opcode::Opcode;
use crate::varnode::Varnode;
use crate::DecodeError;
use vstd::prelude::*;

verus! {

/// Caller-implemented assembly sink: exactly one call per disassembled
/// instruction, in address order.
pub trait AssemblyEmit {
    /// Receive one disassembled instruction: its address, mnemonic and
    /// operand text.
    fn dump(&mut self, addr: &Address, mnem: &str, body: &str);
}

/// Caller-implemented micro-operation sink: zero or more calls per
/// instruction, in program order of the instruction's translation.
pub trait PCodeEmit {
    /// Receive one micro-operation: its address, opcode, output varnode
    /// (present iff the opcode produces a value) and ordered input
    /// varnodes.
    fn dump(
        &mut self,
        address: &Address,
        opcode: Opcode,
        outvar: Option<&Varnode>,
        vars: &[Varnode],
    );
}

/// The engine-facing wrapper around a caller's assembly sink.
pub struct RustAssemblyEmit<E: AssemblyEmit> {
    pub internal: E,
}

impl<E: AssemblyEmit> RustAssemblyEmit<E> {
    /// Wrap a caller's assembly sink.
    pub fn from_internal(internal: E) -> (r: Self)
        ensures
            r.internal == internal,
    {
        Self { internal }
    }

    /// Forward one disassembled instruction to the sink.
    pub fn dump(&mut self, address: &Address, mnem: &str, body: &str) {
        self.internal.dump(address, mnem, body);
    }
}

/// The engine-facing wrapper around a caller's micro-operation sink: the
/// raw numeric opcode the engine reports is marshalled through the closed
/// catalog before it reaches the sink.
pub struct RustPCodeEmit<E: PCodeEmit> {
    pub internal: E,
}

impl<E: PCodeEmit> RustPCodeEmit<E> {
    /// Wrap a caller's micro-operation sink.
    pub fn from_internal(internal: E) -> (r: Self)
        ensures
            r.internal == internal,
    {
        Self { internal }
    }

    /// Forward one raw micro-operation report. A numeric code outside the
    /// catalog means the caller/engine contract table is out of sync: the
    /// report is refused as a protocol violation and the sink is not
    /// invoked.
    pub fn dump(
        &mut self,
        address: &Address,
        opcode: u32,
        outvar: Option<&Varnode>,
        vars: &[Varnode],
    ) -> (r: Result<(), DecodeError>)
        ensures
            r is Ok <==> (1 <= opcode <= 73 && opcode != 45),
            r is Err ==> r == Err::<(), DecodeError>(
                (DecodeError::ProtocolViolation { code: opcode }),
            ),
    {
        match Opcode::from_u32(opcode) {
            Some(op) => {
                self.internal.dump(address, op, outvar, vars);
                Ok(())
            },
            None => Err(DecodeError::ProtocolViolation { code: opcode }),
        }
    }
}

} // verus!
