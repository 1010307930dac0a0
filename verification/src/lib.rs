//! A safe, verified binding layer for driving an external machine-code
//! analysis engine: an address/address-space data model, a micro-operation
//! (opcode + varnode) representation, pull-based byte supply, push-based
//! emission callbacks, and a session state machine tying them together.

use vstd::prelude::*;

pub mod address;
pub mod context;
pub mod emit;
pub mod load;
pub mod opcode;
pub mod session;
pub mod varnode;
pub mod space;

verus! {

/// Failure of a top-level decode call.
///
/// `AdapterFailure` reports a load-image adapter that could not supply the
/// requested bytes; `ProtocolViolation` reports a numeric opcode code outside
/// the closed catalog (the engine/caller contract table is out of sync);
/// `EngineFault` reports a failure raised by the engine itself.
#[derive(Clone, Copy, Debug, PartialEq, Eq, Structural)]
pub enum DecodeError {
    AdapterFailure,
    ProtocolViolation { code: u32 },
    EngineFault,
}

} // verus!
