//! The engine session: one configured decoder instance bound to a
//! load-image adapter, exclusively owning its processor context store.
//!
//! A session moves Configured -> Active -> Configured around each decode
//! call. The engine's own decoding runs outside this crate; the session
//! holds every decision the binding layer makes: servicing byte requests
//! through the adapter with exact-length checking, marshalling raw opcode
//! codes through the closed catalog, buffering the engine's reports, and
//! delivering them to the caller's emission channels only when the call
//! completed — a failed call reports its error and delivers nothing.
//!
//! Exclusive borrows make a session non-reentrant by construction: every
//! operation takes the session by `&mut`, so a second call cannot start
//! while one is active.

use crate::address::Address;
use crate::context::ContextDatabase;
use crate::emit::{AssemblyEmit, PCodeEmit};
use crate::load::{check_fill, LoadImage};
use crate::opcode::Opcode;
use crate::varnode::Varnode;
use crate::DecodeError;
use vstd::prelude::*;

verus! {

/// One buffered assembly line: address, mnemonic, operand text.
#[derive(Debug)]
pub struct AsmLine {
    pub addr: Address,
    pub mnem: String,
    pub body: String,
}

/// One buffered micro-operation: address, opcode, optional output varnode,
/// ordered input varnodes.
#[derive(Debug)]
pub struct PcodeOp {
    pub addr: Address,
    pub opcode: Opcode,
    pub outvar: Option<Varnode>,
    pub inputs: Vec<Varnode>,
}

/// Which operation an in-flight call performs.
#[derive(Clone, Copy, Debug, PartialEq, Eq, Structural)]
pub enum CallKind {
    Disassembly,
    Translation,
}

/// How an in-flight call stands: still being driven, completed with a
/// consumed-byte count reported by the engine, or failed.
#[derive(Clone, Copy, Debug, PartialEq, Eq, Structural)]
pub enum CallStatus {
    Running,
    Done { length: i32 },
    Failed { error: DecodeError },
}

/// The state of one in-flight decode call.
#[derive(Debug)]
pub struct ActiveCall {
    pub kind: CallKind,
    pub start: u64,
    pub lines: Vec<AsmLine>,
    pub ops: Vec<PcodeOp>,
    pub status: CallStatus,
}

/// An engine session: the caller's adapter, the session's own context
/// store, and the in-flight call, if any.
#[derive(Debug)]
pub struct Session<L: LoadImage> {
    pub loader: L,
    pub context: ContextDatabase,
    pub active: Option<ActiveCall>,
}

impl<L: LoadImage> Session<L> {
    /// Configured and idle: no call is in flight.
    pub open spec fn spec_is_configured(self) -> bool {
        self.active is None
    }

    /// A call is in flight and still being driven.
    pub open spec fn spec_is_running(self) -> bool {
        self.active is Some && self.active->Some_0.status is Running
    }

    /// Bind an adapter, producing a configured session with an empty
    /// context store.
    pub fn new(loader: L) -> (r: Session<L>)
        ensures
            r.spec_is_configured(),
            r.loader == loader,
            r.context.wf(),
            r.context.vars@ == Seq::<crate::context::ContextVariable>::empty(),
    {
        Session { loader, context: ContextDatabase::new(), active: None }
    }

    /// The session's context store, for reading between calls.
    pub fn get_context(&self) -> (r: &ContextDatabase)
        ensures
            *r == self.context,
    {
        &self.context
    }

    /// Enter a disassembly call starting at `addr`. Only a configured
    /// session may begin a call: reentrant calls are ruled out by this
    /// demand together with the exclusive borrow.
    pub fn begin_disassemble(&mut self, addr: u64)
        requires
            old(self).spec_is_configured(),
        ensures
            final(self).loader == old(self).loader,
            final(self).context == old(self).context,
            final(self).spec_is_running(),
            final(self).active->Some_0.kind is Disassembly,
            final(self).active->Some_0.start == addr,
            final(self).active->Some_0.lines@.len() == 0,
            final(self).active->Some_0.ops@.len() == 0,
    {
        self.active = Some(
            ActiveCall {
                kind: CallKind::Disassembly,
                start: addr,
                lines: Vec::new(),
                ops: Vec::new(),
                status: CallStatus::Running,
            },
        );
    }

    /// Enter a translation call starting at `addr`.
    pub fn begin_translate(&mut self, addr: u64)
        requires
            old(self).spec_is_configured(),
        ensures
            final(self).loader == old(self).loader,
            final(self).context == old(self).context,
            final(self).spec_is_running(),
            final(self).active->Some_0.kind is Translation,
            final(self).active->Some_0.start == addr,
            final(self).active->Some_0.lines@.len() == 0,
            final(self).active->Some_0.ops@.len() == 0,
    {
        self.active = Some(
            ActiveCall {
                kind: CallKind::Translation,
                start: addr,
                lines: Vec::new(),
                ops: Vec::new(),
                status: CallStatus::Running,
            },
        );
    }

    /// Service one byte request of the engine: ask the adapter for `size`
    /// bytes at `addr`. Success yields exactly `size` bytes and leaves the
    /// call running; any adapter shortfall fails the whole call, which
    /// from then on can only report failure.
    pub fn fetch(&mut self, addr: &Address, size: usize) -> (r: Result<Vec<u8>, DecodeError>)
        requires
            old(self).spec_is_running(),
        ensures
            final(self).context == old(self).context,
            final(self).active is Some,
            match r {
                Ok(b) => b@.len() == size && final(self).active == old(self).active,
                Err(e) => {
                    &&& e == DecodeError::AdapterFailure
                    &&& final(self).active == Some(
                        (ActiveCall {
                            status: CallStatus::Failed { error: DecodeError::AdapterFailure },
                            ..old(self).active->Some_0
                        }),
                    )
                },
            },
    {
        let resp = self.loader.load_fill(addr, size);
        match check_fill(resp, size) {
            Ok(b) => Ok(b),
            Err(e) => {
                match &mut self.active {
                    Some(call) => {
                        call.status = CallStatus::Failed { error: DecodeError::AdapterFailure };
                    },
                    None => {},
                }
                Err(e)
            },
        }
    }

    /// Forward a re-basing request to the adapter.
    pub fn adjust_vma(&mut self, adjust: isize)
        ensures
            final(self).context == old(self).context,
            final(self).active == old(self).active,
    {
        self.loader.adjust_vma(adjust);
    }

    /// Record one assembly line the engine reported. Lines are buffered in
    /// report order and delivered on completion.
    pub fn report_assembly(&mut self, addr: Address, mnem: String, body: String)
        requires
            old(self).spec_is_running(),
            old(self).active->Some_0.kind is Disassembly,
        ensures
            final(self).loader == old(self).loader,
            final(self).context == old(self).context,
            final(self).spec_is_running(),
            ({
                let c = final(self).active->Some_0;
                let o = old(self).active->Some_0;
                &&& c.kind == o.kind
                &&& c.start == o.start
                &&& c.status == o.status
                &&& c.ops@ == o.ops@
                &&& c.lines@ == o.lines@.push((AsmLine { addr, mnem, body }))
            }),
    {
        match &mut self.active {
            Some(call) => {
                call.lines.push(AsmLine { addr, mnem, body });
            },
            None => {},
        }
    }

    /// Record one micro-operation the engine reported, marshalling its raw
    /// numeric opcode through the closed catalog. A code outside the
    /// catalog is a protocol violation: it fails the whole call and
    /// nothing is recorded.
    pub fn report_pcode(
        &mut self,
        addr: Address,
        opcode: u32,
        outvar: Option<Varnode>,
        inputs: Vec<Varnode>,
    ) -> (r: Result<(), DecodeError>)
        requires
            old(self).spec_is_running(),
            old(self).active->Some_0.kind is Translation,
        ensures
            final(self).loader == old(self).loader,
            final(self).context == old(self).context,
            r is Ok <==> (1 <= opcode <= 73 && opcode != 45),
            match r {
                Ok(_) => final(self).spec_is_running() && ({
                    let c = final(self).active->Some_0;
                    let o = old(self).active->Some_0;
                    &&& c.kind == o.kind
                    &&& c.start == o.start
                    &&& c.status == o.status
                    &&& c.lines@ == o.lines@
                    &&& c.ops@ == o.ops@.push(
                        (PcodeOp {
                            addr,
                            opcode: Opcode::spec_from_u32(opcode)->Some_0,
                            outvar,
                            inputs,
                        }),
                    )
                }),
                Err(e) => {
                    &&& e == DecodeError::ProtocolViolation { code: opcode }
                    &&& final(self).active == Some(
                        (ActiveCall {
                            status: CallStatus::Failed { error: e },
                            ..old(self).active->Some_0
                        }),
                    )
                },
            },
    {
        match Opcode::from_u32(opcode) {
            Some(op) => {
                match &mut self.active {
                    Some(call) => {
                        call.ops.push(PcodeOp { addr, opcode: op, outvar, inputs });
                    },
                    None => {},
                }
                Ok(())
            },
            None => {
                let e = DecodeError::ProtocolViolation { code: opcode };
                match &mut self.active {
                    Some(call) => {
                        call.status = CallStatus::Failed { error: e };
                    },
                    None => {},
                }
                Err(e)
            },
        }
    }

    /// Record that the engine returned from the call, reporting how many
    /// bytes the decoded unit consumed.
    pub fn report_complete(&mut self, length: i32)
        requires
            old(self).spec_is_running(),
        ensures
            final(self).loader == old(self).loader,
            final(self).context == old(self).context,
            final(self).active == Some(
                (ActiveCall {
                    status: CallStatus::Done { length },
                    ..old(self).active->Some_0
                }),
            ),
    {
        match &mut self.active {
            Some(call) => {
                call.status = CallStatus::Done { length };
            },
            None => {},
        }
    }

    /// Record that the engine itself failed the call.
    pub fn report_failure(&mut self)
        requires
            old(self).spec_is_running(),
        ensures
            final(self).loader == old(self).loader,
            final(self).context == old(self).context,
            final(self).active == Some(
                (ActiveCall {
                    status: CallStatus::Failed { error: DecodeError::EngineFault },
                    ..old(self).active->Some_0
                }),
            ),
    {
        match &mut self.active {
            Some(call) => {
                call.status = CallStatus::Failed { error: DecodeError::EngineFault };
            },
            None => {},
        }
    }

    /// Leave a disassembly call: a completed call delivers its buffered
    /// lines to the caller's sink, in report order, and returns the
    /// engine's consumed-byte count unchanged; a failed call returns its
    /// error and delivers nothing (the sink is not touched on that path).
    /// Either way the session is configured again.
    pub fn finish_disassemble<A: AssemblyEmit>(&mut self, emit: &mut A) -> (r: Result<
        i32,
        DecodeError,
    >)
        requires
            old(self).active is Some,
            old(self).active->Some_0.kind is Disassembly,
            !(old(self).active->Some_0.status is Running),
        ensures
            final(self).loader == old(self).loader,
            final(self).context == old(self).context,
            final(self).spec_is_configured(),
            old(self).active->Some_0.status matches CallStatus::Done { length } ==> r == Ok::<
                i32,
                DecodeError,
            >(length),
            old(self).active->Some_0.status matches CallStatus::Failed { error } ==> r == Err::<
                i32,
                DecodeError,
            >(error),
    {
        let call = self.active.take();
        match call {
            Some(c) => {
                match c.status {
                    CallStatus::Done { length } => {
                        let n = c.lines.len();
                        let mut i: usize = 0;
                        while i < n
                            invariant
                                n == c.lines.len(),
                                i <= n,
                            decreases n - i,
                        {
                            let line = &c.lines[i];
                            emit.dump(&line.addr, line.mnem.as_str(), line.body.as_str());
                            i = i + 1;
                        }
                        Ok(length)
                    },
                    CallStatus::Failed { error } => Err(error),
                    CallStatus::Running => vstd::pervasive::unreached(),
                }
            },
            None => vstd::pervasive::unreached(),
        }
    }

    /// Leave a translation call: a completed call delivers its buffered
    /// micro-operations to the caller's sink, in report order, and returns
    /// the engine's consumed-byte count unchanged; a failed call returns
    /// its error and delivers nothing. Either way the session is
    /// configured again.
    pub fn finish_translate<P: PCodeEmit>(&mut self, emit: &mut P) -> (r: Result<i32, DecodeError>)
        requires
            old(self).active is Some,
            old(self).active->Some_0.kind is Translation,
            !(old(self).active->Some_0.status is Running),
        ensures
            final(self).loader == old(self).loader,
            final(self).context == old(self).context,
            final(self).spec_is_configured(),
            old(self).active->Some_0.status matches CallStatus::Done { length } ==> r == Ok::<
                i32,
                DecodeError,
            >(length),
            old(self).active->Some_0.status matches CallStatus::Failed { error } ==> r == Err::<
                i32,
                DecodeError,
            >(error),
    {
        let call = self.active.take();
        match call {
            Some(c) => {
                match c.status {
                    CallStatus::Done { length } => {
                        let n = c.ops.len();
                        let mut i: usize = 0;
                        while i < n
                            invariant
                                n == c.ops.len(),
                                i <= n,
                            decreases n - i,
                        {
                            let op = &c.ops[i];
                            emit.dump(&op.addr, op.opcode, op.outvar.as_ref(), op.inputs.as_slice());
                            i = i + 1;
                        }
                        Ok(length)
                    },
                    CallStatus::Failed { error } => Err(error),
                    CallStatus::Running => vstd::pervasive::unreached(),
                }
            },
            None => vstd::pervasive::unreached(),
        }
    }
}

} // verus!
