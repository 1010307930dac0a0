use pcode_bridge::address::Address;
use pcode_bridge::emit::{AssemblyEmit, PCodeEmit, RustAssemblyEmit};
use pcode_bridge::load::LoadImage;
use pcode_bridge::opcode::Opcode;
use pcode_bridge::session::Session;
use pcode_bridge::space::{AddrSpace, SpaceType};
use pcode_bridge::varnode::Varnode;
use pcode_bridge::DecodeError;

fn ram() -> AddrSpace {
    AddrSpace {
        name: "ram".to_string(),
        kind: SpaceType::Processor,
        index: 1,
        word_size: 1,
        addr_size: 8,
        highest: u64::MAX,
        pointer_lower_bound: 0,
        pointer_upper_bound: u64::MAX,
        minimum_ptr_size: 0,
        delay: 1,
        deadcode_delay: 1,
        big_endian: false,
        heritaged: true,
        has_physical: true,
        reverse_justified: false,
        overlay: false,
        overlay_base: false,
        other_space: false,
        truncated: false,
        near_pointers: false,
        contain: None,
    }
}

fn at(off: u64) -> Address {
    Address::new(ram(), off)
}

/// An image that deterministically supplies a fixed byte sequence.
struct FixedImage {
    base: u64,
    bytes: Vec<u8>,
}

impl LoadImage for FixedImage {
    fn load_fill(&mut self, addr: &Address, size: usize) -> Result<Vec<u8>, ()> {
        let off = addr.get_offset();
        if off < self.base {
            return Err(());
        }
        let start = (off - self.base) as usize;
        if start + size > self.bytes.len() {
            return Err(());
        }
        Ok(self.bytes[start..start + size].to_vec())
    }
}

/// An image that fails every request.
struct BrokenImage;

impl LoadImage for BrokenImage {
    fn load_fill(&mut self, _addr: &Address, _size: usize) -> Result<Vec<u8>, ()> {
        Err(())
    }
}

struct CollectingAsm {
    lines: Vec<(u64, String, String)>,
}

impl AssemblyEmit for CollectingAsm {
    fn dump(&mut self, addr: &Address, mnem: &str, body: &str) {
        self.lines.push((addr.get_offset(), mnem.to_string(), body.to_string()));
    }
}

struct CollectingPcode {
    ops: Vec<(u64, Opcode, bool, Vec<(u64, u32)>)>,
}

impl PCodeEmit for CollectingPcode {
    fn dump(&mut self, address: &Address, opcode: Opcode, outvar: Option<&Varnode>, vars: &[Varnode]) {
        let inputs = vars
            .iter()
            .map(|v| (v.get_addr().get_offset(), v.get_size()))
            .collect();
        self.ops.push((address.get_offset(), opcode, outvar.is_some(), inputs));
    }
}

/// The toy decoder driving the session the way the engine would: a 0x90
/// no-op is one byte; 0xEB is a two-byte relative jump.
fn insn_length(first: u8) -> i32 {
    if first == 0x90 {
        1
    } else {
        2
    }
}

fn drive_disassemble<L: LoadImage>(
    session: &mut Session<L>,
    addr: u64,
    sink: &mut CollectingAsm,
) -> Result<i32, DecodeError> {
    session.begin_disassemble(addr);
    match session.fetch(&at(addr), 1) {
        Ok(first) => {
            let len = insn_length(first[0]);
            if first[0] == 0x90 {
                session.report_assembly(at(addr), "NOP".to_string(), "".to_string());
            } else {
                let rest = match session.fetch(&at(addr + 1), 1) {
                    Ok(r) => r,
                    Err(_) => return session.finish_disassemble(sink),
                };
                let target = addr + 2 + rest[0] as u64;
                session.report_assembly(at(addr), "JMP".to_string(), format!("{:#x}", target));
            }
            session.report_complete(len);
        }
        Err(_) => {}
    }
    session.finish_disassemble(sink)
}

fn drive_translate<L: LoadImage>(
    session: &mut Session<L>,
    addr: u64,
    sink: &mut CollectingPcode,
) -> Result<i32, DecodeError> {
    session.begin_translate(addr);
    match session.fetch(&at(addr), 1) {
        Ok(first) => {
            let len = insn_length(first[0]);
            if first[0] != 0x90 {
                let rest = match session.fetch(&at(addr + 1), 1) {
                    Ok(r) => r,
                    Err(_) => return session.finish_translate(sink),
                };
                let target = addr + 2 + rest[0] as u64;
                // an unconditional branch: opcode code 4, no output, the
                // target address as the single input varnode
                let input = Varnode::new(at(target), 8);
                if session.report_pcode(at(addr), 4, None, vec![input]).is_err() {
                    return session.finish_translate(sink);
                }
            }
            session.report_complete(len);
        }
        Err(_) => {}
    }
    session.finish_translate(sink)
}

#[test]
fn nop_disassembles_to_one_line() {
    let mut session = Session::new(FixedImage { base: 0x1000, bytes: vec![0x90] });
    let mut sink = CollectingAsm { lines: Vec::new() };
    let r = drive_disassemble(&mut session, 0x1000, &mut sink);
    assert_eq!(r, Ok(1));
    assert_eq!(sink.lines.len(), 1);
    assert_eq!(sink.lines[0].0, 0x1000);
    assert_eq!(sink.lines[0].1, "NOP");
}

#[test]
fn jump_translates_to_branch_with_target_input() {
    // 0xEB 0x03 at 0x2000: displacement +5 from the instruction start
    let mut session = Session::new(FixedImage { base: 0x2000, bytes: vec![0xEB, 0x03] });
    let mut sink = CollectingPcode { ops: Vec::new() };
    let r = drive_translate(&mut session, 0x2000, &mut sink);
    assert_eq!(r, Ok(2));
    assert!(!sink.ops.is_empty());
    let (addr, opcode, has_out, inputs) = &sink.ops[0];
    assert_eq!(*addr, 0x2000);
    assert_eq!(*opcode, Opcode::Branch);
    assert!(!*has_out);
    assert_eq!(inputs[0].0, 0x2005);
}

#[test]
fn disassemble_and_translate_agree_on_length() {
    // one session, disassembly followed by translation at the same address
    let mut s1 = Session::new(FixedImage { base: 0x3000, bytes: vec![0xEB, 0x03] });
    let mut lines_sink = CollectingAsm { lines: Vec::new() };
    let n1 = drive_disassemble(&mut s1, 0x3000, &mut lines_sink).unwrap();
    let mut pc = CollectingPcode { ops: Vec::new() };
    let n2 = drive_translate(&mut s1, 0x3000, &mut pc).unwrap();
    assert_eq!(n1, n2);

    let mut s3 = Session::new(FixedImage { base: 0x3000, bytes: vec![0x90] });
    let mut sink3 = CollectingAsm { lines: Vec::new() };
    let n3 = drive_disassemble(&mut s3, 0x3000, &mut sink3).unwrap();
    let mut s4 = Session::new(FixedImage { base: 0x3000, bytes: vec![0x90] });
    let mut pc4 = CollectingPcode { ops: Vec::new() };
    let n4 = drive_translate(&mut s4, 0x3000, &mut pc4).unwrap();
    assert_eq!(n3, n4);
    assert_eq!(n3, 1);
}

#[test]
fn failing_adapter_fails_the_call_and_emits_nothing() {
    let mut session = Session::new(BrokenImage);
    let mut lines_sink = CollectingAsm { lines: Vec::new() };
    let r = drive_disassemble(&mut session, 0x1000, &mut lines_sink);
    assert_eq!(r, Err(DecodeError::AdapterFailure));
    assert_eq!(lines_sink.lines.len(), 0);

    let mut pc = CollectingPcode { ops: Vec::new() };
    let r2 = drive_translate(&mut session, 0x1000, &mut pc);
    assert_eq!(r2, Err(DecodeError::AdapterFailure));
    assert_eq!(pc.ops.len(), 0);
}

#[test]
fn short_fill_counts_as_adapter_failure() {
    // two bytes requested where only one exists
    let mut session = Session::new(FixedImage { base: 0x1000, bytes: vec![0xEB] });
    let mut lines_sink = CollectingAsm { lines: Vec::new() };
    let r = drive_disassemble(&mut session, 0x1000, &mut lines_sink);
    assert_eq!(r, Err(DecodeError::AdapterFailure));
    assert_eq!(lines_sink.lines.len(), 0);
}

#[test]
fn unrecognized_opcode_code_is_a_protocol_violation() {
    let mut session = Session::new(FixedImage { base: 0x1000, bytes: vec![0x90] });
    session.begin_translate(0x1000);
    let r = session.report_pcode(at(0x1000), 45, None, Vec::new());
    assert_eq!(r, Err(DecodeError::ProtocolViolation { code: 45 }));
    let mut pc = CollectingPcode { ops: Vec::new() };
    let fin = session.finish_translate(&mut pc);
    assert_eq!(fin, Err(DecodeError::ProtocolViolation { code: 45 }));
    assert_eq!(pc.ops.len(), 0);
}

#[test]
fn engine_fault_is_reported() {
    let mut session = Session::new(FixedImage { base: 0x1000, bytes: vec![0x90] });
    session.begin_disassemble(0x1000);
    session.report_failure();
    let mut lines_sink = CollectingAsm { lines: Vec::new() };
    assert_eq!(session.finish_disassemble(&mut lines_sink), Err(DecodeError::EngineFault));
    assert_eq!(lines_sink.lines.len(), 0);
}

#[test]
fn session_owns_its_context_store() {
    let mut session = Session::new(FixedImage { base: 0, bytes: vec![0x90] });
    let v = "mode".to_string();
    session.context.set_variable_default(&v, 3);
    session.context.set_variable(&v, &at(0x100), 4);
    assert_eq!(session.get_context().get_variable(&v, &at(0x80)), 3);
    assert_eq!(session.get_context().get_variable(&v, &at(0x100)), 4);
    // the store survives a decode call
    let mut sink = CollectingAsm { lines: Vec::new() };
    drive_disassemble(&mut session, 0, &mut sink).unwrap();
    assert_eq!(session.get_context().get_variable(&v, &at(0x200)), 4);
}

#[test]
fn assembly_wrapper_forwards_to_the_sink() {
    let sink = CollectingAsm { lines: Vec::new() };
    let mut wrapper = RustAssemblyEmit::from_internal(sink);
    wrapper.dump(&at(0x10), "RET", "");
    assert_eq!(wrapper.internal.lines.len(), 1);
    assert_eq!(wrapper.internal.lines[0], (0x10, "RET".to_string(), "".to_string()));
}
