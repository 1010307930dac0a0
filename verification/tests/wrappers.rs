use pcode_bridge::address::Address;
use pcode_bridge::emit::{PCodeEmit, RustPCodeEmit};
use pcode_bridge::load::{check_fill, LoadImage, RustLoadImage};
use pcode_bridge::opcode::Opcode;
use pcode_bridge::space::{AddrSpace, SpaceType};
use pcode_bridge::varnode::Varnode;
use pcode_bridge::DecodeError;

fn ram() -> AddrSpace {
    AddrSpace {
        name: "ram".to_string(),
        kind: SpaceType::Processor,
        index: 1,
        word_size: 1,
        addr_size: 8,
        highest: u64::MAX,
        pointer_lower_bound: 0,
        pointer_upper_bound: u64::MAX,
        minimum_ptr_size: 0,
        delay: 1,
        deadcode_delay: 1,
        big_endian: false,
        heritaged: true,
        has_physical: true,
        reverse_justified: false,
        overlay: false,
        overlay_base: false,
        other_space: false,
        truncated: false,
        near_pointers: false,
        contain: None,
    }
}

#[test]
fn check_fill_accepts_only_exact_lengths() {
    assert_eq!(check_fill(Ok(vec![1, 2, 3]), 3), Ok(vec![1, 2, 3]));
    assert_eq!(check_fill(Ok(vec![1, 2]), 3), Err(DecodeError::AdapterFailure));
    assert_eq!(check_fill(Ok(vec![1, 2, 3, 4]), 3), Err(DecodeError::AdapterFailure));
    assert_eq!(check_fill(Err(()), 3), Err(DecodeError::AdapterFailure));
    assert_eq!(check_fill(Ok(Vec::new()), 0), Ok(Vec::new()));
}

/// An adapter that answers every request with a fixed two-byte buffer,
/// whatever was asked.
struct TwoByteImage;

impl LoadImage for TwoByteImage {
    fn load_fill(&mut self, _addr: &Address, _size: usize) -> Result<Vec<u8>, ()> {
        Ok(vec![0xAA, 0xBB])
    }
}

#[test]
fn load_wrapper_rejects_wrong_length_fills() {
    let mut w = RustLoadImage::from_internal(TwoByteImage);
    let a = Address::new(ram(), 0);
    assert_eq!(w.load_fill(&a, 2), Ok(vec![0xAA, 0xBB]));
    assert_eq!(w.load_fill(&a, 4), Err(DecodeError::AdapterFailure));
    w.adjust_vma(16);
}

struct CountingPcode {
    calls: usize,
    last: Option<Opcode>,
}

impl PCodeEmit for CountingPcode {
    fn dump(&mut self, _address: &Address, opcode: Opcode, _outvar: Option<&Varnode>, _vars: &[Varnode]) {
        self.calls += 1;
        self.last = Some(opcode);
    }
}

#[test]
fn pcode_wrapper_marshals_codes_through_the_catalog() {
    let mut w = RustPCodeEmit::from_internal(CountingPcode { calls: 0, last: None });
    let a = Address::new(ram(), 0x100);
    let vn = Varnode::new(Address::new(ram(), 0x200), 4);
    assert_eq!(w.dump(&a, 19, None, &[vn]), Ok(()));
    assert_eq!(w.internal.calls, 1);
    assert_eq!(w.internal.last, Some(Opcode::IntAdd));
    // the reserved code is refused and never reaches the sink
    assert_eq!(w.dump(&a, 45, None, &[]), Err(DecodeError::ProtocolViolation { code: 45 }));
    assert_eq!(w.dump(&a, 99, None, &[]), Err(DecodeError::ProtocolViolation { code: 99 }));
    assert_eq!(w.internal.calls, 1);
}

#[test]
fn varnode_accessors() {
    let vn = Varnode::new(Address::new(ram(), 0x40), 8);
    assert_eq!(vn.get_addr().get_offset(), 0x40);
    assert_eq!(vn.get_size(), 8);
    assert!(!vn.is_constant());
    let copy = vn.duplicate();
    assert_eq!(copy.get_addr().get_offset(), 0x40);
    assert_eq!(copy.get_size(), 8);
}
