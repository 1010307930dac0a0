use pcode_bridge::address::Address;
use pcode_bridge::context::ContextDatabase;
use pcode_bridge::space::{AddrSpace, SpaceRegistry, SpaceType};

fn space(index: i32, kind: SpaceType, big_endian: bool, highest: u64) -> AddrSpace {
    AddrSpace {
        name: "ram".to_string(),
        kind,
        index,
        word_size: 1,
        addr_size: 8,
        highest,
        pointer_lower_bound: 0,
        pointer_upper_bound: highest,
        minimum_ptr_size: 0,
        delay: 1,
        deadcode_delay: 1,
        big_endian,
        heritaged: true,
        has_physical: true,
        reverse_justified: false,
        overlay: false,
        overlay_base: false,
        other_space: false,
        truncated: false,
        near_pointers: false,
        contain: None,
    }
}

fn ram() -> AddrSpace {
    space(1, SpaceType::Processor, false, u64::MAX)
}

#[test]
fn test_new() {
    let a = Address::invalid();
    assert!(a.is_invalid());
    let c = ContextDatabase::new();
    assert_eq!(c.get_default_value(&"anything".to_string()), 0);
}

#[test]
fn valid_address_matches_owning_space() {
    let a = Address::new(ram(), 0x1000);
    assert!(!a.is_invalid());
    assert_eq!(a.get_addr_size(), 8);
    assert!(!a.is_big_endian());
    let b = Address::new(space(2, SpaceType::Processor, true, u64::MAX), 7);
    assert!(!b.is_invalid());
    assert_eq!(b.get_addr_size(), 8);
    assert!(b.is_big_endian());
    assert_eq!(b.get_offset(), 7);
}

#[test]
fn invalid_address_sentinel_queries() {
    let a = Address::invalid();
    assert!(a.is_invalid());
    assert_eq!(a.get_addr_size(), 0);
    assert!(!a.is_big_endian());
    assert!(!a.is_constant());
    assert_eq!(a.get_offset(), 0);
    assert!(a.get_space().is_none());
}

#[test]
fn contained_by_subset_ranges() {
    let a = Address::new(ram(), 0x100);
    let b = Address::new(ram(), 0xF8);
    // [0x100, 0x104) inside [0xF8, 0x108)
    assert!(a.contained_by(4, &b, 16));
    // equal ranges contain each other
    assert!(a.contained_by(4, &a, 4));
    // [0x100, 0x110) sticks out of [0xF8, 0x108)
    assert!(!a.contained_by(16, &b, 16));
    // below the container
    assert!(!b.contained_by(4, &a, 16));
}

#[test]
fn contained_by_false_across_spaces_and_invalid() {
    let a = Address::new(ram(), 0x100);
    let other = Address::new(space(2, SpaceType::Processor, false, u64::MAX), 0x100);
    assert!(!a.contained_by(1, &other, 8));
    assert!(!Address::invalid().contained_by(1, &a, 8));
    assert!(!a.contained_by(1, &Address::invalid(), 8));
}

#[test]
fn overlap_distance_and_miss() {
    let a = Address::new(ram(), 0x100);
    let b = Address::new(ram(), 0xFE);
    // 0x100 + 0 lies 2 bytes into [0xFE, 0xFE + 8)
    assert_eq!(a.overlap(0, &b, 8), 2);
    // with skip 3 it lies 5 bytes in
    assert_eq!(a.overlap(3, &b, 8), 5);
    // past the end
    assert_eq!(a.overlap(6, &b, 8), -1);
    // before the start
    assert_eq!(b.overlap(0, &a, 8), -1);
}

#[test]
fn overlap_refuses_constants_and_foreign_spaces() {
    let c1 = Address::new(space(0, SpaceType::Constant, false, u64::MAX), 5);
    let c2 = Address::new(space(0, SpaceType::Constant, false, u64::MAX), 5);
    assert_eq!(c1.overlap(0, &c2, 8), -1);
    let a = Address::new(ram(), 5);
    let other = Address::new(space(2, SpaceType::Processor, false, u64::MAX), 5);
    assert_eq!(a.overlap(0, &other, 8), -1);
}

#[test]
fn justified_contain_little_and_big_endian() {
    // little-endian: offset counts from the least-significant (low) end
    let le_outer = Address::new(ram(), 0x200);
    let le_inner = Address::new(ram(), 0x202);
    assert_eq!(le_outer.justified_contain(8, &le_inner, 2, false), 2);
    // big-endian: offset counts from the most-significant (high) end
    let be = space(3, SpaceType::Processor, true, u64::MAX);
    let be_outer = Address::new(be.duplicate(), 0x200);
    let be_inner = Address::new(be, 0x202);
    assert_eq!(be_outer.justified_contain(8, &be_inner, 2, false), 4);
    // forceleft overrides big-endian justification
    let be2 = space(3, SpaceType::Processor, true, u64::MAX);
    let be_outer2 = Address::new(be2.duplicate(), 0x200);
    let be_inner2 = Address::new(be2, 0x202);
    assert_eq!(be_outer2.justified_contain(8, &be_inner2, 2, true), 2);
    // not contained
    assert_eq!(le_inner.justified_contain(2, &le_outer, 8, false), -1);
}

#[test]
fn contiguous_pieces() {
    // little-endian: high piece right after the low piece's bytes
    let hi = Address::new(ram(), 0x104);
    let lo = Address::new(ram(), 0x100);
    assert!(hi.is_contiguous(4, &lo, 4));
    assert!(!lo.is_contiguous(4, &hi, 4));
    // big-endian: low piece right after the high piece's bytes
    let be = space(3, SpaceType::Processor, true, u64::MAX);
    let hi_be = Address::new(be.duplicate(), 0x100);
    let lo_be = Address::new(be, 0x104);
    assert!(hi_be.is_contiguous(4, &lo_be, 4));
}

#[test]
fn to_physical_unwraps_overlay() {
    let base = space(1, SpaceType::Processor, false, u64::MAX);
    let mut ov = space(4, SpaceType::Processor, false, u64::MAX);
    ov.overlay = true;
    ov.contain = Some(Box::new(base));
    let mut a = Address::new(ov, 0x40);
    a.to_physical();
    assert_eq!(a.get_space().unwrap().index, 1);
    assert_eq!(a.get_offset(), 0x40);
    // a plain address is left unchanged
    let mut b = Address::new(ram(), 0x40);
    b.to_physical();
    assert_eq!(b.get_space().unwrap().index, 1);
    assert_eq!(b.get_offset(), 0x40);
}

#[test]
fn wrap_offset_wraps_past_highest() {
    let small = space(1, SpaceType::Processor, false, 0xFFFF);
    assert_eq!(small.wrap_offset(0x1234), 0x1234);
    assert_eq!(small.wrap_offset(0x1_0002), 2);
    let full = ram();
    assert_eq!(full.wrap_offset(u64::MAX), u64::MAX);
}

#[test]
fn registry_holds_spaces_in_index_order() {
    let mut reg = SpaceRegistry::new();
    reg.register(space(0, SpaceType::Constant, false, u64::MAX));
    reg.register(space(1, SpaceType::Processor, false, u64::MAX));
    assert_eq!(reg.len(), 2);
    assert_eq!(reg.get(1).unwrap().kind.code(), SpaceType::Processor.code());
    assert!(reg.get(2).is_none());
}
