use pcode_bridge::opcode::Opcode;
use pcode_bridge::space::SpaceType;

#[test]
fn opcode_codes_round_trip_and_are_distinct() {
    let mut seen = Vec::new();
    for code in 1u32..=73 {
        if code == 45 {
            continue;
        }
        let op = Opcode::from_u32(code).expect("catalog code must decode");
        assert_eq!(op.code(), code);
        assert!(!seen.contains(&op), "codes must decode to distinct variants");
        seen.push(op);
    }
    assert_eq!(seen.len(), 72);
}

#[test]
fn reserved_and_out_of_range_codes_decode_to_none() {
    assert!(Opcode::from_u32(45).is_none());
    assert!(Opcode::from_u32(0).is_none());
    assert!(Opcode::from_u32(74).is_none());
    assert!(Opcode::from_u32(u32::MAX).is_none());
}

#[test]
fn known_opcode_wire_values() {
    assert_eq!(Opcode::from_u32(1), Some(Opcode::Copy));
    assert_eq!(Opcode::from_u32(4), Some(Opcode::Branch));
    assert_eq!(Opcode::from_u32(10), Some(Opcode::Return));
    assert_eq!(Opcode::from_u32(44), Some(Opcode::FloatLessEqual));
    assert_eq!(Opcode::from_u32(46), Some(Opcode::FloatNan));
    assert_eq!(Opcode::from_u32(72), Some(Opcode::PopCount));
    assert_eq!(Opcode::from_u32(73), Some(Opcode::Max));
    assert_eq!(Opcode::Branch.code(), 4);
    assert_eq!(Opcode::CallOther.code(), 9);
}

#[test]
fn space_type_codes_round_trip() {
    for code in 0u32..=6 {
        let t = SpaceType::from_u32(code).expect("space kind code must decode");
        assert_eq!(t.code(), code);
    }
    assert!(SpaceType::from_u32(7).is_none());
    assert_eq!(SpaceType::from_u32(0), Some(SpaceType::Constant));
    assert_eq!(SpaceType::from_u32(6), Some(SpaceType::Join));
}
