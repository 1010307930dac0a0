//! The closed catalog of micro-operation kinds.
//!
//! The numeric codes are a stable wire contract shared with the engine:
//! values 1 through 73 with 45 reserved. A code outside the catalog decodes
//! to `None` and is treated by the binding layer as a protocol violation.

use vstd::prelude::*;

verus! {

/// One micro-operation kind. Every micro-operation has exactly one opcode,
/// zero or one output varnode, and zero or more ordered input varnodes.
#[derive(Clone, Copy, Debug, PartialEq, Eq, Structural)]
pub enum Opcode {
    Copy,
    Load,
    Store,
    Branch,
    CBranch,
    BranchInd,
    Call,
    CallInd,
    CallOther,
    Return,
    IntEqual,
    IntNotEqual,
    IntSLess,
    IntSLessEqual,
    IntLess,
    IntLessEqual,
    IntZExt,
    IntSExt,
    IntAdd,
    IntSub,
    IntCarry,
    IntSCarry,
    IntSBorrow,
    Int2Comp,
    IntNegate,
    IntXor,
    IntAnd,
    IntOr,
    IntLeft,
    IntRight,
    IntSRight,
    IntMult,
    IntDiv,
    IntSDiv,
    IntRem,
    IntSRem,
    BoolNegate,
    BoolXor,
    BoolAnd,
    BoolOr,
    FloatEqual,
    FloatNotEqual,
    FloatLess,
    FloatLessEqual,
    FloatNan,
    FloatAdd,
    FloatDiv,
    FloatMult,
    FloatSub,
    FloatNeg,
    FloatAbs,
    FloatSqrt,
    FloatInt2Float,
    FloatFloat2Float,
    FloatTrunc,
    FloatCeil,
    FloatFloor,
    FloatRound,
    MultiEqual,
    Indirect,
    Piece,
    SubPiece,
    Cast,
    PtrAdd,
    PtrSub,
    SegmentOp,
    CPoolRef,
    New,
    Insert,
    Extract,
    PopCount,
    Max,
}

impl Opcode {
    /// The stable numeric wire code of this opcode.
    pub open spec fn spec_code(self) -> u32 {
        match self {
            Opcode::Copy => 1,
            Opcode::Load => 2,
            Opcode::Store => 3,
            Opcode::Branch => 4,
            Opcode::CBranch => 5,
            Opcode::BranchInd => 6,
            Opcode::Call => 7,
            Opcode::CallInd => 8,
            Opcode::CallOther => 9,
            Opcode::Return => 10,
            Opcode::IntEqual => 11,
            Opcode::IntNotEqual => 12,
            Opcode::IntSLess => 13,
            Opcode::IntSLessEqual => 14,
            Opcode::IntLess => 15,
            Opcode::IntLessEqual => 16,
            Opcode::IntZExt => 17,
            Opcode::IntSExt => 18,
            Opcode::IntAdd => 19,
            Opcode::IntSub => 20,
            Opcode::IntCarry => 21,
            Opcode::IntSCarry => 22,
            Opcode::IntSBorrow => 23,
            Opcode::Int2Comp => 24,
            Opcode::IntNegate => 25,
            Opcode::IntXor => 26,
            Opcode::IntAnd => 27,
            Opcode::IntOr => 28,
            Opcode::IntLeft => 29,
            Opcode::IntRight => 30,
            Opcode::IntSRight => 31,
            Opcode::IntMult => 32,
            Opcode::IntDiv => 33,
            Opcode::IntSDiv => 34,
            Opcode::IntRem => 35,
            Opcode::IntSRem => 36,
            Opcode::BoolNegate => 37,
            Opcode::BoolXor => 38,
            Opcode::BoolAnd => 39,
            Opcode::BoolOr => 40,
            Opcode::FloatEqual => 41,
            Opcode::FloatNotEqual => 42,
            Opcode::FloatLess => 43,
            Opcode::FloatLessEqual => 44,
            Opcode::FloatNan => 46,
            Opcode::FloatAdd => 47,
            Opcode::FloatDiv => 48,
            Opcode::FloatMult => 49,
            Opcode::FloatSub => 50,
            Opcode::FloatNeg => 51,
            Opcode::FloatAbs => 52,
            Opcode::FloatSqrt => 53,
            Opcode::FloatInt2Float => 54,
            Opcode::FloatFloat2Float => 55,
            Opcode::FloatTrunc => 56,
            Opcode::FloatCeil => 57,
            Opcode::FloatFloor => 58,
            Opcode::FloatRound => 59,
            Opcode::MultiEqual => 60,
            Opcode::Indirect => 61,
            Opcode::Piece => 62,
            Opcode::SubPiece => 63,
            Opcode::Cast => 64,
            Opcode::PtrAdd => 65,
            Opcode::PtrSub => 66,
            Opcode::SegmentOp => 67,
            Opcode::CPoolRef => 68,
            Opcode::New => 69,
            Opcode::Insert => 70,
            Opcode::Extract => 71,
            Opcode::PopCount => 72,
            Opcode::Max => 73,
        }
    }

    /// The opcode a numeric wire code stands for; `None` for the reserved
    /// code 45 and for every code outside 1..=73.
    pub open spec fn spec_from_u32(val: u32) -> Option<Opcode> {
        if val == 1 {
            Some(Opcode::Copy)
        } else if val == 2 {
            Some(Opcode::Load)
        } else if val == 3 {
            Some(Opcode::Store)
        } else if val == 4 {
            Some(Opcode::Branch)
        } else if val == 5 {
            Some(Opcode::CBranch)
        } else if val == 6 {
            Some(Opcode::BranchInd)
        } else if val == 7 {
            Some(Opcode::Call)
        } else if val == 8 {
            Some(Opcode::CallInd)
        } else if val == 9 {
            Some(Opcode::CallOther)
        } else if val == 10 {
            Some(Opcode::Return)
        } else if val == 11 {
            Some(Opcode::IntEqual)
        } else if val == 12 {
            Some(Opcode::IntNotEqual)
        } else if val == 13 {
            Some(Opcode::IntSLess)
        } else if val == 14 {
            Some(Opcode::IntSLessEqual)
        } else if val == 15 {
            Some(Opcode::IntLess)
        } else if val == 16 {
            Some(Opcode::IntLessEqual)
        } else if val == 17 {
            Some(Opcode::IntZExt)
        } else if val == 18 {
            Some(Opcode::IntSExt)
        } else if val == 19 {
            Some(Opcode::IntAdd)
        } else if val == 20 {
            Some(Opcode::IntSub)
        } else if val == 21 {
            Some(Opcode::IntCarry)
        } else if val == 22 {
            Some(Opcode::IntSCarry)
        } else if val == 23 {
            Some(Opcode::IntSBorrow)
        } else if val == 24 {
            Some(Opcode::Int2Comp)
        } else if val == 25 {
            Some(Opcode::IntNegate)
        } else if val == 26 {
            Some(Opcode::IntXor)
        } else if val == 27 {
            Some(Opcode::IntAnd)
        } else if val == 28 {
            Some(Opcode::IntOr)
        } else if val == 29 {
            Some(Opcode::IntLeft)
        } else if val == 30 {
            Some(Opcode::IntRight)
        } else if val == 31 {
            Some(Opcode::IntSRight)
        } else if val == 32 {
            Some(Opcode::IntMult)
        } else if val == 33 {
            Some(Opcode::IntDiv)
        } else if val == 34 {
            Some(Opcode::IntSDiv)
        } else if val == 35 {
            Some(Opcode::IntRem)
        } else if val == 36 {
            Some(Opcode::IntSRem)
        } else if val == 37 {
            Some(Opcode::BoolNegate)
        } else if val == 38 {
            Some(Opcode::BoolXor)
        } else if val == 39 {
            Some(Opcode::BoolAnd)
        } else if val == 40 {
            Some(Opcode::BoolOr)
        } else if val == 41 {
            Some(Opcode::FloatEqual)
        } else if val == 42 {
            Some(Opcode::FloatNotEqual)
        } else if val == 43 {
            Some(Opcode::FloatLess)
        } else if val == 44 {
            Some(Opcode::FloatLessEqual)
        } else if val == 46 {
            Some(Opcode::FloatNan)
        } else if val == 47 {
            Some(Opcode::FloatAdd)
        } else if val == 48 {
            Some(Opcode::FloatDiv)
        } else if val == 49 {
            Some(Opcode::FloatMult)
        } else if val == 50 {
            Some(Opcode::FloatSub)
        } else if val == 51 {
            Some(Opcode::FloatNeg)
        } else if val == 52 {
            Some(Opcode::FloatAbs)
        } else if val == 53 {
            Some(Opcode::FloatSqrt)
        } else if val == 54 {
            Some(Opcode::FloatInt2Float)
        } else if val == 55 {
            Some(Opcode::FloatFloat2Float)
        } else if val == 56 {
            Some(Opcode::FloatTrunc)
        } else if val == 57 {
            Some(Opcode::FloatCeil)
        } else if val == 58 {
            Some(Opcode::FloatFloor)
        } else if val == 59 {
            Some(Opcode::FloatRound)
        } else if val == 60 {
            Some(Opcode::MultiEqual)
        } else if val == 61 {
            Some(Opcode::Indirect)
        } else if val == 62 {
            Some(Opcode::Piece)
        } else if val == 63 {
            Some(Opcode::SubPiece)
        } else if val == 64 {
            Some(Opcode::Cast)
        } else if val == 65 {
            Some(Opcode::PtrAdd)
        } else if val == 66 {
            Some(Opcode::PtrSub)
        } else if val == 67 {
            Some(Opcode::SegmentOp)
        } else if val == 68 {
            Some(Opcode::CPoolRef)
        } else if val == 69 {
            Some(Opcode::New)
        } else if val == 70 {
            Some(Opcode::Insert)
        } else if val == 71 {
            Some(Opcode::Extract)
        } else if val == 72 {
            Some(Opcode::PopCount)
        } else if val == 73 {
            Some(Opcode::Max)
        } else {
            None
        }
    }

    /// Decode a numeric wire code into the catalog.
    pub fn from_u32(val: u32) -> (r: Option<Opcode>)
        ensures
            r == Opcode::spec_from_u32(val),
            r is Some <==> (1 <= val <= 73 && val != 45),
    {
        match val {
            1 => Some(Opcode::Copy),
            2 => Some(Opcode::Load),
            3 => Some(Opcode::Store),
            4 => Some(Opcode::Branch),
            5 => Some(Opcode::CBranch),
            6 => Some(Opcode::BranchInd),
            7 => Some(Opcode::Call),
            8 => Some(Opcode::CallInd),
            9 => Some(Opcode::CallOther),
            10 => Some(Opcode::Return),
            11 => Some(Opcode::IntEqual),
            12 => Some(Opcode::IntNotEqual),
            13 => Some(Opcode::IntSLess),
            14 => Some(Opcode::IntSLessEqual),
            15 => Some(Opcode::IntLess),
            16 => Some(Opcode::IntLessEqual),
            17 => Some(Opcode::IntZExt),
            18 => Some(Opcode::IntSExt),
            19 => Some(Opcode::IntAdd),
            20 => Some(Opcode::IntSub),
            21 => Some(Opcode::IntCarry),
            22 => Some(Opcode::IntSCarry),
            23 => Some(Opcode::IntSBorrow),
            24 => Some(Opcode::Int2Comp),
            25 => Some(Opcode::IntNegate),
            26 => Some(Opcode::IntXor),
            27 => Some(Opcode::IntAnd),
            28 => Some(Opcode::IntOr),
            29 => Some(Opcode::IntLeft),
            30 => Some(Opcode::IntRight),
            31 => Some(Opcode::IntSRight),
            32 => Some(Opcode::IntMult),
            33 => Some(Opcode::IntDiv),
            34 => Some(Opcode::IntSDiv),
            35 => Some(Opcode::IntRem),
            36 => Some(Opcode::IntSRem),
            37 => Some(Opcode::BoolNegate),
            38 => Some(Opcode::BoolXor),
            39 => Some(Opcode::BoolAnd),
            40 => Some(Opcode::BoolOr),
            41 => Some(Opcode::FloatEqual),
            42 => Some(Opcode::FloatNotEqual),
            43 => Some(Opcode::FloatLess),
            44 => Some(Opcode::FloatLessEqual),
            46 => Some(Opcode::FloatNan),
            47 => Some(Opcode::FloatAdd),
            48 => Some(Opcode::FloatDiv),
            49 => Some(Opcode::FloatMult),
            50 => Some(Opcode::FloatSub),
            51 => Some(Opcode::FloatNeg),
            52 => Some(Opcode::FloatAbs),
            53 => Some(Opcode::FloatSqrt),
            54 => Some(Opcode::FloatInt2Float),
            55 => Some(Opcode::FloatFloat2Float),
            56 => Some(Opcode::FloatTrunc),
            57 => Some(Opcode::FloatCeil),
            58 => Some(Opcode::FloatFloor),
            59 => Some(Opcode::FloatRound),
            60 => Some(Opcode::MultiEqual),
            61 => Some(Opcode::Indirect),
            62 => Some(Opcode::Piece),
            63 => Some(Opcode::SubPiece),
            64 => Some(Opcode::Cast),
            65 => Some(Opcode::PtrAdd),
            66 => Some(Opcode::PtrSub),
            67 => Some(Opcode::SegmentOp),
            68 => Some(Opcode::CPoolRef),
            69 => Some(Opcode::New),
            70 => Some(Opcode::Insert),
            71 => Some(Opcode::Extract),
            72 => Some(Opcode::PopCount),
            73 => Some(Opcode::Max),
            _ => None,
        }
    }

    /// Encode this opcode as its numeric wire code.
    pub fn code(self) -> (c: u32)
        ensures
            c == self.spec_code(),
    {
        match self {
            Opcode::Copy => 1,
            Opcode::Load => 2,
            Opcode::Store => 3,
            Opcode::Branch => 4,
            Opcode::CBranch => 5,
            Opcode::BranchInd => 6,
            Opcode::Call => 7,
            Opcode::CallInd => 8,
            Opcode::CallOther => 9,
            Opcode::Return => 10,
            Opcode::IntEqual => 11,
            Opcode::IntNotEqual => 12,
            Opcode::IntSLess => 13,
            Opcode::IntSLessEqual => 14,
            Opcode::IntLess => 15,
            Opcode::IntLessEqual => 16,
            Opcode::IntZExt => 17,
            Opcode::IntSExt => 18,
            Opcode::IntAdd => 19,
            Opcode::IntSub => 20,
            Opcode::IntCarry => 21,
            Opcode::IntSCarry => 22,
            Opcode::IntSBorrow => 23,
            Opcode::Int2Comp => 24,
            Opcode::IntNegate => 25,
            Opcode::IntXor => 26,
            Opcode::IntAnd => 27,
            Opcode::IntOr => 28,
            Opcode::IntLeft => 29,
            Opcode::IntRight => 30,
            Opcode::IntSRight => 31,
            Opcode::IntMult => 32,
            Opcode::IntDiv => 33,
            Opcode::IntSDiv => 34,
            Opcode::IntRem => 35,
            Opcode::IntSRem => 36,
            Opcode::BoolNegate => 37,
            Opcode::BoolXor => 38,
            Opcode::BoolAnd => 39,
            Opcode::BoolOr => 40,
            Opcode::FloatEqual => 41,
            Opcode::FloatNotEqual => 42,
            Opcode::FloatLess => 43,
            Opcode::FloatLessEqual => 44,
            Opcode::FloatNan => 46,
            Opcode::FloatAdd => 47,
            Opcode::FloatDiv => 48,
            Opcode::FloatMult => 49,
            Opcode::FloatSub => 50,
            Opcode::FloatNeg => 51,
            Opcode::FloatAbs => 52,
            Opcode::FloatSqrt => 53,
            Opcode::FloatInt2Float => 54,
            Opcode::FloatFloat2Float => 55,
            Opcode::FloatTrunc => 56,
            Opcode::FloatCeil => 57,
            Opcode::FloatFloor => 58,
            Opcode::FloatRound => 59,
            Opcode::MultiEqual => 60,
            Opcode::Indirect => 61,
            Opcode::Piece => 62,
            Opcode::SubPiece => 63,
            Opcode::Cast => 64,
            Opcode::PtrAdd => 65,
            Opcode::PtrSub => 66,
            Opcode::SegmentOp => 67,
            Opcode::CPoolRef => 68,
            Opcode::New => 69,
            Opcode::Insert => 70,
            Opcode::Extract => 71,
            Opcode::PopCount => 72,
            Opcode::Max => 73,
        }
    }
}

/// Every code in 1..=73 other than the reserved 45 decodes to a variant that
/// encodes back to the same code; 45 and everything outside the range decode
/// to `None`.
pub proof fn lemma_opcode_code_round_trip(val: u32)
    ensures
        (1 <= val <= 73 && val != 45) ==> {
            &&& Opcode::spec_from_u32(val) is Some
            &&& Opcode::spec_from_u32(val)->Some_0.spec_code() == val
        },
        (val == 45 || val == 0 || val > 73) ==> Opcode::spec_from_u32(val) is None,
{
}

/// Every opcode round-trips through its wire code, so distinct variants have
/// distinct codes.
pub proof fn lemma_opcode_round_trip(op: Opcode)
    ensures
        Opcode::spec_from_u32(op.spec_code()) == Some(op),
{
}

/// The wire code is injective on the catalog: two opcodes with the same code
/// are the same opcode.
pub proof fn lemma_opcode_code_injective(a: Opcode, b: Opcode)
    requires
        a.spec_code() == b.spec_code(),
    ensures
        a == b,
{
    lemma_opcode_round_trip(a);
    lemma_opcode_round_trip(b);
}

} // verus!
