//! The opcode tables: closed mappings from raw byte and integer
//! codes to the operations they name, across the primary code space
//! and the two extended spaces reached through escape opcodes.

use vstd::prelude::*;

verus! {


/// A single-byte instruction identifier. `ExtendedOpcode1` and
/// `ExtendedOpcode2` name no instruction themselves: they escape into
/// the secondary code spaces.
#[derive(Clone, Copy, Debug, PartialEq, Eq, Structural)]
pub enum Opcode {
    Unreachable,
    Nop,
    Block,
    Loop,
    If,
    Else,
    End,
    Branch,
    BranchIf,
    BranchTable,
    Return,
    Call,
    CallIndirect,
    Drop,
    SelectNumeric,
    Select,
    LocalGet,
    LocalSet,
    LocalTee,
    GlobalGet,
    GlobalSet,
    TableGet,
    TableSet,
    I32Load,
    I64Load,
    F32Load,
    F64Load,
    I32Load8S,
    I32Load8U,
    I32Load16S,
    I32Load16U,
    I64Load8S,
    I64Load8U,
    I64Load16S,
    I64Load16U,
    I64Load32S,
    I64Load32U,
    I32Store,
    I64Store,
    F32Store,
    F64Store,
    I32Store8,
    I32Store16,
    I64Store8,
    I64Store16,
    I64Store32,
    MemorySize,
    MemoryGrow,
    I32Constant,
    I64Constant,
    F32Constant,
    F64Constant,
    I32EqualZero,
    I32Equal,
    I32NotEqual,
    I32LessThanS,
    I32LessThanU,
    I32GreaterThanS,
    I32GreaterThanU,
    I32LessEqualS,
    I32LessEqualU,
    I32GreaterEqualS,
    I32GreaterEqualU,
    I64EqualZero,
    I64Equal,
    I64NotEqual,
    I64LessThanS,
    I64LessThanU,
    I64GreaterThanS,
    I64GreaterThanU,
    I64LessEqualS,
    I64LessEqualU,
    I64GreaterEqualS,
    I64GreaterEqualU,
    F32Equal,
    F32NotEqual,
    F32LessThan,
    F32GreaterThan,
    F32LessEqual,
    F32GreaterEqual,
    F64Equal,
    F64NotEqual,
    F64LessThan,
    F64GreaterThan,
    F64LessEqual,
    F64GreaterEqual,
    I32Clz,
    I32Ctz,
    I32Popcount,
    I32Add,
    I32Subtract,
    I32Multiply,
    I32DivideS,
    I32DivideU,
    I32RemainderS,
    I32RemainderU,
    I32And,
    I32Or,
    I32Xor,
    I32ShiftLeft,
    I32ShiftRightS,
    I32ShiftRightU,
    I32RotateLeft,
    I32RotateRight,
    I64Clz,
    I64Ctz,
    I64Popcount,
    I64Add,
    I64Subtract,
    I64Multiply,
    I64DivideS,
    I64DivideU,
    I64RemainderS,
    I64RemainderU,
    I64And,
    I64Or,
    I64Xor,
    I64ShiftLeft,
    I64ShiftRightS,
    I64ShiftRightU,
    I64RotateLeft,
    I64RotateRight,
    F32Absolute,
    F32Negate,
    F32Ceiling,
    F32Floor,
    F32Truncate,
    F32Nearest,
    F32SquareRoot,
    F32Add,
    F32Subtract,
    F32Multiply,
    F32Divide,
    F32Minimum,
    F32Maximum,
    F32CopySign,
    F64Absolute,
    F64Negate,
    F64Ceiling,
    F64Floor,
    F64Truncate,
    F64Nearest,
    F64SquareRoot,
    F64Add,
    F64Subtract,
    F64Multiply,
    F64Divide,
    F64Minimum,
    F64Maximum,
    F64CopySign,
    I32WrapI64,
    I32TruncateF32S,
    I32TruncateF32U,
    I32TruncateF64S,
    I32TruncateF64U,
    I64ExtendI32S,
    I64ExtendI32U,
    I64TruncateF32S,
    I64TruncateF32U,
    I64TruncateF64S,
    I64TruncateF64U,
    F32ConvertI32S,
    F32ConvertI32U,
    F32ConvertI64S,
    F32ConvertI64U,
    F32DemoteF64,
    F64ConvertI32S,
    F64ConvertI32U,
    F64ConvertI64S,
    F64ConvertI64U,
    F64PromoteF32,
    I32ReinterpretF32,
    I64ReinterpretF64,
    F32ReinterpretI32,
    F64ReinterpretI64,
    I32Extend8S,
    I32Extend16S,
    I64Extend8S,
    I64Extend16S,
    I64Extend32S,
    RefNull,
    RefIsNull,
    RefFunc,
    ExtendedOpcode1,
    ExtendedOpcode2,
}

/// An operation of the first extended code space: saturating numeric
/// conversions and bulk memory and table operations.
#[derive(Clone, Copy, Debug, PartialEq, Eq, Structural)]
pub enum ExtendedOpcode1 {
    I32TruncateSaturatingF32S,
    I32TruncateSaturatingF32U,
    I32TruncateSaturatingF64S,
    I32TruncateSaturatingF64U,
    I64TruncateSaturatingF32S,
    I64TruncateSaturatingF32U,
    I64TruncateSaturatingF64S,
    I64TruncateSaturatingF64U,
    MemoryInit,
    DataDrop,
    MemoryCopy,
    MemoryFill,
    TableInit,
    ElemDrop,
    TableCopy,
    TableGrow,
    TableSize,
    TableFill,
}

/// An operation of the second extended code space: the 128-bit vector
/// operations.
#[derive(Clone, Copy, Debug, PartialEq, Eq, Structural)]
pub enum ExtendedOpcode2 {
    V128Load,
    V128Load8x8S,
    V128Load8x8U,
    V128Load16x4S,
    V128Load16x4U,
    V128Load32x2S,
    V128Load32x2U,
    V128Load8Splat,
    V128Load16Splat,
    V128Load32Splat,
    V128Load64Splat,
    V128Store,
    V128Const,
    V128Shuffle,
    I8x16Swizzle,
    I8x16Splat,
    I16x8Splat,
    I32x4Splat,
    I64x2Splat,
    F32x4Splat,
    F64x2Splat,
    I8x16ExtractLaneS,
    I8x16ExtractLaneU,
    I8x16ReplaceLane,
    I16x8ExtractLaneS,
    I16x8ExtractLaneU,
    I16x8ReplaceLane,
    I32x4ExtractLane,
    I32x4ReplaceLane,
    I64x2ExtractLane,
    I64x2ReplaceLane,
    F32x4ExtractLane,
    F32x4ReplaceLane,
    F64x2ExtractLane,
    F64x2ReplaceLane,
    I8x16Equal,
    I8x16NotEqual,
    I8x16LessThanS,
    I8x16LessThanU,
    I8x16GreaterThanS,
    I8x16GreaterThanU,
    I8x16LessEqualS,
    I8x16LessEqualU,
    I8x16GreaterEqualS,
    I8x16GreaterEqualU,
    I16x8Equal,
    I16x8NotEqual,
    I16x8essThanS,
    I16x8LessThanU,
    I16x8GreaterThanS,
    I16x8GreaterThanU,
    I16x8LessEqualS,
    I16x8LessEqualU,
    I16x8GreaterEqualS,
    I16x8GreaterEqualU,
    I32x4Equal,
    I32x4NotEqual,
    I32x4essThanS,
    I32x4LessThanU,
    I32x4GreaterThanS,
    I32x4GreaterThanU,
    I32x4LessEqualS,
    I32x4LessEqualU,
    I32x4GreaterEqualS,
    I32x4GreaterEqualU,
    F32x4Equal,
    F32x4NotEqual,
    F32x4LessThan,
    F32x4GreaterThan,
    F32x4LessEqual,
    F32x4GreaterEqual,
    F64x2Equal,
    F64x2NotEqual,
    F64x2LessThan,
    F64x2GreaterThan,
    F64x2LessEqual,
    F64x2GreaterEqual,
    V128Not,
    V128And,
    V128AndNot,
    V128Or,
    V128Xor,
    V128BitSelect,
    V128AnyTrue,
    V128Load8Lane,
    V128Load16Lane,
    V128Load32Lane,
    V128Load64Lane,
    V128Store8Lane,
    V128Store16Lane,
    V128Store32Lane,
    V128Store64Lane,
    V128Load32Zero,
    V128Load64Zero,
    F32x4DemoteF64x2Zero,
    F64x2PromoteLowF32x4,
    I8x16Absolute,
    I8x16Negate,
    I8x16Popcount,
    I8x16AllTrue,
    I8x16Bitmask,
    I8x16NarrowI16x8S,
    I8x16NarrowI16x8U,
    F32x4Ceiling,
    F32x4Floor,
    F32x4Truncate,
    F32x4Nearest,
    I8x16Shl,
    I8x16ShrS,
    I8x16ShrU,
    I8x16Add,
    I8x16AddSaturatingS,
    I8x16AddSaturatingU,
    I8x16Subtract,
    I8x16SubtractSaturatingS,
    I8x16SubtractSaturatingU,
    F64x2Ceiling,
    F64x2Floor,
    I8x16MinimumS,
    I8x16MinimumU,
    I8x16MaximumS,
    I8x16MaximumU,
    F64x2Truncate,
    I8x16AverageU,
    I16x8ExtendAddPairwiseI8x16S,
    I16x8ExtendAddPairwiseI8x16U,
    I32x4ExtendAddPairwiseI16x8S,
    I32x4ExtendAddPairwiseI16x8U,
    I16x8Absolute,
    I16x8Negate,
    I16x8Q15MulrSaturatingS,
    I16x8AllTrue,
    I16x8Bitmask,
    I16x8NarrowI32x4S,
    I16x8NarrowI32x4U,
    I16x8ExtendLowI8x16S,
    I16x8ExtendHighI8x16S,
    I16x8ExtendLowI8x16U,
    I16x8ExtendHighI8x16U,
    I16x8Shl,
    I16x8ShrS,
    I16x8ShrU,
    I16x8Add,
    I16x8AddSaturatingS,
    I16x8AddSaturatingU,
    I16x8Subtract,
    I16x8SubtractSaturatingS,
    I16x8SubtractSaturatingU,
    F64x2Nearest,
    I16x8Multiply,
    I16x8MinimumS,
    I16x8MinimumU,
    I16x8MaximumS,
    I16x8MaximumU,
    I16x8AverageU,
    I16x8ExtendMultiplyLowI8x16S,
    I16x8ExtendMultiplyHighI8x16S,
    I16x8ExtendMultiplyLowI8x16U,
    I16x8ExtendMultiplyHighI8x16U,
    I32x4Absolute,
    I32x4Negate,
    I32x4AllTrue,
    I32x4Bitmask,
    I32x4ExtendLowI16x8S,
    I32x4ExtendHighI16x8S,
    I32x4ExtendLowI16x8U,
    I32x4ExtendHighI16x8U,
    I32x4Shl,
    I32x4ShrS,
    I32x4ShrU,
    I32x4Add,
    I32x4Subtract,
    I32x4Multiply,
    I32x4MinimumS,
    I32x4MinimumU,
    I32x4MaximumS,
    I32x4MaximumU,
    I32x4DotI16x8S,
    I32x4ExtendMultiplyLowI16x8S,
    I32x4ExtendMultiplyHighI16x8S,
    I32x4ExtendMultiplyLowI16x8U,
    I32x4ExtendMultiplyHighI16x8U,
    I64x2Absolute,
    I64x2Neg,
    I64xx2AllTrue,
    I64x2Bitmask,
    I64x2ExtendLowI32x4S,
    I64x2ExtendHighI32x4S,
    I64x2ExtendLowI32x4U,
    I64x2ExtendHighI32x4U,
    I64x2Shl,
    I64x2ShrS,
    I64x2ShrU,
    I64x2Add,
    I64x2Sub,
    I64x2Multiply,
    I64x2ExtendMultiplyLowI32x4S,
    I64x2ExtendMultiplyHighI32x4S,
    I64x2ExtendMultiplyLowI32x4U,
    I64x2ExtendMultiplyHighI32x4U,
    F64x2Absolute,
    F64x2Negate,
    F64x2SquareRoot,
    F64x2Add,
    F64x2Subtract,
    F64x2Multiply,
    F64x2Divide,
    F64x2Minimum,
    F64x2Maximum,
    F64x2PMinimum,
    F64x2PMaximum,
    I32x4TruncateSaturatingF32x4S,
    I32x4TruncateSaturatingF32x4U,
    F32x4ConvertI32x4S,
    F32x4ConvertI32x4U,
    I32x4TruncateSaturatingF64x2S,
    I32x4TruncateSaturatingF64x2U,
    F64x2ConvertLowI32x4S,
    F64x2ConvertLowI32x4U,
}

/// A fully resolved opcode: the atomic unit the decoder dispatches
/// on. Equality is structural.
#[derive(Clone, Copy, Debug, PartialEq, Eq, Structural)]
pub enum FullOpcode {
    OneByte(Opcode),
    Extended1(ExtendedOpcode1),
    Extended2(ExtendedOpcode2),
}

/// The opcode a byte stands for; `None` for a byte with no assigned
/// meaning.
#[verifier::opaque]
pub open spec fn spec_opcode(code: u8) -> Option<Opcode> {
    match code {
        0x0u8 => Some(Opcode::Unreachable),
        0x1u8 => Some(Opcode::Nop),
        0x2u8 => Some(Opcode::Block),
        0x3u8 => Some(Opcode::Loop),
        0x4u8 => Some(Opcode::If),
        0x5u8 => Some(Opcode::Else),
        0xbu8 => Some(Opcode::End),
        0xcu8 => Some(Opcode::Branch),
        0xdu8 => Some(Opcode::BranchIf),
        0xeu8 => Some(Opcode::BranchTable),
        0xfu8 => Some(Opcode::Return),
        0x10u8 => Some(Opcode::Call),
        0x11u8 => Some(Opcode::CallIndirect),
        0x1au8 => Some(Opcode::Drop),
        0x1bu8 => Some(Opcode::SelectNumeric),
        0x1cu8 => Some(Opcode::Select),
        0x20u8 => Some(Opcode::LocalGet),
        0x21u8 => Some(Opcode::LocalSet),
        0x22u8 => Some(Opcode::LocalTee),
        0x23u8 => Some(Opcode::GlobalGet),
        0x24u8 => Some(Opcode::GlobalSet),
        0x25u8 => Some(Opcode::TableGet),
        0x26u8 => Some(Opcode::TableSet),
        0x28u8 => Some(Opcode::I32Load),
        0x29u8 => Some(Opcode::I64Load),
        0x2au8 => Some(Opcode::F32Load),
        0x2bu8 => Some(Opcode::F64Load),
        0x2cu8 => Some(Opcode::I32Load8S),
        0x2du8 => Some(Opcode::I32Load8U),
        0x2eu8 => Some(Opcode::I32Load16S),
        0x2fu8 => Some(Opcode::I32Load16U),
        0x30u8 => Some(Opcode::I64Load8S),
        0x31u8 => Some(Opcode::I64Load8U),
        0x32u8 => Some(Opcode::I64Load16S),
        0x33u8 => Some(Opcode::I64Load16U),
        0x34u8 => Some(Opcode::I64Load32S),
        0x35u8 => Some(Opcode::I64Load32U),
        0x36u8 => Some(Opcode::I32Store),
        0x37u8 => Some(Opcode::I64Store),
        0x38u8 => Some(Opcode::F32Store),
        0x39u8 => Some(Opcode::F64Store),
        0x3au8 => Some(Opcode::I32Store8),
        0x3bu8 => Some(Opcode::I32Store16),
        0x3cu8 => Some(Opcode::I64Store8),
        0x3du8 => Some(Opcode::I64Store16),
        0x3eu8 => Some(Opcode::I64Store32),
        0x3fu8 => Some(Opcode::MemorySize),
        0x40u8 => Some(Opcode::MemoryGrow),
        0x41u8 => Some(Opcode::I32Constant),
        0x42u8 => Some(Opcode::I64Constant),
        0x43u8 => Some(Opcode::F32Constant),
        0x44u8 => Some(Opcode::F64Constant),
        0x45u8 => Some(Opcode::I32EqualZero),
        0x46u8 => Some(Opcode::I32Equal),
        0x47u8 => Some(Opcode::I32NotEqual),
        0x48u8 => Some(Opcode::I32LessThanS),
        0x49u8 => Some(Opcode::I32LessThanU),
        0x4au8 => Some(Opcode::I32GreaterThanS),
        0x4bu8 => Some(Opcode::I32GreaterThanU),
        0x4cu8 => Some(Opcode::I32LessEqualS),
        0x4du8 => Some(Opcode::I32LessEqualU),
        0x4eu8 => Some(Opcode::I32GreaterEqualS),
        0x4fu8 => Some(Opcode::I32GreaterEqualU),
        0x50u8 => Some(Opcode::I64EqualZero),
        0x51u8 => Some(Opcode::I64Equal),
        0x52u8 => Some(Opcode::I64NotEqual),
        0x53u8 => Some(Opcode::I64LessThanS),
        0x54u8 => Some(Opcode::I64LessThanU),
        0x55u8 => Some(Opcode::I64GreaterThanS),
        0x56u8 => Some(Opcode::I64GreaterThanU),
        0x57u8 => Some(Opcode::I64LessEqualS),
        0x58u8 => Some(Opcode::I64LessEqualU),
        0x59u8 => Some(Opcode::I64GreaterEqualS),
        0x5au8 => Some(Opcode::I64GreaterEqualU),
        0x5bu8 => Some(Opcode::F32Equal),
        0x5cu8 => Some(Opcode::F32NotEqual),
        0x5du8 => Some(Opcode::F32LessThan),
        0x5eu8 => Some(Opcode::F32GreaterThan),
        0x5fu8 => Some(Opcode::F32LessEqual),
        0x60u8 => Some(Opcode::F32GreaterEqual),
        0x61u8 => Some(Opcode::F64Equal),
        0x62u8 => Some(Opcode::F64NotEqual),
        0x63u8 => Some(Opcode::F64LessThan),
        0x64u8 => Some(Opcode::F64GreaterThan),
        0x65u8 => Some(Opcode::F64LessEqual),
        0x66u8 => Some(Opcode::F64GreaterEqual),
        0x67u8 => Some(Opcode::I32Clz),
        0x68u8 => Some(Opcode::I32Ctz),
        0x69u8 => Some(Opcode::I32Popcount),
        0x6au8 => Some(Opcode::I32Add),
        0x6bu8 => Some(Opcode::I32Subtract),
        0x6cu8 => Some(Opcode::I32Multiply),
        0x6du8 => Some(Opcode::I32DivideS),
        0x6eu8 => Some(Opcode::I32DivideU),
        0x6fu8 => Some(Opcode::I32RemainderS),
        0x70u8 => Some(Opcode::I32RemainderU),
        0x71u8 => Some(Opcode::I32And),
        0x72u8 => Some(Opcode::I32Or),
        0x73u8 => Some(Opcode::I32Xor),
        0x74u8 => Some(Opcode::I32ShiftLeft),
        0x75u8 => Some(Opcode::I32ShiftRightS),
        0x76u8 => Some(Opcode::I32ShiftRightU),
        0x77u8 => Some(Opcode::I32RotateLeft),
        0x78u8 => Some(Opcode::I32RotateRight),
        0x79u8 => Some(Opcode::I64Clz),
        0x7au8 => Some(Opcode::I64Ctz),
        0x7bu8 => Some(Opcode::I64Popcount),
        0x7cu8 => Some(Opcode::I64Add),
        0x7du8 => Some(Opcode::I64Subtract),
        0x7eu8 => Some(Opcode::I64Multiply),
        0x7fu8 => Some(Opcode::I64DivideS),
        0x80u8 => Some(Opcode::I64DivideU),
        0x81u8 => Some(Opcode::I64RemainderS),
        0x82u8 => Some(Opcode::I64RemainderU),
        0x83u8 => Some(Opcode::I64And),
        0x84u8 => Some(Opcode::I64Or),
        0x85u8 => Some(Opcode::I64Xor),
        0x86u8 => Some(Opcode::I64ShiftLeft),
        0x87u8 => Some(Opcode::I64ShiftRightS),
        0x88u8 => Some(Opcode::I64ShiftRightU),
        0x89u8 => Some(Opcode::I64RotateLeft),
        0x8au8 => Some(Opcode::I64RotateRight),
        0x8bu8 => Some(Opcode::F32Absolute),
        0x8cu8 => Some(Opcode::F32Negate),
        0x8du8 => Some(Opcode::F32Ceiling),
        0x8eu8 => Some(Opcode::F32Floor),
        0x8fu8 => Some(Opcode::F32Truncate),
        0x90u8 => Some(Opcode::F32Nearest),
        0x91u8 => Some(Opcode::F32SquareRoot),
        0x92u8 => Some(Opcode::F32Add),
        0x93u8 => Some(Opcode::F32Subtract),
        0x94u8 => Some(Opcode::F32Multiply),
        0x95u8 => Some(Opcode::F32Divide),
        0x96u8 => Some(Opcode::F32Minimum),
        0x97u8 => Some(Opcode::F32Maximum),
        0x98u8 => Some(Opcode::F32CopySign),
        0x99u8 => Some(Opcode::F64Absolute),
        0x9au8 => Some(Opcode::F64Negate),
        0x9bu8 => Some(Opcode::F64Ceiling),
        0x9cu8 => Some(Opcode::F64Floor),
        0x9du8 => Some(Opcode::F64Truncate),
        0x9eu8 => Some(Opcode::F64Nearest),
        0x9fu8 => Some(Opcode::F64SquareRoot),
        0xa0u8 => Some(Opcode::F64Add),
        0xa1u8 => Some(Opcode::F64Subtract),
        0xa2u8 => Some(Opcode::F64Multiply),
        0xa3u8 => Some(Opcode::F64Divide),
        0xa4u8 => Some(Opcode::F64Minimum),
        0xa5u8 => Some(Opcode::F64Maximum),
        0xa6u8 => Some(Opcode::F64CopySign),
        0xa7u8 => Some(Opcode::I32WrapI64),
        0xa8u8 => Some(Opcode::I32TruncateF32S),
        0xa9u8 => Some(Opcode::I32TruncateF32U),
        0xaau8 => Some(Opcode::I32TruncateF64S),
        0xabu8 => Some(Opcode::I32TruncateF64U),
        0xacu8 => Some(Opcode::I64ExtendI32S),
        0xadu8 => Some(Opcode::I64ExtendI32U),
        0xaeu8 => Some(Opcode::I64TruncateF32S),
        0xafu8 => Some(Opcode::I64TruncateF32U),
        0xb0u8 => Some(Opcode::I64TruncateF64S),
        0xb1u8 => Some(Opcode::I64TruncateF64U),
        0xb2u8 => Some(Opcode::F32ConvertI32S),
        0xb3u8 => Some(Opcode::F32ConvertI32U),
        0xb4u8 => Some(Opcode::F32ConvertI64S),
        0xb5u8 => Some(Opcode::F32ConvertI64U),
        0xb6u8 => Some(Opcode::F32DemoteF64),
        0xb7u8 => Some(Opcode::F64ConvertI32S),
        0xb8u8 => Some(Opcode::F64ConvertI32U),
        0xb9u8 => Some(Opcode::F64ConvertI64S),
        0xbau8 => Some(Opcode::F64ConvertI64U),
        0xbbu8 => Some(Opcode::F64PromoteF32),
        0xbcu8 => Some(Opcode::I32ReinterpretF32),
        0xbdu8 => Some(Opcode::I64ReinterpretF64),
        0xbeu8 => Some(Opcode::F32ReinterpretI32),
        0xbfu8 => Some(Opcode::F64ReinterpretI64),
        0xc0u8 => Some(Opcode::I32Extend8S),
        0xc1u8 => Some(Opcode::I32Extend16S),
        0xc2u8 => Some(Opcode::I64Extend8S),
        0xc3u8 => Some(Opcode::I64Extend16S),
        0xc4u8 => Some(Opcode::I64Extend32S),
        0xd0u8 => Some(Opcode::RefNull),
        0xd1u8 => Some(Opcode::RefIsNull),
        0xd2u8 => Some(Opcode::RefFunc),
        0xfcu8 => Some(Opcode::ExtendedOpcode1),
        0xfdu8 => Some(Opcode::ExtendedOpcode2),
        _ => None,
    }
}

/// Looks an integer code up in the `Opcode` table.
pub fn opcode_from_byte(code: u8) -> (r: Option<Opcode>)
    ensures
        r == spec_opcode(code),
{
    proof {
        reveal(spec_opcode);
    }
    match code {
        0x0u8 => Some(Opcode::Unreachable),
        0x1u8 => Some(Opcode::Nop),
        0x2u8 => Some(Opcode::Block),
        0x3u8 => Some(Opcode::Loop),
        0x4u8 => Some(Opcode::If),
        0x5u8 => Some(Opcode::Else),
        0xbu8 => Some(Opcode::End),
        0xcu8 => Some(Opcode::Branch),
        0xdu8 => Some(Opcode::BranchIf),
        0xeu8 => Some(Opcode::BranchTable),
        0xfu8 => Some(Opcode::Return),
        0x10u8 => Some(Opcode::Call),
        0x11u8 => Some(Opcode::CallIndirect),
        0x1au8 => Some(Opcode::Drop),
        0x1bu8 => Some(Opcode::SelectNumeric),
        0x1cu8 => Some(Opcode::Select),
        0x20u8 => Some(Opcode::LocalGet),
        0x21u8 => Some(Opcode::LocalSet),
        0x22u8 => Some(Opcode::LocalTee),
        0x23u8 => Some(Opcode::GlobalGet),
        0x24u8 => Some(Opcode::GlobalSet),
        0x25u8 => Some(Opcode::TableGet),
        0x26u8 => Some(Opcode::TableSet),
        0x28u8 => Some(Opcode::I32Load),
        0x29u8 => Some(Opcode::I64Load),
        0x2au8 => Some(Opcode::F32Load),
        0x2bu8 => Some(Opcode::F64Load),
        0x2cu8 => Some(Opcode::I32Load8S),
        0x2du8 => Some(Opcode::I32Load8U),
        0x2eu8 => Some(Opcode::I32Load16S),
        0x2fu8 => Some(Opcode::I32Load16U),
        0x30u8 => Some(Opcode::I64Load8S),
        0x31u8 => Some(Opcode::I64Load8U),
        0x32u8 => Some(Opcode::I64Load16S),
        0x33u8 => Some(Opcode::I64Load16U),
        0x34u8 => Some(Opcode::I64Load32S),
        0x35u8 => Some(Opcode::I64Load32U),
        0x36u8 => Some(Opcode::I32Store),
        0x37u8 => Some(Opcode::I64Store),
        0x38u8 => Some(Opcode::F32Store),
        0x39u8 => Some(Opcode::F64Store),
        0x3au8 => Some(Opcode::I32Store8),
        0x3bu8 => Some(Opcode::I32Store16),
        0x3cu8 => Some(Opcode::I64Store8),
        0x3du8 => Some(Opcode::I64Store16),
        0x3eu8 => Some(Opcode::I64Store32),
        0x3fu8 => Some(Opcode::MemorySize),
        0x40u8 => Some(Opcode::MemoryGrow),
        0x41u8 => Some(Opcode::I32Constant),
        0x42u8 => Some(Opcode::I64Constant),
        0x43u8 => Some(Opcode::F32Constant),
        0x44u8 => Some(Opcode::F64Constant),
        0x45u8 => Some(Opcode::I32EqualZero),
        0x46u8 => Some(Opcode::I32Equal),
        0x47u8 => Some(Opcode::I32NotEqual),
        0x48u8 => Some(Opcode::I32LessThanS),
        0x49u8 => Some(Opcode::I32LessThanU),
        0x4au8 => Some(Opcode::I32GreaterThanS),
        0x4bu8 => Some(Opcode::I32GreaterThanU),
        0x4cu8 => Some(Opcode::I32LessEqualS),
        0x4du8 => Some(Opcode::I32LessEqualU),
        0x4eu8 => Some(Opcode::I32GreaterEqualS),
        0x4fu8 => Some(Opcode::I32GreaterEqualU),
        0x50u8 => Some(Opcode::I64EqualZero),
        0x51u8 => Some(Opcode::I64Equal),
        0x52u8 => Some(Opcode::I64NotEqual),
        0x53u8 => Some(Opcode::I64LessThanS),
        0x54u8 => Some(Opcode::I64LessThanU),
        0x55u8 => Some(Opcode::I64GreaterThanS),
        0x56u8 => Some(Opcode::I64GreaterThanU),
        0x57u8 => Some(Opcode::I64LessEqualS),
        0x58u8 => Some(Opcode::I64LessEqualU),
        0x59u8 => Some(Opcode::I64GreaterEqualS),
        0x5au8 => Some(Opcode::I64GreaterEqualU),
        0x5bu8 => Some(Opcode::F32Equal),
        0x5cu8 => Some(Opcode::F32NotEqual),
        0x5du8 => Some(Opcode::F32LessThan),
        0x5eu8 => Some(Opcode::F32GreaterThan),
        0x5fu8 => Some(Opcode::F32LessEqual),
        0x60u8 => Some(Opcode::F32GreaterEqual),
        0x61u8 => Some(Opcode::F64Equal),
        0x62u8 => Some(Opcode::F64NotEqual),
        0x63u8 => Some(Opcode::F64LessThan),
        0x64u8 => Some(Opcode::F64GreaterThan),
        0x65u8 => Some(Opcode::F64LessEqual),
        0x66u8 => Some(Opcode::F64GreaterEqual),
        0x67u8 => Some(Opcode::I32Clz),
        0x68u8 => Some(Opcode::I32Ctz),
        0x69u8 => Some(Opcode::I32Popcount),
        0x6au8 => Some(Opcode::I32Add),
        0x6bu8 => Some(Opcode::I32Subtract),
        0x6cu8 => Some(Opcode::I32Multiply),
        0x6du8 => Some(Opcode::I32DivideS),
        0x6eu8 => Some(Opcode::I32DivideU),
        0x6fu8 => Some(Opcode::I32RemainderS),
        0x70u8 => Some(Opcode::I32RemainderU),
        0x71u8 => Some(Opcode::I32And),
        0x72u8 => Some(Opcode::I32Or),
        0x73u8 => Some(Opcode::I32Xor),
        0x74u8 => Some(Opcode::I32ShiftLeft),
        0x75u8 => Some(Opcode::I32ShiftRightS),
        0x76u8 => Some(Opcode::I32ShiftRightU),
        0x77u8 => Some(Opcode::I32RotateLeft),
        0x78u8 => Some(Opcode::I32RotateRight),
        0x79u8 => Some(Opcode::I64Clz),
        0x7au8 => Some(Opcode::I64Ctz),
        0x7bu8 => Some(Opcode::I64Popcount),
        0x7cu8 => Some(Opcode::I64Add),
        0x7du8 => Some(Opcode::I64Subtract),
        0x7eu8 => Some(Opcode::I64Multiply),
        0x7fu8 => Some(Opcode::I64DivideS),
        0x80u8 => Some(Opcode::I64DivideU),
        0x81u8 => Some(Opcode::I64RemainderS),
        0x82u8 => Some(Opcode::I64RemainderU),
        0x83u8 => Some(Opcode::I64And),
        0x84u8 => Some(Opcode::I64Or),
        0x85u8 => Some(Opcode::I64Xor),
        0x86u8 => Some(Opcode::I64ShiftLeft),
        0x87u8 => Some(Opcode::I64ShiftRightS),
        0x88u8 => Some(Opcode::I64ShiftRightU),
        0x89u8 => Some(Opcode::I64RotateLeft),
        0x8au8 => Some(Opcode::I64RotateRight),
        0x8bu8 => Some(Opcode::F32Absolute),
        0x8cu8 => Some(Opcode::F32Negate),
        0x8du8 => Some(Opcode::F32Ceiling),
        0x8eu8 => Some(Opcode::F32Floor),
        0x8fu8 => Some(Opcode::F32Truncate),
        0x90u8 => Some(Opcode::F32Nearest),
        0x91u8 => Some(Opcode::F32SquareRoot),
        0x92u8 => Some(Opcode::F32Add),
        0x93u8 => Some(Opcode::F32Subtract),
        0x94u8 => Some(Opcode::F32Multiply),
        0x95u8 => Some(Opcode::F32Divide),
        0x96u8 => Some(Opcode::F32Minimum),
        0x97u8 => Some(Opcode::F32Maximum),
        0x98u8 => Some(Opcode::F32CopySign),
        0x99u8 => Some(Opcode::F64Absolute),
        0x9au8 => Some(Opcode::F64Negate),
        0x9bu8 => Some(Opcode::F64Ceiling),
        0x9cu8 => Some(Opcode::F64Floor),
        0x9du8 => Some(Opcode::F64Truncate),
        0x9eu8 => Some(Opcode::F64Nearest),
        0x9fu8 => Some(Opcode::F64SquareRoot),
        0xa0u8 => Some(Opcode::F64Add),
        0xa1u8 => Some(Opcode::F64Subtract),
        0xa2u8 => Some(Opcode::F64Multiply),
        0xa3u8 => Some(Opcode::F64Divide),
        0xa4u8 => Some(Opcode::F64Minimum),
        0xa5u8 => Some(Opcode::F64Maximum),
        0xa6u8 => Some(Opcode::F64CopySign),
        0xa7u8 => Some(Opcode::I32WrapI64),
        0xa8u8 => Some(Opcode::I32TruncateF32S),
        0xa9u8 => Some(Opcode::I32TruncateF32U),
        0xaau8 => Some(Opcode::I32TruncateF64S),
        0xabu8 => Some(Opcode::I32TruncateF64U),
        0xacu8 => Some(Opcode::I64ExtendI32S),
        0xadu8 => Some(Opcode::I64ExtendI32U),
        0xaeu8 => Some(Opcode::I64TruncateF32S),
        0xafu8 => Some(Opcode::I64TruncateF32U),
        0xb0u8 => Some(Opcode::I64TruncateF64S),
        0xb1u8 => Some(Opcode::I64TruncateF64U),
        0xb2u8 => Some(Opcode::F32ConvertI32S),
        0xb3u8 => Some(Opcode::F32ConvertI32U),
        0xb4u8 => Some(Opcode::F32ConvertI64S),
        0xb5u8 => Some(Opcode::F32ConvertI64U),
        0xb6u8 => Some(Opcode::F32DemoteF64),
        0xb7u8 => Some(Opcode::F64ConvertI32S),
        0xb8u8 => Some(Opcode::F64ConvertI32U),
        0xb9u8 => Some(Opcode::F64ConvertI64S),
        0xbau8 => Some(Opcode::F64ConvertI64U),
        0xbbu8 => Some(Opcode::F64PromoteF32),
        0xbcu8 => Some(Opcode::I32ReinterpretF32),
        0xbdu8 => Some(Opcode::I64ReinterpretF64),
        0xbeu8 => Some(Opcode::F32ReinterpretI32),
        0xbfu8 => Some(Opcode::F64ReinterpretI64),
        0xc0u8 => Some(Opcode::I32Extend8S),
        0xc1u8 => Some(Opcode::I32Extend16S),
        0xc2u8 => Some(Opcode::I64Extend8S),
        0xc3u8 => Some(Opcode::I64Extend16S),
        0xc4u8 => Some(Opcode::I64Extend32S),
        0xd0u8 => Some(Opcode::RefNull),
        0xd1u8 => Some(Opcode::RefIsNull),
        0xd2u8 => Some(Opcode::RefFunc),
        0xfcu8 => Some(Opcode::ExtendedOpcode1),
        0xfdu8 => Some(Opcode::ExtendedOpcode2),
        _ => None,
    }
}

/// The first extended table: the operation an integer code stands
/// for; `None` for an unassigned code.
#[verifier::opaque]
pub open spec fn spec_extended1(code: u32) -> Option<ExtendedOpcode1> {
    match code {
        0x0u32 => Some(ExtendedOpcode1::I32TruncateSaturatingF32S),
        0x1u32 => Some(ExtendedOpcode1::I32TruncateSaturatingF32U),
        0x2u32 => Some(ExtendedOpcode1::I32TruncateSaturatingF64S),
        0x3u32 => Some(ExtendedOpcode1::I32TruncateSaturatingF64U),
        0x4u32 => Some(ExtendedOpcode1::I64TruncateSaturatingF32S),
        0x5u32 => Some(ExtendedOpcode1::I64TruncateSaturatingF32U),
        0x6u32 => Some(ExtendedOpcode1::I64TruncateSaturatingF64S),
        0x7u32 => Some(ExtendedOpcode1::I64TruncateSaturatingF64U),
        0x8u32 => Some(ExtendedOpcode1::MemoryInit),
        0x9u32 => Some(ExtendedOpcode1::DataDrop),
        0xau32 => Some(ExtendedOpcode1::MemoryCopy),
        0xbu32 => Some(ExtendedOpcode1::MemoryFill),
        0xcu32 => Some(ExtendedOpcode1::TableInit),
        0xdu32 => Some(ExtendedOpcode1::ElemDrop),
        0xeu32 => Some(ExtendedOpcode1::TableCopy),
        0xfu32 => Some(ExtendedOpcode1::TableGrow),
        0x10u32 => Some(ExtendedOpcode1::TableSize),
        0x11u32 => Some(ExtendedOpcode1::TableFill),
        _ => None,
    }
}

/// Looks an integer code up in the `ExtendedOpcode1` table.
pub fn extended1_from_code(code: u32) -> (r: Option<ExtendedOpcode1>)
    ensures
        r == spec_extended1(code),
{
    proof {
        reveal(spec_extended1);
    }
    match code {
        0x0u32 => Some(ExtendedOpcode1::I32TruncateSaturatingF32S),
        0x1u32 => Some(ExtendedOpcode1::I32TruncateSaturatingF32U),
        0x2u32 => Some(ExtendedOpcode1::I32TruncateSaturatingF64S),
        0x3u32 => Some(ExtendedOpcode1::I32TruncateSaturatingF64U),
        0x4u32 => Some(ExtendedOpcode1::I64TruncateSaturatingF32S),
        0x5u32 => Some(ExtendedOpcode1::I64TruncateSaturatingF32U),
        0x6u32 => Some(ExtendedOpcode1::I64TruncateSaturatingF64S),
        0x7u32 => Some(ExtendedOpcode1::I64TruncateSaturatingF64U),
        0x8u32 => Some(ExtendedOpcode1::MemoryInit),
        0x9u32 => Some(ExtendedOpcode1::DataDrop),
        0xau32 => Some(ExtendedOpcode1::MemoryCopy),
        0xbu32 => Some(ExtendedOpcode1::MemoryFill),
        0xcu32 => Some(ExtendedOpcode1::TableInit),
        0xdu32 => Some(ExtendedOpcode1::ElemDrop),
        0xeu32 => Some(ExtendedOpcode1::TableCopy),
        0xfu32 => Some(ExtendedOpcode1::TableGrow),
        0x10u32 => Some(ExtendedOpcode1::TableSize),
        0x11u32 => Some(ExtendedOpcode1::TableFill),
        _ => None,
    }
}

/// The second extended table: the operation an integer code stands
/// for; `None` for an unassigned code.
#[verifier::opaque]
pub open spec fn spec_extended2(code: u32) -> Option<ExtendedOpcode2> {
    match code {
        0x0u32 => Some(ExtendedOpcode2::V128Load),
        0x1u32 => Some(ExtendedOpcode2::V128Load8x8S),
        0x2u32 => Some(ExtendedOpcode2::V128Load8x8U),
        0x3u32 => Some(ExtendedOpcode2::V128Load16x4S),
        0x4u32 => Some(ExtendedOpcode2::V128Load16x4U),
        0x5u32 => Some(ExtendedOpcode2::V128Load32x2S),
        0x6u32 => Some(ExtendedOpcode2::V128Load32x2U),
        0x7u32 => Some(ExtendedOpcode2::V128Load8Splat),
        0x8u32 => Some(ExtendedOpcode2::V128Load16Splat),
        0x9u32 => Some(ExtendedOpcode2::V128Load32Splat),
        0xau32 => Some(ExtendedOpcode2::V128Load64Splat),
        0xbu32 => Some(ExtendedOpcode2::V128Store),
        0xcu32 => Some(ExtendedOpcode2::V128Const),
        0xdu32 => Some(ExtendedOpcode2::V128Shuffle),
        0xeu32 => Some(ExtendedOpcode2::I8x16Swizzle),
        0xfu32 => Some(ExtendedOpcode2::I8x16Splat),
        0x10u32 => Some(ExtendedOpcode2::I16x8Splat),
        0x11u32 => Some(ExtendedOpcode2::I32x4Splat),
        0x12u32 => Some(ExtendedOpcode2::I64x2Splat),
        0x13u32 => Some(ExtendedOpcode2::F32x4Splat),
        0x14u32 => Some(ExtendedOpcode2::F64x2Splat),
        0x15u32 => Some(ExtendedOpcode2::I8x16ExtractLaneS),
        0x16u32 => Some(ExtendedOpcode2::I8x16ExtractLaneU),
        0x17u32 => Some(ExtendedOpcode2::I8x16ReplaceLane),
        0x18u32 => Some(ExtendedOpcode2::I16x8ExtractLaneS),
        0x19u32 => Some(ExtendedOpcode2::I16x8ExtractLaneU),
        0x1au32 => Some(ExtendedOpcode2::I16x8ReplaceLane),
        0x1bu32 => Some(ExtendedOpcode2::I32x4ExtractLane),
        0x1cu32 => Some(ExtendedOpcode2::I32x4ReplaceLane),
        0x1du32 => Some(ExtendedOpcode2::I64x2ExtractLane),
        0x1eu32 => Some(ExtendedOpcode2::I64x2ReplaceLane),
        0x1fu32 => Some(ExtendedOpcode2::F32x4ExtractLane),
        0x20u32 => Some(ExtendedOpcode2::F32x4ReplaceLane),
        0x21u32 => Some(ExtendedOpcode2::F64x2ExtractLane),
        0x22u32 => Some(ExtendedOpcode2::F64x2ReplaceLane),
        0x23u32 => Some(ExtendedOpcode2::I8x16Equal),
        0x24u32 => Some(ExtendedOpcode2::I8x16NotEqual),
        0x25u32 => Some(ExtendedOpcode2::I8x16LessThanS),
        0x26u32 => Some(ExtendedOpcode2::I8x16LessThanU),
        0x27u32 => Some(ExtendedOpcode2::I8x16GreaterThanS),
        0x28u32 => Some(ExtendedOpcode2::I8x16GreaterThanU),
        0x29u32 => Some(ExtendedOpcode2::I8x16LessEqualS),
        0x2au32 => Some(ExtendedOpcode2::I8x16LessEqualU),
        0x2bu32 => Some(ExtendedOpcode2::I8x16GreaterEqualS),
        0x2cu32 => Some(ExtendedOpcode2::I8x16GreaterEqualU),
        0x2du32 => Some(ExtendedOpcode2::I16x8Equal),
        0x2eu32 => Some(ExtendedOpcode2::I16x8NotEqual),
        0x2fu32 => Some(ExtendedOpcode2::I16x8essThanS),
        0x30u32 => Some(ExtendedOpcode2::I16x8LessThanU),
        0x31u32 => Some(ExtendedOpcode2::I16x8GreaterThanS),
        0x32u32 => Some(ExtendedOpcode2::I16x8GreaterThanU),
        0x33u32 => Some(ExtendedOpcode2::I16x8LessEqualS),
        0x34u32 => Some(ExtendedOpcode2::I16x8LessEqualU),
        0x35u32 => Some(ExtendedOpcode2::I16x8GreaterEqualS),
        0x36u32 => Some(ExtendedOpcode2::I16x8GreaterEqualU),
        0x37u32 => Some(ExtendedOpcode2::I32x4Equal),
        0x38u32 => Some(ExtendedOpcode2::I32x4NotEqual),
        0x39u32 => Some(ExtendedOpcode2::I32x4essThanS),
        0x3au32 => Some(ExtendedOpcode2::I32x4LessThanU),
        0x3bu32 => Some(ExtendedOpcode2::I32x4GreaterThanS),
        0x3cu32 => Some(ExtendedOpcode2::I32x4GreaterThanU),
        0x3du32 => Some(ExtendedOpcode2::I32x4LessEqualS),
        0x3eu32 => Some(ExtendedOpcode2::I32x4LessEqualU),
        0x3fu32 => Some(ExtendedOpcode2::I32x4GreaterEqualS),
        0x40u32 => Some(ExtendedOpcode2::I32x4GreaterEqualU),
        0x41u32 => Some(ExtendedOpcode2::F32x4Equal),
        0x42u32 => Some(ExtendedOpcode2::F32x4NotEqual),
        0x43u32 => Some(ExtendedOpcode2::F32x4LessThan),
        0x44u32 => Some(ExtendedOpcode2::F32x4GreaterThan),
        0x45u32 => Some(ExtendedOpcode2::F32x4LessEqual),
        0x46u32 => Some(ExtendedOpcode2::F32x4GreaterEqual),
        0x47u32 => Some(ExtendedOpcode2::F64x2Equal),
        0x48u32 => Some(ExtendedOpcode2::F64x2NotEqual),
        0x49u32 => Some(ExtendedOpcode2::F64x2LessThan),
        0x4au32 => Some(ExtendedOpcode2::F64x2GreaterThan),
        0x4bu32 => Some(ExtendedOpcode2::F64x2LessEqual),
        0x4cu32 => Some(ExtendedOpcode2::F64x2GreaterEqual),
        0x4du32 => Some(ExtendedOpcode2::V128Not),
        0x4eu32 => Some(ExtendedOpcode2::V128And),
        0x4fu32 => Some(ExtendedOpcode2::V128AndNot),
        0x50u32 => Some(ExtendedOpcode2::V128Or),
        0x51u32 => Some(ExtendedOpcode2::V128Xor),
        0x52u32 => Some(ExtendedOpcode2::V128BitSelect),
        0x53u32 => Some(ExtendedOpcode2::V128AnyTrue),
        0x54u32 => Some(ExtendedOpcode2::V128Load8Lane),
        0x55u32 => Some(ExtendedOpcode2::V128Load16Lane),
        0x56u32 => Some(ExtendedOpcode2::V128Load32Lane),
        0x57u32 => Some(ExtendedOpcode2::V128Load64Lane),
        0x58u32 => Some(ExtendedOpcode2::V128Store8Lane),
        0x59u32 => Some(ExtendedOpcode2::V128Store16Lane),
        0x5au32 => Some(ExtendedOpcode2::V128Store32Lane),
        0x5bu32 => Some(ExtendedOpcode2::V128Store64Lane),
        0x5cu32 => Some(ExtendedOpcode2::V128Load32Zero),
        0x5du32 => Some(ExtendedOpcode2::V128Load64Zero),
        0x5eu32 => Some(ExtendedOpcode2::F32x4DemoteF64x2Zero),
        0x5fu32 => Some(ExtendedOpcode2::F64x2PromoteLowF32x4),
        0x60u32 => Some(ExtendedOpcode2::I8x16Absolute),
        0x61u32 => Some(ExtendedOpcode2::I8x16Negate),
        0x62u32 => Some(ExtendedOpcode2::I8x16Popcount),
        0x63u32 => Some(ExtendedOpcode2::I8x16AllTrue),
        0x64u32 => Some(ExtendedOpcode2::I8x16Bitmask),
        0x65u32 => Some(ExtendedOpcode2::I8x16NarrowI16x8S),
        0x66u32 => Some(ExtendedOpcode2::I8x16NarrowI16x8U),
        0x67u32 => Some(ExtendedOpcode2::F32x4Ceiling),
        0x68u32 => Some(ExtendedOpcode2::F32x4Floor),
        0x69u32 => Some(ExtendedOpcode2::F32x4Truncate),
        0x6au32 => Some(ExtendedOpcode2::F32x4Nearest),
        0x6bu32 => Some(ExtendedOpcode2::I8x16Shl),
        0x6cu32 => Some(ExtendedOpcode2::I8x16ShrS),
        0x6du32 => Some(ExtendedOpcode2::I8x16ShrU),
        0x6eu32 => Some(ExtendedOpcode2::I8x16Add),
        0x6fu32 => Some(ExtendedOpcode2::I8x16AddSaturatingS),
        0x70u32 => Some(ExtendedOpcode2::I8x16AddSaturatingU),
        0x71u32 => Some(ExtendedOpcode2::I8x16Subtract),
        0x72u32 => Some(ExtendedOpcode2::I8x16SubtractSaturatingS),
        0x73u32 => Some(ExtendedOpcode2::I8x16SubtractSaturatingU),
        0x74u32 => Some(ExtendedOpcode2::F64x2Ceiling),
        0x75u32 => Some(ExtendedOpcode2::F64x2Floor),
        0x76u32 => Some(ExtendedOpcode2::I8x16MinimumS),
        0x77u32 => Some(ExtendedOpcode2::I8x16MinimumU),
        0x78u32 => Some(ExtendedOpcode2::I8x16MaximumS),
        0x79u32 => Some(ExtendedOpcode2::I8x16MaximumU),
        0x7au32 => Some(ExtendedOpcode2::F64x2Truncate),
        0x7bu32 => Some(ExtendedOpcode2::I8x16AverageU),
        0x7cu32 => Some(ExtendedOpcode2::I16x8ExtendAddPairwiseI8x16S),
        0x7du32 => Some(ExtendedOpcode2::I16x8ExtendAddPairwiseI8x16U),
        0x7eu32 => Some(ExtendedOpcode2::I32x4ExtendAddPairwiseI16x8S),
        0x7fu32 => Some(ExtendedOpcode2::I32x4ExtendAddPairwiseI16x8U),
        0x80u32 => Some(ExtendedOpcode2::I16x8Absolute),
        0x81u32 => Some(ExtendedOpcode2::I16x8Negate),
        0x82u32 => Some(ExtendedOpcode2::I16x8Q15MulrSaturatingS),
        0x83u32 => Some(ExtendedOpcode2::I16x8AllTrue),
        0x84u32 => Some(ExtendedOpcode2::I16x8Bitmask),
        0x85u32 => Some(ExtendedOpcode2::I16x8NarrowI32x4S),
        0x86u32 => Some(ExtendedOpcode2::I16x8NarrowI32x4U),
        0x87u32 => Some(ExtendedOpcode2::I16x8ExtendLowI8x16S),
        0x88u32 => Some(ExtendedOpcode2::I16x8ExtendHighI8x16S),
        0x89u32 => Some(ExtendedOpcode2::I16x8ExtendLowI8x16U),
        0x8au32 => Some(ExtendedOpcode2::I16x8ExtendHighI8x16U),
        0x8bu32 => Some(ExtendedOpcode2::I16x8Shl),
        0x8cu32 => Some(ExtendedOpcode2::I16x8ShrS),
        0x8du32 => Some(ExtendedOpcode2::I16x8ShrU),
        0x8eu32 => Some(ExtendedOpcode2::I16x8Add),
        0x8fu32 => Some(ExtendedOpcode2::I16x8AddSaturatingS),
        0x90u32 => Some(ExtendedOpcode2::I16x8AddSaturatingU),
        0x91u32 => Some(ExtendedOpcode2::I16x8Subtract),
        0x92u32 => Some(ExtendedOpcode2::I16x8SubtractSaturatingS),
        0x93u32 => Some(ExtendedOpcode2::I16x8SubtractSaturatingU),
        0x94u32 => Some(ExtendedOpcode2::F64x2Nearest),
        0x95u32 => Some(ExtendedOpcode2::I16x8Multiply),
        0x96u32 => Some(ExtendedOpcode2::I16x8MinimumS),
        0x97u32 => Some(ExtendedOpcode2::I16x8MinimumU),
        0x98u32 => Some(ExtendedOpcode2::I16x8MaximumS),
        0x99u32 => Some(ExtendedOpcode2::I16x8MaximumU),
        0x9bu32 => Some(ExtendedOpcode2::I16x8AverageU),
        0x9cu32 => Some(ExtendedOpcode2::I16x8ExtendMultiplyLowI8x16S),
        0x9du32 => Some(ExtendedOpcode2::I16x8ExtendMultiplyHighI8x16S),
        0x9eu32 => Some(ExtendedOpcode2::I16x8ExtendMultiplyLowI8x16U),
        0x9fu32 => Some(ExtendedOpcode2::I16x8ExtendMultiplyHighI8x16U),
        0xa0u32 => Some(ExtendedOpcode2::I32x4Absolute),
        0xa1u32 => Some(ExtendedOpcode2::I32x4Negate),
        0xa3u32 => Some(ExtendedOpcode2::I32x4AllTrue),
        0xa4u32 => Some(ExtendedOpcode2::I32x4Bitmask),
        0xa7u32 => Some(ExtendedOpcode2::I32x4ExtendLowI16x8S),
        0xa8u32 => Some(ExtendedOpcode2::I32x4ExtendHighI16x8S),
        0xa9u32 => Some(ExtendedOpcode2::I32x4ExtendLowI16x8U),
        0xaau32 => Some(ExtendedOpcode2::I32x4ExtendHighI16x8U),
        0xabu32 => Some(ExtendedOpcode2::I32x4Shl),
        0xacu32 => Some(ExtendedOpcode2::I32x4ShrS),
        0xadu32 => Some(ExtendedOpcode2::I32x4ShrU),
        0xaeu32 => Some(ExtendedOpcode2::I32x4Add),
        0xb1u32 => Some(ExtendedOpcode2::I32x4Subtract),
        0xb5u32 => Some(ExtendedOpcode2::I32x4Multiply),
        0xb6u32 => Some(ExtendedOpcode2::I32x4MinimumS),
        0xb7u32 => Some(ExtendedOpcode2::I32x4MinimumU),
        0xb8u32 => Some(ExtendedOpcode2::I32x4MaximumS),
        0xb9u32 => Some(ExtendedOpcode2::I32x4MaximumU),
        0xbau32 => Some(ExtendedOpcode2::I32x4DotI16x8S),
        0xbcu32 => Some(ExtendedOpcode2::I32x4ExtendMultiplyLowI16x8S),
        0xbdu32 => Some(ExtendedOpcode2::I32x4ExtendMultiplyHighI16x8S),
        0xbeu32 => Some(ExtendedOpcode2::I32x4ExtendMultiplyLowI16x8U),
        0xbfu32 => Some(ExtendedOpcode2::I32x4ExtendMultiplyHighI16x8U),
        0xc0u32 => Some(ExtendedOpcode2::I64x2Absolute),
        0xc1u32 => Some(ExtendedOpcode2::I64x2Neg),
        0xc3u32 => Some(ExtendedOpcode2::I64xx2AllTrue),
        0xc4u32 => Some(ExtendedOpcode2::I64x2Bitmask),
        0xc7u32 => Some(ExtendedOpcode2::I64x2ExtendLowI32x4S),
        0xc8u32 => Some(ExtendedOpcode2::I64x2ExtendHighI32x4S),
        0xc9u32 => Some(ExtendedOpcode2::I64x2ExtendLowI32x4U),
        0xcau32 => Some(ExtendedOpcode2::I64x2ExtendHighI32x4U),
        0xcbu32 => Some(ExtendedOpcode2::I64x2Shl),
        0xccu32 => Some(ExtendedOpcode2::I64x2ShrS),
        0xcdu32 => Some(ExtendedOpcode2::I64x2ShrU),
        0xceu32 => Some(ExtendedOpcode2::I64x2Add),
        0xd1u32 => Some(ExtendedOpcode2::I64x2Sub),
        0xd5u32 => Some(ExtendedOpcode2::I64x2Multiply),
        0xdcu32 => Some(ExtendedOpcode2::I64x2ExtendMultiplyLowI32x4S),
        0xddu32 => Some(ExtendedOpcode2::I64x2ExtendMultiplyHighI32x4S),
        0xdeu32 => Some(ExtendedOpcode2::I64x2ExtendMultiplyLowI32x4U),
        0xdfu32 => Some(ExtendedOpcode2::I64x2ExtendMultiplyHighI32x4U),
        0xecu32 => Some(ExtendedOpcode2::F64x2Absolute),
        0xedu32 => Some(ExtendedOpcode2::F64x2Negate),
        0xefu32 => Some(ExtendedOpcode2::F64x2SquareRoot),
        0xf0u32 => Some(ExtendedOpcode2::F64x2Add),
        0xf1u32 => Some(ExtendedOpcode2::F64x2Subtract),
        0xf2u32 => Some(ExtendedOpcode2::F64x2Multiply),
        0xf3u32 => Some(ExtendedOpcode2::F64x2Divide),
        0xf4u32 => Some(ExtendedOpcode2::F64x2Minimum),
        0xf5u32 => Some(ExtendedOpcode2::F64x2Maximum),
        0xf6u32 => Some(ExtendedOpcode2::F64x2PMinimum),
        0xf7u32 => Some(ExtendedOpcode2::F64x2PMaximum),
        0xf8u32 => Some(ExtendedOpcode2::I32x4TruncateSaturatingF32x4S),
        0xf9u32 => Some(ExtendedOpcode2::I32x4TruncateSaturatingF32x4U),
        0xfau32 => Some(ExtendedOpcode2::F32x4ConvertI32x4S),
        0xfbu32 => Some(ExtendedOpcode2::F32x4ConvertI32x4U),
        0xfcu32 => Some(ExtendedOpcode2::I32x4TruncateSaturatingF64x2S),
        0xfdu32 => Some(ExtendedOpcode2::I32x4TruncateSaturatingF64x2U),
        0xfeu32 => Some(ExtendedOpcode2::F64x2ConvertLowI32x4S),
        0xffu32 => Some(ExtendedOpcode2::F64x2ConvertLowI32x4U),
        _ => None,
    }
}

/// Looks an integer code up in the `ExtendedOpcode2` table.
pub fn extended2_from_code(code: u32) -> (r: Option<ExtendedOpcode2>)
    ensures
        r == spec_extended2(code),
{
    proof {
        reveal(spec_extended2);
    }
    match code {
        0x0u32 => Some(ExtendedOpcode2::V128Load),
        0x1u32 => Some(ExtendedOpcode2::V128Load8x8S),
        0x2u32 => Some(ExtendedOpcode2::V128Load8x8U),
        0x3u32 => Some(ExtendedOpcode2::V128Load16x4S),
        0x4u32 => Some(ExtendedOpcode2::V128Load16x4U),
        0x5u32 => Some(ExtendedOpcode2::V128Load32x2S),
        0x6u32 => Some(ExtendedOpcode2::V128Load32x2U),
        0x7u32 => Some(ExtendedOpcode2::V128Load8Splat),
        0x8u32 => Some(ExtendedOpcode2::V128Load16Splat),
        0x9u32 => Some(ExtendedOpcode2::V128Load32Splat),
        0xau32 => Some(ExtendedOpcode2::V128Load64Splat),
        0xbu32 => Some(ExtendedOpcode2::V128Store),
        0xcu32 => Some(ExtendedOpcode2::V128Const),
        0xdu32 => Some(ExtendedOpcode2::V128Shuffle),
        0xeu32 => Some(ExtendedOpcode2::I8x16Swizzle),
        0xfu32 => Some(ExtendedOpcode2::I8x16Splat),
        0x10u32 => Some(ExtendedOpcode2::I16x8Splat),
        0x11u32 => Some(ExtendedOpcode2::I32x4Splat),
        0x12u32 => Some(ExtendedOpcode2::I64x2Splat),
        0x13u32 => Some(ExtendedOpcode2::F32x4Splat),
        0x14u32 => Some(ExtendedOpcode2::F64x2Splat),
        0x15u32 => Some(ExtendedOpcode2::I8x16ExtractLaneS),
        0x16u32 => Some(ExtendedOpcode2::I8x16ExtractLaneU),
        0x17u32 => Some(ExtendedOpcode2::I8x16ReplaceLane),
        0x18u32 => Some(ExtendedOpcode2::I16x8ExtractLaneS),
        0x19u32 => Some(ExtendedOpcode2::I16x8ExtractLaneU),
        0x1au32 => Some(ExtendedOpcode2::I16x8ReplaceLane),
        0x1bu32 => Some(ExtendedOpcode2::I32x4ExtractLane),
        0x1cu32 => Some(ExtendedOpcode2::I32x4ReplaceLane),
        0x1du32 => Some(ExtendedOpcode2::I64x2ExtractLane),
        0x1eu32 => Some(ExtendedOpcode2::I64x2ReplaceLane),
        0x1fu32 => Some(ExtendedOpcode2::F32x4ExtractLane),
        0x20u32 => Some(ExtendedOpcode2::F32x4ReplaceLane),
        0x21u32 => Some(ExtendedOpcode2::F64x2ExtractLane),
        0x22u32 => Some(ExtendedOpcode2::F64x2ReplaceLane),
        0x23u32 => Some(ExtendedOpcode2::I8x16Equal),
        0x24u32 => Some(ExtendedOpcode2::I8x16NotEqual),
        0x25u32 => Some(ExtendedOpcode2::I8x16LessThanS),
        0x26u32 => Some(ExtendedOpcode2::I8x16LessThanU),
        0x27u32 => Some(ExtendedOpcode2::I8x16GreaterThanS),
        0x28u32 => Some(ExtendedOpcode2::I8x16GreaterThanU),
        0x29u32 => Some(ExtendedOpcode2::I8x16LessEqualS),
        0x2au32 => Some(ExtendedOpcode2::I8x16LessEqualU),
        0x2bu32 => Some(ExtendedOpcode2::I8x16GreaterEqualS),
        0x2cu32 => Some(ExtendedOpcode2::I8x16GreaterEqualU),
        0x2du32 => Some(ExtendedOpcode2::I16x8Equal),
        0x2eu32 => Some(ExtendedOpcode2::I16x8NotEqual),
        0x2fu32 => Some(ExtendedOpcode2::I16x8essThanS),
        0x30u32 => Some(ExtendedOpcode2::I16x8LessThanU),
        0x31u32 => Some(ExtendedOpcode2::I16x8GreaterThanS),
        0x32u32 => Some(ExtendedOpcode2::I16x8GreaterThanU),
        0x33u32 => Some(ExtendedOpcode2::I16x8LessEqualS),
        0x34u32 => Some(ExtendedOpcode2::I16x8LessEqualU),
        0x35u32 => Some(ExtendedOpcode2::I16x8GreaterEqualS),
        0x36u32 => Some(ExtendedOpcode2::I16x8GreaterEqualU),
        0x37u32 => Some(ExtendedOpcode2::I32x4Equal),
        0x38u32 => Some(ExtendedOpcode2::I32x4NotEqual),
        0x39u32 => Some(ExtendedOpcode2::I32x4essThanS),
        0x3au32 => Some(ExtendedOpcode2::I32x4LessThanU),
        0x3bu32 => Some(ExtendedOpcode2::I32x4GreaterThanS),
        0x3cu32 => Some(ExtendedOpcode2::I32x4GreaterThanU),
        0x3du32 => Some(ExtendedOpcode2::I32x4LessEqualS),
        0x3eu32 => Some(ExtendedOpcode2::I32x4LessEqualU),
        0x3fu32 => Some(ExtendedOpcode2::I32x4GreaterEqualS),
        0x40u32 => Some(ExtendedOpcode2::I32x4GreaterEqualU),
        0x41u32 => Some(ExtendedOpcode2::F32x4Equal),
        0x42u32 => Some(ExtendedOpcode2::F32x4NotEqual),
        0x43u32 => Some(ExtendedOpcode2::F32x4LessThan),
        0x44u32 => Some(ExtendedOpcode2::F32x4GreaterThan),
        0x45u32 => Some(ExtendedOpcode2::F32x4LessEqual),
        0x46u32 => Some(ExtendedOpcode2::F32x4GreaterEqual),
        0x47u32 => Some(ExtendedOpcode2::F64x2Equal),
        0x48u32 => Some(ExtendedOpcode2::F64x2NotEqual),
        0x49u32 => Some(ExtendedOpcode2::F64x2LessThan),
        0x4au32 => Some(ExtendedOpcode2::F64x2GreaterThan),
        0x4bu32 => Some(ExtendedOpcode2::F64x2LessEqual),
        0x4cu32 => Some(ExtendedOpcode2::F64x2GreaterEqual),
        0x4du32 => Some(ExtendedOpcode2::V128Not),
        0x4eu32 => Some(ExtendedOpcode2::V128And),
        0x4fu32 => Some(ExtendedOpcode2::V128AndNot),
        0x50u32 => Some(ExtendedOpcode2::V128Or),
        0x51u32 => Some(ExtendedOpcode2::V128Xor),
        0x52u32 => Some(ExtendedOpcode2::V128BitSelect),
        0x53u32 => Some(ExtendedOpcode2::V128AnyTrue),
        0x54u32 => Some(ExtendedOpcode2::V128Load8Lane),
        0x55u32 => Some(ExtendedOpcode2::V128Load16Lane),
        0x56u32 => Some(ExtendedOpcode2::V128Load32Lane),
        0x57u32 => Some(ExtendedOpcode2::V128Load64Lane),
        0x58u32 => Some(ExtendedOpcode2::V128Store8Lane),
        0x59u32 => Some(ExtendedOpcode2::V128Store16Lane),
        0x5au32 => Some(ExtendedOpcode2::V128Store32Lane),
        0x5bu32 => Some(ExtendedOpcode2::V128Store64Lane),
        0x5cu32 => Some(ExtendedOpcode2::V128Load32Zero),
        0x5du32 => Some(ExtendedOpcode2::V128Load64Zero),
        0x5eu32 => Some(ExtendedOpcode2::F32x4DemoteF64x2Zero),
        0x5fu32 => Some(ExtendedOpcode2::F64x2PromoteLowF32x4),
        0x60u32 => Some(ExtendedOpcode2::I8x16Absolute),
        0x61u32 => Some(ExtendedOpcode2::I8x16Negate),
        0x62u32 => Some(ExtendedOpcode2::I8x16Popcount),
        0x63u32 => Some(ExtendedOpcode2::I8x16AllTrue),
        0x64u32 => Some(ExtendedOpcode2::I8x16Bitmask),
        0x65u32 => Some(ExtendedOpcode2::I8x16NarrowI16x8S),
        0x66u32 => Some(ExtendedOpcode2::I8x16NarrowI16x8U),
        0x67u32 => Some(ExtendedOpcode2::F32x4Ceiling),
        0x68u32 => Some(ExtendedOpcode2::F32x4Floor),
        0x69u32 => Some(ExtendedOpcode2::F32x4Truncate),
        0x6au32 => Some(ExtendedOpcode2::F32x4Nearest),
        0x6bu32 => Some(ExtendedOpcode2::I8x16Shl),
        0x6cu32 => Some(ExtendedOpcode2::I8x16ShrS),
        0x6du32 => Some(ExtendedOpcode2::I8x16ShrU),
        0x6eu32 => Some(ExtendedOpcode2::I8x16Add),
        0x6fu32 => Some(ExtendedOpcode2::I8x16AddSaturatingS),
        0x70u32 => Some(ExtendedOpcode2::I8x16AddSaturatingU),
        0x71u32 => Some(ExtendedOpcode2::I8x16Subtract),
        0x72u32 => Some(ExtendedOpcode2::I8x16SubtractSaturatingS),
        0x73u32 => Some(ExtendedOpcode2::I8x16SubtractSaturatingU),
        0x74u32 => Some(ExtendedOpcode2::F64x2Ceiling),
        0x75u32 => Some(ExtendedOpcode2::F64x2Floor),
        0x76u32 => Some(ExtendedOpcode2::I8x16MinimumS),
        0x77u32 => Some(ExtendedOpcode2::I8x16MinimumU),
        0x78u32 => Some(ExtendedOpcode2::I8x16MaximumS),
        0x79u32 => Some(ExtendedOpcode2::I8x16MaximumU),
        0x7au32 => Some(ExtendedOpcode2::F64x2Truncate),
        0x7bu32 => Some(ExtendedOpcode2::I8x16AverageU),
        0x7cu32 => Some(ExtendedOpcode2::I16x8ExtendAddPairwiseI8x16S),
        0x7du32 => Some(ExtendedOpcode2::I16x8ExtendAddPairwiseI8x16U),
        0x7eu32 => Some(ExtendedOpcode2::I32x4ExtendAddPairwiseI16x8S),
        0x7fu32 => Some(ExtendedOpcode2::I32x4ExtendAddPairwiseI16x8U),
        0x80u32 => Some(ExtendedOpcode2::I16x8Absolute),
        0x81u32 => Some(ExtendedOpcode2::I16x8Negate),
        0x82u32 => Some(ExtendedOpcode2::I16x8Q15MulrSaturatingS),
        0x83u32 => Some(ExtendedOpcode2::I16x8AllTrue),
        0x84u32 => Some(ExtendedOpcode2::I16x8Bitmask),
        0x85u32 => Some(ExtendedOpcode2::I16x8NarrowI32x4S),
        0x86u32 => Some(ExtendedOpcode2::I16x8NarrowI32x4U),
        0x87u32 => Some(ExtendedOpcode2::I16x8ExtendLowI8x16S),
        0x88u32 => Some(ExtendedOpcode2::I16x8ExtendHighI8x16S),
        0x89u32 => Some(ExtendedOpcode2::I16x8ExtendLowI8x16U),
        0x8au32 => Some(ExtendedOpcode2::I16x8ExtendHighI8x16U),
        0x8bu32 => Some(ExtendedOpcode2::I16x8Shl),
        0x8cu32 => Some(ExtendedOpcode2::I16x8ShrS),
        0x8du32 => Some(ExtendedOpcode2::I16x8ShrU),
        0x8eu32 => Some(ExtendedOpcode2::I16x8Add),
        0x8fu32 => Some(ExtendedOpcode2::I16x8AddSaturatingS),
        0x90u32 => Some(ExtendedOpcode2::I16x8AddSaturatingU),
        0x91u32 => Some(ExtendedOpcode2::I16x8Subtract),
        0x92u32 => Some(ExtendedOpcode2::I16x8SubtractSaturatingS),
        0x93u32 => Some(ExtendedOpcode2::I16x8SubtractSaturatingU),
        0x94u32 => Some(ExtendedOpcode2::F64x2Nearest),
        0x95u32 => Some(ExtendedOpcode2::I16x8Multiply),
        0x96u32 => Some(ExtendedOpcode2::I16x8MinimumS),
        0x97u32 => Some(ExtendedOpcode2::I16x8MinimumU),
        0x98u32 => Some(ExtendedOpcode2::I16x8MaximumS),
        0x99u32 => Some(ExtendedOpcode2::I16x8MaximumU),
        0x9bu32 => Some(ExtendedOpcode2::I16x8AverageU),
        0x9cu32 => Some(ExtendedOpcode2::I16x8ExtendMultiplyLowI8x16S),
        0x9du32 => Some(ExtendedOpcode2::I16x8ExtendMultiplyHighI8x16S),
        0x9eu32 => Some(ExtendedOpcode2::I16x8ExtendMultiplyLowI8x16U),
        0x9fu32 => Some(ExtendedOpcode2::I16x8ExtendMultiplyHighI8x16U),
        0xa0u32 => Some(ExtendedOpcode2::I32x4Absolute),
        0xa1u32 => Some(ExtendedOpcode2::I32x4Negate),
        0xa3u32 => Some(ExtendedOpcode2::I32x4AllTrue),
        0xa4u32 => Some(ExtendedOpcode2::I32x4Bitmask),
        0xa7u32 => Some(ExtendedOpcode2::I32x4ExtendLowI16x8S),
        0xa8u32 => Some(ExtendedOpcode2::I32x4ExtendHighI16x8S),
        0xa9u32 => Some(ExtendedOpcode2::I32x4ExtendLowI16x8U),
        0xaau32 => Some(ExtendedOpcode2::I32x4ExtendHighI16x8U),
        0xabu32 => Some(ExtendedOpcode2::I32x4Shl),
        0xacu32 => Some(ExtendedOpcode2::I32x4ShrS),
        0xadu32 => Some(ExtendedOpcode2::I32x4ShrU),
        0xaeu32 => Some(ExtendedOpcode2::I32x4Add),
        0xb1u32 => Some(ExtendedOpcode2::I32x4Subtract),
        0xb5u32 => Some(ExtendedOpcode2::I32x4Multiply),
        0xb6u32 => Some(ExtendedOpcode2::I32x4MinimumS),
        0xb7u32 => Some(ExtendedOpcode2::I32x4MinimumU),
        0xb8u32 => Some(ExtendedOpcode2::I32x4MaximumS),
        0xb9u32 => Some(ExtendedOpcode2::I32x4MaximumU),
        0xbau32 => Some(ExtendedOpcode2::I32x4DotI16x8S),
        0xbcu32 => Some(ExtendedOpcode2::I32x4ExtendMultiplyLowI16x8S),
        0xbdu32 => Some(ExtendedOpcode2::I32x4ExtendMultiplyHighI16x8S),
        0xbeu32 => Some(ExtendedOpcode2::I32x4ExtendMultiplyLowI16x8U),
        0xbfu32 => Some(ExtendedOpcode2::I32x4ExtendMultiplyHighI16x8U),
        0xc0u32 => Some(ExtendedOpcode2::I64x2Absolute),
        0xc1u32 => Some(ExtendedOpcode2::I64x2Neg),
        0xc3u32 => Some(ExtendedOpcode2::I64xx2AllTrue),
        0xc4u32 => Some(ExtendedOpcode2::I64x2Bitmask),
        0xc7u32 => Some(ExtendedOpcode2::I64x2ExtendLowI32x4S),
        0xc8u32 => Some(ExtendedOpcode2::I64x2ExtendHighI32x4S),
        0xc9u32 => Some(ExtendedOpcode2::I64x2ExtendLowI32x4U),
        0xcau32 => Some(ExtendedOpcode2::I64x2ExtendHighI32x4U),
        0xcbu32 => Some(ExtendedOpcode2::I64x2Shl),
        0xccu32 => Some(ExtendedOpcode2::I64x2ShrS),
        0xcdu32 => Some(ExtendedOpcode2::I64x2ShrU),
        0xceu32 => Some(ExtendedOpcode2::I64x2Add),
        0xd1u32 => Some(ExtendedOpcode2::I64x2Sub),
        0xd5u32 => Some(ExtendedOpcode2::I64x2Multiply),
        0xdcu32 => Some(ExtendedOpcode2::I64x2ExtendMultiplyLowI32x4S),
        0xddu32 => Some(ExtendedOpcode2::I64x2ExtendMultiplyHighI32x4S),
        0xdeu32 => Some(ExtendedOpcode2::I64x2ExtendMultiplyLowI32x4U),
        0xdfu32 => Some(ExtendedOpcode2::I64x2ExtendMultiplyHighI32x4U),
        0xecu32 => Some(ExtendedOpcode2::F64x2Absolute),
        0xedu32 => Some(ExtendedOpcode2::F64x2Negate),
        0xefu32 => Some(ExtendedOpcode2::F64x2SquareRoot),
        0xf0u32 => Some(ExtendedOpcode2::F64x2Add),
        0xf1u32 => Some(ExtendedOpcode2::F64x2Subtract),
        0xf2u32 => Some(ExtendedOpcode2::F64x2Multiply),
        0xf3u32 => Some(ExtendedOpcode2::F64x2Divide),
        0xf4u32 => Some(ExtendedOpcode2::F64x2Minimum),
        0xf5u32 => Some(ExtendedOpcode2::F64x2Maximum),
        0xf6u32 => Some(ExtendedOpcode2::F64x2PMinimum),
        0xf7u32 => Some(ExtendedOpcode2::F64x2PMaximum),
        0xf8u32 => Some(ExtendedOpcode2::I32x4TruncateSaturatingF32x4S),
        0xf9u32 => Some(ExtendedOpcode2::I32x4TruncateSaturatingF32x4U),
        0xfau32 => Some(ExtendedOpcode2::F32x4ConvertI32x4S),
        0xfbu32 => Some(ExtendedOpcode2::F32x4ConvertI32x4U),
        0xfcu32 => Some(ExtendedOpcode2::I32x4TruncateSaturatingF64x2S),
        0xfdu32 => Some(ExtendedOpcode2::I32x4TruncateSaturatingF64x2U),
        0xfeu32 => Some(ExtendedOpcode2::F64x2ConvertLowI32x4S),
        0xffu32 => Some(ExtendedOpcode2::F64x2ConvertLowI32x4U),
        _ => None,
    }
}

} // verus!
