//! The structured instruction representation the decoder produces:
//! one variant per decodable operation, with the nested bodies of
//! the structured control constructs held inline, and its
//! mathematical mirror used by the decoder's specification.

use vstd::prelude::*;

use crate::opcodes::{ExtendedOpcode1, Opcode};
use crate::types::{BlockType, RefType, ValueType};

verus! {

broadcast use vstd::std_specs::vec::axiom_vec_index_decreases;


/// A decoded instruction. Flat operations carry their immediates;
/// the structured control constructs carry their decoded bodies.
#[derive(Debug, PartialEq, Eq)]
pub enum Instruction {
    Block(BlockType, Vec<Instruction>),
    Loop(BlockType, Vec<Instruction>),
    If(BlockType, Vec<Instruction>),
    IfElse(BlockType, Vec<Instruction>, Vec<Instruction>),
    BranchTable(Vec<u32>, u32),
    SelectTyped(Vec<ValueType>),
    RefNull(RefType),
    I32Const(i32),
    I64Const(i64),
    F32Const(u32),
    F64Const(u64),
    Unreachable,
    Nop,
    Branch(u32),
    BranchIf(u32),
    Return,
    Call(u32),
    CallIndirect(u32, u32),
    Drop,
    Select,
    LocalGet(u32),
    LocalSet(u32),
    LocalTee(u32),
    GlobalGet(u32),
    GlobalSet(u32),
    TableGet(u32),
    TableSet(u32),
    I32Load(u32, u32),
    I64Load(u32, u32),
    F32Load(u32, u32),
    F64Load(u32, u32),
    I32Load8S(u32, u32),
    I32Load8U(u32, u32),
    I32Load16S(u32, u32),
    I32Load16U(u32, u32),
    I64Load8S(u32, u32),
    I64Load8U(u32, u32),
    I64Load16S(u32, u32),
    I64Load16U(u32, u32),
    I64Load32S(u32, u32),
    I64Load32U(u32, u32),
    I32Store(u32, u32),
    I64Store(u32, u32),
    F32Store(u32, u32),
    F64Store(u32, u32),
    I32Store8(u32, u32),
    I32Store16(u32, u32),
    I64Store8(u32, u32),
    I64Store16(u32, u32),
    I64Store32(u32, u32),
    MemorySize,
    MemoryGrow,
    I32EqualZero,
    I32Equal,
    I32NotEqual,
    I32LessThanS,
    I32LessThanU,
    I32GreaterThanS,
    I32GreaterThanU,
    I32LessEqualS,
    I32LessEqualU,
    I32GreaterEqualS,
    I32GreaterEqualU,
    I64EqualZero,
    I64Equal,
    I64NotEqual,
    I64LessThanS,
    I64LessThanU,
    I64GreaterThanS,
    I64GreaterThanU,
    I64LessEqualS,
    I64LessEqualU,
    I64GreaterEqualS,
    I64GreaterEqualU,
    F32Equal,
    F32NotEqual,
    F32LessThan,
    F32GreaterThan,
    F32LessEqual,
    F32GreaterEqual,
    F64Equal,
    F64NotEqual,
    F64LessThan,
    F64GreaterThan,
    F64LessEqual,
    F64GreaterEqual,
    I32Clz,
    I32Ctz,
    I32Popcount,
    I32Add,
    I32Subtract,
    I32Multiply,
    I32DivideS,
    I32DivideU,
    I32RemainderS,
    I32RemainderU,
    I32And,
    I32Or,
    I32Xor,
    I32ShiftLeft,
    I32ShiftRightS,
    I32ShiftRightU,
    I32RotateLeft,
    I32RotateRight,
    I64Clz,
    I64Ctz,
    I64Popcount,
    I64Add,
    I64Subtract,
    I64Multiply,
    I64DivideS,
    I64DivideU,
    I64RemainderS,
    I64RemainderU,
    I64And,
    I64Or,
    I64Xor,
    I64ShiftLeft,
    I64ShiftRightS,
    I64ShiftRightU,
    I64RotateLeft,
    I64RotateRight,
    F32Absolute,
    F32Negate,
    F32Ceiling,
    F32Floor,
    F32Truncate,
    F32Nearest,
    F32SquareRoot,
    F32Add,
    F32Subtract,
    F32Multiply,
    F32Divide,
    F32Minimum,
    F32Maximum,
    F32CopySign,
    F64Absolute,
    F64Negate,
    F64Ceiling,
    F64Floor,
    F64Truncate,
    F64Nearest,
    F64SquareRoot,
    F64Add,
    F64Subtract,
    F64Multiply,
    F64Divide,
    F64Minimum,
    F64Maximum,
    F64CopySign,
    I32WrapI64,
    I32TruncateF32S,
    I32TruncateF32U,
    I32TruncateF64S,
    I32TruncateF64U,
    I64ExtendI32S,
    I64ExtendI32U,
    I64TruncateF32S,
    I64TruncateF32U,
    I64TruncateF64S,
    I64TruncateF64U,
    F32ConvertI32S,
    F32ConvertI32U,
    F32ConvertI64S,
    F32ConvertI64U,
    F32DemoteF64,
    F64ConvertI32S,
    F64ConvertI32U,
    F64ConvertI64S,
    F64ConvertI64U,
    F64PromoteF32,
    I32ReinterpretF32,
    I64ReinterpretF64,
    F32ReinterpretI32,
    F64ReinterpretI64,
    I32Extend8S,
    I32Extend16S,
    I64Extend8S,
    I64Extend16S,
    I64Extend32S,
    RefIsNull,
    RefFunc(u32),
    I32TruncateSaturatingF32S,
    I32TruncateSaturatingF32U,
    I32TruncateSaturatingF64S,
    I32TruncateSaturatingF64U,
    I64TruncateSaturatingF32S,
    I64TruncateSaturatingF32U,
    I64TruncateSaturatingF64S,
    I64TruncateSaturatingF64U,
    MemoryInit(u32),
    DataDrop(u32),
    MemoryCopy,
    MemoryFill,
    TableInit(u32, u32),
    ElemDrop(u32),
    TableCopy(u32, u32),
    TableGrow(u32),
    TableSize(u32),
    TableFill(u32),
}

/// The mathematical mirror of [`Instruction`]: nested bodies are
/// sequences. The decoder's specification speaks of this type.
pub enum SpecInstruction {
    Block(BlockType, Seq<SpecInstruction>),
    Loop(BlockType, Seq<SpecInstruction>),
    If(BlockType, Seq<SpecInstruction>),
    IfElse(BlockType, Seq<SpecInstruction>, Seq<SpecInstruction>),
    BranchTable(Seq<u32>, u32),
    SelectTyped(Seq<ValueType>),
    RefNull(RefType),
    I32Const(i32),
    I64Const(i64),
    F32Const(u32),
    F64Const(u64),
    Unreachable,
    Nop,
    Branch(u32),
    BranchIf(u32),
    Return,
    Call(u32),
    CallIndirect(u32, u32),
    Drop,
    Select,
    LocalGet(u32),
    LocalSet(u32),
    LocalTee(u32),
    GlobalGet(u32),
    GlobalSet(u32),
    TableGet(u32),
    TableSet(u32),
    I32Load(u32, u32),
    I64Load(u32, u32),
    F32Load(u32, u32),
    F64Load(u32, u32),
    I32Load8S(u32, u32),
    I32Load8U(u32, u32),
    I32Load16S(u32, u32),
    I32Load16U(u32, u32),
    I64Load8S(u32, u32),
    I64Load8U(u32, u32),
    I64Load16S(u32, u32),
    I64Load16U(u32, u32),
    I64Load32S(u32, u32),
    I64Load32U(u32, u32),
    I32Store(u32, u32),
    I64Store(u32, u32),
    F32Store(u32, u32),
    F64Store(u32, u32),
    I32Store8(u32, u32),
    I32Store16(u32, u32),
    I64Store8(u32, u32),
    I64Store16(u32, u32),
    I64Store32(u32, u32),
    MemorySize,
    MemoryGrow,
    I32EqualZero,
    I32Equal,
    I32NotEqual,
    I32LessThanS,
    I32LessThanU,
    I32GreaterThanS,
    I32GreaterThanU,
    I32LessEqualS,
    I32LessEqualU,
    I32GreaterEqualS,
    I32GreaterEqualU,
    I64EqualZero,
    I64Equal,
    I64NotEqual,
    I64LessThanS,
    I64LessThanU,
    I64GreaterThanS,
    I64GreaterThanU,
    I64LessEqualS,
    I64LessEqualU,
    I64GreaterEqualS,
    I64GreaterEqualU,
    F32Equal,
    F32NotEqual,
    F32LessThan,
    F32GreaterThan,
    F32LessEqual,
    F32GreaterEqual,
    F64Equal,
    F64NotEqual,
    F64LessThan,
    F64GreaterThan,
    F64LessEqual,
    F64GreaterEqual,
    I32Clz,
    I32Ctz,
    I32Popcount,
    I32Add,
    I32Subtract,
    I32Multiply,
    I32DivideS,
    I32DivideU,
    I32RemainderS,
    I32RemainderU,
    I32And,
    I32Or,
    I32Xor,
    I32ShiftLeft,
    I32ShiftRightS,
    I32ShiftRightU,
    I32RotateLeft,
    I32RotateRight,
    I64Clz,
    I64Ctz,
    I64Popcount,
    I64Add,
    I64Subtract,
    I64Multiply,
    I64DivideS,
    I64DivideU,
    I64RemainderS,
    I64RemainderU,
    I64And,
    I64Or,
    I64Xor,
    I64ShiftLeft,
    I64ShiftRightS,
    I64ShiftRightU,
    I64RotateLeft,
    I64RotateRight,
    F32Absolute,
    F32Negate,
    F32Ceiling,
    F32Floor,
    F32Truncate,
    F32Nearest,
    F32SquareRoot,
    F32Add,
    F32Subtract,
    F32Multiply,
    F32Divide,
    F32Minimum,
    F32Maximum,
    F32CopySign,
    F64Absolute,
    F64Negate,
    F64Ceiling,
    F64Floor,
    F64Truncate,
    F64Nearest,
    F64SquareRoot,
    F64Add,
    F64Subtract,
    F64Multiply,
    F64Divide,
    F64Minimum,
    F64Maximum,
    F64CopySign,
    I32WrapI64,
    I32TruncateF32S,
    I32TruncateF32U,
    I32TruncateF64S,
    I32TruncateF64U,
    I64ExtendI32S,
    I64ExtendI32U,
    I64TruncateF32S,
    I64TruncateF32U,
    I64TruncateF64S,
    I64TruncateF64U,
    F32ConvertI32S,
    F32ConvertI32U,
    F32ConvertI64S,
    F32ConvertI64U,
    F32DemoteF64,
    F64ConvertI32S,
    F64ConvertI32U,
    F64ConvertI64S,
    F64ConvertI64U,
    F64PromoteF32,
    I32ReinterpretF32,
    I64ReinterpretF64,
    F32ReinterpretI32,
    F64ReinterpretI64,
    I32Extend8S,
    I32Extend16S,
    I64Extend8S,
    I64Extend16S,
    I64Extend32S,
    RefIsNull,
    RefFunc(u32),
    I32TruncateSaturatingF32S,
    I32TruncateSaturatingF32U,
    I32TruncateSaturatingF64S,
    I32TruncateSaturatingF64U,
    I64TruncateSaturatingF32S,
    I64TruncateSaturatingF32U,
    I64TruncateSaturatingF64S,
    I64TruncateSaturatingF64U,
    MemoryInit(u32),
    DataDrop(u32),
    MemoryCopy,
    MemoryFill,
    TableInit(u32, u32),
    ElemDrop(u32),
    TableCopy(u32, u32),
    TableGrow(u32),
    TableSize(u32),
    TableFill(u32),
}

/// The mirror of a decoded instruction, nested bodies viewed as
/// sequences.
#[verifier::opaque]
pub open spec fn instr_view(i: Instruction) -> SpecInstruction
    decreases i, 1int, 0int,
{
    match i {
        Instruction::Block(bt, body) => SpecInstruction::Block(bt, instrs_view_prefix(body, body@.len() as int)),
        Instruction::Loop(bt, body) => SpecInstruction::Loop(bt, instrs_view_prefix(body, body@.len() as int)),
        Instruction::If(bt, body) => SpecInstruction::If(bt, instrs_view_prefix(body, body@.len() as int)),
        Instruction::IfElse(bt, then_body, else_body) => SpecInstruction::IfElse(bt, instrs_view_prefix(then_body, then_body@.len() as int), instrs_view_prefix(else_body, else_body@.len() as int)),
        Instruction::BranchTable(labels, default) => SpecInstruction::BranchTable(labels@, default),
        Instruction::SelectTyped(types) => SpecInstruction::SelectTyped(types@),
        Instruction::RefNull(rt) => SpecInstruction::RefNull(rt),
        Instruction::I32Const(x) => SpecInstruction::I32Const(x),
        Instruction::I64Const(x) => SpecInstruction::I64Const(x),
        Instruction::F32Const(x) => SpecInstruction::F32Const(x),
        Instruction::F64Const(x) => SpecInstruction::F64Const(x),
        Instruction::Unreachable => SpecInstruction::Unreachable,
        Instruction::Nop => SpecInstruction::Nop,
        Instruction::Branch(x) => SpecInstruction::Branch(x),
        Instruction::BranchIf(x) => SpecInstruction::BranchIf(x),
        Instruction::Return => SpecInstruction::Return,
        Instruction::Call(x) => SpecInstruction::Call(x),
        Instruction::CallIndirect(x, y) => SpecInstruction::CallIndirect(x, y),
        Instruction::Drop => SpecInstruction::Drop,
        Instruction::Select => SpecInstruction::Select,
        Instruction::LocalGet(x) => SpecInstruction::LocalGet(x),
        Instruction::LocalSet(x) => SpecInstruction::LocalSet(x),
        Instruction::LocalTee(x) => SpecInstruction::LocalTee(x),
        Instruction::GlobalGet(x) => SpecInstruction::GlobalGet(x),
        Instruction::GlobalSet(x) => SpecInstruction::GlobalSet(x),
        Instruction::TableGet(x) => SpecInstruction::TableGet(x),
        Instruction::TableSet(x) => SpecInstruction::TableSet(x),
        Instruction::I32Load(x, y) => SpecInstruction::I32Load(x, y),
        Instruction::I64Load(x, y) => SpecInstruction::I64Load(x, y),
        Instruction::F32Load(x, y) => SpecInstruction::F32Load(x, y),
        Instruction::F64Load(x, y) => SpecInstruction::F64Load(x, y),
        Instruction::I32Load8S(x, y) => SpecInstruction::I32Load8S(x, y),
        Instruction::I32Load8U(x, y) => SpecInstruction::I32Load8U(x, y),
        Instruction::I32Load16S(x, y) => SpecInstruction::I32Load16S(x, y),
        Instruction::I32Load16U(x, y) => SpecInstruction::I32Load16U(x, y),
        Instruction::I64Load8S(x, y) => SpecInstruction::I64Load8S(x, y),
        Instruction::I64Load8U(x, y) => SpecInstruction::I64Load8U(x, y),
        Instruction::I64Load16S(x, y) => SpecInstruction::I64Load16S(x, y),
        Instruction::I64Load16U(x, y) => SpecInstruction::I64Load16U(x, y),
        Instruction::I64Load32S(x, y) => SpecInstruction::I64Load32S(x, y),
        Instruction::I64Load32U(x, y) => SpecInstruction::I64Load32U(x, y),
        Instruction::I32Store(x, y) => SpecInstruction::I32Store(x, y),
        Instruction::I64Store(x, y) => SpecInstruction::I64Store(x, y),
        Instruction::F32Store(x, y) => SpecInstruction::F32Store(x, y),
        Instruction::F64Store(x, y) => SpecInstruction::F64Store(x, y),
        Instruction::I32Store8(x, y) => SpecInstruction::I32Store8(x, y),
        Instruction::I32Store16(x, y) => SpecInstruction::I32Store16(x, y),
        Instruction::I64Store8(x, y) => SpecInstruction::I64Store8(x, y),
        Instruction::I64Store16(x, y) => SpecInstruction::I64Store16(x, y),
        Instruction::I64Store32(x, y) => SpecInstruction::I64Store32(x, y),
        Instruction::MemorySize => SpecInstruction::MemorySize,
        Instruction::MemoryGrow => SpecInstruction::MemoryGrow,
        Instruction::I32EqualZero => SpecInstruction::I32EqualZero,
        Instruction::I32Equal => SpecInstruction::I32Equal,
        Instruction::I32NotEqual => SpecInstruction::I32NotEqual,
        Instruction::I32LessThanS => SpecInstruction::I32LessThanS,
        Instruction::I32LessThanU => SpecInstruction::I32LessThanU,
        Instruction::I32GreaterThanS => SpecInstruction::I32GreaterThanS,
        Instruction::I32GreaterThanU => SpecInstruction::I32GreaterThanU,
        Instruction::I32LessEqualS => SpecInstruction::I32LessEqualS,
        Instruction::I32LessEqualU => SpecInstruction::I32LessEqualU,
        Instruction::I32GreaterEqualS => SpecInstruction::I32GreaterEqualS,
        Instruction::I32GreaterEqualU => SpecInstruction::I32GreaterEqualU,
        Instruction::I64EqualZero => SpecInstruction::I64EqualZero,
        Instruction::I64Equal => SpecInstruction::I64Equal,
        Instruction::I64NotEqual => SpecInstruction::I64NotEqual,
        Instruction::I64LessThanS => SpecInstruction::I64LessThanS,
        Instruction::I64LessThanU => SpecInstruction::I64LessThanU,
        Instruction::I64GreaterThanS => SpecInstruction::I64GreaterThanS,
        Instruction::I64GreaterThanU => SpecInstruction::I64GreaterThanU,
        Instruction::I64LessEqualS => SpecInstruction::I64LessEqualS,
        Instruction::I64LessEqualU => SpecInstruction::I64LessEqualU,
        Instruction::I64GreaterEqualS => SpecInstruction::I64GreaterEqualS,
        Instruction::I64GreaterEqualU => SpecInstruction::I64GreaterEqualU,
        Instruction::F32Equal => SpecInstruction::F32Equal,
        Instruction::F32NotEqual => SpecInstruction::F32NotEqual,
        Instruction::F32LessThan => SpecInstruction::F32LessThan,
        Instruction::F32GreaterThan => SpecInstruction::F32GreaterThan,
        Instruction::F32LessEqual => SpecInstruction::F32LessEqual,
        Instruction::F32GreaterEqual => SpecInstruction::F32GreaterEqual,
        Instruction::F64Equal => SpecInstruction::F64Equal,
        Instruction::F64NotEqual => SpecInstruction::F64NotEqual,
        Instruction::F64LessThan => SpecInstruction::F64LessThan,
        Instruction::F64GreaterThan => SpecInstruction::F64GreaterThan,
        Instruction::F64LessEqual => SpecInstruction::F64LessEqual,
        Instruction::F64GreaterEqual => SpecInstruction::F64GreaterEqual,
        Instruction::I32Clz => SpecInstruction::I32Clz,
        Instruction::I32Ctz => SpecInstruction::I32Ctz,
        Instruction::I32Popcount => SpecInstruction::I32Popcount,
        Instruction::I32Add => SpecInstruction::I32Add,
        Instruction::I32Subtract => SpecInstruction::I32Subtract,
        Instruction::I32Multiply => SpecInstruction::I32Multiply,
        Instruction::I32DivideS => SpecInstruction::I32DivideS,
        Instruction::I32DivideU => SpecInstruction::I32DivideU,
        Instruction::I32RemainderS => SpecInstruction::I32RemainderS,
        Instruction::I32RemainderU => SpecInstruction::I32RemainderU,
        Instruction::I32And => SpecInstruction::I32And,
        Instruction::I32Or => SpecInstruction::I32Or,
        Instruction::I32Xor => SpecInstruction::I32Xor,
        Instruction::I32ShiftLeft => SpecInstruction::I32ShiftLeft,
        Instruction::I32ShiftRightS => SpecInstruction::I32ShiftRightS,
        Instruction::I32ShiftRightU => SpecInstruction::I32ShiftRightU,
        Instruction::I32RotateLeft => SpecInstruction::I32RotateLeft,
        Instruction::I32RotateRight => SpecInstruction::I32RotateRight,
        Instruction::I64Clz => SpecInstruction::I64Clz,
        Instruction::I64Ctz => SpecInstruction::I64Ctz,
        Instruction::I64Popcount => SpecInstruction::I64Popcount,
        Instruction::I64Add => SpecInstruction::I64Add,
        Instruction::I64Subtract => SpecInstruction::I64Subtract,
        Instruction::I64Multiply => SpecInstruction::I64Multiply,
        Instruction::I64DivideS => SpecInstruction::I64DivideS,
        Instruction::I64DivideU => SpecInstruction::I64DivideU,
        Instruction::I64RemainderS => SpecInstruction::I64RemainderS,
        Instruction::I64RemainderU => SpecInstruction::I64RemainderU,
        Instruction::I64And => SpecInstruction::I64And,
        Instruction::I64Or => SpecInstruction::I64Or,
        Instruction::I64Xor => SpecInstruction::I64Xor,
        Instruction::I64ShiftLeft => SpecInstruction::I64ShiftLeft,
        Instruction::I64ShiftRightS => SpecInstruction::I64ShiftRightS,
        Instruction::I64ShiftRightU => SpecInstruction::I64ShiftRightU,
        Instruction::I64RotateLeft => SpecInstruction::I64RotateLeft,
        Instruction::I64RotateRight => SpecInstruction::I64RotateRight,
        Instruction::F32Absolute => SpecInstruction::F32Absolute,
        Instruction::F32Negate => SpecInstruction::F32Negate,
        Instruction::F32Ceiling => SpecInstruction::F32Ceiling,
        Instruction::F32Floor => SpecInstruction::F32Floor,
        Instruction::F32Truncate => SpecInstruction::F32Truncate,
        Instruction::F32Nearest => SpecInstruction::F32Nearest,
        Instruction::F32SquareRoot => SpecInstruction::F32SquareRoot,
        Instruction::F32Add => SpecInstruction::F32Add,
        Instruction::F32Subtract => SpecInstruction::F32Subtract,
        Instruction::F32Multiply => SpecInstruction::F32Multiply,
        Instruction::F32Divide => SpecInstruction::F32Divide,
        Instruction::F32Minimum => SpecInstruction::F32Minimum,
        Instruction::F32Maximum => SpecInstruction::F32Maximum,
        Instruction::F32CopySign => SpecInstruction::F32CopySign,
        Instruction::F64Absolute => SpecInstruction::F64Absolute,
        Instruction::F64Negate => SpecInstruction::F64Negate,
        Instruction::F64Ceiling => SpecInstruction::F64Ceiling,
        Instruction::F64Floor => SpecInstruction::F64Floor,
        Instruction::F64Truncate => SpecInstruction::F64Truncate,
        Instruction::F64Nearest => SpecInstruction::F64Nearest,
        Instruction::F64SquareRoot => SpecInstruction::F64SquareRoot,
        Instruction::F64Add => SpecInstruction::F64Add,
        Instruction::F64Subtract => SpecInstruction::F64Subtract,
        Instruction::F64Multiply => SpecInstruction::F64Multiply,
        Instruction::F64Divide => SpecInstruction::F64Divide,
        Instruction::F64Minimum => SpecInstruction::F64Minimum,
        Instruction::F64Maximum => SpecInstruction::F64Maximum,
        Instruction::F64CopySign => SpecInstruction::F64CopySign,
        Instruction::I32WrapI64 => SpecInstruction::I32WrapI64,
        Instruction::I32TruncateF32S => SpecInstruction::I32TruncateF32S,
        Instruction::I32TruncateF32U => SpecInstruction::I32TruncateF32U,
        Instruction::I32TruncateF64S => SpecInstruction::I32TruncateF64S,
        Instruction::I32TruncateF64U => SpecInstruction::I32TruncateF64U,
        Instruction::I64ExtendI32S => SpecInstruction::I64ExtendI32S,
        Instruction::I64ExtendI32U => SpecInstruction::I64ExtendI32U,
        Instruction::I64TruncateF32S => SpecInstruction::I64TruncateF32S,
        Instruction::I64TruncateF32U => SpecInstruction::I64TruncateF32U,
        Instruction::I64TruncateF64S => SpecInstruction::I64TruncateF64S,
        Instruction::I64TruncateF64U => SpecInstruction::I64TruncateF64U,
        Instruction::F32ConvertI32S => SpecInstruction::F32ConvertI32S,
        Instruction::F32ConvertI32U => SpecInstruction::F32ConvertI32U,
        Instruction::F32ConvertI64S => SpecInstruction::F32ConvertI64S,
        Instruction::F32ConvertI64U => SpecInstruction::F32ConvertI64U,
        Instruction::F32DemoteF64 => SpecInstruction::F32DemoteF64,
        Instruction::F64ConvertI32S => SpecInstruction::F64ConvertI32S,
        Instruction::F64ConvertI32U => SpecInstruction::F64ConvertI32U,
        Instruction::F64ConvertI64S => SpecInstruction::F64ConvertI64S,
        Instruction::F64ConvertI64U => SpecInstruction::F64ConvertI64U,
        Instruction::F64PromoteF32 => SpecInstruction::F64PromoteF32,
        Instruction::I32ReinterpretF32 => SpecInstruction::I32ReinterpretF32,
        Instruction::I64ReinterpretF64 => SpecInstruction::I64ReinterpretF64,
        Instruction::F32ReinterpretI32 => SpecInstruction::F32ReinterpretI32,
        Instruction::F64ReinterpretI64 => SpecInstruction::F64ReinterpretI64,
        Instruction::I32Extend8S => SpecInstruction::I32Extend8S,
        Instruction::I32Extend16S => SpecInstruction::I32Extend16S,
        Instruction::I64Extend8S => SpecInstruction::I64Extend8S,
        Instruction::I64Extend16S => SpecInstruction::I64Extend16S,
        Instruction::I64Extend32S => SpecInstruction::I64Extend32S,
        Instruction::RefIsNull => SpecInstruction::RefIsNull,
        Instruction::RefFunc(x) => SpecInstruction::RefFunc(x),
        Instruction::I32TruncateSaturatingF32S => SpecInstruction::I32TruncateSaturatingF32S,
        Instruction::I32TruncateSaturatingF32U => SpecInstruction::I32TruncateSaturatingF32U,
        Instruction::I32TruncateSaturatingF64S => SpecInstruction::I32TruncateSaturatingF64S,
        Instruction::I32TruncateSaturatingF64U => SpecInstruction::I32TruncateSaturatingF64U,
        Instruction::I64TruncateSaturatingF32S => SpecInstruction::I64TruncateSaturatingF32S,
        Instruction::I64TruncateSaturatingF32U => SpecInstruction::I64TruncateSaturatingF32U,
        Instruction::I64TruncateSaturatingF64S => SpecInstruction::I64TruncateSaturatingF64S,
        Instruction::I64TruncateSaturatingF64U => SpecInstruction::I64TruncateSaturatingF64U,
        Instruction::MemoryInit(x) => SpecInstruction::MemoryInit(x),
        Instruction::DataDrop(x) => SpecInstruction::DataDrop(x),
        Instruction::MemoryCopy => SpecInstruction::MemoryCopy,
        Instruction::MemoryFill => SpecInstruction::MemoryFill,
        Instruction::TableInit(x, y) => SpecInstruction::TableInit(x, y),
        Instruction::ElemDrop(x) => SpecInstruction::ElemDrop(x),
        Instruction::TableCopy(x, y) => SpecInstruction::TableCopy(x, y),
        Instruction::TableGrow(x) => SpecInstruction::TableGrow(x),
        Instruction::TableSize(x) => SpecInstruction::TableSize(x),
        Instruction::TableFill(x) => SpecInstruction::TableFill(x),
    }
}

/// The mirrors of the first `n` instructions of a vector.
#[verifier::opaque]
pub open spec fn instrs_view_prefix(v: Vec<Instruction>, n: int) -> Seq<SpecInstruction>
    decreases v, 0int, n,
    when n <= v@.len()
{
    if n <= 0 {
        Seq::empty()
    } else {
        instrs_view_prefix(v, n - 1).push(instr_view(v[n - 1]))
    }
}

/// The mirrors of all instructions of a vector.
pub open spec fn instrs_view(v: Vec<Instruction>) -> Seq<SpecInstruction> {
    instrs_view_prefix(v, v@.len() as int)
}

/// The mirror of a vector is the elementwise mirror.
pub proof fn lemma_instrs_view_prefix(v: Vec<Instruction>, n: int)
    requires
        0 <= n <= v@.len(),
    ensures
        instrs_view_prefix(v, n).len() == n,
        forall|j: int| 0 <= j < n ==> instrs_view_prefix(v, n)[j] == instr_view(v[j]),
    decreases n,
{
    reveal(instrs_view_prefix);
    reveal(instr_view);
    if n > 0 {
        lemma_instrs_view_prefix(v, n - 1);
        let prev = instrs_view_prefix(v, n - 1);
        assert(instrs_view_prefix(v, n) == prev.push(instr_view(v[n - 1])));
        assert(prev.len() == n - 1);
        assert forall|j: int| 0 <= j < n implies instrs_view_prefix(v, n)[j] == instr_view(
            v[j],
        ) by {
            if j < n - 1 {
                assert(prev[j] == instr_view(v[j]));
                assert(prev.push(instr_view(v[n - 1]))[j] == prev[j]);
            } else {
                assert(prev.push(instr_view(v[n - 1]))[j] == instr_view(v[n - 1]));
            }
        }
    }
}

/// Pushing an instruction appends its mirror.
pub proof fn lemma_instrs_view_push(v: Vec<Instruction>, w: Vec<Instruction>, i: Instruction)
    requires
        w@ == v@.push(i),
    ensures
        instrs_view(w) == instrs_view(v).push(instr_view(i)),
{
    lemma_instrs_view_prefix(v, v@.len() as int);
    lemma_instrs_view_prefix(w, w@.len() as int);
    assert(instrs_view(w) =~= instrs_view(v).push(instr_view(i)));
}

/// The no-payload instruction a nullary opcode decodes to; `None` for an
/// opcode that is not nullary.
#[verifier::opaque]
pub open spec fn spec_nullary(op: Opcode) -> Option<SpecInstruction> {
    match op {
        Opcode::Unreachable => Some(SpecInstruction::Unreachable),
        Opcode::Nop => Some(SpecInstruction::Nop),
        Opcode::Return => Some(SpecInstruction::Return),
        Opcode::Drop => Some(SpecInstruction::Drop),
        Opcode::SelectNumeric => Some(SpecInstruction::Select),
        Opcode::I32EqualZero => Some(SpecInstruction::I32EqualZero),
        Opcode::I32Equal => Some(SpecInstruction::I32Equal),
        Opcode::I32NotEqual => Some(SpecInstruction::I32NotEqual),
        Opcode::I32LessThanS => Some(SpecInstruction::I32LessThanS),
        Opcode::I32LessThanU => Some(SpecInstruction::I32LessThanU),
        Opcode::I32GreaterThanS => Some(SpecInstruction::I32GreaterThanS),
        Opcode::I32GreaterThanU => Some(SpecInstruction::I32GreaterThanU),
        Opcode::I32LessEqualS => Some(SpecInstruction::I32LessEqualS),
        Opcode::I32LessEqualU => Some(SpecInstruction::I32LessEqualU),
        Opcode::I32GreaterEqualS => Some(SpecInstruction::I32GreaterEqualS),
        Opcode::I32GreaterEqualU => Some(SpecInstruction::I32GreaterEqualU),
        Opcode::I64EqualZero => Some(SpecInstruction::I64EqualZero),
        Opcode::I64Equal => Some(SpecInstruction::I64Equal),
        Opcode::I64NotEqual => Some(SpecInstruction::I64NotEqual),
        Opcode::I64LessThanS => Some(SpecInstruction::I64LessThanS),
        Opcode::I64LessThanU => Some(SpecInstruction::I64LessThanU),
        Opcode::I64GreaterThanS => Some(SpecInstruction::I64GreaterThanS),
        Opcode::I64GreaterThanU => Some(SpecInstruction::I64GreaterThanU),
        Opcode::I64LessEqualS => Some(SpecInstruction::I64LessEqualS),
        Opcode::I64LessEqualU => Some(SpecInstruction::I64LessEqualU),
        Opcode::I64GreaterEqualS => Some(SpecInstruction::I64GreaterEqualS),
        Opcode::I64GreaterEqualU => Some(SpecInstruction::I64GreaterEqualU),
        Opcode::F32Equal => Some(SpecInstruction::F32Equal),
        Opcode::F32NotEqual => Some(SpecInstruction::F32NotEqual),
        Opcode::F32LessThan => Some(SpecInstruction::F32LessThan),
        Opcode::F32GreaterThan => Some(SpecInstruction::F32GreaterThan),
        Opcode::F32LessEqual => Some(SpecInstruction::F32LessEqual),
        Opcode::F32GreaterEqual => Some(SpecInstruction::F32GreaterEqual),
        Opcode::F64Equal => Some(SpecInstruction::F64Equal),
        Opcode::F64NotEqual => Some(SpecInstruction::F64NotEqual),
        Opcode::F64LessThan => Some(SpecInstruction::F64LessThan),
        Opcode::F64GreaterThan => Some(SpecInstruction::F64GreaterThan),
        Opcode::F64LessEqual => Some(SpecInstruction::F64LessEqual),
        Opcode::F64GreaterEqual => Some(SpecInstruction::F64GreaterEqual),
        Opcode::I32Clz => Some(SpecInstruction::I32Clz),
        Opcode::I32Ctz => Some(SpecInstruction::I32Ctz),
        Opcode::I32Popcount => Some(SpecInstruction::I32Popcount),
        Opcode::I32Add => Some(SpecInstruction::I32Add),
        Opcode::I32Subtract => Some(SpecInstruction::I32Subtract),
        Opcode::I32Multiply => Some(SpecInstruction::I32Multiply),
        Opcode::I32DivideS => Some(SpecInstruction::I32DivideS),
        Opcode::I32DivideU => Some(SpecInstruction::I32DivideU),
        Opcode::I32RemainderS => Some(SpecInstruction::I32RemainderS),
        Opcode::I32RemainderU => Some(SpecInstruction::I32RemainderU),
        Opcode::I32And => Some(SpecInstruction::I32And),
        Opcode::I32Or => Some(SpecInstruction::I32Or),
        Opcode::I32Xor => Some(SpecInstruction::I32Xor),
        Opcode::I32ShiftLeft => Some(SpecInstruction::I32ShiftLeft),
        Opcode::I32ShiftRightS => Some(SpecInstruction::I32ShiftRightS),
        Opcode::I32ShiftRightU => Some(SpecInstruction::I32ShiftRightU),
        Opcode::I32RotateLeft => Some(SpecInstruction::I32RotateLeft),
        Opcode::I32RotateRight => Some(SpecInstruction::I32RotateRight),
        Opcode::I64Clz => Some(SpecInstruction::I64Clz),
        Opcode::I64Ctz => Some(SpecInstruction::I64Ctz),
        Opcode::I64Popcount => Some(SpecInstruction::I64Popcount),
        Opcode::I64Add => Some(SpecInstruction::I64Add),
        Opcode::I64Subtract => Some(SpecInstruction::I64Subtract),
        Opcode::I64Multiply => Some(SpecInstruction::I64Multiply),
        Opcode::I64DivideS => Some(SpecInstruction::I64DivideS),
        Opcode::I64DivideU => Some(SpecInstruction::I64DivideU),
        Opcode::I64RemainderS => Some(SpecInstruction::I64RemainderS),
        Opcode::I64RemainderU => Some(SpecInstruction::I64RemainderU),
        Opcode::I64And => Some(SpecInstruction::I64And),
        Opcode::I64Or => Some(SpecInstruction::I64Or),
        Opcode::I64Xor => Some(SpecInstruction::I64Xor),
        Opcode::I64ShiftLeft => Some(SpecInstruction::I64ShiftLeft),
        Opcode::I64ShiftRightS => Some(SpecInstruction::I64ShiftRightS),
        Opcode::I64ShiftRightU => Some(SpecInstruction::I64ShiftRightU),
        Opcode::I64RotateLeft => Some(SpecInstruction::I64RotateLeft),
        Opcode::I64RotateRight => Some(SpecInstruction::I64RotateRight),
        Opcode::F32Absolute => Some(SpecInstruction::F32Absolute),
        Opcode::F32Negate => Some(SpecInstruction::F32Negate),
        Opcode::F32Ceiling => Some(SpecInstruction::F32Ceiling),
        Opcode::F32Floor => Some(SpecInstruction::F32Floor),
        Opcode::F32Truncate => Some(SpecInstruction::F32Truncate),
        Opcode::F32Nearest => Some(SpecInstruction::F32Nearest),
        Opcode::F32SquareRoot => Some(SpecInstruction::F32SquareRoot),
        Opcode::F32Add => Some(SpecInstruction::F32Add),
        Opcode::F32Subtract => Some(SpecInstruction::F32Subtract),
        Opcode::F32Multiply => Some(SpecInstruction::F32Multiply),
        Opcode::F32Divide => Some(SpecInstruction::F32Divide),
        Opcode::F32Minimum => Some(SpecInstruction::F32Minimum),
        Opcode::F32Maximum => Some(SpecInstruction::F32Maximum),
        Opcode::F32CopySign => Some(SpecInstruction::F32CopySign),
        Opcode::F64Absolute => Some(SpecInstruction::F64Absolute),
        Opcode::F64Negate => Some(SpecInstruction::F64Negate),
        Opcode::F64Ceiling => Some(SpecInstruction::F64Ceiling),
        Opcode::F64Floor => Some(SpecInstruction::F64Floor),
        Opcode::F64Truncate => Some(SpecInstruction::F64Truncate),
        Opcode::F64Nearest => Some(SpecInstruction::F64Nearest),
        Opcode::F64SquareRoot => Some(SpecInstruction::F64SquareRoot),
        Opcode::F64Add => Some(SpecInstruction::F64Add),
        Opcode::F64Subtract => Some(SpecInstruction::F64Subtract),
        Opcode::F64Multiply => Some(SpecInstruction::F64Multiply),
        Opcode::F64Divide => Some(SpecInstruction::F64Divide),
        Opcode::F64Minimum => Some(SpecInstruction::F64Minimum),
        Opcode::F64Maximum => Some(SpecInstruction::F64Maximum),
        Opcode::F64CopySign => Some(SpecInstruction::F64CopySign),
        Opcode::I32WrapI64 => Some(SpecInstruction::I32WrapI64),
        Opcode::I32TruncateF32S => Some(SpecInstruction::I32TruncateF32S),
        Opcode::I32TruncateF32U => Some(SpecInstruction::I32TruncateF32U),
        Opcode::I32TruncateF64S => Some(SpecInstruction::I32TruncateF64S),
        Opcode::I32TruncateF64U => Some(SpecInstruction::I32TruncateF64U),
        Opcode::I64ExtendI32S => Some(SpecInstruction::I64ExtendI32S),
        Opcode::I64ExtendI32U => Some(SpecInstruction::I64ExtendI32U),
        Opcode::I64TruncateF32S => Some(SpecInstruction::I64TruncateF32S),
        Opcode::I64TruncateF32U => Some(SpecInstruction::I64TruncateF32U),
        Opcode::I64TruncateF64S => Some(SpecInstruction::I64TruncateF64S),
        Opcode::I64TruncateF64U => Some(SpecInstruction::I64TruncateF64U),
        Opcode::F32ConvertI32S => Some(SpecInstruction::F32ConvertI32S),
        Opcode::F32ConvertI32U => Some(SpecInstruction::F32ConvertI32U),
        Opcode::F32ConvertI64S => Some(SpecInstruction::F32ConvertI64S),
        Opcode::F32ConvertI64U => Some(SpecInstruction::F32ConvertI64U),
        Opcode::F32DemoteF64 => Some(SpecInstruction::F32DemoteF64),
        Opcode::F64ConvertI32S => Some(SpecInstruction::F64ConvertI32S),
        Opcode::F64ConvertI32U => Some(SpecInstruction::F64ConvertI32U),
        Opcode::F64ConvertI64S => Some(SpecInstruction::F64ConvertI64S),
        Opcode::F64ConvertI64U => Some(SpecInstruction::F64ConvertI64U),
        Opcode::F64PromoteF32 => Some(SpecInstruction::F64PromoteF32),
        Opcode::I32ReinterpretF32 => Some(SpecInstruction::I32ReinterpretF32),
        Opcode::I64ReinterpretF64 => Some(SpecInstruction::I64ReinterpretF64),
        Opcode::F32ReinterpretI32 => Some(SpecInstruction::F32ReinterpretI32),
        Opcode::F64ReinterpretI64 => Some(SpecInstruction::F64ReinterpretI64),
        Opcode::I32Extend8S => Some(SpecInstruction::I32Extend8S),
        Opcode::I32Extend16S => Some(SpecInstruction::I32Extend16S),
        Opcode::I64Extend8S => Some(SpecInstruction::I64Extend8S),
        Opcode::I64Extend16S => Some(SpecInstruction::I64Extend16S),
        Opcode::I64Extend32S => Some(SpecInstruction::I64Extend32S),
        Opcode::RefIsNull => Some(SpecInstruction::RefIsNull),
        _ => None,
    }
}

/// Builds the no-payload instruction of a nullary opcode.
pub fn nullary_instruction(op: Opcode) -> (r: Option<Instruction>)
    ensures
        match r {
            Some(i) => spec_nullary(op) == Some(instr_view(i)),
            None => spec_nullary(op) is None,
        },
{
    proof {
        reveal(spec_nullary);
        reveal(spec_idx_instr);
        reveal(spec_idx2_instr);
        reveal(spec_ext1_nullary);
        reveal(instr_view);
    }
    match op {
        Opcode::Unreachable => Some(Instruction::Unreachable),
        Opcode::Nop => Some(Instruction::Nop),
        Opcode::Return => Some(Instruction::Return),
        Opcode::Drop => Some(Instruction::Drop),
        Opcode::SelectNumeric => Some(Instruction::Select),
        Opcode::I32EqualZero => Some(Instruction::I32EqualZero),
        Opcode::I32Equal => Some(Instruction::I32Equal),
        Opcode::I32NotEqual => Some(Instruction::I32NotEqual),
        Opcode::I32LessThanS => Some(Instruction::I32LessThanS),
        Opcode::I32LessThanU => Some(Instruction::I32LessThanU),
        Opcode::I32GreaterThanS => Some(Instruction::I32GreaterThanS),
        Opcode::I32GreaterThanU => Some(Instruction::I32GreaterThanU),
        Opcode::I32LessEqualS => Some(Instruction::I32LessEqualS),
        Opcode::I32LessEqualU => Some(Instruction::I32LessEqualU),
        Opcode::I32GreaterEqualS => Some(Instruction::I32GreaterEqualS),
        Opcode::I32GreaterEqualU => Some(Instruction::I32GreaterEqualU),
        Opcode::I64EqualZero => Some(Instruction::I64EqualZero),
        Opcode::I64Equal => Some(Instruction::I64Equal),
        Opcode::I64NotEqual => Some(Instruction::I64NotEqual),
        Opcode::I64LessThanS => Some(Instruction::I64LessThanS),
        Opcode::I64LessThanU => Some(Instruction::I64LessThanU),
        Opcode::I64GreaterThanS => Some(Instruction::I64GreaterThanS),
        Opcode::I64GreaterThanU => Some(Instruction::I64GreaterThanU),
        Opcode::I64LessEqualS => Some(Instruction::I64LessEqualS),
        Opcode::I64LessEqualU => Some(Instruction::I64LessEqualU),
        Opcode::I64GreaterEqualS => Some(Instruction::I64GreaterEqualS),
        Opcode::I64GreaterEqualU => Some(Instruction::I64GreaterEqualU),
        Opcode::F32Equal => Some(Instruction::F32Equal),
        Opcode::F32NotEqual => Some(Instruction::F32NotEqual),
        Opcode::F32LessThan => Some(Instruction::F32LessThan),
        Opcode::F32GreaterThan => Some(Instruction::F32GreaterThan),
        Opcode::F32LessEqual => Some(Instruction::F32LessEqual),
        Opcode::F32GreaterEqual => Some(Instruction::F32GreaterEqual),
        Opcode::F64Equal => Some(Instruction::F64Equal),
        Opcode::F64NotEqual => Some(Instruction::F64NotEqual),
        Opcode::F64LessThan => Some(Instruction::F64LessThan),
        Opcode::F64GreaterThan => Some(Instruction::F64GreaterThan),
        Opcode::F64LessEqual => Some(Instruction::F64LessEqual),
        Opcode::F64GreaterEqual => Some(Instruction::F64GreaterEqual),
        Opcode::I32Clz => Some(Instruction::I32Clz),
        Opcode::I32Ctz => Some(Instruction::I32Ctz),
        Opcode::I32Popcount => Some(Instruction::I32Popcount),
        Opcode::I32Add => Some(Instruction::I32Add),
        Opcode::I32Subtract => Some(Instruction::I32Subtract),
        Opcode::I32Multiply => Some(Instruction::I32Multiply),
        Opcode::I32DivideS => Some(Instruction::I32DivideS),
        Opcode::I32DivideU => Some(Instruction::I32DivideU),
        Opcode::I32RemainderS => Some(Instruction::I32RemainderS),
        Opcode::I32RemainderU => Some(Instruction::I32RemainderU),
        Opcode::I32And => Some(Instruction::I32And),
        Opcode::I32Or => Some(Instruction::I32Or),
        Opcode::I32Xor => Some(Instruction::I32Xor),
        Opcode::I32ShiftLeft => Some(Instruction::I32ShiftLeft),
        Opcode::I32ShiftRightS => Some(Instruction::I32ShiftRightS),
        Opcode::I32ShiftRightU => Some(Instruction::I32ShiftRightU),
        Opcode::I32RotateLeft => Some(Instruction::I32RotateLeft),
        Opcode::I32RotateRight => Some(Instruction::I32RotateRight),
        Opcode::I64Clz => Some(Instruction::I64Clz),
        Opcode::I64Ctz => Some(Instruction::I64Ctz),
        Opcode::I64Popcount => Some(Instruction::I64Popcount),
        Opcode::I64Add => Some(Instruction::I64Add),
        Opcode::I64Subtract => Some(Instruction::I64Subtract),
        Opcode::I64Multiply => Some(Instruction::I64Multiply),
        Opcode::I64DivideS => Some(Instruction::I64DivideS),
        Opcode::I64DivideU => Some(Instruction::I64DivideU),
        Opcode::I64RemainderS => Some(Instruction::I64RemainderS),
        Opcode::I64RemainderU => Some(Instruction::I64RemainderU),
        Opcode::I64And => Some(Instruction::I64And),
        Opcode::I64Or => Some(Instruction::I64Or),
        Opcode::I64Xor => Some(Instruction::I64Xor),
        Opcode::I64ShiftLeft => Some(Instruction::I64ShiftLeft),
        Opcode::I64ShiftRightS => Some(Instruction::I64ShiftRightS),
        Opcode::I64ShiftRightU => Some(Instruction::I64ShiftRightU),
        Opcode::I64RotateLeft => Some(Instruction::I64RotateLeft),
        Opcode::I64RotateRight => Some(Instruction::I64RotateRight),
        Opcode::F32Absolute => Some(Instruction::F32Absolute),
        Opcode::F32Negate => Some(Instruction::F32Negate),
        Opcode::F32Ceiling => Some(Instruction::F32Ceiling),
        Opcode::F32Floor => Some(Instruction::F32Floor),
        Opcode::F32Truncate => Some(Instruction::F32Truncate),
        Opcode::F32Nearest => Some(Instruction::F32Nearest),
        Opcode::F32SquareRoot => Some(Instruction::F32SquareRoot),
        Opcode::F32Add => Some(Instruction::F32Add),
        Opcode::F32Subtract => Some(Instruction::F32Subtract),
        Opcode::F32Multiply => Some(Instruction::F32Multiply),
        Opcode::F32Divide => Some(Instruction::F32Divide),
        Opcode::F32Minimum => Some(Instruction::F32Minimum),
        Opcode::F32Maximum => Some(Instruction::F32Maximum),
        Opcode::F32CopySign => Some(Instruction::F32CopySign),
        Opcode::F64Absolute => Some(Instruction::F64Absolute),
        Opcode::F64Negate => Some(Instruction::F64Negate),
        Opcode::F64Ceiling => Some(Instruction::F64Ceiling),
        Opcode::F64Floor => Some(Instruction::F64Floor),
        Opcode::F64Truncate => Some(Instruction::F64Truncate),
        Opcode::F64Nearest => Some(Instruction::F64Nearest),
        Opcode::F64SquareRoot => Some(Instruction::F64SquareRoot),
        Opcode::F64Add => Some(Instruction::F64Add),
        Opcode::F64Subtract => Some(Instruction::F64Subtract),
        Opcode::F64Multiply => Some(Instruction::F64Multiply),
        Opcode::F64Divide => Some(Instruction::F64Divide),
        Opcode::F64Minimum => Some(Instruction::F64Minimum),
        Opcode::F64Maximum => Some(Instruction::F64Maximum),
        Opcode::F64CopySign => Some(Instruction::F64CopySign),
        Opcode::I32WrapI64 => Some(Instruction::I32WrapI64),
        Opcode::I32TruncateF32S => Some(Instruction::I32TruncateF32S),
        Opcode::I32TruncateF32U => Some(Instruction::I32TruncateF32U),
        Opcode::I32TruncateF64S => Some(Instruction::I32TruncateF64S),
        Opcode::I32TruncateF64U => Some(Instruction::I32TruncateF64U),
        Opcode::I64ExtendI32S => Some(Instruction::I64ExtendI32S),
        Opcode::I64ExtendI32U => Some(Instruction::I64ExtendI32U),
        Opcode::I64TruncateF32S => Some(Instruction::I64TruncateF32S),
        Opcode::I64TruncateF32U => Some(Instruction::I64TruncateF32U),
        Opcode::I64TruncateF64S => Some(Instruction::I64TruncateF64S),
        Opcode::I64TruncateF64U => Some(Instruction::I64TruncateF64U),
        Opcode::F32ConvertI32S => Some(Instruction::F32ConvertI32S),
        Opcode::F32ConvertI32U => Some(Instruction::F32ConvertI32U),
        Opcode::F32ConvertI64S => Some(Instruction::F32ConvertI64S),
        Opcode::F32ConvertI64U => Some(Instruction::F32ConvertI64U),
        Opcode::F32DemoteF64 => Some(Instruction::F32DemoteF64),
        Opcode::F64ConvertI32S => Some(Instruction::F64ConvertI32S),
        Opcode::F64ConvertI32U => Some(Instruction::F64ConvertI32U),
        Opcode::F64ConvertI64S => Some(Instruction::F64ConvertI64S),
        Opcode::F64ConvertI64U => Some(Instruction::F64ConvertI64U),
        Opcode::F64PromoteF32 => Some(Instruction::F64PromoteF32),
        Opcode::I32ReinterpretF32 => Some(Instruction::I32ReinterpretF32),
        Opcode::I64ReinterpretF64 => Some(Instruction::I64ReinterpretF64),
        Opcode::F32ReinterpretI32 => Some(Instruction::F32ReinterpretI32),
        Opcode::F64ReinterpretI64 => Some(Instruction::F64ReinterpretI64),
        Opcode::I32Extend8S => Some(Instruction::I32Extend8S),
        Opcode::I32Extend16S => Some(Instruction::I32Extend16S),
        Opcode::I64Extend8S => Some(Instruction::I64Extend8S),
        Opcode::I64Extend16S => Some(Instruction::I64Extend16S),
        Opcode::I64Extend32S => Some(Instruction::I64Extend32S),
        Opcode::RefIsNull => Some(Instruction::RefIsNull),
        _ => None,
    }
}

/// The instruction built from an opcode that carries one index
/// immediate; `None` for any other opcode.
#[verifier::opaque]
pub open spec fn spec_idx_instr(op: Opcode, x: u32) -> Option<SpecInstruction> {
    match op {
        Opcode::Branch => Some(SpecInstruction::Branch(x)),
        Opcode::BranchIf => Some(SpecInstruction::BranchIf(x)),
        Opcode::Call => Some(SpecInstruction::Call(x)),
        Opcode::LocalGet => Some(SpecInstruction::LocalGet(x)),
        Opcode::LocalSet => Some(SpecInstruction::LocalSet(x)),
        Opcode::LocalTee => Some(SpecInstruction::LocalTee(x)),
        Opcode::GlobalGet => Some(SpecInstruction::GlobalGet(x)),
        Opcode::GlobalSet => Some(SpecInstruction::GlobalSet(x)),
        Opcode::TableGet => Some(SpecInstruction::TableGet(x)),
        Opcode::TableSet => Some(SpecInstruction::TableSet(x)),
        Opcode::RefFunc => Some(SpecInstruction::RefFunc(x)),
        _ => None,
    }
}

/// Builds the instruction of a one-index opcode around its immediate.
pub fn idx_instruction(op: Opcode, x: u32) -> (r: Option<Instruction>)
    ensures
        match r {
            Some(i) => spec_idx_instr(op, x) == Some(instr_view(i)),
            None => spec_idx_instr(op, x) is None,
        },
{
    proof {
        reveal(spec_nullary);
        reveal(spec_idx_instr);
        reveal(spec_idx2_instr);
        reveal(spec_ext1_nullary);
        reveal(instr_view);
    }
    match op {
        Opcode::Branch => Some(Instruction::Branch(x)),
        Opcode::BranchIf => Some(Instruction::BranchIf(x)),
        Opcode::Call => Some(Instruction::Call(x)),
        Opcode::LocalGet => Some(Instruction::LocalGet(x)),
        Opcode::LocalSet => Some(Instruction::LocalSet(x)),
        Opcode::LocalTee => Some(Instruction::LocalTee(x)),
        Opcode::GlobalGet => Some(Instruction::GlobalGet(x)),
        Opcode::GlobalSet => Some(Instruction::GlobalSet(x)),
        Opcode::TableGet => Some(Instruction::TableGet(x)),
        Opcode::TableSet => Some(Instruction::TableSet(x)),
        Opcode::RefFunc => Some(Instruction::RefFunc(x)),
        _ => None,
    }
}

/// The instruction built from an opcode that carries two integer
/// immediates (a memory access's align and offset, or a pair of indices);
/// `None` for any other opcode.
#[verifier::opaque]
pub open spec fn spec_idx2_instr(op: Opcode, x: u32, y: u32) -> Option<SpecInstruction> {
    match op {
        Opcode::CallIndirect => Some(SpecInstruction::CallIndirect(x, y)),
        Opcode::I32Load => Some(SpecInstruction::I32Load(x, y)),
        Opcode::I64Load => Some(SpecInstruction::I64Load(x, y)),
        Opcode::F32Load => Some(SpecInstruction::F32Load(x, y)),
        Opcode::F64Load => Some(SpecInstruction::F64Load(x, y)),
        Opcode::I32Load8S => Some(SpecInstruction::I32Load8S(x, y)),
        Opcode::I32Load8U => Some(SpecInstruction::I32Load8U(x, y)),
        Opcode::I32Load16S => Some(SpecInstruction::I32Load16S(x, y)),
        Opcode::I32Load16U => Some(SpecInstruction::I32Load16U(x, y)),
        Opcode::I64Load8S => Some(SpecInstruction::I64Load8S(x, y)),
        Opcode::I64Load8U => Some(SpecInstruction::I64Load8U(x, y)),
        Opcode::I64Load16S => Some(SpecInstruction::I64Load16S(x, y)),
        Opcode::I64Load16U => Some(SpecInstruction::I64Load16U(x, y)),
        Opcode::I64Load32S => Some(SpecInstruction::I64Load32S(x, y)),
        Opcode::I64Load32U => Some(SpecInstruction::I64Load32U(x, y)),
        Opcode::I32Store => Some(SpecInstruction::I32Store(x, y)),
        Opcode::I64Store => Some(SpecInstruction::I64Store(x, y)),
        Opcode::F32Store => Some(SpecInstruction::F32Store(x, y)),
        Opcode::F64Store => Some(SpecInstruction::F64Store(x, y)),
        Opcode::I32Store8 => Some(SpecInstruction::I32Store8(x, y)),
        Opcode::I32Store16 => Some(SpecInstruction::I32Store16(x, y)),
        Opcode::I64Store8 => Some(SpecInstruction::I64Store8(x, y)),
        Opcode::I64Store16 => Some(SpecInstruction::I64Store16(x, y)),
        Opcode::I64Store32 => Some(SpecInstruction::I64Store32(x, y)),
        _ => None,
    }
}

/// Builds the instruction of a two-immediate opcode around its immediates.
pub fn idx2_instruction(op: Opcode, x: u32, y: u32) -> (r: Option<Instruction>)
    ensures
        match r {
            Some(i) => spec_idx2_instr(op, x, y) == Some(instr_view(i)),
            None => spec_idx2_instr(op, x, y) is None,
        },
{
    proof {
        reveal(spec_nullary);
        reveal(spec_idx_instr);
        reveal(spec_idx2_instr);
        reveal(spec_ext1_nullary);
        reveal(instr_view);
    }
    match op {
        Opcode::CallIndirect => Some(Instruction::CallIndirect(x, y)),
        Opcode::I32Load => Some(Instruction::I32Load(x, y)),
        Opcode::I64Load => Some(Instruction::I64Load(x, y)),
        Opcode::F32Load => Some(Instruction::F32Load(x, y)),
        Opcode::F64Load => Some(Instruction::F64Load(x, y)),
        Opcode::I32Load8S => Some(Instruction::I32Load8S(x, y)),
        Opcode::I32Load8U => Some(Instruction::I32Load8U(x, y)),
        Opcode::I32Load16S => Some(Instruction::I32Load16S(x, y)),
        Opcode::I32Load16U => Some(Instruction::I32Load16U(x, y)),
        Opcode::I64Load8S => Some(Instruction::I64Load8S(x, y)),
        Opcode::I64Load8U => Some(Instruction::I64Load8U(x, y)),
        Opcode::I64Load16S => Some(Instruction::I64Load16S(x, y)),
        Opcode::I64Load16U => Some(Instruction::I64Load16U(x, y)),
        Opcode::I64Load32S => Some(Instruction::I64Load32S(x, y)),
        Opcode::I64Load32U => Some(Instruction::I64Load32U(x, y)),
        Opcode::I32Store => Some(Instruction::I32Store(x, y)),
        Opcode::I64Store => Some(Instruction::I64Store(x, y)),
        Opcode::F32Store => Some(Instruction::F32Store(x, y)),
        Opcode::F64Store => Some(Instruction::F64Store(x, y)),
        Opcode::I32Store8 => Some(Instruction::I32Store8(x, y)),
        Opcode::I32Store16 => Some(Instruction::I32Store16(x, y)),
        Opcode::I64Store8 => Some(Instruction::I64Store8(x, y)),
        Opcode::I64Store16 => Some(Instruction::I64Store16(x, y)),
        Opcode::I64Store32 => Some(Instruction::I64Store32(x, y)),
        _ => None,
    }
}

/// How an opcode's immediates are laid out: the production the
/// decoder applies after resolving the opcode.
#[derive(Clone, Copy, Debug, PartialEq, Eq, Structural)]
pub enum OpClass {
    Nullary,
    Terminator,
    BlockOp,
    LoopOp,
    IfOp,
    OneIndex,
    TwoImm,
    ReservedByte,
    BrTable,
    SelectT,
    ConstI32,
    ConstI64,
    ConstF32,
    ConstF64,
    RefNullOp,
    Escape1,
    Escape2,
}

/// The immediate layout of each opcode.
#[verifier::opaque]
pub open spec fn op_class(op: Opcode) -> OpClass {
    match op {
        Opcode::Unreachable => OpClass::Nullary,
        Opcode::Nop => OpClass::Nullary,
        Opcode::Block => OpClass::BlockOp,
        Opcode::Loop => OpClass::LoopOp,
        Opcode::If => OpClass::IfOp,
        Opcode::Else => OpClass::Terminator,
        Opcode::End => OpClass::Terminator,
        Opcode::Branch => OpClass::OneIndex,
        Opcode::BranchIf => OpClass::OneIndex,
        Opcode::BranchTable => OpClass::BrTable,
        Opcode::Return => OpClass::Nullary,
        Opcode::Call => OpClass::OneIndex,
        Opcode::CallIndirect => OpClass::TwoImm,
        Opcode::Drop => OpClass::Nullary,
        Opcode::SelectNumeric => OpClass::Nullary,
        Opcode::Select => OpClass::SelectT,
        Opcode::LocalGet => OpClass::OneIndex,
        Opcode::LocalSet => OpClass::OneIndex,
        Opcode::LocalTee => OpClass::OneIndex,
        Opcode::GlobalGet => OpClass::OneIndex,
        Opcode::GlobalSet => OpClass::OneIndex,
        Opcode::TableGet => OpClass::OneIndex,
        Opcode::TableSet => OpClass::OneIndex,
        Opcode::I32Load => OpClass::TwoImm,
        Opcode::I64Load => OpClass::TwoImm,
        Opcode::F32Load => OpClass::TwoImm,
        Opcode::F64Load => OpClass::TwoImm,
        Opcode::I32Load8S => OpClass::TwoImm,
        Opcode::I32Load8U => OpClass::TwoImm,
        Opcode::I32Load16S => OpClass::TwoImm,
        Opcode::I32Load16U => OpClass::TwoImm,
        Opcode::I64Load8S => OpClass::TwoImm,
        Opcode::I64Load8U => OpClass::TwoImm,
        Opcode::I64Load16S => OpClass::TwoImm,
        Opcode::I64Load16U => OpClass::TwoImm,
        Opcode::I64Load32S => OpClass::TwoImm,
        Opcode::I64Load32U => OpClass::TwoImm,
        Opcode::I32Store => OpClass::TwoImm,
        Opcode::I64Store => OpClass::TwoImm,
        Opcode::F32Store => OpClass::TwoImm,
        Opcode::F64Store => OpClass::TwoImm,
        Opcode::I32Store8 => OpClass::TwoImm,
        Opcode::I32Store16 => OpClass::TwoImm,
        Opcode::I64Store8 => OpClass::TwoImm,
        Opcode::I64Store16 => OpClass::TwoImm,
        Opcode::I64Store32 => OpClass::TwoImm,
        Opcode::MemorySize => OpClass::ReservedByte,
        Opcode::MemoryGrow => OpClass::ReservedByte,
        Opcode::I32Constant => OpClass::ConstI32,
        Opcode::I64Constant => OpClass::ConstI64,
        Opcode::F32Constant => OpClass::ConstF32,
        Opcode::F64Constant => OpClass::ConstF64,
        Opcode::I32EqualZero => OpClass::Nullary,
        Opcode::I32Equal => OpClass::Nullary,
        Opcode::I32NotEqual => OpClass::Nullary,
        Opcode::I32LessThanS => OpClass::Nullary,
        Opcode::I32LessThanU => OpClass::Nullary,
        Opcode::I32GreaterThanS => OpClass::Nullary,
        Opcode::I32GreaterThanU => OpClass::Nullary,
        Opcode::I32LessEqualS => OpClass::Nullary,
        Opcode::I32LessEqualU => OpClass::Nullary,
        Opcode::I32GreaterEqualS => OpClass::Nullary,
        Opcode::I32GreaterEqualU => OpClass::Nullary,
        Opcode::I64EqualZero => OpClass::Nullary,
        Opcode::I64Equal => OpClass::Nullary,
        Opcode::I64NotEqual => OpClass::Nullary,
        Opcode::I64LessThanS => OpClass::Nullary,
        Opcode::I64LessThanU => OpClass::Nullary,
        Opcode::I64GreaterThanS => OpClass::Nullary,
        Opcode::I64GreaterThanU => OpClass::Nullary,
        Opcode::I64LessEqualS => OpClass::Nullary,
        Opcode::I64LessEqualU => OpClass::Nullary,
        Opcode::I64GreaterEqualS => OpClass::Nullary,
        Opcode::I64GreaterEqualU => OpClass::Nullary,
        Opcode::F32Equal => OpClass::Nullary,
        Opcode::F32NotEqual => OpClass::Nullary,
        Opcode::F32LessThan => OpClass::Nullary,
        Opcode::F32GreaterThan => OpClass::Nullary,
        Opcode::F32LessEqual => OpClass::Nullary,
        Opcode::F32GreaterEqual => OpClass::Nullary,
        Opcode::F64Equal => OpClass::Nullary,
        Opcode::F64NotEqual => OpClass::Nullary,
        Opcode::F64LessThan => OpClass::Nullary,
        Opcode::F64GreaterThan => OpClass::Nullary,
        Opcode::F64LessEqual => OpClass::Nullary,
        Opcode::F64GreaterEqual => OpClass::Nullary,
        Opcode::I32Clz => OpClass::Nullary,
        Opcode::I32Ctz => OpClass::Nullary,
        Opcode::I32Popcount => OpClass::Nullary,
        Opcode::I32Add => OpClass::Nullary,
        Opcode::I32Subtract => OpClass::Nullary,
        Opcode::I32Multiply => OpClass::Nullary,
        Opcode::I32DivideS => OpClass::Nullary,
        Opcode::I32DivideU => OpClass::Nullary,
        Opcode::I32RemainderS => OpClass::Nullary,
        Opcode::I32RemainderU => OpClass::Nullary,
        Opcode::I32And => OpClass::Nullary,
        Opcode::I32Or => OpClass::Nullary,
        Opcode::I32Xor => OpClass::Nullary,
        Opcode::I32ShiftLeft => OpClass::Nullary,
        Opcode::I32ShiftRightS => OpClass::Nullary,
        Opcode::I32ShiftRightU => OpClass::Nullary,
        Opcode::I32RotateLeft => OpClass::Nullary,
        Opcode::I32RotateRight => OpClass::Nullary,
        Opcode::I64Clz => OpClass::Nullary,
        Opcode::I64Ctz => OpClass::Nullary,
        Opcode::I64Popcount => OpClass::Nullary,
        Opcode::I64Add => OpClass::Nullary,
        Opcode::I64Subtract => OpClass::Nullary,
        Opcode::I64Multiply => OpClass::Nullary,
        Opcode::I64DivideS => OpClass::Nullary,
        Opcode::I64DivideU => OpClass::Nullary,
        Opcode::I64RemainderS => OpClass::Nullary,
        Opcode::I64RemainderU => OpClass::Nullary,
        Opcode::I64And => OpClass::Nullary,
        Opcode::I64Or => OpClass::Nullary,
        Opcode::I64Xor => OpClass::Nullary,
        Opcode::I64ShiftLeft => OpClass::Nullary,
        Opcode::I64ShiftRightS => OpClass::Nullary,
        Opcode::I64ShiftRightU => OpClass::Nullary,
        Opcode::I64RotateLeft => OpClass::Nullary,
        Opcode::I64RotateRight => OpClass::Nullary,
        Opcode::F32Absolute => OpClass::Nullary,
        Opcode::F32Negate => OpClass::Nullary,
        Opcode::F32Ceiling => OpClass::Nullary,
        Opcode::F32Floor => OpClass::Nullary,
        Opcode::F32Truncate => OpClass::Nullary,
        Opcode::F32Nearest => OpClass::Nullary,
        Opcode::F32SquareRoot => OpClass::Nullary,
        Opcode::F32Add => OpClass::Nullary,
        Opcode::F32Subtract => OpClass::Nullary,
        Opcode::F32Multiply => OpClass::Nullary,
        Opcode::F32Divide => OpClass::Nullary,
        Opcode::F32Minimum => OpClass::Nullary,
        Opcode::F32Maximum => OpClass::Nullary,
        Opcode::F32CopySign => OpClass::Nullary,
        Opcode::F64Absolute => OpClass::Nullary,
        Opcode::F64Negate => OpClass::Nullary,
        Opcode::F64Ceiling => OpClass::Nullary,
        Opcode::F64Floor => OpClass::Nullary,
        Opcode::F64Truncate => OpClass::Nullary,
        Opcode::F64Nearest => OpClass::Nullary,
        Opcode::F64SquareRoot => OpClass::Nullary,
        Opcode::F64Add => OpClass::Nullary,
        Opcode::F64Subtract => OpClass::Nullary,
        Opcode::F64Multiply => OpClass::Nullary,
        Opcode::F64Divide => OpClass::Nullary,
        Opcode::F64Minimum => OpClass::Nullary,
        Opcode::F64Maximum => OpClass::Nullary,
        Opcode::F64CopySign => OpClass::Nullary,
        Opcode::I32WrapI64 => OpClass::Nullary,
        Opcode::I32TruncateF32S => OpClass::Nullary,
        Opcode::I32TruncateF32U => OpClass::Nullary,
        Opcode::I32TruncateF64S => OpClass::Nullary,
        Opcode::I32TruncateF64U => OpClass::Nullary,
        Opcode::I64ExtendI32S => OpClass::Nullary,
        Opcode::I64ExtendI32U => OpClass::Nullary,
        Opcode::I64TruncateF32S => OpClass::Nullary,
        Opcode::I64TruncateF32U => OpClass::Nullary,
        Opcode::I64TruncateF64S => OpClass::Nullary,
        Opcode::I64TruncateF64U => OpClass::Nullary,
        Opcode::F32ConvertI32S => OpClass::Nullary,
        Opcode::F32ConvertI32U => OpClass::Nullary,
        Opcode::F32ConvertI64S => OpClass::Nullary,
        Opcode::F32ConvertI64U => OpClass::Nullary,
        Opcode::F32DemoteF64 => OpClass::Nullary,
        Opcode::F64ConvertI32S => OpClass::Nullary,
        Opcode::F64ConvertI32U => OpClass::Nullary,
        Opcode::F64ConvertI64S => OpClass::Nullary,
        Opcode::F64ConvertI64U => OpClass::Nullary,
        Opcode::F64PromoteF32 => OpClass::Nullary,
        Opcode::I32ReinterpretF32 => OpClass::Nullary,
        Opcode::I64ReinterpretF64 => OpClass::Nullary,
        Opcode::F32ReinterpretI32 => OpClass::Nullary,
        Opcode::F64ReinterpretI64 => OpClass::Nullary,
        Opcode::I32Extend8S => OpClass::Nullary,
        Opcode::I32Extend16S => OpClass::Nullary,
        Opcode::I64Extend8S => OpClass::Nullary,
        Opcode::I64Extend16S => OpClass::Nullary,
        Opcode::I64Extend32S => OpClass::Nullary,
        Opcode::RefNull => OpClass::RefNullOp,
        Opcode::RefIsNull => OpClass::Nullary,
        Opcode::RefFunc => OpClass::OneIndex,
        Opcode::ExtendedOpcode1 => OpClass::Escape1,
        Opcode::ExtendedOpcode2 => OpClass::Escape2,
    }
}

/// Reads the immediate layout of an opcode off the dispatch table.
pub fn op_class_of(op: Opcode) -> (r: OpClass)
    ensures
        r == op_class(op),
{
    proof {
        reveal(op_class);
    }
    match op {
        Opcode::Unreachable => OpClass::Nullary,
        Opcode::Nop => OpClass::Nullary,
        Opcode::Block => OpClass::BlockOp,
        Opcode::Loop => OpClass::LoopOp,
        Opcode::If => OpClass::IfOp,
        Opcode::Else => OpClass::Terminator,
        Opcode::End => OpClass::Terminator,
        Opcode::Branch => OpClass::OneIndex,
        Opcode::BranchIf => OpClass::OneIndex,
        Opcode::BranchTable => OpClass::BrTable,
        Opcode::Return => OpClass::Nullary,
        Opcode::Call => OpClass::OneIndex,
        Opcode::CallIndirect => OpClass::TwoImm,
        Opcode::Drop => OpClass::Nullary,
        Opcode::SelectNumeric => OpClass::Nullary,
        Opcode::Select => OpClass::SelectT,
        Opcode::LocalGet => OpClass::OneIndex,
        Opcode::LocalSet => OpClass::OneIndex,
        Opcode::LocalTee => OpClass::OneIndex,
        Opcode::GlobalGet => OpClass::OneIndex,
        Opcode::GlobalSet => OpClass::OneIndex,
        Opcode::TableGet => OpClass::OneIndex,
        Opcode::TableSet => OpClass::OneIndex,
        Opcode::I32Load => OpClass::TwoImm,
        Opcode::I64Load => OpClass::TwoImm,
        Opcode::F32Load => OpClass::TwoImm,
        Opcode::F64Load => OpClass::TwoImm,
        Opcode::I32Load8S => OpClass::TwoImm,
        Opcode::I32Load8U => OpClass::TwoImm,
        Opcode::I32Load16S => OpClass::TwoImm,
        Opcode::I32Load16U => OpClass::TwoImm,
        Opcode::I64Load8S => OpClass::TwoImm,
        Opcode::I64Load8U => OpClass::TwoImm,
        Opcode::I64Load16S => OpClass::TwoImm,
        Opcode::I64Load16U => OpClass::TwoImm,
        Opcode::I64Load32S => OpClass::TwoImm,
        Opcode::I64Load32U => OpClass::TwoImm,
        Opcode::I32Store => OpClass::TwoImm,
        Opcode::I64Store => OpClass::TwoImm,
        Opcode::F32Store => OpClass::TwoImm,
        Opcode::F64Store => OpClass::TwoImm,
        Opcode::I32Store8 => OpClass::TwoImm,
        Opcode::I32Store16 => OpClass::TwoImm,
        Opcode::I64Store8 => OpClass::TwoImm,
        Opcode::I64Store16 => OpClass::TwoImm,
        Opcode::I64Store32 => OpClass::TwoImm,
        Opcode::MemorySize => OpClass::ReservedByte,
        Opcode::MemoryGrow => OpClass::ReservedByte,
        Opcode::I32Constant => OpClass::ConstI32,
        Opcode::I64Constant => OpClass::ConstI64,
        Opcode::F32Constant => OpClass::ConstF32,
        Opcode::F64Constant => OpClass::ConstF64,
        Opcode::I32EqualZero => OpClass::Nullary,
        Opcode::I32Equal => OpClass::Nullary,
        Opcode::I32NotEqual => OpClass::Nullary,
        Opcode::I32LessThanS => OpClass::Nullary,
        Opcode::I32LessThanU => OpClass::Nullary,
        Opcode::I32GreaterThanS => OpClass::Nullary,
        Opcode::I32GreaterThanU => OpClass::Nullary,
        Opcode::I32LessEqualS => OpClass::Nullary,
        Opcode::I32LessEqualU => OpClass::Nullary,
        Opcode::I32GreaterEqualS => OpClass::Nullary,
        Opcode::I32GreaterEqualU => OpClass::Nullary,
        Opcode::I64EqualZero => OpClass::Nullary,
        Opcode::I64Equal => OpClass::Nullary,
        Opcode::I64NotEqual => OpClass::Nullary,
        Opcode::I64LessThanS => OpClass::Nullary,
        Opcode::I64LessThanU => OpClass::Nullary,
        Opcode::I64GreaterThanS => OpClass::Nullary,
        Opcode::I64GreaterThanU => OpClass::Nullary,
        Opcode::I64LessEqualS => OpClass::Nullary,
        Opcode::I64LessEqualU => OpClass::Nullary,
        Opcode::I64GreaterEqualS => OpClass::Nullary,
        Opcode::I64GreaterEqualU => OpClass::Nullary,
        Opcode::F32Equal => OpClass::Nullary,
        Opcode::F32NotEqual => OpClass::Nullary,
        Opcode::F32LessThan => OpClass::Nullary,
        Opcode::F32GreaterThan => OpClass::Nullary,
        Opcode::F32LessEqual => OpClass::Nullary,
        Opcode::F32GreaterEqual => OpClass::Nullary,
        Opcode::F64Equal => OpClass::Nullary,
        Opcode::F64NotEqual => OpClass::Nullary,
        Opcode::F64LessThan => OpClass::Nullary,
        Opcode::F64GreaterThan => OpClass::Nullary,
        Opcode::F64LessEqual => OpClass::Nullary,
        Opcode::F64GreaterEqual => OpClass::Nullary,
        Opcode::I32Clz => OpClass::Nullary,
        Opcode::I32Ctz => OpClass::Nullary,
        Opcode::I32Popcount => OpClass::Nullary,
        Opcode::I32Add => OpClass::Nullary,
        Opcode::I32Subtract => OpClass::Nullary,
        Opcode::I32Multiply => OpClass::Nullary,
        Opcode::I32DivideS => OpClass::Nullary,
        Opcode::I32DivideU => OpClass::Nullary,
        Opcode::I32RemainderS => OpClass::Nullary,
        Opcode::I32RemainderU => OpClass::Nullary,
        Opcode::I32And => OpClass::Nullary,
        Opcode::I32Or => OpClass::Nullary,
        Opcode::I32Xor => OpClass::Nullary,
        Opcode::I32ShiftLeft => OpClass::Nullary,
        Opcode::I32ShiftRightS => OpClass::Nullary,
        Opcode::I32ShiftRightU => OpClass::Nullary,
        Opcode::I32RotateLeft => OpClass::Nullary,
        Opcode::I32RotateRight => OpClass::Nullary,
        Opcode::I64Clz => OpClass::Nullary,
        Opcode::I64Ctz => OpClass::Nullary,
        Opcode::I64Popcount => OpClass::Nullary,
        Opcode::I64Add => OpClass::Nullary,
        Opcode::I64Subtract => OpClass::Nullary,
        Opcode::I64Multiply => OpClass::Nullary,
        Opcode::I64DivideS => OpClass::Nullary,
        Opcode::I64DivideU => OpClass::Nullary,
        Opcode::I64RemainderS => OpClass::Nullary,
        Opcode::I64RemainderU => OpClass::Nullary,
        Opcode::I64And => OpClass::Nullary,
        Opcode::I64Or => OpClass::Nullary,
        Opcode::I64Xor => OpClass::Nullary,
        Opcode::I64ShiftLeft => OpClass::Nullary,
        Opcode::I64ShiftRightS => OpClass::Nullary,
        Opcode::I64ShiftRightU => OpClass::Nullary,
        Opcode::I64RotateLeft => OpClass::Nullary,
        Opcode::I64RotateRight => OpClass::Nullary,
        Opcode::F32Absolute => OpClass::Nullary,
        Opcode::F32Negate => OpClass::Nullary,
        Opcode::F32Ceiling => OpClass::Nullary,
        Opcode::F32Floor => OpClass::Nullary,
        Opcode::F32Truncate => OpClass::Nullary,
        Opcode::F32Nearest => OpClass::Nullary,
        Opcode::F32SquareRoot => OpClass::Nullary,
        Opcode::F32Add => OpClass::Nullary,
        Opcode::F32Subtract => OpClass::Nullary,
        Opcode::F32Multiply => OpClass::Nullary,
        Opcode::F32Divide => OpClass::Nullary,
        Opcode::F32Minimum => OpClass::Nullary,
        Opcode::F32Maximum => OpClass::Nullary,
        Opcode::F32CopySign => OpClass::Nullary,
        Opcode::F64Absolute => OpClass::Nullary,
        Opcode::F64Negate => OpClass::Nullary,
        Opcode::F64Ceiling => OpClass::Nullary,
        Opcode::F64Floor => OpClass::Nullary,
        Opcode::F64Truncate => OpClass::Nullary,
        Opcode::F64Nearest => OpClass::Nullary,
        Opcode::F64SquareRoot => OpClass::Nullary,
        Opcode::F64Add => OpClass::Nullary,
        Opcode::F64Subtract => OpClass::Nullary,
        Opcode::F64Multiply => OpClass::Nullary,
        Opcode::F64Divide => OpClass::Nullary,
        Opcode::F64Minimum => OpClass::Nullary,
        Opcode::F64Maximum => OpClass::Nullary,
        Opcode::F64CopySign => OpClass::Nullary,
        Opcode::I32WrapI64 => OpClass::Nullary,
        Opcode::I32TruncateF32S => OpClass::Nullary,
        Opcode::I32TruncateF32U => OpClass::Nullary,
        Opcode::I32TruncateF64S => OpClass::Nullary,
        Opcode::I32TruncateF64U => OpClass::Nullary,
        Opcode::I64ExtendI32S => OpClass::Nullary,
        Opcode::I64ExtendI32U => OpClass::Nullary,
        Opcode::I64TruncateF32S => OpClass::Nullary,
        Opcode::I64TruncateF32U => OpClass::Nullary,
        Opcode::I64TruncateF64S => OpClass::Nullary,
        Opcode::I64TruncateF64U => OpClass::Nullary,
        Opcode::F32ConvertI32S => OpClass::Nullary,
        Opcode::F32ConvertI32U => OpClass::Nullary,
        Opcode::F32ConvertI64S => OpClass::Nullary,
        Opcode::F32ConvertI64U => OpClass::Nullary,
        Opcode::F32DemoteF64 => OpClass::Nullary,
        Opcode::F64ConvertI32S => OpClass::Nullary,
        Opcode::F64ConvertI32U => OpClass::Nullary,
        Opcode::F64ConvertI64S => OpClass::Nullary,
        Opcode::F64ConvertI64U => OpClass::Nullary,
        Opcode::F64PromoteF32 => OpClass::Nullary,
        Opcode::I32ReinterpretF32 => OpClass::Nullary,
        Opcode::I64ReinterpretF64 => OpClass::Nullary,
        Opcode::F32ReinterpretI32 => OpClass::Nullary,
        Opcode::F64ReinterpretI64 => OpClass::Nullary,
        Opcode::I32Extend8S => OpClass::Nullary,
        Opcode::I32Extend16S => OpClass::Nullary,
        Opcode::I64Extend8S => OpClass::Nullary,
        Opcode::I64Extend16S => OpClass::Nullary,
        Opcode::I64Extend32S => OpClass::Nullary,
        Opcode::RefNull => OpClass::RefNullOp,
        Opcode::RefIsNull => OpClass::Nullary,
        Opcode::RefFunc => OpClass::OneIndex,
        Opcode::ExtendedOpcode1 => OpClass::Escape1,
        Opcode::ExtendedOpcode2 => OpClass::Escape2,
    }
}

/// The no-payload instruction a nullary extended operation decodes to;
/// `None` for one that carries immediates.
#[verifier::opaque]
pub open spec fn spec_ext1_nullary(op: ExtendedOpcode1) -> Option<SpecInstruction> {
    match op {
        ExtendedOpcode1::I32TruncateSaturatingF32S => Some(SpecInstruction::I32TruncateSaturatingF32S),
        ExtendedOpcode1::I32TruncateSaturatingF32U => Some(SpecInstruction::I32TruncateSaturatingF32U),
        ExtendedOpcode1::I32TruncateSaturatingF64S => Some(SpecInstruction::I32TruncateSaturatingF64S),
        ExtendedOpcode1::I32TruncateSaturatingF64U => Some(SpecInstruction::I32TruncateSaturatingF64U),
        ExtendedOpcode1::I64TruncateSaturatingF32S => Some(SpecInstruction::I64TruncateSaturatingF32S),
        ExtendedOpcode1::I64TruncateSaturatingF32U => Some(SpecInstruction::I64TruncateSaturatingF32U),
        ExtendedOpcode1::I64TruncateSaturatingF64S => Some(SpecInstruction::I64TruncateSaturatingF64S),
        ExtendedOpcode1::I64TruncateSaturatingF64U => Some(SpecInstruction::I64TruncateSaturatingF64U),
        _ => None,
    }
}

/// Builds the no-payload instruction of a nullary extended operation.
pub fn ext1_nullary_instruction(op: ExtendedOpcode1) -> (r: Option<Instruction>)
    ensures
        match r {
            Some(i) => spec_ext1_nullary(op) == Some(instr_view(i)),
            None => spec_ext1_nullary(op) is None,
        },
{
    proof {
        reveal(spec_nullary);
        reveal(spec_idx_instr);
        reveal(spec_idx2_instr);
        reveal(spec_ext1_nullary);
        reveal(instr_view);
    }
    match op {
        ExtendedOpcode1::I32TruncateSaturatingF32S => Some(Instruction::I32TruncateSaturatingF32S),
        ExtendedOpcode1::I32TruncateSaturatingF32U => Some(Instruction::I32TruncateSaturatingF32U),
        ExtendedOpcode1::I32TruncateSaturatingF64S => Some(Instruction::I32TruncateSaturatingF64S),
        ExtendedOpcode1::I32TruncateSaturatingF64U => Some(Instruction::I32TruncateSaturatingF64U),
        ExtendedOpcode1::I64TruncateSaturatingF32S => Some(Instruction::I64TruncateSaturatingF32S),
        ExtendedOpcode1::I64TruncateSaturatingF32U => Some(Instruction::I64TruncateSaturatingF32U),
        ExtendedOpcode1::I64TruncateSaturatingF64S => Some(Instruction::I64TruncateSaturatingF64S),
        ExtendedOpcode1::I64TruncateSaturatingF64U => Some(Instruction::I64TruncateSaturatingF64U),
        _ => None,
    }
}

} // verus!
