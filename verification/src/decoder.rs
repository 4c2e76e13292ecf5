//! The instruction decoder: a recursive-descent parser from a byte slice to
//! structured instructions, specified against a mathematical model of the
//! same grammar.
//!
//! The next opcode's identity fully determines which production applies, so
//! dispatch is keyed on the resolved [`FullOpcode`]; no production is tried
//! and retried. Every integer immediate is read with LEB128; an immediate
//! that does not fit its 32- or 64-bit domain is rejected as invalid rather
//! than truncated. The vector operations of the second extended code space
//! resolve in the opcode table but carry immediates this decoder does not
//! model; decoding one fails as invalid outright, so the cursor can never
//! silently desynchronize.

use vstd::prelude::*;

use vstd::slice::slice_subrange;

use crate::instruction::{
    instr_view, instrs_view, lemma_instrs_view_prefix, spec_ext1_nullary, spec_idx2_instr,
    spec_idx_instr, spec_nullary, ext1_nullary_instruction, idx2_instruction, idx_instruction,
    nullary_instruction, op_class_of, op_class, Instruction, OpClass, SpecInstruction,
};
use crate::leb128::{leb128_at, spec_leb};
use crate::opcodes::{
    extended1_from_code, extended2_from_code, opcode_from_byte, spec_extended1, spec_extended2,
    spec_opcode, ExtendedOpcode1, FullOpcode, Opcode,
};
use crate::parser::ParserError;
use crate::types::{
    ref_type_from_byte, spec_block_type, spec_ref_type, spec_value_type, value_type_from_byte,
    BlockType, ValueType,
};

verus! {

/// The opcode byte that ends an expression or a structured body.
pub const END_BYTE: u8 = 0x0B;

/// The opcode byte that separates an `if` body from its `else` body.
pub const ELSE_BYTE: u8 = 0x05;

/// One unsigned 32-bit LEB128 read: a value beyond 32 bits is invalid.
pub open spec fn spec_leb32(s: Seq<u8>, pos: nat) -> Result<(nat, u32), ParserError> {
    match spec_leb(s, pos, 32, false) {
        Err(e) => Err(e),
        Ok((p, v)) => {
            if v < 0x1_0000_0000 {
                Ok((p, v as u32))
            } else {
                Err(ParserError::Invalid)
            }
        },
    }
}

/// One signed 32-bit LEB128 read: a value outside the 32-bit signed range is
/// invalid.
pub open spec fn spec_leb_i32(s: Seq<u8>, pos: nat) -> Result<(nat, i32), ParserError> {
    match spec_leb(s, pos, 32, true) {
        Err(e) => Err(e),
        Ok((p, v)) => {
            if -0x8000_0000 <= v < 0x8000_0000 {
                Ok((p, v as i32))
            } else {
                Err(ParserError::Invalid)
            }
        },
    }
}

/// One signed 64-bit LEB128 read: a value outside the 64-bit signed range is
/// invalid.
pub open spec fn spec_leb_i64(s: Seq<u8>, pos: nat) -> Result<(nat, i64), ParserError> {
    match spec_leb(s, pos, 64, true) {
        Err(e) => Err(e),
        Ok((p, v)) => {
            if -0x8000_0000_0000_0000 <= v < 0x8000_0000_0000_0000 {
                Ok((p, v as i64))
            } else {
                Err(ParserError::Invalid)
            }
        },
    }
}

/// The 32-bit integer carried little-endian by the four bytes at `pos`.
pub open spec fn spec_le32(s: Seq<u8>, pos: nat) -> u32 {
    (s[pos as int] + 0x100 * (s[pos as int + 1] + 0x100 * (s[pos as int + 2] + 0x100 * s[pos as int + 3]))) as u32
}

/// The 64-bit integer carried little-endian by the eight bytes at `pos`.
pub open spec fn spec_le64(s: Seq<u8>, pos: nat) -> u64 {
    (s[pos as int] + 0x100 * (s[pos as int + 1] + 0x100 * (s[pos as int + 2] + 0x100 * (s[pos as int + 3] + 0x100 * (
    s[pos as int + 4] + 0x100 * (s[pos as int + 5] + 0x100 * (s[pos as int + 6] + 0x100 * s[pos as int + 7]))))))) as u64
}

/// Resolution of the opcode at `pos`: one byte, and after an escape byte one
/// unsigned LEB128 code looked up in the matching extended table. A byte or
/// code with no assigned meaning is invalid.
pub open spec fn spec_full_opcode(s: Seq<u8>, pos: nat) -> Result<(nat, FullOpcode), ParserError> {
    if pos >= s.len() {
        Err(ParserError::Incomplete)
    } else {
        match spec_opcode(s[pos as int]) {
            None => Err(ParserError::Invalid),
            Some(Opcode::ExtendedOpcode1) => match spec_leb32(s, pos + 1) {
                Err(e) => Err(e),
                Ok((p, code)) => match spec_extended1(code) {
                    None => Err(ParserError::Invalid),
                    Some(x) => Ok((p, FullOpcode::Extended1(x))),
                },
            },
            Some(Opcode::ExtendedOpcode2) => match spec_leb32(s, pos + 1) {
                Err(e) => Err(e),
                Ok((p, code)) => match spec_extended2(code) {
                    None => Err(ParserError::Invalid),
                    Some(x) => Ok((p, FullOpcode::Extended2(x))),
                },
            },
            Some(op) => Ok((pos + 1, FullOpcode::OneByte(op))),
        }
    }
}

/// The block type read at `pos`: one signed 33-bit LEB128 value selecting a
/// value type or a function-type index.
pub open spec fn spec_block_type_at(s: Seq<u8>, pos: nat) -> Result<(nat, BlockType), ParserError> {
    match spec_leb(s, pos, 33, true) {
        Err(e) => Err(e),
        Ok((p, v)) => match spec_block_type(v) {
            None => Err(ParserError::Invalid),
            Some(bt) => Ok((p, bt)),
        },
    }
}

/// `n` label indices read in sequence, each one unsigned 32-bit LEB128.
pub open spec fn spec_labels(s: Seq<u8>, pos: nat, n: nat) -> Result<(nat, Seq<u32>), ParserError>
    decreases n,
{
    if n == 0 {
        Ok((pos, Seq::empty()))
    } else {
        match spec_leb32(s, pos) {
            Err(e) => Err(e),
            Ok((p, x)) => match spec_labels(s, p, (n - 1) as nat) {
                Err(e) => Err(e),
                Ok((pp, rest)) => Ok((pp, seq![x] + rest)),
            },
        }
    }
}

/// `n` value types read in sequence, one raw byte each.
pub open spec fn spec_select_types(s: Seq<u8>, pos: nat, n: nat) -> Result<
    (nat, Seq<ValueType>),
    ParserError,
>
    decreases n,
{
    if n == 0 {
        Ok((pos, Seq::empty()))
    } else if pos >= s.len() {
        Err(ParserError::Incomplete)
    } else {
        match spec_value_type(s[pos as int]) {
            None => Err(ParserError::Invalid),
            Some(vt) => match spec_select_types(s, pos + 1, (n - 1) as nat) {
                Err(e) => Err(e),
                Ok((p, rest)) => Ok((p, seq![vt] + rest)),
            },
        }
    }
}

/// The instruction decoded at `pos`: the resolved opcode picks the
/// production, which reads the opcode's immediates and, for the structured
/// control constructs, the nested bodies. The guards comparing positions can
/// never fail, since every read moves forward within the buffer; they stand
/// here so that the recursion visibly terminates.
pub open spec fn spec_instr(s: Seq<u8>, pos: nat) -> Result<(nat, SpecInstruction), ParserError>
    decreases s.len() - pos, 1int,
{
    match spec_full_opcode(s, pos) {
        Err(e) => Err(e),
        Ok((p1, FullOpcode::OneByte(op))) => spec_one_byte_instr(s, pos, p1, op),
        Ok((p1, FullOpcode::Extended1(e1))) => spec_ext1_instr(s, p1, e1),
        // Vector operations resolve in the table but their immediates are not
        // modeled here: decoding one fails rather than desynchronize the
        // cursor by consuming no operand bytes.
        Ok((p1, FullOpcode::Extended2(_))) => Err(ParserError::Invalid),
    }
}

/// The production of a one-byte opcode resolved at `pos`, its immediates
/// standing at `p1`.
pub open spec fn spec_one_byte_instr(s: Seq<u8>, pos: nat, p1: nat, op: Opcode) -> Result<
    (nat, SpecInstruction),
    ParserError,
>
    decreases s.len() - pos, 0int,
{
    match op_class(op) {
        OpClass::Nullary => match spec_nullary(op) {
            Some(iv) => Ok((p1, iv)),
            None => Err(ParserError::Invalid),
        },
        OpClass::Terminator => Err(ParserError::Invalid),
        OpClass::BlockOp => match spec_block_type_at(s, p1) {
            Err(e) => Err(e),
            Ok((p2, bt)) => {
                if pos < p2 <= s.len() {
                    match spec_expr(s, p2, false) {
                        Err(e) => Err(e),
                        Ok((p3, body, _)) => Ok((p3, SpecInstruction::Block(bt, body))),
                    }
                } else {
                    Err(ParserError::Invalid)
                }
            },
        },
        OpClass::LoopOp => match spec_block_type_at(s, p1) {
            Err(e) => Err(e),
            Ok((p2, bt)) => {
                if pos < p2 <= s.len() {
                    match spec_expr(s, p2, false) {
                        Err(e) => Err(e),
                        Ok((p3, body, _)) => Ok((p3, SpecInstruction::Loop(bt, body))),
                    }
                } else {
                    Err(ParserError::Invalid)
                }
            },
        },
        OpClass::IfOp => match spec_block_type_at(s, p1) {
            Err(e) => Err(e),
            Ok((p2, bt)) => {
                if pos < p2 <= s.len() {
                    match spec_expr(s, p2, true) {
                        Err(e) => Err(e),
                        Ok((p3, then_body, saw_else)) => {
                            if !saw_else {
                                Ok((p3, SpecInstruction::If(bt, then_body)))
                            } else if pos < p3 <= s.len() {
                                match spec_expr(s, p3, false) {
                                    Err(e) => Err(e),
                                    Ok((p4, else_body, _)) => Ok(
                                        (p4, SpecInstruction::IfElse(bt, then_body, else_body)),
                                    ),
                                }
                            } else {
                                Err(ParserError::Invalid)
                            }
                        },
                    }
                } else {
                    Err(ParserError::Invalid)
                }
            },
        },
        OpClass::OneIndex => match spec_leb32(s, p1) {
            Err(e) => Err(e),
            Ok((p2, x)) => match spec_idx_instr(op, x) {
                Some(iv) => Ok((p2, iv)),
                None => Err(ParserError::Invalid),
            },
        },
        OpClass::TwoImm => match spec_leb32(s, p1) {
            Err(e) => Err(e),
            Ok((p2, x)) => match spec_leb32(s, p2) {
                Err(e) => Err(e),
                Ok((p3, y)) => match spec_idx2_instr(op, x, y) {
                    Some(iv) => Ok((p3, iv)),
                    None => Err(ParserError::Invalid),
                },
            },
        },
        OpClass::ReservedByte => {
            if p1 >= s.len() {
                Err(ParserError::Incomplete)
            } else {
                match op {
                    Opcode::MemorySize => Ok((p1 + 1, SpecInstruction::MemorySize)),
                    Opcode::MemoryGrow => Ok((p1 + 1, SpecInstruction::MemoryGrow)),
                    _ => Err(ParserError::Invalid),
                }
            }
        },
        OpClass::BrTable => match spec_leb32(s, p1) {
            Err(e) => Err(e),
            Ok((p2, count)) => match spec_labels(s, p2, count as nat) {
                Err(e) => Err(e),
                Ok((p3, labels)) => match spec_leb32(s, p3) {
                    Err(e) => Err(e),
                    Ok((p4, default_label)) => Ok(
                        (p4, SpecInstruction::BranchTable(labels, default_label)),
                    ),
                },
            },
        },
        OpClass::SelectT => match spec_leb32(s, p1) {
            Err(e) => Err(e),
            Ok((p2, count)) => match spec_select_types(s, p2, count as nat) {
                Err(e) => Err(e),
                Ok((p3, types)) => Ok((p3, SpecInstruction::SelectTyped(types))),
            },
        },
        OpClass::ConstI32 => match spec_leb_i32(s, p1) {
            Err(e) => Err(e),
            Ok((p2, x)) => Ok((p2, SpecInstruction::I32Const(x))),
        },
        OpClass::ConstI64 => match spec_leb_i64(s, p1) {
            Err(e) => Err(e),
            Ok((p2, x)) => Ok((p2, SpecInstruction::I64Const(x))),
        },
        OpClass::ConstF32 => {
            if p1 + 4 <= s.len() {
                Ok((p1 + 4, SpecInstruction::F32Const(spec_le32(s, p1))))
            } else {
                Err(ParserError::Incomplete)
            }
        },
        OpClass::ConstF64 => {
            if p1 + 8 <= s.len() {
                Ok((p1 + 8, SpecInstruction::F64Const(spec_le64(s, p1))))
            } else {
                Err(ParserError::Incomplete)
            }
        },
        OpClass::RefNullOp => {
            if p1 >= s.len() {
                Err(ParserError::Incomplete)
            } else {
                match spec_ref_type(s[p1 as int]) {
                    None => Err(ParserError::Invalid),
                    Some(rt) => Ok((p1 + 1, SpecInstruction::RefNull(rt))),
                }
            }
        },
        // The escape opcodes resolve to an extended operation, never to a
        // one-byte opcode.
        OpClass::Escape1 => Err(ParserError::Invalid),
        OpClass::Escape2 => Err(ParserError::Invalid),
    }
}

/// The production of an operation of the first extended code space, its
/// immediates standing at `p1`.
pub open spec fn spec_ext1_instr(s: Seq<u8>, p1: nat, e1: ExtendedOpcode1) -> Result<
    (nat, SpecInstruction),
    ParserError,
> {
    match spec_ext1_nullary(e1) {
        Some(iv) => Ok((p1, iv)),
        None => match e1 {
            ExtendedOpcode1::MemoryInit => match spec_leb32(s, p1) {
                Err(e) => Err(e),
                Ok((p2, x)) => {
                    if p2 >= s.len() {
                        Err(ParserError::Incomplete)
                    } else {
                        Ok((p2 + 1, SpecInstruction::MemoryInit(x)))
                    }
                },
            },
            ExtendedOpcode1::DataDrop => match spec_leb32(s, p1) {
                Err(e) => Err(e),
                Ok((p2, x)) => Ok((p2, SpecInstruction::DataDrop(x))),
            },
            ExtendedOpcode1::MemoryCopy => {
                if p1 + 2 <= s.len() {
                    Ok((p1 + 2, SpecInstruction::MemoryCopy))
                } else {
                    Err(ParserError::Incomplete)
                }
            },
            ExtendedOpcode1::MemoryFill => {
                if p1 + 1 <= s.len() {
                    Ok((p1 + 1, SpecInstruction::MemoryFill))
                } else {
                    Err(ParserError::Incomplete)
                }
            },
            ExtendedOpcode1::TableInit => match spec_leb32(s, p1) {
                Err(e) => Err(e),
                Ok((p2, x)) => match spec_leb32(s, p2) {
                    Err(e) => Err(e),
                    Ok((p3, y)) => Ok((p3, SpecInstruction::TableInit(x, y))),
                },
            },
            ExtendedOpcode1::ElemDrop => match spec_leb32(s, p1) {
                Err(e) => Err(e),
                Ok((p2, x)) => Ok((p2, SpecInstruction::ElemDrop(x))),
            },
            ExtendedOpcode1::TableCopy => match spec_leb32(s, p1) {
                Err(e) => Err(e),
                Ok((p2, x)) => match spec_leb32(s, p2) {
                    Err(e) => Err(e),
                    Ok((p3, y)) => Ok((p3, SpecInstruction::TableCopy(x, y))),
                },
            },
            ExtendedOpcode1::TableGrow => match spec_leb32(s, p1) {
                Err(e) => Err(e),
                Ok((p2, x)) => Ok((p2, SpecInstruction::TableGrow(x))),
            },
            ExtendedOpcode1::TableSize => match spec_leb32(s, p1) {
                Err(e) => Err(e),
                Ok((p2, x)) => Ok((p2, SpecInstruction::TableSize(x))),
            },
            ExtendedOpcode1::TableFill => match spec_leb32(s, p1) {
                Err(e) => Err(e),
                Ok((p2, x)) => Ok((p2, SpecInstruction::TableFill(x))),
            },
        _ => Err(ParserError::Invalid),
        },
    }
}

/// The instruction sequence decoded at `pos`, up to and including a
/// terminating `end` (or, inside an `if` body when `allow_else` holds, an
/// `else`, reported by the boolean). The terminator is consumed but not part
/// of the sequence. The position guard can never fail, since an instruction
/// always moves forward; it stands here so that the recursion visibly
/// terminates.
pub open spec fn spec_expr(s: Seq<u8>, pos: nat, allow_else: bool) -> Result<
    (nat, Seq<SpecInstruction>, bool),
    ParserError,
>
    decreases s.len() - pos, 2int,
{
    if pos >= s.len() {
        Err(ParserError::Incomplete)
    } else if s[pos as int] == END_BYTE {
        Ok((pos + 1, Seq::empty(), false))
    } else if allow_else && s[pos as int] == ELSE_BYTE {
        Ok((pos + 1, Seq::empty(), true))
    } else {
        match spec_instr(s, pos) {
            Err(e) => Err(e),
            Ok((p2, iv)) => {
                if pos < p2 <= s.len() {
                    match spec_expr(s, p2, allow_else) {
                        Err(e) => Err(e),
                        Ok((p3, rest, saw_else)) => Ok((p3, seq![iv] + rest, saw_else)),
                    }
                } else {
                    Err(ParserError::Invalid)
                }
            },
        }
    }
}

/// Reads one unsigned 32-bit LEB128 value at `pos`.
fn leb32_at(bytes: &[u8], pos: usize) -> (r: Result<(usize, u32), ParserError>)
    ensures
        match r {
            Ok((p, x)) => spec_leb32(bytes@, pos as nat) == Ok::<(nat, u32), ParserError>(
                (p as nat, x),
            ) && pos < p <= bytes@.len(),
            Err(e) => spec_leb32(bytes@, pos as nat) == Err::<(nat, u32), ParserError>(e),
        },
{
    match leb128_at(bytes, pos, 32, false) {
        Err(e) => Err(e),
        Ok((p, v)) => {
            if v < 0x1_0000_0000 {
                Ok((p, v as u32))
            } else {
                Err(ParserError::Invalid)
            }
        },
    }
}

/// Reads one signed 32-bit LEB128 value at `pos`.
fn leb_i32_at(bytes: &[u8], pos: usize) -> (r: Result<(usize, i32), ParserError>)
    ensures
        match r {
            Ok((p, x)) => spec_leb_i32(bytes@, pos as nat) == Ok::<(nat, i32), ParserError>(
                (p as nat, x),
            ) && pos < p <= bytes@.len(),
            Err(e) => spec_leb_i32(bytes@, pos as nat) == Err::<(nat, i32), ParserError>(e),
        },
{
    match leb128_at(bytes, pos, 32, true) {
        Err(e) => Err(e),
        Ok((p, v)) => {
            proof {
                crate::leb128::lemma_spec_leb_ok(
                    bytes@,
                    pos as nat,
                    32,
                    true,
                    p as nat,
                    spec_leb_value(bytes@, pos as nat, 32, true),
                );
                vstd::arithmetic::power2::lemma2_to64_rest();
                if 7 * (p - pos) < 35 {
                    vstd::arithmetic::power2::lemma_pow2_strictly_increases(
                        (7 * (p - pos)) as nat,
                        35,
                    );
                }
                vstd::arithmetic::power2::lemma2_to64();
            }
            if v <= 0x7FFF_FFFF {
                #[verifier::truncate]
                let x = v as i32;
                proof {
                    assert(v <= 0x7FFF_FFFF ==> (v as i32) as int == v as int) by (bit_vector);
                }
                Ok((p, x))
            } else if v >= 0xFFFF_FFFF_FFFF_FFFF_FFFF_FFFF_8000_0000 {
                #[verifier::truncate]
                let x = v as i32;
                proof {
                    assert(v >= 0xFFFF_FFFF_FFFF_FFFF_FFFF_FFFF_8000_0000u128 ==> (v as i32)
                        as int == v as int - 0x1_0000_0000_0000_0000_0000_0000_0000_0000)
                        by (bit_vector);
                }
                Ok((p, x))
            } else {
                Err(ParserError::Invalid)
            }
        },
    }
}

/// Reads one signed 64-bit LEB128 value at `pos`.
fn leb_i64_at(bytes: &[u8], pos: usize) -> (r: Result<(usize, i64), ParserError>)
    ensures
        match r {
            Ok((p, x)) => spec_leb_i64(bytes@, pos as nat) == Ok::<(nat, i64), ParserError>(
                (p as nat, x),
            ) && pos < p <= bytes@.len(),
            Err(e) => spec_leb_i64(bytes@, pos as nat) == Err::<(nat, i64), ParserError>(e),
        },
{
    match leb128_at(bytes, pos, 64, true) {
        Err(e) => Err(e),
        Ok((p, v)) => {
            proof {
                crate::leb128::lemma_spec_leb_ok(
                    bytes@,
                    pos as nat,
                    64,
                    true,
                    p as nat,
                    spec_leb_value(bytes@, pos as nat, 64, true),
                );
                vstd::arithmetic::power2::lemma2_to64();
                vstd::arithmetic::power2::lemma2_to64_rest();
                vstd::arithmetic::power2::lemma_pow2_adds(64, 6);
                if 7 * (p - pos) < 70 {
                    vstd::arithmetic::power2::lemma_pow2_strictly_increases(
                        (7 * (p - pos)) as nat,
                        70,
                    );
                }
            }
            if v <= 0x7FFF_FFFF_FFFF_FFFF {
                #[verifier::truncate]
                let x = v as i64;
                proof {
                    assert(v <= 0x7FFF_FFFF_FFFF_FFFF ==> (v as i64) as int == v as int)
                        by (bit_vector);
                }
                Ok((p, x))
            } else if v >= 0xFFFF_FFFF_FFFF_FFFF_8000_0000_0000_0000 {
                #[verifier::truncate]
                let x = v as i64;
                proof {
                    assert(v >= 0xFFFF_FFFF_FFFF_FFFF_8000_0000_0000_0000u128 ==> (v as i64)
                        as int == v as int - 0x1_0000_0000_0000_0000_0000_0000_0000_0000)
                        by (bit_vector);
                }
                Ok((p, x))
            } else {
                Err(ParserError::Invalid)
            }
        },
    }
}

/// The value a successful LEB128 decode carries, for naming it in proofs.
pub open spec fn spec_leb_value(s: Seq<u8>, pos: nat, bits: nat, signed: bool) -> int {
    match spec_leb(s, pos, bits, signed) {
        Ok((p, v)) => v,
        Err(_) => 0,
    }
}

/// Reads the block type at `pos`.
fn block_type_at(bytes: &[u8], pos: usize) -> (r: Result<(usize, BlockType), ParserError>)
    ensures
        match r {
            Ok((p, bt)) => spec_block_type_at(bytes@, pos as nat) == Ok::<
                (nat, BlockType),
                ParserError,
            >((p as nat, bt)) && pos < p <= bytes@.len(),
            Err(e) => spec_block_type_at(bytes@, pos as nat) == Err::<
                (nat, BlockType),
                ParserError,
            >(e),
        },
{
    match leb128_at(bytes, pos, 33, true) {
        Err(e) => Err(e),
        Ok((p, v)) => {
            let ghost sv = spec_leb_value(bytes@, pos as nat, 33, true);
            proof {
                crate::leb128::lemma_spec_leb_ok(bytes@, pos as nat, 33, true, p as nat, sv);
                vstd::arithmetic::power2::lemma2_to64_rest();
                if 7 * (p - pos) < 36 {
                    vstd::arithmetic::power2::lemma_pow2_strictly_increases(
                        (7 * (p - pos)) as nat,
                        36,
                    );
                }
                vstd::arithmetic::power2::lemma2_to64();
            }
            if v <= 0xFFFF_FFFF_FFFF_FFFF {
                // The decoded value is non-negative: a function-type index.
                if v < 0x1_0000_0000 {
                    Ok((p, BlockType::Index(v as u32)))
                } else {
                    Err(ParserError::Invalid)
                }
            } else {
                // The decoded value is negative: its low seven bits name a
                // value type.
                let low = (v % 128) as u8;
                proof {
                    assert(sv < 0);
                    assert(v as int == sv + 0x1_0000_0000_0000_0000_0000_0000_0000_0000);
                    vstd::arithmetic::div_mod::lemma_mod_multiples_vanish(
                        0x20_0000_0000_0000_0000_0000_0000_0000,
                        sv,
                        128,
                    );
                    assert(v as int % 128 == sv % 128);
                }
                match value_type_from_byte(low) {
                    None => Err(ParserError::Invalid),
                    Some(vt) => Ok((p, BlockType::Value(vt))),
                }
            }
        },
    }
}

/// Resolves the opcode at `pos`: one byte, and after an escape byte one
/// unsigned LEB128 code looked up in the matching extended table.
pub fn resolve_opcode(bytes: &[u8], pos: usize) -> (r: Result<(usize, FullOpcode), ParserError>)
    ensures
        match r {
            Ok((p, f)) => spec_full_opcode(bytes@, pos as nat) == Ok::<
                (nat, FullOpcode),
                ParserError,
            >((p as nat, f)) && pos < p <= bytes@.len(),
            Err(e) => spec_full_opcode(bytes@, pos as nat) == Err::<
                (nat, FullOpcode),
                ParserError,
            >(e),
        },
{
    if pos >= bytes.len() {
        return Err(ParserError::Incomplete);
    }
    let b = bytes[pos];
    match opcode_from_byte(b) {
        None => Err(ParserError::Invalid),
        Some(op) => match op {
            Opcode::ExtendedOpcode1 => match leb32_at(bytes, pos + 1) {
                Err(e) => Err(e),
                Ok((p, code)) => match extended1_from_code(code) {
                    None => Err(ParserError::Invalid),
                    Some(x) => Ok((p, FullOpcode::Extended1(x))),
                },
            },
            Opcode::ExtendedOpcode2 => match leb32_at(bytes, pos + 1) {
                Err(e) => Err(e),
                Ok((p, code)) => match extended2_from_code(code) {
                    None => Err(ParserError::Invalid),
                    Some(x) => Ok((p, FullOpcode::Extended2(x))),
                },
            },
            _ => Ok((pos + 1, FullOpcode::OneByte(op))),
        },
    }
}

/// Reads `n` label indices at `pos`, each one unsigned 32-bit LEB128.
fn labels_at(bytes: &[u8], pos: usize, n: u32) -> (r: Result<(usize, Vec<u32>), ParserError>)
    requires
        pos <= bytes@.len(),
    ensures
        match r {
            Ok((p, v)) => spec_labels(bytes@, pos as nat, n as nat) == Ok::<
                (nat, Seq<u32>),
                ParserError,
            >((p as nat, v@)) && pos <= p <= bytes@.len(),
            Err(e) => spec_labels(bytes@, pos as nat, n as nat) == Err::<
                (nat, Seq<u32>),
                ParserError,
            >(e),
        },
{
    let ghost s = bytes@;
    let mut labels: Vec<u32> = Vec::new();
    let mut p = pos;
    let mut i: u32 = 0;
    proof {
        assert(match spec_labels(s, p as nat, (n - i) as nat) {
            Ok((pp, rest)) => spec_labels(s, pos as nat, n as nat) == Ok::<
                (nat, Seq<u32>),
                ParserError,
            >((pp, labels@ + rest)),
            Err(e) => spec_labels(s, pos as nat, n as nat) == Err::<(nat, Seq<u32>), ParserError>(
                e,
            ),
        }) by {
            match spec_labels(s, p as nat, (n - i) as nat) {
                Ok((pp, rest)) => {
                    assert(labels@ + rest =~= rest);
                },
                Err(e) => {},
            }
        }
    }
    while i < n
        invariant
            i <= n,
            pos <= p <= s.len(),
            s == bytes@,
            match spec_labels(s, p as nat, (n - i) as nat) {
                Ok((pp, rest)) => spec_labels(s, pos as nat, n as nat) == Ok::<
                    (nat, Seq<u32>),
                    ParserError,
                >((pp, labels@ + rest)),
                Err(e) => spec_labels(s, pos as nat, n as nat) == Err::<
                    (nat, Seq<u32>),
                    ParserError,
                >(e),
            },
        decreases n - i,
    {
        match leb32_at(bytes, p) {
            Err(e) => {
                return Err(e);
            },
            Ok((p2, x)) => {
                let ghost old_labels = labels@;
                labels.push(x);
                proof {
                    match spec_labels(s, p2 as nat, (n - i - 1) as nat) {
                        Ok((pp, rest)) => {
                            assert(spec_labels(s, p as nat, (n - i) as nat) == Ok::<
                                (nat, Seq<u32>),
                                ParserError,
                            >((pp, seq![x] + rest)));
                            assert(old_labels + (seq![x] + rest) =~= labels@ + rest);
                        },
                        Err(e) => {},
                    }
                }
                p = p2;
                i = i + 1;
            },
        }
    }
    proof {
        assert(labels@ + Seq::<u32>::empty() =~= labels@);
    }
    Ok((p, labels))
}

/// Reads `n` value types at `pos`, one raw byte each.
fn select_types_at(bytes: &[u8], pos: usize, n: u32) -> (r: Result<
    (usize, Vec<ValueType>),
    ParserError,
>)
    requires
        pos <= bytes@.len(),
    ensures
        match r {
            Ok((p, v)) => spec_select_types(bytes@, pos as nat, n as nat) == Ok::<
                (nat, Seq<ValueType>),
                ParserError,
            >((p as nat, v@)) && pos <= p <= bytes@.len(),
            Err(e) => spec_select_types(bytes@, pos as nat, n as nat) == Err::<
                (nat, Seq<ValueType>),
                ParserError,
            >(e),
        },
{
    let ghost s = bytes@;
    let mut types: Vec<ValueType> = Vec::new();
    let mut p = pos;
    let mut i: u32 = 0;
    proof {
        assert(match spec_select_types(s, p as nat, (n - i) as nat) {
            Ok((pp, rest)) => spec_select_types(s, pos as nat, n as nat) == Ok::<
                (nat, Seq<ValueType>),
                ParserError,
            >((pp, types@ + rest)),
            Err(e) => spec_select_types(s, pos as nat, n as nat) == Err::<
                (nat, Seq<ValueType>),
                ParserError,
            >(e),
        }) by {
            match spec_select_types(s, p as nat, (n - i) as nat) {
                Ok((pp, rest)) => {
                    assert(types@ + rest =~= rest);
                },
                Err(e) => {},
            }
        }
    }
    while i < n
        invariant
            i <= n,
            pos <= p <= s.len(),
            s == bytes@,
            match spec_select_types(s, p as nat, (n - i) as nat) {
                Ok((pp, rest)) => spec_select_types(s, pos as nat, n as nat) == Ok::<
                    (nat, Seq<ValueType>),
                    ParserError,
                >((pp, types@ + rest)),
                Err(e) => spec_select_types(s, pos as nat, n as nat) == Err::<
                    (nat, Seq<ValueType>),
                    ParserError,
                >(e),
            },
        decreases n - i,
    {
        if p >= bytes.len() {
            return Err(ParserError::Incomplete);
        }
        let b = bytes[p];
        match value_type_from_byte(b) {
            None => {
                return Err(ParserError::Invalid);
            },
            Some(vt) => {
                let ghost old_types = types@;
                types.push(vt);
                proof {
                    match spec_select_types(s, p as nat + 1, (n - i - 1) as nat) {
                        Ok((pp, rest)) => {
                            assert(old_types + (seq![vt] + rest) =~= types@ + rest);
                        },
                        Err(e) => {},
                    }
                }
                p = p + 1;
                i = i + 1;
            },
        }
    }
    proof {
        assert(types@ + Seq::<ValueType>::empty() =~= types@);
    }
    Ok((p, types))
}

/// Decodes the instruction at `pos`: resolves the opcode, then applies the
/// production it names.
pub fn instruction_at(bytes: &[u8], pos: usize) -> (r: Result<(usize, Instruction), ParserError>)
    ensures
        match r {
            Ok((p, i)) => spec_instr(bytes@, pos as nat) == Ok::<
                (nat, SpecInstruction),
                ParserError,
            >((p as nat, instr_view(i))) && pos < p <= bytes@.len(),
            Err(e) => spec_instr(bytes@, pos as nat) == Err::<(nat, SpecInstruction), ParserError>(
                e,
            ),
        },
    decreases bytes@.len() - pos, 2int,
{
    let (p1, fop) = match resolve_opcode(bytes, pos) {
        Err(e) => {
            return Err(e);
        },
        Ok(x) => x,
    };
    match fop {
        FullOpcode::OneByte(op) => one_byte_instruction_at(bytes, pos, p1, op),
        FullOpcode::Extended1(e1) => ext1_instruction_at(bytes, p1, e1),
        FullOpcode::Extended2(_) => Err(ParserError::Invalid),
    }
}

/// Decodes the body of a structured control construct (`block`, `loop` or
/// `if`) whose opcode was resolved at `pos`, the block type standing at `p1`.
#[verifier::rlimit(100)]
fn structured_instruction_at(bytes: &[u8], pos: usize, p1: usize, op: Opcode) -> (r: Result<
    (usize, Instruction),
    ParserError,
>)
    requires
        pos < p1 <= bytes@.len(),
        op_class(op) == OpClass::BlockOp || op_class(op) == OpClass::LoopOp || op_class(op)
            == OpClass::IfOp,
    ensures
        match r {
            Ok((p, i)) => spec_one_byte_instr(bytes@, pos as nat, p1 as nat, op) == Ok::<
                (nat, SpecInstruction),
                ParserError,
            >((p as nat, instr_view(i))) && pos < p <= bytes@.len(),
            Err(e) => spec_one_byte_instr(bytes@, pos as nat, p1 as nat, op) == Err::<
                (nat, SpecInstruction),
                ParserError,
            >(e),
        },
    decreases bytes@.len() - pos, 0int,
{
    proof {
        reveal(crate::instruction::instr_view);
    }
    match op_class_of(op) {
        OpClass::BlockOp => match block_type_at(bytes, p1) {
            Err(e) => Err(e),
            Ok((p2, bt)) => match expression_at(bytes, p2, false) {
                Err(e) => Err(e),
                Ok((p3, body, _)) => Ok((p3, Instruction::Block(bt, body))),
            },
        },
        OpClass::LoopOp => match block_type_at(bytes, p1) {
            Err(e) => Err(e),
            Ok((p2, bt)) => match expression_at(bytes, p2, false) {
                Err(e) => Err(e),
                Ok((p3, body, _)) => Ok((p3, Instruction::Loop(bt, body))),
            },
        },
        _ => match block_type_at(bytes, p1) {
            Err(e) => Err(e),
            Ok((p2, bt)) => match expression_at(bytes, p2, true) {
                Err(e) => Err(e),
                Ok((p3, then_body, saw_else)) => {
                    if !saw_else {
                        Ok((p3, Instruction::If(bt, then_body)))
                    } else {
                        match expression_at(bytes, p3, false) {
                            Err(e) => Err(e),
                            Ok((p4, else_body, _)) => Ok(
                                (p4, Instruction::IfElse(bt, then_body, else_body)),
                            ),
                        }
                    }
                },
            },
        },
    }
}

/// Decodes the immediates of a one-byte opcode resolved at `pos`, the
/// immediates standing at `p1`.
#[verifier::rlimit(100)]
fn one_byte_instruction_at(bytes: &[u8], pos: usize, p1: usize, op: Opcode) -> (r: Result<
    (usize, Instruction),
    ParserError,
>)
    requires
        pos < p1 <= bytes@.len(),
    ensures
        match r {
            Ok((p, i)) => spec_one_byte_instr(bytes@, pos as nat, p1 as nat, op) == Ok::<
                (nat, SpecInstruction),
                ParserError,
            >((p as nat, instr_view(i))) && pos < p <= bytes@.len(),
            Err(e) => spec_one_byte_instr(bytes@, pos as nat, p1 as nat, op) == Err::<
                (nat, SpecInstruction),
                ParserError,
            >(e),
        },
    decreases bytes@.len() - pos, 1int,
{
    let class = op_class_of(op);
    match class {
        OpClass::BlockOp | OpClass::LoopOp | OpClass::IfOp => {
            return structured_instruction_at(bytes, pos, p1, op);
        },
        _ => {},
    }
    proof {
        reveal(crate::instruction::instr_view);
    }
    match class {
        OpClass::Nullary => match nullary_instruction(op) {
            Some(i) => Ok((p1, i)),
            None => Err(ParserError::Invalid),
        },
        OpClass::Terminator => Err(ParserError::Invalid),
        OpClass::BlockOp => Err(ParserError::Invalid),
        OpClass::LoopOp => Err(ParserError::Invalid),
        OpClass::IfOp => Err(ParserError::Invalid),
        OpClass::OneIndex => match leb32_at(bytes, p1) {
            Err(e) => Err(e),
            Ok((p2, x)) => match idx_instruction(op, x) {
                Some(i) => Ok((p2, i)),
                None => Err(ParserError::Invalid),
            },
        },
        OpClass::TwoImm => match leb32_at(bytes, p1) {
            Err(e) => Err(e),
            Ok((p2, x)) => match leb32_at(bytes, p2) {
                Err(e) => Err(e),
                Ok((p3, y)) => match idx2_instruction(op, x, y) {
                    Some(i) => Ok((p3, i)),
                    None => Err(ParserError::Invalid),
                },
            },
        },
        OpClass::ReservedByte => {
            if p1 >= bytes.len() {
                Err(ParserError::Incomplete)
            } else {
                match op {
                    Opcode::MemorySize => Ok((p1 + 1, Instruction::MemorySize)),
                    Opcode::MemoryGrow => Ok((p1 + 1, Instruction::MemoryGrow)),
                    _ => Err(ParserError::Invalid),
                }
            }
        },
        OpClass::BrTable => match leb32_at(bytes, p1) {
            Err(e) => Err(e),
            Ok((p2, count)) => match labels_at(bytes, p2, count) {
                Err(e) => Err(e),
                Ok((p3, labels)) => match leb32_at(bytes, p3) {
                    Err(e) => Err(e),
                    Ok((p4, default_label)) => Ok(
                        (p4, Instruction::BranchTable(labels, default_label)),
                    ),
                },
            },
        },
        OpClass::SelectT => match leb32_at(bytes, p1) {
            Err(e) => Err(e),
            Ok((p2, count)) => match select_types_at(bytes, p2, count) {
                Err(e) => Err(e),
                Ok((p3, types)) => Ok((p3, Instruction::SelectTyped(types))),
            },
        },
        OpClass::ConstI32 => match leb_i32_at(bytes, p1) {
            Err(e) => Err(e),
            Ok((p2, x)) => Ok((p2, Instruction::I32Const(x))),
        },
        OpClass::ConstI64 => match leb_i64_at(bytes, p1) {
            Err(e) => Err(e),
            Ok((p2, x)) => Ok((p2, Instruction::I64Const(x))),
        },
        OpClass::ConstF32 => {
            if bytes.len() - p1 >= 4 {
                let x = bytes[p1] as u32 + 0x100 * (bytes[p1 + 1] as u32 + 0x100 * (bytes[p1
                    + 2] as u32 + 0x100 * (bytes[p1 + 3] as u32)));
                Ok((p1 + 4, Instruction::F32Const(x)))
            } else {
                Err(ParserError::Incomplete)
            }
        },
        OpClass::ConstF64 => {
            if bytes.len() - p1 >= 8 {
                let x = bytes[p1] as u64 + 0x100 * (bytes[p1 + 1] as u64 + 0x100 * (bytes[p1
                    + 2] as u64 + 0x100 * (bytes[p1 + 3] as u64 + 0x100 * (bytes[p1 + 4]
                    as u64 + 0x100 * (bytes[p1 + 5] as u64 + 0x100 * (bytes[p1 + 6] as u64
                    + 0x100 * (bytes[p1 + 7] as u64)))))));
                Ok((p1 + 8, Instruction::F64Const(x)))
            } else {
                Err(ParserError::Incomplete)
            }
        },
        OpClass::RefNullOp => {
            if p1 >= bytes.len() {
                Err(ParserError::Incomplete)
            } else {
                match ref_type_from_byte(bytes[p1]) {
                    None => Err(ParserError::Invalid),
                    Some(rt) => Ok((p1 + 1, Instruction::RefNull(rt))),
                }
            }
        },
        OpClass::Escape1 => Err(ParserError::Invalid),
        OpClass::Escape2 => Err(ParserError::Invalid),
    }
}

/// Decodes the immediates of an operation of the first extended code space,
/// the immediates standing at `p1`.
#[verifier::rlimit(50)]
fn ext1_instruction_at(bytes: &[u8], p1: usize, e1: ExtendedOpcode1) -> (r: Result<
    (usize, Instruction),
    ParserError,
>)
    requires
        0 < p1 <= bytes@.len(),
    ensures
        match r {
            Ok((p, i)) => spec_ext1_instr(bytes@, p1 as nat, e1) == Ok::<
                (nat, SpecInstruction),
                ParserError,
            >((p as nat, instr_view(i))) && p1 <= p <= bytes@.len(),
            Err(e) => spec_ext1_instr(bytes@, p1 as nat, e1) == Err::<
                (nat, SpecInstruction),
                ParserError,
            >(e),
        },
{
    proof {
        reveal(crate::instruction::instr_view);
    }
    match ext1_nullary_instruction(e1) {
        Some(i) => Ok((p1, i)),
        None => match e1 {
            ExtendedOpcode1::MemoryInit => match leb32_at(bytes, p1) {
                Err(e) => Err(e),
                Ok((p2, x)) => {
                    if p2 >= bytes.len() {
                        Err(ParserError::Incomplete)
                    } else {
                        Ok((p2 + 1, Instruction::MemoryInit(x)))
                    }
                },
            },
            ExtendedOpcode1::DataDrop => match leb32_at(bytes, p1) {
                Err(e) => Err(e),
                Ok((p2, x)) => Ok((p2, Instruction::DataDrop(x))),
            },
            ExtendedOpcode1::MemoryCopy => {
                if bytes.len() - p1 >= 2 {
                    Ok((p1 + 2, Instruction::MemoryCopy))
                } else {
                    Err(ParserError::Incomplete)
                }
            },
            ExtendedOpcode1::MemoryFill => {
                if bytes.len() - p1 >= 1 {
                    Ok((p1 + 1, Instruction::MemoryFill))
                } else {
                    Err(ParserError::Incomplete)
                }
            },
            ExtendedOpcode1::TableInit => match leb32_at(bytes, p1) {
                Err(e) => Err(e),
                Ok((p2, x)) => match leb32_at(bytes, p2) {
                    Err(e) => Err(e),
                    Ok((p3, y)) => Ok((p3, Instruction::TableInit(x, y))),
                },
            },
            ExtendedOpcode1::ElemDrop => match leb32_at(bytes, p1) {
                Err(e) => Err(e),
                Ok((p2, x)) => Ok((p2, Instruction::ElemDrop(x))),
            },
            ExtendedOpcode1::TableCopy => match leb32_at(bytes, p1) {
                Err(e) => Err(e),
                Ok((p2, x)) => match leb32_at(bytes, p2) {
                    Err(e) => Err(e),
                    Ok((p3, y)) => Ok((p3, Instruction::TableCopy(x, y))),
                },
            },
            ExtendedOpcode1::TableGrow => match leb32_at(bytes, p1) {
                Err(e) => Err(e),
                Ok((p2, x)) => Ok((p2, Instruction::TableGrow(x))),
            },
            ExtendedOpcode1::TableSize => match leb32_at(bytes, p1) {
                Err(e) => Err(e),
                Ok((p2, x)) => Ok((p2, Instruction::TableSize(x))),
            },
            ExtendedOpcode1::TableFill => match leb32_at(bytes, p1) {
                Err(e) => Err(e),
                Ok((p2, x)) => Ok((p2, Instruction::TableFill(x))),
            },
        _ => Err(ParserError::Invalid),
        },
    }
}

/// Decodes instructions at `pos` until the terminating `end` (or, when
/// `allow_else` holds, an `else`), which is consumed but not returned. The
/// boolean reports which terminator ended the sequence.
pub fn expression_at(bytes: &[u8], pos: usize, allow_else: bool) -> (r: Result<
    (usize, Vec<Instruction>, bool),
    ParserError,
>)
    requires
        pos <= bytes@.len(),
    ensures
        match r {
            Ok((p, v, saw_else)) => spec_expr(bytes@, pos as nat, allow_else) == Ok::<
                (nat, Seq<SpecInstruction>, bool),
                ParserError,
            >((p as nat, instrs_view(v), saw_else)) && pos < p <= bytes@.len(),
            Err(e) => spec_expr(bytes@, pos as nat, allow_else) == Err::<
                (nat, Seq<SpecInstruction>, bool),
                ParserError,
            >(e),
        },
    decreases bytes@.len() - pos, 3int,
{
    let ghost s = bytes@;
    let mut out: Vec<Instruction> = Vec::new();
    let mut p = pos;
    proof {
        lemma_instrs_view_prefix(out, 0);
        match spec_expr(s, p as nat, allow_else) {
            Ok((pp, rest, se)) => {
                assert(instrs_view(out) + rest =~= rest);
            },
            Err(e) => {},
        }
    }
    loop
        invariant
            pos <= p <= s.len(),
            s == bytes@,
            match spec_expr(s, p as nat, allow_else) {
                Ok((pp, rest, se)) => spec_expr(s, pos as nat, allow_else) == Ok::<
                    (nat, Seq<SpecInstruction>, bool),
                    ParserError,
                >((pp, instrs_view(out) + rest, se)),
                Err(e) => spec_expr(s, pos as nat, allow_else) == Err::<
                    (nat, Seq<SpecInstruction>, bool),
                    ParserError,
                >(e),
            },
        decreases s.len() - p,
    {
        if p >= bytes.len() {
            return Err(ParserError::Incomplete);
        }
        let b = bytes[p];
        if b == END_BYTE {
            proof {
                assert(instrs_view(out) + Seq::<SpecInstruction>::empty() =~= instrs_view(out));
            }
            return Ok((p + 1, out, false));
        }
        if allow_else && b == ELSE_BYTE {
            proof {
                assert(instrs_view(out) + Seq::<SpecInstruction>::empty() =~= instrs_view(out));
            }
            return Ok((p + 1, out, true));
        }
        match instruction_at(bytes, p) {
            Err(e) => {
                return Err(e);
            },
            Ok((p2, i)) => {
                let ghost old_out = out;
                let ghost iv = instr_view(i);
                out.push(i);
                proof {
                    crate::instruction::lemma_instrs_view_push(old_out, out, i);
                    match spec_expr(s, p2 as nat, allow_else) {
                        Ok((pp, rest, se)) => {
                            assert(instrs_view(old_out) + (seq![iv] + rest) =~= instrs_view(out)
                                + rest);
                        },
                        Err(e) => {},
                    }
                }
                p = p2;
            },
        }
    }
}

/// Decodes the instruction at the head of `bytes`; on success, the remaining
/// bytes and the instruction.
pub fn decode_instruction<'a>(bytes: &'a [u8]) -> (r: Result<
    (&'a [u8], Instruction),
    ParserError,
>)
    ensures
        match r {
            Ok((rest, i)) => spec_instr(bytes@, 0) == Ok::<(nat, SpecInstruction), ParserError>(
                ((bytes@.len() - rest@.len()) as nat, instr_view(i)),
            ) && rest@ == bytes@.subrange(bytes@.len() - rest@.len(), bytes@.len() as int),
            Err(e) => spec_instr(bytes@, 0) == Err::<(nat, SpecInstruction), ParserError>(e),
        },
{
    match instruction_at(bytes, 0) {
        Err(e) => Err(e),
        Ok((p, i)) => Ok((slice_subrange(bytes, p, bytes.len()), i)),
    }
}

/// Without leave to stop at an `else`, an expression only ever ends at an
/// `end`.
pub proof fn lemma_expr_never_else(s: Seq<u8>, pos: nat)
    ensures
        spec_expr(s, pos, false) matches Ok((_, _, saw_else)) ==> !saw_else,
    decreases s.len() - pos,
{
    if pos < s.len() && s[pos as int] != END_BYTE {
        match spec_instr(s, pos) {
            Ok((p2, _)) => {
                if pos < p2 <= s.len() {
                    lemma_expr_never_else(s, p2);
                }
            },
            Err(_) => {},
        }
    }
}

/// Decodes the expression at the head of `bytes`: the instruction sequence up
/// to a terminating `end`, which is consumed but not part of the sequence.
/// On success, the remaining bytes and the sequence.
pub fn decode_expression<'a>(bytes: &'a [u8]) -> (r: Result<
    (&'a [u8], Vec<Instruction>),
    ParserError,
>)
    ensures
        match r {
            Ok((rest, v)) => spec_expr(bytes@, 0, false) == Ok::<
                (nat, Seq<SpecInstruction>, bool),
                ParserError,
            >(((bytes@.len() - rest@.len()) as nat, instrs_view(v), false)) && rest@
                == bytes@.subrange(bytes@.len() - rest@.len(), bytes@.len() as int),
            Err(e) => spec_expr(bytes@, 0, false) == Err::<
                (nat, Seq<SpecInstruction>, bool),
                ParserError,
            >(e),
        },
{
    proof {
        lemma_expr_never_else(bytes@, 0);
    }
    match expression_at(bytes, 0, false) {
        Err(e) => Err(e),
        Ok((p, v, _)) => Ok((slice_subrange(bytes, p, bytes.len()), v)),
    }
}

} // verus!
