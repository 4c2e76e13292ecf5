//! Value types, reference types and block types as they appear in the
//! instruction stream.

use vstd::prelude::*;

verus! {

/// A single value type. On the wire each one is a single byte; `Empty` is the
/// byte that marks a block without a result value.
#[derive(Clone, Copy, Debug, PartialEq, Eq, Structural)]
pub enum ValueType {
    Empty,
    ExternRef,
    FuncRef,
    V128,
    F64,
    F32,
    I64,
    I32,
}

/// The value type a byte stands for; `None` for a byte with no assigned type.
pub open spec fn spec_value_type(b: u8) -> Option<ValueType> {
    match b {
        0x40u8 => Some(ValueType::Empty),
        0x6Fu8 => Some(ValueType::ExternRef),
        0x70u8 => Some(ValueType::FuncRef),
        0x7Bu8 => Some(ValueType::V128),
        0x7Cu8 => Some(ValueType::F64),
        0x7Du8 => Some(ValueType::F32),
        0x7Eu8 => Some(ValueType::I64),
        0x7Fu8 => Some(ValueType::I32),
        _ => None,
    }
}

/// Looks a byte up in the value-type table.
pub fn value_type_from_byte(b: u8) -> (r: Option<ValueType>)
    ensures
        r == spec_value_type(b),
{
    match b {
        0x40u8 => Some(ValueType::Empty),
        0x6Fu8 => Some(ValueType::ExternRef),
        0x70u8 => Some(ValueType::FuncRef),
        0x7Bu8 => Some(ValueType::V128),
        0x7Cu8 => Some(ValueType::F64),
        0x7Du8 => Some(ValueType::F32),
        0x7Eu8 => Some(ValueType::I64),
        0x7Fu8 => Some(ValueType::I32),
        _ => None,
    }
}

/// A reference type, named by one raw byte after `RefNull`.
#[derive(Clone, Copy, Debug, PartialEq, Eq, Structural)]
pub enum RefType {
    ExternRef,
    FuncRef,
}

/// The reference type a byte stands for; `None` for a byte with no assigned
/// reference type.
pub open spec fn spec_ref_type(b: u8) -> Option<RefType> {
    match b {
        0x6Fu8 => Some(RefType::ExternRef),
        0x70u8 => Some(RefType::FuncRef),
        _ => None,
    }
}

/// Looks a byte up in the reference-type table.
pub fn ref_type_from_byte(b: u8) -> (r: Option<RefType>)
    ensures
        r == spec_ref_type(b),
{
    match b {
        0x6Fu8 => Some(RefType::ExternRef),
        0x70u8 => Some(RefType::FuncRef),
        _ => None,
    }
}

/// The type of a structured control construct: either a single value type or
/// an index into a module's type section.
#[derive(Clone, Copy, Debug, PartialEq, Eq, Structural)]
pub enum BlockType {
    Value(ValueType),
    Index(u32),
}

/// The block type selected by a signed 33-bit integer. A negative value names
/// a value type by its low seven bits; a non-negative value is taken as a raw
/// function-type index, which must fit 32 bits. Anything else is unassigned.
pub open spec fn spec_block_type(v: int) -> Option<BlockType> {
    if v < 0 {
        match spec_value_type((v % 128) as u8) {
            Some(vt) => Some(BlockType::Value(vt)),
            None => None,
        }
    } else if v < 0x1_0000_0000 {
        Some(BlockType::Index(v as u32))
    } else {
        None
    }
}

impl BlockType {
    /// Selects the block type encoded by a signed integer, as
    /// `spec_block_type` describes.
    pub fn from_signed(v: i64) -> (r: Option<BlockType>)
        ensures
            r == spec_block_type(v as int),
    {
        if v >= 0 {
            if v < 0x1_0000_0000 {
                Some(BlockType::Index(v as u32))
            } else {
                None
            }
        } else {
            #[verifier::truncate]
            let low = (v as u8) & 0x7F;
            proof {
                assert(v < 0 ==> ((v as u8) & 0x7F) == ((v as int) % 128) as u8) by (bit_vector);
            }
            match value_type_from_byte(low) {
                Some(vt) => Some(BlockType::Value(vt)),
                None => None,
            }
        }
    }
}

} // verus!
