use wasm_decoder::decoder::{decode_expression, decode_instruction, resolve_opcode};
use wasm_decoder::instruction::Instruction;
use wasm_decoder::opcodes::{
    extended1_from_code, extended2_from_code, opcode_from_byte, ExtendedOpcode1, ExtendedOpcode2,
    FullOpcode, Opcode,
};
use wasm_decoder::parser::ParserError;
use wasm_decoder::types::{BlockType, RefType, ValueType};

#[test]
fn nullary_opcodes_consume_one_byte() {
    let cases: [(u8, Instruction); 6] = [
        (0x00, Instruction::Unreachable),
        (0x01, Instruction::Nop),
        (0x0F, Instruction::Return),
        (0x1A, Instruction::Drop),
        (0x45, Instruction::I32EqualZero),
        (0x6A, Instruction::I32Add),
    ];
    for (byte, expected) in cases {
        let buf = [byte, 0x55];
        let (rest, instr) = decode_instruction(&buf).unwrap();
        assert_eq!(instr, expected);
        assert_eq!(rest, &[0x55]);
    }
}

#[test]
fn unassigned_byte_is_invalid() {
    for byte in [0x06u8, 0x12, 0x1D, 0x27, 0xC5, 0xD3, 0xFE] {
        let buf = [byte];
        assert_eq!(decode_instruction(&buf), Err(ParserError::Invalid));
        assert_eq!(opcode_from_byte(byte), None);
    }
}

#[test]
fn const_expression_decodes() {
    // I32Const 5, End.
    let (rest, instrs) = decode_expression(&[0x41, 0x05, 0x0B]).unwrap();
    assert_eq!(instrs, vec![Instruction::I32Const(5)]);
    assert!(rest.is_empty());
}

#[test]
fn block_expression_decodes() {
    // Block, blocktype Empty, Nop, End, End.
    let (rest, instrs) = decode_expression(&[0x02, 0x40, 0x01, 0x0B, 0x0B]).unwrap();
    assert_eq!(
        instrs,
        vec![Instruction::Block(
            BlockType::Value(ValueType::Empty),
            vec![Instruction::Nop]
        )]
    );
    assert!(rest.is_empty());
}

#[test]
fn unterminated_block_is_incomplete() {
    // A block whose body runs out of bytes before an End.
    assert_eq!(
        decode_instruction(&[0x02, 0x40, 0x01]),
        Err(ParserError::Incomplete)
    );
    assert_eq!(decode_instruction(&[0x03, 0x40]), Err(ParserError::Incomplete));
    assert_eq!(
        decode_instruction(&[0x04, 0x40, 0x45]),
        Err(ParserError::Incomplete)
    );
    assert_eq!(decode_expression(&[]), Err(ParserError::Incomplete));
    assert_eq!(decode_expression(&[0x01]), Err(ParserError::Incomplete));
}

#[test]
fn if_without_else() {
    let (rest, instr) = decode_instruction(&[0x04, 0x40, 0x01, 0x0B]).unwrap();
    assert_eq!(
        instr,
        Instruction::If(BlockType::Value(ValueType::Empty), vec![Instruction::Nop])
    );
    assert!(rest.is_empty());
}

#[test]
fn if_with_else() {
    let (rest, instr) = decode_instruction(&[0x04, 0x40, 0x01, 0x05, 0x1A, 0x0B]).unwrap();
    assert_eq!(
        instr,
        Instruction::IfElse(
            BlockType::Value(ValueType::Empty),
            vec![Instruction::Nop],
            vec![Instruction::Drop]
        )
    );
    assert!(rest.is_empty());
}

#[test]
fn if_else_requires_final_end() {
    // The else branch still needs its own End.
    assert_eq!(
        decode_instruction(&[0x04, 0x40, 0x01, 0x05, 0x1A]),
        Err(ParserError::Incomplete)
    );
}

#[test]
fn branch_table_reads_labels_and_default() {
    // Count 2, labels 0 and 1, default 3: exactly count + 1 values after the
    // length prefix.
    let (rest, instr) = decode_instruction(&[0x0E, 0x02, 0x00, 0x01, 0x03]).unwrap();
    assert_eq!(instr, Instruction::BranchTable(vec![0, 1], 3));
    assert!(rest.is_empty());
    // An empty table still reads its default label.
    let (rest2, instr2) = decode_instruction(&[0x0E, 0x00, 0x07]).unwrap();
    assert_eq!(instr2, Instruction::BranchTable(vec![], 7));
    assert!(rest2.is_empty());
    // A missing label is incomplete.
    assert_eq!(
        decode_instruction(&[0x0E, 0x02, 0x00]),
        Err(ParserError::Incomplete)
    );
}

#[test]
fn extended1_unassigned_code_is_invalid() {
    // Code 18 is just past the assigned range.
    assert_eq!(decode_instruction(&[0xFC, 0x12]), Err(ParserError::Invalid));
    assert_eq!(extended1_from_code(18), None);
    // A huge code does not alias a small one.
    assert_eq!(
        decode_instruction(&[0xFC, 0x80, 0x80, 0x80, 0x80, 0x10]),
        Err(ParserError::Invalid)
    );
}

#[test]
fn extended1_saturating_conversion_decodes() {
    let (rest, instr) = decode_instruction(&[0xFC, 0x00]).unwrap();
    assert_eq!(instr, Instruction::I32TruncateSaturatingF32S);
    assert!(rest.is_empty());
    assert_eq!(
        extended1_from_code(0),
        Some(ExtendedOpcode1::I32TruncateSaturatingF32S)
    );
}

#[test]
fn extended1_bulk_memory_ops() {
    let (_, instr) = decode_instruction(&[0xFC, 0x0A, 0x00, 0x00]).unwrap();
    assert_eq!(instr, Instruction::MemoryCopy);
    let (_, instr) = decode_instruction(&[0xFC, 0x0B, 0x00]).unwrap();
    assert_eq!(instr, Instruction::MemoryFill);
    let (_, instr) = decode_instruction(&[0xFC, 0x09, 0x01]).unwrap();
    assert_eq!(instr, Instruction::DataDrop(1));
    let (_, instr) = decode_instruction(&[0xFC, 0x08, 0x02, 0x00]).unwrap();
    assert_eq!(instr, Instruction::MemoryInit(2));
    let (_, instr) = decode_instruction(&[0xFC, 0x0C, 0x03, 0x04]).unwrap();
    assert_eq!(instr, Instruction::TableInit(3, 4));
    let (_, instr) = decode_instruction(&[0xFC, 0x11, 0x06]).unwrap();
    assert_eq!(instr, Instruction::TableFill(6));
}

#[test]
fn extended2_codes_resolve_but_do_not_decode() {
    // The vector table resolves its codes...
    assert_eq!(extended2_from_code(12), Some(ExtendedOpcode2::V128Const));
    assert_eq!(
        resolve_opcode(&[0xFD, 0x0C], 0),
        Ok((2, FullOpcode::Extended2(ExtendedOpcode2::V128Const)))
    );
    // ...but vector immediates are not modeled: decoding fails rather than
    // desynchronize.
    assert_eq!(decode_instruction(&[0xFD, 0x0C]), Err(ParserError::Invalid));
    // An unassigned vector code never resolves to anything: 165 falls in a
    // gap of the table, 256 past its end.
    assert_eq!(extended2_from_code(165), None);
    assert_eq!(
        decode_instruction(&[0xFD, 0xA5, 0x01]),
        Err(ParserError::Invalid)
    );
    assert_eq!(extended2_from_code(256), None);
    assert_eq!(
        decode_instruction(&[0xFD, 0x80, 0x02]),
        Err(ParserError::Invalid)
    );
}

#[test]
fn memory_access_reads_align_and_offset() {
    let (rest, instr) = decode_instruction(&[0x28, 0x02, 0x10]).unwrap();
    assert_eq!(instr, Instruction::I32Load(2, 16));
    assert!(rest.is_empty());
    let (_, instr) = decode_instruction(&[0x3E, 0x00, 0x04]).unwrap();
    assert_eq!(instr, Instruction::I64Store32(0, 4));
}

#[test]
fn index_immediates() {
    let (_, instr) = decode_instruction(&[0x20, 0x05]).unwrap();
    assert_eq!(instr, Instruction::LocalGet(5));
    let (_, instr) = decode_instruction(&[0x10, 0x80, 0x01]).unwrap();
    assert_eq!(instr, Instruction::Call(128));
    let (_, instr) = decode_instruction(&[0x0C, 0x00]).unwrap();
    assert_eq!(instr, Instruction::Branch(0));
    let (_, instr) = decode_instruction(&[0x11, 0x01, 0x00]).unwrap();
    assert_eq!(instr, Instruction::CallIndirect(1, 0));
}

#[test]
fn constants_decode() {
    let (_, instr) = decode_instruction(&[0x41, 0x7F]).unwrap();
    assert_eq!(instr, Instruction::I32Const(-1));
    let (_, instr) = decode_instruction(&[0x42, 0x2A]).unwrap();
    assert_eq!(instr, Instruction::I64Const(42));
    // 1.0f32 little-endian.
    let (_, instr) = decode_instruction(&[0x43, 0x00, 0x00, 0x80, 0x3F]).unwrap();
    assert_eq!(instr, Instruction::F32Const(f32::to_bits(1.0)));
    // -2.5f64 little-endian.
    let bits = f64::to_bits(-2.5);
    let mut buf = vec![0x44];
    buf.extend_from_slice(&bits.to_le_bytes());
    let (_, instr) = decode_instruction(&buf).unwrap();
    assert_eq!(instr, Instruction::F64Const(bits));
    // A float constant is fixed-width: short bytes are incomplete.
    assert_eq!(
        decode_instruction(&[0x43, 0x00, 0x00, 0x80]),
        Err(ParserError::Incomplete)
    );
}

#[test]
fn typed_select_reads_value_types() {
    let (_, instr) = decode_instruction(&[0x1C, 0x01, 0x7F]).unwrap();
    assert_eq!(instr, Instruction::SelectTyped(vec![ValueType::I32]));
    let (_, instr) = decode_instruction(&[0x1C, 0x02, 0x7E, 0x7D]).unwrap();
    assert_eq!(
        instr,
        Instruction::SelectTyped(vec![ValueType::I64, ValueType::F32])
    );
    // An unassigned type byte is invalid.
    assert_eq!(
        decode_instruction(&[0x1C, 0x01, 0x00]),
        Err(ParserError::Invalid)
    );
    // The untyped select carries nothing.
    let (_, instr) = decode_instruction(&[0x1B]).unwrap();
    assert_eq!(instr, Instruction::Select);
}

#[test]
fn ref_null_reads_reference_type() {
    let (_, instr) = decode_instruction(&[0xD0, 0x70]).unwrap();
    assert_eq!(instr, Instruction::RefNull(RefType::FuncRef));
    let (_, instr) = decode_instruction(&[0xD0, 0x6F]).unwrap();
    assert_eq!(instr, Instruction::RefNull(RefType::ExternRef));
    assert_eq!(decode_instruction(&[0xD0, 0x00]), Err(ParserError::Invalid));
    assert_eq!(decode_instruction(&[0xD0]), Err(ParserError::Incomplete));
}

#[test]
fn memory_size_and_grow_discard_reserved_byte() {
    let (rest, instr) = decode_instruction(&[0x3F, 0x00, 0x0B]).unwrap();
    assert_eq!(instr, Instruction::MemorySize);
    assert_eq!(rest, &[0x0B]);
    let (_, instr) = decode_instruction(&[0x40, 0x00]).unwrap();
    assert_eq!(instr, Instruction::MemoryGrow);
    assert_eq!(decode_instruction(&[0x3F]), Err(ParserError::Incomplete));
}

#[test]
fn nested_blocks_decode() {
    let (_, instr) = decode_instruction(&[0x02, 0x40, 0x02, 0x40, 0x0B, 0x0B]).unwrap();
    assert_eq!(
        instr,
        Instruction::Block(
            BlockType::Value(ValueType::Empty),
            vec![Instruction::Block(BlockType::Value(ValueType::Empty), vec![])]
        )
    );
    let (_, instr) = decode_instruction(&[0x03, 0x40, 0x0B]).unwrap();
    assert_eq!(instr, Instruction::Loop(BlockType::Value(ValueType::Empty), vec![]));
}

#[test]
fn block_types_by_sign() {
    // A non-negative block type is a function-type index.
    let (_, instr) = decode_instruction(&[0x02, 0x05, 0x0B]).unwrap();
    assert_eq!(instr, Instruction::Block(BlockType::Index(5), vec![]));
    // A negative block type names a value type by its low seven bits.
    let (_, instr) = decode_instruction(&[0x02, 0x7F, 0x0B]).unwrap();
    assert_eq!(
        instr,
        Instruction::Block(BlockType::Value(ValueType::I32), vec![])
    );
    // A negative value with no assigned type is invalid.
    assert_eq!(
        decode_instruction(&[0x02, 0x41, 0x0B]),
        Err(ParserError::Invalid)
    );
}

#[test]
fn block_type_from_signed_integer() {
    assert_eq!(BlockType::from_signed(5), Some(BlockType::Index(5)));
    assert_eq!(
        BlockType::from_signed(-64),
        Some(BlockType::Value(ValueType::Empty))
    );
    assert_eq!(
        BlockType::from_signed(-1),
        Some(BlockType::Value(ValueType::I32))
    );
    assert_eq!(BlockType::from_signed(-63), None);
    assert_eq!(BlockType::from_signed(0x1_0000_0000), None);
}

#[test]
fn resolve_opcode_by_codespace() {
    assert_eq!(opcode_from_byte(0x10), Some(Opcode::Call));
    assert_eq!(
        resolve_opcode(&[0x10], 0),
        Ok((1, FullOpcode::OneByte(Opcode::Call)))
    );
    assert_eq!(
        resolve_opcode(&[0xFC, 0x11], 0),
        Ok((2, FullOpcode::Extended1(ExtendedOpcode1::TableFill)))
    );
    assert_eq!(resolve_opcode(&[0xFC], 0), Err(ParserError::Incomplete));
    assert_eq!(resolve_opcode(&[], 0), Err(ParserError::Incomplete));
}

#[test]
fn expression_leaves_trailing_bytes() {
    let (rest, instrs) = decode_expression(&[0x01, 0x0B, 0x41, 0x05]).unwrap();
    assert_eq!(instrs, vec![Instruction::Nop]);
    assert_eq!(rest, &[0x41, 0x05]);
}

#[test]
fn stray_else_outside_if_is_invalid() {
    // An else byte where an instruction is expected closes nothing.
    assert_eq!(decode_expression(&[0x05, 0x0B]), Err(ParserError::Invalid));
}
