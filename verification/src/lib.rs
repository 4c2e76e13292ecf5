//! A decoder for the WebAssembly instruction format, together with the typed
//! operand stack an execution engine drives while evaluating the decoded
//! instructions.
//!
//! The decoder turns a byte slice into a tree of [`instruction::Instruction`]
//! values by recursive descent: opcode bytes are resolved against closed
//! tables, every integer immediate is read with the LEB128 variable-length
//! encoding, and the structured control constructs (`block`, `loop`, `if`)
//! carry their nested bodies. Each step of the decoder is specified against a
//! mathematical model of the same grammar, so what a decode call returns is
//! pinned down for every input.

pub mod decoder;
pub mod instruction;
pub mod laws;
pub mod leb128;
pub mod opcodes;
pub mod parser;
pub mod stack;
pub mod types;

