//! Laws of the decoder: what the grammar guarantees across productions.
//! Each proof here states a property of the decode functions that callers
//! may rely on without unfolding the grammar themselves.

use vstd::prelude::*;

use crate::decoder::{
    spec_block_type_at, spec_expr, spec_full_opcode, spec_instr, spec_labels, spec_leb32,
    spec_select_types, ELSE_BYTE, END_BYTE,
};
use crate::instruction::{instrs_view, op_class, spec_nullary, OpClass, SpecInstruction};
use crate::leb128::{
    lemma_spec_leb_ok, lemma_uleb_round_trip, spec_leb, uleb_encode,
};
use crate::opcodes::{spec_extended1, spec_extended2, spec_opcode, Opcode};
use crate::parser::ParserError;
use crate::types::BlockType;
use vstd::arithmetic::power2::{lemma2_to64, pow2};

verus! {

/// An opcode that maps to a no-payload instruction is classified as nullary.
#[verifier::rlimit(100)]
pub proof fn lemma_nullary_class(op: Opcode)
    requires
        spec_nullary(op) is Some,
    ensures
        op_class(op) == OpClass::Nullary,
{
    reveal(spec_nullary);
    reveal(op_class);
}

/// Every byte assigned to a nullary opcode decodes in exactly one byte to the
/// matching no-payload instruction, whatever follows it.
pub proof fn lemma_nullary_one_byte(s: Seq<u8>, pos: nat, op: Opcode, iv: SpecInstruction)
    requires
        pos < s.len(),
        spec_opcode(s[pos as int]) == Some(op),
        spec_nullary(op) == Some(iv),
    ensures
        spec_instr(s, pos) == Ok::<(nat, SpecInstruction), ParserError>((pos + 1, iv)),
{
    lemma_nullary_class(op);
    assert(op != Opcode::ExtendedOpcode1 && op != Opcode::ExtendedOpcode2) by {
        reveal(op_class);
    }
}

/// An expression that begins at or past the end of the buffer is incomplete:
/// a body that runs out of bytes before its end marker yields no partial
/// tree, only the error.
pub proof fn lemma_expr_end_of_input(s: Seq<u8>, pos: nat, allow_else: bool)
    requires
        pos >= s.len(),
    ensures
        spec_expr(s, pos, allow_else) == Err::<(nat, Seq<SpecInstruction>, bool), ParserError>(
            ParserError::Incomplete,
        ),
{
}

/// A successfully decoded expression moved forward and stayed inside the
/// buffer.
pub proof fn lemma_expr_progress(s: Seq<u8>, pos: nat, allow_else: bool)
    ensures
        spec_expr(s, pos, allow_else) matches Ok((p, _, _)) ==> pos < p <= s.len(),
    decreases s.len() - pos,
{
    if pos < s.len() && s[pos as int] != END_BYTE && !(allow_else && s[pos as int] == ELSE_BYTE) {
        match spec_instr(s, pos) {
            Ok((p2, _)) => {
                if pos < p2 <= s.len() {
                    lemma_expr_progress(s, p2, allow_else);
                }
            },
            Err(_) => {},
        }
    }
}

/// A block, loop or if whose block type was read propagates its body's
/// failure unchanged: when the nested expression fails — in particular with
/// `Incomplete`, its bytes exhausted before an `end` — the whole instruction
/// fails with that same error.
pub proof fn lemma_structured_propagates_failure(
    s: Seq<u8>,
    pos: nat,
    op: Opcode,
    p2: nat,
    bt: BlockType,
    e: ParserError,
)
    requires
        pos < s.len(),
        spec_opcode(s[pos as int]) == Some(op),
        op_class(op) == OpClass::BlockOp || op_class(op) == OpClass::LoopOp || op_class(op)
            == OpClass::IfOp,
        spec_block_type_at(s, pos + 1) == Ok::<(nat, BlockType), ParserError>((p2, bt)),
        spec_expr(s, p2, op_class(op) == OpClass::IfOp) == Err::<
            (nat, Seq<SpecInstruction>, bool),
            ParserError,
        >(e),
    ensures
        spec_instr(s, pos) == Err::<(nat, SpecInstruction), ParserError>(e),
{
    assert(op != Opcode::ExtendedOpcode1 && op != Opcode::ExtendedOpcode2) by {
        reveal(op_class);
    }
    match spec_leb(s, pos + 1, 33, true) {
        Ok((p, v)) => {
            lemma_spec_leb_ok(s, pos + 1, 33, true, p, v);
        },
        Err(_) => {},
    }
}

/// An if is decoded as `IfElse` exactly when its first body ends at an
/// `else`, and as plain `If` when it ends at an `end`; an else branch still
/// needs its own closing `end`, whose absence fails the whole instruction.
pub proof fn lemma_if_dispatch(
    s: Seq<u8>,
    pos: nat,
    p2: nat,
    bt: BlockType,
    p3: nat,
    body: Seq<SpecInstruction>,
    saw_else: bool,
)
    requires
        pos < s.len(),
        spec_opcode(s[pos as int]) == Some(Opcode::If),
        spec_block_type_at(s, pos + 1) == Ok::<(nat, BlockType), ParserError>((p2, bt)),
        spec_expr(s, p2, true) == Ok::<(nat, Seq<SpecInstruction>, bool), ParserError>(
            (p3, body, saw_else),
        ),
    ensures
        !saw_else ==> spec_instr(s, pos) == Ok::<(nat, SpecInstruction), ParserError>(
            (p3, SpecInstruction::If(bt, body)),
        ),
        saw_else ==> spec_instr(s, pos) == (match spec_expr(s, p3, false) {
            Ok((p4, else_body, _)) => Ok::<(nat, SpecInstruction), ParserError>(
                (p4, SpecInstruction::IfElse(bt, body, else_body)),
            ),
            Err(e) => Err(e),
        }),
{
    assert(op_class(Opcode::If) == OpClass::IfOp && Opcode::If != Opcode::ExtendedOpcode1
        && Opcode::If != Opcode::ExtendedOpcode2) by {
        reveal(op_class);
    }
    match spec_leb(s, pos + 1, 33, true) {
        Ok((p, v)) => {
            lemma_spec_leb_ok(s, pos + 1, 33, true, p, v);
        },
        Err(_) => {},
    }
    lemma_expr_progress(s, p2, true);
}

/// A successful 32-bit read moved forward and stayed inside the buffer.
pub proof fn lemma_leb32_progress(s: Seq<u8>, pos: nat)
    ensures
        spec_leb32(s, pos) matches Ok((p, _)) ==> pos < p <= s.len(),
{
    match spec_leb(s, pos, 32, false) {
        Ok((p, v)) => {
            lemma_spec_leb_ok(s, pos, 32, false, p, v);
        },
        Err(_) => {},
    }
}

/// A successful label read stayed inside the buffer.
pub proof fn lemma_labels_bounds(s: Seq<u8>, pos: nat, n: nat)
    requires
        pos <= s.len(),
    ensures
        spec_labels(s, pos, n) matches Ok((p, _)) ==> pos <= p <= s.len(),
    decreases n,
{
    if n > 0 {
        lemma_leb32_progress(s, pos);
        match spec_leb32(s, pos) {
            Ok((p2, _)) => {
                lemma_labels_bounds(s, p2, (n - 1) as nat);
            },
            Err(_) => {},
        }
    }
}

/// A successful value-type read stayed inside the buffer.
pub proof fn lemma_select_types_bounds(s: Seq<u8>, pos: nat, n: nat)
    requires
        pos <= s.len(),
    ensures
        spec_select_types(s, pos, n) matches Ok((p, _)) ==> pos <= p <= s.len(),
    decreases n,
{
    if n > 0 && pos < s.len() {
        lemma_select_types_bounds(s, pos + 1, (n - 1) as nat);
    }
}

/// Forward progress: a successfully decoded instruction consumed at least
/// one byte and stayed inside the buffer. Every recursive descent into a
/// nested body therefore moves forward, so malformed input fails rather than
/// loop.
#[verifier::rlimit(100)]
pub proof fn lemma_instr_progress(s: Seq<u8>, pos: nat)
    ensures
        spec_instr(s, pos) matches Ok((p, _)) ==> pos < p <= s.len(),
{
    if pos < s.len() {
        match spec_full_opcode(s, pos) {
            Err(_) => {},
            Ok((p1, fop)) => {
                lemma_leb32_progress(s, pos + 1);
                assert(pos < p1 <= s.len());
                lemma_leb32_progress(s, p1);
                match spec_leb32(s, p1) {
                    Ok((p2, count)) => {
                        lemma_leb32_progress(s, p2);
                        lemma_labels_bounds(s, p2, count as nat);
                        lemma_select_types_bounds(s, p2, count as nat);
                        match spec_labels(s, p2, count as nat) {
                            Ok((p3, _)) => {
                                lemma_leb32_progress(s, p3);
                            },
                            Err(_) => {},
                        }
                    },
                    Err(_) => {},
                }
                match spec_leb(s, p1, 32, true) {
                    Ok((p, v)) => {
                        lemma_spec_leb_ok(s, p1, 32, true, p, v);
                    },
                    Err(_) => {},
                }
                match spec_leb(s, p1, 64, true) {
                    Ok((p, v)) => {
                        lemma_spec_leb_ok(s, p1, 64, true, p, v);
                    },
                    Err(_) => {},
                }
                match spec_leb(s, p1, 33, true) {
                    Ok((p, v)) => {
                        lemma_spec_leb_ok(s, p1, 33, true, p, v);
                        lemma_expr_progress(s, p, false);
                        lemma_expr_progress(s, p, true);
                        match spec_expr(s, p, true) {
                            Ok((p3, _, _)) => {
                                lemma_expr_progress(s, p3, false);
                            },
                            Err(_) => {},
                        }
                    },
                    Err(_) => {},
                }
            },
        }
    }
}

/// The concatenation of the canonical encodings of a sequence of values.
pub open spec fn uleb_cat(vals: Seq<u32>) -> Seq<u8>
    decreases vals.len(),
{
    if vals.len() == 0 {
        Seq::empty()
    } else {
        uleb_encode(vals[0] as nat) + uleb_cat(vals.subrange(1, vals.len() as int))
    }
}

/// Reading `vals.len()` labels over their concatenated canonical encodings
/// yields exactly those values and consumes exactly the encodings.
pub proof fn lemma_labels_round_trip(s: Seq<u8>, pos: nat, vals: Seq<u32>)
    requires
        pos + uleb_cat(vals).len() <= s.len(),
        s.subrange(pos as int, (pos + uleb_cat(vals).len()) as int) == uleb_cat(vals),
    ensures
        spec_labels(s, pos, vals.len()) == Ok::<(nat, Seq<u32>), ParserError>(
            ((pos + uleb_cat(vals).len()) as nat, vals),
        ),
    decreases vals.len(),
{
    lemma2_to64();
    if vals.len() == 0 {
        assert(uleb_cat(vals).len() == 0);
        assert(spec_labels(s, pos, 0) == Ok::<(nat, Seq<u32>), ParserError>((pos, Seq::empty())));
        assert(vals =~= Seq::<u32>::empty());
    } else {
        let head = vals[0];
        let tail = vals.subrange(1, vals.len() as int);
        let enc = uleb_encode(head as nat);
        let cat = uleb_cat(vals);
        let tail_cat = uleb_cat(tail);
        assert(cat == enc + tail_cat);
        assert(forall|j: int| 0 <= j < cat.len() ==> s[pos + j] == #[trigger] cat[j]);
        assert(s.subrange(pos as int, (pos + enc.len()) as int) == enc) by {
            assert(forall|j: int|
                0 <= j < enc.len() ==> #[trigger] s.subrange(
                    pos as int,
                    (pos + enc.len()) as int,
                )[j] == cat[j]);
            assert(s.subrange(pos as int, (pos + enc.len()) as int) =~= enc);
        }
        assert((head as nat) < pow2(32));
        lemma_uleb_round_trip(s, pos, head as nat, 32);
        let p2 = pos + enc.len();
        assert(spec_leb32(s, pos) == Ok::<(nat, u32), ParserError>((p2 as nat, head)));
        assert(s.subrange(p2 as int, (p2 + tail_cat.len()) as int) == tail_cat) by {
            assert(forall|j: int|
                0 <= j < tail_cat.len() ==> #[trigger] s.subrange(
                    p2 as int,
                    (p2 + tail_cat.len()) as int,
                )[j] == cat[j + enc.len()]);
            assert(s.subrange(p2 as int, (p2 + tail_cat.len()) as int) =~= tail_cat);
        }
        lemma_labels_round_trip(s, p2 as nat, tail);
        assert(seq![head] + tail =~= vals);
    }
}

/// A branch table whose length prefix says `n` consumes exactly `n + 1`
/// encoded label values after the prefix — the `n` table entries and then the
/// default label — and carries exactly those labels.
pub proof fn lemma_branch_table_consumes(
    s: Seq<u8>,
    pos: nat,
    labels: Seq<u32>,
    default_label: u32,
)
    requires
        pos < s.len(),
        spec_opcode(s[pos as int]) == Some(Opcode::BranchTable),
        ({
            let imm = uleb_encode(labels.len()) + uleb_cat(labels) + uleb_encode(
                default_label as nat,
            );
            pos + 1 + imm.len() <= s.len() && s.subrange(
                pos as int + 1,
                pos as int + 1 + imm.len() as int,
            ) == imm
        }),
        labels.len() < 0x1_0000_0000,
    ensures
        spec_instr(s, pos) == Ok::<(nat, SpecInstruction), ParserError>(
            (
                (pos + 1 + uleb_encode(labels.len()).len() + uleb_cat(labels).len() + uleb_encode(
                    default_label as nat,
                ).len()) as nat,
                SpecInstruction::BranchTable(labels, default_label),
            ),
        ),
{
    lemma2_to64();
    assert(op_class(Opcode::BranchTable) == OpClass::BrTable && Opcode::BranchTable
        != Opcode::ExtendedOpcode1 && Opcode::BranchTable != Opcode::ExtendedOpcode2) by {
        reveal(op_class);
    }
    let p1 = pos + 1;
    let cnt_enc = uleb_encode(labels.len());
    let cat = uleb_cat(labels);
    let def_enc = uleb_encode(default_label as nat);
    let imm = cnt_enc + cat + def_enc;
    assert(forall|j: int| 0 <= j < imm.len() ==> s[p1 + j] == #[trigger] imm[j]);
    // The length prefix.
    assert(s.subrange(p1 as int, (p1 + cnt_enc.len()) as int) == cnt_enc) by {
        assert(forall|j: int|
            0 <= j < cnt_enc.len() ==> #[trigger] s.subrange(
                p1 as int,
                (p1 + cnt_enc.len()) as int,
            )[j] == imm[j]);
        assert(s.subrange(p1 as int, (p1 + cnt_enc.len()) as int) =~= cnt_enc);
    }
    lemma_uleb_round_trip(s, p1, labels.len(), 32);
    let p2 = p1 + cnt_enc.len();
    assert(spec_leb32(s, p1) == Ok::<(nat, u32), ParserError>(
        (p2 as nat, labels.len() as u32),
    ));
    // The table entries.
    assert(s.subrange(p2 as int, (p2 + cat.len()) as int) == cat) by {
        assert(forall|j: int|
            0 <= j < cat.len() ==> #[trigger] s.subrange(p2 as int, (p2 + cat.len()) as int)[j]
                == imm[j + cnt_enc.len()]);
        assert(s.subrange(p2 as int, (p2 + cat.len()) as int) =~= cat);
    }
    lemma_labels_round_trip(s, p2 as nat, labels);
    let p3 = p2 + cat.len();
    // The default label.
    assert(s.subrange(p3 as int, (p3 + def_enc.len()) as int) == def_enc) by {
        assert(forall|j: int|
            0 <= j < def_enc.len() ==> #[trigger] s.subrange(
                p3 as int,
                (p3 + def_enc.len()) as int,
            )[j] == imm[j + cnt_enc.len() + cat.len()]);
        assert(s.subrange(p3 as int, (p3 + def_enc.len()) as int) =~= def_enc);
    }
    lemma_uleb_round_trip(s, p3 as nat, default_label as nat, 32);
    assert(spec_leb32(s, p3 as nat) == Ok::<(nat, u32), ParserError>(
        ((p3 + def_enc.len()) as nat, default_label),
    ));
    assert((labels.len() as u32) as nat == labels.len());
}

/// After the first escape byte, a code outside the assigned range of the
/// extended table fails as invalid: it never resolves to an arbitrary
/// operation.
pub proof fn lemma_unassigned_extended1_invalid(s: Seq<u8>, pos: nat, p2: nat, code: u32)
    requires
        pos < s.len(),
        spec_opcode(s[pos as int]) == Some(Opcode::ExtendedOpcode1),
        spec_leb32(s, pos + 1) == Ok::<(nat, u32), ParserError>((p2, code)),
        spec_extended1(code) is None,
    ensures
        spec_instr(s, pos) == Err::<(nat, SpecInstruction), ParserError>(ParserError::Invalid),
{
}

/// After the second escape byte, any code fails as invalid: an unassigned
/// code never resolves, and the vector operations, though they resolve in the
/// table, carry immediates this decoder does not model.
pub proof fn lemma_extended2_invalid(s: Seq<u8>, pos: nat, p2: nat, code: u32)
    requires
        pos < s.len(),
        spec_opcode(s[pos as int]) == Some(Opcode::ExtendedOpcode2),
        spec_leb32(s, pos + 1) == Ok::<(nat, u32), ParserError>((p2, code)),
    ensures
        spec_instr(s, pos) == Err::<(nat, SpecInstruction), ParserError>(ParserError::Invalid),
{
}

} // verus!
