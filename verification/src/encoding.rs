//! How an instruction word is cut into fields.
//!
//! Execution and disassembly both read an instruction through the
//! functions of this file, so a trace line always describes what was
//! executed.

use vstd::prelude::*;

verus! {

/// The four bits of `word` that start at bit `low`.
pub open spec fn nibble(word: u32, low: u32) -> u32 {
    (word >> low) & 0xf
}

/// Whether bit `n` of `word` is set.
pub open spec fn flag(word: u32, n: u32) -> bool {
    (word >> n) & 1 != 0
}

/// Bit 25: the second operand of a data-processing instruction is an
/// immediate; the offset of a transfer is a shifted register.
pub const OPERAND_BIT: u32 = 25;

/// Bit 24 of a transfer: the offset is applied before the access.
pub const PRE_INDEX_BIT: u32 = 24;

/// Bit 24 of a branch: r14 receives the return address.
pub const LINK_BIT: u32 = 24;

/// Bit 23 of a transfer: the offset is added rather than subtracted.
pub const ADD_OFFSET_BIT: u32 = 23;

/// Bit 22 of a transfer: one byte moves rather than a word.
pub const BYTE_BIT: u32 = 22;

/// Bit 21 of a transfer: the base register is updated.
pub const WRITE_BACK_BIT: u32 = 21;

/// Bit 20 of a transfer: memory is read rather than written.
pub const LOAD_BIT: u32 = 20;

/// Bit 20 of a data-processing instruction: the operation sets the
/// condition flags. Reserved; no operation updates the flags.
pub const SET_FLAGS_BIT: u32 = 20;

/// Bit 4 of a register operand: the shift amount comes from a register.
pub const REGISTER_SHIFT_BIT: u32 = 4;

/// Lowest bit of the class field, bits [27:24].
pub const CLASS_AT: u32 = 24;

/// Lowest bit of the opcode field, bits [24:21].
pub const OPCODE_AT: u32 = 21;

/// Lowest bit of the field that names Rn, bits [19:16].
pub const RN_AT: u32 = 16;

/// Lowest bit of the field that names Rd, bits [15:12].
pub const RD_AT: u32 = 12;

/// Lowest bit of the field that names Rs, bits [11:8].
pub const RS_AT: u32 = 8;

/// Lowest bit of the field that names Rm, bits [3:0].
pub const RM_AT: u32 = 0;

/// Bits [31:28]: the condition under which the instruction executes.
pub open spec fn condition(word: u32) -> u32 {
    word >> 28
}

/// Bits [27:24]: the index into the dispatch tables.
pub open spec fn class(word: u32) -> u32 {
    nibble(word, CLASS_AT)
}

/// Bits [24:21]: the data-processing operation.
pub open spec fn opcode(word: u32) -> u32 {
    nibble(word, OPCODE_AT)
}

/// Bits [19:16]: first operand register, or base register of a transfer.
pub open spec fn rn(word: u32) -> u32 {
    nibble(word, RN_AT)
}

/// Bits [15:12]: destination register, or the register transferred.
pub open spec fn rd(word: u32) -> u32 {
    nibble(word, RD_AT)
}

/// Bits [11:8]: the register that holds a shift amount, or the rotation
/// of an immediate operand in units of two bits.
pub open spec fn rs(word: u32) -> u32 {
    nibble(word, RS_AT)
}

/// Bits [3:0]: the register that the barrel shifter reads.
pub open spec fn rm(word: u32) -> u32 {
    nibble(word, RM_AT)
}

/// Bits [11:7]: a shift amount given in the instruction.
pub open spec fn shift_amount(word: u32) -> u32 {
    (word >> 7) & 0x1f
}

/// Bits [7:0]: an immediate data-processing operand before rotation.
pub open spec fn immediate8(word: u32) -> u32 {
    word & 0xff
}

/// Bits [11:0]: an immediate transfer offset.
pub open spec fn immediate12(word: u32) -> u32 {
    word & 0xfff
}

/// Bits [23:0], in words, as a byte offset.
pub open spec fn branch_offset(word: u32) -> u32 {
    (word & 0x00ff_ffff) << 2
}

/// The execution units, and the indices that have none.
#[derive(Clone, Copy, Debug, PartialEq, Eq)]
pub enum Family {
    DataProcessing,
    SingleDataTransfer,
    Branch,
    Unimplemented,
}

/// The dispatch table: one entry for each value of bits [27:24].
pub open spec fn family_of(class: u32) -> Family {
    match class {
        0x0 => Family::DataProcessing,
        0x1 => Family::DataProcessing,
        0x2 => Family::DataProcessing,
        0x3 => Family::DataProcessing,
        0x4 => Family::SingleDataTransfer,
        0x5 => Family::SingleDataTransfer,
        0x6 => Family::SingleDataTransfer,
        0x7 => Family::SingleDataTransfer,
        0x8 => Family::Unimplemented,
        0x9 => Family::Unimplemented,
        0xa => Family::Branch,
        0xb => Family::Branch,
        0xc => Family::Unimplemented,
        0xd => Family::Unimplemented,
        0xe => Family::Unimplemented,
        _ => Family::Unimplemented,
    }
}

/// The sixteen data-processing operations, in opcode order.
#[derive(Clone, Copy, Debug, PartialEq, Eq)]
pub enum AluOp {
    And,
    Eor,
    Sub,
    Rsb,
    Add,
    Adc,
    Sbc,
    Rsc,
    Tst,
    Teq,
    Cmp,
    Cmn,
    Orr,
    Mov,
    Bic,
    Mvn,
}

/// The operation table: one entry for each value of bits [24:21].
pub open spec fn alu_op_of(opcode: u32) -> AluOp {
    match opcode {
        0x0 => AluOp::And,
        0x1 => AluOp::Eor,
        0x2 => AluOp::Sub,
        0x3 => AluOp::Rsb,
        0x4 => AluOp::Add,
        0x5 => AluOp::Adc,
        0x6 => AluOp::Sbc,
        0x7 => AluOp::Rsc,
        0x8 => AluOp::Tst,
        0x9 => AluOp::Teq,
        0xa => AluOp::Cmp,
        0xb => AluOp::Cmn,
        0xc => AluOp::Orr,
        0xd => AluOp::Mov,
        0xe => AluOp::Bic,
        _ => AluOp::Mvn,
    }
}

/// What the barrel shifter does to its input.
#[derive(Clone, Copy, Debug, PartialEq, Eq)]
pub enum ShiftKind {
    LogicalLeft,
    ArithmeticRight,
    LogicalRight,
    RotateRight,
}

/// Bits [6:5]: 00 shifts left, 01 shifts right with sign, 10 shifts right
/// with zeros, 11 rotates right.
pub open spec fn shift_kind_of(word: u32) -> ShiftKind {
    let bits = (word >> 5) & 3;
    if bits == 0 {
        ShiftKind::LogicalLeft
    } else if bits == 1 {
        ShiftKind::ArithmeticRight
    } else if bits == 2 {
        ShiftKind::LogicalRight
    } else {
        ShiftKind::RotateRight
    }
}

/// Every field fits the number of bits it is cut from.
pub proof fn lemma_field_ranges(word: u32)
    ensures
        condition(word) < 16,
        class(word) < 16,
        opcode(word) < 16,
        rn(word) < 16,
        rd(word) < 16,
        rs(word) < 16,
        rm(word) < 16,
        shift_amount(word) < 32,
        immediate8(word) < 0x100,
        immediate12(word) < 0x1000,
        branch_offset(word) <= 0x03ff_fffc,
{
    assert(word >> 28 < 16) by (bit_vector);
    assert(forall|low: u32| #[trigger] ((word >> low) & 0xf) < 16) by (bit_vector);
    assert((word >> 7) & 0x1f < 32) by (bit_vector);
    assert(word & 0xff < 0x100) by (bit_vector);
    assert(word & 0xfff < 0x1000) by (bit_vector);
    assert((word & 0x00ff_ffff) << 2 <= 0x03ff_fffc) by (bit_vector);
}

/// Reads the four bits of `word` that start at bit `low`.
pub fn read_nibble(word: u32, low: u32) -> (value: u32)
    requires
        low < 32,
    ensures
        value == nibble(word, low),
        value < 16,
{
    assert((word >> low) & 0xf < 16) by (bit_vector);
    (word >> low) & 0xf
}

/// Reads bit `n` of `word`.
pub fn read_flag(word: u32, n: u32) -> (set: bool)
    requires
        n < 32,
    ensures
        set == flag(word, n),
{
    (word >> n) & 1 != 0
}

/// Looks the class of `word` up in the dispatch table.
pub fn decode_family(word: u32) -> (family: Family)
    ensures
        family == family_of(class(word)),
{
    match read_nibble(word, CLASS_AT) {
        0x0 => Family::DataProcessing,
        0x1 => Family::DataProcessing,
        0x2 => Family::DataProcessing,
        0x3 => Family::DataProcessing,
        0x4 => Family::SingleDataTransfer,
        0x5 => Family::SingleDataTransfer,
        0x6 => Family::SingleDataTransfer,
        0x7 => Family::SingleDataTransfer,
        0x8 => Family::Unimplemented,
        0x9 => Family::Unimplemented,
        0xa => Family::Branch,
        0xb => Family::Branch,
        0xc => Family::Unimplemented,
        0xd => Family::Unimplemented,
        0xe => Family::Unimplemented,
        _ => Family::Unimplemented,
    }
}

/// The data-processing operation that `word` asks for.
pub fn decode_alu_op(word: u32) -> (op: AluOp)
    ensures
        op == alu_op_of(opcode(word)),
{
    match read_nibble(word, OPCODE_AT) {
        0x0 => AluOp::And,
        0x1 => AluOp::Eor,
        0x2 => AluOp::Sub,
        0x3 => AluOp::Rsb,
        0x4 => AluOp::Add,
        0x5 => AluOp::Adc,
        0x6 => AluOp::Sbc,
        0x7 => AluOp::Rsc,
        0x8 => AluOp::Tst,
        0x9 => AluOp::Teq,
        0xa => AluOp::Cmp,
        0xb => AluOp::Cmn,
        0xc => AluOp::Orr,
        0xd => AluOp::Mov,
        0xe => AluOp::Bic,
        _ => AluOp::Mvn,
    }
}

/// What the barrel shifter is to do for `word`.
pub fn decode_shift_kind(word: u32) -> (kind: ShiftKind)
    ensures
        kind == shift_kind_of(word),
{
    let bits = (word >> 5) & 3;
    if bits == 0 {
        ShiftKind::LogicalLeft
    } else if bits == 1 {
        ShiftKind::ArithmeticRight
    } else if bits == 2 {
        ShiftKind::LogicalRight
    } else {
        ShiftKind::RotateRight
    }
}

/// Reads the shift amount given in `word`.
pub fn read_shift_amount(word: u32) -> (amount: u32)
    ensures
        amount == shift_amount(word),
        amount < 32,
{
    assert((word >> 7) & 0x1f < 32) by (bit_vector);
    (word >> 7) & 0x1f
}

} // verus!
