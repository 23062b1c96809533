//! The disassembler.
//!
//! One formatter per instruction family turns an instruction word into the
//! text of a trace line. The text of every instruction is specified as a
//! sequence of characters over the same fields that execution reads.

use vstd::prelude::*;
use crate::encoding::{
    alu_op_of, branch_offset, class, decode_alu_op, decode_family, decode_shift_kind, family_of,
    flag, immediate12, immediate8, opcode, rd, read_flag, read_nibble, read_shift_amount, rm, rn,
    rs, shift_amount, shift_kind_of, AluOp, Family, ShiftKind, ADD_OFFSET_BIT, BYTE_BIT, LINK_BIT,
    LOAD_BIT, OPERAND_BIT, PRE_INDEX_BIT, RD_AT, REGISTER_SHIFT_BIT, RM_AT, RN_AT, RS_AT,
    WRITE_BACK_BIT,
};
use crate::instructions::BRANCH_MASK;
use crate::text::{decimal, hex, push_decimal, push_hex};

verus! {

/// The suffix that a condition field adds to a mnemonic; "always" adds
/// nothing.
pub open spec fn condition_suffix(cond: u32) -> Seq<char> {
    match cond {
        0x0 => "EQ"@,
        0x1 => "NE"@,
        0x2 => "CS"@,
        0x3 => "CC"@,
        0x4 => "MI"@,
        0x5 => "PL"@,
        0x6 => "VS"@,
        0x7 => "VC"@,
        0x8 => "HI"@,
        0x9 => "LS"@,
        0xa => "GE"@,
        0xb => "LT"@,
        0xc => "GT"@,
        0xd => "LE"@,
        0xe => ""@,
        _ => "NV"@,
    }
}

/// The name of a data-processing operation.
pub open spec fn alu_mnemonic(op: AluOp) -> Seq<char> {
    match op {
        AluOp::And => "AND"@,
        AluOp::Eor => "EOR"@,
        AluOp::Sub => "SUB"@,
        AluOp::Rsb => "RSB"@,
        AluOp::Add => "ADD"@,
        AluOp::Adc => "ADC"@,
        AluOp::Sbc => "SBC"@,
        AluOp::Rsc => "RSC"@,
        AluOp::Tst => "TST"@,
        AluOp::Teq => "TEQ"@,
        AluOp::Cmp => "CMP"@,
        AluOp::Cmn => "CMN"@,
        AluOp::Orr => "ORR"@,
        AluOp::Mov => "MOV"@,
        AluOp::Bic => "BIC"@,
        AluOp::Mvn => "MVN"@,
    }
}

/// The name of a shift, as the barrel shifter performs it.
pub open spec fn shift_mnemonic(kind: ShiftKind) -> Seq<char> {
    match kind {
        ShiftKind::LogicalLeft => "LSL"@,
        ShiftKind::ArithmeticRight => "ASR"@,
        ShiftKind::LogicalRight => "LSR"@,
        ShiftKind::RotateRight => "ROR"@,
    }
}

/// `R` and the register's number.
pub open spec fn register_name(reg: u32) -> Seq<char> {
    "R"@ + decimal(reg as nat)
}

// Data processing

/// The rotation of an immediate operand, where there is one.
pub open spec fn rotation_text(word: u32) -> Seq<char> {
    if rs(word) > 0 {
        " ROR "@ + decimal((2 * rs(word)) as nat)
    } else {
        Seq::empty()
    }
}

/// The amount of a register operand's shift.
pub open spec fn shift_amount_text(word: u32) -> Seq<char> {
    if flag(word, REGISTER_SHIFT_BIT) {
        register_name(rs(word))
    } else {
        "#"@ + decimal(shift_amount(word) as nat)
    }
}

/// The second operand of a data-processing instruction.
pub open spec fn alu_operand_text(word: u32) -> Seq<char> {
    if flag(word, OPERAND_BIT) {
        "#"@ + decimal(immediate8(word) as nat) + rotation_text(word)
    } else {
        register_name(rm(word)) + " "@ + shift_mnemonic(shift_kind_of(word)) + " "@
            + shift_amount_text(word)
    }
}

/// A data-processing instruction: `ADDEQ R0, R1, #4`.
pub open spec fn alu_text(cond: Seq<char>, word: u32) -> Seq<char> {
    alu_mnemonic(alu_op_of(opcode(word))) + cond + " "@ + register_name(rd(word)) + ", "@
        + register_name(rn(word)) + ", "@ + alu_operand_text(word)
}

// Single data transfer

/// The sign of a transfer's offset.
pub open spec fn sign_text(word: u32) -> Seq<char> {
    if flag(word, ADD_OFFSET_BIT) {
        Seq::empty()
    } else {
        "-"@
    }
}

/// The mark of a requested write-back.
pub open spec fn write_back_text(word: u32) -> Seq<char> {
    if flag(word, WRITE_BACK_BIT) {
        "!"@
    } else {
        Seq::empty()
    }
}

/// The shift applied to a transfer's offset register; a shift by nothing
/// is not shown.
pub open spec fn offset_shift_text(word: u32) -> Seq<char> {
    if shift_amount(word) > 0 {
        " "@ + shift_mnemonic(shift_kind_of(word)) + " "@ + decimal(shift_amount(word) as nat)
    } else {
        Seq::empty()
    }
}

/// The signed offset of a transfer.
pub open spec fn offset_text(word: u32) -> Seq<char> {
    if flag(word, OPERAND_BIT) {
        sign_text(word) + register_name(rm(word)) + offset_shift_text(word)
    } else {
        sign_text(word) + decimal(immediate12(word) as nat)
    }
}

/// Whether a transfer shows an offset: a register always, an immediate
/// unless it is zero.
pub open spec fn shows_offset(word: u32) -> bool {
    flag(word, OPERAND_BIT) || immediate12(word) != 0
}

/// The address of a transfer: `[R1, -4]!` pre-indexed, `[R1], -4`
/// post-indexed.
pub open spec fn address_text(word: u32) -> Seq<char> {
    let base = "["@ + register_name(rn(word));
    if flag(word, PRE_INDEX_BIT) {
        if shows_offset(word) {
            base + ", "@ + offset_text(word) + "]"@ + write_back_text(word)
        } else {
            base + "]"@ + write_back_text(word)
        }
    } else {
        if shows_offset(word) {
            base + "], "@ + offset_text(word)
        } else {
            base + "]"@
        }
    }
}

/// `LDR` for a load, `STR` for a store.
pub open spec fn transfer_mnemonic(word: u32) -> Seq<char> {
    if flag(word, LOAD_BIT) {
        "LDR"@
    } else {
        "STR"@
    }
}

/// The mark of a byte transfer.
pub open spec fn byte_text(word: u32) -> Seq<char> {
    if flag(word, BYTE_BIT) {
        "B"@
    } else {
        Seq::empty()
    }
}

/// A single data transfer: `LDRB R0, [R1, -4]!`.
pub open spec fn transfer_text(cond: Seq<char>, word: u32) -> Seq<char> {
    transfer_mnemonic(word) + cond + byte_text(word) + " "@ + register_name(rd(word)) + ", "@
        + address_text(word)
}

// Branch

/// Where a branch fetched at `address` lands.
pub open spec fn branch_destination(address: u32, word: u32) -> u32 {
    address.wrapping_add(branch_offset(word)).wrapping_add(8) & BRANCH_MASK
}

/// A branch: `B $8000`, or `BL 8000` with link.
pub open spec fn branch_text(address: u32, cond: Seq<char>, word: u32) -> Seq<char> {
    if flag(word, LINK_BIT) {
        "BL"@ + cond + " "@ + hex(branch_destination(address, word) as nat)
    } else {
        "B"@ + cond + " $"@ + hex(branch_destination(address, word) as nat)
    }
}

// Dispatch

/// An instruction of a family without a formatter.
pub open spec fn unimplemented_text(cond: Seq<char>) -> Seq<char> {
    "..."@ + cond
}

/// The text of `word`, fetched at `address`, with the suffix `cond`.
pub open spec fn instruction_text(address: u32, cond: Seq<char>, word: u32) -> Seq<char> {
    match family_of(class(word)) {
        Family::DataProcessing => alu_text(cond, word),
        Family::SingleDataTransfer => transfer_text(cond, word),
        Family::Branch => branch_text(address, cond, word),
        Family::Unimplemented => unimplemented_text(cond),
    }
}

/// The entry of the suffix table for `cond`.
fn condition_str(cond: u8) -> (suffix: &'static str)
    ensures
        suffix@ == condition_suffix(cond as u32),
{
    match cond {
        0x0 => "EQ",
        0x1 => "NE",
        0x2 => "CS",
        0x3 => "CC",
        0x4 => "MI",
        0x5 => "PL",
        0x6 => "VS",
        0x7 => "VC",
        0x8 => "HI",
        0x9 => "LS",
        0xa => "GE",
        0xb => "LT",
        0xc => "GT",
        0xd => "LE",
        0xe => "",
        _ => "NV",
    }
}

/// The entry of the mnemonic table for `op`.
fn alu_str(op: AluOp) -> (mnemonic: &'static str)
    ensures
        mnemonic@ == alu_mnemonic(op),
{
    match op {
        AluOp::And => "AND",
        AluOp::Eor => "EOR",
        AluOp::Sub => "SUB",
        AluOp::Rsb => "RSB",
        AluOp::Add => "ADD",
        AluOp::Adc => "ADC",
        AluOp::Sbc => "SBC",
        AluOp::Rsc => "RSC",
        AluOp::Tst => "TST",
        AluOp::Teq => "TEQ",
        AluOp::Cmp => "CMP",
        AluOp::Cmn => "CMN",
        AluOp::Orr => "ORR",
        AluOp::Mov => "MOV",
        AluOp::Bic => "BIC",
        AluOp::Mvn => "MVN",
    }
}

/// The entry of the shift name table for `kind`.
fn shift_str(kind: ShiftKind) -> (mnemonic: &'static str)
    ensures
        mnemonic@ == shift_mnemonic(kind),
{
    match kind {
        ShiftKind::LogicalLeft => "LSL",
        ShiftKind::ArithmeticRight => "ASR",
        ShiftKind::LogicalRight => "LSR",
        ShiftKind::RotateRight => "ROR",
    }
}

/// Appends the name of register `reg`.
fn push_register(out: &mut String, reg: u32)
    ensures
        final(out)@ == old(out)@ + register_name(reg),
{
    out.append("R");
    push_decimal(out, reg);
}

/// The text of `instruction`, fetched at `address`, under condition `cond`.
pub fn format(address: u32, cond: u8, instruction: u32) -> (text: String)
    requires
        cond < 16,
    ensures
        text@ == instruction_text(address, condition_suffix(cond as u32), instruction),
{
    let cond_string = condition_str(cond);
    match decode_family(instruction) {
        Family::DataProcessing => format_alu(address, cond_string, instruction),
        Family::SingleDataTransfer => format_ldr_str(address, cond_string, instruction),
        Family::Branch => format_branch(address, cond_string, instruction),
        Family::Unimplemented => format_unimplemented(address, cond_string, instruction),
    }
}

/// Formats a branch fetched at `address`.
pub fn format_branch(address: u32, cond: &str, instruction: u32) -> (text: String)
    ensures
        text@ == branch_text(address, cond@, instruction),
{
    let offset = (instruction & 0x00ff_ffff) << 2;
    let dest = address.wrapping_add(offset).wrapping_add(8) & BRANCH_MASK;

    let mut text = String::new();
    if read_flag(instruction, LINK_BIT) {
        text.append("BL");
        text.append(cond);
        text.append(" ");
    } else {
        text.append("B");
        text.append(cond);
        text.append(" $");
    }
    push_hex(&mut text, dest);
    text
}

/// Appends the second operand of a data-processing instruction.
fn push_alu_operand(out: &mut String, instruction: u32)
    ensures
        final(out)@ == old(out)@ + alu_operand_text(instruction),
{
    if read_flag(instruction, OPERAND_BIT) {
        let value = instruction & 0xff;
        let rotate = read_nibble(instruction, RS_AT) * 2;
        out.append("#");
        push_decimal(out, value);
        if rotate > 0 {
            out.append(" ROR ");
            push_decimal(out, rotate);
        }
    } else {
        push_register(out, read_nibble(instruction, RM_AT));
        out.append(" ");
        out.append(shift_str(decode_shift_kind(instruction)));
        out.append(" ");
        if read_flag(instruction, REGISTER_SHIFT_BIT) {
            push_register(out, read_nibble(instruction, RS_AT));
        } else {
            out.append("#");
            push_decimal(out, read_shift_amount(instruction));
        }
    }
}

/// Formats a data-processing instruction.
pub fn format_alu(address: u32, cond: &str, instruction: u32) -> (text: String)
    ensures
        text@ == alu_text(cond@, instruction),
{
    let mut text = String::new();
    text.append(alu_str(decode_alu_op(instruction)));
    text.append(cond);
    text.append(" ");
    push_register(&mut text, read_nibble(instruction, RD_AT));
    text.append(", ");
    push_register(&mut text, read_nibble(instruction, RN_AT));
    text.append(", ");
    push_alu_operand(&mut text, instruction);
    text
}

/// Appends the signed offset of a transfer.
fn push_offset(out: &mut String, instruction: u32)
    ensures
        final(out)@ == old(out)@ + offset_text(instruction),
{
    if !read_flag(instruction, ADD_OFFSET_BIT) {
        out.append("-");
    }
    if read_flag(instruction, OPERAND_BIT) {
        let amount = read_shift_amount(instruction);
        push_register(out, read_nibble(instruction, RM_AT));
        if amount > 0 {
            out.append(" ");
            out.append(shift_str(decode_shift_kind(instruction)));
            out.append(" ");
            push_decimal(out, amount);
        }
    } else {
        push_decimal(out, instruction & 0xfff);
    }
}

/// Appends the address of a transfer.
fn push_address(out: &mut String, instruction: u32)
    ensures
        final(out)@ == old(out)@ + address_text(instruction),
{
    let pre_indexing = read_flag(instruction, PRE_INDEX_BIT);
    let shows = read_flag(instruction, OPERAND_BIT) || (instruction & 0xfff) != 0;

    out.append("[");
    push_register(out, read_nibble(instruction, RN_AT));
    if pre_indexing {
        if shows {
            out.append(", ");
            push_offset(out, instruction);
        }
        out.append("]");
        if read_flag(instruction, WRITE_BACK_BIT) {
            out.append("!");
        }
    } else {
        if shows {
            out.append("], ");
            push_offset(out, instruction);
        } else {
            out.append("]");
        }
    }
}

/// Formats a single data transfer.
pub fn format_ldr_str(address: u32, cond: &str, instruction: u32) -> (text: String)
    ensures
        text@ == transfer_text(cond@, instruction),
{
    let mut text = String::new();
    if read_flag(instruction, LOAD_BIT) {
        text.append("LDR");
    } else {
        text.append("STR");
    }
    text.append(cond);
    if read_flag(instruction, BYTE_BIT) {
        text.append("B");
    }
    text.append(" ");
    push_register(&mut text, read_nibble(instruction, RD_AT));
    text.append(", ");
    push_address(&mut text, instruction);
    text
}

/// Formats an instruction of a family without a formatter.
pub fn format_unimplemented(address: u32, cond: &str, instruction: u32) -> (text: String)
    ensures
        text@ == unimplemented_text(cond@),
{
    let mut text = String::new();
    text.append("...");
    text.append(cond);
    text
}

} // verus!
