//! The execution units: branch, data processing and single data transfer.
//!
//! Each unit is specified as a function from the machine before an
//! instruction to the machine after it, and the executable unit is proved
//! to compute exactly that.

use vstd::prelude::*;
use crate::encoding::{
    alu_op_of, branch_offset, class, decode_alu_op, decode_family, decode_shift_kind, family_of,
    flag, immediate12, immediate8, lemma_field_ranges, opcode, rd, read_flag, read_nibble,
    read_shift_amount, rm, rn, rs, shift_amount, shift_kind_of, AluOp, Family, ShiftKind,
    ADD_OFFSET_BIT, BYTE_BIT, CLASS_AT, LINK_BIT, LOAD_BIT, OPCODE_AT, OPERAND_BIT, PRE_INDEX_BIT,
    RD_AT, REGISTER_SHIFT_BIT, RM_AT, RN_AT, RS_AT, SET_FLAGS_BIT, WRITE_BACK_BIT,
};
use crate::fault::Fault;
use crate::memory::{
    after_access, load_byte_result, load_result, store_byte_result, store_result, Memory,
    MemoryState,
};
use crate::registers::{
    lemma_pc_masked_write_keeps_flags_and_mode, read_full, read_pc_masked, write_full,
    write_pc_masked, RegisterFile, LR, PC, PC_MASK, SLOT_COUNT,
};
use crate::shifter::{rotate_right, shift, shifted};

verus! {

/// What an executed instruction did to the instruction stream.
#[derive(Clone, Copy, Debug, PartialEq, Eq)]
pub enum Action {
    /// The program counter was left alone: the next instruction follows.
    Continue,
    /// The program counter was written: prefetched instructions are void.
    Flush,
}

/// The 26-bit address space that a branch target wraps into.
pub const BRANCH_MASK: u32 = 0x03ff_ffff;

/// The machine after a unit ran, with what the unit reported.
pub struct Outcome {
    pub registers: Seq<u32>,
    pub memory: MemoryState,
    pub result: Result<Action, Fault>,
}

/// `Flush` where the instruction wrote the program counter.
pub open spec fn effect_of_writing(reg: u32) -> Action {
    if reg == PC {
        Action::Flush
    } else {
        Action::Continue
    }
}

// Branch

/// Where a branch lands: the offset is added to the program counter as an
/// unsigned quantity and the sum wraps into 26 bits.
pub open spec fn branch_target(pc: u32, word: u32) -> u32 {
    pc.wrapping_add(branch_offset(word)) & BRANCH_MASK
}

/// The registers after a branch: r14 linked where the instruction asks for
/// it, then the address bits of r15 set to the target.
pub open spec fn branch_spec(registers: Seq<u32>, word: u32) -> Seq<u32> {
    let pc = read_pc_masked(registers, PC as int);
    let linked = if flag(word, LINK_BIT) {
        write_full(registers, LR as int, pc)
    } else {
        registers
    };
    write_pc_masked(linked, PC as int, branch_target(pc, word))
}

/// Branch with link. r14, in the bank of the current mode, receives the
/// program counter that the target was computed from; the address bits of
/// r15 receive the target; flags and mode stay. With a zero offset the
/// target is that same program counter.
pub proof fn lemma_branch_with_link(registers: Seq<u32>, word: u32)
    requires
        registers.len() == SLOT_COUNT,
        flag(word, LINK_BIT),
    ensures
        ({
            let pc = read_pc_masked(registers, PC as int);
            let after = branch_spec(registers, word);
            &&& read_full(after, LR as int) == pc
            &&& read_pc_masked(after, PC as int) == branch_target(pc, word) & PC_MASK
            &&& after[PC as int] & !PC_MASK == registers[PC as int] & !PC_MASK
            &&& branch_offset(word) == 0 ==> read_pc_masked(after, PC as int) == pc
        }),
{
    let pc = read_pc_masked(registers, PC as int);
    let linked = write_full(registers, LR as int, pc);
    assert(linked[PC as int] == registers[PC as int]);
    lemma_pc_masked_write_keeps_flags_and_mode(linked, branch_target(pc, word));
    let r15 = registers[PC as int];
    assert(((r15 & 0x03ff_fffcu32) & 0x03ff_ffffu32) & 0x03ff_fffcu32 == r15 & 0x03ff_fffcu32)
        by (bit_vector);
}

// Data processing

/// A register operand as the instruction sees it when a register supplies
/// the shift amount: the extra cycle shows in a read of r15 as four more.
pub open spec fn late_read(registers: Seq<u32>, reg: u32) -> u32 {
    if reg == PC {
        read_full(registers, reg as int).wrapping_add(4)
    } else {
        read_full(registers, reg as int)
    }
}

/// The first operand of a data-processing instruction.
pub open spec fn alu_operand1(registers: Seq<u32>, word: u32) -> u32 {
    if flag(word, OPERAND_BIT) {
        read_full(registers, rn(word) as int)
    } else if flag(word, REGISTER_SHIFT_BIT) {
        late_read(registers, rn(word))
    } else {
        read_pc_masked(registers, rn(word) as int)
    }
}

/// The second operand of a data-processing instruction, after the barrel
/// shifter.
pub open spec fn alu_operand2(registers: Seq<u32>, word: u32) -> u32 {
    if flag(word, OPERAND_BIT) {
        rotate_right(immediate8(word), (2 * rs(word)) as u32)
    } else if flag(word, REGISTER_SHIFT_BIT) {
        shifted(
            shift_kind_of(word),
            late_read(registers, rm(word)),
            read_full(registers, rs(word) as int) & 0xff,
        )
    } else {
        shifted(shift_kind_of(word), read_full(registers, rm(word) as int), shift_amount(word))
    }
}

/// The registers after ADD: `rd` holds the sum, modulo 2^32. No flag moves.
pub open spec fn alu_add_spec(registers: Seq<u32>, rd: u32, op1: u32, op2: u32) -> Seq<u32> {
    write_full(registers, rd as int, op1.wrapping_add(op2))
}

/// What a data-processing instruction does: ADD adds; every other
/// operation faults and changes nothing.
pub open spec fn alu_spec(registers: Seq<u32>, memory: MemoryState, word: u32) -> Outcome {
    match alu_op_of(opcode(word)) {
        AluOp::Add => Outcome {
            registers: alu_add_spec(
                registers,
                rd(word),
                alu_operand1(registers, word),
                alu_operand2(registers, word),
            ),
            memory,
            result: Ok(effect_of_writing(rd(word))),
        },
        _ => Outcome {
            registers,
            memory,
            result: Err(Fault::UnimplementedOperation { opcode: opcode(word) as u8 }),
        },
    }
}

// Single data transfer

/// The unsigned offset of a transfer.
pub open spec fn transfer_offset(registers: Seq<u32>, word: u32) -> u32 {
    if flag(word, OPERAND_BIT) {
        shifted(shift_kind_of(word), read_full(registers, rm(word) as int), shift_amount(word))
    } else {
        immediate12(word)
    }
}

/// The base of a transfer: the base register, without flags or mode where
/// it is r15.
pub open spec fn transfer_base(registers: Seq<u32>, word: u32) -> u32 {
    read_pc_masked(registers, rn(word) as int)
}

/// The address a transfer accesses: the base, moved by the offset first
/// where the instruction is pre-indexed.
pub open spec fn transfer_address(registers: Seq<u32>, word: u32) -> u32 {
    let base = transfer_base(registers, word);
    let offset = transfer_offset(registers, word);
    if !flag(word, PRE_INDEX_BIT) {
        base
    } else if flag(word, ADD_OFFSET_BIT) {
        base.wrapping_add(offset)
    } else {
        base.wrapping_sub(offset)
    }
}

/// Whether a transfer updates its base register: on request, and whenever
/// it is post-indexed.
pub open spec fn writes_back(word: u32) -> bool {
    flag(word, WRITE_BACK_BIT) || !flag(word, PRE_INDEX_BIT)
}

/// The value a transfer leaves in its base register.
pub open spec fn write_back_value(registers: Seq<u32>, word: u32) -> u32 {
    if flag(word, PRE_INDEX_BIT) {
        transfer_address(registers, word)
    } else {
        transfer_base(registers, word).wrapping_add(transfer_offset(registers, word))
    }
}

/// The access itself: the registers after a load, the registers as they
/// were after a store, or the fault that the controller raised.
pub open spec fn transfer_moved(
    registers: Seq<u32>,
    memory: MemoryState,
    word: u32,
) -> Result<Seq<u32>, Fault> {
    let address = transfer_address(registers, word);
    let sd = rd(word) as int;
    if flag(word, LOAD_BIT) {
        if flag(word, BYTE_BIT) {
            match load_byte_result(memory, address) {
                Ok(byte) => Ok(write_pc_masked(registers, sd, byte as u32)),
                Err(fault) => Err(fault),
            }
        } else {
            match load_result(memory, address) {
                Ok(value) => Ok(write_pc_masked(registers, sd, value)),
                Err(fault) => Err(fault),
            }
        }
    } else {
        let data = read_full(registers, sd);
        let stored = if flag(word, BYTE_BIT) {
            store_byte_result(memory, address, (data & 0xff) as u8)
        } else {
            store_result(memory, address, data)
        };
        match stored {
            Ok(()) => Ok(registers),
            Err(fault) => Err(fault),
        }
    }
}

/// What a single data transfer does: the access, then the write-back. A
/// fault in the access leaves the registers as they were; the controller
/// has seen the access either way.
pub open spec fn transfer_spec(registers: Seq<u32>, memory: MemoryState, word: u32) -> Outcome {
    let accessed = after_access(memory, transfer_address(registers, word));
    match transfer_moved(registers, memory, word) {
        Err(fault) => Outcome { registers, memory: accessed, result: Err(fault) },
        Ok(moved) => Outcome {
            registers: if writes_back(word) {
                write_full(moved, rn(word) as int, write_back_value(registers, word))
            } else {
                moved
            },
            memory: accessed,
            result: Ok(
                if flag(word, LOAD_BIT) {
                    effect_of_writing(rd(word))
                } else {
                    Action::Continue
                },
            ),
        },
    }
}

// Dispatch

/// What executing `word` does to the machine.
pub open spec fn exec_spec(registers: Seq<u32>, memory: MemoryState, word: u32) -> Outcome {
    match family_of(class(word)) {
        Family::DataProcessing => alu_spec(registers, memory, word),
        Family::SingleDataTransfer => transfer_spec(registers, memory, word),
        Family::Branch => Outcome {
            registers: branch_spec(registers, word),
            memory,
            result: Ok(Action::Flush),
        },
        Family::Unimplemented => Outcome {
            registers,
            memory,
            result: Err(Fault::UnimplementedInstructionClass { class: class(word) as u8 }),
        },
    }
}

/// An instruction that faults changes no register, and no instruction
/// changes more of the memory controller than its overlay flag, which it
/// can clear and never set.
pub proof fn lemma_exec_frame(registers: Seq<u32>, memory: MemoryState, word: u32)
    requires
        registers.len() == SLOT_COUNT,
    ensures
        ({
            let done = exec_spec(registers, memory, word);
            &&& done.result is Err ==> done.registers == registers
            &&& done.registers.len() == registers.len()
            &&& done.memory.ram == memory.ram
            &&& done.memory.rom == memory.rom
            &&& !memory.rom_mapped ==> !done.memory.rom_mapped
        }),
{
    lemma_field_ranges(word);
}

/// Executes one instruction word, whatever its condition field says.
pub fn exec(
    registers: &mut RegisterFile,
    memory: &mut Memory,
    instruction: u32,
) -> (result: Result<Action, Fault>)
    ensures
        final(registers)@ == exec_spec(old(registers)@, old(memory)@, instruction).registers,
        final(memory)@ == exec_spec(old(registers)@, old(memory)@, instruction).memory,
        result == exec_spec(old(registers)@, old(memory)@, instruction).result,
{
    match decode_family(instruction) {
        Family::DataProcessing => exec_alu(registers, memory, instruction),
        Family::SingleDataTransfer => exec_ldr_str(registers, memory, instruction),
        Family::Branch => exec_branch(registers, memory, instruction),
        Family::Unimplemented => exec_unimplemented(registers, memory, instruction),
    }
}

/// The branch unit.
pub fn exec_branch(
    registers: &mut RegisterFile,
    memory: &mut Memory,
    instruction: u32,
) -> (result: Result<Action, Fault>)
    ensures
        final(registers)@ == branch_spec(old(registers)@, instruction),
        final(memory)@ == old(memory)@,
        result == Ok::<Action, Fault>(Action::Flush),
{
    let pc = registers.reg_no_flags(PC);

    if read_flag(instruction, LINK_BIT) {
        registers.set_reg(LR, pc);
    }
    let offset = (instruction & 0x00ff_ffff) << 2;
    assert(pc + offset <= u32::MAX) by {
        assert((instruction & 0x00ff_ffff) << 2 <= 0x03ff_fffc) by (bit_vector);
        let r15 = old(registers)@[PC as int];
        assert(r15 & 0x03ff_fffc <= 0x03ff_fffc) by (bit_vector);
    }
    registers.set_reg_no_flags(PC, (pc + offset) & BRANCH_MASK);
    Ok(Action::Flush)
}

/// The data-processing unit: computes both operands, then hands them to
/// the operation.
pub fn exec_alu(
    registers: &mut RegisterFile,
    memory: &mut Memory,
    instruction: u32,
) -> (result: Result<Action, Fault>)
    ensures
        final(registers)@ == alu_spec(old(registers)@, old(memory)@, instruction).registers,
        final(memory)@ == old(memory)@,
        result == alu_spec(old(registers)@, old(memory)@, instruction).result,
{
    let opcode = read_nibble(instruction, OPCODE_AT);
    let rd = read_nibble(instruction, RD_AT);
    let rn = read_nibble(instruction, RN_AT);
    // Reserved: no operation updates the condition flags.
    let _set_flags = read_flag(instruction, SET_FLAGS_BIT);

    let (op1, op2) = if read_flag(instruction, OPERAND_BIT) {
        let value = instruction & 0xff;
        let rotate = read_nibble(instruction, RS_AT) * 2;
        (registers.reg(rn as usize), shift(ShiftKind::RotateRight, value, rotate))
    } else {
        let rm = read_nibble(instruction, RM_AT);
        let kind = decode_shift_kind(instruction);

        if read_flag(instruction, REGISTER_SHIFT_BIT) {
            let rs = read_nibble(instruction, RS_AT);
            let amount = registers.reg(rs as usize) & 0xff;
            let op1 = read_late(registers, rn);
            let unshifted = read_late(registers, rm);
            (op1, shift(kind, unshifted, amount))
        } else {
            let amount = read_shift_amount(instruction);
            let unshifted = registers.reg(rm as usize);
            (registers.reg_no_flags(rn as usize), shift(kind, unshifted, amount))
        }
    };

    match decode_alu_op(instruction) {
        AluOp::And => exec_alu_unimplemented(opcode),
        AluOp::Eor => exec_alu_unimplemented(opcode),
        AluOp::Sub => exec_alu_unimplemented(opcode),
        AluOp::Rsb => exec_alu_unimplemented(opcode),
        AluOp::Add => exec_alu_add(registers, rd, op1, op2),
        AluOp::Adc => exec_alu_unimplemented(opcode),
        AluOp::Sbc => exec_alu_unimplemented(opcode),
        AluOp::Rsc => exec_alu_unimplemented(opcode),
        AluOp::Tst => exec_alu_unimplemented(opcode),
        AluOp::Teq => exec_alu_unimplemented(opcode),
        AluOp::Cmp => exec_alu_unimplemented(opcode),
        AluOp::Cmn => exec_alu_unimplemented(opcode),
        AluOp::Orr => exec_alu_unimplemented(opcode),
        AluOp::Mov => exec_alu_unimplemented(opcode),
        AluOp::Bic => exec_alu_unimplemented(opcode),
        AluOp::Mvn => exec_alu_unimplemented(opcode),
    }
}

/// Reads a register one cycle late: r15 shows four more.
fn read_late(registers: &RegisterFile, reg: u32) -> (value: u32)
    requires
        reg < 16,
    ensures
        value == late_read(registers@, reg),
{
    let value = registers.reg(reg as usize);
    if reg == 15 {
        value.wrapping_add(4)
    } else {
        value
    }
}

/// ADD: the one operation that the data-processing unit performs.
pub fn exec_alu_add(registers: &mut RegisterFile, rd: u32, op1: u32, op2: u32) -> (result:
    Result<Action, Fault>)
    requires
        rd < 16,
    ensures
        final(registers)@ == alu_add_spec(old(registers)@, rd, op1, op2),
        result == Ok::<Action, Fault>(effect_of_writing(rd)),
{
    registers.set_reg(rd as usize, op1.wrapping_add(op2));
    if rd == 15 {
        Ok(Action::Flush)
    } else {
        Ok(Action::Continue)
    }
}

/// The entry of the operation table for every operation but ADD.
pub fn exec_alu_unimplemented(opcode: u32) -> (result: Result<Action, Fault>)
    requires
        opcode < 16,
    ensures
        result == Err::<Action, Fault>(Fault::UnimplementedOperation { opcode: opcode as u8 }),
{
    Err(Fault::UnimplementedOperation { opcode: opcode as u8 })
}

/// The single-data-transfer unit.
pub fn exec_ldr_str(
    registers: &mut RegisterFile,
    memory: &mut Memory,
    instruction: u32,
) -> (result: Result<Action, Fault>)
    ensures
        final(registers)@ == transfer_spec(old(registers)@, old(memory)@, instruction).registers,
        final(memory)@ == transfer_spec(old(registers)@, old(memory)@, instruction).memory,
        result == transfer_spec(old(registers)@, old(memory)@, instruction).result,
{
    let op2_is_reg = read_flag(instruction, OPERAND_BIT);
    let pre_indexing = read_flag(instruction, PRE_INDEX_BIT);
    let positive_offset = read_flag(instruction, ADD_OFFSET_BIT);
    let byte_transfer = read_flag(instruction, BYTE_BIT);
    let write_back = read_flag(instruction, WRITE_BACK_BIT) || !pre_indexing;
    let is_load = read_flag(instruction, LOAD_BIT);

    let base_reg = read_nibble(instruction, RN_AT);
    let base = registers.reg_no_flags(base_reg as usize);
    let sd_reg = read_nibble(instruction, RD_AT);

    let offset = if op2_is_reg {
        let amount = read_shift_amount(instruction);
        let kind = decode_shift_kind(instruction);
        let op2_reg = read_nibble(instruction, RM_AT);
        shift(kind, registers.reg(op2_reg as usize), amount)
    } else {
        instruction & 0xfff
    };

    let address = if !pre_indexing {
        base
    } else if positive_offset {
        base.wrapping_add(offset)
    } else {
        base.wrapping_sub(offset)
    };

    if byte_transfer {
        if is_load {
            match memory.load_byte(address) {
                Ok(byte) => registers.set_reg_no_flags(sd_reg as usize, byte as u32),
                Err(fault) => {
                    return Err(fault);
                },
            }
        } else {
            let data = registers.reg(sd_reg as usize);
            assert(data & 0xff < 0x100) by (bit_vector);
            match memory.store_byte(address, (data & 0xff) as u8) {
                Ok(()) => {},
                Err(fault) => {
                    return Err(fault);
                },
            }
        }
    } else {
        if is_load {
            match memory.load(address) {
                Ok(value) => registers.set_reg_no_flags(sd_reg as usize, value),
                Err(fault) => {
                    return Err(fault);
                },
            }
        } else {
            match memory.store(address, registers.reg(sd_reg as usize)) {
                Ok(()) => {},
                Err(fault) => {
                    return Err(fault);
                },
            }
        }
    }

    if write_back {
        let value = if pre_indexing {
            address
        } else {
            base.wrapping_add(offset)
        };
        registers.set_reg(base_reg as usize, value);
    }
    if is_load && sd_reg == 15 {
        Ok(Action::Flush)
    } else {
        Ok(Action::Continue)
    }
}

/// The entry of the dispatch table for a class without a unit.
pub fn exec_unimplemented(
    registers: &mut RegisterFile,
    memory: &mut Memory,
    instruction: u32,
) -> (result: Result<Action, Fault>)
    ensures
        final(registers)@ == old(registers)@,
        final(memory)@ == old(memory)@,
        result == Err::<Action, Fault>(
            Fault::UnimplementedInstructionClass { class: class(instruction) as u8 },
        ),
{
    Err(Fault::UnimplementedInstructionClass { class: read_nibble(instruction, CLASS_AT) as u8 })
}

} // verus!
