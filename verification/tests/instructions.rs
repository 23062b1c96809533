use webarc::fault::{Access, Fault};
use webarc::instructions::{exec, Action};
use webarc::memory::Memory;
use webarc::registers::{Mode, RegisterFile};

const AL: u32 = 0xe;
const ADD: u32 = 4;
const LSL: u32 = 0;
const ASR: u32 = 1;
const LSR: u32 = 2;
const ROR: u32 = 3;

fn alu_immediate(opcode: u32, rn: u32, rd: u32, rotate: u32, value: u32) -> u32 {
    AL << 28 | 1 << 25 | opcode << 21 | rn << 16 | rd << 12 | rotate << 8 | value
}

fn alu_shift_by_amount(rn: u32, rd: u32, amount: u32, kind: u32, rm: u32) -> u32 {
    AL << 28 | ADD << 21 | rn << 16 | rd << 12 | amount << 7 | kind << 5 | rm
}

fn alu_shift_by_register(rn: u32, rd: u32, rs: u32, kind: u32, rm: u32) -> u32 {
    AL << 28 | ADD << 21 | rn << 16 | rd << 12 | rs << 8 | kind << 5 | 1 << 4 | rm
}

const REGISTER_OFFSET: u32 = 1 << 25;
const PRE: u32 = 1 << 24;
const UP: u32 = 1 << 23;
const BYTE: u32 = 1 << 22;
const WRITE_BACK: u32 = 1 << 21;
const LOAD: u32 = 1 << 20;

fn transfer(bits: u32, rn: u32, rd: u32, offset: u32) -> u32 {
    AL << 28 | 1 << 26 | bits | rn << 16 | rd << 12 | offset
}

fn machine(rom: &[u32]) -> (RegisterFile, Memory) {
    (RegisterFile::new(), Memory::new(rom.to_vec().into_boxed_slice()))
}

fn snapshot(registers: &mut RegisterFile) -> Vec<u32> {
    // Every physical slot, read through each mode in turn.
    let r15 = registers.reg(15);
    let mut slots = Vec::new();
    for mode in 0..4u32 {
        registers.set_reg(15, mode);
        for reg in 0..15usize {
            slots.push(registers.reg(reg));
        }
    }
    registers.set_reg(15, r15);
    slots.push(r15);
    slots
}

// Data processing

#[test]
fn add_immediate_four_to_r0() {
    let (mut registers, mut memory) = machine(&[]);
    registers.set_reg(0, 0);
    let result = exec(&mut registers, &mut memory, 0xe280_0004);
    assert_eq!(result, Ok(Action::Continue));
    assert_eq!(registers.reg(0), 4);
    assert_eq!(registers.reg(15), 0);
}

#[test]
fn add_executes_whatever_the_condition_field_says() {
    let (mut registers, mut memory) = machine(&[]);
    assert_eq!(exec(&mut registers, &mut memory, 0x1280_0004), Ok(Action::Continue));
    assert_eq!(exec(&mut registers, &mut memory, 0xf280_0004), Ok(Action::Continue));
    assert_eq!(registers.reg(0), 8);
}

#[test]
fn add_immediate_rotates_right_by_twice_the_field() {
    let (mut registers, mut memory) = machine(&[]);
    registers.set_reg(1, 1);
    let word = alu_immediate(ADD, 1, 2, 4, 0xff);
    assert_eq!(exec(&mut registers, &mut memory, word), Ok(Action::Continue));
    assert_eq!(registers.reg(2), 0xff00_0001);

    let word = alu_immediate(ADD, 3, 4, 15, 0x01);
    assert_eq!(exec(&mut registers, &mut memory, word), Ok(Action::Continue));
    assert_eq!(registers.reg(4), 4);

    let word = alu_immediate(ADD, 3, 5, 1, 0x03);
    assert_eq!(exec(&mut registers, &mut memory, word), Ok(Action::Continue));
    assert_eq!(registers.reg(5), 0xc000_0000);
}

#[test]
fn add_immediate_reads_r15_whole_and_uncorrected() {
    let (mut registers, mut memory) = machine(&[]);
    registers.set_reg(15, 0xa000_000b);
    let word = alu_immediate(ADD, 15, 0, 0, 1);
    assert_eq!(exec(&mut registers, &mut memory, word), Ok(Action::Continue));
    assert_eq!(registers.reg(0), 0xa000_000c);
    assert_eq!(registers.reg(15), 0xa000_000b);
}

#[test]
fn add_wraps_at_32_bits() {
    let (mut registers, mut memory) = machine(&[]);
    registers.set_reg(1, 0xffff_ffff);
    let word = alu_immediate(ADD, 1, 0, 0, 2);
    assert_eq!(exec(&mut registers, &mut memory, word), Ok(Action::Continue));
    assert_eq!(registers.reg(0), 1);
}

#[test]
fn add_sets_no_flags() {
    let (mut registers, mut memory) = machine(&[]);
    registers.set_reg(1, 0xffff_ffff);
    // ADDS R0, R1, #1: zero result with carry out
    let word = alu_immediate(ADD, 1, 0, 0, 1) | 1 << 20;
    assert_eq!(exec(&mut registers, &mut memory, word), Ok(Action::Continue));
    assert_eq!(registers.reg(0), 0);
    assert_eq!(registers.reg(15), 0);
}

#[test]
fn add_into_r15_flushes_and_replaces_the_whole_word() {
    let (mut registers, mut memory) = machine(&[]);
    registers.set_reg(15, 0x4000_0008);
    registers.set_reg(1, 0x8000_0102);
    let word = alu_immediate(ADD, 1, 15, 0, 0);
    assert_eq!(exec(&mut registers, &mut memory, word), Ok(Action::Flush));
    assert_eq!(registers.reg(15), 0x8000_0102);
    assert_eq!(registers.mode(), Mode::Irq);
}

#[test]
fn add_shifts_a_register_by_an_amount() {
    for &(kind, value, amount, expected) in &[
        (LSL, 0x0000_00f3u32, 4u32, 0x0000_0f30u32),
        (LSL, 0x8000_0001, 1, 0x0000_0002),
        (LSL, 0x0000_0001, 31, 0x8000_0000),
        (ASR, 0x8000_0010, 4, 0xf800_0001),
        (ASR, 0x4000_0010, 4, 0x0400_0001),
        (ASR, 0x8000_0000, 31, 0xffff_ffff),
        (LSR, 0x8000_0010, 4, 0x0800_0001),
        (LSR, 0x8000_0000, 31, 0x0000_0001),
        (ROR, 0x0000_00f3, 4, 0x3000_000f),
        (ROR, 0x8000_0001, 31, 0x0000_0003),
        (LSL, 0x1234_5678, 0, 0x1234_5678),
        (ASR, 0x9234_5678, 0, 0x9234_5678),
        (LSR, 0x9234_5678, 0, 0x9234_5678),
        (ROR, 0x9234_5678, 0, 0x9234_5678),
    ] {
        let (mut registers, mut memory) = machine(&[]);
        registers.set_reg(1, value);
        registers.set_reg(2, 1);
        let word = alu_shift_by_amount(2, 3, amount, kind, 1);
        assert_eq!(exec(&mut registers, &mut memory, word), Ok(Action::Continue));
        assert_eq!(
            registers.reg(3),
            expected.wrapping_add(1),
            "kind {} value {:08X} amount {}",
            kind,
            value,
            amount
        );
    }
}

#[test]
fn rotate_right_turns_the_register_not_the_instruction() {
    let (mut registers, mut memory) = machine(&[]);
    registers.set_reg(1, 0x0000_0001);
    let word = alu_shift_by_amount(2, 3, 1, ROR, 1);
    assert_eq!(exec(&mut registers, &mut memory, word), Ok(Action::Continue));
    assert_eq!(registers.reg(3), 0x8000_0000);
}

#[test]
fn add_shifts_a_register_by_the_low_byte_of_a_register() {
    for &(kind, value, amount, expected) in &[
        (LSL, 0x0000_00f3u32, 0x0000_0004u32, 0x0000_0f30u32),
        (LSL, 0x0000_00f3, 0xabcd_ef04, 0x0000_0f30),
        (LSL, 0xffff_ffff, 32, 0),
        (LSL, 0xffff_ffff, 33, 0),
        (LSL, 0xffff_ffff, 255, 0),
        (LSL, 0xffff_ffff, 256, 0xffff_ffff),
        (LSR, 0xffff_ffff, 31, 1),
        (LSR, 0xffff_ffff, 32, 0),
        (LSR, 0xffff_ffff, 200, 0),
        (ASR, 0x8000_0000, 32, 0xffff_ffff),
        (ASR, 0x8000_0000, 255, 0xffff_ffff),
        (ASR, 0x7fff_ffff, 32, 0),
        (ASR, 0x7fff_ffff, 30, 1),
        (ROR, 0x1234_5678, 32, 0x1234_5678),
        (ROR, 0x0000_0001, 33, 0x8000_0000),
        (ROR, 0x0000_0001, 255, 0x0000_0002),
        (ROR, 0x1234_5678, 0, 0x1234_5678),
    ] {
        let (mut registers, mut memory) = machine(&[]);
        registers.set_reg(1, value);
        registers.set_reg(4, amount);
        let word = alu_shift_by_register(2, 3, 4, kind, 1);
        assert_eq!(exec(&mut registers, &mut memory, word), Ok(Action::Continue));
        assert_eq!(
            registers.reg(3),
            expected,
            "kind {} value {:08X} amount {:08X}",
            kind,
            value,
            amount
        );
    }
}

#[test]
fn shift_by_amount_reads_rn_masked_and_rm_whole() {
    let (mut registers, mut memory) = machine(&[]);
    registers.set_reg(15, 0xf000_0103);
    let word = alu_shift_by_amount(15, 0, 0, LSL, 15);
    assert_eq!(exec(&mut registers, &mut memory, word), Ok(Action::Continue));
    assert_eq!(registers.reg(0), 0x0000_0100u32.wrapping_add(0xf000_0103));
}

#[test]
fn shift_by_register_sees_r15_four_further() {
    let (mut registers, mut memory) = machine(&[]);
    registers.set_reg(15, 0x0000_0100);
    registers.set_reg(4, 1);
    let word = alu_shift_by_register(15, 0, 4, LSL, 15);
    assert_eq!(exec(&mut registers, &mut memory, word), Ok(Action::Continue));
    assert_eq!(registers.reg(0), 0x104 + 0x208);
}

#[test]
fn shift_by_register_reads_r15_with_its_flags() {
    let (mut registers, mut memory) = machine(&[]);
    registers.set_reg(15, 0x4000_0100);
    let word = alu_shift_by_register(15, 0, 4, LSL, 1);
    assert_eq!(exec(&mut registers, &mut memory, word), Ok(Action::Continue));
    assert_eq!(registers.reg(0), 0x4000_0104);
}

#[test]
fn shift_by_register_wraps_the_correction_of_r15() {
    let (mut registers, mut memory) = machine(&[]);
    registers.set_reg(15, 0xffff_fffc);
    let word = alu_shift_by_register(15, 0, 4, LSL, 1);
    assert_eq!(exec(&mut registers, &mut memory, word), Ok(Action::Continue));
    assert_eq!(registers.reg(0), 0);
}

#[test]
fn add_writes_the_bank_of_the_current_mode() {
    let (mut registers, mut memory) = machine(&[]);
    registers.set_reg(15, 1);
    let word = alu_immediate(ADD, 0, 8, 0, 9);
    assert_eq!(exec(&mut registers, &mut memory, word), Ok(Action::Continue));
    assert_eq!(registers.reg(8), 9);
    registers.set_reg(15, 0);
    assert_eq!(registers.reg(8), 0);
}

#[test]
fn every_operation_but_add_is_a_fault() {
    for opcode in 0..16u32 {
        if opcode == ADD {
            continue;
        }
        let (mut registers, mut memory) = machine(&[]);
        registers.set_reg(1, 5);
        let before = snapshot(&mut registers);
        let word = alu_immediate(opcode, 1, 2, 0, 3);
        assert_eq!(
            exec(&mut registers, &mut memory, word),
            Err(Fault::UnimplementedOperation { opcode: opcode as u8 })
        );
        assert_eq!(snapshot(&mut registers), before);
        assert!(memory.rom_mapped());
    }
}

#[test]
fn register_forms_of_other_operations_fault_too() {
    let (mut registers, mut memory) = machine(&[]);
    // MOV R0, R1
    assert_eq!(
        exec(&mut registers, &mut memory, 0xe1a0_0001),
        Err(Fault::UnimplementedOperation { opcode: 13 })
    );
    // CMP R0, R1 LSL R2
    assert_eq!(
        exec(&mut registers, &mut memory, 0xe150_0211),
        Err(Fault::UnimplementedOperation { opcode: 10 })
    );
}

// Dispatch

#[test]
fn classes_without_a_unit_are_faults() {
    for &class in &[0x8u32, 0x9, 0xc, 0xd, 0xe, 0xf] {
        let (mut registers, mut memory) = machine(&[]);
        let before = snapshot(&mut registers);
        let word = AL << 28 | class << 24 | 0x12_3456;
        assert_eq!(
            exec(&mut registers, &mut memory, word),
            Err(Fault::UnimplementedInstructionClass { class: class as u8 })
        );
        assert_eq!(snapshot(&mut registers), before);
        assert!(memory.rom_mapped());
    }
}

#[test]
fn classes_with_a_unit_reach_it() {
    for class in 0..4u32 {
        let (mut registers, mut memory) = machine(&[]);
        let result = exec(&mut registers, &mut memory, AL << 28 | class << 24);
        assert!(
            matches!(result, Err(Fault::UnimplementedOperation { .. })),
            "class {}",
            class
        );
    }
    for class in 4..8u32 {
        let (mut registers, mut memory) = machine(&[]);
        let result = exec(&mut registers, &mut memory, AL << 28 | class << 24);
        assert!(
            matches!(result, Err(Fault::UnimplementedMemoryRegion { .. })),
            "class {}",
            class
        );
    }
    for class in 10..12u32 {
        let (mut registers, mut memory) = machine(&[]);
        let result = exec(&mut registers, &mut memory, AL << 28 | class << 24);
        assert_eq!(result, Ok(Action::Flush), "class {}", class);
    }
}

// Branch

#[test]
fn branch_with_link_stores_the_program_counter_in_r14() {
    let (mut registers, mut memory) = machine(&[]);
    registers.set_reg(15, 8);
    assert_eq!(exec(&mut registers, &mut memory, 0xeb00_0000), Ok(Action::Flush));
    assert_eq!(registers.reg(14), 8);
    assert_eq!(registers.reg_no_flags(15), 8);
    assert_eq!(registers.reg(15), 8);
}

#[test]
fn branch_with_link_keeps_flags_and_mode_out_of_r14() {
    let (mut registers, mut memory) = machine(&[]);
    registers.set_reg(15, 0xf000_010b);
    assert_eq!(exec(&mut registers, &mut memory, 0xeb00_0000), Ok(Action::Flush));
    assert_eq!(registers.reg(14), 0x108);
    assert_eq!(registers.reg(15), 0xf000_010b);
    // r14 of SVC, not of User
    registers.set_reg(15, 0);
    assert_eq!(registers.reg(14), 0);
}

#[test]
fn branch_without_link_leaves_r14() {
    let (mut registers, mut memory) = machine(&[]);
    registers.set_reg(15, 8);
    registers.set_reg(14, 0x55);
    assert_eq!(exec(&mut registers, &mut memory, 0xea00_0002), Ok(Action::Flush));
    assert_eq!(registers.reg(14), 0x55);
    assert_eq!(registers.reg(15), 16);
}

#[test]
fn branch_offset_counts_words() {
    let (mut registers, mut memory) = machine(&[]);
    registers.set_reg(15, 0x4000_0100);
    assert_eq!(exec(&mut registers, &mut memory, 0xea00_0040), Ok(Action::Flush));
    assert_eq!(registers.reg(15), 0x4000_0200);
}

#[test]
fn branch_target_wraps_into_26_bits() {
    let (mut registers, mut memory) = machine(&[]);
    registers.set_reg(15, 0x03ff_fffc);
    assert_eq!(exec(&mut registers, &mut memory, 0xeaff_ffff), Ok(Action::Flush));
    assert_eq!(registers.reg(15), 0x03ff_fff8);

    // An offset with its top bit set lands below the program counter
    registers.set_reg(15, 0x8000_010a);
    assert_eq!(exec(&mut registers, &mut memory, 0xeaff_fffe), Ok(Action::Flush));
    assert_eq!(registers.reg(15), 0x8000_0102);
}

#[test]
fn branch_touches_no_memory() {
    let (mut registers, mut memory) = machine(&[]);
    registers.set_reg(15, 0x0380_0008);
    assert_eq!(exec(&mut registers, &mut memory, 0xeb00_0000), Ok(Action::Flush));
    assert!(memory.rom_mapped());
}

// Single data transfer

const ROM: [u32; 5] = [0x0403_0201, 0x0807_0605, 0x0c0b_0a09, 0x100f_0e0d, 0xffff_ffff];

#[test]
fn load_pre_indexed_adds_the_offset_first() {
    let (mut registers, mut memory) = machine(&ROM);
    registers.set_reg(1, 8);
    let word = transfer(PRE | UP | LOAD, 1, 0, 4);
    assert_eq!(exec(&mut registers, &mut memory, word), Ok(Action::Continue));
    assert_eq!(registers.reg(0), 0x100f_0e0d);
    assert_eq!(registers.reg(1), 8);
}

#[test]
fn load_pre_indexed_subtracts_and_writes_back() {
    let (mut registers, mut memory) = machine(&ROM);
    registers.set_reg(1, 8);
    let word = transfer(PRE | WRITE_BACK | LOAD, 1, 0, 4);
    assert_eq!(exec(&mut registers, &mut memory, word), Ok(Action::Continue));
    assert_eq!(registers.reg(0), 0x0807_0605);
    assert_eq!(registers.reg(1), 4);
}

#[test]
fn load_post_indexed_uses_the_base_and_always_writes_back() {
    let (mut registers, mut memory) = machine(&ROM);
    registers.set_reg(1, 8);
    let word = transfer(UP | LOAD, 1, 0, 4);
    assert_eq!(exec(&mut registers, &mut memory, word), Ok(Action::Continue));
    assert_eq!(registers.reg(0), 0x0c0b_0a09);
    assert_eq!(registers.reg(1), 12);
}

#[test]
fn load_post_indexed_writes_back_base_plus_offset_whatever_the_sign() {
    let (mut registers, mut memory) = machine(&ROM);
    registers.set_reg(1, 8);
    let word = transfer(LOAD, 1, 0, 4);
    assert_eq!(exec(&mut registers, &mut memory, word), Ok(Action::Continue));
    assert_eq!(registers.reg(0), 0x0c0b_0a09);
    assert_eq!(registers.reg(1), 12);
}

#[test]
fn load_byte_reads_one_lane() {
    let (mut registers, mut memory) = machine(&ROM);
    registers.set_reg(1, 4);
    let word = transfer(PRE | UP | BYTE | LOAD, 1, 0, 1);
    assert_eq!(exec(&mut registers, &mut memory, word), Ok(Action::Continue));
    assert_eq!(registers.reg(0), 0x06);
    let word = transfer(PRE | UP | BYTE | LOAD, 1, 2, 15);
    assert_eq!(exec(&mut registers, &mut memory, word), Ok(Action::Continue));
    assert_eq!(registers.reg(2), 0xff);
}

#[test]
fn load_with_a_shifted_register_offset() {
    let (mut registers, mut memory) = machine(&ROM);
    registers.set_reg(2, 3);
    let word = transfer(REGISTER_OFFSET | PRE | UP | LOAD, 1, 0, 2 << 7 | LSL << 5 | 2);
    assert_eq!(exec(&mut registers, &mut memory, word), Ok(Action::Continue));
    assert_eq!(registers.reg(0), 0x100f_0e0d);

    registers.set_reg(2, 0x8000_0000);
    let word = transfer(REGISTER_OFFSET | PRE | UP | LOAD, 1, 0, 28 << 7 | LSR << 5 | 2);
    assert_eq!(exec(&mut registers, &mut memory, word), Ok(Action::Continue));
    assert_eq!(registers.reg(0), 0x0c0b_0a09);

    // ASR fills with the sign: offset is -8 as an unsigned word
    registers.set_reg(1, 16);
    let word = transfer(REGISTER_OFFSET | PRE | UP | LOAD, 1, 0, 28 << 7 | ASR << 5 | 2);
    assert_eq!(exec(&mut registers, &mut memory, word), Ok(Action::Continue));
    assert_eq!(registers.reg(0), 0x0c0b_0a09);

    registers.set_reg(1, 0);
    registers.set_reg(2, 0x4000_0000);
    let word = transfer(REGISTER_OFFSET | PRE | UP | LOAD, 1, 0, 28 << 7 | ROR << 5 | 2);
    assert_eq!(exec(&mut registers, &mut memory, word), Ok(Action::Continue));
    assert_eq!(registers.reg(0), 0x0807_0605);
}

#[test]
fn load_into_r15_flushes_and_keeps_flags_and_mode() {
    let (mut registers, mut memory) = machine(&ROM);
    registers.set_reg(15, 0xa000_0003);
    registers.set_reg(1, 16);
    let word = transfer(PRE | UP | LOAD, 1, 15, 0);
    assert_eq!(exec(&mut registers, &mut memory, word), Ok(Action::Flush));
    assert_eq!(registers.reg(15), 0xa3ff_ffff);
    assert_eq!(registers.mode(), Mode::Svc);
}

#[test]
fn load_reads_the_base_r15_without_flags() {
    let (mut registers, mut memory) = machine(&ROM);
    registers.set_reg(15, 0xf000_0008);
    let word = transfer(PRE | UP | LOAD, 15, 0, 4);
    assert_eq!(exec(&mut registers, &mut memory, word), Ok(Action::Continue));
    assert_eq!(registers.reg(0), 0x100f_0e0d);
}

#[test]
fn write_back_to_r15_replaces_the_whole_word() {
    let (mut registers, mut memory) = machine(&ROM);
    registers.set_reg(15, 0xf000_0003);
    let word = transfer(UP | LOAD, 15, 0, 4);
    assert_eq!(exec(&mut registers, &mut memory, word), Ok(Action::Continue));
    assert_eq!(registers.reg(0), 0x0403_0201);
    assert_eq!(registers.reg(15), 4);
}

#[test]
fn write_back_wins_over_the_loaded_value() {
    let (mut registers, mut memory) = machine(&ROM);
    registers.set_reg(1, 8);
    let word = transfer(UP | LOAD, 1, 1, 4);
    assert_eq!(exec(&mut registers, &mut memory, word), Ok(Action::Continue));
    assert_eq!(registers.reg(1), 12);
}

#[test]
fn load_from_high_rom_clears_the_overlay() {
    let (mut registers, mut memory) = machine(&ROM);
    registers.set_reg(1, 0x0380_0000);
    let word = transfer(PRE | UP | LOAD, 1, 0, 4);
    assert_eq!(exec(&mut registers, &mut memory, word), Ok(Action::Continue));
    assert_eq!(registers.reg(0), 0x0807_0605);
    assert!(!memory.rom_mapped());
}

#[test]
fn a_faulting_load_changes_no_register() {
    let (mut registers, mut memory) = machine(&ROM);
    registers.set_reg(1, 0x0300_0000);
    let before = snapshot(&mut registers);
    let word = transfer(PRE | UP | WRITE_BACK | LOAD, 1, 0, 4);
    assert_eq!(
        exec(&mut registers, &mut memory, word),
        Err(Fault::UnimplementedMemoryRegion { address: 0x0300_0004, access: Access::Load })
    );
    assert_eq!(snapshot(&mut registers), before);
    assert!(memory.rom_mapped());
}

#[test]
fn a_faulting_load_from_the_low_rom_alias_clears_the_overlay() {
    let (mut registers, mut memory) = machine(&ROM);
    registers.set_reg(1, 0x0340_0000);
    let before = snapshot(&mut registers);
    let word = transfer(UP | BYTE | LOAD, 1, 0, 4);
    assert_eq!(
        exec(&mut registers, &mut memory, word),
        Err(Fault::UnimplementedMemoryRegion { address: 0x0340_0000, access: Access::Load })
    );
    assert_eq!(snapshot(&mut registers), before);
    assert!(!memory.rom_mapped());
}

#[test]
fn pre_indexed_address_wraps_below_zero() {
    let (mut registers, mut memory) = machine(&ROM);
    let word = transfer(PRE | LOAD, 1, 0, 4);
    assert_eq!(
        exec(&mut registers, &mut memory, word),
        Err(Fault::UnimplementedMemoryRegion { address: 0x03ff_fffc, access: Access::Load })
    );
    assert!(!memory.rom_mapped());
}

#[test]
fn every_store_is_a_fault() {
    for &bits in &[
        PRE | UP,
        PRE | UP | WRITE_BACK,
        UP,
        0,
        PRE | UP | BYTE,
        UP | BYTE,
        REGISTER_OFFSET | PRE | UP,
    ] {
        let (mut registers, mut memory) = machine(&ROM);
        registers.set_reg(0, 0x1234_5678);
        registers.set_reg(1, 0x0200_0010);
        let before = snapshot(&mut registers);
        // An offset of 2, or of r2, which holds zero
        let word = transfer(bits, 1, 0, 2);
        assert_eq!(
            exec(&mut registers, &mut memory, word),
            Err(Fault::UnimplementedMemoryRegion { address: 0x0200_0010, access: Access::Store }),
            "bits {:08X}",
            bits
        );
        assert_eq!(snapshot(&mut registers), before);
        assert!(memory.rom_mapped());
    }
}

#[test]
fn a_store_above_the_io_controllers_clears_the_overlay() {
    let (mut registers, mut memory) = machine(&ROM);
    registers.set_reg(1, 0x0340_0000);
    let word = transfer(PRE | UP, 1, 0, 0);
    assert_eq!(
        exec(&mut registers, &mut memory, word),
        Err(Fault::UnimplementedMemoryRegion { address: 0x0340_0000, access: Access::Store })
    );
    assert!(!memory.rom_mapped());
}
