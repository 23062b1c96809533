use webarc::disassembly::{format_alu, format_branch, format_ldr_str, format_unimplemented};

const AL: u8 = 0xe;

fn text(address: u32, cond: u8, instruction: u32) -> String {
    webarc::disassembly::format(address, cond, instruction)
}

#[test]
fn add_with_condition_and_immediate() {
    assert_eq!(text(0, 0, 0x0281_0004), "ADDEQ R0, R1, #4");
}

#[test]
fn add_always_has_no_suffix() {
    assert_eq!(text(0, AL, 0xe280_0004), "ADD R0, R0, #4");
}

#[test]
fn the_suffix_comes_from_the_condition_argument() {
    assert_eq!(text(0, 1, 0xe280_0004), "ADDNE R0, R0, #4");
}

#[test]
fn immediate_operand_shows_its_rotation() {
    assert_eq!(text(0, AL, 0xe281_24ff), "ADD R2, R1, #255 ROR 8");
    assert_eq!(text(0, AL, 0xe281_2f01), "ADD R2, R1, #1 ROR 30");
    assert_eq!(text(0, AL, 0xe281_2000), "ADD R2, R1, #0");
}

#[test]
fn register_operand_shows_shift_and_amount() {
    assert_eq!(text(0, AL, 0xe082_3201), "ADD R3, R2, R1 LSL #4");
    assert_eq!(text(0, AL, 0xe082_3221), "ADD R3, R2, R1 ASR #4");
    assert_eq!(text(0, AL, 0xe082_3241), "ADD R3, R2, R1 LSR #4");
    assert_eq!(text(0, AL, 0xe082_3261), "ADD R3, R2, R1 ROR #4");
    assert_eq!(text(0, AL, 0xe082_3001), "ADD R3, R2, R1 LSL #0");
    assert_eq!(text(0, AL, 0xe082_3f81), "ADD R3, R2, R1 LSL #31");
}

#[test]
fn register_operand_shows_the_shift_register() {
    assert_eq!(text(0, AL, 0xe082_3411), "ADD R3, R2, R1 LSL R4");
    assert_eq!(text(0, AL, 0xe08f_ef7f), "ADD R14, R15, R15 ROR R15");
}

#[test]
fn registers_with_two_digits() {
    assert_eq!(text(0, AL, 0xe28a_c00b), "ADD R12, R10, #11");
}

#[test]
fn every_data_processing_mnemonic() {
    let names = [
        "AND", "EOR", "SUB", "RSB", "ADD", "ADC", "SBC", "RSC", "TST", "TEQ", "CMP", "CMN", "ORR",
        "MOV", "BIC", "MVN",
    ];
    for (opcode, name) in names.iter().enumerate() {
        let word = 0xe200_0000 | (opcode as u32) << 21 | 1 << 16 | 2 << 12 | 3;
        assert_eq!(text(0, AL, word), format!("{} R2, R1, #3", name));
    }
}

#[test]
fn every_condition_suffix() {
    let suffixes = [
        "EQ", "NE", "CS", "CC", "MI", "PL", "VS", "VC", "HI", "LS", "GE", "LT", "GT", "LE", "",
        "NV",
    ];
    for (cond, suffix) in suffixes.iter().enumerate() {
        assert_eq!(text(0, cond as u8, 0xef00_0000), format!("...{}", suffix));
        assert_eq!(text(0, cond as u8, 0xe280_0004), format!("ADD{} R0, R0, #4", suffix));
    }
}

#[test]
fn classes_without_a_formatter() {
    for &class in &[0x8u32, 0x9, 0xc, 0xd, 0xe, 0xf] {
        assert_eq!(text(0x1234, 0, 0xe000_0000 | class << 24), "...EQ");
        assert_eq!(text(0x1234, AL, 0xe012_3456 | class << 24), "...");
    }
}

#[test]
fn the_set_flags_bit_is_not_shown() {
    assert_eq!(text(0, AL, 0xe290_0004), "ADD R0, R0, #4");
}

#[test]
fn load_and_store_with_immediate_offset() {
    assert_eq!(text(0, AL, 0xe591_0004), "LDR R0, [R1, 4]");
    assert_eq!(text(0, AL, 0xe531_0004), "LDR R0, [R1, -4]!");
    assert_eq!(text(0, AL, 0xe491_0004), "LDR R0, [R1], 4");
    assert_eq!(text(0, AL, 0xe411_0004), "LDR R0, [R1], -4");
    assert_eq!(text(0, AL, 0xe581_0fff), "STR R0, [R1, 4095]");
    assert_eq!(text(0, AL, 0xe5cf_e001), "STRB R14, [R15, 1]");
}

#[test]
fn a_zero_immediate_offset_is_not_shown() {
    assert_eq!(text(0, AL, 0xe591_0000), "LDR R0, [R1]");
    assert_eq!(text(0, AL, 0xe511_0000), "LDR R0, [R1]");
    assert_eq!(text(0, AL, 0xe5a1_0000), "STR R0, [R1]!");
    assert_eq!(text(0, AL, 0xe491_0000), "LDR R0, [R1]");
    assert_eq!(text(0, AL, 0xe4a1_0000), "STR R0, [R1]");
}

#[test]
fn write_back_mark_only_when_pre_indexed() {
    assert_eq!(text(0, AL, 0xe5b1_0004), "LDR R0, [R1, 4]!");
    assert_eq!(text(0, AL, 0xe4b1_0004), "LDR R0, [R1], 4");
}

#[test]
fn byte_mark_follows_the_condition() {
    assert_eq!(text(0, 0, 0xe5d1_0000), "LDREQB R0, [R1]");
    assert_eq!(text(0, AL, 0xe5d1_0000), "LDRB R0, [R1]");
}

#[test]
fn load_and_store_with_register_offset() {
    assert_eq!(text(0, AL, 0xe791_0002), "LDR R0, [R1, R2]");
    assert_eq!(text(0, AL, 0xe711_0002), "LDR R0, [R1, -R2]");
    assert_eq!(text(0, AL, 0xe7b1_0102), "LDR R0, [R1, R2 LSL 2]!");
    assert_eq!(text(0, AL, 0xe691_0002), "LDR R0, [R1], R2");
    assert_eq!(text(0, AL, 0xe601_01a2), "STR R0, [R1], -R2 ASR 3");
    assert_eq!(text(0, AL, 0xe781_0fc2), "STR R0, [R1, R2 LSR 31]");
    assert_eq!(text(0, AL, 0xe781_00e2), "STR R0, [R1, R2 ROR 1]");
    assert_eq!(text(0, AL, 0xe781_0000), "STR R0, [R1, R0]");
}

#[test]
fn shift_names_agree_with_execution() {
    // Bits [6:5] = 01 shifts with sign when executed, and is shown so
    assert_eq!(text(0, AL, 0xe791_00a2), "LDR R0, [R1, R2 ASR 1]");
    assert_eq!(text(0, AL, 0xe082_30a1), "ADD R3, R2, R1 ASR #1");
    assert_eq!(text(0, AL, 0xe791_00c2), "LDR R0, [R1, R2 LSR 1]");
    assert_eq!(text(0, AL, 0xe082_30c1), "ADD R3, R2, R1 LSR #1");
}

#[test]
fn branch_shows_its_destination_in_hexadecimal() {
    assert_eq!(text(0x100, AL, 0xea00_0002), "B $110");
    assert_eq!(text(0x100, AL, 0xeb00_0002), "BL 110");
    assert_eq!(text(0x100, 0, 0xea00_0002), "BEQ $110");
    assert_eq!(text(0x100, 11, 0xeb00_0002), "BLLT 110");
    assert_eq!(text(0, AL, 0xea00_0000), "B $8");
    assert_eq!(text(0x00ab_cdec, AL, 0xea00_0000), "B $ABCDF4");
}

#[test]
fn branch_destination_wraps_into_26_bits() {
    assert_eq!(text(0xffff_fff8, AL, 0xea00_0000), "B $0");
    assert_eq!(text(0x03ff_fff4, AL, 0xeaff_ffff), "B $3FFFFF8");
    assert_eq!(text(0x100, AL, 0xeaff_fffe), "B $100");
}

#[test]
fn each_formatter_can_be_called_alone() {
    assert_eq!(format_alu(0, "XX", 0xe280_0004), "ADDXX R0, R0, #4");
    assert_eq!(format_ldr_str(0, "XX", 0xe5d1_0000), "LDRXXB R0, [R1]");
    assert_eq!(format_branch(0, "XX", 0xeb00_0000), "BLXX 8");
    assert_eq!(format_unimplemented(0, "XX", 0), "...XX");
}
