//! The banked register file.
//!
//! Twenty-seven physical slots back sixteen logical registers. Which slot a
//! logical register names depends on the processor mode, and the mode lives
//! in the low bits of register 15 itself.

use vstd::prelude::*;

verus! {

/// Bits [25:2] of r15: the word-aligned program counter.
pub const PC_MASK: u32 = 0x03ff_fffc;

/// Bits [1:0] of r15: the processor mode.
pub const MODE_MASK: u32 = 0x0000_0003;

/// Bits [31:28] of r15: the condition flags N, Z, C and V.
pub const FLAGS_MASK: u32 = 0xf000_0000;

/// Number of physical storage slots.
pub const SLOT_COUNT: usize = 27;

/// Logical index of the program counter.
pub const PC: usize = 15;

/// Logical index of the link register.
pub const LR: usize = 14;

/// Processor mode, encoded in bits [1:0] of r15.
#[derive(Clone, Copy, Debug, PartialEq, Eq)]
pub enum Mode {
    User,
    Firq,
    Irq,
    Svc,
}

/// The mode that a value of r15 selects.
pub open spec fn mode_of(r15: u32) -> Mode {
    let bits = r15 & MODE_MASK;
    if bits == 0 {
        Mode::User
    } else if bits == 1 {
        Mode::Firq
    } else if bits == 2 {
        Mode::Irq
    } else {
        Mode::Svc
    }
}

/// The physical slot behind logical register `reg` in `mode`.
///
/// r0-r7 and r15 have one slot each. FIRQ banks r8-r14 into slots 16-22,
/// IRQ banks r13-r14 into slots 23-24, SVC banks r13-r14 into slots 25-26.
pub open spec fn slot(mode: Mode, reg: int) -> int {
    match mode {
        Mode::User => reg,
        Mode::Firq => if 8 <= reg <= 14 { reg + 8 } else { reg },
        Mode::Irq => if 13 <= reg <= 14 { reg + 10 } else { reg },
        Mode::Svc => if 13 <= reg <= 14 { reg + 12 } else { reg },
    }
}

/// The slot that `reg` names in the mode the slots themselves are in.
pub open spec fn current_slot(slots: Seq<u32>, reg: int) -> int {
    slot(mode_of(slots[PC as int]), reg)
}

/// Full-word read of a logical register.
pub open spec fn read_full(slots: Seq<u32>, reg: int) -> u32 {
    slots[current_slot(slots, reg)]
}

/// Full-word write of a logical register. Writing r15 replaces flags, mode
/// and address alike.
pub open spec fn write_full(slots: Seq<u32>, reg: int, value: u32) -> Seq<u32> {
    slots.update(current_slot(slots, reg), value)
}

/// Read that sees only the address bits of r15; any other register is read
/// in full.
pub open spec fn read_pc_masked(slots: Seq<u32>, reg: int) -> u32 {
    if reg == PC {
        slots[PC as int] & PC_MASK
    } else {
        read_full(slots, reg)
    }
}

/// The word r15 holds after its address bits are replaced by those of
/// `value`.
pub open spec fn splice_pc(r15: u32, value: u32) -> u32 {
    (r15 & !PC_MASK) | (value & PC_MASK)
}

/// Write that touches only the address bits of r15; any other register is
/// written in full.
pub open spec fn write_pc_masked(slots: Seq<u32>, reg: int, value: u32) -> Seq<u32> {
    if reg == PC {
        slots.update(PC as int, splice_pc(slots[PC as int], value))
    } else {
        write_full(slots, reg, value)
    }
}

/// Whether two modes keep `reg` in different slots.
pub open spec fn banked_apart(a: Mode, b: Mode, reg: int) -> bool {
    slot(a, reg) != slot(b, reg)
}

/// Which modes bank which registers apart: r13 and r14 in any two modes,
/// r8 to r12 only between FIRQ and another mode.
pub proof fn lemma_banks(a: Mode, b: Mode, reg: int)
    requires
        8 <= reg <= 14,
        a != b,
    ensures
        13 <= reg ==> banked_apart(a, b, reg),
        reg <= 12 ==> (banked_apart(a, b, reg) <==> a == Mode::Firq || b == Mode::Firq),
{
}

/// Register banking. Write `first` to a register in one mode, switch to a
/// mode that banks the register apart and write `second` there, switch
/// back: the register reads `first`.
pub proof fn lemma_banked_write_survives(
    slots: Seq<u32>,
    reg: int,
    first: u32,
    away: u32,
    second: u32,
    back: u32,
)
    requires
        slots.len() == SLOT_COUNT,
        8 <= reg <= 14,
        mode_of(back) == mode_of(slots[PC as int]),
        banked_apart(mode_of(slots[PC as int]), mode_of(away), reg),
    ensures
        read_full(
            write_full(
                write_full(
                    write_full(write_full(slots, reg, first), PC as int, away),
                    reg,
                    second,
                ),
                PC as int,
                back,
            ),
            reg,
        ) == first,
        read_full(
            write_full(write_full(write_full(slots, reg, first), PC as int, away), reg, second),
            reg,
        ) == second,
{
}

/// A write through the address-only path changes bits [25:2] of r15 and
/// nothing else: flags, mode and every other slot stay, and the address
/// reads back as written.
pub proof fn lemma_pc_masked_write_keeps_flags_and_mode(slots: Seq<u32>, value: u32)
    requires
        slots.len() == SLOT_COUNT,
    ensures
        ({
            let after = write_pc_masked(slots, PC as int, value);
            &&& after[PC as int] & !PC_MASK == slots[PC as int] & !PC_MASK
            &&& after[PC as int] & FLAGS_MASK == slots[PC as int] & FLAGS_MASK
            &&& after[PC as int] & MODE_MASK == slots[PC as int] & MODE_MASK
            &&& mode_of(after[PC as int]) == mode_of(slots[PC as int])
            &&& read_pc_masked(after, PC as int) == value & PC_MASK
            &&& forall|i: int| 0 <= i < SLOT_COUNT && i != PC ==> after[i] == slots[i]
        }),
{
    let old15 = slots[PC as int];
    let new15 = splice_pc(old15, value);
    assert(new15 & !0x03ff_fffcu32 == old15 & !0x03ff_fffcu32) by (bit_vector)
        requires
            new15 == (old15 & !0x03ff_fffcu32) | (value & 0x03ff_fffcu32),
    ;
    assert(new15 & 0xf000_0000u32 == old15 & 0xf000_0000u32) by (bit_vector)
        requires
            new15 == (old15 & !0x03ff_fffcu32) | (value & 0x03ff_fffcu32),
    ;
    assert(new15 & 3u32 == old15 & 3u32) by (bit_vector)
        requires
            new15 == (old15 & !0x03ff_fffcu32) | (value & 0x03ff_fffcu32),
    ;
    assert(new15 & 0x03ff_fffcu32 == value & 0x03ff_fffcu32) by (bit_vector)
        requires
            new15 == (old15 & !0x03ff_fffcu32) | (value & 0x03ff_fffcu32),
    ;
}

/// A full write of r15 replaces the whole word, and the mode follows its
/// low bits.
pub proof fn lemma_full_write_replaces_r15(slots: Seq<u32>, value: u32)
    requires
        slots.len() == SLOT_COUNT,
    ensures
        ({
            let after = write_full(slots, PC as int, value);
            &&& read_full(after, PC as int) == value
            &&& mode_of(after[PC as int]) == mode_of(value)
            &&& forall|i: int| 0 <= i < SLOT_COUNT && i != PC ==> after[i] == slots[i]
        }),
{
}

/// The register file: r0 to r15 as the current mode sees them.
pub struct RegisterFile {
    registers: [u32; 27],
}

impl View for RegisterFile {
    type V = Seq<u32>;

    closed spec fn view(&self) -> Seq<u32> {
        self.registers@
    }
}

impl RegisterFile {
    /// Every register file has exactly `SLOT_COUNT` slots.
    pub proof fn lemma_slot_count(&self)
        ensures
            self@.len() == SLOT_COUNT,
    {
    }

    /// All slots zero: User mode, flags clear, program counter 0.
    pub fn new() -> (rf: RegisterFile)
        ensures
            rf@ == Seq::new(SLOT_COUNT as nat, |i: int| 0u32),
    {
        RegisterFile { registers: [0; 27] }
    }

    /// The slot behind `reg` in the current mode.
    fn offset(&self, reg: usize) -> (index: usize)
        requires
            reg < 16,
        ensures
            index == current_slot(self@, reg as int),
            index < SLOT_COUNT,
    {
        if reg == 15 {
            15
        } else {
            match self.mode() {
                Mode::User => reg,
                Mode::Firq => if reg >= 8 { reg + 8 } else { reg },
                Mode::Irq => if reg >= 13 { reg + 10 } else { reg },
                Mode::Svc => if reg >= 13 { reg + 12 } else { reg },
            }
        }
    }

    /// Full-word write.
    pub fn set_reg(&mut self, reg: usize, value: u32)
        requires
            reg < 16,
        ensures
            final(self)@ == write_full(old(self)@, reg as int, value),
    {
        let index = self.offset(reg);
        self.registers[index] = value;
    }

    /// Full-word read.
    pub fn reg(&self, reg: usize) -> (value: u32)
        requires
            reg < 16,
        ensures
            value == read_full(self@, reg as int),
    {
        self.registers[self.offset(reg)]
    }

    /// Write that leaves the flags and mode of r15 alone.
    pub fn set_reg_no_flags(&mut self, reg: usize, value: u32)
        requires
            reg < 16,
        ensures
            final(self)@ == write_pc_masked(old(self)@, reg as int, value),
    {
        if reg == 15 {
            self.registers[15] = (self.registers[15] & !PC_MASK) | (value & PC_MASK);
        } else {
            self.set_reg(reg, value);
        }
    }

    /// Read that hides the flags and mode of r15.
    pub fn reg_no_flags(&self, reg: usize) -> (value: u32)
        requires
            reg < 16,
        ensures
            value == read_pc_masked(self@, reg as int),
    {
        if reg == 15 {
            self.registers[15] & PC_MASK
        } else {
            self.reg(reg)
        }
    }

    /// The current processor mode.
    pub fn mode(&self) -> (mode: Mode)
        ensures
            mode == mode_of(self@[PC as int]),
    {
        let bits = self.registers[15] & MODE_MASK;
        if bits == 0 {
            Mode::User
        } else if bits == 1 {
            Mode::Firq
        } else if bits == 2 {
            Mode::Irq
        } else {
            Mode::Svc
        }
    }
}

} // verus!
