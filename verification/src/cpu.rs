//! The engine: fetch, test the condition, execute, advance.

use vstd::prelude::*;
use crate::disassembly::{condition_suffix, instruction_text};
use crate::encoding::{branch_offset, class, condition, flag, LINK_BIT};
use crate::fault::Fault;
use crate::instructions::{
    branch_spec, exec, exec_spec, lemma_branch_with_link, lemma_exec_frame, Action,
};
use crate::memory::{after_access, load_result, Memory, MemoryState, RAM_WORDS};
use crate::registers::{
    lemma_pc_masked_write_keeps_flags_and_mode, read_full, read_pc_masked, write_pc_masked,
    RegisterFile, FLAGS_MASK, LR, PC, PC_MASK, SLOT_COUNT,
};
use crate::text::{hex_word, push_hex_word};

verus! {

/// Where execution starts.
pub const RESET_VECTOR: u32 = 0x00;

// The other exception vectors. Nothing raises an exception yet; the
// addresses are reserved.
pub const UNDEFINED_INSTRUCTION_VECTOR: u32 = 0x04;

pub const SWI_VECTOR: u32 = 0x08;

pub const PREFETCH_ABORT_VECTOR: u32 = 0x0c;

pub const DATA_ABORT_VECTOR: u32 = 0x10;

pub const ADDRESS_EXCEPTION_VECTOR: u32 = 0x14;

pub const IRQ_VECTOR: u32 = 0x18;

pub const FIRQ_VECTOR: u32 = 0x1c;

/// How far r15 runs ahead of the instruction being executed.
pub const PIPELINE_OFFSET: u32 = 8;

// The condition flags in r15.
pub const N_BIT: u32 = 0x8000_0000;

pub const Z_BIT: u32 = 0x4000_0000;

pub const C_BIT: u32 = 0x2000_0000;

pub const V_BIT: u32 = 0x1000_0000;

/// Whether the flags in `r15` satisfy the condition field `cond`.
///
/// VS and VC test Z, as EQ and NE do.
pub open spec fn condition_holds(cond: u32, r15: u32) -> bool {
    let n = r15 & N_BIT != 0;
    let z = r15 & Z_BIT != 0;
    let c = r15 & C_BIT != 0;
    let v = r15 & V_BIT != 0;
    match cond {
        0x0 => z,
        0x1 => !z,
        0x2 => c,
        0x3 => !c,
        0x4 => n,
        0x5 => !n,
        0x6 => z,
        0x7 => !z,
        0x8 => c && !z,
        0x9 => !(c && !z),
        0xa => n == v,
        0xb => n != v,
        0xc => !z && n == v,
        0xd => z || n != v,
        0xe => true,
        _ => false,
    }
}

/// The machine, as mathematics.
pub struct CpuState {
    pub registers: Seq<u32>,
    pub memory: MemoryState,
}

/// The machine at reset: User mode, flags clear, r15 one pipeline ahead of
/// the reset vector, RAM zeroed, ROM overlaid.
pub open spec fn reset_state(rom: Seq<u32>) -> CpuState {
    CpuState {
        registers: Seq::new(SLOT_COUNT as nat, |i: int| 0u32).update(
            PC as int,
            (RESET_VECTOR + PIPELINE_OFFSET) as u32,
        ),
        memory: MemoryState {
            ram: Seq::new(RAM_WORDS as nat, |i: int| 0u32),
            rom,
            rom_mapped: true,
        },
    }
}

/// The address of the instruction that a step executes.
pub open spec fn fetch_address(registers: Seq<u32>) -> u32 {
    read_pc_masked(registers, PC as int).wrapping_sub(PIPELINE_OFFSET)
}

/// How far the program counter moves after an instruction.
pub open spec fn increment(action: Action) -> u32 {
    match action {
        Action::Continue => 4,
        Action::Flush => 8,
    }
}

/// The registers after the program counter has moved on; flags and mode
/// stay.
pub open spec fn advance(registers: Seq<u32>, action: Action) -> Seq<u32> {
    write_pc_masked(
        registers,
        PC as int,
        read_pc_masked(registers, PC as int).wrapping_add(increment(action)),
    )
}

/// One line of trace: fetch address, instruction word, disassembly.
pub open spec fn trace_text(address: u32, word: u32) -> Seq<char> {
    hex_word(address) + "  "@ + hex_word(word) + "  "@ + instruction_text(
        address,
        condition_suffix(condition(word)),
        word,
    )
}

/// One step of the machine: where it ends up, the word it fetched if the
/// fetch succeeded, and how the step ended.
pub struct Stepped {
    pub state: CpuState,
    pub word: Option<u32>,
    pub result: Result<Action, Fault>,
}

/// One cycle of the engine. The instruction eight behind r15 is fetched; a
/// fetch that faults ends the step there. If the flags satisfy its
/// condition the instruction is executed, and a fault in execution ends
/// the step with the program counter unmoved. Otherwise the program
/// counter moves on: by four, or by eight past a target that the
/// instruction wrote.
pub open spec fn step_spec(cpu: CpuState) -> Stepped {
    let address = fetch_address(cpu.registers);
    let fetched = after_access(cpu.memory, address);
    match load_result(cpu.memory, address) {
        Err(fault) => Stepped {
            state: CpuState { registers: cpu.registers, memory: fetched },
            word: None,
            result: Err(fault),
        },
        Ok(word) => if condition_holds(condition(word), read_full(cpu.registers, PC as int)) {
            let done = exec_spec(cpu.registers, fetched, word);
            match done.result {
                Ok(action) => Stepped {
                    state: CpuState {
                        registers: advance(done.registers, action),
                        memory: done.memory,
                    },
                    word: Some(word),
                    result: Ok(action),
                },
                Err(fault) => Stepped {
                    state: CpuState { registers: done.registers, memory: done.memory },
                    word: Some(word),
                    result: Err(fault),
                },
            }
        } else {
            Stepped {
                state: CpuState {
                    registers: advance(cpu.registers, Action::Continue),
                    memory: fetched,
                },
                word: Some(word),
                result: Ok(Action::Continue),
            }
        },
    }
}

/// Condition gating. An instruction whose condition fails is fetched and
/// passed over: the program counter moves on by four and nothing else in
/// the registers changes; memory is as the fetch left it.
pub proof fn lemma_failed_condition_skips(cpu: CpuState, word: u32)
    requires
        load_result(cpu.memory, fetch_address(cpu.registers)) == Ok::<u32, Fault>(word),
        !condition_holds(condition(word), read_full(cpu.registers, PC as int)),
    ensures
        step_spec(cpu).state.registers == advance(cpu.registers, Action::Continue),
        step_spec(cpu).state.memory == after_access(cpu.memory, fetch_address(cpu.registers)),
        step_spec(cpu).result == Ok::<Action, Fault>(Action::Continue),
{
}

/// An instruction whose condition holds is executed, and the program
/// counter moves on from where execution left it.
pub proof fn lemma_met_condition_executes(cpu: CpuState, word: u32)
    requires
        load_result(cpu.memory, fetch_address(cpu.registers)) == Ok::<u32, Fault>(word),
        condition_holds(condition(word), read_full(cpu.registers, PC as int)),
    ensures
        ({
            let done = exec_spec(
                cpu.registers,
                after_access(cpu.memory, fetch_address(cpu.registers)),
                word,
            );
            &&& step_spec(cpu).result == done.result
            &&& step_spec(cpu).state.memory == done.memory
            &&& step_spec(cpu).state.registers == match done.result {
                Ok(action) => advance(done.registers, action),
                Err(_) => done.registers,
            }
        }),
{
}

/// With Z set and N, C and V clear, EQ holds and NE does not.
pub proof fn lemma_zero_flag_alone(r15: u32)
    requires
        r15 & FLAGS_MASK == Z_BIT,
    ensures
        condition_holds(0x0, r15),
        !condition_holds(0x1, r15),
{
    assert(r15 & 0x4000_0000u32 != 0) by (bit_vector)
        requires
            r15 & 0xf000_0000u32 == 0x4000_0000u32,
    ;
}

/// Branch with link and no offset, fetched at any address: r14 receives the
/// program counter of the step, the step reports a flush, and the program
/// counter ends eight beyond the target, which is that same value.
pub proof fn lemma_branch_with_link_step(cpu: CpuState)
    requires
        cpu.registers.len() == SLOT_COUNT,
        load_result(cpu.memory, fetch_address(cpu.registers)) == Ok::<u32, Fault>(0xeb00_0000u32),
    ensures
        ({
            let pc = read_pc_masked(cpu.registers, PC as int);
            let after = step_spec(cpu);
            &&& after.result == Ok::<Action, Fault>(Action::Flush)
            &&& read_full(after.state.registers, LR as int) == pc
            &&& read_pc_masked(after.state.registers, PC as int) == pc.wrapping_add(8) & PC_MASK
            &&& after.state.registers[PC as int] & !PC_MASK == cpu.registers[PC as int] & !PC_MASK
        }),
{
    let word = 0xeb00_0000u32;
    let pc = read_pc_masked(cpu.registers, PC as int);
    assert(condition(word) == 0xe) by (bit_vector)
        requires
            word == 0xeb00_0000u32,
    ;
    assert(class(word) == 0xb) by (bit_vector)
        requires
            word == 0xeb00_0000u32,
    ;
    assert(flag(word, LINK_BIT)) by (bit_vector)
        requires
            word == 0xeb00_0000u32,
    ;
    assert(branch_offset(word) == 0) by (bit_vector)
        requires
            word == 0xeb00_0000u32,
    ;
    lemma_branch_with_link(cpu.registers, word);
    let branched = branch_spec(cpu.registers, word);
    lemma_pc_masked_write_keeps_flags_and_mode(branched, pc.wrapping_add(8));
}

/// A step is whole or it is nothing: one that faults leaves every register
/// as it was, the program counter included. No step changes RAM or ROM,
/// and none sets the overlay flag once it is clear.
pub proof fn lemma_step_frame(cpu: CpuState)
    requires
        cpu.registers.len() == SLOT_COUNT,
    ensures
        ({
            let after = step_spec(cpu);
            &&& after.result is Err ==> after.state.registers == cpu.registers
            &&& after.state.registers.len() == cpu.registers.len()
            &&& after.state.memory.ram == cpu.memory.ram
            &&& after.state.memory.rom == cpu.memory.rom
            &&& !cpu.memory.rom_mapped ==> !after.state.memory.rom_mapped
        }),
{
    let address = fetch_address(cpu.registers);
    let fetched = after_access(cpu.memory, address);
    match load_result(cpu.memory, address) {
        Ok(word) => {
            lemma_exec_frame(cpu.registers, fetched, word);
        },
        Err(_) => {},
    }
}

/// Where and why the machine stopped.
#[derive(Clone, Copy, Debug, PartialEq, Eq)]
pub struct Halt {
    /// Where the failing instruction was fetched from.
    pub address: u32,
    /// The failing instruction, unless the fetch itself faulted.
    pub word: Option<u32>,
    /// The feature that is missing.
    pub fault: Fault,
}

/// The text a step adds to the trace: the line of the instruction it
/// fetched and a line feed, or nothing where the fetch faulted.
pub open spec fn step_trace(cpu: CpuState) -> Seq<char> {
    match step_spec(cpu).word {
        Some(word) => trace_text(fetch_address(cpu.registers), word) + "\n"@,
        None => Seq::empty(),
    }
}

/// A run of the machine: where it ends up, how many instructions it
/// completed, the trace of every instruction it fetched, and the fault
/// that stopped it, if one did.
pub struct Ran {
    pub state: CpuState,
    pub steps: nat,
    pub trace: Seq<char>,
    pub halt: Option<Halt>,
}

/// Steps the machine until a fault stops it or `budget` instructions have
/// completed.
pub open spec fn run_spec(cpu: CpuState, budget: nat) -> Ran
    decreases budget,
{
    if budget == 0 {
        Ran { state: cpu, steps: 0, trace: Seq::empty(), halt: None }
    } else {
        let stepped = step_spec(cpu);
        match stepped.result {
            Err(fault) => Ran {
                state: stepped.state,
                steps: 0,
                trace: step_trace(cpu),
                halt: Some(
                    Halt { address: fetch_address(cpu.registers), word: stepped.word, fault },
                ),
            },
            Ok(_) => {
                let rest = run_spec(stepped.state, (budget - 1) as nat);
                Ran {
                    state: rest.state,
                    steps: rest.steps + 1,
                    trace: step_trace(cpu) + rest.trace,
                    halt: rest.halt,
                }
            },
        }
    }
}

/// Across a whole run RAM and ROM hold what they held, and the overlay
/// flag, once clear, is clear at the end.
pub proof fn lemma_run_frame(cpu: CpuState, budget: nat)
    requires
        cpu.registers.len() == SLOT_COUNT,
    ensures
        ({
            let after = run_spec(cpu, budget);
            &&& after.state.registers.len() == cpu.registers.len()
            &&& after.state.memory.ram == cpu.memory.ram
            &&& after.state.memory.rom == cpu.memory.rom
            &&& !cpu.memory.rom_mapped ==> !after.state.memory.rom_mapped
            &&& after.steps <= budget
            &&& after.halt is None ==> after.steps == budget
        }),
    decreases budget,
{
    if budget > 0 {
        lemma_step_frame(cpu);
        if step_spec(cpu).result is Ok {
            lemma_run_frame(step_spec(cpu).state, (budget - 1) as nat);
        }
    }
}

/// What a run hands back to its caller.
pub struct RunReport {
    /// Instructions completed.
    pub steps: u64,
    /// The trace line of every instruction fetched, each ended by a line
    /// feed.
    pub trace: String,
    /// The fault that ended the run, or `None` where the budget ran out.
    pub halt: Option<Halt>,
}

/// What a step hands back to its caller.
pub struct StepReport {
    /// Where the instruction was fetched from.
    pub address: u32,
    /// The instruction word, unless the fetch itself faulted.
    pub word: Option<u32>,
    /// The trace line of the instruction, present whenever `word` is.
    pub trace: Option<String>,
    /// The pipeline effect of the instruction, or the fault that stopped
    /// the machine.
    pub result: Result<Action, Fault>,
}

/// The engine. It owns its register file and its memory controller for as
/// long as it lives.
pub struct Cpu {
    pub registers: RegisterFile,
    pub memory: Memory,
}

impl View for Cpu {
    type V = CpuState;

    open spec fn view(&self) -> CpuState {
        CpuState { registers: self.registers@, memory: self.memory@ }
    }
}

/// The trace line for `word` fetched at `address`.
pub fn trace_line(address: u32, word: u32) -> (line: String)
    ensures
        line@ == trace_text(address, word),
{
    assert(word >> 28 < 16) by (bit_vector);
    let cond = (word >> 28) as u8;
    let stringified = crate::disassembly::format(address, cond, word);

    let mut line = String::new();
    push_hex_word(&mut line, address);
    line.append("  ");
    push_hex_word(&mut line, word);
    line.append("  ");
    line.append(stringified.as_str());
    line
}

impl Cpu {
    /// A machine at reset with `rom` installed.
    pub fn new(rom: Box<[u32]>) -> (cpu: Cpu)
        ensures
            cpu@ == reset_state(rom@),
    {
        let mut cpu = Cpu { registers: RegisterFile::new(), memory: Memory::new(rom) };

        // Start executing from the reset vector (accounting for pipeline offset)
        cpu.registers.set_reg(PC, RESET_VECTOR + PIPELINE_OFFSET);
        cpu
    }

    /// Fetches the instruction behind the program counter, executes it if
    /// its condition holds, and moves the program counter on. A fault
    /// leaves the program counter where it was.
    pub fn step(&mut self) -> (report: StepReport)
        ensures
            final(self)@ == step_spec(old(self)@).state,
            report.address == fetch_address(old(self)@.registers),
            report.word == step_spec(old(self)@).word,
            report.result == step_spec(old(self)@).result,
            match report.word {
                Some(word) => report.trace is Some && report.trace->0@ == trace_text(
                    report.address,
                    word,
                ),
                None => report.trace is None,
            },
    {
        let fetch_address = self.registers.reg_no_flags(PC).wrapping_sub(PIPELINE_OFFSET);
        let fetched_word = match self.memory.load(fetch_address) {
            Ok(word) => word,
            Err(fault) => {
                return StepReport {
                    address: fetch_address,
                    word: None,
                    trace: None,
                    result: Err(fault),
                };
            },
        };
        assert(fetched_word >> 28 < 16) by (bit_vector);
        let cond = (fetched_word >> 28) as u8;
        let trace = trace_line(fetch_address, fetched_word);

        let action = if Self::condition_met(cond, self.registers.reg(PC)) {
            match exec(&mut self.registers, &mut self.memory, fetched_word) {
                Ok(action) => action,
                Err(fault) => {
                    return StepReport {
                        address: fetch_address,
                        word: Some(fetched_word),
                        trace: Some(trace),
                        result: Err(fault),
                    };
                },
            }
        } else {
            Action::Continue
        };

        let pc_increment: u32 = match action {
            // Increment PC to next instruction
            Action::Continue => 4,
            // The pipeline would be flushed here: the next fetch is at the
            // new program counter, so r15 runs ahead of it by 8 again
            Action::Flush => 8,
        };

        let new_pc = self.registers.reg_no_flags(PC).wrapping_add(pc_increment);
        self.registers.set_reg_no_flags(PC, new_pc);
        StepReport {
            address: fetch_address,
            word: Some(fetched_word),
            trace: Some(trace),
            result: Ok(action),
        }
    }

    /// Steps until a fault stops the machine or `budget` instructions have
    /// completed, and collects the trace.
    pub fn run(&mut self, budget: u64) -> (report: RunReport)
        ensures
            final(self)@ == run_spec(old(self)@, budget as nat).state,
            report.steps == run_spec(old(self)@, budget as nat).steps,
            report.trace@ == run_spec(old(self)@, budget as nat).trace,
            report.halt == run_spec(old(self)@, budget as nat).halt,
    {
        let mut steps: u64 = 0;
        let mut trace = String::new();
        let mut halt: Option<Halt> = None;
        while steps < budget && halt.is_none()
            invariant
                steps <= budget,
                halt is None ==> ({
                    let rest = run_spec(self@, (budget - steps) as nat);
                    let whole = run_spec(old(self)@, budget as nat);
                    &&& whole.state == rest.state
                    &&& whole.steps == steps + rest.steps
                    &&& whole.trace == trace@ + rest.trace
                    &&& whole.halt == rest.halt
                }),
                halt is Some ==> ({
                    let whole = run_spec(old(self)@, budget as nat);
                    &&& whole.state == self@
                    &&& whole.steps == steps
                    &&& whole.trace == trace@
                    &&& whole.halt == halt
                }),
            decreases budget - steps + (if halt is None { 1int } else { 0int }),
        {
            let ghost before = self@;
            let ghost so_far = trace@;
            let report = self.step();
            match report.trace {
                Some(line) => {
                    trace.append(line.as_str());
                    trace.append("\n");
                },
                None => {},
            }
            assert(trace@ == so_far + step_trace(before));
            match report.result {
                Ok(_) => {
                    steps = steps + 1;
                },
                Err(fault) => {
                    halt = Some(Halt { address: report.address, word: report.word, fault });
                },
            }
        }
        RunReport { steps, trace, halt }
    }

    /// Tests a condition field against the flags in `r15`.
    pub fn condition_met(cond: u8, r15: u32) -> (met: bool)
        requires
            cond < 16,
        ensures
            met == condition_holds(cond as u32, r15),
    {
        let n = r15 & N_BIT != 0;
        let z = r15 & Z_BIT != 0;
        let c = r15 & C_BIT != 0;
        let v = r15 & V_BIT != 0;
        match cond {
            0x0 /* EQ */ => z,
            0x1 /* NE */ => !z,
            0x2 /* CS */ => c,
            0x3 /* CC */ => !c,
            0x4 /* MI */ => n,
            0x5 /* PL */ => !n,
            0x6 /* VS */ => z,
            0x7 /* VC */ => !z,
            0x8 /* HI */ => c && !z,
            0x9 /* LS */ => !(c && !z),
            0xa /* GE */ => n == v,
            0xb /* LT */ => n != v,
            0xc /* GT */ => !z && n == v,
            0xd /* LE */ => z || n != v,
            0xe /* AL */ => true,
            _ /* NV */ => false,
        }
    }
}

} // verus!
