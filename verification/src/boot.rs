//! Power-on.

use vstd::prelude::*;
use crate::cpu::{reset_state, run_spec, Cpu, RunReport};

verus! {

/// Builds a machine around `rom`, resets it and runs it for at most
/// `budget` instructions.
pub fn boot(rom: Box<[u32]>, budget: u64) -> (report: RunReport)
    ensures
        report.steps == run_spec(reset_state(rom@), budget as nat).steps,
        report.trace@ == run_spec(reset_state(rom@), budget as nat).trace,
        report.halt == run_spec(reset_state(rom@), budget as nat).halt,
{
    let mut cpu = Cpu::new(rom);
    cpu.run(budget)
}

} // verus!
