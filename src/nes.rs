use vstd::prelude::*;

use crate::apu::Apu;
use crate::bus::{zeroed_memory, Bus};
use crate::cpu::{power_on, Cpu};
use crate::opcode::CpuError;
use crate::ppu::Ppu;
use crate::semantics::step;

verus! {

/// The console: the processor, the two peripheral units and the one bus
/// that they share. The bus is owned here and lent to each unit in turn, so
/// exactly one of them touches it at any moment.
pub struct Nes {
    pub cpu: Cpu,
    pub ppu: Ppu,
    pub apu: Apu,
    pub bus: Bus,
}

impl Nes {
    pub fn new() -> (nes: Self)
        ensures
            nes.cpu == power_on(),
            nes.bus@ == zeroed_memory(),
    {
        Nes { cpu: Cpu::new(), ppu: Ppu::new(), apu: Apu::new(), bus: Bus::new() }
    }

    /// Puts the registers and the memory back to their power-on state.
    pub fn reset(&mut self)
        ensures
            final(self).cpu == power_on(),
            final(self).bus@ == zeroed_memory(),
    {
        self.cpu.reset();
        self.bus.reset();
    }

    /// Runs one instruction against the shared bus.
    pub fn step(&mut self) -> (r: Result<(), CpuError>)
        ensures
            (final(self).cpu, final(self).bus@, r) == step(old(self).cpu, old(self).bus@),
    {
        self.cpu.execute_opcode(&mut self.bus)
    }
}

} // verus!
