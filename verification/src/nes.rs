use vstd::prelude::*;
use crate::cpu::{law_cycle_is_counted, machine, Cpu};
use crate::mapper::Mapper;
use crate::mem::Memory;
use crate::ppu::{beam_step, law_beam_follows_step, law_tick_keeps_well_formed, Ppu};

verus! {

/// The console: the CPU, the PPU and the bus between them.
#[derive(Debug)]
pub struct Nes<M: Mapper> {
    pub cpu: Cpu,
    pub ppu: Ppu,
    pub mem: Memory<M>,
}

impl<M: Mapper> Nes<M> {
    /// The PPU is well-formed; the CPU and the bus always are.
    pub open spec fn wf(self) -> bool {
        self.ppu.wf()
    }

    /// The console after one PPU tick.
    pub open spec fn after_dot(self) -> Self {
        Nes {
            ppu: self.ppu.after_cycle(self.mem),
            mem: self.ppu.bus_after_cycle(self.mem),
            ..self
        }
    }

    /// The console after the CPU's part of a cycle: the controller is told
    /// which buttons are held down, and the CPU does one cycle.
    pub open spec fn after_cpu_cycle(self, keys: u8) -> Self {
        let after = machine(self.cpu, self.mem.after_keys(keys)).after_cycle();
        Nes { cpu: after.cpu, mem: after.bus, ..self }
    }

    /// The console one CPU cycle later: the CPU's cycle, then three PPU ticks.
    pub open spec fn after_cycle(self, keys: u8) -> Self {
        self.after_cpu_cycle(keys).after_dot().after_dot().after_dot()
    }

    /// A console around a cartridge, as it is before the reset.
    pub fn new(mapper: M) -> (nes: Self)
        ensures
            nes.wf(),
            nes.cpu == Cpu::initial(),
            nes.ppu.is_fresh(),
            nes.mem.is_fresh(),
            nes.mem.mapper == mapper,
    {
        Nes { cpu: Cpu::new(), ppu: Ppu::new(), mem: Memory::new(mapper) }
    }

    /// Whether the console is well-formed.
    pub fn is_valid(&self) -> (valid: bool)
        ensures
            valid == self.wf(),
    {
        self.ppu.is_valid()
    }

    /// Resets the CPU: execution starts where the cartridge's reset vector points.
    pub fn reset(&mut self)
        ensures
            machine(final(self).cpu, final(self).mem) == machine(
                old(self).cpu,
                old(self).mem,
            ).after_reset(),
            final(self).ppu == old(self).ppu,
    {
        self.cpu.reset(&mut self.mem);
    }

    /// One CPU cycle of the whole console: `keys` says which buttons are
    /// held down; then the CPU does one cycle and the PPU three ticks, and
    /// each tick sees what the CPU and the ticks before it left on the bus.
    pub fn cycle(&mut self, keys: u8)
        requires
            old(self).wf(),
        ensures
            *final(self) == old(self).after_cycle(keys),
            final(self).wf(),
    {
        self.mem.push_keys(keys);
        self.cpu.cycle(&mut self.mem);
        self.ppu.cycle(&mut self.mem);
        self.ppu.cycle(&mut self.mem);
        self.ppu.cycle(&mut self.mem);
    }
}

/// A well-formed console stays well-formed, whatever program runs on it
/// and whatever buttons are held down.
pub proof fn law_console_stays_well_formed<M: Mapper>(nes: Nes<M>, keys: u8)
    requires
        nes.wf(),
    ensures
        nes.after_cycle(keys).wf(),
{
    let first = nes.after_cpu_cycle(keys);
    let second = first.after_dot();
    let third = second.after_dot();
    law_tick_keeps_well_formed(first.ppu, first.mem);
    law_tick_keeps_well_formed(second.ppu, second.mem);
    law_tick_keeps_well_formed(third.ppu, third.mem);
}

/// The CPU and the PPU run in step, one to three: a cycle of the console
/// is one cycle of the CPU and moves the beam on by three dots.
pub proof fn law_lockstep<M: Mapper>(nes: Nes<M>, keys: u8)
    ensures
        nes.after_cycle(keys).cpu.cycle_count == nes.cpu.cycle_count.wrapping_add(1),
        ({
            let first = nes.after_cpu_cycle(keys);
            let second = first.after_dot();
            let third = second.after_dot();
            nes.after_cycle(keys).ppu.beam() == beam_step(
                beam_step(
                    beam_step(nes.ppu.beam(), first.ppu.after_latches(first.mem).shows_background()),
                    second.ppu.after_latches(second.mem).shows_background(),
                ),
                third.ppu.after_latches(third.mem).shows_background(),
            )
        }),
{
    let first = nes.after_cpu_cycle(keys);
    let second = first.after_dot();
    let third = second.after_dot();
    law_cycle_is_counted(machine(nes.cpu, nes.mem.after_keys(keys)));
    law_beam_follows_step(first.ppu, first.mem);
    law_beam_follows_step(second.ppu, second.mem);
    law_beam_follows_step(third.ppu, third.mem);
}

} // verus!
