use vstd::prelude::*;
use crate::alu::FLAG_INTERRUPT;
use crate::bits::flag_set;
use crate::cpu::{
    lemma_instruction_keeps_timing, lemma_interrupt_keeps_timing, Cpu, Machine, DMA_CYCLES,
    INTERRUPT_CYCLES, NMI_VECTOR, OAM_DATA,
};
use crate::mapper::Mapper;
use crate::mem::{MemState, Memory};
use crate::opcode::law_cycles_of_the_table;

verus! {

impl<M: Mapper> Machine<M> {
    /// The machine `cycles` CPU cycles later.
    pub open spec fn after_cycles(self, cycles: nat) -> Self
        decreases cycles,
    {
        if cycles == 0 {
            self
        } else {
            self.after_cycles((cycles - 1) as nat).after_cycle()
        }
    }

    /// The CPU is between two instructions and a sprite DMA has been asked for.
    pub open spec fn dma_is_due(self) -> bool {
        &&& self.bus.dma
        &&& self.cpu.dma_remaining == 0
        &&& self.cpu.cycles_remaining == 0
    }

    /// How many cycles the sprite DMA that is due will hold the CPU: 513,
    /// and one more where it starts on an odd cycle.
    pub open spec fn dma_length(self) -> nat {
        (DMA_CYCLES + self.cpu.cycle_count % 2) as nat
    }

    /// How many cycles of the sprite DMA that is due pass before it reads
    /// byte `index` of the page.
    pub open spec fn dma_cycles_before(self, index: int) -> nat {
        (self.dma_length() - 512 + 2 * index) as nat
    }
}

/// The registers, the flags, the stack pointer and the program counter of
/// two CPUs are the same.
pub open spec fn same_registers(first: Cpu, second: Cpu) -> bool {
    &&& first.a == second.a
    &&& first.x == second.x
    &&& first.y == second.y
    &&& first.sp == second.sp
    &&& first.pc == second.pc
    &&& first.p == second.p
}

/// While a sprite DMA is under way the CPU does nothing else: after each
/// of its cycles one cycle less remains, the request is off the bus, and
/// the registers are as they were.
pub proof fn lemma_dma_progress<M: Mapper>(start: Machine<M>, cycles: nat)
    requires
        start.dma_is_due(),
        1 <= cycles <= start.dma_length(),
    ensures
        start.after_cycles(cycles).cpu.dma_remaining == start.dma_length() - cycles,
        start.after_cycles(cycles).cpu.dma_page == start.bus.oamdma,
        start.after_cycles(cycles).cpu.cycles_remaining == 0,
        same_registers(start.after_cycles(cycles).cpu, start.cpu),
        !start.after_cycles(cycles).bus.dma,
    decreases cycles,
{
    reveal(Machine::after_cycle);
    reveal(Machine::after_dma_cycle);
    if cycles == 1 {
        assert(start.after_cycles(0) == start);
    } else {
        lemma_dma_progress(start, (cycles - 1) as nat);
    }
}

/// A sprite DMA holds the CPU for 513 cycles, or for 514 where it starts on
/// an odd cycle: for that long nothing but the DMA happens, and then the
/// CPU is free again, with its registers as they were.
pub proof fn law_dma_holds_cpu<M: Mapper>(start: Machine<M>)
    requires
        start.dma_is_due(),
    ensures
        forall|cycles: nat|
            1 <= cycles < start.dma_length() ==> (#[trigger] start.after_cycles(
                cycles,
            )).cpu.dma_remaining > 0,
        start.after_cycles(start.dma_length()).cpu.dma_remaining == 0,
        start.after_cycles(start.dma_length()).cpu.cycles_remaining == 0,
        same_registers(start.after_cycles(start.dma_length()).cpu, start.cpu),
        !start.after_cycles(start.dma_length()).bus.dma,
{
    assert forall|cycles: nat| 1 <= cycles < start.dma_length() implies (#[trigger] start.after_cycles(
        cycles,
    )).cpu.dma_remaining > 0 by {
        lemma_dma_progress(start, cycles);
    }
    lemma_dma_progress(start, start.dma_length());
}

/// A sprite DMA copies the page that was written to `$4014`, byte by
/// byte: for each of its 256 bytes, one cycle reads the byte from the page
/// and the next writes it to the PPU's sprite data register, where it is
/// the byte in the mailbox.
pub proof fn law_dma_copies_page<M: Mapper>(start: Machine<M>, index: int)
    requires
        start.dma_is_due(),
        0 <= index < 256,
    ensures
        ({
            let before = start.after_cycles(start.dma_cycles_before(index));
            let read = start.after_cycles(start.dma_cycles_before(index) + 1);
            let written = start.after_cycles(start.dma_cycles_before(index) + 2);
            let address = (start.bus.oamdma * 256 + index) as u16;
            &&& read.cpu.dma_byte == before.bus.loaded(address)
            &&& read.bus == before.bus.after_load(address)
            &&& written.bus == read.bus.after_store(OAM_DATA, read.cpu.dma_byte)
            &&& written.bus.latch == before.bus.loaded(address)
            &&& written.bus.write_status == MemState::OamData
        }),
{
    reveal(Machine::after_cycle);
    reveal(Machine::after_dma_cycle);
    let cycles = start.dma_cycles_before(index);
    let before = start.after_cycles(cycles);
    let read = start.after_cycles(cycles + 1);
    lemma_dma_progress(start, cycles);
    lemma_dma_progress(start, cycles + 1);
    assert(read == before.after_cycle());
    assert(start.after_cycles(cycles + 2) == read.after_cycle());
}

impl<M: Mapper> Machine<M> {
    /// The CPU is between two instructions, and neither a sprite DMA nor an
    /// interrupt keeps it from the next one.
    pub open spec fn instruction_is_due(self) -> bool {
        &&& self.cpu.cycles_remaining == 0
        &&& self.cpu.dma_remaining == 0
        &&& !self.bus.dma
        &&& !self.cpu.nmi_pending
        &&& !(self.cpu.irq_pending && !flag_set(self.cpu.p, FLAG_INTERRUPT))
    }
}

/// An instruction takes between two and nine cycles.
pub proof fn lemma_instruction_cycles<M: Mapper>(start: Machine<M>)
    ensures
        2 <= start.instruction_cycles() <= 9,
{
    reveal(Machine::instruction_cycles);
    reveal(Machine::extra_cycles);
    law_cycles_of_the_table(start.peek(start.cpu.pc));
}

/// While an instruction is under way nothing happens but the passing of
/// its cycles and, on the cycle before its last, the look at the interrupt
/// lines.
pub proof fn lemma_instruction_progress<M: Mapper>(start: Machine<M>, cycles: nat)
    requires
        start.instruction_is_due(),
        1 <= cycles <= start.instruction_cycles(),
    ensures
        ({
            let now = start.after_cycles(cycles);
            let done = start.after_instruction();
            &&& now.cpu.cycles_remaining == start.instruction_cycles() - cycles
            &&& now.cpu.dma_remaining == 0
            &&& same_registers(now.cpu, done.cpu)
            &&& now.bus == (Memory { nmi: now.bus.nmi, ..done.bus })
            &&& cycles < start.instruction_cycles() - 1 ==> {
                &&& now.bus.nmi == done.bus.nmi
                &&& !now.cpu.nmi_pending
            }
            &&& cycles >= start.instruction_cycles() - 1 ==> {
                &&& !now.bus.nmi
                &&& now.cpu.nmi_pending == done.bus.nmi
                &&& now.cpu.irq_pending == done.bus.irq
            }
        }),
    decreases cycles,
{
    reveal(Machine::after_cycle);
    lemma_instruction_cycles(start);
    lemma_instruction_keeps_timing(start);
    if cycles == 1 {
        assert(start.after_cycles(0) == start);
    } else {
        lemma_instruction_progress(start, (cycles - 1) as nat);
    }
}

/// An instruction does its work on its first cycle and then holds the CPU
/// for as many cycles as it takes: on each of them the registers and the
/// bus are as the instruction left them, but for an NMI that the CPU takes
/// off the bus on the cycle before the last; after the last the CPU is free
/// for the next instruction.
pub proof fn law_instruction_takes_its_cycles<M: Mapper>(start: Machine<M>)
    requires
        start.instruction_is_due(),
    ensures
        2 <= start.instruction_cycles() <= 9,
        forall|cycles: nat|
            1 <= cycles <= start.instruction_cycles() ==> {
                let now = #[trigger] start.after_cycles(cycles);
                &&& same_registers(now.cpu, start.after_instruction().cpu)
                &&& now.bus == (Memory { nmi: now.bus.nmi, ..start.after_instruction().bus })
                &&& now.cpu.cycles_remaining == start.instruction_cycles() - cycles
            },
        start.after_cycles(start.instruction_cycles() as nat).cpu.cycles_remaining == 0,
        start.after_cycles(start.instruction_cycles() as nat).cpu.dma_remaining == 0,
{
    lemma_instruction_cycles(start);
    assert forall|cycles: nat| 1 <= cycles <= start.instruction_cycles() implies {
        let now = #[trigger] start.after_cycles(cycles);
        &&& same_registers(now.cpu, start.after_instruction().cpu)
        &&& now.bus == (Memory { nmi: now.bus.nmi, ..start.after_instruction().bus })
        &&& now.cpu.cycles_remaining == start.instruction_cycles() - cycles
    } by {
        lemma_instruction_progress(start, cycles);
    }
    lemma_instruction_progress(start, start.instruction_cycles() as nat);
}

/// An instruction leaves the interrupt lines and the DMA request on the
/// bus as they are.
#[verifier::rlimit(50)]
pub proof fn lemma_instruction_keeps_lines<M: Mapper>(start: Machine<M>)
    ensures
        start.after_instruction().bus.nmi == start.bus.nmi,
        start.after_instruction().bus.irq == start.bus.irq,
{
    reveal(Machine::after_instruction);
    reveal(Machine::after_target);
    reveal(Machine::after_op);
    reveal(Machine::entered);
}

/// An NMI that is on the bus when an instruction begins is served when the
/// instruction ends: the CPU sees it on the cycle before the instruction's
/// last, takes it off the bus, and on the cycle after the last enters the
/// interrupt through the NMI vector, which takes seven cycles. Only a sprite
/// DMA that the instruction asked for goes first.
pub proof fn law_nmi_is_served<M: Mapper>(start: Machine<M>)
    requires
        start.instruction_is_due(),
        start.bus.nmi,
        !start.after_instruction().bus.dma,
    ensures
        ({
            let ended = start.after_cycles(start.instruction_cycles() as nat);
            let entered = start.after_cycles((start.instruction_cycles() + 1) as nat);
            let cleared = Machine { cpu: Cpu { nmi_pending: false, ..ended.cpu }, ..ended };
            &&& ended.cpu.nmi_pending
            &&& !ended.bus.nmi
            &&& same_registers(ended.cpu, start.after_instruction().cpu)
            &&& same_registers(entered.cpu, cleared.interrupted(NMI_VECTOR).cpu)
            &&& entered.bus == cleared.interrupted(NMI_VECTOR).bus
            &&& entered.cpu.cycles_remaining == INTERRUPT_CYCLES - 1
            &&& !entered.cpu.nmi_pending
        }),
{
    reveal(Machine::after_cycle);
    let cycles = start.instruction_cycles();
    lemma_instruction_cycles(start);
    lemma_instruction_keeps_lines(start);
    lemma_instruction_keeps_timing(start);
    lemma_instruction_progress(start, cycles as nat);
    lemma_instruction_progress(start, (cycles - 1) as nat);
    if cycles > 2 {
        lemma_instruction_progress(start, (cycles - 2) as nat);
    } else {
        assert(start.after_cycles(0) == start);
    }
    let ended = start.after_cycles(cycles as nat);
    let cleared = Machine { cpu: Cpu { nmi_pending: false, ..ended.cpu }, ..ended };
    lemma_interrupt_keeps_timing(cleared, NMI_VECTOR);
    assert(start.after_cycles((cycles + 1) as nat) == ended.after_cycle());
}

} // verus!
