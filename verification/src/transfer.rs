use vstd::prelude::*;
use crate::cpu::{machine, Machine};
use crate::mapper::Mapper;
use crate::mem::{MemState, Memory};
use crate::nes::Nes;
use crate::ppu::Ppu;

verus! {

/// What the PPU's taking of the mailbox does to the sprite memory and to
/// the bus.
pub proof fn lemma_latches_and_sprite_memory<M: Mapper>(ppu: Ppu, bus: Memory<M>)
    ensures
        ({
            let after = ppu.after_latches(bus);
            let bus_after = ppu.bus_after_latches(bus);
            &&& bus_after.ram == bus.ram
            &&& bus_after.write_status == MemState::NoState
            &&& bus_after.read_status == MemState::NoState
            &&& bus_after.dma == bus.dma
            &&& bus_after.oamdma == bus.oamdma
            &&& after.oam.mem == if bus.write_status == MemState::OamData {
                vstd::array::spec_array_update(ppu.oam.mem, ppu.oam.address as int, bus.latch)
            } else {
                ppu.oam.mem
            }
            &&& after.oam.address == if bus.write_status == MemState::OamData {
                ppu.oam.address.wrapping_add(1)
            } else if bus.write_status == MemState::OamAddr {
                bus.latch
            } else {
                ppu.oam.address
            }
        }),
{
    reveal(Ppu::after_latches);
    reveal(Ppu::bus_after_latches);
}

/// Rendering reads the sprite memory and never writes it.
pub proof fn lemma_render_and_sprite_memory<M: Mapper>(ppu: Ppu, bus: Memory<M>)
    ensures
        ppu.after_render(bus).oam.mem == ppu.oam.mem,
        ppu.after_render(bus).oam.address == ppu.oam.address,
{
    reveal(Ppu::after_render);
}

/// What a PPU tick does to the sprite memory and to the bus, whatever it
/// draws: it takes a byte out of the mailbox into the sprite memory where
/// the CPU wrote one to the sprite data register, and moves the sprite
/// address where the CPU wrote to either sprite register; it leaves the RAM
/// and the DMA request alone, and the mailbox empty.
pub proof fn lemma_tick_and_sprite_memory<M: Mapper>(ppu: Ppu, bus: Memory<M>)
    ensures
        ({
            let after = ppu.after_cycle(bus);
            let bus_after = ppu.bus_after_cycle(bus);
            &&& bus_after.ram == bus.ram
            &&& bus_after.write_status == MemState::NoState
            &&& bus_after.read_status == MemState::NoState
            &&& bus_after.dma == bus.dma
            &&& bus_after.oamdma == bus.oamdma
            &&& after.oam.mem == if bus.write_status == MemState::OamData {
                vstd::array::spec_array_update(ppu.oam.mem, ppu.oam.address as int, bus.latch)
            } else {
                ppu.oam.mem
            }
            &&& after.oam.address == if bus.write_status == MemState::OamData {
                ppu.oam.address.wrapping_add(1)
            } else if bus.write_status == MemState::OamAddr {
                bus.latch
            } else {
                ppu.oam.address
            }
        }),
{
    reveal(Ppu::after_cycle);
    reveal(Ppu::bus_after_cycle);
    lemma_latches_and_sprite_memory(ppu, bus);
    lemma_render_and_sprite_memory(ppu.after_latches(bus), ppu.bus_after_latches(bus));
}

impl<M: Mapper> Nes<M> {
    /// The console `cycles` CPU cycles later, where `keys` says for each of
    /// the cycles which buttons are held down.
    pub open spec fn after_cycles(self, cycles: nat, keys: spec_fn(nat) -> u8) -> Self
        decreases cycles,
    {
        if cycles == 0 {
            self
        } else {
            self.after_cycles((cycles - 1) as nat, keys).after_cycle(keys((cycles - 1) as nat))
        }
    }

    /// The CPU is between two instructions, a sprite DMA from a page of the
    /// RAM has been asked for, and the mailbox is empty.
    pub open spec fn transfer_is_due(self) -> bool {
        &&& machine(self.cpu, self.mem).dma_is_due()
        &&& self.mem.oamdma < 0x20
        &&& self.mem.write_status == MemState::NoState
    }

    /// What holds of the console in the middle of a sprite DMA from page
    /// `page` of the RAM `ram`, with `left` cycles of it to go, where the
    /// sprite address was `first` when the DMA began: the bytes written so
    /// far stand in the sprite memory, from `first` on, and the sprite
    /// address is behind them; a byte that was read and is not written yet is
    /// the next byte of the page.
    pub open spec fn transferring(self, ram: [u8; 2048], page: u8, first: u8, left: int) -> bool {
        let done = bytes_done(left);
        &&& self.cpu.dma_remaining == left
        &&& self.cpu.dma_page == page
        &&& self.cpu.cycles_remaining == 0
        &&& self.mem.ram == ram
        &&& self.mem.write_status == MemState::NoState
        &&& !self.mem.dma
        &&& self.ppu.oam.address == (first + done) % 256
        &&& forall|i: int|
            0 <= i < done ==> self.ppu.oam.mem[(first + i) % 256] == #[trigger] source(ram, page, i)
        &&& left % 2 == 1 && left < 512 ==> self.cpu.dma_byte == source(ram, page, done)
    }
}

/// Byte `index` of page `page` of the RAM.
pub open spec fn source(ram: [u8; 2048], page: u8, index: int) -> u8 {
    ram[(page * 256 + index) % 2048]
}

/// How many bytes a sprite DMA has written when `left` of its cycles remain.
pub open spec fn bytes_done(left: int) -> int {
    if left >= 512 {
        0
    } else {
        (512 - left) / 2
    }
}

/// The first cycle of a sprite DMA waits.
pub proof fn lemma_transfer_starts<M: Mapper>(nes: Nes<M>, keys: u8)
    requires
        nes.transfer_is_due(),
    ensures
        nes.after_cycle(keys).transferring(
            nes.mem.ram,
            nes.mem.oamdma,
            nes.ppu.oam.address,
            machine(nes.cpu, nes.mem).dma_length() - 1,
        ),
{
    reveal(Machine::after_cycle);
    reveal(Machine::after_dma_cycle);
    lemma_transfer_ppu(nes.after_cpu_cycle(keys));
}

/// The CPU's part of a console cycle in the middle of a sprite DMA: the
/// CPU waits, or reads the next byte of the page, or writes the byte that it
/// read to the sprite data register.
pub proof fn lemma_transfer_cpu<M: Mapper>(
    nes: Nes<M>,
    keys: u8,
    ram: [u8; 2048],
    page: u8,
    first: u8,
    left: int,
)
    requires
        0 < left <= 513,
        page < 0x20,
        nes.transferring(ram, page, first, left),
    ensures
        ({
            let stepped = nes.after_cpu_cycle(keys);
            &&& stepped.ppu == nes.ppu
            &&& stepped.cpu.dma_remaining == left - 1
            &&& stepped.cpu.dma_page == page
            &&& stepped.cpu.cycles_remaining == 0
            &&& stepped.mem.ram == ram
            &&& !stepped.mem.dma
            &&& if left <= 512 && left % 2 == 1 {
                &&& stepped.mem.write_status == MemState::OamData
                &&& stepped.mem.latch == nes.cpu.dma_byte
            } else {
                stepped.mem.write_status == MemState::NoState
            }
            &&& if left <= 512 && left % 2 == 0 {
                stepped.cpu.dma_byte == source(ram, page, (512 - left) / 2)
            } else {
                stepped.cpu.dma_byte == nes.cpu.dma_byte
            }
        }),
{
    reveal(Machine::after_cycle);
    reveal(Machine::after_dma_cycle);
}

/// The PPU's part of a console cycle: of its three ticks the first takes
/// what is in the mailbox, and the others find it empty.
pub proof fn lemma_transfer_ppu<M: Mapper>(nes: Nes<M>)
    requires
        nes.mem.write_status == MemState::OamData || nes.mem.write_status == MemState::NoState,
    ensures
        ({
            let after = nes.after_dot().after_dot().after_dot();
            &&& after.cpu == nes.cpu
            &&& after.mem.ram == nes.mem.ram
            &&& after.mem.write_status == MemState::NoState
            &&& after.mem.dma == nes.mem.dma
            &&& after.mem.oamdma == nes.mem.oamdma
            &&& after.ppu.oam.mem == if nes.mem.write_status == MemState::OamData {
                vstd::array::spec_array_update(
                    nes.ppu.oam.mem,
                    nes.ppu.oam.address as int,
                    nes.mem.latch,
                )
            } else {
                nes.ppu.oam.mem
            }
            &&& after.ppu.oam.address == if nes.mem.write_status == MemState::OamData {
                nes.ppu.oam.address.wrapping_add(1)
            } else {
                nes.ppu.oam.address
            }
        }),
{
    let second = nes.after_dot();
    let third = second.after_dot();
    lemma_tick_and_sprite_memory(nes.ppu, nes.mem);
    lemma_tick_and_sprite_memory(second.ppu, second.mem);
    lemma_tick_and_sprite_memory(third.ppu, third.mem);
}

/// The slots of the sprite memory that a DMA fills are all different.
pub proof fn lemma_slots_differ(first: u8, earlier: int, later: int)
    requires
        0 <= earlier < later < 256,
    ensures
        (first + earlier) % 256 != (first + later) % 256,
{
}

/// The sprite address steps from each slot to the next, around the end of
/// the memory.
pub proof fn lemma_slot_steps(first: u8, index: int)
    requires
        0 <= index < 256,
    ensures
        (((first + index) % 256) as u8).wrapping_add(1) == (first + index + 1) % 256,
{
}

/// One cycle of the console in the middle of a sprite DMA: a cycle that
/// waits, one that reads the next byte of the page, or one that writes the
/// byte read, which the PPU takes into the sprite memory on its next tick.
pub proof fn lemma_transfer_goes_on<M: Mapper>(
    nes: Nes<M>,
    keys: u8,
    ram: [u8; 2048],
    page: u8,
    first: u8,
    left: int,
)
    requires
        0 < left <= 513,
        page < 0x20,
        nes.transferring(ram, page, first, left),
    ensures
        nes.after_cycle(keys).transferring(ram, page, first, left - 1),
{
    let stepped = nes.after_cpu_cycle(keys);
    let after = nes.after_cycle(keys);
    let done = bytes_done(left);
    lemma_transfer_cpu(nes, keys, ram, page, first, left);
    lemma_transfer_ppu(stepped);
    assert(after == stepped.after_dot().after_dot().after_dot());
    if left <= 512 && left % 2 == 1 {
        let slot = (first + done) % 256;
        assert(bytes_done(left - 1) == done + 1);
        assert(nes.ppu.oam.address == slot);
        assert(after.ppu.oam.mem == vstd::array::spec_array_update(
            nes.ppu.oam.mem,
            slot,
            nes.cpu.dma_byte,
        ));
        lemma_slot_steps(first, done);
        assert(after.ppu.oam.address == (first + done + 1) % 256);
        assert forall|i: int| 0 <= i < done + 1 implies after.ppu.oam.mem[(first + i) % 256]
            == #[trigger] source(ram, page, i) by {
            if i < done {
                lemma_slots_differ(first, i, done);
                assert(nes.ppu.oam.mem[(first + i) % 256] == source(ram, page, i));
            }
        }
    } else {
        assert(bytes_done(left - 1) == done);
        assert(after.ppu.oam.mem == nes.ppu.oam.mem);
        assert(after.ppu.oam.address == nes.ppu.oam.address);
        assert forall|i: int| 0 <= i < done implies after.ppu.oam.mem[(first + i) % 256]
            == #[trigger] source(ram, page, i) by {
            assert(nes.ppu.oam.mem[(first + i) % 256] == source(ram, page, i));
        }
    }
}

/// Throughout a sprite DMA the console is as `transferring` says.
pub proof fn lemma_transfer<M: Mapper>(nes: Nes<M>, keys: spec_fn(nat) -> u8, cycles: nat)
    requires
        nes.transfer_is_due(),
        1 <= cycles <= machine(nes.cpu, nes.mem).dma_length(),
    ensures
        nes.after_cycles(cycles, keys).transferring(
            nes.mem.ram,
            nes.mem.oamdma,
            nes.ppu.oam.address,
            machine(nes.cpu, nes.mem).dma_length() - cycles,
        ),
    decreases cycles,
{
    if cycles == 1 {
        assert(nes.after_cycles(0, keys) == nes);
        lemma_transfer_starts(nes, keys(0));
    } else {
        lemma_transfer(nes, keys, (cycles - 1) as nat);
        lemma_transfer_goes_on(
            nes.after_cycles((cycles - 1) as nat, keys),
            keys((cycles - 1) as nat),
            nes.mem.ram,
            nes.mem.oamdma,
            nes.ppu.oam.address,
            machine(nes.cpu, nes.mem).dma_length() - (cycles - 1),
        );
    }
}

/// A sprite DMA copies a page of the RAM into the sprite memory. Once the
/// 513 or 514 cycles of the DMA have passed, whatever the PPU drew in the
/// meantime and whatever buttons were held down, the sprite memory holds the
/// 256 bytes of the page, in order, from the sprite address on and around
/// the end of the memory; the sprite address is where it was; the RAM is as
/// it was; and the CPU is free, with the request taken off the bus.
pub proof fn law_dma_fills_sprite_memory<M: Mapper>(nes: Nes<M>, keys: spec_fn(nat) -> u8)
    requires
        nes.transfer_is_due(),
    ensures
        ({
            let after = nes.after_cycles(machine(nes.cpu, nes.mem).dma_length(), keys);
            &&& forall|i: int|
                0 <= i < 256 ==> after.ppu.oam.mem[(nes.ppu.oam.address + i) % 256] == #[trigger] source(
                    nes.mem.ram,
                    nes.mem.oamdma,
                    i,
                )
            &&& after.ppu.oam.address == nes.ppu.oam.address
            &&& after.mem.ram == nes.mem.ram
            &&& after.cpu.dma_remaining == 0
            &&& !after.mem.dma
        }),
{
    lemma_transfer(nes, keys, machine(nes.cpu, nes.mem).dma_length());
}

} // verus!
