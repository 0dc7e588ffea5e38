use vstd::prelude::*;
use crate::bits::lemma_bus_masks;
use crate::mapper::Mapper;
use crate::ppu::PpuReadRegs;

verus! {

/// A PPU or DMA register, as the tag of the bus mailbox: which register the
/// CPU last wrote, or last read. `NoState` is the empty mailbox.
#[derive(Clone, Copy, Debug, PartialEq, Eq, Structural)]
pub enum MemState {
    PpuCtrl,
    PpuMask,
    PpuStatus,
    OamAddr,
    OamData,
    PpuScroll,
    PpuAddr,
    PpuData,
    OamDma,
    NoState,
}

/// The two interrupt lines that the bus latches for the CPU.
#[derive(Clone, Copy, Debug, PartialEq, Eq, Structural)]
pub enum Interrupt {
    NMI,
    IRQ,
}

/// The CPU bus: 2 KiB of RAM, the mailbox through which the CPU talks to the
/// PPU, the PPU's read snapshot, the interrupt latches, the controller
/// and the cartridge.
#[derive(Debug)]
pub struct Memory<M: Mapper> {
    pub ram: [u8; 2048],
    pub mapper: M,
    /// The byte last written to a PPU register or to `$4014`.
    pub latch: u8,
    /// The register that `latch` was written to; `NoState` once the PPU took it.
    pub write_status: MemState,
    /// The readable register that the CPU last read; `NoState` once the PPU
    /// took note of it.
    pub read_status: MemState,
    /// The PPU's readable registers after its last tick.
    pub ppu_regs: PpuReadRegs,
    /// The page that the last write to `$4014` named.
    pub oamdma: u8,
    /// A sprite DMA was asked for and the CPU has not started it.
    pub dma: bool,
    pub nmi: bool,
    pub irq: bool,
    /// The buttons held down now, A in bit 0.
    pub keys: u8,
    /// The controller reloads its shift register for as long as this is set.
    pub strobe: bool,
    /// The controller's shift register.
    pub pad: u8,
}

/// The RAM slot behind a CPU address below `$2000`.
pub open spec fn ram_slot(address: u16) -> int {
    address as int % 2048
}

/// The PPU register behind a CPU address in `$2000..$4000`.
pub open spec fn register_index(address: u16) -> int {
    address as int % 8
}

/// The mailbox tag of each of the eight PPU registers.
pub open spec fn register_tag(index: int) -> MemState {
    if index == 0 {
        MemState::PpuCtrl
    } else if index == 1 {
        MemState::PpuMask
    } else if index == 2 {
        MemState::PpuStatus
    } else if index == 3 {
        MemState::OamAddr
    } else if index == 4 {
        MemState::OamData
    } else if index == 5 {
        MemState::PpuScroll
    } else if index == 6 {
        MemState::PpuAddr
    } else {
        MemState::PpuData
    }
}

/// Whether the register can be read: PPUSTATUS, OAMDATA and PPUDATA can. A
/// read of one of them leaves its tag for the PPU; the others read as 0.
pub open spec fn register_readable(index: int) -> bool {
    index == 2 || index == 4 || index == 7
}

/// The 16-bit word made of two bytes.
pub open spec fn word(low: u8, high: u8) -> u16 {
    (high as int * 256 + low as int) as u16
}

/// The address after `address` in the same 256-byte page.
pub open spec fn next_in_page(address: u16) -> u16 {
    (address - address as int % 256 + (address + 1) % 256) as u16
}

impl MemState {
    /// The name of the register.
    pub open spec fn label(self) -> Seq<char> {
        match self {
            MemState::PpuCtrl => "PpuCtrl"@,
            MemState::PpuMask => "PpuMask"@,
            MemState::PpuStatus => "PpuStatus"@,
            MemState::OamAddr => "OamAddr"@,
            MemState::OamData => "OamData"@,
            MemState::PpuScroll => "PpuScroll"@,
            MemState::PpuAddr => "PpuAddr"@,
            MemState::PpuData => "PpuData"@,
            MemState::OamDma => "OamDma"@,
            MemState::NoState => "NoState"@,
        }
    }

    /// The name of the register, for messages.
    pub fn name(&self) -> (name: &'static str)
        ensures
            name@ == self.label(),
    {
        match self {
            MemState::PpuCtrl => "PpuCtrl",
            MemState::PpuMask => "PpuMask",
            MemState::PpuStatus => "PpuStatus",
            MemState::OamAddr => "OamAddr",
            MemState::OamData => "OamData",
            MemState::PpuScroll => "PpuScroll",
            MemState::PpuAddr => "PpuAddr",
            MemState::PpuData => "PpuData",
            MemState::OamDma => "OamDma",
            MemState::NoState => "NoState",
        }
    }
}

impl<M: Mapper> Memory<M> {
    /// The RAM holds zeros, the mailbox and the read tag are empty, and
    /// nothing is pending.
    pub open spec fn is_fresh(self) -> bool {
        &&& forall|i: int| 0 <= i < 2048 ==> self.ram[i] == 0
        &&& self.latch == 0
        &&& self.write_status == MemState::NoState
        &&& self.read_status == MemState::NoState
        &&& self.ppu_regs == (PpuReadRegs { data: 0, oam: 0, status: 0 })
        &&& self.oamdma == 0
        &&& !self.dma
        &&& !self.nmi
        &&& !self.irq
        &&& self.keys == 0
        &&& !self.strobe
        &&& self.pad == 0
    }

    /// The byte that the controller shows: the button under the shift
    /// register's lowest bit, or button A itself while the strobe is held.
    pub open spec fn pad_bit(self) -> u8 {
        if self.strobe {
            self.keys % 2
        } else {
            self.pad % 2
        }
    }

    /// The byte that a CPU read of `address` returns.
    pub open spec fn loaded(self, address: u16) -> u8 {
        if address < 0x2000 {
            self.ram[ram_slot(address)]
        } else if address < 0x4000 {
            let index = register_index(address);
            if index == 2 {
                self.ppu_regs.status
            } else if index == 4 {
                self.ppu_regs.oam
            } else if index == 7 {
                self.ppu_regs.data
            } else {
                0
            }
        } else if address == 0x4016 {
            self.pad_bit()
        } else if address < 0x4020 {
            0
        } else {
            self.mapper.prg(address)
        }
    }

    /// The bus after a CPU read of `address`.
    pub open spec fn after_load(self, address: u16) -> Self {
        if 0x2000 <= address < 0x4000 && register_readable(register_index(address)) {
            Memory { read_status: register_tag(register_index(address)), ..self }
        } else if address == 0x4016 && !self.strobe {
            Memory { pad: (self.pad / 2 + 128) as u8, ..self }
        } else {
            self
        }
    }

    /// The bus after a CPU write of `value` to `address`.
    pub open spec fn after_store(self, address: u16, value: u8) -> Self {
        if address < 0x2000 {
            Memory { ram: vstd::array::spec_array_update(self.ram, ram_slot(address), value), ..self }
        } else if address < 0x4000 {
            Memory { latch: value, write_status: register_tag(register_index(address)), ..self }
        } else if address == 0x4014 {
            Memory { latch: value, write_status: MemState::OamDma, oamdma: value, dma: true, ..self }
        } else if address == 0x4016 {
            Memory {
                strobe: value % 2 == 1,
                pad: if value % 2 == 1 {
                    self.keys
                } else {
                    self.pad
                },
                ..self
            }
        } else if address < 0x4020 {
            self
        } else {
            Memory { mapper: self.mapper.after_prg_store(address, value), ..self }
        }
    }

    /// The bus after a write of the word `value`: its high byte to
    /// `address`, its low byte to the address after it.
    pub open spec fn after_store_word(self, address: u16, value: u16) -> Self {
        self.after_store(address, (value / 256) as u8).after_store(
            address.wrapping_add(1),
            (value % 256) as u8,
        )
    }

    /// The bus after a PPU write of `value` to `address`: nothing but the
    /// cartridge changes.
    pub open spec fn after_chr_store(self, address: u16, value: u8) -> Self {
        Memory { mapper: self.mapper.after_chr_store(address, value), ..self }
    }

    /// The bus after the controller was told which buttons are held down.
    pub open spec fn after_keys(self, keys: u8) -> Self {
        Memory {
            keys,
            pad: if self.strobe {
                keys
            } else {
                self.pad
            },
            ..self
        }
    }

    /// A bus around a cartridge: the RAM holds zeros, the mailbox and the
    /// read tag are empty, and nothing is pending.
    pub fn new(mapper: M) -> (mem: Self)
        ensures
            mem.mapper == mapper,
            mem.is_fresh(),
    {
        Memory {
            ram: [0u8; 2048],
            mapper,
            latch: 0,
            write_status: MemState::NoState,
            read_status: MemState::NoState,
            ppu_regs: PpuReadRegs { data: 0, oam: 0, status: 0 },
            oamdma: 0,
            dma: false,
            nmi: false,
            irq: false,
            keys: 0,
            strobe: false,
            pad: 0,
        }
    }

    /// One CPU read. RAM answers below `$2000`, mirrored every 2 KiB; the
    /// PPU's snapshot answers in `$2000..$4000`, by the address's lowest three
    /// bits, and the read of a readable register is left as the read tag;
    /// `$4016` shifts one button out of the controller; the rest below
    /// `$4020`, the sound registers and the second controller that is not there,
    /// reads as 0; the cartridge answers from `$4020` up.
    pub fn load(&mut self, address: u16) -> (value: u8)
        ensures
            value == old(self).loaded(address),
            *final(self) == old(self).after_load(address),
            address < 0x2000 ==> value == old(self).ram[address as int % 2048] && *final(self)
                == *old(self),
    {
        proof {
            lemma_bus_masks(address);
        }
        if address < 0x2000 {
            self.ram[(address & 0x07ff) as usize]
        } else if address < 0x4000 {
            let index: u16 = address & 7;
            if index == 2 {
                self.read_status = MemState::PpuStatus;
                self.ppu_regs.status
            } else if index == 4 {
                self.read_status = MemState::OamData;
                self.ppu_regs.oam
            } else if index == 7 {
                self.read_status = MemState::PpuData;
                self.ppu_regs.data
            } else {
                0
            }
        } else if address == 0x4016 {
            if self.strobe {
                let keys: u8 = self.keys;
                proof {
                    lemma_pad_bits(keys);
                }
                keys & 1
            } else {
                let pad: u8 = self.pad;
                proof {
                    lemma_pad_bits(pad);
                }
                self.pad = (pad >> 1) | 0x80;
                pad & 1
            }
        } else if address < 0x4020 {
            0
        } else {
            self.mapper.prg_load(address)
        }
    }

    /// One CPU write. RAM takes it below `$2000`; a PPU register takes it
    /// into the mailbox, tagged by the address's lowest three bits; `$4014`
    /// asks for a sprite DMA from the page written; `$4016` sets the
    /// controller's strobe; the rest below `$4020` ignores it; the cartridge
    /// takes it from `$4020` up.
    pub fn store(&mut self, address: u16, value: u8)
        ensures
            *final(self) == old(self).after_store(address, value),
            address < 0x2000 ==> final(self).ram@ == old(self).ram@.update(
                address as int % 2048,
                value,
            ),
    {
        proof {
            lemma_bus_masks(address);
            lemma_pad_bits(value);
        }
        if address < 0x2000 {
            self.ram[(address & 0x07ff) as usize] = value;
        } else if address < 0x4000 {
            let index: u16 = address & 7;
            self.latch = value;
            self.write_status = if index == 0 {
                MemState::PpuCtrl
            } else if index == 1 {
                MemState::PpuMask
            } else if index == 2 {
                MemState::PpuStatus
            } else if index == 3 {
                MemState::OamAddr
            } else if index == 4 {
                MemState::OamData
            } else if index == 5 {
                MemState::PpuScroll
            } else if index == 6 {
                MemState::PpuAddr
            } else {
                MemState::PpuData
            };
        } else if address == 0x4014 {
            self.latch = value;
            self.write_status = MemState::OamDma;
            self.oamdma = value;
            self.dma = true;
        } else if address == 0x4016 {
            self.strobe = value & 1 == 1;
            if self.strobe {
                self.pad = self.keys;
            }
        } else if address < 0x4020 {
        } else {
            self.mapper.prg_store(address, value);
        }
    }

    /// The 16-bit word at `address`, low byte first. The high byte comes
    /// from the next address, which wraps from `$FFFF` to `$0000`.
    pub fn load_word(&mut self, address: u16) -> (value: u16)
        ensures
            value == word(
                old(self).loaded(address),
                old(self).after_load(address).loaded(address.wrapping_add(1)),
            ),
            *final(self) == old(self).after_load(address).after_load(address.wrapping_add(1)),
    {
        let low: u8 = self.load(address);
        let high: u8 = self.load(address.wrapping_add(1));
        proof {
            lemma_word_bits(low, high, address);
        }
        ((high as u16) << 8) | (low as u16)
    }

    /// Writes the high byte of `value` to `address` and its low byte to the
    /// address after it.
    pub fn store_word(&mut self, address: u16, value: u16)
        ensures
            *final(self) == old(self).after_store_word(address, value),
    {
        proof {
            lemma_word_bits(0, 0, value);
        }
        self.store(address, (value >> 8) as u8);
        self.store(address.wrapping_add(1), (value & 0xff) as u8);
    }

    /// The 16-bit word at `address`, low byte first, with the high byte
    /// taken from the same page: after `$xxFF` comes `$xx00`.
    pub fn load_word_page_wrap(&mut self, address: u16) -> (value: u16)
        ensures
            value == word(
                old(self).loaded(address),
                old(self).after_load(address).loaded(next_in_page(address)),
            ),
            *final(self) == old(self).after_load(address).after_load(next_in_page(address)),
    {
        let low: u8 = self.load(address);
        proof {
            lemma_word_bits(0, 0, address);
        }
        let offset: u8 = ((address & 0xff) as u8).wrapping_add(1);
        proof {
            lemma_word_bits(offset, 0, address);
        }
        let high: u8 = self.load((address & 0xff00) | (offset as u16));
        proof {
            lemma_word_bits(low, high, address);
        }
        ((high as u16) << 8) | (low as u16)
    }

    /// Hands the PPU the mailbox: the byte last written to a register and
    /// the register's tag. The mailbox is empty afterwards.
    pub fn get_latch(&mut self) -> (mail: (u8, MemState))
        ensures
            mail == (old(self).latch, old(self).write_status),
            *final(self) == (Memory { write_status: MemState::NoState, ..*old(self) }),
    {
        let status = self.write_status;
        self.write_status = MemState::NoState;
        (self.latch, status)
    }

    /// Hands the PPU the tag of the register last read, and clears the tag.
    pub fn ppu_load_status(&mut self) -> (status: MemState)
        ensures
            status == old(self).read_status,
            *final(self) == (Memory { read_status: MemState::NoState, ..*old(self) }),
    {
        let status = self.read_status;
        self.read_status = MemState::NoState;
        status
    }

    /// Latches an interrupt for the CPU.
    pub fn set_interrupt(&mut self, interrupt: Interrupt)
        ensures
            *final(self) == match interrupt {
                Interrupt::NMI => Memory { nmi: true, ..*old(self) },
                Interrupt::IRQ => Memory { irq: true, ..*old(self) },
            },
    {
        match interrupt {
            Interrupt::NMI => {
                self.nmi = true;
            },
            Interrupt::IRQ => {
                self.irq = true;
            },
        }
    }

    /// Publishes the PPU's readable registers for the CPU's next reads.
    pub fn set_ppu_read_regs(&mut self, regs: PpuReadRegs)
        ensures
            *final(self) == (Memory { ppu_regs: regs, ..*old(self) }),
    {
        self.ppu_regs = regs;
    }

    /// A PPU read of the cartridge.
    pub fn chr_load(&self, address: u16) -> (value: u8)
        ensures
            value == self.mapper.chr(address),
    {
        self.mapper.chr_load(address)
    }

    /// A PPU write to the cartridge.
    pub fn chr_store(&mut self, address: u16, value: u8)
        ensures
            *final(self) == old(self).after_chr_store(address, value),
    {
        self.mapper.chr_store(address, value);
    }

    /// Tells the controller which buttons are held down. While the
    /// strobe is set the shift register follows them.
    pub fn push_keys(&mut self, keys: u8)
        ensures
            *final(self) == old(self).after_keys(keys),
    {
        self.keys = keys;
        if self.strobe {
            self.pad = keys;
        }
    }
}

/// Every CPU address below `$2000` stands for the RAM slot that is its
/// remainder by 2048: a read returns that slot and leaves the bus as it
/// was, and a write changes that slot and nothing else.
pub proof fn law_ram_slot<M: Mapper>(bus: Memory<M>, address: u16, value: u8)
    requires
        address < 0x2000,
    ensures
        bus.loaded(address) == bus.ram[address as int % 2048],
        bus.after_load(address) == bus,
        bus.after_store(address, value).ram@ == bus.ram@.update(address as int % 2048, value),
        bus.after_store(address, value) == (Memory {
            ram: bus.after_store(address, value).ram,
            ..bus
        }),
        forall|slot: int|
            0 <= slot < 2048 && slot != address as int % 2048 ==> bus.after_store(
                address,
                value,
            ).ram[slot] == bus.ram[slot],
{
}

/// Two CPU addresses below `$2000` that are 2 KiB apart, or a multiple of
/// it, are the same place.
pub proof fn law_ram_mirror<M: Mapper>(bus: Memory<M>, first: u16, second: u16, value: u8)
    requires
        first < 0x2000,
        second < 0x2000,
        first % 2048 == second % 2048,
    ensures
        bus.loaded(first) == bus.loaded(second),
        bus.after_store(first, value) == bus.after_store(second, value),
        bus.after_store(first, value).loaded(second) == value,
{
}

/// Every CPU address in `$2000..$4000` stands for the PPU register that is
/// its remainder by 8: two addresses with the same remainder read the same
/// byte, leave the same read tag and fill the mailbox alike.
pub proof fn law_register_mirror<M: Mapper>(bus: Memory<M>, first: u16, second: u16, value: u8)
    requires
        0x2000 <= first < 0x4000,
        0x2000 <= second < 0x4000,
        first % 8 == second % 8,
    ensures
        bus.loaded(first) == bus.loaded(second),
        bus.after_load(first) == bus.after_load(second),
        bus.after_store(first, value) == bus.after_store(second, value),
        bus.after_store(first, value).latch == value,
        bus.after_store(first, value).write_status == register_tag(first as int % 8),
{
}

/// The lowest bit of a byte is its parity, and the controller's shift is a
/// halving that fills the top bit.
pub proof fn lemma_pad_bits(pad: u8)
    by (bit_vector)
    ensures
        pad & 1 == pad % 2,
        (pad >> 1) | 0x80 == pad / 2 + 128,
{
}

/// A word is its two bytes side by side, and the page of an address is what
/// is left without its low byte.
pub proof fn lemma_word_bits(low: u8, high: u8, address: u16)
    by (bit_vector)
    ensures
        ({
            &&& ((high as u16) << 8) | (low as u16) == high * 256 + low
            &&& address >> 8 == address / 256
            &&& address >> 8 < 256
            &&& address & 0xff == address % 256
            &&& address & 0xff < 256
            &&& address & 0xff00 == address - address % 256
            &&& (address & 0xff00) | (low as u16) == address - address % 256 + low
        }),
{
}

} // verus!
