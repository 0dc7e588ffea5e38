use vstd::prelude::*;
use crate::mapper::Mapper;

verus! {

/// How the cartridge folds the PPU's four nametables onto its 2 KiB of video RAM.
#[derive(Clone, Copy, Debug, PartialEq, Eq, Structural)]
pub enum Mirroring {
    /// The two left tables share one kilobyte and the two right tables the other.
    Horizontal,
    /// The two upper tables share one kilobyte and the two lower tables the other.
    Vertical,
}

/// The slot of video RAM behind a PPU address in `$2000..$4000`.
pub open spec fn nametable_slot(mirroring: Mirroring, addr: u16) -> int {
    let table = (addr as int / 1024) % 4;
    let offset = addr as int % 1024;
    match mirroring {
        Mirroring::Horizontal => (table / 2) * 1024 + offset,
        Mirroring::Vertical => (table % 2) * 1024 + offset,
    }
}

/// A cartridge without bank switching: 32 KiB of program ROM at `$8000`,
/// 8 KiB of work RAM at `$6000`, 8 KiB of pattern memory and the 2 KiB of
/// video RAM behind the nametables.
#[derive(Debug)]
pub struct Cartridge {
    pub prg_rom: [u8; 0x8000],
    pub prg_ram: [u8; 0x2000],
    pub chr: [u8; 0x2000],
    /// The pattern memory is RAM: the PPU can write it.
    pub chr_ram: bool,
    pub vram: [u8; 0x800],
    pub mirroring: Mirroring,
}

impl Cartridge {
    /// An empty cartridge: every byte is 0 and the pattern memory is RAM.
    pub fn new(mirroring: Mirroring) -> (cart: Cartridge)
        ensures
            cart.mirroring == mirroring,
            cart.chr_ram,
            forall|i: int| 0 <= i < 0x8000 ==> cart.prg_rom[i] == 0,
            forall|i: int| 0 <= i < 0x2000 ==> cart.prg_ram[i] == 0,
            forall|i: int| 0 <= i < 0x2000 ==> cart.chr[i] == 0,
            forall|i: int| 0 <= i < 0x800 ==> cart.vram[i] == 0,
    {
        Cartridge {
            prg_rom: [0u8; 0x8000],
            prg_ram: [0u8; 0x2000],
            chr: [0u8; 0x2000],
            chr_ram: true,
            vram: [0u8; 0x800],
            mirroring,
        }
    }

    /// Fills the program ROM with `data`, repeated as often as it takes: a
    /// 16 KiB image appears at `$8000` and again at `$C000`. An empty image
    /// leaves the ROM as it is.
    pub fn load_prg(&mut self, data: &[u8])
        ensures
            data@.len() == 0 ==> *final(self) == *old(self),
            data@.len() > 0 ==> forall|i: int|
                0 <= i < 0x8000 ==> final(self).prg_rom[i] == data@[i % (data@.len() as int)],
            final(self).prg_ram == old(self).prg_ram,
            final(self).chr == old(self).chr,
            final(self).chr_ram == old(self).chr_ram,
            final(self).vram == old(self).vram,
            final(self).mirroring == old(self).mirroring,
    {
        let len: usize = data.len();
        if len == 0 {
            return ;
        }
        let mut i: usize = 0;
        while i < 0x8000
            invariant
                i <= 0x8000,
                len == data@.len(),
                len > 0,
                forall|j: int| 0 <= j < i ==> self.prg_rom[j] == data@[j % (len as int)],
                self.prg_ram == old(self).prg_ram,
                self.chr == old(self).chr,
                self.chr_ram == old(self).chr_ram,
                self.vram == old(self).vram,
                self.mirroring == old(self).mirroring,
            decreases 0x8000 - i,
        {
            self.prg_rom[i] = data[i % len];
            i = i + 1;
        }
    }

    /// Fills the pattern memory with the first 8 KiB of `data` and makes it
    /// ROM. A shorter image leaves the rest as it is.
    pub fn load_chr(&mut self, data: &[u8])
        ensures
            forall|i: int|
                0 <= i < 0x2000 ==> final(self).chr[i] == if i < data@.len() {
                    data@[i]
                } else {
                    old(self).chr[i]
                },
            !final(self).chr_ram,
            final(self).prg_rom == old(self).prg_rom,
            final(self).prg_ram == old(self).prg_ram,
            final(self).vram == old(self).vram,
            final(self).mirroring == old(self).mirroring,
    {
        let len: usize = data.len();
        let mut i: usize = 0;
        while i < 0x2000 && i < len
            invariant
                i <= 0x2000,
                i <= len,
                len == data@.len(),
                forall|j: int| 0 <= j < i ==> self.chr[j] == data@[j],
                forall|j: int| i <= j < 0x2000 ==> self.chr[j] == old(self).chr[j],
                self.prg_rom == old(self).prg_rom,
                self.prg_ram == old(self).prg_ram,
                self.chr_ram == old(self).chr_ram,
                self.vram == old(self).vram,
                self.mirroring == old(self).mirroring,
            decreases 0x2000 - i,
        {
            self.chr[i] = data[i];
            i = i + 1;
        }
        self.chr_ram = false;
    }
}

impl Mapper for Cartridge {
    open spec fn prg(&self, addr: u16) -> u8 {
        if addr >= 0x8000 {
            self.prg_rom[addr - 0x8000]
        } else if addr >= 0x6000 {
            self.prg_ram[addr - 0x6000]
        } else {
            0
        }
    }

    open spec fn chr(&self, addr: u16) -> u8 {
        let a = (addr % 0x4000) as u16;
        if a < 0x2000 {
            self.chr[a as int]
        } else {
            self.vram[nametable_slot(self.mirroring, a)]
        }
    }

    /// The cartridge after a CPU write: only the work RAM takes it.
    open spec fn after_prg_store(&self, addr: u16, value: u8) -> Cartridge {
        if 0x6000 <= addr < 0x8000 {
            Cartridge {
                prg_ram: vstd::array::spec_array_update(self.prg_ram, addr - 0x6000, value),
                ..*self
            }
        } else {
            *self
        }
    }

    /// The cartridge after a PPU write: the video RAM takes it, and the
    /// pattern memory where it is RAM.
    open spec fn after_chr_store(&self, addr: u16, value: u8) -> Cartridge {
        let a = (addr % 0x4000) as u16;
        if a >= 0x2000 {
            Cartridge {
                vram: vstd::array::spec_array_update(
                    self.vram,
                    nametable_slot(self.mirroring, a),
                    value,
                ),
                ..*self
            }
        } else if self.chr_ram {
            Cartridge { chr: vstd::array::spec_array_update(self.chr, a as int, value), ..*self }
        } else {
            *self
        }
    }

    fn prg_load(&self, addr: u16) -> (value: u8) {
        if addr >= 0x8000 {
            self.prg_rom[(addr - 0x8000) as usize]
        } else if addr >= 0x6000 {
            self.prg_ram[(addr - 0x6000) as usize]
        } else {
            0
        }
    }

    fn prg_store(&mut self, addr: u16, value: u8) {
        if addr >= 0x6000 && addr < 0x8000 {
            self.prg_ram[(addr - 0x6000) as usize] = value;
        }
    }

    fn chr_load(&self, addr: u16) -> (value: u8) {
        let a: u16 = addr % 0x4000;
        if a < 0x2000 {
            self.chr[a as usize]
        } else {
            self.vram[self.slot(a)]
        }
    }

    fn chr_store(&mut self, addr: u16, value: u8) {
        let a: u16 = addr % 0x4000;
        if a >= 0x2000 {
            let slot: usize = self.slot(a);
            self.vram[slot] = value;
        } else if self.chr_ram {
            self.chr[a as usize] = value;
        }
    }
}

impl Cartridge {
    /// The slot of video RAM behind a nametable address.
    pub fn slot(&self, addr: u16) -> (slot: usize)
        ensures
            slot == nametable_slot(self.mirroring, addr),
            slot < 0x800,
    {
        let table: u16 = (addr / 1024) % 4;
        let offset: u16 = addr % 1024;
        match self.mirroring {
            Mirroring::Horizontal => ((table / 2) * 1024 + offset) as usize,
            Mirroring::Vertical => ((table % 2) * 1024 + offset) as usize,
        }
    }
}

} // verus!
