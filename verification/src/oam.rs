use vstd::prelude::*;
use crate::sprite::Sprite;

verus! {

/// Object attribute memory and the evaluator that picks, on each scanline,
/// the sprites of the next one: 64 entries of four bytes (row, tile,
/// attributes, column) in `mem`, and room for eight of them in the
/// secondary memory `smem`.
#[derive(Debug)]
pub struct Oam {
    pub mem: [u8; 256],
    pub smem: [u8; 32],
    /// The byte of `mem` under evaluation.
    pub mem_index: u8,
    /// The next free byte of `smem`, and while the units are loaded the
    /// next byte to hand out.
    pub smem_index: usize,
    /// OAMADDR: the byte of `mem` that the CPU reads and writes.
    pub address: u8,
    /// How many sprites the last evaluation found.
    pub count: usize,
    /// The byte read on the last odd dot, written on the even dot after it.
    pub read: u8,
    /// The evaluator looks at a fresh entry for overflow.
    pub next_sprite: bool,
    /// The evaluator has been through all of `mem` on this scanline.
    pub finished: bool,
    /// Sprite 0 is among the sprites of this scanline.
    pub zero_hit_now: bool,
    /// Sprite 0 is among the sprites found for the next scanline.
    pub zero_hit_next: bool,
}

/// How many rows a sprite covers.
pub open spec fn sprite_height(big: bool) -> int {
    if big {
        16
    } else {
        8
    }
}

/// Whether a sprite whose first row is `row` covers `scanline`. Rows from
/// 240 on hide a sprite.
pub open spec fn covers(row: u8, scanline: u8, big: bool) -> bool {
    row < 0xf0 && row <= scanline < row + sprite_height(big)
}

/// The dots of a scanline on which the secondary memory is cleared.
pub open spec fn clearing(dot: int) -> bool {
    1 <= dot <= 64
}

/// The dots on which the sprites of the next scanline are looked for.
pub open spec fn evaluating(dot: int) -> bool {
    65 <= dot <= 256
}

/// The dots on which the rendering units are loaded.
pub open spec fn loading(dot: int) -> bool {
    257 <= dot <= 320
}

impl Oam {
    /// The secondary memory is never over-full and holds at most eight sprites.
    pub open spec fn wf(self) -> bool {
        self.smem_index <= 32 && self.count <= 8
    }

    /// Both memories hold zeros and the evaluator has not begun.
    pub open spec fn is_empty(self) -> bool {
        &&& forall|i: int| 0 <= i < 256 ==> self.mem[i] == 0
        &&& forall|i: int| 0 <= i < 32 ==> self.smem[i] == 0
        &&& self.mem_index == 0
        &&& self.smem_index == 0
        &&& self.address == 0
        &&& self.count == 0
        &&& self.read == 0
        &&& !self.next_sprite
        &&& !self.finished
        &&& !self.zero_hit_now
        &&& !self.zero_hit_next
    }

    /// The memory after the CPU wrote `value` through OAMDATA.
    pub open spec fn after_store(self, value: u8) -> Oam {
        Oam {
            mem: vstd::array::spec_array_update(self.mem, self.address as int, value),
            address: self.address.wrapping_add(1),
            ..self
        }
    }

    /// The evaluator moved on by `by` bytes of `mem`. Past the last byte
    /// it has seen every entry, and is finished for this scanline.
    pub open spec fn stepped(self, by: u8) -> Oam {
        Oam {
            mem_index: self.mem_index.wrapping_add(by),
            finished: self.finished || self.mem_index + by > 255,
            ..self
        }
    }

    /// The evaluator after an even dot of the evaluation, on which the byte
    /// read one dot earlier is dealt with.
    ///
    /// In the middle of an entry the byte is copied. At the start of one,
    /// with room left, the row is copied and tested: a sprite that covers
    /// the scanline is taken, another is passed over. With eight sprites
    /// found, the evaluator looks for a ninth; after a miss it moves on by
    /// five bytes, not four, and so reads the following "rows" out of the
    /// wrong bytes of their entries, as the hardware does. Once it has been
    /// through all entries it does nothing.
    pub open spec fn after_evaluation(self, scanline: u8, big: bool) -> Oam {
        if self.finished {
            self
        } else if self.smem_index % 4 != 0 {
            Oam {
                smem: vstd::array::spec_array_update(self.smem, self.smem_index as int, self.read),
                smem_index: (self.smem_index + 1) as usize,
                ..self.stepped(1)
            }
        } else if self.smem_index < 32 {
            let smem = vstd::array::spec_array_update(self.smem, self.smem_index as int, self.read);
            if covers(self.read, scanline, big) {
                Oam {
                    smem,
                    smem_index: (self.smem_index + 1) as usize,
                    zero_hit_next: self.zero_hit_next || self.mem_index == 0,
                    ..self.stepped(1)
                }
            } else {
                Oam { smem, ..self.stepped(4) }
            }
        } else if self.mem_index % 4 != 0 && !self.next_sprite {
            self.stepped(1)
        } else if covers(self.read, scanline, big) {
            Oam { next_sprite: false, ..self.stepped(1) }
        } else {
            Oam { next_sprite: true, ..self.stepped(5) }
        }
    }

    /// The evaluator as the loading of the units starts from it: on dot 257
    /// the sprites found are counted and the index goes back to the first byte.
    pub open spec fn at_loading(self, dot: int) -> Oam {
        if dot == 257 {
            Oam { count: self.smem_index / 4, smem_index: 0, ..self }
        } else {
            self
        }
    }

    /// Whether a byte goes to a rendering unit on this dot: on the first
    /// four dots of each eight, for as long as bytes of found sprites are left.
    pub open spec fn hands_out(self, dot: int) -> bool {
        &&& loading(dot)
        &&& (dot - 1) % 8 < 4
        &&& self.at_loading(dot).smem_index < self.at_loading(dot).count * 4
    }

    /// The evaluator after dot `dot` of a visible scanline.
    pub open spec fn after_cycle(self, dot: int, scanline: u8, big: bool) -> Oam {
        if dot == 0 {
            Oam {
                zero_hit_now: self.zero_hit_next,
                zero_hit_next: false,
                mem_index: 0,
                smem_index: 0,
                finished: false,
                ..self
            }
        } else if clearing(dot) {
            if dot % 2 == 1 {
                Oam { read: 0xff, ..self }
            } else {
                Oam {
                    smem: vstd::array::spec_array_update(self.smem, (dot - 1) / 2, self.read),
                    ..self
                }
            }
        } else if evaluating(dot) {
            if dot % 2 == 1 {
                Oam { read: self.mem[self.mem_index as int], ..self }
            } else {
                self.after_evaluation(scanline, big)
            }
        } else if self.hands_out(dot) {
            Oam {
                smem_index: (self.at_loading(dot).smem_index + 1) as usize,
                ..self.at_loading(dot)
            }
        } else {
            self.at_loading(dot)
        }
    }

    /// The rendering units after dot `dot`: where a byte is handed out, it
    /// goes to the unit of its sprite.
    pub open spec fn units_after_cycle(self, units: [Sprite; 8], dot: int) -> [Sprite; 8] {
        if self.hands_out(dot) {
            let index = self.at_loading(dot).smem_index as int;
            vstd::array::spec_array_update(
                units,
                index / 4,
                units[index / 4].with_info(index % 4, self.smem[index]),
            )
        } else {
            units
        }
    }

    /// Whether the evaluator finds a ninth sprite on this dot: eight are
    /// found and entries are left, it stands at the start of an entry or has
    /// just missed, and the byte it takes for a row covers the scanline.
    pub open spec fn overflows(self, dot: int, scanline: u8, big: bool) -> bool {
        &&& evaluating(dot)
        &&& dot % 2 == 0
        &&& !self.finished
        &&& self.smem_index == 32
        &&& (self.mem_index % 4 == 0 || self.next_sprite)
        &&& covers(self.read, scanline, big)
    }

    /// Empty memories and an idle evaluator.
    pub fn new() -> (oam: Oam)
        ensures
            oam.is_empty(),
            oam.wf(),
    {
        Oam {
            mem: [0u8; 256],
            smem: [0u8; 32],
            mem_index: 0,
            smem_index: 0,
            address: 0,
            count: 0,
            read: 0,
            next_sprite: false,
            finished: false,
            zero_hit_now: false,
            zero_hit_next: false,
        }
    }

    /// The byte that the CPU reads through OAMDATA.
    pub fn load_data(&self) -> (value: u8)
        ensures
            value == self.mem[self.address as int],
    {
        self.mem[self.address as usize]
    }

    /// A CPU write through OAMDATA: the byte goes to the address in
    /// OAMADDR, which then moves on by one, from 255 to 0.
    pub fn store_data(&mut self, value: u8)
        ensures
            *final(self) == old(self).after_store(value),
    {
        self.mem[self.address as usize] = value;
        self.address = self.address.wrapping_add(1);
    }

    /// A CPU write to OAMADDR.
    pub fn set_address(&mut self, addr: u8)
        ensures
            *final(self) == (Oam { address: addr, ..*old(self) }),
    {
        self.address = addr;
    }

    /// How many sprites the current scanline has.
    pub fn count(&self) -> (count: usize)
        ensures
            count == self.count,
    {
        self.count
    }

    /// Whether sprite 0 is among the sprites of the current scanline.
    pub fn sprite_zero_hit(&self) -> (hit: bool)
        ensures
            hit == self.zero_hit_now,
    {
        self.zero_hit_now
    }

    /// One dot of the evaluator on a visible scanline. Dot 0 starts the
    /// line; dots 1 to 64 clear the secondary memory, reading `$FF` on the odd
    /// dot and writing it on the even one; dots 65 to 256 look for the
    /// sprites of the next scanline; dots 257 to 320 load what was found into
    /// the rendering units, four bytes in each eight dots. Returns whether a
    /// ninth sprite was found on this dot.
    #[verifier::rlimit(50)]
    pub fn cycle(
        &mut self,
        cycles: usize,
        scanline: u8,
        spr_units: &mut [Sprite; 8],
        big_sprites: bool,
    ) -> (overflow: bool)
        requires
            old(self).wf(),
        ensures
            *final(self) == old(self).after_cycle(cycles as int, scanline, big_sprites),
            *final(spr_units) == old(self).units_after_cycle(*old(spr_units), cycles as int),
            overflow == old(self).overflows(cycles as int, scanline, big_sprites),
            final(self).wf(),
            final(self).count <= 8,
    {
        if cycles == 0 {
            self.zero_hit_now = self.zero_hit_next;
            self.zero_hit_next = false;
            self.mem_index = 0;
            self.smem_index = 0;
            self.finished = false;
            return false;
        }
        let cycles: usize = cycles - 1;
        if cycles < 64 {
            if cycles % 2 == 0 {
                self.read = 0xff;
            } else {
                self.smem[cycles / 2] = self.read;
            }
        } else if cycles < 256 {
            if cycles % 2 == 0 {
                self.read = self.mem[self.mem_index as usize];
                return false;
            }
            if self.finished {
            } else if self.smem_index % 4 != 0 {
                self.smem[self.smem_index] = self.read;
                self.smem_index = self.smem_index + 1;
                self.step(1);
            } else if self.smem_index < 32 {
                self.smem[self.smem_index] = self.read;
                if self.in_range(scanline, big_sprites) {
                    if self.mem_index == 0 {
                        self.zero_hit_next = true;
                    }
                    self.smem_index = self.smem_index + 1;
                    self.step(1);
                } else {
                    self.step(4);
                }
            } else if self.mem_index % 4 != 0 && !self.next_sprite {
                self.step(1);
            } else if self.in_range(scanline, big_sprites) {
                self.step(1);
                self.next_sprite = false;
                return true;
            } else {
                self.step(5);
                self.next_sprite = true;
            }
        } else if cycles < 320 {
            if cycles == 256 {
                self.count = self.smem_index / 4;
                self.smem_index = 0;
            }
            if cycles % 8 < 4 && self.smem_index < self.count * 4 {
                let data: u8 = self.smem[self.smem_index];
                spr_units[self.smem_index / 4].set_sprite_info(self.smem_index % 4, data);
                self.smem_index = self.smem_index + 1;
            }
        }
        false
    }

    /// Moves the evaluator on by `by` bytes of `mem`.
    pub fn step(&mut self, by: u8)
        ensures
            *final(self) == old(self).stepped(by),
    {
        if self.mem_index > 255 - by {
            self.finished = true;
        }
        self.mem_index = self.mem_index.wrapping_add(by);
    }

    /// Whether the byte last read, taken as a sprite's first row, makes the
    /// sprite cover `scanline`.
    pub fn in_range(&self, scanline: u8, big_sprites: bool) -> (inside: bool)
        ensures
            inside == covers(self.read, scanline, big_sprites),
    {
        let size: u8 = if big_sprites {
            16
        } else {
            8
        };
        self.read < 0xf0 && self.read + size > scanline && self.read <= scanline
    }
}

impl Default for Oam {
    fn default() -> (oam: Oam)
        ensures
            oam.is_empty(),
            oam.wf(),
    {
        Oam::new()
    }
}

} // verus!
