use vstd::prelude::*;
use crate::bits::{bit16, pair32};
use crate::mapper::Mapper;
use crate::mem::Memory;
use crate::scroll::Scroll;

verus! {

/// The background pipeline: the four bytes that the current fetch has
/// gathered, and the shift registers that the pixels are taken from. A
/// pattern register holds sixteen pixels, the tile on display in its high
/// byte and the next one in its low byte; the attribute register holds the
/// palette group of each of those pixels in two bits.
#[derive(Clone, Copy, Debug, PartialEq, Eq, Structural)]
pub struct Background {
    pub ltile_shift: u16,
    pub htile_shift: u16,
    pub attr_shift: u32,
    pub next_ltile: u8,
    pub next_htile: u8,
    pub next_attr: u8,
    pub next_name: u8,
}

impl Background {
    /// The pipeline one dot later: every register has moved by one pixel.
    pub open spec fn after_shift(self) -> Background {
        Background {
            ltile_shift: ((self.ltile_shift * 2) % 0x1_0000) as u16,
            htile_shift: ((self.htile_shift * 2) % 0x1_0000) as u16,
            attr_shift: ((self.attr_shift * 4) % 0x1_0000_0000) as u32,
            ..self
        }
    }

    /// The pipeline after the fetched tile was latched: the pattern bytes
    /// fill the low halves of their registers, and the tile's palette group,
    /// repeated for each of its eight pixels, the low half of the attribute
    /// register. The high halves stay.
    pub open spec fn latched(self, scroll: Scroll) -> Background {
        Background {
            ltile_shift: (self.ltile_shift - self.ltile_shift % 256 + self.next_ltile) as u16,
            htile_shift: (self.htile_shift - self.htile_shift % 256 + self.next_htile) as u16,
            attr_shift: (self.attr_shift - self.attr_shift % 0x1_0000 + scroll.tile_attribute(
                self.next_attr,
            ) * 0x5555) as u32,
            ..self
        }
    }

    /// The place of a dot in the eight-dot fetch: 0 to 7.
    pub open spec fn phase(dot: int) -> int {
        (dot - 1) % 8
    }

    /// The pipeline after the fetch of dot `dot`. Phase 1 reads the
    /// nametable byte, phase 3 the attribute byte, phase 5 the low pattern
    /// byte and phase 7 the high one, eight bytes further on; phase 7 then
    /// latches the tile. The other phases do nothing.
    pub open spec fn after_fetch<M: Mapper>(self, memory: &Memory<M>, scroll: Scroll, dot: int) -> Background {
        let phase = Self::phase(dot);
        if phase == 1 {
            Background { next_name: memory.mapper.chr(scroll.nametable_address() as u16), ..self }
        } else if phase == 3 {
            Background { next_attr: memory.mapper.chr(scroll.attribute_address() as u16), ..self }
        } else if phase == 5 {
            Background {
                next_ltile: memory.mapper.chr(scroll.tile_address(self.next_name) as u16),
                ..self
            }
        } else if phase == 7 {
            (Background {
                next_htile: memory.mapper.chr((scroll.tile_address(self.next_name) + 8) as u16),
                ..self
            }).latched(scroll)
        } else {
            self
        }
    }

    /// The colour, 0 to 3, of the pixel that lies `fine_x` pixels into the
    /// registers.
    pub open spec fn color_index(self, fine_x: u8) -> int {
        bit16(self.ltile_shift, (15 - fine_x) as u8) + 2 * bit16(
            self.htile_shift,
            (15 - fine_x) as u8,
        )
    }

    /// The palette slot of that pixel: slot 0, the backdrop, where the pixel
    /// is transparent, and else the colour within the pixel's palette group.
    pub open spec fn palette_index(self, fine_x: u8) -> int {
        if self.color_index(fine_x) > 0 {
            pair32(self.attr_shift, (15 - fine_x) as u8) * 4 + self.color_index(fine_x)
        } else {
            0
        }
    }

    /// An empty pipeline.
    pub open spec fn blank() -> Background {
        Background {
            ltile_shift: 0,
            htile_shift: 0,
            attr_shift: 0,
            next_ltile: 0,
            next_htile: 0,
            next_attr: 0,
            next_name: 0,
        }
    }

    /// An empty pipeline.
    pub fn new() -> (background: Background)
        ensures
            background == Background::blank(),
    {
        Background {
            ltile_shift: 0,
            htile_shift: 0,
            attr_shift: 0,
            next_ltile: 0,
            next_htile: 0,
            next_attr: 0,
            next_name: 0,
        }
    }

    /// The fetch of one dot. The shift registers change at phase 7 alone,
    /// and there only in their low halves.
    pub fn fetch<M: Mapper>(&mut self, memory: &Memory<M>, scroll: &Scroll, scycle: usize)
        requires
            1 <= scycle,
            scroll.wf(),
        ensures
            *final(self) == old(self).after_fetch(memory, *scroll, scycle as int),
            Self::phase(scycle as int) != 7 ==> {
                &&& final(self).ltile_shift == old(self).ltile_shift
                &&& final(self).htile_shift == old(self).htile_shift
                &&& final(self).attr_shift == old(self).attr_shift
            },
            Self::phase(scycle as int) == 7 ==> {
                &&& final(self).ltile_shift % 256 == old(self).next_ltile
                &&& final(self).htile_shift % 256 == final(self).next_htile
                &&& final(self).ltile_shift / 256 == old(self).ltile_shift / 256
                &&& final(self).htile_shift / 256 == old(self).htile_shift / 256
                &&& final(self).attr_shift / 0x1_0000 == old(self).attr_shift / 0x1_0000
            },
    {
        let phase: usize = (scycle - 1) % 8;
        if phase == 1 {
            let address: u16 = scroll.get_nametable_address();
            self.next_name = memory.chr_load(address);
        } else if phase == 3 {
            let address: u16 = scroll.get_attribute_address();
            self.next_attr = memory.chr_load(address);
        } else if phase == 5 {
            let address: u16 = scroll.get_tile_address(self.next_name);
            self.next_ltile = memory.chr_load(address);
        } else if phase == 7 {
            let address: u16 = scroll.get_tile_address(self.next_name);
            self.next_htile = memory.chr_load(address + 8);
            self.set_shift_regs(scroll);
        }
    }

    /// Moves every shift register on by one pixel.
    pub fn shift(&mut self)
        ensures
            *final(self) == old(self).after_shift(),
    {
        proof {
            lemma_shift_bits(self.ltile_shift, self.attr_shift, 0, 0);
            lemma_shift_bits(self.htile_shift, self.attr_shift, 0, 0);
        }
        self.ltile_shift = self.ltile_shift << 1;
        self.htile_shift = self.htile_shift << 1;
        self.attr_shift = self.attr_shift << 2;
    }

    /// Latches the fetched tile into the low halves of the shift registers.
    pub fn set_shift_regs(&mut self, scroll: &Scroll)
        requires
            scroll.wf(),
        ensures
            *final(self) == old(self).latched(*scroll),
    {
        let group: u8 = scroll.get_tile_attribute(self.next_attr);
        proof {
            lemma_shift_bits(self.ltile_shift, self.attr_shift, self.next_ltile, group);
            lemma_shift_bits(self.htile_shift, self.attr_shift, self.next_htile, group);
        }
        self.ltile_shift = (self.ltile_shift & 0xff00) | (self.next_ltile as u16);
        self.htile_shift = (self.htile_shift & 0xff00) | (self.next_htile as u16);
        self.attr_shift = (self.attr_shift & 0xffff_0000) | ((group as u32) * 0x5555);
    }

    /// The colour, 0 to 3, of the pixel `fine_x` pixels into the registers.
    pub fn get_color_index(&self, fine_x: u8) -> (color: usize)
        requires
            fine_x < 8,
        ensures
            color == self.color_index(fine_x),
            color < 4,
    {
        proof {
            lemma_pixel_bits(self.ltile_shift, self.htile_shift, self.attr_shift, fine_x);
        }
        let low: u16 = (self.ltile_shift >> (15 - fine_x)) & 1;
        let high: u16 = (self.htile_shift >> (15 - fine_x)) & 1;
        (low + 2 * high) as usize
    }

    /// The palette slot of the pixel `fine_x` pixels into the registers.
    pub fn get_palette_index(&self, fine_x: u8) -> (index: usize)
        requires
            fine_x < 8,
        ensures
            index == self.palette_index(fine_x),
            index < 16,
    {
        proof {
            lemma_pixel_bits(self.ltile_shift, self.htile_shift, self.attr_shift, fine_x);
        }
        let color: usize = self.get_color_index(fine_x);
        if color > 0 {
            let group: u32 = (self.attr_shift >> (2 * (15 - fine_x)) as u32) & 3;
            (group as usize) * 4 + color
        } else {
            0
        }
    }
}

/// Of the eight dots of a fetch, phase 7 alone writes the shift
/// registers, and it writes their low halves alone: the pattern bytes that
/// the fetch gathered fill the low halves of the pattern registers, and the
/// high halves of all three registers stay.
pub proof fn law_latch_once<M: Mapper>(
    background: Background,
    memory: &Memory<M>,
    scroll: Scroll,
    dot: int,
)
    requires
        1 <= dot,
        scroll.wf(),
    ensures
        ({
            let after = background.after_fetch(memory, scroll, dot);
            &&& Background::phase(dot) != 7 ==> {
                &&& after.ltile_shift == background.ltile_shift
                &&& after.htile_shift == background.htile_shift
                &&& after.attr_shift == background.attr_shift
            }
            &&& Background::phase(dot) == 7 ==> {
                &&& after.ltile_shift % 256 == background.next_ltile
                &&& after.htile_shift % 256 == after.next_htile
                &&& after.next_htile == memory.mapper.chr(
                    (scroll.tile_address(background.next_name) + 8) as u16,
                )
                &&& after.attr_shift % 0x1_0000 == scroll.tile_attribute(background.next_attr)
                    * 0x5555
                &&& after.ltile_shift / 256 == background.ltile_shift / 256
                &&& after.htile_shift / 256 == background.htile_shift / 256
                &&& after.attr_shift / 0x1_0000 == background.attr_shift / 0x1_0000
            }
        }),
{
}

impl Default for Background {
    fn default() -> (background: Background)
        ensures
            background == Background::blank(),
    {
        Background::new()
    }
}

/// A shift to the left doubles within the register's width, and a byte
/// or'ed under a cleared low half is added to what is left.
pub proof fn lemma_shift_bits(pattern: u16, attribute: u32, byte: u8, group: u8)
    by (bit_vector)
    requires
        group < 4,
    ensures
        ({
            &&& pattern << 1 == (pattern * 2) % 0x1_0000
            &&& attribute << 2 == (attribute * 4) % 0x1_0000_0000
            &&& (pattern & 0xff00) | (byte as u16) == pattern - pattern % 256 + byte
            &&& (attribute & 0xffff_0000) | ((group * 0x5555) as u32) == attribute - attribute
                % 0x1_0000 + group * 0x5555
            &&& group * 0x5555 <= 0xffff
        }),
{
}

/// A single bit is 0 or 1 and a pair of bits 0 to 3.
pub proof fn lemma_pixel_bits(low: u16, high: u16, attribute: u32, fine_x: u8)
    by (bit_vector)
    requires
        fine_x < 8,
    ensures
        ({
            &&& (low >> (15 - fine_x) as u8) & 1 <= 1
            &&& (high >> (15 - fine_x) as u8) & 1 <= 1
            &&& (attribute >> (2 * ((15 - fine_x) as u8)) as u32) & 3 <= 3
        }),
{
}

} // verus!
