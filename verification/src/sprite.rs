use vstd::prelude::*;
use crate::bits::{flag_set, lemma_byte_bits};

verus! {

/// Sprite attribute bit 5: the sprite is drawn behind the background.
pub const ATTR_BEHIND: u8 = 0x20;

/// Sprite attribute bit 6: the sprite is mirrored left to right.
pub const ATTR_FLIP_H: u8 = 0x40;

/// Sprite attribute bit 7: the sprite is mirrored top to bottom.
pub const ATTR_FLIP_V: u8 = 0x80;

/// One of the eight sprite rendering units: the four bytes of the sprite's
/// entry in OAM, the counter that holds the sprite back until the beam
/// reaches its column, and the two pattern bytes that are shifted out, one
/// pixel per dot, from bit 0.
#[derive(Clone, Copy, Debug, PartialEq, Eq, Structural)]
pub struct Sprite {
    pub y_pos: u8,
    pub tile: u8,
    pub attributes: u8,
    pub x_pos: u8,
    pub counter: u8,
    pub latch: u8,
    pub lshift: u8,
    pub hshift: u8,
}

impl Sprite {
    /// The unit with byte `index` of its OAM entry replaced.
    pub open spec fn with_info(self, index: int, value: u8) -> Sprite {
        if index == 0 {
            Sprite { y_pos: value, ..self }
        } else if index == 1 {
            Sprite { tile: value, ..self }
        } else if index == 2 {
            Sprite { attributes: value, ..self }
        } else {
            Sprite { x_pos: value, ..self }
        }
    }

    /// The colour, 0 to 3, of the pixel that the unit is about to put out.
    pub open spec fn color(self) -> int {
        self.lshift as int % 2 + 2 * (self.hshift as int % 2)
    }

    /// The palette slot of that pixel: the sprite palettes are the upper
    /// four of the eight.
    pub open spec fn palette_index(self) -> int {
        16 + (self.attributes as int % 4) * 4 + self.color()
    }

    /// The unit has reached its column and its next pixel is not transparent.
    pub open spec fn shows_pixel(self) -> bool {
        self.counter == 0 && self.color() != 0
    }

    /// The unit one dot later: it counts down to its column, and from there
    /// on shifts one pixel out.
    pub open spec fn after_dot(self) -> Sprite {
        if self.counter > 0 {
            Sprite { counter: (self.counter - 1) as u8, ..self }
        } else {
            Sprite { lshift: self.lshift / 2, hshift: self.hshift / 2, ..self }
        }
    }

    /// A unit with every byte 0.
    pub open spec fn blank() -> Sprite {
        Sprite {
            y_pos: 0,
            tile: 0,
            attributes: 0,
            x_pos: 0,
            counter: 0,
            latch: 0,
            lshift: 0,
            hshift: 0,
        }
    }

    /// A unit with every byte 0.
    pub fn new() -> (sprite: Sprite)
        ensures
            sprite == Sprite::blank(),
    {
        Sprite {
            y_pos: 0,
            tile: 0,
            attributes: 0,
            x_pos: 0,
            counter: 0,
            latch: 0,
            lshift: 0,
            hshift: 0,
        }
    }

    /// Sets one byte of the OAM entry: 0 the row, 1 the tile, 2 the
    /// attributes, 3 the column.
    pub fn set_sprite_info(&mut self, index: usize, value: u8)
        requires
            index < 4,
        ensures
            *final(self) == old(self).with_info(index as int, value),
    {
        if index == 0 {
            self.y_pos = value;
        } else if index == 1 {
            self.tile = value;
        } else if index == 2 {
            self.attributes = value;
        } else {
            self.x_pos = value;
        }
    }

    /// The palette slot of the pixel that the unit is about to put out.
    pub fn get_palette_index(&self) -> (index: usize)
        ensures
            index == self.palette_index(),
            16 <= index < 32,
    {
        proof {
            lemma_byte_bits(self.lshift);
            lemma_byte_bits(self.hshift);
            lemma_byte_bits(self.attributes);
        }
        let color: u8 = (self.lshift & 1) + 2 * (self.hshift & 1);
        (self.get_palette() + 4) * 4 + color as usize
    }

    /// Moves the unit on by one dot: it counts down to its column, and from
    /// there on shifts one pixel out.
    pub fn decrement_or_shift(&mut self)
        ensures
            *final(self) == old(self).after_dot(),
    {
        proof {
            lemma_byte_bits(self.lshift);
            lemma_byte_bits(self.hshift);
        }
        if self.counter > 0 {
            self.counter = self.counter - 1;
        } else {
            self.lshift = self.lshift >> 1;
            self.hshift = self.hshift >> 1;
        }
    }

    /// Whether the sprite is drawn in front of the background.
    pub fn get_priority(&self) -> (front: bool)
        ensures
            front == !flag_set(self.attributes, ATTR_BEHIND),
    {
        self.attributes & ATTR_BEHIND == 0
    }

    /// Which of the four sprite palettes the sprite uses.
    pub fn get_palette(&self) -> (palette: usize)
        ensures
            palette == self.attributes % 4,
    {
        proof {
            lemma_byte_bits(self.attributes);
        }
        (self.attributes & 3) as usize
    }

    /// Whether the sprite is mirrored left to right.
    pub fn flip_horizontally(&self) -> (flip: bool)
        ensures
            flip == flag_set(self.attributes, ATTR_FLIP_H),
    {
        self.attributes & ATTR_FLIP_H != 0
    }

    /// Whether the sprite is mirrored top to bottom.
    pub fn flip_vertically(&self) -> (flip: bool)
        ensures
            flip == flag_set(self.attributes, ATTR_FLIP_V),
    {
        self.attributes & ATTR_FLIP_V != 0
    }

    /// Whether the unit has reached its column and its next pixel is not
    /// transparent.
    pub fn has_pixel(&self) -> (shows: bool)
        ensures
            shows == self.shows_pixel(),
    {
        proof {
            lemma_byte_bits(self.lshift);
            lemma_byte_bits(self.hshift);
        }
        self.counter == 0 && (self.lshift & 1 != 0 || self.hshift & 1 != 0)
    }
}

impl Default for Sprite {
    fn default() -> (sprite: Sprite)
        ensures
            sprite == Sprite::blank(),
    {
        Sprite::new()
    }
}

} // verus!
