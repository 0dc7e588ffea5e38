use vstd::prelude::*;
use crate::bits::flag_set;

verus! {

/// PPUCTRL bit 2: the address steps by 32 after a `$2007` access, not by 1.
pub const CTRL_INCREMENT: u8 = 0x04;

/// PPUCTRL bit 4: the background's tiles come from the pattern table at `$1000`.
pub const CTRL_BACKGROUND_PATTERN: u8 = 0x10;

/// The tile column that a 15-bit scroll address names: 0 to 31.
pub open spec fn coarse_x(v: u16) -> int {
    v as int % 32
}

/// The tile row that a scroll address names: 0 to 31.
pub open spec fn coarse_y(v: u16) -> int {
    (v as int / 32) % 32
}

/// The nametable that a scroll address names: 0 to 3, the horizontal
/// neighbour in its bit 0 and the vertical one in its bit 1.
pub open spec fn nametable(v: u16) -> int {
    (v as int / 1024) % 4
}

/// The pixel row inside the tile: 0 to 7.
pub open spec fn fine_y(v: u16) -> int {
    (v as int / 4096) % 8
}

/// The scroll address with the four fields given.
pub open spec fn loopy(fine_y: int, nametable: int, coarse_y: int, coarse_x: int) -> int {
    fine_y * 4096 + nametable * 1024 + coarse_y * 32 + coarse_x
}

/// The nametable to the left or right of nametable `n`.
pub open spec fn beside(n: int) -> int {
    if n % 2 == 0 {
        n + 1
    } else {
        n - 1
    }
}

/// The nametable above or below nametable `n`.
pub open spec fn below(n: int) -> int {
    if n < 2 {
        n + 2
    } else {
        n - 2
    }
}

/// The PPU's scroll and address unit: the current VRAM address `v`, the
/// address under construction `t`, the fine horizontal scroll and the write
/// toggle `w` that `$2005` and `$2006` share.
#[derive(Clone, Copy, Debug, PartialEq, Eq, Structural)]
pub struct Scroll {
    pub v: u16,
    pub t: u16,
    pub fine_x: u8,
    pub w: bool,
    /// PPUCTRL as last written: it holds the address step and the
    /// background's pattern table.
    pub ctrl: u8,
}

impl Scroll {
    /// Both addresses have 15 bits and the fine scroll has 3.
    pub open spec fn wf(self) -> bool {
        &&& self.v < 0x8000
        &&& self.t < 0x8000
        &&& self.fine_x < 8
    }

    /// The unit after a write of `value` to PPUCTRL: the base nametable
    /// goes into `t`.
    pub open spec fn after_ppuctrl(self, value: u8) -> Scroll {
        Scroll {
            t: loopy(fine_y(self.t), value as int % 4, coarse_y(self.t), coarse_x(self.t)) as u16,
            ctrl: value,
            ..self
        }
    }

    /// The unit after a write of `value` to PPUSCROLL: the first write of a
    /// pair gives the horizontal scroll, the second the vertical one.
    pub open spec fn after_scroll(self, value: u8) -> Scroll {
        if !self.w {
            Scroll {
                t: loopy(fine_y(self.t), nametable(self.t), coarse_y(self.t), value as int / 8) as u16,
                fine_x: value % 8,
                w: true,
                ..self
            }
        } else {
            Scroll {
                t: loopy(value as int % 8, nametable(self.t), value as int / 8, coarse_x(self.t)) as u16,
                w: false,
                ..self
            }
        }
    }

    /// The unit after a write of `value` to PPUADDR: the first write of a
    /// pair gives the high six bits of `t` and clears its bit 14, the second
    /// gives the low byte and copies `t` to `v`.
    pub open spec fn after_address(self, value: u8) -> Scroll {
        if !self.w {
            Scroll { t: ((value as int % 64) * 256 + self.t as int % 256) as u16, w: true, ..self }
        } else {
            let t = (self.t - self.t as int % 256 + value) as u16;
            Scroll { t, v: t, w: false, ..self }
        }
    }

    /// A unit with both addresses 0 and the write toggle clear.
    pub fn new() -> (scroll: Scroll)
        ensures
            scroll == (Scroll { v: 0, t: 0, fine_x: 0, w: false, ctrl: 0 }),
            scroll.wf(),
    {
        Scroll { v: 0, t: 0, fine_x: 0, w: false, ctrl: 0 }
    }

    /// A write to PPUCTRL: the base nametable goes into `t`.
    pub fn set_ppuctrl(&mut self, value: u8)
        requires
            old(self).wf(),
        ensures
            *final(self) == old(self).after_ppuctrl(value),
            final(self).wf(),
    {
        proof {
            lemma_write_bits(self.t, value);
        }
        self.t = (self.t & 0x73ff) | (((value & 3) as u16) << 10);
        self.ctrl = value;
    }

    /// A write to PPUSCROLL: the horizontal scroll on the first write of a
    /// pair, the vertical scroll on the second.
    pub fn set_scroll(&mut self, value: u8)
        requires
            old(self).wf(),
        ensures
            *final(self) == old(self).after_scroll(value),
            final(self).wf(),
    {
        proof {
            lemma_write_bits(self.t, value);
        }
        if !self.w {
            self.t = (self.t & 0x7fe0) | ((value >> 3) as u16);
            self.fine_x = value & 7;
        } else {
            self.t = (self.t & 0x0c1f) | (((value & 7) as u16) << 12) | (((value >> 3) as u16) << 5);
        }
        self.w = !self.w;
    }

    /// A write to PPUADDR: the high byte of `t` on the first write of a pair,
    /// the low byte on the second, which also copies `t` to `v`.
    pub fn set_address(&mut self, value: u8)
        requires
            old(self).wf(),
        ensures
            *final(self) == old(self).after_address(value),
            final(self).wf(),
    {
        proof {
            lemma_write_bits(self.t, value);
        }
        if !self.w {
            self.t = (self.t & 0x00ff) | (((value & 0x3f) as u16) << 8);
        } else {
            self.t = (self.t & 0x7f00) | (value as u16);
            self.v = self.t;
        }
        self.w = !self.w;
    }

    /// The unit after the step to the next tile column: past column 31
    /// the address moves to column 0 of the horizontal neighbour.
    pub open spec fn after_coarse_x(self) -> Scroll {
        if coarse_x(self.v) == 31 {
            Scroll {
                v: loopy(fine_y(self.v), beside(nametable(self.v)), coarse_y(self.v), 0) as u16,
                ..self
            }
        } else {
            Scroll { v: (self.v + 1) as u16, ..self }
        }
    }

    /// The unit after the step to the next pixel row: past row 7 of a tile
    /// the address moves to the next tile row, past tile row 29 to row 0 of
    /// the vertical neighbour, and past tile row 31 to row 0 of the same
    /// nametable.
    pub open spec fn after_y(self) -> Scroll {
        let v = self.v;
        if fine_y(v) < 7 {
            Scroll { v: (v + 4096) as u16, ..self }
        } else if coarse_y(v) == 29 {
            Scroll { v: loopy(0, below(nametable(v)), 0, coarse_x(v)) as u16, ..self }
        } else if coarse_y(v) == 31 {
            Scroll { v: loopy(0, nametable(v), 0, coarse_x(v)) as u16, ..self }
        } else {
            Scroll { v: loopy(0, nametable(v), coarse_y(v) + 1, coarse_x(v)) as u16, ..self }
        }
    }

    /// The unit after `v` took its column and its horizontal nametable from `t`.
    pub open spec fn after_copy_horizontal(self) -> Scroll {
        Scroll {
            v: loopy(
                fine_y(self.v),
                (nametable(self.v) / 2) * 2 + nametable(self.t) % 2,
                coarse_y(self.v),
                coarse_x(self.t),
            ) as u16,
            ..self
        }
    }

    /// The unit after `v` took its rows and its vertical nametable from `t`.
    pub open spec fn after_copy_vertical(self) -> Scroll {
        Scroll {
            v: loopy(
                fine_y(self.t),
                (nametable(self.t) / 2) * 2 + nametable(self.v) % 2,
                coarse_y(self.t),
                coarse_x(self.v),
            ) as u16,
            ..self
        }
    }

    /// By how much `v` steps after an access through `$2007`.
    pub open spec fn step(self) -> int {
        if flag_set(self.ctrl, CTRL_INCREMENT) {
            32
        } else {
            1
        }
    }

    /// The unit after an access through `$2007`: outside rendering `v`
    /// steps on, within its 15 bits.
    pub open spec fn after_access(self, rendering: bool) -> Scroll {
        if rendering {
            self
        } else {
            Scroll { v: ((self.v + self.step()) % 0x8000) as u16, ..self }
        }
    }

    /// The address of the nametable byte under `v`.
    pub open spec fn nametable_address(self) -> int {
        0x2000 + self.v as int % 4096
    }

    /// The address of the attribute byte under `v`: one byte for each block
    /// of four by four tiles, from `$23C0` of the nametable on.
    pub open spec fn attribute_address(self) -> int {
        0x23c0 + nametable(self.v) * 1024 + (coarse_y(self.v) / 4) * 8 + coarse_x(self.v) / 4
    }

    /// The address of the low pattern byte of tile `index` at the pixel row of `v`.
    pub open spec fn tile_address(self, index: u8) -> int {
        (if flag_set(self.ctrl, CTRL_BACKGROUND_PATTERN) {
            0x1000int
        } else {
            0int
        }) + index as int * 16 + fine_y(self.v)
    }

    /// Which quarter of its attribute block the tile under `v` lies in:
    /// 0 top left, 1 top right, 2 bottom left, 3 bottom right.
    pub open spec fn quadrant(self) -> int {
        ((coarse_y(self.v) / 2) % 2) * 2 + (coarse_x(self.v) / 2) % 2
    }

    /// The palette group, 0 to 3, that the attribute byte gives the tile under `v`.
    pub open spec fn tile_attribute(self, attribute: u8) -> int {
        let q = self.quadrant();
        if q == 0 {
            attribute as int % 4
        } else if q == 1 {
            (attribute as int / 4) % 4
        } else if q == 2 {
            (attribute as int / 16) % 4
        } else {
            attribute as int / 64
        }
    }

    /// Steps `v` to the next tile column.
    pub fn increment_coarse_x(&mut self)
        requires
            old(self).wf(),
        ensures
            *final(self) == old(self).after_coarse_x(),
            final(self).wf(),
    {
        proof {
            lemma_step_bits(self.v);
        }
        if self.v & 0x001f == 31 {
            self.v = (self.v & 0x7fe0) ^ 0x0400;
        } else {
            self.v = self.v + 1;
        }
    }

    /// Steps `v` to the next pixel row.
    pub fn increment_y(&mut self)
        requires
            old(self).wf(),
        ensures
            *final(self) == old(self).after_y(),
            final(self).wf(),
    {
        proof {
            lemma_step_bits(self.v);
        }
        if self.v & 0x7000 != 0x7000 {
            self.v = self.v + 0x1000;
        } else {
            let row: u16 = (self.v & 0x03e0) >> 5;
            if row == 29 {
                self.v = (self.v & 0x0c1f) ^ 0x0800;
            } else if row == 31 {
                self.v = self.v & 0x0c1f;
            } else {
                self.v = (self.v & 0x0c1f) | ((row + 1) << 5);
            }
        }
    }

    /// Copies the column and the horizontal nametable from `t` to `v`.
    pub fn copy_horizontal(&mut self)
        requires
            old(self).wf(),
        ensures
            *final(self) == old(self).after_copy_horizontal(),
            final(self).wf(),
    {
        proof {
            lemma_copy_bits(self.v, self.t);
        }
        self.v = (self.v & 0x7be0) | (self.t & 0x041f);
    }

    /// Copies the rows and the vertical nametable from `t` to `v`.
    pub fn copy_vertical(&mut self)
        requires
            old(self).wf(),
        ensures
            *final(self) == old(self).after_copy_vertical(),
            final(self).wf(),
    {
        proof {
            lemma_copy_bits(self.v, self.t);
        }
        self.v = (self.v & 0x041f) | (self.t & 0x7be0);
    }

    /// The VRAM address of an access through `$2007`, within the PPU's 14
    /// address bits. Outside rendering the access also moves `v` on, by 1 or
    /// by 32 as PPUCTRL says.
    pub fn get_address(&mut self, rendering: bool) -> (address: u16)
        requires
            old(self).wf(),
        ensures
            address == old(self).v % 0x4000,
            *final(self) == old(self).after_access(rendering),
            final(self).wf(),
    {
        let address: u16 = self.v % 0x4000;
        if !rendering {
            let step: u16 = if self.ctrl & CTRL_INCREMENT != 0 {
                32
            } else {
                1
            };
            self.v = (self.v + step) % 0x8000;
        }
        address
    }

    /// The fine horizontal scroll: 0 to 7.
    pub fn get_fine_x(&self) -> (fine_x: u8)
        ensures
            fine_x == self.fine_x,
    {
        self.fine_x
    }

    /// The address of the nametable byte under `v`.
    pub fn get_nametable_address(&self) -> (address: u16)
        requires
            self.wf(),
        ensures
            address == self.nametable_address(),
    {
        proof {
            lemma_fetch_bits(self.v, self.ctrl, 0);
        }
        0x2000 | (self.v & 0x0fff)
    }

    /// The address of the attribute byte under `v`.
    pub fn get_attribute_address(&self) -> (address: u16)
        requires
            self.wf(),
        ensures
            address == self.attribute_address(),
    {
        proof {
            lemma_fetch_bits(self.v, self.ctrl, 0);
        }
        0x23c0 | (self.v & 0x0c00) | ((self.v >> 4) & 0x38) | ((self.v >> 2) & 0x07)
    }

    /// The address of the low pattern byte of tile `index` at the pixel row of `v`.
    pub fn get_tile_address(&self, index: u8) -> (address: u16)
        requires
            self.wf(),
        ensures
            address == self.tile_address(index),
    {
        proof {
            lemma_fetch_bits(self.v, self.ctrl, index);
        }
        let table: u16 = if self.ctrl & CTRL_BACKGROUND_PATTERN != 0 {
            0x1000
        } else {
            0
        };
        table | ((index as u16) << 4) | (self.v >> 12)
    }

    /// The palette group that the attribute byte gives the tile under `v`.
    pub fn get_tile_attribute(&self, attribute: u8) -> (group: u8)
        requires
            self.wf(),
        ensures
            group == self.tile_attribute(attribute),
            group < 4,
    {
        proof {
            lemma_fetch_bits(self.v, self.ctrl, attribute);
        }
        let shift: u16 = ((self.v >> 4) & 4) | (self.v & 2);
        (attribute >> shift) & 3
    }

    /// Clears the write toggle, as a read of PPUSTATUS does.
    pub fn reset(&mut self)
        ensures
            *final(self) == (Scroll { w: false, ..*old(self) }),
    {
        self.w = false;
    }
}

impl Default for Scroll {
    fn default() -> (scroll: Scroll)
        ensures
            scroll == (Scroll { v: 0, t: 0, fine_x: 0, w: false, ctrl: 0 }),
            scroll.wf(),
    {
        Scroll::new()
    }
}

/// Two writes to PPUADDR that start with the write toggle clear leave `v`
/// equal to `t`: the address that the two bytes spell, without its top two bits.
pub proof fn law_address_pair(scroll: Scroll, high: u8, low: u8)
    requires
        scroll.wf(),
        !scroll.w,
    ensures
        scroll.after_address(high).after_address(low).v == scroll.after_address(
            high,
        ).after_address(low).t,
        scroll.after_address(high).after_address(low).v == (high as int % 64) * 256 + low,
        !scroll.after_address(high).after_address(low).w,
{
    lemma_address_pair_bits(scroll.t, high, low);
}

/// Whatever was written before, the write toggle is clear after a reset, and
/// the next write to PPUADDR is taken as the high byte.
pub proof fn law_reset_restarts_pair(scroll: Scroll, value: u8)
    requires
        scroll.wf(),
    ensures
        !(Scroll { w: false, ..scroll }).w,
        (Scroll { w: false, ..scroll }).after_address(value).t == (value as int % 64) * 256
            + scroll.t as int % 256,
        (Scroll { w: false, ..scroll }).after_address(value).v == scroll.v,
{
    lemma_write_bits(scroll.t, value);
}

/// The writes to PPUSCROLL and PPUADDR take turns: each of them flips the
/// write toggle that the two registers share, and nothing else does but the
/// reset, which clears it.
pub proof fn law_writes_alternate(scroll: Scroll, value: u8, rendering: bool)
    ensures
        scroll.after_scroll(value).w == !scroll.w,
        scroll.after_address(value).w == !scroll.w,
        scroll.after_ppuctrl(value).w == scroll.w,
        scroll.after_coarse_x().w == scroll.w,
        scroll.after_y().w == scroll.w,
        scroll.after_copy_horizontal().w == scroll.w,
        scroll.after_copy_vertical().w == scroll.w,
        scroll.after_access(rendering).w == scroll.w,
{
}

/// Every operation of the unit keeps the two addresses within 15 bits and
/// the fine scroll within 3.
pub proof fn law_scroll_stays_well_formed(scroll: Scroll, value: u8, rendering: bool)
    requires
        scroll.wf(),
    ensures
        scroll.after_ppuctrl(value).wf(),
        scroll.after_scroll(value).wf(),
        scroll.after_address(value).wf(),
        scroll.after_coarse_x().wf(),
        scroll.after_y().wf(),
        scroll.after_coarse_x().after_y().wf(),
        scroll.after_copy_horizontal().wf(),
        scroll.after_copy_vertical().wf(),
        scroll.after_access(rendering).wf(),
        (Scroll { w: false, ..scroll }).wf(),
{
    lemma_write_bits(scroll.t, value);
    lemma_step_bits(scroll.v);
    lemma_step_bits(scroll.after_coarse_x().v);
    lemma_copy_bits(scroll.v, scroll.t);
}

/// The second byte of an address replaces the low byte, whatever that was.
pub proof fn lemma_address_pair_bits(t: u16, high: u8, low: u8)
    by (bit_vector)
    requires
        t < 0x8000,
    ensures
        ({
            let first = ((high % 64) * 256 + t % 256) as u16;
            (first - first % 256 + low) as u16 == (high % 64) * 256 + low
        }),
{
}

/// The register writes, bit by bit, are the field updates they stand for.
pub proof fn lemma_write_bits(t: u16, value: u8)
    by (bit_vector)
    requires
        t < 0x8000,
    ensures
        ({
            &&& (t & 0x73ff) | (((value & 3) as u16) << 10) == loopy(
                fine_y(t),
                value as int % 4,
                coarse_y(t),
                coarse_x(t),
            )
            &&& (t & 0x7fe0) | ((value >> 3) as u16) == loopy(
                fine_y(t),
                nametable(t),
                coarse_y(t),
                value as int / 8,
            )
            &&& value & 7 == value % 8
            &&& (t & 0x0c1f) | (((value & 7) as u16) << 12) | (((value >> 3) as u16) << 5) == loopy(
                value as int % 8,
                nametable(t),
                value as int / 8,
                coarse_x(t),
            )
            &&& (t & 0x00ff) | (((value & 0x3f) as u16) << 8) == (value as int % 64) * 256 + t as int
                % 256
            &&& (t & 0x7f00) | (value as u16) == t - t as int % 256 + value
            &&& (t & 0x73ff) | (((value & 3) as u16) << 10) < 0x8000
            &&& (t & 0x7fe0) | ((value >> 3) as u16) < 0x8000
            &&& (t & 0x0c1f) | (((value & 7) as u16) << 12) | (((value >> 3) as u16) << 5) < 0x8000
            &&& (t & 0x00ff) | (((value & 0x3f) as u16) << 8) < 0x8000
            &&& (t & 0x7f00) | (value as u16) < 0x8000
            &&& value & 7 < 8
        }),
{
}

/// The two increments, bit by bit, are steps through the fields.
pub proof fn lemma_step_bits(v: u16)
    by (bit_vector)
    requires
        v < 0x8000,
    ensures
        ({
            &&& v & 0x001f == v % 32
            &&& (v & 0x001f == 31 ==> (v & 0x7fe0) ^ 0x0400 == loopy(
                fine_y(v),
                beside(nametable(v)),
                coarse_y(v),
                0,
            ) && (v & 0x7fe0) ^ 0x0400 < 0x8000)
            &&& (v & 0x001f != 31 ==> v + 1 < 0x8000)
            &&& (v & 0x7000 != 0x7000 <==> (v / 4096) % 8 < 7)
            &&& (v & 0x7000 != 0x7000 ==> v + 0x1000 < 0x8000)
            &&& (v & 0x03e0) >> 5 == (v / 32) % 32
            &&& (v & 0x0c1f) ^ 0x0800 == loopy(0, below(nametable(v)), 0, coarse_x(v))
            &&& v & 0x0c1f == loopy(0, nametable(v), 0, coarse_x(v))
            &&& ((v / 32) % 32 < 31 ==> (v & 0x0c1f) | ((((v & 0x03e0) >> 5) + 1) as u16) << 5 == loopy(
                0,
                nametable(v),
                coarse_y(v) + 1,
                coarse_x(v),
            ))
            &&& (v & 0x0c1f) ^ 0x0800 < 0x8000
        }),
{
}

/// The two copies, bit by bit, take whole fields of `t` into `v`.
pub proof fn lemma_copy_bits(v: u16, t: u16)
    by (bit_vector)
    requires
        v < 0x8000,
        t < 0x8000,
    ensures
        ({
            &&& (v & 0x7be0) | (t & 0x041f) == loopy(
                fine_y(v),
                (nametable(v) / 2) * 2 + nametable(t) % 2,
                coarse_y(v),
                coarse_x(t),
            )
            &&& (v & 0x041f) | (t & 0x7be0) == loopy(
                fine_y(t),
                (nametable(t) / 2) * 2 + nametable(v) % 2,
                coarse_y(t),
                coarse_x(v),
            )
            &&& (v & 0x7be0) | (t & 0x041f) < 0x8000
            &&& (v & 0x041f) | (t & 0x7be0) < 0x8000
        }),
{
}

/// The fetch addresses, bit by bit, are sums over the fields of `v`.
pub proof fn lemma_fetch_bits(v: u16, ctrl: u8, byte: u8)
    by (bit_vector)
    requires
        v < 0x8000,
    ensures
        ({
            &&& 0x2000 | (v & 0x0fff) == 0x2000 + v % 4096
            &&& 0x23c0 | (v & 0x0c00) | ((v >> 4) & 0x38) | ((v >> 2) & 0x07) == 0x23c0 + nametable(v)
                * 1024 + (coarse_y(v) / 4) * 8 + coarse_x(v) / 4
            &&& 0x1000 | ((byte as u16) << 4) | (v >> 12) == 0x1000 + byte * 16 + fine_y(v)
            &&& 0 | ((byte as u16) << 4) | (v >> 12) == byte * 16 + fine_y(v)
            &&& ((v >> 4) & 4) | (v & 2) < 8
            &&& (byte >> (((v >> 4) & 4) | (v & 2))) & 3 < 4
            &&& (((v / 32) % 32 / 2) % 2 == 0 && ((v % 32) / 2) % 2 == 0 ==> (byte >> (((v >> 4) & 4) | (
            v & 2))) & 3 == byte % 4)
            &&& (((v / 32) % 32 / 2) % 2 == 0 && ((v % 32) / 2) % 2 == 1 ==> (byte >> (((v >> 4) & 4) | (
            v & 2))) & 3 == (byte / 4) % 4)
            &&& (((v / 32) % 32 / 2) % 2 == 1 && ((v % 32) / 2) % 2 == 0 ==> (byte >> (((v >> 4) & 4) | (
            v & 2))) & 3 == (byte / 16) % 4)
            &&& (((v / 32) % 32 / 2) % 2 == 1 && ((v % 32) / 2) % 2 == 1 ==> (byte >> (((v >> 4) & 4) | (
            v & 2))) & 3 == byte / 64)
        }),
{
}

} // verus!
