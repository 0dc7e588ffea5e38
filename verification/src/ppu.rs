use vstd::prelude::*;
use crate::background::Background;
use crate::bits::{flag_set, reverse_byte, reversed};
use crate::mapper::Mapper;
use crate::mem::{Interrupt, MemState, Memory};
use crate::oam::{covers, sprite_height, Oam};
use crate::scroll::{law_scroll_stays_well_formed, Scroll};
use crate::sprite::{Sprite, ATTR_BEHIND, ATTR_FLIP_H, ATTR_FLIP_V};

verus! {

/// PPUCTRL bit 3: 8x8 sprites take their tiles from the pattern table at `$1000`.
pub const CTRL_SPRITE_PATTERN: u8 = 0x08;

/// PPUCTRL bit 5: sprites are 16 rows high.
pub const CTRL_SPRITE_SIZE: u8 = 0x20;

/// PPUCTRL bit 7: the start of the vertical blank raises an NMI.
pub const CTRL_NMI: u8 = 0x80;

/// PPUMASK bit 3: the background is shown.
pub const MASK_SHOW_BACKGROUND: u8 = 0x08;

/// PPUMASK bit 4: the sprites are shown.
pub const MASK_SHOW_SPRITES: u8 = 0x10;

/// PPUSTATUS bit 5: more than eight sprites lay on one scanline.
pub const STATUS_SPRITE_OVERFLOW: u8 = 0x20;

/// PPUSTATUS bit 6: a pixel of sprite 0 met a pixel of the background.
pub const STATUS_SPRITE_0_HIT: u8 = 0x40;

/// PPUSTATUS bit 7: the PPU is in the vertical blank.
pub const STATUS_VBLANK: u8 = 0x80;

pub const PALETTE_SIZE: usize = 0x20;

/// Where the palette starts in the PPU's address space.
pub const PALETTE_ADDRESS: usize = 0x3f00;

/// The dots of a scanline that show a pixel.
pub const SCANLINE_WIDTH: usize = 256;

/// The scanlines of a frame that show pixels.
pub const SCANLINE_COUNT: usize = 240;

/// One row of the picture: a palette entry for each of its 256 pixels.
#[derive(Clone, Copy, Debug)]
pub struct Scanline(pub [u8; 256]);

/// What the PPU shows the CPU: the three readable registers as they stood
/// at the end of the last PPU tick.
#[derive(Clone, Copy, Debug, PartialEq, Eq, Structural)]
pub struct PpuReadRegs {
    pub data: u8,
    pub oam: u8,
    pub status: u8,
}

/// The palette slot behind a PPU address from `$3F00` up: the palette
/// repeats every 32 bytes, and the first entry of each sprite palette is the
/// first entry of the background palette with the same number.
pub open spec fn palette_slot(address: int) -> int {
    let index = address % 32;
    if index % 4 == 0 {
        index % 16
    } else {
        index
    }
}

/// Where the tile of a sprite starts in the pattern tables. A sprite of 16
/// rows names its table in bit 0 of its tile number and a pair of tiles in
/// the other seven bits; a sprite of 8 rows lies in the table that PPUCTRL
/// names.
pub open spec fn sprite_tile_base(sprite: Sprite, big: bool, table: u16) -> u16 {
    if big {
        ((sprite.tile % 2) * 0x1000 + (sprite.tile / 2) * 32) as u16
    } else {
        (table + sprite.tile * 16) as u16
    }
}

/// The row of the sprite's pattern that is fetched on `scanline`, as an
/// offset into the tile: the distance from the sprite's first row, counted
/// from the last row where the sprite is flipped, and moved past the high
/// plane of the upper tile where it reaches into the lower one. All of it
/// is computed within 8 and 16 bits, so that a sprite that does not cover
/// the scanline still has a row.
pub open spec fn sprite_row(sprite: Sprite, scanline: usize, big: bool) -> u16 {
    let distance = ((scanline % 256) as u8).wrapping_sub(sprite.y_pos) as u16;
    let row = if flag_set(sprite.attributes, ATTR_FLIP_V) {
        (if big {
            15u16
        } else {
            7u16
        }).wrapping_sub(distance)
    } else {
        distance
    };
    if row >= 8 {
        row.wrapping_add(8)
    } else {
        row
    }
}

/// The address of the low pattern byte of the row that is fetched on `scanline`.
pub open spec fn sprite_address(sprite: Sprite, scanline: usize, big: bool, table: u16) -> u16 {
    sprite_tile_base(sprite, big, table) | sprite_row(sprite, scanline, big)
}

/// A pattern byte as the unit shifts it out, from bit 0: the leftmost pixel
/// is bit 7 of the byte in memory, so the byte is reversed unless the
/// sprite is flipped.
pub open spec fn sprite_pattern(sprite: Sprite, byte: u8) -> u8 {
    if flag_set(sprite.attributes, ATTR_FLIP_H) {
        byte
    } else {
        reversed(byte) as u8
    }
}

/// A rendering unit after the sprite fetch of dot `dot`. Within each eight
/// dots, phase 3 latches the attributes, phase 4 loads the column counter,
/// phase 5 fetches the low pattern byte and phase 7 the high one.
pub open spec fn unit_after_fetch<M: Mapper>(
    sprite: Sprite,
    memory: Memory<M>,
    dot: int,
    scanline: usize,
    big: bool,
    table: u16,
) -> Sprite {
    let phase = (dot - 1) % 8;
    let address = sprite_address(sprite, scanline, big, table);
    if phase == 3 {
        Sprite { latch: sprite.attributes, ..sprite }
    } else if phase == 4 {
        Sprite { counter: sprite.x_pos, ..sprite }
    } else if phase == 5 {
        Sprite { lshift: sprite_pattern(sprite, memory.mapper.chr(address)), ..sprite }
    } else if phase == 7 {
        Sprite {
            hshift: sprite_pattern(sprite, memory.mapper.chr(address.wrapping_add(8))),
            ..sprite
        }
    } else {
        sprite
    }
}

/// The first of the units `from..count` that shows a pixel, or `count`
/// where none does.
pub open spec fn first_showing(units: [Sprite; 8], from: int, count: int) -> int
    decreases count - from,
{
    if from >= count {
        count
    } else if units[from].shows_pixel() {
        from
    } else {
        first_showing(units, from + 1, count)
    }
}

/// The units with the first `n` of them moved on by one dot.
pub open spec fn units_moved(units: [Sprite; 8], n: int) -> [Sprite; 8]
    decreases n,
{
    if n <= 0 {
        units
    } else {
        vstd::array::spec_array_update(units_moved(units, n - 1), n - 1, units[n - 1].after_dot())
    }
}

/// The picture processing unit.
#[derive(Debug)]
pub struct Ppu {
    pub palette: [u8; 32],
    pub oam: Oam,
    pub address: Scroll,
    pub ctrl: u8,
    pub mask: u8,
    pub status: u8,
    /// What the last read through `$2007` fetched: the CPU sees it one read late.
    pub data_buffer: u8,
    /// The scanline of the beam: 0 to 261.
    pub scanline: usize,
    /// The dot of the beam within its scanline: 0 to 340.
    pub scycle: usize,
    pub sprites: [Sprite; 8],
    pub background: Background,
    /// How many frames are complete.
    pub frames: u64,
    pub frame_data: [Scanline; 240],
}

impl Ppu {
    /// The beam is inside the frame, the scroll unit and the sprite
    /// evaluator are well-formed, and every palette entry has six bits.
    pub open spec fn wf(self) -> bool {
        &&& self.scanline < 262
        &&& self.scycle < 341
        &&& self.oam.wf()
        &&& self.address.wf()
        &&& forall|i: int| 0 <= i < 32 ==> #[trigger] self.palette[i] < 64
    }

    /// The beam stands on the first dot of the first frame, and every
    /// register, memory and pixel is 0.
    pub open spec fn is_fresh(self) -> bool {
        &&& forall|i: int| 0 <= i < 32 ==> self.palette[i] == 0
        &&& self.oam.is_empty()
        &&& self.address == (Scroll { v: 0, t: 0, fine_x: 0, w: false, ctrl: 0 })
        &&& self.ctrl == 0
        &&& self.mask == 0
        &&& self.status == 0
        &&& self.data_buffer == 0
        &&& self.scanline == 0
        &&& self.scycle == 0
        &&& forall|i: int| 0 <= i < 8 ==> self.sprites[i] == Sprite::blank()
        &&& self.background == Background::blank()
        &&& self.frames == 0
        &&& forall|i: int, j: int|
            0 <= i < 240 && 0 <= j < 256 ==> #[trigger] self.frame_data[i].0[j] == 0
    }

    /// Whether sprites are 16 rows high.
    pub open spec fn big_sprites(self) -> bool {
        flag_set(self.ctrl, CTRL_SPRITE_SIZE)
    }

    /// The pattern table of the 8x8 sprites.
    pub open spec fn sprite_pattern_table(self) -> u16 {
        if flag_set(self.ctrl, CTRL_SPRITE_PATTERN) {
            0x1000
        } else {
            0
        }
    }

    /// Whether PPUMASK shows the sprites.
    pub open spec fn shows_sprites(self) -> bool {
        flag_set(self.mask, MASK_SHOW_SPRITES)
    }

    /// Whether PPUMASK shows the background.
    pub open spec fn shows_background(self) -> bool {
        flag_set(self.mask, MASK_SHOW_BACKGROUND)
    }

    /// Rendering is enabled: the background or the sprites are shown.
    pub open spec fn renders(self) -> bool {
        self.shows_sprites() || self.shows_background()
    }

    /// Rendering is enabled and the beam is on a line that fetches.
    pub open spec fn is_rendering(self) -> bool {
        self.renders() && (self.scanline < 240 || self.scanline == 261)
    }

    /// The address of an access through `$2007`.
    pub open spec fn data_address(self) -> u16 {
        self.address.v % 0x4000
    }

    /// The byte that a read through `$2007` fetches: from the cartridge
    /// below `$3F00`, from the palette above.
    pub open spec fn fetched<M: Mapper>(self, memory: Memory<M>) -> u8 {
        if self.data_address() < 0x3f00 {
            memory.mapper.chr(self.data_address())
        } else {
            self.palette[palette_slot(self.data_address() as int)]
        }
    }

    /// The PPU after a read through `$2007`, but for the data buffer.
    pub open spec fn after_load(self) -> Ppu {
        Ppu { address: self.address.after_access(self.is_rendering()), ..self }
    }

    /// The PPU after a write of `value` through `$2007`: a palette entry
    /// keeps the low six bits of what is written to it.
    pub open spec fn after_store(self, value: u8) -> Ppu {
        Ppu {
            palette: if self.data_address() < 0x3f00 {
                self.palette
            } else {
                vstd::array::spec_array_update(
                    self.palette,
                    palette_slot(self.data_address() as int),
                    value % 64,
                )
            },
            address: self.address.after_access(self.is_rendering()),
            ..self
        }
    }

    /// The bus after a write of `value` through `$2007`: the cartridge takes
    /// what lies below the palette.
    pub open spec fn bus_after_store<M: Mapper>(self, memory: Memory<M>, value: u8) -> Memory<M> {
        if self.data_address() < 0x3f00 {
            memory.after_chr_store(self.data_address(), value)
        } else {
            memory
        }
    }

    /// The PPU after it took the CPU's write of `latch` to the register `tag`.
    pub open spec fn after_write(self, tag: MemState, latch: u8) -> Ppu {
        match tag {
            MemState::PpuCtrl => Ppu {
                ctrl: latch,
                address: self.address.after_ppuctrl(latch),
                ..self
            },
            MemState::PpuMask => Ppu { mask: latch, ..self },
            MemState::OamAddr => Ppu { oam: Oam { address: latch, ..self.oam }, ..self },
            MemState::OamData => Ppu { oam: self.oam.after_store(latch), ..self },
            MemState::PpuScroll => Ppu { address: self.address.after_scroll(latch), ..self },
            MemState::PpuAddr => Ppu { address: self.address.after_address(latch), ..self },
            MemState::PpuData => self.after_store(latch),
            _ => self,
        }
    }

    /// Whether the write raises an NMI: one that switches the NMI on in the
    /// middle of the vertical blank.
    pub open spec fn write_raises_nmi(self, tag: MemState, latch: u8) -> bool {
        &&& tag == MemState::PpuCtrl
        &&& !flag_set(self.ctrl, CTRL_NMI)
        &&& flag_set(latch, CTRL_NMI)
        &&& flag_set(self.status, STATUS_VBLANK)
    }

    /// The bus after the PPU took the write out of the mailbox.
    pub open spec fn bus_after_write<M: Mapper>(self, memory: Memory<M>) -> Memory<M> {
        let taken = Memory { write_status: MemState::NoState, ..memory };
        if self.write_raises_nmi(memory.write_status, memory.latch) {
            Memory { nmi: true, ..taken }
        } else if memory.write_status == MemState::PpuData {
            self.bus_after_store(taken, memory.latch)
        } else {
            taken
        }
    }

    /// The PPU after it carried out what the CPU's read of the register
    /// `tag` entails: a read of PPUSTATUS ends the vertical blank flag and
    /// clears the write toggle, a read of PPUDATA refills the data buffer.
    pub open spec fn after_read<M: Mapper>(self, memory: Memory<M>, tag: MemState) -> Ppu {
        match tag {
            MemState::PpuStatus => Ppu {
                address: Scroll { w: false, ..self.address },
                status: self.status & !STATUS_VBLANK,
                ..self
            },
            MemState::PpuData => Ppu { data_buffer: self.fetched(memory), ..self.after_load() },
            _ => self,
        }
    }

    /// The PPU after it emptied the mailbox and the read tag, in that order.
    #[verifier::opaque]
    pub open spec fn after_latches<M: Mapper>(self, memory: Memory<M>) -> Ppu {
        self.after_write(memory.write_status, memory.latch).after_read(
            self.bus_after_write(memory),
            memory.read_status,
        )
    }

    /// The bus after the PPU emptied the mailbox and the read tag.
    #[verifier::opaque]
    pub open spec fn bus_after_latches<M: Mapper>(self, memory: Memory<M>) -> Memory<M> {
        Memory { read_status: MemState::NoState, ..self.bus_after_write(memory) }
    }

    /// The unit that the sprite fetch of this dot works on.
    pub open spec fn fetch_unit(self) -> int {
        ((self.scycle - 1) / 8) % 8
    }

    /// The PPU after the sprite fetch of this dot.
    pub open spec fn after_sprite_fetch<M: Mapper>(self, memory: Memory<M>) -> Ppu {
        Ppu {
            sprites: vstd::array::spec_array_update(
                self.sprites,
                self.fetch_unit(),
                unit_after_fetch(
                    self.sprites[self.fetch_unit()],
                    memory,
                    self.scycle as int,
                    self.scanline,
                    self.big_sprites(),
                    self.sprite_pattern_table(),
                ),
            ),
            ..self
        }
    }

    /// The palette slot of the background's pixel under the beam: slot 0
    /// where the background is hidden.
    pub open spec fn back_index(self) -> int {
        if self.shows_background() {
            self.background.palette_index(self.address.fine_x)
        } else {
            0
        }
    }

    /// The first of this scanline's units that shows a pixel, or their count.
    pub open spec fn front_sprite(self) -> int {
        first_showing(self.sprites, 0, self.oam.count as int)
    }

    /// Sprites are shown and one of them has a pixel under the beam.
    pub open spec fn has_front_sprite(self) -> bool {
        self.shows_sprites() && self.front_sprite() < self.oam.count
    }

    /// Whether this dot sets the sprite 0 hit: the frontmost sprite pixel
    /// belongs to unit 0, unit 0 holds sprite 0, the background's pixel is
    /// not transparent, and the dot is not the last of the line.
    pub open spec fn hits_sprite_zero(self) -> bool {
        &&& self.has_front_sprite()
        &&& self.front_sprite() == 0
        &&& self.oam.zero_hit_now
        &&& self.back_index() != 0
        &&& self.scycle != 256
    }

    /// The palette entry of the pixel under the beam: the sprite's where
    /// one shows and either stands in front or meets a transparent
    /// background, and the background's elsewhere.
    pub open spec fn dot_color(self) -> u8 {
        let front = self.sprites[self.front_sprite()];
        if self.has_front_sprite() && (!flag_set(front.attributes, ATTR_BEHIND)
            || self.back_index() == 0) {
            self.palette[front.palette_index()]
        } else {
            self.palette[self.back_index()]
        }
    }

    /// The PPU after it drew the pixel under the beam.
    pub open spec fn after_draw(self) -> Ppu {
        Ppu {
            status: if self.hits_sprite_zero() {
                self.status | STATUS_SPRITE_0_HIT
            } else {
                self.status
            },
            frame_data: vstd::array::spec_array_update(
                self.frame_data,
                self.scanline as int,
                Scanline(
                    vstd::array::spec_array_update(
                        self.frame_data[self.scanline as int].0,
                        self.scycle - 1,
                        self.dot_color(),
                    ),
                ),
            ),
            ..self
        }
    }

    /// The PPU after a dot on which tiles are fetched. On a visible line
    /// the pixel is drawn first and the sprite units move on. Then the
    /// background shifts and fetches, and after each eighth dot the VRAM
    /// address steps to the next tile, and after dot 256 to the next row.
    pub open spec fn after_fetch_dot<M: Mapper>(self, memory: Memory<M>) -> Ppu {
        let drawn = if self.scycle < 257 && self.scanline != 261 {
            Ppu { sprites: units_moved(self.sprites, 8), ..self.after_draw() }
        } else {
            self
        };
        Ppu {
            background: drawn.background.after_shift().after_fetch(
                &memory,
                drawn.address,
                drawn.scycle as int,
            ),
            address: if drawn.scycle % 8 != 0 {
                drawn.address
            } else if drawn.scycle == 256 {
                drawn.address.after_coarse_x().after_y()
            } else {
                drawn.address.after_coarse_x()
            },
            ..drawn
        }
    }

    /// The PPU after the work that the place of the beam calls for, with
    /// rendering enabled. Lines 240 to 260 are idle. On the pre-render line
    /// 261, dots 280 to 304 copy the vertical scroll and dot 1 clears the
    /// sprite flags. Dot 257 copies the horizontal scroll, dots 258 to 320
    /// fetch sprites, dots 0 and 337 to 340 are idle, and the other dots
    /// fetch tiles.
    pub open spec fn after_line_work<M: Mapper>(self, memory: Memory<M>) -> Ppu {
        let dot = self.scycle;
        let line = self.scanline;
        if 240 <= line <= 260 {
            self
        } else if line == 261 && 280 <= dot <= 304 {
            Ppu { address: self.address.after_copy_vertical(), ..self }
        } else if dot == 257 {
            Ppu { address: self.address.after_copy_horizontal(), ..self }
        } else if 257 <= dot <= 320 {
            self.after_sprite_fetch(memory)
        } else if dot == 1 && line == 261 {
            Ppu { status: self.status & !(STATUS_SPRITE_0_HIT | STATUS_SPRITE_OVERFLOW), ..self }
        } else if dot == 0 || dot >= 337 {
            self
        } else {
            self.after_fetch_dot(memory)
        }
    }

    /// The PPU after the sprite evaluator's dot, which it has on the visible
    /// lines: a ninth sprite on the line sets the overflow flag.
    pub open spec fn after_evaluation(self) -> Ppu {
        if self.scanline < 240 {
            Ppu {
                oam: self.oam.after_cycle(
                    self.scycle as int,
                    self.scanline as u8,
                    self.big_sprites(),
                ),
                sprites: self.oam.units_after_cycle(self.sprites, self.scycle as int),
                status: if self.oam.overflows(
                    self.scycle as int,
                    self.scanline as u8,
                    self.big_sprites(),
                ) {
                    self.status | STATUS_SPRITE_OVERFLOW
                } else {
                    self.status
                },
                ..self
            }
        } else {
            self
        }
    }

    /// The PPU after the rendering work of this dot: none with rendering
    /// disabled.
    #[verifier::opaque]
    pub open spec fn after_render<M: Mapper>(self, memory: Memory<M>) -> Ppu {
        if self.renders() {
            self.after_line_work(memory).after_evaluation()
        } else {
            self
        }
    }

    /// The PPU after the vertical blank flag followed the beam: set on dot
    /// 1 of line 241, cleared on dot 1 of line 261.
    pub open spec fn after_vblank(self) -> Ppu {
        if self.scycle == 1 && self.scanline == 241 {
            Ppu { status: self.status | STATUS_VBLANK, ..self }
        } else if self.scycle == 1 && self.scanline == 261 {
            Ppu { status: self.status & !STATUS_VBLANK, ..self }
        } else {
            self
        }
    }

    /// Whether the start of the vertical blank raises an NMI on this dot.
    pub open spec fn vblank_raises_nmi(self) -> bool {
        self.scycle == 1 && self.scanline == 241 && flag_set(self.ctrl, CTRL_NMI)
    }

    /// Whether this dot is the last of its frame: dot 340 of line 261, or
    /// the dot before it on an odd frame with the background shown.
    pub open spec fn frame_ends(self) -> bool {
        self.scanline == 261 && (self.scycle == 340 || (self.scycle == 339 && self.frames % 2 == 1
            && self.shows_background()))
    }

    /// The PPU with the beam moved on by one dot.
    pub open spec fn after_advance(self) -> Ppu {
        if self.frame_ends() {
            Ppu { scycle: 0, scanline: 0, frames: self.frames.wrapping_add(1), ..self }
        } else if self.scycle == 340 {
            Ppu { scycle: 0, scanline: (self.scanline + 1) as usize, ..self }
        } else {
            Ppu { scycle: (self.scycle + 1) as usize, ..self }
        }
    }

    /// The registers that the CPU can read.
    pub open spec fn read_regs(self) -> PpuReadRegs {
        PpuReadRegs {
            data: self.data_buffer,
            oam: self.oam.mem[self.oam.address as int],
            status: self.status,
        }
    }

    /// The PPU one tick later.
    #[verifier::opaque]
    pub open spec fn after_cycle<M: Mapper>(self, memory: Memory<M>) -> Ppu {
        self.after_latches(memory).after_render(
            self.bus_after_latches(memory),
        ).after_vblank().after_advance()
    }

    /// The bus after the PPU's tick: the mailbox and the read tag are
    /// empty, a write through `$2007` has reached the cartridge, an NMI is
    /// latched where the tick raised one, and the PPU's readable registers
    /// are published.
    #[verifier::opaque]
    pub open spec fn bus_after_cycle<M: Mapper>(self, memory: Memory<M>) -> Memory<M> {
        let bus = self.bus_after_latches(memory);
        let rendered = self.after_latches(memory).after_render(bus);
        Memory {
            nmi: bus.nmi || rendered.vblank_raises_nmi(),
            ppu_regs: self.after_cycle(memory).read_regs(),
            ..bus
        }
    }

    /// A PPU at the first dot of the first frame, with every register,
    /// memory and pixel 0.
    pub fn new() -> (ppu: Ppu)
        ensures
            ppu.is_fresh(),
            ppu.wf(),
    {
        let unit: Sprite = Sprite::new();
        let line: Scanline = Scanline::new();
        Ppu {
            palette: [0u8; 32],
            oam: Oam::new(),
            address: Scroll::new(),
            ctrl: 0,
            mask: 0,
            status: 0,
            data_buffer: 0,
            scanline: 0,
            scycle: 0,
            sprites: [unit;8],
            background: Background::new(),
            frames: 0,
            frame_data: [line;240],
        }
    }

    /// Whether the PPU is well-formed.
    pub fn is_valid(&self) -> (valid: bool)
        ensures
            valid == self.wf(),
    {
        if !(self.scanline < 262 && self.scycle < 341 && self.oam.smem_index <= 32
            && self.oam.count <= 8 && self.address.v < 0x8000 && self.address.t < 0x8000
            && self.address.fine_x < 8) {
            return false;
        }
        let mut i: usize = 0;
        while i < 32
            invariant
                i <= 32,
                forall|j: int| 0 <= j < i ==> #[trigger] self.palette[j] < 64,
            decreases 32 - i,
        {
            if self.palette[i] >= 64 {
                return false;
            }
            i = i + 1;
        }
        true
    }

    /// Whether sprites are 16 rows high.
    pub fn sprite_big(&self) -> (big: bool)
        ensures
            big == self.big_sprites(),
    {
        self.ctrl & CTRL_SPRITE_SIZE != 0
    }

    /// The pattern table of the 8x8 sprites.
    pub fn sprite_table(&self) -> (table: u16)
        ensures
            table == self.sprite_pattern_table(),
    {
        if self.ctrl & CTRL_SPRITE_PATTERN != 0 {
            0x1000
        } else {
            0
        }
    }

    /// Whether rendering is enabled: the background or the sprites are shown.
    pub fn render_on(&self) -> (on: bool)
        ensures
            on == self.renders(),
    {
        self.show_sprites() || self.show_background()
    }

    /// Whether rendering is enabled and the beam is on a line that fetches.
    pub fn rendering(&self) -> (on: bool)
        ensures
            on == self.is_rendering(),
    {
        self.render_on() && (self.scanline < 240 || self.scanline == 261)
    }

    /// Whether PPUMASK shows the sprites.
    pub fn show_sprites(&self) -> (on: bool)
        ensures
            on == self.shows_sprites(),
    {
        self.mask & MASK_SHOW_SPRITES != 0
    }

    /// Whether PPUMASK shows the background.
    pub fn show_background(&self) -> (on: bool)
        ensures
            on == self.shows_background(),
    {
        self.mask & MASK_SHOW_BACKGROUND != 0
    }

    /// The palette slot behind a PPU address.
    pub fn palette_mirror(&self, address: usize) -> (slot: usize)
        ensures
            slot == palette_slot(address as int),
            slot < 32,
    {
        let index: usize = address % PALETTE_SIZE;
        if index % 4 == 0 {
            index % 16
        } else {
            index
        }
    }

    /// A read through `$2007`: returns the byte under the VRAM address and
    /// moves the address on.
    pub fn load<M: Mapper>(&mut self, memory: &Memory<M>) -> (value: u8)
        requires
            old(self).wf(),
        ensures
            value == old(self).fetched(*memory),
            *final(self) == old(self).after_load(),
            final(self).wf(),
    {
        let rendering: bool = self.rendering();
        let address: u16 = self.address.get_address(rendering);
        if (address as usize) < PALETTE_ADDRESS {
            memory.chr_load(address)
        } else {
            let slot: usize = self.palette_mirror(address as usize);
            self.palette[slot]
        }
    }

    /// A write through `$2007`: the byte goes to the cartridge or, with its
    /// top two bits cut off, to the palette, and the address moves on.
    pub fn store<M: Mapper>(&mut self, memory: &mut Memory<M>, value: u8)
        requires
            old(self).wf(),
        ensures
            *final(self) == old(self).after_store(value),
            *final(memory) == old(self).bus_after_store(*old(memory), value),
            final(self).wf(),
    {
        let rendering: bool = self.rendering();
        let address: u16 = self.address.get_address(rendering);
        if (address as usize) < PALETTE_ADDRESS {
            memory.chr_store(address, value);
        } else {
            let slot: usize = self.palette_mirror(address as usize);
            proof {
                lemma_six_bits(value);
            }
            self.palette[slot] = value & 0x3f;
        }
    }

    /// Takes what the CPU left on the bus since the last tick: first the
    /// register write in the mailbox, then the side effect of a register read.
    pub fn ls_latches<M: Mapper>(&mut self, memory: &mut Memory<M>)
        requires
            old(self).wf(),
        ensures
            *final(self) == old(self).after_latches(*old(memory)),
            *final(memory) == old(self).bus_after_latches(*old(memory)),
            final(self).wf(),
            final(self).scanline == old(self).scanline,
            final(self).scycle == old(self).scycle,
            final(self).frames == old(self).frames,
            final(memory).write_status == MemState::NoState,
            final(memory).read_status == MemState::NoState,
            old(memory).read_status == MemState::PpuStatus ==> !final(self).address.w,
    {
        reveal(Ppu::after_latches);
        reveal(Ppu::bus_after_latches);
        let (latch, status) = memory.get_latch();
        match status {
            MemState::PpuCtrl => {
                if self.ctrl & CTRL_NMI == 0 && latch & CTRL_NMI != 0 && self.status
                    & STATUS_VBLANK != 0 {
                    memory.set_interrupt(Interrupt::NMI);
                }
                self.ctrl = latch;
                self.address.set_ppuctrl(latch);
            },
            MemState::PpuMask => {
                self.mask = latch;
            },
            MemState::OamAddr => {
                self.oam.set_address(latch);
            },
            MemState::OamData => {
                self.oam.store_data(latch);
            },
            MemState::PpuScroll => {
                self.address.set_scroll(latch);
            },
            MemState::PpuAddr => {
                self.address.set_address(latch);
            },
            MemState::PpuData => {
                self.store(memory, latch);
            },
            _ => {},
        }
        let read_status = memory.ppu_load_status();
        match read_status {
            MemState::PpuStatus => {
                self.address.reset();
                self.status = self.status & !STATUS_VBLANK;
            },
            MemState::PpuData => {
                self.data_buffer = self.load(memory);
            },
            _ => {},
        }
    }

    /// The sprite fetch of one dot, for the unit whose turn it is.
    pub fn fetch_sprite<M: Mapper>(&mut self, memory: &Memory<M>)
        requires
            1 <= old(self).scycle,
        ensures
            *final(self) == old(self).after_sprite_fetch(*memory),
    {
        let big_sprites: bool = self.sprite_big();
        let table: u16 = self.sprite_table();
        let unit: usize = ((self.scycle - 1) / 8) % 8;
        let phase: usize = (self.scycle - 1) % 8;
        let sprite: Sprite = self.sprites[unit];
        let mut row: u16 = ((self.scanline % 256) as u8).wrapping_sub(sprite.y_pos) as u16;
        if sprite.flip_vertically() {
            let last: u16 = if big_sprites {
                15
            } else {
                7
            };
            row = last.wrapping_sub(row);
        }
        if row >= 8 {
            row = row.wrapping_add(8);
        }
        proof {
            lemma_tile_bits(sprite.tile);
        }
        let base: u16 = if big_sprites {
            (((sprite.tile >> 1) | (sprite.tile << 7)) as u16) << 5
        } else {
            table | ((sprite.tile as u16) << 4)
        };
        let address: u16 = base | row;
        if phase == 3 {
            self.sprites[unit].latch = sprite.attributes;
        } else if phase == 4 {
            self.sprites[unit].counter = sprite.x_pos;
        } else if phase == 5 {
            let byte: u8 = memory.chr_load(address);
            self.sprites[unit].lshift = if sprite.flip_horizontally() {
                byte
            } else {
                reverse_byte(byte)
            };
        } else if phase == 7 {
            let byte: u8 = memory.chr_load(address.wrapping_add(8));
            self.sprites[unit].hshift = if sprite.flip_horizontally() {
                byte
            } else {
                reverse_byte(byte)
            };
        }
        assert(self.sprites =~= old(self).after_sprite_fetch(*memory).sprites);
    }

    /// Draws the pixel under the beam into the frame, and sets the sprite
    /// 0 hit where the pixel calls for it.
    pub fn draw_dot(&mut self)
        requires
            old(self).wf(),
            1 <= old(self).scycle <= 256,
            old(self).scanline < 240,
        ensures
            *final(self) == old(self).after_draw(),
            final(self).wf(),
            flag_set(final(self).status, STATUS_SPRITE_0_HIT) <==> flag_set(
                old(self).status,
                STATUS_SPRITE_0_HIT,
            ) || old(self).hits_sprite_zero(),
    {
        let mut back_index: usize = 0;
        if self.show_background() {
            let fine_x: u8 = self.address.get_fine_x();
            back_index = self.background.get_palette_index(fine_x);
        }
        let mut color_index: u8 = self.palette[back_index];
        if self.show_sprites() {
            let cnt: usize = self.oam.count();
            let mut index: usize = 0;
            while index < cnt && !self.sprites[index].has_pixel()
                invariant
                    index <= cnt <= 8,
                    cnt == self.oam.count,
                    first_showing(self.sprites, 0, cnt as int) == first_showing(
                        self.sprites,
                        index as int,
                        cnt as int,
                    ),
                decreases cnt - index,
            {
                index = index + 1;
            }
            if index < cnt {
                let sprite: Sprite = self.sprites[index];
                let sprite_front: bool = sprite.get_priority();
                if self.oam.sprite_zero_hit() && index == 0 && back_index != 0 && self.scycle
                    != 256 {
                    self.status = self.status | STATUS_SPRITE_0_HIT;
                }
                if sprite_front || back_index == 0 {
                    color_index = self.palette[sprite.get_palette_index()];
                }
            }
        }
        proof {
            lemma_flag_bits(old(self).status);
        }
        self.frame_data[self.scanline].0[self.scycle - 1] = color_index;
    }

    /// Moves every sprite unit on by one dot.
    pub fn move_sprites(&mut self)
        ensures
            *final(self) == (Ppu { sprites: units_moved(old(self).sprites, 8), ..*old(self) }),
    {
        let mut i: usize = 0;
        while i < 8
            invariant
                i <= 8,
                *self == (Ppu { sprites: units_moved(old(self).sprites, i as int), ..*old(self) }),
            decreases 8 - i,
        {
            proof {
                lemma_units_moved(old(self).sprites, i as int, i as int);
            }
            self.sprites[i].decrement_or_shift();
            i = i + 1;
            assert(self.sprites =~= units_moved(old(self).sprites, i as int));
        }
    }

    /// The rendering work of one dot, as the place of the beam calls for it.
    pub fn render_dot<M: Mapper>(&mut self, memory: &Memory<M>)
        requires
            old(self).wf(),
        ensures
            *final(self) == old(self).after_render(*memory),
            final(self).wf(),
            final(self).scanline == old(self).scanline,
            final(self).scycle == old(self).scycle,
            final(self).frames == old(self).frames,
            final(self).mask == old(self).mask,
            final(self).ctrl == old(self).ctrl,
            final(self).address.w == old(self).address.w,
    {
        reveal(Ppu::after_render);
        if !self.render_on() {
            return ;
        }
        let dot: usize = self.scycle;
        let line: usize = self.scanline;
        if 240 <= line && line <= 260 {
        } else if line == 261 && 280 <= dot && dot <= 304 {
            self.address.copy_vertical();
        } else if dot == 257 {
            self.address.copy_horizontal();
        } else if 257 <= dot && dot <= 320 {
            self.fetch_sprite(memory);
        } else if dot == 1 && line == 261 {
            self.status = self.status & !(STATUS_SPRITE_0_HIT | STATUS_SPRITE_OVERFLOW);
        } else if dot == 0 || dot >= 337 {
        } else {
            if dot < 257 && line != 261 {
                self.draw_dot();
                self.move_sprites();
            }
            self.background.shift();
            self.background.fetch(memory, &self.address, dot);
            if dot % 8 == 0 {
                self.address.increment_coarse_x();
                if dot == 256 {
                    self.address.increment_y();
                }
            }
        }
        let big_sprites: bool = self.sprite_big();
        if line < 240 {
            let overflow: bool = self.oam.cycle(dot, line as u8, &mut self.sprites, big_sprites);
            if overflow {
                self.status = self.status | STATUS_SPRITE_OVERFLOW;
            }
        }
    }

    /// Moves the beam on by one dot. A line has 341 dots and a frame 262
    /// lines; the last line of an odd frame is one dot short where the
    /// background is shown.
    pub fn advance(&mut self)
        requires
            old(self).wf(),
        ensures
            *final(self) == old(self).after_advance(),
            final(self).wf(),
    {
        if self.scanline == 261 && (self.scycle == 340 || (self.scycle == 339 && self.frames % 2
            == 1 && self.show_background())) {
            self.scycle = 0;
            self.scanline = 0;
            self.frames = self.frames.wrapping_add(1);
        } else if self.scycle == 340 {
            self.scanline = self.scanline + 1;
            self.scycle = 0;
        } else {
            self.scycle = self.scycle + 1;
        }
    }

    /// One PPU tick: take what the CPU left on the bus, do the rendering
    /// work of the dot under the beam, set or clear the vertical blank, move
    /// the beam on, and publish the readable registers.
    pub fn cycle<M: Mapper>(&mut self, memory: &mut Memory<M>)
        requires
            old(self).wf(),
        ensures
            *final(self) == old(self).after_cycle(*old(memory)),
            *final(memory) == old(self).bus_after_cycle(*old(memory)),
            final(self).wf(),
            old(memory).read_status == MemState::PpuStatus ==> !final(self).address.w,
            final(memory).write_status == MemState::NoState,
            final(memory).read_status == MemState::NoState,
    {
        reveal(Ppu::after_cycle);
        reveal(Ppu::bus_after_cycle);
        self.ls_latches(memory);
        self.render_dot(memory);
        if self.scycle == 1 && self.scanline == 241 {
            self.status = self.status | STATUS_VBLANK;
            if self.ctrl & CTRL_NMI != 0 {
                memory.set_interrupt(Interrupt::NMI);
            }
        } else if self.scycle == 1 && self.scanline == 261 {
            self.status = self.status & !STATUS_VBLANK;
        }
        self.advance();
        let read_regs = PpuReadRegs {
            data: self.data_buffer,
            oam: self.oam.load_data(),
            status: self.status,
        };
        memory.set_ppu_read_regs(read_regs);
    }

    /// The number of complete frames, and the picture.
    pub fn frame_data(&self) -> (frame: (u64, &[Scanline]))
        ensures
            frame.0 == self.frames,
            frame.1@ == self.frame_data@,
    {
        (self.frames, self.frame_data.as_slice())
    }
}

impl Default for PpuReadRegs {
    fn default() -> (regs: PpuReadRegs)
        ensures
            regs == (PpuReadRegs { data: 0, oam: 0, status: 0 }),
    {
        PpuReadRegs { data: 0, oam: 0, status: 0 }
    }
}

impl Scanline {
    /// A row of pixels that all show palette entry 0.
    pub fn new() -> (line: Scanline)
        ensures
            forall|i: int| 0 <= i < 256 ==> line.0[i] == 0,
    {
        Scanline([0u8; 256])
    }
}

/// The low six bits of a byte are its remainder by 64.
pub proof fn lemma_six_bits(value: u8)
    by (bit_vector)
    ensures
        value & 0x3f == value % 64,
        value & 0x3f < 64,
{
}

/// The palette repeats every 32 bytes, and every fourth slot of its upper
/// half is the same slot of its lower half.
pub proof fn law_palette_slot(address: u16)
    by (bit_vector)
    ensures
        0 <= palette_slot(address as int) < 32,
        palette_slot(address as int) == palette_slot((address % 32) as int),
        address % 4 == 0 ==> palette_slot(address as int) == address % 16,
        address % 4 != 0 ==> palette_slot(address as int) == address % 32,
{
}

/// A write through `$2007` leaves every palette entry within six bits, and
/// the entry written holds the low six bits of the byte.
pub proof fn law_palette_six_bits(ppu: Ppu, value: u8)
    requires
        ppu.wf(),
    ensures
        forall|i: int| 0 <= i < 32 ==> #[trigger] ppu.after_store(value).palette[i] < 64,
        ppu.data_address() >= 0x3f00 ==> ppu.after_store(value).palette[palette_slot(
            ppu.data_address() as int,
        )] == value % 64,
{
}

/// Taking the mailbox keeps the PPU well-formed.
#[verifier::rlimit(50)]
pub proof fn lemma_latches_keep_well_formed<M: Mapper>(ppu: Ppu, bus: Memory<M>)
    requires
        ppu.wf(),
    ensures
        ppu.after_latches(bus).wf(),
{
    reveal(Ppu::after_latches);
    let written = ppu.after_write(bus.write_status, bus.latch);
    law_scroll_stays_well_formed(ppu.address, bus.latch, ppu.is_rendering());
    law_scroll_stays_well_formed(written.address, bus.latch, written.is_rendering());
    law_palette_six_bits(ppu, bus.latch);
    assert(written.wf());
}

/// Rendering keeps the PPU well-formed.
pub proof fn lemma_render_keeps_well_formed<M: Mapper>(ppu: Ppu, bus: Memory<M>)
    requires
        ppu.wf(),
    ensures
        ppu.after_render(bus).wf(),
{
    reveal(Ppu::after_render);
    law_scroll_stays_well_formed(ppu.address, 0, false);
}

/// The PPU stays well-formed for good: a tick keeps the beam inside the
/// frame, the scroll addresses within their 15 bits, the sprite evaluator
/// within its memories, and every palette entry within six bits, whatever
/// the CPU left on the bus.
pub proof fn law_tick_keeps_well_formed<M: Mapper>(ppu: Ppu, bus: Memory<M>)
    requires
        ppu.wf(),
    ensures
        ppu.after_cycle(bus).wf(),
        forall|i: int| 0 <= i < 32 ==> #[trigger] ppu.after_cycle(bus).palette[i] < 64,
{
    reveal(Ppu::after_cycle);
    lemma_latches_keep_well_formed(ppu, bus);
    lemma_render_keeps_well_formed(ppu.after_latches(bus), ppu.bus_after_latches(bus));
}

/// The tick that follows a read of PPUSTATUS leaves the write toggle clear.
pub proof fn law_status_read_clears_toggle<M: Mapper>(ppu: Ppu, bus: Memory<M>)
    requires
        ppu.wf(),
        bus.read_status == MemState::PpuStatus,
    ensures
        !ppu.after_cycle(bus).address.w,
        !ppu.after_latches(bus).address.w,
        !flag_set(ppu.after_latches(bus).status, STATUS_VBLANK),
{
    reveal(Ppu::after_cycle);
    reveal(Ppu::after_latches);
    reveal(Ppu::after_render);
    let written = ppu.after_write(bus.write_status, bus.latch);
    lemma_flag_bits(written.status);
}

/// On a visible line with rendering enabled, a ninth sprite that the
/// evaluator finds sets the overflow flag; and whatever it finds, no more
/// than eight sprites are counted for the rendering units.
pub proof fn law_ninth_sprite<M: Mapper>(ppu: Ppu, bus: Memory<M>)
    requires
        ppu.wf(),
        ppu.renders(),
        ppu.scanline < 240,
    ensures
        ppu.oam.overflows(ppu.scycle as int, ppu.scanline as u8, ppu.big_sprites()) ==> flag_set(
            ppu.after_render(bus).status,
            STATUS_SPRITE_OVERFLOW,
        ),
        ppu.after_render(bus).oam.count <= 8,
{
    reveal(Ppu::after_render);
    lemma_flag_bits(ppu.after_line_work(bus).status);
}

/// A dot sets the sprite 0 hit only where the sprites and the background
/// are both shown, sprite 0 and the background both have a pixel that is
/// not transparent under the beam, and the dot is not dot 256.
pub proof fn law_sprite_zero_hit(ppu: Ppu)
    requires
        ppu.wf(),
        ppu.hits_sprite_zero(),
    ensures
        ppu.shows_sprites(),
        ppu.shows_background(),
        ppu.oam.zero_hit_now,
        ppu.sprites[0].counter == 0,
        ppu.sprites[0].color() != 0,
        ppu.background.color_index(ppu.address.fine_x) != 0,
        ppu.scycle != 256,
        flag_set(ppu.after_draw().status, STATUS_SPRITE_0_HIT),
{
    lemma_flag_bits(ppu.status);
    lemma_first_showing(ppu.sprites, 1, ppu.oam.count as int);
}

/// Taking the mailbox leaves the sprite 0 hit as it is.
pub proof fn lemma_latches_keep_hit<M: Mapper>(ppu: Ppu, bus: Memory<M>)
    ensures
        flag_set(ppu.after_latches(bus).status, STATUS_SPRITE_0_HIT) == flag_set(
            ppu.status,
            STATUS_SPRITE_0_HIT,
        ),
{
    reveal(Ppu::after_latches);
    lemma_other_flags(ppu.after_write(bus.write_status, bus.latch).status);
}

/// Rendering sets the sprite 0 hit by drawing a pixel, and in no other way.
pub proof fn lemma_render_sets_hit<M: Mapper>(ppu: Ppu, bus: Memory<M>)
    requires
        ppu.wf(),
        !flag_set(ppu.status, STATUS_SPRITE_0_HIT),
        flag_set(ppu.after_render(bus).status, STATUS_SPRITE_0_HIT),
    ensures
        ppu.renders(),
        ppu.scanline < 240,
        1 <= ppu.scycle <= 256,
        ppu.hits_sprite_zero(),
{
    reveal(Ppu::after_render);
    lemma_other_flags(ppu.status);
    lemma_other_flags(ppu.after_line_work(bus).status);
}

/// Nothing but the drawing of a pixel sets the sprite 0 hit: where a tick
/// finds the flag clear and leaves it set, rendering is enabled, the beam is
/// on a visible dot of a visible line, and the pixel under it is one on
/// which sprite 0 meets the background.
pub proof fn law_hit_comes_from_drawing<M: Mapper>(ppu: Ppu, bus: Memory<M>)
    requires
        ppu.wf(),
        !flag_set(ppu.status, STATUS_SPRITE_0_HIT),
        flag_set(ppu.after_cycle(bus).status, STATUS_SPRITE_0_HIT),
    ensures
        ({
            let taken = ppu.after_latches(bus);
            &&& taken.renders()
            &&& taken.scanline < 240
            &&& 1 <= taken.scycle <= 256
            &&& taken.hits_sprite_zero()
        }),
{
    reveal(Ppu::after_cycle);
    let taken = ppu.after_latches(bus);
    let rendered = taken.after_render(ppu.bus_after_latches(bus));
    lemma_latches_keep_hit(ppu, bus);
    lemma_latches_keep_well_formed(ppu, bus);
    lemma_other_flags(rendered.status);
    lemma_render_sets_hit(taken, ppu.bus_after_latches(bus));
}

/// Setting or clearing the other flags of the status leaves the sprite 0
/// hit as it is.
pub proof fn lemma_other_flags(status: u8)
    by (bit_vector)
    ensures
        ({
            &&& ((status & !0x80u8) & 0x40 != 0 <==> status & 0x40 != 0)
            &&& ((status | 0x80) & 0x40 != 0 <==> status & 0x40 != 0)
            &&& ((status | 0x20) & 0x40 != 0 <==> status & 0x40 != 0)
            &&& (status & !(0x40u8 | 0x20u8)) & 0x40 == 0
        }),
{
}

/// A dot that does not meet those conditions leaves the sprite 0 hit as it was.
pub proof fn law_sprite_zero_miss(ppu: Ppu)
    requires
        !ppu.hits_sprite_zero(),
    ensures
        ppu.after_draw().status == ppu.status,
{
}

/// The row of a sprite that is fetched on `scanline`, counted from the
/// sprite's first row, or from its last where the sprite is flipped.
pub open spec fn sprite_line(sprite: Sprite, scanline: usize, big: bool) -> int {
    if flag_set(sprite.attributes, ATTR_FLIP_V) {
        sprite_height(big) - 1 - (scanline - sprite.y_pos)
    } else {
        scanline - sprite.y_pos
    }
}

/// For a sprite that covers the scanline, the pattern address is a sum:
/// the start of the sprite's tile and the row within it. The rows of the
/// lower tile of a high sprite lie 16 bytes after those of the upper tile.
#[verifier::rlimit(50)]
pub proof fn law_sprite_address(sprite: Sprite, scanline: usize, big: bool, table: u16)
    requires
        scanline < 240,
        covers(sprite.y_pos, scanline as u8, big),
        table == 0 || table == 0x1000,
    ensures
        0 <= sprite_line(sprite, scanline, big) < sprite_height(big),
        sprite_address(sprite, scanline, big, table) == sprite_tile_base(sprite, big, table) + if sprite_line(
            sprite,
            scanline,
            big,
        ) < 8 {
            sprite_line(sprite, scanline, big)
        } else {
            sprite_line(sprite, scanline, big) + 8
        },
{
    let row = sprite_row(sprite, scanline, big);
    lemma_tile_row_bits(sprite.tile, row);
}

/// The start of a tile has no bit in common with a row within the tile.
pub proof fn lemma_tile_row_bits(tile: u8, row: u16)
    by (bit_vector)
    requires
        row < 32,
    ensures
        ({
            &&& (((tile % 2) * 0x1000 + (tile / 2) * 32) as u16) | row == (tile % 2) * 0x1000 + (tile
                / 2) * 32 + row
            &&& (row < 16 ==> ((0x1000 + tile * 16) as u16) | row == 0x1000 + tile * 16 + row)
            &&& (row < 16 ==> ((0 + tile * 16) as u16) | row == tile * 16 + row)
        }),
{
}

/// A tick empties the mailbox and the read tag, and a PPU that finds both
/// empty takes nothing from the bus: what the CPU wrote to a register, or
/// what its read entails, is carried out once.
pub proof fn law_mailbox_is_taken_once<M: Mapper>(ppu: Ppu, bus: Memory<M>)
    ensures
        ppu.bus_after_cycle(bus).write_status == MemState::NoState,
        ppu.bus_after_cycle(bus).read_status == MemState::NoState,
        bus.write_status == MemState::NoState && bus.read_status == MemState::NoState ==> {
            &&& ppu.after_latches(bus) == ppu
            &&& ppu.bus_after_latches(bus) == bus
        },
{
    reveal(Ppu::bus_after_cycle);
    reveal(Ppu::after_latches);
    reveal(Ppu::bus_after_latches);
}

/// The place of the beam: its dot, its line and the number of its frame.
pub struct Beam {
    pub dot: usize,
    pub line: usize,
    pub frame: u64,
}

/// The beam one tick later, with the background shown or hidden.
pub open spec fn beam_step(beam: Beam, background: bool) -> Beam {
    if beam.line == 261 && (beam.dot == 340 || (beam.dot == 339 && beam.frame % 2 == 1
        && background)) {
        Beam { dot: 0, line: 0, frame: beam.frame.wrapping_add(1) }
    } else if beam.dot == 340 {
        Beam { dot: 0, line: (beam.line + 1) as usize, frame: beam.frame }
    } else {
        Beam { dot: (beam.dot + 1) as usize, line: beam.line, frame: beam.frame }
    }
}

/// The beam `ticks` ticks later.
pub open spec fn beam_after(beam: Beam, background: bool, ticks: nat) -> Beam
    decreases ticks,
{
    if ticks == 0 {
        beam
    } else {
        beam_step(beam_after(beam, background, (ticks - 1) as nat), background)
    }
}

/// How many ticks a frame takes: 262 lines of 341 dots, less one dot on an
/// odd frame with the background shown.
pub open spec fn frame_length(frame: u64, background: bool) -> nat {
    if frame % 2 == 1 && background {
        89341
    } else {
        89342
    }
}

impl Ppu {
    /// Where the PPU's beam is.
    pub open spec fn beam(self) -> Beam {
        Beam { dot: self.scycle, line: self.scanline, frame: self.frames }
    }
}

/// The PPU's beam moves as `beam_step` says, whatever else a tick does.
#[verifier::rlimit(50)]
pub proof fn law_beam_follows_step<M: Mapper>(ppu: Ppu, bus: Memory<M>)
    ensures
        ppu.after_advance().beam() == beam_step(ppu.beam(), ppu.shows_background()),
        ppu.after_cycle(bus).beam() == beam_step(
            ppu.beam(),
            ppu.after_latches(bus).shows_background(),
        ),
{
    reveal(Ppu::after_cycle);
    reveal(Ppu::after_latches);
    reveal(Ppu::after_render);
}

/// Within a frame the beam is where the number of ticks since the frame's
/// start puts it.
pub proof fn lemma_beam_position(frame: u64, background: bool, ticks: nat)
    requires
        ticks < frame_length(frame, background),
    ensures
        beam_after(Beam { dot: 0, line: 0, frame }, background, ticks) == (Beam {
            dot: (ticks % 341) as usize,
            line: (ticks / 341) as usize,
            frame,
        }),
    decreases ticks,
{
    if ticks > 0 {
        lemma_beam_position(frame, background, (ticks - 1) as nat);
    }
}

/// One frame takes 89342 ticks, and 89341 on an odd frame with the
/// background shown: from the first dot of a frame the beam reaches the
/// first dot of the next frame after exactly that many ticks, and no sooner.
pub proof fn law_frame_length(frame: u64, background: bool)
    ensures
        beam_after(
            Beam { dot: 0, line: 0, frame },
            background,
            frame_length(frame, background),
        ) == (Beam { dot: 0, line: 0, frame: frame.wrapping_add(1) }),
        forall|ticks: nat|
            ticks < frame_length(frame, background) ==> (#[trigger] beam_after(
                Beam { dot: 0, line: 0, frame },
                background,
                ticks,
            )).frame == frame,
{
    let length = frame_length(frame, background);
    lemma_beam_position(frame, background, (length - 1) as nat);
    assert forall|ticks: nat| ticks < length implies (#[trigger] beam_after(
        Beam { dot: 0, line: 0, frame },
        background,
        ticks,
    )).frame == frame by {
        lemma_beam_position(frame, background, ticks);
    }
}

/// The first unit that shows a pixel is none of those before `from`, shows a
/// pixel where there is one, and follows units that show none.
pub proof fn lemma_first_showing(units: [Sprite; 8], from: int, count: int)
    requires
        0 <= from <= count <= 8,
    ensures
        from <= first_showing(units, from, count) <= count,
        first_showing(units, from, count) < count ==> units[first_showing(
            units,
            from,
            count,
        )].shows_pixel(),
        forall|i: int|
            from <= i < first_showing(units, from, count) ==> !(#[trigger] units[i]).shows_pixel(),
    decreases count - from,
{
    if from < count && !units[from].shows_pixel() {
        lemma_first_showing(units, from + 1, count);
    }
}

/// Moving the first `n` units leaves the others alone, and moves each of
/// the first `n` by one dot.
pub proof fn lemma_units_moved(units: [Sprite; 8], n: int, j: int)
    requires
        0 <= n <= 8,
        0 <= j < 8,
    ensures
        units_moved(units, n)[j] == if j < n {
            units[j].after_dot()
        } else {
            units[j]
        },
    decreases n,
{
    if n > 0 {
        lemma_units_moved(units, n - 1, j);
    }
}

/// The start of a sprite's tile, bit by bit, is a sum over its tile number.
pub proof fn lemma_tile_bits(tile: u8)
    by (bit_vector)
    ensures
        ({
            &&& (((tile >> 1) | (tile << 7)) as u16) << 5 == (tile % 2) * 0x1000 + (tile / 2) * 32
            &&& 0x1000 | ((tile as u16) << 4) == 0x1000 + tile * 16
            &&& 0 | ((tile as u16) << 4) == tile * 16
        }),
{
}

/// A flag that was set is set, and one that was cleared is clear.
pub proof fn lemma_flag_bits(status: u8)
    by (bit_vector)
    ensures
        (status | 0x40) & 0x40 != 0,
        (status | 0x20) & 0x20 != 0,
        (status | 0x80) & 0x80 != 0,
        (status & !0x80u8) & 0x80 == 0,
        (status & !(0x40u8 | 0x20u8)) & 0x40 == 0,
        (status & !(0x40u8 | 0x20u8)) & 0x20 == 0,
{
}

} // verus!
