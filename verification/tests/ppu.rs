use rnes::background::Background;
use rnes::bits::reverse_byte;
use rnes::cartridge::{Cartridge, Mirroring};
use rnes::mem::{MemState, Memory};
use rnes::oam::Oam;
use rnes::ppu::{Ppu, STATUS_SPRITE_0_HIT, STATUS_SPRITE_OVERFLOW, STATUS_VBLANK};
use rnes::scroll::Scroll;
use rnes::sprite::Sprite;

fn bus() -> Memory<Cartridge> {
    Memory::new(Cartridge::new(Mirroring::Horizontal))
}

/// Ticks until the beam stands on `dot` of `line`, before that dot is worked.
fn run_to(ppu: &mut Ppu, mem: &mut Memory<Cartridge>, line: usize, dot: usize) {
    let mut ticks = 0;
    while !(ppu.scanline == line && ppu.scycle == dot) {
        ppu.cycle(mem);
        ticks += 1;
        assert!(ticks < 200_000);
    }
}

/// How many ticks the frame under way takes from its first dot.
fn frame_ticks(ppu: &mut Ppu, mem: &mut Memory<Cartridge>) -> u32 {
    assert_eq!((ppu.scanline, ppu.scycle), (0, 0));
    let frame = ppu.frames;
    let mut ticks = 0;
    while ppu.frames == frame {
        ppu.cycle(mem);
        ticks += 1;
    }
    assert_eq!((ppu.scanline, ppu.scycle), (0, 0));
    ticks
}

#[test]
fn new_ppu_is_blank() {
    let ppu = Ppu::new();
    let (frames, picture) = ppu.frame_data();
    assert_eq!(frames, 0);
    assert_eq!(picture.len(), 240);
    for line in picture {
        assert_eq!(line.0.len(), 256);
        assert!(line.0.iter().all(|pixel| *pixel == 0));
    }
    assert_eq!(ppu.status, 0);
    assert!(!ppu.render_on());
    assert!(!ppu.rendering());
}

#[test]
fn frame_takes_89342_ticks_without_rendering() {
    let mut ppu = Ppu::new();
    let mut mem = bus();
    assert_eq!(frame_ticks(&mut ppu, &mut mem), 89342);
    assert_eq!(frame_ticks(&mut ppu, &mut mem), 89342);
    assert_eq!(ppu.frames, 2);
}

#[test]
fn odd_frame_is_one_tick_short_with_background() {
    let mut ppu = Ppu::new();
    let mut mem = bus();
    mem.store(0x2001, 0x08);
    assert_eq!(frame_ticks(&mut ppu, &mut mem), 89342);
    assert_eq!(frame_ticks(&mut ppu, &mut mem), 89341);
    assert_eq!(frame_ticks(&mut ppu, &mut mem), 89342);
    assert_eq!(frame_ticks(&mut ppu, &mut mem), 89341);
}

#[test]
fn odd_frame_is_full_with_sprites_only() {
    let mut ppu = Ppu::new();
    let mut mem = bus();
    mem.store(0x2001, 0x10);
    assert_eq!(frame_ticks(&mut ppu, &mut mem), 89342);
    assert_eq!(frame_ticks(&mut ppu, &mut mem), 89342);
}

#[test]
fn vblank_is_set_and_cleared_by_the_beam() {
    let mut ppu = Ppu::new();
    let mut mem = bus();
    run_to(&mut ppu, &mut mem, 241, 1);
    assert_eq!(ppu.status & STATUS_VBLANK, 0);
    ppu.cycle(&mut mem);
    assert_eq!(ppu.status & STATUS_VBLANK, STATUS_VBLANK);
    assert_eq!(mem.ppu_regs.status & STATUS_VBLANK, STATUS_VBLANK);
    assert!(!mem.nmi);
    run_to(&mut ppu, &mut mem, 261, 1);
    assert_eq!(ppu.status & STATUS_VBLANK, STATUS_VBLANK);
    ppu.cycle(&mut mem);
    assert_eq!(ppu.status & STATUS_VBLANK, 0);
}

#[test]
fn vblank_raises_nmi_when_enabled() {
    let mut ppu = Ppu::new();
    let mut mem = bus();
    mem.store(0x2000, 0x80);
    run_to(&mut ppu, &mut mem, 241, 1);
    assert!(!mem.nmi);
    ppu.cycle(&mut mem);
    assert!(mem.nmi);
}

#[test]
fn enabling_nmi_during_vblank_raises_it() {
    let mut ppu = Ppu::new();
    let mut mem = bus();
    run_to(&mut ppu, &mut mem, 245, 0);
    assert!(!mem.nmi);
    mem.store(0x2000, 0x80);
    ppu.cycle(&mut mem);
    assert!(mem.nmi);
    mem.nmi = false;
    mem.store(0x2000, 0x80);
    ppu.cycle(&mut mem);
    assert!(!mem.nmi);
}

#[test]
fn ppustatus_read_clears_vblank_and_toggle() {
    let mut ppu = Ppu::new();
    let mut mem = bus();
    run_to(&mut ppu, &mut mem, 241, 2);
    // One write to $2006 leaves the toggle set.
    mem.store(0x2006, 0x21);
    ppu.cycle(&mut mem);
    assert!(ppu.address.w);
    let first = mem.load(0x2002);
    assert_eq!(first & 0x80, 0x80);
    ppu.cycle(&mut mem);
    assert!(!ppu.address.w);
    let second = mem.load(0x2002);
    assert_eq!(second & 0x80, 0x00);
    ppu.cycle(&mut mem);
    // The next write to $2006 is taken as the high byte again.
    mem.store(0x2006, 0x3f);
    ppu.cycle(&mut mem);
    assert_eq!(ppu.address.t & 0xff00, 0x3f00);
    assert!(ppu.address.w);
    mem.store(0x2006, 0x10);
    ppu.cycle(&mut mem);
    assert_eq!(ppu.address.v, 0x3f10);
    assert_eq!(ppu.address.t, 0x3f10);
    assert!(!ppu.address.w);
}

#[test]
fn mailbox_is_consumed_by_one_tick() {
    let mut ppu = Ppu::new();
    let mut mem = bus();
    mem.store(0x2003, 0x10);
    mem.store(0x2004, 0xaa);
    ppu.cycle(&mut mem);
    assert_eq!(mem.write_status, MemState::NoState);
    ppu.cycle(&mut mem);
    ppu.cycle(&mut mem);
    // Only the last write was in the mailbox, and it was taken once.
    assert_eq!(ppu.oam.mem[0], 0xaa);
    assert_eq!(ppu.oam.mem[1], 0x00);
    assert_eq!(ppu.oam.address, 1);
}

#[test]
fn oam_port_writes_and_reads() {
    let mut ppu = Ppu::new();
    let mut mem = bus();
    mem.store(0x2003, 0xff);
    ppu.cycle(&mut mem);
    mem.store(0x2004, 0x12);
    ppu.cycle(&mut mem);
    assert_eq!(ppu.oam.mem[0xff], 0x12);
    assert_eq!(ppu.oam.address, 0);
    mem.store(0x2003, 0xff);
    ppu.cycle(&mut mem);
    assert_eq!(mem.load(0x2004), 0x12);
}

#[test]
fn palette_store_keeps_six_bits_and_mirrors() {
    let mut ppu = Ppu::new();
    let mut mem = bus();
    for (address, value) in [(0x3f00u16, 0xffu8), (0x3f01, 0x41), (0x3f10, 0x2a), (0x3f15, 0x95)] {
        mem.store(0x2006, (address >> 8) as u8);
        ppu.cycle(&mut mem);
        mem.store(0x2006, address as u8);
        ppu.cycle(&mut mem);
        mem.store(0x2007, value);
        ppu.cycle(&mut mem);
    }
    assert_eq!(ppu.palette[0x00], 0x2a);
    assert_eq!(ppu.palette[0x01], 0x01);
    assert_eq!(ppu.palette[0x10], 0x00);
    assert_eq!(ppu.palette[0x15], 0x15);
    assert!(ppu.palette.iter().all(|entry| *entry < 0x40));
}

#[test]
fn palette_mirror_slots() {
    let ppu = Ppu::new();
    assert_eq!(ppu.palette_mirror(0x3f00), 0x00);
    assert_eq!(ppu.palette_mirror(0x3f10), 0x00);
    assert_eq!(ppu.palette_mirror(0x3f14), 0x04);
    assert_eq!(ppu.palette_mirror(0x3f18), 0x08);
    assert_eq!(ppu.palette_mirror(0x3f1c), 0x0c);
    assert_eq!(ppu.palette_mirror(0x3f04), 0x04);
    assert_eq!(ppu.palette_mirror(0x3f11), 0x11);
    assert_eq!(ppu.palette_mirror(0x3f1f), 0x1f);
    assert_eq!(ppu.palette_mirror(0x3f20), 0x00);
    assert_eq!(ppu.palette_mirror(0x3fff), 0x1f);
    assert_eq!(ppu.palette_mirror(0x3ff0), 0x00);
}

#[test]
fn ppudata_read_is_buffered_and_steps() {
    let mut ppu = Ppu::new();
    let mut mem = bus();
    mem.chr_store(0x2000, 0x11);
    mem.chr_store(0x2001, 0x22);
    mem.chr_store(0x2020, 0x33);
    mem.store(0x2006, 0x20);
    ppu.cycle(&mut mem);
    mem.store(0x2006, 0x00);
    ppu.cycle(&mut mem);
    assert_eq!(mem.load(0x2007), 0x00);
    ppu.cycle(&mut mem);
    assert_eq!(ppu.address.v, 0x2001);
    assert_eq!(mem.load(0x2007), 0x11);
    ppu.cycle(&mut mem);
    assert_eq!(mem.load(0x2007), 0x22);
    ppu.cycle(&mut mem);
    // With PPUCTRL bit 2 the address steps by 32.
    mem.store(0x2000, 0x04);
    ppu.cycle(&mut mem);
    mem.store(0x2006, 0x20);
    ppu.cycle(&mut mem);
    mem.store(0x2006, 0x00);
    ppu.cycle(&mut mem);
    mem.load(0x2007);
    ppu.cycle(&mut mem);
    assert_eq!(ppu.address.v, 0x2020);
    mem.load(0x2007);
    ppu.cycle(&mut mem);
    assert_eq!(mem.load(0x2007), 0x33);
}

#[test]
fn ppudata_write_reaches_cartridge() {
    let mut ppu = Ppu::new();
    let mut mem = bus();
    mem.store(0x2006, 0x24);
    ppu.cycle(&mut mem);
    mem.store(0x2006, 0x05);
    ppu.cycle(&mut mem);
    mem.store(0x2007, 0x99);
    ppu.cycle(&mut mem);
    assert_eq!(mem.chr_load(0x2405), 0x99);
    assert_eq!(ppu.address.v, 0x2406);
}

#[test]
fn scroll_writes() {
    let mut scroll = Scroll::new();
    scroll.set_ppuctrl(0x03);
    assert_eq!(scroll.t, 0x0c00);
    scroll.set_scroll(0x7d);
    assert_eq!(scroll.t, 0x0c0f);
    assert_eq!(scroll.fine_x, 5);
    assert!(scroll.w);
    scroll.set_scroll(0x5e);
    assert_eq!(scroll.t, 0x6d6f);
    assert!(!scroll.w);
    scroll.set_address(0xff);
    assert_eq!(scroll.t, 0x3f6f);
    assert!(scroll.w);
    assert_eq!(scroll.v, 0);
    scroll.set_address(0x12);
    assert_eq!(scroll.t, 0x3f12);
    assert_eq!(scroll.v, 0x3f12);
    scroll.set_scroll(0x00);
    scroll.reset();
    assert!(!scroll.w);
}

#[test]
fn scroll_increments() {
    let mut scroll = Scroll::new();
    scroll.v = 0x001e;
    scroll.increment_coarse_x();
    assert_eq!(scroll.v, 0x001f);
    scroll.increment_coarse_x();
    assert_eq!(scroll.v, 0x0400);
    scroll.v = 0x041f;
    scroll.increment_coarse_x();
    assert_eq!(scroll.v, 0x0000);
    scroll.v = 0x0000;
    scroll.increment_y();
    assert_eq!(scroll.v, 0x1000);
    scroll.v = 0x7000;
    scroll.increment_y();
    assert_eq!(scroll.v, 0x0020);
    scroll.v = 0x7000 | (29 << 5);
    scroll.increment_y();
    assert_eq!(scroll.v, 0x0800);
    scroll.v = 0x7800 | (29 << 5) | 3;
    scroll.increment_y();
    assert_eq!(scroll.v, 0x0003);
    scroll.v = 0x7000 | (31 << 5);
    scroll.increment_y();
    assert_eq!(scroll.v, 0x0000);
    scroll.v = 0x7400 | (30 << 5);
    scroll.increment_y();
    assert_eq!(scroll.v, 0x0400 | (31 << 5));
}

#[test]
fn scroll_copies() {
    let mut scroll = Scroll::new();
    scroll.v = 0x0000;
    scroll.t = 0x7fff;
    scroll.copy_horizontal();
    assert_eq!(scroll.v, 0x041f);
    scroll.v = 0x0000;
    scroll.copy_vertical();
    assert_eq!(scroll.v, 0x7be0);
    scroll.v = 0x7fff;
    scroll.t = 0x0000;
    scroll.copy_horizontal();
    assert_eq!(scroll.v, 0x7be0);
}

#[test]
fn scroll_fetch_addresses() {
    let mut scroll = Scroll::new();
    scroll.v = 0x2be5 & 0x7fff;
    assert_eq!(scroll.get_nametable_address(), 0x2be5);
    scroll.v = 0x0000;
    assert_eq!(scroll.get_attribute_address(), 0x23c0);
    scroll.v = 0x0c00 | (31 << 5) | 31;
    assert_eq!(scroll.get_attribute_address(), 0x2fff);
    scroll.v = (9 << 5) | 6;
    assert_eq!(scroll.get_attribute_address(), 0x23c0 + 2 * 8 + 1);
    scroll.v = 0x3000;
    assert_eq!(scroll.get_tile_address(0x24), 0x0243);
    scroll.set_ppuctrl(0x10);
    assert_eq!(scroll.get_tile_address(0xff), 0x1ff3);
}

#[test]
fn scroll_tile_attribute_picks_quadrant() {
    let mut scroll = Scroll::new();
    let attribute = 0b11_10_01_00;
    scroll.v = 0;
    assert_eq!(scroll.get_tile_attribute(attribute), 0);
    scroll.v = 2;
    assert_eq!(scroll.get_tile_attribute(attribute), 1);
    scroll.v = 2 << 5;
    assert_eq!(scroll.get_tile_attribute(attribute), 2);
    scroll.v = (3 << 5) | 3;
    assert_eq!(scroll.get_tile_attribute(attribute), 3);
    scroll.v = (4 << 5) | 5;
    assert_eq!(scroll.get_tile_attribute(attribute), 0);
}

#[test]
fn scroll_access_steps_only_outside_rendering() {
    let mut scroll = Scroll::new();
    scroll.v = 0x7fff;
    assert_eq!(scroll.get_address(true), 0x3fff);
    assert_eq!(scroll.v, 0x7fff);
    assert_eq!(scroll.get_address(false), 0x3fff);
    assert_eq!(scroll.v, 0x0000);
    scroll.set_ppuctrl(0x04);
    scroll.v = 0x7ff0;
    scroll.get_address(false);
    assert_eq!(scroll.v, 0x0010);
    assert_eq!(scroll.get_fine_x(), 0);
}

#[test]
fn reverse_byte_turns_bits_around() {
    assert_eq!(reverse_byte(0x01), 0x80);
    assert_eq!(reverse_byte(0x80), 0x01);
    assert_eq!(reverse_byte(0xf0), 0x0f);
    assert_eq!(reverse_byte(0b1011_0010), 0b0100_1101);
    assert_eq!(reverse_byte(0x00), 0x00);
    assert_eq!(reverse_byte(0xff), 0xff);
    for byte in 0..=255u8 {
        assert_eq!(reverse_byte(byte), byte.reverse_bits());
    }
}

#[test]
fn sprite_unit_counts_down_then_shifts() {
    let mut sprite = Sprite::new();
    sprite.set_sprite_info(0, 10);
    sprite.set_sprite_info(1, 1);
    sprite.set_sprite_info(2, 0x23);
    sprite.set_sprite_info(3, 2);
    assert_eq!((sprite.y_pos, sprite.tile, sprite.attributes, sprite.x_pos), (10, 1, 0x23, 2));
    sprite.counter = 2;
    sprite.lshift = 0b0000_0110;
    sprite.hshift = 0b0000_0100;
    assert!(!sprite.has_pixel());
    sprite.decrement_or_shift();
    sprite.decrement_or_shift();
    assert_eq!(sprite.counter, 0);
    assert_eq!(sprite.lshift, 0b0000_0110);
    assert!(!sprite.has_pixel());
    sprite.decrement_or_shift();
    assert!(sprite.has_pixel());
    assert_eq!(sprite.get_palette_index(), 16 + 3 * 4 + 1);
    sprite.decrement_or_shift();
    assert!(sprite.has_pixel());
    assert_eq!(sprite.get_palette_index(), 16 + 3 * 4 + 3);
    sprite.decrement_or_shift();
    assert!(!sprite.has_pixel());
    assert!(!sprite.get_priority());
    assert_eq!(sprite.get_palette(), 3);
    assert!(!sprite.flip_horizontally());
    assert!(!sprite.flip_vertically());
    sprite.attributes = 0xc0;
    assert!(sprite.get_priority());
    assert!(sprite.flip_horizontally());
    assert!(sprite.flip_vertically());
}

#[test]
fn background_latches_at_phase_seven_only() {
    let mut mem = bus();
    // Tile 5 has the pattern bytes $3c and $c3 in its row 0.
    mem.chr_store(0x2000, 5);
    mem.chr_store(0x23c0, 0b0000_0010);
    mem.chr_store(5 * 16, 0x3c);
    mem.chr_store(5 * 16 + 8, 0xc3);
    let scroll = Scroll::new();
    let mut background = Background::new();
    background.ltile_shift = 0xab00;
    background.htile_shift = 0xcd00;
    background.attr_shift = 0x1234_0000;
    for dot in 1..=7 {
        background.fetch(&mem, &scroll, dot);
        assert_eq!(background.ltile_shift, 0xab00);
        assert_eq!(background.htile_shift, 0xcd00);
        assert_eq!(background.attr_shift, 0x1234_0000);
    }
    assert_eq!(background.next_name, 5);
    assert_eq!(background.next_attr, 2);
    assert_eq!(background.next_ltile, 0x3c);
    background.fetch(&mem, &scroll, 8);
    assert_eq!(background.next_htile, 0xc3);
    assert_eq!(background.ltile_shift, 0xab3c);
    assert_eq!(background.htile_shift, 0xcdc3);
    assert_eq!(background.attr_shift, 0x1234_aaaa);
    background.fetch(&mem, &scroll, 9);
    assert_eq!(background.ltile_shift, 0xab3c);
}

#[test]
fn background_shift_and_pixels() {
    let mut background = Background::new();
    background.ltile_shift = 0x8001;
    background.htile_shift = 0x4000;
    background.attr_shift = 0xc000_0003;
    assert_eq!(background.get_color_index(0), 1);
    assert_eq!(background.get_color_index(1), 2);
    assert_eq!(background.get_color_index(2), 0);
    assert_eq!(background.get_palette_index(0), 3 * 4 + 1);
    assert_eq!(background.get_palette_index(1), 2);
    assert_eq!(background.get_palette_index(2), 0);
    background.shift();
    assert_eq!(background.ltile_shift, 0x0002);
    assert_eq!(background.htile_shift, 0x8000);
    assert_eq!(background.attr_shift, 0x0000_000c);
    assert_eq!(background.get_color_index(0), 2);
    assert_eq!(background.get_palette_index(7), 0);
}

#[test]
fn oam_clears_secondary_memory() {
    let mut oam = Oam::new();
    let mut units = [Sprite::new(); 8];
    oam.smem = [0x55; 32];
    for dot in 0..=64 {
        assert!(!oam.cycle(dot, 0, &mut units, false));
    }
    assert!(oam.smem.iter().all(|byte| *byte == 0xff));
}

/// Runs the evaluator through one visible scanline.
fn evaluate(oam: &mut Oam, units: &mut [Sprite; 8], line: u8, big: bool) -> bool {
    let mut overflow = false;
    for dot in 0..=340 {
        if oam.cycle(dot, line, units, big) {
            overflow = true;
        }
    }
    overflow
}

#[test]
fn oam_finds_sprites_in_order() {
    let mut oam = Oam::new();
    let mut units = [Sprite::new(); 8];
    oam.mem = [0xff; 256];
    for (slot, entry) in [(3usize, [20u8, 7, 1, 30]), (10, [13, 8, 2, 40]), (40, [21, 9, 3, 50])] {
        oam.mem[slot * 4..slot * 4 + 4].copy_from_slice(&entry);
    }
    assert!(!evaluate(&mut oam, &mut units, 20, false));
    assert_eq!(oam.count(), 2);
    assert_eq!((units[0].y_pos, units[0].tile, units[0].attributes, units[0].x_pos), (20, 7, 1, 30));
    assert_eq!((units[1].y_pos, units[1].tile, units[1].attributes, units[1].x_pos), (13, 8, 2, 40));
    assert!(!oam.zero_hit_next);
    // Row 21 is outside a sprite of eight rows that starts at row 13.
    assert!(!evaluate(&mut oam, &mut units, 21, false));
    assert_eq!(oam.count(), 2);
    assert_eq!(units[1].tile, 9);
    // It is inside one of sixteen rows.
    assert!(!evaluate(&mut oam, &mut units, 21, true));
    assert_eq!(oam.count(), 3);
}

#[test]
fn oam_hides_sprites_from_row_240() {
    let mut oam = Oam::new();
    let mut units = [Sprite::new(); 8];
    oam.mem = [0xff; 256];
    oam.mem[0] = 0xf0;
    oam.read = 0xf0;
    assert!(!oam.in_range(0xf0, false));
    oam.read = 0xef;
    assert!(oam.in_range(0xef, false));
    assert!(oam.in_range(0xf6, false));
    assert!(!oam.in_range(0xf7, false));
    assert!(oam.in_range(0xfe, true));
    assert!(!oam.in_range(0xee, true));
    assert!(!evaluate(&mut oam, &mut units, 0xf0, false));
    assert_eq!(oam.count(), 0);
}

#[test]
fn oam_remembers_sprite_zero_for_the_next_line() {
    let mut oam = Oam::new();
    let mut units = [Sprite::new(); 8];
    oam.mem = [0xff; 256];
    oam.mem[0..4].copy_from_slice(&[10, 1, 0, 10]);
    evaluate(&mut oam, &mut units, 10, false);
    assert!(oam.zero_hit_next);
    assert!(!oam.sprite_zero_hit());
    oam.cycle(0, 11, &mut units, false);
    assert!(oam.sprite_zero_hit());
    assert!(!oam.zero_hit_next);
}

#[test]
fn ninth_sprite_sets_overflow() {
    let mut ppu = Ppu::new();
    let mut mem = bus();
    ppu.oam.mem = [0xff; 256];
    for slot in 0..9 {
        ppu.oam.mem[slot * 4] = 50;
        ppu.oam.mem[slot * 4 + 1] = slot as u8;
        ppu.oam.mem[slot * 4 + 3] = 8 * slot as u8;
    }
    mem.store(0x2001, 0x18);
    run_to(&mut ppu, &mut mem, 50, 0);
    assert_eq!(ppu.status & STATUS_SPRITE_OVERFLOW, 0);
    run_to(&mut ppu, &mut mem, 51, 0);
    assert_eq!(ppu.status & STATUS_SPRITE_OVERFLOW, STATUS_SPRITE_OVERFLOW);
    assert_eq!(ppu.oam.count(), 8);
    for unit in 0..8 {
        assert_eq!(ppu.sprites[unit].tile, unit as u8);
        assert_eq!(ppu.sprites[unit].y_pos, 50);
    }
    // The flag stays until dot 1 of the pre-render line.
    run_to(&mut ppu, &mut mem, 261, 1);
    assert_eq!(ppu.status & STATUS_SPRITE_OVERFLOW, STATUS_SPRITE_OVERFLOW);
    ppu.cycle(&mut mem);
    assert_eq!(ppu.status & STATUS_SPRITE_OVERFLOW, 0);
}

#[test]
fn eight_sprites_do_not_overflow() {
    let mut ppu = Ppu::new();
    let mut mem = bus();
    ppu.oam.mem = [0xff; 256];
    for slot in 0..8 {
        ppu.oam.mem[slot * 4] = 50;
    }
    mem.store(0x2001, 0x18);
    run_to(&mut ppu, &mut mem, 60, 0);
    assert_eq!(ppu.status & STATUS_SPRITE_OVERFLOW, 0);
    assert_eq!(ppu.oam.count(), 0);
}

/// A PPU and a bus on which tile 1 is solid in its low plane, every
/// nametable entry is tile 1, and sprite 0 stands at column 10, row 10.
fn sprite_zero_scene() -> (Ppu, Memory<Cartridge>) {
    let mut ppu = Ppu::new();
    let mut mem = bus();
    for row in 0..8 {
        mem.chr_store(16 + row, 0xff);
    }
    for entry in 0..0x3c0u16 {
        mem.chr_store(0x2000 + entry, 1);
        mem.chr_store(0x2400 + entry, 1);
    }
    ppu.oam.mem = [0xff; 256];
    ppu.oam.mem[0..4].copy_from_slice(&[10, 1, 0, 10]);
    for slot in 0..32 {
        ppu.palette[slot] = slot as u8;
    }
    (ppu, mem)
}

#[test]
fn sprite_zero_hit() {
    let (mut ppu, mut mem) = sprite_zero_scene();
    mem.store(0x2001, 0x18);
    // The sprite's first row is on line 11: nothing hits before its column.
    run_to(&mut ppu, &mut mem, 11, 11);
    assert_eq!(ppu.status & STATUS_SPRITE_0_HIT, 0);
    ppu.cycle(&mut mem);
    assert_eq!(ppu.status & STATUS_SPRITE_0_HIT, STATUS_SPRITE_0_HIT);
    run_to(&mut ppu, &mut mem, 18, 0);
    assert_eq!(ppu.status & STATUS_SPRITE_0_HIT, STATUS_SPRITE_0_HIT);
    assert_eq!(mem.ppu_regs.status & STATUS_SPRITE_0_HIT, STATUS_SPRITE_0_HIT);
    run_to(&mut ppu, &mut mem, 261, 1);
    assert_eq!(ppu.status & STATUS_SPRITE_0_HIT, STATUS_SPRITE_0_HIT);
    ppu.cycle(&mut mem);
    assert_eq!(ppu.status & STATUS_SPRITE_0_HIT, 0);
}

#[test]
fn sprite_zero_needs_both_layers() {
    let (mut ppu, mut mem) = sprite_zero_scene();
    mem.store(0x2001, 0x10);
    run_to(&mut ppu, &mut mem, 30, 0);
    assert_eq!(ppu.status & STATUS_SPRITE_0_HIT, 0);
    let (mut ppu, mut mem) = sprite_zero_scene();
    mem.store(0x2001, 0x08);
    run_to(&mut ppu, &mut mem, 30, 0);
    assert_eq!(ppu.status & STATUS_SPRITE_0_HIT, 0);
    let (mut ppu, mut mem) = sprite_zero_scene();
    run_to(&mut ppu, &mut mem, 30, 0);
    assert_eq!(ppu.status & STATUS_SPRITE_0_HIT, 0);
}

#[test]
fn sprite_zero_does_not_hit_transparent_background() {
    let (mut ppu, mut mem) = sprite_zero_scene();
    // The background shows tile 0, which is empty.
    for entry in 0..0x3c0u16 {
        mem.chr_store(0x2000 + entry, 0);
        mem.chr_store(0x2400 + entry, 0);
    }
    mem.store(0x2001, 0x18);
    run_to(&mut ppu, &mut mem, 30, 0);
    assert_eq!(ppu.status & STATUS_SPRITE_0_HIT, 0);
}

#[test]
fn sprite_zero_does_not_hit_on_dot_256() {
    let (mut ppu, mut mem) = sprite_zero_scene();
    ppu.oam.mem[3] = 255;
    mem.store(0x2001, 0x18);
    run_to(&mut ppu, &mut mem, 30, 0);
    assert_eq!(ppu.status & STATUS_SPRITE_0_HIT, 0);
    let (mut ppu, mut mem) = sprite_zero_scene();
    ppu.oam.mem[3] = 254;
    mem.store(0x2001, 0x18);
    run_to(&mut ppu, &mut mem, 11, 255);
    assert_eq!(ppu.status & STATUS_SPRITE_0_HIT, 0);
    ppu.cycle(&mut mem);
    assert_eq!(ppu.status & STATUS_SPRITE_0_HIT, STATUS_SPRITE_0_HIT);
}

#[test]
fn picture_shows_sprite_over_background() {
    let (mut ppu, mut mem) = sprite_zero_scene();
    mem.store(0x2001, 0x18);
    run_to(&mut ppu, &mut mem, 20, 0);
    let (_, picture) = ppu.frame_data();
    // Background: colour 1 of palette group 0 (the attribute bytes are 0).
    assert_eq!(picture[11].0[9], 1);
    // Sprite: colour 1 of sprite palette 0, in front.
    assert_eq!(picture[11].0[10], 17);
    assert_eq!(picture[11].0[17], 17);
    assert_eq!(picture[11].0[18], 1);
    assert_eq!(picture[18].0[10], 17);
    assert_eq!(picture[19].0[10], 1);
    assert_eq!(picture[10].0[10], 1);
}

#[test]
fn sprite_behind_background_is_covered() {
    let (mut ppu, mut mem) = sprite_zero_scene();
    ppu.oam.mem[2] = 0x20;
    mem.store(0x2001, 0x18);
    run_to(&mut ppu, &mut mem, 20, 0);
    let (_, picture) = ppu.frame_data();
    assert_eq!(picture[11].0[10], 1);
    assert_eq!(ppu.status & STATUS_SPRITE_0_HIT, STATUS_SPRITE_0_HIT);
}

#[test]
fn flipped_sprite_reads_its_rows_backwards() {
    let (mut ppu, mut mem) = sprite_zero_scene();
    // Tile 2 has a single pixel: row 0, leftmost column.
    mem.chr_store(32, 0x80);
    ppu.oam.mem[1] = 2;
    ppu.oam.mem[2] = 0xc0;
    for entry in 0..0x3c0u16 {
        mem.chr_store(0x2000 + entry, 0);
        mem.chr_store(0x2400 + entry, 0);
    }
    mem.store(0x2001, 0x18);
    run_to(&mut ppu, &mut mem, 20, 0);
    let (_, picture) = ppu.frame_data();
    // Flipped both ways, the pixel is in the last row and the rightmost column.
    assert_eq!(picture[18].0[17], 17);
    assert_eq!(picture[18].0[10], 0);
    assert_eq!(picture[11].0[10], 0);
    assert_eq!(picture[11].0[17], 0);
}

#[test]
fn overflow_search_reads_the_wrong_bytes_after_a_miss() {
    // Eight sprites on line 50. Entry 8 is elsewhere, and so is entry 9, but
    // the tile number of entry 9 would cover the line if it were a row: after
    // the miss on entry 8 the evaluator moves on by five bytes and takes it
    // for one.
    let mut ppu = Ppu::new();
    let mut mem = bus();
    ppu.oam.mem = [0xff; 256];
    for slot in 0..8 {
        ppu.oam.mem[slot * 4] = 50;
    }
    ppu.oam.mem[9 * 4 + 1] = 50;
    mem.store(0x2001, 0x18);
    run_to(&mut ppu, &mut mem, 51, 0);
    assert_eq!(ppu.status & STATUS_SPRITE_OVERFLOW, STATUS_SPRITE_OVERFLOW);
    // Without the tile number that looks like a row, nothing overflows.
    let mut ppu = Ppu::new();
    let mut mem = bus();
    ppu.oam.mem = [0xff; 256];
    for slot in 0..8 {
        ppu.oam.mem[slot * 4] = 50;
    }
    mem.store(0x2001, 0x18);
    run_to(&mut ppu, &mut mem, 51, 0);
    assert_eq!(ppu.status & STATUS_SPRITE_OVERFLOW, 0);
}

#[test]
fn overflow_search_misses_a_ninth_sprite_behind_a_miss() {
    // Eight sprites on line 50, a miss in entry 8, and a ninth sprite in
    // entry 9: the evaluator is out of step after the miss and reads the
    // tile number of entry 9, not its row.
    let mut ppu = Ppu::new();
    let mut mem = bus();
    ppu.oam.mem = [0xff; 256];
    for slot in 0..8 {
        ppu.oam.mem[slot * 4] = 50;
    }
    ppu.oam.mem[9 * 4] = 50;
    mem.store(0x2001, 0x18);
    run_to(&mut ppu, &mut mem, 51, 0);
    assert_eq!(ppu.status & STATUS_SPRITE_OVERFLOW, 0);
}

#[test]
fn high_sprite_shows_both_tiles() {
    // A sprite of 16 rows from tiles 2 and 3 of the table at $0000: tile 2
    // has its leftmost pixel set in row 0, tile 3 in row 7.
    let mut ppu = Ppu::new();
    let mut mem = bus();
    mem.chr_store(2 * 16, 0x80);
    mem.chr_store(3 * 16 + 7, 0x80);
    ppu.oam.mem = [0xff; 256];
    ppu.oam.mem[0..4].copy_from_slice(&[10, 2, 0, 10]);
    for slot in 0..32 {
        ppu.palette[slot] = slot as u8;
    }
    // The mailbox holds one write: the PPU takes the first before the second.
    mem.store(0x2000, 0x20);
    ppu.cycle(&mut mem);
    mem.store(0x2001, 0x18);
    run_to(&mut ppu, &mut mem, 30, 0);
    let (_, picture) = ppu.frame_data();
    assert_eq!(picture[11].0[10], 17);
    assert_eq!(picture[12].0[10], 0);
    assert_eq!(picture[18].0[10], 0);
    assert_eq!(picture[26].0[10], 17);
    assert_eq!(picture[27].0[10], 0);
    assert_eq!(picture[11].0[11], 0);
}

#[test]
fn flipped_high_sprite_turns_both_tiles_over() {
    let mut ppu = Ppu::new();
    let mut mem = bus();
    mem.chr_store(2 * 16, 0x80);
    ppu.oam.mem = [0xff; 256];
    ppu.oam.mem[0..4].copy_from_slice(&[10, 2, 0x80, 10]);
    for slot in 0..32 {
        ppu.palette[slot] = slot as u8;
    }
    mem.store(0x2000, 0x20);
    ppu.cycle(&mut mem);
    mem.store(0x2001, 0x18);
    run_to(&mut ppu, &mut mem, 30, 0);
    let (_, picture) = ppu.frame_data();
    // Row 0 of the upper tile is the last of the sixteen rows.
    assert_eq!(picture[26].0[10], 17);
    assert_eq!(picture[11].0[10], 0);
}
