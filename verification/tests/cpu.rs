use rnes::alu::{add_with_carry, compare, rotate_left, rotate_right, shift_left, shift_right, subtract_with_borrow};
use rnes::cartridge::{Cartridge, Mirroring};
use rnes::cpu::Cpu;
use rnes::mem::{Interrupt, Memory};
use rnes::nes::Nes;
use rnes::opcode::{decode, operand_bytes, Mode, Op};

/// A bus whose cartridge holds `program` at `$8000` and a reset vector
/// that points there.
fn machine(program: &[u8]) -> (Cpu, Memory<Cartridge>) {
    let mut cart = Cartridge::new(Mirroring::Horizontal);
    for (i, byte) in program.iter().enumerate() {
        cart.prg_rom[i] = *byte;
    }
    cart.prg_rom[0x7ffc] = 0x00;
    cart.prg_rom[0x7ffd] = 0x80;
    let mut mem = Memory::new(cart);
    let mut cpu = Cpu::new();
    cpu.reset(&mut mem);
    (cpu, mem)
}

#[test]
fn reset_vector() {
    let mut cart = Cartridge::new(Mirroring::Horizontal);
    cart.prg_rom[0x7ffc] = 0x34;
    cart.prg_rom[0x7ffd] = 0x12;
    let mut mem = Memory::new(cart);
    mem.store(0x0000, 0x5a);
    let mut cpu = Cpu::new();
    cpu.a = 0x11;
    cpu.sp = 0x00;
    cpu.p = 0xff;
    cpu.reset(&mut mem);
    assert_eq!(cpu.pc, 0x1234);
    assert_eq!(cpu.sp, 0xfd);
    assert_eq!(cpu.p, 0x24);
    assert_eq!(cpu.a, 0x11);
    assert_eq!(mem.load(0x0000), 0x5a);
    for slot in 1..2048 {
        assert_eq!(mem.ram[slot], 0);
    }
}

#[test]
fn adc_immediate() {
    let (mut cpu, mut mem) = machine(&[0x69, 0x50]);
    cpu.a = 0x50;
    cpu.p = 0x24;
    let cycles = cpu.execute(&mut mem);
    assert_eq!(cpu.a, 0xa0);
    assert_eq!(cpu.p & 0x80, 0x80);
    assert_eq!(cpu.p & 0x40, 0x40);
    assert_eq!(cpu.p & 0x02, 0x00);
    assert_eq!(cpu.p & 0x01, 0x00);
    assert_eq!(cycles, 2);
    assert_eq!(cpu.pc, 0x8002);
}

#[test]
fn adc_immediate_through_cycles() {
    let (mut cpu, mut mem) = machine(&[0x69, 0x50, 0xea]);
    cpu.a = 0x50;
    cpu.cycle(&mut mem);
    assert_eq!(cpu.a, 0xa0);
    assert_eq!(cpu.cycles_remaining, 1);
    assert_eq!(cpu.pc, 0x8002);
    cpu.cycle(&mut mem);
    assert_eq!(cpu.cycles_remaining, 0);
    assert_eq!(cpu.pc, 0x8002);
    cpu.cycle(&mut mem);
    assert_eq!(cpu.pc, 0x8003);
    assert_eq!(cpu.cycle_count, 3);
}

#[test]
fn adc_sets_carry_and_zero() {
    let sum = add_with_carry(0xff, 0x01, false);
    assert_eq!((sum.value, sum.carry, sum.overflow), (0x00, true, false));
    let sum = add_with_carry(0x7f, 0x00, true);
    assert_eq!((sum.value, sum.carry, sum.overflow), (0x80, false, true));
    let sum = add_with_carry(0x80, 0x80, false);
    assert_eq!((sum.value, sum.carry, sum.overflow), (0x00, true, true));
    let sum = add_with_carry(0x01, 0x01, true);
    assert_eq!((sum.value, sum.carry, sum.overflow), (0x03, false, false));
}

#[test]
fn sbc_borrows_when_carry_clear() {
    let sum = subtract_with_borrow(0x50, 0x10, true);
    assert_eq!((sum.value, sum.carry, sum.overflow), (0x40, true, false));
    let sum = subtract_with_borrow(0x50, 0x10, false);
    assert_eq!((sum.value, sum.carry, sum.overflow), (0x3f, true, false));
    let sum = subtract_with_borrow(0x00, 0x01, true);
    assert_eq!((sum.value, sum.carry, sum.overflow), (0xff, false, false));
    let sum = subtract_with_borrow(0x80, 0x01, true);
    assert_eq!((sum.value, sum.carry, sum.overflow), (0x7f, true, true));
    let sum = subtract_with_borrow(0x7f, 0xff, true);
    assert_eq!((sum.value, sum.carry, sum.overflow), (0x80, false, true));
}

#[test]
fn compare_orders_bytes() {
    let sum = compare(0x10, 0x10);
    assert_eq!((sum.value, sum.carry), (0x00, true));
    let sum = compare(0x10, 0x20);
    assert_eq!((sum.value, sum.carry), (0xf0, false));
    let sum = compare(0x20, 0x10);
    assert_eq!((sum.value, sum.carry), (0x10, true));
}

#[test]
fn shifts_and_rotations() {
    let s = shift_left(0x81);
    assert_eq!((s.value, s.carry), (0x02, true));
    let s = shift_right(0x81);
    assert_eq!((s.value, s.carry), (0x40, true));
    let s = rotate_left(0x40, true);
    assert_eq!((s.value, s.carry), (0x81, false));
    let s = rotate_left(0x80, false);
    assert_eq!((s.value, s.carry), (0x00, true));
    let s = rotate_right(0x01, true);
    assert_eq!((s.value, s.carry), (0x80, true));
    let s = rotate_right(0x02, false);
    assert_eq!((s.value, s.carry), (0x01, false));
}

#[test]
fn decode_documented_opcodes() {
    let i = decode(0x69);
    assert_eq!((i.op, i.mode, i.cycles, i.page_cycle), (Op::Adc, Mode::Immediate, 2, false));
    let i = decode(0x00);
    assert_eq!((i.op, i.mode, i.cycles, i.page_cycle), (Op::Brk, Mode::Implied, 7, false));
    let i = decode(0x6c);
    assert_eq!((i.op, i.mode, i.cycles, i.page_cycle), (Op::Jmp, Mode::Indirect, 5, false));
    let i = decode(0xb1);
    assert_eq!((i.op, i.mode, i.cycles, i.page_cycle), (Op::Lda, Mode::IndirectY, 5, true));
    let i = decode(0x91);
    assert_eq!((i.op, i.mode, i.cycles, i.page_cycle), (Op::Sta, Mode::IndirectY, 6, false));
    let i = decode(0xbe);
    assert_eq!((i.op, i.mode, i.cycles, i.page_cycle), (Op::Ldx, Mode::AbsoluteY, 4, true));
    let i = decode(0x96);
    assert_eq!((i.op, i.mode, i.cycles, i.page_cycle), (Op::Stx, Mode::ZeroPageY, 4, false));
    let i = decode(0xfe);
    assert_eq!((i.op, i.mode, i.cycles, i.page_cycle), (Op::Inc, Mode::AbsoluteX, 7, false));
    let i = decode(0x4a);
    assert_eq!((i.op, i.mode, i.cycles, i.page_cycle), (Op::Lsr, Mode::Accumulator, 2, false));
    let i = decode(0xd0);
    assert_eq!((i.op, i.mode, i.cycles, i.page_cycle), (Op::Bne, Mode::Relative, 2, false));
    let i = decode(0xc9);
    assert_eq!((i.op, i.mode, i.cycles, i.page_cycle), (Op::Compare, Mode::Immediate, 2, false));
    let i = decode(0xe4);
    assert_eq!((i.op, i.mode, i.cycles, i.page_cycle), (Op::CompareX, Mode::ZeroPage, 3, false));
    let i = decode(0xcc);
    assert_eq!((i.op, i.mode, i.cycles, i.page_cycle), (Op::CompareY, Mode::Absolute, 4, false));
    let i = decode(0x9a);
    assert_eq!((i.op, i.mode, i.cycles, i.page_cycle), (Op::Txs, Mode::Implied, 2, false));
    let i = decode(0x20);
    assert_eq!((i.op, i.mode, i.cycles, i.page_cycle), (Op::Jsr, Mode::Absolute, 6, false));
}

#[test]
fn decode_undocumented_opcodes_as_nop() {
    let mut documented = 0;
    for opcode in 0..=255u8 {
        let i = decode(opcode);
        if i.op == Op::Nop && opcode != 0xea {
            assert_eq!((i.mode, i.cycles, i.page_cycle), (Mode::Implied, 2, false));
        } else {
            documented += 1;
        }
    }
    assert_eq!(documented, 151);
    for opcode in [0x02u8, 0x03, 0x89, 0x9e, 0x9c, 0x80, 0x04, 0xff, 0x1a] {
        assert_eq!(decode(opcode).op, Op::Nop);
    }
}

#[test]
fn operand_lengths() {
    assert_eq!(operand_bytes(Mode::Implied), 0);
    assert_eq!(operand_bytes(Mode::Accumulator), 0);
    assert_eq!(operand_bytes(Mode::Immediate), 1);
    assert_eq!(operand_bytes(Mode::ZeroPageY), 1);
    assert_eq!(operand_bytes(Mode::IndirectX), 1);
    assert_eq!(operand_bytes(Mode::Relative), 1);
    assert_eq!(operand_bytes(Mode::Absolute), 2);
    assert_eq!(operand_bytes(Mode::AbsoluteY), 2);
    assert_eq!(operand_bytes(Mode::Indirect), 2);
}

#[test]
fn lda_sets_zero_and_sign() {
    let (mut cpu, mut mem) = machine(&[0xa9, 0x00, 0xa9, 0x80, 0xa9, 0x01]);
    assert_eq!(cpu.execute(&mut mem), 2);
    assert_eq!(cpu.a, 0x00);
    assert_eq!(cpu.p, 0x26);
    cpu.execute(&mut mem);
    assert_eq!(cpu.a, 0x80);
    assert_eq!(cpu.p, 0xa4);
    cpu.execute(&mut mem);
    assert_eq!(cpu.a, 0x01);
    assert_eq!(cpu.p, 0x24);
}

#[test]
fn sta_and_lda_through_zero_page_x() {
    // LDX #$05; LDA #$7e; STA $fe,X; LDA #$00; LDA $fe,X
    let (mut cpu, mut mem) = machine(&[0xa2, 0x05, 0xa9, 0x7e, 0x95, 0xfe, 0xa9, 0x00, 0xb5, 0xfe]);
    cpu.execute(&mut mem);
    cpu.execute(&mut mem);
    assert_eq!(cpu.execute(&mut mem), 4);
    assert_eq!(mem.ram[0x03], 0x7e);
    assert_eq!(mem.ram[0x103], 0x00);
    cpu.execute(&mut mem);
    assert_eq!(cpu.execute(&mut mem), 4);
    assert_eq!(cpu.a, 0x7e);
}

#[test]
fn absolute_x_read_pays_for_page_crossing() {
    // LDX #$01; LDA $02ff,X; LDA $0200,X
    let (mut cpu, mut mem) = machine(&[0xa2, 0x01, 0xbd, 0xff, 0x02, 0xbd, 0x00, 0x02]);
    mem.store(0x0300, 0x42);
    mem.store(0x0201, 0x43);
    cpu.execute(&mut mem);
    assert_eq!(cpu.execute(&mut mem), 5);
    assert_eq!(cpu.a, 0x42);
    assert_eq!(cpu.execute(&mut mem), 4);
    assert_eq!(cpu.a, 0x43);
}

#[test]
fn absolute_x_write_never_pays() {
    // LDX #$01; STA $02ff,X
    let (mut cpu, mut mem) = machine(&[0xa2, 0x01, 0x9d, 0xff, 0x02]);
    cpu.a = 0x99;
    cpu.execute(&mut mem);
    assert_eq!(cpu.execute(&mut mem), 5);
    assert_eq!(mem.load(0x0300), 0x99);
}

#[test]
fn indirect_x_wraps_in_zero_page() {
    // LDX #$01; LDA ($fe,X)
    let (mut cpu, mut mem) = machine(&[0xa2, 0x01, 0xa1, 0xfe]);
    mem.store(0x00ff, 0x10);
    mem.store(0x0000, 0x02);
    mem.store(0x0210, 0x5c);
    cpu.execute(&mut mem);
    assert_eq!(cpu.execute(&mut mem), 6);
    assert_eq!(cpu.a, 0x5c);
}

#[test]
fn indirect_y_adds_after_the_pointer() {
    // LDY #$10; LDA ($40),Y; LDA ($42),Y
    let (mut cpu, mut mem) = machine(&[0xa0, 0x10, 0xb1, 0x40, 0xb1, 0x42]);
    mem.store(0x0040, 0x00);
    mem.store(0x0041, 0x03);
    mem.store(0x0310, 0x21);
    mem.store(0x0042, 0xf8);
    mem.store(0x0043, 0x03);
    mem.store(0x0408, 0x22);
    cpu.execute(&mut mem);
    assert_eq!(cpu.execute(&mut mem), 5);
    assert_eq!(cpu.a, 0x21);
    assert_eq!(cpu.execute(&mut mem), 6);
    assert_eq!(cpu.a, 0x22);
}

#[test]
fn jmp_indirect_does_not_cross_the_page() {
    // JMP ($02ff)
    let (mut cpu, mut mem) = machine(&[0x6c, 0xff, 0x02]);
    mem.store(0x02ff, 0x00);
    mem.store(0x0200, 0x90);
    mem.store(0x0300, 0xa0);
    assert_eq!(cpu.execute(&mut mem), 5);
    assert_eq!(cpu.pc, 0x9000);
}

#[test]
fn branch_cycles() {
    // BNE +2 (taken, same page); then at $8004: BEQ +0 (not taken)
    let (mut cpu, mut mem) = machine(&[0xd0, 0x02, 0xea, 0xea, 0xf0, 0x00, 0xd0, 0xf8]);
    assert_eq!(cpu.execute(&mut mem), 3);
    assert_eq!(cpu.pc, 0x8004);
    assert_eq!(cpu.execute(&mut mem), 2);
    assert_eq!(cpu.pc, 0x8006);
    // BNE -8 from $8008 goes to $8000: same page
    assert_eq!(cpu.execute(&mut mem), 3);
    assert_eq!(cpu.pc, 0x8000);
}

#[test]
fn branch_across_page_takes_four_cycles() {
    // at $8000: BNE -3 goes to $7fff
    let (mut cpu, mut mem) = machine(&[0xd0, 0xfd]);
    assert_eq!(cpu.execute(&mut mem), 4);
    assert_eq!(cpu.pc, 0x7fff);
}

#[test]
fn jsr_and_rts() {
    // JSR $8005; NOP; NOP; RTS
    let (mut cpu, mut mem) = machine(&[0x20, 0x05, 0x80, 0xea, 0xea, 0x60]);
    assert_eq!(cpu.execute(&mut mem), 6);
    assert_eq!(cpu.pc, 0x8005);
    assert_eq!(cpu.sp, 0xfb);
    assert_eq!(mem.ram[0x1fd], 0x80);
    assert_eq!(mem.ram[0x1fc], 0x02);
    assert_eq!(cpu.execute(&mut mem), 6);
    assert_eq!(cpu.pc, 0x8003);
    assert_eq!(cpu.sp, 0xfd);
}

#[test]
fn stack_instructions() {
    // LDA #$80; PHA; PHP; LDA #$00; PLA; PLP
    let (mut cpu, mut mem) = machine(&[0xa9, 0x80, 0x48, 0x08, 0xa9, 0x00, 0x68, 0x28]);
    cpu.execute(&mut mem);
    assert_eq!(cpu.execute(&mut mem), 3);
    assert_eq!(mem.ram[0x1fd], 0x80);
    assert_eq!(cpu.execute(&mut mem), 3);
    assert_eq!(mem.ram[0x1fc], 0xa4 | 0x30);
    cpu.execute(&mut mem);
    assert_eq!(cpu.p, 0x26);
    assert_eq!(cpu.execute(&mut mem), 4);
    assert_eq!(cpu.a, 0xb4);
    assert_eq!(cpu.p, 0xa4);
    assert_eq!(cpu.execute(&mut mem), 4);
    assert_eq!(cpu.a, 0xb4);
    assert_eq!(cpu.p, 0x20 | 0x80);
    assert_eq!(cpu.sp, 0xfd);
}

#[test]
fn stack_pointer_wraps() {
    let (mut cpu, mut mem) = machine(&[0x48, 0x48, 0x68]);
    cpu.sp = 0x00;
    cpu.a = 0x33;
    cpu.execute(&mut mem);
    assert_eq!(cpu.sp, 0xff);
    assert_eq!(mem.ram[0x100], 0x33);
    cpu.execute(&mut mem);
    assert_eq!(cpu.sp, 0xfe);
    assert_eq!(mem.ram[0x1ff], 0x33);
}

#[test]
fn brk_and_rti() {
    let mut cart = Cartridge::new(Mirroring::Horizontal);
    cart.prg_rom[0] = 0x00; // BRK
    cart.prg_rom[0x100] = 0x40; // RTI at $8100
    cart.prg_rom[0x7ffc] = 0x00;
    cart.prg_rom[0x7ffd] = 0x80;
    cart.prg_rom[0x7ffe] = 0x00;
    cart.prg_rom[0x7fff] = 0x81;
    let mut mem = Memory::new(cart);
    let mut cpu = Cpu::new();
    cpu.reset(&mut mem);
    cpu.p = 0x21;
    assert_eq!(cpu.execute(&mut mem), 7);
    assert_eq!(cpu.pc, 0x8100);
    assert_eq!(cpu.p, 0x25);
    assert_eq!(mem.ram[0x1fd], 0x80);
    assert_eq!(mem.ram[0x1fc], 0x02);
    assert_eq!(mem.ram[0x1fb], 0x31);
    assert_eq!(cpu.execute(&mut mem), 6);
    assert_eq!(cpu.pc, 0x8002);
    assert_eq!(cpu.p, 0x21);
    assert_eq!(cpu.sp, 0xfd);
}

#[test]
fn read_modify_write() {
    // INC $10; DEC $11; ASL $12; LSR A; ROR $13
    let (mut cpu, mut mem) = machine(&[0xe6, 0x10, 0xc6, 0x11, 0x06, 0x12, 0x4a, 0x66, 0x13]);
    mem.store(0x10, 0xff);
    mem.store(0x11, 0x00);
    mem.store(0x12, 0xc0);
    mem.store(0x13, 0x01);
    cpu.a = 0x03;
    assert_eq!(cpu.execute(&mut mem), 5);
    assert_eq!(mem.ram[0x10], 0x00);
    assert_eq!(cpu.p & 0x02, 0x02);
    cpu.execute(&mut mem);
    assert_eq!(mem.ram[0x11], 0xff);
    assert_eq!(cpu.p & 0x80, 0x80);
    cpu.execute(&mut mem);
    assert_eq!(mem.ram[0x12], 0x80);
    assert_eq!(cpu.p & 0x01, 0x01);
    assert_eq!(cpu.execute(&mut mem), 2);
    assert_eq!(cpu.a, 0x01);
    assert_eq!(cpu.p & 0x01, 0x01);
    cpu.execute(&mut mem);
    assert_eq!(mem.ram[0x13], 0x80);
    assert_eq!(cpu.p & 0x01, 0x01);
}

#[test]
fn bit_copies_bits_six_and_seven() {
    // BIT $10
    let (mut cpu, mut mem) = machine(&[0x24, 0x10, 0x24, 0x11]);
    mem.store(0x10, 0xc0);
    mem.store(0x11, 0x01);
    cpu.a = 0x01;
    cpu.execute(&mut mem);
    assert_eq!(cpu.p, 0x24 | 0xc0 | 0x02);
    cpu.execute(&mut mem);
    assert_eq!(cpu.p, 0x24);
}

#[test]
fn transfers_and_index_steps() {
    // TAX; INX; TXA; TAY; DEY; DEY; TYA; TXS; TSX; DEX
    let (mut cpu, mut mem) = machine(&[0xaa, 0xe8, 0x8a, 0xa8, 0x88, 0x88, 0x98, 0x9a, 0xba, 0xca]);
    cpu.a = 0xff;
    cpu.execute(&mut mem);
    assert_eq!(cpu.x, 0xff);
    cpu.execute(&mut mem);
    assert_eq!(cpu.x, 0x00);
    assert_eq!(cpu.p & 0x02, 0x02);
    cpu.execute(&mut mem);
    assert_eq!(cpu.a, 0x00);
    cpu.execute(&mut mem);
    cpu.execute(&mut mem);
    assert_eq!(cpu.y, 0xff);
    cpu.execute(&mut mem);
    cpu.execute(&mut mem);
    assert_eq!(cpu.a, 0xfe);
    let status = cpu.p;
    cpu.execute(&mut mem);
    assert_eq!(cpu.sp, 0x00);
    assert_eq!(cpu.p, status);
    cpu.execute(&mut mem);
    assert_eq!(cpu.x, 0x00);
    cpu.execute(&mut mem);
    assert_eq!(cpu.x, 0xff);
}

#[test]
fn flag_instructions() {
    // SEC; SED; SEI; CLC; CLD; CLI; CLV
    let (mut cpu, mut mem) = machine(&[0x38, 0xf8, 0x78, 0x18, 0xd8, 0x58, 0xb8]);
    cpu.p = 0x60;
    cpu.execute(&mut mem);
    cpu.execute(&mut mem);
    cpu.execute(&mut mem);
    assert_eq!(cpu.p, 0x6d);
    cpu.execute(&mut mem);
    cpu.execute(&mut mem);
    cpu.execute(&mut mem);
    cpu.execute(&mut mem);
    assert_eq!(cpu.p, 0x20);
}

#[test]
fn decimal_flag_is_inert() {
    // SED; ADC #$09
    let (mut cpu, mut mem) = machine(&[0xf8, 0x69, 0x09]);
    cpu.a = 0x09;
    cpu.execute(&mut mem);
    cpu.execute(&mut mem);
    assert_eq!(cpu.a, 0x12);
}

#[test]
fn logic_instructions() {
    // AND #$0f; ORA #$80; EOR #$ff
    let (mut cpu, mut mem) = machine(&[0x29, 0x0f, 0x09, 0x80, 0x49, 0xff]);
    cpu.a = 0x3c;
    cpu.execute(&mut mem);
    assert_eq!(cpu.a, 0x0c);
    cpu.execute(&mut mem);
    assert_eq!(cpu.a, 0x8c);
    cpu.execute(&mut mem);
    assert_eq!(cpu.a, 0x73);
}

#[test]
fn compare_instructions() {
    // CMP #$10; CPX #$20; CPY #$05
    let (mut cpu, mut mem) = machine(&[0xc9, 0x10, 0xe0, 0x20, 0xc0, 0x05]);
    cpu.a = 0x10;
    cpu.x = 0x10;
    cpu.y = 0x10;
    cpu.execute(&mut mem);
    assert_eq!(cpu.p, 0x24 | 0x03);
    cpu.execute(&mut mem);
    assert_eq!(cpu.p, 0x24 | 0x80);
    cpu.execute(&mut mem);
    assert_eq!(cpu.p, 0x24 | 0x01);
    assert_eq!(cpu.a, 0x10);
}

#[test]
fn undocumented_opcode_is_a_nop() {
    let (mut cpu, mut mem) = machine(&[0x02, 0xff]);
    let before = cpu;
    assert_eq!(cpu.execute(&mut mem), 2);
    assert_eq!(cpu.pc, 0x8001);
    assert_eq!(cpu.a, before.a);
    assert_eq!(cpu.p, before.p);
    assert_eq!(cpu.sp, before.sp);
}

#[test]
fn nmi_is_served_after_the_instruction() {
    let mut cart = Cartridge::new(Mirroring::Horizontal);
    // NOP; NOP; NOP
    cart.prg_rom[0] = 0xea;
    cart.prg_rom[1] = 0xea;
    cart.prg_rom[2] = 0xea;
    cart.prg_rom[0x7ffa] = 0x00;
    cart.prg_rom[0x7ffb] = 0x90;
    cart.prg_rom[0x7ffc] = 0x00;
    cart.prg_rom[0x7ffd] = 0x80;
    let mut mem = Memory::new(cart);
    let mut cpu = Cpu::new();
    cpu.reset(&mut mem);
    mem.set_interrupt(Interrupt::NMI);
    // The first cycle of the NOP is the one before its last: the NMI is seen.
    cpu.cycle(&mut mem);
    assert!(cpu.nmi_pending);
    assert!(!mem.nmi);
    cpu.cycle(&mut mem);
    assert_eq!(cpu.pc, 0x8001);
    cpu.cycle(&mut mem);
    assert_eq!(cpu.pc, 0x9000);
    assert_eq!(cpu.cycles_remaining, 6);
    assert!(!cpu.nmi_pending);
    assert_eq!(cpu.p, 0x24);
    assert_eq!(mem.ram[0x1fd], 0x80);
    assert_eq!(mem.ram[0x1fc], 0x01);
    assert_eq!(mem.ram[0x1fb], 0x24);
    assert_eq!(cpu.sp, 0xfa);
}

#[test]
fn nmi_on_last_cycle_waits_one_more_instruction() {
    let mut cart = Cartridge::new(Mirroring::Horizontal);
    cart.prg_rom[0] = 0xea;
    cart.prg_rom[1] = 0xea;
    cart.prg_rom[0x7ffa] = 0x00;
    cart.prg_rom[0x7ffb] = 0x90;
    cart.prg_rom[0x7ffc] = 0x00;
    cart.prg_rom[0x7ffd] = 0x80;
    let mut mem = Memory::new(cart);
    let mut cpu = Cpu::new();
    cpu.reset(&mut mem);
    cpu.cycle(&mut mem);
    mem.set_interrupt(Interrupt::NMI);
    cpu.cycle(&mut mem);
    assert!(!cpu.nmi_pending);
    cpu.cycle(&mut mem);
    assert_eq!(cpu.pc, 0x8002);
    assert!(cpu.nmi_pending);
    cpu.cycle(&mut mem);
    cpu.cycle(&mut mem);
    assert_eq!(cpu.pc, 0x9000);
}

#[test]
fn irq_waits_for_the_interrupt_flag() {
    let mut cart = Cartridge::new(Mirroring::Horizontal);
    // CLI; NOP; NOP
    cart.prg_rom[0] = 0x58;
    cart.prg_rom[1] = 0xea;
    cart.prg_rom[2] = 0xea;
    cart.prg_rom[0x7ffc] = 0x00;
    cart.prg_rom[0x7ffd] = 0x80;
    cart.prg_rom[0x7ffe] = 0x00;
    cart.prg_rom[0x7fff] = 0xa0;
    let mut mem = Memory::new(cart);
    let mut cpu = Cpu::new();
    cpu.reset(&mut mem);
    mem.set_interrupt(Interrupt::IRQ);
    cpu.cycle(&mut mem);
    assert!(cpu.irq_pending);
    assert_eq!(cpu.p & 0x04, 0);
    cpu.cycle(&mut mem);
    cpu.cycle(&mut mem);
    assert_eq!(cpu.pc, 0xa000);
    assert_eq!(cpu.p & 0x04, 0x04);
    assert_eq!(mem.ram[0x1fb], 0x20);
    assert!(mem.irq);
}

#[test]
fn irq_is_masked_by_the_interrupt_flag() {
    let (mut cpu, mut mem) = machine(&[0xea, 0xea, 0xea]);
    mem.set_interrupt(Interrupt::IRQ);
    for _ in 0..6 {
        cpu.cycle(&mut mem);
    }
    assert_eq!(cpu.pc, 0x8003);
    assert!(cpu.irq_pending);
}

#[test]
fn oamdma_timing() {
    // LDA #$02; STA $4014; NOP
    let mut cart = Cartridge::new(Mirroring::Horizontal);
    let program = [0xa9u8, 0x02, 0x8d, 0x14, 0x40, 0xea];
    for (i, byte) in program.iter().enumerate() {
        cart.prg_rom[i] = *byte;
    }
    cart.prg_rom[0x7ffc] = 0x00;
    cart.prg_rom[0x7ffd] = 0x80;
    let mut nes = Nes::new(cart);
    nes.reset();
    for i in 0..256u16 {
        nes.mem.store(0x0200 + i, (i as u8) ^ 0x5a);
    }
    nes.cpu.cycle_count = 94;
    for _ in 0..6 {
        nes.cycle(0);
    }
    assert_eq!(nes.cpu.cycle_count, 100);
    assert_eq!(nes.cpu.pc, 0x8005);
    assert!(nes.mem.dma);
    let mut stalled = 0;
    loop {
        nes.cycle(0);
        if nes.cpu.pc != 0x8005 {
            break;
        }
        stalled += 1;
        assert!(!nes.mem.dma);
    }
    assert_eq!(stalled, 513);
    assert_eq!(nes.cpu.pc, 0x8006);
    assert!(!nes.mem.dma);
    for i in 0..256usize {
        assert_eq!(nes.ppu.oam.mem[i], nes.mem.ram[0x200 + i]);
        assert_eq!(nes.ppu.oam.mem[i], (i as u8) ^ 0x5a);
    }
}

#[test]
fn oamdma_on_odd_cycle_takes_one_more() {
    let mut cart = Cartridge::new(Mirroring::Horizontal);
    let program = [0xa9u8, 0x03, 0x8d, 0x14, 0x40, 0xea];
    for (i, byte) in program.iter().enumerate() {
        cart.prg_rom[i] = *byte;
    }
    cart.prg_rom[0x7ffc] = 0x00;
    cart.prg_rom[0x7ffd] = 0x80;
    let mut nes = Nes::new(cart);
    nes.reset();
    nes.mem.store(0x0300, 0x77);
    nes.mem.store(0x03ff, 0x78);
    nes.cpu.cycle_count = 95;
    for _ in 0..6 {
        nes.cycle(0);
    }
    assert_eq!(nes.cpu.cycle_count, 101);
    let mut stalled = 0;
    loop {
        nes.cycle(0);
        if nes.cpu.pc != 0x8005 {
            break;
        }
        stalled += 1;
    }
    assert_eq!(stalled, 514);
    assert_eq!(nes.ppu.oam.mem[0], 0x77);
    assert_eq!(nes.ppu.oam.mem[255], 0x78);
}

#[test]
fn cpu_and_ppu_run_one_to_three() {
    let mut cart = Cartridge::new(Mirroring::Horizontal);
    cart.prg_rom[0] = 0x4c; // JMP $8000
    cart.prg_rom[1] = 0x00;
    cart.prg_rom[2] = 0x80;
    cart.prg_rom[0x7ffc] = 0x00;
    cart.prg_rom[0x7ffd] = 0x80;
    let mut nes = Nes::new(cart);
    nes.reset();
    for _ in 0..100 {
        nes.cycle(0);
    }
    assert_eq!(nes.cpu.cycle_count, 100);
    assert_eq!(nes.ppu.scanline * 341 + nes.ppu.scycle, 300);
}

#[test]
fn oamdma_starts_at_the_sprite_address() {
    // LDA #$02; STA $4014; NOP
    let mut cart = Cartridge::new(Mirroring::Horizontal);
    let program = [0xa9u8, 0x02, 0x8d, 0x14, 0x40, 0xea];
    for (i, byte) in program.iter().enumerate() {
        cart.prg_rom[i] = *byte;
    }
    cart.prg_rom[0x7ffc] = 0x00;
    cart.prg_rom[0x7ffd] = 0x80;
    let mut nes = Nes::new(cart);
    nes.reset();
    for i in 0..256u16 {
        nes.mem.store(0x0200 + i, i as u8);
    }
    nes.ppu.oam.address = 0xf0;
    for _ in 0..6 + 513 {
        nes.cycle(0);
    }
    assert_eq!(nes.cpu.dma_remaining, 0);
    assert_eq!(nes.ppu.oam.address, 0xf0);
    for i in 0..256usize {
        assert_eq!(nes.ppu.oam.mem[(0xf0 + i) % 256], i as u8);
    }
}

#[test]
fn oamdma_from_mirrored_ram() {
    // LDA #$1a; STA $4014: page $1a is page $02 of the RAM.
    let mut cart = Cartridge::new(Mirroring::Horizontal);
    let program = [0xa9u8, 0x1a, 0x8d, 0x14, 0x40, 0xea];
    for (i, byte) in program.iter().enumerate() {
        cart.prg_rom[i] = *byte;
    }
    cart.prg_rom[0x7ffc] = 0x00;
    cart.prg_rom[0x7ffd] = 0x80;
    let mut nes = Nes::new(cart);
    nes.reset();
    for i in 0..256u16 {
        nes.mem.store(0x0200 + i, !(i as u8));
    }
    for _ in 0..6 + 513 {
        nes.cycle(0);
    }
    for i in 0..256usize {
        assert_eq!(nes.ppu.oam.mem[i], !(i as u8));
    }
}

#[test]
fn controller_is_read_by_a_program() {
    // LDA #$01; STA $4016; LDA #$00; STA $4016; LDA $4016; LDA $4016
    let program = [
        0xa9u8, 0x01, 0x8d, 0x16, 0x40, 0xa9, 0x00, 0x8d, 0x16, 0x40, 0xad, 0x16, 0x40, 0xad,
        0x16, 0x40,
    ];
    let mut cart = Cartridge::new(Mirroring::Horizontal);
    for (i, byte) in program.iter().enumerate() {
        cart.prg_rom[i] = *byte;
    }
    cart.prg_rom[0x7ffc] = 0x00;
    cart.prg_rom[0x7ffd] = 0x80;
    let mut nes = Nes::new(cart);
    nes.reset();
    // Button B is held down: the first read shows A, the second B.
    for _ in 0..2 + 4 + 2 + 4 + 4 {
        nes.cycle(0x02);
    }
    assert_eq!(nes.cpu.a, 0);
    for _ in 0..4 {
        nes.cycle(0x02);
    }
    assert_eq!(nes.cpu.a, 1);
}

#[test]
fn vblank_nmi_reaches_the_program() {
    // $8000: LDA #$80; STA $2000; JMP $8005
    // $9000: INC $10; RTI
    let mut cart = Cartridge::new(Mirroring::Horizontal);
    let program = [0xa9u8, 0x80, 0x8d, 0x00, 0x20, 0x4c, 0x05, 0x80];
    for (i, byte) in program.iter().enumerate() {
        cart.prg_rom[i] = *byte;
    }
    cart.prg_rom[0x1000] = 0xe6;
    cart.prg_rom[0x1001] = 0x10;
    cart.prg_rom[0x1002] = 0x40;
    cart.prg_rom[0x7ffa] = 0x00;
    cart.prg_rom[0x7ffb] = 0x90;
    cart.prg_rom[0x7ffc] = 0x00;
    cart.prg_rom[0x7ffd] = 0x80;
    let mut nes = Nes::new(cart);
    nes.reset();
    while nes.ppu.frames < 3 {
        nes.cycle(0);
        assert!(nes.is_valid());
    }
    assert_eq!(nes.mem.ram[0x10], 3);
    assert_eq!(nes.cpu.sp, 0xfd);
    assert!(nes.cpu.pc >= 0x8005 && nes.cpu.pc < 0x8008);
    // Three frames without rendering are 3 * 89342 ticks: a third as many cycles.
    assert_eq!(nes.cpu.cycle_count, 3 * 89342 / 3);
}

#[test]
fn program_waits_for_vblank_by_polling() {
    // $8000: BIT $2002; BPL $8000; LDA #$01; STA $11; JMP $8009
    let mut cart = Cartridge::new(Mirroring::Horizontal);
    let program = [0x2cu8, 0x02, 0x20, 0x10, 0xfb, 0xa9, 0x01, 0x85, 0x11, 0x4c, 0x09, 0x80];
    for (i, byte) in program.iter().enumerate() {
        cart.prg_rom[i] = *byte;
    }
    cart.prg_rom[0x7ffc] = 0x00;
    cart.prg_rom[0x7ffd] = 0x80;
    let mut nes = Nes::new(cart);
    nes.reset();
    while nes.ppu.scanline < 241 {
        nes.cycle(0);
    }
    assert_eq!(nes.mem.ram[0x11], 0);
    for _ in 0..40 {
        nes.cycle(0);
    }
    assert_eq!(nes.mem.ram[0x11], 1);
    // The read that saw the flag also cleared it.
    assert_eq!(nes.ppu.status & 0x80, 0);
}
