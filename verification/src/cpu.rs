use vstd::prelude::*;
use crate::alu::{
    add_with_carry, compare, comparison, difference_with_borrow, lemma_flag_bits, rotate_left,
    rotate_right, rotated_left, rotated_right, set_flag, set_zero_sign, shift_left, shift_right,
    shifted_left, shifted_right, signed, subtract_with_borrow, sum_with_carry, with_flag,
    with_zero_sign, Shifted, Sum, FLAG_BREAK, FLAG_CARRY, FLAG_DECIMAL, FLAG_INTERRUPT,
    FLAG_OVERFLOW, FLAG_SIGN, FLAG_UNUSED, FLAG_ZERO,
};
use crate::bits::flag_set;
use crate::mapper::Mapper;
use crate::mem::{next_in_page, word, Memory};
use crate::opcode::{
    decode, decoded, entry, lemma_adc_immediate_entry, operand_length, Instruction, Mode, Op,
};

verus! {

/// The page that holds the stack.
pub const STACK_PAGE: u16 = 0x0100;

pub const NMI_VECTOR: u16 = 0xfffa;

pub const RESET_VECTOR: u16 = 0xfffc;

/// The vector of `IRQ` and of `BRK`.
pub const IRQ_VECTOR: u16 = 0xfffe;

/// The register through which a sprite DMA fills the PPU's sprite memory.
pub const OAM_DATA: u16 = 0x2004;

/// How many cycles the CPU takes to enter an interrupt.
pub const INTERRUPT_CYCLES: u8 = 7;

/// How many cycles a sprite DMA holds the CPU when it starts on an even cycle.
pub const DMA_CYCLES: u16 = 513;

/// The 6502.
#[derive(Clone, Copy, Debug, PartialEq, Eq, Structural)]
pub struct Cpu {
    pub a: u8,
    pub x: u8,
    pub y: u8,
    /// The stack pointer: the stack's next free byte is at `$0100` plus this.
    pub sp: u8,
    pub pc: u16,
    /// The status register.
    pub p: u8,
    /// How many cycles the instruction under way still takes.
    pub cycles_remaining: u8,
    /// How many cycles have passed.
    pub cycle_count: u64,
    /// An NMI was seen and waits for the instruction under way to end.
    pub nmi_pending: bool,
    /// The IRQ line was low when it was last looked at.
    pub irq_pending: bool,
    /// How many cycles the sprite DMA under way still holds the CPU.
    pub dma_remaining: u16,
    /// The page that the sprite DMA copies.
    pub dma_page: u8,
    /// The byte that the sprite DMA read on its last cycle.
    pub dma_byte: u8,
}

/// Where an instruction's operand lies.
#[derive(Clone, Copy, Debug, PartialEq, Eq, Structural)]
pub struct Target {
    pub address: u16,
    /// Indexing carried the address into another page.
    pub crossed: bool,
}

/// The CPU together with the bus that it drives.
#[derive(Debug)]
pub struct Machine<M: Mapper> {
    pub cpu: Cpu,
    pub bus: Memory<M>,
}

/// The CPU `cpu` on the bus `bus`.
pub open spec fn machine<M: Mapper>(cpu: Cpu, bus: Memory<M>) -> Machine<M> {
    Machine { cpu, bus }
}

/// Whether the operation is a conditional branch.
pub open spec fn is_branch(op: Op) -> bool {
    match op {
        Op::Bcc | Op::Bcs | Op::Beq | Op::Bne | Op::Bmi | Op::Bpl | Op::Bvc | Op::Bvs => true,
        _ => false,
    }
}

/// The copy of the status that `BRK` and `PHP` push.
pub open spec fn status_pushed(status: u8) -> u8 {
    status | FLAG_BREAK | FLAG_UNUSED
}

/// The copy of the status that an interrupt pushes.
pub open spec fn status_interrupted(status: u8) -> u8 {
    (status & !FLAG_BREAK) | FLAG_UNUSED
}

/// The status that `PLP` and `RTI` make of the byte they pull.
pub open spec fn status_pulled(byte: u8) -> u8 {
    (byte & !FLAG_BREAK) | FLAG_UNUSED
}

impl Cpu {
    /// Whether the carry flag is set.
    pub open spec fn carry(self) -> bool {
        flag_set(self.p, FLAG_CARRY)
    }

    /// The CPU is as far into what it has under way as `other` is: the
    /// cycles that remain, the cycles counted, the interrupts pending and the
    /// state of the sprite DMA are the same.
    pub open spec fn keeps_timing_of(self, other: Cpu) -> bool {
        &&& self.cycles_remaining == other.cycles_remaining
        &&& self.cycle_count == other.cycle_count
        &&& self.nmi_pending == other.nmi_pending
        &&& self.irq_pending == other.irq_pending
        &&& self.dma_remaining == other.dma_remaining
        &&& self.dma_page == other.dma_page
        &&& self.dma_byte == other.dma_byte
    }

    /// The status after an addition or a subtraction.
    pub open spec fn status_of_sum(self, sum: Sum) -> u8 {
        with_zero_sign(
            with_flag(with_flag(self.p, FLAG_CARRY, sum.carry), FLAG_OVERFLOW, sum.overflow),
            sum.value,
        )
    }

    /// The status after a comparison.
    pub open spec fn status_of_comparison(self, sum: Sum) -> u8 {
        with_zero_sign(with_flag(self.p, FLAG_CARRY, sum.carry), sum.value)
    }

    /// The status after `BIT`: zero where the accumulator and the byte have
    /// no bit in common, and the byte's bits 6 and 7 as overflow and sign.
    pub open spec fn status_of_bit(self, value: u8) -> u8 {
        with_flag(
            with_flag(
                with_flag(self.p, FLAG_ZERO, self.a & value == 0),
                FLAG_OVERFLOW,
                flag_set(value, FLAG_OVERFLOW),
            ),
            FLAG_SIGN,
            value >= 128,
        )
    }

    /// The CPU after an instruction that reads the operand `value` into its
    /// registers or its flags.
    pub open spec fn after_read(self, op: Op, value: u8) -> Cpu {
        match op {
            Op::Lda => Cpu { a: value, p: with_zero_sign(self.p, value), ..self },
            Op::Ldx => Cpu { x: value, p: with_zero_sign(self.p, value), ..self },
            Op::Ldy => Cpu { y: value, p: with_zero_sign(self.p, value), ..self },
            Op::And => Cpu { a: self.a & value, p: with_zero_sign(self.p, self.a & value), ..self },
            Op::Ora => Cpu { a: self.a | value, p: with_zero_sign(self.p, self.a | value), ..self },
            Op::Eor => Cpu { a: self.a ^ value, p: with_zero_sign(self.p, self.a ^ value), ..self },
            Op::Adc => {
                let sum = sum_with_carry(self.a, value, self.carry());
                Cpu { a: sum.value, p: self.status_of_sum(sum), ..self }
            },
            Op::Sbc => {
                let sum = difference_with_borrow(self.a, value, self.carry());
                Cpu { a: sum.value, p: self.status_of_sum(sum), ..self }
            },
            Op::Compare => Cpu { p: self.status_of_comparison(comparison(self.a, value)), ..self },
            Op::CompareX => Cpu { p: self.status_of_comparison(comparison(self.x, value)), ..self },
            Op::CompareY => Cpu { p: self.status_of_comparison(comparison(self.y, value)), ..self },
            Op::Bit => Cpu { p: self.status_of_bit(value), ..self },
            _ => self,
        }
    }

    /// What a shift, a rotation, an increment or a decrement makes of `value`.
    pub open spec fn shifted(self, op: Op, value: u8) -> Shifted {
        match op {
            Op::Asl => shifted_left(value),
            Op::Lsr => shifted_right(value),
            Op::Rol => rotated_left(value, self.carry()),
            Op::Ror => rotated_right(value, self.carry()),
            Op::Inc => Shifted { value: value.wrapping_add(1), carry: self.carry() },
            Op::Dec => Shifted { value: value.wrapping_sub(1), carry: self.carry() },
            _ => Shifted { value, carry: self.carry() },
        }
    }

    /// The CPU after such an instruction, but for the place of its result.
    pub open spec fn after_modify(self, op: Op, value: u8) -> Cpu {
        let shifted = self.shifted(op, value);
        Cpu {
            p: with_zero_sign(with_flag(self.p, FLAG_CARRY, shifted.carry), shifted.value),
            ..self
        }
    }

    /// The CPU after an instruction that works on the registers alone.
    pub open spec fn after_register(self, op: Op) -> Cpu {
        match op {
            Op::Tax => Cpu { x: self.a, p: with_zero_sign(self.p, self.a), ..self },
            Op::Tay => Cpu { y: self.a, p: with_zero_sign(self.p, self.a), ..self },
            Op::Txa => Cpu { a: self.x, p: with_zero_sign(self.p, self.x), ..self },
            Op::Tya => Cpu { a: self.y, p: with_zero_sign(self.p, self.y), ..self },
            Op::Tsx => Cpu { x: self.sp, p: with_zero_sign(self.p, self.sp), ..self },
            Op::Txs => Cpu { sp: self.x, ..self },
            Op::Inx => Cpu {
                x: self.x.wrapping_add(1),
                p: with_zero_sign(self.p, self.x.wrapping_add(1)),
                ..self
            },
            Op::Iny => Cpu {
                y: self.y.wrapping_add(1),
                p: with_zero_sign(self.p, self.y.wrapping_add(1)),
                ..self
            },
            Op::Dex => Cpu {
                x: self.x.wrapping_sub(1),
                p: with_zero_sign(self.p, self.x.wrapping_sub(1)),
                ..self
            },
            Op::Dey => Cpu {
                y: self.y.wrapping_sub(1),
                p: with_zero_sign(self.p, self.y.wrapping_sub(1)),
                ..self
            },
            Op::Clc => Cpu { p: with_flag(self.p, FLAG_CARRY, false), ..self },
            Op::Sec => Cpu { p: with_flag(self.p, FLAG_CARRY, true), ..self },
            Op::Cli => Cpu { p: with_flag(self.p, FLAG_INTERRUPT, false), ..self },
            Op::Sei => Cpu { p: with_flag(self.p, FLAG_INTERRUPT, true), ..self },
            Op::Clv => Cpu { p: with_flag(self.p, FLAG_OVERFLOW, false), ..self },
            Op::Cld => Cpu { p: with_flag(self.p, FLAG_DECIMAL, false), ..self },
            Op::Sed => Cpu { p: with_flag(self.p, FLAG_DECIMAL, true), ..self },
            _ => self,
        }
    }

    /// Whether a branch instruction branches.
    pub open spec fn branches(self, op: Op) -> bool {
        match op {
            Op::Bcc => !flag_set(self.p, FLAG_CARRY),
            Op::Bcs => flag_set(self.p, FLAG_CARRY),
            Op::Bne => !flag_set(self.p, FLAG_ZERO),
            Op::Beq => flag_set(self.p, FLAG_ZERO),
            Op::Bpl => !flag_set(self.p, FLAG_SIGN),
            Op::Bmi => flag_set(self.p, FLAG_SIGN),
            Op::Bvc => !flag_set(self.p, FLAG_OVERFLOW),
            Op::Bvs => flag_set(self.p, FLAG_OVERFLOW),
            _ => false,
        }
    }

    /// The register that a store instruction stores.
    pub open spec fn stored_register(self, op: Op) -> u8 {
        match op {
            Op::Stx => self.x,
            Op::Sty => self.y,
            _ => self.a,
        }
    }
}

impl<M: Mapper> Machine<M> {
    /// The byte that a read of `address` returns.
    pub open spec fn peek(self, address: u16) -> u8 {
        self.bus.loaded(address)
    }

    /// The machine after a read of `address`.
    pub open spec fn touched(self, address: u16) -> Self {
        Machine { bus: self.bus.after_load(address), ..self }
    }

    /// The word that two reads return, of `address` and of the address after it.
    pub open spec fn peek_word(self, address: u16) -> u16 {
        word(self.peek(address), self.touched(address).peek(address.wrapping_add(1)))
    }

    /// The machine after those two reads.
    pub open spec fn touched_word(self, address: u16) -> Self {
        self.touched(address).touched(address.wrapping_add(1))
    }

    /// The word that two reads return, of `address` and of the address
    /// after it in the same page.
    pub open spec fn peek_pointer(self, address: u16) -> u16 {
        word(self.peek(address), self.touched(address).peek(next_in_page(address)))
    }

    /// The machine after those two reads.
    pub open spec fn touched_pointer(self, address: u16) -> Self {
        self.touched(address).touched(next_in_page(address))
    }

    /// The machine after a write of `value` to `address`.
    pub open spec fn written(self, address: u16, value: u8) -> Self {
        Machine { bus: self.bus.after_store(address, value), ..self }
    }

    /// The machine with the program counter moved on by `bytes`.
    pub open spec fn advanced(self, bytes: int) -> Self {
        Machine { cpu: Cpu { pc: ((self.cpu.pc + bytes) % 0x1_0000) as u16, ..self.cpu }, ..self }
    }

    /// The machine with the program counter at `pc`.
    pub open spec fn jumped(self, pc: u16) -> Self {
        Machine { cpu: Cpu { pc, ..self.cpu }, ..self }
    }

    /// The machine after `value` was pushed on the stack.
    pub open spec fn pushed(self, value: u8) -> Self {
        Machine {
            cpu: Cpu { sp: self.cpu.sp.wrapping_sub(1), ..self.cpu },
            bus: self.bus.after_store((STACK_PAGE + self.cpu.sp) as u16, value),
        }
    }

    /// The byte on top of the stack.
    pub open spec fn top(self) -> u8 {
        self.bus.loaded((STACK_PAGE + self.cpu.sp.wrapping_add(1)) as u16)
    }

    /// The machine after the byte on top of the stack was pulled.
    pub open spec fn pulled(self) -> Self {
        Machine {
            cpu: Cpu { sp: self.cpu.sp.wrapping_add(1), ..self.cpu },
            bus: self.bus.after_load((STACK_PAGE + self.cpu.sp.wrapping_add(1)) as u16),
        }
    }

    /// Where the operand lies, for a program counter that stands behind the
    /// opcode.
    #[verifier::opaque]
    pub open spec fn target(self, mode: Mode) -> Target {
        let cpu = self.cpu;
        let pc = cpu.pc;
        match mode {
            Mode::Implied | Mode::Accumulator => Target { address: 0, crossed: false },
            Mode::Immediate | Mode::Relative => Target { address: pc, crossed: false },
            Mode::ZeroPage => Target { address: self.peek(pc) as u16, crossed: false },
            Mode::ZeroPageX => Target {
                address: self.peek(pc).wrapping_add(cpu.x) as u16,
                crossed: false,
            },
            Mode::ZeroPageY => Target {
                address: self.peek(pc).wrapping_add(cpu.y) as u16,
                crossed: false,
            },
            Mode::Absolute => Target { address: self.peek_word(pc), crossed: false },
            Mode::AbsoluteX => Target {
                address: self.peek_word(pc).wrapping_add(cpu.x as u16),
                crossed: self.peek_word(pc) % 256 + cpu.x >= 256,
            },
            Mode::AbsoluteY => Target {
                address: self.peek_word(pc).wrapping_add(cpu.y as u16),
                crossed: self.peek_word(pc) % 256 + cpu.y >= 256,
            },
            Mode::Indirect => Target {
                address: self.touched_word(pc).peek_pointer(self.peek_word(pc)),
                crossed: false,
            },
            Mode::IndirectX => Target {
                address: self.touched(pc).peek_pointer(self.peek(pc).wrapping_add(cpu.x) as u16),
                crossed: false,
            },
            Mode::IndirectY => {
                let base = self.touched(pc).peek_pointer(self.peek(pc) as u16);
                Target {
                    address: base.wrapping_add(cpu.y as u16),
                    crossed: base % 256 + cpu.y >= 256,
                }
            },
        }
    }

    /// The machine after it found the operand: the program counter stands
    /// behind the instruction, and the bus has seen the reads of the operand's
    /// bytes and of the pointer that they name. An immediate operand and a
    /// branch's distance are not read yet.
    #[verifier::opaque]
    pub open spec fn after_target(self, mode: Mode) -> Self {
        let pc = self.cpu.pc;
        match mode {
            Mode::Implied | Mode::Accumulator => self,
            Mode::Immediate | Mode::Relative => self.advanced(1),
            Mode::ZeroPage | Mode::ZeroPageX | Mode::ZeroPageY => self.touched(pc).advanced(1),
            Mode::Absolute | Mode::AbsoluteX | Mode::AbsoluteY => self.touched_word(pc).advanced(
                2,
            ),
            Mode::Indirect => self.touched_word(pc).touched_pointer(self.peek_word(pc)).advanced(2),
            Mode::IndirectX => self.touched(pc).touched_pointer(
                self.peek(pc).wrapping_add(self.cpu.x) as u16,
            ).advanced(1),
            Mode::IndirectY => self.touched(pc).touched_pointer(self.peek(pc) as u16).advanced(1),
        }
    }

    /// The machine after an instruction that reads its operand.
    pub open spec fn after_read_op(self, op: Op, target: Target) -> Self {
        Machine {
            cpu: self.cpu.after_read(op, self.peek(target.address)),
            bus: self.bus.after_load(target.address),
        }
    }

    /// The machine after a shift, a rotation, an increment or a decrement:
    /// of the accumulator, or of a byte that is read and written back.
    pub open spec fn after_modify_op(self, op: Op, mode: Mode, target: Target) -> Self {
        if mode == Mode::Accumulator {
            Machine {
                cpu: Cpu {
                    a: self.cpu.shifted(op, self.cpu.a).value,
                    ..self.cpu.after_modify(op, self.cpu.a)
                },
                ..self
            }
        } else {
            let value = self.peek(target.address);
            Machine {
                cpu: self.cpu.after_modify(op, value),
                bus: self.bus.after_load(target.address).after_store(
                    target.address,
                    self.cpu.shifted(op, value).value,
                ),
            }
        }
    }

    /// Where a branch goes: as far from the next instruction as the byte
    /// at `target` says, read as a signed number.
    pub open spec fn branch_target(self, target: Target) -> u16 {
        ((self.cpu.pc + signed(self.peek(target.address))) % 0x1_0000) as u16
    }

    /// The machine after a branch instruction.
    pub open spec fn after_branch(self, op: Op, target: Target) -> Self {
        if self.cpu.branches(op) {
            self.touched(target.address).jumped(self.branch_target(target))
        } else {
            self.touched(target.address)
        }
    }

    /// The machine after `JSR`: the address of the instruction's last byte
    /// is on the stack, high byte first.
    pub open spec fn after_jsr(self, target: Target) -> Self {
        let back = self.cpu.pc.wrapping_sub(1);
        self.pushed((back / 256) as u8).pushed((back % 256) as u8).jumped(target.address)
    }

    /// The machine after `RTS`: execution goes on behind the address pulled.
    pub open spec fn after_rts(self) -> Self {
        let low = self.top();
        let high = self.pulled().top();
        self.pulled().pulled().jumped(word(low, high).wrapping_add(1))
    }

    /// The machine after `RTI`: the status and the program counter are pulled.
    pub open spec fn after_rti(self) -> Self {
        let status = self.top();
        let low = self.pulled().top();
        let high = self.pulled().pulled().top();
        let back = self.pulled().pulled().pulled();
        Machine { cpu: Cpu { p: status_pulled(status), pc: word(low, high), ..back.cpu }, ..back }
    }

    /// The machine after it entered an interrupt: the program counter
    /// `back` and the status `status` are on the stack, interrupts are
    /// disabled, and execution goes on where the vector points.
    #[verifier::opaque]
    pub open spec fn entered(self, back: u16, status: u8, vector: u16) -> Self {
        let saved = self.pushed((back / 256) as u8).pushed((back % 256) as u8).pushed(status);
        Machine {
            cpu: Cpu {
                p: with_flag(saved.cpu.p, FLAG_INTERRUPT, true),
                pc: saved.peek_word(vector),
                ..saved.cpu
            },
            bus: saved.touched_word(vector).bus,
        }
    }

    /// The machine after `BRK`: an interrupt through the IRQ vector that
    /// returns behind the byte after the opcode.
    pub open spec fn after_brk(self) -> Self {
        self.entered(self.cpu.pc.wrapping_add(1), status_pushed(self.cpu.p), IRQ_VECTOR)
    }

    /// The machine after it entered the interrupt of `vector` between two
    /// instructions.
    pub open spec fn interrupted(self, vector: u16) -> Self {
        self.entered(self.cpu.pc, status_interrupted(self.cpu.p), vector)
    }

    /// The machine after `PLA`.
    pub open spec fn after_pla(self) -> Self {
        let value = self.top();
        let pulled = self.pulled();
        Machine {
            cpu: Cpu { a: value, p: with_zero_sign(pulled.cpu.p, value), ..pulled.cpu },
            ..pulled
        }
    }

    /// The machine after `PLP`.
    pub open spec fn after_plp(self) -> Self {
        let pulled = self.pulled();
        Machine { cpu: Cpu { p: status_pulled(self.top()), ..pulled.cpu }, ..pulled }
    }

    /// The machine after the operation of an instruction whose operand lies
    /// at `target`.
    #[verifier::opaque]
    pub open spec fn after_op(self, instruction: Instruction, target: Target) -> Self {
        let op = instruction.op;
        match op {
            Op::Lda | Op::Ldx | Op::Ldy | Op::And | Op::Ora | Op::Eor | Op::Adc | Op::Sbc
            | Op::Compare | Op::CompareX | Op::CompareY | Op::Bit => self.after_read_op(
                op,
                target,
            ),
            Op::Sta | Op::Stx | Op::Sty => self.written(
                target.address,
                self.cpu.stored_register(op),
            ),
            Op::Asl | Op::Lsr | Op::Rol | Op::Ror | Op::Inc | Op::Dec => self.after_modify_op(
                op,
                instruction.mode,
                target,
            ),
            Op::Bcc | Op::Bcs | Op::Beq | Op::Bne | Op::Bmi | Op::Bpl | Op::Bvc
            | Op::Bvs => self.after_branch(op, target),
            Op::Jmp => self.jumped(target.address),
            Op::Jsr => self.after_jsr(target),
            Op::Rts => self.after_rts(),
            Op::Rti => self.after_rti(),
            Op::Brk => self.after_brk(),
            Op::Pha => self.pushed(self.cpu.a),
            Op::Php => self.pushed(status_pushed(self.cpu.p)),
            Op::Pla => self.after_pla(),
            Op::Plp => self.after_plp(),
            _ => Machine { cpu: self.cpu.after_register(op), ..self },
        }
    }

    /// How many cycles the instruction takes beyond those of the table:
    /// one for a branch that is taken and one more where it leaves the page
    /// of the next instruction, and one for an indexed read across a page.
    #[verifier::opaque]
    pub open spec fn extra_cycles(self, instruction: Instruction, target: Target) -> int {
        if is_branch(instruction.op) {
            if !self.cpu.branches(instruction.op) {
                0
            } else if self.branch_target(target) / 256 != self.cpu.pc / 256 {
                2
            } else {
                1
            }
        } else if instruction.page_cycle && target.crossed {
            1
        } else {
            0
        }
    }

    /// The instruction at the program counter.
    pub open spec fn instruction(self) -> Instruction {
        decoded(self.peek(self.cpu.pc))
    }

    /// The machine with the opcode fetched.
    pub open spec fn fetched(self) -> Self {
        self.touched(self.cpu.pc).advanced(1)
    }

    /// The machine after the instruction at the program counter.
    #[verifier::opaque]
    pub open spec fn after_instruction(self) -> Self {
        let instruction = self.instruction();
        let fetched = self.fetched();
        fetched.after_target(instruction.mode).after_op(
            instruction,
            fetched.target(instruction.mode),
        )
    }

    /// How many cycles the instruction at the program counter takes.
    #[verifier::opaque]
    pub open spec fn instruction_cycles(self) -> int {
        let instruction = self.instruction();
        let fetched = self.fetched();
        instruction.cycles + fetched.after_target(instruction.mode).extra_cycles(
            instruction,
            fetched.target(instruction.mode),
        )
    }

    /// The machine after a reset: the program counter comes from the reset
    /// vector, the status is `$24` and the stack pointer `$FD`. Nothing is
    /// under way and nothing is pending.
    pub open spec fn after_reset(self) -> Self {
        Machine {
            cpu: Cpu {
                pc: self.peek_word(RESET_VECTOR),
                p: 0x24,
                sp: 0xfd,
                cycles_remaining: 0,
                nmi_pending: false,
                irq_pending: false,
                dma_remaining: 0,
                ..self.cpu
            },
            bus: self.touched_word(RESET_VECTOR).bus,
        }
    }
}

impl<M: Mapper> Machine<M> {
    /// The machine as a sprite DMA starts: the request is taken off the
    /// bus, and the CPU will be held for 513 cycles, or for 514 where the DMA
    /// starts on an odd cycle.
    pub open spec fn dma_started(self) -> Self {
        Machine {
            cpu: Cpu {
                dma_page: self.bus.oamdma,
                dma_remaining: (DMA_CYCLES + self.cpu.cycle_count % 2) as u16,
                ..self.cpu
            },
            bus: Memory { dma: false, ..self.bus },
        }
    }

    /// The byte of the page that the DMA cycle with `left` cycles to go
    /// works on. The last 512 cycles come in pairs, one pair for each byte.
    pub open spec fn dma_address(self, left: u16) -> u16 {
        (self.cpu.dma_page * 256 + (512 - left) / 2) as u16
    }

    /// The machine after one cycle of a sprite DMA. The cycles before the
    /// last 512 wait; of each pair after them, the first reads a byte of the
    /// page and the second writes it to the PPU's sprite memory.
    #[verifier::opaque]
    pub open spec fn after_dma_cycle(self) -> Self {
        let left = self.cpu.dma_remaining;
        let address = self.dma_address(left);
        let worked = if left > 512 {
            self
        } else if left % 2 == 0 {
            Machine {
                cpu: Cpu { dma_byte: self.peek(address), ..self.cpu },
                bus: self.bus.after_load(address),
            }
        } else {
            self.written(OAM_DATA, self.cpu.dma_byte)
        };
        Machine { cpu: Cpu { dma_remaining: (left - 1) as u16, ..worked.cpu }, ..worked }
    }

    /// The machine after the CPU looked at the interrupt lines: an NMI is
    /// taken off the bus and kept, and the IRQ line is noted as it stands.
    pub open spec fn sampled(self) -> Self {
        Machine {
            cpu: Cpu {
                nmi_pending: self.cpu.nmi_pending || self.bus.nmi,
                irq_pending: self.bus.irq,
                ..self.cpu
            },
            bus: Memory { nmi: false, ..self.bus },
        }
    }

    /// The machine with `cycles` cycles of what it has begun still to pass.
    pub open spec fn busy(self, cycles: int) -> Self {
        Machine { cpu: Cpu { cycles_remaining: cycles as u8, ..self.cpu }, ..self }
    }

    /// The machine after the first cycle of what the CPU begins when
    /// nothing is under way: a sprite DMA that was asked for, else an NMI
    /// that is pending, else an IRQ that is pending and not masked, else the
    /// next instruction.
    pub open spec fn started(self) -> Self {
        if self.bus.dma {
            self.dma_started().after_dma_cycle()
        } else if self.cpu.nmi_pending {
            (Machine { cpu: Cpu { nmi_pending: false, ..self.cpu }, ..self }).interrupted(
                NMI_VECTOR,
            ).busy(INTERRUPT_CYCLES - 1)
        } else if self.cpu.irq_pending && !flag_set(self.cpu.p, FLAG_INTERRUPT) {
            self.interrupted(IRQ_VECTOR).busy(INTERRUPT_CYCLES - 1)
        } else {
            self.after_instruction().busy(self.instruction_cycles() - 1)
        }
    }

    /// The machine after the work of one cycle.
    pub open spec fn worked(self) -> Self {
        if self.cpu.dma_remaining > 0 {
            self.after_dma_cycle()
        } else if self.cpu.cycles_remaining > 0 {
            self.busy(self.cpu.cycles_remaining - 1)
        } else {
            self.started()
        }
    }

    /// The machine one CPU cycle later. An instruction does all its work
    /// on its first cycle and lets the others pass. On the cycle before its
    /// last the CPU looks at the interrupt lines.
    #[verifier::opaque]
    pub open spec fn after_cycle(self) -> Self {
        let worked = self.worked();
        let looked = if worked.cpu.dma_remaining == 0 && worked.cpu.cycles_remaining == 1 {
            worked.sampled()
        } else {
            worked
        };
        Machine {
            cpu: Cpu { cycle_count: looked.cpu.cycle_count.wrapping_add(1), ..looked.cpu },
            ..looked
        }
    }
}

impl Cpu {
    /// A CPU with every register 0, the status and the stack pointer as a
    /// reset leaves them, and nothing under way.
    pub open spec fn initial() -> Cpu {
        Cpu {
            a: 0,
            x: 0,
            y: 0,
            sp: 0xfd,
            pc: 0,
            p: 0x24,
            cycles_remaining: 0,
            cycle_count: 0,
            nmi_pending: false,
            irq_pending: false,
            dma_remaining: 0,
            dma_page: 0,
            dma_byte: 0,
        }
    }

    /// A CPU with every register 0, the status and the stack pointer as a
    /// reset leaves them, and nothing under way.
    pub fn new() -> (cpu: Cpu)
        ensures
            cpu == Cpu::initial(),
    {
        Cpu {
            a: 0,
            x: 0,
            y: 0,
            sp: 0xfd,
            pc: 0,
            p: 0x24,
            cycles_remaining: 0,
            cycle_count: 0,
            nmi_pending: false,
            irq_pending: false,
            dma_remaining: 0,
            dma_page: 0,
            dma_byte: 0,
        }
    }

    /// Resets the CPU: the program counter is loaded from `$FFFC`, the
    /// status becomes `$24` and the stack pointer `$FD`.
    pub fn reset<M: Mapper>(&mut self, bus: &mut Memory<M>)
        ensures
            machine(*final(self), *final(bus)) == machine(*old(self), *old(bus)).after_reset(),
    {
        self.pc = bus.load_word(RESET_VECTOR);
        self.p = 0x24;
        self.sp = 0xfd;
        self.cycles_remaining = 0;
        self.nmi_pending = false;
        self.irq_pending = false;
        self.dma_remaining = 0;
    }

    /// Carries out an instruction that reads `value` into the registers or
    /// the flags.
    pub fn read_op(&mut self, op: Op, value: u8)
        ensures
            *final(self) == old(self).after_read(op, value),
    {
        let carry: bool = self.p & FLAG_CARRY != 0;
        match op {
            Op::Lda => {
                self.a = value;
                self.p = set_zero_sign(self.p, value);
            },
            Op::Ldx => {
                self.x = value;
                self.p = set_zero_sign(self.p, value);
            },
            Op::Ldy => {
                self.y = value;
                self.p = set_zero_sign(self.p, value);
            },
            Op::And => {
                self.a = self.a & value;
                self.p = set_zero_sign(self.p, self.a);
            },
            Op::Ora => {
                self.a = self.a | value;
                self.p = set_zero_sign(self.p, self.a);
            },
            Op::Eor => {
                self.a = self.a ^ value;
                self.p = set_zero_sign(self.p, self.a);
            },
            Op::Adc => {
                let sum: Sum = add_with_carry(self.a, value, carry);
                self.a = sum.value;
                self.set_sum(sum);
            },
            Op::Sbc => {
                let sum: Sum = subtract_with_borrow(self.a, value, carry);
                self.a = sum.value;
                self.set_sum(sum);
            },
            Op::Compare => {
                let sum: Sum = compare(self.a, value);
                self.p = set_zero_sign(set_flag(self.p, FLAG_CARRY, sum.carry), sum.value);
            },
            Op::CompareX => {
                let sum: Sum = compare(self.x, value);
                self.p = set_zero_sign(set_flag(self.p, FLAG_CARRY, sum.carry), sum.value);
            },
            Op::CompareY => {
                let sum: Sum = compare(self.y, value);
                self.p = set_zero_sign(set_flag(self.p, FLAG_CARRY, sum.carry), sum.value);
            },
            Op::Bit => {
                let zero: bool = self.a & value == 0;
                let overflow: bool = value & FLAG_OVERFLOW != 0;
                self.p = set_flag(
                    set_flag(set_flag(self.p, FLAG_ZERO, zero), FLAG_OVERFLOW, overflow),
                    FLAG_SIGN,
                    value >= 128,
                );
            },
            _ => {},
        }
    }

    /// Sets the flags that an addition or a subtraction gives.
    pub fn set_sum(&mut self, sum: Sum)
        ensures
            *final(self) == (Cpu { p: old(self).status_of_sum(sum), ..*old(self) }),
    {
        self.p = set_zero_sign(
            set_flag(set_flag(self.p, FLAG_CARRY, sum.carry), FLAG_OVERFLOW, sum.overflow),
            sum.value,
        );
    }

    /// Carries out a shift, a rotation, an increment or a decrement of
    /// `value`: sets the flags and returns the result.
    pub fn modify_op(&mut self, op: Op, value: u8) -> (result: u8)
        ensures
            result == old(self).shifted(op, value).value,
            *final(self) == old(self).after_modify(op, value),
    {
        let carry: bool = self.p & FLAG_CARRY != 0;
        let shifted: Shifted = match op {
            Op::Asl => shift_left(value),
            Op::Lsr => shift_right(value),
            Op::Rol => rotate_left(value, carry),
            Op::Ror => rotate_right(value, carry),
            Op::Inc => Shifted { value: value.wrapping_add(1), carry },
            Op::Dec => Shifted { value: value.wrapping_sub(1), carry },
            _ => Shifted { value, carry },
        };
        self.p = set_zero_sign(set_flag(self.p, FLAG_CARRY, shifted.carry), shifted.value);
        shifted.value
    }

    /// Carries out an instruction that works on the registers alone.
    pub fn register_op(&mut self, op: Op)
        ensures
            *final(self) == old(self).after_register(op),
    {
        match op {
            Op::Tax => {
                self.x = self.a;
                self.p = set_zero_sign(self.p, self.x);
            },
            Op::Tay => {
                self.y = self.a;
                self.p = set_zero_sign(self.p, self.y);
            },
            Op::Txa => {
                self.a = self.x;
                self.p = set_zero_sign(self.p, self.a);
            },
            Op::Tya => {
                self.a = self.y;
                self.p = set_zero_sign(self.p, self.a);
            },
            Op::Tsx => {
                self.x = self.sp;
                self.p = set_zero_sign(self.p, self.x);
            },
            Op::Txs => {
                self.sp = self.x;
            },
            Op::Inx => {
                self.x = self.x.wrapping_add(1);
                self.p = set_zero_sign(self.p, self.x);
            },
            Op::Iny => {
                self.y = self.y.wrapping_add(1);
                self.p = set_zero_sign(self.p, self.y);
            },
            Op::Dex => {
                self.x = self.x.wrapping_sub(1);
                self.p = set_zero_sign(self.p, self.x);
            },
            Op::Dey => {
                self.y = self.y.wrapping_sub(1);
                self.p = set_zero_sign(self.p, self.y);
            },
            Op::Clc => {
                self.p = set_flag(self.p, FLAG_CARRY, false);
            },
            Op::Sec => {
                self.p = set_flag(self.p, FLAG_CARRY, true);
            },
            Op::Cli => {
                self.p = set_flag(self.p, FLAG_INTERRUPT, false);
            },
            Op::Sei => {
                self.p = set_flag(self.p, FLAG_INTERRUPT, true);
            },
            Op::Clv => {
                self.p = set_flag(self.p, FLAG_OVERFLOW, false);
            },
            Op::Cld => {
                self.p = set_flag(self.p, FLAG_DECIMAL, false);
            },
            Op::Sed => {
                self.p = set_flag(self.p, FLAG_DECIMAL, true);
            },
            _ => {},
        }
    }

    /// Whether a branch instruction branches.
    pub fn branch_taken(&self, op: Op) -> (taken: bool)
        ensures
            taken == self.branches(op),
    {
        match op {
            Op::Bcc => self.p & FLAG_CARRY == 0,
            Op::Bcs => self.p & FLAG_CARRY != 0,
            Op::Bne => self.p & FLAG_ZERO == 0,
            Op::Beq => self.p & FLAG_ZERO != 0,
            Op::Bpl => self.p & FLAG_SIGN == 0,
            Op::Bmi => self.p & FLAG_SIGN != 0,
            Op::Bvc => self.p & FLAG_OVERFLOW == 0,
            Op::Bvs => self.p & FLAG_OVERFLOW != 0,
            _ => false,
        }
    }

    /// Pushes a byte on the stack.
    pub fn push<M: Mapper>(&mut self, bus: &mut Memory<M>, value: u8)
        ensures
            machine(*final(self), *final(bus)) == machine(*old(self), *old(bus)).pushed(value),
    {
        bus.store(STACK_PAGE + self.sp as u16, value);
        self.sp = self.sp.wrapping_sub(1);
    }

    /// Pulls a byte off the stack.
    pub fn pull<M: Mapper>(&mut self, bus: &mut Memory<M>) -> (value: u8)
        ensures
            value == machine(*old(self), *old(bus)).top(),
            machine(*final(self), *final(bus)) == machine(*old(self), *old(bus)).pulled(),
    {
        self.sp = self.sp.wrapping_add(1);
        bus.load(STACK_PAGE + self.sp as u16)
    }

    /// Reads the byte at the program counter and moves the program counter on.
    pub fn operand_byte<M: Mapper>(&mut self, bus: &mut Memory<M>) -> (operand: u8)
        ensures
            operand == machine(*old(self), *old(bus)).peek(old(self).pc),
            machine(*final(self), *final(bus)) == machine(*old(self), *old(bus)).touched(
                old(self).pc,
            ).advanced(1),
    {
        let operand: u8 = bus.load(self.pc);
        self.pc = self.pc.wrapping_add(1);
        operand
    }

    /// Reads the word at the program counter and moves the program counter on.
    pub fn operand_word<M: Mapper>(&mut self, bus: &mut Memory<M>) -> (operand: u16)
        ensures
            operand == machine(*old(self), *old(bus)).peek_word(old(self).pc),
            machine(*final(self), *final(bus)) == machine(*old(self), *old(bus)).touched_word(
                old(self).pc,
            ).advanced(2),
    {
        let operand: u16 = bus.load_word(self.pc);
        self.pc = self.pc.wrapping_add(2);
        operand
    }

    /// Reads the address that a pointer holds. The pointer does not reach
    /// over the end of its page: its second byte comes from the page's start.
    pub fn pointer<M: Mapper>(&self, bus: &mut Memory<M>, address: u16) -> (pointer: u16)
        ensures
            pointer == machine(*self, *old(bus)).peek_pointer(address),
            machine(*self, *final(bus)) == machine(*self, *old(bus)).touched_pointer(address),
    {
        bus.load_word_page_wrap(address)
    }

    /// The address `base` indexed by `index`, and whether the index
    /// carried it into another page.
    pub fn indexed(base: u16, index: u8) -> (target: Target)
        ensures
            target == (Target {
                address: base.wrapping_add(index as u16),
                crossed: base % 256 + index >= 256,
            }),
    {
        Target {
            address: base.wrapping_add(index as u16),
            crossed: base % 256 + index as u16 >= 256,
        }
    }

    /// Finds the operand of an instruction whose opcode has been fetched,
    /// and moves the program counter behind the instruction.
    pub fn resolve<M: Mapper>(&mut self, bus: &mut Memory<M>, mode: Mode) -> (target: Target)
        ensures
            target == machine(*old(self), *old(bus)).target(mode),
            machine(*final(self), *final(bus)) == machine(*old(self), *old(bus)).after_target(
                mode,
            ),
    {
        reveal(Machine::target);
        reveal(Machine::after_target);
        match mode {
            Mode::Implied | Mode::Accumulator => Target { address: 0, crossed: false },
            Mode::Immediate | Mode::Relative => {
                let address: u16 = self.pc;
                self.pc = address.wrapping_add(1);
                Target { address, crossed: false }
            },
            Mode::ZeroPage => {
                let operand: u8 = self.operand_byte(bus);
                Target { address: operand as u16, crossed: false }
            },
            Mode::ZeroPageX => {
                let operand: u8 = self.operand_byte(bus);
                Target { address: operand.wrapping_add(self.x) as u16, crossed: false }
            },
            Mode::ZeroPageY => {
                let operand: u8 = self.operand_byte(bus);
                Target { address: operand.wrapping_add(self.y) as u16, crossed: false }
            },
            Mode::Absolute => {
                let base: u16 = self.operand_word(bus);
                Target { address: base, crossed: false }
            },
            Mode::AbsoluteX => {
                let base: u16 = self.operand_word(bus);
                Self::indexed(base, self.x)
            },
            Mode::AbsoluteY => {
                let base: u16 = self.operand_word(bus);
                Self::indexed(base, self.y)
            },
            Mode::Indirect => {
                let pointer: u16 = self.operand_word(bus);
                let address: u16 = self.pointer(bus, pointer);
                Target { address, crossed: false }
            },
            Mode::IndirectX => {
                let operand: u8 = self.operand_byte(bus);
                let address: u16 = self.pointer(bus, operand.wrapping_add(self.x) as u16);
                Target { address, crossed: false }
            },
            Mode::IndirectY => {
                let operand: u8 = self.operand_byte(bus);
                let base: u16 = self.pointer(bus, operand as u16);
                Self::indexed(base, self.y)
            },
        }
    }

    /// Enters an interrupt: pushes the program counter `back` and the
    /// status `status`, disables interrupts and jumps through `vector`.
    pub fn enter<M: Mapper>(&mut self, bus: &mut Memory<M>, back: u16, status: u8, vector: u16)
        ensures
            machine(*final(self), *final(bus)) == machine(*old(self), *old(bus)).entered(
                back,
                status,
                vector,
            ),
    {
        reveal(Machine::entered);
        self.push(bus, (back / 256) as u8);
        self.push(bus, (back % 256) as u8);
        self.push(bus, status);
        self.p = set_flag(self.p, FLAG_INTERRUPT, true);
        self.pc = bus.load_word(vector);
    }

    /// Carries out a branch instruction and returns the cycles that it adds.
    pub fn branch<M: Mapper>(&mut self, bus: &mut Memory<M>, op: Op, target: Target) -> (extra: u8)
        requires
            is_branch(op),
        ensures
            machine(*final(self), *final(bus)) == machine(*old(self), *old(bus)).after_branch(
                op,
                target,
            ),
            extra == machine(*old(self), *old(bus)).extra_cycles(
                Instruction { op, mode: Mode::Relative, cycles: 2, page_cycle: false },
                target,
            ),
    {
        reveal(Machine::extra_cycles);
        let distance: u8 = bus.load(target.address);
        if self.branch_taken(op) {
            let next: u16 = self.pc;
            let destination: u16 = if distance < 128 {
                next.wrapping_add(distance as u16)
            } else {
                next.wrapping_sub(256 - distance as u16)
            };
            self.pc = destination;
            if destination / 256 != next / 256 {
                2
            } else {
                1
            }
        } else {
            0
        }
    }

    /// Carries out the operation of an instruction whose operand has been
    /// found, and returns the cycles that it adds to those of the table.
    pub fn run<M: Mapper>(
        &mut self,
        bus: &mut Memory<M>,
        instruction: Instruction,
        target: Target,
    ) -> (extra: u8)
        ensures
            machine(*final(self), *final(bus)) == machine(*old(self), *old(bus)).after_op(
                instruction,
                target,
            ),
            extra == machine(*old(self), *old(bus)).extra_cycles(instruction, target),
            extra <= 2,
    {
        reveal(Machine::after_op);
        reveal(Machine::extra_cycles);
        let op: Op = instruction.op;
        match op {
            Op::Lda | Op::Ldx | Op::Ldy | Op::And | Op::Ora | Op::Eor | Op::Adc | Op::Sbc
            | Op::Compare | Op::CompareX | Op::CompareY | Op::Bit => {
                let value: u8 = bus.load(target.address);
                self.read_op(op, value);
            },
            Op::Sta => {
                bus.store(target.address, self.a);
            },
            Op::Stx => {
                bus.store(target.address, self.x);
            },
            Op::Sty => {
                bus.store(target.address, self.y);
            },
            Op::Asl | Op::Lsr | Op::Rol | Op::Ror | Op::Inc | Op::Dec => {
                match instruction.mode {
                    Mode::Accumulator => {
                        let value: u8 = self.a;
                        self.a = self.modify_op(op, value);
                    },
                    _ => {
                        let value: u8 = bus.load(target.address);
                        let result: u8 = self.modify_op(op, value);
                        bus.store(target.address, result);
                    },
                }
            },
            Op::Bcc | Op::Bcs | Op::Beq | Op::Bne | Op::Bmi | Op::Bpl | Op::Bvc | Op::Bvs => {
                return self.branch(bus, op, target);
            },
            Op::Jmp => {
                self.pc = target.address;
            },
            Op::Jsr => {
                let back: u16 = self.pc.wrapping_sub(1);
                self.push(bus, (back / 256) as u8);
                self.push(bus, (back % 256) as u8);
                self.pc = target.address;
            },
            Op::Rts => {
                let low: u8 = self.pull(bus);
                let high: u8 = self.pull(bus);
                self.pc = (high as u16 * 256 + low as u16).wrapping_add(1);
            },
            Op::Rti => {
                let status: u8 = self.pull(bus);
                let low: u8 = self.pull(bus);
                let high: u8 = self.pull(bus);
                self.p = (status & !FLAG_BREAK) | FLAG_UNUSED;
                self.pc = high as u16 * 256 + low as u16;
            },
            Op::Brk => {
                let back: u16 = self.pc.wrapping_add(1);
                let status: u8 = self.p | FLAG_BREAK | FLAG_UNUSED;
                self.enter(bus, back, status, IRQ_VECTOR);
            },
            Op::Pha => {
                self.push(bus, self.a);
            },
            Op::Php => {
                self.push(bus, self.p | FLAG_BREAK | FLAG_UNUSED);
            },
            Op::Pla => {
                let value: u8 = self.pull(bus);
                self.a = value;
                self.p = set_zero_sign(self.p, value);
            },
            Op::Plp => {
                let status: u8 = self.pull(bus);
                self.p = (status & !FLAG_BREAK) | FLAG_UNUSED;
            },
            _ => {
                self.register_op(op);
            },
        }
        if instruction.page_cycle && target.crossed {
            1
        } else {
            0
        }
    }

    /// Carries out the instruction at the program counter and returns how
    /// many cycles it takes.
    pub fn execute<M: Mapper>(&mut self, bus: &mut Memory<M>) -> (cycles: u8)
        ensures
            machine(*final(self), *final(bus)) == machine(
                *old(self),
                *old(bus),
            ).after_instruction(),
            cycles == machine(*old(self), *old(bus)).instruction_cycles(),
            2 <= cycles <= 9,
    {
        reveal(Machine::after_instruction);
        reveal(Machine::instruction_cycles);
        let opcode: u8 = bus.load(self.pc);
        self.pc = self.pc.wrapping_add(1);
        let instruction: Instruction = decode(opcode);
        let target: Target = self.resolve(bus, instruction.mode);
        let extra: u8 = self.run(bus, instruction, target);
        instruction.cycles + extra
    }

    /// One cycle of a sprite DMA.
    pub fn dma_cycle<M: Mapper>(&mut self, bus: &mut Memory<M>)
        requires
            0 < old(self).dma_remaining,
        ensures
            machine(*final(self), *final(bus)) == machine(*old(self), *old(bus)).after_dma_cycle(),
            final(self).dma_remaining == old(self).dma_remaining - 1,
            final(self).cycles_remaining == old(self).cycles_remaining,
    {
        reveal(Machine::after_dma_cycle);
        let left: u16 = self.dma_remaining;
        if left <= 512 {
            let address: u16 = self.dma_page as u16 * 256 + (512 - left) / 2;
            if left % 2 == 0 {
                self.dma_byte = bus.load(address);
            } else {
                bus.store(OAM_DATA, self.dma_byte);
            }
        }
        self.dma_remaining = left - 1;
    }

    /// One CPU cycle.
    #[verifier::rlimit(50)]
    pub fn cycle<M: Mapper>(&mut self, bus: &mut Memory<M>)
        ensures
            machine(*final(self), *final(bus)) == machine(*old(self), *old(bus)).after_cycle(),
    {
        reveal(Machine::after_cycle);
        if self.dma_remaining > 0 {
            self.dma_cycle(bus);
        } else if self.cycles_remaining > 0 {
            self.cycles_remaining = self.cycles_remaining - 1;
        } else if bus.dma {
            bus.dma = false;
            self.dma_page = bus.oamdma;
            self.dma_remaining = DMA_CYCLES + (self.cycle_count % 2) as u16;
            self.dma_cycle(bus);
        } else if self.nmi_pending {
            self.nmi_pending = false;
            let status: u8 = (self.p & !FLAG_BREAK) | FLAG_UNUSED;
            self.enter(bus, self.pc, status, NMI_VECTOR);
            self.cycles_remaining = INTERRUPT_CYCLES - 1;
        } else if self.irq_pending && self.p & FLAG_INTERRUPT == 0 {
            let status: u8 = (self.p & !FLAG_BREAK) | FLAG_UNUSED;
            self.enter(bus, self.pc, status, IRQ_VECTOR);
            self.cycles_remaining = INTERRUPT_CYCLES - 1;
        } else {
            let cycles: u8 = self.execute(bus);
            self.cycles_remaining = cycles - 1;
        }
        if self.dma_remaining == 0 && self.cycles_remaining == 1 {
            if bus.nmi {
                self.nmi_pending = true;
                bus.nmi = false;
            }
            self.irq_pending = bus.irq;
        }
        self.cycle_count = self.cycle_count.wrapping_add(1);
    }
}

/// Entering an interrupt puts three bytes on the stack, the high byte of
/// the return address first, then its low byte, then the status; it takes
/// the new program counter from the vector and disables interrupts. The copy
/// of the status on the stack has the break flag set where `BRK` pushed it
/// and clear where an interrupt did.
pub proof fn law_interrupt_entry<M: Mapper>(before: Machine<M>, back: u16, status: u8, vector: u16)
    requires
        vector >= 0x4020,
        vector < 0xffff,
    ensures
        ({
            let after = before.entered(back, status, vector);
            let sp = before.cpu.sp;
            &&& after.bus.ram[0x100 + sp] == back / 256
            &&& after.bus.ram[0x100 + sp.wrapping_sub(1)] == back % 256
            &&& after.bus.ram[0x100 + sp.wrapping_sub(2)] == status
            &&& after.cpu.sp == sp.wrapping_sub(3)
            &&& after.cpu.pc == before.bus.mapper.prg(vector) + 256 * before.bus.mapper.prg(
                (vector + 1) as u16,
            )
            &&& flag_set(after.cpu.p, FLAG_INTERRUPT)
            &&& after.bus.mapper == before.bus.mapper
            &&& after.cpu.a == before.cpu.a
            &&& after.cpu.x == before.cpu.x
            &&& after.cpu.y == before.cpu.y
        }),
        flag_set(status_pushed(before.cpu.p), FLAG_BREAK),
        !flag_set(status_interrupted(before.cpu.p), FLAG_BREAK),
        before.after_brk() == before.entered(
            before.cpu.pc.wrapping_add(1),
            status_pushed(before.cpu.p),
            IRQ_VECTOR,
        ),
        before.interrupted(vector) == before.entered(
            before.cpu.pc,
            status_interrupted(before.cpu.p),
            vector,
        ),
{
    reveal(Machine::entered);
    lemma_flag_bits(before.cpu.p, FLAG_INTERRUPT, FLAG_INTERRUPT);
    lemma_flag_bits(before.cpu.p, FLAG_BREAK, FLAG_UNUSED);
    lemma_flag_bits(before.cpu.p | FLAG_BREAK, FLAG_UNUSED, FLAG_BREAK);
    lemma_flag_bits(before.cpu.p & !FLAG_BREAK, FLAG_UNUSED, FLAG_BREAK);
}

/// Finding the operand moves the program counter over the operand's bytes:
/// none, one or two, as the addressing mode has them.
pub proof fn law_operand_length<M: Mapper>(before: Machine<M>, mode: Mode)
    ensures
        before.after_target(mode).cpu.pc == (before.cpu.pc + operand_length(mode)) % 0x1_0000,
        before.after_target(mode).cpu == (Cpu {
            pc: before.after_target(mode).cpu.pc,
            ..before.cpu
        }),
{
    reveal(Machine::after_target);
}

/// `ADC` with an immediate operand: the opcode `$69` adds the byte behind
/// it and the carry to the accumulator, sets carry, overflow, zero and sign
/// by the sum, moves on by two bytes and takes two cycles. Nothing else of
/// the CPU changes.
#[verifier::rlimit(50)]
pub proof fn law_adc_immediate<M: Mapper>(before: Machine<M>)
    requires
        before.peek(before.cpu.pc) == 0x69,
    ensures
        ({
            let pc = before.cpu.pc;
            let value = before.touched(pc).peek(pc.wrapping_add(1));
            let sum = sum_with_carry(before.cpu.a, value, before.cpu.carry());
            &&& before.after_instruction().cpu == (Cpu {
                a: sum.value,
                p: before.cpu.status_of_sum(sum),
                pc: pc.wrapping_add(2),
                ..before.cpu
            })
            &&& before.after_instruction().bus == before.bus.after_load(pc).after_load(
                pc.wrapping_add(1),
            )
            &&& before.instruction_cycles() == 2
        }),
{
    let instruction = entry(Op::Adc, Mode::Immediate, 2, false);
    let fetched = before.fetched();
    let target = Target { address: fetched.cpu.pc, crossed: false };
    let found = fetched.advanced(1);
    assert(before.instruction() == instruction) by {
        lemma_adc_immediate_entry();
    }
    assert(before.after_instruction() == found.after_read_op(Op::Adc, target)
        && before.instruction_cycles() == 2) by {
        lemma_immediate_operand(fetched);
        lemma_addition(found, instruction, target);
        reveal(Machine::after_instruction);
        reveal(Machine::instruction_cycles);
    }
    assert(fetched.cpu == (Cpu { pc: before.cpu.pc.wrapping_add(1), ..before.cpu }));
    assert(found.cpu == (Cpu { pc: before.cpu.pc.wrapping_add(2), ..before.cpu }));
    assert(found.bus == before.bus.after_load(before.cpu.pc));
    assert(target.address == before.cpu.pc.wrapping_add(1));
}

/// An immediate operand is the byte at the program counter.
pub proof fn lemma_immediate_operand<M: Mapper>(before: Machine<M>)
    ensures
        before.target(Mode::Immediate) == (Target { address: before.cpu.pc, crossed: false }),
        before.after_target(Mode::Immediate) == before.advanced(1),
{
    reveal(Machine::target);
    reveal(Machine::after_target);
}

/// `ADC` reads its operand and adds it, in the cycles of the table.
pub proof fn lemma_addition<M: Mapper>(before: Machine<M>, instruction: Instruction, target: Target)
    requires
        instruction.op == Op::Adc,
        !instruction.page_cycle,
    ensures
        before.after_op(instruction, target) == before.after_read_op(Op::Adc, target),
        before.extra_cycles(instruction, target) == 0,
{
    reveal(Machine::after_op);
    reveal(Machine::extra_cycles);
}

/// An instruction changes the registers, the flags and the program
/// counter, and nothing of the CPU's timing.
#[verifier::rlimit(50)]
pub proof fn lemma_instruction_keeps_timing<M: Mapper>(before: Machine<M>)
    ensures
        before.after_instruction().cpu.keeps_timing_of(before.cpu),
{
    reveal(Machine::after_instruction);
    reveal(Machine::after_target);
    reveal(Machine::after_op);
    reveal(Machine::entered);
}

/// Entering an interrupt changes nothing of the CPU's timing.
pub proof fn lemma_interrupt_keeps_timing<M: Mapper>(before: Machine<M>, vector: u16)
    ensures
        before.interrupted(vector).cpu.keeps_timing_of(before.cpu),
{
    reveal(Machine::entered);
}

/// Every cycle is counted: whatever the CPU does on a cycle, its count
/// of cycles goes up by one.
pub proof fn law_cycle_is_counted<M: Mapper>(before: Machine<M>)
    ensures
        before.after_cycle().cpu.cycle_count == before.cpu.cycle_count.wrapping_add(1),
{
    reveal(Machine::after_cycle);
    reveal(Machine::after_dma_cycle);
    lemma_instruction_keeps_timing(before);
    lemma_interrupt_keeps_timing(before, IRQ_VECTOR);
    lemma_interrupt_keeps_timing(
        Machine { cpu: Cpu { nmi_pending: false, ..before.cpu }, ..before },
        NMI_VECTOR,
    );
}

impl Default for Cpu {
    fn default() -> (cpu: Cpu)
        ensures
            cpu == Cpu::initial(),
    {
        Cpu::new()
    }
}

} // verus!
