//! Instruction execution unit: the register file, the four condition
//! flags, the per-step cycle counter, and the arithmetic/logic helpers
//! shared by the opcode dispatchers.

use vstd::prelude::*;

use crate::fault::Fault;
use crate::mmu::{MMU, MmuV, read_spec, read16_spec, write_ok, write_spec, write_fault,
    write16_ok, write16_spec};

verus! {

/// Operand length of each base-table opcode, in bytes, used to advance the
/// program counter for instructions that do not redirect it.
pub const OPERATION_BYTES: [u16; 256] = [
    1, 3, 1, 1, 1, 1, 2, 1, 3, 1, 1, 1, 1, 1, 2, 1,
    1, 3, 1, 1, 1, 1, 2, 1, 2, 1, 1, 1, 1, 1, 2, 1,
    2, 3, 1, 1, 1, 1, 2, 1, 2, 1, 1, 1, 1, 1, 2, 1,
    2, 3, 1, 1, 1, 1, 2, 1, 2, 1, 1, 1, 1, 1, 2, 1,
    1, 1, 1, 1, 1, 1, 1, 1, 1, 1, 1, 1, 1, 1, 1, 1,
    1, 1, 1, 1, 1, 1, 1, 1, 1, 1, 1, 1, 1, 1, 1, 1,
    1, 1, 1, 1, 1, 1, 1, 1, 1, 1, 1, 1, 1, 1, 1, 1,
    1, 1, 1, 1, 1, 1, 1, 1, 1, 1, 1, 1, 1, 1, 1, 1,
    1, 1, 1, 1, 1, 1, 1, 1, 1, 1, 1, 1, 1, 1, 1, 1,
    1, 1, 1, 1, 1, 1, 1, 1, 1, 1, 1, 1, 1, 1, 1, 1,
    1, 1, 1, 1, 1, 1, 1, 1, 1, 1, 1, 1, 1, 1, 1, 1,
    1, 1, 1, 1, 1, 1, 1, 1, 1, 1, 1, 1, 1, 1, 1, 1,
    1, 1, 3, 3, 3, 1, 2, 1, 1, 1, 3, 1, 3, 3, 2, 1,
    1, 1, 3, 0, 3, 1, 2, 1, 1, 1, 3, 0, 3, 0, 2, 1,
    2, 1, 1, 0, 0, 1, 2, 1, 2, 1, 3, 0, 0, 0, 2, 1,
    2, 1, 1, 1, 0, 1, 2, 1, 2, 1, 3, 1, 0, 0, 2, 1,
];

/// Machine-cycle cost of each base-table opcode when no branch is taken.
pub const OPERATION_MACHINE_CYCLES: [u32; 256] = [
    1, 3, 2, 2, 1, 1, 2, 1, 5, 2, 2, 2, 1, 1, 2, 1,
    1, 3, 2, 2, 1, 1, 2, 1, 3, 2, 2, 2, 1, 1, 2, 1,
    2, 3, 2, 2, 1, 1, 2, 1, 2, 2, 2, 2, 1, 1, 2, 1,
    2, 3, 2, 2, 3, 3, 3, 1, 2, 2, 2, 2, 1, 1, 2, 1,
    1, 1, 1, 1, 1, 1, 2, 1, 1, 1, 1, 1, 1, 1, 2, 1,
    1, 1, 1, 1, 1, 1, 2, 1, 1, 1, 1, 1, 1, 1, 2, 1,
    1, 1, 1, 1, 1, 1, 2, 1, 1, 1, 1, 1, 1, 1, 2, 1,
    2, 2, 2, 2, 2, 2, 1, 2, 1, 1, 1, 1, 1, 1, 2, 1,
    1, 1, 1, 1, 1, 1, 2, 1, 1, 1, 1, 1, 1, 1, 2, 1,
    1, 1, 1, 1, 1, 1, 2, 1, 1, 1, 1, 1, 1, 1, 2, 1,
    1, 1, 1, 1, 1, 1, 2, 1, 1, 1, 1, 1, 1, 1, 2, 1,
    1, 1, 1, 1, 1, 1, 2, 1, 1, 1, 1, 1, 1, 1, 2, 1,
    2, 3, 3, 4, 3, 4, 2, 4, 2, 4, 3, 1, 3, 6, 2, 4,
    2, 3, 3, 0, 3, 4, 2, 4, 2, 4, 3, 0, 3, 0, 2, 4,
    3, 3, 2, 0, 0, 4, 2, 4, 4, 1, 4, 0, 0, 0, 2, 4,
    3, 3, 2, 1, 0, 4, 2, 4, 3, 2, 4, 1, 0, 0, 2, 4,
];

/// Machine-cycle cost of each base-table opcode when its branch is taken.
pub const OPERATION_MACHINE_CYCLES_BRANCHED: [u32; 256] = [
    1, 3, 2, 2, 1, 1, 2, 1, 5, 2, 2, 2, 1, 1, 2, 1,
    1, 3, 2, 2, 1, 1, 2, 1, 3, 2, 2, 2, 1, 1, 2, 1,
    3, 3, 2, 2, 1, 1, 2, 1, 3, 2, 2, 2, 1, 1, 2, 1,
    3, 3, 2, 2, 3, 3, 3, 1, 3, 2, 2, 2, 1, 1, 2, 1,
    1, 1, 1, 1, 1, 1, 2, 1, 1, 1, 1, 1, 1, 1, 2, 1,
    1, 1, 1, 1, 1, 1, 2, 1, 1, 1, 1, 1, 1, 1, 2, 1,
    1, 1, 1, 1, 1, 1, 2, 1, 1, 1, 1, 1, 1, 1, 2, 1,
    2, 2, 2, 2, 2, 2, 1, 2, 1, 1, 1, 1, 1, 1, 2, 1,
    1, 1, 1, 1, 1, 1, 2, 1, 1, 1, 1, 1, 1, 1, 2, 1,
    1, 1, 1, 1, 1, 1, 2, 1, 1, 1, 1, 1, 1, 1, 2, 1,
    1, 1, 1, 1, 1, 1, 2, 1, 1, 1, 1, 1, 1, 1, 2, 1,
    1, 1, 1, 1, 1, 1, 2, 1, 1, 1, 1, 1, 1, 1, 2, 1,
    5, 3, 4, 4, 6, 4, 2, 4, 5, 4, 4, 1, 6, 6, 2, 4,
    5, 3, 4, 0, 6, 4, 2, 4, 5, 4, 4, 0, 6, 0, 2, 4,
    3, 3, 2, 0, 0, 4, 2, 4, 4, 1, 4, 0, 0, 0, 2, 4,
    3, 3, 2, 1, 0, 4, 2, 4, 3, 2, 4, 1, 0, 0, 2, 4,
];

/// Truncation of an unbounded value into the 16-bit address space.
pub open spec fn wrap16(x: int) -> u16 {
    (x % 0x10000) as u16
}

/// The byte operand following the opcode.
pub open spec fn imm8(c: CPU, m: MmuV) -> u8 {
    read_spec(m, wrap16(c.program_counter + 1))
}

/// The little-endian word operand following the opcode.
pub open spec fn imm16(c: CPU, m: MmuV) -> u16 {
    read16_spec(m, wrap16(c.program_counter + 1))
}

/// The destination of a relative jump: past the two-byte instruction,
/// displaced by the signed operand.
pub open spec fn jr_dest(c: CPU, m: MmuV) -> u16 {
    wrap16(c.program_counter + 2 + (imm8(c, m) as i8))
}

/// Opcode values with no table entry: reserved slots, the unimplemented
/// stop instruction, and the prefix byte itself, which never reaches the
/// base dispatcher.
pub open spec fn reserved_opcode(op: u8) -> bool {
    op == 0x10 || op == 0xCB || op == 0xD3 || op == 0xDB || op == 0xDD || op == 0xE3
        || op == 0xE4 || op == 0xEB || op == 0xEC || op == 0xED || op == 0xF4 || op == 0xFC
        || op == 0xFD
}

/// The conditional-branch family: relative jumps, returns, absolute jumps
/// and calls guarded by a flag.
pub open spec fn cond_opcode(op: u8) -> bool {
    op == 0x20 || op == 0x28 || op == 0x30 || op == 0x38 || op == 0xC0 || op == 0xC8
        || op == 0xD0 || op == 0xD8 || op == 0xC2 || op == 0xCA || op == 0xD2 || op == 0xDA
        || op == 0xC4 || op == 0xCC || op == 0xD4 || op == 0xDC
}

/// Whether a conditional opcode's guard holds: the column selects
/// Zero-clear, Zero-set, Carry-clear or Carry-set.
pub open spec fn cond_taken(c: CPU, op: u8) -> bool {
    let k = op / 8 % 8 % 4;
    if k == 0 {
        !c.flag_zero
    } else if k == 1 {
        c.flag_zero
    } else if k == 2 {
        !c.flag_carry
    } else {
        c.flag_carry
    }
}

/// Opcodes that always redirect the program counter.
pub open spec fn uncond_branch_opcode(op: u8) -> bool {
    op == 0x18 || op == 0xC3 || op == 0xC9 || op == 0xCD || op == 0xD9 || op == 0xE9
        || rst_opcode(op)
}

/// The restart family.
pub open spec fn rst_opcode(op: u8) -> bool {
    op == 0xC7 || op == 0xCF || op == 0xD7 || op == 0xDF || op == 0xE7 || op == 0xEF
        || op == 0xF7 || op == 0xFF
}

/// Opcodes that neither branch nor halt: the program counter advances by
/// the operand length and the not-taken cycle entry applies.
pub open spec fn plain_opcode(op: u8) -> bool {
    !reserved_opcode(op) && !cond_opcode(op) && !uncond_branch_opcode(op) && op != 0x76
}

/// The plain store family: one byte written, nothing else read back.
pub open spec fn store_opcode(op: u8) -> bool {
    op == 0x02 || op == 0x12 || op == 0x22 || op == 0x32 || op == 0x36 || op == 0x70
        || op == 0x71 || op == 0x72 || op == 0x73 || op == 0x74 || op == 0x75 || op == 0x77
        || op == 0xE0 || op == 0xE2 || op == 0xEA
}

/// Every base-table opcode that can write memory.
pub open spec fn writes_mem_opcode(op: u8) -> bool {
    store_opcode(op) || op == 0x08 || op == 0x34 || op == 0x35 || rst_opcode(op)
        || op == 0xC5 || op == 0xD5 || op == 0xE5 || op == 0xF5 || op == 0xCD || op == 0xC4
        || op == 0xCC || op == 0xD4 || op == 0xDC
}

/// Register selected by a three-bit field, in table order; slot 6 is the
/// memory operand and is never passed here.
pub open spec fn set_reg8(c: CPU, idx: int, v: u8) -> CPU {
    if idx == 0 {
        CPU { b: v, ..c }
    } else if idx == 1 {
        CPU { c: v, ..c }
    } else if idx == 2 {
        CPU { d: v, ..c }
    } else if idx == 3 {
        CPU { e: v, ..c }
    } else if idx == 4 {
        CPU { h: v, ..c }
    } else if idx == 5 {
        CPU { l: v, ..c }
    } else {
        CPU { a: v, ..c }
    }
}

/// The eight-bit operand a three-bit field selects; slot 6 reads the byte
/// HL points at.
pub open spec fn operand8(c: CPU, m: MmuV, idx: int) -> u8 {
    if idx == 0 {
        c.b
    } else if idx == 1 {
        c.c
    } else if idx == 2 {
        c.d
    } else if idx == 3 {
        c.e
    } else if idx == 4 {
        c.h
    } else if idx == 5 {
        c.l
    } else if idx == 6 {
        read_spec(m, c.hl_spec())
    } else {
        c.a
    }
}

/// A sixteen-bit register pair selected by the opcode's high bits:
/// BC, DE, HL, stack pointer.
pub open spec fn get_pair(c: CPU, which: int) -> u16 {
    if which == 0 {
        c.bc_spec()
    } else if which == 1 {
        c.de_spec()
    } else if which == 2 {
        c.hl_spec()
    } else {
        c.stack_pointer
    }
}

/// Write a register pair of the BC/DE/HL/SP bank.
pub open spec fn set_pair(c: CPU, which: int, v: u16) -> CPU {
    if which == 0 {
        CPU { b: (v / 256) as u8, c: (v % 256) as u8, ..c }
    } else if which == 1 {
        CPU { d: (v / 256) as u8, e: (v % 256) as u8, ..c }
    } else if which == 2 {
        CPU { h: (v / 256) as u8, l: (v % 256) as u8, ..c }
    } else {
        CPU { stack_pointer: v, ..c }
    }
}

/// A pair of the push/pop bank: BC, DE, HL, AF.
pub open spec fn get_pair_af(c: CPU, which: int) -> u16 {
    if which == 3 {
        c.af_spec()
    } else {
        get_pair(c, which)
    }
}

/// Write a pair of the push/pop bank; writing AF sets the flags from the
/// top nibble of the low byte.
pub open spec fn set_pair_af(c: CPU, which: int, v: u16) -> CPU {
    if which == 3 {
        CPU {
            a: (v / 256) as u8,
            flag_zero: (v % 256) as u8 & 0x80 != 0,
            flag_subtract: (v % 256) as u8 & 0x40 != 0,
            flag_half_carry: (v % 256) as u8 & 0x20 != 0,
            flag_carry: (v % 256) as u8 & 0x10 != 0,
            ..c
        }
    } else {
        set_pair(c, which, v)
    }
}

/// The flag effect of an eight-bit increment.
pub open spec fn inc8_cpu(c: CPU, v: u8) -> CPU {
    CPU {
        flag_zero: (v + 1) % 256 == 0,
        flag_subtract: false,
        flag_half_carry: v & 0xF == 0xF,
        ..c
    }
}

/// The flag effect of an eight-bit decrement.
pub open spec fn dec8_cpu(c: CPU, v: u8) -> CPU {
    CPU {
        flag_zero: (v - 1) % 256 == 0,
        flag_subtract: true,
        flag_half_carry: ((v - 1) % 256) as u8 & 0x0F == 0x0F,
        ..c
    }
}

/// The accumulator and flags after one arithmetic/logic operation of the
/// eight-kind family: add, add-with-carry, subtract, subtract-with-borrow,
/// and, xor, or, compare.
pub open spec fn alu_apply(c: CPU, kind: int, v: u8) -> CPU {
    let carry: u8 = if c.flag_carry { 1 } else { 0 };
    if kind == 0 {
        CPU {
            a: ((c.a + v) % 256) as u8,
            flag_zero: (c.a + v) % 256 == 0,
            flag_subtract: false,
            flag_half_carry: (c.a & 0xF) + (v & 0xF) > 15,
            flag_carry: c.a + v > 255,
            ..c
        }
    } else if kind == 1 {
        CPU {
            a: ((c.a + v + carry) % 256) as u8,
            flag_zero: (c.a + v + carry) % 256 == 0,
            flag_subtract: false,
            flag_half_carry: (c.a & 0xF) + (v & 0xF) + carry > 15,
            flag_carry: c.a + v + carry > 255,
            ..c
        }
    } else if kind == 2 {
        CPU {
            a: ((c.a - v) % 256) as u8,
            flag_zero: c.a == v,
            flag_subtract: true,
            flag_half_carry: (c.a & 0xF) < (v & 0xF),
            flag_carry: c.a < v,
            ..c
        }
    } else if kind == 3 {
        CPU {
            a: ((c.a - v - carry) % 256) as u8,
            flag_zero: (c.a - v - carry) % 256 == 0,
            flag_subtract: true,
            flag_half_carry: (c.a & 0xF) < (v & 0xF) + carry,
            flag_carry: c.a < v + carry,
            ..c
        }
    } else if kind == 4 {
        CPU {
            a: c.a & v,
            flag_zero: c.a & v == 0,
            flag_subtract: false,
            flag_half_carry: true,
            flag_carry: false,
            ..c
        }
    } else if kind == 5 {
        CPU {
            a: c.a ^ v,
            flag_zero: c.a ^ v == 0,
            flag_subtract: false,
            flag_half_carry: false,
            flag_carry: false,
            ..c
        }
    } else if kind == 6 {
        CPU {
            a: c.a | v,
            flag_zero: c.a | v == 0,
            flag_subtract: false,
            flag_half_carry: false,
            flag_carry: false,
            ..c
        }
    } else {
        CPU {
            flag_zero: c.a == v,
            flag_subtract: true,
            flag_half_carry: (c.a & 0xF) < (v & 0xF),
            flag_carry: c.a < v,
            ..c
        }
    }
}

/// The result byte of a prefixed rotate/shift/swap of the eight-kind
/// family, in table order.
pub open spec fn rot_result(c: CPU, kind: int, v: u8) -> u8 {
    if kind == 0 {
        (v << 1) | (if v & 0x80 != 0 { 1u8 } else { 0u8 })
    } else if kind == 1 {
        (v >> 1) | (if v & 0x01 != 0 { 0x80u8 } else { 0u8 })
    } else if kind == 2 {
        (v << 1) | (if c.flag_carry { 1u8 } else { 0u8 })
    } else if kind == 3 {
        (v >> 1) | (if c.flag_carry { 0x80u8 } else { 0u8 })
    } else if kind == 4 {
        v << 1
    } else if kind == 5 {
        if v & 0x80 != 0 { (v >> 1) | 0x80u8 } else { v >> 1 }
    } else if kind == 6 {
        ((v % 16) * 16 + v / 16) as u8
    } else {
        v >> 1
    }
}

/// The flag effect of a rotate/shift/swap; the Zero flag comes from the
/// result only in prefixed form.
pub open spec fn rot_cpu(c: CPU, kind: int, v: u8, prefixed: bool) -> CPU {
    CPU {
        flag_zero: prefixed && rot_result(c, kind, v) == 0,
        flag_subtract: false,
        flag_half_carry: false,
        flag_carry: if kind == 0 || kind == 2 || kind == 4 {
            v & 0x80 != 0
        } else if kind == 6 {
            false
        } else {
            v & 0x01 != 0
        },
        ..c
    }
}

/// The HL pair and flags after a sixteen-bit add into HL.
pub open spec fn addhl_cpu(c: CPU, v: u16) -> CPU {
    CPU {
        h: ((c.hl_spec() + v) % 0x10000 / 256) as u8,
        l: ((c.hl_spec() + v) % 0x10000 % 256) as u8,
        flag_subtract: false,
        flag_half_carry: (c.hl_spec() & 0x0FFF) + (v & 0x0FFF) > 0x0FFF,
        flag_carry: c.hl_spec() + v > 0xFFFF,
        ..c
    }
}

/// The decimal-adjust of the accumulator. The adjustment never clears a
/// Carry that was already set.
pub open spec fn daa_cpu(c: CPU) -> CPU {
    let a0 = c.a as int;
    let a1 = if !c.flag_subtract {
        let ah = if c.flag_half_carry || a0 % 16 > 9 { a0 + 6 } else { a0 };
        if c.flag_carry || ah > 0x9F { ah + 0x60 } else { ah }
    } else {
        let ah = if c.flag_half_carry { (a0 - 6) % 256 } else { a0 };
        if c.flag_carry { ah - 0x60 } else { ah }
    };
    let carry_out = a1 >= 0x100 || a1 < 0;
    let a2 = if a1 < 0 { a1 + 256 } else if a1 >= 0x100 { a1 - 256 } else { a1 };
    CPU {
        a: a2 as u8,
        flag_zero: a2 == 0,
        flag_half_carry: false,
        flag_carry: c.flag_carry || carry_out,
        ..c
    }
}

/// The stack pointer displaced by the signed byte operand, with the
/// exclusive-or carry rule of the stack-relative adds.
pub open spec fn sp_offset_result(c: CPU, m: MmuV) -> u16 {
    wrap16(c.stack_pointer + (imm8(c, m) as i8))
}

/// Flags of the stack-relative adds: Zero and Subtraction cleared, Carry
/// and Half-Carry from the bit-8 and bit-4 borrows of the exclusive-or
/// form.
pub open spec fn sp_offset_cpu(c: CPU, m: MmuV) -> CPU {
    let offu = imm8(c, m) as i8 as u16;
    let result = sp_offset_result(c, m);
    CPU {
        flag_zero: false,
        flag_subtract: false,
        flag_carry: (c.stack_pointer ^ offu ^ result) & 0x100 == 0x100,
        flag_half_carry: (c.stack_pointer ^ offu ^ result) & 0x10 == 0x10,
        ..c
    }
}

/// The operand length table entry of an opcode.
#[verifier::opaque]
pub open spec fn bytes_of(op: u8) -> u16 {
    OPERATION_BYTES[op as int]
}

/// The machine-cycle table entry that applies.
#[verifier::opaque]
pub open spec fn cycles_of(op: u8, branched: bool) -> u32 {
    if branched {
        OPERATION_MACHINE_CYCLES_BRANCHED[op as int]
    } else {
        OPERATION_MACHINE_CYCLES[op as int]
    }
}

/// A state with the cycle counter and program counter settled for `op`:
/// the table cycle cost, and the operand-length advance when the
/// instruction did not redirect the counter.
pub open spec fn clocked(c: CPU, op: u8, branched: bool, inc: bool) -> CPU {
    CPU {
        clock: Clock { m: cycles_of(op, branched), t: (cycles_of(op, branched) * 4) as u32 },
        program_counter: if inc {
            wrap16(c.program_counter + bytes_of(op))
        } else {
            c.program_counter
        },
        ..c
    }
}

/// Whether an enabled interrupt is pending: the intersection of the
/// enable mask and the request mask over the five sources.
pub open spec fn interrupt_pending(m: MmuV) -> bool {
    m.interrupt_enable_register & m.io_ports[15] & 0x1F != 0
}

} // verus!

verus! {

/// Flag-select value for the Zero flag (bit 7 of the flags byte).
pub const ZERO_BIT: u8 = 0x80;
/// Flag-select value for the Subtraction flag (bit 6).
pub const SUBTRACTION_BIT: u8 = 0x40;
/// Flag-select value for the Half-Carry flag (bit 5).
pub const HALF_CARRY_BIT: u8 = 0x20;
/// Flag-select value for the Carry flag (bit 4).
pub const CARRY_BIT: u8 = 0x10;

/// Interrupt-request/enable mask bit for the vertical-blank source.
pub const VBLANK_INTERRUPT_BIT: u8 = 0x01;
/// Interrupt mask bit for the LCD-status source.
pub const LCD_INTERRUPT_BIT: u8 = 0x02;
/// Interrupt mask bit for the timer source.
pub const TIMER_INTERRUPT_BIT: u8 = 0x04;
/// Interrupt mask bit for the serial source.
pub const SERIAL_INTERRUPT_BIT: u8 = 0x08;
/// Interrupt mask bit for the joypad source.
pub const JOYPAD_INTERRUPT_BIT: u8 = 0x10;

/// Per-step cycle cost: machine cycles and their four-fold clock-edge count.
#[verifier::ext_equal]
pub struct Clock {
    pub m: u32,
    pub t: u32,
}

/// The register file and step state of the execution unit.
///
/// The four condition flags are held unpacked; the flags byte is composed
/// on demand, so its low nibble is zero by construction.
#[verifier::ext_equal]
pub struct CPU {
    pub a: u8,
    pub b: u8,
    pub c: u8,
    pub d: u8,
    pub e: u8,
    pub h: u8,
    pub l: u8,
    pub flag_zero: bool,
    pub flag_subtract: bool,
    pub flag_half_carry: bool,
    pub flag_carry: bool,
    pub stack_pointer: u16,
    pub program_counter: u16,
    pub skip_bios: bool,
    pub clock: Clock,
    pub interrupt_master_enable: bool,
}

impl CPU {
    /// The composed flags byte: Zero, Subtraction, Half-Carry, Carry in the
    /// top nibble, low nibble always zero.
    pub open spec fn f_spec(self) -> u8 {
        ((if self.flag_zero { 0x80int } else { 0int })
            + (if self.flag_subtract { 0x40int } else { 0int })
            + (if self.flag_half_carry { 0x20int } else { 0int })
            + (if self.flag_carry { 0x10int } else { 0int })) as u8
    }

    /// The AF pair: accumulator high, flags byte low.
    pub open spec fn af_spec(self) -> u16 {
        (self.a * 256 + self.f_spec()) as u16
    }

    /// The BC pair.
    pub open spec fn bc_spec(self) -> u16 {
        (self.b * 256 + self.c) as u16
    }

    /// The DE pair.
    pub open spec fn de_spec(self) -> u16 {
        (self.d * 256 + self.e) as u16
    }

    /// The HL pair.
    pub open spec fn hl_spec(self) -> u16 {
        (self.h * 256 + self.l) as u16
    }

    /// Structural bounds every reachable execution-unit state satisfies:
    /// the cycle counter always holds a table entry and its clock-edge
    /// equivalent.
    pub open spec fn wf(self) -> bool {
        &&& self.clock.m <= 6
        &&& self.clock.t == self.clock.m * 4
    }

    /// Fresh execution unit: all registers cleared, interrupts enabled.
    pub fn new() -> (cpu: CPU)
        ensures
            cpu.a == 0 && cpu.b == 0 && cpu.c == 0 && cpu.d == 0,
            cpu.e == 0 && cpu.h == 0 && cpu.l == 0,
            !cpu.flag_zero && !cpu.flag_subtract && !cpu.flag_half_carry && !cpu.flag_carry,
            cpu.stack_pointer == 0,
            cpu.program_counter == 0,
            !cpu.skip_bios,
            cpu.clock.m == 0 && cpu.clock.t == 0,
            cpu.interrupt_master_enable,
            cpu.wf(),
    {
        CPU {
            a: 0,
            b: 0,
            c: 0,
            d: 0,
            e: 0,
            h: 0,
            l: 0,
            flag_zero: false,
            flag_subtract: false,
            flag_half_carry: false,
            flag_carry: false,
            stack_pointer: 0,
            program_counter: 0,
            skip_bios: false,
            clock: Clock { m: 0, t: 0 },
            interrupt_master_enable: true,
        }
    }

    /// The machine-cycle cost of the last executed instruction.
    pub fn get_clock_m(&self) -> (m: u32)
        ensures
            m == self.clock.m,
    {
        self.clock.m
    }

    /// The clock-edge cost of the last executed instruction.
    pub fn get_clock_t(&self) -> (t: u32)
        ensures
            t == self.clock.t,
    {
        self.clock.t
    }

    /// Read the accumulator.
    pub fn read_register_a(&self) -> (r: u8)
        ensures
            r == self.a,
    {
        self.a
    }

    /// Read register B.
    pub fn read_register_b(&self) -> (r: u8)
        ensures
            r == self.b,
    {
        self.b
    }

    /// Read register C.
    pub fn read_register_c(&self) -> (r: u8)
        ensures
            r == self.c,
    {
        self.c
    }

    /// Read register D.
    pub fn read_register_d(&self) -> (r: u8)
        ensures
            r == self.d,
    {
        self.d
    }

    /// Read register E.
    pub fn read_register_e(&self) -> (r: u8)
        ensures
            r == self.e,
    {
        self.e
    }

    /// Compose and read the flags byte.
    pub fn read_register_f(&self) -> (r: u8)
        ensures
            r == self.f_spec(),
    {
        (if self.flag_zero { 0x80u8 } else { 0u8 })
            + (if self.flag_subtract { 0x40u8 } else { 0u8 })
            + (if self.flag_half_carry { 0x20u8 } else { 0u8 })
            + (if self.flag_carry { 0x10u8 } else { 0u8 })
    }

    /// Read register H.
    pub fn read_register_h(&self) -> (r: u8)
        ensures
            r == self.h,
    {
        self.h
    }

    /// Read register L.
    pub fn read_register_l(&self) -> (r: u8)
        ensures
            r == self.l,
    {
        self.l
    }

    /// Read the AF pair.
    pub fn read_register_af(&self) -> (r: u16)
        ensures
            r == self.af_spec(),
    {
        self.a as u16 * 256 + self.read_register_f() as u16
    }

    /// Read the BC pair.
    pub fn read_register_bc(&self) -> (r: u16)
        ensures
            r == self.bc_spec(),
    {
        self.b as u16 * 256 + self.c as u16
    }

    /// Read the DE pair.
    pub fn read_register_de(&self) -> (r: u16)
        ensures
            r == self.de_spec(),
    {
        self.d as u16 * 256 + self.e as u16
    }

    /// Read the HL pair.
    pub fn read_register_hl(&self) -> (r: u16)
        ensures
            r == self.hl_spec(),
    {
        self.h as u16 * 256 + self.l as u16
    }

    /// Write the accumulator.
    pub fn write_register_a(&mut self, a: u8)
        ensures
            *final(self) == (CPU { a, ..*old(self) }),
    {
        self.a = a;
    }

    /// Write register B.
    pub fn write_register_b(&mut self, b: u8)
        ensures
            *final(self) == (CPU { b, ..*old(self) }),
    {
        self.b = b;
    }

    /// Write register C.
    pub fn write_register_c(&mut self, c: u8)
        ensures
            *final(self) == (CPU { c, ..*old(self) }),
    {
        self.c = c;
    }

    /// Write register D.
    pub fn write_register_d(&mut self, d: u8)
        ensures
            *final(self) == (CPU { d, ..*old(self) }),
    {
        self.d = d;
    }

    /// Write register E.
    pub fn write_register_e(&mut self, e: u8)
        ensures
            *final(self) == (CPU { e, ..*old(self) }),
    {
        self.e = e;
    }

    /// Write the flags byte; only the top nibble is significant.
    pub fn write_register_f(&mut self, f: u8)
        ensures
            *final(self) == (CPU {
                flag_zero: f & 0x80 != 0,
                flag_subtract: f & 0x40 != 0,
                flag_half_carry: f & 0x20 != 0,
                flag_carry: f & 0x10 != 0,
                ..*old(self)
            }),
    {
        self.flag_zero = f & 0x80 != 0;
        self.flag_subtract = f & 0x40 != 0;
        self.flag_half_carry = f & 0x20 != 0;
        self.flag_carry = f & 0x10 != 0;
    }

    /// Write register H.
    pub fn write_register_h(&mut self, h: u8)
        ensures
            *final(self) == (CPU { h, ..*old(self) }),
    {
        self.h = h;
    }

    /// Write register L.
    pub fn write_register_l(&mut self, l: u8)
        ensures
            *final(self) == (CPU { l, ..*old(self) }),
    {
        self.l = l;
    }

    /// Write the AF pair: accumulator from the high byte, flags from the
    /// top nibble of the low byte.
    pub fn write_register_af(&mut self, af: u16)
        ensures
            *final(self) == (CPU {
                a: (af / 256) as u8,
                flag_zero: (af % 256) as u8 & 0x80 != 0,
                flag_subtract: (af % 256) as u8 & 0x40 != 0,
                flag_half_carry: (af % 256) as u8 & 0x20 != 0,
                flag_carry: (af % 256) as u8 & 0x10 != 0,
                ..*old(self)
            }),
    {
        self.a = (af / 256) as u8;
        let fb = (af % 256) as u8;
        self.write_register_f(fb);
    }

    /// Write the BC pair.
    pub fn write_register_bc(&mut self, bc: u16)
        ensures
            *final(self) == (CPU { b: (bc / 256) as u8, c: (bc % 256) as u8, ..*old(self) }),
            final(self).bc_spec() == bc,
    {
        self.b = (bc / 256) as u8;
        self.c = (bc % 256) as u8;
    }

    /// Write the DE pair.
    pub fn write_register_de(&mut self, de: u16)
        ensures
            *final(self) == (CPU { d: (de / 256) as u8, e: (de % 256) as u8, ..*old(self) }),
            final(self).de_spec() == de,
    {
        self.d = (de / 256) as u8;
        self.e = (de % 256) as u8;
    }

    /// Write the HL pair.
    pub fn write_register_hl(&mut self, hl: u16)
        ensures
            *final(self) == (CPU { h: (hl / 256) as u8, l: (hl % 256) as u8, ..*old(self) }),
            final(self).hl_spec() == hl,
    {
        self.h = (hl / 256) as u8;
        self.l = (hl % 256) as u8;
    }

    /// The flag selected by a flag-select constant, as 0 or 1.
    pub open spec fn read_flag_spec(self, flag: u8) -> u8 {
        if flag == ZERO_BIT {
            if self.flag_zero { 1 } else { 0 }
        } else if flag == SUBTRACTION_BIT {
            if self.flag_subtract { 1 } else { 0 }
        } else if flag == HALF_CARRY_BIT {
            if self.flag_half_carry { 1 } else { 0 }
        } else {
            if self.flag_carry { 1 } else { 0 }
        }
    }

    /// Read one flag as 0 or 1.
    pub fn read_flag(&self, flag: u8) -> (r: u8)
        requires
            flag == ZERO_BIT || flag == SUBTRACTION_BIT || flag == HALF_CARRY_BIT
                || flag == CARRY_BIT,
        ensures
            r == self.read_flag_spec(flag),
    {
        if flag == ZERO_BIT {
            if self.flag_zero { 1 } else { 0 }
        } else if flag == SUBTRACTION_BIT {
            if self.flag_subtract { 1 } else { 0 }
        } else if flag == HALF_CARRY_BIT {
            if self.flag_half_carry { 1 } else { 0 }
        } else {
            if self.flag_carry { 1 } else { 0 }
        }
    }

    /// The state with one flag forced to `v`.
    pub open spec fn with_flag_spec(self, flag: u8, v: bool) -> CPU {
        if flag == ZERO_BIT {
            CPU { flag_zero: v, ..self }
        } else if flag == SUBTRACTION_BIT {
            CPU { flag_subtract: v, ..self }
        } else if flag == HALF_CARRY_BIT {
            CPU { flag_half_carry: v, ..self }
        } else {
            CPU { flag_carry: v, ..self }
        }
    }

    /// Set one flag.
    pub fn set_flag_bit(&mut self, bit: u8)
        requires
            bit == ZERO_BIT || bit == SUBTRACTION_BIT || bit == HALF_CARRY_BIT
                || bit == CARRY_BIT,
        ensures
            *final(self) == old(self).with_flag_spec(bit, true),
    {
        if bit == ZERO_BIT {
            self.flag_zero = true;
        } else if bit == SUBTRACTION_BIT {
            self.flag_subtract = true;
        } else if bit == HALF_CARRY_BIT {
            self.flag_half_carry = true;
        } else {
            self.flag_carry = true;
        }
    }

    /// Clear one flag.
    pub fn unset_flag_bit(&mut self, bit: u8)
        requires
            bit == ZERO_BIT || bit == SUBTRACTION_BIT || bit == HALF_CARRY_BIT
                || bit == CARRY_BIT,
        ensures
            *final(self) == old(self).with_flag_spec(bit, false),
    {
        if bit == ZERO_BIT {
            self.flag_zero = false;
        } else if bit == SUBTRACTION_BIT {
            self.flag_subtract = false;
        } else if bit == HALF_CARRY_BIT {
            self.flag_half_carry = false;
        } else {
            self.flag_carry = false;
        }
    }

    /// The lowest bit of a byte.
    pub fn least_significant_bit(&self, x: u8) -> (r: u8)
        ensures
            r == x & 0x01,
    {
        x & 0x01
    }

    /// The highest bit of a byte, in place.
    pub fn most_significant_bit(&self, x: u8) -> (r: u8)
        ensures
            r == x & 0x80,
    {
        x & 0x80
    }

    /// The lowest bit of a word.
    pub fn least_significant_bit_u16(&self, x: u16) -> (r: u16)
        ensures
            r == x & 0x01,
    {
        x & 0x01
    }

    /// The highest bit of a word, in place.
    pub fn most_significant_bit_u16(&self, x: u16) -> (r: u16)
        ensures
            r == x & 0x8000,
    {
        x & 0x8000
    }
}

// Arithmetic/logic helpers. Each one both computes its result and fixes the
// four condition flags exactly as the instruction family demands; the
// contracts are value-exact so the dispatchers inherit precise flag
// semantics.
impl CPU {
    /// Increment for the INC r family: Half-Carry iff the low nibble was
    /// 0xF, Zero iff the wrapped result is 0, Subtraction cleared, Carry
    /// untouched.
    pub fn increase_register_u8(&mut self, value: u8) -> (r: u8)
        ensures
            r == (value + 1) % 256,
            *final(self) == (CPU {
                flag_zero: (value + 1) % 256 == 0,
                flag_subtract: false,
                flag_half_carry: value & 0xF == 0xF,
                ..*old(self)
            }),
    {
        self.flag_half_carry = value & 0xF == 0xF;
        let result = ((value as u16 + 1) % 256) as u8;
        self.flag_zero = result == 0;
        self.flag_subtract = false;
        result
    }

    /// Decrement for the DEC r family: Half-Carry iff a borrow crosses
    /// bit 3, Zero iff the wrapped result is 0, Subtraction set, Carry
    /// untouched.
    pub fn decrease_register_u8(&mut self, value: u8) -> (r: u8)
        ensures
            r == (value - 1) % 256,
            *final(self) == (CPU {
                flag_zero: (value - 1) % 256 == 0,
                flag_subtract: true,
                flag_half_carry: ((value - 1) % 256) as u8 & 0x0F == 0x0F,
                ..*old(self)
            }),
    {
        self.flag_subtract = true;
        let result = value.wrapping_sub(1);
        self.flag_zero = result == 0;
        self.flag_half_carry = result & 0x0F == 0x0F;
        result
    }

    /// Rotate left, bit 7 into both bit 0 and Carry. The Zero flag is set
    /// from the result only for the prefixed form.
    pub fn rotate_left(&mut self, value: u8, is_prefixed: bool) -> (r: u8)
        ensures
            r == ((value << 1) | (if value & 0x80 != 0 { 1u8 } else { 0u8 })),
            *final(self) == (CPU {
                flag_zero: is_prefixed
                    && ((value << 1) | (if value & 0x80 != 0 { 1u8 } else { 0u8 })) == 0,
                flag_subtract: false,
                flag_half_carry: false,
                flag_carry: value & 0x80 != 0,
                ..*old(self)
            }),
    {
        self.flag_subtract = false;
        self.flag_half_carry = false;
        let carry_out = value & 0x80 != 0;
        self.flag_carry = carry_out;
        let result = (value << 1) | (if carry_out { 1u8 } else { 0u8 });
        self.flag_zero = is_prefixed && result == 0;
        result
    }

    /// Rotate left through Carry: the old Carry enters bit 0, bit 7 leaves
    /// into Carry.
    pub fn rotate_left_through_carry(&mut self, value: u8, is_prefixed: bool) -> (r: u8)
        ensures
            r == ((value << 1) | (if old(self).flag_carry { 1u8 } else { 0u8 })),
            *final(self) == (CPU {
                flag_zero: is_prefixed
                    && ((value << 1) | (if old(self).flag_carry { 1u8 } else { 0u8 })) == 0,
                flag_subtract: false,
                flag_half_carry: false,
                flag_carry: value & 0x80 != 0,
                ..*old(self)
            }),
    {
        let carry_in = self.flag_carry;
        self.flag_subtract = false;
        self.flag_half_carry = false;
        self.flag_carry = value & 0x80 != 0;
        let result = (value << 1) | (if carry_in { 1u8 } else { 0u8 });
        self.flag_zero = is_prefixed && result == 0;
        result
    }

    /// Rotate right, bit 0 into both bit 7 and Carry.
    pub fn rotate_right(&mut self, value: u8, is_prefixed: bool) -> (r: u8)
        ensures
            r == ((value >> 1) | (if value & 0x01 != 0 { 0x80u8 } else { 0u8 })),
            *final(self) == (CPU {
                flag_zero: is_prefixed
                    && ((value >> 1) | (if value & 0x01 != 0 { 0x80u8 } else { 0u8 })) == 0,
                flag_subtract: false,
                flag_half_carry: false,
                flag_carry: value & 0x01 != 0,
                ..*old(self)
            }),
    {
        self.flag_subtract = false;
        self.flag_half_carry = false;
        let carry_out = value & 0x01 != 0;
        self.flag_carry = carry_out;
        let result = (value >> 1) | (if carry_out { 0x80u8 } else { 0u8 });
        self.flag_zero = is_prefixed && result == 0;
        result
    }

    /// Rotate right through Carry: the old Carry enters bit 7, bit 0 leaves
    /// into Carry.
    pub fn rotate_right_through_carry(&mut self, value: u8, is_prefixed: bool) -> (r: u8)
        ensures
            r == ((value >> 1) | (if old(self).flag_carry { 0x80u8 } else { 0u8 })),
            *final(self) == (CPU {
                flag_zero: is_prefixed
                    && ((value >> 1) | (if old(self).flag_carry { 0x80u8 } else { 0u8 })) == 0,
                flag_subtract: false,
                flag_half_carry: false,
                flag_carry: value & 0x01 != 0,
                ..*old(self)
            }),
    {
        let carry_in = self.flag_carry;
        self.flag_subtract = false;
        self.flag_half_carry = false;
        self.flag_carry = value & 0x01 != 0;
        let result = (value >> 1) | (if carry_in { 0x80u8 } else { 0u8 });
        self.flag_zero = is_prefixed && result == 0;
        result
    }

    /// Arithmetic shift left: bit 7 into Carry, Zero from the result.
    pub fn shift_left(&mut self, value: u8) -> (r: u8)
        ensures
            r == value << 1,
            *final(self) == (CPU {
                flag_zero: value << 1 == 0,
                flag_subtract: false,
                flag_half_carry: false,
                flag_carry: value & 0x80 != 0,
                ..*old(self)
            }),
    {
        self.flag_subtract = false;
        self.flag_half_carry = false;
        self.flag_carry = value & 0x80 != 0;
        let result = value << 1;
        self.flag_zero = result == 0;
        result
    }

    /// Logical shift right: bit 0 into Carry, Zero from the result.
    pub fn shift_right(&mut self, value: u8) -> (r: u8)
        ensures
            r == value >> 1,
            *final(self) == (CPU {
                flag_zero: value >> 1 == 0,
                flag_subtract: false,
                flag_half_carry: false,
                flag_carry: value & 0x01 != 0,
                ..*old(self)
            }),
    {
        self.flag_subtract = false;
        self.flag_half_carry = false;
        self.flag_carry = value & 0x01 != 0;
        let result = value >> 1;
        self.flag_zero = result == 0;
        result
    }

    /// Arithmetic shift right: bit 7 is preserved, bit 0 into Carry.
    pub fn shift_right_preserve_msb(&mut self, value: u8) -> (r: u8)
        ensures
            r == (if value & 0x80 != 0 { (value >> 1) | 0x80u8 } else { value >> 1 }),
            *final(self) == (CPU {
                flag_zero: (if value & 0x80 != 0 { (value >> 1) | 0x80u8 } else { value >> 1 })
                    == 0,
                flag_subtract: false,
                flag_half_carry: false,
                flag_carry: value & 0x01 != 0,
                ..*old(self)
            }),
    {
        self.flag_subtract = false;
        self.flag_half_carry = false;
        self.flag_carry = value & 0x01 != 0;
        let result = if value & 0x80 != 0 { (value >> 1) | 0x80u8 } else { value >> 1 };
        self.flag_zero = result == 0;
        result
    }

    /// 8-bit add into the accumulator. Carry iff the true sum exceeds 255,
    /// Half-Carry iff the low nibbles alone exceed 15, Zero iff the wrapped
    /// result is 0, Subtraction always cleared.
    pub fn add_u8_to_a(&mut self, value: u8)
        ensures
            final(self).a == (old(self).a + value) % 256,
            final(self).flag_carry <==> old(self).a + value > 255,
            final(self).flag_half_carry <==> (old(self).a & 0xF) + (value & 0xF) > 15,
            final(self).flag_zero <==> (old(self).a + value) % 256 == 0,
            !final(self).flag_subtract,
            *final(self) == (CPU {
                a: ((old(self).a + value) % 256) as u8,
                flag_zero: (old(self).a + value) % 256 == 0,
                flag_subtract: false,
                flag_half_carry: (old(self).a & 0xF) + (value & 0xF) > 15,
                flag_carry: old(self).a + value > 255,
                ..*old(self)
            }),
    {
        let a = self.a;
        self.flag_subtract = false;
        self.flag_carry = a as u16 + value as u16 > 255;
        self.flag_half_carry = (a & 0xF) as u16 + (value & 0xF) as u16 > 15;
        let result = ((a as u16 + value as u16) % 256) as u8;
        self.flag_zero = result == 0;
        self.a = result;
    }

    /// 8-bit add with carry into the accumulator; flags as for the plain
    /// add but over the three-way sum.
    pub fn add_u8_and_carry_to_a(&mut self, value: u8)
        ensures
            *final(self) == (CPU {
                a: ((old(self).a + value + old(self).read_flag_spec(CARRY_BIT)) % 256) as u8,
                flag_zero: (old(self).a + value + old(self).read_flag_spec(CARRY_BIT)) % 256
                    == 0,
                flag_subtract: false,
                flag_half_carry: (old(self).a & 0xF) + (value & 0xF)
                    + old(self).read_flag_spec(CARRY_BIT) > 15,
                flag_carry: old(self).a + value + old(self).read_flag_spec(CARRY_BIT) > 255,
                ..*old(self)
            }),
    {
        let a = self.a;
        let carry: u8 = if self.flag_carry { 1 } else { 0 };
        let sum = a as u16 + value as u16 + carry as u16;
        self.flag_carry = sum > 255;
        self.flag_subtract = false;
        self.flag_half_carry = (a & 0xF) as u16 + (value & 0xF) as u16 + carry as u16 > 15;
        let result = (sum % 256) as u8;
        self.flag_zero = result == 0;
        self.a = result;
    }

    /// 16-bit add into HL: Carry out of bit 15, Half-Carry out of bit 11,
    /// Subtraction cleared, Zero untouched.
    pub fn add_u16_to_hl(&mut self, value: u16)
        ensures
            final(self).hl_spec() == (old(self).hl_spec() + value) % 0x10000,
            *final(self) == (CPU {
                h: ((old(self).hl_spec() + value) % 0x10000 / 256) as u8,
                l: ((old(self).hl_spec() + value) % 0x10000 % 256) as u8,
                flag_subtract: false,
                flag_half_carry: (old(self).hl_spec() & 0x0FFF) + (value & 0x0FFF) > 0x0FFF,
                flag_carry: old(self).hl_spec() + value > 0xFFFF,
                ..*old(self)
            }),
    {
        let hl = self.read_register_hl();
        self.flag_subtract = false;
        self.flag_half_carry = (hl & 0x0FFF) as u32 + (value & 0x0FFF) as u32 > 0x0FFF;
        self.flag_carry = hl as u32 + value as u32 > 0xFFFF;
        let result = ((hl as u32 + value as u32) % 0x10000) as u16;
        self.write_register_hl(result);
    }

    /// 8-bit subtract from the accumulator: Carry iff a borrow is needed,
    /// Half-Carry iff the low nibbles borrow, Subtraction set.
    pub fn subtract_u8_from_a(&mut self, value: u8)
        ensures
            *final(self) == (CPU {
                a: ((old(self).a - value) % 256) as u8,
                flag_zero: old(self).a == value,
                flag_subtract: true,
                flag_half_carry: (old(self).a & 0xF) < (value & 0xF),
                flag_carry: old(self).a < value,
                ..*old(self)
            }),
    {
        let a = self.a;
        self.flag_subtract = true;
        self.flag_carry = a < value;
        self.flag_half_carry = (a & 0xF) < (value & 0xF);
        let result = a.wrapping_sub(value);
        self.flag_zero = result == 0;
        self.a = result;
    }

    /// 8-bit subtract with borrow from the accumulator.
    pub fn subtract_u8_and_carry_from_a(&mut self, value: u8)
        ensures
            *final(self) == (CPU {
                a: ((old(self).a - value - old(self).read_flag_spec(CARRY_BIT)) % 256) as u8,
                flag_zero: (old(self).a - value - old(self).read_flag_spec(CARRY_BIT)) % 256
                    == 0,
                flag_subtract: true,
                flag_half_carry: (old(self).a & 0xF)
                    < (value & 0xF) + old(self).read_flag_spec(CARRY_BIT),
                flag_carry: old(self).a < value + old(self).read_flag_spec(CARRY_BIT),
                ..*old(self)
            }),
    {
        let a = self.a;
        let carry: u8 = if self.flag_carry { 1 } else { 0 };
        self.flag_carry = (a as u16) < value as u16 + carry as u16;
        self.flag_half_carry = ((a & 0xF) as u16) < (value & 0xF) as u16 + carry as u16;
        let result = a.wrapping_sub(value).wrapping_sub(carry);
        self.flag_zero = result == 0;
        self.flag_subtract = true;
        self.a = result;
    }

    /// Bitwise AND into the accumulator: Half-Carry set, Carry and
    /// Subtraction cleared, Zero from the result.
    pub fn and_with_register_a(&mut self, value: u8)
        ensures
            *final(self) == (CPU {
                a: old(self).a & value,
                flag_zero: old(self).a & value == 0,
                flag_subtract: false,
                flag_half_carry: true,
                flag_carry: false,
                ..*old(self)
            }),
    {
        let result = self.a & value;
        self.flag_zero = result == 0;
        self.flag_subtract = false;
        self.flag_carry = false;
        self.flag_half_carry = true;
        self.a = result;
    }

    /// Bitwise OR into the accumulator: all of Subtraction, Half-Carry and
    /// Carry cleared, Zero from the result.
    pub fn or_with_register_a(&mut self, value: u8)
        ensures
            *final(self) == (CPU {
                a: old(self).a | value,
                flag_zero: old(self).a | value == 0,
                flag_subtract: false,
                flag_half_carry: false,
                flag_carry: false,
                ..*old(self)
            }),
    {
        let result = self.a | value;
        self.flag_zero = result == 0;
        self.flag_subtract = false;
        self.flag_half_carry = false;
        self.flag_carry = false;
        self.a = result;
    }

    /// Bitwise XOR into the accumulator; flags as for OR.
    pub fn xor_with_register_a(&mut self, value: u8)
        ensures
            *final(self) == (CPU {
                a: old(self).a ^ value,
                flag_zero: old(self).a ^ value == 0,
                flag_subtract: false,
                flag_half_carry: false,
                flag_carry: false,
                ..*old(self)
            }),
    {
        let result = self.a ^ value;
        self.flag_zero = result == 0;
        self.flag_subtract = false;
        self.flag_half_carry = false;
        self.flag_carry = false;
        self.a = result;
    }

    /// Compare against the accumulator: the flags of a subtract, with the
    /// accumulator left unchanged.
    pub fn compare_with_register_a(&mut self, value: u8)
        ensures
            *final(self) == (CPU {
                flag_zero: old(self).a == value,
                flag_subtract: true,
                flag_half_carry: (old(self).a & 0xF) < (value & 0xF),
                flag_carry: old(self).a < value,
                ..*old(self)
            }),
    {
        let a = self.a;
        self.flag_subtract = true;
        self.flag_zero = a == value;
        self.flag_carry = a < value;
        self.flag_half_carry = (a & 0xF) < (value & 0xF);
    }

    /// Test one bit: Zero iff the bit is clear, Half-Carry set,
    /// Subtraction cleared.
    pub fn test_bit(&mut self, value: u8, bit: u8)
        requires
            bit < 8,
        ensures
            *final(self) == (CPU {
                flag_zero: value & (1u8 << bit) == 0,
                flag_subtract: false,
                flag_half_carry: true,
                ..*old(self)
            }),
    {
        let mask: u8 = 1u8 << bit;
        self.flag_zero = value & mask == 0;
        self.flag_half_carry = true;
        self.flag_subtract = false;
    }

    /// Set one bit; no flags change.
    pub fn set_bit(&mut self, value: u8, bit: u8) -> (r: u8)
        requires
            bit < 8,
        ensures
            r == value | (1u8 << bit),
            *final(self) == *old(self),
    {
        value | (1u8 << bit)
    }

    /// Clear one bit; no flags change.
    pub fn reset_bit(&mut self, value: u8, bit: u8) -> (r: u8)
        requires
            bit < 8,
        ensures
            r == value & !(1u8 << bit),
            *final(self) == *old(self),
    {
        value & !(1u8 << bit)
    }

    /// Swap the two nibbles of a byte: Zero from the result, the other
    /// flags cleared.
    pub fn swap_byte(&mut self, value: u8) -> (r: u8)
        ensures
            r == (value % 16) * 16 + value / 16,
            *final(self) == (CPU {
                flag_zero: (value % 16) * 16 + value / 16 == 0,
                flag_subtract: false,
                flag_half_carry: false,
                flag_carry: false,
                ..*old(self)
            }),
    {
        self.flag_subtract = false;
        self.flag_half_carry = false;
        self.flag_carry = false;
        let result = (value % 16) * 16 + value / 16;
        self.flag_zero = result == 0;
        result
    }
}

} // verus!

verus! {

/// The address a plain store writes to.
pub open spec fn store_addr(c: CPU, m: MmuV, op: u8) -> u16 {
    if op == 0x02 {
        c.bc_spec()
    } else if op == 0x12 {
        c.de_spec()
    } else if op == 0xE0 {
        (0xFF00 + imm8(c, m)) as u16
    } else if op == 0xE2 {
        (0xFF00 + c.c) as u16
    } else if op == 0xEA {
        imm16(c, m)
    } else {
        c.hl_spec()
    }
}

/// The byte a plain store writes.
pub open spec fn store_val(c: CPU, m: MmuV, op: u8) -> u8 {
    if op == 0x36 {
        imm8(c, m)
    } else if op == 0x70 {
        c.b
    } else if op == 0x71 {
        c.c
    } else if op == 0x72 {
        c.d
    } else if op == 0x73 {
        c.e
    } else if op == 0x74 {
        c.h
    } else if op == 0x75 {
        c.l
    } else {
        c.a
    }
}

/// The register side effect of the auto-increment/decrement stores.
pub open spec fn store_hl_adjust(c: CPU, op: u8) -> CPU {
    if op == 0x22 {
        set_pair(c, 2, wrap16(c.hl_spec() + 1))
    } else if op == 0x32 {
        set_pair(c, 2, wrap16(c.hl_spec() - 1))
    } else {
        c
    }
}

/// The bit a prefixed bit-test/set/clear selects.
pub open spec fn bit_mask(sub: int) -> u8 {
    1u8 << (sub as u8)
}

/// The interrupt vector of a source bit.
pub open spec fn vector_of(bit: u8) -> u16 {
    if bit == VBLANK_INTERRUPT_BIT {
        0x0040
    } else if bit == LCD_INTERRUPT_BIT {
        0x0048
    } else if bit == TIMER_INTERRUPT_BIT {
        0x0050
    } else if bit == SERIAL_INTERRUPT_BIT {
        0x0058
    } else {
        0x0060
    }
}

/// The whole observable effect of dispatching one base-table opcode `op`
/// from state (`c0`, `m0`) to state (`c1`, `m1`) with outcome `r`: cycle
/// costs and program-counter movement for every opcode, and the exact
/// register, flag and memory effect of each instruction family.
pub open spec fn base_step_clauses(c0: CPU, m0: MmuV, c1: CPU, m1: MmuV,
    r: Result<(), Fault>, op: u8) -> bool {
    &&& (reserved_opcode(op) ==> r == Err::<(), Fault>(Fault::ReservedOpcode(op))
        && c1 == c0 && m1 == m0)
    &&& (!reserved_opcode(op) && r is Ok ==> c1.clock.m == cycles_of(op,
        cond_opcode(op) && cond_taken(c0, op)) && c1.clock.t == c1.clock.m * 4)
    &&& (!reserved_opcode(op) && !writes_mem_opcode(op) ==> r is Ok && m1 == m0)
    &&& (plain_opcode(op) && r is Ok ==> c1.program_counter
        == wrap16(c0.program_counter + bytes_of(op)))
    &&& (!reserved_opcode(op) && r is Ok && op != 0xF3 && op != 0xFB && op != 0xD9
        ==> c1.interrupt_master_enable == c0.interrupt_master_enable)
    &&& (!reserved_opcode(op) && r is Ok ==> c1.skip_bios == c0.skip_bios)
    &&& (cond_opcode(op) && !cond_taken(c0, op) ==> r is Ok && m1 == m0
        && c1 == clocked(c0, op, false, true))
    &&& (op == 0x76 ==> r is Ok && m1 == m0 && c1 == (CPU {
        program_counter: if interrupt_pending(m0) {
            wrap16(c0.program_counter + 1)
        } else {
            c0.program_counter
        },
        clock: Clock { m: 1, t: 4 },
        ..c0
    }))
    &&& (0x40 <= op < 0x80 && op != 0x76 && op / 8 % 8 != 6 ==> r is Ok && m1 == m0
        && c1 == clocked(set_reg8(c0, op as int / 8 % 8, operand8(c0, m0, op as int % 8)), op,
            false, true))
    &&& (0x80 <= op < 0xC0 ==> r is Ok && m1 == m0
        && c1 == clocked(alu_apply(c0, op as int / 8 % 8, operand8(c0, m0, op as int % 8)), op,
            false, true))
    &&& ((op == 0xC6 || op == 0xCE || op == 0xD6 || op == 0xDE || op == 0xE6 || op == 0xEE
        || op == 0xF6 || op == 0xFE) ==> r is Ok && m1 == m0
        && c1 == clocked(alu_apply(c0, op as int / 8 % 8, imm8(c0, m0)), op, false, true))
    &&& (store_opcode(op) ==> {
        let addr = store_addr(c0, m0, op);
        let val = store_val(c0, m0, op);
        &&& (r is Ok <==> write_ok(m0, addr, val))
        &&& (r is Ok ==> m1 == write_spec(m0, addr, val)
            && c1 == clocked(store_hl_adjust(c0, op), op, false, true))
        &&& (r is Err ==> c1 == c0 && m1 == m0
            && r == Err::<(), Fault>(write_fault(m0, addr, val)))
    })
    &&& (op == 0x34 ==> {
        let v = read_spec(m0, c0.hl_spec());
        let res = ((v + 1) % 256) as u8;
        &&& (r is Ok <==> write_ok(m0, c0.hl_spec(), res))
        &&& (r is Ok ==> m1 == write_spec(m0, c0.hl_spec(), res)
            && c1 == clocked(inc8_cpu(c0, v), op, false, true))
        &&& (r is Err ==> m1 == m0)
    })
    &&& (op == 0x35 ==> {
        let v = read_spec(m0, c0.hl_spec());
        let res = ((v - 1) % 256) as u8;
        &&& (r is Ok <==> write_ok(m0, c0.hl_spec(), res))
        &&& (r is Ok ==> m1 == write_spec(m0, c0.hl_spec(), res)
            && c1 == clocked(dec8_cpu(c0, v), op, false, true))
        &&& (r is Err ==> m1 == m0)
    })
    &&& (op == 0x08 ==> {
        &&& (r is Ok <==> write16_ok(m0, imm16(c0, m0), c0.stack_pointer))
        &&& (r is Ok ==> m1 == write16_spec(m0, imm16(c0, m0), c0.stack_pointer)
            && c1 == clocked(c0, op, false, true))
    })
    &&& ((op == 0x01 || op == 0x11 || op == 0x21 || op == 0x31) ==> r is Ok && m1 == m0
        && c1 == clocked(set_pair(c0, op as int / 16, imm16(c0, m0)), op, false, true))
    &&& ((op == 0x03 || op == 0x13 || op == 0x23 || op == 0x33) ==> r is Ok && m1 == m0
        && c1 == clocked(set_pair(c0, op as int / 16,
            wrap16(get_pair(c0, op as int / 16) + 1)), op, false, true))
    &&& ((op == 0x0B || op == 0x1B || op == 0x2B || op == 0x3B) ==> r is Ok && m1 == m0
        && c1 == clocked(set_pair(c0, op as int / 16,
            wrap16(get_pair(c0, op as int / 16) - 1)), op, false, true))
    &&& ((op == 0x04 || op == 0x0C || op == 0x14 || op == 0x1C || op == 0x24 || op == 0x2C
        || op == 0x3C) ==> r is Ok && m1 == m0
        && c1 == clocked(set_reg8(inc8_cpu(c0, operand8(c0, m0, op as int / 8)),
            op as int / 8, ((operand8(c0, m0, op as int / 8) + 1) % 256) as u8), op,
            false, true))
    &&& ((op == 0x05 || op == 0x0D || op == 0x15 || op == 0x1D || op == 0x25 || op == 0x2D
        || op == 0x3D) ==> r is Ok && m1 == m0
        && c1 == clocked(set_reg8(dec8_cpu(c0, operand8(c0, m0, op as int / 8)),
            op as int / 8, ((operand8(c0, m0, op as int / 8) - 1) % 256) as u8), op,
            false, true))
    &&& ((op == 0x06 || op == 0x0E || op == 0x16 || op == 0x1E || op == 0x26 || op == 0x2E
        || op == 0x3E) ==> r is Ok && m1 == m0
        && c1 == clocked(set_reg8(c0, op as int / 8, imm8(c0, m0)), op, false, true))
    &&& (op == 0x0A ==> r is Ok && m1 == m0
        && c1 == clocked((CPU { a: read_spec(m0, c0.bc_spec()), ..c0 }), op, false, true))
    &&& (op == 0x1A ==> r is Ok && m1 == m0
        && c1 == clocked((CPU { a: read_spec(m0, c0.de_spec()), ..c0 }), op, false, true))
    &&& (op == 0x2A ==> r is Ok && m1 == m0
        && c1 == clocked(set_pair((CPU { a: read_spec(m0, c0.hl_spec()), ..c0 }), 2,
            wrap16(c0.hl_spec() + 1)), op, false, true))
    &&& (op == 0x3A ==> r is Ok && m1 == m0
        && c1 == clocked(set_pair((CPU { a: read_spec(m0, c0.hl_spec()), ..c0 }), 2,
            wrap16(c0.hl_spec() - 1)), op, false, true))
    &&& ((op == 0x07 || op == 0x0F || op == 0x17 || op == 0x1F) ==> r is Ok && m1 == m0
        && c1 == clocked((CPU {
            a: rot_result(c0, op as int / 8, c0.a),
            ..rot_cpu(c0, op as int / 8, c0.a, false)
        }), op, false, true))
    &&& ((op == 0x09 || op == 0x19 || op == 0x29 || op == 0x39) ==> r is Ok && m1 == m0
        && c1 == clocked(addhl_cpu(c0, get_pair(c0, op as int / 16)), op, false, true))
    &&& (op == 0x00 ==> r is Ok && m1 == m0 && c1 == clocked(c0, op, false, true))
    &&& (op == 0x27 ==> r is Ok && m1 == m0 && c1 == clocked(daa_cpu(c0), op, false, true))
    &&& (op == 0x2F ==> r is Ok && m1 == m0 && c1 == clocked((CPU {
        a: !c0.a,
        flag_subtract: true,
        flag_half_carry: true,
        ..c0
    }), op, false, true))
    &&& (op == 0x37 ==> r is Ok && m1 == m0 && c1 == clocked((CPU {
        flag_carry: true,
        flag_half_carry: false,
        flag_subtract: false,
        ..c0
    }), op, false, true))
    &&& (op == 0x3F ==> r is Ok && m1 == m0 && c1 == clocked((CPU {
        flag_carry: !c0.flag_carry,
        flag_half_carry: false,
        flag_subtract: false,
        ..c0
    }), op, false, true))
    &&& (op == 0x18 ==> r is Ok && m1 == m0
        && c1 == clocked((CPU { program_counter: jr_dest(c0, m0), ..c0 }), op, false,
            false))
    &&& ((op == 0x20 || op == 0x28 || op == 0x30 || op == 0x38) && cond_taken(c0, op)
        ==> r is Ok && m1 == m0
        && c1 == clocked((CPU { program_counter: jr_dest(c0, m0), ..c0 }), op, true,
            false))
    &&& (op == 0xC3 ==> r is Ok && m1 == m0
        && c1 == clocked((CPU { program_counter: imm16(c0, m0), ..c0 }), op, false,
            false))
    &&& ((op == 0xC2 || op == 0xCA || op == 0xD2 || op == 0xDA) && cond_taken(c0, op)
        ==> r is Ok && m1 == m0
        && c1 == clocked((CPU { program_counter: imm16(c0, m0), ..c0 }), op, true,
            false))
    &&& (op == 0xE9 ==> r is Ok && m1 == m0
        && c1 == clocked((CPU { program_counter: c0.hl_spec(), ..c0 }), op, false,
            false))
    &&& (op == 0xC9 ==> r is Ok && m1 == m0 && c1 == clocked((CPU {
        program_counter: read16_spec(m0, c0.stack_pointer),
        stack_pointer: wrap16(c0.stack_pointer + 2),
        ..c0
    }), op, false, false))
    &&& (op == 0xD9 ==> r is Ok && m1 == m0 && c1 == clocked((CPU {
        program_counter: read16_spec(m0, c0.stack_pointer),
        stack_pointer: wrap16(c0.stack_pointer + 2),
        interrupt_master_enable: true,
        ..c0
    }), op, false, false))
    &&& ((op == 0xC0 || op == 0xC8 || op == 0xD0 || op == 0xD8) && cond_taken(c0, op)
        ==> r is Ok && m1 == m0 && c1 == clocked((CPU {
        program_counter: read16_spec(m0, c0.stack_pointer),
        stack_pointer: wrap16(c0.stack_pointer + 2),
        ..c0
    }), op, true, false))
    &&& ((op == 0xCD || ((op == 0xC4 || op == 0xCC || op == 0xD4 || op == 0xDC)
        && cond_taken(c0, op))) ==> {
        let sp2 = wrap16(c0.stack_pointer - 2);
        let ret = wrap16(c0.program_counter + 3);
        &&& (r is Ok <==> write16_ok(m0, sp2, ret))
        &&& (r is Ok ==> m1 == write16_spec(m0, sp2, ret) && c1 == clocked((CPU {
            stack_pointer: sp2,
            program_counter: read16_spec(write16_spec(m0, sp2, ret),
                wrap16(c0.program_counter + 1)),
            ..c0
        }), op, op != 0xCD, false))
    })
    &&& (rst_opcode(op) ==> {
        let sp2 = wrap16(c0.stack_pointer - 2);
        let ret = wrap16(c0.program_counter + 1);
        &&& (r is Ok <==> write16_ok(m0, sp2, ret))
        &&& (r is Ok ==> m1 == write16_spec(m0, sp2, ret) && c1 == clocked((CPU {
            stack_pointer: sp2,
            program_counter: (op - 0xC7) as u16,
            ..c0
        }), op, false, false))
    })
    &&& ((op == 0xC5 || op == 0xD5 || op == 0xE5 || op == 0xF5) ==> {
        let sp2 = wrap16(c0.stack_pointer - 2);
        let val = get_pair_af(c0, op as int / 16 - 12);
        &&& (r is Ok <==> write16_ok(m0, sp2, val))
        &&& (r is Ok ==> m1 == write16_spec(m0, sp2, val)
            && c1 == clocked((CPU { stack_pointer: sp2, ..c0 }), op, false, true))
    })
    &&& ((op == 0xC1 || op == 0xD1 || op == 0xE1 || op == 0xF1) ==> r is Ok && m1 == m0
        && c1 == clocked(set_pair_af((CPU {
            stack_pointer: wrap16(c0.stack_pointer + 2),
            ..c0
        }), op as int / 16 - 12, read16_spec(m0, c0.stack_pointer)), op, false, true))
    &&& (op == 0xF3 ==> r is Ok && m1 == m0
        && c1 == clocked((CPU { interrupt_master_enable: false, ..c0 }), op, false, true))
    &&& (op == 0xFB ==> r is Ok && m1 == m0
        && c1 == clocked((CPU { interrupt_master_enable: true, ..c0 }), op, false, true))
    &&& (op == 0xF9 ==> r is Ok && m1 == m0
        && c1 == clocked((CPU { stack_pointer: c0.hl_spec(), ..c0 }), op, false, true))
    &&& (op == 0xF0 ==> r is Ok && m1 == m0
        && c1 == clocked((CPU { a: read_spec(m0, (0xFF00 + imm8(c0, m0)) as u16), ..c0 }),
            op, false, true))
    &&& (op == 0xF2 ==> r is Ok && m1 == m0
        && c1 == clocked((CPU { a: read_spec(m0, (0xFF00 + c0.c) as u16), ..c0 }), op,
            false, true))
    &&& (op == 0xFA ==> r is Ok && m1 == m0
        && c1 == clocked((CPU { a: read_spec(m0, imm16(c0, m0)), ..c0 }), op, false,
            true))
    &&& (op == 0xE8 ==> r is Ok && m1 == m0
        && c1 == clocked((CPU {
            stack_pointer: sp_offset_result(c0, m0),
            ..sp_offset_cpu(c0, m0)
        }), op, false, true))
    &&& (op == 0xF8 ==> r is Ok && m1 == m0
        && c1 == clocked(set_pair(sp_offset_cpu(c0, m0), 2, sp_offset_result(c0, m0)),
            op, false, true))
}

/// The whole observable effect of dispatching one prefixed opcode: the
/// second byte selects a rotate/shift/swap, bit test, bit clear or bit
/// set, and a three-bit field selects the operand.
pub open spec fn cb_step_clauses(c0: CPU, m0: MmuV, c1: CPU, m1: MmuV,
    r: Result<(), Fault>) -> bool {
    let op2 = read_spec(m0, wrap16(c0.program_counter + 1));
    let idx = op2 as int % 8;
    let kind = op2 as int / 64;
    let sub = op2 as int / 8 % 8;
    let v = operand8(c0, m0, idx);
    &&& (kind == 0 && idx != 6 ==> r is Ok && m1 == m0
        && c1 == cb_clocked(set_reg8(rot_cpu(c0, sub, v, true), idx,
            rot_result(c0, sub, v)), op2))
    &&& (kind == 0 && idx == 6 ==> {
        let res = rot_result(c0, sub, v);
        &&& (r is Ok <==> write_ok(m0, c0.hl_spec(), res))
        &&& (r is Ok ==> m1 == write_spec(m0, c0.hl_spec(), res)
            && c1 == cb_clocked(rot_cpu(c0, sub, v, true), op2))
        &&& (r is Err ==> m1 == m0)
    })
    &&& (kind == 1 ==> r is Ok && m1 == m0 && c1 == cb_clocked((CPU {
        flag_zero: v & bit_mask(sub) == 0,
        flag_subtract: false,
        flag_half_carry: true,
        ..c0
    }), op2))
    &&& (kind == 2 && idx != 6 ==> r is Ok && m1 == m0
        && c1 == cb_clocked(set_reg8(c0, idx, v & !bit_mask(sub)), op2))
    &&& (kind == 2 && idx == 6 ==> {
        let res = v & !bit_mask(sub);
        &&& (r is Ok <==> write_ok(m0, c0.hl_spec(), res))
        &&& (r is Ok ==> m1 == write_spec(m0, c0.hl_spec(), res)
            && c1 == cb_clocked(c0, op2))
        &&& (r is Err ==> m1 == m0)
    })
    &&& (kind == 3 && idx != 6 ==> r is Ok && m1 == m0
        && c1 == cb_clocked(set_reg8(c0, idx, v | bit_mask(sub)), op2))
    &&& (kind == 3 && idx == 6 ==> {
        let res = v | bit_mask(sub);
        &&& (r is Ok <==> write_ok(m0, c0.hl_spec(), res))
        &&& (r is Ok ==> m1 == write_spec(m0, c0.hl_spec(), res)
            && c1 == cb_clocked(c0, op2))
        &&& (r is Err ==> m1 == m0)
    })
}

/// A state with the cycle counter and program counter settled for a
/// prefixed opcode: memory operands cost four machine cycles, registers
/// two, and the counter advances over both bytes.
pub open spec fn cb_clocked(c: CPU, op2: u8) -> CPU {
    let m: u32 = if op2 % 8 == 6 { 4 } else { 2 };
    CPU {
        clock: Clock { m, t: (m * 4) as u32 },
        program_counter: wrap16(c.program_counter + 2),
        ..c
    }
}

/// Both cycle tables stay at or below six machine cycles.
pub proof fn lemma_cycle_tables_bounded()
    ensures
        forall|i: int| 0 <= i < 256 ==> OPERATION_MACHINE_CYCLES[i] <= 6,
        forall|i: int| 0 <= i < 256 ==> OPERATION_MACHINE_CYCLES_BRANCHED[i] <= 6,
{
}

impl CPU {
    /// Settle the cycle counter from the tables and advance the program
    /// counter for instructions that did not redirect it.
    pub fn update_clock_and_program_counter(&mut self, opcode: u8,
        use_machine_cycles_branched: bool, increment_program_counter: bool)
        ensures
            *final(self) == clocked(*old(self), opcode, use_machine_cycles_branched,
                increment_program_counter),
            final(self).wf(),
    {
        proof {
            reveal(cycles_of);
            reveal(bytes_of);
            lemma_cycle_tables_bounded();
        }
        if !use_machine_cycles_branched {
            self.clock.m = OPERATION_MACHINE_CYCLES[opcode as usize];
        } else {
            self.clock.m = OPERATION_MACHINE_CYCLES_BRANCHED[opcode as usize];
        }
        self.clock.t = self.clock.m * 4;
        if increment_program_counter {
            self.program_counter = self.program_counter.wrapping_add(
                OPERATION_BYTES[opcode as usize]);
        }
    }

    /// Settle the cycle counter and program counter for a prefixed opcode.
    pub fn update_clock_and_program_counter_for_cb_operations(&mut self, opcode: u8)
        ensures
            *final(self) == cb_clocked(*old(self), opcode),
            final(self).wf(),
    {
        if opcode % 8 == 6 {
            self.clock.m = 4;
        } else {
            self.clock.m = 2;
        }
        self.clock.t = self.clock.m * 4;
        self.program_counter = self.program_counter.wrapping_add(2);
    }

    /// The destination of a relative jump from the instruction at `pc`.
    fn relative_dest(&self, pc: u16, off: i8) -> (r: u16)
        ensures
            r == wrap16(pc + 2 + off),
    {
        let ext: u16 = #[verifier::truncate] (off as u16);
        proof {
            assert((off as u16) == (off as int) % 0x10000) by (bit_vector);
            assert((pc + 2 + off) % 0x10000 == (pc + 2 + ext) % 0x10000) by {
                vstd::arithmetic::div_mod::lemma_add_mod_noop(pc as int + 2, off as int,
                    0x10000int);
                vstd::arithmetic::div_mod::lemma_add_mod_noop(pc as int + 2, ext as int,
                    0x10000);
                assert((off as int) % 0x10000 == (ext as int) % 0x10000);
            };
        }
        pc.wrapping_add(2).wrapping_add(ext)
    }
}

} // verus!

verus! {

/// A result with its success payload dropped, for sharing the step
/// clauses between the fetcher and the dispatchers.
pub open spec fn drop_ok<T>(r: Result<T, Fault>) -> Result<(), Fault> {
    match r {
        Ok(_) => Ok(()),
        Err(e) => Err(e),
    }
}

impl CPU {
    /// A base displaced by a signed byte, wrapped into the address space.
    fn sp_plus_offset(&self, base: u16, off: i8) -> (r: u16)
        ensures
            r == wrap16(base + off),
    {
        let ext: u16 = #[verifier::truncate] (off as u16);
        proof {
            assert((off as u16) == (off as int) % 0x10000) by (bit_vector);
            assert((base + off) % 0x10000 == (base + ext) % 0x10000) by {
                vstd::arithmetic::div_mod::lemma_add_mod_noop(base as int, off as int,
                    0x10000int);
                vstd::arithmetic::div_mod::lemma_add_mod_noop(base as int, ext as int,
                    0x10000);
                assert((off as int) % 0x10000 == (ext as int) % 0x10000);
            };
        }
        base.wrapping_add(ext)
    }

    /// Read the operand a three-bit field selects.
    fn read_operand(&self, mmu: &MMU, idx: u8) -> (r: u8)
        requires
            idx < 8,
            mmu@.wf(),
        ensures
            r == operand8(*self, mmu@, idx as int),
    {
        if idx == 0 {
            self.b
        } else if idx == 1 {
            self.c
        } else if idx == 2 {
            self.d
        } else if idx == 3 {
            self.e
        } else if idx == 4 {
            self.h
        } else if idx == 5 {
            self.l
        } else if idx == 6 {
            mmu.read_byte(self.read_register_hl())
        } else {
            self.a
        }
    }

    /// Write the destination a three-bit field selects; slot 6 stores the
    /// byte where HL points, which can raise a bank-command fault.
    fn write_operand(&mut self, mmu: &mut MMU, idx: u8, v: u8) -> (r: Result<(), Fault>)
        requires
            idx < 8,
            old(mmu)@.wf(),
        ensures
            idx != 6 ==> r is Ok && *final(mmu) == *old(mmu)
                && *final(self) == set_reg8(*old(self), idx as int, v),
            idx == 6 ==> *final(self) == *old(self)
                && (r is Ok <==> write_ok(old(mmu)@, old(self).hl_spec(), v))
                && (r is Ok ==> final(mmu)@ == write_spec(old(mmu)@, old(self).hl_spec(), v))
                && (r is Err ==> *final(mmu) == *old(mmu)
                    && r == Err::<(), Fault>(write_fault(old(mmu)@, old(self).hl_spec(), v))),
            final(mmu)@.wf(),
    {
        if idx == 0 {
            self.b = v;
            Ok(())
        } else if idx == 1 {
            self.c = v;
            Ok(())
        } else if idx == 2 {
            self.d = v;
            Ok(())
        } else if idx == 3 {
            self.e = v;
            Ok(())
        } else if idx == 4 {
            self.h = v;
            Ok(())
        } else if idx == 5 {
            self.l = v;
            Ok(())
        } else if idx == 6 {
            mmu.write_byte(self.read_register_hl(), v)?;
            Ok(())
        } else {
            self.a = v;
            Ok(())
        }
    }

    /// The register-to-register load matrix and the halt slot.
    #[verifier::rlimit(60)]
    fn op_block1(&mut self, mmu: &mut MMU, opcode: u8) -> (r: Result<(), Fault>)
        requires
            0x40 <= opcode < 0x80,
            old(self).wf(),
            old(mmu)@.wf(),
        ensures
            base_step_clauses(*old(self), old(mmu)@, *final(self), final(mmu)@, r, opcode),
            final(self).wf(),
            final(mmu)@.wf(),
    {
        if opcode == 0x76 {
            proof {
                reveal(cycles_of);
                reveal(bytes_of);
            }
            let pending = mmu.interrupt_enable_register & mmu.io_ports[15] & 0x1F != 0;
            self.update_clock_and_program_counter(opcode, false, pending);
            return Ok(());
        }
        let value = self.read_operand(mmu, opcode % 8);
        let dst = opcode / 8 % 8;
        self.write_operand(mmu, dst, value)?;
        self.update_clock_and_program_counter(opcode, false, true);
        Ok(())
    }

    /// The arithmetic/logic matrix over the eight-kind family.
    #[verifier::rlimit(60)]
    fn op_block2(&mut self, mmu: &mut MMU, opcode: u8) -> (r: Result<(), Fault>)
        requires
            0x80 <= opcode < 0xC0,
            old(self).wf(),
            old(mmu)@.wf(),
        ensures
            base_step_clauses(*old(self), old(mmu)@, *final(self), final(mmu)@, r, opcode),
            final(self).wf(),
            final(mmu)@.wf(),
    {
        let value = self.read_operand(mmu, opcode % 8);
        let kind = opcode / 8 % 8;
        if kind == 0 {
            self.add_u8_to_a(value);
        } else if kind == 1 {
            self.add_u8_and_carry_to_a(value);
        } else if kind == 2 {
            self.subtract_u8_from_a(value);
        } else if kind == 3 {
            self.subtract_u8_and_carry_from_a(value);
        } else if kind == 4 {
            self.and_with_register_a(value);
        } else if kind == 5 {
            self.xor_with_register_a(value);
        } else if kind == 6 {
            self.or_with_register_a(value);
        } else {
            self.compare_with_register_a(value);
        }
        self.update_clock_and_program_counter(opcode, false, true);
        Ok(())
    }

    /// The prefixed table: rotates, shifts, swap, bit test, bit clear and
    /// bit set over the three-bit operand field.
    #[verifier::rlimit(60)]
    pub fn process_cb_opcode(&mut self, mmu: &mut MMU) -> (r: Result<(), Fault>)
        requires
            old(self).wf(),
            old(mmu)@.wf(),
        ensures
            cb_step_clauses(*old(self), old(mmu)@, *final(self), final(mmu)@, r),
            final(self).wf(),
            final(mmu)@.wf(),
    {
        let op2 = mmu.read_byte(self.program_counter.wrapping_add(1));
        let idx = op2 % 8;
        let value = self.read_operand(mmu, idx);
        let kind = op2 / 64;
        let sub = op2 / 8 % 8;
        if kind == 0 {
            let res = if sub == 0 {
                self.rotate_left(value, true)
            } else if sub == 1 {
                self.rotate_right(value, true)
            } else if sub == 2 {
                self.rotate_left_through_carry(value, true)
            } else if sub == 3 {
                self.rotate_right_through_carry(value, true)
            } else if sub == 4 {
                self.shift_left(value)
            } else if sub == 5 {
                self.shift_right_preserve_msb(value)
            } else if sub == 6 {
                self.swap_byte(value)
            } else {
                self.shift_right(value)
            };
            self.write_operand(mmu, idx, res)?;
        } else if kind == 1 {
            self.test_bit(value, sub);
        } else if kind == 2 {
            let res = self.reset_bit(value, sub);
            self.write_operand(mmu, idx, res)?;
        } else {
            let res = self.set_bit(value, sub);
            self.write_operand(mmu, idx, res)?;
        }
        self.update_clock_and_program_counter_for_cb_operations(op2);
        Ok(())
    }
}

} // verus!

verus! {

impl CPU {
    /// Loads, sixteen-bit arithmetic, rotates of the accumulator, relative
    /// jumps, and the decimal adjust: the low quarter of the base table.
    fn op_block0(&mut self, mmu: &mut MMU, opcode: u8) -> (r: Result<(), Fault>)
        requires
            opcode < 0x40,
            old(self).wf(),
            old(mmu)@.wf(),
        ensures
            base_step_clauses(*old(self), old(mmu)@, *final(self), final(mmu)@, r, opcode),
            final(self).wf(),
            final(mmu)@.wf(),
    {
        if opcode < 0x10 {
            self.op_row_0(mmu, opcode)
        } else if opcode < 0x20 {
            self.op_row_1(mmu, opcode)
        } else if opcode < 0x30 {
            self.op_row_2(mmu, opcode)
        } else {
            self.op_row_3(mmu, opcode)
        }
    }

    /// Base-table rows 0x00-0x0F.
    fn op_row_0(&mut self, mmu: &mut MMU, opcode: u8) -> (r: Result<(), Fault>)
        requires
            0 <= opcode < 16,
            old(self).wf(),
            old(mmu)@.wf(),
        ensures
            base_step_clauses(*old(self), old(mmu)@, *final(self), final(mmu)@, r, opcode),
            final(self).wf(),
            final(mmu)@.wf(),
    {
        if opcode < 8 {
            self.op_row_0_lo(mmu, opcode)
        } else {
            self.op_row_0_hi(mmu, opcode)
        }
    }

    /// Base-table opcodes 0x00-0x07.
    #[verifier::spinoff_prover]
    #[verifier::rlimit(100)]
    fn op_row_0_lo(&mut self, mmu: &mut MMU, opcode: u8) -> (r: Result<(), Fault>)
        requires
            0 <= opcode < 8,
            old(self).wf(),
            old(mmu)@.wf(),
        ensures
            base_step_clauses(*old(self), old(mmu)@, *final(self), final(mmu)@, r, opcode),
            final(self).wf(),
            final(mmu)@.wf(),
    {
        let mut branched = false;
        let mut inc = true;
        match opcode {
            0x00 => {},
            0x01 => {
                let v = mmu.read_word(self.program_counter.wrapping_add(1));
                self.write_register_bc(v);
            },
            0x02 => {
                mmu.write_byte(self.read_register_bc(), self.a)?;
            },
            0x03 => {
                let v = self.read_register_bc().wrapping_add(1);
                self.write_register_bc(v);
            },
            0x04 => {
                let res = self.increase_register_u8(self.b);
                self.write_register_b(res);
            },
            0x05 => {
                let res = self.decrease_register_u8(self.b);
                self.write_register_b(res);
            },
            0x06 => {
                let v = mmu.read_byte(self.program_counter.wrapping_add(1));
                self.write_register_b(v);
            },
            0x07 => {
                let res = self.rotate_left(self.a, false);
                self.write_register_a(res);
            },
            _ => {
                return Err(Fault::ReservedOpcode(opcode));
            },
        }
        self.update_clock_and_program_counter(opcode, branched, inc);
        Ok(())
    }

    /// Base-table opcodes 0x08-0x0F.
    #[verifier::spinoff_prover]
    #[verifier::rlimit(100)]
    fn op_row_0_hi(&mut self, mmu: &mut MMU, opcode: u8) -> (r: Result<(), Fault>)
        requires
            8 <= opcode < 16,
            old(self).wf(),
            old(mmu)@.wf(),
        ensures
            base_step_clauses(*old(self), old(mmu)@, *final(self), final(mmu)@, r, opcode),
            final(self).wf(),
            final(mmu)@.wf(),
    {
        let mut branched = false;
        let mut inc = true;
        match opcode {
            0x08 => {
                let addr = mmu.read_word(self.program_counter.wrapping_add(1));
                mmu.write_word(addr, self.stack_pointer)?;
            },
            0x09 => {
                let v = self.read_register_bc();
                self.add_u16_to_hl(v);
            },
            0x0A => {
                let v = mmu.read_byte(self.read_register_bc());
                self.write_register_a(v);
            },
            0x0B => {
                let v = self.read_register_bc().wrapping_sub(1);
                self.write_register_bc(v);
            },
            0x0C => {
                let res = self.increase_register_u8(self.c);
                self.write_register_c(res);
            },
            0x0D => {
                let res = self.decrease_register_u8(self.c);
                self.write_register_c(res);
            },
            0x0E => {
                let v = mmu.read_byte(self.program_counter.wrapping_add(1));
                self.write_register_c(v);
            },
            0x0F => {
                let res = self.rotate_right(self.a, false);
                self.write_register_a(res);
            },
            _ => {
                return Err(Fault::ReservedOpcode(opcode));
            },
        }
        self.update_clock_and_program_counter(opcode, branched, inc);
        Ok(())
    }


    /// Base-table rows 0x10-0x1F.
    #[verifier::spinoff_prover]
    #[verifier::rlimit(100)]
    fn op_row_1(&mut self, mmu: &mut MMU, opcode: u8) -> (r: Result<(), Fault>)
        requires
            16 <= opcode < 32,
            old(self).wf(),
            old(mmu)@.wf(),
        ensures
            base_step_clauses(*old(self), old(mmu)@, *final(self), final(mmu)@, r, opcode),
            final(self).wf(),
            final(mmu)@.wf(),
    {
        let mut branched = false;
        let mut inc = true;
        match opcode {
            0x11 => {
                let v = mmu.read_word(self.program_counter.wrapping_add(1));
                self.write_register_de(v);
            },
            0x12 => {
                mmu.write_byte(self.read_register_de(), self.a)?;
            },
            0x13 => {
                let v = self.read_register_de().wrapping_add(1);
                self.write_register_de(v);
            },
            0x14 => {
                let res = self.increase_register_u8(self.d);
                self.write_register_d(res);
            },
            0x15 => {
                let res = self.decrease_register_u8(self.d);
                self.write_register_d(res);
            },
            0x16 => {
                let v = mmu.read_byte(self.program_counter.wrapping_add(1));
                self.write_register_d(v);
            },
            0x17 => {
                let res = self.rotate_left_through_carry(self.a, false);
                self.write_register_a(res);
            },
            0x18 => {
                let nb = mmu.read_byte(self.program_counter.wrapping_add(1));
                let off: i8 = #[verifier::truncate] (nb as i8);
                self.program_counter = self.relative_dest(self.program_counter, off);
                inc = false;
            },
            0x19 => {
                let v = self.read_register_de();
                self.add_u16_to_hl(v);
            },
            0x1A => {
                let v = mmu.read_byte(self.read_register_de());
                self.write_register_a(v);
            },
            0x1B => {
                let v = self.read_register_de().wrapping_sub(1);
                self.write_register_de(v);
            },
            0x1C => {
                let res = self.increase_register_u8(self.e);
                self.write_register_e(res);
            },
            0x1D => {
                let res = self.decrease_register_u8(self.e);
                self.write_register_e(res);
            },
            0x1E => {
                let v = mmu.read_byte(self.program_counter.wrapping_add(1));
                self.write_register_e(v);
            },
            0x1F => {
                let res = self.rotate_right_through_carry(self.a, false);
                self.write_register_a(res);
            },
            _ => {
                return Err(Fault::ReservedOpcode(opcode));
            },
        }
        self.update_clock_and_program_counter(opcode, branched, inc);
        Ok(())
    }

    /// Base-table rows 0x20-0x2F.
    fn op_row_2(&mut self, mmu: &mut MMU, opcode: u8) -> (r: Result<(), Fault>)
        requires
            32 <= opcode < 48,
            old(self).wf(),
            old(mmu)@.wf(),
        ensures
            base_step_clauses(*old(self), old(mmu)@, *final(self), final(mmu)@, r, opcode),
            final(self).wf(),
            final(mmu)@.wf(),
    {
        if opcode < 40 {
            self.op_row_2_lo(mmu, opcode)
        } else {
            self.op_row_2_hi(mmu, opcode)
        }
    }

    /// Base-table opcodes 0x20-0x27.
    #[verifier::spinoff_prover]
    #[verifier::rlimit(100)]
    fn op_row_2_lo(&mut self, mmu: &mut MMU, opcode: u8) -> (r: Result<(), Fault>)
        requires
            32 <= opcode < 40,
            old(self).wf(),
            old(mmu)@.wf(),
        ensures
            base_step_clauses(*old(self), old(mmu)@, *final(self), final(mmu)@, r, opcode),
            final(self).wf(),
            final(mmu)@.wf(),
    {
        let mut branched = false;
        let mut inc = true;
        match opcode {
            0x20 => {
                if self.read_flag(ZERO_BIT) == 0 {
                    let nb = mmu.read_byte(self.program_counter.wrapping_add(1));
                    let off: i8 = #[verifier::truncate] (nb as i8);
                    self.program_counter = self.relative_dest(self.program_counter, off);
                    inc = false;
                    branched = true;
                }
            },
            0x21 => {
                let v = mmu.read_word(self.program_counter.wrapping_add(1));
                self.write_register_hl(v);
            },
            0x22 => {
                mmu.write_byte(self.read_register_hl(), self.a)?;
                let v = self.read_register_hl().wrapping_add(1);
                self.write_register_hl(v);
            },
            0x23 => {
                let v = self.read_register_hl().wrapping_add(1);
                self.write_register_hl(v);
            },
            0x24 => {
                let res = self.increase_register_u8(self.h);
                self.write_register_h(res);
            },
            0x25 => {
                let res = self.decrease_register_u8(self.h);
                self.write_register_h(res);
            },
            0x26 => {
                let v = mmu.read_byte(self.program_counter.wrapping_add(1));
                self.write_register_h(v);
            },
            0x27 => {
                let mut acc: i32 = self.a as i32;
                if !self.flag_subtract {
                    if self.flag_half_carry || acc % 16 > 9 {
                        acc = acc + 6;
                    }
                    if self.flag_carry || acc > 0x9F {
                        acc = acc + 0x60;
                    }
                } else {
                    if self.flag_half_carry {
                        acc = acc - 6;
                        if acc < 0 {
                            acc = acc + 256;
                        }
                    }
                    if self.flag_carry {
                        acc = acc - 0x60;
                    }
                }
                let carry_out = acc >= 0x100 || acc < 0;
                if acc < 0 {
                    acc = acc + 256;
                } else if acc >= 0x100 {
                    acc = acc - 256;
                }
                if carry_out {
                    self.flag_carry = true;
                }
                self.flag_half_carry = false;
                self.flag_zero = acc == 0;
                self.a = acc as u8;
            },
            _ => {
                return Err(Fault::ReservedOpcode(opcode));
            },
        }
        self.update_clock_and_program_counter(opcode, branched, inc);
        Ok(())
    }

    /// Base-table opcodes 0x28-0x2F.
    fn op_row_2_hi(&mut self, mmu: &mut MMU, opcode: u8) -> (r: Result<(), Fault>)
        requires
            40 <= opcode < 48,
            old(self).wf(),
            old(mmu)@.wf(),
        ensures
            base_step_clauses(*old(self), old(mmu)@, *final(self), final(mmu)@, r, opcode),
            final(self).wf(),
            final(mmu)@.wf(),
    {
        if opcode < 44 {
            self.op_row_2_hi_a(mmu, opcode)
        } else {
            self.op_row_2_hi_b(mmu, opcode)
        }
    }

    /// Base-table opcodes 0x28-0x2B.
    fn op_row_2_hi_a(&mut self, mmu: &mut MMU, opcode: u8) -> (r: Result<(), Fault>)
        requires
            40 <= opcode < 44,
            old(self).wf(),
            old(mmu)@.wf(),
        ensures
            base_step_clauses(*old(self), old(mmu)@, *final(self), final(mmu)@, r, opcode),
            final(self).wf(),
            final(mmu)@.wf(),
    {
        if opcode < 42 {
            self.op_row_2_hi_a1(mmu, opcode)
        } else {
            self.op_row_2_hi_a2(mmu, opcode)
        }
    }

    /// Base-table opcodes 0x28-0x29.
    #[verifier::spinoff_prover]
    #[verifier::rlimit(100)]
    fn op_row_2_hi_a1(&mut self, mmu: &mut MMU, opcode: u8) -> (r: Result<(), Fault>)
        requires
            40 <= opcode < 42,
            old(self).wf(),
            old(mmu)@.wf(),
        ensures
            base_step_clauses(*old(self), old(mmu)@, *final(self), final(mmu)@, r, opcode),
            final(self).wf(),
            final(mmu)@.wf(),
    {
        let mut branched = false;
        let mut inc = true;
        match opcode {
            0x28 => {
                if self.read_flag(ZERO_BIT) == 1 {
                    let nb = mmu.read_byte(self.program_counter.wrapping_add(1));
                    let off: i8 = #[verifier::truncate] (nb as i8);
                    self.program_counter = self.relative_dest(self.program_counter, off);
                    inc = false;
                    branched = true;
                }
            },
            0x29 => {
                let v = self.read_register_hl();
                self.add_u16_to_hl(v);
            },
            _ => {
                return Err(Fault::ReservedOpcode(opcode));
            },
        }
        self.update_clock_and_program_counter(opcode, branched, inc);
        Ok(())
    }

    /// Base-table opcodes 0x2A-0x2B.
    #[verifier::spinoff_prover]
    #[verifier::rlimit(100)]
    fn op_row_2_hi_a2(&mut self, mmu: &mut MMU, opcode: u8) -> (r: Result<(), Fault>)
        requires
            42 <= opcode < 44,
            old(self).wf(),
            old(mmu)@.wf(),
        ensures
            base_step_clauses(*old(self), old(mmu)@, *final(self), final(mmu)@, r, opcode),
            final(self).wf(),
            final(mmu)@.wf(),
    {
        let mut branched = false;
        let mut inc = true;
        match opcode {
            0x2A => {
                let v = mmu.read_byte(self.read_register_hl());
                self.write_register_a(v);
                let hl = self.read_register_hl().wrapping_add(1);
                self.write_register_hl(hl);
            },
            0x2B => {
                let v = self.read_register_hl().wrapping_sub(1);
                self.write_register_hl(v);
            },
            _ => {
                return Err(Fault::ReservedOpcode(opcode));
            },
        }
        self.update_clock_and_program_counter(opcode, branched, inc);
        Ok(())
    }


    /// Base-table opcodes 0x2C-0x2F.
    #[verifier::spinoff_prover]
    #[verifier::rlimit(100)]
    fn op_row_2_hi_b(&mut self, mmu: &mut MMU, opcode: u8) -> (r: Result<(), Fault>)
        requires
            44 <= opcode < 48,
            old(self).wf(),
            old(mmu)@.wf(),
        ensures
            base_step_clauses(*old(self), old(mmu)@, *final(self), final(mmu)@, r, opcode),
            final(self).wf(),
            final(mmu)@.wf(),
    {
        let mut branched = false;
        let mut inc = true;
        match opcode {
            0x2C => {
                let res = self.increase_register_u8(self.l);
                self.write_register_l(res);
            },
            0x2D => {
                let res = self.decrease_register_u8(self.l);
                self.write_register_l(res);
            },
            0x2E => {
                let v = mmu.read_byte(self.program_counter.wrapping_add(1));
                self.write_register_l(v);
            },
            0x2F => {
                self.a = !self.a;
                self.flag_subtract = true;
                self.flag_half_carry = true;
            },
            _ => {
                return Err(Fault::ReservedOpcode(opcode));
            },
        }
        self.update_clock_and_program_counter(opcode, branched, inc);
        Ok(())
    }



    /// Base-table rows 0x30-0x3F.
    fn op_row_3(&mut self, mmu: &mut MMU, opcode: u8) -> (r: Result<(), Fault>)
        requires
            48 <= opcode < 64,
            old(self).wf(),
            old(mmu)@.wf(),
        ensures
            base_step_clauses(*old(self), old(mmu)@, *final(self), final(mmu)@, r, opcode),
            final(self).wf(),
            final(mmu)@.wf(),
    {
        if opcode < 56 {
            self.op_row_3_lo(mmu, opcode)
        } else {
            self.op_row_3_hi(mmu, opcode)
        }
    }

    /// Base-table opcodes 0x30-0x37.
    #[verifier::spinoff_prover]
    #[verifier::rlimit(100)]
    fn op_row_3_lo(&mut self, mmu: &mut MMU, opcode: u8) -> (r: Result<(), Fault>)
        requires
            48 <= opcode < 56,
            old(self).wf(),
            old(mmu)@.wf(),
        ensures
            base_step_clauses(*old(self), old(mmu)@, *final(self), final(mmu)@, r, opcode),
            final(self).wf(),
            final(mmu)@.wf(),
    {
        let mut branched = false;
        let mut inc = true;
        match opcode {
            0x30 => {
                if self.read_flag(CARRY_BIT) == 0 {
                    let nb = mmu.read_byte(self.program_counter.wrapping_add(1));
                    let off: i8 = #[verifier::truncate] (nb as i8);
                    self.program_counter = self.relative_dest(self.program_counter, off);
                    inc = false;
                    branched = true;
                }
            },
            0x31 => {
                self.stack_pointer = mmu.read_word(self.program_counter.wrapping_add(1));
            },
            0x32 => {
                mmu.write_byte(self.read_register_hl(), self.a)?;
                let v = self.read_register_hl().wrapping_sub(1);
                self.write_register_hl(v);
            },
            0x33 => {
                self.stack_pointer = self.stack_pointer.wrapping_add(1);
            },
            0x34 => {
                let hl = self.read_register_hl();
                let v = mmu.read_byte(hl);
                let res = self.increase_register_u8(v);
                mmu.write_byte(hl, res)?;
            },
            0x35 => {
                let hl = self.read_register_hl();
                let v = mmu.read_byte(hl);
                let res = self.decrease_register_u8(v);
                mmu.write_byte(hl, res)?;
            },
            0x36 => {
                let v = mmu.read_byte(self.program_counter.wrapping_add(1));
                mmu.write_byte(self.read_register_hl(), v)?;
            },
            0x37 => {
                self.flag_carry = true;
                self.flag_half_carry = false;
                self.flag_subtract = false;
            },
            _ => {
                return Err(Fault::ReservedOpcode(opcode));
            },
        }
        self.update_clock_and_program_counter(opcode, branched, inc);
        Ok(())
    }

    /// Base-table opcodes 0x38-0x3F.
    fn op_row_3_hi(&mut self, mmu: &mut MMU, opcode: u8) -> (r: Result<(), Fault>)
        requires
            56 <= opcode < 64,
            old(self).wf(),
            old(mmu)@.wf(),
        ensures
            base_step_clauses(*old(self), old(mmu)@, *final(self), final(mmu)@, r, opcode),
            final(self).wf(),
            final(mmu)@.wf(),
    {
        if opcode < 60 {
            self.op_row_3_hi_a(mmu, opcode)
        } else {
            self.op_row_3_hi_b(mmu, opcode)
        }
    }

    /// Base-table opcodes 0x38-0x3B.
    fn op_row_3_hi_a(&mut self, mmu: &mut MMU, opcode: u8) -> (r: Result<(), Fault>)
        requires
            56 <= opcode < 60,
            old(self).wf(),
            old(mmu)@.wf(),
        ensures
            base_step_clauses(*old(self), old(mmu)@, *final(self), final(mmu)@, r, opcode),
            final(self).wf(),
            final(mmu)@.wf(),
    {
        if opcode < 58 {
            self.op_row_3_hi_a1(mmu, opcode)
        } else {
            self.op_row_3_hi_a2(mmu, opcode)
        }
    }

    /// Base-table opcodes 0x38-0x39.
    #[verifier::spinoff_prover]
    #[verifier::rlimit(100)]
    fn op_row_3_hi_a1(&mut self, mmu: &mut MMU, opcode: u8) -> (r: Result<(), Fault>)
        requires
            56 <= opcode < 58,
            old(self).wf(),
            old(mmu)@.wf(),
        ensures
            base_step_clauses(*old(self), old(mmu)@, *final(self), final(mmu)@, r, opcode),
            final(self).wf(),
            final(mmu)@.wf(),
    {
        let mut branched = false;
        let mut inc = true;
        match opcode {
            0x38 => {
                if self.read_flag(CARRY_BIT) == 1 {
                    let nb = mmu.read_byte(self.program_counter.wrapping_add(1));
                    let off: i8 = #[verifier::truncate] (nb as i8);
                    self.program_counter = self.relative_dest(self.program_counter, off);
                    inc = false;
                    branched = true;
                }
            },
            0x39 => {
                let v = self.stack_pointer;
                self.add_u16_to_hl(v);
            },
            _ => {
                return Err(Fault::ReservedOpcode(opcode));
            },
        }
        self.update_clock_and_program_counter(opcode, branched, inc);
        Ok(())
    }

    /// Base-table opcodes 0x3A-0x3B.
    #[verifier::spinoff_prover]
    #[verifier::rlimit(100)]
    fn op_row_3_hi_a2(&mut self, mmu: &mut MMU, opcode: u8) -> (r: Result<(), Fault>)
        requires
            58 <= opcode < 60,
            old(self).wf(),
            old(mmu)@.wf(),
        ensures
            base_step_clauses(*old(self), old(mmu)@, *final(self), final(mmu)@, r, opcode),
            final(self).wf(),
            final(mmu)@.wf(),
    {
        let mut branched = false;
        let mut inc = true;
        match opcode {
            0x3A => {
                let v = mmu.read_byte(self.read_register_hl());
                self.write_register_a(v);
                let hl = self.read_register_hl().wrapping_sub(1);
                self.write_register_hl(hl);
            },
            0x3B => {
                self.stack_pointer = self.stack_pointer.wrapping_sub(1);
            },
            _ => {
                return Err(Fault::ReservedOpcode(opcode));
            },
        }
        self.update_clock_and_program_counter(opcode, branched, inc);
        Ok(())
    }


    /// Base-table opcodes 0x3C-0x3F.
    #[verifier::spinoff_prover]
    #[verifier::rlimit(100)]
    fn op_row_3_hi_b(&mut self, mmu: &mut MMU, opcode: u8) -> (r: Result<(), Fault>)
        requires
            60 <= opcode < 64,
            old(self).wf(),
            old(mmu)@.wf(),
        ensures
            base_step_clauses(*old(self), old(mmu)@, *final(self), final(mmu)@, r, opcode),
            final(self).wf(),
            final(mmu)@.wf(),
    {
        let mut branched = false;
        let mut inc = true;
        match opcode {
            0x3C => {
                let res = self.increase_register_u8(self.a);
                self.write_register_a(res);
            },
            0x3D => {
                let res = self.decrease_register_u8(self.a);
                self.write_register_a(res);
            },
            0x3E => {
                let v = mmu.read_byte(self.program_counter.wrapping_add(1));
                self.write_register_a(v);
            },
            0x3F => {
                self.flag_carry = !self.flag_carry;
                self.flag_half_carry = false;
                self.flag_subtract = false;
            },
            _ => {
                return Err(Fault::ReservedOpcode(opcode));
            },
        }
        self.update_clock_and_program_counter(opcode, branched, inc);
        Ok(())
    }





}

} // verus!

verus! {

impl CPU {
    /// Base-table opcodes 0xC0-0xC7.
    #[verifier::spinoff_prover]
    #[verifier::rlimit(100)]
    fn op_ctrl_c0(&mut self, mmu: &mut MMU, opcode: u8) -> (r: Result<(), Fault>)
        requires
            192 <= opcode < 200,
            old(self).wf(),
            old(mmu)@.wf(),
        ensures
            base_step_clauses(*old(self), old(mmu)@, *final(self), final(mmu)@, r, opcode),
            final(self).wf(),
            final(mmu)@.wf(),
    {
        let mut branched = false;
        let mut inc = true;
        match opcode {
            0xC0 => {
                if self.read_flag(ZERO_BIT) == 0 {
                    self.program_counter = mmu.read_word(self.stack_pointer);
                    self.stack_pointer = self.stack_pointer.wrapping_add(2);
                    inc = false;
                    branched = true;
                }
            },
            0xC1 => {
                let v = mmu.read_word(self.stack_pointer);
                self.write_register_bc(v);
                self.stack_pointer = self.stack_pointer.wrapping_add(2);
            },
            0xC2 => {
                if self.read_flag(ZERO_BIT) == 0 {
                    self.program_counter = mmu.read_word(self.program_counter.wrapping_add(1));
                    inc = false;
                    branched = true;
                }
            },
            0xC3 => {
                self.program_counter = mmu.read_word(self.program_counter.wrapping_add(1));
                inc = false;
            },
            0xC4 => {
                if self.read_flag(ZERO_BIT) == 0 {
                    let sp2 = self.stack_pointer.wrapping_sub(2);
                    self.stack_pointer = sp2;
                    mmu.write_word(sp2, self.program_counter.wrapping_add(3))?;
                    self.program_counter = mmu.read_word(self.program_counter.wrapping_add(1));
                    inc = false;
                    branched = true;
                }
            },
            0xC5 => {
                let sp2 = self.stack_pointer.wrapping_sub(2);
                self.stack_pointer = sp2;
                mmu.write_word(sp2, self.read_register_bc())?;
            },
            0xC6 => {
                let v = mmu.read_byte(self.program_counter.wrapping_add(1));
                self.add_u8_to_a(v);
            },
            0xC7 => {
                let sp2 = self.stack_pointer.wrapping_sub(2);
                self.stack_pointer = sp2;
                mmu.write_word(sp2, self.program_counter.wrapping_add(1))?;
                self.program_counter = 0x0000;
                inc = false;
            },
            _ => {
                return Err(Fault::ReservedOpcode(opcode));
            },
        }
        self.update_clock_and_program_counter(opcode, branched, inc);
        Ok(())
    }

    /// Base-table opcodes 0xC8-0xCF.
    #[verifier::spinoff_prover]
    #[verifier::rlimit(100)]
    fn op_ctrl_c8(&mut self, mmu: &mut MMU, opcode: u8) -> (r: Result<(), Fault>)
        requires
            200 <= opcode < 208,
            old(self).wf(),
            old(mmu)@.wf(),
        ensures
            base_step_clauses(*old(self), old(mmu)@, *final(self), final(mmu)@, r, opcode),
            final(self).wf(),
            final(mmu)@.wf(),
    {
        let mut branched = false;
        let mut inc = true;
        match opcode {
            0xC8 => {
                if self.read_flag(ZERO_BIT) == 1 {
                    self.program_counter = mmu.read_word(self.stack_pointer);
                    self.stack_pointer = self.stack_pointer.wrapping_add(2);
                    inc = false;
                    branched = true;
                }
            },
            0xC9 => {
                self.program_counter = mmu.read_word(self.stack_pointer);
                self.stack_pointer = self.stack_pointer.wrapping_add(2);
                inc = false;
            },
            0xCA => {
                if self.read_flag(ZERO_BIT) == 1 {
                    self.program_counter = mmu.read_word(self.program_counter.wrapping_add(1));
                    inc = false;
                    branched = true;
                }
            },
            0xCC => {
                if self.read_flag(ZERO_BIT) == 1 {
                    let sp2 = self.stack_pointer.wrapping_sub(2);
                    self.stack_pointer = sp2;
                    mmu.write_word(sp2, self.program_counter.wrapping_add(3))?;
                    self.program_counter = mmu.read_word(self.program_counter.wrapping_add(1));
                    inc = false;
                    branched = true;
                }
            },
            0xCD => {
                let sp2 = self.stack_pointer.wrapping_sub(2);
                self.stack_pointer = sp2;
                mmu.write_word(sp2, self.program_counter.wrapping_add(3))?;
                self.program_counter = mmu.read_word(self.program_counter.wrapping_add(1));
                inc = false;
            },
            0xCE => {
                let v = mmu.read_byte(self.program_counter.wrapping_add(1));
                self.add_u8_and_carry_to_a(v);
            },
            0xCF => {
                let sp2 = self.stack_pointer.wrapping_sub(2);
                self.stack_pointer = sp2;
                mmu.write_word(sp2, self.program_counter.wrapping_add(1))?;
                self.program_counter = 0x0008;
                inc = false;
            },
            _ => {
                return Err(Fault::ReservedOpcode(opcode));
            },
        }
        self.update_clock_and_program_counter(opcode, branched, inc);
        Ok(())
    }

    /// Base-table opcodes 0xD0-0xD7.
    #[verifier::spinoff_prover]
    #[verifier::rlimit(100)]
    fn op_ctrl_d0(&mut self, mmu: &mut MMU, opcode: u8) -> (r: Result<(), Fault>)
        requires
            208 <= opcode < 216,
            old(self).wf(),
            old(mmu)@.wf(),
        ensures
            base_step_clauses(*old(self), old(mmu)@, *final(self), final(mmu)@, r, opcode),
            final(self).wf(),
            final(mmu)@.wf(),
    {
        let mut branched = false;
        let mut inc = true;
        match opcode {
            0xD0 => {
                if self.read_flag(CARRY_BIT) == 0 {
                    self.program_counter = mmu.read_word(self.stack_pointer);
                    self.stack_pointer = self.stack_pointer.wrapping_add(2);
                    inc = false;
                    branched = true;
                }
            },
            0xD1 => {
                let v = mmu.read_word(self.stack_pointer);
                self.write_register_de(v);
                self.stack_pointer = self.stack_pointer.wrapping_add(2);
            },
            0xD2 => {
                if self.read_flag(CARRY_BIT) == 0 {
                    self.program_counter = mmu.read_word(self.program_counter.wrapping_add(1));
                    inc = false;
                    branched = true;
                }
            },
            0xD4 => {
                if self.read_flag(CARRY_BIT) == 0 {
                    let sp2 = self.stack_pointer.wrapping_sub(2);
                    self.stack_pointer = sp2;
                    mmu.write_word(sp2, self.program_counter.wrapping_add(3))?;
                    self.program_counter = mmu.read_word(self.program_counter.wrapping_add(1));
                    inc = false;
                    branched = true;
                }
            },
            0xD5 => {
                let sp2 = self.stack_pointer.wrapping_sub(2);
                self.stack_pointer = sp2;
                mmu.write_word(sp2, self.read_register_de())?;
            },
            0xD6 => {
                let v = mmu.read_byte(self.program_counter.wrapping_add(1));
                self.subtract_u8_from_a(v);
            },
            0xD7 => {
                let sp2 = self.stack_pointer.wrapping_sub(2);
                self.stack_pointer = sp2;
                mmu.write_word(sp2, self.program_counter.wrapping_add(1))?;
                self.program_counter = 0x0010;
                inc = false;
            },
            _ => {
                return Err(Fault::ReservedOpcode(opcode));
            },
        }
        self.update_clock_and_program_counter(opcode, branched, inc);
        Ok(())
    }

    /// Base-table opcodes 0xD8-0xDF.
    #[verifier::spinoff_prover]
    #[verifier::rlimit(100)]
    fn op_ctrl_d8(&mut self, mmu: &mut MMU, opcode: u8) -> (r: Result<(), Fault>)
        requires
            216 <= opcode < 224,
            old(self).wf(),
            old(mmu)@.wf(),
        ensures
            base_step_clauses(*old(self), old(mmu)@, *final(self), final(mmu)@, r, opcode),
            final(self).wf(),
            final(mmu)@.wf(),
    {
        let mut branched = false;
        let mut inc = true;
        match opcode {
            0xD8 => {
                if self.read_flag(CARRY_BIT) == 1 {
                    self.program_counter = mmu.read_word(self.stack_pointer);
                    self.stack_pointer = self.stack_pointer.wrapping_add(2);
                    inc = false;
                    branched = true;
                }
            },
            0xD9 => {
                self.program_counter = mmu.read_word(self.stack_pointer);
                self.stack_pointer = self.stack_pointer.wrapping_add(2);
                self.interrupt_master_enable = true;
                inc = false;
            },
            0xDA => {
                if self.read_flag(CARRY_BIT) == 1 {
                    self.program_counter = mmu.read_word(self.program_counter.wrapping_add(1));
                    inc = false;
                    branched = true;
                }
            },
            0xDC => {
                if self.read_flag(CARRY_BIT) == 1 {
                    let sp2 = self.stack_pointer.wrapping_sub(2);
                    self.stack_pointer = sp2;
                    mmu.write_word(sp2, self.program_counter.wrapping_add(3))?;
                    self.program_counter = mmu.read_word(self.program_counter.wrapping_add(1));
                    inc = false;
                    branched = true;
                }
            },
            0xDE => {
                let v = mmu.read_byte(self.program_counter.wrapping_add(1));
                self.subtract_u8_and_carry_from_a(v);
            },
            0xDF => {
                let sp2 = self.stack_pointer.wrapping_sub(2);
                self.stack_pointer = sp2;
                mmu.write_word(sp2, self.program_counter.wrapping_add(1))?;
                self.program_counter = 0x0018;
                inc = false;
            },
            _ => {
                return Err(Fault::ReservedOpcode(opcode));
            },
        }
        self.update_clock_and_program_counter(opcode, branched, inc);
        Ok(())
    }

    /// Base-table opcodes 0xE0-0xE7.
    #[verifier::spinoff_prover]
    #[verifier::rlimit(100)]
    fn op_ctrl_e0(&mut self, mmu: &mut MMU, opcode: u8) -> (r: Result<(), Fault>)
        requires
            224 <= opcode < 232,
            old(self).wf(),
            old(mmu)@.wf(),
        ensures
            base_step_clauses(*old(self), old(mmu)@, *final(self), final(mmu)@, r, opcode),
            final(self).wf(),
            final(mmu)@.wf(),
    {
        let mut branched = false;
        let mut inc = true;
        match opcode {
            0xE0 => {
                let nb = mmu.read_byte(self.program_counter.wrapping_add(1));
                mmu.write_byte(0xFF00 + nb as u16, self.a)?;
            },
            0xE1 => {
                let v = mmu.read_word(self.stack_pointer);
                self.write_register_hl(v);
                self.stack_pointer = self.stack_pointer.wrapping_add(2);
            },
            0xE2 => {
                mmu.write_byte(0xFF00 + self.c as u16, self.a)?;
            },
            0xE5 => {
                let sp2 = self.stack_pointer.wrapping_sub(2);
                self.stack_pointer = sp2;
                mmu.write_word(sp2, self.read_register_hl())?;
            },
            0xE6 => {
                let v = mmu.read_byte(self.program_counter.wrapping_add(1));
                self.and_with_register_a(v);
            },
            0xE7 => {
                let sp2 = self.stack_pointer.wrapping_sub(2);
                self.stack_pointer = sp2;
                mmu.write_word(sp2, self.program_counter.wrapping_add(1))?;
                self.program_counter = 0x0020;
                inc = false;
            },
            _ => {
                return Err(Fault::ReservedOpcode(opcode));
            },
        }
        self.update_clock_and_program_counter(opcode, branched, inc);
        Ok(())
    }

    /// Base-table opcodes 0xE8-0xEF.
    #[verifier::spinoff_prover]
    #[verifier::rlimit(100)]
    fn op_ctrl_e8(&mut self, mmu: &mut MMU, opcode: u8) -> (r: Result<(), Fault>)
        requires
            232 <= opcode < 240,
            old(self).wf(),
            old(mmu)@.wf(),
        ensures
            base_step_clauses(*old(self), old(mmu)@, *final(self), final(mmu)@, r, opcode),
            final(self).wf(),
            final(mmu)@.wf(),
    {
        let mut branched = false;
        let mut inc = true;
        match opcode {
            0xE8 => {
                let nb = mmu.read_byte(self.program_counter.wrapping_add(1));
                let off: i8 = #[verifier::truncate] (nb as i8);
                let offu: u16 = #[verifier::truncate] (off as u16);
                let result = self.sp_plus_offset(self.stack_pointer, off);
                self.flag_zero = false;
                self.flag_subtract = false;
                self.flag_carry = (self.stack_pointer ^ offu ^ result) & 0x100 == 0x100;
                self.flag_half_carry = (self.stack_pointer ^ offu ^ result) & 0x10 == 0x10;
                self.stack_pointer = result;
            },
            0xE9 => {
                self.program_counter = self.read_register_hl();
                inc = false;
            },
            0xEA => {
                let addr = mmu.read_word(self.program_counter.wrapping_add(1));
                mmu.write_byte(addr, self.a)?;
            },
            0xEE => {
                let v = mmu.read_byte(self.program_counter.wrapping_add(1));
                self.xor_with_register_a(v);
            },
            0xEF => {
                let sp2 = self.stack_pointer.wrapping_sub(2);
                self.stack_pointer = sp2;
                mmu.write_word(sp2, self.program_counter.wrapping_add(1))?;
                self.program_counter = 0x0028;
                inc = false;
            },
            _ => {
                return Err(Fault::ReservedOpcode(opcode));
            },
        }
        self.update_clock_and_program_counter(opcode, branched, inc);
        Ok(())
    }

    /// Base-table opcodes 0xF0-0xF7.
    #[verifier::spinoff_prover]
    #[verifier::rlimit(100)]
    fn op_ctrl_f0(&mut self, mmu: &mut MMU, opcode: u8) -> (r: Result<(), Fault>)
        requires
            240 <= opcode < 248,
            old(self).wf(),
            old(mmu)@.wf(),
        ensures
            base_step_clauses(*old(self), old(mmu)@, *final(self), final(mmu)@, r, opcode),
            final(self).wf(),
            final(mmu)@.wf(),
    {
        let mut branched = false;
        let mut inc = true;
        match opcode {
            0xF0 => {
                let nb = mmu.read_byte(self.program_counter.wrapping_add(1));
                let v = mmu.read_byte(0xFF00 + nb as u16);
                self.write_register_a(v);
            },
            0xF1 => {
                let v = mmu.read_word(self.stack_pointer);
                self.write_register_af(v);
                self.stack_pointer = self.stack_pointer.wrapping_add(2);
            },
            0xF2 => {
                let v = mmu.read_byte(0xFF00 + self.c as u16);
                self.write_register_a(v);
            },
            0xF3 => {
                self.interrupt_master_enable = false;
            },
            0xF5 => {
                let sp2 = self.stack_pointer.wrapping_sub(2);
                self.stack_pointer = sp2;
                mmu.write_word(sp2, self.read_register_af())?;
            },
            0xF6 => {
                let v = mmu.read_byte(self.program_counter.wrapping_add(1));
                self.or_with_register_a(v);
            },
            0xF7 => {
                let sp2 = self.stack_pointer.wrapping_sub(2);
                self.stack_pointer = sp2;
                mmu.write_word(sp2, self.program_counter.wrapping_add(1))?;
                self.program_counter = 0x0030;
                inc = false;
            },
            _ => {
                return Err(Fault::ReservedOpcode(opcode));
            },
        }
        self.update_clock_and_program_counter(opcode, branched, inc);
        Ok(())
    }

    /// Base-table opcodes 0xF8-0xFF.
    #[verifier::spinoff_prover]
    #[verifier::rlimit(100)]
    fn op_ctrl_f8(&mut self, mmu: &mut MMU, opcode: u8) -> (r: Result<(), Fault>)
        requires
            248 <= opcode < 256,
            old(self).wf(),
            old(mmu)@.wf(),
        ensures
            base_step_clauses(*old(self), old(mmu)@, *final(self), final(mmu)@, r, opcode),
            final(self).wf(),
            final(mmu)@.wf(),
    {
        let mut branched = false;
        let mut inc = true;
        match opcode {
            0xF8 => {
                let nb = mmu.read_byte(self.program_counter.wrapping_add(1));
                let off: i8 = #[verifier::truncate] (nb as i8);
                let offu: u16 = #[verifier::truncate] (off as u16);
                let result = self.sp_plus_offset(self.stack_pointer, off);
                self.flag_zero = false;
                self.flag_subtract = false;
                self.flag_carry = (self.stack_pointer ^ offu ^ result) & 0x100 == 0x100;
                self.flag_half_carry = (self.stack_pointer ^ offu ^ result) & 0x10 == 0x10;
                self.write_register_hl(result);
            },
            0xF9 => {
                self.stack_pointer = self.read_register_hl();
            },
            0xFA => {
                let addr = mmu.read_word(self.program_counter.wrapping_add(1));
                let v = mmu.read_byte(addr);
                self.write_register_a(v);
            },
            0xFB => {
                self.interrupt_master_enable = true;
            },
            0xFE => {
                let v = mmu.read_byte(self.program_counter.wrapping_add(1));
                self.compare_with_register_a(v);
            },
            0xFF => {
                let sp2 = self.stack_pointer.wrapping_sub(2);
                self.stack_pointer = sp2;
                mmu.write_word(sp2, self.program_counter.wrapping_add(1))?;
                self.program_counter = 0x0038;
                inc = false;
            },
            _ => {
                return Err(Fault::ReservedOpcode(opcode));
            },
        }
        self.update_clock_and_program_counter(opcode, branched, inc);
        Ok(())
    }

    /// Returns, jumps, calls, restarts, stack moves and the
    /// immediate-operand arithmetic: the high quarter of the base table.
    fn op_block3(&mut self, mmu: &mut MMU, opcode: u8) -> (r: Result<(), Fault>)
        requires
            0xC0 <= opcode,
            old(self).wf(),
            old(mmu)@.wf(),
        ensures
            base_step_clauses(*old(self), old(mmu)@, *final(self), final(mmu)@, r, opcode),
            final(self).wf(),
            final(mmu)@.wf(),
    {
        if opcode < 200 {
            self.op_ctrl_c0(mmu, opcode)
        }
        else if opcode < 208 {
            self.op_ctrl_c8(mmu, opcode)
        }
        else if opcode < 216 {
            self.op_ctrl_d0(mmu, opcode)
        }
        else if opcode < 224 {
            self.op_ctrl_d8(mmu, opcode)
        }
        else if opcode < 232 {
            self.op_ctrl_e0(mmu, opcode)
        }
        else if opcode < 240 {
            self.op_ctrl_e8(mmu, opcode)
        }
        else if opcode < 248 {
            self.op_ctrl_f0(mmu, opcode)
        }
        else {
            self.op_ctrl_f8(mmu, opcode)
        }
    }
}

} // verus!

verus! {

impl CPU {
    /// Dispatch one base-table opcode: execute its effect, settle the
    /// cycle cost from the tables, and advance or redirect the program
    /// counter.
    pub fn process_opcode(&mut self, mmu: &mut MMU, opcode: u8) -> (r: Result<(), Fault>)
        requires
            old(self).wf(),
            old(mmu)@.wf(),
        ensures
            base_step_clauses(*old(self), old(mmu)@, *final(self), final(mmu)@, r, opcode),
            final(self).wf(),
            final(mmu)@.wf(),
    {
        if opcode < 0x40 {
            self.op_block0(mmu, opcode)
        } else if opcode < 0x80 {
            self.op_block1(mmu, opcode)
        } else if opcode < 0xC0 {
            self.op_block2(mmu, opcode)
        } else {
            self.op_block3(mmu, opcode)
        }
    }

    /// Execute exactly one instruction: fetch the byte at the program
    /// counter, dispatch it through the base or the prefixed table, and
    /// report the fetched opcode so the run loop can see a halt.
    pub fn tick(&mut self, mmu: &mut MMU) -> (r: Result<u8, Fault>)
        requires
            old(self).wf(),
            old(mmu)@.wf(),
        ensures
            final(self).wf(),
            final(mmu)@.wf(),
            ({
                let op = read_spec(old(mmu)@, old(self).program_counter);
                &&& (r is Ok ==> r == Ok::<u8, Fault>(op))
                &&& (op == 0xCB ==> cb_step_clauses(*old(self), old(mmu)@, *final(self),
                    final(mmu)@, drop_ok(r)))
                &&& (op != 0xCB ==> base_step_clauses(*old(self), old(mmu)@, *final(self),
                    final(mmu)@, drop_ok(r), op))
            }),
    {
        let opcode = mmu.read_byte(self.program_counter);
        if opcode == 0xCB {
            self.process_cb_opcode(mmu)?;
        } else {
            self.process_opcode(mmu, opcode)?;
        }
        Ok(opcode)
    }

    /// Vector to one interrupt source: push the current program counter,
    /// clear the master-enable flag, and jump to the source's handler. On
    /// a failing push the execution unit is untouched; the bus keeps
    /// whatever half of the push landed.
    pub fn trigger_interrupt(&mut self, mmu: &mut MMU, bit: u8) -> (r: Result<(), Fault>)
        requires
            old(self).wf(),
            old(mmu)@.wf(),
            bit == VBLANK_INTERRUPT_BIT || bit == LCD_INTERRUPT_BIT
                || bit == TIMER_INTERRUPT_BIT || bit == SERIAL_INTERRUPT_BIT
                || bit == JOYPAD_INTERRUPT_BIT,
        ensures
            final(self).wf(),
            final(mmu)@.wf(),
            r is Ok <==> write16_ok(old(mmu)@, wrap16(old(self).stack_pointer - 2),
                old(self).program_counter),
            r is Ok ==> final(mmu)@ == write16_spec(old(mmu)@,
                wrap16(old(self).stack_pointer - 2), old(self).program_counter)
                && *final(self) == (CPU {
                    interrupt_master_enable: false,
                    stack_pointer: wrap16(old(self).stack_pointer - 2),
                    program_counter: vector_of(bit),
                    ..*old(self)
                }),
            r is Err ==> *final(self) == *old(self) && ({
                let sp2 = wrap16(old(self).stack_pointer - 2);
                let lo = (old(self).program_counter % 256) as u8;
                let hi = (old(self).program_counter / 256) as u8;
                let high_addr = ((sp2 + 1) % 0x10000) as u16;
                if !write_ok(old(mmu)@, sp2, lo) {
                    *final(mmu) == *old(mmu)
                        && r == Err::<(), Fault>(write_fault(old(mmu)@, sp2, lo))
                } else {
                    final(mmu)@ == write_spec(old(mmu)@, sp2, lo)
                        && r == Err::<(), Fault>(write_fault(old(mmu)@, high_addr, hi))
                }
            }),
    {
        let sp2 = self.stack_pointer.wrapping_sub(2);
        mmu.write_word(sp2, self.program_counter)?;
        self.interrupt_master_enable = false;
        self.stack_pointer = sp2;
        if bit == VBLANK_INTERRUPT_BIT {
            self.program_counter = 0x0040;
        } else if bit == LCD_INTERRUPT_BIT {
            self.program_counter = 0x0048;
        } else if bit == TIMER_INTERRUPT_BIT {
            self.program_counter = 0x0050;
        } else if bit == SERIAL_INTERRUPT_BIT {
            self.program_counter = 0x0058;
        } else {
            self.program_counter = 0x0060;
        }
        Ok(())
    }
}

} // verus!
