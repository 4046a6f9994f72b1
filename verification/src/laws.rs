//! The general guarantees of the machine, stated and proved over the
//! models the component contracts use: memory round trips, step counting,
//! call/return and push/pop symmetry, bank switching, the scanline phase
//! cycle, and the timer period.

use vstd::prelude::*;

use crate::cpu::{CPU, base_step_clauses, bytes_of, cycles_of, clocked, cond_opcode,
    cond_taken, plain_opcode, wrap16, get_pair_af, set_pair_af, imm16, jr_dest};
use crate::gpu::{GpuV, advance_spec, entered_vblank_spec, render_spec, STATE_HBLANK,
    STATE_VBLANK, STATE_OAM_READ, STATE_VRAM_READ};
use crate::mmu::{MmuV, read_spec, read16_spec, write_ok, write_spec, write16_ok,
    write16_spec};
use crate::timer::Timer;

verus! {

/// A 16-bit write into working RAM followed by a 16-bit read of the same
/// address returns the written word, with the low byte stored at the
/// address and the high byte one above it.
pub proof fn lemma_write16_read16(m: MmuV, address: u16, value: u16)
    requires
        m.wf(),
        0xC000 <= address,
        address + 1 < 0xE000,
    ensures
        write16_ok(m, address, value),
        read16_spec(write16_spec(m, address, value), address) == value,
        read_spec(write16_spec(m, address, value), address) == value % 256,
        read_spec(write16_spec(m, address, value), ((address + 1) % 0x10000) as u16)
            == value / 256,
{
    reveal(write_ok);
    reveal(write_spec);
    reveal(read_spec);
}

/// Step counting: a plain opcode advances the program counter by exactly
/// its operand length and costs the not-taken table entry; a taken
/// branch of any family lands on its target and costs the taken table
/// entry; a not-taken branch walks over the instruction at the not-taken
/// cost.
pub proof fn lemma_step_counts(c0: CPU, m0: MmuV, c1: CPU, m1: MmuV, op: u8)
    requires
        base_step_clauses(c0, m0, c1, m1, Ok(()), op),
    ensures
        plain_opcode(op) ==> c1.program_counter == wrap16(c0.program_counter + bytes_of(op))
            && c1.clock.m == cycles_of(op, false),
        (op == 0xC2 || op == 0xCA || op == 0xD2 || op == 0xDA) && cond_taken(c0, op)
            ==> c1.program_counter == imm16(c0, m0) && c1.clock.m == cycles_of(op, true),
        (op == 0x20 || op == 0x28 || op == 0x30 || op == 0x38) && cond_taken(c0, op)
            ==> c1.program_counter == jr_dest(c0, m0) && c1.clock.m == cycles_of(op, true),
        (op == 0xC0 || op == 0xC8 || op == 0xD0 || op == 0xD8) && cond_taken(c0, op)
            ==> c1.program_counter == read16_spec(m0, c0.stack_pointer)
            && c1.stack_pointer == wrap16(c0.stack_pointer + 2)
            && c1.clock.m == cycles_of(op, true),
        (op == 0xC4 || op == 0xCC || op == 0xD4 || op == 0xDC) && cond_taken(c0, op)
            ==> c1.stack_pointer == wrap16(c0.stack_pointer - 2)
            && c1.clock.m == cycles_of(op, true),
        cond_opcode(op) && !cond_taken(c0, op)
            ==> c1.program_counter == wrap16(c0.program_counter + bytes_of(op))
            && c1.clock.m == cycles_of(op, false),
{
}

/// A call followed by a return is the identity on the stack pointer and
/// resumes right behind the call: the call pushes the post-call address
/// at the decremented stack pointer, and the return pops it back. Stated
/// for a stack in working RAM, away from the instruction bytes the call
/// itself fetches.
#[verifier::spinoff_prover]
#[verifier::rlimit(100)]
pub proof fn lemma_call_then_ret(c0: CPU, m0: MmuV, c1: CPU, m1: MmuV, c2: CPU, m2: MmuV)
    requires
        m0.wf(),
        base_step_clauses(c0, m0, c1, m1, Ok(()), 0xCD),
        base_step_clauses(c1, m1, c2, m2, Ok(()), 0xC9),
        0xC002 <= c0.stack_pointer,
        c0.stack_pointer <= 0xDFFE,
        c0.program_counter < 0xC000 - 3,
    ensures
        c1.stack_pointer == c0.stack_pointer - 2,
        read16_spec(m1, c1.stack_pointer) == wrap16(c0.program_counter + 3),
        c2.stack_pointer == c0.stack_pointer,
        c2.program_counter == wrap16(c0.program_counter + 3),
        m2 == m1,
{
    let sp2 = wrap16(c0.stack_pointer - 2);
    let ret = wrap16(c0.program_counter + 3);
    assert(sp2 == c0.stack_pointer - 2);
    lemma_write16_read16(m0, sp2, ret);
    assert(m1 == write16_spec(m0, sp2, ret));
    assert(read16_spec(m1, sp2) == ret);
    assert(c2.program_counter == read16_spec(m1, c1.stack_pointer));
}

/// Push and pop are symmetric inverses for any register pair: popping
/// right after pushing restores the pair and the stack pointer, for a
/// stack in working RAM. For the accumulator-flags pair this rests on the
/// flags byte having an always-zero low nibble.
#[verifier::spinoff_prover]
#[verifier::rlimit(100)]
pub proof fn lemma_push_pop(c0: CPU, m0: MmuV, c1: CPU, m1: MmuV, c2: CPU, m2: MmuV,
    which: int)
    requires
        m0.wf(),
        0 <= which < 4,
        base_step_clauses(c0, m0, c1, m1, Ok(()), (0xC5 + which * 16) as u8),
        base_step_clauses(c1, m1, c2, m2, Ok(()), (0xC1 + which * 16) as u8),
        0xC002 <= c0.stack_pointer,
        c0.stack_pointer <= 0xDFFE,
    ensures
        c2.stack_pointer == c0.stack_pointer,
        get_pair_af(c2, which) == get_pair_af(c0, which),
        m2 == m1,
{
    let sp2 = wrap16(c0.stack_pointer - 2);
    let val = get_pair_af(c0, which);
    assert(sp2 == c0.stack_pointer - 2);
    lemma_write16_read16(m0, sp2, val);
    assert(m1 == write16_spec(m0, sp2, val));
    assert(read16_spec(m1, sp2) == val);
    assert(c2 == clocked(set_pair_af((CPU { stack_pointer: wrap16(c1.stack_pointer + 2),
        ..c1 }), which, val), (0xC1 + which * 16) as u8, false, true));
    if which == 3 {
        let f = c0.f_spec();
        let z: u8 = if c0.flag_zero { 0x80 } else { 0 };
        let n: u8 = if c0.flag_subtract { 0x40 } else { 0 };
        let h: u8 = if c0.flag_half_carry { 0x20 } else { 0 };
        let cy: u8 = if c0.flag_carry { 0x10 } else { 0 };
        assert(f == z + n + h + cy);
        assert(val == c0.a * 256 + f);
        assert(val % 256 == f && val / 256 == c0.a) by (nonlinear_arith)
            requires
                val == c0.a * 256 + f,
                f < 256,
                val == get_pair_af(c0, 3),
        ;
        assert((z + n + h + cy) as u8 & 0x80 != 0 == (z == 0x80)
            && (z + n + h + cy) as u8 & 0x40 != 0 == (n == 0x40)
            && (z + n + h + cy) as u8 & 0x20 != 0 == (h == 0x20)
            && (z + n + h + cy) as u8 & 0x10 != 0 == (cy == 0x10)) by (bit_vector)
            requires
                (z == 0 || z == 0x80) && (n == 0 || n == 0x40) && (h == 0 || h == 0x20)
                    && (cy == 0 || cy == 0x10),
        ;
        assert(c2.a == c0.a && c2.flag_zero == c0.flag_zero
            && c2.flag_subtract == c0.flag_subtract
            && c2.flag_half_carry == c0.flag_half_carry
            && c2.flag_carry == c0.flag_carry);
    }
}

/// Bank switching. On the banked controller, writing index n (with
/// 1 <= n < bank count, n < 32) into the ROM-bank-select range makes bank
/// n visible throughout the switchable window, writing 0 selects bank 1,
/// and an index at or past the bank count is refused as fatal. Without a
/// bank controller every such write is accepted and changes nothing.
pub proof fn lemma_bank_select(m: MmuV, address: u16, n: u8, k: u16)
    requires
        m.wf(),
        !m.is_bios_mapped,
        0x2000 <= address < 0x4000,
        k < 0x4000,
    ensures
        m.banked_cartridge() && 1 <= n < m.rom_size && n < 32 ==> write_ok(m, address, n)
            && write_spec(m, address, n).active_rom_bank == n
            && read_spec(write_spec(m, address, n), (0x4000 + k) as u16)
                == m.rom_banks[n as int][k as int],
        m.banked_cartridge() && n == 0 ==> write_ok(m, address, n)
            && write_spec(m, address, n).active_rom_bank == 1,
        m.banked_cartridge() && (n >= m.rom_size || n >= 32) && n != 0
            ==> !write_ok(m, address, n),
        m.cartridge_type == crate::cartridge::ROM_ONLY ==> write_ok(m, address, n)
            && write_spec(m, address, n) == m,
{
    reveal(write_ok);
    reveal(write_spec);
    reveal(read_spec);
}

/// Without a bank controller, every write into the whole ROM window
/// (0x0000-0x7FFF) is accepted and leaves the bus exactly as it was; in
/// particular the active ROM bank never changes.
pub proof fn lemma_rom_only_writes(m: MmuV, address: u16, value: u8)
    requires
        m.cartridge_type == crate::cartridge::ROM_ONLY,
        address < 0x8000,
    ensures
        write_ok(m, address, value),
        write_spec(m, address, value) == m,
        write_spec(m, address, value).active_rom_bank == m.active_rom_bank,
{
    reveal(write_ok);
    reveal(write_spec);
}

/// One visible line of the phase machine: from sprite-table scan with a
/// cleared phase counter, the three visible-phase budgets in turn lead
/// back to sprite-table scan on the next line; completing line 143
/// instead enters vertical blank and signals the frame.
pub proof fn lemma_visible_line_cycle(g: GpuV)
    requires
        g.wf(),
        g.state == STATE_OAM_READ,
        g.state_clock == 0,
    ensures
        ({
            let g1 = advance_spec(g, 80);
            let g2 = advance_spec(g1, 172);
            let g3 = advance_spec(g2, 204);
            &&& g1.state == STATE_VRAM_READ && g1.state_clock == 0
                && g1.render_line == g.render_line
            &&& g2.state == STATE_HBLANK && g2.state_clock == 0
                && g2.render_line == g.render_line
            &&& g2 == render_spec((GpuV { state_clock: 0, state: STATE_HBLANK, ..g1 }))
            &&& g.render_line < 143 ==> g3.state == STATE_OAM_READ && g3.state_clock == 0
                && g3.render_line == g.render_line + 1
                && !entered_vblank_spec(g2, 204)
            &&& g.render_line == 143 ==> g3.state == STATE_VBLANK && g3.state_clock == 0
                && g3.render_line == 144
                && entered_vblank_spec(g2, 204)
            &&& g3.wf()
        }),
{
}

/// The vertical-blank tail of the phase machine: each blank line consumes
/// its own budget, and completing the last one wraps the line
/// counter to zero and returns to sprite-table scan. Together with the
/// visible-line cycle this walks the counter through 144 visible lines
/// and 10 blank slots before wrapping.
pub proof fn lemma_vblank_lines(g: GpuV)
    requires
        g.wf(),
        g.state == STATE_VBLANK,
        g.state_clock == 0,
    ensures
        ({
            let g1 = advance_spec(advance_spec(g, 208), 208);
            &&& g.render_line < 153 ==> g1.state == STATE_VBLANK && g1.state_clock == 0
                && g1.render_line == g.render_line + 1
            &&& g.render_line == 153 ==> g1.state == STATE_OAM_READ && g1.state_clock == 0
                && g1.render_line == 0
            &&& g1.wf()
        }),
{
}

/// The timer period: with the counter enabled and no overflow latched,
/// accumulating one full rate divisor of clock edges increments the
/// counter by one; driving it past 0xFF latches the overflow instead, and
/// the very next advance reloads the counter from the reload register and
/// raises the interrupt request.
pub proof fn lemma_timer_period(t: Timer, clock_t: u8)
    requires
        t.wf(),
        t.tac & 0x4 != 0,
    ensures
        !t.tima_overflow_last_step && t.counter + clock_t >= t.tima_speed && t.tima < 0xFF
            ==> t.step_spec(clock_t).tima == t.tima + 1
            && t.step_spec(clock_t).counter == 0
            && !t.step_request(clock_t),
        !t.tima_overflow_last_step && t.counter + clock_t >= t.tima_speed && t.tima == 0xFF
            ==> t.step_spec(clock_t).tima_overflow_last_step
            && t.step_spec(clock_t).tima == 0xFF
            && !t.step_request(clock_t),
        t.tima_overflow_last_step ==> t.step_request(clock_t),
        t.tima_overflow_last_step && t.counter + clock_t < t.tima_speed
            ==> t.step_spec(clock_t).tima == t.tma && !t.step_spec(clock_t).tima_overflow_last_step,
{
}

/// One whole visible line of phase-machine advances.
pub open spec fn advance_visible_line(g: GpuV) -> GpuV {
    advance_spec(advance_spec(advance_spec(g, 80), 172), 204)
}

/// One whole blank line slot of phase-machine advances.
pub open spec fn advance_blank_line(g: GpuV) -> GpuV {
    advance_spec(advance_spec(g, 208), 208)
}

/// `n` visible lines in a row.
pub open spec fn advance_visible_lines(g: GpuV, n: nat) -> GpuV
    decreases n,
{
    if n == 0 {
        g
    } else {
        advance_visible_line(advance_visible_lines(g, (n - 1) as nat))
    }
}

/// `n` blank line slots in a row.
pub open spec fn advance_blank_lines(g: GpuV, n: nat) -> GpuV
    decreases n,
{
    if n == 0 {
        g
    } else {
        advance_blank_line(advance_blank_lines(g, (n - 1) as nat))
    }
}

/// Walking the visible part of the frame: from sprite-table scan on line
/// zero, each full line of advances lands on sprite-table scan one line
/// down, for every line count up to the last visible line.
pub proof fn lemma_visible_walk(g: GpuV, n: nat)
    requires
        g.wf(),
        g.state == STATE_OAM_READ,
        g.state_clock == 0,
        g.render_line == 0,
        n <= 143,
    ensures
        advance_visible_lines(g, n).wf(),
        advance_visible_lines(g, n).state == STATE_OAM_READ,
        advance_visible_lines(g, n).state_clock == 0,
        advance_visible_lines(g, n).render_line == n,
    decreases n,
{
    if n > 0 {
        lemma_visible_walk(g, (n - 1) as nat);
        lemma_visible_line_cycle(advance_visible_lines(g, (n - 1) as nat));
    }
}

/// Walking the blank tail: from the first blank line slot, each slot of
/// advances moves one line down, for every slot count up to the last.
pub proof fn lemma_blank_walk(g: GpuV, n: nat)
    requires
        g.wf(),
        g.state == STATE_VBLANK,
        g.state_clock == 0,
        g.render_line == 144,
        n <= 9,
    ensures
        advance_blank_lines(g, n).wf(),
        advance_blank_lines(g, n).state == STATE_VBLANK,
        advance_blank_lines(g, n).state_clock == 0,
        advance_blank_lines(g, n).render_line == 144 + n,
    decreases n,
{
    if n > 0 {
        lemma_blank_walk(g, (n - 1) as nat);
        lemma_vblank_lines(advance_blank_lines(g, (n - 1) as nat));
    }
}

/// The whole frame in one statement: from sprite-table scan on line zero,
/// 144 full visible lines enter vertical blank on line 144, and the ten
/// blank line slots after them wrap the line counter back to zero and
/// return to sprite-table scan.
pub proof fn lemma_frame_wrap(g: GpuV)
    requires
        g.wf(),
        g.state == STATE_OAM_READ,
        g.state_clock == 0,
        g.render_line == 0,
    ensures
        ({
            let gv = advance_visible_lines(g, 144);
            let gw = advance_blank_lines(gv, 10);
            &&& gv.state == STATE_VBLANK && gv.state_clock == 0 && gv.render_line == 144
            &&& gw.state == STATE_OAM_READ && gw.state_clock == 0 && gw.render_line == 0
            &&& gw.wf()
        }),
{
    lemma_visible_walk(g, 143);
    lemma_visible_line_cycle(advance_visible_lines(g, 143));
    assert(advance_visible_lines(g, 144)
        == advance_visible_line(advance_visible_lines(g, 143)));
    let gv = advance_visible_lines(g, 144);
    lemma_blank_walk(gv, 9);
    lemma_vblank_lines(advance_blank_lines(gv, 9));
    assert(advance_blank_lines(gv, 10) == advance_blank_line(advance_blank_lines(gv, 9)));
}

} // verus!
