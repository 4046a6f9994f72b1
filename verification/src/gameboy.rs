//! The machine: one execution unit and one bus, advanced one macro-step
//! at a time. Each step executes one instruction, advances the picture
//! unit and the timer by the instruction's cycle cost, and evaluates the
//! interrupt-dispatch protocol once.

use vstd::prelude::*;

use crate::cartridge::Cartridge;
use crate::cpu::{CPU, base_step_clauses, cb_step_clauses, interrupt_pending, wrap16,
    vector_of};
use crate::fault::Fault;
use crate::mmu::{MMU, MmuV, read_spec, write_spec, write_ok, write_fault, write16_ok,
    write16_spec, bank_count, timer_tick_spec};
use crate::gpu::{advance_spec, entered_vblank_spec};

verus! {

/// What one macro-step reports to the run loop: the executed opcode, the
/// clock edges it consumed, and whether the frame just completed.
pub struct StepOutcome {
    pub opcode: u8,
    pub clock_t: u32,
    pub entered_vblank: bool,
}

/// The intermediate state right after the instruction executed, before
/// the peripherals advanced: the anchor the step contract is phrased
/// against, together with the instruction's own outcome.
pub ghost struct StepTrace {
    pub cpu_after: CPU,
    pub mmu_after: MmuV,
    pub tick_result: Result<(), Fault>,
}

/// The console: execution unit, bus, cartridge metadata, and pause flag.
pub struct GameBoy {
    pub cpu: CPU,
    pub mmu: MMU,
    pub cartridge: Cartridge,
    pub is_paused: bool,
    /// Proof-only record of the most recent step's intermediate state.
    pub trace: Ghost<StepTrace>,
}

/// Writes at or above the video window never raise a bank-command fault.
pub proof fn lemma_high_write_ok(m: MmuV, address: u16, value: u8)
    requires
        address >= 0x8000,
    ensures
        write_ok(m, address, value),
{
    reveal(write_ok);
}

/// The lowest set bit of the pending mask, in the fixed priority order
/// vertical blank, LCD status, timer, serial, joypad.
pub open spec fn lowest_interrupt_bit(pending: u8) -> u8 {
    if pending & 0x01 != 0 {
        0x01
    } else if pending & 0x02 != 0 {
        0x02
    } else if pending & 0x04 != 0 {
        0x04
    } else if pending & 0x08 != 0 {
        0x08
    } else {
        0x10
    }
}

/// The bus after the peripherals of one macro-step ran: the picture unit
/// advanced by the step's cycle cost, the vertical-blank request latched
/// if the frame completed, and the timer advanced.
pub open spec fn peripherals_spec(m: MmuV, ticked: u8) -> MmuV {
    let m2 = MmuV { gpu: advance_spec(m.gpu, ticked), ..m };
    let m3 = if entered_vblank_spec(m.gpu, ticked) {
        write_spec(m2, 0xFF0F, read_spec(m2, 0xFF0F) | 0x01)
    } else {
        m2
    };
    timer_tick_spec(m3, ticked)
}

impl GameBoy {
    /// Both halves of the machine are structurally sound.
    pub open spec fn wf(self) -> bool {
        self.cpu.wf() && self.mmu@.wf()
    }

    /// A fresh console: cleared execution unit, cleared bus, blank
    /// cartridge descriptor.
    pub fn new() -> (gb: GameBoy)
        ensures
            gb.wf(),
            !gb.is_paused,
            gb.cpu.program_counter == 0,
            gb.cpu.stack_pointer == 0,
            gb.cpu.interrupt_master_enable,
            !gb.mmu.is_bios_mapped,
            gb.mmu.cartridge_type == crate::cartridge::ROM_ONLY,
            gb.mmu.active_rom_bank == 1,
    {
        GameBoy {
            cpu: CPU::new(),
            mmu: MMU::new(),
            cartridge: Cartridge::new(),
            is_paused: false,
            trace: Ghost(arbitrary()),
        }
    }

    /// Load a ROM image: fill the bank store, then read the cartridge
    /// header fields and hand the bank-controller type to the bus.
    pub fn load_rom(&mut self, data: &Vec<u8>) -> (r: Result<(), Fault>)
        requires
            old(self).wf(),
            data@.len() > 0x148,
            data@[0x148] <= 6 ==> data@.len() >= bank_count(data@[0x148]) * 16384,
        ensures
            final(self).wf(),
            r is Ok <==> data@[0x148] <= 6,
            r is Ok ==> final(self).cartridge.gameboy_type == data@[0x143]
                && final(self).cartridge.is_super_gameboy == data@[0x146]
                && final(self).cartridge.cartridge_type == data@[0x147]
                && final(self).cartridge.rom_size == data@[0x148]
                && final(self).cartridge.ram_size == data@[0x149]
                && final(self).mmu.cartridge_type == data@[0x147]
                && final(self).mmu.rom_size == bank_count(data@[0x148]),
            r is Err ==> r == Err::<(), Fault>(Fault::UnknownRomSize(data@[0x148])),
    {
        self.mmu.load_rom(data)?;
        proof {
            reveal(read_spec);
            assert(self.mmu@.rom_banks[0].len() == 16384);
        }
        self.cartridge.gameboy_type = self.mmu.read_byte(0x143);
        self.cartridge.is_super_gameboy = self.mmu.read_byte(0x146);
        self.cartridge.cartridge_type = self.mmu.read_byte(0x147);
        self.cartridge.rom_size = self.mmu.read_byte(0x148);
        self.cartridge.ram_size = self.mmu.read_byte(0x149);
        self.cartridge.region = self.mmu.read_byte(0x14A);
        self.cartridge.licensee = self.mmu.read_byte(0x14B);
        self.cartridge.version = self.mmu.read_byte(0x14C);
        self.cartridge.checksum = self.mmu.read_word(0x14E);
        let ct = self.cartridge.cartridge_type;
        self.mmu.set_cartridge_type(ct);
        Ok(())
    }

    /// Record whether the boot ROM is skipped.
    pub fn skip_bios(&mut self, skip: bool)
        ensures
            *final(self) == (GameBoy {
                cpu: (CPU { skip_bios: skip, ..old(self).cpu }),
                ..*old(self)
            }),
    {
        self.cpu.skip_bios = skip;
    }

    /// Put the machine in the state the boot ROM would leave behind, or
    /// at the reset vector when the boot ROM itself will run. Booting
    /// never fails: the whole seeding sequence writes the peripheral
    /// window, where no write can fault.
    pub fn boot(&mut self)
        requires
            old(self).wf(),
        ensures
            final(self).wf(),
            final(self).cartridge == old(self).cartridge,
            !old(self).cpu.skip_bios ==> *final(self) == (GameBoy {
                cpu: (CPU { program_counter: 0, ..old(self).cpu }),
                ..*old(self)
            }),
            old(self).cpu.skip_bios ==> final(self).cpu.program_counter == 0x100
                && final(self).cpu.stack_pointer == 0xFFFE
                && final(self).cpu.af_spec() == 0x01B0
                && final(self).cpu.bc_spec() == 0x0013
                && final(self).cpu.de_spec() == 0x00D8
                && final(self).cpu.hl_spec() == 0x014D
                && final(self).cpu.skip_bios == old(self).cpu.skip_bios
                && final(self).cpu.interrupt_master_enable
                    == old(self).cpu.interrupt_master_enable,
    {
        if !self.cpu.skip_bios {
            self.cpu.program_counter = 0x0;
        } else {
            self.emulate_bios_setup();
            self.cpu.program_counter = 0x100;
        }
    }

    /// One boot-seed store. Every seeded address sits in the peripheral
    /// window at or above 0x8000, where no write can fault.
    fn seed_io(&mut self, address: u16, value: u8)
        requires
            old(self).wf(),
            address >= 0x8000,
        ensures
            final(self).wf(),
            final(self).cpu == old(self).cpu,
            final(self).cartridge == old(self).cartridge,
            final(self).is_paused == old(self).is_paused,
            final(self).mmu@ == write_spec(old(self).mmu@, address, value),
    {
        proof {
            lemma_high_write_ok(self.mmu@, address, value);
        }
        let res = self.mmu.write_byte(address, value);
        match res {
            Ok(()) => {},
            Err(_) => {
                proof {
                    assert(false);
                }
            },
        }
    }

    /// The register and peripheral state the boot ROM establishes on the
    /// base hardware model.
    #[verifier::spinoff_prover]
    #[verifier::rlimit(100)]
    fn emulate_bios_setup(&mut self)
        requires
            old(self).wf(),
        ensures
            final(self).wf(),
            final(self).cartridge == old(self).cartridge,
            final(self).cpu.af_spec() == 0x01B0,
            final(self).cpu.bc_spec() == 0x0013,
            final(self).cpu.de_spec() == 0x00D8,
            final(self).cpu.hl_spec() == 0x014D,
            final(self).cpu.stack_pointer == 0xFFFE,
            final(self).cpu.program_counter == old(self).cpu.program_counter,
            final(self).cpu.skip_bios == old(self).cpu.skip_bios,
            final(self).cpu.interrupt_master_enable
                == old(self).cpu.interrupt_master_enable,
    {
        self.cpu.write_register_af(0x01B0);
        proof {
            assert(0xB0u8 & 0x80 != 0 && 0xB0u8 & 0x40 == 0 && 0xB0u8 & 0x20 != 0
                && 0xB0u8 & 0x10 != 0) by (bit_vector);
        }
        self.cpu.write_register_bc(0x0013);
        self.cpu.write_register_de(0x00D8);
        self.cpu.write_register_hl(0x014D);
        self.cpu.stack_pointer = 0xFFFE;
        self.seed_io(0xFF00, 0x0F);
        self.seed_io(0xFF05, 0x00);
        self.seed_io(0xFF06, 0x00);
        self.seed_io(0xFF07, 0x00);
        self.seed_io(0xFF10, 0x80);
        self.seed_io(0xFF11, 0xBF);
        self.seed_io(0xFF12, 0xF3);
        self.seed_io(0xFF14, 0xBF);
        self.seed_io(0xFF16, 0x3F);
        self.seed_io(0xFF17, 0x00);
        self.seed_io(0xFF19, 0xBF);
        self.seed_io(0xFF1A, 0x7F);
        self.seed_io(0xFF1B, 0xFF);
        self.seed_io(0xFF1C, 0x9F);
        self.seed_io(0xFF1E, 0xBF);
        self.seed_io(0xFF20, 0xFF);
        self.seed_io(0xFF21, 0x00);
        self.seed_io(0xFF22, 0x00);
        self.seed_io(0xFF23, 0xBF);
        self.seed_io(0xFF24, 0x77);
        self.seed_io(0xFF25, 0xF3);
        self.seed_io(0xFF26, 0xF1);
        self.seed_io(0xFF40, 0x91);
        self.seed_io(0xFF42, 0x00);
        self.seed_io(0xFF43, 0x00);
        self.seed_io(0xFF45, 0x00);
        self.seed_io(0xFF47, 0xFC);
        self.seed_io(0xFF48, 0xFF);
        self.seed_io(0xFF49, 0xFF);
        self.seed_io(0xFF4A, 0x00);
        self.seed_io(0xFF4B, 0x00);
        self.seed_io(0xFFFF, 0x00);
    }

    /// One macro-step: execute one instruction, advance the picture unit
    /// and the timer by its cycle cost, latch the vertical-blank request
    /// when the frame completes, and evaluate the interrupt-dispatch
    /// protocol once.
    ///
    /// The contract is total. The recorded trace holds the instruction's
    /// own outcome and intermediate state, pinned by the per-opcode step
    /// relation, so the trace is not free: for an opcode that cannot
    /// fault, the relation forces a successful instruction, and the step
    /// must then succeed unless dispatch fires and its stack push lands
    /// on a faulting bank command. Every error is the instruction's or
    /// the push's exact fault, with the machine state pinned.
    #[verifier::spinoff_prover]
    #[verifier::rlimit(100)]
    pub fn step(&mut self) -> (r: Result<StepOutcome, Fault>)
        requires
            old(self).wf(),
        ensures
            final(self).wf(),
            final(self).cartridge == old(self).cartridge,
            final(self).is_paused == old(self).is_paused,
            ({
                let op = read_spec(old(self).mmu@, old(self).cpu.program_counter);
                let tr = final(self).trace@;
                &&& tr.cpu_after.wf()
                &&& tr.mmu_after.wf()
                &&& (op == 0xCB ==> cb_step_clauses(old(self).cpu, old(self).mmu@,
                    tr.cpu_after, tr.mmu_after, tr.tick_result))
                &&& (op != 0xCB ==> base_step_clauses(old(self).cpu, old(self).mmu@,
                    tr.cpu_after, tr.mmu_after, tr.tick_result, op))
                &&& (tr.tick_result is Err
                    ==> r == Err::<StepOutcome, Fault>(tr.tick_result->Err_0)
                    && final(self).cpu == tr.cpu_after && final(self).mmu@ == tr.mmu_after)
                &&& (tr.tick_result is Ok ==> ({
                    let ticked = tr.cpu_after.clock.t;
                    let m4 = peripherals_spec(tr.mmu_after, ticked as u8);
                    let dispatch = tr.cpu_after.interrupt_master_enable
                        && interrupt_pending(m4);
                    let bit = lowest_interrupt_bit(m4.interrupt_enable_register
                        & m4.io_ports[15] & 0x1F);
                    let m5 = write_spec(m4, 0xFF0F, m4.io_ports[15] & !bit);
                    let sp2 = wrap16(tr.cpu_after.stack_pointer - 2);
                    let push_ok = write16_ok(m5, sp2, tr.cpu_after.program_counter);
                    &&& ticked <= 24
                    &&& (!dispatch ==> r is Ok && final(self).cpu == tr.cpu_after
                        && final(self).mmu@ == m4)
                    &&& (dispatch && push_ok ==> r is Ok
                        && final(self).mmu@ == write16_spec(m5, sp2,
                            tr.cpu_after.program_counter)
                        && final(self).cpu == (CPU {
                            interrupt_master_enable: false,
                            stack_pointer: sp2,
                            program_counter: vector_of(bit),
                            ..tr.cpu_after
                        }))
                    &&& (dispatch && !push_ok ==> r is Err
                        && final(self).cpu == tr.cpu_after && ({
                            let lo = (tr.cpu_after.program_counter % 256) as u8;
                            let hi = (tr.cpu_after.program_counter / 256) as u8;
                            let high_addr = ((sp2 + 1) % 0x10000) as u16;
                            if !write_ok(m5, sp2, lo) {
                                final(self).mmu@ == m5
                                    && r == Err::<StepOutcome, Fault>(write_fault(m5,
                                        sp2, lo))
                            } else {
                                final(self).mmu@ == write_spec(m5, sp2, lo)
                                    && r == Err::<StepOutcome, Fault>(write_fault(m5,
                                        high_addr, hi))
                            }
                        }))
                    &&& (r is Ok ==> r->Ok_0.opcode == op && r->Ok_0.clock_t == ticked
                        && r->Ok_0.entered_vblank == entered_vblank_spec(tr.mmu_after.gpu,
                            ticked as u8))
                }))
            }),
    {
        let tick_res = self.cpu.tick(&mut self.mmu);
        proof {
            self.trace@ = StepTrace {
                cpu_after: self.cpu,
                mmu_after: self.mmu@,
                tick_result: crate::cpu::drop_ok(tick_res),
            };
        }
        let opcode = match tick_res {
            Ok(op) => op,
            Err(e) => {
                return Err(e);
            },
        };
        let ticked32 = self.cpu.get_clock_t();
        let ticked = ticked32 as u8;

        // Advance the picture unit; latch the vertical-blank request when
        // the visible frame has just completed.
        let entered_vblank = self.mmu.gpu.tick(ticked);
        if entered_vblank {
            let request = self.mmu.read_byte(0xFF0F);
            proof {
                lemma_high_write_ok(self.mmu@, 0xFF0F, request | 0x01);
            }
            let res = self.mmu.write_byte(0xFF0F, request | 0x01);
            proof {
                assert(res is Ok);
            }
        }

        // Advance the timer; an overflow latches its own request bit.
        self.mmu.timer_tick(ticked);

        // Interrupt dispatch: with the master enable set and a pending
        // enabled source, vector to the lowest-numbered one.
        if self.cpu.interrupt_master_enable {
            let pending = self.mmu.interrupt_enable_register & self.mmu.io_ports[15] & 0x1F;
            if pending != 0 {
                let bit: u8 = if pending & 0x01 != 0 {
                    0x01
                } else if pending & 0x02 != 0 {
                    0x02
                } else if pending & 0x04 != 0 {
                    0x04
                } else if pending & 0x08 != 0 {
                    0x08
                } else {
                    0x10
                };
                let cur = self.mmu.io_ports[15];
                proof {
                    lemma_high_write_ok(self.mmu@, 0xFF0F, cur & !bit);
                }
                let res = self.mmu.write_byte(0xFF0F, cur & !bit);
                proof {
                    assert(res is Ok);
                }
                self.cpu.trigger_interrupt(&mut self.mmu, bit)?;
            }
        }

        Ok(StepOutcome { opcode, clock_t: ticked32, entered_vblank })
    }
}

} // verus!
