//! Bus / memory-management unit: demultiplexes every 16-bit address into
//! the correct backing store or peripheral register, and interprets
//! writes into the ROM window as bank-controller commands.

use vstd::prelude::*;

use crate::cartridge::{ROM_ONLY, MBC1, MBC1_RAM, MBC1_RAM_BATT};
use crate::fault::Fault;
use crate::gpu::{GPU, GpuV, write_vram_spec, write_register_spec, read_register_spec,
    object_data_after, zero_bytes};
use crate::input::Input;
use crate::timer::Timer;

verus! {

/// The mathematical model of the bus: every store as a sequence.
#[verifier::ext_equal]
pub ghost struct MmuV {
    pub gpu: GpuV,
    pub bios: Seq<u8>,
    pub rom_banks: Seq<Seq<u8>>,
    pub eram: Seq<u8>,
    pub wram: Seq<u8>,
    pub io_ports: Seq<u8>,
    pub zram: Seq<u8>,
    pub interrupt_enable_register: u8,
    pub timer: Timer,
    pub active_rom_bank: u8,
    pub active_ram_bank: u8,
    pub active_external_ram: bool,
    pub rom_size: u8,
    pub memory_mode: u8,
    pub cartridge_type: u8,
    pub is_bios_mapped: bool,
}

/// The bus. It owns all addressable storage except video memory and the
/// sprite table, which live in the picture unit, and routes every access.
pub struct MMU {
    pub gpu: GPU,
    pub bios: Vec<u8>,
    /// 16 KiB ROM banks; bank 0 is fixed, one other is visible at a time.
    pub rom_banks: Vec<Vec<u8>>,
    pub eram: Vec<u8>,
    pub wram: Vec<u8>,
    pub io_ports: Vec<u8>,
    pub zram: Vec<u8>,
    pub interrupt_enable_register: u8,
    pub timer: Timer,
    pub active_rom_bank: u8,
    pub active_ram_bank: u8,
    pub active_external_ram: bool,
    /// Bank count decoded from the ROM size header code.
    pub rom_size: u8,
    /// 0 selects ROM-banking mode, 1 RAM-banking mode.
    pub memory_mode: u8,
    pub cartridge_type: u8,
    pub is_bios_mapped: bool,
}

impl View for MMU {
    type V = MmuV;

    open spec fn view(&self) -> MmuV {
        MmuV {
            gpu: self.gpu@,
            bios: self.bios@,
            rom_banks: Seq::new(self.rom_banks@.len(), |i: int| self.rom_banks@[i]@),
            eram: self.eram@,
            wram: self.wram@,
            io_ports: self.io_ports@,
            zram: self.zram@,
            interrupt_enable_register: self.interrupt_enable_register,
            timer: self.timer,
            active_rom_bank: self.active_rom_bank,
            active_ram_bank: self.active_ram_bank,
            active_external_ram: self.active_external_ram,
            rom_size: self.rom_size,
            memory_mode: self.memory_mode,
            cartridge_type: self.cartridge_type,
            is_bios_mapped: self.is_bios_mapped,
        }
    }
}

impl MmuV {
    /// Structural bounds every reachable bus state satisfies.
    pub open spec fn wf(self) -> bool {
        &&& self.gpu.wf()
        &&& self.timer.wf()
        &&& self.bios.len() == 256
        &&& self.rom_banks.len() == 128
        &&& (forall|i: int| 0 <= i < 128 ==> self.rom_banks[i].len() == 16384)
        &&& self.eram.len() == 8192
        &&& self.wram.len() == 8192
        &&& self.io_ports.len() == 64
        &&& self.zram.len() == 127
        &&& self.active_rom_bank < 128
        &&& self.rom_size <= 128
    }

    /// Whether the cartridge type is one the bank-command decoder knows.
    pub open spec fn supported_cartridge(self) -> bool {
        self.cartridge_type == ROM_ONLY || self.cartridge_type == MBC1
            || self.cartridge_type == MBC1_RAM || self.cartridge_type == MBC1_RAM_BATT
    }

    /// Whether the cartridge type is a banked-ROM controller.
    pub open spec fn banked_cartridge(self) -> bool {
        self.cartridge_type == MBC1 || self.cartridge_type == MBC1_RAM
            || self.cartridge_type == MBC1_RAM_BATT
    }

    /// Whether the cartridge type carries switchable external RAM.
    pub open spec fn ram_cartridge(self) -> bool {
        self.cartridge_type == MBC1_RAM || self.cartridge_type == MBC1_RAM_BATT
    }
}

/// What a read of the peripheral window at offset `off` (from 0xFF00)
/// yields. Bits of partially mapped registers that have no backing read
/// as ones; wholly unmapped slots read as 0xFF.
#[verifier::opaque]
pub open spec fn io_read_spec(m: MmuV, off: u16) -> u8 {
    if off == 0x00 {
        m.gpu.input.read_spec() | 0xC0
    } else if off == 0x01 {
        m.io_ports[off as int]
    } else if off == 0x02 {
        m.io_ports[off as int] | 0x7E
    } else if off == 0x04 {
        (m.timer.div >> 8) as u8
    } else if off == 0x05 {
        m.timer.tima
    } else if off == 0x06 {
        m.timer.tma
    } else if off == 0x07 {
        m.timer.tac | 0xF8
    } else if off == 0x0F {
        m.io_ports[off as int] | 0xE0
    } else if off == 0x10 {
        m.io_ports[off as int] | 0x80
    } else if off == 0x11 || off == 0x12 || off == 0x13 || off == 0x14 || off == 0x16
        || off == 0x17 || off == 0x18 || off == 0x19 || off == 0x1B || off == 0x1D
        || off == 0x1E || off == 0x21 || off == 0x22 || off == 0x24 || off == 0x25 {
        m.io_ports[off as int]
    } else if off == 0x1A {
        m.io_ports[off as int] | 0x7F
    } else if off == 0x1C {
        m.io_ports[off as int] | 0x9F
    } else if off == 0x20 {
        m.io_ports[off as int] | 0xC0
    } else if off == 0x23 {
        m.io_ports[off as int] | 0x3F
    } else if off == 0x26 {
        m.io_ports[off as int] | 0x70
    } else if 0x30 <= off < 0x40 {
        m.io_ports[off as int]
    } else {
        0xFF
    }
}

/// What a read of any bus address yields.
#[verifier::opaque]
pub open spec fn read_spec(m: MmuV, address: u16) -> u8 {
    if m.is_bios_mapped && address <= 0xFF {
        m.bios[address as int]
    } else if address < 0x4000 {
        m.rom_banks[0][address as int]
    } else if address < 0x8000 {
        m.rom_banks[m.active_rom_bank as int][address - 0x4000]
    } else if address < 0xA000 {
        m.gpu.vram[address - 0x8000]
    } else if address < 0xC000 {
        if m.active_external_ram {
            m.eram[address - 0xA000]
        } else {
            0
        }
    } else if address < 0xE000 {
        m.wram[address - 0xC000]
    } else if address < 0xFE00 {
        m.wram[address - 0xE000]
    } else if address < 0xFEA0 {
        m.gpu.oam[address - 0xFE00]
    } else if address < 0xFF00 {
        0
    } else if address < 0xFF40 {
        io_read_spec(m, (address - 0xFF00) as u16)
    } else if address == 0xFF41 {
        read_register_spec(m.gpu, address) | 0x80
    } else if address < 0xFF4C {
        read_register_spec(m.gpu, address)
    } else if address < 0xFF80 {
        0xFF
    } else if address < 0xFFFF {
        m.zram[address - 0xFF80]
    } else {
        m.interrupt_enable_register
    }
}

/// A 16-bit read: little-endian composition of two byte reads, the second
/// address wrapping around the top of the space.
pub open spec fn read16_spec(m: MmuV, address: u16) -> u16 {
    (read_spec(m, address) + 256 * read_spec(m, ((address + 1) % 0x10000) as u16)) as u16
}

/// Whether a write of `value` at `address` completes without a fatal
/// condition. Only bank-controller commands can fail, and only on
/// cartridge types the decoder does not support or with an out-of-range
/// ROM bank index.
#[verifier::opaque]
pub open spec fn write_ok(m: MmuV, address: u16, value: u8) -> bool {
    if m.is_bios_mapped && address < 0xFF {
        true
    } else if address < 0x2000 {
        m.supported_cartridge()
    } else if address < 0x4000 {
        m.cartridge_type == ROM_ONLY
            || (m.banked_cartridge() && (value == 0 || (value < m.rom_size && value < 32)))
    } else if address < 0x6000 {
        m.supported_cartridge()
    } else if address < 0x8000 {
        m.supported_cartridge()
    } else {
        true
    }
}

/// The fatal condition a failing write raises.
#[verifier::opaque]
pub open spec fn write_fault(m: MmuV, address: u16, value: u8) -> Fault {
    if 0x2000 <= address < 0x4000 && m.banked_cartridge() {
        Fault::InvalidRomBank(value)
    } else {
        Fault::UnsupportedCartridgeType(m.cartridge_type)
    }
}

/// The bus state after a successful write of `value` at `address`.
#[verifier::opaque]
pub open spec fn write_spec(m: MmuV, address: u16, value: u8) -> MmuV {
    if m.is_bios_mapped && address < 0xFF {
        m
    } else if address < 0x2000 {
        if m.ram_cartridge() {
            MmuV { active_external_ram: value == 0x0A, ..m }
        } else {
            m
        }
    } else if address < 0x4000 {
        if m.banked_cartridge() {
            MmuV { active_rom_bank: if value == 0 { 1 } else { value }, ..m }
        } else {
            m
        }
    } else if address < 0x6000 {
        if m.banked_cartridge() {
            if m.memory_mode == 0 {
                MmuV {
                    active_rom_bank: ((m.active_rom_bank & 0x1F) + ((value & 3) << 5)) as u8,
                    ..m
                }
            } else if m.memory_mode == 1 {
                MmuV { active_ram_bank: value & 3, ..m }
            } else {
                m
            }
        } else {
            m
        }
    } else if address < 0x8000 {
        if m.ram_cartridge() {
            MmuV { memory_mode: if value & 0x1 == 1 { 1 } else { 0 }, ..m }
        } else {
            m
        }
    } else if address < 0xA000 {
        MmuV { gpu: write_vram_spec(m.gpu, address, value), ..m }
    } else if address < 0xC000 {
        if m.active_external_ram {
            MmuV { eram: m.eram.update(address - 0xA000, value), ..m }
        } else {
            m
        }
    } else if address < 0xE000 {
        MmuV { wram: m.wram.update(address - 0xC000, value), ..m }
    } else if address < 0xFE00 {
        MmuV { wram: m.wram.update(address - 0xE000, value), ..m }
    } else if address < 0xFEA0 {
        let g1 = GpuV { oam: m.gpu.oam.update(address - 0xFE00, value), ..m.gpu };
        let g2 = GpuV {
            object_data: object_data_after(g1, (address - 0xFE00) as u16, value),
            ..g1
        };
        MmuV { gpu: g2, ..m }
    } else if address < 0xFF00 {
        m
    } else if address == 0xFF00 {
        MmuV {
            gpu: GpuV {
                input: Input { column: value & 0x30, keys: m.gpu.input.keys },
                ..m.gpu
            },
            ..m
        }
    } else if address == 0xFF04 {
        MmuV { timer: Timer { div: 0, ..m.timer }, ..m }
    } else if address == 0xFF05 {
        MmuV { timer: Timer { tima: value, ..m.timer }, ..m }
    } else if address == 0xFF06 {
        MmuV { timer: Timer { tma: value, ..m.timer }, ..m }
    } else if address == 0xFF07 {
        MmuV {
            timer: Timer {
                tac: value & 0x7,
                tima_speed: Timer::rate_spec(value & 0x7),
                ..m.timer
            },
            ..m
        }
    } else if address < 0xFF40 {
        MmuV { io_ports: m.io_ports.update(address - 0xFF00, value), ..m }
    } else if address < 0xFF80 {
        if address == 0xFF50 && value == 0x01 {
            MmuV { is_bios_mapped: false, ..m }
        } else {
            MmuV { gpu: write_register_spec(m.gpu, address, value), ..m }
        }
    } else if address < 0xFFFF {
        MmuV { zram: m.zram.update(address - 0xFF80, value), ..m }
    } else {
        MmuV { interrupt_enable_register: value, ..m }
    }
}

/// Whether both halves of a 16-bit write complete.
pub open spec fn write16_ok(m: MmuV, address: u16, value: u16) -> bool {
    write_ok(m, address, (value % 256) as u8)
        && write_ok(m, ((address + 1) % 0x10000) as u16, (value / 256) as u8)
}

/// The bus state after a 16-bit write: low byte first, the second address
/// wrapping around the top of the space.
pub open spec fn write16_spec(m: MmuV, address: u16, value: u16) -> MmuV {
    write_spec(
        write_spec(m, address, (value % 256) as u8),
        ((address + 1) % 0x10000) as u16,
        (value / 256) as u8,
    )
}

/// The combined ROM bank index after a ROM-mode upper-bits command fits
/// the bank store.
proof fn lemma_bank_combine(b: u8, v: u8)
    by (bit_vector)
    ensures
        (b & 0x1F) + ((v & 3) << 5) < 128,
{
}

impl MMU {
    /// Fresh bus: all stores zeroed, bank 1 selected, no controller type.
    pub fn new() -> (m: MMU)
        ensures
            m@.wf(),
            m@.gpu.state == crate::gpu::STATE_OAM_READ,
            m@.gpu.state_clock == 0,
            m@.gpu.render_line == 0,
            m@.gpu.lcd_control == 0,
            m@.gpu.vram == Seq::<u8>::new(8192nat, |i: int| 0u8),
            m@.gpu.input.column == 0,
            m@.gpu.input.keys[0] == 0x0F && m@.gpu.input.keys[1] == 0x0F,
            m@.bios == Seq::<u8>::new(256nat, |i: int| 0u8),
            m@.rom_banks == Seq::<Seq<u8>>::new(128nat,
                |i: int| Seq::<u8>::new(16384nat, |j: int| 0u8)),
            m@.eram == Seq::<u8>::new(8192nat, |i: int| 0u8),
            m@.wram == Seq::<u8>::new(8192nat, |i: int| 0u8),
            m@.io_ports == Seq::<u8>::new(64nat, |i: int| 0u8),
            m@.zram == Seq::<u8>::new(127nat, |i: int| 0u8),
            m.interrupt_enable_register == 0,
            m.timer == (Timer {
                div: 0,
                tima: 0,
                tima_speed: 256,
                tma: 0,
                tac: 0,
                counter: 0,
                div_counter: 0,
                tima_overflow_last_step: false,
            }),
            m.active_rom_bank == 1,
            m.active_ram_bank == 0,
            !m.active_external_ram,
            m.rom_size == 0,
            m.memory_mode == 0,
            m.cartridge_type == ROM_ONLY,
            !m.is_bios_mapped,
    {
        let mut rom_banks: Vec<Vec<u8>> = Vec::new();
        let mut i: usize = 0;
        while i < 128
            invariant
                i <= 128,
                rom_banks@.len() == i,
                forall|k: int| 0 <= k < i
                    ==> #[trigger] rom_banks@[k]@ == Seq::<u8>::new(16384nat, |j: int| 0u8),
            decreases 128 - i,
        {
            rom_banks.push(zero_bytes(16384));
            i = i + 1;
        }
        let m = MMU {
            gpu: GPU::new(),
            bios: zero_bytes(256),
            rom_banks,
            eram: zero_bytes(8192),
            wram: zero_bytes(8192),
            io_ports: zero_bytes(64),
            zram: zero_bytes(127),
            interrupt_enable_register: 0,
            timer: Timer::new(),
            active_rom_bank: 1,
            active_ram_bank: 0,
            active_external_ram: false,
            rom_size: 0,
            memory_mode: 0,
            cartridge_type: ROM_ONLY,
            is_bios_mapped: false,
        };
        proof {
            assert(m@.rom_banks =~= Seq::<Seq<u8>>::new(128nat,
                |i: int| Seq::<u8>::new(16384nat, |j: int| 0u8)));
        }
        m
    }

    /// Read one byte from anywhere in the address space.
    pub fn read_byte(&self, address: u16) -> (r: u8)
        requires
            self@.wf(),
        ensures
            r == read_spec(self@, address),
    {
        proof {
            reveal(read_spec);
            assert(self@.rom_banks[0] == self.rom_banks@[0int]@);
            assert(self@.rom_banks[self.active_rom_bank as int]
                == self.rom_banks@[self.active_rom_bank as int]@);
        }
        if self.is_bios_mapped && address <= 0xFF {
            self.bios[address as usize]
        } else if address < 0x4000 {
            self.rom_banks[0][address as usize]
        } else if address < 0x8000 {
            self.rom_banks[self.active_rom_bank as usize][(address - 0x4000) as usize]
        } else if address < 0xA000 {
            self.gpu.read_vram(address)
        } else if address < 0xC000 {
            if self.active_external_ram {
                self.eram[(address - 0xA000) as usize]
            } else {
                0
            }
        } else if address < 0xE000 {
            self.wram[(address - 0xC000) as usize]
        } else if address < 0xFE00 {
            self.wram[(address - 0xE000) as usize]
        } else if address < 0xFEA0 {
            self.gpu.read_oam((address - 0xFE00) as u8)
        } else if address < 0xFF00 {
            0
        } else if address < 0xFF40 {
            self.read_io((address - 0xFF00) as u16)
        } else if address == 0xFF41 {
            self.gpu.read_register(address) | 0x80
        } else if address < 0xFF4C {
            self.gpu.read_register(address)
        } else if address < 0xFF80 {
            0xFF
        } else if address < 0xFFFF {
            self.zram[(address - 0xFF80) as usize]
        } else {
            self.interrupt_enable_register
        }
    }

    /// Read one byte of the peripheral window.
    fn read_io(&self, off: u16) -> (r: u8)
        requires
            self@.wf(),
            off < 0x40,
        ensures
            r == io_read_spec(self@, off),
    {
        proof {
            reveal(io_read_spec);
        }
        if off == 0x00 {
            self.gpu.input.read() | 0xC0
        } else if off == 0x01 {
            self.io_ports[off as usize]
        } else if off == 0x02 {
            self.io_ports[off as usize] | 0x7E
        } else if off == 0x04 {
            (self.timer.div >> 8) as u8
        } else if off == 0x05 {
            self.timer.tima
        } else if off == 0x06 {
            self.timer.tma
        } else if off == 0x07 {
            self.timer.tac | 0xF8
        } else if off == 0x0F {
            self.io_ports[off as usize] | 0xE0
        } else if off == 0x10 {
            self.io_ports[off as usize] | 0x80
        } else if off == 0x11 || off == 0x12 || off == 0x13 || off == 0x14 || off == 0x16
            || off == 0x17 || off == 0x18 || off == 0x19 || off == 0x1B || off == 0x1D
            || off == 0x1E || off == 0x21 || off == 0x22 || off == 0x24 || off == 0x25 {
            self.io_ports[off as usize]
        } else if off == 0x1A {
            self.io_ports[off as usize] | 0x7F
        } else if off == 0x1C {
            self.io_ports[off as usize] | 0x9F
        } else if off == 0x20 {
            self.io_ports[off as usize] | 0xC0
        } else if off == 0x23 {
            self.io_ports[off as usize] | 0x3F
        } else if off == 0x26 {
            self.io_ports[off as usize] | 0x70
        } else if 0x30 <= off && off < 0x40 {
            self.io_ports[off as usize]
        } else {
            0xFF
        }
    }

    /// Read a 16-bit word: low byte at `address`, high byte above it.
    pub fn read_word(&self, address: u16) -> (r: u16)
        requires
            self@.wf(),
        ensures
            r == read16_spec(self@, address),
    {
        self.read_byte(address) as u16
            + 256 * self.read_byte(address.wrapping_add(1)) as u16
    }

    /// Write one byte anywhere in the address space. Writes into the ROM
    /// window are bank-controller commands; those can raise a fatal
    /// condition, in which case the bus is left unchanged.
    pub fn write_byte(&mut self, address: u16, value: u8) -> (r: Result<(), Fault>)
        requires
            old(self)@.wf(),
        ensures
            r is Ok <==> write_ok(old(self)@, address, value),
            r is Ok ==> final(self)@ == write_spec(old(self)@, address, value),
            r is Err ==> *final(self) == *old(self)
                && r == Err::<(), Fault>(write_fault(old(self)@, address, value)),
            final(self)@.wf(),
    {
        proof {
            reveal(write_ok);
            reveal(write_fault);
            reveal(write_spec);
        }
        if self.is_bios_mapped && address < 0xFF {
            Ok(())
        } else if address < 0x2000 {
            self.update_external_ram(value)
        } else if address < 0x4000 {
            self.update_active_rom_bank(value)
        } else if address < 0x6000 {
            self.update_active_rom_ram_bank(value)
        } else if address < 0x8000 {
            self.update_memory_mode(value)
        } else if address < 0xA000 {
            self.gpu.write_vram(address, value);
            Ok(())
        } else if address < 0xC000 {
            if self.active_external_ram {
                self.eram[(address - 0xA000) as usize] = value;
            }
            Ok(())
        } else if address < 0xE000 {
            self.wram[(address - 0xC000) as usize] = value;
            Ok(())
        } else if address < 0xFE00 {
            self.wram[(address - 0xE000) as usize] = value;
            Ok(())
        } else if address < 0xFEA0 {
            self.gpu.write_oam((address - 0xFE00) as u8, value);
            self.gpu.build_object_data(address - 0xFE00, value);
            Ok(())
        } else if address < 0xFF00 {
            Ok(())
        } else if address == 0xFF00 {
            self.gpu.input.write(value);
            Ok(())
        } else if address == 0xFF04 {
            self.timer.div = 0;
            Ok(())
        } else if address == 0xFF05 {
            self.timer.tima = value;
            Ok(())
        } else if address == 0xFF06 {
            self.timer.tma = value;
            Ok(())
        } else if address == 0xFF07 {
            self.timer.tac = value & 0x7;
            self.timer.update();
            Ok(())
        } else if address < 0xFF40 {
            self.io_ports[(address - 0xFF00) as usize] = value;
            Ok(())
        } else if address < 0xFF80 {
            if address == 0xFF50 && value == 0x01 {
                self.is_bios_mapped = false;
            } else {
                self.gpu.write_register(address, value);
            }
            Ok(())
        } else if address < 0xFFFF {
            self.zram[(address - 0xFF80) as usize] = value;
            Ok(())
        } else {
            self.interrupt_enable_register = value;
            Ok(())
        }
    }

    /// Write a 16-bit word: low byte at `address`, high byte above it,
    /// the second address wrapping around the top of the space. When the
    /// second half raises a fault the first byte has already landed.
    pub fn write_word(&mut self, address: u16, value: u16) -> (r: Result<(), Fault>)
        requires
            old(self)@.wf(),
        ensures
            r is Ok <==> write16_ok(old(self)@, address, value),
            r is Ok ==> final(self)@ == write16_spec(old(self)@, address, value),
            r is Err ==> ({
                let lo = (value % 256) as u8;
                let hi = (value / 256) as u8;
                let high_addr = ((address + 1) % 0x10000) as u16;
                if !write_ok(old(self)@, address, lo) {
                    *final(self) == *old(self)
                        && r == Err::<(), Fault>(write_fault(old(self)@, address, lo))
                } else {
                    final(self)@ == write_spec(old(self)@, address, lo)
                        && r == Err::<(), Fault>(write_fault(old(self)@, high_addr, hi))
                }
            }),
            final(self)@.wf(),
    {
        let ghost m0 = self@;
        self.write_byte(address, (value % 256) as u8)?;
        proof {
            lemma_write_ok_stable(m0, address, (value % 256) as u8,
                address.wrapping_add(1), (value / 256) as u8);
        }
        self.write_byte(address.wrapping_add(1), (value / 256) as u8)?;
        Ok(())
    }

    /// Advance the timer and latch its interrupt request into the
    /// request register.
    pub fn timer_tick(&mut self, clock_t: u8)
        requires
            old(self)@.wf(),
            clock_t <= 240,
        ensures
            final(self)@ == timer_tick_spec(old(self)@, clock_t),
            final(self)@.wf(),
    {
        let request = self.timer.step(clock_t);
        if request {
            let cur = self.io_ports[15];
            self.io_ports[15] = cur | 0x04;
        }
    }

    /// Record the cartridge/bank-controller type code from the header.
    pub fn set_cartridge_type(&mut self, value: u8)
        ensures
            *final(self) == (MMU { cartridge_type: value, ..*old(self) }),
    {
        self.cartridge_type = value;
    }

    /// Decode the ROM size header code into a bank count.
    pub fn set_rom_size(&mut self, value: u8) -> (r: Result<(), Fault>)
        ensures
            r is Ok <==> value <= 6,
            r is Ok ==> *final(self) == (MMU { rom_size: bank_count(value), ..*old(self) }),
            r is Err ==> *final(self) == *old(self)
                && r == Err::<(), Fault>(Fault::UnknownRomSize(value)),
    {
        if value == 0 {
            self.rom_size = 2;
            Ok(())
        } else if value == 1 {
            self.rom_size = 4;
            Ok(())
        } else if value == 2 {
            self.rom_size = 8;
            Ok(())
        } else if value == 3 {
            self.rom_size = 16;
            Ok(())
        } else if value == 4 {
            self.rom_size = 32;
            Ok(())
        } else if value == 5 {
            self.rom_size = 64;
            Ok(())
        } else if value == 6 {
            self.rom_size = 128;
            Ok(())
        } else {
            Err(Fault::UnknownRomSize(value))
        }
    }


    /// Copy a BIOS image (up to 256 bytes) into the boot store.
    pub fn load_bios(&mut self, data: &Vec<u8>)
        requires
            old(self)@.wf(),
            data@.len() <= 256,
        ensures
            final(self)@ == (MmuV {
                bios: Seq::new(256nat, |i: int| if i < data@.len() {
                    data@[i]
                } else {
                    old(self)@.bios[i]
                }),
                ..old(self)@
            }),
            final(self)@.wf(),
    {
        let mut i: usize = 0;
        while i < data.len()
            invariant
                old(self)@.wf(),
                data@.len() <= 256,
                i <= data@.len(),
                self@ == (MmuV { bios: self@.bios, ..old(self)@ }),
                self@.bios.len() == 256,
                forall|j: int| 0 <= j < i ==> self@.bios[j] == data@[j],
                forall|j: int| i <= j < 256 ==> self@.bios[j] == old(self)@.bios[j],
            decreases data@.len() - i,
        {
            self.bios[i] = data[i];
            i = i + 1;
        }
        proof {
            assert(self@.bios =~= Seq::new(256nat, |i: int| if i < data@.len() {
                data@[i]
            } else {
                old(self)@.bios[i]
            }));
            assert(self@ =~= (MmuV {
                bios: Seq::new(256nat, |i: int| if i < data@.len() {
                    data@[i]
                } else {
                    old(self)@.bios[i]
                }),
                ..old(self)@
            }));
        }
    }

    /// Load a ROM image: decode the bank count from the size header byte
    /// and copy each 16 KiB bank into the bank store.
    pub fn load_rom(&mut self, data: &Vec<u8>) -> (r: Result<(), Fault>)
        requires
            old(self)@.wf(),
            data@.len() > 0x148,
            data@[0x148] <= 6 ==> data@.len() >= bank_count(data@[0x148]) * 16384,
        ensures
            r is Ok <==> data@[0x148] <= 6,
            r is Ok ==> final(self)@ == (MmuV {
                rom_size: bank_count(data@[0x148]),
                rom_banks: loaded_banks(old(self)@, data@),
                ..old(self)@
            }),
            r is Err ==> *final(self) == *old(self)
                && r == Err::<(), Fault>(Fault::UnknownRomSize(data@[0x148])),
            final(self)@.wf(),
    {
        let code = data[0x148];
        self.set_rom_size(code)?;
        let count = self.rom_size as usize;
        proof {
            assert(count * 16384 <= data@.len()) by (nonlinear_arith)
                requires
                    count == bank_count(data@[0x148]),
                    data@.len() >= bank_count(data@[0x148]) * 16384,
            ;
        }
        let mut b: usize = 0;
        while b < count
            invariant
                old(self)@.wf(),
                b <= count,
                count == bank_count(data@[0x148]),
                count <= 128,
                count * 16384 <= data@.len(),
                self@ == (MmuV { rom_size: count as u8, rom_banks: self@.rom_banks,
                    ..old(self)@ }),
                self@.rom_banks.len() == 128,
                self.rom_banks@.len() == 128,
                forall|k: int| 0 <= k < b ==> #[trigger] self@.rom_banks[k]
                    =~= Seq::new(16384nat, |i: int| data@[k * 16384 + i]),
                forall|k: int| b <= k < 128 ==> #[trigger] self@.rom_banks[k]
                    == old(self)@.rom_banks[k],
            decreases count - b,
        {
            proof {
                assert((b + 1) * 16384 <= count * 16384) by (nonlinear_arith)
                    requires
                        b + 1 <= count,
                ;
            }
            let mut bank: Vec<u8> = Vec::new();
            let base: usize = b * 16384;
            let mut i: usize = 0;
            while i < 16384
                invariant
                    i <= 16384,
                    base == b * 16384,
                    base + 16384 <= data@.len(),
                    bank@.len() == i,
                    forall|j: int| 0 <= j < i ==> bank@[j] == data@[b * 16384 + j],
                decreases 16384 - i,
            {
                bank.push(data[base + i]);
                i = i + 1;
            }
            let ghost pre = self@;
            self.rom_banks[b] = bank;
            proof {
                assert(self@.rom_banks =~= pre.rom_banks.update(b as int, bank@));
                assert(self@ =~= (MmuV { rom_banks: self@.rom_banks, ..pre }));
            }
            b = b + 1;
        }
        proof {
            assert(self@.rom_banks =~= loaded_banks(old(self)@, data@));
            assert(self@ =~= (MmuV {
                rom_size: bank_count(data@[0x148]),
                rom_banks: loaded_banks(old(self)@, data@),
                ..old(self)@
            }));
        }
        Ok(())
    }

    /// External-RAM enable command (writes into 0x0000-0x1FFF): 0x0A
    /// enables, anything else disables; a no-op without RAM, fatal on an
    /// unsupported controller.
    fn update_external_ram(&mut self, value: u8) -> (r: Result<(), Fault>)
        requires
            old(self)@.wf(),
        ensures
            r is Ok <==> old(self)@.supported_cartridge(),
            r is Ok ==> final(self)@ == (if old(self)@.ram_cartridge() {
                MmuV { active_external_ram: value == 0x0A, ..old(self)@ }
            } else {
                old(self)@
            }),
            r is Err ==> *final(self) == *old(self)
                && r == Err::<(), Fault>(Fault::UnsupportedCartridgeType(
                    old(self).cartridge_type)),
            final(self)@.wf(),
    {
        if self.cartridge_type == ROM_ONLY || self.cartridge_type == MBC1 {
            Ok(())
        } else if self.cartridge_type == MBC1_RAM || self.cartridge_type == MBC1_RAM_BATT {
            self.active_external_ram = value == 0x0A;
            Ok(())
        } else {
            Err(Fault::UnsupportedCartridgeType(self.cartridge_type))
        }
    }

    /// ROM-bank-select command (writes into 0x2000-0x3FFF): 0 aliases to
    /// bank 1, an index at or above the bank count is fatal, and the whole
    /// command is a no-op without a bank controller.
    fn update_active_rom_bank(&mut self, value: u8) -> (r: Result<(), Fault>)
        requires
            old(self)@.wf(),
        ensures
            r is Ok <==> (old(self)@.cartridge_type == ROM_ONLY
                || (old(self)@.banked_cartridge()
                    && (value == 0 || (value < old(self)@.rom_size && value < 32)))),
            r is Ok ==> final(self)@ == (if old(self)@.banked_cartridge() {
                MmuV {
                    active_rom_bank: if value == 0 { 1u8 } else { value },
                    ..old(self)@
                }
            } else {
                old(self)@
            }),
            r is Err ==> *final(self) == *old(self)
                && r == Err::<(), Fault>(if old(self)@.banked_cartridge() {
                    Fault::InvalidRomBank(value)
                } else {
                    Fault::UnsupportedCartridgeType(old(self).cartridge_type)
                }),
            final(self)@.wf(),
    {
        if self.cartridge_type == ROM_ONLY {
            Ok(())
        } else if self.cartridge_type == MBC1 || self.cartridge_type == MBC1_RAM
            || self.cartridge_type == MBC1_RAM_BATT {
            if value == 0 {
                self.active_rom_bank = 1;
                Ok(())
            } else if value < self.rom_size && value < 32 {
                self.active_rom_bank = value;
                Ok(())
            } else {
                Err(Fault::InvalidRomBank(value))
            }
        } else {
            Err(Fault::UnsupportedCartridgeType(self.cartridge_type))
        }
    }

    /// Upper-bank-bits / RAM-bank command (writes into 0x4000-0x5FFF):
    /// sets the upper ROM bank bits in ROM mode, the RAM bank in RAM mode.
    fn update_active_rom_ram_bank(&mut self, value: u8) -> (r: Result<(), Fault>)
        requires
            old(self)@.wf(),
        ensures
            r is Ok <==> old(self)@.supported_cartridge(),
            r is Ok ==> final(self)@ == (if old(self)@.banked_cartridge() {
                if old(self)@.memory_mode == 0 {
                    MmuV {
                        active_rom_bank: ((old(self)@.active_rom_bank & 0x1F)
                            + ((value & 3) << 5)) as u8,
                        ..old(self)@
                    }
                } else if old(self)@.memory_mode == 1 {
                    MmuV { active_ram_bank: value & 3, ..old(self)@ }
                } else {
                    old(self)@
                }
            } else {
                old(self)@
            }),
            r is Err ==> *final(self) == *old(self)
                && r == Err::<(), Fault>(Fault::UnsupportedCartridgeType(
                    old(self).cartridge_type)),
            final(self)@.wf(),
    {
        if self.cartridge_type == ROM_ONLY {
            Ok(())
        } else if self.cartridge_type == MBC1 || self.cartridge_type == MBC1_RAM
            || self.cartridge_type == MBC1_RAM_BATT {
            if self.memory_mode == 0 {
                proof {
                    lemma_bank_combine(self.active_rom_bank, value);
                }
                self.active_rom_bank = (self.active_rom_bank & 0x1F) + ((value & 3) << 5);
            } else if self.memory_mode == 1 {
                self.active_ram_bank = value & 3;
            }
            Ok(())
        } else {
            Err(Fault::UnsupportedCartridgeType(self.cartridge_type))
        }
    }

    /// Banking-mode command (writes into 0x6000-0x7FFF): bit 0 selects
    /// ROM-banking or RAM-banking mode; a no-op without RAM.
    fn update_memory_mode(&mut self, value: u8) -> (r: Result<(), Fault>)
        requires
            old(self)@.wf(),
        ensures
            r is Ok <==> old(self)@.supported_cartridge(),
            r is Ok ==> final(self)@ == (if old(self)@.ram_cartridge() {
                MmuV { memory_mode: if value & 0x1 == 1 { 1u8 } else { 0u8 }, ..old(self)@ }
            } else {
                old(self)@
            }),
            r is Err ==> *final(self) == *old(self)
                && r == Err::<(), Fault>(Fault::UnsupportedCartridgeType(
                    old(self).cartridge_type)),
            final(self)@.wf(),
    {
        if self.cartridge_type == ROM_ONLY || self.cartridge_type == MBC1 {
            Ok(())
        } else if self.cartridge_type == MBC1_RAM || self.cartridge_type == MBC1_RAM_BATT {
            if value & 0x1 == 1 {
                self.memory_mode = 1;
            } else {
                self.memory_mode = 0;
            }
            Ok(())
        } else {
            Err(Fault::UnsupportedCartridgeType(self.cartridge_type))
        }
    }
}

/// The bus state after advancing the timer: the timer steps, and a
/// consumed overflow latches the timer bit of the request register.
pub open spec fn timer_tick_spec(m: MmuV, clock_t: u8) -> MmuV {
    let t2 = m.timer.step_spec(clock_t);
    if m.timer.step_request(clock_t) {
        MmuV {
            timer: t2,
            io_ports: m.io_ports.update(15, m.io_ports[15] | 0x04),
            ..m
        }
    } else {
        MmuV { timer: t2, ..m }
    }
}

/// Whether one write can fault, and which fault it raises, is untouched
/// by the write just before it: the cartridge type and bank count never
/// change on the bus's own account.
pub proof fn lemma_write_ok_stable(m: MmuV, a1: u16, v1: u8, a2: u16, v2: u8)
    requires
        write_ok(m, a1, v1),
        a2 == ((a1 + 1) % 0x10000) as u16,
    ensures
        write_ok(write_spec(m, a1, v1), a2, v2) == write_ok(m, a2, v2),
        write_fault(write_spec(m, a1, v1), a2, v2) == write_fault(m, a2, v2),
{
    reveal(write_ok);
    reveal(write_spec);
    reveal(write_fault);
}

/// The bank store after a ROM load: the banks the header promises come
/// from the image, the rest keep their previous content.
pub open spec fn loaded_banks(m: MmuV, data: Seq<u8>) -> Seq<Seq<u8>> {
    Seq::new(128nat, |b: int| if b < bank_count(data[0x148]) {
        Seq::new(16384nat, |i: int| data[b * 16384 + i])
    } else {
        m.rom_banks[b]
    })
}

/// The bank count encoded by a ROM size header code.
pub open spec fn bank_count(code: u8) -> u8 {
    if code == 0 {
        2
    } else if code == 1 {
        4
    } else if code == 2 {
        8
    } else if code == 3 {
        16
    } else if code == 4 {
        32
    } else if code == 5 {
        64
    } else {
        128
    }
}

} // verus!
