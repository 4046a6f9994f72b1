use rustboy::fault::Fault;
use rustboy::gameboy::GameBoy;

fn rom_with(bytes: &[(usize, u8)]) -> Vec<u8> {
    let mut data = vec![0u8; 32768];
    data[0x147] = 0x00; // no bank controller
    data[0x148] = 0x00; // two banks
    for (addr, v) in bytes {
        data[*addr] = *v;
    }
    data
}

#[test]
fn two_steps_of_nop_and_jump_consume_twenty_edges() {
    let mut gb = GameBoy::new();
    gb.skip_bios(true);
    let rom = rom_with(&[(0x100, 0x00), (0x101, 0xC3), (0x102, 0x50), (0x103, 0x01)]);
    gb.load_rom(&rom).unwrap();
    gb.boot();
    assert_eq!(gb.cpu.program_counter, 0x0100);

    let first = gb.step().unwrap();
    assert_eq!(first.opcode, 0x00);
    assert_eq!(first.clock_t, 4);
    assert_eq!(gb.cpu.program_counter, 0x0101);

    let second = gb.step().unwrap();
    assert_eq!(second.opcode, 0xC3);
    assert_eq!(second.clock_t, 16);
    assert_eq!(gb.cpu.program_counter, 0x0150);
    assert_eq!(first.clock_t + second.clock_t, 20);
}

#[test]
fn no_controller_header_keeps_bank_writes_inert() {
    let mut gb = GameBoy::new();
    gb.skip_bios(true);
    // A program that writes bank-select commands over the whole window:
    // LD A,0x03; LD (0x2000),A; LD (0x6000),A.
    let rom = rom_with(&[
        (0x100, 0x3E),
        (0x101, 0x03),
        (0x102, 0xEA),
        (0x103, 0x00),
        (0x104, 0x20),
        (0x105, 0xEA),
        (0x106, 0x00),
        (0x107, 0x60),
    ]);
    gb.load_rom(&rom).unwrap();
    gb.boot();
    assert_eq!(gb.cartridge.cartridge_type, 0x00);
    gb.step().unwrap();
    gb.step().unwrap();
    gb.step().unwrap();
    assert_eq!(gb.mmu.active_rom_bank, 1);
    assert_eq!(gb.mmu.memory_mode, 0);
}

#[test]
fn loading_reads_header_fields() {
    let mut gb = GameBoy::new();
    let mut rom = rom_with(&[]);
    rom[0x143] = 0x80;
    rom[0x146] = 0x03;
    rom[0x149] = 0x02;
    rom[0x14A] = 0x01;
    rom[0x14B] = 0x33;
    rom[0x14C] = 0x01;
    rom[0x14E] = 0x34;
    rom[0x14F] = 0x12;
    gb.load_rom(&rom).unwrap();
    assert_eq!(gb.cartridge.gameboy_type, 0x80);
    assert_eq!(gb.cartridge.is_super_gameboy, 0x03);
    assert_eq!(gb.cartridge.ram_size, 0x02);
    assert_eq!(gb.cartridge.region, 0x01);
    assert_eq!(gb.cartridge.licensee, 0x33);
    assert_eq!(gb.cartridge.version, 0x01);
    assert_eq!(gb.cartridge.checksum, 0x1234);
}

#[test]
fn unknown_rom_size_header_is_reported() {
    let mut gb = GameBoy::new();
    let mut rom = vec![0u8; 0x150];
    rom[0x148] = 0x09;
    let r = gb.load_rom(&rom);
    assert_eq!(r, Err(Fault::UnknownRomSize(9)));
}

#[test]
fn skipping_the_boot_rom_seeds_documented_state() {
    let mut gb = GameBoy::new();
    gb.skip_bios(true);
    gb.boot();
    assert_eq!(gb.cpu.read_register_af(), 0x01B0);
    assert_eq!(gb.cpu.read_register_bc(), 0x0013);
    assert_eq!(gb.cpu.read_register_de(), 0x00D8);
    assert_eq!(gb.cpu.read_register_hl(), 0x014D);
    assert_eq!(gb.cpu.stack_pointer, 0xFFFE);
    assert_eq!(gb.cpu.program_counter, 0x0100);
    assert_eq!(gb.mmu.read_byte(0xFF40), 0x91);
    assert_eq!(gb.mmu.read_byte(0xFF47), 0x00);
}

#[test]
fn dispatch_vectors_to_lowest_pending_source() {
    let mut gb = GameBoy::new();
    gb.skip_bios(true);
    let rom = rom_with(&[(0x100, 0x00)]);
    gb.load_rom(&rom).unwrap();
    gb.boot();
    // Enable and request both the vertical-blank and timer sources.
    gb.mmu.write_byte(0xFFFF, 0x05).unwrap();
    gb.mmu.write_byte(0xFF0F, 0x05).unwrap();
    gb.cpu.interrupt_master_enable = true;
    let sp_before = gb.cpu.stack_pointer;
    gb.step().unwrap();
    // The vertical-blank source wins, its request bit clears, the master
    // enable drops, and the return address sits on the stack.
    assert_eq!(gb.cpu.program_counter, 0x0040);
    assert!(!gb.cpu.interrupt_master_enable);
    assert_eq!(gb.mmu.read_byte(0xFF0F) & 0x1F, 0x04);
    assert_eq!(gb.cpu.stack_pointer, sp_before - 2);
    assert_eq!(gb.mmu.read_word(gb.cpu.stack_pointer), 0x0101);
}

#[test]
fn disabled_master_enable_blocks_dispatch() {
    let mut gb = GameBoy::new();
    gb.skip_bios(true);
    let rom = rom_with(&[(0x100, 0xF3), (0x101, 0x00)]);
    gb.load_rom(&rom).unwrap();
    gb.boot();
    gb.mmu.write_byte(0xFFFF, 0x01).unwrap();
    gb.mmu.write_byte(0xFF0F, 0x01).unwrap();
    gb.step().unwrap(); // DI
    gb.step().unwrap(); // NOP, no dispatch
    assert_eq!(gb.cpu.program_counter, 0x0102);
    assert_eq!(gb.mmu.read_byte(0xFF0F) & 0x01, 0x01);
}

#[test]
fn frame_completion_raises_vblank_request() {
    let mut gb = GameBoy::new();
    gb.skip_bios(true);
    let rom = rom_with(&[]);
    gb.load_rom(&rom).unwrap();
    gb.boot();
    gb.cpu.interrupt_master_enable = false;
    // A full frame in no-op steps: each costs four edges.
    let mut saw_vblank = false;
    for _ in 0..20000 {
        let out = gb.step().unwrap();
        if out.entered_vblank {
            saw_vblank = true;
            break;
        }
    }
    assert!(saw_vblank);
    assert_eq!(gb.mmu.read_byte(0xFF0F) & 0x01, 0x01);
    assert_eq!(gb.mmu.gpu.state, rustboy::gpu::STATE_VBLANK);
}

#[test]
fn bios_mapping_shadows_low_rom_until_disabled() {
    let mut gb = GameBoy::new();
    let rom = rom_with(&[(0x0000, 0xAA)]);
    gb.load_rom(&rom).unwrap();
    let bios = vec![0x55u8; 256];
    gb.mmu.load_bios(&bios);
    gb.mmu.is_bios_mapped = true;
    assert_eq!(gb.mmu.read_byte(0x0000), 0x55);
    // The hand-off write unmaps it.
    gb.mmu.write_byte(0xFF50, 0x01).unwrap();
    assert!(!gb.mmu.is_bios_mapped);
    assert_eq!(gb.mmu.read_byte(0x0000), 0xAA);
}

#[test]
fn fresh_cartridge_title_is_sixteen_spaces() {
    let gb = GameBoy::new();
    assert_eq!(gb.cartridge.title.len(), 16);
    assert!(gb.cartridge.title.chars().all(|ch| ch == ' '));
}

#[test]
fn step_on_reserved_opcode_reports_and_leaves_machine() {
    let mut gb = GameBoy::new();
    gb.skip_bios(true);
    let rom = rom_with(&[(0x100, 0xD3)]);
    gb.load_rom(&rom).unwrap();
    gb.boot();
    let r = gb.step();
    assert_eq!(r.err(), Some(Fault::ReservedOpcode(0xD3)));
    assert_eq!(gb.cpu.program_counter, 0x100);
}
