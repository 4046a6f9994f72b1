use rustboy::cartridge::{MBC1, MBC1_RAM};
use rustboy::fault::Fault;
use rustboy::gpu::GPU;
use rustboy::input::Input;
use rustboy::mmu::MMU;
use rustboy::timer::Timer;

#[test]
fn word_write_read_round_trip_little_endian() {
    let mut m = MMU::new();
    m.write_word(0xC000, 0xBEEF).unwrap();
    assert_eq!(m.read_word(0xC000), 0xBEEF);
    assert_eq!(m.read_byte(0xC000), 0xEF);
    assert_eq!(m.read_byte(0xC001), 0xBE);
}

#[test]
fn echo_ram_mirrors_working_ram() {
    let mut m = MMU::new();
    m.write_byte(0xC123, 0x55).unwrap();
    assert_eq!(m.read_byte(0xE123), 0x55);
    m.write_byte(0xE456, 0x66).unwrap();
    assert_eq!(m.read_byte(0xC456), 0x66);
}

#[test]
fn zero_page_and_interrupt_enable() {
    let mut m = MMU::new();
    m.write_byte(0xFF80, 0x12).unwrap();
    assert_eq!(m.read_byte(0xFF80), 0x12);
    m.write_byte(0xFFFF, 0x1F).unwrap();
    assert_eq!(m.read_byte(0xFFFF), 0x1F);
    assert_eq!(m.interrupt_enable_register, 0x1F);
}

#[test]
fn unmapped_reads_return_fixed_values() {
    let mut m = MMU::new();
    // Past the sprite table: zero.
    assert_eq!(m.read_byte(0xFEA5), 0x00);
    // Unused peripheral slot: all ones.
    assert_eq!(m.read_byte(0xFF03), 0xFF);
    assert_eq!(m.read_byte(0xFF4D), 0xFF);
    // Disabled external RAM reads as zero and drops writes.
    m.write_byte(0xA000, 0x77).unwrap();
    assert_eq!(m.read_byte(0xA000), 0x00);
}

#[test]
fn partially_mapped_registers_read_ones_in_unmapped_bits() {
    let mut m = MMU::new();
    // The joypad register's top two bits are unmapped.
    assert_eq!(m.read_byte(0xFF00) & 0xC0, 0xC0);
    // The timer control register's top five bits are unmapped.
    m.write_byte(0xFF07, 0x05).unwrap();
    assert_eq!(m.read_byte(0xFF07), 0xF8 | 0x05);
    // The request register's top three bits are unmapped.
    assert_eq!(m.read_byte(0xFF0F) & 0xE0, 0xE0);
}

#[test]
fn bank_select_switches_the_visible_window() {
    let mut m = MMU::new();
    m.set_cartridge_type(MBC1);
    m.set_rom_size(3).unwrap(); // sixteen banks
    m.rom_banks[5][0] = 42;
    m.rom_banks[1][0] = 11;
    m.write_byte(0x2000, 5).unwrap();
    assert_eq!(m.active_rom_bank, 5);
    assert_eq!(m.read_byte(0x4000), 42);
    // Writing zero aliases to bank one.
    m.write_byte(0x2000, 0).unwrap();
    assert_eq!(m.active_rom_bank, 1);
    assert_eq!(m.read_byte(0x4000), 11);
}

#[test]
fn out_of_range_bank_is_fatal_on_banked_controller() {
    let mut m = MMU::new();
    m.set_cartridge_type(MBC1);
    m.set_rom_size(3).unwrap(); // sixteen banks
    let r = m.write_byte(0x2000, 16);
    assert_eq!(r, Err(Fault::InvalidRomBank(16)));
    assert_eq!(m.active_rom_bank, 1);
}

#[test]
fn rom_only_cartridge_ignores_all_rom_window_writes() {
    let mut m = MMU::new();
    // The fresh bus carries the no-controller type.
    m.write_byte(0x0000, 0x0A).unwrap();
    m.write_byte(0x2000, 0x03).unwrap();
    m.write_byte(0x4000, 0x01).unwrap();
    m.write_byte(0x6000, 0x01).unwrap();
    assert_eq!(m.active_rom_bank, 1);
    assert!(!m.active_external_ram);
    assert_eq!(m.memory_mode, 0);
}

#[test]
fn unsupported_controller_type_is_fatal() {
    let mut m = MMU::new();
    m.set_cartridge_type(0x05);
    let r = m.write_byte(0x0000, 0x0A);
    assert_eq!(r, Err(Fault::UnsupportedCartridgeType(0x05)));
}

#[test]
fn external_ram_enable_and_banking_mode() {
    let mut m = MMU::new();
    m.set_cartridge_type(MBC1_RAM);
    m.set_rom_size(1).unwrap();
    m.write_byte(0x0000, 0x0A).unwrap();
    assert!(m.active_external_ram);
    m.write_byte(0xA000, 0x99).unwrap();
    assert_eq!(m.read_byte(0xA000), 0x99);
    m.write_byte(0x0000, 0x00).unwrap();
    assert!(!m.active_external_ram);
    m.write_byte(0x6000, 0x01).unwrap();
    assert_eq!(m.memory_mode, 1);
    m.write_byte(0x4000, 0x02).unwrap();
    assert_eq!(m.active_ram_bank, 2);
}

#[test]
fn unknown_rom_size_code_is_fatal() {
    let mut m = MMU::new();
    assert_eq!(m.set_rom_size(9), Err(Fault::UnknownRomSize(9)));
    m.set_rom_size(0).unwrap();
    assert_eq!(m.rom_size, 2);
    m.set_rom_size(6).unwrap();
    assert_eq!(m.rom_size, 128);
}

#[test]
fn timer_counts_at_selected_rate() {
    let mut t = Timer::new();
    t.tac = 0x05; // enabled, fastest rate
    t.update();
    assert_eq!(t.tima_speed, 4);
    let req = t.step(4);
    assert_eq!(t.tima, 1);
    assert!(!req);
}

#[test]
fn timer_overflow_reloads_one_step_later() {
    let mut t = Timer::new();
    t.tac = 0x05;
    t.update();
    t.tima = 0xFF;
    t.tma = 0xAB;
    let req = t.step(4);
    assert!(!req);
    assert_eq!(t.tima, 0xFF);
    // The next advance, however short, performs the delayed reload.
    let req = t.step(2);
    assert!(req);
    assert_eq!(t.tima, 0xAB);
}

#[test]
fn divider_increments_every_sixteen_edges() {
    let mut t = Timer::new();
    t.step(16);
    assert_eq!(t.div, 1);
    t.step(8);
    assert_eq!(t.div, 1);
    t.step(8);
    assert_eq!(t.div, 2);
}

#[test]
fn timer_interrupt_latches_request_bit() {
    let mut m = MMU::new();
    m.write_byte(0xFF07, 0x05).unwrap();
    m.timer.tima = 0xFF;
    m.timer_tick(4);
    m.timer_tick(4);
    assert_eq!(m.read_byte(0xFF0F) & 0x04, 0x04);
}

#[test]
fn divider_register_resets_on_write() {
    let mut m = MMU::new();
    m.timer.div = 0xAB00;
    assert_eq!(m.read_byte(0xFF04), 0xAB);
    m.write_byte(0xFF04, 0x77).unwrap();
    assert_eq!(m.read_byte(0xFF04), 0x00);
}

#[test]
fn joypad_matrix_selects_key_groups() {
    let mut inp = Input::new();
    assert_eq!(inp.read(), 0x0F);
    inp.keys[0] = 0x0E;
    inp.keys[1] = 0x0D;
    inp.write(0x10);
    assert_eq!(inp.read(), 0x0E);
    inp.write(0x20);
    assert_eq!(inp.read(), 0x0D);
    inp.write(0x30);
    assert_eq!(inp.read(), 0x0F);
}

#[test]
fn vram_write_decodes_tile_cache_row() {
    let mut g = GPU::new();
    // Identity background palette.
    g.write_register(0xFF47, 0xE4);
    // Low plane 0xF0, high plane 0x0F: pixels 1,1,1,1,2,2,2,2.
    g.write_vram(0x8000, 0xF0);
    g.write_vram(0x8001, 0x0F);
    let expect = [1u8, 1, 1, 1, 2, 2, 2, 2];
    for px in 0..8 {
        assert_eq!(g.tileset[px], expect[px]);
    }
}

#[test]
fn oam_write_unpacks_sprite_descriptor() {
    let mut m = MMU::new();
    m.write_byte(0xFE00, 30).unwrap(); // y position
    m.write_byte(0xFE01, 20).unwrap(); // x position
    m.write_byte(0xFE02, 7).unwrap(); // tile
    m.write_byte(0xFE03, 0xF0).unwrap(); // flags
    let o = m.gpu.object_data[0];
    assert_eq!(o.y, 14);
    assert_eq!(o.x, 12);
    assert_eq!(o.tile, 7);
    assert!(o.palette);
    assert!(o.xflip);
    assert!(o.yflip);
    assert!(o.bg_priority);
    assert_eq!(m.read_byte(0xFE02), 7);
}

#[test]
fn gpu_phase_machine_walks_one_line() {
    let mut g = GPU::new();
    assert_eq!(g.state, rustboy::gpu::STATE_OAM_READ);
    for _ in 0..4 {
        g.tick(20); // 80: into the video-memory scan
    }
    assert_eq!(g.state, rustboy::gpu::STATE_VRAM_READ);
    for _ in 0..8 {
        g.tick(22); // 176 (4 carry over): into horizontal blank
    }
    assert_eq!(g.state, rustboy::gpu::STATE_HBLANK);
    for _ in 0..10 {
        g.tick(20); // 204 exactly with the carry: next line
    }
    assert_eq!(g.state, rustboy::gpu::STATE_OAM_READ);
    assert_eq!(g.render_line, 1);
}

#[test]
fn frame_completes_into_vertical_blank_and_wraps() {
    let mut g = GPU::new();
    g.state = rustboy::gpu::STATE_HBLANK;
    g.render_line = 143;
    let mut entered = false;
    for _ in 0..12 {
        if g.tick(17) {
            entered = true;
        }
    }
    assert!(entered);
    assert_eq!(g.state, rustboy::gpu::STATE_VBLANK);
    assert_eq!(g.render_line, 144);

    g.render_line = 153;
    g.state_clock = 0;
    for _ in 0..26 {
        g.tick(16); // 416: past the last blank slot
    }
    assert_eq!(g.state, rustboy::gpu::STATE_OAM_READ);
    assert_eq!(g.render_line, 0);
}

#[test]
fn rendered_background_row_uses_palette() {
    let mut g = GPU::new();
    // Background on, tile-data set one selected; the zeroed tile map
    // selects tile zero everywhere, whose cache rows decode through the
    // palette written below.
    g.lcd_control = 0x11;
    g.write_register(0xFF47, 0x03); // colour index 3 for raw value 0
    g.render_line = 0;
    g.render_scanline();
    for x in 0..160 {
        assert_eq!(g.frame[x], 3);
    }
}

#[test]
fn lcd_registers_read_back_except_palettes() {
    let mut g = GPU::new();
    g.write_register(0xFF42, 0x13);
    g.write_register(0xFF43, 0x31);
    assert_eq!(g.read_register(0xFF42), 0x13);
    assert_eq!(g.read_register(0xFF43), 0x31);
    g.write_register(0xFF47, 0xE4);
    assert_eq!(g.read_register(0xFF47), 0x00);
    // The current-line register is read-only.
    g.write_register(0xFF44, 0x55);
    assert_eq!(g.read_register(0xFF44), 0x00);
}

#[test]
fn sprite_overlay_draws_its_band() {
    let mut g = GPU::new();
    g.lcd_control = 0x02; // sprites only
    g.write_register(0xFF47, 0xE4); // decode palette for the tile cache
    g.write_register(0xFF48, 0xE4); // first sprite palette
    // Tile zero, row zero: all pixels raw value 1.
    g.write_vram(0x8000, 0xFF);
    g.write_vram(0x8001, 0x00);
    // Sprite zero at the top-left corner, tile zero, no flips.
    g.write_oam(0, 16);
    g.build_object_data(0, 16);
    g.write_oam(1, 8);
    g.build_object_data(1, 8);
    g.write_oam(2, 0);
    g.build_object_data(2, 0);
    g.write_oam(3, 0);
    g.build_object_data(3, 0);
    g.render_line = 0;
    g.render_scanline();
    for x in 0..8 {
        assert_eq!(g.frame[x], 1);
    }
    assert_eq!(g.frame[8], 0);
}

#[test]
fn tile_cache_holds_raw_indices_independent_of_palette() {
    let mut g = GPU::new();
    // Every palette entry mapped to 3: the cache must still hold the raw
    // plane decode, so zero planes leave raw index 0 in the cache.
    g.write_register(0xFF47, 0xFF);
    g.write_vram(0x8000, 0x00);
    g.write_vram(0x8001, 0x00);
    for px in 0..8 {
        assert_eq!(g.tileset[px], 0);
    }
    // A palette written later applies at render time, not in the cache.
    g.write_vram(0x8010, 0xFF);
    g.write_vram(0x8011, 0xFF);
    for px in 0..8 {
        assert_eq!(g.tileset[64 + px], 3);
    }
}

#[test]
fn tall_sprites_cover_sixteen_rows() {
    let mut g = GPU::new();
    g.lcd_control = 0x06; // sprites on, sixteen-row size
    g.write_register(0xFF48, 0xE4);
    // Tile zero, row eight (the lower half of a tall sprite): raw 2s.
    g.write_vram(0x8010, 0x00);
    g.write_vram(0x8011, 0xFF);
    // Sprite zero at the top-left corner.
    g.write_oam(0, 16);
    g.build_object_data(0, 16);
    g.write_oam(1, 8);
    g.build_object_data(1, 8);
    g.render_line = 8; // row eight of the sprite's sixteen-row band
    g.render_scanline();
    for x in 0..8 {
        assert_eq!(g.frame[8 * 160 + x], 2);
    }
    // With eight-row sprites the same line is outside the band.
    g.lcd_control = 0x02;
    for x in 0..160 {
        g.frame[8 * 160 + x] = 0;
    }
    g.render_scanline();
    assert_eq!(g.frame[8 * 160], 0);
}
