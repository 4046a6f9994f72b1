//! Picture-processing unit: video memory, the sprite table, a decoded
//! tile cache, and the four-phase scanline state machine that renders one
//! line at each VRAM-scan to horizontal-blank transition.

use vstd::prelude::*;

use crate::input::Input;

verus! {

/// Phase value: horizontal blank.
pub const STATE_HBLANK: u8 = 0;
/// Phase value: vertical blank.
pub const STATE_VBLANK: u8 = 1;
/// Phase value: sprite-table scan.
pub const STATE_OAM_READ: u8 = 2;
/// Phase value: video-memory scan.
pub const STATE_VRAM_READ: u8 = 3;

/// Cycle budget of the sprite-table scan phase.
pub const OAM_READ_CYCLES: u16 = 80;
/// Cycle budget of the video-memory scan phase.
pub const VRAM_READ_CYCLES: u16 = 172;
/// Cycle budget of the horizontal-blank phase.
pub const HBLANK_CYCLES: u16 = 204;
/// Cycle budget of one vertical-blank line slot. Deliberately shorter
/// than the 456-cycle sum of the three visible-line phases.
pub const VBLANK_LINE_CYCLES: u16 = 416;

/// One sprite descriptor, unpacked from the raw sprite table.
#[derive(Clone, Copy)]
pub struct Sprite {
    pub x: i16,
    pub y: i16,
    pub tile: u8,
    /// false selects the first sprite palette, true the second.
    pub palette: bool,
    pub xflip: bool,
    pub yflip: bool,
    /// When set, background colours 1-3 paint over the sprite.
    pub bg_priority: bool,
}

impl Sprite {
    /// The unpacked form of an all-zero table entry before any write.
    pub fn new() -> (s: Sprite)
        ensures
            s == (Sprite {
                x: 8,
                y: 16,
                tile: 0,
                palette: false,
                xflip: false,
                yflip: false,
                bg_priority: false,
            }),
    {
        Sprite {
            x: 8,
            y: 16,
            tile: 0,
            palette: false,
            xflip: false,
            yflip: false,
            bg_priority: false,
        }
    }
}

/// The mathematical model of the picture unit: every byte store as a
/// sequence, everything else as plain values.
#[verifier::ext_equal]
pub ghost struct GpuV {
    pub input: Input,
    pub vram: Seq<u8>,
    pub oam: Seq<u8>,
    pub object_data: Seq<Sprite>,
    pub tileset: Seq<u8>,
    pub state: u8,
    pub state_clock: u16,
    pub lcd_control: u8,
    pub lcd_status: u8,
    pub scroll_y: u8,
    pub scroll_x: u8,
    pub render_line: u8,
    pub ly_compare: u8,
    pub dma_transfer: u8,
    pub palette: Seq<u8>,
    pub sprite_palette_0: Seq<u8>,
    pub sprite_palette_1: Seq<u8>,
    pub window_y: u8,
    pub window_x: u8,
    pub gpu_registers: Seq<u8>,
    pub frame: Seq<u8>,
    pub lock_vram: bool,
}

/// The picture unit. The `frame` buffer holds one 160x144 screen of
/// 2-bit colour indices; the host maps them to real colours.
pub struct GPU {
    pub input: Input,
    pub vram: Vec<u8>,
    pub oam: Vec<u8>,
    pub object_data: Vec<Sprite>,
    /// Decoded tile cache: 384 tiles x 8 rows x 8 columns, flattened.
    pub tileset: Vec<u8>,
    pub state: u8,
    pub state_clock: u16,
    pub lcd_control: u8,
    pub lcd_status: u8,
    pub scroll_y: u8,
    pub scroll_x: u8,
    pub render_line: u8,
    pub ly_compare: u8,
    pub dma_transfer: u8,
    /// Background palette: four 2-bit colour indices.
    pub palette: Vec<u8>,
    pub sprite_palette_0: Vec<u8>,
    pub sprite_palette_1: Vec<u8>,
    pub window_y: u8,
    pub window_x: u8,
    /// Raw bytes of the register window above the named registers.
    pub gpu_registers: Vec<u8>,
    /// The rendered screen: 144 rows of 160 colour indices.
    pub frame: Vec<u8>,
    pub lock_vram: bool,
}

impl View for GPU {
    type V = GpuV;

    open spec fn view(&self) -> GpuV {
        GpuV {
            input: self.input,
            vram: self.vram@,
            oam: self.oam@,
            object_data: self.object_data@,
            tileset: self.tileset@,
            state: self.state,
            state_clock: self.state_clock,
            lcd_control: self.lcd_control,
            lcd_status: self.lcd_status,
            scroll_y: self.scroll_y,
            scroll_x: self.scroll_x,
            render_line: self.render_line,
            ly_compare: self.ly_compare,
            dma_transfer: self.dma_transfer,
            palette: self.palette@,
            sprite_palette_0: self.sprite_palette_0@,
            sprite_palette_1: self.sprite_palette_1@,
            window_y: self.window_y,
            window_x: self.window_x,
            gpu_registers: self.gpu_registers@,
            frame: self.frame@,
            lock_vram: self.lock_vram,
        }
    }
}

/// The cycle budget of a phase.
pub open spec fn phase_budget(state: u8) -> u16 {
    if state == STATE_OAM_READ {
        OAM_READ_CYCLES as u16
    } else if state == STATE_VRAM_READ {
        VRAM_READ_CYCLES as u16
    } else if state == STATE_HBLANK {
        HBLANK_CYCLES as u16
    } else {
        VBLANK_LINE_CYCLES as u16
    }
}

impl GpuV {
    /// Structural bounds every reachable picture-unit state satisfies.
    pub open spec fn wf(self) -> bool {
        &&& self.vram.len() == 8192
        &&& self.oam.len() == 160
        &&& self.object_data.len() == 40
        &&& self.tileset.len() == 24576
        &&& (forall|i: int| 0 <= i < 24576 ==> self.tileset[i] < 4)
        &&& self.palette.len() == 4
        &&& (forall|i: int| 0 <= i < 4 ==> self.palette[i] < 4)
        &&& self.sprite_palette_0.len() == 4
        &&& (forall|i: int| 0 <= i < 4 ==> self.sprite_palette_0[i] < 4)
        &&& self.sprite_palette_1.len() == 4
        &&& (forall|i: int| 0 <= i < 4 ==> self.sprite_palette_1[i] < 4)
        &&& self.gpu_registers.len() == 52
        &&& self.frame.len() == 23040
        &&& self.state <= 3
        &&& self.state_clock < phase_budget(self.state)
        &&& ((self.state == STATE_VBLANK && 144 <= self.render_line <= 153)
            || (self.state != STATE_VBLANK && self.render_line <= 143))
    }
}

/// One decoded pixel of a tile row: the raw 2-bit colour index, with the
/// first bit-plane byte contributing the low bit and the second the high
/// bit. Palettes apply at render time, never in the cache.
pub open spec fn tile_pixel(byte1: u8, byte2: u8, px: int) -> u8 {
    let mask = 1u8 << ((7 - px) as u8);
    if byte1 & mask != 0 && byte2 & mask != 0 {
        3
    } else if byte1 & mask == 0 && byte2 & mask != 0 {
        2
    } else if byte1 & mask != 0 {
        1
    } else {
        0
    }
}

/// The tile cache after a write of `value` into the tile-data region at
/// `index`: the eight pixels of the touched tile row are re-decoded from
/// the pair of bit-plane bytes, everything else is untouched.
pub open spec fn tileset_after_write(g: GpuV, index: int, value: u8) -> Seq<u8> {
    let vram2 = g.vram.update(index, value);
    let ni = index - index % 2;
    let byte1 = vram2[ni];
    let byte2 = vram2[ni + 1];
    let base = index / 16 * 64 + index % 16 / 2 * 8;
    Seq::new(24576nat, |j: int|
        if base <= j < base + 8 {
            tile_pixel(byte1, byte2, j - base)
        } else {
            g.tileset[j]
        })
}

/// The whole picture-unit state after a write into the video-memory
/// window. Writes above the tile-data region only store the byte.
pub open spec fn write_vram_spec(g: GpuV, address: u16, value: u8) -> GpuV {
    if g.lock_vram {
        g
    } else {
        let index = address - 0x8000;
        if index < 0x1800 {
            GpuV {
                vram: g.vram.update(index as int, value),
                tileset: tileset_after_write(g, index as int, value),
                ..g
            }
        } else {
            GpuV { vram: g.vram.update(index as int, value), ..g }
        }
    }
}

impl GPU {
    /// Fresh picture unit: everything cleared, phase at sprite-table scan.
    pub fn new() -> (g: GPU)
        ensures
            g@.wf(),
            g.state == STATE_OAM_READ,
            g.state_clock == 0,
            g.render_line == 0,
            g.lcd_control == 0,
            g@.vram == Seq::<u8>::new(8192nat, |i: int| 0u8),
            g@.frame == Seq::<u8>::new(23040nat, |i: int| 0u8),
            g@.palette == Seq::<u8>::new(4nat, |i: int| 0u8),
            g@.sprite_palette_0 == Seq::<u8>::new(4nat, |i: int| 0u8),
            g@.sprite_palette_1 == Seq::<u8>::new(4nat, |i: int| 0u8),
            g@.tileset == Seq::<u8>::new(24576nat, |i: int| 0u8),
            g@.oam == Seq::<u8>::new(160nat, |i: int| 0u8),
            !g.lock_vram,
            g.scroll_x == 0 && g.scroll_y == 0,
            g.input.column == 0 && g.input.keys[0] == 0x0F && g.input.keys[1] == 0x0F,
            g@.object_data == Seq::new(40nat, |i: int| Sprite {
                x: 8,
                y: 16,
                tile: 0,
                palette: false,
                xflip: false,
                yflip: false,
                bg_priority: false,
            }),
    {
        let mut object_data: Vec<Sprite> = Vec::new();
        let mut i: usize = 0;
        while i < 40
            invariant
                i <= 40,
                object_data@ =~= Seq::new(i as nat, |j: int| Sprite {
                    x: 8,
                    y: 16,
                    tile: 0,
                    palette: false,
                    xflip: false,
                    yflip: false,
                    bg_priority: false,
                }),
            decreases 40 - i,
        {
            object_data.push(Sprite::new());
            i = i + 1;
        }
        let g = GPU {
            input: Input::new(),
            vram: zero_bytes(8192),
            oam: zero_bytes(160),
            object_data,
            tileset: zero_bytes(24576),
            state: STATE_OAM_READ,
            state_clock: 0,
            lcd_control: 0,
            lcd_status: 0,
            scroll_y: 0,
            scroll_x: 0,
            render_line: 0,
            ly_compare: 0,
            dma_transfer: 0,
            palette: zero_bytes(4),
            sprite_palette_0: zero_bytes(4),
            sprite_palette_1: zero_bytes(4),
            window_y: 0,
            window_x: 0,
            gpu_registers: zero_bytes(52),
            frame: zero_bytes(23040),
            lock_vram: false,
        };
        g
    }

    /// Read one byte of the video-memory window.
    pub fn read_vram(&self, address: u16) -> (r: u8)
        requires
            self@.wf(),
            0x8000 <= address < 0xA000,
        ensures
            r == self@.vram[address - 0x8000],
    {
        self.vram[(address - 0x8000) as usize]
    }

    /// Read one byte of the sprite table.
    pub fn read_oam(&self, address: u8) -> (r: u8)
        requires
            self@.wf(),
            address < 160,
        ensures
            r == self@.oam[address as int],
    {
        self.oam[address as usize]
    }

    /// Write one byte of the sprite table. The unpacked descriptors are
    /// refreshed separately through `build_object_data`.
    pub fn write_oam(&mut self, address: u8, value: u8)
        requires
            old(self)@.wf(),
            address < 160,
        ensures
            final(self)@ == (GpuV { oam: old(self)@.oam.update(address as int, value), ..old(self)@ }),
            final(self)@.wf(),
    {
        self.oam[address as usize] = value;
    }

    /// Refresh the unpacked sprite descriptor touched by a sprite-table
    /// write at `address` (relative to the table base).
    pub fn build_object_data(&mut self, address: u16, value: u8)
        requires
            old(self)@.wf(),
            address < 160,
        ensures
            final(self)@ == (GpuV {
                object_data: object_data_after(old(self)@, address, value),
                ..old(self)@
            }),
            final(self)@.wf(),
    {
        let object = (address >> 2) as usize;
        assert(address >> 2 == address / 4) by (bit_vector);
        assert(address & 3 == address % 4) by (bit_vector);
        if object < 40 {
            let field = address & 3;
            let mut s = self.object_data[object];
            if field == 0 {
                s.y = value as i16 - 16;
            } else if field == 1 {
                s.x = value as i16 - 8;
            } else if field == 2 {
                s.tile = value;
            } else {
                s.palette = value & 0x10 == 0x10;
                s.xflip = value & 0x20 == 0x20;
                s.yflip = value & 0x40 == 0x40;
                s.bg_priority = value & 0x80 == 0x80;
            }
            self.object_data[object] = s;
            assert(final(self)@.object_data =~= object_data_after(old(self)@, address, value));
        } else {
            assert(final(self)@.object_data =~= object_data_after(old(self)@, address, value));
        }
    }

    /// Write one byte of the video-memory window, re-decoding the touched
    /// tile-cache row when the write lands in the tile-data region.
    pub fn write_vram(&mut self, address: u16, value: u8)
        requires
            old(self)@.wf(),
            0x8000 <= address < 0xA000,
        ensures
            final(self)@ == write_vram_spec(old(self)@, address, value),
            final(self)@.wf(),
    {
        if self.lock_vram {
            return;
        }
        let index = address - 0x8000;
        self.vram[index as usize] = value;
        if index < 0x1800 {
            let normalized = index - index % 2;
            let byte1 = self.vram[normalized as usize];
            let byte2 = self.vram[normalized as usize + 1];
            let tile = index / 16;
            let row = index % 16 / 2;
            let base = tile as usize * 64 + row as usize * 8;
            let ghost t0 = self@.tileset;
            let ghost target = tileset_after_write(old(self)@, index as int, value);
            let mut px: usize = 0;
            while px < 8
                invariant
                    px <= 8,
                    old(self)@.wf(),
                    0x8000 <= address < 0xA000,
                    index == address - 0x8000,
                    index < 0x1800,
                    self@ == (GpuV { tileset: self@.tileset, ..write_vram_spec(old(self)@, address, value) }),
                    self@.tileset.len() == 24576,
                    self.palette@ == old(self)@.palette,
                    self.palette@.len() == 4,
                    base == (index / 16) as int * 64 + (index % 16 / 2) as int * 8,
                    base + 8 <= 24576,
                    byte1 == self@.vram[index - index % 2],
                    byte2 == self@.vram[index - index % 2 + 1],
                    forall|j: int| 0 <= j < 24576 && !(base <= j < base + px)
                        ==> self@.tileset[j] == t0[j],
                    forall|j: int| base <= j < base + px
                        ==> self@.tileset[j] == tile_pixel(byte1, byte2, j - base),
                decreases 8 - px,
            {
                let mask: u8 = 1u8 << (7 - px) as u8;
                let lsb = byte1 & mask;
                let msb = byte2 & mask;
                let pixel_value: u8 = if lsb != 0 && msb != 0 {
                    3
                } else if lsb == 0 && msb != 0 {
                    2
                } else if lsb != 0 {
                    1
                } else {
                    0
                };
                self.tileset[base + px] = pixel_value;
                px = px + 1;
            }
            assert(self@.tileset =~= target);
        }
        assert(self@ =~= write_vram_spec(old(self)@, address, value));
    }
}

// Register access, the scanline renderer and the phase state machine.
impl GPU {
    /// Whether the display is switched on (control bit 7).
    pub fn get_display_status(&self) -> (r: u8)
        ensures
            r == (self.lcd_control & 0x80) >> 7,
    {
        (self.lcd_control & 0x80) >> 7
    }

    /// Which window tile map is selected (control bit 6).
    pub fn get_window_tilemap(&self) -> (r: u8)
        ensures
            r == (self.lcd_control & 0x40) >> 6,
    {
        (self.lcd_control & 0x40) >> 6
    }

    /// Whether the window layer is enabled (control bit 5).
    pub fn get_window_status(&self) -> (r: u8)
        ensures
            r == (self.lcd_control & 0x20) >> 5,
    {
        (self.lcd_control & 0x20) >> 5
    }

    /// Which background tile-data set is selected (control bit 4).
    pub fn get_background_tileset(&self) -> (r: u8)
        ensures
            r == (self.lcd_control & 0x10) >> 4,
    {
        (self.lcd_control & 0x10) >> 4
    }

    /// Which background tile map is selected (control bit 3).
    pub fn get_background_tilemap(&self) -> (r: u8)
        ensures
            r == (self.lcd_control & 0x08) >> 3,
    {
        (self.lcd_control & 0x08) >> 3
    }

    /// The sprite height selection (control bit 2).
    pub fn get_sprite_size(&self) -> (r: u8)
        ensures
            r == (self.lcd_control & 0x04) >> 2,
    {
        (self.lcd_control & 0x04) >> 2
    }

    /// Whether sprite rendering is enabled (control bit 1).
    pub fn get_sprite_status(&self) -> (r: u8)
        ensures
            r == (self.lcd_control & 0x02) >> 1,
    {
        (self.lcd_control & 0x02) >> 1
    }

    /// Whether background rendering is enabled (control bit 0).
    pub fn get_background_status(&self) -> (r: u8)
        ensures
            r == self.lcd_control & 0x01,
    {
        self.lcd_control & 0x01
    }

    /// Read one picture-unit register. The three palette registers are
    /// write-only and read as zero.
    pub fn read_register(&self, address: u16) -> (r: u8)
        requires
            self@.wf(),
            0xFF40 <= address < 0xFF80,
        ensures
            r == read_register_spec(self@, address),
    {
        if address == 0xFF40 {
            self.lcd_control
        } else if address == 0xFF41 {
            self.lcd_status
        } else if address == 0xFF42 {
            self.scroll_y
        } else if address == 0xFF43 {
            self.scroll_x
        } else if address == 0xFF44 {
            self.render_line
        } else if address == 0xFF45 {
            self.ly_compare
        } else if address == 0xFF46 {
            self.dma_transfer
        } else if address == 0xFF47 || address == 0xFF48 || address == 0xFF49 {
            0
        } else if address == 0xFF4A {
            self.window_y
        } else if address == 0xFF4B {
            self.window_x
        } else {
            self.gpu_registers[(address - 0xFF4C) as usize]
        }
    }

    /// Write one picture-unit register. The current-line register is
    /// read-only; palette writes unpack four 2-bit entries; writes above
    /// the named registers are dropped.
    pub fn write_register(&mut self, address: u16, value: u8)
        requires
            old(self)@.wf(),
            0xFF40 <= address < 0xFF80,
        ensures
            final(self)@ == write_register_spec(old(self)@, address, value),
            final(self)@.wf(),
    {
        proof {
            lemma_palette_bits(value);
        }
        if address == 0xFF40 {
            self.lcd_control = value;
        } else if address == 0xFF41 {
            self.lcd_status = value;
        } else if address == 0xFF42 {
            self.scroll_y = value;
        } else if address == 0xFF43 {
            self.scroll_x = value;
        } else if address == 0xFF44 {
            // The current scanline cannot be written.
        } else if address == 0xFF45 {
            self.ly_compare = value;
        } else if address == 0xFF46 {
            self.dma_transfer = value;
        } else if address == 0xFF47 {
            self.palette[3] = (value & 0xC0) >> 6;
            self.palette[2] = (value & 0x30) >> 4;
            self.palette[1] = (value & 0x0C) >> 2;
            self.palette[0] = value & 0x03;
            assert(self.palette@ =~= palette_entries(value));
        } else if address == 0xFF48 {
            self.sprite_palette_0[3] = (value & 0xC0) >> 6;
            self.sprite_palette_0[2] = (value & 0x30) >> 4;
            self.sprite_palette_0[1] = (value & 0x0C) >> 2;
            self.sprite_palette_0[0] = value & 0x03;
            assert(self.sprite_palette_0@ =~= palette_entries(value));
        } else if address == 0xFF49 {
            self.sprite_palette_1[3] = (value & 0xC0) >> 6;
            self.sprite_palette_1[2] = (value & 0x30) >> 4;
            self.sprite_palette_1[1] = (value & 0x0C) >> 2;
            self.sprite_palette_1[0] = value & 0x03;
            assert(self.sprite_palette_1@ =~= palette_entries(value));
        } else if address == 0xFF4A {
            self.window_y = value;
        } else if address == 0xFF4B {
            self.window_x = value;
        } else {
            // Writes above the named registers are dropped.
        }
        assert(self@ =~= write_register_spec(old(self)@, address, value));
    }

    /// Render the current scanline into the frame buffer: the background
    /// layer from the tile cache and scroll offsets, then the sprite
    /// overlay in table order.
    pub fn render_scanline(&mut self)
        requires
            old(self)@.wf(),
            old(self).render_line <= 143,
        ensures
            final(self)@ == render_spec(old(self)@),
            final(self)@.wf(),
    {
        proof {
            lemma_lcd_bits(self.lcd_control);
        }
        let ghost g0 = self@;
        let line = self.render_line;
        let row_base: usize = line as usize * 160;

        let mut scan_row: Vec<u8> = Vec::new();
        let mut row: Vec<u8> = Vec::new();
        if self.get_background_status() == 1 {
            let tilemap_base: u16 = if self.get_background_tilemap() == 1 { 0x1C00 } else { 0x1800 };
            let offset: u16 = (line as u16 + self.scroll_y as u16) % 256 / 8 * 32;
            let y: u16 = (line as u16 + self.scroll_y as u16) % 8;
            let tiles_on = self.get_background_tileset() == 1;
            let mut x: usize = 0;
            while x < 160
                invariant
                    x <= 160,
                    g0.wf(),
                    *self == *old(self),
                    self@ == g0,
                    bg_enabled(g0),
                    line == g0.render_line,
                    tilemap_base == bg_tilemap_base(g0),
                    offset == bg_map_offset(g0),
                    y == bg_row_in_tile(g0),
                    tiles_on == (g0.lcd_control & 0x10 != 0),
                    scan_row@.len() == x,
                    row@.len() == x,
                    forall|i: int| 0 <= i < x ==> scan_row@[i] == bg_pixel(g0, i),
                    forall|i: int| 0 <= i < x ==> row@[i] == g0.palette[bg_pixel(g0, i) as int],
                decreases 160 - x,
            {
                let t_index: u8 = if tiles_on {
                    self.vram[(tilemap_base + offset) as usize + x / 8]
                } else {
                    0
                };
                let pix = self.tileset[t_index as usize * 64 + y as usize * 8 + (x % 8)];
                scan_row.push(pix);
                row.push(self.palette[pix as usize]);
                x = x + 1;
            }
        } else {
            let mut x: usize = 0;
            while x < 160
                invariant
                    x <= 160,
                    g0.wf(),
                    *self == *old(self),
                    self@ == g0,
                    !bg_enabled(g0),
                    line == g0.render_line,
                    row_base == g0.render_line * 160,
                    g0.render_line <= 143,
                    scan_row@.len() == x,
                    row@.len() == x,
                    forall|i: int| 0 <= i < x ==> scan_row@[i] == 0,
                    forall|i: int| 0 <= i < x ==> row@[i] == g0.frame[g0.render_line * 160 + i],
                decreases 160 - x,
            {
                scan_row.push(0);
                row.push(self.frame[row_base + x]);
                x = x + 1;
            }
        }
        assert(scan_row@ =~= scan_row_of(g0));
        assert(row@ =~= base_row(g0));

        if self.get_sprite_status() == 1 {
            let mut i: usize = 0;
            while i < 40
                invariant
                    i <= 40,
                    g0.wf(),
                    *self == *old(self),
                    self@ == g0,
                    sprites_enabled(g0),
                    line == g0.render_line,
                    g0.render_line <= 143,
                    scan_row@ == scan_row_of(g0),
                    scan_row@.len() == 160,
                    row@.len() == 160,
                    row@ == overlay(g0, scan_row_of(g0), base_row(g0), i as int),
                decreases 40 - i,
            {
                let o = self.object_data[i];
                let ghost row_in = row@;
                let height: i32 = if self.get_sprite_size() == 1 { 16 } else { 8 };
                proof {
                    lemma_lcd_bits(self.lcd_control);
                    assert(height == sprite_height(g0));
                }
                if o.y as i32 <= line as i32 && o.y as i32 + height > line as i32 {
                    let r: u8 = (line as i32 - o.y as i32) as u8;
                    let mut x: u8 = 0;
                    while x < 8
                        invariant
                            x <= 8,
                            g0.wf(),
                            *self == *old(self),
                            self@ == g0,
                            line == g0.render_line,
                            g0.render_line <= 143,
                            o == g0.object_data[i as int],
                            0 <= i < 40,
                            height == sprite_height(g0),
                            sprite_row_covers(g0, o, g0.render_line as int),
                            r == g0.render_line - o.y,
                            r < height,
                            scan_row@ == scan_row_of(g0),
                            scan_row@.len() == 160,
                            row@.len() == 160,
                            row_in.len() == 160,
                            row@ == apply_sprite_upto(g0, o, scan_row_of(g0), row_in, x as int),
                        decreases 8 - x,
                    {
                        let xi: u8 = if o.xflip { 7 - x } else { x };
                        let sx: i32 = o.x as i32 + x as i32;
                        if 0 <= sx && sx < 160 {
                            let tr: u8 = if o.yflip { (height - 1) as u8 - r } else { r };
                            let tv = self.tileset[o.tile as usize * 64 + tr as usize * 8
                                + xi as usize];
                            if tv != 0 && (!o.bg_priority || scan_row[sx as usize] == 0) {
                                let pal_v = if o.palette {
                                    self.sprite_palette_1[tv as usize]
                                } else {
                                    self.sprite_palette_0[tv as usize]
                                };
                                row[sx as usize] = pal_v;
                            }
                        }
                        x = x + 1;
                        assert(row@ =~= apply_sprite_upto(g0, o, scan_row_of(g0), row_in,
                            x as int));
                    }
                    assert(row@ =~= apply_sprite(g0, o, scan_row_of(g0), row_in));
                } else {
                    assert(row@ =~= apply_sprite(g0, o, scan_row_of(g0), row_in));
                }
                i = i + 1;
            }
        }
        assert(row@ =~= rendered_row(g0));

        let mut x: usize = 0;
        while x < 160
            invariant
                x <= 160,
                g0.wf(),
                row_base == g0.render_line * 160,
                g0.render_line <= 143,
                row@.len() == 160,
                row@ == rendered_row(g0),
                self@ == (GpuV { frame: self@.frame, ..g0 }),
                self@.frame.len() == 23040,
                forall|j: int| 0 <= j < 23040 && !(row_base <= j < row_base + x)
                    ==> self@.frame[j] == g0.frame[j],
                forall|j: int| row_base <= j < row_base + x
                    ==> self@.frame[j] == row@[j - row_base],
            decreases 160 - x,
        {
            self.frame[row_base + x] = row[x];
            x = x + 1;
        }
        assert(self@.frame =~= render_spec(g0).frame);
        assert(self@ =~= render_spec(g0));
    }

    /// Advance the phase state machine by `clock_t` clock edges, rendering
    /// one scanline at each VRAM-scan to horizontal-blank transition.
    /// Returns true exactly when the visible frame completes and the
    /// vertical-blank phase begins.
    pub fn tick(&mut self, clock_t: u8) -> (entered_vblank: bool)
        requires
            old(self)@.wf(),
            clock_t <= 24,
        ensures
            final(self)@ == advance_spec(old(self)@, clock_t),
            entered_vblank == entered_vblank_spec(old(self)@, clock_t),
            final(self)@.wf(),
    {
        let mut entered_vblank = false;
        self.state_clock = self.state_clock + clock_t as u16;

        if self.state == STATE_OAM_READ {
            if self.state_clock >= OAM_READ_CYCLES {
                self.state_clock = self.state_clock - OAM_READ_CYCLES;
                self.state = STATE_VRAM_READ;
            }
        } else if self.state == STATE_VRAM_READ {
            if self.state_clock >= VRAM_READ_CYCLES {
                self.state_clock = self.state_clock - VRAM_READ_CYCLES;
                self.state = STATE_HBLANK;
                self.render_scanline();
            }
        } else if self.state == STATE_HBLANK {
            if self.state_clock >= HBLANK_CYCLES {
                self.state_clock = self.state_clock - HBLANK_CYCLES;
                self.render_line = self.render_line + 1;
                if self.render_line == 144 {
                    self.state = STATE_VBLANK;
                    entered_vblank = true;
                } else {
                    self.state = STATE_OAM_READ;
                }
            }
        } else {
            if self.state_clock >= VBLANK_LINE_CYCLES {
                self.state_clock = self.state_clock - VBLANK_LINE_CYCLES;
                self.render_line = self.render_line + 1;
                if self.render_line > 153 {
                    self.state = STATE_OAM_READ;
                    self.render_line = 0;
                }
            }
        }
        entered_vblank
    }
}

/// The four 2-bit palette entries unpacked from one register byte.
pub open spec fn palette_entries(value: u8) -> Seq<u8> {
    seq![value & 0x03, (value & 0x0C) >> 2, (value & 0x30) >> 4, (value & 0xC0) >> 6]
}

/// Each control-register bit test agrees between its shifted-getter and
/// mask forms.
pub proof fn lemma_lcd_bits(v: u8)
    by (bit_vector)
    ensures
        ((v & 0x80) >> 7 == 1) == (v & 0x80 != 0),
        ((v & 0x40) >> 6 == 1) == (v & 0x40 != 0),
        ((v & 0x20) >> 5 == 1) == (v & 0x20 != 0),
        ((v & 0x10) >> 4 == 1) == (v & 0x10 != 0),
        ((v & 0x08) >> 3 == 1) == (v & 0x08 != 0),
        ((v & 0x04) >> 2 == 1) == (v & 0x04 != 0),
        ((v & 0x02) >> 1 == 1) == (v & 0x02 != 0),
        (v & 0x01 == 1) == (v & 0x01 != 0),
{
}

/// Each unpacked palette entry is a 2-bit value.
pub proof fn lemma_palette_bits(value: u8)
    by (bit_vector)
    ensures
        value & 0x03 < 4,
        (value & 0x0C) >> 2 < 4,
        (value & 0x30) >> 4 < 4,
        (value & 0xC0) >> 6 < 4,
{
}

/// What a register read returns for a given picture-unit state.
pub open spec fn read_register_spec(g: GpuV, address: u16) -> u8 {
    if address == 0xFF40 {
        g.lcd_control
    } else if address == 0xFF41 {
        g.lcd_status
    } else if address == 0xFF42 {
        g.scroll_y
    } else if address == 0xFF43 {
        g.scroll_x
    } else if address == 0xFF44 {
        g.render_line
    } else if address == 0xFF45 {
        g.ly_compare
    } else if address == 0xFF46 {
        g.dma_transfer
    } else if address == 0xFF47 || address == 0xFF48 || address == 0xFF49 {
        0
    } else if address == 0xFF4A {
        g.window_y
    } else if address == 0xFF4B {
        g.window_x
    } else {
        g.gpu_registers[address - 0xFF4C]
    }
}

/// The picture-unit state after a register write.
pub open spec fn write_register_spec(g: GpuV, address: u16, value: u8) -> GpuV {
    if address == 0xFF40 {
        GpuV { lcd_control: value, ..g }
    } else if address == 0xFF41 {
        GpuV { lcd_status: value, ..g }
    } else if address == 0xFF42 {
        GpuV { scroll_y: value, ..g }
    } else if address == 0xFF43 {
        GpuV { scroll_x: value, ..g }
    } else if address == 0xFF45 {
        GpuV { ly_compare: value, ..g }
    } else if address == 0xFF46 {
        GpuV { dma_transfer: value, ..g }
    } else if address == 0xFF47 {
        GpuV { palette: palette_entries(value), ..g }
    } else if address == 0xFF48 {
        GpuV { sprite_palette_0: palette_entries(value), ..g }
    } else if address == 0xFF49 {
        GpuV { sprite_palette_1: palette_entries(value), ..g }
    } else if address == 0xFF4A {
        GpuV { window_y: value, ..g }
    } else if address == 0xFF4B {
        GpuV { window_x: value, ..g }
    } else {
        g
    }
}

/// Whether background rendering is enabled.
pub open spec fn bg_enabled(g: GpuV) -> bool {
    g.lcd_control & 0x01 != 0
}

/// Whether sprite rendering is enabled.
pub open spec fn sprites_enabled(g: GpuV) -> bool {
    g.lcd_control & 0x02 != 0
}

/// The video-memory offset of the selected background tile map.
pub open spec fn bg_tilemap_base(g: GpuV) -> int {
    if g.lcd_control & 0x08 != 0 { 0x1C00 } else { 0x1800 }
}

/// The tile-map row offset for the current line under vertical scroll.
pub open spec fn bg_map_offset(g: GpuV) -> int {
    (g.render_line + g.scroll_y) % 256 / 8 * 32
}

/// The pixel row within the tile for the current line.
pub open spec fn bg_row_in_tile(g: GpuV) -> int {
    (g.render_line + g.scroll_y) % 8
}

/// The tile index the background fetches for column `x`; the second
/// tile-data set is not decoded and reads as tile zero.
pub open spec fn bg_tile_index(g: GpuV, x: int) -> u8 {
    if g.lcd_control & 0x10 != 0 {
        g.vram[bg_tilemap_base(g) + bg_map_offset(g) + x / 8]
    } else {
        0
    }
}

/// The raw 2-bit background pixel for column `x` of the current line.
pub open spec fn bg_pixel(g: GpuV, x: int) -> u8 {
    g.tileset[bg_tile_index(g, x) * 64 + bg_row_in_tile(g) * 8 + x % 8]
}

/// The raw background row the sprite overlay tests against: the background
/// pixels when the layer is on, zeros otherwise.
pub open spec fn scan_row_of(g: GpuV) -> Seq<u8> {
    Seq::new(160nat, |x: int| if bg_enabled(g) { bg_pixel(g, x) } else { 0u8 })
}

/// The frame row before sprites: palette-mapped background pixels when the
/// layer is on, else the previous frame content untouched.
pub open spec fn base_row(g: GpuV) -> Seq<u8> {
    if bg_enabled(g) {
        Seq::new(160nat, |x: int| g.palette[bg_pixel(g, x) as int])
    } else {
        Seq::new(160nat, |x: int| g.frame[g.render_line * 160 + x])
    }
}

/// The palette a sprite selects.
pub open spec fn sprite_pal(g: GpuV, o: Sprite) -> Seq<u8> {
    if o.palette { g.sprite_palette_1 } else { g.sprite_palette_0 }
}

/// The sprite height the size bit of the control register selects.
pub open spec fn sprite_height(g: GpuV) -> int {
    if g.lcd_control & 0x04 != 0 { 16 } else { 8 }
}

/// Whether a sprite's band of rows covers the given line.
pub open spec fn sprite_row_covers(g: GpuV, o: Sprite, line: int) -> bool {
    o.y <= line < o.y + sprite_height(g)
}

/// The raw 2-bit pixel a sprite contributes at screen column `sx`,
/// honouring both flip flags.
pub open spec fn sprite_pix(g: GpuV, o: Sprite, sx: int) -> u8 {
    let x = sx - o.x;
    let xi = if o.xflip { 7 - x } else { x };
    let r = g.render_line - o.y;
    let tr = if o.yflip { sprite_height(g) - 1 - r } else { r };
    g.tileset[o.tile * 64 + tr * 8 + xi]
}

/// Whether a sprite paints screen column `sx`: its band covers the line
/// and the column, its raw colour index is not the transparent index
/// zero, and the background does not take priority there.
pub open spec fn sprite_draws(g: GpuV, o: Sprite, scan: Seq<u8>, sx: int) -> bool {
    &&& sprite_row_covers(g, o, g.render_line as int)
    &&& o.x <= sx < o.x + 8
    &&& sprite_pix(g, o, sx) != 0
    &&& (!o.bg_priority || scan[sx] == 0)
}

/// One sprite applied to a frame row, for the columns below `k` of its
/// eight-pixel band.
pub open spec fn apply_sprite_upto(g: GpuV, o: Sprite, scan: Seq<u8>, row: Seq<u8>, k: int)
    -> Seq<u8> {
    Seq::new(160nat, |sx: int|
        if sprite_draws(g, o, scan, sx) && sx - o.x < k {
            sprite_pal(g, o)[sprite_pix(g, o, sx) as int]
        } else {
            row[sx]
        })
}

/// One sprite applied to a frame row in full.
pub open spec fn apply_sprite(g: GpuV, o: Sprite, scan: Seq<u8>, row: Seq<u8>) -> Seq<u8> {
    Seq::new(160nat, |sx: int|
        if sprite_draws(g, o, scan, sx) {
            sprite_pal(g, o)[sprite_pix(g, o, sx) as int]
        } else {
            row[sx]
        })
}

/// The first `n` sprites of the table applied to a frame row, in order.
pub open spec fn overlay(g: GpuV, scan: Seq<u8>, row: Seq<u8>, n: int) -> Seq<u8>
    decreases n,
{
    if n <= 0 {
        row
    } else {
        apply_sprite(g, g.object_data[n - 1], scan, overlay(g, scan, row, n - 1))
    }
}

/// The fully rendered row for the current line.
pub open spec fn rendered_row(g: GpuV) -> Seq<u8> {
    if sprites_enabled(g) {
        overlay(g, scan_row_of(g), base_row(g), 40)
    } else {
        base_row(g)
    }
}

/// The picture-unit state after rendering the current line into the frame.
pub open spec fn render_spec(g: GpuV) -> GpuV {
    GpuV {
        frame: Seq::new(23040nat, |i: int|
            if g.render_line * 160 <= i < g.render_line * 160 + 160 {
                rendered_row(g)[i - g.render_line * 160]
            } else {
                g.frame[i]
            }),
        ..g
    }
}

/// The phase machine after `clock_t` clock edges: each phase consumes its
/// budget and hands the remainder to the next, one transition per call.
pub open spec fn advance_spec(g: GpuV, clock_t: u8) -> GpuV {
    let clk = g.state_clock + clock_t;
    if g.state == STATE_OAM_READ {
        if clk >= 80 {
            GpuV { state_clock: (clk - 80) as u16, state: STATE_VRAM_READ, ..g }
        } else {
            GpuV { state_clock: clk as u16, ..g }
        }
    } else if g.state == STATE_VRAM_READ {
        if clk >= 172 {
            render_spec(GpuV { state_clock: (clk - 172) as u16, state: STATE_HBLANK, ..g })
        } else {
            GpuV { state_clock: clk as u16, ..g }
        }
    } else if g.state == STATE_HBLANK {
        if clk >= 204 {
            let line2 = (g.render_line + 1) as u8;
            if line2 == 144 {
                GpuV {
                    state_clock: (clk - 204) as u16,
                    state: STATE_VBLANK,
                    render_line: line2,
                    ..g
                }
            } else {
                GpuV {
                    state_clock: (clk - 204) as u16,
                    state: STATE_OAM_READ,
                    render_line: line2,
                    ..g
                }
            }
        } else {
            GpuV { state_clock: clk as u16, ..g }
        }
    } else {
        if clk >= 416 {
            let line2 = (g.render_line + 1) as u8;
            if line2 > 153 {
                GpuV {
                    state_clock: (clk - 416) as u16,
                    state: STATE_OAM_READ,
                    render_line: 0,
                    ..g
                }
            } else {
                GpuV { state_clock: (clk - 416) as u16, render_line: line2, ..g }
            }
        } else {
            GpuV { state_clock: clk as u16, ..g }
        }
    }
}

/// Whether advancing by `clock_t` completes the last visible line and
/// enters vertical blank.
pub open spec fn entered_vblank_spec(g: GpuV, clock_t: u8) -> bool {
    g.state == STATE_HBLANK && g.state_clock + clock_t >= 204 && g.render_line + 1 == 144
}

/// The unpacked sprite descriptors after a sprite-table write: the touched
/// descriptor field is replaced, writes past the table are dropped.
pub open spec fn object_data_after(g: GpuV, address: u16, value: u8) -> Seq<Sprite> {
    let object = address / 4;
    if object < 40 {
        let s = g.object_data[object as int];
        let field = address % 4;
        let s2 = if field == 0 {
            Sprite { y: (value - 16) as i16, ..s }
        } else if field == 1 {
            Sprite { x: (value - 8) as i16, ..s }
        } else if field == 2 {
            Sprite { tile: value, ..s }
        } else {
            Sprite {
                palette: value & 0x10 == 0x10,
                xflip: value & 0x20 == 0x20,
                yflip: value & 0x40 == 0x40,
                bg_priority: value & 0x80 == 0x80,
                ..s
            }
        };
        g.object_data.update(object as int, s2)
    } else {
        g.object_data
    }
}

/// A vector of `n` zero bytes.
pub(crate) fn zero_bytes(n: usize) -> (v: Vec<u8>)
    ensures
        v@ == Seq::<u8>::new(n as nat, |i: int| 0u8),
{
    let mut v: Vec<u8> = Vec::new();
    let mut i: usize = 0;
    while i < n
        invariant
            i <= n,
            v@ =~= Seq::<u8>::new(i as nat, |j: int| 0u8),
        decreases n - i,
    {
        v.push(0);
        i = i + 1;
    }
    proof {
        assert(v@ =~= Seq::<u8>::new(n as nat, |i: int| 0u8));
    }
    v
}

} // verus!
