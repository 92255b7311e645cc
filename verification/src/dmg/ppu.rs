pub mod color;
pub mod lcdc;
pub mod oam;
pub mod stat;

use vstd::prelude::*;
use crate::dmg::busconnection::BusConnection;
use crate::dmg::ppu::lcdc::{lcdc_byte, lcdc_of_byte, Lcdc};
use crate::dmg::ppu::stat::{mode_number, stat_byte, stat_of_byte, LcdMode, Stat};
use crate::dmg::registers::lemma_bits_of_byte_of_bits;

verus! {

/// The number of CPU cycles taken to draw one scanline
pub const SCANLINE_COUNTER_MAX: u16 = 456;

/// The first 80 of the 456 cycles of a scanline are spent in mode 2,
/// searching sprite attributes (456 - 80 = 376).
pub const SEARCHING_FOR_SPRITES: u16 = 376;

/// The next 172 cycles are spent in mode 3, transfering to the lcd driver (376 - 172).
pub const TRANSFERING_TO_LCD_DRIVER: u16 = 204;

/// The DMG screen resolution is 160x144 meaning there are 144 visible lines
pub const VISIBLE_SCAN_LINES: u8 = 144;

/// The total number of visible and invisible scanlines
pub const MAX_SCAN_LINES: u8 = 153;

/// The Pixel Processing Unit
pub struct PPU {
    pub lcdc: Lcdc,  // 0xFF40
    pub stat: Stat,  // 0xFF41
    pub scy: u8,  // 0xFF42
    pub scx: u8,  // 0xFF43
    pub ly: u8,  // 0xFF44
    pub lyc: u8,  // 0xFF45
    pub bgp: u8,  // 0xFF47
    pub obp0: u8,  // 0xFF48
    pub obp1: u8,  // 0xFF49
    pub wy: u8,  // 0xFF4A
    pub wx: u8,  // 0xFF4B
    pub scanline_counter: u16,
    pub vram: [u8; 8192],
    /// An array of 40, 4-byte objects
    pub oam: [u8; 160],
}

pub struct PpuView {
    pub lcdc: Lcdc,
    pub stat: Stat,
    pub scy: u8,
    pub scx: u8,
    pub ly: u8,
    pub lyc: u8,
    pub bgp: u8,
    pub obp0: u8,
    pub obp1: u8,
    pub wy: u8,
    pub wx: u8,
    pub scanline_counter: u16,
    pub vram: Seq<u8>,
    pub oam: Seq<u8>,
}

impl View for PPU {
    type V = PpuView;

    open spec fn view(&self) -> PpuView {
        PpuView {
            lcdc: self.lcdc,
            stat: self.stat,
            scy: self.scy,
            scx: self.scx,
            ly: self.ly,
            lyc: self.lyc,
            bgp: self.bgp,
            obp0: self.obp0,
            obp1: self.obp1,
            wy: self.wy,
            wx: self.wx,
            scanline_counter: self.scanline_counter,
            vram: self.vram@,
            oam: self.oam@,
        }
    }
}

pub open spec fn is_vram_address(address: u16) -> bool {
    0x8000 <= address <= 0x9FFF
}

pub open spec fn is_oam_address(address: u16) -> bool {
    0xFE00 <= address <= 0xFE9F
}

/// The addresses the bus hands to the PPU.
pub open spec fn is_ppu_address(address: u16) -> bool {
    is_vram_address(address) || is_oam_address(address) || 0xFF40 <= address <= 0xFF4B
}

/// VRAM is open in every mode but mode 3.
pub open spec fn vram_open(p: PpuView) -> bool {
    p.stat.mode_flag != LcdMode::TransferingDataToLCDDriver
}

/// OAM is open in modes 0 and 1.
pub open spec fn oam_open(p: PpuView) -> bool {
    p.stat.mode_flag == LcdMode::HBlank || p.stat.mode_flag == LcdMode::VBlank
}

/// STAT after the mode update: with the LCD off the PPU sits in V-blank at
/// line 0 with a full counter; with it on, the mode follows the line and the
/// counter, and the coincidence flag records LY == LYC.
pub open spec fn lcd_status(p: PpuView) -> PpuView {
    if !p.lcdc.lcdc_enabled {
        PpuView {
            scanline_counter: SCANLINE_COUNTER_MAX,
            ly: 0,
            stat: Stat { mode_flag: LcdMode::VBlank, ..p.stat },
            ..p
        }
    } else {
        let mode = if p.ly >= VISIBLE_SCAN_LINES {
            LcdMode::VBlank
        } else if p.scanline_counter >= SEARCHING_FOR_SPRITES {
            LcdMode::SearchSpriteAttributes
        } else if p.scanline_counter >= TRANSFERING_TO_LCD_DRIVER {
            LcdMode::TransferingDataToLCDDriver
        } else {
            LcdMode::HBlank
        };
        PpuView {
            stat: Stat { mode_flag: mode, coincidence_flag: p.ly == p.lyc, ..p.stat },
            ..p
        }
    }
}

/// The PPU after `cycles` CPU cycles: the status is updated; with the LCD on,
/// the scanline counter runs down, and once the cycles exceed it the line
/// advances (back to 0 past line 153) and the counter is reloaded.
pub open spec fn ppu_step(p: PpuView, cycles: u8) -> PpuView {
    let s = lcd_status(p);
    if !s.lcdc.lcdc_enabled {
        s
    } else if cycles > s.scanline_counter {
        let line: u8 = if s.ly == 255 {
            0
        } else {
            (s.ly + 1) as u8
        };
        PpuView {
            ly: if line > MAX_SCAN_LINES {
                0
            } else {
                line
            },
            scanline_counter: SCANLINE_COUNTER_MAX,
            ..s
        }
    } else {
        PpuView { scanline_counter: (s.scanline_counter - cycles) as u16, ..s }
    }
}

/// The byte a read of a PPU address returns.
pub open spec fn ppu_read(v: PpuView, address: u16) -> u8 {
    if is_vram_address(address) {
        if vram_open(v) {
            v.vram[address - 0x8000]
        } else {
            0xFF
        }
    } else if is_oam_address(address) {
        if oam_open(v) {
            v.oam[address - 0xFE00]
        } else {
            0xFF
        }
    } else if address == 0xFF40 {
        lcdc_byte(v.lcdc)
    } else if address == 0xFF41 {
        stat_byte(v.stat)
    } else if address == 0xFF42 {
        v.scy
    } else if address == 0xFF43 {
        v.scx
    } else if address == 0xFF44 {
        v.ly
    } else if address == 0xFF45 {
        v.lyc
    } else if address == 0xFF47 {
        v.bgp
    } else if address == 0xFF48 {
        v.obp0
    } else if address == 0xFF49 {
        v.obp1
    } else if address == 0xFF4A {
        v.wy
    } else {
        v.wx
    }
}

/// The PPU after a write to one of its addresses: writes to VRAM/OAM while
/// they are closed are dropped; writing LY resets it.
pub open spec fn ppu_write(v: PpuView, address: u16, value: u8) -> PpuView {
    if is_vram_address(address) {
        if vram_open(v) {
            PpuView { vram: v.vram.update(address - 0x8000, value), ..v }
        } else {
            v
        }
    } else if is_oam_address(address) {
        if oam_open(v) {
            PpuView { oam: v.oam.update(address - 0xFE00, value), ..v }
        } else {
            v
        }
    } else if address == 0xFF40 {
        PpuView { lcdc: lcdc_of_byte(value), ..v }
    } else if address == 0xFF41 {
        PpuView { stat: stat_of_byte(value), ..v }
    } else if address == 0xFF42 {
        PpuView { scy: value, ..v }
    } else if address == 0xFF43 {
        PpuView { scx: value, ..v }
    } else if address == 0xFF44 {
        PpuView { ly: 0, ..v }
    } else if address == 0xFF45 {
        PpuView { lyc: value, ..v }
    } else if address == 0xFF47 {
        PpuView { bgp: value, ..v }
    } else if address == 0xFF48 {
        PpuView { obp0: value, ..v }
    } else if address == 0xFF49 {
        PpuView { obp1: value, ..v }
    } else if address == 0xFF4A {
        PpuView { wy: value, ..v }
    } else {
        PpuView { wx: value, ..v }
    }
}

impl BusConnection for PPU {
    open spec fn can_read(v: PpuView, address: u16) -> bool {
        is_ppu_address(address) && address != 0xFF46
    }

    open spec fn read_spec(v: PpuView, address: u16) -> u8 {
        ppu_read(v, address)
    }

    open spec fn can_write(v: PpuView, address: u16) -> bool {
        is_ppu_address(address) && address != 0xFF46
    }

    open spec fn write_spec(v: PpuView, address: u16, value: u8) -> PpuView {
        ppu_write(v, address, value)
    }

    fn read_byte(&self, address: u16) -> (r: u8) {
        match address {
            0x8000..=0x9FFF => self.read_vram(address),
            0xFE00..=0xFE9F => self.read_oam(address),
            0xFF40 => self.lcdc.to_byte(),
            0xFF41 => self.stat.to_byte(),
            0xFF42 => self.scy,
            0xFF43 => self.scx,
            0xFF44 => self.ly,
            0xFF45 => self.lyc,
            0xFF47 => self.bgp,
            0xFF48 => self.obp0,
            0xFF49 => self.obp1,
            0xFF4A => self.wy,
            _ => self.wx,
        }
    }

    fn write_byte(&mut self, address: u16, value: u8) {
        match address {
            0x8000..=0x9FFF => self.write_vram(address, value),
            0xFE00..=0xFE9F => self.write_oam(address, value),
            0xFF40 => self.set_lcdc(value),
            0xFF41 => self.set_stat(value),
            0xFF42 => self.scy = value,
            0xFF43 => self.scx = value,
            0xFF44 => self.ly = 0,
            0xFF45 => self.lyc = value,
            0xFF47 => self.bgp = value,
            0xFF48 => self.obp0 = value,
            0xFF49 => self.obp1 = value,
            0xFF4A => self.wy = value,
            _ => self.wx = value,
        }
    }
}

impl PPU {
    /// The power-on PPU: registers zero, VRAM and OAM cleared, a full scanline counter.
    pub open spec fn default_spec() -> PpuView {
        PpuView {
            lcdc: lcdc_of_byte(0),
            stat: stat_of_byte(0),
            scy: 0,
            scx: 0,
            ly: 0,
            lyc: 0,
            bgp: 0,
            obp0: 0,
            obp1: 0,
            wy: 0,
            wx: 0,
            scanline_counter: SCANLINE_COUNTER_MAX,
            vram: Seq::new(8192, |i: int| 0u8),
            oam: Seq::new(160, |i: int| 0u8),
        }
    }
}

impl Default for PPU {
    fn default() -> (r: PPU)
        ensures
            r@ == PPU::default_spec(),
    {
        let r = PPU {
            lcdc: Lcdc::default(),
            stat: Stat::default(),
            scy: 0,
            scx: 0,
            ly: 0,  // The current scanline we're on
            lyc: 0,
            bgp: 0,
            obp0: 0,
            obp1: 0,
            wy: 0,
            wx: 0,
            // Counts down like the timer counter: there are 456 dots per scanline
            scanline_counter: SCANLINE_COUNTER_MAX,
            vram: [0u8; 8192],
            oam: [0u8; 160],
        };
        assert(r@.vram =~= Seq::new(8192, |i: int| 0u8));
        assert(r@.oam =~= Seq::new(160, |i: int| 0u8));
        r
    }
}

impl PPU {
    pub fn step(&mut self, cycles: u8)
        ensures
            final(self)@ == ppu_step(old(self)@, cycles),
    {
        self.set_lcd_status();
        if self.lcdc.lcdc_enabled() {
            if cycles as u16 > self.scanline_counter {
                // Move to the next scanline
                self.ly = self.ly.wrapping_add(1);
                // Reset the scanline counter
                self.scanline_counter = SCANLINE_COUNTER_MAX;
                if self.ly == VISIBLE_SCAN_LINES {
                    // Vertical blank period
                } else if self.ly > MAX_SCAN_LINES {
                    self.ly = 0;
                } else if self.ly < VISIBLE_SCAN_LINES {
                    self.draw_scanline();
                }
            } else {
                self.scanline_counter = self.scanline_counter - cycles as u16;
            }
        }
    }

    pub fn set_lcd_status(&mut self)
        ensures
            final(self)@ == lcd_status(old(self)@),
    {
        if !self.lcdc.lcdc_enabled() {
            self.scanline_counter = SCANLINE_COUNTER_MAX;
            self.ly = 0;
            self.stat.mode_flag = LcdMode::VBlank;
        } else {
            let new_mode = if self.ly >= VISIBLE_SCAN_LINES {
                LcdMode::VBlank
            } else if self.scanline_counter >= SEARCHING_FOR_SPRITES {
                LcdMode::SearchSpriteAttributes
            } else if self.scanline_counter >= TRANSFERING_TO_LCD_DRIVER {
                LcdMode::TransferingDataToLCDDriver
            } else {
                LcdMode::HBlank
            };
            self.stat.mode_flag = new_mode;
            self.stat.coincidence_flag = self.ly == self.lyc;
        }
    }

    /// Draws the current line: nothing is drawn yet, so the PPU is unchanged.
    pub fn draw_scanline(&mut self)
        ensures
            final(self)@ == old(self)@,
    {
        if self.lcdc.bg_window_display() {
            self.render_tiles();
        }
        if self.lcdc.obj_display() {
            self.render_sprites();
        }
    }

    /// Renders the window and background tiles (not drawn yet).
    pub fn render_tiles(&self) {
    }

    /// Renders the sprites (not drawn yet).
    pub fn render_sprites(&self) {
    }

    /// VRAM is only accessible during Modes 0-2
    /// Reading when the mode flag is set to 3 returns the default value of 0xFF
    pub fn read_vram(&self, address: u16) -> (r: u8)
        requires
            is_vram_address(address),
        ensures
            r == ppu_read(self@, address),
    {
        if self.stat.mode_flag == LcdMode::TransferingDataToLCDDriver {
            0xFF
        } else {
            self.vram[(address - 0x8000) as usize]
        }
    }

    /// VRAM is only accessible during Modes 0-2
    /// Writing when the mode flag is set to 3 does not change the data
    pub fn write_vram(&mut self, address: u16, value: u8)
        requires
            is_vram_address(address),
        ensures
            final(self)@ == ppu_write(old(self)@, address, value),
    {
        if self.stat.mode_flag != LcdMode::TransferingDataToLCDDriver {
            self.vram[(address - 0x8000) as usize] = value;
        }
    }

    /// OAM is only accessible during Modes 0 & 1
    /// Reading when the mode flag is set to 2 or 3 returns the default value of 0xFF
    pub fn read_oam(&self, address: u16) -> (r: u8)
        requires
            is_oam_address(address),
        ensures
            r == ppu_read(self@, address),
    {
        match self.stat.mode_flag {
            LcdMode::HBlank | LcdMode::VBlank => self.oam[(address - 0xFE00) as usize],
            LcdMode::SearchSpriteAttributes | LcdMode::TransferingDataToLCDDriver => 0xFF,
        }
    }

    /// OAM is only accessible during Modes 0 & 1
    /// Writing when the mode flag is set to 2 or 3 does not change the data
    pub fn write_oam(&mut self, address: u16, value: u8)
        requires
            is_oam_address(address),
        ensures
            final(self)@ == ppu_write(old(self)@, address, value),
    {
        if self.stat.mode_flag == LcdMode::HBlank || self.stat.mode_flag == LcdMode::VBlank {
            self.oam[(address - 0xFE00) as usize] = value;
        }
    }

    pub fn set_lcdc(&mut self, value: u8)
        ensures
            final(self)@ == ppu_write(old(self)@, 0xFF40, value),
    {
        self.lcdc = Lcdc::from_byte(value);
    }

    pub fn set_stat(&mut self, value: u8)
        ensures
            final(self)@ == ppu_write(old(self)@, 0xFF41, value),
    {
        self.stat = Stat::from_byte(value);
    }

    pub fn lcdc(&self) -> (r: u8)
        ensures
            r == lcdc_byte(self.lcdc),
    {
        u8::from(&self.lcdc)
    }

    pub fn stat(&self) -> (r: u8)
        ensures
            r == stat_byte(self.stat),
    {
        u8::from(&self.stat)
    }

    pub fn vram(&self) -> (r: [u8; 8192])
        ensures
            r@ == self.vram@,
    {
        self.vram
    }

    pub fn oam(&self) -> (r: [u8; 160])
        ensures
            r@ == self.oam@,
    {
        self.oam
    }
}

/// While VRAM is open, a byte written to it reads back.
pub proof fn lemma_vram_read_after_write(p: PpuView, address: u16, value: u8)
    requires
        is_vram_address(address),
        vram_open(p),
        p.vram.len() == 8192,
    ensures
        ppu_read(ppu_write(p, address, value), address) == value,
{
}

/// While OAM is open, a byte written to it reads back.
pub proof fn lemma_oam_read_after_write(p: PpuView, address: u16, value: u8)
    requires
        is_oam_address(address),
        oam_open(p),
        p.oam.len() == 160,
    ensures
        ppu_read(ppu_write(p, address, value), address) == value,
{
}

/// In mode 3 VRAM and OAM read 0xFF and ignore writes.
pub proof fn lemma_mode_3_locks_video_memory(p: PpuView, address: u16, value: u8)
    requires
        p.stat.mode_flag == LcdMode::TransferingDataToLCDDriver,
        is_vram_address(address) || is_oam_address(address),
    ensures
        ppu_read(p, address) == 0xFF,
        ppu_write(p, address, value) == p,
{
}

/// With the LCD on, a step sets the STAT coincidence flag (bit 2 of 0xFF41)
/// exactly when LY, as the step found it, equals LYC.
pub proof fn lemma_coincidence_flag(p: PpuView, cycles: u8)
    requires
        p.lcdc.lcdc_enabled,
    ensures
        ppu_step(p, cycles).stat.coincidence_flag == (p.ly == p.lyc),
        (stat_byte(ppu_step(p, cycles).stat) / 4) % 2 == 1 <==> p.ly == p.lyc,
{
    let st = ppu_step(p, cycles).stat;
    lemma_bits_of_byte_of_bits(
        false,
        st.coincidence_selectable,
        st.mode_10,
        st.mode_01,
        st.mode_00,
        st.coincidence_flag,
        mode_number(st.mode_flag) / 2 == 1,
        mode_number(st.mode_flag) % 2 == 1,
    );
}

} // verus!
