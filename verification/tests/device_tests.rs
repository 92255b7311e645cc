use oxide_boy::dmg::apu::Apu;
use oxide_boy::dmg::boot_rom::BootRom;
use oxide_boy::dmg::bus::Bus;
use oxide_boy::dmg::busconnection::BusConnection;
use oxide_boy::dmg::cartridge::mbc1::{BankingMode, MBC1};
use oxide_boy::dmg::cartridge::{Cartridge, Type};
use oxide_boy::dmg::memory::{
    Memory, ECHO_RAM_START, INTERNAL_RAM_END, INTERNAL_RAM_START,
};
use oxide_boy::dmg::ppu::lcdc::{Lcdc, ObjSize, TileData, TileMap};
use oxide_boy::dmg::ppu::oam::{OamEntry, OamEntryFlag, Palette};
use oxide_boy::dmg::ppu::stat::{LcdMode, Stat};
use oxide_boy::dmg::ppu::PPU;
use oxide_boy::dmg::timer::Timer;

/// A boot ROM image with the first (0x31) and last (0x50) bytes of the DMG
/// boot ROM and zeros between them.
fn dmg_boot_rom_ends() -> BootRom {
    let mut image = [0u8; 0x100];
    image[0] = 0x31;
    image[0xFF] = 0x50;
    BootRom::new(image)
}

fn setup() -> Bus {
    Bus::default()
}

// boot ROM

#[test]
fn read_memory() {
    let rom = dmg_boot_rom_ends();
    assert_eq!(rom.read_byte(0), 0x31, "The first entry on the boot rom should be 0x31");
    assert_eq!(rom.read_byte(0xFF), 0x50, "The last entry on the boot rom should be 0x50");
}

// bus

#[test]
fn write_to_mem() {
    let mut bus = setup();
    bus.write_byte(0xC000, 0xAA);
    assert_eq!(bus.memory.read_word(0xC000), 0xAA);
}

#[test]
fn write_to_ppu_lcdc() {
    let mut bus = setup();
    bus.write_byte(0xFF40, 0xAA);
    assert_eq!(bus.ppu.lcdc(), 0xAA);
}

#[test]
fn write_to_ppu_stat() {
    let mut bus = setup();
    bus.write_byte(0xFF41, 0b00101010);
    assert_eq!(bus.ppu.stat(), 0b00101010);
}

#[test]
fn write_to_timer_div() {
    let mut bus = setup();
    bus.write_byte(0xFF04, 0xAA);
    assert_eq!(bus.timer.div(), 0, "Writing to div should reset it to zero");
}

#[test]
fn write_to_timer_tima() {
    let mut bus = setup();
    bus.write_byte(0xFF05, 0xAA);
    assert_eq!(bus.timer.tima(), 0xAA);
}

#[test]
fn write_to_apu_sweep_register() {
    let mut bus = setup();
    bus.write_byte(0xFF10, 0xAA);
    assert_eq!(bus.apu.sweep_register(), 0xAA);
}

#[test]
fn write_to_apu_wave_pattern_ram() {
    let mut bus = setup();
    bus.write_byte(0xFF30, 0x10);
    bus.write_byte(0xFF3F, 0xAA);
    assert_eq!(bus.apu.wave_pattern_ram()[0], 0x10);
    assert_eq!(bus.apu.wave_pattern_ram()[0xF], 0xAA);
}

#[test]
fn unused_memory() {
    let mut bus = setup();
    bus.write_byte(0xFEA1, 0xAA);
    for i in 0xFEA0..=0xFEFF {
        assert_eq!(bus.read_byte(i), 0xFF);
    }
}

#[test]
fn vram() {
    let mut bus = setup();
    bus.write_byte(0x9000, 0xAA);
    assert_eq!(bus.ppu.vram()[0x1000], 0xAA);
}

#[test]
fn oam() {
    let mut bus = setup();
    bus.write_byte(0xFE10, 0xAA);
    assert_eq!(bus.ppu.oam()[0x0010], 0xAA);
}

#[test]
fn disable_boot_rom() {
    let mut bus = Bus::new(dmg_boot_rom_ends(), Cartridge::default());
    assert_eq!(bus.read_byte(0xFF50), 0);
    assert_eq!(bus.read_byte(0xFF), 0x50);
    bus.write_byte(0xFF50, 1);
    assert_eq!(
        bus.read_byte(0xFF),
        0,
        "We should be reading from memory now instead of the bootrom"
    );
}

#[test]
fn default_no_cart_is_rom() {
    let mut bus = setup();
    assert_eq!(bus.read_byte(0xA000), 0);
    bus.write_byte(0xA000, 10);
    assert_eq!(
        bus.read_byte(0xA000),
        0,
        "0xA000 should still be zero because we have no cart and default to ROM"
    );
}

// cartridge

#[test]
fn convert_byte_to_type() {
    assert_eq!(Type::from(0x00), Type::RomOnly);
    assert_eq!(Type::from(0x01), Type::MBC1);
}

#[test]
fn write_ram_enabled() {
    let mut mbc1 = MBC1::new(vec![0u8; 0x4000]);
    mbc1.write_byte(0x1FFF, 0x0A); // enable the ram
    mbc1.write_byte(0xA000, 0xAA); // write to ram
    assert_eq!(mbc1.read_byte(0xA000), 0xAA);
}

#[test]
fn write_ram_disabled() {
    let mut mbc1 = MBC1::new(vec![0u8; 0x4000]);
    mbc1.write_byte(0x1FFF, 0x00); // disable the ram
    mbc1.write_byte(0xA000, 0xAA); // write to ram
    assert_eq!(mbc1.read_byte(0xA000), 0x00);
}

#[test]
fn read_ram_disabled() {
    let mut mbc1 = MBC1::new(vec![0u8; 0x4000]);
    mbc1.write_byte(0x1FFF, 0x0A); // enable the ram
    mbc1.write_byte(0xA000, 0xAA); // write to ram
    mbc1.write_byte(0x1FFF, 0x00); // disable the ram
    assert_eq!(mbc1.read_byte(0xA000), 0);
}

#[test]
fn change_mode_to_ram() {
    let mut mbc1 = MBC1::new(vec![0u8; 0x4000]);
    assert_eq!(mbc1.mode, BankingMode::Rom);
    mbc1.write_byte(0x6000, 0x1);
    assert_eq!(mbc1.mode, BankingMode::Ram);
}

#[test]
fn change_rom_bank() {
    let mut mbc1 = MBC1::new(vec![0u8; 0x4000]);
    assert_eq!(mbc1.rom_bank_number, 0);
    mbc1.write_byte(0x2000, 0x10);
    assert_eq!(mbc1.rom_bank_number, 0x10);
}

#[test]
fn change_ram_bank() {
    let mut mbc1 = MBC1::new(vec![0u8; 0x4000]);
    assert_eq!(mbc1.ram_bank_numer, 0x0);
    mbc1.write_byte(0x6000, 0x1);
    assert_eq!(mbc1.mode, BankingMode::Ram);
    mbc1.write_byte(0x4000, 0x1);
    assert_eq!(mbc1.ram_bank_numer, 0x1);
}

#[test]
fn write_and_read_ram_bank_3() {
    let mut mbc1 = MBC1::new(vec![0u8; 0x4000]);
    assert_eq!(mbc1.ram_bank_numer, 0x0);
    mbc1.write_byte(0x6000, 0x1);
    assert_eq!(mbc1.mode, BankingMode::Ram);
    mbc1.write_byte(0x4000, 0x3);
    assert_eq!(mbc1.ram_bank_numer, 0x3);
    mbc1.write_byte(0x1FFF, 0x0A); // enable the ram
    mbc1.write_byte(0xA000, 0xAA); // write to ram
    assert_eq!(mbc1.read_byte(0xA000), 0xAA);
    mbc1.write_byte(0x4000, 0x2);
    assert_eq!(mbc1.ram_bank_numer, 0x2);
    assert_eq!(
        mbc1.read_byte(0xA000),
        0,
        "We've changed to a new ram bank, this should be empty"
    );
}

// LCDC

#[test]
fn lcdc_to_u8() {
    let lcdc = Lcdc {
        lcdc_enabled: true,
        window_tile_map_display_select: TileMap::S9C00,
        window_display: false,
        bg_window_tile_data_select: TileData::S8800,
        bg_tile_map_data_select: TileMap::S9800,
        obj_size: ObjSize::S8x8,
        obj_display: true,
        bg_window_display: true,
    };
    assert_eq!(u8::from(&lcdc), 0b1101_0011);
}

#[test]
fn u8_to_lcdc() {
    let byte = 0b1101_0011;
    let expected = Lcdc {
        lcdc_enabled: true,
        window_tile_map_display_select: TileMap::S9C00,
        window_display: false,
        bg_window_tile_data_select: TileData::S8800,
        bg_tile_map_data_select: TileMap::S9800,
        obj_size: ObjSize::S8x8,
        obj_display: true,
        bg_window_display: true,
    };
    assert_eq!(Lcdc::from(&byte), expected);
}

#[test]
fn u8_to_objsize() {
    let byte = 0b0000_0100;
    assert_eq!(ObjSize::from(&byte), ObjSize::S16x16);
    let byte = 0b0000_0000;
    assert_eq!(ObjSize::from(&byte), ObjSize::S8x8);
}

#[test]
fn objsize_to_u8() {
    assert_eq!(u8::from(&ObjSize::S16x16), 0b0000_0100);
    assert_eq!(u8::from(&ObjSize::S8x8), 0b0000_0000);
}

#[test]
fn u8_to_tile_map() {
    let byte = 0b0100_0000;
    assert_eq!(TileMap::from_window(&byte), TileMap::S9C00);
    let byte = 0b0000_0000;
    assert_eq!(TileMap::from_window(&byte), TileMap::S9800);
}

#[test]
fn tile_map_to_u8() {
    assert_eq!(TileMap::u8_from_window(&TileMap::S9800), 0b0000_0000);
    assert_eq!(TileMap::u8_from_window(&TileMap::S9C00), 0b0100_0000);
}

#[test]
fn u8_to_tile_data() {
    let byte = 0b0000_0000;
    assert_eq!(TileData::from(&byte), TileData::S8000);
    let byte = 0b0001_0000;
    assert_eq!(TileData::from(&byte), TileData::S8800);
}

#[test]
fn tile_data_to_u8() {
    assert_eq!(u8::from(&TileData::S8000), 0b0000_0000);
    assert_eq!(u8::from(&TileData::S8800), 0b0001_0000);
}

// memory

#[test]
fn read_word() {
    let mut bus = Memory::default();
    bus.write_byte(0xA000, 0xAA);
    bus.write_byte(0xA001, 0xFF);
    assert_eq!(bus.read_word(0xA000), 0xFFAA, "We expect this to be read as little endian");
}

#[test]
fn write_word() {
    let mut bus = Memory::default();
    bus.write_word(0xA000, 0xFFAA);
    assert_eq!(bus.read_byte(0xA000), 0xAA);
    assert_eq!(bus.read_byte(0xA001), 0xFF);
}

#[test]
fn echo_ram() {
    let mut bus = Memory::default();
    bus.write_byte(INTERNAL_RAM_START + 1, 0xAA);
    let mut j = 0;
    for i in INTERNAL_RAM_START..=INTERNAL_RAM_END {
        assert_eq!(bus.read_byte(ECHO_RAM_START + j), bus.read_byte(i));
        j += 1;
    }
}

#[test]
fn write_to_echo_ram() {
    let mut bus = Memory::default();
    bus.write_byte(ECHO_RAM_START + 10, 0xAA);
    assert_eq!(bus.read_byte(INTERNAL_RAM_START + 10), 0xAA);
}

// PPU

#[test]
fn ppu_lcd_is_enabled() {
    let mut ppu = PPU::default();
    assert_eq!(ppu.lcdc.lcdc_enabled(), false);
    ppu.lcdc = Lcdc::from(&255);
    assert_eq!(ppu.lcdc.lcdc_enabled(), true);
}

#[test]
fn ppu_ly_inc() {
    let mut ppu = PPU::default();
    ppu.lcdc = Lcdc::from(&255);
    assert_eq!(ppu.ly, 0);
    ppu.step(255);
    ppu.step(255);
    assert_eq!(ppu.ly, 1, "Ly should be incd after 456 cycles");
}

#[test]
fn ppu_write_to_ly() {
    let mut ppu = PPU::default();
    ppu.write_byte(0xFF44, 10);
    assert_eq!(ppu.lcdc(), 0, "Writing to ly should reset the value");
}

#[test]
fn ppu_u8_to_lcd_mode() {
    let eight = 0b0000_0011;
    assert_eq!(LcdMode::from(eight), LcdMode::TransferingDataToLCDDriver);
    let eight = 0b0000_0010;
    assert_eq!(LcdMode::from(eight), LcdMode::SearchSpriteAttributes);
    let eight = 0b0000_0001;
    assert_eq!(LcdMode::from(eight), LcdMode::VBlank);
    let eight = 0b0000_0000;
    assert_eq!(LcdMode::from(eight), LcdMode::HBlank);
}

#[test]
fn ppu_u8_to_stat() {
    let stat: u8 = 0b0110_0110;
    let expected = Stat {
        coincidence_selectable: true,
        mode_10: true,
        mode_01: false,
        mode_00: false,
        coincidence_flag: true,
        mode_flag: LcdMode::SearchSpriteAttributes,
    };
    assert_eq!(Stat::from(&stat), expected);
}

#[test]
fn ppu_lcd_to_u8() {
    let mode = LcdMode::TransferingDataToLCDDriver;
    assert_eq!(u8::from(&mode), 0b0000_0011);
    let mode = LcdMode::SearchSpriteAttributes;
    assert_eq!(u8::from(&mode), 0b0000_0010);
    let mode = LcdMode::VBlank;
    assert_eq!(u8::from(&mode), 0b0000_0001);
    let mode = LcdMode::HBlank;
    assert_eq!(u8::from(&mode), 0b0000_0000);
}

#[test]
fn ppu_stat_to_u8() {
    let expected: u8 = 0b0110_0110;
    let stat = Stat {
        coincidence_selectable: true,
        mode_10: true,
        mode_01: false,
        mode_00: false,
        coincidence_flag: true,
        mode_flag: LcdMode::SearchSpriteAttributes,
    };
    assert_eq!(u8::from(&stat), expected);
}

#[test]
fn write_to_vram() {
    let mut ppu = PPU::default();
    ppu.write_byte(0x9000, 0xAA);
    assert_eq!(ppu.vram()[0x1000], 0xAA);
    assert_eq!(ppu.read_byte(0x9000), 0xAA);
}

#[test]
fn write_to_end_of_vram() {
    let mut ppu = PPU::default();
    ppu.write_byte(0x9FFF, 0xAA);
    assert_eq!(ppu.vram()[0x1FFF], 0xAA);
    assert_eq!(ppu.read_byte(0x9FFF), 0xAA);
}

#[test]
fn read_vram_when_stat_mode_3() {
    let mut ppu = PPU::default();
    ppu.write_byte(0x9000, 0xAA);
    ppu.stat.mode_flag = LcdMode::TransferingDataToLCDDriver;
    assert_eq!(ppu.vram()[0x1000], 0xAA, "The correct byte 0xAA should be present in Vram");
    assert_eq!(
        ppu.read_byte(0x9000),
        0xFF,
        "VRAM read through it's public methods should return 0xFF when disabled"
    );
}

#[test]
fn write_vram_when_stat_mode_3() {
    let mut ppu = PPU::default();
    ppu.write_byte(0x9000, 0xAA);
    ppu.stat.mode_flag = LcdMode::TransferingDataToLCDDriver;
    ppu.write_byte(0x9000, 0xBB);
    assert_eq!(ppu.vram()[0x1000], 0xAA, "VRAM should not have been written to a second time");
}

#[test]
fn write_to_oam() {
    let mut ppu = PPU::default();
    ppu.write_byte(0xFE10, 0xAA);
    assert_eq!(ppu.oam()[0x0010], 0xAA);
    assert_eq!(ppu.read_byte(0xFE10), 0xAA);
}

#[test]
fn write_to_end_of_oam() {
    let mut ppu = PPU::default();
    ppu.write_byte(0xFE9F, 0xAA);
    assert_eq!(ppu.oam()[0x009F], 0xAA);
    assert_eq!(ppu.read_byte(0xFE9f), 0xAA);
}

#[test]
fn read_oam_when_stat_mode_3() {
    let mut ppu = PPU::default();
    ppu.write_byte(0xFE10, 0xAA);
    ppu.stat.mode_flag = LcdMode::TransferingDataToLCDDriver;
    assert_eq!(ppu.oam()[0x0010], 0xAA, "The correct byte 0xAA should be present in OAM");
    assert_eq!(
        ppu.read_byte(0xFE10),
        0xFF,
        "OAM read through it's public methods should return 0xFF when disabled"
    );
}

#[test]
fn write_oam_when_stat_mode_3() {
    let mut ppu = PPU::default();
    ppu.write_byte(0xFE10, 0xAA);
    ppu.stat.mode_flag = LcdMode::TransferingDataToLCDDriver;
    ppu.write_byte(0xFE10, 0xBB);
    assert_eq!(ppu.oam()[0x0010], 0xAA, "OAM should not have been written to a second time");
}

// OAM entries

#[test]
fn convert_4_bytes_to_oam_entry() {
    let mut oam = [0u8; 160];
    oam[0] = 0x10;
    oam[1] = 0x20;
    oam[2] = 0x30;
    oam[3] = 0b1101_0000;
    let res = OamEntry::new(oam, 0);
    assert_eq!(res.y_pos, 0x10 - 16);
    assert_eq!(res.x_pos, 0x20 - 8);
    assert_eq!(res.tile_location, 0x30);
    assert_eq!(res.attributes.obj_to_bg_priority, true);
    assert_eq!(res.attributes.y_flip, true);
    assert_eq!(res.attributes.x_flip, false);
    assert_eq!(res.attributes.palette_number, Palette::Obp1);
}

#[test]
fn convert_byte_to_oamentryflag() {
    let byte = 0b1011_0000;
    let res = OamEntryFlag::from(byte);
    assert_eq!(res.obj_to_bg_priority, true);
    assert_eq!(res.y_flip, false);
    assert_eq!(res.x_flip, true);
    assert_eq!(res.palette_number, Palette::Obp1);
}

#[test]
fn convert_byte_to_palette_number() {
    let byte = 0b0001_0000;
    assert_eq!(Palette::from(byte), Palette::Obp1);
    let byte = 0;
    assert_eq!(Palette::from(byte), Palette::Obp0);
}

// STAT

#[test]
fn stat_u8_to_lcd_mode() {
    let eight = 0b0000_0011;
    assert_eq!(LcdMode::from(eight), LcdMode::TransferingDataToLCDDriver);
    let eight = 0b0000_0010;
    assert_eq!(LcdMode::from(eight), LcdMode::SearchSpriteAttributes);
    let eight = 0b0000_0001;
    assert_eq!(LcdMode::from(eight), LcdMode::VBlank);
    let eight = 0b0000_0000;
    assert_eq!(LcdMode::from(eight), LcdMode::HBlank);
}

#[test]
fn stat_u8_to_stat() {
    let stat: u8 = 0b0110_0110;
    let expected = Stat {
        coincidence_selectable: true,
        mode_10: true,
        mode_01: false,
        mode_00: false,
        coincidence_flag: true,
        mode_flag: LcdMode::SearchSpriteAttributes,
    };
    assert_eq!(Stat::from(&stat), expected);
}

#[test]
fn stat_lcd_to_u8() {
    let mode = LcdMode::TransferingDataToLCDDriver;
    assert_eq!(u8::from(&mode), 0b0000_0011);
    let mode = LcdMode::SearchSpriteAttributes;
    assert_eq!(u8::from(&mode), 0b0000_0010);
    let mode = LcdMode::VBlank;
    assert_eq!(u8::from(&mode), 0b0000_0001);
    let mode = LcdMode::HBlank;
    assert_eq!(u8::from(&mode), 0b0000_0000);
}

#[test]
fn stat_stat_to_u8() {
    let expected: u8 = 0b0110_0110;
    let stat = Stat {
        coincidence_selectable: true,
        mode_10: true,
        mode_01: false,
        mode_00: false,
        coincidence_flag: true,
        mode_flag: LcdMode::SearchSpriteAttributes,
    };
    assert_eq!(u8::from(&stat), expected);
}

// timer

#[test]
fn timer_write_to_div() {
    let mut t = Timer::default();
    t.write_byte(0xFF04, 10);
    assert_eq!(t.div, 0, "The div should always be set to zero if we write to it");
}

#[test]
fn timer_counter_test_initial() {
    let t = Timer::default();
    assert_eq!(t.cpu_cycles_per_tick(), 1024, "Timer cpu cylces should start at 1024");
    assert_eq!(t.timer_counter, 1024, "The timer counter should begin at 1024");
}

#[test]
fn timer_counter_partial_step() {
    let mut t = Timer::default();
    t.tac = 5;
    t.timer_counter = t.cpu_cycles_per_tick();
    assert_eq!(t.timer_enabled(), true);
    assert_eq!(t.cpu_cycles_per_tick(), 16, "Timer cpu cylces should start at 16");
    t.step(10);
    assert_eq!(t.timer_counter, 6, "We didn't make a full clock tick");
}

#[test]
fn timer_should_inc_once() {
    let mut t = Timer::default();
    t.tac = 5;
    t.timer_counter = t.cpu_cycles_per_tick();
    assert_eq!(t.timer_enabled(), true);
    assert_eq!(t.cpu_cycles_per_tick(), 16, "Timer cpu cylces should start at 16");
    t.step(20);
    assert_eq!(t.timer_counter, 16, "Timer should have reset to 16 according to the TAC");
}

#[test]
fn timer_disabled_doesnt_move() {
    let mut t = Timer::default();
    assert_eq!(t.timer_enabled(), false, "Timer begins as disables");
    assert_eq!(t.timer_counter, 1024, "Timer cpu cylces should start at 16");
    t.step(10);
    assert_eq!(t.timer_counter, 1024, "Timer should stil be at the starting point");
}

#[test]
fn changing_frequency_changes_timer() {
    let mut t = Timer::default();
    assert_eq!(t.timer_counter, 1024);
    t.write_byte(0xFF07, 0b100);
    assert_eq!(t.timer_enabled(), true, "TAC at one should enable our timer");
    assert_eq!(
        t.timer_counter,
        1024,
        "TAC has changed but hasn't change the freqency, so this should still be 1024"
    );
    t.step(10);
    assert_eq!(t.timer_counter, 1014, "A partial step should result in the timer counter moving");
    t.write_byte(0xFF07, 0b101);
    assert_eq!(t.timer_counter, 16, "The timer should be reset to a new frequency");
}

#[test]
fn apu_starts_silent() {
    let apu = Apu::default();
    assert_eq!(apu.sweep_register(), 0);
    assert_eq!(apu.wave_pattern_ram(), [0u8; 16]);
}
