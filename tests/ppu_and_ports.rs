use snes::address::HardwareAddress;
use snes::apu::Apu;
use snes::bits::WriteTwice;
use snes::color::Color;
use snes::hardware::Hardware;
use snes::io_port::IoPort;
use snes::joypad::Joypad;
use snes::layers::{BackgroundLayer, ColorMath, Mode7, ObjectLayer, Window, WindowMask};
use snes::oam::Oam;
use snes::ppu::Ppu;
use snes::rom::{DataBus, Rom, RomMode, SramBus};
use snes::vram::Vram;
use snes::wram::Wram;

fn hardware() -> Hardware {
    let rom = Rom { mode: RomMode::LoRom, data: DataBus(vec![0xEA; 0x8000]), sram: SramBus(vec![]) };
    Hardware::new(rom, Wram::new(), Ppu::new(), Apu::new(), Joypad::new())
}

#[test]
fn write_twice_masks_and_alternates() {
    let mut w = WriteTwice::new(0, 0x01FF);
    w.write(0xFF);
    w.write(0xFF);
    assert_eq!(w.value(), 0x01FF);
    assert_eq!(w.read(), 0xFF);
    assert_eq!(w.read(), 0x01);
    w.set_value(0xFFFF);
    assert_eq!(w.value(), 0x01FF);
}

#[test]
fn color_packing() {
    let c = Color::from_word(0x7FFF);
    assert_eq!((c.red(), c.green(), c.blue()), (31, 31, 31));
    let c = Color::new(1, 2, 3);
    assert_eq!(c.to_word(), (3 << 10) | (2 << 5) | 1);
    let mut c = Color::new(0, 0, 0);
    c.set_lower(0xE3);
    c.set_upper(0x7D);
    assert_eq!(c.to_word(), 0x7DE3);
    assert_eq!(c.lower(), 0xE3);
    assert_eq!(c.upper(), 0x7D);
}

#[test]
fn vram_step_of_32_after_high_byte() {
    let mut v = Vram::new();
    v.set_port_control(0x81);
    v.set_lower_address_byte(0x00);
    v.set_upper_address_byte(0x10);
    v.write_low_byte(0x34);
    v.write_high_byte(0x12);
    assert_eq!(v.word(0x1000), 0x1234);
    assert_eq!(v.address, 0x1020);
}

#[test]
fn vram_read_prefetches() {
    let mut v = Vram::new();
    v.write_low_byte(0xCD);
    v.write_low_byte(0xAB);
    v.set_lower_address_byte(0);
    // The first read returns the stale buffer and prefetches word 0.
    v.read_low_byte();
    assert_eq!(v.read_low_byte(), 0xCD);
}

#[test]
fn oam_main_table_written_in_pairs() {
    let mut o = Oam::new();
    o.set_address(3);
    o.write(0x34);
    assert_eq!(o.lower_table[3], 0);
    o.write(0x12);
    assert_eq!(o.lower_table[3], 0x1234);
    o.set_address(3);
    assert_eq!(o.read(), 0x34);
    assert_eq!(o.read(), 0x12);
    assert_eq!(o.address, 4);
}

#[test]
fn oam_wraps_into_upper_table() {
    let mut o = Oam::new();
    o.set_address(255);
    o.write(1);
    o.write(2);
    assert_eq!(o.address, 0);
    assert!(o.upper_selected);
    o.write(0x77);
    assert_eq!(o.upper_table[0], 0x0077);
}

#[test]
fn apu_handshake() {
    let mut apu = Apu::new();
    assert_eq!(apu.read(0), 0xAA);
    assert_eq!(apu.read(1), 0xBB);
    apu.write(1, 0x01);
    apu.write(0, 0xCC);
    assert!(apu.transfer_started);
    assert_eq!(apu.read(0), 0xCC);
    apu.write(1, 0x00);
    apu.write(0, 0x05);
    assert!(!apu.transfer_started);
    apu.write(0, 0x00);
    assert_eq!(apu.read(0), 0xAA);
}

#[test]
fn io_port_falling_edge_latches_counters() {
    let mut p = IoPort::new();
    p.set_value(0x00);
    assert!(p.triggered());
    p.reset_trigger();
    p.set_value(0x80);
    assert!(!p.triggered());

    let mut hw = hardware();
    hw.write_u8(HardwareAddress::new(0, 0x4201), 0x00);
    assert!(hw.ppu.stored);
    assert_eq!(hw.read_u8(HardwareAddress::new(0, 0x213F)) & 0x40, 0x40);
}

#[test]
fn window_masks() {
    let mut w1 = Window::new();
    w1.set_left(10);
    w1.set_right(20);
    assert!(w1.contains(10));
    assert!(!w1.contains(20));
    let w2 = Window::new();
    let mut m = WindowMask::new();
    assert!(!m.contains(&w1, &w2, 15));
    m.set_options(0x02);
    assert!(m.contains(&w1, &w2, 15));
    m.set_options(0x03);
    assert!(!m.contains(&w1, &w2, 15));
    m.set_options(0x0A);
    m.set_operator(1);
    assert!(!m.contains(&w1, &w2, 15));
    m.set_operator(3);
    assert!(!m.contains(&w1, &w2, 15));
    m.set_operator(2);
    assert!(m.contains(&w1, &w2, 15));
}

#[test]
fn background_layer_settings() {
    let mut bg = BackgroundLayer::new();
    bg.set_tile_map_locations(0x05);
    assert_eq!(bg.tile_map_locations, [1, 2, 1, 2]);
    bg.set_tile_map_locations(0x0B);
    assert_eq!(bg.tile_map_locations, [2, 3, 4, 5]);
    bg.set_chr_offset(2);
    assert_eq!((bg.chr_4_offset, bg.chr_16_offset, bg.chr_256_offset), (1024, 512, 256));
    bg.set_main_screen_enabled(true);
    bg.set_sub_screen_enabled(true);
    bg.set_color_math_enabled(true);
    assert!(bg.main_screen_enabled && bg.sub_screen_enabled && bg.color_math_enabled);
    bg.set_scroll_x(0xFF);
    bg.set_scroll_x(0xFF);
    assert_eq!(bg.scroll_x.value(), 0x03FF);
    bg.set_scroll_y(0x01);
    assert_eq!(bg.scroll_y.value(), 0x0001);
    bg.set_window_mask_options(0x02);
    bg.set_window_mask_logic(1);
    assert!(bg.window_mask.w1_enabled);
}

#[test]
fn object_layer_config() {
    let mut o = ObjectLayer::new();
    o.set_config(0x61);
    assert_eq!(o.table_offsets, [512, 768]);
    assert_eq!(o.small_size, (16, 16));
    assert_eq!(o.large_size, (32, 32));
    o.set_main_screen_enabled(true);
    o.set_sub_screen_enabled(true);
    o.set_color_math_enabled(true);
    assert!(o.main_screen_enabled && o.sub_screen_enabled && o.color_math_enabled);
}

#[test]
fn color_math_settings() {
    let mut c = ColorMath::new();
    c.adjust_fixed_color(0x20 | 0x40 | 0x0A);
    assert_eq!((c.fixed_color.red, c.fixed_color.green, c.fixed_color.blue), (0x0A, 0x0A, 0));
    c.set_operation(0xC0);
    assert!(c.subtract);
    assert_eq!(c.divisor, 2);
    c.set_source(0x02);
    assert!(c.sub_screen_source);
    c.set_window_mask_options(0x08);
    c.set_window_mask_logic(2);
    assert!(c.window_mask.w2_enabled);
}

#[test]
fn mode_7_scroll_is_signed() {
    let mut m = Mode7::new();
    m.set_scroll_x(0xFF);
    m.set_scroll_x(0x1F);
    assert_eq!(m.scroll_x, -1);
    m.set_scroll_y(0x10);
    m.set_scroll_y(0x00);
    assert_eq!(m.scroll_y, 16);
}

#[test]
fn ppu_register_writes_reach_layers() {
    let mut hw = hardware();
    hw.write_u8(HardwareAddress::new(0, 0x2105), 0x07);
    assert_eq!(hw.ppu.layers.background_mode(), 7);
    hw.write_u8(HardwareAddress::new(0, 0x2126), 0x30);
    assert_eq!(hw.ppu.layers.window1().left, 0x30);
    hw.write_u8(HardwareAddress::new(0, 0x2100), 0x8F);
    assert!(hw.ppu.force_blank);
    assert_eq!(hw.ppu.brightness, 0x0F);
}
