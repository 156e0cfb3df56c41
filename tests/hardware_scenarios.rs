use snes::address::HardwareAddress;
use snes::apu::Apu;
use snes::cpu::Cpu;
use snes::hardware::{Hardware, Port};
use snes::joypad::Joypad;
use snes::ppu::Ppu;
use snes::registers::ACTION_IRQ;
use snes::rom::{DataBus, Rom, RomError, RomMode, SramBus};
use snes::wram::Wram;

fn hardware(mode: RomMode, size: usize) -> Hardware {
    let mut data = vec![0xEAu8; size];
    data[0x7FFC] = 0x00;
    data[0x7FFD] = 0x80;
    data[0x7FFE] = 0x00;
    data[0x7FFF] = 0x90;
    let rom = Rom { mode, data: DataBus(data), sram: SramBus(vec![0; 0x800]) };
    Hardware::new(rom, Wram::new(), Ppu::new(), Apu::new(), Joypad::new())
}

fn at(bank: u8, offset: u16) -> HardwareAddress {
    HardwareAddress::new(bank, offset)
}

#[test]
fn dma_mode_aabb() {
    let mut cpu = Cpu::new(hardware(RomMode::LoRom, 0x8000));
    let hw = &mut cpu.hardware;
    for (i, v) in [0x11u8, 0x22, 0x33, 0x44].iter().enumerate() {
        hw.write_u8(at(0, 0x1000 + i as u16), *v);
    }
    hw.write_u8(at(0, 0x4300), 0x03);
    hw.write_u8(at(0, 0x4301), 0x18);
    hw.write_u8(at(0, 0x4302), 0x00);
    hw.write_u8(at(0, 0x4303), 0x10);
    hw.write_u8(at(0, 0x4304), 0x00);
    hw.write_u8(at(0, 0x4305), 0x04);
    hw.write_u8(at(0, 0x4306), 0x00);
    hw.write_u8(at(0, 0x420B), 0x01);
    let before = cpu.hardware.clock;
    cpu.tick().unwrap();
    assert_eq!(cpu.hardware.clock - before, 8 + 4 * 8);
    let vram = &cpu.hardware.ppu.vram.raw_data;
    // $2118 took $11 then $22 (the address steps after low-byte writes);
    // $2119 took $33 then $44 at the word reached by then.
    assert_eq!(vram[0], 0x0011);
    assert_eq!(vram[1], 0x0022);
    assert_eq!(vram[2], 0x4400);
    let channel = cpu.hardware.dma_channel(0);
    assert_eq!(channel.source.offset, 0x1004);
    assert_eq!(channel.hdma_indirect_address.offset, 0);
}

#[test]
fn raster_match_irq() {
    let mut cpu = Cpu::new(hardware(RomMode::LoRom, 0x8000));
    cpu.flags.interrupt_disable = false;
    cpu.hardware.write_u8(at(0, 0x4209), 100);
    cpu.hardware.write_u8(at(0, 0x420A), 0);
    cpu.hardware.write_u8(at(0, 0x4200), 0x20);
    let mut steps = 0;
    while cpu.hardware.regs.cpu_action & ACTION_IRQ == 0 {
        cpu.tick().unwrap();
        steps += 1;
        assert!(steps < 200_000);
    }
    assert_eq!(cpu.hardware.ppu.position.v, 100);
    assert!(cpu.hardware.regs.irq_active);
    cpu.tick().unwrap();
    assert_eq!(cpu.regs.program_counter, 0x9000);
    assert!(cpu.flags.interrupt_disable);
    assert_eq!(cpu.hardware.read_u8(at(0, 0x4211)), 0x80);
    assert!(!cpu.hardware.regs.irq_active);
    assert_eq!(cpu.hardware.read_u8(at(0, 0x4211)), 0x00);
}

#[test]
fn raster_irq_held_off_by_interrupt_disable() {
    let mut cpu = Cpu::new(hardware(RomMode::LoRom, 0x8000));
    cpu.flags.interrupt_disable = true;
    cpu.hardware.write_u8(at(0, 0x4209), 10);
    cpu.hardware.write_u8(at(0, 0x4200), 0x20);
    let mut steps = 0;
    while cpu.hardware.regs.cpu_action & ACTION_IRQ == 0 {
        cpu.tick().unwrap();
        steps += 1;
        assert!(steps < 200_000);
    }
    let pc = cpu.regs.program_counter;
    cpu.tick().unwrap();
    assert_eq!(cpu.regs.program_counter, pc);
    assert_eq!(cpu.hardware.regs.cpu_action & ACTION_IRQ, 0);
}

#[test]
fn vblank_nmi() {
    let mut cpu = Cpu::new(hardware(RomMode::LoRom, 0x8000));
    cpu.hardware.write_u8(at(0, 0x4200), 0x80);
    let mut steps = 0;
    while !cpu.hardware.regs.vblank || cpu.hardware.ppu.position.v != 225 {
        cpu.tick().unwrap();
        steps += 1;
        assert!(steps < 400_000);
    }
    assert!(cpu.hardware.regs.nmi_active);
    assert_eq!(cpu.hardware.read_u8(at(0, 0x4210)), 0x82);
    assert_eq!(cpu.hardware.read_u8(at(0, 0x4210)), 0x02);
}

#[test]
fn routing_and_cycles() {
    let hw = hardware(RomMode::LoRom, 0x8000);
    let l = hw.byte_at(at(0x00, 0x0123));
    assert_eq!((l.port, l.offset, l.cycles), (Port::WorkRam, 0x0123, 8));
    let l = hw.byte_at(at(0x7F, 0x0001));
    assert_eq!((l.port, l.offset), (Port::WorkRam, 0x10001));
    let l = hw.byte_at(at(0x00, 0x2118));
    assert_eq!((l.port, l.offset, l.cycles), (Port::Ppu, 0x18, 6));
    let l = hw.byte_at(at(0x00, 0x2141));
    assert_eq!((l.port, l.offset), (Port::Apu, 1));
    let l = hw.byte_at(at(0x00, 0x2180));
    assert_eq!(l.port, Port::WramPort);
    let l = hw.byte_at(at(0x00, 0x4016));
    assert_eq!((l.port, l.offset, l.cycles), (Port::Joypad, 0x16, 12));
    let l = hw.byte_at(at(0x80, 0x4212));
    assert_eq!((l.port, l.offset, l.cycles), (Port::Regs, 0x12, 6));
    let l = hw.byte_at(at(0x00, 0x4325));
    assert_eq!((l.port, l.offset), (Port::Dma(2), 5));
    let l = hw.byte_at(at(0x01, 0x8005));
    assert_eq!((l.port, l.offset, l.cycles), (Port::Rom, 0x8005, 8));
    let l = hw.byte_at(at(0x70, 0x0010));
    assert_eq!((l.port, l.offset), (Port::Sram, 0x0010));
    let l = hw.byte_at(at(0x00, 0x6000));
    assert_eq!((l.port, l.cycles), (Port::OpenBus, 8));
    let l = hw.byte_at(at(0x40, 0x1000));
    assert_eq!((l.port, l.cycles), (Port::OpenBus, 6));
    let hi = hardware(RomMode::HiRom, 0x10000);
    let l = hi.byte_at(at(0xC1, 0x0002));
    assert_eq!((l.port, l.offset), (Port::Rom, 0x10002));
    let l = hi.byte_at(at(0x20, 0x6004));
    assert_eq!((l.port, l.offset), (Port::Sram, 0x0004));
}

#[test]
fn open_bus_reads_zero_and_drops_writes() {
    let mut hw = hardware(RomMode::LoRom, 0x8000);
    hw.write_u8(at(0x00, 0x6000), 0x55);
    assert_eq!(hw.read_u8(at(0x00, 0x6000)), 0);
    let before = hw.clock;
    hw.read_u8(at(0x00, 0x2000));
    assert_eq!(hw.clock - before, 6);
}

#[test]
fn multiplication_and_division() {
    let mut hw = hardware(RomMode::LoRom, 0x8000);
    hw.write_u8(at(0, 0x4202), 12);
    hw.write_u8(at(0, 0x4203), 34);
    assert_eq!(hw.read_u8(at(0, 0x4216)), (408 & 0xFF) as u8);
    assert_eq!(hw.read_u8(at(0, 0x4217)), (408 >> 8) as u8);
    hw.write_u8(at(0, 0x4204), 0x39);
    hw.write_u8(at(0, 0x4205), 0x30);
    hw.write_u8(at(0, 0x4206), 10);
    let q = 0x3039u16 / 10;
    let r = 0x3039u16 % 10;
    assert_eq!(hw.read_u8(at(0, 0x4214)), (q & 0xFF) as u8);
    assert_eq!(hw.read_u8(at(0, 0x4215)), (q >> 8) as u8);
    assert_eq!(hw.read_u8(at(0, 0x4216)), r as u8);
    hw.write_u8(at(0, 0x4206), 0);
    assert_eq!(hw.read_u8(at(0, 0x4214)), 0xFF);
    assert_eq!(hw.read_u8(at(0, 0x4215)), 0xFF);
    assert_eq!(hw.read_u8(at(0, 0x4216)), 0x39);
    assert_eq!(hw.read_u8(at(0, 0x4217)), 0x30);
}

#[test]
fn wram_port_auto_increments() {
    let mut hw = hardware(RomMode::LoRom, 0x8000);
    hw.write_u8(at(0, 0x2181), 0x10);
    hw.write_u8(at(0, 0x2182), 0x00);
    hw.write_u8(at(0, 0x2183), 0x01);
    hw.write_u8(at(0, 0x2180), 0xAA);
    hw.write_u8(at(0, 0x2180), 0xBB);
    assert_eq!(hw.wram.data.0[0x10010], 0xAA);
    assert_eq!(hw.wram.data.0[0x10011], 0xBB);
    assert_eq!(hw.read_u8(at(0x7F, 0x0011)), 0xBB);
}

#[test]
fn cgram_port() {
    let mut hw = hardware(RomMode::LoRom, 0x8000);
    hw.write_u8(at(0, 0x2121), 5);
    hw.write_u8(at(0, 0x2122), 0xFF);
    hw.write_u8(at(0, 0x2122), 0x7F);
    let c = hw.ppu.cgram.color(5);
    assert_eq!((c.red, c.green, c.blue), (31, 31, 31));
    hw.write_u8(at(0, 0x2121), 5);
    assert_eq!(hw.read_u8(at(0, 0x213B)), 0xFF);
    assert_eq!(hw.read_u8(at(0, 0x213B)), 0x7F);
}

#[test]
fn ppu_signed_multiply() {
    let mut hw = hardware(RomMode::LoRom, 0x8000);
    hw.write_u8(at(0, 0x211B), 0xFE);
    hw.write_u8(at(0, 0x211B), 0xFF);
    hw.write_u8(at(0, 0x211C), 3);
    // -2 * 3 = -6, as a 24-bit value
    assert_eq!(hw.read_u8(at(0, 0x2134)), 0xFA);
    assert_eq!(hw.read_u8(at(0, 0x2135)), 0xFF);
    assert_eq!(hw.read_u8(at(0, 0x2136)), 0xFF);
}

#[test]
fn joypad_serial_read() {
    let mut hw = hardware(RomMode::LoRom, 0x8000);
    hw.joypad.set_buttons(0, 0x8000 | 0x0080, true);
    hw.write_u8(at(0, 0x4016), 1);
    hw.write_u8(at(0, 0x4016), 0);
    assert_eq!(hw.read_u8(at(0, 0x4016)), 1);
    assert_eq!(hw.read_u8(at(0, 0x4016)), 0);
    for _ in 0..6 {
        hw.read_u8(at(0, 0x4016));
    }
    assert_eq!(hw.read_u8(at(0, 0x4016)), 1);
}

fn image(mode: RomMode, len: usize) -> Vec<u8> {
    let mut d = vec![0u8; len];
    let base = if mode == RomMode::LoRom { 0x7F00 } else { 0xFF00 };
    for i in 0xC0..0xD5 {
        d[base + i] = b'A';
    }
    d[base + 0xD5] = if mode == RomMode::HiRom { 0x21 } else { 0x20 };
    d[base + 0xD6] = 0x02;
    d[base + 0xD7] = 6;
    d[base + 0xD8] = 1;
    d[base + 0xFC] = 0x00;
    d[base + 0xFD] = 0x80;
    d
}

#[test]
fn rom_lorom_detected() {
    let rom = Rom::from_image(image(RomMode::LoRom, 0x10000)).unwrap();
    assert_eq!(rom.mode, RomMode::LoRom);
    assert_eq!(rom.data.0.len(), 0x10000);
    assert_eq!(rom.sram.0.len(), 0x800);
}

#[test]
fn rom_hirom_detected_after_copier_header() {
    let mut img = vec![0u8; 512];
    img.extend(image(RomMode::HiRom, 0x10000));
    let rom = Rom::from_image(img).unwrap();
    assert_eq!(rom.mode, RomMode::HiRom);
    assert_eq!(rom.data.0.len(), 0x10000);
}

#[test]
fn rom_bad_size_refused() {
    assert_eq!(Rom::from_image(vec![0u8; 1000]).err(), Some(RomError::InvalidSmcHeader(1000)));
}

#[test]
fn rom_without_header_refused() {
    assert_eq!(Rom::from_image(vec![0u8; 0x10000]).err(), Some(RomError::NoValidHeader));
}

#[test]
fn rom_score_counts_points() {
    let img = image(RomMode::LoRom, 0x10000);
    assert_eq!(snes::rom::score_header(&img, RomMode::LoRom), 4);
    assert_eq!(snes::rom::score_header(&img, RomMode::HiRom), 0);
}
