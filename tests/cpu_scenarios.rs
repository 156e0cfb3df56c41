use snes::address::HardwareAddress;
use snes::apu::Apu;
use snes::cpu::{Cpu, CpuError};
use snes::hardware::Hardware;
use snes::joypad::Joypad;
use snes::ppu::Ppu;
use snes::register::ProcessorState;
use snes::rom::{DataBus, Rom, RomMode, SramBus};
use snes::wram::Wram;

fn machine(code: &[u8]) -> Cpu {
    let mut data = vec![0xEAu8; 0x8000];
    data[..code.len()].copy_from_slice(code);
    data[0x7FFC] = 0x00;
    data[0x7FFD] = 0x80;
    data[0x7FFE] = 0x00;
    data[0x7FFF] = 0x90;
    let rom = Rom { mode: RomMode::LoRom, data: DataBus(data), sram: SramBus(vec![]) };
    let hardware = Hardware::new(rom, Wram::new(), Ppu::new(), Apu::new(), Joypad::new());
    Cpu::new(hardware)
}

fn native(cpu: &mut Cpu) {
    cpu.flags.emulation_mode = false;
}

#[test]
fn reset_state() {
    let cpu = machine(&[]);
    assert_eq!(cpu.regs.program_counter, 0x8000);
    assert_eq!(cpu.regs.program_bank, 0x00);
    assert!(cpu.flags.emulation_mode);
    assert!(cpu.flags.memory_size);
    assert!(cpu.flags.index_size);
    assert!(cpu.flags.interrupt_disable);
    assert_eq!(cpu.regs.stack_pointer, 0x0000);
}

#[test]
fn lda_immediate_8_bit() {
    let mut cpu = machine(&[0xA9, 0x7F]);
    cpu.regs.accumulator = 0x00FF;
    let before = cpu.hardware.clock;
    cpu.tick().unwrap();
    assert_eq!(cpu.regs.accumulator & 0xFF, 0x7F);
    assert_eq!(cpu.regs.accumulator >> 8, 0x00);
    assert!(!cpu.flags.negative);
    assert!(!cpu.flags.zero);
    // Two bytes fetched from ROM, each on the 8-cycle path.
    assert_eq!(cpu.hardware.clock - before, 16);
    assert_eq!(cpu.regs.program_counter, 0x8002);
}

#[test]
fn lda_immediate_keeps_high_byte() {
    let mut cpu = machine(&[0xA9, 0x00]);
    cpu.regs.accumulator = 0x12FF;
    cpu.tick().unwrap();
    assert_eq!(cpu.regs.accumulator, 0x1200);
    assert!(cpu.flags.zero);
}

#[test]
fn adc_with_overflow() {
    let mut cpu = machine(&[0x69, 0x50]);
    cpu.flags.carry = false;
    cpu.flags.decimal_mode = false;
    cpu.regs.accumulator = 0x0050;
    cpu.tick().unwrap();
    assert_eq!(cpu.regs.accumulator & 0xFF, 0xA0);
    assert!(cpu.flags.negative);
    assert!(cpu.flags.overflow);
    assert!(!cpu.flags.carry);
    assert!(!cpu.flags.zero);
}

#[test]
fn adc_carry_out_with_carry_in() {
    let mut cpu = machine(&[0x69, 0xFF]);
    cpu.flags.carry = true;
    cpu.regs.accumulator = 0x0010;
    cpu.tick().unwrap();
    assert_eq!(cpu.regs.accumulator & 0xFF, 0x10);
    assert!(cpu.flags.carry);
}

#[test]
fn adc_decimal_mode_is_refused() {
    let mut cpu = machine(&[0x69, 0x01]);
    cpu.flags.decimal_mode = true;
    assert_eq!(cpu.tick(), Err(CpuError::DecimalMode));
}

#[test]
fn sbc_decimal_mode_is_refused() {
    let mut cpu = machine(&[0xE9, 0x01]);
    cpu.flags.decimal_mode = true;
    assert_eq!(cpu.tick(), Err(CpuError::DecimalMode));
}

#[test]
fn adc_then_sbc_round_trip() {
    for &(a, b) in &[(0x50u16, 0x50u16), (0x00, 0xFF), (0x7F, 0x01), (0xC3, 0x9A)] {
        let mut cpu = machine(&[0x18, 0x69, b as u8, 0x38, 0xE9, b as u8]);
        cpu.regs.accumulator = a;
        for _ in 0..4 {
            cpu.tick().unwrap();
        }
        assert_eq!(cpu.regs.accumulator & 0xFF, a);
        assert_eq!(cpu.flags.zero, a == 0);
        assert_eq!(cpu.flags.negative, a & 0x80 != 0);
    }
}

#[test]
fn branch_not_taken() {
    let mut cpu = machine(&[0xF0, 0x02]);
    cpu.flags.zero = false;
    let before = cpu.hardware.clock;
    cpu.tick().unwrap();
    assert_eq!(cpu.regs.program_counter, 0x8002);
    assert_eq!(cpu.hardware.clock - before, 16);
}

#[test]
fn branch_taken() {
    let mut cpu = machine(&[0xF0, 0x02]);
    cpu.flags.zero = true;
    let before = cpu.hardware.clock;
    cpu.tick().unwrap();
    assert_eq!(cpu.regs.program_counter, 0x8004);
    assert_eq!(cpu.hardware.clock - before, 16 + 6);
}

#[test]
fn branch_backwards() {
    let mut cpu = machine(&[0x80, 0xFE]);
    cpu.tick().unwrap();
    assert_eq!(cpu.regs.program_counter, 0x8000);
}

#[test]
fn processor_state_round_trip() {
    for emulation in [false, true] {
        for b in 0..=255u8 {
            let mut cpu = machine(&[]);
            cpu.flags.emulation_mode = emulation;
            cpu.write_processor_state(b);
            assert_eq!(ProcessorState::get(&cpu.flags), b);
        }
    }
}

#[test]
fn php_plp_round_trip() {
    let mut cpu = machine(&[0x08, 0x28]);
    native(&mut cpu);
    cpu.regs.stack_pointer = 0x01FF;
    cpu.write_processor_state(0xC3);
    cpu.tick().unwrap();
    cpu.write_processor_state(0x00);
    cpu.tick().unwrap();
    assert_eq!(ProcessorState::get(&cpu.flags), 0xC3);
    assert_eq!(cpu.regs.stack_pointer, 0x01FF);
}

#[test]
fn xce_into_emulation() {
    let mut cpu = machine(&[0xFB]);
    native(&mut cpu);
    cpu.flags.memory_size = false;
    cpu.flags.index_size = false;
    cpu.regs.index_x = 0x1234;
    cpu.regs.index_y = 0xABCD;
    cpu.flags.carry = true;
    cpu.tick().unwrap();
    assert!(cpu.flags.emulation_mode);
    assert!(!cpu.flags.carry);
    assert!(cpu.flags.memory_size);
    assert!(cpu.flags.index_size);
    assert_eq!(cpu.regs.index_x, 0x34);
    assert_eq!(cpu.regs.index_y, 0xCD);
}

#[test]
fn sep_index_bit_clears_high_bytes() {
    let mut cpu = machine(&[0xE2, 0x10]);
    native(&mut cpu);
    cpu.flags.index_size = false;
    cpu.regs.index_x = 0x1234;
    cpu.regs.index_y = 0x5678;
    cpu.tick().unwrap();
    assert!(cpu.flags.index_size);
    assert_eq!(cpu.regs.index_x, 0x0034);
    assert_eq!(cpu.regs.index_y, 0x0078);
}

#[test]
fn rep_clears_bits() {
    let mut cpu = machine(&[0xC2, 0x30]);
    native(&mut cpu);
    cpu.tick().unwrap();
    assert!(!cpu.flags.memory_size);
    assert!(!cpu.flags.index_size);
}

#[test]
fn push_pull_keeps_stack_pointer() {
    let mut cpu = machine(&[0x48, 0x68]);
    cpu.regs.stack_pointer = 0x01FF;
    cpu.regs.accumulator = 0x0042;
    cpu.tick().unwrap();
    assert_eq!(cpu.regs.stack_pointer, 0x01FE);
    cpu.regs.accumulator = 0;
    cpu.tick().unwrap();
    assert_eq!(cpu.regs.stack_pointer, 0x01FF);
    assert_eq!(cpu.regs.accumulator, 0x0042);
}

#[test]
fn jsr_rts_balanced() {
    // JSR $8010; at $8010: RTS
    let mut code = vec![0xEAu8; 0x20];
    code[0] = 0x20;
    code[1] = 0x10;
    code[2] = 0x80;
    code[0x10] = 0x60;
    let mut cpu = machine(&code);
    cpu.regs.stack_pointer = 0x01FF;
    cpu.tick().unwrap();
    assert_eq!(cpu.regs.program_counter, 0x8010);
    assert_eq!(cpu.regs.stack_pointer, 0x01FD);
    cpu.tick().unwrap();
    assert_eq!(cpu.regs.program_counter, 0x8003);
    assert_eq!(cpu.regs.stack_pointer, 0x01FF);
}

#[test]
fn jsl_rtl_balanced() {
    let mut code = vec![0xEAu8; 0x20];
    code[0] = 0x22;
    code[1] = 0x10;
    code[2] = 0x80;
    code[3] = 0x00;
    code[0x10] = 0x6B;
    let mut cpu = machine(&code);
    cpu.regs.stack_pointer = 0x01FF;
    cpu.tick().unwrap();
    assert_eq!(cpu.regs.program_counter, 0x8010);
    assert_eq!(cpu.regs.stack_pointer, 0x01FC);
    cpu.tick().unwrap();
    assert_eq!(cpu.regs.program_counter, 0x8004);
    assert_eq!(cpu.regs.program_bank, 0x00);
    assert_eq!(cpu.regs.stack_pointer, 0x01FF);
}

#[test]
fn brk_rti_balanced() {
    // BRK with signature; handler at $9000 is RTI.
    let mut data_code = vec![0xEAu8; 0x1010];
    data_code[0] = 0x00;
    data_code[1] = 0x55;
    data_code[0x1000] = 0x40;
    let mut cpu = machine(&data_code);
    cpu.regs.stack_pointer = 0x01FF;
    cpu.flags.interrupt_disable = false;
    cpu.tick().unwrap();
    assert_eq!(cpu.regs.program_counter, 0x9000);
    assert_eq!(cpu.regs.stack_pointer, 0x01FC);
    assert!(cpu.flags.interrupt_disable);
    assert!(cpu.flags.break_flag);
    cpu.tick().unwrap();
    assert_eq!(cpu.regs.program_counter, 0x8002);
    assert_eq!(cpu.regs.stack_pointer, 0x01FF);
}

#[test]
fn nop_charges_at_least_six_cycles() {
    let mut cpu = machine(&[0xEA]);
    let before = cpu.hardware.clock;
    cpu.tick().unwrap();
    let charged = cpu.hardware.clock - before;
    assert!(charged >= 6);
    assert_eq!(charged, 8 + 6);
}

#[test]
fn identical_runs_agree() {
    let code = [0xA9, 0x12, 0x69, 0x34, 0x8D, 0x00, 0x10, 0xE8, 0xC8, 0x48];
    let mut a = machine(&code);
    let mut b = machine(&code);
    for _ in 0..6 {
        a.tick().unwrap();
        b.tick().unwrap();
    }
    assert_eq!(a.regs, b.regs);
    assert_eq!(a.flags, b.flags);
    assert_eq!(a.hardware.clock, b.hardware.clock);
    assert_eq!(a.hardware.wram.data.0, b.hardware.wram.data.0);
}

#[test]
fn sta_absolute_writes_work_ram() {
    let mut cpu = machine(&[0xA9, 0x5A, 0x8D, 0x34, 0x12]);
    cpu.tick().unwrap();
    cpu.tick().unwrap();
    assert_eq!(cpu.hardware.wram.data.0[0x1234], 0x5A);
}

#[test]
fn xba_swaps() {
    let mut cpu = machine(&[0xEB]);
    cpu.regs.accumulator = 0x1280;
    cpu.tick().unwrap();
    assert_eq!(cpu.regs.accumulator, 0x8012);
    assert!(cpu.flags.negative);
}

#[test]
fn mvn_moves_block() {
    // MVN dst=$7E src=$7E repeated until A wraps.
    let mut cpu = machine(&[0x54, 0x7E, 0x7E]);
    cpu.hardware.wram.data.0[0x0100] = 0xAB;
    cpu.hardware.wram.data.0[0x0101] = 0xCD;
    native(&mut cpu);
    cpu.flags.index_size = false;
    cpu.regs.index_x = 0x0100;
    cpu.regs.index_y = 0x0200;
    cpu.regs.accumulator = 0x0001;
    cpu.tick().unwrap();
    assert_eq!(cpu.regs.program_counter, 0x8000);
    cpu.tick().unwrap();
    assert_eq!(cpu.regs.program_counter, 0x8003);
    assert_eq!(cpu.regs.accumulator, 0xFFFF);
    assert_eq!(cpu.hardware.wram.data.0[0x0200], 0xAB);
    assert_eq!(cpu.hardware.wram.data.0[0x0201], 0xCD);
    assert_eq!(cpu.regs.index_x, 0x0102);
    assert_eq!(cpu.regs.index_y, 0x0202);
}

#[test]
fn stp_halts() {
    let mut cpu = machine(&[0xDB, 0xA9, 0x01]);
    cpu.tick().unwrap();
    let pc = cpu.regs.program_counter;
    cpu.tick().unwrap();
    assert_eq!(cpu.regs.program_counter, pc);
}

#[test]
fn read_word_through_bus() {
    let mut cpu = machine(&[]);
    let w = cpu.hardware.read_u16(HardwareAddress::new(0x00, 0xFFFC));
    assert_eq!(w, 0x8000);
}

#[test]
fn unknown_request_is_refused() {
    let mut cpu = machine(&[]);
    cpu.hardware.regs.cpu_action = 0x01;
    assert_eq!(cpu.tick(), Err(CpuError::UnknownAction));
}

#[test]
fn xce_staying_native_keeps_widths() {
    let mut cpu = machine(&[0xFB]);
    native(&mut cpu);
    cpu.flags.carry = false;
    cpu.flags.memory_size = false;
    cpu.flags.index_size = false;
    cpu.regs.index_x = 0x1234;
    let before = cpu.hardware.clock;
    cpu.tick().unwrap();
    assert!(!cpu.flags.emulation_mode);
    assert!(!cpu.flags.memory_size);
    assert!(!cpu.flags.index_size);
    assert_eq!(cpu.regs.index_x, 0x1234);
    assert_eq!(cpu.hardware.clock - before, 8 + 6);
}

#[test]
fn push_word_writes_stack_bytes() {
    let mut cpu = machine(&[0xF4, 0x34, 0x12]);
    cpu.regs.stack_pointer = 0x01FF;
    cpu.tick().unwrap();
    assert_eq!(cpu.hardware.wram.data.0[0x01FE], 0x34);
    assert_eq!(cpu.hardware.wram.data.0[0x01FF], 0x12);
    assert_eq!(cpu.regs.stack_pointer, 0x01FD);
}

#[test]
fn inc_memory_writes_back() {
    let mut cpu = machine(&[0xEE, 0x00, 0x03]);
    cpu.hardware.wram.data.0[0x0300] = 0x7F;
    cpu.tick().unwrap();
    assert_eq!(cpu.hardware.wram.data.0[0x0300], 0x80);
    assert!(cpu.flags.negative);
}
