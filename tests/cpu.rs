use nes_emu::bus::{Bus, Mem};
use nes_emu::cpu::CPU;
use nes_emu::opcodes::AddressingMode;
use nes_emu::ppu::PPU;

/// A CPU over a 32 KiB PRG image holding `code` at `$8000`, with the reset
/// vector pointing there.
fn machine(code: &[u8]) -> CPU {
    let mut prg = vec![0xEAu8; 0x8000];
    prg[..code.len()].copy_from_slice(code);
    prg[0x7FFC] = 0x00;
    prg[0x7FFD] = 0x80;
    let mut cpu = CPU::new(Bus::new(PPU::new(), prg));
    cpu.reset();
    cpu
}

fn machine_with(prg_bytes: &[(u16, u8)]) -> CPU {
    let mut prg = vec![0xEAu8; 0x8000];
    for &(addr, b) in prg_bytes {
        prg[(addr - 0x8000) as usize] = b;
    }
    prg[0x7FFC] = 0x00;
    prg[0x7FFD] = 0x80;
    let mut cpu = CPU::new(Bus::new(PPU::new(), prg));
    cpu.reset();
    cpu
}

#[test]
fn reset_loads_vector_and_registers() {
    let cpu = machine(&[]);
    assert_eq!(cpu.register_pc, 0x8000);
    assert_eq!(cpu.register_sp, 0xFD);
    assert_eq!(cpu.flags.bits, 0x24);
    assert_eq!(cpu.register_a, 0);
    assert_eq!(cpu.register_x, 0);
    assert_eq!(cpu.register_y, 0);
    assert_eq!(cpu.cycles, 0);
}

#[test]
fn adc_overflow_edge() {
    let mut cpu = machine(&[0x69, 0x50]);
    cpu.register_a = 0x50;
    cpu.flags.set_carry(false);
    cpu.step();
    assert_eq!(cpu.register_a, 0xA0);
    assert!(cpu.flags.negative());
    assert!(cpu.flags.overflow());
    assert!(!cpu.flags.carry());
    assert!(!cpu.flags.zero());
    assert_eq!(cpu.register_pc, 0x8002);
    assert_eq!(cpu.cycles, 2);
}

#[test]
fn adc_carry_out_and_zero() {
    let mut cpu = machine(&[0x69, 0x01]);
    cpu.register_a = 0xFF;
    cpu.flags.set_carry(false);
    cpu.step();
    assert_eq!(cpu.register_a, 0x00);
    assert!(cpu.flags.carry());
    assert!(cpu.flags.zero());
    assert!(!cpu.flags.overflow());
}

#[test]
fn sbc_underflow_edge() {
    // 0x50 - 0xF0 with no borrow: A + !M + C = 0x50 + 0x0F + 1.
    let mut cpu = machine(&[0xE9, 0xF0]);
    cpu.register_a = 0x50;
    cpu.flags.set_carry(true);
    cpu.step();
    assert_eq!(cpu.register_a, 0x60);
    assert!(!cpu.flags.negative());
    assert!(!cpu.flags.carry());
    assert!(!cpu.flags.zero());
    // signed 80 - (-16) = 96 fits, so the overflow formula leaves V clear
    assert!(!cpu.flags.overflow());
}

#[test]
fn sbc_signed_overflow() {
    // 0x50 - 0xB0: signed 80 - (-80) = 160 overflows.
    let mut cpu = machine(&[0xE9, 0xB0]);
    cpu.register_a = 0x50;
    cpu.flags.set_carry(true);
    cpu.step();
    assert_eq!(cpu.register_a, 0xA0);
    assert!(cpu.flags.overflow());
    assert!(cpu.flags.negative());
    assert!(!cpu.flags.carry());
}

#[test]
fn indirect_jmp_bug_in_rom() {
    let mut cpu = machine_with(&[(0x8000, 0x6C), (0x8001, 0xFF), (0x8002, 0x90), (0x90FF, 0x34), (0x9000, 0x12), (0x9100, 0x56)]);
    cpu.step();
    assert_eq!(cpu.register_pc, 0x1234);
    assert_eq!(cpu.cycles, 5);
}

#[test]
fn indirect_jmp_bug_through_ppu_window() {
    // $30FF mirrors the data port ($2007), $3000 the control register.
    let mut cpu = machine(&[0x6C, 0xFF, 0x30]);
    cpu.bus.ppu.vram[0] = 0x34;
    cpu.bus.ppu.addr = 0;
    cpu.bus.ppu.control = 0x12;
    cpu.step();
    assert_eq!(cpu.register_pc, 0x1234);
}

#[test]
fn indirect_jmp_bug_in_ram() {
    let mut cpu = machine(&[0x6C, 0xFF, 0x02]);
    cpu.mem_write(0x02FF, 0x34);
    cpu.mem_write(0x0200, 0x12);
    cpu.mem_write(0x0300, 0x56);
    cpu.step();
    assert_eq!(cpu.register_pc, 0x1234);
}

#[test]
fn indirect_jmp_within_page() {
    let mut cpu = machine(&[0x6C, 0x10, 0x02]);
    cpu.mem_write(0x0210, 0xCD);
    cpu.mem_write(0x0211, 0xAB);
    cpu.step();
    assert_eq!(cpu.register_pc, 0xABCD);
}

#[test]
fn branch_page_cross() {
    let mut cpu = machine_with(&[(0x80FD, 0xD0), (0x80FE, 0x04)]);
    cpu.register_pc = 0x80FD;
    cpu.flags.set_zero(false);
    cpu.step();
    assert_eq!(cpu.register_pc, 0x8103);
    assert_eq!(cpu.cycles, 4);
}

#[test]
fn branch_not_taken_costs_base() {
    let mut cpu = machine(&[0xD0, 0x04]);
    cpu.flags.set_zero(true);
    cpu.step();
    assert_eq!(cpu.register_pc, 0x8002);
    assert_eq!(cpu.cycles, 2);
}

#[test]
fn branch_taken_same_page_backwards() {
    let mut cpu = machine(&[0xEA, 0xEA, 0xF0, 0xFC]);
    cpu.register_pc = 0x8002;
    cpu.flags.set_zero(true);
    cpu.step();
    assert_eq!(cpu.register_pc, 0x8000);
    assert_eq!(cpu.cycles, 3);
}

#[test]
fn rti_stack_layout() {
    let mut cpu = machine(&[0x40]);
    cpu.mem_write(0x01FD, 0xF5);
    cpu.mem_write(0x01FE, 0xEF);
    cpu.mem_write(0x01FF, 0xBE);
    cpu.register_sp = 0xFC;
    cpu.step();
    assert_eq!(cpu.flags.bits, 0xE5);
    assert_eq!(cpu.register_pc, 0xBEEF);
    assert_eq!(cpu.register_sp, 0xFF);
}

#[test]
fn nmi_entry() {
    let mut cpu = machine_with(&[(0xFFFA, 0x00), (0xFFFB, 0xC0)]);
    assert_eq!(cpu.register_pc, 0x8000);
    assert_eq!(cpu.register_sp, 0xFD);
    assert_eq!(cpu.flags.bits, 0x24);
    let before = cpu.cycles;
    let dots = cpu.bus.ppu.cycles;
    cpu.trigger_nmi();
    assert_eq!(cpu.register_pc, 0xC000);
    assert_eq!(cpu.register_sp, 0xFA);
    assert!(cpu.flags.interrupt());
    assert_eq!(cpu.cycles, before + 7);
    assert_eq!(cpu.bus.ppu.cycles, dots + 21);
    // status pushed with Break clear and the unused bit set
    assert_eq!(cpu.mem_read(0x01FB), 0x24);
    assert_eq!(cpu.mem_read(0x01FC), 0x00);
    assert_eq!(cpu.mem_read(0x01FD), 0x80);
}

#[test]
fn php_plp_round_trip() {
    let mut cpu = machine(&[0x08, 0x28]);
    cpu.flags.bits = 0xD3;
    cpu.step();
    assert_eq!(cpu.mem_read(0x01FD), 0xF3);
    cpu.step();
    assert_eq!(cpu.flags.bits, 0xE3);
    assert_eq!(cpu.register_sp, 0xFD);
}

#[test]
fn pha_pla_round_trip() {
    let mut cpu = machine(&[0x48, 0xA9, 0x00, 0x68]);
    cpu.register_a = 0x9C;
    cpu.step();
    assert_eq!(cpu.register_sp, 0xFC);
    cpu.step();
    assert_eq!(cpu.register_a, 0);
    assert!(cpu.flags.zero());
    cpu.step();
    assert_eq!(cpu.register_a, 0x9C);
    assert_eq!(cpu.register_sp, 0xFD);
    assert!(cpu.flags.negative());
    assert!(!cpu.flags.zero());
}

#[test]
fn jsr_rts_round_trip() {
    let mut cpu = machine_with(&[(0x8000, 0x20), (0x8001, 0x00), (0x8002, 0x90), (0x9000, 0x60)]);
    cpu.step();
    assert_eq!(cpu.register_pc, 0x9000);
    assert_eq!(cpu.register_sp, 0xFB);
    assert_eq!(cpu.mem_read(0x01FD), 0x80);
    assert_eq!(cpu.mem_read(0x01FC), 0x02);
    assert_eq!(cpu.cycles, 6);
    cpu.step();
    assert_eq!(cpu.register_pc, 0x8003);
    assert_eq!(cpu.register_sp, 0xFD);
    assert_eq!(cpu.cycles, 12);
}

#[test]
fn brk_pushes_and_vectors() {
    let mut cpu = machine_with(&[(0x8000, 0x00), (0xFFFE, 0x34), (0xFFFF, 0x92)]);
    cpu.step();
    assert_eq!(cpu.register_pc, 0x9234);
    assert_eq!(cpu.mem_read(0x01FD), 0x80);
    assert_eq!(cpu.mem_read(0x01FC), 0x02);
    assert_eq!(cpu.mem_read(0x01FB), 0x34);
    assert!(cpu.flags.interrupt());
    assert_eq!(cpu.register_sp, 0xFA);
    assert_eq!(cpu.cycles, 7);
}

#[test]
fn page_cross_penalty_on_reads_only() {
    // LDA $80FF,X with X=1 crosses into $8100.
    let mut cpu = machine_with(&[(0x8000, 0xBD), (0x8001, 0xFF), (0x8002, 0x80), (0x8100, 0x42)]);
    cpu.register_x = 1;
    cpu.step();
    assert_eq!(cpu.register_a, 0x42);
    assert_eq!(cpu.cycles, 5);
    // STA $02FF,X with X=1 crosses too but costs its base five cycles.
    let mut cpu = machine(&[0x9D, 0xFF, 0x02]);
    cpu.register_x = 1;
    cpu.register_a = 0x77;
    cpu.step();
    assert_eq!(cpu.mem_read(0x0300), 0x77);
    assert_eq!(cpu.cycles, 5);
    // LDA $0200,X without crossing: four cycles.
    let mut cpu = machine(&[0xBD, 0x00, 0x02]);
    cpu.register_x = 1;
    cpu.step();
    assert_eq!(cpu.cycles, 4);
}

#[test]
fn indirect_y_crossing() {
    let mut cpu = machine(&[0xB1, 0x10]);
    cpu.mem_write(0x0010, 0xFF);
    cpu.mem_write(0x0011, 0x02);
    cpu.mem_write(0x0301, 0x5A);
    cpu.register_y = 2;
    cpu.step();
    assert_eq!(cpu.register_a, 0x5A);
    assert_eq!(cpu.cycles, 6);
}

#[test]
fn indirect_x_wraps_in_zero_page() {
    let mut cpu = machine(&[0xA1, 0xFE]);
    cpu.register_x = 1;
    cpu.mem_write(0x00FF, 0x34);
    cpu.mem_write(0x0000, 0x02);
    cpu.mem_write(0x0234, 0x99);
    cpu.step();
    assert_eq!(cpu.register_a, 0x99);
    assert_eq!(cpu.cycles, 6);
}

#[test]
fn zero_page_x_wraps() {
    let mut cpu = machine(&[0xB5, 0xF0]);
    cpu.register_x = 0x20;
    cpu.mem_write(0x0010, 0x11);
    cpu.step();
    assert_eq!(cpu.register_a, 0x11);
}

#[test]
fn compare_sets_carry_and_flags() {
    let mut cpu = machine(&[0xC9, 0x10, 0xC9, 0x30, 0xE0, 0x05]);
    cpu.register_a = 0x20;
    cpu.register_x = 0x05;
    cpu.step();
    assert!(cpu.flags.carry());
    assert!(!cpu.flags.zero());
    assert!(!cpu.flags.negative());
    cpu.step();
    assert!(!cpu.flags.carry());
    assert!(cpu.flags.negative());
    cpu.step();
    assert!(cpu.flags.carry());
    assert!(cpu.flags.zero());
}

#[test]
fn shifts_and_rotates() {
    let mut cpu = machine(&[0x0A, 0x2A, 0x4A, 0x6A]);
    cpu.register_a = 0x81;
    cpu.flags.set_carry(false);
    cpu.step(); // ASL: 0x02, C=1
    assert_eq!(cpu.register_a, 0x02);
    assert!(cpu.flags.carry());
    cpu.step(); // ROL: 0x05, C=0
    assert_eq!(cpu.register_a, 0x05);
    assert!(!cpu.flags.carry());
    cpu.step(); // LSR: 0x02, C=1
    assert_eq!(cpu.register_a, 0x02);
    assert!(cpu.flags.carry());
    cpu.step(); // ROR: 0x81, C=0
    assert_eq!(cpu.register_a, 0x81);
    assert!(!cpu.flags.carry());
    assert!(cpu.flags.negative());
}

#[test]
fn memory_read_modify_write() {
    let mut cpu = machine(&[0xE6, 0x10, 0xC6, 0x11, 0x06, 0x12]);
    cpu.mem_write(0x0010, 0xFF);
    cpu.mem_write(0x0011, 0x01);
    cpu.mem_write(0x0012, 0xC0);
    cpu.step();
    assert_eq!(cpu.mem_read(0x0010), 0x00);
    assert!(cpu.flags.zero());
    cpu.step();
    assert_eq!(cpu.mem_read(0x0011), 0x00);
    cpu.step();
    assert_eq!(cpu.mem_read(0x0012), 0x80);
    assert!(cpu.flags.carry());
    assert!(cpu.flags.negative());
    assert_eq!(cpu.cycles, 15);
}

#[test]
fn bit_test_flags() {
    let mut cpu = machine(&[0x24, 0x10]);
    cpu.mem_write(0x0010, 0xC0);
    cpu.register_a = 0x01;
    cpu.step();
    assert!(cpu.flags.zero());
    assert!(cpu.flags.negative());
    assert!(cpu.flags.overflow());
}

#[test]
fn transfers_and_counters() {
    let mut cpu = machine(&[0xAA, 0xE8, 0xCA, 0xCA, 0x9A, 0xBA, 0x88]);
    cpu.register_a = 0x00;
    cpu.step(); // TAX
    assert_eq!(cpu.register_x, 0);
    assert!(cpu.flags.zero());
    cpu.step(); // INX
    assert_eq!(cpu.register_x, 1);
    cpu.step(); // DEX
    cpu.step(); // DEX wraps
    assert_eq!(cpu.register_x, 0xFF);
    assert!(cpu.flags.negative());
    cpu.step(); // TXS
    assert_eq!(cpu.register_sp, 0xFF);
    cpu.step(); // TSX
    assert_eq!(cpu.register_x, 0xFF);
    cpu.step(); // DEY wraps
    assert_eq!(cpu.register_y, 0xFF);
}

#[test]
fn flag_instructions() {
    let mut cpu = machine(&[0x38, 0xF8, 0x78, 0x18, 0xD8, 0x58, 0xB8]);
    cpu.flags.set_overflow(true);
    cpu.step();
    cpu.step();
    cpu.step();
    assert!(cpu.flags.carry() && cpu.flags.decimal() && cpu.flags.interrupt());
    cpu.step();
    cpu.step();
    cpu.step();
    cpu.step();
    assert!(!cpu.flags.carry() && !cpu.flags.decimal() && !cpu.flags.interrupt());
    assert!(!cpu.flags.overflow());
}

#[test]
fn unofficial_lax_and_sax() {
    let mut cpu = machine(&[0xA7, 0x10, 0x87, 0x11]);
    cpu.mem_write(0x0010, 0x8F);
    cpu.step();
    assert_eq!(cpu.register_a, 0x8F);
    assert_eq!(cpu.register_x, 0x8F);
    assert!(cpu.flags.negative());
    cpu.register_x = 0x0F;
    cpu.register_a = 0xF3;
    cpu.step();
    assert_eq!(cpu.mem_read(0x0011), 0x03);
}

#[test]
fn unofficial_dcp_and_isb() {
    let mut cpu = machine(&[0xC7, 0x10, 0xE7, 0x11]);
    cpu.mem_write(0x0010, 0x06);
    cpu.register_a = 0x05;
    cpu.step();
    assert_eq!(cpu.mem_read(0x0010), 0x05);
    assert!(cpu.flags.zero());
    assert!(cpu.flags.carry());
    cpu.mem_write(0x0011, 0x01);
    cpu.register_a = 0x10;
    cpu.flags.set_carry(true);
    cpu.step();
    assert_eq!(cpu.mem_read(0x0011), 0x02);
    assert_eq!(cpu.register_a, 0x0E);
    assert!(cpu.flags.carry());
    assert_eq!(cpu.cycles, 10);
}

#[test]
fn unofficial_slo_rla_sre_rra() {
    let mut cpu = machine(&[0x07, 0x10, 0x27, 0x11, 0x47, 0x12, 0x67, 0x13]);
    cpu.mem_write(0x0010, 0x81);
    cpu.register_a = 0x01;
    cpu.step(); // SLO: mem 0x02, A = 0x03
    assert_eq!(cpu.mem_read(0x0010), 0x02);
    assert_eq!(cpu.register_a, 0x03);
    assert!(cpu.flags.carry());
    cpu.mem_write(0x0011, 0x01);
    cpu.step(); // RLA: mem 0x03 (carry in), A = 0x03
    assert_eq!(cpu.mem_read(0x0011), 0x03);
    assert_eq!(cpu.register_a, 0x03);
    cpu.mem_write(0x0012, 0x02);
    cpu.step(); // SRE: mem 0x01, A = 0x02
    assert_eq!(cpu.mem_read(0x0012), 0x01);
    assert_eq!(cpu.register_a, 0x02);
    cpu.mem_write(0x0013, 0x04);
    cpu.flags.set_carry(false);
    cpu.step(); // RRA: mem 0x02, A = 0x04
    assert_eq!(cpu.mem_read(0x0013), 0x02);
    assert_eq!(cpu.register_a, 0x04);
}

#[test]
fn unofficial_nops_skip_operands() {
    let mut cpu = machine(&[0x1A, 0x80, 0x55, 0x04, 0x10, 0x0C, 0x00, 0x02, 0xEB, 0x01]);
    cpu.register_a = 0x10;
    cpu.flags.set_carry(true);
    cpu.step();
    assert_eq!(cpu.register_pc, 0x8001);
    cpu.step();
    assert_eq!(cpu.register_pc, 0x8003);
    cpu.step();
    assert_eq!(cpu.register_pc, 0x8005);
    cpu.step();
    assert_eq!(cpu.register_pc, 0x8008);
    assert_eq!(cpu.cycles, 2 + 2 + 3 + 4);
    cpu.step(); // SBC #$01 (0xEB)
    assert_eq!(cpu.register_a, 0x0F);
}

#[test]
fn unofficial_immediates() {
    let mut cpu = machine(&[0x0B, 0x80, 0x4B, 0x03, 0xCB, 0x01]);
    cpu.register_a = 0xF0;
    cpu.step(); // ANC: A = 0x80, C = N = 1
    assert_eq!(cpu.register_a, 0x80);
    assert!(cpu.flags.carry());
    cpu.register_a = 0x07;
    cpu.step(); // ALR: A = (7 & 3) >> 1 = 1, C = 1
    assert_eq!(cpu.register_a, 0x01);
    assert!(cpu.flags.carry());
    cpu.register_a = 0x0F;
    cpu.register_x = 0x03;
    cpu.step(); // AXS: X = (A & X) - 1 = 2
    assert_eq!(cpu.register_x, 0x02);
    assert!(cpu.flags.carry());
}

#[test]
fn stack_pointer_wraps() {
    let mut cpu = machine(&[0x48, 0x68]);
    cpu.register_sp = 0x00;
    cpu.register_a = 0x3C;
    cpu.step();
    assert_eq!(cpu.register_sp, 0xFF);
    assert_eq!(cpu.mem_read(0x0100), 0x3C);
    cpu.step();
    assert_eq!(cpu.register_sp, 0x00);
    assert_eq!(cpu.register_a, 0x3C);
}

#[test]
fn ppu_runs_three_dots_per_cycle() {
    let mut cpu = machine(&[0xEA, 0xAD, 0x00, 0x02]);
    let start = cpu.bus.ppu.cycles;
    cpu.step();
    assert_eq!(cpu.bus.ppu.cycles, start + 6);
    cpu.step();
    assert_eq!(cpu.bus.ppu.cycles, start + 6 + 12);
}

#[test]
fn absolute_address_resolution() {
    let mut cpu = machine(&[]);
    cpu.mem_write(0x0000, 0x10);
    cpu.mem_write(0x0010, 0xFF);
    cpu.mem_write(0x0011, 0x02);
    cpu.register_y = 1;
    let before = cpu.cycles;
    let addr = cpu.get_absolute_address(&AddressingMode::IndirectY, 0x0000, false);
    assert_eq!(addr, 0x0300);
    assert_eq!(cpu.cycles, before);
    let addr = cpu.get_absolute_address(&AddressingMode::IndirectY, 0x0000, true);
    assert_eq!(addr, 0x0300);
    assert_eq!(cpu.cycles, before + 1);
    let addr = cpu.get_absolute_address(&AddressingMode::ZeroPageY, 0x0000, true);
    assert_eq!(addr, 0x0011);
    let addr = cpu.get_absolute_address(&AddressingMode::Absolute, 0x0010, true);
    assert_eq!(addr, 0x02FF);
    assert_eq!(cpu.cycles, before + 1);
}
