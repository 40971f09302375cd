use nes_emu::bus::{Bus, Mem};
use nes_emu::opcodes::{AddressingMode, Op, decode};
use nes_emu::flags::Flags;
use nes_emu::ppu::PPU;

fn bus_32k() -> Bus {
    let prg: Vec<u8> = (0..0x8000u32).map(|i| (i % 251) as u8).collect();
    Bus::new(PPU::new(), prg)
}

#[test]
fn ram_mirrors_read_back() {
    let mut bus = bus_32k();
    bus.mem_write(0x1923, 0xAB);
    for k in 0..4u16 {
        assert_eq!(bus.mem_read((0x1923 & 0x07FF) | (k * 0x0800)), 0xAB);
    }
    assert_eq!(bus.mem_read(0x0124), 0x00);
}

#[test]
fn prg_reads_repeat_and_ignore_writes() {
    let mut bus = bus_32k();
    let first = bus.mem_read(0x9ABC);
    assert_eq!(first, (0x1ABCu32 % 251) as u8);
    assert_eq!(bus.mem_read(0x9ABC), first);
    bus.mem_write(0x9ABC, first.wrapping_add(1));
    assert_eq!(bus.mem_read(0x9ABC), first);
}

#[test]
fn prg_16k_is_mirrored() {
    let prg: Vec<u8> = (0..0x4000u32).map(|i| (i % 253) as u8).collect();
    let bus = Bus::new(PPU::new(), prg);
    assert_eq!(bus.mem_read(0xC123), bus.mem_read(0x8123));
    assert_eq!(bus.mem_read(0xFFFF), (0x3FFFu32 % 253) as u8);
}

#[test]
fn open_bus_regions_read_ff() {
    let mut bus = bus_32k();
    assert_eq!(bus.mem_read(0x4000), 0xFF);
    assert_eq!(bus.mem_read(0x401F), 0xFF);
    assert_eq!(bus.mem_read(0x5000), 0xFF);
    bus.mem_write(0x6000, 0x12);
    assert_eq!(bus.mem_read(0x6000), 0xFF);
    bus.mem_write(0x4015, 0x12);
    assert_eq!(bus.mem_read(0x4015), 0xFF);
}

#[test]
fn word_access_little_endian() {
    let mut bus = bus_32k();
    bus.mem_write_16(0x0200, 0xBEEF);
    assert_eq!(bus.mem_read(0x0200), 0xEF);
    assert_eq!(bus.mem_read(0x0201), 0xBE);
    assert_eq!(bus.mem_read_16(0x0200), 0xBEEF);
    // the high byte of the top word comes from address 0
    bus.mem_write(0x0000, 0x12);
    let top = bus.mem_read_16(0xFFFF);
    assert_eq!(top, ((0x12u16) << 8) | bus.mem_read(0xFFFF) as u16);
}

#[test]
fn ppu_registers_are_mirrored() {
    let mut bus = bus_32k();
    bus.mem_write(0x3FF8, 0x80);
    assert_eq!(bus.ppu.control, 0x80);
    assert_eq!(bus.mem_read(0x2000), 0x80);
    bus.mem_write(0x2003, 0x05);
    bus.mem_write(0x200C, 0x77);
    assert_eq!(bus.ppu.oam_data[5], 0x77);
    assert_eq!(bus.mem_read(0x2004), 0x77);
}

#[test]
fn decode_table_rows() {
    let adc = decode(0x69);
    assert_eq!(adc.op, Op::Adc);
    assert_eq!(adc.mode, AddressingMode::Immediate);
    assert_eq!((adc.len, adc.cycles), (2, 2));
    let lda = decode(0xBD);
    assert_eq!(lda.op, Op::Lda);
    assert_eq!(lda.mode, AddressingMode::AbsoluteX);
    assert_eq!((lda.len, lda.cycles), (3, 4));
    let jsr = decode(0x20);
    assert_eq!(jsr.op, Op::Jsr);
    assert_eq!((jsr.len, jsr.cycles), (3, 6));
    let dcp = decode(0xD3);
    assert_eq!(dcp.op, Op::Dcp);
    assert_eq!(dcp.mode, AddressingMode::IndirectY);
    assert_eq!(dcp.cycles, 8);
    for code in 0..=255u8 {
        let row = decode(code);
        assert_eq!(row.code, code);
        assert!((1..=3).contains(&row.len));
        assert!((2..=8).contains(&row.cycles));
    }
}

#[test]
fn flags_bit_accessors() {
    let mut f = Flags::new();
    assert_eq!(f.bits, 0x24);
    assert!(f.interrupt() && f.uflag());
    assert!(!f.carry() && !f.zero() && !f.decimal() && !f.bflag() && !f.overflow() && !f.negative());
    f.set_carry(true);
    f.set_negative(true);
    f.set_overflow(true);
    assert_eq!(f.bits, 0xE5);
    f.set_int(false);
    f.set_uflag(false);
    assert_eq!(f.bits, 0xC1);
    f.set_bit(3, true);
    assert!(f.get_bit(3) && f.decimal());
    f.set_zero(true);
    f.set_bflag(true);
    f.set_decimal(false);
    assert_eq!(f.bits, 0xD3);
}
