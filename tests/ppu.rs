use nes_emu::ppu::PPU;

fn run(ppu: &mut PPU, dots: usize) {
    for _ in 0..dots {
        ppu.step();
    }
}

#[test]
fn vblank_raises_nmi_when_enabled() {
    let mut ppu = PPU::new();
    ppu.write_register(0x2000, 0x80);
    // from line 0 dot 0 to line 241 dot 1
    run(&mut ppu, 241 * 341 + 1);
    assert_eq!(ppu.scanline, 241);
    assert_eq!(ppu.cycles, 1);
    assert_eq!(ppu.status & 0x80, 0x80);
    assert!(ppu.nmi_triggered);
    assert_eq!(ppu.read_register(0x2002) & 0x80, 0x80);
}

#[test]
fn vblank_without_nmi_enable() {
    let mut ppu = PPU::new();
    run(&mut ppu, 241 * 341 + 1);
    assert_eq!(ppu.status & 0x80, 0x80);
    assert!(!ppu.nmi_triggered);
}

#[test]
fn vblank_clears_on_pre_render_line() {
    let mut ppu = PPU::new();
    run(&mut ppu, 262 * 341 + 1);
    assert_eq!(ppu.scanline, -1);
    assert_eq!(ppu.cycles, 1);
    assert_eq!(ppu.frame, 1);
    assert!(ppu.is_new_frame);
    assert_eq!(ppu.status & 0x80, 0);
}

#[test]
fn dot_and_line_counters_wrap() {
    let mut ppu = PPU::new();
    run(&mut ppu, 340);
    assert_eq!((ppu.scanline, ppu.cycles), (0, 340));
    ppu.step();
    assert_eq!((ppu.scanline, ppu.cycles), (1, 0));
}

#[test]
fn address_port_and_data_port() {
    let mut ppu = PPU::new();
    ppu.write_register(0x2006, 0x21);
    ppu.write_register(0x2006, 0x08);
    assert_eq!(ppu.vram_addr, 0x2108);
    assert_eq!(ppu.temp_addr, 0x2108);
    ppu.write_register(0x2007, 0x55);
    assert_eq!(ppu.vram[0], 0x55);
    assert_eq!(ppu.addr, 1);
    ppu.write_register(0x2000, 0x04);
    ppu.write_register(0x2007, 0x66);
    assert_eq!(ppu.vram[1], 0x66);
    assert_eq!(ppu.addr, 33);
    assert_eq!(ppu.read_register(0x2007), 0x00);
}

#[test]
fn scroll_port_writes() {
    let mut ppu = PPU::new();
    ppu.write_register(0x2005, 0x7D);
    assert_eq!(ppu.fine_x, 0x05);
    assert_eq!(ppu.temp_addr, 0x000F);
    ppu.write_register(0x2005, 0x5E);
    assert_eq!(ppu.temp_addr, 0x616F);
    assert!(!ppu.write_toggle);
}

#[test]
fn unknown_register_reads_zero() {
    let ppu = PPU::new();
    assert_eq!(ppu.read_register(0x2006), 0);
    assert_eq!(ppu.read_register(0x1234), 0);
}

#[test]
fn background_tile_paints_red() {
    let mut ppu = PPU::new();
    // Dot 1 moves coarse X to 1, so dot 2 fetches tile 0 from nametable
    // byte 1; its low plane row 0 is byte 0, whose leftmost column is
    // opaque.  The row is painted on dot 9, starting at x = 1.
    ppu.vram[0] = 0x80;
    run(&mut ppu, 16);
    assert_eq!(ppu.next_tile_id, 0x00);
    assert_eq!(ppu.next_tile_lsb, 0x80);
    assert_eq!(&ppu.framebuffer[0..3], &[0x00, 0x00, 0x00]);
    assert_eq!(&ppu.framebuffer[3..6], &[0xFF, 0x00, 0x00]);
    assert_eq!(&ppu.framebuffer[6..9], &[0x00, 0x00, 0x00]);
}
