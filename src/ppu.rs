use vstd::prelude::*;

verus! {

/// Width of the picture in pixels.
pub const WIDTH: usize = 256;

/// Height of the picture in pixels.
pub const HEIGHT: usize = 240;

/// Bytes in the RGB frame buffer.
pub const FRAME_BYTES: usize = 184320;

/// Bytes of nametable memory.
pub const VRAM_SIZE: usize = 0x800;

/// The abstract state of the picture processing unit.
pub struct PpuState {
    pub cycles: int,
    pub scanline: int,
    pub frame: usize,
    pub is_new_frame: bool,
    pub vram: Seq<u8>,
    pub palette_table: Seq<u8>,
    pub oam_data: Seq<u8>,
    pub framebuffer: Seq<u8>,
    pub control: u8,
    pub mask: u8,
    pub status: u8,
    pub oam_addr: u8,
    pub scroll: (u8, u8),
    pub addr: u16,
    pub addr_latch: bool,
    pub nmi_triggered: bool,
    pub vram_addr: u16,
    pub temp_addr: u16,
    pub fine_x: u8,
    pub write_toggle: bool,
    pub next_tile_id: u8,
    pub next_tile_attr: u8,
    pub next_tile_lsb: u8,
    pub next_tile_msb: u8,
}

/// Whether column `bit` (0 is leftmost) of a pattern row is opaque.
pub open spec fn pixel_lit(lsb: u8, msb: u8, bit: int) -> bool {
    (lsb >> ((7 - bit) as u8)) & 1 == 1 || (msb >> ((7 - bit) as u8)) & 1 == 1
}

/// The frame buffer after the first `n` columns of a tile row are painted:
/// each opaque pixel inside the picture turns red.
pub open spec fn paint_row(fb: Seq<u8>, lsb: u8, msb: u8, base: int, y: int, n: int) -> Seq<u8>
    decreases n,
{
    if n <= 0 {
        fb
    } else {
        let prev = paint_row(fb, lsb, msb, base, y, n - 1);
        let x = base + n - 1;
        if x < WIDTH && y < HEIGHT && pixel_lit(lsb, msb, n - 1) {
            let off = (y * WIDTH + x) * 3;
            prev.update(off, 0xFF).update(off + 1, 0).update(off + 2, 0)
        } else {
            prev
        }
    }
}

/// Next coarse-X position of a loopy VRAM address, wrapping into the
/// neighbouring nametable.
pub open spec fn coarse_x_next(v: u16) -> u16 {
    if v & 0x001F == 31 {
        (v & !0x001Fu16) ^ 0x0400
    } else {
        add16(v, 1)
    }
}

/// Next fine-Y/coarse-Y position of a loopy VRAM address.
pub open spec fn fine_y_next(v: u16) -> u16 {
    if v & 0x7000 != 0x7000 {
        add16(v, 0x1000)
    } else {
        let w = v & !0x7000u16;
        let y = (w & 0x03E0) >> 5;
        let (y2, w2) = if y == 29 {
            (0u16, w ^ 0x0800)
        } else if y == 31 {
            (0u16, w)
        } else {
            (add16(y, 1), w)
        };
        (w2 & !0x03E0u16) | (y2 << 5)
    }
}

/// Sum of two 16-bit values, modulo 2^16.
pub open spec fn add16(a: u16, b: u16) -> u16 {
    ((a + b) % 0x10000) as u16
}

/// `a + b` modulo 2^16.
pub fn wrap_add16(a: u16, b: u16) -> (r: u16)
    ensures
        r == add16(a, b),
{
    ((a as u32 + b as u32) % 0x10000) as u16
}

pub open spec fn visible_line(scanline: int) -> bool {
    0 <= scanline < 240
}

impl PpuState {
    pub open spec fn wf(self) -> bool {
        &&& self.sized()
        &&& 0 <= self.cycles <= 340
        &&& -1 <= self.scanline <= 261
    }

    /// Index into nametable memory for a 16-bit PPU address.
    pub open spec fn vram_at(self, a: u16) -> u8 {
        self.vram[a as int % VRAM_SIZE as int]
    }

    pub open spec fn fine_y(self) -> u16 {
        ((self.vram_addr / 0x1000) % 8) as u16
    }

    pub open spec fn pattern_base(self) -> int {
        (if self.control & 0x10 != 0 {
            0x1000int
        } else {
            0
        }) + self.next_tile_id * 16 + self.fine_y()
    }

    /// The background fetch or render work of the current dot of a visible
    /// line.
    pub open spec fn fetch_spec(self) -> PpuState {
        let v = self.vram_addr;
        let phase = (self.cycles - 1) % 8;
        if phase == 1 {
            PpuState { next_tile_id: self.vram_at(0x2000 | (v & 0x0FFF)), ..self }
        } else if phase == 3 {
            let a = 0x23C0 | (v & 0x0C00) | ((v >> 4) & 0x38) | ((v >> 2) & 0x07);
            PpuState { next_tile_attr: self.vram_at(a), ..self }
        } else if phase == 5 {
            PpuState { next_tile_lsb: self.vram_at(self.pattern_base() as u16), ..self }
        } else if phase == 7 {
            PpuState { next_tile_msb: self.vram_at((self.pattern_base() + 8) as u16), ..self }
        } else if phase == 0 {
            let base = if self.cycles >= 8 {
                self.cycles - 8
            } else {
                0
            };
            PpuState {
                framebuffer: paint_row(
                    self.framebuffer,
                    self.next_tile_lsb,
                    self.next_tile_msb,
                    base,
                    self.scanline,
                    8,
                ),
                vram_addr: coarse_x_next(v),
                ..self
            }
        } else {
            self
        }
    }

    /// Lengths of the memories, which never change.
    pub open spec fn sized(self) -> bool {
        &&& self.vram.len() == VRAM_SIZE
        &&& self.palette_table.len() == 32
        &&& self.oam_data.len() == 256
        &&& self.framebuffer.len() == FRAME_BYTES
    }

    /// The dot counter moves on; the pre-render line's first dot starts a
    /// fresh frame.
    pub open spec fn begin_dot(self) -> PpuState {
        let s = PpuState { cycles: self.cycles + 1, ..self };
        if s.scanline == -1 && s.cycles == 1 {
            PpuState {
                framebuffer: Seq::new(FRAME_BYTES as nat, |i: int| 0u8),
                is_new_frame: true,
                ..s
            }
        } else {
            s
        }
    }

    /// Background work of dots 1 to 256 of a visible line.
    pub open spec fn background(self) -> PpuState {
        if visible_line(self.scanline) && 1 <= self.cycles <= 256 {
            let f = self.fetch_spec();
            if f.cycles == 256 {
                let v = f.vram_addr;
                PpuState { vram_addr: (v & 0xFBE0) | (add16(v, 1) & 0x041F), ..f }
            } else {
                f
            }
        } else {
            self
        }
    }

    /// Past dot 340 the next line begins; past line 261 the next frame.
    pub open spec fn wrap_line(self) -> PpuState {
        if self.cycles > 340 {
            if self.scanline + 1 > 261 {
                PpuState {
                    cycles: 0,
                    scanline: -1,
                    frame: if self.frame == usize::MAX {
                        0
                    } else {
                        (self.frame + 1) as usize
                    },
                    ..self
                }
            } else {
                PpuState { cycles: 0, scanline: self.scanline + 1, ..self }
            }
        } else {
            self
        }
    }

    /// Scroll copies at dots 256 and 257, and the vertical-blank flag at
    /// dot 1 of lines 241 and -1.
    pub open spec fn line_events(self) -> PpuState {
        let render_line = visible_line(self.scanline) || self.scanline == -1;
        let after_y = if render_line && self.cycles == 256 {
            PpuState { vram_addr: fine_y_next(self.vram_addr), ..self }
        } else {
            self
        };
        let after_x = if render_line && after_y.cycles == 257 {
            PpuState { vram_addr: (after_y.vram_addr & 0x7BE0) | (after_y.temp_addr & 0x041F), ..after_y }
        } else {
            after_y
        };
        let after_vblank = if after_x.scanline == 241 && after_x.cycles == 1 {
            PpuState {
                status: after_x.status | 0x80,
                nmi_triggered: after_x.nmi_triggered || after_x.control & 0x80 != 0,
                ..after_x
            }
        } else {
            after_x
        };
        if after_vblank.scanline == -1 && after_vblank.cycles == 1 {
            PpuState { status: after_vblank.status & 0x7F, ..after_vblank }
        } else {
            after_vblank
        }
    }

    /// One PPU dot.
    pub open spec fn step_spec(self) -> PpuState {
        self.begin_dot().background().wrap_line().line_events()
    }

    /// `n` PPU dots in a row.
    #[verifier::opaque]
    pub open spec fn ticks(self, n: nat) -> PpuState
        decreases n,
    {
        if n == 0 {
            self
        } else {
            self.step_spec().ticks((n - 1) as nat)
        }
    }

    /// What a CPU read of register `addr` returns.
    pub open spec fn read_spec(self, addr: u16) -> u8 {
        if addr == 0x2000 {
            self.control
        } else if addr == 0x2001 {
            self.mask
        } else if addr == 0x2002 {
            self.status
        } else if addr == 0x2003 {
            self.oam_addr
        } else if addr == 0x2004 {
            self.oam_data[self.oam_addr as int]
        } else if addr == 0x2005 {
            if !self.addr_latch {
                self.scroll.0
            } else {
                self.scroll.1
            }
        } else if addr == 0x2007 {
            self.vram_at(self.addr)
        } else {
            0
        }
    }

    /// How far a data-port access moves the data address.
    pub open spec fn increment_spec(self) -> u16 {
        if self.control & 0b0000_0100 != 0 {
            32
        } else {
            1
        }
    }

    /// The state after a CPU write of `data` to register `addr`.
    pub open spec fn write_spec(self, addr: u16, data: u8) -> PpuState {
        let r = addr & 0x2007;
        if r == 0x2000 {
            PpuState { control: data, ..self }
        } else if r == 0x2001 {
            PpuState { mask: data, ..self }
        } else if r == 0x2003 {
            PpuState { oam_addr: data, ..self }
        } else if r == 0x2004 {
            PpuState { oam_data: self.oam_data.update(self.oam_addr as int, data), ..self }
        } else if r == 0x2005 {
            if !self.write_toggle {
                PpuState {
                    fine_x: data & 0x07,
                    temp_addr: (self.temp_addr & 0xFFE0) | ((data as u16) >> 3),
                    write_toggle: true,
                    ..self
                }
            } else {
                let t = (self.temp_addr & 0x8FFF) | (((data as u16) & 0x07) << 12);
                PpuState {
                    temp_addr: (t & 0xFC1F) | (((data as u16) & 0xF8) << 2),
                    write_toggle: false,
                    ..self
                }
            }
        } else if r == 0x2006 {
            if !self.write_toggle {
                PpuState {
                    temp_addr: (self.temp_addr & 0x00FF) | (((data & 0x3F) as u16) << 8),
                    write_toggle: true,
                    ..self
                }
            } else {
                let t = (self.temp_addr & 0xFF00) | (data as u16);
                PpuState { temp_addr: t, vram_addr: t, write_toggle: false, ..self }
            }
        } else if r == 0x2007 {
            PpuState {
                vram: self.vram.update(self.addr as int % VRAM_SIZE as int, data),
                addr: add16(self.addr, self.increment_spec()),
                ..self
            }
        } else {
            self
        }
    }
}

/// The picture processing unit: timing, registers and background fetch.
pub struct PPU {
    pub cycles: usize,
    pub scanline: isize,
    pub frame: usize,
    pub is_new_frame: bool,
    pub vram: Vec<u8>,
    pub palette_table: Vec<u8>,
    pub oam_data: Vec<u8>,
    pub framebuffer: Vec<u8>,
    pub control: u8,
    pub mask: u8,
    pub status: u8,
    pub oam_addr: u8,
    pub scroll: (u8, u8),
    pub addr: u16,
    pub addr_latch: bool,
    pub nmi_triggered: bool,
    pub vram_addr: u16,
    pub temp_addr: u16,
    pub fine_x: u8,
    pub write_toggle: bool,
    pub next_tile_id: u8,
    pub next_tile_attr: u8,
    pub next_tile_lsb: u8,
    pub next_tile_msb: u8,
}

impl View for PPU {
    type V = PpuState;

    open spec fn view(&self) -> PpuState {
        PpuState {
            cycles: self.cycles as int,
            scanline: self.scanline as int,
            frame: self.frame,
            is_new_frame: self.is_new_frame,
            vram: self.vram@,
            palette_table: self.palette_table@,
            oam_data: self.oam_data@,
            framebuffer: self.framebuffer@,
            control: self.control,
            mask: self.mask,
            status: self.status,
            oam_addr: self.oam_addr,
            scroll: self.scroll,
            addr: self.addr,
            addr_latch: self.addr_latch,
            nmi_triggered: self.nmi_triggered,
            vram_addr: self.vram_addr,
            temp_addr: self.temp_addr,
            fine_x: self.fine_x,
            write_toggle: self.write_toggle,
            next_tile_id: self.next_tile_id,
            next_tile_attr: self.next_tile_attr,
            next_tile_lsb: self.next_tile_lsb,
            next_tile_msb: self.next_tile_msb,
        }
    }
}

fn zeroed(n: usize) -> (r: Vec<u8>)
    ensures
        r@ == Seq::new(n as nat, |i: int| 0u8),
{
    let mut v: Vec<u8> = Vec::new();
    let mut i: usize = 0;
    while i < n
        invariant
            i <= n,
            v@ == Seq::new(i as nat, |k: int| 0u8),
        decreases n - i,
    {
        v.push(0);
        i = i + 1;
        assert(v@ =~= Seq::new(i as nat, |k: int| 0u8));
    }
    v
}

impl PPU {
    pub open spec fn wf(&self) -> bool {
        self@.wf()
    }

    /// A PPU at the top of line 0 with cleared memory and registers.
    pub fn new() -> (r: Self)
        ensures
            r.wf(),
            r@.cycles == 0,
            r@.scanline == 0,
            r@.frame == 0,
            !r@.is_new_frame,
            r@.vram == Seq::new(VRAM_SIZE as nat, |i: int| 0u8),
            r@.palette_table == Seq::new(32, |i: int| 0u8),
            r@.oam_data == Seq::new(256, |i: int| 0u8),
            r@.framebuffer == Seq::new(FRAME_BYTES as nat, |i: int| 0u8),
            r@.control == 0 && r@.mask == 0 && r@.status == 0 && r@.oam_addr == 0,
            r@.scroll == (0u8, 0u8),
            r@.addr == 0 && !r@.addr_latch && !r@.nmi_triggered,
            r@.vram_addr == 0 && r@.temp_addr == 0 && r@.fine_x == 0 && !r@.write_toggle,
            r@.next_tile_id == 0 && r@.next_tile_attr == 0,
            r@.next_tile_lsb == 0 && r@.next_tile_msb == 0,
    {
        PPU {
            cycles: 0,
            scanline: 0,
            frame: 0,
            is_new_frame: false,
            vram: zeroed(VRAM_SIZE),
            palette_table: zeroed(32),
            oam_data: zeroed(256),
            framebuffer: zeroed(FRAME_BYTES),
            control: 0,
            mask: 0,
            status: 0,
            oam_addr: 0,
            scroll: (0, 0),
            addr: 0,
            addr_latch: false,
            nmi_triggered: false,
            vram_addr: 0,
            temp_addr: 0,
            fine_x: 0,
            write_toggle: false,
            next_tile_id: 0,
            next_tile_attr: 0,
            next_tile_lsb: 0,
            next_tile_msb: 0,
        }
    }

    fn vram_read(&self, a: u16) -> (r: u8)
        requires
            self@.sized(),
        ensures
            r == self@.vram_at(a),
    {
        self.vram[(a as usize) % VRAM_SIZE]
    }

    fn pattern_addr(&self) -> (r: u16)
        ensures
            r as int == self@.pattern_base(),
            r as int + 8 < 0x10000,
    {
        let fine_y = (self.vram_addr / 0x1000) % 8;
        let table: u16 = if self.control & 0x10 != 0 {
            0x1000
        } else {
            0
        };
        table + (self.next_tile_id as u16) * 16 + fine_y
    }

    /// Paints the eight columns of the latched tile row ending at this dot.
    fn render_tile_row(&mut self)
        requires
            old(self)@.sized(),
            visible_line(old(self)@.scanline),
            1 <= old(self)@.cycles <= 256,
        ensures
            final(self)@ == (PpuState {
                framebuffer: paint_row(
                    old(self)@.framebuffer,
                    old(self)@.next_tile_lsb,
                    old(self)@.next_tile_msb,
                    if old(self)@.cycles >= 8 {
                        old(self)@.cycles - 8
                    } else {
                        0
                    },
                    old(self)@.scanline,
                    8,
                ),
                ..old(self)@
            }),
            final(self)@.sized(),
    {
        let base: usize = if self.cycles >= 8 {
            self.cycles - 8
        } else {
            0
        };
        let y = self.scanline as usize;
        let lsb = self.next_tile_lsb;
        let msb = self.next_tile_msb;
        let ghost fb0 = self.framebuffer@;
        let mut bit: usize = 0;
        while bit < 8
            invariant
                0 <= bit <= 8,
                base <= 256,
                y as int == old(self)@.scanline,
                lsb == old(self)@.next_tile_lsb,
                msb == old(self)@.next_tile_msb,
                base as int == (if old(self)@.cycles >= 8 {
                    old(self)@.cycles - 8
                } else {
                    0
                }),
                self@ == (PpuState {
                    framebuffer: paint_row(fb0, lsb, msb, base as int, y as int, bit as int),
                    ..old(self)@
                }),
                fb0 == old(self)@.framebuffer,
                old(self)@.sized(),
                self@.framebuffer.len() == FRAME_BYTES,
            decreases 8 - bit,
        {
            let bit_index = (7 - bit) as u8;
            let lit = (lsb >> bit_index) & 1 == 1 || (msb >> bit_index) & 1 == 1;
            let x = base + bit;
            if x < WIDTH && y < HEIGHT && lit {
                assert((y * WIDTH + x) * 3 + 2 < FRAME_BYTES) by (nonlinear_arith)
                    requires
                        x < 256,
                        y < 240,
                ;
                let offset = (y * WIDTH + x) * 3;
                self.framebuffer.set(offset, 0xFF);
                self.framebuffer.set(offset + 1, 0x00);
                self.framebuffer.set(offset + 2, 0x00);
            }
            bit = bit + 1;
            assert(self@.framebuffer =~= paint_row(fb0, lsb, msb, base as int, y as int, bit as int));
        }
    }

    /// Background fetch and render work of a visible dot.
    fn fetch_background(&mut self)
        requires
            old(self)@.sized(),
            visible_line(old(self)@.scanline),
            1 <= old(self)@.cycles <= 256,
        ensures
            final(self)@ == old(self)@.fetch_spec(),
            final(self)@.sized(),
    {
        let v = self.vram_addr;
        let phase = (self.cycles - 1) % 8;
        if phase == 1 {
            let nametable_addr = 0x2000 | (v & 0x0FFF);
            self.next_tile_id = self.vram_read(nametable_addr);
        } else if phase == 3 {
            let attr_addr = 0x23C0 | (v & 0x0C00) | ((v >> 4) & 0x38) | ((v >> 2) & 0x07);
            self.next_tile_attr = self.vram_read(attr_addr);
        } else if phase == 5 {
            let a = self.pattern_addr();
            self.next_tile_lsb = self.vram_read(a);
        } else if phase == 7 {
            let a = self.pattern_addr();
            self.next_tile_msb = self.vram_read(a + 8);
        } else if phase == 0 {
            self.render_tile_row();
            self.increment_x();
        }
    }

    fn begin_dot(&mut self)
        requires
            old(self).wf(),
        ensures
            final(self)@ == old(self)@.begin_dot(),
            final(self)@.sized(),
            1 <= final(self)@.cycles <= 341,
            -1 <= final(self)@.scanline <= 261,
    {
        self.cycles = self.cycles + 1;
        if self.scanline == -1 && self.cycles == 1 {
            self.framebuffer = zeroed(FRAME_BYTES);
            self.is_new_frame = true;
        }
    }

    fn background(&mut self)
        requires
            old(self)@.sized(),
            1 <= old(self)@.cycles <= 341,
            -1 <= old(self)@.scanline <= 261,
        ensures
            final(self)@ == old(self)@.background(),
            final(self)@.sized(),
            final(self)@.cycles == old(self)@.cycles,
            final(self)@.scanline == old(self)@.scanline,
    {
        if self.scanline >= 0 && self.scanline < 240 && (self.cycles >= 1 && self.cycles <= 256) {
            self.fetch_background();
            if self.cycles == 256 {
                let v = self.vram_addr;
                self.vram_addr = (v & 0xFBE0) | (wrap_add16(v, 1) & 0x041F);
            }
        }
    }

    fn wrap_line(&mut self)
        requires
            old(self)@.sized(),
            1 <= old(self)@.cycles <= 341,
            -1 <= old(self)@.scanline <= 261,
        ensures
            final(self)@ == old(self)@.wrap_line(),
            final(self).wf(),
    {
        if self.cycles > 340 {
            self.cycles = 0;
            self.scanline = self.scanline + 1;
            if self.scanline > 261 {
                self.scanline = -1;
                self.frame = if self.frame == usize::MAX {
                    0
                } else {
                    self.frame + 1
                };
            }
        }
    }

    fn line_events(&mut self)
        requires
            old(self).wf(),
        ensures
            final(self)@ == old(self)@.line_events(),
            final(self).wf(),
    {
        if (self.scanline >= 0 && self.scanline < 240) || self.scanline == -1 {
            if self.cycles == 256 {
                self.increment_y();
            }
        }
        if self.scanline == -1 || (self.scanline >= 0 && self.scanline < 240) {
            if self.cycles == 257 {
                self.transfer_horizontal();
            }
        }
        if self.scanline == 241 && self.cycles == 1 {
            self.status = self.status | 0x80;
            if self.control & 0x80 != 0 {
                self.nmi_triggered = true;
            }
        }
        if self.scanline == -1 && self.cycles == 1 {
            self.status = self.status & 0x7F;
        }
    }

    /// Advances one dot: background fetch, line and frame bookkeeping,
    /// and the vertical-blank flag with its NMI request.
    pub fn step(&mut self)
        requires
            old(self).wf(),
        ensures
            final(self).wf(),
            final(self)@ == old(self)@.step_spec(),
    {
        self.begin_dot();
        self.background();
        self.wrap_line();
        self.line_events();
    }

    /// Reads register `addr` of the CPU-visible window.
    pub fn read_register(&self, addr: u16) -> (r: u8)
        requires
            self.wf(),
        ensures
            r == self@.read_spec(addr),
    {
        match addr {
            0x2000 => self.control,
            0x2001 => self.mask,
            0x2002 => self.status,
            0x2003 => self.oam_addr,
            0x2004 => self.oam_data[self.oam_addr as usize],
            0x2005 => {
                if !self.addr_latch {
                    self.scroll.0
                } else {
                    self.scroll.1
                }
            },
            0x2007 => self.vram_read(self.addr),
            _ => 0,
        }
    }

    /// Writes `data` to register `addr` of the CPU-visible window.
    pub fn write_register(&mut self, addr: u16, data: u8)
        requires
            old(self).wf(),
        ensures
            final(self).wf(),
            final(self)@ == old(self)@.write_spec(addr, data),
    {
        match addr & 0x2007 {
            0x2000 => self.control = data,
            0x2001 => self.mask = data,
            0x2003 => self.oam_addr = data,
            0x2004 => self.oam_data.set(self.oam_addr as usize, data),
            0x2005 => {
                if !self.write_toggle {
                    self.fine_x = data & 0x07;
                    self.temp_addr = (self.temp_addr & 0xFFE0) | ((data as u16) >> 3);
                } else {
                    self.temp_addr = (self.temp_addr & 0x8FFF) | (((data as u16) & 0x07) << 12);
                    self.temp_addr = (self.temp_addr & 0xFC1F) | (((data as u16) & 0xF8) << 2);
                }
                self.write_toggle = !self.write_toggle;
            },
            0x2006 => {
                if !self.write_toggle {
                    self.temp_addr = (self.temp_addr & 0x00FF) | (((data & 0x3F) as u16) << 8);
                } else {
                    self.temp_addr = (self.temp_addr & 0xFF00) | (data as u16);
                    self.vram_addr = self.temp_addr;
                }
                self.write_toggle = !self.write_toggle;
            },
            0x2007 => {
                let i = (self.addr as usize) % VRAM_SIZE;
                self.vram.set(i, data);
                self.addr = wrap_add16(self.addr, self.vram_increment());
            },
            _ => {},
        }
    }

    fn vram_increment(&self) -> (r: u16)
        ensures
            r == self@.increment_spec(),
    {
        if self.control & 0b0000_0100 != 0 {
            32
        } else {
            1
        }
    }

    fn increment_x(&mut self)
        ensures
            final(self)@ == (PpuState { vram_addr: coarse_x_next(old(self).vram_addr), ..old(self)@ }),
    {
        if (self.vram_addr & 0x001F) == 31 {
            self.vram_addr = self.vram_addr & !0x001F;
            self.vram_addr = self.vram_addr ^ 0x0400;
        } else {
            self.vram_addr = wrap_add16(self.vram_addr, 1);
        }
    }

    fn increment_y(&mut self)
        ensures
            final(self)@ == (PpuState { vram_addr: fine_y_next(old(self).vram_addr), ..old(self)@ }),
    {
        if (self.vram_addr & 0x7000) != 0x7000 {
            self.vram_addr = wrap_add16(self.vram_addr, 0x1000);
        } else {
            self.vram_addr = self.vram_addr & !0x7000;
            let mut y = (self.vram_addr & 0x03E0) >> 5;
            if y == 29 {
                y = 0;
                self.vram_addr = self.vram_addr ^ 0x0800;
            } else if y == 31 {
                y = 0;
            } else {
                y = wrap_add16(y, 1);
            }
            self.vram_addr = (self.vram_addr & !0x03E0) | (y << 5);
        }
    }

    fn transfer_horizontal(&mut self)
        ensures
            final(self)@ == (PpuState {
                vram_addr: (old(self).vram_addr & 0x7BE0) | (old(self).temp_addr & 0x041F),
                ..old(self)@
            }),
    {
        self.vram_addr = (self.vram_addr & 0x7BE0) | (self.temp_addr & 0x041F);
    }
}

} // verus!
