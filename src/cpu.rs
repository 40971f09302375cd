//! The 2A03 core: registers, stack, addressing, the instruction set
//! (documented and undocumented) and cycle accounting.
use vstd::prelude::*;

use crate::bus::{Bus, BusState, Mem, word};
use crate::flags::{
    BREAK, CARRY, DECIMAL, Flags, INTERRUPT, NEGATIVE, OVERFLOW, UNUSED, ZERO, has_bit, with_bit,
};
use crate::opcodes::{AddressingMode, Op, OpCode, decode, opcode_table};
use crate::ppu::{PpuState, add16, wrap_add16};

verus! {

/// Base of the stack page.
pub const STACK: u16 = 0x0100;

/// Stack pointer after reset.
pub const STACK_RESET: u8 = 0xFD;

/// Status register after reset: interrupts disabled, unused bit set.
pub const STATUS_RESET: u8 = 0x24;

pub const NMI_VECTOR: u16 = 0xFFFA;

pub const RESET_VECTOR: u16 = 0xFFFC;

pub const IRQ_VECTOR: u16 = 0xFFFE;

/// Cycles an NMI entry takes.
pub const NMI_CYCLES: u64 = 7;

/// PPU dots per CPU cycle.
pub const DOTS_PER_CYCLE: u64 = 3;

/// Largest cycle count at which an instruction may start; the counter
/// cannot overflow below it.
pub const CYCLE_CEILING: u64 = 0xFFFF_FFFF_FFFF_0000;

/// Sum of two bytes, modulo 256.
pub open spec fn add8(a: u8, b: u8) -> u8 {
    ((a + b) % 256) as u8
}

/// Difference of two bytes, modulo 256.
pub open spec fn sub8(a: u8, b: u8) -> u8 {
    ((a - b + 256) % 256) as u8
}

/// A signed branch displacement widened to 16 bits.
pub open spec fn sext(d: u8) -> u16 {
    if d < 128 {
        d as u16
    } else {
        (d + 0xFF00) as u16
    }
}

/// The page (high byte) of an address.
pub open spec fn page(a: u16) -> int {
    a as int / 256
}

/// `p` with Zero and Negative describing `v`.
pub open spec fn nz(p: u8, v: u8) -> u8 {
    with_bit(with_bit(p, ZERO, v == 0), NEGATIVE, v & 0x80 != 0)
}

/// A status byte as pushed by PHP and BRK: Break and the unused bit set.
pub open spec fn pushed_status(p: u8) -> u8 {
    with_bit(with_bit(p, BREAK, true), UNUSED, true)
}

/// A status byte as pulled by PLP and RTI: Break clear, unused bit set.
pub open spec fn pulled_status(p: u8) -> u8 {
    with_bit(with_bit(p, BREAK, false), UNUSED, true)
}

/// A status byte as pushed on NMI entry: Break clear, unused bit set.
pub open spec fn interrupt_status(p: u8) -> u8 {
    with_bit(with_bit(p, UNUSED, true), BREAK, false)
}

fn wrap_add8(a: u8, b: u8) -> (r: u8)
    ensures
        r == add8(a, b),
{
    ((a as u16 + b as u16) % 256) as u8
}

fn wrap_sub8(a: u8, b: u8) -> (r: u8)
    ensures
        r == sub8(a, b),
{
    ((a as u16 + 256 - b as u16) % 256) as u8
}

/// Whether `mode` names memory through an address computation.
pub open spec fn is_memory_mode(mode: AddressingMode) -> bool {
    mode != AddressingMode::Immediate && mode != AddressingMode::NoneAddressing
}

/// The abstract state of the processor and everything on its bus.
pub struct CpuState {
    pub a: u8,
    pub x: u8,
    pub y: u8,
    pub sp: u8,
    pub pc: u16,
    pub p: u8,
    pub cycles: int,
    pub bus: BusState,
}

impl CpuState {
    pub open spec fn wf(self) -> bool {
        self.bus.wf()
    }

    pub open spec fn read(self, addr: u16) -> u8 {
        self.bus.read_spec(addr)
    }

    pub open spec fn read16(self, addr: u16) -> u16 {
        self.bus.read16_spec(addr)
    }

    pub open spec fn write(self, addr: u16, v: u8) -> CpuState {
        CpuState { bus: self.bus.write_spec(addr, v), ..self }
    }

    pub open spec fn with_a(self, v: u8) -> CpuState {
        CpuState { a: v, ..self }
    }

    pub open spec fn with_x(self, v: u8) -> CpuState {
        CpuState { x: v, ..self }
    }

    pub open spec fn with_y(self, v: u8) -> CpuState {
        CpuState { y: v, ..self }
    }

    pub open spec fn with_p(self, p: u8) -> CpuState {
        CpuState { p, ..self }
    }

    pub open spec fn with_pc(self, pc: u16) -> CpuState {
        CpuState { pc, ..self }
    }

    pub open spec fn flag(self, i: u8) -> bool {
        has_bit(self.p, i)
    }

    pub open spec fn set_flag(self, i: u8, v: bool) -> CpuState {
        CpuState { p: with_bit(self.p, i, v), ..self }
    }

    /// Zero and Negative from `v`.
    pub open spec fn set_nz(self, v: u8) -> CpuState {
        CpuState { p: nz(self.p, v), ..self }
    }

    pub open spec fn charge(self, n: int) -> CpuState {
        CpuState { cycles: self.cycles + n, ..self }
    }

    /// Effective address of a memory `mode` whose operand starts at `at`,
    /// and whether indexing crossed a page.
    #[verifier::opaque]
    pub open spec fn absolute(self, mode: AddressingMode, at: u16) -> (u16, bool) {
        match mode {
            AddressingMode::ZeroPage => (self.read(at) as u16, false),
            AddressingMode::Absolute => (self.read16(at), false),
            AddressingMode::ZeroPageX => (add8(self.read(at), self.x) as u16, false),
            AddressingMode::ZeroPageY => (add8(self.read(at), self.y) as u16, false),
            AddressingMode::AbsoluteX => {
                let base = self.read16(at);
                let r = add16(base, self.x as u16);
                (r, page(base) != page(r))
            },
            AddressingMode::AbsoluteY => {
                let base = self.read16(at);
                let r = add16(base, self.y as u16);
                (r, page(base) != page(r))
            },
            AddressingMode::IndirectX => {
                let ptr = add8(self.read(at), self.x);
                (word(self.read(ptr as u16), self.read(add8(ptr, 1) as u16)), false)
            },
            AddressingMode::IndirectY => {
                let base = self.read(at);
                let deref = word(self.read(base as u16), self.read(add8(base, 1) as u16));
                let r = add16(deref, self.y as u16);
                (r, page(deref) != page(r))
            },
            _ => (at, false),
        }
    }

    /// The state after resolving `mode` at `at` (a cycle more for a page
    /// crossing when `penalize`), and the effective address.
    #[verifier::opaque]
    pub open spec fn resolve_at(self, mode: AddressingMode, at: u16, penalize: bool) -> (
        CpuState,
        u16,
    ) {
        let (addr, crossed) = self.absolute(mode, at);
        (
            if penalize && crossed {
                self.charge(1)
            } else {
                self
            },
            addr,
        )
    }

    /// Operand resolution for the instruction whose operand starts at `pc`;
    /// immediate (and implied) operands are the byte at `pc` itself.
    #[verifier::opaque]
    pub open spec fn resolve(self, mode: AddressingMode, penalize: bool) -> (CpuState, u16) {
        if is_memory_mode(mode) {
            self.resolve_at(mode, self.pc, penalize)
        } else {
            (self, self.pc)
        }
    }

    pub open spec fn push(self, v: u8) -> CpuState {
        CpuState {
            bus: self.bus.write_spec((STACK + self.sp) as u16, v),
            sp: sub8(self.sp, 1),
            ..self
        }
    }

    pub open spec fn pop(self) -> (CpuState, u8) {
        let sp = add8(self.sp, 1);
        (CpuState { sp, ..self }, self.read((STACK + sp) as u16))
    }

    pub open spec fn push16(self, v: u16) -> CpuState {
        self.push((v / 256) as u8).push((v % 256) as u8)
    }

    pub open spec fn pop16(self) -> (CpuState, u16) {
        let (s1, lo) = self.pop();
        let (s2, hi) = s1.pop();
        (s2, word(lo, hi))
    }

    /// A += m + C, with Carry, Overflow, Zero and Negative.
    pub open spec fn add_a(self, m: u8) -> CpuState {
        let sum = self.a + m + (if self.flag(CARRY) {
            1int
        } else {
            0
        });
        let result = (sum % 256) as u8;
        let with_c = with_bit(self.p, CARRY, sum > 0xFF);
        let with_v = with_bit(with_c, OVERFLOW, (m ^ result) & (result ^ self.a) & 0x80 != 0);
        CpuState { a: result, p: nz(with_v, result), ..self }
    }

    /// A -= m with borrow: addition of the complement.
    pub open spec fn sub_a(self, m: u8) -> CpuState {
        self.add_a(!m)
    }

    pub open spec fn and_a(self, m: u8) -> CpuState {
        self.with_a(self.a & m).set_nz(self.a & m)
    }

    pub open spec fn or_a(self, m: u8) -> CpuState {
        self.with_a(self.a | m).set_nz(self.a | m)
    }

    pub open spec fn xor_a(self, m: u8) -> CpuState {
        self.with_a(self.a ^ m).set_nz(self.a ^ m)
    }

    /// CMP, CPX, CPY: Carry when `reg >= m`, Zero and Negative of the
    /// difference.
    pub open spec fn compare_with(self, reg: u8, m: u8) -> CpuState {
        self.set_flag(CARRY, reg >= m).set_nz(sub8(reg, m))
    }

    /// A taken branch: one cycle, another when the target lies on another
    /// page than the next instruction.
    pub open spec fn branch_spec(self, cond: bool) -> CpuState {
        if cond {
            let next = add16(self.pc, 1);
            let target = add16(next, sext(self.read(self.pc)));
            CpuState {
                pc: target,
                cycles: self.cycles + 1 + (if page(next) != page(target) {
                    1int
                } else {
                    0
                }),
                ..self
            }
        } else {
            self
        }
    }

    /// `n` dots of the PPU.
    pub open spec fn tick(self, n: nat) -> CpuState {
        CpuState { bus: BusState { ppu: self.bus.ppu.ticks(n), ..self.bus }, ..self }
    }

    pub open spec fn lsr_acc(self) -> CpuState {
        self.set_flag(CARRY, self.a & 1 == 1).with_a(self.a >> 1).set_nz(self.a >> 1)
    }

    pub open spec fn ror_acc(self) -> CpuState {
        let r = if self.flag(CARRY) {
            (self.a >> 1) | 0x80
        } else {
            self.a >> 1
        };
        self.set_flag(CARRY, self.a & 1 == 1).with_a(r).set_nz(r)
    }

    /// A read-modify-write of the operand of `mode` by `op` (ASL, LSR, ROL,
    /// ROR or INC; any other operation decrements).  Returns the state and
    /// the value written.
    #[verifier::opaque]
    pub open spec fn modify(self, mode: AddressingMode, op: Op) -> (CpuState, u8) {
        let (s, addr) = self.resolve(mode, false);
        let v = s.read(addr);
        let c = self.flag(CARRY);
        match op {
            Op::Asl => {
                let r = v << 1;
                (s.set_flag(CARRY, v >> 7 == 1).write(addr, r).set_nz(r), r)
            },
            Op::Lsr => {
                let r = v >> 1;
                (s.set_flag(CARRY, v & 1 == 1).write(addr, r).set_nz(r), r)
            },
            Op::Rol => {
                let r = (v << 1) | (if c {
                    1u8
                } else {
                    0u8
                });
                (s.set_flag(CARRY, v >> 7 == 1).write(addr, r).set_nz(r), r)
            },
            Op::Ror => {
                let r = if c {
                    (v >> 1) | 0x80
                } else {
                    v >> 1
                };
                (s.set_flag(CARRY, v & 1 == 1).write(addr, r).set_nz(r), r)
            },
            Op::Inc => {
                let r = add8(v, 1);
                (s.write(addr, r).set_nz(r), r)
            },
            _ => {
                let r = sub8(v, 1);
                (s.write(addr, r).set_nz(r), r)
            },
        }
    }

    /// Target of `JMP (a)`: the high byte comes from the same page, so a
    /// pointer at `$xxFF` takes it from `$xx00`.
    pub open spec fn indirect_target(self, a: u16) -> u16 {
        if a % 256 == 0xFF {
            word(self.read(a), self.read((a - 0xFF) as u16))
        } else {
            self.read16(a)
        }
    }

    /// Address of the undocumented high-byte stores: the absolute operand
    /// plus `index`.
    pub open spec fn indexed_operand(self, index: u8) -> u16 {
        add16(self.read16(self.pc), index as u16)
    }

    pub open spec fn adc_spec(self, mode: AddressingMode) -> CpuState {
        let (s, addr) = self.resolve(mode, true);
        let m = s.read(addr);
        s.add_a(m)
    }

    pub open spec fn and_spec(self, mode: AddressingMode) -> CpuState {
        let (s, addr) = self.resolve(mode, true);
        let m = s.read(addr);
        s.and_a(m)
    }

    pub open spec fn cmp_spec(self, mode: AddressingMode) -> CpuState {
        let (s, addr) = self.resolve(mode, true);
        let m = s.read(addr);
        s.compare_with(self.a, m)
    }

    pub open spec fn cpx_spec(self, mode: AddressingMode) -> CpuState {
        let (s, addr) = self.resolve(mode, true);
        let m = s.read(addr);
        s.compare_with(self.x, m)
    }

    pub open spec fn cpy_spec(self, mode: AddressingMode) -> CpuState {
        let (s, addr) = self.resolve(mode, true);
        let m = s.read(addr);
        s.compare_with(self.y, m)
    }

    pub open spec fn eor_spec(self, mode: AddressingMode) -> CpuState {
        let (s, addr) = self.resolve(mode, true);
        let m = s.read(addr);
        s.xor_a(m)
    }

    pub open spec fn lda_spec(self, mode: AddressingMode) -> CpuState {
        let (s, addr) = self.resolve(mode, true);
        let m = s.read(addr);
        s.with_a(m).set_nz(m)
    }

    pub open spec fn ldx_spec(self, mode: AddressingMode) -> CpuState {
        let (s, addr) = self.resolve(mode, true);
        let m = s.read(addr);
        s.with_x(m).set_nz(m)
    }

    pub open spec fn ldy_spec(self, mode: AddressingMode) -> CpuState {
        let (s, addr) = self.resolve(mode, true);
        let m = s.read(addr);
        s.with_y(m).set_nz(m)
    }

    pub open spec fn ora_spec(self, mode: AddressingMode) -> CpuState {
        let (s, addr) = self.resolve(mode, true);
        let m = s.read(addr);
        s.or_a(m)
    }

    pub open spec fn sbc_spec(self, mode: AddressingMode) -> CpuState {
        let (s, addr) = self.resolve(mode, true);
        let m = s.read(addr);
        s.sub_a(m)
    }

    pub open spec fn lax_spec(self, mode: AddressingMode) -> CpuState {
        let (s, addr) = self.resolve(mode, true);
        let m = s.read(addr);
        s.with_a(m).with_x(m).set_nz(m)
    }

    pub open spec fn lxa_spec(self, mode: AddressingMode) -> CpuState {
        let (s, addr) = self.resolve(mode, true);
        let m = s.read(addr);
        s.with_a(m).set_nz(m).with_x(m).set_nz(m)
    }

    pub open spec fn nop_read_spec(self, mode: AddressingMode) -> CpuState {
        let (s, addr) = self.resolve(mode, true);
        s
    }

    pub open spec fn asl_a_spec(self) -> CpuState {
        self.set_flag(CARRY, self.a >> 7 == 1).with_a(self.a << 1).set_nz(
            self.a << 1,
        )
    }

    pub open spec fn lsr_a_spec(self) -> CpuState {
        self.lsr_acc()
    }

    pub open spec fn rol_a_spec(self) -> CpuState {
        let r = (self.a << 1) | (if self.flag(CARRY) {
            1u8
        } else {
            0u8
        });
        self.set_flag(CARRY, self.a >> 7 == 1).with_a(r).set_nz(r)
    }

    pub open spec fn ror_a_spec(self) -> CpuState {
        self.ror_acc()
    }

    pub open spec fn bcc_spec(self) -> CpuState {
        self.branch_spec(!self.flag(CARRY))
    }

    pub open spec fn bcs_spec(self) -> CpuState {
        self.branch_spec(self.flag(CARRY))
    }

    pub open spec fn beq_spec(self) -> CpuState {
        self.branch_spec(self.flag(ZERO))
    }

    pub open spec fn bmi_spec(self) -> CpuState {
        self.branch_spec(self.flag(NEGATIVE))
    }

    pub open spec fn bne_spec(self) -> CpuState {
        self.branch_spec(!self.flag(ZERO))
    }

    pub open spec fn bpl_spec(self) -> CpuState {
        self.branch_spec(!self.flag(NEGATIVE))
    }

    pub open spec fn bvc_spec(self) -> CpuState {
        self.branch_spec(!self.flag(OVERFLOW))
    }

    pub open spec fn bvs_spec(self) -> CpuState {
        self.branch_spec(self.flag(OVERFLOW))
    }

    pub open spec fn bit_spec(self, mode: AddressingMode) -> CpuState {
        let (w, waddr) = self.resolve(mode, false);
        let wm = w.read(waddr);
        w.set_flag(ZERO, self.a & wm == 0).set_flag(NEGATIVE, wm & 0x80 != 0).set_flag(
            OVERFLOW,
            wm & 0x40 != 0,
        )
    }

    pub open spec fn brk_spec(self) -> CpuState {
        let s1 = self.push16(add16(self.pc, 1)).push(pushed_status(self.p));
        s1.set_flag(INTERRUPT, true).with_pc(s1.read16(IRQ_VECTOR))
    }

    pub open spec fn clc_spec(self) -> CpuState {
        self.set_flag(CARRY, false)
    }

    pub open spec fn cld_spec(self) -> CpuState {
        self.set_flag(DECIMAL, false)
    }

    pub open spec fn cli_spec(self) -> CpuState {
        self.set_flag(INTERRUPT, false)
    }

    pub open spec fn clv_spec(self) -> CpuState {
        self.set_flag(OVERFLOW, false)
    }

    pub open spec fn sec_spec(self) -> CpuState {
        self.set_flag(CARRY, true)
    }

    pub open spec fn sed_spec(self) -> CpuState {
        self.set_flag(DECIMAL, true)
    }

    pub open spec fn sei_spec(self) -> CpuState {
        self.set_flag(INTERRUPT, true)
    }

    pub open spec fn dex_spec(self) -> CpuState {
        self.with_x(sub8(self.x, 1)).set_nz(sub8(self.x, 1))
    }

    pub open spec fn dey_spec(self) -> CpuState {
        self.with_y(sub8(self.y, 1)).set_nz(sub8(self.y, 1))
    }

    pub open spec fn inx_spec(self) -> CpuState {
        self.with_x(add8(self.x, 1)).set_nz(add8(self.x, 1))
    }

    pub open spec fn iny_spec(self) -> CpuState {
        self.with_y(add8(self.y, 1)).set_nz(add8(self.y, 1))
    }

    pub open spec fn jmp_abs_spec(self) -> CpuState {
        self.with_pc(self.read16(self.pc))
    }

    pub open spec fn jmp_ind_spec(self) -> CpuState {
        self.with_pc(self.indirect_target(self.read16(self.pc)))
    }

    pub open spec fn jsr_spec(self) -> CpuState {
        self.push16(add16(self.pc, 1)).with_pc(self.read16(self.pc))
    }

    pub open spec fn pha_spec(self) -> CpuState {
        self.push(self.a)
    }

    pub open spec fn php_spec(self) -> CpuState {
        self.push(pushed_status(self.p))
    }

    pub open spec fn pla_spec(self) -> CpuState {
        let (s1, v) = self.pop();
        s1.with_a(v).set_nz(v)
    }

    pub open spec fn plp_spec(self) -> CpuState {
        let (s1, v) = self.pop();
        s1.with_p(pulled_status(v))
    }

    pub open spec fn rti_spec(self) -> CpuState {
        let (s1, v) = self.pop();
        let (s2, ret) = s1.with_p(pulled_status(v)).pop16();
        s2.with_pc(ret)
    }

    pub open spec fn rts_spec(self) -> CpuState {
        let (s1, ret) = self.pop16();
        s1.with_pc(add16(ret, 1))
    }

    pub open spec fn sta_spec(self, mode: AddressingMode) -> CpuState {
        let (w, waddr) = self.resolve(mode, false);
        w.write(waddr, self.a)
    }

    pub open spec fn stx_spec(self, mode: AddressingMode) -> CpuState {
        let (w, waddr) = self.resolve(mode, false);
        w.write(waddr, self.x)
    }

    pub open spec fn sty_spec(self, mode: AddressingMode) -> CpuState {
        let (w, waddr) = self.resolve(mode, false);
        w.write(waddr, self.y)
    }

    pub open spec fn tax_spec(self) -> CpuState {
        self.with_x(self.a).set_nz(self.a)
    }

    pub open spec fn tay_spec(self) -> CpuState {
        self.with_y(self.a).set_nz(self.a)
    }

    pub open spec fn tsx_spec(self) -> CpuState {
        self.with_x(self.sp).set_nz(self.sp)
    }

    pub open spec fn txa_spec(self) -> CpuState {
        self.with_a(self.x).set_nz(self.x)
    }

    pub open spec fn txs_spec(self) -> CpuState {
        CpuState { sp: self.x, ..self }
    }

    pub open spec fn tya_spec(self) -> CpuState {
        self.with_a(self.y).set_nz(self.y)
    }

    pub open spec fn ahx_ay_spec(self) -> CpuState {
        let t = self.indexed_operand(self.y);
        self.write(t, self.a & self.x & ((t / 256) as u8))
    }

    pub open spec fn ahx_iy_spec(self) -> CpuState {
        let t = add16(self.read16(self.read(self.pc) as u16), self.y as u16);
        self.write(t, self.a & self.x & ((t / 256) as u8))
    }

    pub open spec fn alr_spec(self, mode: AddressingMode) -> CpuState {
        let (w, waddr) = self.resolve(mode, false);
        let wm = w.read(waddr);
        w.and_a(wm).lsr_acc()
    }

    pub open spec fn anc_spec(self, mode: AddressingMode) -> CpuState {
        let (w, waddr) = self.resolve(mode, false);
        let wm = w.read(waddr);
        let s1 = w.and_a(wm);
        s1.set_flag(CARRY, s1.flag(NEGATIVE))
    }

    pub open spec fn arr_spec(self, mode: AddressingMode) -> CpuState {
        let (w, waddr) = self.resolve(mode, false);
        let wm = w.read(waddr);
        let s1 = w.and_a(wm).ror_acc();
        let r = s1.a;
        s1.set_flag(CARRY, (r >> 6) & 1 == 1).set_flag(
            OVERFLOW,
            ((r >> 5) & 1) ^ ((r >> 6) & 1) == 1,
        ).set_nz(r)
    }

    pub open spec fn axs_spec(self, mode: AddressingMode) -> CpuState {
        let (w, waddr) = self.resolve(mode, false);
        let wm = w.read(waddr);
        let xa = self.a & self.x;
        w.set_flag(CARRY, wm <= xa).set_nz(sub8(xa, wm)).with_x(sub8(xa, wm))
    }

    pub open spec fn dcp_spec(self, mode: AddressingMode) -> CpuState {
        let (w, waddr) = self.resolve(mode, false);
        let wm = w.read(waddr);
        let v = sub8(wm, 1);
        w.write(waddr, v).set_flag(CARRY, v <= self.a).set_nz(sub8(self.a, v))
    }

    pub open spec fn isb_spec(self, mode: AddressingMode) -> CpuState {
        let (s1, v) = self.modify(mode, Op::Inc);
        s1.sub_a(v)
    }

    pub open spec fn las_spec(self, mode: AddressingMode) -> CpuState {
        let (w, waddr) = self.resolve(mode, false);
        let wm = w.read(waddr);
        let v = wm & self.sp;
        CpuState { a: v, x: v, sp: v, ..w }.set_nz(v)
    }

    pub open spec fn rla_spec(self, mode: AddressingMode) -> CpuState {
        let (s1, v) = self.modify(mode, Op::Rol);
        s1.and_a(v)
    }

    pub open spec fn rra_spec(self, mode: AddressingMode) -> CpuState {
        let (s1, v) = self.modify(mode, Op::Ror);
        s1.add_a(v)
    }

    pub open spec fn slo_spec(self, mode: AddressingMode) -> CpuState {
        let (s1, v) = self.modify(mode, Op::Asl);
        s1.or_a(v)
    }

    pub open spec fn sre_spec(self, mode: AddressingMode) -> CpuState {
        let (s1, v) = self.modify(mode, Op::Lsr);
        s1.xor_a(v)
    }

    pub open spec fn sax_spec(self, mode: AddressingMode) -> CpuState {
        let (w, waddr) = self.resolve(mode, false);
        w.write(waddr, self.a & self.x)
    }

    pub open spec fn usbc_spec(self, mode: AddressingMode) -> CpuState {
        let (w, waddr) = self.resolve(mode, false);
        let wm = w.read(waddr);
        w.sub_a(wm)
    }

    pub open spec fn shx_spec(self) -> CpuState {
        let t = self.indexed_operand(self.y);
        self.write(t, self.x & add8((t / 256) as u8, 1))
    }

    pub open spec fn shy_spec(self) -> CpuState {
        let t = self.indexed_operand(self.x);
        self.write(t, self.y & add8((t / 256) as u8, 1))
    }

    pub open spec fn tas_spec(self) -> CpuState {
        let sp = self.a & self.x;
        let t = self.indexed_operand(self.y);
        CpuState { sp, ..self }.write(t, add8((t / 256) as u8, 1) & sp)
    }

    pub open spec fn xaa_spec(self, mode: AddressingMode) -> CpuState {
        let s1 = self.with_a(self.x).set_nz(self.x);
        let (s2, ad) = s1.resolve(mode, false);
        s2.and_a(s2.read(ad))
    }

    /// The effect of operation `op` in `mode`, with `pc` at its first
    /// operand byte.  Cycles added here are the page-crossing and
    /// branch-taken penalties only.
    pub open spec fn execute_spec(self, op: Op, mode: AddressingMode) -> CpuState {
        match op {
            Op::Adc => self.adc_spec(mode),
            Op::And => self.and_spec(mode),
            Op::Cmp => self.cmp_spec(mode),
            Op::Cpx => self.cpx_spec(mode),
            Op::Cpy => self.cpy_spec(mode),
            Op::Eor => self.eor_spec(mode),
            Op::Lda => self.lda_spec(mode),
            Op::Ldx => self.ldx_spec(mode),
            Op::Ldy => self.ldy_spec(mode),
            Op::Ora => self.ora_spec(mode),
            Op::Sbc => self.sbc_spec(mode),
            Op::Lax => self.lax_spec(mode),
            Op::Lxa => self.lxa_spec(mode),
            Op::NopRead => self.nop_read_spec(mode),
            Op::Asl => self.modify(mode, Op::Asl).0,
            Op::Lsr => self.modify(mode, Op::Lsr).0,
            Op::Rol => self.modify(mode, Op::Rol).0,
            Op::Ror => self.modify(mode, Op::Ror).0,
            Op::Inc => self.modify(mode, Op::Inc).0,
            Op::Dec => self.modify(mode, Op::Dec).0,
            Op::AslA => self.asl_a_spec(),
            Op::LsrA => self.lsr_a_spec(),
            Op::RolA => self.rol_a_spec(),
            Op::RorA => self.ror_a_spec(),
            Op::Bcc => self.bcc_spec(),
            Op::Bcs => self.bcs_spec(),
            Op::Beq => self.beq_spec(),
            Op::Bmi => self.bmi_spec(),
            Op::Bne => self.bne_spec(),
            Op::Bpl => self.bpl_spec(),
            Op::Bvc => self.bvc_spec(),
            Op::Bvs => self.bvs_spec(),
            Op::Bit => self.bit_spec(mode),
            Op::Brk => self.brk_spec(),
            Op::Clc => self.clc_spec(),
            Op::Cld => self.cld_spec(),
            Op::Cli => self.cli_spec(),
            Op::Clv => self.clv_spec(),
            Op::Sec => self.sec_spec(),
            Op::Sed => self.sed_spec(),
            Op::Sei => self.sei_spec(),
            Op::Dex => self.dex_spec(),
            Op::Dey => self.dey_spec(),
            Op::Inx => self.inx_spec(),
            Op::Iny => self.iny_spec(),
            Op::JmpAbs => self.jmp_abs_spec(),
            Op::JmpInd => self.jmp_ind_spec(),
            Op::Jsr => self.jsr_spec(),
            Op::Nop | Op::Unop | Op::Skb => self,
            Op::Pha => self.pha_spec(),
            Op::Php => self.php_spec(),
            Op::Pla => self.pla_spec(),
            Op::Plp => self.plp_spec(),
            Op::Rti => self.rti_spec(),
            Op::Rts => self.rts_spec(),
            Op::Sta => self.sta_spec(mode),
            Op::Stx => self.stx_spec(mode),
            Op::Sty => self.sty_spec(mode),
            Op::Tax => self.tax_spec(),
            Op::Tay => self.tay_spec(),
            Op::Tsx => self.tsx_spec(),
            Op::Txa => self.txa_spec(),
            Op::Txs => self.txs_spec(),
            Op::Tya => self.tya_spec(),
            Op::AhxAy => self.ahx_ay_spec(),
            Op::AhxIy => self.ahx_iy_spec(),
            Op::Alr => self.alr_spec(mode),
            Op::Anc => self.anc_spec(mode),
            Op::Arr => self.arr_spec(mode),
            Op::Axs => self.axs_spec(mode),
            Op::Dcp => self.dcp_spec(mode),
            Op::Isb => self.isb_spec(mode),
            Op::Las => self.las_spec(mode),
            Op::Rla => self.rla_spec(mode),
            Op::Rra => self.rra_spec(mode),
            Op::Slo => self.slo_spec(mode),
            Op::Sre => self.sre_spec(mode),
            Op::Sax => self.sax_spec(mode),
            Op::Usbc => self.usbc_spec(mode),
            Op::Shx => self.shx_spec(),
            Op::Shy => self.shy_spec(),
            Op::Tas => self.tas_spec(),
            Op::Xaa => self.xaa_spec(mode),
        }
    }

    /// One whole instruction: fetch, decode, execute, move past the operand
    /// unless the instruction set `pc` itself, charge the cycles, and run
    /// the PPU three dots for each of them.
    pub open spec fn step_spec(self) -> CpuState {
        let code = self.read(self.pc);
        let info = opcode_table(code);
        let fetched = self.with_pc(add16(self.pc, 1));
        let done = fetched.execute_spec(info.op, info.mode);
        let pc = if done.pc == fetched.pc {
            add16(done.pc, (info.len - 1) as u16)
        } else {
            done.pc
        };
        let spent = done.cycles + info.cycles - self.cycles;
        CpuState { pc, cycles: done.cycles + info.cycles, ..done }.tick((3 * spent) as nat)
    }

    /// NMI entry: push `pc` and the status (Break clear), disable
    /// interrupts, jump through the NMI vector; seven cycles.
    pub open spec fn nmi_spec(self) -> CpuState {
        let s1 = self.push16(self.pc).push(interrupt_status(self.p));
        let s2 = s1.set_flag(INTERRUPT, true);
        s2.with_pc(s2.read16(NMI_VECTOR)).charge(NMI_CYCLES as int).tick(
            (DOTS_PER_CYCLE * NMI_CYCLES) as nat,
        )
    }

    /// The state after reset.
    pub open spec fn reset_spec(self) -> CpuState {
        CpuState {
            a: 0,
            x: 0,
            y: 0,
            sp: STACK_RESET,
            p: STATUS_RESET,
            cycles: 0,
            pc: self.read16(RESET_VECTOR),
            ..self
        }
    }
}


/// Whether `op` reads its operand.
pub open spec fn is_read_op(op: Op) -> bool {
    matches!(op, Op::Adc | Op::And | Op::Cmp | Op::Cpx | Op::Cpy | Op::Eor | Op::Lda | Op::Ldx | Op::Ldy | Op::Ora | Op::Sbc | Op::Lax | Op::Lxa | Op::NopRead | Op::Bit)
}

/// Whether `op` writes memory or shifts the accumulator.
pub open spec fn is_modify_op(op: Op) -> bool {
    matches!(op, Op::Asl | Op::Lsr | Op::Rol | Op::Ror | Op::Inc | Op::Dec | Op::AslA | Op::LsrA | Op::RolA | Op::RorA | Op::Sta | Op::Stx | Op::Sty | Op::Dcp | Op::Isb | Op::Rla | Op::Rra | Op::Slo | Op::Sre | Op::Sax)
}

/// Whether `op` branches, jumps or uses the stack.
pub open spec fn is_flow_op(op: Op) -> bool {
    matches!(op, Op::Bcc | Op::Bcs | Op::Beq | Op::Bmi | Op::Bne | Op::Bpl | Op::Bvc | Op::Bvs | Op::Brk | Op::JmpAbs | Op::JmpInd | Op::Jsr | Op::Rti | Op::Rts | Op::Pha | Op::Php | Op::Pla | Op::Plp)
}

/// Whether `op` works on registers and flags only.
pub open spec fn is_register_op(op: Op) -> bool {
    matches!(op, Op::Clc | Op::Cld | Op::Cli | Op::Clv | Op::Sec | Op::Sed | Op::Sei | Op::Dex | Op::Dey | Op::Inx | Op::Iny | Op::Tax | Op::Tay | Op::Tsx | Op::Txa | Op::Txs | Op::Tya | Op::Nop | Op::Unop | Op::Skb)
}

/// Whether `op` is one of the remaining undocumented operations.
pub open spec fn is_other_op(op: Op) -> bool {
    matches!(op, Op::AhxAy | Op::AhxIy | Op::Alr | Op::Anc | Op::Arr | Op::Axs | Op::Las | Op::Usbc | Op::Shx | Op::Shy | Op::Tas | Op::Xaa)
}

/// Operations whose cost can exceed the table's base cost: reads that may
/// cross a page, and branches.
pub open spec fn may_add_cycles(op: Op) -> bool {
    is_read_op(op) && op != Op::Bit || matches!(
        op,
        Op::Bcc | Op::Bcs | Op::Beq | Op::Bmi | Op::Bne | Op::Bpl | Op::Bvc | Op::Bvs
    )
}

/// The processor, owning the bus it drives.
pub struct CPU {
    pub register_a: u8,
    pub register_x: u8,
    pub register_y: u8,
    pub register_sp: u8,
    pub register_pc: u16,
    pub flags: Flags,
    pub bus: Bus,
    pub cycles: u64,
}

impl View for CPU {
    type V = CpuState;

    open spec fn view(&self) -> CpuState {
        CpuState {
            a: self.register_a,
            x: self.register_x,
            y: self.register_y,
            sp: self.register_sp,
            pc: self.register_pc,
            p: self.flags.bits,
            cycles: self.cycles as int,
            bus: self.bus@,
        }
    }
}

impl Mem for CPU {
    open spec fn mem_ok(&self) -> bool {
        self.bus.wf()
    }

    open spec fn peek(&self, addr: u16) -> u8 {
        self@.read(addr)
    }

    open spec fn wrote(&self, after: &Self, addr: u16, data: u8) -> bool {
        after@ == self@.write(addr, data)
    }

    open spec fn wrote16(&self, after: &Self, addr: u16, data: u16) -> bool {
        after@ == CpuState { bus: self@.bus.write16_spec(addr, data), ..self@ }
    }

    fn mem_read(&self, addr: u16) -> (r: u8) {
        self.bus.mem_read(addr)
    }

    fn mem_write(&mut self, addr: u16, data: u8) {
        self.bus.mem_write(addr, data);
    }

    fn mem_read_16(&self, addr: u16) -> (r: u16) {
        self.bus.mem_read_16(addr)
    }

    fn mem_write_16(&mut self, addr: u16, data: u16) {
        self.bus.mem_write_16(addr, data);
    }
}

impl CPU {
    pub open spec fn wf(&self) -> bool {
        self.bus.wf()
    }

    /// A processor on `bus` with cleared registers, the reset stack pointer
    /// and status, and `pc` at zero.
    pub fn new(bus: Bus) -> (r: Self)
        requires
            bus.wf(),
        ensures
            r.wf(),
            r@ == (CpuState {
                a: 0,
                x: 0,
                y: 0,
                sp: STACK_RESET,
                pc: 0,
                p: STATUS_RESET,
                cycles: 0,
                bus: bus@,
            }),
    {
        CPU {
            register_a: 0,
            register_x: 0,
            register_y: 0,
            register_sp: STACK_RESET,
            register_pc: 0,
            flags: Flags::new(),
            bus,
            cycles: 0,
        }
    }

    /// Clears A, X, Y and the cycle count, sets the reset stack pointer and
    /// status, and loads `pc` from the reset vector.
    pub fn reset(&mut self)
        requires
            old(self).wf(),
        ensures
            final(self).wf(),
            final(self)@ == old(self)@.reset_spec(),
    {
        self.register_a = 0;
        self.register_x = 0;
        self.register_y = 0;
        self.register_sp = STACK_RESET;
        self.flags.bits = STATUS_RESET;
        self.cycles = 0;
        self.register_pc = self.mem_read_16(RESET_VECTOR);
    }

    /// Runs the PPU for `n` CPU cycles, three dots each.
    fn tick_ppu(&mut self, n: u64)
        requires
            old(self).wf(),
        ensures
            final(self).wf(),
            final(self)@ == old(self)@.tick((3 * n) as nat),
    {
        let mut i: u64 = 0;
        proof {
            reveal_with_fuel(PpuState::ticks, 1);
        }
        while i < n
            invariant
                0 <= i <= n,
                self.wf(),
                self@ == old(self)@.tick((3 * i) as nat),
            decreases n - i,
        {
            proof {
                lemma_ticks_add(old(self)@.bus.ppu, (3 * i) as nat, 3);
            }
            self.bus.ppu.step();
            self.bus.ppu.step();
            self.bus.ppu.step();
            proof {
                lemma_ticks_three(old(self)@.bus.ppu.ticks((3 * i) as nat));
            }
            i = i + 1;
        }
    }

    /// Executes one instruction and runs the PPU alongside it.
    pub fn step(&mut self)
        requires
            old(self).wf(),
            old(self).cycles <= CYCLE_CEILING,
        ensures
            final(self).wf(),
            final(self)@ == old(self)@.step_spec(),
            ({
                let base = opcode_table(old(self)@.read(old(self).register_pc)).cycles as int;
                old(self).cycles + base <= final(self).cycles <= old(self).cycles + base + 2
            }),
    {
        proof {
            crate::laws::lemma_step_cycles(old(self)@);
        }
        let code = self.mem_read(self.register_pc);
        self.register_pc = wrap_add16(self.register_pc, 1);
        let pc_before = self.register_pc;
        let start = self.cycles;
        let opcode = decode(code);
        self.execute(&opcode);
        if pc_before == self.register_pc {
            self.register_pc = wrap_add16(self.register_pc, (opcode.len - 1) as u16);
        }
        self.cycles = self.cycles + opcode.cycles as u64;
        let spent = self.cycles - start;
        self.tick_ppu(spent);
    }

    /// NMI entry: pushes `pc` and the status with Break clear, disables
    /// interrupts and jumps through the NMI vector, taking seven cycles.
    pub fn trigger_nmi(&mut self)
        requires
            old(self).wf(),
            old(self).cycles <= CYCLE_CEILING,
        ensures
            final(self).wf(),
            final(self)@ == old(self)@.nmi_spec(),
    {
        self.stack_push_16(self.register_pc);
        let mut flags = self.flags;
        flags.set_uflag(true);
        flags.set_bflag(false);
        self.stack_push(flags.bits);
        self.flags.set_int(true);
        self.register_pc = self.mem_read_16(NMI_VECTOR);
        self.cycles = self.cycles + NMI_CYCLES;
        self.tick_ppu(NMI_CYCLES);
    }

    fn add_cycle(&mut self)
        requires
            old(self).cycles < u64::MAX,
        ensures
            final(self)@ == old(self)@.charge(1),
            final(self).bus == old(self).bus,
    {
        self.cycles = self.cycles + 1;
    }

    fn update_flags(&mut self, result: u8)
        ensures
            final(self)@ == old(self)@.set_nz(result),
            final(self).bus == old(self).bus,
    {
        self.flags.set_zero(result == 0);
        self.flags.set_negative(result & 0b1000_0000 != 0);
    }

    /// Effective address of memory `mode` for an operand at `addr`; a page
    /// crossing costs a cycle when `cycle_page` is set.
    pub fn get_absolute_address(&mut self, mode: &AddressingMode, addr: u16, cycle_page: bool) -> (r: u16)
        requires
            old(self).wf(),
            old(self).cycles < u64::MAX,
            is_memory_mode(*mode),
        ensures
            final(self).wf(),
            (final(self)@, r) == old(self)@.resolve_at(*mode, addr, cycle_page),
    {
        reveal(CpuState::absolute);
        reveal(CpuState::resolve_at);
        match mode {
            AddressingMode::ZeroPage => self.mem_read(addr) as u16,
            AddressingMode::Absolute => self.mem_read_16(addr),
            AddressingMode::ZeroPageX => {
                let pos = self.mem_read(addr);
                wrap_add8(pos, self.register_x) as u16
            },
            AddressingMode::ZeroPageY => {
                let pos = self.mem_read(addr);
                wrap_add8(pos, self.register_y) as u16
            },
            AddressingMode::AbsoluteX => {
                let base = self.mem_read_16(addr);
                let r = wrap_add16(base, self.register_x as u16);
                if cycle_page && base / 256 != r / 256 {
                    self.add_cycle();
                }
                r
            },
            AddressingMode::AbsoluteY => {
                let base = self.mem_read_16(addr);
                let r = wrap_add16(base, self.register_y as u16);
                if cycle_page && base / 256 != r / 256 {
                    self.add_cycle();
                }
                r
            },
            AddressingMode::IndirectX => {
                let base = self.mem_read(addr);
                let ptr = wrap_add8(base, self.register_x);
                let lo = self.mem_read(ptr as u16);
                let hi = self.mem_read(wrap_add8(ptr, 1) as u16);
                (lo as u16) + (hi as u16) * 256
            },
            _ => {
                let base = self.mem_read(addr);
                let lo = self.mem_read(base as u16);
                let hi = self.mem_read(wrap_add8(base, 1) as u16);
                let deref_base = (lo as u16) + (hi as u16) * 256;
                let deref = wrap_add16(deref_base, self.register_y as u16);
                if cycle_page && deref_base / 256 != deref / 256 {
                    self.add_cycle();
                }
                deref
            },
        }
    }

    fn get_operand_address(&mut self, mode: &AddressingMode, cycle_page: bool) -> (r: u16)
        requires
            old(self).wf(),
            old(self).cycles < u64::MAX,
        ensures
            final(self).wf(),
            (final(self)@, r) == old(self)@.resolve(*mode, cycle_page),
            final(self)@ == old(self)@ || final(self)@ == old(self)@.charge(1),
            !cycle_page ==> final(self)@ == old(self)@,
    {
        reveal(CpuState::resolve);
        proof {
            lemma_resolve_cycles(old(self)@, *mode, cycle_page);
        }
        match mode {
            AddressingMode::Immediate | AddressingMode::NoneAddressing => self.register_pc,
            _ => self.get_absolute_address(mode, self.register_pc, cycle_page),
        }
    }

    fn stack_push(&mut self, data: u8)
        requires
            old(self).wf(),
        ensures
            final(self).wf(),
            final(self)@ == old(self)@.push(data),
    {
        self.mem_write(STACK + self.register_sp as u16, data);
        self.register_sp = wrap_sub8(self.register_sp, 1);
    }

    fn stack_pop(&mut self) -> (r: u8)
        requires
            old(self).wf(),
        ensures
            final(self).wf(),
            (final(self)@, r) == old(self)@.pop(),
    {
        self.register_sp = wrap_add8(self.register_sp, 1);
        self.mem_read(STACK + self.register_sp as u16)
    }

    fn stack_push_16(&mut self, data: u16)
        requires
            old(self).wf(),
        ensures
            final(self).wf(),
            final(self)@ == old(self)@.push16(data),
    {
        let hi = (data / 256) as u8;
        let lo = (data % 256) as u8;
        self.stack_push(hi);
        self.stack_push(lo);
    }

    fn stack_pop_16(&mut self) -> (r: u16)
        requires
            old(self).wf(),
        ensures
            final(self).wf(),
            (final(self)@, r) == old(self)@.pop16(),
    {
        let lo = self.stack_pop() as u16;
        let hi = self.stack_pop() as u16;
        lo + hi * 256
    }

    fn add_to_reg_a(&mut self, data: u8)
        requires
            old(self).wf(),
        ensures
            final(self).wf(),
            final(self)@ == old(self)@.add_a(data),
    {
        let carry_in: u16 = if self.flags.carry() {
            1
        } else {
            0
        };
        let sum = self.register_a as u16 + data as u16 + carry_in;
        self.flags.set_carry(sum > 0xFF);
        let result = (sum % 256) as u8;
        self.flags.set_overflow((data ^ result) & (result ^ self.register_a) & 0x80 != 0);
        self.register_a = result;
        self.update_flags(result);
    }

    fn sub_from_reg_a(&mut self, data: u8)
        requires
            old(self).wf(),
        ensures
            final(self).wf(),
            final(self)@ == old(self)@.sub_a(data),
    {
        self.add_to_reg_a(!data);
    }

    fn and_with_reg_a(&mut self, data: u8)
        requires
            old(self).wf(),
        ensures
            final(self).wf(),
            final(self)@ == old(self)@.and_a(data),
    {
        self.register_a = self.register_a & data;
        self.update_flags(self.register_a);
    }

    fn or_with_reg_a(&mut self, data: u8)
        requires
            old(self).wf(),
        ensures
            final(self).wf(),
            final(self)@ == old(self)@.or_a(data),
    {
        self.register_a = self.register_a | data;
        self.update_flags(self.register_a);
    }

    fn xor_with_reg_a(&mut self, data: u8)
        requires
            old(self).wf(),
        ensures
            final(self).wf(),
            final(self)@ == old(self)@.xor_a(data),
    {
        self.register_a = self.register_a ^ data;
        self.update_flags(self.register_a);
    }

    fn branch(&mut self, condition: bool)
        requires
            old(self).wf(),
            old(self).cycles <= CYCLE_CEILING,
        ensures
            final(self).wf(),
            final(self)@ == old(self)@.branch_spec(condition),
    {
        if condition {
            let displacement = self.mem_read(self.register_pc);
            let next = wrap_add16(self.register_pc, 1);
            let offset: u16 = if displacement < 128 {
                displacement as u16
            } else {
                displacement as u16 + 0xFF00
            };
            let target = wrap_add16(next, offset);
            self.cycles = self.cycles + 1;
            if next / 256 != target / 256 {
                self.cycles = self.cycles + 1;
            }
            self.register_pc = target;
        }
    }

    fn compare(&mut self, mode: &AddressingMode, compare_with: u8)
        requires
            old(self).wf(),
            old(self).cycles <= CYCLE_CEILING,
        ensures
            final(self).wf(),
            final(self)@ == ({
                let (s, addr) = old(self)@.resolve(*mode, true);
                s.compare_with(compare_with, s.read(addr))
            }),
    {
        let addr = self.get_operand_address(mode, true);
        let data = self.mem_read(addr);
        self.flags.set_carry(compare_with >= data);
        self.update_flags(wrap_sub8(compare_with, data));
    }

    fn nop(&self) {
    }

    fn execute(&mut self, opcode: &OpCode)
        requires
            old(self).wf(),
            old(self).cycles <= CYCLE_CEILING,
        ensures
            final(self).wf(),
            final(self)@ == old(self)@.execute_spec(opcode.op, opcode.mode),
            old(self).cycles <= final(self).cycles <= old(self).cycles + 2,
    {
        proof {
            lemma_execute_cycles(old(self)@, opcode.op, opcode.mode);
        }
        match opcode.op {
            Op::Adc | Op::And | Op::Cmp | Op::Cpx | Op::Cpy | Op::Eor | Op::Lda | Op::Ldx | Op::Ldy | Op::Ora | Op::Sbc | Op::Lax | Op::Lxa | Op::NopRead | Op::Bit => self.execute_read(opcode.op, opcode.mode),
            Op::Asl | Op::Lsr | Op::Rol | Op::Ror | Op::Inc | Op::Dec | Op::AslA | Op::LsrA | Op::RolA | Op::RorA | Op::Sta | Op::Stx | Op::Sty | Op::Dcp | Op::Isb | Op::Rla | Op::Rra | Op::Slo | Op::Sre | Op::Sax => self.execute_modify(opcode.op, opcode.mode),
            Op::Bcc | Op::Bcs | Op::Beq | Op::Bmi | Op::Bne | Op::Bpl | Op::Bvc | Op::Bvs | Op::Brk | Op::JmpAbs | Op::JmpInd | Op::Jsr | Op::Rti | Op::Rts | Op::Pha | Op::Php | Op::Pla | Op::Plp => self.execute_flow(opcode.op, opcode.mode),
            Op::Clc | Op::Cld | Op::Cli | Op::Clv | Op::Sec | Op::Sed | Op::Sei | Op::Dex | Op::Dey | Op::Inx | Op::Iny | Op::Tax | Op::Tay | Op::Tsx | Op::Txa | Op::Txs | Op::Tya | Op::Nop | Op::Unop | Op::Skb => self.execute_register(opcode.op, opcode.mode),
            _ => self.execute_other(opcode.op, opcode.mode),
        }
    }

    fn execute_read(&mut self, op: Op, mode: AddressingMode)
        requires
            old(self).wf(),
            old(self).cycles <= CYCLE_CEILING,
            is_read_op(op),
        ensures
            final(self).wf(),
            final(self)@ == old(self)@.execute_spec(op, mode),
    {
        match op {
            Op::Adc | Op::And | Op::Cmp | Op::Cpx | Op::Cpy | Op::Eor | Op::Lda => self.execute_read_a(op, mode),
            _ => self.execute_read_b(op, mode),
        }
    }

    fn execute_read_a(&mut self, op: Op, mode: AddressingMode)
        requires
            old(self).wf(),
            old(self).cycles <= CYCLE_CEILING,
            matches!(op, Op::Adc | Op::And | Op::Cmp | Op::Cpx | Op::Cpy | Op::Eor | Op::Lda),
        ensures
            final(self).wf(),
            final(self)@ == old(self)@.execute_spec(op, mode),
    {
        match op {
            Op::Adc => self.adc(&mode),
            Op::And => self.and(&mode),
            Op::Cmp => self.cmp(&mode),
            Op::Cpx => self.cpx(&mode),
            Op::Cpy => self.cpy(&mode),
            Op::Eor => self.eor(&mode),
            Op::Lda => self.lda(&mode),
            _ => {},
        }
    }

    fn execute_read_b(&mut self, op: Op, mode: AddressingMode)
        requires
            old(self).wf(),
            old(self).cycles <= CYCLE_CEILING,
            matches!(op, Op::Ldx | Op::Ldy | Op::Ora | Op::Sbc | Op::Lax | Op::Lxa | Op::NopRead | Op::Bit),
        ensures
            final(self).wf(),
            final(self)@ == old(self)@.execute_spec(op, mode),
    {
        match op {
            Op::Ldx => self.ldx(&mode),
            Op::Ldy => self.ldy(&mode),
            Op::Ora => self.ora(&mode),
            Op::Sbc => self.sbc(&mode),
            Op::Lax => self.ulax(&mode),
            Op::Lxa => self.ulxa(&mode),
            Op::NopRead => self.unop_read(&mode),
            Op::Bit => self.bit(&mode),
            _ => {},
        }
    }

    fn execute_modify(&mut self, op: Op, mode: AddressingMode)
        requires
            old(self).wf(),
            old(self).cycles <= CYCLE_CEILING,
            is_modify_op(op),
        ensures
            final(self).wf(),
            final(self)@ == old(self)@.execute_spec(op, mode),
    {
        match op {
            Op::Asl | Op::Lsr | Op::Rol | Op::Ror | Op::Inc | Op::Dec | Op::AslA | Op::LsrA | Op::RolA | Op::RorA => self.execute_modify_a(op, mode),
            _ => self.execute_modify_b(op, mode),
        }
    }

    fn execute_modify_a(&mut self, op: Op, mode: AddressingMode)
        requires
            old(self).wf(),
            old(self).cycles <= CYCLE_CEILING,
            matches!(op, Op::Asl | Op::Lsr | Op::Rol | Op::Ror | Op::Inc | Op::Dec | Op::AslA | Op::LsrA | Op::RolA | Op::RorA),
        ensures
            final(self).wf(),
            final(self)@ == old(self)@.execute_spec(op, mode),
    {
        match op {
            Op::Asl => {
                self.asl(&mode);
            },
            Op::Lsr => {
                self.lsr(&mode);
            },
            Op::Rol => {
                self.rol(&mode);
            },
            Op::Ror => {
                self.ror(&mode);
            },
            Op::Inc => {
                self.inc(&mode);
            },
            Op::Dec => self.dec(&mode),
            Op::AslA => self.asl_a(),
            Op::LsrA => self.lsr_a(),
            Op::RolA => self.rol_a(),
            Op::RorA => self.ror_a(),
            _ => {},
        }
    }

    fn execute_modify_b(&mut self, op: Op, mode: AddressingMode)
        requires
            old(self).wf(),
            old(self).cycles <= CYCLE_CEILING,
            matches!(op, Op::Sta | Op::Stx | Op::Sty | Op::Dcp | Op::Isb | Op::Rla | Op::Rra | Op::Slo | Op::Sre | Op::Sax),
        ensures
            final(self).wf(),
            final(self)@ == old(self)@.execute_spec(op, mode),
    {
        match op {
            Op::Sta => self.sta(&mode),
            Op::Stx => self.stx(&mode),
            Op::Sty => self.sty(&mode),
            Op::Dcp => self.udcp(&mode),
            Op::Isb => self.uisb(&mode),
            Op::Rla => self.urla(&mode),
            Op::Rra => self.urra(&mode),
            Op::Slo => self.uslo(&mode),
            Op::Sre => self.usre(&mode),
            Op::Sax => self.usax(&mode),
            _ => {},
        }
    }

    fn execute_flow(&mut self, op: Op, mode: AddressingMode)
        requires
            old(self).wf(),
            old(self).cycles <= CYCLE_CEILING,
            is_flow_op(op),
        ensures
            final(self).wf(),
            final(self)@ == old(self)@.execute_spec(op, mode),
    {
        match op {
            Op::Bcc => self.bcc(),
            Op::Bcs => self.bcs(),
            Op::Beq => self.beq(),
            Op::Bmi => self.bmi(),
            Op::Bne => self.bne(),
            Op::Bpl => self.bpl(),
            Op::Bvc => self.bvc(),
            Op::Bvs => self.bvs(),
            Op::Brk => self.brk(),
            Op::JmpAbs => self.jmp_abs(),
            Op::JmpInd => self.jmp_ind(),
            Op::Jsr => self.jsr(),
            Op::Rti => self.rti(),
            Op::Rts => self.rts(),
            Op::Pha => self.pha(),
            Op::Php => self.php(),
            Op::Pla => self.pla(),
            Op::Plp => self.plp(),
            _ => {},
        }
    }

    fn execute_register(&mut self, op: Op, mode: AddressingMode)
        requires
            old(self).wf(),
            old(self).cycles <= CYCLE_CEILING,
            is_register_op(op),
        ensures
            final(self).wf(),
            final(self)@ == old(self)@.execute_spec(op, mode),
    {
        match op {
            Op::Clc => self.clc(),
            Op::Cld => self.cld(),
            Op::Cli => self.cli(),
            Op::Clv => self.clv(),
            Op::Sec => self.sec(),
            Op::Sed => self.sed(),
            Op::Sei => self.sei(),
            Op::Dex => self.dex(),
            Op::Dey => self.dey(),
            Op::Inx => self.inx(),
            Op::Iny => self.iny(),
            Op::Tax => self.tax(),
            Op::Tay => self.tay(),
            Op::Tsx => self.tsx(),
            Op::Txa => self.txa(),
            Op::Txs => self.txs(),
            Op::Tya => self.tya(),
            Op::Nop => self.nop(),
            Op::Unop => self.unop(),
            Op::Skb => self.uskb(),
            _ => {},
        }
    }

    fn execute_other(&mut self, op: Op, mode: AddressingMode)
        requires
            old(self).wf(),
            old(self).cycles <= CYCLE_CEILING,
            is_other_op(op),
        ensures
            final(self).wf(),
            final(self)@ == old(self)@.execute_spec(op, mode),
    {
        match op {
            Op::AhxAy => self.uahx_ay(),
            Op::AhxIy => self.uahx_iy(),
            Op::Alr => self.ualr(&mode),
            Op::Anc => self.uanc(&mode),
            Op::Arr => self.uarr(&mode),
            Op::Axs => self.uaxs(&mode),
            Op::Las => self.ulas(&mode),
            Op::Usbc => self.usbc(&mode),
            Op::Shx => self.ushx(),
            Op::Shy => self.ushy(),
            Op::Tas => self.utas(),
            Op::Xaa => self.uxaa(&mode),
            _ => {},
        }
    }

    /// ADC: add memory and carry to A.
    fn adc(&mut self, mode: &AddressingMode)
        requires
            old(self).wf(),
            old(self).cycles <= CYCLE_CEILING,
        ensures
            final(self).wf(),
            final(self)@ == old(self)@.adc_spec(*mode),
    {
        let addr = self.get_operand_address(mode, true);
        let value = self.mem_read(addr);
        self.add_to_reg_a(value);
    }

    /// AND: A &= memory.
    fn and(&mut self, mode: &AddressingMode)
        requires
            old(self).wf(),
            old(self).cycles <= CYCLE_CEILING,
        ensures
            final(self).wf(),
            final(self)@ == old(self)@.and_spec(*mode),
    {
        let addr = self.get_operand_address(mode, true);
        let value = self.mem_read(addr);
        self.and_with_reg_a(value);
    }

    /// ASL A: shift A left.
    fn asl_a(&mut self)
        requires
            old(self).wf(),
        ensures
            final(self).wf(),
            final(self)@ == old(self)@.asl_a_spec(),
    {
        let data = self.register_a;
        self.flags.set_carry(data >> 7 == 1);
        self.register_a = data << 1;
        self.update_flags(self.register_a);
    }

    /// ASL: shift memory left; returns the new value.
    fn asl(&mut self, mode: &AddressingMode) -> (r: u8)
        requires
            old(self).wf(),
            old(self).cycles <= CYCLE_CEILING,
        ensures
            final(self).wf(),
            (final(self)@, r) == old(self)@.modify(*mode, Op::Asl),
    {
        reveal(CpuState::modify);
        let addr = self.get_operand_address(mode, false);
        let data = self.mem_read(addr);
        self.flags.set_carry(data >> 7 == 1);
        let result = data << 1;
        self.mem_write(addr, result);
        self.update_flags(result);
        result
    }

    /// BCC: branch if carry clear.
    fn bcc(&mut self)
        requires
            old(self).wf(),
            old(self).cycles <= CYCLE_CEILING,
        ensures
            final(self).wf(),
            final(self)@ == old(self)@.bcc_spec(),
    {
        let condition = !self.flags.carry();
        self.branch(condition);
    }

    /// BCS: branch if carry set.
    fn bcs(&mut self)
        requires
            old(self).wf(),
            old(self).cycles <= CYCLE_CEILING,
        ensures
            final(self).wf(),
            final(self)@ == old(self)@.bcs_spec(),
    {
        let condition = self.flags.carry();
        self.branch(condition);
    }

    /// BEQ: branch if zero set.
    fn beq(&mut self)
        requires
            old(self).wf(),
            old(self).cycles <= CYCLE_CEILING,
        ensures
            final(self).wf(),
            final(self)@ == old(self)@.beq_spec(),
    {
        let condition = self.flags.zero();
        self.branch(condition);
    }

    /// BMI: branch if negative set.
    fn bmi(&mut self)
        requires
            old(self).wf(),
            old(self).cycles <= CYCLE_CEILING,
        ensures
            final(self).wf(),
            final(self)@ == old(self)@.bmi_spec(),
    {
        let condition = self.flags.negative();
        self.branch(condition);
    }

    /// BNE: branch if zero clear.
    fn bne(&mut self)
        requires
            old(self).wf(),
            old(self).cycles <= CYCLE_CEILING,
        ensures
            final(self).wf(),
            final(self)@ == old(self)@.bne_spec(),
    {
        let condition = !self.flags.zero();
        self.branch(condition);
    }

    /// BPL: branch if negative clear.
    fn bpl(&mut self)
        requires
            old(self).wf(),
            old(self).cycles <= CYCLE_CEILING,
        ensures
            final(self).wf(),
            final(self)@ == old(self)@.bpl_spec(),
    {
        let condition = !self.flags.negative();
        self.branch(condition);
    }

    /// BVC: branch if overflow clear.
    fn bvc(&mut self)
        requires
            old(self).wf(),
            old(self).cycles <= CYCLE_CEILING,
        ensures
            final(self).wf(),
            final(self)@ == old(self)@.bvc_spec(),
    {
        let condition = !self.flags.overflow();
        self.branch(condition);
    }

    /// BVS: branch if overflow set.
    fn bvs(&mut self)
        requires
            old(self).wf(),
            old(self).cycles <= CYCLE_CEILING,
        ensures
            final(self).wf(),
            final(self)@ == old(self)@.bvs_spec(),
    {
        let condition = self.flags.overflow();
        self.branch(condition);
    }

    /// BIT: test memory against A.
    fn bit(&mut self, mode: &AddressingMode)
        requires
            old(self).wf(),
            old(self).cycles <= CYCLE_CEILING,
        ensures
            final(self).wf(),
            final(self)@ == old(self)@.bit_spec(*mode),
    {
        let addr = self.get_operand_address(mode, false);
        let data = self.mem_read(addr);
        self.flags.set_zero(self.register_a & data == 0);
        self.flags.set_negative(data & 0b1000_0000 != 0);
        self.flags.set_overflow(data & 0b0100_0000 != 0);
    }

    /// BRK: push the return address and status, jump through the IRQ vector.
    fn brk(&mut self)
        requires
            old(self).wf(),
        ensures
            final(self).wf(),
            final(self)@ == old(self)@.brk_spec(),
    {
        self.stack_push_16(wrap_add16(self.register_pc, 1));
        let mut flags = self.flags;
        flags.set_bflag(true);
        flags.set_uflag(true);
        self.stack_push(flags.bits);
        self.flags.set_int(true);
        self.register_pc = self.mem_read_16(IRQ_VECTOR);
    }

    /// CLC: clear carry.
    fn clc(&mut self)
        requires
            old(self).wf(),
        ensures
            final(self).wf(),
            final(self)@ == old(self)@.clc_spec(),
    {
        self.flags.set_carry(false);
    }

    /// CLD: clear decimal.
    fn cld(&mut self)
        requires
            old(self).wf(),
        ensures
            final(self).wf(),
            final(self)@ == old(self)@.cld_spec(),
    {
        self.flags.set_decimal(false);
    }

    /// CLI: clear interrupt disable.
    fn cli(&mut self)
        requires
            old(self).wf(),
        ensures
            final(self).wf(),
            final(self)@ == old(self)@.cli_spec(),
    {
        self.flags.set_int(false);
    }

    /// CLV: clear overflow.
    fn clv(&mut self)
        requires
            old(self).wf(),
        ensures
            final(self).wf(),
            final(self)@ == old(self)@.clv_spec(),
    {
        self.flags.set_overflow(false);
    }

    /// SEC: set carry.
    fn sec(&mut self)
        requires
            old(self).wf(),
        ensures
            final(self).wf(),
            final(self)@ == old(self)@.sec_spec(),
    {
        self.flags.set_carry(true);
    }

    /// SED: set decimal.
    fn sed(&mut self)
        requires
            old(self).wf(),
        ensures
            final(self).wf(),
            final(self)@ == old(self)@.sed_spec(),
    {
        self.flags.set_decimal(true);
    }

    /// SEI: set interrupt disable.
    fn sei(&mut self)
        requires
            old(self).wf(),
        ensures
            final(self).wf(),
            final(self)@ == old(self)@.sei_spec(),
    {
        self.flags.set_int(true);
    }

    /// CMP: compare A with memory.
    fn cmp(&mut self, mode: &AddressingMode)
        requires
            old(self).wf(),
            old(self).cycles <= CYCLE_CEILING,
        ensures
            final(self).wf(),
            final(self)@ == old(self)@.cmp_spec(*mode),
    {
        self.compare(mode, self.register_a);
    }

    /// CPX: compare X with memory.
    fn cpx(&mut self, mode: &AddressingMode)
        requires
            old(self).wf(),
            old(self).cycles <= CYCLE_CEILING,
        ensures
            final(self).wf(),
            final(self)@ == old(self)@.cpx_spec(*mode),
    {
        self.compare(mode, self.register_x);
    }

    /// CPY: compare Y with memory.
    fn cpy(&mut self, mode: &AddressingMode)
        requires
            old(self).wf(),
            old(self).cycles <= CYCLE_CEILING,
        ensures
            final(self).wf(),
            final(self)@ == old(self)@.cpy_spec(*mode),
    {
        self.compare(mode, self.register_y);
    }

    /// DEC: decrement memory.
    fn dec(&mut self, mode: &AddressingMode)
        requires
            old(self).wf(),
            old(self).cycles <= CYCLE_CEILING,
        ensures
            final(self).wf(),
            final(self)@ == old(self)@.modify(*mode, Op::Dec).0,
    {
        reveal(CpuState::modify);
        let addr = self.get_operand_address(mode, false);
        let data = wrap_sub8(self.mem_read(addr), 1);
        self.mem_write(addr, data);
        self.update_flags(data);
    }

    /// DEX: decrement X.
    fn dex(&mut self)
        requires
            old(self).wf(),
        ensures
            final(self).wf(),
            final(self)@ == old(self)@.dex_spec(),
    {
        self.register_x = wrap_sub8(self.register_x, 1);
        self.update_flags(self.register_x);
    }

    /// DEY: decrement Y.
    fn dey(&mut self)
        requires
            old(self).wf(),
        ensures
            final(self).wf(),
            final(self)@ == old(self)@.dey_spec(),
    {
        self.register_y = wrap_sub8(self.register_y, 1);
        self.update_flags(self.register_y);
    }

    /// EOR: A ^= memory.
    fn eor(&mut self, mode: &AddressingMode)
        requires
            old(self).wf(),
            old(self).cycles <= CYCLE_CEILING,
        ensures
            final(self).wf(),
            final(self)@ == old(self)@.eor_spec(*mode),
    {
        let addr = self.get_operand_address(mode, true);
        let value = self.mem_read(addr);
        self.xor_with_reg_a(value);
    }

    /// INC: increment memory; returns the new value.
    fn inc(&mut self, mode: &AddressingMode) -> (r: u8)
        requires
            old(self).wf(),
            old(self).cycles <= CYCLE_CEILING,
        ensures
            final(self).wf(),
            (final(self)@, r) == old(self)@.modify(*mode, Op::Inc),
    {
        reveal(CpuState::modify);
        let addr = self.get_operand_address(mode, false);
        let data = wrap_add8(self.mem_read(addr), 1);
        self.mem_write(addr, data);
        self.update_flags(data);
        data
    }

    /// INX: increment X.
    fn inx(&mut self)
        requires
            old(self).wf(),
        ensures
            final(self).wf(),
            final(self)@ == old(self)@.inx_spec(),
    {
        self.register_x = wrap_add8(self.register_x, 1);
        self.update_flags(self.register_x);
    }

    /// INY: increment Y.
    fn iny(&mut self)
        requires
            old(self).wf(),
        ensures
            final(self).wf(),
            final(self)@ == old(self)@.iny_spec(),
    {
        self.register_y = wrap_add8(self.register_y, 1);
        self.update_flags(self.register_y);
    }

    /// JMP absolute.
    fn jmp_abs(&mut self)
        requires
            old(self).wf(),
        ensures
            final(self).wf(),
            final(self)@ == old(self)@.jmp_abs_spec(),
    {
        self.register_pc = self.mem_read_16(self.register_pc);
    }

    /// JMP indirect, with the NMOS 6502's page wrap of the pointer.
    fn jmp_ind(&mut self)
        requires
            old(self).wf(),
        ensures
            final(self).wf(),
            final(self)@ == old(self)@.jmp_ind_spec(),
    {
        let addr = self.mem_read_16(self.register_pc);
        let target = if addr % 256 == 0xFF {
            let lo = self.mem_read(addr);
            let hi = self.mem_read(addr - 0xFF);
            (lo as u16) + (hi as u16) * 256
        } else {
            self.mem_read_16(addr)
        };
        self.register_pc = target;
    }

    /// JSR: push the address of the last operand byte, jump.
    fn jsr(&mut self)
        requires
            old(self).wf(),
        ensures
            final(self).wf(),
            final(self)@ == old(self)@.jsr_spec(),
    {
        let target = self.mem_read_16(self.register_pc);
        self.stack_push_16(wrap_add16(self.register_pc, 1));
        self.register_pc = target;
    }

    /// LDA: load A.
    fn lda(&mut self, mode: &AddressingMode)
        requires
            old(self).wf(),
            old(self).cycles <= CYCLE_CEILING,
        ensures
            final(self).wf(),
            final(self)@ == old(self)@.lda_spec(*mode),
    {
        let addr = self.get_operand_address(mode, true);
        let value = self.mem_read(addr);
        self.register_a = value;
        self.update_flags(value);
    }

    /// LDX: load X.
    fn ldx(&mut self, mode: &AddressingMode)
        requires
            old(self).wf(),
            old(self).cycles <= CYCLE_CEILING,
        ensures
            final(self).wf(),
            final(self)@ == old(self)@.ldx_spec(*mode),
    {
        let addr = self.get_operand_address(mode, true);
        let value = self.mem_read(addr);
        self.register_x = value;
        self.update_flags(value);
    }

    /// LDY: load Y.
    fn ldy(&mut self, mode: &AddressingMode)
        requires
            old(self).wf(),
            old(self).cycles <= CYCLE_CEILING,
        ensures
            final(self).wf(),
            final(self)@ == old(self)@.ldy_spec(*mode),
    {
        let addr = self.get_operand_address(mode, true);
        let value = self.mem_read(addr);
        self.register_y = value;
        self.update_flags(value);
    }

    /// LSR A: shift A right.
    fn lsr_a(&mut self)
        requires
            old(self).wf(),
        ensures
            final(self).wf(),
            final(self)@ == old(self)@.lsr_a_spec(),
    {
        let data = self.register_a;
        self.flags.set_carry(data & 1 == 1);
        self.register_a = data >> 1;
        self.update_flags(self.register_a);
    }

    /// LSR: shift memory right; returns the new value.
    fn lsr(&mut self, mode: &AddressingMode) -> (r: u8)
        requires
            old(self).wf(),
            old(self).cycles <= CYCLE_CEILING,
        ensures
            final(self).wf(),
            (final(self)@, r) == old(self)@.modify(*mode, Op::Lsr),
    {
        reveal(CpuState::modify);
        let addr = self.get_operand_address(mode, false);
        let data = self.mem_read(addr);
        self.flags.set_carry(data & 1 == 1);
        let result = data >> 1;
        self.mem_write(addr, result);
        self.update_flags(result);
        result
    }

    /// ORA: A |= memory.
    fn ora(&mut self, mode: &AddressingMode)
        requires
            old(self).wf(),
            old(self).cycles <= CYCLE_CEILING,
        ensures
            final(self).wf(),
            final(self)@ == old(self)@.ora_spec(*mode),
    {
        let addr = self.get_operand_address(mode, true);
        let value = self.mem_read(addr);
        self.or_with_reg_a(value);
    }

    /// PHA: push A.
    fn pha(&mut self)
        requires
            old(self).wf(),
        ensures
            final(self).wf(),
            final(self)@ == old(self)@.pha_spec(),
    {
        self.stack_push(self.register_a);
    }

    /// PHP: push the status with Break and the unused bit set.
    fn php(&mut self)
        requires
            old(self).wf(),
        ensures
            final(self).wf(),
            final(self)@ == old(self)@.php_spec(),
    {
        let mut flags = self.flags;
        flags.set_bflag(true);
        flags.set_uflag(true);
        self.stack_push(flags.bits);
    }

    /// PLA: pull A.
    fn pla(&mut self)
        requires
            old(self).wf(),
        ensures
            final(self).wf(),
            final(self)@ == old(self)@.pla_spec(),
    {
        let data = self.stack_pop();
        self.register_a = data;
        self.update_flags(data);
    }

    /// PLP: pull the status, Break clear and the unused bit set.
    fn plp(&mut self)
        requires
            old(self).wf(),
        ensures
            final(self).wf(),
            final(self)@ == old(self)@.plp_spec(),
    {
        self.flags.bits = self.stack_pop();
        self.flags.set_bflag(false);
        self.flags.set_uflag(true);
    }

    /// ROL A: rotate A left through carry.
    fn rol_a(&mut self)
        requires
            old(self).wf(),
        ensures
            final(self).wf(),
            final(self)@ == old(self)@.rol_a_spec(),
    {
        let data = self.register_a;
        let old_carry: u8 = if self.flags.carry() {
            1
        } else {
            0
        };
        self.flags.set_carry(data >> 7 == 1);
        let result = (data << 1) | old_carry;
        self.register_a = result;
        self.update_flags(result);
    }

    /// ROL: rotate memory left through carry; returns the new value.
    fn rol(&mut self, mode: &AddressingMode) -> (r: u8)
        requires
            old(self).wf(),
            old(self).cycles <= CYCLE_CEILING,
        ensures
            final(self).wf(),
            (final(self)@, r) == old(self)@.modify(*mode, Op::Rol),
    {
        reveal(CpuState::modify);
        let old_carry: u8 = if self.flags.carry() {
            1
        } else {
            0
        };
        let addr = self.get_operand_address(mode, false);
        let data = self.mem_read(addr);
        self.flags.set_carry(data >> 7 == 1);
        let result = (data << 1) | old_carry;
        self.mem_write(addr, result);
        self.update_flags(result);
        result
    }

    /// ROR A: rotate A right through carry.
    fn ror_a(&mut self)
        requires
            old(self).wf(),
        ensures
            final(self).wf(),
            final(self)@ == old(self)@.ror_a_spec(),
    {
        let data = self.register_a;
        let old_carry = self.flags.carry();
        self.flags.set_carry(data & 1 == 1);
        let result = if old_carry {
            (data >> 1) | 0b1000_0000
        } else {
            data >> 1
        };
        self.register_a = result;
        self.update_flags(result);
    }

    /// ROR: rotate memory right through carry; returns the new value.
    fn ror(&mut self, mode: &AddressingMode) -> (r: u8)
        requires
            old(self).wf(),
            old(self).cycles <= CYCLE_CEILING,
        ensures
            final(self).wf(),
            (final(self)@, r) == old(self)@.modify(*mode, Op::Ror),
    {
        reveal(CpuState::modify);
        let old_carry = self.flags.carry();
        let addr = self.get_operand_address(mode, false);
        let data = self.mem_read(addr);
        self.flags.set_carry(data & 1 == 1);
        let result = if old_carry {
            (data >> 1) | 0b1000_0000
        } else {
            data >> 1
        };
        self.mem_write(addr, result);
        self.update_flags(result);
        result
    }

    /// RTI: pull the status, then the return address.
    fn rti(&mut self)
        requires
            old(self).wf(),
        ensures
            final(self).wf(),
            final(self)@ == old(self)@.rti_spec(),
    {
        self.flags.bits = self.stack_pop();
        self.flags.set_bflag(false);
        self.flags.set_uflag(true);
        self.register_pc = self.stack_pop_16();
    }

    /// RTS: pull the return address and add one.
    fn rts(&mut self)
        requires
            old(self).wf(),
        ensures
            final(self).wf(),
            final(self)@ == old(self)@.rts_spec(),
    {
        let ret = self.stack_pop_16();
        self.register_pc = wrap_add16(ret, 1);
    }

    /// SBC: subtract memory and borrow from A.
    fn sbc(&mut self, mode: &AddressingMode)
        requires
            old(self).wf(),
            old(self).cycles <= CYCLE_CEILING,
        ensures
            final(self).wf(),
            final(self)@ == old(self)@.sbc_spec(*mode),
    {
        let addr = self.get_operand_address(mode, true);
        let value = self.mem_read(addr);
        self.sub_from_reg_a(value);
    }

    /// STA: store A.
    fn sta(&mut self, mode: &AddressingMode)
        requires
            old(self).wf(),
            old(self).cycles <= CYCLE_CEILING,
        ensures
            final(self).wf(),
            final(self)@ == old(self)@.sta_spec(*mode),
    {
        let addr = self.get_operand_address(mode, false);
        self.mem_write(addr, self.register_a);
    }

    /// STX: store X.
    fn stx(&mut self, mode: &AddressingMode)
        requires
            old(self).wf(),
            old(self).cycles <= CYCLE_CEILING,
        ensures
            final(self).wf(),
            final(self)@ == old(self)@.stx_spec(*mode),
    {
        let addr = self.get_operand_address(mode, false);
        self.mem_write(addr, self.register_x);
    }

    /// STY: store Y.
    fn sty(&mut self, mode: &AddressingMode)
        requires
            old(self).wf(),
            old(self).cycles <= CYCLE_CEILING,
        ensures
            final(self).wf(),
            final(self)@ == old(self)@.sty_spec(*mode),
    {
        let addr = self.get_operand_address(mode, false);
        self.mem_write(addr, self.register_y);
    }

    /// TAX: X = A.
    fn tax(&mut self)
        requires
            old(self).wf(),
        ensures
            final(self).wf(),
            final(self)@ == old(self)@.tax_spec(),
    {
        self.register_x = self.register_a;
        self.update_flags(self.register_x);
    }

    /// TAY: Y = A.
    fn tay(&mut self)
        requires
            old(self).wf(),
        ensures
            final(self).wf(),
            final(self)@ == old(self)@.tay_spec(),
    {
        self.register_y = self.register_a;
        self.update_flags(self.register_y);
    }

    /// TSX: X = SP.
    fn tsx(&mut self)
        requires
            old(self).wf(),
        ensures
            final(self).wf(),
            final(self)@ == old(self)@.tsx_spec(),
    {
        self.register_x = self.register_sp;
        self.update_flags(self.register_x);
    }

    /// TXA: A = X.
    fn txa(&mut self)
        requires
            old(self).wf(),
        ensures
            final(self).wf(),
            final(self)@ == old(self)@.txa_spec(),
    {
        self.register_a = self.register_x;
        self.update_flags(self.register_a);
    }

    /// TXS: SP = X.
    fn txs(&mut self)
        requires
            old(self).wf(),
        ensures
            final(self).wf(),
            final(self)@ == old(self)@.txs_spec(),
    {
        self.register_sp = self.register_x;
    }

    /// TYA: A = Y.
    fn tya(&mut self)
        requires
            old(self).wf(),
        ensures
            final(self).wf(),
            final(self)@ == old(self)@.tya_spec(),
    {
        self.register_a = self.register_y;
        self.update_flags(self.register_a);
    }

    /// AHX absolute,Y: store A & X & the high byte of the address.
    fn uahx_ay(&mut self)
        requires
            old(self).wf(),
        ensures
            final(self).wf(),
            final(self)@ == old(self)@.ahx_ay_spec(),
    {
        let addr = wrap_add16(self.mem_read_16(self.register_pc), self.register_y as u16);
        let data = self.register_a & self.register_x & ((addr / 256) as u8);
        self.mem_write(addr, data);
    }

    /// AHX (indirect),Y: store A & X & the high byte of the address.
    fn uahx_iy(&mut self)
        requires
            old(self).wf(),
        ensures
            final(self).wf(),
            final(self)@ == old(self)@.ahx_iy_spec(),
    {
        let pos = self.mem_read(self.register_pc);
        let addr = wrap_add16(self.mem_read_16(pos as u16), self.register_y as u16);
        let data = self.register_a & self.register_x & ((addr / 256) as u8);
        self.mem_write(addr, data);
    }

    /// ALR: AND then LSR A.
    fn ualr(&mut self, mode: &AddressingMode)
        requires
            old(self).wf(),
            old(self).cycles <= CYCLE_CEILING,
        ensures
            final(self).wf(),
            final(self)@ == old(self)@.alr_spec(*mode),
    {
        let addr = self.get_operand_address(mode, false);
        let data = self.mem_read(addr);
        self.and_with_reg_a(data);
        self.lsr_a();
    }

    /// ANC: AND, then carry from negative.
    fn uanc(&mut self, mode: &AddressingMode)
        requires
            old(self).wf(),
            old(self).cycles <= CYCLE_CEILING,
        ensures
            final(self).wf(),
            final(self)@ == old(self)@.anc_spec(*mode),
    {
        let addr = self.get_operand_address(mode, false);
        let data = self.mem_read(addr);
        self.and_with_reg_a(data);
        let negative = self.flags.negative();
        self.flags.set_carry(negative);
    }

    /// ARR: AND then ROR A, with carry from bit 6 and overflow from bits 5 and 6.
    fn uarr(&mut self, mode: &AddressingMode)
        requires
            old(self).wf(),
            old(self).cycles <= CYCLE_CEILING,
        ensures
            final(self).wf(),
            final(self)@ == old(self)@.arr_spec(*mode),
    {
        let addr = self.get_operand_address(mode, false);
        let data = self.mem_read(addr);
        self.and_with_reg_a(data);
        self.ror_a();
        let result = self.register_a;
        let bit5 = (result >> 5) & 1;
        let bit6 = (result >> 6) & 1;
        self.flags.set_carry(bit6 == 1);
        self.flags.set_overflow(bit5 ^ bit6 == 1);
        self.update_flags(result);
    }

    /// AXS: X = (A & X) - memory, without borrow.
    fn uaxs(&mut self, mode: &AddressingMode)
        requires
            old(self).wf(),
            old(self).cycles <= CYCLE_CEILING,
        ensures
            final(self).wf(),
            final(self)@ == old(self)@.axs_spec(*mode),
    {
        let addr = self.get_operand_address(mode, false);
        let data = self.mem_read(addr);
        let x_and_a = self.register_a & self.register_x;
        let result = wrap_sub8(x_and_a, data);
        self.flags.set_carry(data <= x_and_a);
        self.update_flags(result);
        self.register_x = result;
    }

    /// DCP: decrement memory, then compare with A.
    fn udcp(&mut self, mode: &AddressingMode)
        requires
            old(self).wf(),
            old(self).cycles <= CYCLE_CEILING,
        ensures
            final(self).wf(),
            final(self)@ == old(self)@.dcp_spec(*mode),
    {
        let addr = self.get_operand_address(mode, false);
        let data = wrap_sub8(self.mem_read(addr), 1);
        self.mem_write(addr, data);
        self.flags.set_carry(data <= self.register_a);
        self.update_flags(wrap_sub8(self.register_a, data));
    }

    /// ISB: increment memory, then subtract it from A.
    fn uisb(&mut self, mode: &AddressingMode)
        requires
            old(self).wf(),
            old(self).cycles <= CYCLE_CEILING,
        ensures
            final(self).wf(),
            final(self)@ == old(self)@.isb_spec(*mode),
    {
        let data = self.inc(mode);
        self.sub_from_reg_a(data);
    }

    /// LAS: A, X and SP get memory & SP.
    fn ulas(&mut self, mode: &AddressingMode)
        requires
            old(self).wf(),
            old(self).cycles <= CYCLE_CEILING,
        ensures
            final(self).wf(),
            final(self)@ == old(self)@.las_spec(*mode),
    {
        let addr = self.get_operand_address(mode, false);
        let data = self.mem_read(addr);
        let value = data & self.register_sp;
        self.register_a = value;
        self.register_x = value;
        self.register_sp = value;
        self.update_flags(value);
    }

    /// LAX: load A and X.
    fn ulax(&mut self, mode: &AddressingMode)
        requires
            old(self).wf(),
            old(self).cycles <= CYCLE_CEILING,
        ensures
            final(self).wf(),
            final(self)@ == old(self)@.lax_spec(*mode),
    {
        let addr = self.get_operand_address(mode, true);
        let value = self.mem_read(addr);
        self.register_a = value;
        self.register_x = value;
        self.update_flags(value);
    }

    /// LXA: load A, then transfer it to X.
    fn ulxa(&mut self, mode: &AddressingMode)
        requires
            old(self).wf(),
            old(self).cycles <= CYCLE_CEILING,
        ensures
            final(self).wf(),
            final(self)@ == old(self)@.lxa_spec(*mode),
    {
        self.lda(mode);
        self.tax();
    }

    /// Undocumented one-byte NOP.
    fn unop(&mut self)
        requires
            old(self).wf(),
            old(self).cycles <= CYCLE_CEILING,
        ensures
            final(self).wf(),
            final(self)@ == old(self)@,
    {
    }

    /// Undocumented NOP that reads its operand.
    fn unop_read(&mut self, mode: &AddressingMode)
        requires
            old(self).wf(),
            old(self).cycles <= CYCLE_CEILING,
        ensures
            final(self).wf(),
            final(self)@ == old(self)@.nop_read_spec(*mode),
    {
        let addr = self.get_operand_address(mode, true);
        let _data = self.mem_read(addr);
    }

    /// RLA: ROL memory, then AND with A.
    fn urla(&mut self, mode: &AddressingMode)
        requires
            old(self).wf(),
            old(self).cycles <= CYCLE_CEILING,
        ensures
            final(self).wf(),
            final(self)@ == old(self)@.rla_spec(*mode),
    {
        let data = self.rol(mode);
        self.and_with_reg_a(data);
    }

    /// RRA: ROR memory, then ADC.
    fn urra(&mut self, mode: &AddressingMode)
        requires
            old(self).wf(),
            old(self).cycles <= CYCLE_CEILING,
        ensures
            final(self).wf(),
            final(self)@ == old(self)@.rra_spec(*mode),
    {
        let data = self.ror(mode);
        self.add_to_reg_a(data);
    }

    /// SAX: store A & X.
    fn usax(&mut self, mode: &AddressingMode)
        requires
            old(self).wf(),
            old(self).cycles <= CYCLE_CEILING,
        ensures
            final(self).wf(),
            final(self)@ == old(self)@.sax_spec(*mode),
    {
        let data = self.register_a & self.register_x;
        let addr = self.get_operand_address(mode, false);
        self.mem_write(addr, data);
    }

    /// SBC immediate, undocumented encoding.
    fn usbc(&mut self, mode: &AddressingMode)
        requires
            old(self).wf(),
            old(self).cycles <= CYCLE_CEILING,
        ensures
            final(self).wf(),
            final(self)@ == old(self)@.usbc_spec(*mode),
    {
        let addr = self.get_operand_address(mode, false);
        let data = self.mem_read(addr);
        self.sub_from_reg_a(data);
    }

    /// SHX: store X & (high byte + 1).
    fn ushx(&mut self)
        requires
            old(self).wf(),
        ensures
            final(self).wf(),
            final(self)@ == old(self)@.shx_spec(),
    {
        let addr = wrap_add16(self.mem_read_16(self.register_pc), self.register_y as u16);
        let data = self.register_x & wrap_add8((addr / 256) as u8, 1);
        self.mem_write(addr, data);
    }

    /// SHY: store Y & (high byte + 1).
    fn ushy(&mut self)
        requires
            old(self).wf(),
        ensures
            final(self).wf(),
            final(self)@ == old(self)@.shy_spec(),
    {
        let addr = wrap_add16(self.mem_read_16(self.register_pc), self.register_x as u16);
        let data = self.register_y & wrap_add8((addr / 256) as u8, 1);
        self.mem_write(addr, data);
    }

    /// Undocumented two-byte NOP.
    fn uskb(&mut self)
        requires
            old(self).wf(),
            old(self).cycles <= CYCLE_CEILING,
        ensures
            final(self).wf(),
            final(self)@ == old(self)@,
    {
    }

    /// SLO: ASL memory, then ORA.
    fn uslo(&mut self, mode: &AddressingMode)
        requires
            old(self).wf(),
            old(self).cycles <= CYCLE_CEILING,
        ensures
            final(self).wf(),
            final(self)@ == old(self)@.slo_spec(*mode),
    {
        let data = self.asl(mode);
        self.or_with_reg_a(data);
    }

    /// SRE: LSR memory, then EOR.
    fn usre(&mut self, mode: &AddressingMode)
        requires
            old(self).wf(),
            old(self).cycles <= CYCLE_CEILING,
        ensures
            final(self).wf(),
            final(self)@ == old(self)@.sre_spec(*mode),
    {
        let data = self.lsr(mode);
        self.xor_with_reg_a(data);
    }

    /// TAS: SP = A & X, store SP & (high byte + 1).
    fn utas(&mut self)
        requires
            old(self).wf(),
        ensures
            final(self).wf(),
            final(self)@ == old(self)@.tas_spec(),
    {
        let data = self.register_a & self.register_x;
        self.register_sp = data;
        let addr = wrap_add16(self.mem_read_16(self.register_pc), self.register_y as u16);
        let value = wrap_add8((addr / 256) as u8, 1) & self.register_sp;
        self.mem_write(addr, value);
    }

    /// XAA: A = X, then AND with memory.
    fn uxaa(&mut self, mode: &AddressingMode)
        requires
            old(self).wf(),
            old(self).cycles <= CYCLE_CEILING,
        ensures
            final(self).wf(),
            final(self)@ == old(self)@.xaa_spec(*mode),
    {
        self.register_a = self.register_x;
        self.update_flags(self.register_a);
        let addr = self.get_operand_address(mode, false);
        let data = self.mem_read(addr);
        self.and_with_reg_a(data);
    }

}

/// Resolving an operand changes nothing but, by one, the cycle count.
pub proof fn lemma_resolve_cycles(s: CpuState, mode: AddressingMode, penalize: bool)
    ensures
        s.resolve(mode, penalize).0 == s || s.resolve(mode, penalize).0 == s.charge(1),
        !penalize ==> s.resolve(mode, penalize).0 == s,
{
    reveal(CpuState::resolve);
    reveal(CpuState::resolve_at);
}

/// An operation adds at most two cycles of penalties.
pub proof fn lemma_execute_cycles(s: CpuState, op: Op, mode: AddressingMode)
    ensures
        s.cycles <= s.execute_spec(op, mode).cycles <= s.cycles + 2,
        !may_add_cycles(op) ==> s.execute_spec(op, mode).cycles == s.cycles,
{
    lemma_resolve_cycles(s, mode, true);
    lemma_resolve_cycles(s, mode, false);
    reveal(CpuState::modify);
    let x = s.with_a(s.x).set_nz(s.x);
    lemma_resolve_cycles(x, mode, false);
}

/// Three dots, one at a time.
pub proof fn lemma_ticks_three(q: PpuState)
    ensures
        q.ticks(3) == q.step_spec().step_spec().step_spec(),
{
    reveal_with_fuel(PpuState::ticks, 4);
}

/// `n + k` dots are `n` dots then `k` more.
pub proof fn lemma_ticks_add(q: PpuState, n: nat, k: nat)
    ensures
        q.ticks(n + k) == q.ticks(n).ticks(k),
    decreases n,
{
    reveal(PpuState::ticks);
    if n > 0 {
        lemma_ticks_add(q.step_spec(), (n - 1) as nat, k);
        assert((n + k - 1) as nat == ((n - 1) + k) as nat);
    }
}

} // verus!
