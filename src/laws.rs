//! Properties of the machine that relate several operations.
use vstd::prelude::*;

use crate::bus::{BusState, RAM_SIZE};
use crate::cpu::{CpuState, STACK, add8, may_add_cycles, pulled_status, pushed_status, sub8};
use crate::flags::{BREAK, UNUSED, with_bit};
use crate::opcodes::{Op, opcode_table};
use crate::ppu::{PpuState, add16};

verus! {

/// `n` instructions in a row.
pub open spec fn run(s: CpuState, n: nat) -> CpuState
    decreases n,
{
    if n == 0 {
        s
    } else {
        run(s.step_spec(), (n - 1) as nat)
    }
}

/// From reset, through any number of instructions, the stack pointer stays
/// a byte and the program counter a 16-bit address.
pub proof fn lemma_registers_in_range(s: CpuState, n: nat)
    ensures
        0 <= run(s.reset_spec(), n).sp <= 0xFF,
        0 <= run(s.reset_spec(), n).pc <= 0xFFFF,
{
}

/// An instruction costs the base cycles of its opcode plus at most two
/// cycles of penalties; only page-crossing reads and branches pay any.
pub proof fn lemma_step_cycles(s: CpuState)
    ensures
        ({
            let info = opcode_table(s.read(s.pc));
            &&& s.cycles + info.cycles <= s.step_spec().cycles <= s.cycles + info.cycles + 2
            &&& !may_add_cycles(info.op) ==> s.step_spec().cycles == s.cycles + info.cycles
        }),
{
    let info = opcode_table(s.read(s.pc));
    let fetched = s.with_pc(add16(s.pc, 1));
    crate::cpu::lemma_execute_cycles(fetched, info.op, info.mode);
}

/// A byte written anywhere in RAM reads back at every mirror of its
/// address.
pub proof fn lemma_ram_mirrors(b: BusState, a: u16, v: u8, k: u16)
    requires
        b.wf(),
        a <= 0x1FFF,
        k < 4,
    ensures
        b.write_spec(a, v).read_spec((a % 0x800 + k * 0x800) as u16) == v,
{
    reveal(BusState::read_spec);
    reveal(BusState::write_spec);
    let m = (a % 0x800 + k * 0x800) as u16;
    assert(m as int % RAM_SIZE as int == a as int % RAM_SIZE as int);
}

/// PRG-ROM reads depend on nothing that a write or the PPU can change, so
/// they give the same byte every time.
pub proof fn lemma_prg_reads_stable(b: BusState, addr: u16, w: u16, v: u8, q: PpuState)
    requires
        b.wf(),
        addr >= 0x8000,
    ensures
        b.write_spec(w, v).read_spec(addr) == b.read_spec(addr),
        (BusState { ppu: q, ..b }).read_spec(addr) == b.read_spec(addr),
{
    reveal(BusState::read_spec);
    reveal(BusState::write_spec);
}

/// A RAM write reads back at its own address.
pub proof fn lemma_ram_read_write(b: BusState, a: u16, v: u8)
    requires
        b.wf(),
        a <= 0x1FFF,
    ensures
        b.write_spec(a, v).read_spec(a) == v,
        b.write_spec(a, v).wf(),
{
    reveal(BusState::read_spec);
    reveal(BusState::write_spec);
}

/// A RAM write leaves every other RAM address as it was.
pub proof fn lemma_ram_write_other(b: BusState, a: u16, v: u8, c: u16)
    requires
        b.wf(),
        a <= 0x1FFF,
        c <= 0x1FFF,
        a % 0x800 != c % 0x800,
    ensures
        b.write_spec(a, v).read_spec(c) == b.read_spec(c),
{
    reveal(BusState::read_spec);
    reveal(BusState::write_spec);
}

/// A push then a pop gives back the byte and the stack pointer.
pub proof fn lemma_push_pop(s: CpuState, v: u8)
    requires
        s.wf(),
    ensures
        s.push(v).pop().1 == v,
        s.push(v).pop().0.sp == s.sp,
{
    lemma_ram_read_write(s.bus, (STACK + s.sp) as u16, v);
}

/// PHP then PLP leave the status as it was, with Break clear and the
/// unused bit set, and the stack pointer where it was.
pub proof fn lemma_php_plp(s: CpuState)
    requires
        s.wf(),
    ensures
        s.php_spec().plp_spec().p == with_bit(with_bit(s.p, BREAK, false), UNUSED, true),
        s.php_spec().plp_spec().sp == s.sp,
{
    lemma_push_pop(s, pushed_status(s.p));
    let p = s.p;
    assert(pulled_status(pushed_status(p)) == pulled_status(p)) by (bit_vector);
}


/// The bus with another PPU state reads the same outside the PPU's window.
pub proof fn lemma_ppu_elsewhere(b: BusState, q: PpuState, a: u16)
    requires
        a < 0x2000 || a > 0x3FFF,
    ensures
        (BusState { ppu: q, ..b }).read_spec(a) == b.read_spec(a),
{
    reveal(BusState::read_spec);
}

/// `JSR` to a routine that starts with `RTS`: two instructions later `pc`
/// is just past the `JSR` and the stack pointer is back where it was.
/// The instructions stand in PRG-ROM, which the pushes and the PPU cannot
/// change; the routine does not start on the `JSR`'s own operand.
pub proof fn lemma_jsr_rts(s: CpuState)
    requires
        s.wf(),
        0x8000 <= s.pc <= 0xFFFC,
        s.read(s.pc) == 0x20,
        s.read16(add16(s.pc, 1)) >= 0x8000,
        s.read16(add16(s.pc, 1)) != add16(s.pc, 1),
        s.read(s.read16(add16(s.pc, 1))) == 0x60,
    ensures
        s.step_spec().step_spec().pc == add16(s.pc, 3),
        s.step_spec().step_spec().sp == s.sp,
{
    reveal(opcode_table);
    let t = s.read16(add16(s.pc, 1));
    let ret = add16(s.pc, 2);
    let fetched = s.with_pc(add16(s.pc, 1));
    assert(add16(fetched.pc, 1) == ret);
    let a_hi = (STACK + s.sp) as u16;
    let s_a = fetched.push((ret / 256) as u8);
    let a_lo = (STACK + s_a.sp) as u16;
    let pushed = s_a.push((ret % 256) as u8);
    assert(pushed == fetched.push16(ret));
    let done = pushed.with_pc(t);
    assert(done == fetched.jsr_spec());
    let s1 = s.step_spec();
    assert(s1.bus == (BusState { ppu: s1.bus.ppu, ..pushed.bus }));
    assert(s1.pc == t);
    assert(s1.sp == sub8(sub8(s.sp, 1), 1));
    // the RTS is still there
    lemma_prg_reads_stable(fetched.bus, t, a_hi, (ret / 256) as u8, s1.bus.ppu);
    lemma_ram_read_write(fetched.bus, a_hi, (ret / 256) as u8);
    lemma_prg_reads_stable(s_a.bus, t, a_lo, (ret % 256) as u8, s1.bus.ppu);
    lemma_ram_read_write(s_a.bus, a_lo, (ret % 256) as u8);
    lemma_prg_reads_stable(pushed.bus, t, 0, 0, s1.bus.ppu);
    assert(s1.read(t) == 0x60);
    // the return address is on the stack
    lemma_ram_read_write(s_a.bus, a_lo, (ret % 256) as u8);
    lemma_ram_write_other(s_a.bus, a_lo, (ret % 256) as u8, a_hi);
    lemma_ppu_elsewhere(pushed.bus, s1.bus.ppu, a_lo);
    lemma_ppu_elsewhere(pushed.bus, s1.bus.ppu, a_hi);
    let f2 = s1.with_pc(add16(t, 1));
    assert(add8(f2.sp, 1) == s_a.sp);
    assert(add8(add8(f2.sp, 1), 1) == s.sp);
    assert(f2.read(a_lo) == (ret % 256) as u8);
    assert(f2.read(a_hi) == (ret / 256) as u8);
    let (after, popped) = f2.pop16();
    assert(popped == ret);
    assert(after.sp == s.sp);
}

} // verus!
