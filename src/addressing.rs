use vstd::prelude::*;
use crate::cpu::{pc_plus, word, Cpu, Registers};
use crate::opcode::AddressingMode;

verus! {

/// Whether `a` and `b` lie on different 256-byte pages.
pub open spec fn crosses_page(a: u16, b: u16) -> bool {
    a / 256 != b / 256
}

/// The extra cycle that an indexed mode reports: 1 exactly when the
/// indexed address left the page of the base address.
pub open spec fn page_penalty(base: u16, indexed: u16) -> u8 {
    if crosses_page(base, indexed) {
        1
    } else {
        0
    }
}

/// `after` is `before` with the program counter moved on by `n` and the
/// resolved address set to `addr`.
pub open spec fn resolved_to(before: Cpu, after: Cpu, n: int, addr: u16) -> bool {
    after == (Cpu {
        registers: Registers { pc: pc_plus(before.registers.pc, n), ..before.registers },
        absolute_addr: addr,
        ..before
    })
}

/// What resolving addressing mode `mode` does: `after` is the CPU once the
/// operand bytes after the opcode have been consumed, and `extra` the extra
/// cycle reported.
pub open spec fn resolved(mode: AddressingMode, before: Cpu, after: Cpu, extra: u8) -> bool {
    let pc = before.registers.pc;
    let next = before.read_spec(pc);
    match mode {
        AddressingMode::IMP => extra == 0 && after == (Cpu {
            fetched_data: before.registers.a,
            ..before
        }),
        AddressingMode::IMM => extra == 0 && resolved_to(before, after, 1, pc),
        AddressingMode::ZP0 => extra == 0 && resolved_to(before, after, 1, next as u16),
        AddressingMode::ZPX => extra == 0 && resolved_to(
            before,
            after,
            1,
            ((next + before.registers.x) % 256) as u16,
        ),
        AddressingMode::ZPY => extra == 0 && resolved_to(
            before,
            after,
            1,
            ((next + before.registers.y) % 256) as u16,
        ),
        AddressingMode::REL => extra == 0 && after == (Cpu {
            registers: Registers { pc: pc_plus(pc, 1), ..before.registers },
            relative_addr: next as i8,
            ..before
        }),
        AddressingMode::ABS => extra == 0 && resolved_to(before, after, 2, before.word_at(pc)),
        AddressingMode::ABX => {
            let base = before.word_at(pc);
            let addr = ((base + before.registers.x) % 0x10000) as u16;
            extra == page_penalty(base, addr) && resolved_to(before, after, 2, addr)
        },
        AddressingMode::ABY => {
            let base = before.word_at(pc);
            let addr = ((base + before.registers.y) % 0x10000) as u16;
            extra == page_penalty(base, addr) && resolved_to(before, after, 2, addr)
        },
        AddressingMode::IND => {
            let ptr = before.word_at(pc);
            // The high byte of the target comes from the same page as the low
            // byte, even where the pointer sits on the page's last byte.
            let hi_at = if ptr % 256 == 0xFF {
                (ptr / 256 * 256) as u16
            } else {
                pc_plus(ptr, 1)
            };
            extra == 0 && resolved_to(
                before,
                after,
                2,
                word(before.read_spec(ptr), before.read_spec(hi_at)),
            )
        },
        AddressingMode::IZX => {
            let t = (next + before.registers.x) % 256;
            extra == 0 && resolved_to(
                before,
                after,
                1,
                word(before.read_spec(t as u16), before.read_spec(((t + 1) % 256) as u16)),
            )
        },
        AddressingMode::IZY => {
            let base = word(
                before.read_spec(next as u16),
                before.read_spec(((next + 1) % 256) as u16),
            );
            let addr = ((base + before.registers.y) % 0x10000) as u16;
            extra == page_penalty(base, addr) && resolved_to(before, after, 1, addr)
        },
    }
}

/// Implied: the operand, if any, is the accumulator.
pub fn fetch_imp(cpu: &mut Cpu) -> (r: u8)
    requires
        old(cpu).wf(),
    ensures
        final(cpu).wf(),
        resolved(AddressingMode::IMP, *old(cpu), *final(cpu), r),
{
    cpu.fetched_data = cpu.registers.a;
    0
}

/// Immediate: the operand is the byte after the opcode.
pub fn fetch_imm(cpu: &mut Cpu) -> (r: u8)
    requires
        old(cpu).wf(),
    ensures
        final(cpu).wf(),
        resolved(AddressingMode::IMM, *old(cpu), *final(cpu), r),
{
    cpu.absolute_addr = cpu.registers.pc;
    cpu.registers.pc = cpu.registers.pc.wrapping_add(1);
    0
}

pub fn fetch_zp0(cpu: &mut Cpu) -> (r: u8)
    requires
        old(cpu).wf(),
    ensures
        final(cpu).wf(),
        resolved(AddressingMode::ZP0, *old(cpu), *final(cpu), r),
{
    let offset = cpu.read(cpu.registers.pc);
    cpu.absolute_addr = offset as u16;
    cpu.registers.pc = cpu.registers.pc.wrapping_add(1);
    0
}

pub fn fetch_zpx(cpu: &mut Cpu) -> (r: u8)
    requires
        old(cpu).wf(),
    ensures
        final(cpu).wf(),
        resolved(AddressingMode::ZPX, *old(cpu), *final(cpu), r),
{
    let offset = cpu.read(cpu.registers.pc).wrapping_add(cpu.registers.x);
    cpu.absolute_addr = offset as u16;
    cpu.registers.pc = cpu.registers.pc.wrapping_add(1);
    0
}

pub fn fetch_zpy(cpu: &mut Cpu) -> (r: u8)
    requires
        old(cpu).wf(),
    ensures
        final(cpu).wf(),
        resolved(AddressingMode::ZPY, *old(cpu), *final(cpu), r),
{
    let offset = cpu.read(cpu.registers.pc).wrapping_add(cpu.registers.y);
    cpu.absolute_addr = offset as u16;
    cpu.registers.pc = cpu.registers.pc.wrapping_add(1);
    0
}

pub fn fetch_rel(cpu: &mut Cpu) -> (r: u8)
    requires
        old(cpu).wf(),
    ensures
        final(cpu).wf(),
        resolved(AddressingMode::REL, *old(cpu), *final(cpu), r),
{
    cpu.relative_addr = cpu.read(cpu.registers.pc) as i8;
    cpu.registers.pc = cpu.registers.pc.wrapping_add(1);
    0
}

/// Reads the two operand bytes after the opcode, low byte first, and moves
/// the program counter past them.
fn read_operand_word(cpu: &mut Cpu) -> (r: (u16, u8))
    requires
        old(cpu).wf(),
    ensures
        final(cpu).wf(),
        r.0 == old(cpu).word_at(old(cpu).registers.pc),
        r.1 as int == r.0 / 256,
        *final(cpu) == (Cpu {
            registers: Registers { pc: pc_plus(old(cpu).registers.pc, 2), ..old(cpu).registers },
            ..*old(cpu)
        }),
{
    let pc = cpu.registers.pc;
    let lo = cpu.read(pc);
    let hi = cpu.read(pc.wrapping_add(1));
    cpu.registers.pc = pc.wrapping_add(2);
    ((hi as u16) * 256 + lo as u16, hi)
}

pub fn fetch_abs(cpu: &mut Cpu) -> (r: u8)
    requires
        old(cpu).wf(),
    ensures
        final(cpu).wf(),
        resolved(AddressingMode::ABS, *old(cpu), *final(cpu), r),
{
    let (base, _hi) = read_operand_word(cpu);
    cpu.absolute_addr = base;
    0
}

pub fn fetch_abx(cpu: &mut Cpu) -> (r: u8)
    requires
        old(cpu).wf(),
    ensures
        final(cpu).wf(),
        resolved(AddressingMode::ABX, *old(cpu), *final(cpu), r),
{
    let (base, hi) = read_operand_word(cpu);
    cpu.absolute_addr = base.wrapping_add(cpu.registers.x as u16);
    if cpu.absolute_addr / 256 != hi as u16 {
        1
    } else {
        0
    }
}

pub fn fetch_aby(cpu: &mut Cpu) -> (r: u8)
    requires
        old(cpu).wf(),
    ensures
        final(cpu).wf(),
        resolved(AddressingMode::ABY, *old(cpu), *final(cpu), r),
{
    let (base, hi) = read_operand_word(cpu);
    cpu.absolute_addr = base.wrapping_add(cpu.registers.y as u16);
    if cpu.absolute_addr / 256 != hi as u16 {
        1
    } else {
        0
    }
}

/// Indirect, with the hardware's bug: a pointer on the last byte of a page
/// takes its high byte from the start of that same page.
pub fn fetch_ind(cpu: &mut Cpu) -> (r: u8)
    requires
        old(cpu).wf(),
    ensures
        final(cpu).wf(),
        resolved(AddressingMode::IND, *old(cpu), *final(cpu), r),
{
    let (ptr, ptr_hi) = read_operand_word(cpu);
    let lo = cpu.read(ptr);
    let hi = if ptr % 256 == 0xFF {
        cpu.read((ptr_hi as u16) * 256)
    } else {
        cpu.read(ptr.wrapping_add(1))
    };
    cpu.absolute_addr = (hi as u16) * 256 + lo as u16;
    0
}

/// Indexed indirect: the pointer sits in page zero at (operand + X),
/// wrapping within page zero.
pub fn fetch_izx(cpu: &mut Cpu) -> (r: u8)
    requires
        old(cpu).wf(),
    ensures
        final(cpu).wf(),
        resolved(AddressingMode::IZX, *old(cpu), *final(cpu), r),
{
    let t = cpu.read(cpu.registers.pc).wrapping_add(cpu.registers.x);
    cpu.registers.pc = cpu.registers.pc.wrapping_add(1);
    let lo = cpu.read(t as u16);
    let hi = cpu.read(t.wrapping_add(1) as u16);
    cpu.absolute_addr = (hi as u16) * 256 + lo as u16;
    0
}

/// Indirect indexed: the pointer sits in page zero at the operand; Y is added
/// to the address it holds.
pub fn fetch_izy(cpu: &mut Cpu) -> (r: u8)
    requires
        old(cpu).wf(),
    ensures
        final(cpu).wf(),
        resolved(AddressingMode::IZY, *old(cpu), *final(cpu), r),
{
    let t = cpu.read(cpu.registers.pc);
    cpu.registers.pc = cpu.registers.pc.wrapping_add(1);
    let lo = cpu.read(t as u16);
    let hi = cpu.read(t.wrapping_add(1) as u16);
    let base = (hi as u16) * 256 + lo as u16;
    cpu.absolute_addr = base.wrapping_add(cpu.registers.y as u16);
    if cpu.absolute_addr / 256 != hi as u16 {
        1
    } else {
        0
    }
}

impl AddressingMode {
    /// Resolves this addressing mode for the instruction in flight; returns
    /// the extra cycle that it reports.
    pub fn fetch(&self, cpu: &mut Cpu) -> (r: u8)
        requires
            old(cpu).wf(),
        ensures
            final(cpu).wf(),
            resolved(*self, *old(cpu), *final(cpu), r),
            r <= 1,
            final(cpu).clock == old(cpu).clock,
    {
        match self {
            AddressingMode::IMP => fetch_imp(cpu),
            AddressingMode::IMM => fetch_imm(cpu),
            AddressingMode::ZP0 => fetch_zp0(cpu),
            AddressingMode::ZPX => fetch_zpx(cpu),
            AddressingMode::ZPY => fetch_zpy(cpu),
            AddressingMode::REL => fetch_rel(cpu),
            AddressingMode::ABS => fetch_abs(cpu),
            AddressingMode::ABX => fetch_abx(cpu),
            AddressingMode::ABY => fetch_aby(cpu),
            AddressingMode::IND => fetch_ind(cpu),
            AddressingMode::IZX => fetch_izx(cpu),
            AddressingMode::IZY => fetch_izy(cpu),
        }
    }
}

} // verus!
