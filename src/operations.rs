use vstd::prelude::*;
use crate::addressing::crosses_page;
use crate::clock::{sum_capped, Clock};
use crate::cpu::{
    pc_plus, pushed_status, ram_became, sp_after_pop, sp_after_push, stack_slot, status_zn, word,
    Cpu, Registers, IRQ_VECTOR,
};
use crate::flags::{flag_is_set, lemma_with_flag, set_flag, with_flag, CpuFlag};
use crate::opcode::{opcode_table, AddressingMode, OpCodeType};

verus! {

/// The two's-complement value of a byte.
pub open spec fn signed(b: u8) -> int {
    if b < 128 {
        b as int
    } else {
        b - 256
    }
}

/// 1 where the carry flag of `cpu` is set, else 0.
pub open spec fn carry_in(cpu: Cpu) -> int {
    if cpu.flag(CpuFlag::Carry) {
        1
    } else {
        0
    }
}

/// Accumulator after adding `m` and carry `c` to `a`.
pub open spec fn adc_value(a: u8, m: u8, c: int) -> u8 {
    ((a + m + c) % 256) as u8
}

/// Carry out of adding `m` and carry `c` to `a`: the unsigned sum exceeds a byte.
pub open spec fn adc_carry(a: u8, m: u8, c: int) -> bool {
    a + m + c > 255
}

/// Overflow of adding `m` and carry `c` to `a`: the signed sum leaves -128..=127.
pub open spec fn adc_overflow(a: u8, m: u8, c: int) -> bool {
    signed(a) + signed(m) + c < -128 || signed(a) + signed(m) + c > 127
}

/// Accumulator after subtracting `m` and the borrow `1 - c` from `a`.
pub open spec fn sbc_value(a: u8, m: u8, c: int) -> u8 {
    ((a - m - (1 - c)) % 256) as u8
}

/// Carry after subtracting: set exactly when nothing was borrowed.
pub open spec fn sbc_carry(a: u8, m: u8, c: int) -> bool {
    a - m - (1 - c) >= 0
}

/// Overflow of subtracting: the signed difference leaves -128..=127.
pub open spec fn sbc_overflow(a: u8, m: u8, c: int) -> bool {
    signed(a) - signed(m) - (1 - c) < -128 || signed(a) - signed(m) - (1 - c) > 127
}

/// Status after an arithmetic result: carry, zero, negative, overflow.
pub open spec fn arith_status(status: u8, value: u8, carry: bool, overflow: bool) -> u8 {
    with_flag(
        status_zn(with_flag(status, CpuFlag::Carry, carry), value),
        CpuFlag::Overflow,
        overflow,
    )
}

/// Status after comparing register value `reg` with `m`.
pub open spec fn compare_status(status: u8, reg: u8, m: u8) -> u8 {
    with_flag(
        with_flag(with_flag(status, CpuFlag::Carry, reg >= m), CpuFlag::Zero, reg == m),
        CpuFlag::Negative,
        (reg - m + 256) % 256 >= 128,
    )
}

/// Status after a shift or rotate that left `carry` in the carry flag.
pub open spec fn shift_status(status: u8, value: u8, carry: bool) -> u8 {
    status_zn(with_flag(status, CpuFlag::Carry, carry), value)
}

/// Where a taken branch at `pc` with offset `rel` goes.
pub open spec fn branch_target(pc: u16, rel: i8) -> u16 {
    ((pc + rel + 0x10000) % 0x10000) as u16
}

/// Extra cycles of a taken branch: one, or two where the target lies on
/// another page than the instruction after the branch.
pub open spec fn branch_cost(pc: u16, rel: i8) -> u8 {
    if crosses_page(pc, branch_target(pc, rel)) {
        2
    } else {
        1
    }
}

/// `after` is `before` with registers `regs` and the operand fetched.
pub open spec fn loaded(before: Cpu, after: Cpu, regs: Registers) -> bool {
    after == (Cpu { registers: regs, fetched_data: before.operand(), ..before })
}

/// `after` is `before` with registers `regs` and nothing else changed.
pub open spec fn only_registers(before: Cpu, after: Cpu, regs: Registers) -> bool {
    after == (Cpu { registers: regs, ..before })
}

/// `after` is `before` with the status byte `status` and nothing else changed.
pub open spec fn only_status(before: Cpu, after: Cpu, status: u8) -> bool {
    only_registers(before, after, Registers { status, ..before.registers })
}

/// `after` is `before` once `value` has been written to the resolved
/// address, with registers `regs` and the operand fetched.
pub open spec fn written_back(before: Cpu, after: Cpu, value: u8, regs: Registers) -> bool {
    &&& before.bus.write_spec(after.bus, before.absolute_addr, value)
    &&& after == (Cpu {
        bus: after.bus,
        registers: regs,
        fetched_data: before.operand(),
        ..before
    })
}

/// A shift or rotate result goes to the accumulator in implied mode, else to
/// memory at the resolved address.
pub open spec fn result_stored(before: Cpu, after: Cpu, value: u8, status: u8) -> bool {
    if before.addressing_mode == AddressingMode::IMP {
        loaded(before, after, Registers { a: value, status, ..before.registers })
    } else {
        written_back(before, after, value, Registers { status, ..before.registers })
    }
}

/// A branch on a condition: when taken the program counter moves by the
/// offset, the clock is charged the branch cost and the cost is reported in
/// `extra`; else nothing changes and `extra` is 0.
pub open spec fn branched(before: Cpu, after: Cpu, taken: bool, extra: u8) -> bool {
    if taken {
        extra == branch_cost(before.registers.pc, before.relative_addr) && after == (Cpu {
            registers: Registers {
                pc: branch_target(before.registers.pc, before.relative_addr),
                ..before.registers
            },
            clock: Clock {
                ticks_left: sum_capped(
                    before.clock.ticks_left,
                    branch_cost(before.registers.pc, before.relative_addr) as int,
                ),
                ..before.clock
            },
            ..before
        })
    } else {
        extra == 0 && after == before
    }
}

/// `after` is `before` once `value` has been loaded into a register as
/// `regs` shows, with zero and negative describing `value`.
pub open spec fn zn_loaded(before: Cpu, after: Cpu, value: u8, regs: Registers) -> bool {
    loaded(
        before,
        after,
        Registers { status: status_zn(before.registers.status, value), ..regs },
    )
}

/// `after` is `before` once a register has taken `value` as `regs` shows,
/// with zero and negative describing it, and no operand fetched.
pub open spec fn zn_moved(before: Cpu, after: Cpu, value: u8, regs: Registers) -> bool {
    only_registers(
        before,
        after,
        Registers { status: status_zn(before.registers.status, value), ..regs },
    )
}

/// Add with carry: A + M + C into A; sets carry, zero, negative and overflow.
pub open spec fn adc_performed(before: Cpu, after: Cpu, extra: u8) -> bool {
    let r = before.registers;
    let m = before.operand();
    let c = carry_in(before);
    let s = r.status;
    extra == 1 && loaded(
        before,
        after,
        Registers {
            a: adc_value(r.a, m, c),
            status: arith_status(
                s,
                adc_value(r.a, m, c),
                adc_carry(r.a, m, c),
                adc_overflow(r.a, m, c),
            ),
            ..r
        },
    )
}

/// Subtract with carry: A - M - (1 - C) into A, as the addition of the one's complement of M.
pub open spec fn sbc_performed(before: Cpu, after: Cpu, extra: u8) -> bool {
    let r = before.registers;
    let m = before.operand();
    let c = carry_in(before);
    let s = r.status;
    extra == 1 && loaded(
        before,
        after,
        Registers {
            a: sbc_value(r.a, m, c),
            status: arith_status(
                s,
                sbc_value(r.a, m, c),
                sbc_carry(r.a, m, c),
                sbc_overflow(r.a, m, c),
            ),
            ..r
        },
    )
}

/// Logical and of A with M into A.
pub open spec fn and_performed(before: Cpu, after: Cpu, extra: u8) -> bool {
    let r = before.registers;
    let m = before.operand();
    extra == 1 && zn_loaded(before, after, r.a & m, Registers { a: r.a & m, ..r })
}

/// Exclusive or of A with M into A.
pub open spec fn eor_performed(before: Cpu, after: Cpu, extra: u8) -> bool {
    let r = before.registers;
    let m = before.operand();
    extra == 1 && zn_loaded(before, after, r.a ^ m, Registers { a: r.a ^ m, ..r })
}

/// Inclusive or of A with M into A.
pub open spec fn ora_performed(before: Cpu, after: Cpu, extra: u8) -> bool {
    let r = before.registers;
    let m = before.operand();
    extra == 1 && zn_loaded(before, after, r.a | m, Registers { a: r.a | m, ..r })
}

/// Arithmetic shift left of A or M; bit 7 goes to carry.
pub open spec fn asl_performed(before: Cpu, after: Cpu, extra: u8) -> bool {
    let r = before.registers;
    let m = before.operand();
    let s = r.status;
    extra == 0 && result_stored(
        before,
        after,
        ((m * 2) % 256) as u8,
        shift_status(s, ((m * 2) % 256) as u8, m >= 128),
    )
}

/// Logical shift right of A or M; bit 0 goes to carry.
pub open spec fn lsr_performed(before: Cpu, after: Cpu, extra: u8) -> bool {
    let r = before.registers;
    let m = before.operand();
    let s = r.status;
    extra == 0 && result_stored(
        before,
        after,
        m / 2,
        shift_status(s, m / 2, m % 2 == 1),
    )
}

/// Rotate left of A or M through carry: the old carry fills bit 0, bit 7 becomes the carry.
pub open spec fn rol_performed(before: Cpu, after: Cpu, extra: u8) -> bool {
    let r = before.registers;
    let m = before.operand();
    let c = carry_in(before);
    let s = r.status;
    extra == 0 && result_stored(
        before,
        after,
        ((m * 2 + c) % 256) as u8,
        shift_status(s, ((m * 2 + c) % 256) as u8, m >= 128),
    )
}

/// Rotate right of A or M through carry: the old carry fills bit 7, bit 0 becomes the carry.
pub open spec fn ror_performed(before: Cpu, after: Cpu, extra: u8) -> bool {
    let r = before.registers;
    let m = before.operand();
    let c = carry_in(before);
    let s = r.status;
    extra == 0 && result_stored(
        before,
        after,
        (m / 2 + c * 128) as u8,
        shift_status(s, (m / 2 + c * 128) as u8, m % 2 == 1),
    )
}

/// Branch if carry clear.
pub open spec fn bcc_performed(before: Cpu, after: Cpu, extra: u8) -> bool {
    branched(before, after, !before.flag(CpuFlag::Carry), extra)
}

/// Branch if carry set.
pub open spec fn bcs_performed(before: Cpu, after: Cpu, extra: u8) -> bool {
    branched(before, after, before.flag(CpuFlag::Carry), extra)
}

/// Branch if equal (zero set).
pub open spec fn beq_performed(before: Cpu, after: Cpu, extra: u8) -> bool {
    branched(before, after, before.flag(CpuFlag::Zero), extra)
}

/// Branch if not equal (zero clear).
pub open spec fn bne_performed(before: Cpu, after: Cpu, extra: u8) -> bool {
    branched(before, after, !before.flag(CpuFlag::Zero), extra)
}

/// Branch if minus (negative set).
pub open spec fn bmi_performed(before: Cpu, after: Cpu, extra: u8) -> bool {
    branched(before, after, before.flag(CpuFlag::Negative), extra)
}

/// Branch if plus (negative clear).
pub open spec fn bpl_performed(before: Cpu, after: Cpu, extra: u8) -> bool {
    branched(before, after, !before.flag(CpuFlag::Negative), extra)
}

/// Branch if overflow clear.
pub open spec fn bvc_performed(before: Cpu, after: Cpu, extra: u8) -> bool {
    branched(before, after, !before.flag(CpuFlag::Overflow), extra)
}

/// Branch if overflow set.
pub open spec fn bvs_performed(before: Cpu, after: Cpu, extra: u8) -> bool {
    branched(before, after, before.flag(CpuFlag::Overflow), extra)
}

/// Bit test: zero from A and M, negative and overflow from bits 7 and 6 of M.
pub open spec fn bit_performed(before: Cpu, after: Cpu, extra: u8) -> bool {
    let r = before.registers;
    let m = before.operand();
    let s = r.status;
    extra == 0 && loaded(
        before,
        after,
        Registers {
            status: with_flag(
                with_flag(with_flag(s, CpuFlag::Zero, r.a & m == 0), CpuFlag::Negative, m >= 0x80),
                CpuFlag::Overflow,
                m & 0x40 != 0,
            ),
            ..r
        },
    )
}

/// Break: the interrupt entry sequence, through the vector at 0xFFFE.
pub open spec fn brk_performed(before: Cpu, after: Cpu, extra: u8) -> bool {
    extra == 0 && Cpu::interrupt_entered(before, after, IRQ_VECTOR)
}

/// Clear the carry flag.
pub open spec fn clc_performed(before: Cpu, after: Cpu, extra: u8) -> bool {
    let r = before.registers;
    let s = r.status;
    extra == 0 && only_status(before, after, with_flag(s, CpuFlag::Carry, false))
}

/// Clear the decimal flag.
pub open spec fn cld_performed(before: Cpu, after: Cpu, extra: u8) -> bool {
    let r = before.registers;
    let s = r.status;
    extra == 0 && only_status(before, after, with_flag(s, CpuFlag::Decimal, false))
}

/// Clear the interrupt flag.
pub open spec fn cli_performed(before: Cpu, after: Cpu, extra: u8) -> bool {
    let r = before.registers;
    let s = r.status;
    extra == 0 && only_status(before, after, with_flag(s, CpuFlag::Interrupt, false))
}

/// Clear the overflow flag.
pub open spec fn clv_performed(before: Cpu, after: Cpu, extra: u8) -> bool {
    let r = before.registers;
    let s = r.status;
    extra == 0 && only_status(before, after, with_flag(s, CpuFlag::Overflow, false))
}

/// Set the carry flag.
pub open spec fn sec_performed(before: Cpu, after: Cpu, extra: u8) -> bool {
    let r = before.registers;
    let s = r.status;
    extra == 0 && only_status(before, after, with_flag(s, CpuFlag::Carry, true))
}

/// Set the decimal flag.
pub open spec fn sed_performed(before: Cpu, after: Cpu, extra: u8) -> bool {
    let r = before.registers;
    let s = r.status;
    extra == 0 && only_status(before, after, with_flag(s, CpuFlag::Decimal, true))
}

/// Set the interrupt flag.
pub open spec fn sei_performed(before: Cpu, after: Cpu, extra: u8) -> bool {
    let r = before.registers;
    let s = r.status;
    extra == 0 && only_status(before, after, with_flag(s, CpuFlag::Interrupt, true))
}

/// Compare A with M.
pub open spec fn cmp_performed(before: Cpu, after: Cpu, extra: u8) -> bool {
    let r = before.registers;
    let m = before.operand();
    let s = r.status;
    extra == 1 && loaded(before, after, Registers { status: compare_status(s, r.a, m), ..r })
}

/// Compare X with M.
pub open spec fn cpx_performed(before: Cpu, after: Cpu, extra: u8) -> bool {
    let r = before.registers;
    let m = before.operand();
    let s = r.status;
    extra == 0 && loaded(before, after, Registers { status: compare_status(s, r.x, m), ..r })
}

/// Compare Y with M.
pub open spec fn cpy_performed(before: Cpu, after: Cpu, extra: u8) -> bool {
    let r = before.registers;
    let m = before.operand();
    let s = r.status;
    extra == 0 && loaded(before, after, Registers { status: compare_status(s, r.y, m), ..r })
}

/// Decrement memory.
pub open spec fn dec_performed(before: Cpu, after: Cpu, extra: u8) -> bool {
    let r = before.registers;
    let m = before.operand();
    let s = r.status;
    extra == 0 && written_back(
        before,
        after,
        ((m + 255) % 256) as u8,
        Registers { status: status_zn(s, ((m + 255) % 256) as u8), ..r },
    )
}

/// INC
pub open spec fn inc_performed(before: Cpu, after: Cpu, extra: u8) -> bool {
    let r = before.registers;
    let m = before.operand();
    let s = r.status;
    extra == 0 && written_back(
        before,
        after,
        ((m + 1) % 256) as u8,
        Registers { status: status_zn(s, ((m + 1) % 256) as u8), ..r },
    )
}

/// Decrement X.
pub open spec fn dex_performed(before: Cpu, after: Cpu, extra: u8) -> bool {
    let r = before.registers;
    extra == 0 && zn_moved(before, after, ((r.x + 255) % 256) as u8, Registers { x: ((r.x + 255) % 256) as u8, ..r })
}

/// Decrement Y.
pub open spec fn dey_performed(before: Cpu, after: Cpu, extra: u8) -> bool {
    let r = before.registers;
    extra == 0 && zn_moved(before, after, ((r.y + 255) % 256) as u8, Registers { y: ((r.y + 255) % 256) as u8, ..r })
}

/// INX
pub open spec fn inx_performed(before: Cpu, after: Cpu, extra: u8) -> bool {
    let r = before.registers;
    extra == 0 && zn_moved(before, after, ((r.x + 1) % 256) as u8, Registers { x: ((r.x + 1) % 256) as u8, ..r })
}

/// Increment Y.
pub open spec fn iny_performed(before: Cpu, after: Cpu, extra: u8) -> bool {
    let r = before.registers;
    extra == 0 && zn_moved(before, after, ((r.y + 1) % 256) as u8, Registers { y: ((r.y + 1) % 256) as u8, ..r })
}

/// Jump to the resolved address.
pub open spec fn jmp_performed(before: Cpu, after: Cpu, extra: u8) -> bool {
    let r = before.registers;
    extra == 0 && only_registers(before, after, Registers { pc: before.absolute_addr, ..r })
}

/// Jump to subroutine: pushes the address of the last byte of this instruction (high byte first), then jumps.
pub open spec fn jsr_performed(before: Cpu, after: Cpu, extra: u8) -> bool {
    let r = before.registers;
    let sp = r.sp;
    let ram = before.bus.ram@;
    let ret = pc_plus(r.pc, 0xFFFF);
    &&& extra == 0
    &&& ram_became(
        before.bus,
        after.bus,
        ram.update(stack_slot(sp), (ret / 256) as u8).update(
            stack_slot(sp_after_push(sp)),
            (ret % 256) as u8,
        ),
    )
    &&& after == (Cpu {
        bus: after.bus,
        registers: Registers {
            sp: sp_after_push(sp_after_push(sp)),
            pc: before.absolute_addr,
            ..r
        },
        ..before
    })
}

/// Return from subroutine: pops the return address (low byte first) and goes to the byte after it.
pub open spec fn rts_performed(before: Cpu, after: Cpu, extra: u8) -> bool {
    let r = before.registers;
    let sp = r.sp;
    let ram = before.bus.ram@;
    let lo = ram[stack_slot(sp_after_pop(sp))];
    let hi = ram[stack_slot(sp_after_pop(sp_after_pop(sp)))];
    extra == 0 && only_registers(
    before,
    after,
    Registers { sp: sp_after_pop(sp_after_pop(sp)), pc: pc_plus(word(lo, hi), 1), ..r },
    )

}

/// Return from interrupt: pops the status (dropping break and unused), then the program counter.
pub open spec fn rti_performed(before: Cpu, after: Cpu, extra: u8) -> bool {
    let r = before.registers;
    let sp = r.sp;
    let ram = before.bus.ram@;
    let p = ram[stack_slot(sp_after_pop(sp))];
    let lo = ram[stack_slot(sp_after_pop(sp_after_pop(sp)))];
    let hi = ram[stack_slot(sp_after_pop(sp_after_pop(sp_after_pop(sp))))];
    extra == 0 && only_registers(
    before,
    after,
    Registers {
        sp: sp_after_pop(sp_after_pop(sp_after_pop(sp))),
        status: with_flag(with_flag(p, CpuFlag::Break, false), CpuFlag::Unused, false),
        pc: word(lo, hi),
        ..r
    },
    )

}

/// Load A from M.
pub open spec fn lda_performed(before: Cpu, after: Cpu, extra: u8) -> bool {
    let r = before.registers;
    let m = before.operand();
    extra == 1 && zn_loaded(before, after, m, Registers { a: m, ..r })
}

/// Load X from M.
pub open spec fn ldx_performed(before: Cpu, after: Cpu, extra: u8) -> bool {
    let r = before.registers;
    let m = before.operand();
    extra == 1 && zn_loaded(before, after, m, Registers { x: m, ..r })
}

/// Load Y from M.
pub open spec fn ldy_performed(before: Cpu, after: Cpu, extra: u8) -> bool {
    let r = before.registers;
    let m = before.operand();
    extra == 1 && zn_loaded(before, after, m, Registers { y: m, ..r })
}

/// No operation.
pub open spec fn nop_performed(before: Cpu, after: Cpu, extra: u8) -> bool {
    extra == 0 && after == before
}

/// An opcode that the 6502 does not define: acts as a no-op.
pub open spec fn xxx_performed(before: Cpu, after: Cpu, extra: u8) -> bool {
    extra == 0 && after == before
}

/// Push A.
pub open spec fn pha_performed(before: Cpu, after: Cpu, extra: u8) -> bool {
    let r = before.registers;
    extra == 0 && Cpu::pushed(before, after, r.a)
}

/// Push the status, with break and unused set in the copy pushed.
pub open spec fn php_performed(before: Cpu, after: Cpu, extra: u8) -> bool {
    let r = before.registers;
    let s = r.status;
    extra == 0 && Cpu::pushed(before, after, pushed_status(s))
}

/// Pull A.
pub open spec fn pla_performed(before: Cpu, after: Cpu, extra: u8) -> bool {
    let r = before.registers;
    let sp = r.sp;
    let ram = before.bus.ram@;
    let v = ram[stack_slot(sp_after_pop(sp))];
    extra == 0 && zn_moved(before, after, v, Registers { a: v, sp: sp_after_pop(sp), ..r })

}

/// Pull the status; the unused bit stays set.
pub open spec fn plp_performed(before: Cpu, after: Cpu, extra: u8) -> bool {
    let r = before.registers;
    let sp = r.sp;
    let ram = before.bus.ram@;
    let v = ram[stack_slot(sp_after_pop(sp))];
    extra == 0 && only_registers(
    before,
    after,
    Registers { status: with_flag(v, CpuFlag::Unused, true), sp: sp_after_pop(sp), ..r },
    )

}

/// Store A at the resolved address.
pub open spec fn sta_performed(before: Cpu, after: Cpu, extra: u8) -> bool {
    let r = before.registers;
    extra == 0 && before.bus.write_spec(after.bus, before.absolute_addr, r.a)
        && after == (Cpu { bus: after.bus, ..before })
}

/// Store X at the resolved address.
pub open spec fn stx_performed(before: Cpu, after: Cpu, extra: u8) -> bool {
    let r = before.registers;
    extra == 0 && before.bus.write_spec(after.bus, before.absolute_addr, r.x)
        && after == (Cpu { bus: after.bus, ..before })
}

/// Store Y at the resolved address.
pub open spec fn sty_performed(before: Cpu, after: Cpu, extra: u8) -> bool {
    let r = before.registers;
    extra == 0 && before.bus.write_spec(after.bus, before.absolute_addr, r.y)
        && after == (Cpu { bus: after.bus, ..before })
}

/// Transfer A to X.
pub open spec fn tax_performed(before: Cpu, after: Cpu, extra: u8) -> bool {
    let r = before.registers;
    extra == 0 && zn_moved(before, after, r.a, Registers { x: r.a, ..r })
}

/// Transfer A to Y.
pub open spec fn tay_performed(before: Cpu, after: Cpu, extra: u8) -> bool {
    let r = before.registers;
    extra == 0 && zn_moved(before, after, r.a, Registers { y: r.a, ..r })
}

/// Transfer the stack pointer to X.
pub open spec fn tsx_performed(before: Cpu, after: Cpu, extra: u8) -> bool {
    let r = before.registers;
    let sp = r.sp;
    extra == 0 && zn_moved(before, after, sp, Registers { x: sp, ..r })
}

/// Transfer X to A.
pub open spec fn txa_performed(before: Cpu, after: Cpu, extra: u8) -> bool {
    let r = before.registers;
    extra == 0 && zn_moved(before, after, r.x, Registers { a: r.x, ..r })
}

/// Transfer Y to A.
pub open spec fn tya_performed(before: Cpu, after: Cpu, extra: u8) -> bool {
    let r = before.registers;
    extra == 0 && zn_moved(before, after, r.y, Registers { a: r.y, ..r })
}

/// Transfer X to the stack pointer; no flag changes.
pub open spec fn txs_performed(before: Cpu, after: Cpu, extra: u8) -> bool {
    let r = before.registers;
    let sp = r.sp;
    extra == 0 && only_registers(before, after, Registers { sp: r.x, ..r })
}

/// What operation `op` does to the CPU once its address is resolved, and the
/// extra cycles it reports. The pipeline charges them only when the
/// addressing mode reports an extra cycle too; a taken branch charges its own
/// cost to the clock, and reports it as well.
#[verifier::opaque]
pub open spec fn performed(op: OpCodeType, before: Cpu, after: Cpu, extra: u8) -> bool {
    match op {
        OpCodeType::ADC => adc_performed(before, after, extra),
        OpCodeType::SBC => sbc_performed(before, after, extra),
        OpCodeType::AND => and_performed(before, after, extra),
        OpCodeType::EOR => eor_performed(before, after, extra),
        OpCodeType::ORA => ora_performed(before, after, extra),
        OpCodeType::ASL => asl_performed(before, after, extra),
        OpCodeType::LSR => lsr_performed(before, after, extra),
        OpCodeType::ROL => rol_performed(before, after, extra),
        OpCodeType::ROR => ror_performed(before, after, extra),
        OpCodeType::BCC => bcc_performed(before, after, extra),
        OpCodeType::BCS => bcs_performed(before, after, extra),
        OpCodeType::BEQ => beq_performed(before, after, extra),
        OpCodeType::BNE => bne_performed(before, after, extra),
        OpCodeType::BMI => bmi_performed(before, after, extra),
        OpCodeType::BPL => bpl_performed(before, after, extra),
        OpCodeType::BVC => bvc_performed(before, after, extra),
        OpCodeType::BVS => bvs_performed(before, after, extra),
        OpCodeType::BIT => bit_performed(before, after, extra),
        OpCodeType::BRK => brk_performed(before, after, extra),
        OpCodeType::CLC => clc_performed(before, after, extra),
        OpCodeType::CLD => cld_performed(before, after, extra),
        OpCodeType::CLI => cli_performed(before, after, extra),
        OpCodeType::CLV => clv_performed(before, after, extra),
        OpCodeType::SEC => sec_performed(before, after, extra),
        OpCodeType::SED => sed_performed(before, after, extra),
        OpCodeType::SEI => sei_performed(before, after, extra),
        OpCodeType::CMP => cmp_performed(before, after, extra),
        OpCodeType::CPX => cpx_performed(before, after, extra),
        OpCodeType::CPY => cpy_performed(before, after, extra),
        OpCodeType::DEC => dec_performed(before, after, extra),
        OpCodeType::INC => inc_performed(before, after, extra),
        OpCodeType::DEX => dex_performed(before, after, extra),
        OpCodeType::DEY => dey_performed(before, after, extra),
        OpCodeType::INX => inx_performed(before, after, extra),
        OpCodeType::INY => iny_performed(before, after, extra),
        OpCodeType::JMP => jmp_performed(before, after, extra),
        OpCodeType::JSR => jsr_performed(before, after, extra),
        OpCodeType::RTS => rts_performed(before, after, extra),
        OpCodeType::RTI => rti_performed(before, after, extra),
        OpCodeType::LDA => lda_performed(before, after, extra),
        OpCodeType::LDX => ldx_performed(before, after, extra),
        OpCodeType::LDY => ldy_performed(before, after, extra),
        OpCodeType::NOP => nop_performed(before, after, extra),
        OpCodeType::XXX => xxx_performed(before, after, extra),
        OpCodeType::PHA => pha_performed(before, after, extra),
        OpCodeType::PHP => php_performed(before, after, extra),
        OpCodeType::PLA => pla_performed(before, after, extra),
        OpCodeType::PLP => plp_performed(before, after, extra),
        OpCodeType::STA => sta_performed(before, after, extra),
        OpCodeType::STX => stx_performed(before, after, extra),
        OpCodeType::STY => sty_performed(before, after, extra),
        OpCodeType::TAX => tax_performed(before, after, extra),
        OpCodeType::TAY => tay_performed(before, after, extra),
        OpCodeType::TSX => tsx_performed(before, after, extra),
        OpCodeType::TXA => txa_performed(before, after, extra),
        OpCodeType::TYA => tya_performed(before, after, extra),
        OpCodeType::TXS => txs_performed(before, after, extra),
    }
}

/// The SBC result is the ADC result on the one's complement of the operand.
pub proof fn lemma_sbc_is_adc_of_complement(a: u8, m: u8, c: int)
    requires
        c == 0 || c == 1,
    ensures
        adc_value(a, (0xFF - m) as u8, c) == sbc_value(a, m, c),
        adc_carry(a, (0xFF - m) as u8, c) == sbc_carry(a, m, c),
        adc_overflow(a, (0xFF - m) as u8, c) == sbc_overflow(a, m, c),
{
    assert(signed((0xFF - m) as u8) == -signed(m) - 1);
}

/// Adds `value` and the carry to the accumulator, setting carry, zero,
/// negative and overflow.
fn add_to_accumulator(cpu: &mut Cpu, value: u8)
    ensures
        *final(cpu) == (Cpu {
            registers: Registers {
                a: adc_value(old(cpu).registers.a, value, carry_in(*old(cpu))),
                status: arith_status(
                    old(cpu).registers.status,
                    adc_value(old(cpu).registers.a, value, carry_in(*old(cpu))),
                    adc_carry(old(cpu).registers.a, value, carry_in(*old(cpu))),
                    adc_overflow(old(cpu).registers.a, value, carry_in(*old(cpu))),
                ),
                ..old(cpu).registers
            },
            ..*old(cpu)
        }),
{
    let a = cpu.registers.a;
    let c: u16 = if cpu.get_flag(&CpuFlag::Carry) { 1 } else { 0 };
    let raw: u16 = a as u16 + value as u16 + c;
    let result = (raw % 256) as u8;
    cpu.set_or_clear_flag(&CpuFlag::Carry, raw > 255);
    cpu.set_zn(result);
    // Signed overflow: both operands have one sign and the result the other.
    let overflow = (a >= 0x80) == (value >= 0x80) && (result >= 0x80) != (a >= 0x80);
    cpu.set_or_clear_flag(&CpuFlag::Overflow, overflow);
    cpu.registers.a = result;
}

/// Puts a shift or rotate result in the accumulator in implied mode, else in
/// memory at the resolved address.
fn store_result(cpu: &mut Cpu, value: u8)
    requires
        old(cpu).wf(),
    ensures
        final(cpu).wf(),
        old(cpu).addressing_mode == AddressingMode::IMP ==> *final(cpu) == (Cpu {
            registers: Registers { a: value, ..old(cpu).registers },
            ..*old(cpu)
        }),
        old(cpu).addressing_mode != AddressingMode::IMP ==> old(cpu).bus.write_spec(
            final(cpu).bus,
            old(cpu).absolute_addr,
            value,
        ) && *final(cpu) == (Cpu { bus: final(cpu).bus, ..*old(cpu) }),
{
    match cpu.addressing_mode {
        AddressingMode::IMP => {
            cpu.registers.a = value;
        },
        _ => {
            let addr = cpu.absolute_addr;
            cpu.write(addr, value);
        },
    }
}

/// Takes a branch: adds the signed offset to the program counter and returns
/// the extra cycles, 1 on the same page and 2 onto another.
pub fn relative_branch(cpu: &mut Cpu) -> (r: u8)
    ensures
        *final(cpu) == (Cpu {
            registers: Registers {
                pc: branch_target(old(cpu).registers.pc, old(cpu).relative_addr),
                ..old(cpu).registers
            },
            ..*old(cpu)
        }),
        r == branch_cost(old(cpu).registers.pc, old(cpu).relative_addr),
{
    let pc_old = cpu.registers.pc;
    cpu.registers.pc = pc_old.wrapping_add_signed(cpu.relative_addr as i16);
    if pc_old / 256 == cpu.registers.pc / 256 {
        1
    } else {
        2
    }
}

/// Compares `register_val` with the operand: carry when it is at least the
/// operand, zero when equal, negative from bit 7 of the wrapped difference.
pub fn compare_values(cpu: &mut Cpu, register_val: u8)
    requires
        old(cpu).wf(),
    ensures
        *final(cpu) == (Cpu {
            registers: Registers {
                status: compare_status(old(cpu).registers.status, register_val, old(cpu).operand()),
                ..old(cpu).registers
            },
            fetched_data: old(cpu).operand(),
            ..*old(cpu)
        }),
{
    let m = cpu.fetch();
    cpu.set_or_clear_flag(&CpuFlag::Carry, register_val >= m);
    cpu.set_or_clear_flag(&CpuFlag::Zero, register_val == m);
    cpu.set_or_clear_flag(&CpuFlag::Negative, register_val.wrapping_sub(m) >= 0x80);
}

/// Add with carry: A + M + C into A; sets carry, zero, negative and overflow.
pub fn adc_fn(cpu: &mut Cpu) -> (r: u8)
    requires
        old(cpu).wf(),
    ensures
        final(cpu).wf(),
        adc_performed(*old(cpu), *final(cpu), r),
{
    let m = cpu.fetch();
    add_to_accumulator(cpu, m);
    1
}

/// Subtract with carry: A - M - (1 - C) into A, as the addition of the one's complement of M.
pub fn sbc_fn(cpu: &mut Cpu) -> (r: u8)
    requires
        old(cpu).wf(),
    ensures
        final(cpu).wf(),
        sbc_performed(*old(cpu), *final(cpu), r),
{
    let m = cpu.fetch();
    add_to_accumulator(cpu, 0xFF - m);
    proof {
        lemma_sbc_is_adc_of_complement(old(cpu).registers.a, m, carry_in(*old(cpu)));
    }
    1
}

/// Logical and of A with M into A.
pub fn and_fn(cpu: &mut Cpu) -> (r: u8)
    requires
        old(cpu).wf(),
    ensures
        final(cpu).wf(),
        and_performed(*old(cpu), *final(cpu), r),
{
    let m = cpu.fetch();
    let v = cpu.registers.a & m;
    cpu.registers.a = v;
    cpu.set_zn(v);
    1
}

/// Exclusive or of A with M into A.
pub fn eor_fn(cpu: &mut Cpu) -> (r: u8)
    requires
        old(cpu).wf(),
    ensures
        final(cpu).wf(),
        eor_performed(*old(cpu), *final(cpu), r),
{
    let m = cpu.fetch();
    let v = cpu.registers.a ^ m;
    cpu.registers.a = v;
    cpu.set_zn(v);
    1
}

/// Inclusive or of A with M into A.
pub fn ora_fn(cpu: &mut Cpu) -> (r: u8)
    requires
        old(cpu).wf(),
    ensures
        final(cpu).wf(),
        ora_performed(*old(cpu), *final(cpu), r),
{
    let m = cpu.fetch();
    let v = cpu.registers.a | m;
    cpu.registers.a = v;
    cpu.set_zn(v);
    1
}

/// Arithmetic shift left of A or M; bit 7 goes to carry.
pub fn asl_fn(cpu: &mut Cpu) -> (r: u8)
    requires
        old(cpu).wf(),
    ensures
        final(cpu).wf(),
        asl_performed(*old(cpu), *final(cpu), r),
{
    let m = cpu.fetch();
    let v = ((m as u16 * 2) % 256) as u8;
    cpu.set_or_clear_flag(&CpuFlag::Carry, m >= 0x80);
    cpu.set_zn(v);
    store_result(cpu, v);
    0
}

/// Logical shift right of A or M; bit 0 goes to carry.
pub fn lsr_fn(cpu: &mut Cpu) -> (r: u8)
    requires
        old(cpu).wf(),
    ensures
        final(cpu).wf(),
        lsr_performed(*old(cpu), *final(cpu), r),
{
    let m = cpu.fetch();
    let v = m / 2;
    cpu.set_or_clear_flag(&CpuFlag::Carry, m % 2 == 1);
    cpu.set_zn(v);
    store_result(cpu, v);
    0
}

/// Rotate left of A or M through carry: the old carry fills bit 0, bit 7 becomes the carry.
pub fn rol_fn(cpu: &mut Cpu) -> (r: u8)
    requires
        old(cpu).wf(),
    ensures
        final(cpu).wf(),
        rol_performed(*old(cpu), *final(cpu), r),
{
    let m = cpu.fetch();
    let c: u16 = if cpu.get_flag(&CpuFlag::Carry) { 1 } else { 0 };
    let v = ((m as u16 * 2 + c) % 256) as u8;
    cpu.set_or_clear_flag(&CpuFlag::Carry, m >= 0x80);
    cpu.set_zn(v);
    store_result(cpu, v);
    0
}

/// Rotate right of A or M through carry: the old carry fills bit 7, bit 0 becomes the carry.
pub fn ror_fn(cpu: &mut Cpu) -> (r: u8)
    requires
        old(cpu).wf(),
    ensures
        final(cpu).wf(),
        ror_performed(*old(cpu), *final(cpu), r),
{
    let m = cpu.fetch();
    let c: u8 = if cpu.get_flag(&CpuFlag::Carry) { 128 } else { 0 };
    let v = m / 2 + c;
    cpu.set_or_clear_flag(&CpuFlag::Carry, m % 2 == 1);
    cpu.set_zn(v);
    store_result(cpu, v);
    0
}

/// Branch if carry clear.
pub fn bcc_fn(cpu: &mut Cpu) -> (r: u8)
    requires
        old(cpu).wf(),
    ensures
        final(cpu).wf(),
        bcc_performed(*old(cpu), *final(cpu), r),
{
    if !cpu.get_flag(&CpuFlag::Carry) {
        let extra = relative_branch(cpu);
        cpu.clock.add_cycles(extra as u64);
        extra
    } else {
        0
    }
}

/// Branch if carry set.
pub fn bcs_fn(cpu: &mut Cpu) -> (r: u8)
    requires
        old(cpu).wf(),
    ensures
        final(cpu).wf(),
        bcs_performed(*old(cpu), *final(cpu), r),
{
    if cpu.get_flag(&CpuFlag::Carry) {
        let extra = relative_branch(cpu);
        cpu.clock.add_cycles(extra as u64);
        extra
    } else {
        0
    }
}

/// Branch if equal (zero set).
pub fn beq_fn(cpu: &mut Cpu) -> (r: u8)
    requires
        old(cpu).wf(),
    ensures
        final(cpu).wf(),
        beq_performed(*old(cpu), *final(cpu), r),
{
    if cpu.get_flag(&CpuFlag::Zero) {
        let extra = relative_branch(cpu);
        cpu.clock.add_cycles(extra as u64);
        extra
    } else {
        0
    }
}

/// Branch if not equal (zero clear).
pub fn bne_fn(cpu: &mut Cpu) -> (r: u8)
    requires
        old(cpu).wf(),
    ensures
        final(cpu).wf(),
        bne_performed(*old(cpu), *final(cpu), r),
{
    if !cpu.get_flag(&CpuFlag::Zero) {
        let extra = relative_branch(cpu);
        cpu.clock.add_cycles(extra as u64);
        extra
    } else {
        0
    }
}

/// Branch if minus (negative set).
pub fn bmi_fn(cpu: &mut Cpu) -> (r: u8)
    requires
        old(cpu).wf(),
    ensures
        final(cpu).wf(),
        bmi_performed(*old(cpu), *final(cpu), r),
{
    if cpu.get_flag(&CpuFlag::Negative) {
        let extra = relative_branch(cpu);
        cpu.clock.add_cycles(extra as u64);
        extra
    } else {
        0
    }
}

/// Branch if plus (negative clear).
pub fn bpl_fn(cpu: &mut Cpu) -> (r: u8)
    requires
        old(cpu).wf(),
    ensures
        final(cpu).wf(),
        bpl_performed(*old(cpu), *final(cpu), r),
{
    if !cpu.get_flag(&CpuFlag::Negative) {
        let extra = relative_branch(cpu);
        cpu.clock.add_cycles(extra as u64);
        extra
    } else {
        0
    }
}

/// Branch if overflow clear.
pub fn bvc_fn(cpu: &mut Cpu) -> (r: u8)
    requires
        old(cpu).wf(),
    ensures
        final(cpu).wf(),
        bvc_performed(*old(cpu), *final(cpu), r),
{
    if !cpu.get_flag(&CpuFlag::Overflow) {
        let extra = relative_branch(cpu);
        cpu.clock.add_cycles(extra as u64);
        extra
    } else {
        0
    }
}

/// Branch if overflow set.
pub fn bvs_fn(cpu: &mut Cpu) -> (r: u8)
    requires
        old(cpu).wf(),
    ensures
        final(cpu).wf(),
        bvs_performed(*old(cpu), *final(cpu), r),
{
    if cpu.get_flag(&CpuFlag::Overflow) {
        let extra = relative_branch(cpu);
        cpu.clock.add_cycles(extra as u64);
        extra
    } else {
        0
    }
}

/// Bit test: zero from A and M, negative and overflow from bits 7 and 6 of M.
pub fn bit_fn(cpu: &mut Cpu) -> (r: u8)
    requires
        old(cpu).wf(),
    ensures
        final(cpu).wf(),
        bit_performed(*old(cpu), *final(cpu), r),
{
    let m = cpu.fetch();
    cpu.set_or_clear_flag(&CpuFlag::Zero, cpu.registers.a & m == 0);
    cpu.set_or_clear_flag(&CpuFlag::Negative, m >= 0x80);
    cpu.set_or_clear_flag(&CpuFlag::Overflow, m & 0x40 != 0);
    0
}

/// Break: the interrupt entry sequence, through the vector at 0xFFFE.
pub fn brk_fn(cpu: &mut Cpu) -> (r: u8)
    requires
        old(cpu).wf(),
    ensures
        final(cpu).wf(),
        brk_performed(*old(cpu), *final(cpu), r),
{
    cpu.enter_interrupt(IRQ_VECTOR);
    0
}

/// Clear the carry flag.
pub fn clc_fn(cpu: &mut Cpu) -> (r: u8)
    requires
        old(cpu).wf(),
    ensures
        final(cpu).wf(),
        clc_performed(*old(cpu), *final(cpu), r),
{
    cpu.clear_flag(&CpuFlag::Carry);
    0
}

/// Clear the decimal flag.
pub fn cld_fn(cpu: &mut Cpu) -> (r: u8)
    requires
        old(cpu).wf(),
    ensures
        final(cpu).wf(),
        cld_performed(*old(cpu), *final(cpu), r),
{
    cpu.clear_flag(&CpuFlag::Decimal);
    0
}

/// Clear the interrupt flag.
pub fn cli_fn(cpu: &mut Cpu) -> (r: u8)
    requires
        old(cpu).wf(),
    ensures
        final(cpu).wf(),
        cli_performed(*old(cpu), *final(cpu), r),
{
    cpu.clear_flag(&CpuFlag::Interrupt);
    0
}

/// Clear the overflow flag.
pub fn clv_fn(cpu: &mut Cpu) -> (r: u8)
    requires
        old(cpu).wf(),
    ensures
        final(cpu).wf(),
        clv_performed(*old(cpu), *final(cpu), r),
{
    cpu.clear_flag(&CpuFlag::Overflow);
    0
}

/// Set the carry flag.
pub fn sec_fn(cpu: &mut Cpu) -> (r: u8)
    requires
        old(cpu).wf(),
    ensures
        final(cpu).wf(),
        sec_performed(*old(cpu), *final(cpu), r),
{
    cpu.set_flag(&CpuFlag::Carry);
    0
}

/// Set the decimal flag.
pub fn sed_fn(cpu: &mut Cpu) -> (r: u8)
    requires
        old(cpu).wf(),
    ensures
        final(cpu).wf(),
        sed_performed(*old(cpu), *final(cpu), r),
{
    cpu.set_flag(&CpuFlag::Decimal);
    0
}

/// Set the interrupt flag.
pub fn sei_fn(cpu: &mut Cpu) -> (r: u8)
    requires
        old(cpu).wf(),
    ensures
        final(cpu).wf(),
        sei_performed(*old(cpu), *final(cpu), r),
{
    cpu.set_flag(&CpuFlag::Interrupt);
    0
}

/// Compare A with M.
pub fn cmp_fn(cpu: &mut Cpu) -> (r: u8)
    requires
        old(cpu).wf(),
    ensures
        final(cpu).wf(),
        cmp_performed(*old(cpu), *final(cpu), r),
{
    let a = cpu.registers.a;
    compare_values(cpu, a);
    1
}

/// Compare X with M.
pub fn cpx_fn(cpu: &mut Cpu) -> (r: u8)
    requires
        old(cpu).wf(),
    ensures
        final(cpu).wf(),
        cpx_performed(*old(cpu), *final(cpu), r),
{
    let x = cpu.registers.x;
    compare_values(cpu, x);
    0
}

/// Compare Y with M.
pub fn cpy_fn(cpu: &mut Cpu) -> (r: u8)
    requires
        old(cpu).wf(),
    ensures
        final(cpu).wf(),
        cpy_performed(*old(cpu), *final(cpu), r),
{
    let y = cpu.registers.y;
    compare_values(cpu, y);
    0
}

/// Decrement memory.
pub fn dec_fn(cpu: &mut Cpu) -> (r: u8)
    requires
        old(cpu).wf(),
    ensures
        final(cpu).wf(),
        dec_performed(*old(cpu), *final(cpu), r),
{
    let m = cpu.fetch();
    let v = m.wrapping_sub(1);
    cpu.set_zn(v);
    let addr = cpu.absolute_addr;
    cpu.write(addr, v);
    0
}

/// Increment memory.
pub fn inc_fn(cpu: &mut Cpu) -> (r: u8)
    requires
        old(cpu).wf(),
    ensures
        final(cpu).wf(),
        inc_performed(*old(cpu), *final(cpu), r),
{
    let m = cpu.fetch();
    let v = m.wrapping_add(1);
    cpu.set_zn(v);
    let addr = cpu.absolute_addr;
    cpu.write(addr, v);
    0
}

/// Decrement X.
pub fn dex_fn(cpu: &mut Cpu) -> (r: u8)
    requires
        old(cpu).wf(),
    ensures
        final(cpu).wf(),
        dex_performed(*old(cpu), *final(cpu), r),
{
    let v = cpu.registers.x.wrapping_sub(1);
    cpu.registers.x = v;
    cpu.set_zn(v);
    0
}

/// Decrement Y.
pub fn dey_fn(cpu: &mut Cpu) -> (r: u8)
    requires
        old(cpu).wf(),
    ensures
        final(cpu).wf(),
        dey_performed(*old(cpu), *final(cpu), r),
{
    let v = cpu.registers.y.wrapping_sub(1);
    cpu.registers.y = v;
    cpu.set_zn(v);
    0
}

/// Increment X.
pub fn inx_fn(cpu: &mut Cpu) -> (r: u8)
    requires
        old(cpu).wf(),
    ensures
        final(cpu).wf(),
        inx_performed(*old(cpu), *final(cpu), r),
{
    let v = cpu.registers.x.wrapping_add(1);
    cpu.registers.x = v;
    cpu.set_zn(v);
    0
}

/// Increment Y.
pub fn iny_fn(cpu: &mut Cpu) -> (r: u8)
    requires
        old(cpu).wf(),
    ensures
        final(cpu).wf(),
        iny_performed(*old(cpu), *final(cpu), r),
{
    let v = cpu.registers.y.wrapping_add(1);
    cpu.registers.y = v;
    cpu.set_zn(v);
    0
}

/// Jump to the resolved address.
pub fn jmp_fn(cpu: &mut Cpu) -> (r: u8)
    requires
        old(cpu).wf(),
    ensures
        final(cpu).wf(),
        jmp_performed(*old(cpu), *final(cpu), r),
{
    cpu.registers.pc = cpu.absolute_addr;
    0
}

/// Jump to subroutine: pushes the address of the last byte of this instruction (high byte first), then jumps.
pub fn jsr_fn(cpu: &mut Cpu) -> (r: u8)
    requires
        old(cpu).wf(),
    ensures
        final(cpu).wf(),
        jsr_performed(*old(cpu), *final(cpu), r),
{
    let ret = cpu.registers.pc.wrapping_sub(1);
    assert(ret == pc_plus(old(cpu).registers.pc, 0xFFFF));
    cpu.push_stack((ret / 256) as u8);
    cpu.push_stack((ret % 256) as u8);
    assert(cpu.bus == (crate::bus::Bus { ram: cpu.bus.ram, ..old(cpu).bus }));
    cpu.registers.pc = cpu.absolute_addr;
    0
}

/// Return from subroutine: pops the return address (low byte first) and goes to the byte after it.
pub fn rts_fn(cpu: &mut Cpu) -> (r: u8)
    requires
        old(cpu).wf(),
    ensures
        final(cpu).wf(),
        rts_performed(*old(cpu), *final(cpu), r),
{
    let lo = cpu.pop_stack();
    let hi = cpu.pop_stack();
    cpu.registers.pc = ((hi as u16) * 256 + lo as u16).wrapping_add(1);
    0
}

/// Return from interrupt: pops the status (dropping break and unused), then the program counter.
pub fn rti_fn(cpu: &mut Cpu) -> (r: u8)
    requires
        old(cpu).wf(),
    ensures
        final(cpu).wf(),
        rti_performed(*old(cpu), *final(cpu), r),
{
    let p = cpu.pop_stack();
    cpu.registers.status = p;
    cpu.clear_flag(&CpuFlag::Break);
    cpu.clear_flag(&CpuFlag::Unused);
    let lo = cpu.pop_stack();
    let hi = cpu.pop_stack();
    cpu.registers.pc = (hi as u16) * 256 + lo as u16;
    0
}

/// Load A from M.
pub fn lda_fn(cpu: &mut Cpu) -> (r: u8)
    requires
        old(cpu).wf(),
    ensures
        final(cpu).wf(),
        lda_performed(*old(cpu), *final(cpu), r),
{
    let m = cpu.fetch();
    cpu.registers.a = m;
    cpu.set_zn(m);
    1
}

/// Load X from M.
pub fn ldx_fn(cpu: &mut Cpu) -> (r: u8)
    requires
        old(cpu).wf(),
    ensures
        final(cpu).wf(),
        ldx_performed(*old(cpu), *final(cpu), r),
{
    let m = cpu.fetch();
    cpu.registers.x = m;
    cpu.set_zn(m);
    1
}

/// Load Y from M.
pub fn ldy_fn(cpu: &mut Cpu) -> (r: u8)
    requires
        old(cpu).wf(),
    ensures
        final(cpu).wf(),
        ldy_performed(*old(cpu), *final(cpu), r),
{
    let m = cpu.fetch();
    cpu.registers.y = m;
    cpu.set_zn(m);
    1
}

/// No operation.
pub fn nop_fn(cpu: &mut Cpu) -> (r: u8)
    requires
        old(cpu).wf(),
    ensures
        final(cpu).wf(),
        nop_performed(*old(cpu), *final(cpu), r),
{
    0
}

/// An opcode that the 6502 does not define: acts as a no-op.
pub fn xxx_fn(cpu: &mut Cpu) -> (r: u8)
    requires
        old(cpu).wf(),
    ensures
        final(cpu).wf(),
        xxx_performed(*old(cpu), *final(cpu), r),
{
    0
}

/// Push A.
pub fn pha_fn(cpu: &mut Cpu) -> (r: u8)
    requires
        old(cpu).wf(),
    ensures
        final(cpu).wf(),
        pha_performed(*old(cpu), *final(cpu), r),
{
    let a = cpu.registers.a;
    cpu.push_stack(a);
    0
}

/// Push the status, with break and unused set in the copy pushed.
pub fn php_fn(cpu: &mut Cpu) -> (r: u8)
    requires
        old(cpu).wf(),
    ensures
        final(cpu).wf(),
        php_performed(*old(cpu), *final(cpu), r),
{
    let p = set_flag(&set_flag(&cpu.registers.status, &CpuFlag::Break), &CpuFlag::Unused);
    cpu.push_stack(p);
    0
}

/// Pull A.
pub fn pla_fn(cpu: &mut Cpu) -> (r: u8)
    requires
        old(cpu).wf(),
    ensures
        final(cpu).wf(),
        pla_performed(*old(cpu), *final(cpu), r),
{
    let v = cpu.pop_stack();
    cpu.registers.a = v;
    cpu.set_zn(v);
    0
}

/// Pull the status; the unused bit stays set.
pub fn plp_fn(cpu: &mut Cpu) -> (r: u8)
    requires
        old(cpu).wf(),
    ensures
        final(cpu).wf(),
        plp_performed(*old(cpu), *final(cpu), r),
{
    let v = cpu.pop_stack();
    cpu.registers.status = v;
    cpu.set_flag(&CpuFlag::Unused);
    0
}

/// Store A at the resolved address.
pub fn sta_fn(cpu: &mut Cpu) -> (r: u8)
    requires
        old(cpu).wf(),
    ensures
        final(cpu).wf(),
        sta_performed(*old(cpu), *final(cpu), r),
{
    let addr = cpu.absolute_addr;
    let v = cpu.registers.a;
    cpu.write(addr, v);
    0
}

/// Store X at the resolved address.
pub fn stx_fn(cpu: &mut Cpu) -> (r: u8)
    requires
        old(cpu).wf(),
    ensures
        final(cpu).wf(),
        stx_performed(*old(cpu), *final(cpu), r),
{
    let addr = cpu.absolute_addr;
    let v = cpu.registers.x;
    cpu.write(addr, v);
    0
}

/// Store Y at the resolved address.
pub fn sty_fn(cpu: &mut Cpu) -> (r: u8)
    requires
        old(cpu).wf(),
    ensures
        final(cpu).wf(),
        sty_performed(*old(cpu), *final(cpu), r),
{
    let addr = cpu.absolute_addr;
    let v = cpu.registers.y;
    cpu.write(addr, v);
    0
}

/// Transfer A to X.
pub fn tax_fn(cpu: &mut Cpu) -> (r: u8)
    requires
        old(cpu).wf(),
    ensures
        final(cpu).wf(),
        tax_performed(*old(cpu), *final(cpu), r),
{
    let v = cpu.registers.a;
    cpu.registers.x = v;
    cpu.set_zn(v);
    0
}

/// Transfer A to Y.
pub fn tay_fn(cpu: &mut Cpu) -> (r: u8)
    requires
        old(cpu).wf(),
    ensures
        final(cpu).wf(),
        tay_performed(*old(cpu), *final(cpu), r),
{
    let v = cpu.registers.a;
    cpu.registers.y = v;
    cpu.set_zn(v);
    0
}

/// Transfer the stack pointer to X.
pub fn tsx_fn(cpu: &mut Cpu) -> (r: u8)
    requires
        old(cpu).wf(),
    ensures
        final(cpu).wf(),
        tsx_performed(*old(cpu), *final(cpu), r),
{
    let v = cpu.registers.sp;
    cpu.registers.x = v;
    cpu.set_zn(v);
    0
}

/// Transfer X to A.
pub fn txa_fn(cpu: &mut Cpu) -> (r: u8)
    requires
        old(cpu).wf(),
    ensures
        final(cpu).wf(),
        txa_performed(*old(cpu), *final(cpu), r),
{
    let v = cpu.registers.x;
    cpu.registers.a = v;
    cpu.set_zn(v);
    0
}

/// Transfer Y to A.
pub fn tya_fn(cpu: &mut Cpu) -> (r: u8)
    requires
        old(cpu).wf(),
    ensures
        final(cpu).wf(),
        tya_performed(*old(cpu), *final(cpu), r),
{
    let v = cpu.registers.y;
    cpu.registers.a = v;
    cpu.set_zn(v);
    0
}

/// Transfer X to the stack pointer; no flag changes.
pub fn txs_fn(cpu: &mut Cpu) -> (r: u8)
    requires
        old(cpu).wf(),
    ensures
        final(cpu).wf(),
        txs_performed(*old(cpu), *final(cpu), r),
{
    cpu.registers.sp = cpu.registers.x;
    0
}

/// Whether `op` is one of the eight conditional branches.
pub open spec fn is_branch(op: OpCodeType) -> bool {
    match op {
        OpCodeType::BCC | OpCodeType::BCS | OpCodeType::BEQ | OpCodeType::BNE | OpCodeType::BMI
        | OpCodeType::BPL | OpCodeType::BVC | OpCodeType::BVS => true,
        _ => false,
    }
}

/// Whether branch `op` is taken with status byte `status`.
pub open spec fn branch_taken(op: OpCodeType, status: u8) -> bool {
    match op {
        OpCodeType::BCC => !flag_is_set(status, CpuFlag::Carry),
        OpCodeType::BCS => flag_is_set(status, CpuFlag::Carry),
        OpCodeType::BEQ => flag_is_set(status, CpuFlag::Zero),
        OpCodeType::BNE => !flag_is_set(status, CpuFlag::Zero),
        OpCodeType::BMI => flag_is_set(status, CpuFlag::Negative),
        OpCodeType::BPL => !flag_is_set(status, CpuFlag::Negative),
        OpCodeType::BVC => !flag_is_set(status, CpuFlag::Overflow),
        OpCodeType::BVS => flag_is_set(status, CpuFlag::Overflow),
        _ => false,
    }
}

/// Every branch opcode of the table uses relative addressing.
pub proof fn lemma_branches_are_relative(raw: u8)
    ensures
        is_branch(opcode_table(raw).code_type) ==> opcode_table(raw).addressing_mode
            == AddressingMode::REL,
{
    reveal(opcode_table);
}

/// A branch instruction costs its base cycles when not taken, one more when
/// taken, and two more when taken onto another page than the instruction
/// after it. Besides the program counter, only the unused flag (which every
/// instruction sets) changes.
pub proof fn lemma_branch_timing(before: Cpu, after: Cpu)
    requires
        before.wf(),
        Cpu::stepped(before, after),
        is_branch(opcode_table(before.read_spec(before.registers.pc)).code_type),
    ensures
        ({
            let oc = opcode_table(before.read_spec(before.registers.pc));
            let next = pc_plus(before.registers.pc, 2);
            let rel = before.read_spec(pc_plus(before.registers.pc, 1)) as i8;
            let taken = branch_taken(oc.code_type, before.registers.status);
            &&& after.clock.ticks_left == oc.cycles + if taken {
                branch_cost(next, rel)
            } else {
                0
            }
            &&& after.registers == (Registers {
                pc: if taken {
                    branch_target(next, rel)
                } else {
                    next
                },
                status: with_flag(before.registers.status, CpuFlag::Unused, true),
                ..before.registers
            })
        }),
{
    let raw = before.read_spec(before.registers.pc);
    let oc = opcode_table(raw);
    lemma_branches_are_relative(raw);
    let (decoded, addressed, operated, am, op) = choose|
        decoded: Cpu,
        addressed: Cpu,
        operated: Cpu,
        am: u8,
        op: u8,
    | #[trigger] Cpu::stepped_via(before, decoded, addressed, operated, am, op, after);
    reveal(Cpu::stepped_via);
    reveal(performed);
    let s = before.registers.status;
    lemma_with_flag(s, CpuFlag::Unused, true, CpuFlag::Carry);
    lemma_with_flag(s, CpuFlag::Unused, true, CpuFlag::Zero);
    lemma_with_flag(s, CpuFlag::Unused, true, CpuFlag::Negative);
    lemma_with_flag(s, CpuFlag::Unused, true, CpuFlag::Overflow);
    assert(pc_plus(pc_plus(before.registers.pc, 1), 1) == pc_plus(before.registers.pc, 2));
    assert(am == 0);
    assert(op & 0u8 == 0) by (bit_vector);
}

/// A jump to a subroutine followed by a return from it comes back to the
/// instruction after the jump, with the stack pointer where it was.
pub proof fn lemma_jsr_then_rts(before: Cpu, called: Cpu, returned: Cpu, e1: u8, e2: u8)
    requires
        before.wf(),
        jsr_performed(before, called, e1),
        rts_performed(called, returned, e2),
    ensures
        returned.registers.pc == before.registers.pc,
        returned.registers.sp == before.registers.sp,
{
    let sp = before.registers.sp;
    let ret = pc_plus(before.registers.pc, 0xFFFF);
    assert(sp_after_pop(sp_after_push(sp_after_push(sp))) == sp_after_push(sp));
    assert(sp_after_pop(sp_after_push(sp)) == sp);
    assert(stack_slot(sp) != stack_slot(sp_after_push(sp)));
    assert(word((ret % 256) as u8, (ret / 256) as u8) == ret);
}

/// Every operation reports at most two extra cycles (more than one only for a
/// taken branch), leaves the cycle total alone, and adds at most two cycles to
/// the debt.
pub proof fn lemma_performed_bounds(op: OpCodeType, before: Cpu, after: Cpu, extra: u8)
    requires
        performed(op, before, after, extra),
    ensures
        extra <= 2,
        after.clock.total_ticks == before.clock.total_ticks,
        after.clock.ticks_left <= before.clock.ticks_left + 2,
        after.clock.ticks_left >= before.clock.ticks_left,
{
    reveal(performed);
}

impl OpCodeType {
    /// Performs this operation on the CPU, whose address is resolved; returns
    /// the extra cycle that the operation may need.
    pub fn execute(&self, cpu: &mut Cpu) -> (r: u8)
        requires
            old(cpu).wf(),
            ensures
            final(cpu).wf(),
            performed(*self, *old(cpu), *final(cpu), r),
            r <= 2,
            final(cpu).clock.total_ticks == old(cpu).clock.total_ticks,
            final(cpu).clock.ticks_left <= old(cpu).clock.ticks_left + 2,
            final(cpu).clock.ticks_left >= old(cpu).clock.ticks_left,
    {
        proof {
            reveal(performed);
        }
        let r = match self {
            OpCodeType::ADC => adc_fn(cpu),
            OpCodeType::AND => and_fn(cpu),
            OpCodeType::ASL => asl_fn(cpu),
            OpCodeType::BCC => bcc_fn(cpu),
            OpCodeType::BCS => bcs_fn(cpu),
            OpCodeType::BEQ => beq_fn(cpu),
            OpCodeType::BIT => bit_fn(cpu),
            OpCodeType::BMI => bmi_fn(cpu),
            OpCodeType::BNE => bne_fn(cpu),
            OpCodeType::BPL => bpl_fn(cpu),
            OpCodeType::BRK => brk_fn(cpu),
            OpCodeType::BVC => bvc_fn(cpu),
            OpCodeType::BVS => bvs_fn(cpu),
            OpCodeType::CLC => clc_fn(cpu),
            OpCodeType::CLD => cld_fn(cpu),
            OpCodeType::CLI => cli_fn(cpu),
            OpCodeType::CLV => clv_fn(cpu),
            OpCodeType::CMP => cmp_fn(cpu),
            OpCodeType::CPX => cpx_fn(cpu),
            OpCodeType::CPY => cpy_fn(cpu),
            OpCodeType::DEC => dec_fn(cpu),
            OpCodeType::DEX => dex_fn(cpu),
            OpCodeType::DEY => dey_fn(cpu),
            OpCodeType::EOR => eor_fn(cpu),
            OpCodeType::INC => inc_fn(cpu),
            OpCodeType::INX => inx_fn(cpu),
            OpCodeType::INY => iny_fn(cpu),
            OpCodeType::JMP => jmp_fn(cpu),
            OpCodeType::JSR => jsr_fn(cpu),
            OpCodeType::LDA => lda_fn(cpu),
            OpCodeType::LDX => ldx_fn(cpu),
            OpCodeType::LDY => ldy_fn(cpu),
            OpCodeType::LSR => lsr_fn(cpu),
            OpCodeType::NOP => nop_fn(cpu),
            OpCodeType::ORA => ora_fn(cpu),
            OpCodeType::PHA => pha_fn(cpu),
            OpCodeType::PHP => php_fn(cpu),
            OpCodeType::PLA => pla_fn(cpu),
            OpCodeType::PLP => plp_fn(cpu),
            OpCodeType::ROL => rol_fn(cpu),
            OpCodeType::ROR => ror_fn(cpu),
            OpCodeType::RTI => rti_fn(cpu),
            OpCodeType::RTS => rts_fn(cpu),
            OpCodeType::SBC => sbc_fn(cpu),
            OpCodeType::SEC => sec_fn(cpu),
            OpCodeType::SED => sed_fn(cpu),
            OpCodeType::SEI => sei_fn(cpu),
            OpCodeType::STA => sta_fn(cpu),
            OpCodeType::STX => stx_fn(cpu),
            OpCodeType::STY => sty_fn(cpu),
            OpCodeType::TAX => tax_fn(cpu),
            OpCodeType::TAY => tay_fn(cpu),
            OpCodeType::TSX => tsx_fn(cpu),
            OpCodeType::TXA => txa_fn(cpu),
            OpCodeType::TXS => txs_fn(cpu),
            OpCodeType::TYA => tya_fn(cpu),
            OpCodeType::XXX => xxx_fn(cpu),
        };
        proof {
            lemma_performed_bounds(*self, *old(cpu), *final(cpu), r);
        }
        r
    }
}

} // verus!
