use vstd::prelude::*;
use crate::bus::{Bus, PPU_END, RAM_SIZE};
use crate::clock::{sum_capped, Clock};
use crate::flags::{clear_flag, flag_is_set, set_flag, with_flag, CpuFlag};
use crate::addressing::resolved;
use crate::opcode::{opcode_table, AddressingMode, OpCode};
use crate::operations::performed;
use crate::ppu::Ppu;
use crate::Reset;

verus! {

/// Start of the stack page.
pub const STACK_BASE: u16 = 0x0100;

/// Where the address that execution starts at after a reset is kept.
pub const RESET_VECTOR: u16 = 0xFFFC;

/// Stack pointer after a reset.
pub const STACK_POINTER_RESET: u8 = 0xFD;

/// Where the address of the maskable interrupt handler is kept.
pub const IRQ_VECTOR: u16 = 0xFFFE;

/// Where the address of the non-maskable interrupt handler is kept.
pub const NMI_VECTOR: u16 = 0xFFFA;

/// Cycles that a reset takes.
pub const RESET_CYCLES: u64 = 8;

/// Cycles that a maskable interrupt takes.
pub const IRQ_CYCLES: u64 = 7;

/// Cycles that a non-maskable interrupt takes.
pub const NMI_CYCLES: u64 = 8;

/// The registers of the 6502.
#[derive(Debug, Clone, Copy, PartialEq, Eq, Structural)]
pub struct Registers {
    /// Accumulator.
    pub a: u8,
    pub x: u8,
    pub y: u8,
    pub status: u8,
    /// Stack pointer: an offset into page one.
    pub sp: u8,
    /// Program counter.
    pub pc: u16,
}

/// The 6502 with the bus it drives.
///
/// Besides the registers, it keeps what one instruction hands from its
/// addressing step to its operation: the operand fetched, the address
/// resolved, the branch offset, the addressing mode, and the two extra-cycle
/// flags.
pub struct Cpu {
    pub bus: Bus,
    pub clock: Clock,
    pub registers: Registers,
    pub fetched_data: u8,
    pub absolute_addr: u16,
    pub relative_addr: i8,
    pub addressing_mode: AddressingMode,
    pub additional_cycle_addrmode: u8,
    pub additional_cycle_operation: u8,
}

/// `pc` moved on by `n` bytes, wrapping at the end of the address space.
pub open spec fn pc_plus(pc: u16, n: int) -> u16 {
    ((pc + n) % 0x10000) as u16
}

/// The 16-bit value with low byte `lo` and high byte `hi`.
pub open spec fn word(lo: u8, hi: u8) -> u16 {
    (hi * 256 + lo) as u16
}

/// The stack pointer after a push.
pub open spec fn sp_after_push(sp: u8) -> u8 {
    if sp == 0 {
        0xFF
    } else {
        (sp - 1) as u8
    }
}

/// The stack pointer after a pop.
pub open spec fn sp_after_pop(sp: u8) -> u8 {
    if sp == 0xFF {
        0
    } else {
        (sp + 1) as u8
    }
}

/// Index in RAM of the stack slot that `sp` points at.
pub open spec fn stack_slot(sp: u8) -> int {
    0x100 + sp
}

/// `after` is `before` with its RAM holding `ram` and nothing else changed.
pub open spec fn ram_became(before: Bus, after: Bus, ram: Seq<u8>) -> bool {
    after == (Bus { ram: after.ram, ..before }) && after.ram@ == ram
}

/// The status byte with the zero and negative flags describing `value`.
pub open spec fn status_zn(status: u8, value: u8) -> u8 {
    with_flag(with_flag(status, CpuFlag::Zero, value == 0), CpuFlag::Negative, value >= 0x80)
}

/// The status byte that an interrupt entry pushes: break and unused set.
pub open spec fn pushed_status(status: u8) -> u8 {
    with_flag(with_flag(status, CpuFlag::Break, true), CpuFlag::Unused, true)
}

/// The status once an interrupt has been entered: break cleared again,
/// interrupts disabled.
pub open spec fn status_in_handler(status: u8) -> u8 {
    with_flag(with_flag(pushed_status(status), CpuFlag::Break, false), CpuFlag::Interrupt, true)
}

impl Cpu {
    pub open spec fn wf(self) -> bool {
        self.bus.wf()
    }

    /// What a read of `addr` gives.
    pub open spec fn read_spec(self, addr: u16) -> u8 {
        self.bus.read_spec(addr)
    }

    /// The 16-bit value stored little-endian at `addr` and `addr + 1`.
    pub open spec fn word_at(self, addr: u16) -> u16 {
        word(self.read_spec(addr), self.read_spec(pc_plus(addr, 1)))
    }

    /// The operand of the instruction in flight: the accumulator copy for
    /// implied mode, else the byte at the resolved address.
    pub open spec fn operand(self) -> u8 {
        if self.addressing_mode == AddressingMode::IMP {
            self.fetched_data
        } else {
            self.read_spec(self.absolute_addr)
        }
    }

    pub open spec fn flag(self, flag: CpuFlag) -> bool {
        flag_is_set(self.registers.status, flag)
    }

    /// `after` is `before` once `data` has been pushed.
    pub open spec fn pushed(before: Cpu, after: Cpu, data: u8) -> bool {
        &&& ram_became(
            before.bus,
            after.bus,
            before.bus.ram@.update(stack_slot(before.registers.sp), data),
        )
        &&& after == (Cpu {
            bus: after.bus,
            registers: Registers { sp: sp_after_push(before.registers.sp), ..before.registers },
            ..before
        })
    }

    /// `after` is `before` once `data` has been popped.
    pub open spec fn popped(before: Cpu, after: Cpu, data: u8) -> bool {
        &&& data == before.bus.ram@[stack_slot(sp_after_pop(before.registers.sp))]
        &&& after == (Cpu {
            registers: Registers { sp: sp_after_pop(before.registers.sp), ..before.registers },
            ..before
        })
    }

    /// `after` is `before` once an interrupt sequence has pushed the program
    /// counter (high byte first) and the status with break and unused set,
    /// cleared break, disabled interrupts, and jumped to the address kept at
    /// `vector`.
    pub open spec fn interrupt_entered(before: Cpu, after: Cpu, vector: u16) -> bool {
        let sp = before.registers.sp;
        let pc = before.registers.pc;
        &&& ram_became(
            before.bus,
            after.bus,
            before.bus.ram@.update(stack_slot(sp), (pc / 256) as u8).update(
                stack_slot(sp_after_push(sp)),
                (pc % 256) as u8,
            ).update(
                stack_slot(sp_after_push(sp_after_push(sp))),
                pushed_status(before.registers.status),
            ),
        )
        &&& after == (Cpu {
            bus: after.bus,
            registers: Registers {
                sp: sp_after_push(sp_after_push(sp_after_push(sp))),
                status: status_in_handler(before.registers.status),
                pc: before.word_at(vector),
                ..before.registers
            },
            ..before
        })
    }

    /// `decoded` is `before` once the opcode at the program counter has been
    /// read and decoded: the counter moved past it, the unused flag set, the
    /// base cost loaded into the clock, and the addressing mode recorded.
    pub open spec fn decoded(before: Cpu, decoded: Cpu) -> bool {
        let oc = opcode_table(before.read_spec(before.registers.pc));
        decoded == (Cpu {
            registers: Registers {
                pc: pc_plus(before.registers.pc, 1),
                status: with_flag(before.registers.status, CpuFlag::Unused, true),
                ..before.registers
            },
            clock: Clock { ticks_left: oc.cycles as u64, ..before.clock },
            addressing_mode: oc.addressing_mode,
            ..before
        })
    }

    /// One instruction through the stages that `execute_clock_cycle` runs:
    /// decode, resolve the address (reporting `am`), perform the operation
    /// (reporting `op`), and charge the extra cycle when both report one.
    #[verifier::opaque]
    pub open spec fn stepped_via(
        before: Cpu,
        decoded: Cpu,
        addressed: Cpu,
        operated: Cpu,
        am: u8,
        op: u8,
        after: Cpu,
    ) -> bool {
        let oc = opcode_table(before.read_spec(before.registers.pc));
        &&& Cpu::decoded(before, decoded)
        &&& resolved(oc.addressing_mode, decoded, addressed, am)
        &&& performed(oc.code_type, Cpu { additional_cycle_addrmode: am, ..addressed }, operated, op)
        &&& after == (Cpu {
            additional_cycle_operation: op,
            clock: Clock { ticks_left: sum_capped(operated.clock.ticks_left, (op & am) as int), ..operated.clock },
            ..operated
        })
    }

    /// `after` is `before` once one whole instruction has run.
    pub open spec fn stepped(before: Cpu, after: Cpu) -> bool {
        exists|decoded: Cpu, addressed: Cpu, operated: Cpu, am: u8, op: u8|
            #[trigger] Cpu::stepped_via(before, decoded, addressed, operated, am, op, after)
    }

    /// `after` is `before` one clock cycle later: when the clock was ready a
    /// whole instruction ran and left its full cost owed, else one cycle of
    /// debt was paid; either way the total counted the cycle.
    pub open spec fn ticked(before: Cpu, after: Cpu) -> bool {
        let total = if before.clock.total_ticks == u64::MAX {
            u64::MAX
        } else {
            (before.clock.total_ticks + 1) as u64
        };
        if before.clock.ticks_left == 0 {
            exists|mid: Cpu|
                #[trigger] Cpu::stepped(before, mid) && after == (Cpu {
                    clock: Clock { total_ticks: total, ..mid.clock },
                    ..mid
                })
        } else {
            after == (Cpu {
                clock: Clock { ticks_left: (before.clock.ticks_left - 1) as u64, total_ticks: total },
                ..before
            })
        }
    }

    /// A CPU with zeroed registers, zeroed RAM, a fresh PPU and no cartridge.
    pub fn new() -> (r: Cpu)
        ensures
            r.wf(),
            r.registers == (Registers { a: 0, x: 0, y: 0, status: 0, sp: 0, pc: 0 }),
            r.bus.ram@ == Seq::new(RAM_SIZE as nat, |i: int| 0u8),
            r.bus.ppu.registers@ == Seq::new(8, |i: int| 0u8),
            r.bus.ppu.cycle == 0,
            r.bus.ppu.scanline == 0,
            r.bus.cartridge.is_none(),
            r.bus.clock == Clock::new_spec(),
            r.clock == Clock::new_spec(),
            r.fetched_data == 0,
            r.absolute_addr == 0,
            r.relative_addr == 0,
            r.addressing_mode == AddressingMode::IMP,
            r.additional_cycle_addrmode == 0,
            r.additional_cycle_operation == 0,
    {
        Cpu {
            bus: Bus::new(Ppu::new()),
            clock: Clock::new(),
            registers: Registers { a: 0, x: 0, y: 0, status: 0, sp: 0, pc: 0 },
            fetched_data: 0,
            absolute_addr: 0,
            relative_addr: 0,
            addressing_mode: AddressingMode::IMP,
            additional_cycle_addrmode: 0,
            additional_cycle_operation: 0,
        }
    }

    pub fn get_bus(&self) -> (r: &Bus)
        ensures
            *r == self.bus,
    {
        &self.bus
    }

    pub fn read(&self, address: u16) -> (r: u8)
        requires
            self.wf(),
        ensures
            r == self.read_spec(address),
    {
        self.bus.read_cpu(address)
    }

    pub fn write(&mut self, address: u16, data: u8)
        requires
            old(self).wf(),
        ensures
            final(self).wf(),
            old(self).bus.write_spec(final(self).bus, address, data),
            *final(self) == (Cpu { bus: final(self).bus, ..*old(self) }),
    {
        self.bus.write_cpu(address, data);
    }

    /// Reads the 16-bit value stored little-endian at `address`.
    fn read_word(&self, address: u16) -> (r: u16)
        requires
            self.wf(),
        ensures
            r == self.word_at(address),
    {
        let lo = self.read(address);
        let hi = self.read(address.wrapping_add(1));
        (hi as u16) * 256 + lo as u16
    }

    /// The operand of the instruction in flight; also kept in `fetched_data`.
    pub fn fetch(&mut self) -> (r: u8)
        requires
            old(self).wf(),
        ensures
            r == old(self).operand(),
            *final(self) == (Cpu { fetched_data: r, ..*old(self) }),
    {
        match self.addressing_mode {
            AddressingMode::IMP => {},
            _ => {
                self.fetched_data = self.read(self.absolute_addr);
            },
        }
        self.fetched_data
    }

    /// Writes `data` to the top of the stack, then moves the stack pointer down.
    pub fn push_stack(&mut self, data: u8)
        requires
            old(self).wf(),
        ensures
            final(self).wf(),
            Cpu::pushed(*old(self), *final(self), data),
    {
        let address = STACK_BASE + self.registers.sp as u16;
        self.write(address, data);
        self.registers.sp = self.registers.sp.wrapping_sub(1);
    }

    /// Moves the stack pointer up, then reads the top of the stack.
    pub fn pop_stack(&mut self) -> (r: u8)
        requires
            old(self).wf(),
        ensures
            final(self).wf(),
            Cpu::popped(*old(self), *final(self), r),
    {
        self.registers.sp = self.registers.sp.wrapping_add(1);
        self.read(STACK_BASE + self.registers.sp as u16)
    }

    pub fn set_flag(&mut self, flag: &CpuFlag)
        ensures
            *final(self) == (Cpu {
                registers: Registers {
                    status: with_flag(old(self).registers.status, *flag, true),
                    ..old(self).registers
                },
                ..*old(self)
            }),
    {
        self.registers.status = set_flag(&self.registers.status, flag);
    }

    pub fn clear_flag(&mut self, flag: &CpuFlag)
        ensures
            *final(self) == (Cpu {
                registers: Registers {
                    status: with_flag(old(self).registers.status, *flag, false),
                    ..old(self).registers
                },
                ..*old(self)
            }),
    {
        self.registers.status = clear_flag(&self.registers.status, flag);
    }

    pub fn get_flag(&self, flag: &CpuFlag) -> (r: bool)
        ensures
            r == self.flag(*flag),
    {
        (self.registers.status & flag.mask()) != 0
    }

    pub fn set_or_clear_flag(&mut self, flag: &CpuFlag, set: bool)
        ensures
            *final(self) == (Cpu {
                registers: Registers {
                    status: with_flag(old(self).registers.status, *flag, set),
                    ..old(self).registers
                },
                ..*old(self)
            }),
    {
        if set {
            self.set_flag(flag)
        } else {
            self.clear_flag(flag)
        }
    }

    /// Sets the zero and negative flags from `value`.
    pub(crate) fn set_zn(&mut self, value: u8)
        ensures
            *final(self) == (Cpu {
                registers: Registers {
                    status: status_zn(old(self).registers.status, value),
                    ..old(self).registers
                },
                ..*old(self)
            }),
    {
        self.set_or_clear_flag(&CpuFlag::Zero, value == 0);
        self.set_or_clear_flag(&CpuFlag::Negative, value >= 0x80);
    }

    /// Runs one whole instruction: fetch and decode the opcode, set the unused
    /// flag, load the base cost, resolve the addressing mode, perform the
    /// operation, and add the extra cycle when both the addressing mode and
    /// the operation report one.
    pub fn execute_clock_cycle(&mut self)
        requires
            old(self).wf(),
        ensures
            final(self).wf(),
            Cpu::stepped(*old(self), *final(self)),
            final(self).clock.total_ticks == old(self).clock.total_ticks,
            2 <= final(self).clock.ticks_left <= 11,
    {
        let raw = self.read(self.registers.pc);
        proof {
            crate::opcode::lemma_opcode_table_total(raw);
        }
        let opcode = OpCode::from(raw);
        self.registers.pc = self.registers.pc.wrapping_add(1);
        self.set_flag(&CpuFlag::Unused);
        self.clock.set_cycles(opcode.cycles as u64);
        self.addressing_mode = opcode.addressing_mode;
        let ghost decoded = *self;
        let mode = opcode.addressing_mode;
        let am = mode.fetch(self);
        let ghost addressed = *self;
        self.additional_cycle_addrmode = am;
        let op = opcode.code_type.execute(self);
        let ghost operated = *self;
        self.additional_cycle_operation = op;
        let extra = op & am;
        assert(op & am <= am) by (bit_vector);
        self.clock.add_cycles(extra as u64);
        assert(Cpu::stepped_via(*old(self), decoded, addressed, operated, am, op, *self)) by {
            reveal(Cpu::stepped_via);
        }
    }

    /// One clock cycle. When the clock is ready the next instruction runs in
    /// full and its whole cost is loaded; otherwise one cycle of the debt is
    /// paid. Either way the cycle is counted in the total.
    pub fn tick(&mut self)
        requires
            old(self).wf(),
        ensures
            final(self).wf(),
            Cpu::ticked(*old(self), *final(self)),
    {
        if self.clock.is_ready() {
            self.execute_clock_cycle();
            self.clock.total_ticks = self.clock.total_ticks.saturating_add(1);
        } else {
            self.clock.tick();
        }
    }

    /// The entry sequence shared by interrupts and the break instruction:
    /// pushes the program counter (high byte, then low) and the status with
    /// break and unused set, clears break again, disables interrupts, and
    /// jumps to the address kept at `vector`.
    pub(crate) fn enter_interrupt(&mut self, vector: u16)
        requires
            old(self).wf(),
            vector > PPU_END,
        ensures
            final(self).wf(),
            Cpu::interrupt_entered(*old(self), *final(self), vector),
    {
        let pc = self.registers.pc;
        self.push_stack((pc / 256) as u8);
        self.push_stack((pc % 256) as u8);
        self.set_flag(&CpuFlag::Break);
        self.set_flag(&CpuFlag::Unused);
        let status = self.registers.status;
        self.push_stack(status);
        self.clear_flag(&CpuFlag::Break);
        self.set_flag(&CpuFlag::Interrupt);
        self.registers.pc = self.read_word(vector);
        assert(self.word_at(vector) == old(self).word_at(vector));
    }

    /// Enters an interrupt and adds its cost to the cycles still owed: the
    /// instruction in flight has already had its effect, so the handler's
    /// first instruction starts only once both are paid for.
    fn interrupt(&mut self, vector: u16, cycles: u64)
        requires
            old(self).wf(),
            vector > PPU_END,
        ensures
            final(self).wf(),
            Cpu::interrupt_entered(*old(self), Cpu { clock: old(self).clock, ..*final(self) }, vector),
            final(self).clock == (Clock {
                ticks_left: sum_capped(old(self).clock.ticks_left, cycles as int),
                ..old(self).clock
            }),
    {
        self.enter_interrupt(vector);
        self.clock.add_cycles(cycles);
    }

    /// A maskable interrupt: taken only while the interrupt-disable flag is
    /// clear; it then goes to the handler kept at 0xFFFE, and its 7 cycles are
    /// added to those still owed.
    pub fn interrupt_request(&mut self)
        requires
            old(self).wf(),
        ensures
            final(self).wf(),
            old(self).flag(CpuFlag::Interrupt) ==> *final(self) == *old(self),
            !old(self).flag(CpuFlag::Interrupt) ==> Cpu::interrupt_entered(
                *old(self),
                Cpu { clock: old(self).clock, ..*final(self) },
                IRQ_VECTOR,
            ) && final(self).clock == (Clock {
                ticks_left: sum_capped(old(self).clock.ticks_left, IRQ_CYCLES as int),
                ..old(self).clock
            }),
    {
        if !self.get_flag(&CpuFlag::Interrupt) {
            self.interrupt(IRQ_VECTOR, IRQ_CYCLES);
        }
    }

    /// A non-maskable interrupt: always taken; it goes to the handler kept at
    /// 0xFFFA, and its 8 cycles are added to those still owed.
    pub fn non_maskable_interrupt_request(&mut self)
        requires
            old(self).wf(),
        ensures
            final(self).wf(),
            Cpu::interrupt_entered(*old(self), Cpu { clock: old(self).clock, ..*final(self) }, NMI_VECTOR),
            final(self).clock == (Clock {
                ticks_left: sum_capped(old(self).clock.ticks_left, NMI_CYCLES as int),
                ..old(self).clock
            }),
    {
        self.interrupt(NMI_VECTOR, NMI_CYCLES);
    }
}

/// Pushing a byte and popping it again gives the byte back and restores the
/// stack pointer; nothing else in the registers changes.
pub proof fn lemma_stack_round_trip(before: Cpu, pushed: Cpu, popped: Cpu, x: u8, r: u8)
    requires
        before.wf(),
        Cpu::pushed(before, pushed, x),
        Cpu::popped(pushed, popped, r),
    ensures
        r == x,
        popped.registers == before.registers,
{
    assert(sp_after_pop(sp_after_push(before.registers.sp)) == before.registers.sp);
}

impl Reset for Cpu {
    /// Registers in their power-on state, the program counter read from the
    /// reset vector, 8 cycles owed, the bus as it was.
    open spec fn reset_of(&self, before: Self) -> bool {
        &&& self.wf()
        &&& self.bus == before.bus
        &&& self.registers == (Registers {
            a: 0,
            x: 0,
            y: 0,
            sp: STACK_POINTER_RESET,
            status: CpuFlag::Unused.spec_mask(),
            pc: before.word_at(RESET_VECTOR),
        })
        &&& self.clock == (Clock { total_ticks: 0, ticks_left: RESET_CYCLES })
        &&& self.fetched_data == 0
        &&& self.absolute_addr == 0
        &&& self.relative_addr == before.relative_addr
        &&& self.addressing_mode == AddressingMode::IMP
        &&& self.additional_cycle_addrmode == 0
        &&& self.additional_cycle_operation == 0
    }

    open spec fn inv(&self) -> bool {
        self.wf()
    }

    fn reset(&mut self) {
        self.registers.pc = self.read_word(RESET_VECTOR);
        self.registers.a = 0;
        self.registers.x = 0;
        self.registers.y = 0;
        self.registers.sp = STACK_POINTER_RESET;
        self.registers.status = CpuFlag::Unused.mask();
        self.additional_cycle_addrmode = 0;
        self.additional_cycle_operation = 0;
        self.addressing_mode = AddressingMode::IMP;
        self.absolute_addr = 0;
        self.fetched_data = 0;
        // The reset takes 8 cycles, charged to the clock rather than spent here:
        // it happens between ticks.
        self.clock.reset();
        self.clock.set_cycles(RESET_CYCLES);
    }
}

} // verus!
