use nes_rs::addressing::{fetch_abx, fetch_aby, fetch_ind, fetch_izy};
use nes_rs::cpu::{IRQ_VECTOR, NMI_VECTOR};
use nes_rs::operations::{adc_fn, bcc_fn, beq_fn, jsr_fn, rts_fn, sbc_fn};
use nes_rs::{AddressingMode, Cpu, CpuFlag, OpCode, OpCodeType, Reset};

fn load(cpu: &mut Cpu, at: u16, bytes: &[u8]) {
    for (i, b) in bytes.iter().enumerate() {
        cpu.write(at + i as u16, *b);
    }
}

#[test]
fn every_opcode_decodes() {
    for raw in 0..=255u8 {
        let op = OpCode::from(raw);
        assert!(op.cycles >= 2 && op.cycles <= 8, "opcode {raw:#04x}");
    }
    let lda = OpCode::from(0xA9);
    assert_eq!(lda.code_type, OpCodeType::LDA);
    assert_eq!(lda.addressing_mode, AddressingMode::IMM);
    assert_eq!(lda.cycles, 2);
    let jmp = OpCode::from(0x6C);
    assert_eq!(jmp.code_type, OpCodeType::JMP);
    assert_eq!(jmp.addressing_mode, AddressingMode::IND);
    assert_eq!(jmp.cycles, 5);
    let brk = OpCode::from(0x00);
    assert_eq!(brk.code_type, OpCodeType::BRK);
    assert_eq!(brk.cycles, 7);
    let undefined_sbc = OpCode::from(0xEB);
    assert_eq!(undefined_sbc.code_type, OpCodeType::XXX);
    assert_eq!(undefined_sbc.addressing_mode, AddressingMode::IMP);
    assert_eq!(undefined_sbc.cycles, 2);
    let ill = OpCode::from(0xFF);
    assert_eq!(ill.code_type, OpCodeType::XXX);
    assert_eq!(ill.cycles, 7);
}

fn run_arith(cpu: &mut Cpu, a: u8, m: u8, carry: bool, subtract: bool) {
    cpu.addressing_mode = AddressingMode::IMP;
    cpu.fetched_data = m;
    cpu.registers.a = a;
    cpu.set_or_clear_flag(&CpuFlag::Carry, carry);
    let extra = if subtract { sbc_fn(cpu) } else { adc_fn(cpu) };
    assert_eq!(extra, 1);
}

#[test]
fn adc_truth_table() {
    let mut cpu = Cpu::new();
    for a in 0..=255u8 {
        for m in 0..=255u8 {
            for c in [false, true] {
                run_arith(&mut cpu, a, m, c, false);
                let sum = a as u32 + m as u32 + c as u32;
                let signed = a as i8 as i32 + m as i8 as i32 + c as i32;
                let r = (sum % 256) as u8;
                assert_eq!(cpu.registers.a, r);
                assert_eq!(cpu.get_flag(&CpuFlag::Carry), sum > 255);
                assert_eq!(cpu.get_flag(&CpuFlag::Zero), r == 0);
                assert_eq!(cpu.get_flag(&CpuFlag::Negative), r >= 0x80);
                assert_eq!(cpu.get_flag(&CpuFlag::Overflow), !(-128..=127).contains(&signed));
            }
        }
    }
}

#[test]
fn sbc_truth_table() {
    let mut cpu = Cpu::new();
    for a in 0..=255u8 {
        for m in 0..=255u8 {
            for c in [false, true] {
                run_arith(&mut cpu, a, m, c, true);
                let borrow = if c { 0 } else { 1 };
                let diff = a as i32 - m as i32 - borrow;
                let signed = a as i8 as i32 - m as i8 as i32 - borrow;
                let r = diff.rem_euclid(256) as u8;
                assert_eq!(cpu.registers.a, r);
                assert_eq!(cpu.get_flag(&CpuFlag::Carry), diff >= 0);
                assert_eq!(cpu.get_flag(&CpuFlag::Zero), r == 0);
                assert_eq!(cpu.get_flag(&CpuFlag::Negative), r >= 0x80);
                assert_eq!(cpu.get_flag(&CpuFlag::Overflow), !(-128..=127).contains(&signed));
            }
        }
    }
}

#[test]
fn adc_examples() {
    let mut cpu = Cpu::new();
    run_arith(&mut cpu, 0x50, 0x50, false, false);
    assert_eq!(cpu.registers.a, 0xA0);
    assert!(cpu.get_flag(&CpuFlag::Overflow));
    assert!(!cpu.get_flag(&CpuFlag::Carry));
    run_arith(&mut cpu, 0xFF, 0x01, false, false);
    assert_eq!(cpu.registers.a, 0x00);
    assert!(cpu.get_flag(&CpuFlag::Carry));
    assert!(cpu.get_flag(&CpuFlag::Zero));
    run_arith(&mut cpu, 0x50, 0xF0, true, true);
    assert_eq!(cpu.registers.a, 0x60);
    assert!(!cpu.get_flag(&CpuFlag::Carry));
    run_arith(&mut cpu, 0x50, 0x30, true, true);
    assert_eq!(cpu.registers.a, 0x20);
    assert!(cpu.get_flag(&CpuFlag::Carry));
}

#[test]
fn indirect_pointer_on_page_end_wraps_within_page() {
    let mut cpu = Cpu::new();
    cpu.registers.pc = 0x0010;
    load(&mut cpu, 0x0010, &[0xFF, 0x02]);
    cpu.write(0x02FF, 0x34);
    cpu.write(0x0200, 0x12);
    cpu.write(0x0300, 0x56);
    assert_eq!(fetch_ind(&mut cpu), 0);
    assert_eq!(cpu.absolute_addr, 0x1234);
    assert_eq!(cpu.registers.pc, 0x0012);
}

#[test]
fn indirect_pointer_inside_page() {
    let mut cpu = Cpu::new();
    cpu.registers.pc = 0x0010;
    load(&mut cpu, 0x0010, &[0x80, 0x02]);
    cpu.write(0x0280, 0xCD);
    cpu.write(0x0281, 0xAB);
    fetch_ind(&mut cpu);
    assert_eq!(cpu.absolute_addr, 0xABCD);
}

#[test]
fn indexed_modes_report_page_crossing() {
    let mut cpu = Cpu::new();
    load(&mut cpu, 0x0000, &[0xF0, 0x00]);
    cpu.registers.pc = 0;
    cpu.registers.x = 0x20;
    assert_eq!(fetch_abx(&mut cpu), 1);
    assert_eq!(cpu.absolute_addr, 0x0110);
    cpu.registers.pc = 0;
    cpu.registers.x = 0x0F;
    assert_eq!(fetch_abx(&mut cpu), 0);
    assert_eq!(cpu.absolute_addr, 0x00FF);
    cpu.registers.pc = 0;
    cpu.registers.y = 0x10;
    assert_eq!(fetch_aby(&mut cpu), 1);
    assert_eq!(cpu.absolute_addr, 0x0100);
    // Indirect indexed: pointer at 0x40 holds 0x01F8.
    load(&mut cpu, 0x0040, &[0xF8, 0x01]);
    load(&mut cpu, 0x0000, &[0x40]);
    cpu.registers.pc = 0;
    cpu.registers.y = 0x07;
    assert_eq!(fetch_izy(&mut cpu), 0);
    assert_eq!(cpu.absolute_addr, 0x01FF);
    cpu.registers.pc = 0;
    cpu.registers.y = 0x08;
    assert_eq!(fetch_izy(&mut cpu), 1);
    assert_eq!(cpu.absolute_addr, 0x0200);
}

/// Runs the instruction at `pc` and returns the cycles it costs.
fn step(cpu: &mut Cpu) -> u64 {
    cpu.clock.set_cycles(0);
    cpu.execute_clock_cycle();
    cpu.clock.cycles_left()
}

#[test]
fn branch_costs() {
    let mut cpu = Cpu::new();
    // BEQ +4 at 0x0010.
    load(&mut cpu, 0x0010, &[0xF0, 0x04]);
    cpu.registers.pc = 0x0010;
    cpu.clear_flag(&CpuFlag::Zero);
    assert_eq!(step(&mut cpu), 2);
    assert_eq!(cpu.registers.pc, 0x0012);
    cpu.registers.pc = 0x0010;
    cpu.set_flag(&CpuFlag::Zero);
    let (a, x, y, sp) = (cpu.registers.a, cpu.registers.x, cpu.registers.y, cpu.registers.sp);
    assert_eq!(step(&mut cpu), 3);
    assert_eq!(cpu.registers.pc, 0x0016);
    assert_eq!((cpu.registers.a, cpu.registers.x, cpu.registers.y, cpu.registers.sp), (a, x, y, sp));
    // BNE -0x20 at 0x0110: target 0x00F2, another page.
    load(&mut cpu, 0x0110, &[0xD0, 0xE0]);
    cpu.registers.pc = 0x0110;
    cpu.clear_flag(&CpuFlag::Zero);
    assert_eq!(step(&mut cpu), 4);
    assert_eq!(cpu.registers.pc, 0x00F2);
}

#[test]
fn absolute_x_load_costs_extra_cycle_on_page_cross() {
    let mut cpu = Cpu::new();
    // LDA $00F0,X
    load(&mut cpu, 0x0300, &[0xBD, 0xF0, 0x00]);
    cpu.write(0x0110, 0x77);
    cpu.registers.pc = 0x0300;
    cpu.registers.x = 0x20;
    assert_eq!(step(&mut cpu), 5);
    assert_eq!(cpu.registers.a, 0x77);
    cpu.registers.pc = 0x0300;
    cpu.registers.x = 0x01;
    assert_eq!(step(&mut cpu), 4);
}

#[test]
fn stack_round_trip() {
    let mut cpu = Cpu::new();
    cpu.registers.sp = 0xFD;
    cpu.push_stack(0xAB);
    assert_eq!(cpu.registers.sp, 0xFC);
    assert_eq!(cpu.read(0x01FD), 0xAB);
    assert_eq!(cpu.pop_stack(), 0xAB);
    assert_eq!(cpu.registers.sp, 0xFD);
    // Wrapping at both ends of the page.
    cpu.registers.sp = 0x00;
    cpu.push_stack(0x11);
    assert_eq!(cpu.registers.sp, 0xFF);
    assert_eq!(cpu.pop_stack(), 0x11);
    assert_eq!(cpu.registers.sp, 0x00);
}

#[test]
fn jsr_then_rts_returns_after_the_call() {
    let mut cpu = Cpu::new();
    cpu.registers.sp = 0xFD;
    // JSR $0240 at 0x0200; RTS at 0x0240.
    load(&mut cpu, 0x0200, &[0x20, 0x40, 0x02]);
    cpu.write(0x0240, 0x60);
    cpu.registers.pc = 0x0200;
    assert_eq!(step(&mut cpu), 6);
    assert_eq!(cpu.registers.pc, 0x0240);
    assert_eq!(cpu.registers.sp, 0xFB);
    assert_eq!(cpu.read(0x01FD), 0x02);
    assert_eq!(cpu.read(0x01FC), 0x02);
    assert_eq!(step(&mut cpu), 6);
    assert_eq!(cpu.registers.pc, 0x0203);
    assert_eq!(cpu.registers.sp, 0xFD);
    // The operation functions alone.
    cpu.absolute_addr = 0x1234;
    cpu.registers.pc = 0x0500;
    jsr_fn(&mut cpu);
    assert_eq!(cpu.registers.pc, 0x1234);
    rts_fn(&mut cpu);
    assert_eq!(cpu.registers.pc, 0x0500);
}

#[test]
fn compare_sets_carry_zero_negative() {
    let mut cpu = Cpu::new();
    // CMP #$10 with A = 0x20, then 0x10, then 0x05.
    load(&mut cpu, 0x0000, &[0xC9, 0x10]);
    for (a, c, z, n) in [(0x20u8, true, false, false), (0x10, true, true, false), (0x05, false, false, true)] {
        cpu.registers.pc = 0;
        cpu.registers.a = a;
        step(&mut cpu);
        assert_eq!(cpu.get_flag(&CpuFlag::Carry), c);
        assert_eq!(cpu.get_flag(&CpuFlag::Zero), z);
        assert_eq!(cpu.get_flag(&CpuFlag::Negative), n);
    }
}

#[test]
fn increments_act_on_their_own_register() {
    let mut cpu = Cpu::new();
    // INY; DEY; INX; DEX
    load(&mut cpu, 0x0000, &[0xC8, 0x88, 0x88, 0xE8, 0xCA]);
    cpu.registers.pc = 0;
    cpu.registers.x = 0x10;
    cpu.registers.y = 0x00;
    step(&mut cpu);
    assert_eq!((cpu.registers.x, cpu.registers.y), (0x10, 0x01));
    step(&mut cpu);
    assert_eq!(cpu.registers.y, 0x00);
    assert!(cpu.get_flag(&CpuFlag::Zero));
    step(&mut cpu);
    assert_eq!(cpu.registers.y, 0xFF);
    assert!(cpu.get_flag(&CpuFlag::Negative));
    step(&mut cpu);
    assert_eq!(cpu.registers.x, 0x11);
    step(&mut cpu);
    assert_eq!(cpu.registers.x, 0x10);
}

#[test]
fn shifts_and_rotates() {
    let mut cpu = Cpu::new();
    // ASL A; ROL A; LSR A; ROR A
    load(&mut cpu, 0x0000, &[0x0A, 0x2A, 0x4A, 0x6A]);
    cpu.registers.pc = 0;
    cpu.registers.a = 0x81;
    cpu.clear_flag(&CpuFlag::Carry);
    step(&mut cpu);
    assert_eq!(cpu.registers.a, 0x02);
    assert!(cpu.get_flag(&CpuFlag::Carry));
    step(&mut cpu);
    assert_eq!(cpu.registers.a, 0x05);
    assert!(!cpu.get_flag(&CpuFlag::Carry));
    step(&mut cpu);
    assert_eq!(cpu.registers.a, 0x02);
    assert!(cpu.get_flag(&CpuFlag::Carry));
    step(&mut cpu);
    assert_eq!(cpu.registers.a, 0x81);
    assert!(!cpu.get_flag(&CpuFlag::Carry));
    assert!(cpu.get_flag(&CpuFlag::Negative));
}

#[test]
fn memory_increment_writes_back() {
    let mut cpu = Cpu::new();
    // INC $40; DEC $41
    load(&mut cpu, 0x0000, &[0xE6, 0x40, 0xC6, 0x41]);
    cpu.write(0x40, 0xFF);
    cpu.write(0x41, 0x01);
    cpu.registers.pc = 0;
    step(&mut cpu);
    assert_eq!(cpu.read(0x40), 0x00);
    assert!(cpu.get_flag(&CpuFlag::Zero));
    step(&mut cpu);
    assert_eq!(cpu.read(0x41), 0x00);
}

#[test]
fn interrupts() {
    let mut cpu = Cpu::new();
    cpu.registers.sp = 0xFD;
    cpu.registers.pc = 0x1234;
    cpu.registers.status = 0x20;
    // Without a cartridge the vectors read 0.
    cpu.interrupt_request();
    assert_eq!(cpu.registers.pc, 0x0000);
    assert_eq!(cpu.registers.sp, 0xFA);
    assert_eq!(cpu.read(0x01FD), 0x12);
    assert_eq!(cpu.read(0x01FC), 0x34);
    assert_eq!(cpu.read(0x01FB), 0x30);
    assert!(cpu.get_flag(&CpuFlag::Interrupt));
    assert!(!cpu.get_flag(&CpuFlag::Break));
    assert_eq!(cpu.clock.cycles_left(), 7);
    // Masked now.
    cpu.registers.pc = 0x4444;
    cpu.interrupt_request();
    assert_eq!(cpu.registers.pc, 0x4444);
    assert_eq!(cpu.registers.sp, 0xFA);
    assert_eq!(cpu.clock.cycles_left(), 7);
    // The cost adds to what is still owed.
    cpu.non_maskable_interrupt_request();
    assert_eq!(cpu.registers.sp, 0xF7);
    assert_eq!(cpu.clock.cycles_left(), 15);
    assert_eq!(IRQ_VECTOR, 0xFFFE);
    assert_eq!(NMI_VECTOR, 0xFFFA);
}

#[test]
fn reset_puts_registers_in_power_on_state() {
    let mut cpu = Cpu::new();
    cpu.registers.a = 9;
    cpu.registers.x = 9;
    cpu.registers.sp = 0;
    cpu.reset();
    assert_eq!(cpu.registers.a, 0);
    assert_eq!(cpu.registers.x, 0);
    assert_eq!(cpu.registers.y, 0);
    assert_eq!(cpu.registers.sp, 0xFD);
    assert_eq!(cpu.registers.status, 0x20);
    assert_eq!(cpu.clock.cycles_left(), 8);
}

#[test]
fn tick_runs_an_instruction_over_its_cycles() {
    let mut cpu = Cpu::new();
    // LDA #$05 (2 cycles), then LDX #$06.
    load(&mut cpu, 0x0000, &[0xA9, 0x05, 0xA2, 0x06]);
    cpu.tick();
    assert_eq!(cpu.registers.a, 0x05);
    assert_eq!(cpu.clock.cycles_left(), 2);
    cpu.tick();
    assert_eq!(cpu.clock.cycles_left(), 1);
    cpu.tick();
    assert_eq!(cpu.registers.x, 0x00);
    assert_eq!(cpu.clock.cycles_left(), 0);
    cpu.tick();
    assert_eq!(cpu.registers.x, 0x06);
    assert_eq!(cpu.clock.cycles_left(), 2);
    assert_eq!(cpu.clock.total_ticks(), 4);
}

#[test]
fn nop_from_a_ready_clock_owes_its_full_cost() {
    let mut cpu = Cpu::new();
    cpu.write(0x0000, 0xEA);
    cpu.tick();
    assert_eq!(cpu.registers.pc, 0x0001);
    assert_eq!(cpu.clock.cycles_left(), 2);
}

#[test]
fn flag_helpers() {
    assert_eq!(nes_rs::set_flag(&0x00, &CpuFlag::Negative), 0x80);
    assert_eq!(nes_rs::clear_flag(&0xFF, &CpuFlag::Carry), 0xFE);
    let mut cpu = Cpu::new();
    cpu.set_or_clear_flag(&CpuFlag::Overflow, true);
    assert_eq!(cpu.registers.status, 0x40);
    assert!(cpu.get_flag(&CpuFlag::Overflow));
    cpu.set_or_clear_flag(&CpuFlag::Overflow, false);
    assert_eq!(cpu.registers.status, 0x00);
}

#[test]
fn break_and_return_from_interrupt() {
    let mut cpu = Cpu::new();
    cpu.registers.sp = 0xFD;
    cpu.registers.status = 0x21;
    // BRK at 0x0300 (with its padding byte), vector reads 0 without a cartridge.
    load(&mut cpu, 0x0300, &[0x00, 0xFF]);
    cpu.registers.pc = 0x0300;
    assert_eq!(step(&mut cpu), 7);
    assert_eq!(cpu.registers.pc, 0x0000);
    assert_eq!(cpu.read(0x01FD), 0x03);
    assert_eq!(cpu.read(0x01FC), 0x02);
    assert_eq!(cpu.read(0x01FB), 0x31);
    assert!(cpu.get_flag(&CpuFlag::Interrupt));
    // RTI at 0x0000 brings back status (without break/unused) and the counter.
    cpu.write(0x0000, 0x40);
    assert_eq!(step(&mut cpu), 6);
    assert_eq!(cpu.registers.pc, 0x0302);
    assert_eq!(cpu.registers.sp, 0xFD);
    assert_eq!(cpu.registers.status, 0x01);
}

#[test]
fn push_and_pull_registers() {
    let mut cpu = Cpu::new();
    cpu.registers.sp = 0xFD;
    // PHA; LDA #$00; PLA; PHP; PLP
    load(&mut cpu, 0x0000, &[0x48, 0xA9, 0x00, 0x68, 0x08, 0x28]);
    cpu.registers.a = 0x85;
    step(&mut cpu);
    step(&mut cpu);
    assert_eq!(cpu.registers.a, 0x00);
    assert!(cpu.get_flag(&CpuFlag::Zero));
    step(&mut cpu);
    assert_eq!(cpu.registers.a, 0x85);
    assert!(cpu.get_flag(&CpuFlag::Negative));
    assert_eq!(cpu.registers.sp, 0xFD);
    let status = cpu.registers.status;
    step(&mut cpu);
    assert_eq!(cpu.read(0x01FD), status | 0x30);
    cpu.registers.status = 0;
    step(&mut cpu);
    assert_eq!(cpu.registers.status, status | 0x30);
}

#[test]
fn bit_test_and_logic() {
    let mut cpu = Cpu::new();
    // BIT $40; AND #$0F; ORA #$F0; EOR #$FF
    load(&mut cpu, 0x0000, &[0x24, 0x40, 0x29, 0x0F, 0x09, 0xF0, 0x49, 0xFF]);
    cpu.write(0x40, 0xC0);
    cpu.registers.a = 0x3C;
    step(&mut cpu);
    assert!(cpu.get_flag(&CpuFlag::Zero));
    assert!(cpu.get_flag(&CpuFlag::Negative));
    assert!(cpu.get_flag(&CpuFlag::Overflow));
    assert_eq!(cpu.registers.a, 0x3C);
    step(&mut cpu);
    assert_eq!(cpu.registers.a, 0x0C);
    step(&mut cpu);
    assert_eq!(cpu.registers.a, 0xFC);
    step(&mut cpu);
    assert_eq!(cpu.registers.a, 0x03);
}

#[test]
fn transfers_and_stores() {
    let mut cpu = Cpu::new();
    // TAX; TAY; TXS; TSX; TXA; TYA; STA $50; STX $0051,Y; STY ($60,X)
    load(&mut cpu, 0x0000, &[0xAA, 0xA8, 0x9A, 0xBA, 0x8A, 0x98, 0x85, 0x50, 0x96, 0x51, 0x81, 0x60]);
    cpu.registers.a = 0x80;
    step(&mut cpu);
    assert_eq!(cpu.registers.x, 0x80);
    assert!(cpu.get_flag(&CpuFlag::Negative));
    step(&mut cpu);
    assert_eq!(cpu.registers.y, 0x80);
    step(&mut cpu);
    assert_eq!(cpu.registers.sp, 0x80);
    step(&mut cpu);
    assert_eq!(cpu.registers.x, 0x80);
    step(&mut cpu);
    step(&mut cpu);
    assert_eq!(cpu.registers.a, 0x80);
    step(&mut cpu);
    assert_eq!(cpu.read(0x50), 0x80);
    cpu.registers.y = 0x01;
    cpu.registers.x = 0x22;
    step(&mut cpu);
    // Zero page + Y wraps within page zero: 0x51 + 0x01.
    assert_eq!(cpu.read(0x52), 0x22);
    // Pointer at 0x60 + X = 0x82 holds 0x0234.
    cpu.write(0x82, 0x34);
    cpu.write(0x83, 0x02);
    cpu.registers.a = 0x5A;
    step(&mut cpu);
    assert_eq!(cpu.read(0x0234), 0x5A);
}

#[test]
fn flag_instructions_and_jump() {
    let mut cpu = Cpu::new();
    // SEC; SED; SEI; CLC; CLD; CLI; CLV; JMP $1234
    load(&mut cpu, 0x0000, &[0x38, 0xF8, 0x78, 0x18, 0xD8, 0x58, 0xB8, 0x4C, 0x34, 0x12]);
    cpu.registers.status = 0x40;
    step(&mut cpu);
    step(&mut cpu);
    step(&mut cpu);
    assert_eq!(cpu.registers.status, 0x40 | 0x20 | 0x0D);
    for _ in 0..4 {
        step(&mut cpu);
    }
    assert_eq!(cpu.registers.status, 0x20);
    assert_eq!(step(&mut cpu), 3);
    assert_eq!(cpu.registers.pc, 0x1234);
}

#[test]
fn undefined_opcodes_do_nothing() {
    let mut cpu = Cpu::new();
    load(&mut cpu, 0x0000, &[0x02, 0xEA, 0xEB]);
    cpu.registers.a = 7;
    assert_eq!(step(&mut cpu), 2);
    assert_eq!(cpu.registers.pc, 0x0001);
    assert_eq!(cpu.registers.a, 7);
    cpu.registers.pc = 0x0002;
    let status = cpu.registers.status;
    assert_eq!(step(&mut cpu), 2);
    assert_eq!(cpu.registers.pc, 0x0003);
    assert_eq!(cpu.registers.a, 7);
    assert_eq!(cpu.registers.status, status);
    cpu.registers.pc = 0x0001;
    assert_eq!(step(&mut cpu), 2);
    assert_eq!(cpu.registers.pc, 0x0002);
}

#[test]
fn branch_functions_report_their_cost() {
    let mut cpu = Cpu::new();
    cpu.registers.pc = 0x0010;
    cpu.relative_addr = 4;
    cpu.set_flag(&CpuFlag::Carry);
    assert_eq!(bcc_fn(&mut cpu), 0);
    assert_eq!(cpu.registers.pc, 0x0010);
    assert_eq!(cpu.clock.cycles_left(), 0);
    cpu.clear_flag(&CpuFlag::Carry);
    assert_eq!(bcc_fn(&mut cpu), 1);
    assert_eq!(cpu.registers.pc, 0x0014);
    assert_eq!(cpu.clock.cycles_left(), 1);
    cpu.registers.pc = 0x0110;
    cpu.relative_addr = -0x20;
    cpu.set_flag(&CpuFlag::Zero);
    assert_eq!(beq_fn(&mut cpu), 2);
    assert_eq!(cpu.registers.pc, 0x00F0);
    assert_eq!(cpu.clock.cycles_left(), 3);
}
