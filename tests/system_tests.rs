use nes_rs::{
    select_mapper, Bus, Cartridge, CartridgeParseError, Clock, CpuFlag, Header, HeaderParseError,
    Mapper, Mapper000, Nes, Ppu, Reset,
};

/// An iNES image with `prg` 16 KB banks, `chr` 8 KB banks and the given flag bytes.
fn image(prg: u8, chr: u8, flag_6: u8, flag_7: u8) -> Vec<u8> {
    let mut bytes = vec![0x4E, 0x45, 0x53, 0x1A, prg, chr, flag_6, flag_7, 0, 0, 0, 0, 0, 0, 0, 0];
    if flag_6 & 0x04 != 0 {
        bytes.extend(std::iter::repeat(0xEE).take(512));
    }
    for i in 0..prg as usize * 16384 {
        bytes.push((i % 251) as u8);
    }
    for i in 0..chr as usize * 8192 {
        bytes.push((i % 241) as u8);
    }
    bytes
}

#[test]
fn well_formed_image_loads() {
    let bytes = image(1, 1, 0, 0);
    assert_eq!(bytes.len(), 16 + 16384 + 8192);
    let cart = Cartridge::try_from(&bytes[..]).expect("loads");
    assert_eq!(cart.program_banks_count, 1);
    assert_eq!(cart.character_banks_count, 1);
    assert_eq!(cart.virtual_program_memory.len(), 16384);
    assert_eq!(cart.virtual_character_memory.len(), 8192);
    assert_eq!(cart.virtual_program_memory[300], (300 % 251) as u8);
    assert_eq!(cart.mapper_id, 0);
    assert!(cart.mapper.mirrored);
}

#[test]
fn truncated_program_rom_is_reported() {
    let bytes = image(1, 1, 0, 0);
    let cut = &bytes[..16 + 16383];
    assert_eq!(Cartridge::try_from(cut).err(), Some(CartridgeParseError::ProgramRomCutsOff));
}

#[test]
fn short_header_is_reported() {
    let bytes = image(1, 1, 0, 0);
    assert_eq!(
        Cartridge::try_from(&bytes[..10]).err(),
        Some(CartridgeParseError::InvalidHeader(HeaderParseError::InvalidStreamLength))
    );
}

#[test]
fn missing_magic_is_reported() {
    let mut bytes = image(1, 1, 0, 0);
    bytes[0] = 0;
    bytes[1] = 1;
    bytes[2] = 2;
    bytes[3] = 3;
    assert_eq!(
        Cartridge::try_from(&bytes[..]).err(),
        Some(CartridgeParseError::InvalidHeader(HeaderParseError::NoNesConstant))
    );
}

#[test]
fn truncated_character_rom_is_reported() {
    let bytes = image(1, 1, 0, 0);
    let cut = &bytes[..bytes.len() - 1];
    assert_eq!(Cartridge::try_from(cut).err(), Some(CartridgeParseError::CharacterRomCutsOff));
}

#[test]
fn image_ending_inside_the_trainer_has_its_program_cut_off() {
    let bytes = image(1, 1, 0x04, 0);
    let cut = &bytes[..16 + 511];
    assert_eq!(Cartridge::try_from(cut).err(), Some(CartridgeParseError::ProgramRomCutsOff));
    let header_only = &bytes[..16];
    assert_eq!(Cartridge::try_from(header_only).err(), Some(CartridgeParseError::ProgramRomCutsOff));
}

#[test]
fn trainer_is_skipped() {
    let bytes = image(1, 1, 0x04, 0);
    let cart = Cartridge::try_from(&bytes[..]).expect("loads");
    assert_eq!(cart.virtual_program_memory[0], 0);
    assert_eq!(cart.virtual_program_memory[1], 1);
    assert!(cart.header.has_trainer());
}

#[test]
fn other_mappers_are_refused() {
    let bytes = image(1, 1, 0x10, 0x20);
    assert_eq!(Cartridge::try_from(&bytes[..]).err(), Some(CartridgeParseError::UnsupportedMapper(0x21)));
}

#[test]
fn header_parsing() {
    let bytes = [0x4E, 0x45, 0x53, 0x1A, 2, 1, 0x14, 0x30, 5, 6, 7, 0, 0, 0, 0, 0];
    let h = Header::try_from(&bytes[..]).expect("parses");
    assert_eq!(h.name, [0x4E, 0x45, 0x53, 0x1A]);
    assert_eq!(h.prg_rom_size, 2);
    assert_eq!(h.prg_chr_size, 1);
    assert_eq!(h.prg_ram_size, 5);
    assert_eq!(h.tv_system_1, 6);
    assert_eq!(h.tv_system_2, 7);
    assert!(h.has_trainer());
    assert_eq!(h.mapper_id(), 0x31);
    assert_eq!(Header::try_from(&bytes[..15]).err(), Some(HeaderParseError::InvalidStreamLength));
    let mut bad = bytes;
    bad[3] = 0x1B;
    assert_eq!(Header::try_from(&bad[..]).err(), Some(HeaderParseError::NoNesConstant));
}

#[test]
fn mapper_zero_translation() {
    let bytes = [0x4E, 0x45, 0x53, 0x1A, 1, 1, 0, 0, 0, 0, 0, 0, 0, 0, 0, 0];
    let h = Header::try_from(&bytes[..]).unwrap();
    let one_bank = select_mapper(0, &h).expect("mapper 0");
    let mut out = 0xAAAA;
    assert!(one_bank.map_cpu_read(0xC123, &mut out));
    assert_eq!(out, 0x0123);
    assert!(one_bank.map_cpu_write(0x8123, &mut out));
    assert_eq!(out, 0x0123);
    out = 0xAAAA;
    assert!(!one_bank.map_cpu_read(0x6000, &mut out));
    assert_eq!(out, 0xAAAA);
    assert!(one_bank.map_ppu_read(0x1FFF, &mut out));
    assert_eq!(out, 0x1FFF);
    assert!(!one_bank.map_ppu_write(0x2000, &mut out));
    let two = [0x4E, 0x45, 0x53, 0x1A, 2, 1, 0, 0, 0, 0, 0, 0, 0, 0, 0, 0];
    let h2 = Header::try_from(&two[..]).unwrap();
    let two_banks = <Mapper000 as Mapper>::new(&h2);
    assert!(!two_banks.mirrored);
    assert!(two_banks.map_cpu_read(0xC123, &mut out));
    assert_eq!(out, 0x4123);
    assert!(select_mapper(1, &h).is_none());
}

#[test]
fn cartridge_reads_through_its_mapper() {
    let bytes = image(1, 0, 0, 0);
    let mut cart = Cartridge::try_from(&bytes[..]).expect("loads");
    assert_eq!(cart.cpu_read(0x8005), 5);
    assert_eq!(cart.cpu_read(0xC005), 5);
    assert_eq!(cart.cpu_read(0x5000), 0);
    assert!(cart.cpu_write(0x8005, 0x99));
    assert_eq!(cart.cpu_read(0x8005), 5);
    // Without CHR ROM the board has 8 KB of CHR RAM.
    assert_eq!(cart.virtual_character_memory.len(), 8192);
    cart.ppu_write(0x0010, 0x42);
    assert_eq!(cart.ppu_read(0x0010), 0x42);
    let rom = image(1, 1, 0, 0);
    let mut cart = Cartridge::try_from(&rom[..]).expect("loads");
    cart.ppu_write(0x0010, 0x42);
    assert_eq!(cart.ppu_read(0x0010), 0x10);
}

#[test]
fn ram_is_mirrored() {
    let mut bus = Bus::default();
    for a in [0x0000u16, 0x0123, 0x07FF] {
        bus.write_cpu(a, (a % 200) as u8 + 1);
        for mirror in [a, a | 0x0800, a | 0x1000, a | 0x1800] {
            assert_eq!(bus.read_cpu(mirror), (a % 200) as u8 + 1);
        }
    }
    bus.write_cpu(0x1FFF, 0x5A);
    assert_eq!(bus.read_cpu(0x07FF), 0x5A);
}

#[test]
fn ppu_registers_are_mirrored() {
    let mut bus = Bus::new(Ppu::new());
    bus.write_cpu(0x2001, 0x77);
    assert_eq!(bus.read_cpu(0x2009), 0x77);
    assert_eq!(bus.read_cpu(0x3FF9), 0x77);
    bus.write_cpu(0x3FFF, 0x11);
    assert_eq!(bus.read_cpu(0x2007), 0x11);
    assert_eq!(bus.get_ppu().registers[7], 0x11);
}

#[test]
fn unmapped_reads_are_zero() {
    let mut bus = Bus::default();
    assert_eq!(bus.read_cpu(0x4000), 0);
    assert_eq!(bus.read_cpu(0xFFFC), 0);
    bus.write_cpu(0x8000, 1);
    assert_eq!(bus.read_cpu(0x8000), 0);
    assert!(bus.cartridge_ref().is_none());
}

#[test]
fn clock_counts_cycles() {
    let mut clock = Clock::default();
    assert!(clock.is_ready());
    clock.set_cycles(2);
    clock.add_cycles(1);
    assert_eq!(clock.cycles_left(), 3);
    assert!(!clock.tick());
    assert!(!clock.tick());
    assert!(clock.tick());
    assert!(clock.tick());
    assert_eq!(clock.cycles_left(), 0);
    assert_eq!(clock.total_ticks(), 4);
    clock.reset();
    assert_eq!(clock.total_ticks(), 0);
    // The debt is held at its largest value rather than wrapping.
    clock.set_cycles(u64::MAX - 1);
    clock.add_cycles(2);
    assert_eq!(clock.cycles_left(), u64::MAX);
}

#[test]
fn ppu_walks_the_screen() {
    let mut ppu = Ppu::default();
    for _ in 0..341 {
        ppu.tick();
    }
    assert_eq!((ppu.cycle, ppu.scanline), (0, 1));
    for _ in 0..341 * 240 {
        ppu.tick();
    }
    assert_eq!((ppu.cycle, ppu.scanline), (0, 0));
    ppu.write_cpu(0x0C, 3);
    assert_eq!(ppu.read_cpu(0x04), 3);
}

#[test]
fn end_to_end_load_reset_and_run() {
    let mut bytes = image(1, 1, 0, 0);
    // PRG starts at 0x8000: LDA #$42; NOP
    bytes[16] = 0xA9;
    bytes[17] = 0x42;
    bytes[18] = 0xEA;
    // Reset vector at 0xFFFC, which mirrors PRG offset 0x3FFC.
    bytes[16 + 0x3FFC] = 0x00;
    bytes[16 + 0x3FFD] = 0x80;
    let cart = Cartridge::try_from(&bytes[..]).expect("loads");
    let mut nes = Nes::default();
    nes.insert_cartidge(Some(cart));
    nes.reset();
    assert_eq!(nes.cpu_ref().registers.pc, 0x8000);
    let mut ticks = 0;
    while nes.cpu_ref().registers.pc != 0x8002 && ticks < 1000 {
        nes.tick();
        ticks += 1;
    }
    let cpu = nes.cpu_ref();
    assert_eq!(cpu.registers.a, 0x42);
    assert!(!cpu.get_flag(&CpuFlag::Zero));
    assert!(!cpu.get_flag(&CpuFlag::Negative));
    assert_eq!(ticks, 25);
}

#[test]
fn console_runs_cpu_every_third_tick() {
    let mut nes = Nes::default();
    nes.cpu_mut().write(0x0000, 0xE8);
    nes.cpu_mut().write(0x0001, 0xE8);
    nes.tick();
    assert_eq!(nes.cpu_ref().registers.x, 1);
    assert_eq!(nes.cpu_ref().bus.ppu.cycle, 1);
    assert_eq!(nes.cpu_ref().bus.clock.total_ticks(), 1);
    // The first INX owes 2 cycles, paid on ticks 3 and 6; tick 9 runs the second.
    for _ in 0..8 {
        nes.tick();
    }
    assert_eq!(nes.cpu_ref().registers.x, 1);
    nes.tick();
    assert_eq!(nes.cpu_ref().registers.x, 2);
    assert_eq!(nes.clock.total_ticks(), 10);
    assert_eq!(nes.cpu_ref().bus.clock.total_ticks(), 10);
}

#[test]
fn mapper_built_by_new_uses_the_bank_count() {
    for (banks, mask) in [(1u8, 0x3FFFu16), (2, 0x7FFF)] {
        let bytes = [0x4E, 0x45, 0x53, 0x1A, banks, 1, 0, 0, 0, 0, 0, 0, 0, 0, 0, 0];
        let h = Header::try_from(&bytes[..]).unwrap();
        let m = <Mapper000 as Mapper>::new(&h);
        assert_eq!(m.prg_banks_count, banks);
        assert_eq!(m.chr_banks_count, 1);
        let mut out = 0;
        assert!(m.map_cpu_read(0xFFFC, &mut out));
        assert_eq!(out, 0xFFFC & mask);
        assert!((out as usize) < banks as usize * 16384);
    }
}

#[test]
fn ram_mirrors_survive_other_writes() {
    let mut bus = Bus::default();
    bus.write_cpu(0x0123, 0x44);
    bus.write_cpu(0x0124, 0x55);
    bus.write_cpu(0x2001, 0x66);
    bus.write_cpu(0x8123, 0x77);
    for mirror in [0x0123u16, 0x0923, 0x1123, 0x1923] {
        assert_eq!(bus.read_cpu(mirror), 0x44);
    }
    bus.write_cpu(0x1923, 0x45);
    assert_eq!(bus.read_cpu(0x0123), 0x45);
}
