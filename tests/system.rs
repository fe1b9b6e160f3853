use gb_rs::bus::{Bus, Device};
use gb_rs::rom::{NoRam, Rom};
use gb_rs::cart::{get_cart_header, CartError, Cartridge, SmallInMemoryCartridge};
use gb_rs::cpu::CpuFault;
use gb_rs::gb::GbRs;
use gb_rs::interrupts::IntSource;
use gb_rs::ppu::{PpuMode, PPU};

/// A cartridge image of `32 KiB << rom_code` bytes whose byte at each bank
/// start names the bank, with `program` at 0x100.
fn make_rom(cart_type: u8, rom_code: u8, ram_code: u8, program: &[u8]) -> Vec<u8> {
    let size = 0x8000usize << rom_code;
    let mut rom = vec![0u8; size];
    for bank in 0..size / 0x4000 {
        rom[bank * 0x4000] = bank as u8;
        rom[bank * 0x4000 + 1] = (bank >> 8) as u8;
    }
    rom[0x134..0x138].copy_from_slice(b"TEST");
    rom[0x147] = cart_type;
    rom[0x148] = rom_code;
    rom[0x149] = ram_code;
    rom[0x100..0x100 + program.len()].copy_from_slice(program);
    rom
}

fn console(program: &[u8]) -> GbRs {
    GbRs::from_rom(make_rom(0, 0, 0, program)).unwrap()
}

#[test]
fn header_fields() {
    let rom = make_rom(0x03, 2, 3, &[]);
    let h = get_cart_header(&rom).unwrap();
    assert_eq!(h.title, b"TEST".to_vec());
    assert_eq!(h.cart_type, 3);
    assert_eq!(h.rom_size, 0x20000);
    assert_eq!(h.ram_size, 32768);
    assert_eq!(h.num_rom_banks, 8);
}

#[test]
fn header_errors() {
    assert_eq!(get_cart_header(&[0u8; 0x100]).err(), Some(CartError::HeaderTooShort));
    let mut rom = make_rom(0, 0, 0, &[]);
    rom[0x148] = 9;
    assert_eq!(get_cart_header(&rom).err(), Some(CartError::BadRomSize(9)));
    let mut rom = make_rom(0, 0, 0, &[]);
    rom[0x149] = 1;
    assert_eq!(get_cart_header(&rom).err(), Some(CartError::BadRamSize(1)));
    assert_eq!(Cartridge::new(make_rom(0x05, 0, 0, &[])).err(), Some(CartError::UnknownCartType(5)));
    let mut short = make_rom(0x01, 1, 0, &[]);
    short.truncate(0x8000);
    assert_eq!(Cartridge::new(short).err(), Some(CartError::RomSizeMismatch));
    assert_eq!(
        Cartridge::from_parts(make_rom(0x03, 0, 2, &[]), vec![0; 10]).err(),
        Some(CartError::RamSizeMismatch)
    );
}

#[test]
fn mbc1_bank_switch_law() {
    for code in 0u8..=6 {
        let banks = 2u16 << code;
        for n in [0u8, 1, 2, 3, 5, 7, 0x0F, 0x11, 0x1F] {
            let mut cart = Cartridge::new(make_rom(0x01, code, 0, &[])).unwrap();
            cart.write(0x2000, n);
            let masked = (n as u16) & (banks - 1);
            let five = n & 0x1F;
            let fixed = if five == 0 { 1 } else { five as u16 } & (banks - 1);
            assert_eq!(cart.read(0x4000) as u16, fixed & 0xFF);
            if masked < 32 && (five == 0 || (five as u16 & (banks - 1)) != 0) {
                let expected = if masked == 0 { 1 } else { masked };
                assert_eq!(cart.read(0x4000) as u16, expected);
            }
        }
    }
}

#[test]
fn mbc1_zero_fix_before_mask() {
    let mut cart = Cartridge::new(make_rom(0x01, 3, 0, &[])).unwrap();
    // 0x10 is not zero in five bits, so it is kept; masked to 16 banks it is 0.
    cart.write(0x2000, 0x10);
    assert_eq!(cart.read(0x4000), 0);
}

#[test]
fn mbc1_large_rom_and_ram() {
    let mut cart = Cartridge::new(make_rom(0x03, 6, 3, &[])).unwrap();
    cart.write(0x2000, 0x02);
    cart.write(0x4000, 0x01);
    assert_eq!(cart.read(0x4000), 0x22);
    assert_eq!(cart.read(0x0000), 0);
    cart.write(0x6000, 0x01);
    assert_eq!(cart.read(0x0000), 0x20);
    assert_eq!(cart.read(0xA000), 0xFF);
    cart.write(0x0000, 0x0A);
    cart.write(0xA005, 0x77);
    assert_eq!(cart.read(0xA005), 0x77);
    assert_eq!(cart.ram()[0x2005], 0x77);
    cart.write(0x0000, 0x00);
    assert_eq!(cart.read(0xA005), 0xFF);
}

#[test]
fn mbc5_nine_bit_bank_keeps_zero() {
    let mut cart = Cartridge::new(make_rom(0x19, 8, 0, &[])).unwrap();
    cart.write(0x2000, 0x00);
    assert_eq!(cart.read(0x4000), 0);
    cart.write(0x2000, 0x05);
    cart.write(0x3000, 0x01);
    assert_eq!(cart.read(0x4000), 0x05);
    assert_eq!(cart.read(0x4001), 0x01);
}

#[test]
fn mbc3_rtc_reads_zero() {
    let mut cart = Cartridge::new(make_rom(0x13, 1, 2, &[])).unwrap();
    cart.write(0x0000, 0x0A);
    cart.write(0xA000, 0x12);
    assert_eq!(cart.read(0xA000), 0x12);
    cart.write(0x4000, 0x08);
    assert_eq!(cart.read(0xA000), 0);
    cart.write(0x4000, 0x00);
    assert_eq!(cart.read(0xA000), 0x12);
    cart.write(0x2000, 0x00);
    assert_eq!(cart.read(0x4000), 1);
}

#[test]
fn rom_only_ignores_writes() {
    let mut cart = Cartridge::new(make_rom(0x00, 0, 0, &[])).unwrap();
    cart.write(0x2000, 0x01);
    assert_eq!(cart.read(0x4000), 1);
    assert_eq!(cart.read(0xA000), 0xFF);
}

#[test]
fn bus_memory_map() {
    let mut bus = Bus::new(Cartridge::new(make_rom(0, 0, 0, &[])).unwrap());
    bus.write(0xC123, 1);
    bus.write(0xD456, 2);
    bus.write(0xFF90, 3);
    bus.write(0x8010, 4);
    bus.write(0xE000, 5);
    bus.write(0xFEA0, 6);
    bus.write(0xFF44, 7);
    assert_eq!(bus.read(0xC123), 1);
    assert_eq!(bus.read(0xD456), 2);
    assert_eq!(bus.read(0xFF90), 3);
    assert_eq!(bus.read(0x8010), 4);
    assert_eq!(bus.read(0xE000), 0);
    assert_eq!(bus.read(0xFEA0), 0);
    assert_eq!(bus.read(0xFF44), 0);
    bus.write(0xFFFF, 0xFF);
    assert_eq!(bus.read(0xFFFF), 0x1F);
    bus.write(0xFF4D, 9);
    assert_eq!(bus.read(0xFF4D), 9);
    assert_eq!(bus.read(0xFF09), 0);
}

#[test]
fn bus_dma_copies_to_oam() {
    let mut bus = Bus::new(Cartridge::new(make_rom(0, 0, 0, &[])).unwrap());
    for i in 0..0xA0u16 {
        bus.write(0xC000 + i, i as u8 ^ 0x5A);
    }
    bus.write(0xFF46, 0xC0);
    for i in 0..0xA0u16 {
        assert_eq!(bus.read(0xFE00 + i), i as u8 ^ 0x5A);
    }
}

#[test]
fn bus_all_addresses_do_not_panic() {
    let mut bus = Bus::new(Cartridge::new(make_rom(0x03, 2, 3, &[])).unwrap());
    for addr in 0..=0xFFFFu16 {
        let v = bus.read(addr);
        if addr != 0xFF46 {
            bus.write(addr, v.wrapping_add(addr as u8));
        }
    }
}

#[test]
fn serial_passed_detection() {
    let mut bus = Bus::new(Cartridge::new(make_rom(0, 0, 0, &[])).unwrap());
    for b in b"Test Passed" {
        bus.write(0xFF01, *b);
    }
    assert!(bus.is_passed());
    bus.write(0xFF01, b'!');
    assert!(!bus.is_passed());
    for b in [1u8, 3, 5, 8, 13, 21, 34] {
        bus.write(0xFF01, b);
    }
    assert!(bus.is_passed());
}

#[test]
fn timer_interrupt_through_bus() {
    let mut bus = Bus::new(Cartridge::new(make_rom(0, 0, 0, &[])).unwrap());
    bus.write(0xFF05, 0xFF);
    bus.write(0xFF07, 0x05);
    bus.run_cycles(4);
    assert_eq!(bus.read(0xFF0F) & IntSource::TIMER.mask(), IntSource::TIMER.mask());
}

#[test]
fn frame_is_17556_cycles() {
    for lcdc in [0x00u8, 0x91, 0xFF] {
        let mut ppu = PPU::new();
        ppu.write(0xFF40, lcdc);
        let mut vblanks = 0;
        for _ in 0..17556 {
            if ppu.run(1) == Some(IntSource::VBLANK) {
                vblanks += 1;
            }
        }
        assert_eq!(vblanks, 1);
        assert_eq!(ppu.ly, 0);
        assert_eq!(ppu.mode, PpuMode::OAMSCAN);
        assert_eq!(ppu.r_cyc, 20);
        let mut steps = 0;
        while ppu.run(3) != Some(IntSource::VBLANK) {
            steps += 3;
        }
        assert!(steps + 3 >= 144 * 114 && steps < 144 * 114 + 3);
    }
}

#[test]
fn stat_reports_mode_and_coincidence() {
    let mut ppu = PPU::new();
    ppu.write(0xFF45, 0);
    ppu.write(0xFF41, 0xFF);
    assert_eq!(ppu.read(0xFF41), 0x78 | 0x04 | 0x02);
    ppu.write(0xFF44, 9);
    assert_eq!(ppu.read(0xFF44), 0);
}

#[test]
fn sprite_priority_scenario() {
    let mut ppu = PPU::new();
    // Tiles 1 to 4: tile k is solid colour k (tile 4 is colour 1 on its left half only).
    let rows: [(u8, u8); 4] = [(0xFF, 0x00), (0x00, 0xFF), (0xFF, 0xFF), (0xF0, 0x00)];
    for (k, (lo, hi)) in rows.iter().enumerate() {
        for line in 0..8u16 {
            let base = 0x8000 + 16 * (k as u16 + 1) + 2 * line;
            ppu.write(base, *lo);
            ppu.write(base + 1, *hi);
        }
    }
    // Four sprites on line 0 at screen X 8, 10, 12, 14 (OAM X 16..22), given in
    // falling X order in OAM so OAM order does not decide.
    let xs = [22u8, 20, 18, 16];
    let tiles = [3u8, 2, 1, 4];
    for i in 0..4u16 {
        ppu.write(0xFE00 + 4 * i, 16);
        ppu.write(0xFE01 + 4 * i, xs[i as usize]);
        ppu.write(0xFE02 + 4 * i, tiles[i as usize]);
        ppu.write(0xFE03 + 4 * i, 0);
    }
    ppu.write(0xFF48, 0b11_10_01_00);
    ppu.write(0xFF47, 0b11_10_01_00);
    ppu.write(0xFF40, 0x83);
    ppu.run(20);
    ppu.run(43);
    let line = &ppu.screen.buf[0];
    // X 8..11: the lowest-X sprite (tile 4, colour 1) is on top.
    assert_eq!(&line[8..12], &[1, 1, 1, 1]);
    // X 12..15: its right half is transparent and shows the sprite at X 10
    // (tile 1, colour 1), which also covers 10..17 over the higher-X ones.
    assert_eq!(&line[12..18], &[1, 1, 1, 1, 1, 1]);
    // X 18..19: the sprite at X 12 (colour 2); 20..21: the one at X 14.
    assert_eq!(&line[18..20], &[2, 2]);
    assert_eq!(&line[20..22], &[3, 3]);
    assert_eq!(line[7], 0);
    assert_eq!(line[22], 0);
}

#[test]
fn pop_push_af_masks_low_nibble() {
    let mut gb = console(&[0xF1, 0xF5]);
    gb.cpu.regs.sp = 0xFFF0;
    gb.cpu.bus.write(0xFFF0, 0xBF);
    gb.cpu.bus.write(0xFFF1, 0x12);
    gb.run_one().unwrap();
    gb.run_one().unwrap();
    assert_eq!(gb.cpu.regs.sp, 0xFFF0);
    assert_eq!(gb.cpu.bus.read(0xFFF0), 0xB0);
    assert_eq!(gb.cpu.bus.read(0xFFF1), 0x12);
}

#[test]
fn ld_hl_inc_then_dec() {
    let mut gb = console(&[0x22, 0x3A]);
    gb.cpu.regs.h = 0xC0;
    gb.cpu.regs.l = 0xFF;
    gb.cpu.regs.a = 0x42;
    gb.cpu.bus.write(0xC100, 0x42);
    gb.run_one().unwrap();
    assert_eq!((gb.cpu.regs.h, gb.cpu.regs.l), (0xC1, 0x00));
    gb.run_one().unwrap();
    assert_eq!((gb.cpu.regs.h, gb.cpu.regs.l), (0xC0, 0xFF));
    assert_eq!(gb.cpu.regs.a, 0x42);
    assert_eq!(gb.cpu.bus.read(0xC0FF), 0x42);
}

#[test]
fn daa_after_add_is_decimal() {
    for (a, b, sum, carry) in [(0x45u8, 0x38u8, 0x83u8, false), (0x99, 0x01, 0x00, true), (0x50, 0x50, 0x00, true), (0x19, 0x28, 0x47, false)] {
        let mut gb = console(&[0xC6, b, 0x27]);
        gb.cpu.regs.a = a;
        gb.run_one().unwrap();
        gb.run_one().unwrap();
        assert_eq!(gb.cpu.regs.a, sum);
        assert_eq!(gb.cpu.regs.f.c, carry);
        assert_eq!(gb.cpu.regs.f.z, sum == 0);
    }
}

#[test]
fn alu_flags() {
    // SUB 0x01 from 0x10: half borrow; SBC with carry; ADC overflow.
    let mut gb = console(&[0xD6, 0x01, 0xDE, 0x0F, 0xCE, 0xF0]);
    gb.cpu.regs.a = 0x10;
    gb.run_one().unwrap();
    assert_eq!(gb.cpu.regs.a, 0x0F);
    assert!(gb.cpu.regs.f.h && gb.cpu.regs.f.n && !gb.cpu.regs.f.c);
    gb.cpu.regs.f.c = true;
    gb.run_one().unwrap();
    assert_eq!(gb.cpu.regs.a, 0xFF);
    assert!(gb.cpu.regs.f.c && gb.cpu.regs.f.h);
    gb.run_one().unwrap();
    assert_eq!(gb.cpu.regs.a, 0xF0);
    assert!(gb.cpu.regs.f.c && !gb.cpu.regs.f.z);
}

#[test]
fn cycle_costs() {
    // NOP, LD B,(HL)... LD (HL),n, JR taken, JR NZ not taken, CALL, RET.
    let mut gb = console(&[0x00, 0x46, 0x36, 0x01, 0x18, 0x00, 0xAF, 0x20, 0x00, 0xCD, 0x10, 0x01]);
    gb.cpu.regs.h = 0xC0;
    gb.cpu.regs.l = 0x00;
    assert_eq!(gb.run_one(), Ok(1));
    assert_eq!(gb.run_one(), Ok(2));
    assert_eq!(gb.run_one(), Ok(3));
    assert_eq!(gb.run_one(), Ok(3));
    assert_eq!(gb.run_one(), Ok(1));
    assert_eq!(gb.run_one(), Ok(2));
    assert_eq!(gb.run_one(), Ok(6));
    assert_eq!(gb.cpu.regs.pc, 0x0110);
}

#[test]
fn cb_prefix_ops() {
    // SWAP A; BIT 7,A; SET 0,A; RES 7,A; SRA A
    let mut gb = console(&[0xCB, 0x37, 0xCB, 0x7F, 0xCB, 0xC7, 0xCB, 0xBF, 0xCB, 0x2F]);
    gb.cpu.regs.a = 0x1F;
    assert_eq!(gb.run_one(), Ok(2));
    assert_eq!(gb.cpu.regs.a, 0xF1);
    gb.run_one().unwrap();
    assert!(!gb.cpu.regs.f.z && gb.cpu.regs.f.h);
    gb.run_one().unwrap();
    assert_eq!(gb.cpu.regs.a, 0xF1);
    gb.run_one().unwrap();
    assert_eq!(gb.cpu.regs.a, 0x71);
    gb.run_one().unwrap();
    assert_eq!(gb.cpu.regs.a, 0x38);
    assert!(gb.cpu.regs.f.c);
}

#[test]
fn interrupt_dispatch() {
    let mut gb = console(&[0xFB, 0x00]);
    gb.cpu.bus.write(0xFFFF, 0x04);
    gb.cpu.bus.write(0xFF0F, 0x04);
    gb.run_one().unwrap();
    assert_eq!(gb.run_one(), Ok(5));
    assert_eq!(gb.cpu.regs.pc, 0x50);
    assert!(!gb.cpu.regs.ime);
    assert_eq!(gb.cpu.bus.read(0xFF0F) & 0x04, 0);
    assert_eq!(gb.cpu.bus.read(0xFFFD), 0x01);
    assert_eq!(gb.cpu.bus.read(0xFFFC), 0x01);
}

#[test]
fn halt_waits_for_interrupt() {
    let mut gb = console(&[0x76, 0x00]);
    gb.cpu.bus.write(0xFFFF, 0x04);
    gb.run_one().unwrap();
    assert!(gb.cpu.sleep);
    assert_eq!(gb.run_one(), Ok(1));
    gb.cpu.bus.write(0xFF0F, 0x04);
    gb.run_one().unwrap();
    assert!(!gb.cpu.sleep);
    assert_eq!(gb.cpu.regs.pc, 0x0101);
}

#[test]
fn invalid_opcode_and_stop_fault() {
    let mut gb = console(&[0xD3]);
    assert_eq!(gb.run_one(), Err(CpuFault::InvalidOpcode(0xD3)));
    let mut gb = console(&[0x10]);
    assert_eq!(gb.run_one(), Err(CpuFault::Stop));
}

#[test]
fn run_frame_counts_cycles() {
    let mut gb = console(&[0x18, 0xFE]);
    let n = gb.run_frame().unwrap();
    assert!(n >= 17556 && n < 17556 + 6);
    let n = gb.run_line().unwrap();
    assert!(n >= 121 && n < 127);
}

#[test]
fn background_render() {
    let mut ppu = PPU::new();
    // Tile 1 is colour 2 everywhere; map entry 0 names it.
    for i in 0..8u16 {
        ppu.write(0x8010 + 2 * i, 0x00);
        ppu.write(0x8011 + 2 * i, 0xFF);
    }
    ppu.write(0x9800, 1);
    ppu.write(0xFF47, 0b00_01_10_11);
    ppu.write(0xFF43, 4);
    ppu.write(0xFF40, 0x91);
    ppu.run(20);
    ppu.run(43);
    let line = &ppu.screen.buf[0];
    assert_eq!(&line[0..4], &[1, 1, 1, 1]);
    assert_eq!(line[4], 3);
    let rgba = ppu.get_screen();
    assert_eq!(&rgba[0..4], &[170, 170, 170, 255]);
    assert_eq!(&rgba[16..20], &[0, 0, 0, 255]);
}

#[test]
fn small_cartridge_limits() {
    let rom = make_rom(0x00, 0, 0, &[0x00]);
    let small = SmallInMemoryCartridge::from_slice(&rom).unwrap();
    assert_eq!(small.rom, rom);
    assert_eq!(
        SmallInMemoryCartridge::from_slice(&make_rom(0x01, 1, 0, &[])).err(),
        Some(CartError::RomTooLarge)
    );
    assert_eq!(
        SmallInMemoryCartridge::from_slice(&make_rom(0x03, 0, 2, &[])).err(),
        Some(CartError::RamUnsupported)
    );
    let gb = GbRs::new(Cartridge::new(small.rom).unwrap());
    assert_eq!(gb.cpu.regs.pc, 0x0100);
}

#[test]
fn plain_rom_and_no_ram_devices() {
    let mut data = vec![0u8; 0x8000];
    data[0x1234] = 0xAB;
    data[0x7FFF] = 0xCD;
    let mut rom = Rom::from_slice(&data);
    rom.write(0x1234, 0);
    assert_eq!(Device::read(&rom, 0x1234), 0xAB);
    assert_eq!(Device::read(&rom, 0x7FFF), 0xCD);
    assert_eq!(Device::read(&rom, 0x8000), 0xFF);
    let mut ram = NoRam {};
    ram.write(0xA000, 1);
    assert_eq!(ram.read(0xA000), 0xFF);
    let mut bus = Bus::new(Cartridge::new(make_rom(0, 0, 0, &[])).unwrap());
    Device::write(&mut bus, 0xC000, 9);
    assert_eq!(Device::read(&bus, 0xC000), 9);
}

#[test]
fn header_title_must_be_utf8() {
    let mut rom = make_rom(0, 0, 0, &[]);
    rom[0x134] = 0xFF;
    let h = get_cart_header(&rom).unwrap();
    assert!(h.title.is_empty());
    rom[0x134] = b'Z';
    assert_eq!(get_cart_header(&rom).unwrap().title, b"ZEST".to_vec());
}

#[test]
fn frame_is_drawn_to_the_last_row() {
    let mut ppu = PPU::new();
    ppu.write(0xFF47, 0b11_11_11_11);
    ppu.write(0xFF40, 0x91);
    for _ in 0..17556 {
        ppu.run(1);
    }
    // With BGP all black, every row of a finished frame, the last included, is shade 3.
    assert!(ppu.screen.buf.iter().all(|row| row.iter().all(|p| *p == 3)));
}
