use gb_rs::interrupts::{IntSource, InterruptController};
use gb_rs::joypad::{Joypad, JoypadDirection, JoypadInput};
use gb_rs::oam::{OamEntry, OamMap};
use gb_rs::tile::{Line, Palette, Tile, VramBank};
use gb_rs::timer::Timer;

#[test]
fn interrupts_disabled() {
    let int_contr = InterruptController::new();
    assert!(int_contr.next().is_none());
}

#[test]
fn timer_int() {
    let mut int_contr = InterruptController::new();
    assert!(int_contr.next().is_none());

    int_contr.interrupt(IntSource::TIMER);
    // Enable the interrupt
    int_contr.write(0xFFFF, IntSource::TIMER.mask());
    assert_eq!(int_contr.next().unwrap(), IntSource::TIMER);
}

#[test]
fn interrupt_priority_and_masking() {
    let mut ic = InterruptController::new();
    ic.write(0xFFFF, 0xFF);
    assert_eq!(ic.read(0xFFFF), 0x1F);
    ic.write(0xFF0F, 0xE0);
    assert_eq!(ic.read(0xFF0F), 0);
    ic.interrupt(IntSource::JOYPAD);
    ic.interrupt(IntSource::LCD);
    assert_eq!(ic.next(), Some(IntSource::LCD));
    ic.interrupt_clear(IntSource::LCD);
    assert_eq!(ic.next(), Some(IntSource::JOYPAD));
    assert_eq!(IntSource::SERIAL.vector(), 0x58);
}

#[test]
fn interrupt_then_clear_is_not_pending() {
    let mut ic = InterruptController::new();
    ic.write(0xFFFF, 0x1F);
    ic.interrupt(IntSource::TIMER);
    ic.interrupt_clear(IntSource::TIMER);
    assert!(!ic.pending());
}

#[test]
fn pending_needs_enable() {
    let mut ic = InterruptController::new();
    ic.interrupt(IntSource::VBLANK);
    assert!(!ic.pending());
    ic.write(0xFFFF, 0x01);
    assert!(ic.pending());
}

#[test]
fn timer_disabled() {
    let mut timer = Timer::new();
    assert_eq!(timer.enabled(), false);
    for _ in 0..1000 {
        assert_eq!(timer.tick(), false);
        assert_eq!(timer.read(0xFF05), 0);
    }
}

#[test]
fn clock0() {
    let mut timer = Timer::new();
    timer.write(0xFF07, 0x4);
    assert_eq!(timer.enabled(), true);
    for _ in 0..255 {
        assert_eq!(timer.tick(), false);
        assert_eq!(timer.read(0xFF05), 0);
    }

    assert_eq!(timer.tick(), false);
    assert_eq!(timer.read(0xFF05), 1);
}

#[test]
fn clock1() {
    let mut timer = Timer::new();
    timer.write(0xFF07, 0x5);
    assert_eq!(timer.enabled(), true);
    for _ in 0..3 {
        assert_eq!(timer.tick(), false);
        assert_eq!(timer.read(0xFF05), 0);
    }

    assert_eq!(timer.tick(), false);
    assert_eq!(timer.read(0xFF05), 1);
}

#[test]
fn clock2() {
    let mut timer = Timer::new();
    timer.write(0xFF07, 0x6);
    assert_eq!(timer.enabled(), true);
    for _ in 0..15 {
        assert_eq!(timer.tick(), false);
        assert_eq!(timer.read(0xFF05), 0);
    }

    assert_eq!(timer.tick(), false);
    assert_eq!(timer.read(0xFF05), 1);
}

#[test]
fn clock3() {
    let mut timer = Timer::new();
    timer.write(0xFF07, 0x7);
    assert_eq!(timer.enabled(), true);
    for _ in 0..63 {
        assert_eq!(timer.tick(), false);
        assert_eq!(timer.read(0xFF05), 0);
    }

    assert_eq!(timer.tick(), false);
    assert_eq!(timer.read(0xFF05), 1);
}

#[test]
fn interrupt_basic() {
    let mut timer = Timer::new();

    // This should trigger an overflow
    // (interrupt) every timer tick
    timer.write(0xFF06, 0xFF);
    timer.write(0xFF07, 0x7);
    timer.write(0xFF05, 0xFF);
    assert_eq!(timer.enabled(), true);

    for _ in 0..5 {
        for _ in 0..63 {
            assert_eq!(timer.tick(), false);
            assert_eq!(timer.read(0xFF05), 0xFF);
        }
        assert_eq!(timer.tick(), true);
        assert_eq!(timer.read(0xFF05), 0xFF);
    }
}

#[test]
fn blargg_instr_timing_incre_every_four() {
    // The blargg 'instr_timing'
    // test configures the timer
    // to increment every four ticks
    let mut timer = Timer::new();
    timer.tma = 0;
    timer.tac = 0x5;

    for i in 0..10 {
        for _ in 0..3 {
            timer.tick();
            assert_eq!(timer.tima, i);
        }

        timer.tick();
        assert_eq!(timer.tima, i + 1);
    }
}

#[test]
fn timer_clock1_from_odd_counter() {
    let mut timer = Timer::new();
    timer.write(0xFF07, 0x05);
    timer.system_counter = 0x1235;
    let mut steps = 0;
    for _ in 0..4 {
        let before = timer.tima;
        timer.tick();
        if timer.tima != before {
            steps += 1;
        }
    }
    assert_eq!(steps, 1);
}

#[test]
fn timer_div_reads_high_byte_and_resets() {
    let mut timer = Timer::new();
    for _ in 0..0x1234 {
        timer.tick();
    }
    assert_eq!(timer.read(0xFF04), 0x12);
    timer.write(0xFF04, 0x99);
    assert_eq!(timer.read(0xFF04), 0);
    assert_eq!(timer.system_counter, 0);
}

#[test]
fn timer_reload_from_tma() {
    let mut timer = Timer::new();
    timer.write(0xFF06, 0x42);
    timer.write(0xFF05, 0xFF);
    timer.write(0xFF07, 0x05);
    timer.system_counter = 3;
    assert!(timer.tick());
    assert_eq!(timer.read(0xFF05), 0x42);
}

#[test]
fn new_oam_entry() {
    let y_pos = 0x34;
    let x_pos = 0x12;
    let tile_idx = 10;
    let attr = 0xF0;
    let bytes = [y_pos, x_pos, tile_idx, attr];
    let oam = OamEntry::from_bytes(&bytes);

    assert_eq!(oam.x_pos(), x_pos);
    assert_eq!(oam.y_pos(), y_pos);
    assert_eq!(oam.tile_idx(), tile_idx);
    let flags = oam.oam_flags();
    assert!(flags.low_priority);
    assert!(flags.x_flip);
    assert!(flags.y_flip);
    assert!(flags.dmg_palette);

    let attr = 0x00;
    let bytes = [y_pos, x_pos, tile_idx, attr];
    let oam = OamEntry::from_bytes(&bytes);
    let flags = oam.oam_flags();
    assert!(!flags.low_priority);
    assert!(!flags.x_flip);
    assert!(!flags.y_flip);
    assert!(!flags.dmg_palette);
}

fn weird_tile_vram() -> VramBank {
    let bytes: [u8; 16] = [
        0x0F, 0x0F, 0x0F, 0x0F, 0x0F, 0x0F, 0x0F, 0x0F, 0xF0, 0x0F, 0xF0, 0x0F, 0xF0, 0x0F,
        0xF0, 0x0F,
    ];
    let mut vram = VramBank::new();
    vram.data[..16].copy_from_slice(&bytes);
    vram
}

#[test]
fn oam_y_flip() {
    let mut mem = [0; 0xA0];
    mem[8] = 10;
    mem[9] = 16;
    mem[10] = 0;
    mem[11] = 0x40; // just bit 6, y_flip

    let oam_map = OamMap::from_mem(&mem);
    let oams = oam_map.get_oams_screen();

    assert_eq!(oams.len(), 1);

    let vram = weird_tile_vram();
    assert_eq!(oams[0].get_pixels(&vram, 0, false), [1, 1, 1, 1, 2, 2, 2, 2]);
    assert_eq!(oams[0].get_pixels(&vram, 7, false), [0, 0, 0, 0, 3, 3, 3, 3]);
}

#[test]
fn oam_x_flip() {
    let mut mem = [0; 0xA0];
    mem[8] = 10;
    mem[9] = 16;
    mem[10] = 0;
    mem[11] = 0x20; // just bit 5, x_flip

    let oam_map = OamMap::from_mem(&mem);
    let oams = oam_map.get_oams_screen();
    assert_eq!(oams.len(), 1);

    let vram = weird_tile_vram();
    assert_eq!(oams[0].get_pixels(&vram, 0, false), [3, 3, 3, 3, 0, 0, 0, 0]);
    assert_eq!(oams[0].get_pixels(&vram, 7, false), [2, 2, 2, 2, 1, 1, 1, 1]);
}

#[test]
fn oam_vert_spacing() {
    let mut mem = [0; 0xA0];
    mem[0] = 16;
    mem[1] = 8;
    mem[2] = 0;
    mem[3] = 0x00;

    let oam_exists = |ly| {
        let oam_map = OamMap::from_mem(&mem);
        let oams = oam_map.get_oams_line(ly, false);
        oams.len() == 1
    };

    assert!(oam_exists(0));
    assert!(oam_exists(1));
    assert!(oam_exists(7));
    assert!(!oam_exists(8));
    assert!(!oam_exists(16));
    assert!(!oam_exists(20));
}

#[test]
fn oam_tall_sprite_and_render() {
    let mut mem = [0u8; 0xA0];
    mem[0] = 16;
    mem[1] = 8;
    let map = OamMap::from_mem(&mem);
    assert_eq!(map.get_oams_line(15, true).len(), 1);
    assert_eq!(map.get_oams_line(16, true).len(), 0);
    let vram = weird_tile_vram();
    let e = OamEntry::from_bytes(&[10, 16, 0, 0x20]);
    assert_eq!(e.render(&vram, 0, false, Palette(0b00_01_10_11)), [0, 0, 0, 0, 3, 3, 3, 3]);
}

#[test]
fn oam_line_order_and_limit() {
    let mut mem = [0u8; 0xA0];
    // Twelve sprites on line 0; X positions repeat so ties occur.
    for i in 0..12 {
        mem[4 * i] = 16;
        mem[4 * i + 1] = [30u8, 10, 20, 10][i % 4];
        mem[4 * i + 2] = i as u8;
    }
    let map = OamMap::from_mem(&mem);
    let line = map.get_oams_line(0, false);
    assert_eq!(line.len(), 10);
    let order: Vec<(u8, u8)> = line.iter().map(|e| (e.x_pos(), e.tile_idx())).collect();
    assert_eq!(
        order,
        vec![(30, 8), (30, 4), (30, 0), (20, 6), (20, 2), (10, 9), (10, 7), (10, 5), (10, 3), (10, 1)]
    );
}

#[test]
fn base_test() {
    let raw = [
        0x7C, 0x7C, 0x00, 0xC6, 0xC6, 0x00, 0x00, 0xFE, 0xC6, 0xC6, 0x00, 0xC6, 0xC6, 0x00,
        0x00, 0x00,
    ];

    let tile = Tile::from_bytes(&raw);
    assert_eq!(tile.pixel_buf(0), [0, 3, 3, 3, 3, 3, 0, 0]);
    assert_eq!(tile.pixel_buf(1), [2, 2, 0, 0, 0, 2, 2, 0]);
    assert_eq!(tile.pixel_buf(2), [1, 1, 0, 0, 0, 1, 1, 0]);
    assert_eq!(tile.pixel_buf(3), [2, 2, 2, 2, 2, 2, 2, 0]);
    assert_eq!(tile.pixel_buf(4), [3, 3, 0, 0, 0, 3, 3, 0]);
    assert_eq!(tile.pixel_buf(5), [2, 2, 0, 0, 0, 2, 2, 0]);
    assert_eq!(tile.pixel_buf(6), [1, 1, 0, 0, 0, 1, 1, 0]);
    assert_eq!(tile.pixel_buf(7), [0, 0, 0, 0, 0, 0, 0, 0]);
}

#[test]
fn palette_application() {
    assert_eq!(Line::apply_palette(0, Palette(0b11_10_01_00)), 0);
    assert_eq!(Line::apply_palette(3, Palette(0b00_10_01_11)), 0);
    assert_eq!(Line::apply_palette(0, Palette(0b00_10_01_11)), 3);
    let line = Line { lo: 0xF0, hi: 0xCC };
    assert_eq!(line.render(Palette(0b00_01_10_11)), [0, 0, 2, 2, 1, 1, 3, 3]);
    let tile = Tile::from_bytes(&[0xFF; 16]);
    assert_eq!(tile.render(), [[3u8; 8]; 8]);
    assert_eq!(tile.render_with_palette(Palette(0b01_00_00_00)), [[1u8; 8]; 8]);
}

#[test]
fn bg_tile_addressing_modes() {
    let mut vram = VramBank::new();
    vram.data[0x1800] = 0x80;
    vram.data[0x1C00] = 0x01;
    vram.data[0x800] = 0xAA;
    vram.data[0x1010] = 0xBB;
    vram.data[0x10] = 0xCC;
    // Entry 0 of the low map names tile 0x80: in the signed mode at 0x8800.
    assert_eq!(vram.get_bg_tile(0, true, false).data[0], 0xAA);
    // Entry 0 of the high map names tile 1: 0x9010 signed, 0x8010 unsigned.
    assert_eq!(vram.get_bg_tile(0, true, true).data[0], 0xBB);
    assert_eq!(vram.get_bg_tile(0, false, true).data[0], 0xCC);
}

#[test]
fn joypad_selection_and_input() {
    let mut pad = Joypad::new();
    assert_eq!(pad.read(0xFF00), 0x3F);
    pad.write(0xFF00, 0x20);
    pad.input(JoypadInput::LEFT, JoypadDirection::PRESS);
    assert_eq!(pad.read(0xFF00), 0x2D);
    pad.write(0xFF00, 0x10);
    pad.input(JoypadInput::START, JoypadDirection::PRESS);
    assert_eq!(pad.read(0xFF00), 0x17);
    pad.write(0xFF00, 0x00);
    assert_eq!(pad.read(0xFF00), 0x05);
    pad.input(JoypadInput::START, JoypadDirection::RELEASE);
    let state = pad.get_state();
    assert!(state.is_pressed(JoypadInput::LEFT));
    assert!(!state.is_pressed(JoypadInput::START));
    assert!(!state.is_pressed(JoypadInput::A));
}
