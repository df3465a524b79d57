use chippers::chip::{Chip8, Chip8Error, Chip8Message, Clock, HostInput, KeyCode};
use chippers::terminal::{Cell, Terminal, TerminalError};
use chippers::text::{write_decimal, write_hex};

#[test]
fn golden_frame_of_glyph_zero() {
    let rom: [u8; 12] = [
        0x60, 0x00, // V0 = 0
        0xF0, 0x29, // I = glyph of V0
        0x61, 0x0A, // V1 = 10
        0x62, 0x05, // V2 = 5
        0xD1, 0x25, // draw 5 rows at (V1, V2)
        0x12, 0x0A, // jump to itself
    ];
    let mut chip = Chip8::new();
    chip.load_font_set();
    chip.load_rom(&rom).unwrap();
    let mut frames = 0;
    let mut last = [[0u8; 32]; 64];
    for cycle in 0..8u64 {
        match chip.cycle(KeyCode::Null, cycle * 2_000_000).unwrap() {
            Chip8Message::DrawScreen(frame) => {
                frames += 1;
                last = frame;
            }
            Chip8Message::ClearScreen => panic!("the program never clears"),
            Chip8Message::NoSignal => {}
        }
    }
    assert_eq!(frames, 1);
    assert_eq!(chip.cpu.pc(), 0x20A);
    let glyph: [u8; 5] = [0xF0, 0x90, 0x90, 0x90, 0xF0];
    let mut lit = 0;
    for x in 0..64usize {
        for y in 0..32usize {
            let inside = (10..18).contains(&x) && (5..10).contains(&y);
            let expected = if inside { (glyph[y - 5] >> (7 - (x - 10))) & 1 } else { 0 };
            assert_eq!(last[x][y], expected);
            assert_eq!(chip.cpu.pixel(x, y), expected);
            lit += expected as usize;
        }
    }
    assert_eq!(lit, 14);
    assert_eq!(chip.cpu.reg(0xF), 0);
}

#[test]
fn rom_size_limit() {
    let mut chip = Chip8::new();
    let rom = vec![0x11u8; 3584];
    chip.load_rom(&rom).unwrap();
    assert_eq!(chip.cpu.mem(0x1FF), 0);
    assert_eq!(chip.cpu.mem(0x200), 0x11);
    assert_eq!(chip.cpu.mem(0xFFF), 0x11);
    let mut chip = Chip8::new();
    let rom = vec![0x11u8; 3585];
    assert!(matches!(chip.load_rom(&rom), Err(Chip8Error::LoadError)));
    assert_eq!(chip.cpu.mem(0x200), 0);
}

#[test]
fn timers_step_once_per_sixtieth() {
    let mut chip = Chip8::new();
    chip.load_rom(&[0x12, 0x00]).unwrap();
    chip.cpu.set_dt(3);
    chip.cpu.set_st(1);
    chip.cycle(KeyCode::Null, 16_666_666).unwrap();
    assert_eq!((chip.cpu.dt(), chip.cpu.st()), (3, 1));
    chip.cycle(KeyCode::Null, 16_666_667).unwrap();
    assert_eq!((chip.cpu.dt(), chip.cpu.st()), (2, 0));
    assert_eq!(chip.clock.last(), 16_666_667);
    for i in 0..100u64 {
        chip.cycle(KeyCode::Null, 16_666_667 + i * 100_000).unwrap();
    }
    assert_eq!((chip.cpu.dt(), chip.cpu.st()), (2, 0));
    chip.cycle(KeyCode::Null, 2 * 16_666_667).unwrap();
    assert_eq!((chip.cpu.dt(), chip.cpu.st()), (1, 0));
    chip.cycle(KeyCode::Null, 1_000_000_000).unwrap();
    assert_eq!((chip.cpu.dt(), chip.cpu.st()), (0, 0));
    chip.cycle(KeyCode::Null, 2_000_000_000).unwrap();
    assert_eq!((chip.cpu.dt(), chip.cpu.st()), (0, 0));
}

#[test]
fn clock_ignores_a_clock_that_runs_backwards() {
    let mut clock = Clock::new(1_000_000_000);
    assert!(!clock.tick(0));
    assert!(!clock.tick(1_000_000_000));
    assert_eq!(clock.last(), 1_000_000_000);
    assert!(clock.tick(u64::MAX));
    assert_eq!(clock.last(), u64::MAX);
}

#[test]
fn cycle_reports_a_program_counter_outside_memory() {
    let mut chip = Chip8::new();
    chip.cpu.set_pc(0x0FFF);
    chip.cpu.set_dt(5);
    let res = chip.cycle(KeyCode::Null, 1_000_000_000);
    assert!(matches!(res, Err(Chip8Error::LoadError)));
    assert_eq!(chip.cpu.pc(), 0x0FFF);
    assert_eq!(chip.cpu.dt(), 4);
}

#[test]
fn cycle_with_fixed_chance() {
    let mut chip = Chip8::new();
    chip.load_rom(&[0xC1, 0x3C]).unwrap();
    chip.cycle_with(KeyCode::Key5, 0, 0xFF).unwrap();
    assert_eq!(chip.cpu.reg(1), 0x3C);
    assert_eq!(chip.cpu.pc(), 0x202);
    assert_eq!(chip.cpu.key(), KeyCode::Key5);
}

#[test]
fn keys_from_characters() {
    let table = [
        ('1', KeyCode::Key1, 1u8),
        ('2', KeyCode::Key2, 2),
        ('3', KeyCode::Key3, 3),
        ('4', KeyCode::KeyC, 0xC),
        ('q', KeyCode::Key4, 4),
        ('w', KeyCode::Key5, 5),
        ('e', KeyCode::Key6, 6),
        ('r', KeyCode::KeyD, 0xD),
        ('a', KeyCode::Key7, 7),
        ('s', KeyCode::Key8, 8),
        ('d', KeyCode::Key9, 9),
        ('f', KeyCode::KeyF, 0xF),
        ('z', KeyCode::KeyA, 0xA),
        ('x', KeyCode::Key0, 0),
        ('c', KeyCode::KeyB, 0xB),
        ('v', KeyCode::KeyF, 0xF),
    ];
    for (c, key, code) in table {
        assert_eq!(KeyCode::from_char(c), key);
        assert_eq!(key.code(), Some(code));
    }
    assert_eq!(KeyCode::from_char('p'), KeyCode::Null);
    assert_eq!(KeyCode::from_char('Q'), KeyCode::Null);
    assert_eq!(KeyCode::Null.code(), None);
    assert_eq!(KeyCode::Quit.code(), None);
    assert_eq!(KeyCode::KeyE.code(), Some(0xE));
}

#[test]
fn terminal_bounds() {
    let term = Terminal;
    assert!(term.check_bounds(64, 32).is_ok());
    assert!(term.check_bounds(200, 50).is_ok());
    match term.check_bounds(63, 32) {
        Err(TerminalError::ErrorKind(s)) => {
            assert_eq!(s, "terminal is too small to display screen: 63x32")
        }
        Ok(()) => panic!("63 columns are too few"),
    }
    match term.check_bounds(80, 0) {
        Err(TerminalError::ErrorKind(s)) => {
            assert_eq!(s, "terminal is too small to display screen: 80x0")
        }
        Ok(()) => panic!("no rows are too few"),
    }
    match term.check_bounds(65535, 31) {
        Err(e) => assert_eq!(
            e.to_string(),
            "error: terminal is too small to display screen: 65535x31\n"
        ),
        Ok(()) => panic!("31 rows are too few"),
    }
}

#[test]
fn terminal_cells_of_a_frame() {
    let term = Terminal;
    let mut frame = [[0u8; 32]; 64];
    frame[0][0] = 1;
    frame[63][31] = 1;
    frame[5][7] = 1;
    let cells = term.frame_cells(&frame).unwrap();
    assert_eq!(cells.len(), 2048);
    for x in 0..64usize {
        for y in 0..32usize {
            let lit = (x, y) == (0, 0) || (x, y) == (63, 31) || (x, y) == (5, 7);
            assert_eq!(cells[x * 32 + y], Cell { column: x as u16, row: y as u16, lit });
        }
    }
    frame[9][9] = 2;
    match term.frame_cells(&frame) {
        Err(TerminalError::ErrorKind(s)) => {
            assert_eq!(s, "display pixel set to value other than 0 or 1")
        }
        Ok(_) => panic!("a pixel of 2 is refused"),
    }
}

#[test]
fn terminal_error_for_io() {
    let e = TerminalError::io();
    assert_eq!(e.to_string(), "error: received an io error\n");
    let e = TerminalError::from(std::io::Error::from(std::io::ErrorKind::Other));
    assert_eq!(e.to_string(), "error: received an io error\n");
}

#[test]
fn numbers_as_text() {
    assert_eq!(write_decimal(0), "0");
    assert_eq!(write_decimal(9), "9");
    assert_eq!(write_decimal(10), "10");
    assert_eq!(write_decimal(4096), "4096");
    assert_eq!(write_decimal(65535), "65535");
    assert_eq!(write_hex(0), "0");
    assert_eq!(write_hex(0xF), "f");
    assert_eq!(write_hex(0x10), "10");
    assert_eq!(write_hex(0xABCD), "abcd");
    assert_eq!(write_hex(0xFFFF), "ffff");
}

#[test]
fn run_records_clear_then_the_frame_of_glyph_zero() {
    let rom: [u8; 8] = [0x60, 0x00, 0x61, 0x00, 0xA0, 0x50, 0xD0, 0x15];
    let mut chip = Chip8::new();
    chip.load_font_set();
    chip.load_rom(&rom).unwrap();
    let inputs = [HostInput { key: KeyCode::Null, now: 0 }; 4];
    let rec = chip.run(&inputs);
    assert_eq!(rec.error, None);
    assert_eq!(rec.signals.len(), 2);
    assert!(matches!(rec.signals[0], Chip8Message::ClearScreen));
    let glyph: [u8; 5] = [0xF0, 0x90, 0x90, 0x90, 0xF0];
    match rec.signals[1] {
        Chip8Message::DrawScreen(frame) => {
            let mut lit = 0;
            for x in 0..64usize {
                for y in 0..32usize {
                    let expected = if x < 8 && y < 5 { (glyph[y] >> (7 - x)) & 1 } else { 0 };
                    assert_eq!(frame[x][y], expected);
                    lit += expected as usize;
                }
            }
            assert_eq!(lit, 14);
            assert_eq!(frame, chip.cpu.display());
        }
        _ => panic!("the last signal is the frame"),
    }
    assert_eq!(chip.cpu.pc(), 0x208);
}

#[test]
fn run_records_signals_in_order() {
    let rom: [u8; 10] = [0xA0, 0x50, 0xD0, 0x01, 0x00, 0xE0, 0xD0, 0x01, 0x12, 0x08];
    let mut chip = Chip8::new();
    chip.load_font_set();
    chip.load_rom(&rom).unwrap();
    let inputs = [HostInput { key: KeyCode::Null, now: 0 }; 7];
    let rec = chip.run(&inputs);
    assert_eq!(rec.error, None);
    assert_eq!(rec.signals.len(), 4);
    assert!(matches!(rec.signals[0], Chip8Message::ClearScreen));
    assert!(matches!(rec.signals[1], Chip8Message::DrawScreen(_)));
    assert!(matches!(rec.signals[2], Chip8Message::ClearScreen));
    assert!(matches!(rec.signals[3], Chip8Message::DrawScreen(_)));
    assert!(rec.signals.iter().all(|m| !matches!(m, Chip8Message::NoSignal)));
    assert_eq!(chip.cpu.pc(), 0x208);
}

#[test]
fn run_of_no_cycles_only_clears() {
    let mut chip = Chip8::new();
    let rec = chip.run(&[]);
    assert_eq!(rec.error, None);
    assert_eq!(rec.signals.len(), 1);
    assert!(matches!(rec.signals[0], Chip8Message::ClearScreen));
    assert_eq!(chip.cpu.pc(), 0x200);
}

#[test]
fn run_ends_at_the_first_refused_cycle() {
    let rom: [u8; 6] = [0x61, 0x07, 0x00, 0xEE, 0x62, 0x09];
    let mut chip = Chip8::new();
    chip.load_rom(&rom).unwrap();
    chip.cpu.set_dt(9);
    let inputs = [
        HostInput { key: KeyCode::Null, now: 0 },
        HostInput { key: KeyCode::Key3, now: 1_000 },
        HostInput { key: KeyCode::Key4, now: 1_000_000_000 },
        HostInput { key: KeyCode::Key5, now: 2_000_000_000 },
    ];
    let rec = chip.run(&inputs);
    assert_eq!(rec.error, Some(Chip8Error::StackUnderflow));
    assert_eq!(rec.signals.len(), 1);
    assert_eq!(chip.cpu.reg(1), 7);
    assert_eq!(chip.cpu.reg(2), 0);
    assert_eq!(chip.cpu.pc(), 0x204);
    assert_eq!(chip.cpu.key(), KeyCode::Key3);
    assert_eq!(chip.cpu.dt(), 9);
    assert_eq!(chip.clock.last(), 0);
}

#[test]
fn run_steps_the_timers_by_the_host_clock() {
    let mut chip = Chip8::new();
    chip.load_rom(&[0x12, 0x00]).unwrap();
    chip.cpu.set_dt(5);
    let inputs = [
        HostInput { key: KeyCode::Null, now: 10_000_000 },
        HostInput { key: KeyCode::Null, now: 20_000_000 },
        HostInput { key: KeyCode::Null, now: 30_000_000 },
        HostInput { key: KeyCode::Null, now: 40_000_000 },
    ];
    let rec = chip.run(&inputs);
    assert_eq!(rec.error, None);
    assert_eq!(chip.cpu.dt(), 3);
    assert_eq!(chip.clock.last(), 40_000_000);
}
