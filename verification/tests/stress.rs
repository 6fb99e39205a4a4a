use session_manager::terminal::Terminal;

struct Noise(u64);

impl Noise {
    fn next(&mut self) -> u64 {
        self.0 = self.0.wrapping_mul(6364136223846793005).wrapping_add(1442695040888963407);
        self.0 >> 33
    }

    fn below(&mut self, bound: usize) -> usize {
        (self.next() % bound as u64) as usize
    }

    fn size(&mut self) -> (u16, u16) {
        (2 + self.below(30) as u16, 2 + self.below(100) as u16)
    }
}

fn control_sequence(noise: &mut Noise, out: &mut Vec<u8>) {
    let finals = b"@ABCDEFGHIJKLMPSTXZ`abcdefghlmnrstu";
    let last = finals[noise.below(finals.len())];
    out.extend_from_slice(b"\x1b[");
    if noise.below(4) == 0 {
        out.push(b'?');
    }
    for i in 0..noise.below(4) {
        if i > 0 {
            out.push(b';');
        }
        let mut value = match noise.below(6) {
            0 => 0,
            1 => 1,
            2 => noise.below(12),
            3 => noise.below(300),
            4 => 65535,
            _ => noise.below(70000),
        };
        if b"@LMPSTX".contains(&last) {
            value %= 40;
        }
        out.extend_from_slice(value.to_string().as_bytes());
    }
    out.push(last);
}

fn piece(noise: &mut Noise, out: &mut Vec<u8>) {
    match noise.below(12) {
        0 => control_sequence(noise, out),
        1 => {
            let finals = b"78DEHMNOPZc=>\\g";
            out.push(0x1b);
            out.push(finals[noise.below(finals.len())]);
        }
        2 => {
            out.extend_from_slice(b"\x1b]");
            out.extend_from_slice(noise.below(4).to_string().as_bytes());
            out.push(b';');
            for _ in 0..noise.below(6) {
                out.push(b'a' + noise.below(26) as u8);
            }
            if noise.below(3) != 0 {
                out.push(7);
            }
        }
        3 => out.extend_from_slice("\u{4e2d}".as_bytes()),
        4 => out.extend_from_slice("\u{301}".as_bytes()),
        5 => out.push(noise.below(32) as u8),
        6 => out.push(noise.below(256) as u8),
        7 => out.extend_from_slice(b"\r\n"),
        8 => out.push(b'\t'),
        9 => {
            let modes: [&[u8]; 9] =
                [b"1049", b"47", b"6", b"7", b"25", b"1", b"2004", b"1000", b"1006"];
            out.extend_from_slice(b"\x1b[?");
            out.extend_from_slice(modes[noise.below(modes.len())]);
            out.push(if noise.below(2) == 0 { b'h' } else { b'l' });
        }
        _ => {
            for _ in 0..noise.below(20) {
                out.push(b' ' + noise.below(95) as u8);
            }
        }
    }
}

fn look(terminal: &Terminal, rows: u16, cols: u16) {
    assert_eq!(terminal.rows(cols).len(), rows as usize);
    assert!(terminal.snapshot(cols).rows.len() <= rows as usize);
    let (row, col) = terminal.cursor_position();
    assert!(row < rows);
    assert!(col <= cols);
}

fn run(seed: u64, size: Option<(u16, u16)>, rounds: usize, resize: bool) {
    let mut noise = Noise(seed);
    let (mut rows, mut cols) = size.unwrap_or_else(|| noise.size());
    let mut terminal = Terminal::new(rows, cols);
    for _ in 0..rounds {
        let mut chunk = Vec::new();
        for _ in 0..noise.below(60) {
            piece(&mut noise, &mut chunk);
        }
        terminal.feed(&chunk);
        if resize && noise.below(3) == 0 {
            let title = terminal.title();
            (rows, cols) = noise.size();
            terminal.resize(rows, cols);
            assert_eq!(terminal.title(), title, "seed {}", seed);
        }
        look(&terminal, rows, cols);
    }
}

#[test]
fn emulator_takes_any_bytes() {
    for seed in 0..150 {
        run(seed, None, 25, false);
    }
}

#[test]
fn emulator_takes_any_bytes_on_the_smallest_grids() {
    for seed in 0..40 {
        run(1000 + seed, Some((2, 2)), 20, false);
        run(2000 + seed, Some((2, 3)), 20, false);
        run(3000 + seed, Some((3, 2)), 20, false);
    }
}

#[test]
fn emulator_takes_any_bytes_on_the_largest_grids() {
    run(4000, Some((2, 65527)), 40, false);
    run(4001, Some((65535, 2)), 40, false);
    let mut wide = Terminal::new(2, 65527);
    wide.feed(b"\x1b[1;65527H\t\t\x1b[2;65520Hab\tcd\x1b[65535C\t\xe4\xb8\xad\xe4\xb8\xad");
    look(&wide, 2, 65527);
    let mut tall = Terminal::new(65535, 2);
    tall.feed(b"\x1b[65535;2Hab\r\n\r\n\x1b[65535Bcd\x1b[1;65535r\x1b[65535;1H\n\n\x1bM");
    look(&tall, 65535, 2);
}

#[test]
fn emulator_takes_any_bytes_between_any_resizes() {
    for seed in 0..150 {
        run(5000 + seed, None, 25, true);
    }
}

#[test]
fn emulator_takes_long_sessions_with_resizes() {
    for seed in 0..10 {
        run(6000 + seed, None, 300, true);
    }
}
