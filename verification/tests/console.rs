use cotton_os::animation::{display_shell_prompt, draw_cotton_logo};
use cotton_os::vga_buffer::{Cell, Color, Console, BUFFER_HEIGHT, BUFFER_WIDTH};

fn blank() -> Cell {
    Cell { ch: ' ', fg: Color::White, bg: Color::Black }
}

fn row_string(console: &Console, row: usize) -> String {
    let mut s = String::new();
    for col in 0..BUFFER_WIDTH {
        s.push(console.read_cell(row, col).ch);
    }
    s
}

#[test]
fn write_cell_read_back_exact() {
    let mut console = Console::new();
    console.write_cell(0, 0, 'A', Color::Red, Color::Blue);
    console.write_cell(24, 79, 'z', Color::Yellow, Color::Black);
    console.write_cell(12, 40, '!', Color::LightGreen, Color::DarkGray);
    assert_eq!(console.read_cell(0, 0), Cell { ch: 'A', fg: Color::Red, bg: Color::Blue });
    assert_eq!(console.read_cell(24, 79), Cell { ch: 'z', fg: Color::Yellow, bg: Color::Black });
    assert_eq!(console.read_cell(12, 40), Cell { ch: '!', fg: Color::LightGreen, bg: Color::DarkGray });
    // a neighbouring cell is untouched
    assert_eq!(console.read_cell(12, 41), blank());
}

#[test]
fn write_cell_overwrites_previous_value() {
    let mut console = Console::new();
    console.write_cell(3, 7, 'x', Color::White, Color::Black);
    console.write_cell(3, 7, 'y', Color::Cyan, Color::Blue);
    assert_eq!(console.read_cell(3, 7), Cell { ch: 'y', fg: Color::Cyan, bg: Color::Blue });
}

#[test]
fn clear_resets_every_cell() {
    let mut console = Console::new();
    for row in 0..BUFFER_HEIGHT {
        console.write_cell(row, row * 3 % BUFFER_WIDTH, '#', Color::Red, Color::Green);
    }
    console.clear();
    for row in 0..BUFFER_HEIGHT {
        for col in 0..BUFFER_WIDTH {
            assert_eq!(console.read_cell(row, col), blank());
        }
    }
}

#[test]
fn new_console_is_blank() {
    let console = Console::new();
    for row in 0..BUFFER_HEIGHT {
        for col in 0..BUFFER_WIDTH {
            assert_eq!(console.read_cell(row, col), blank());
        }
    }
}

#[test]
fn write_text_lays_characters_left_to_right() {
    let mut console = Console::new();
    console.write_text(10, 5, "hello", Color::Pink, Color::Black);
    assert_eq!(console.read_cell(10, 5), Cell { ch: 'h', fg: Color::Pink, bg: Color::Black });
    assert_eq!(console.read_cell(10, 6).ch, 'e');
    assert_eq!(console.read_cell(10, 7).ch, 'l');
    assert_eq!(console.read_cell(10, 8).ch, 'l');
    assert_eq!(console.read_cell(10, 9).ch, 'o');
    assert_eq!(console.read_cell(10, 4), blank());
    assert_eq!(console.read_cell(10, 10), blank());
    // the row below is untouched
    assert_eq!(console.read_cell(11, 5), blank());
}

#[test]
fn shell_prompt_is_drawn_in_green() {
    let mut console = Console::new();
    display_shell_prompt(&mut console, 4);
    assert_eq!(&row_string(&console, 4)[..10], "cottonos> ");
    for col in 0..9 {
        assert_eq!(console.read_cell(4, col).fg, Color::Green);
        assert_eq!(console.read_cell(4, col).bg, Color::Black);
    }
}

#[test]
fn logo_skips_blanks_and_colors_rows() {
    let mut console = Console::new();
    draw_cotton_logo(&mut console, 5, 10);
    // the first row starts with three blanks: those cells stay untouched
    assert_eq!(console.read_cell(5, 10), blank());
    assert_eq!(console.read_cell(5, 11), blank());
    assert_eq!(console.read_cell(5, 12), blank());
    // then the first stroke of the logo, in the edge color
    assert_eq!(console.read_cell(5, 13), Cell { ch: '_', fg: Color::LightCyan, bg: Color::Black });
    // second row in the second color
    assert_eq!(console.read_cell(6, 12), Cell { ch: '/', fg: Color::Cyan, bg: Color::Black });
    // a middle row in blue
    assert_eq!(console.read_cell(7, 11), Cell { ch: '|', fg: Color::Blue, bg: Color::Black });
    // below the logo nothing changes
    assert_eq!(console.read_cell(11, 10), blank());
}
