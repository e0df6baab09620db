use cotton_os::animation::BootFlags;
use cotton_os::keyboard::{KeyboardState, Poll, PollSource, SCAN_BACKSPACE, SCAN_ENTER, SCAN_SPACE};
use cotton_os::shell::{
    detect_and_display_devices, get_current_line, process_command, run_shell, starts_with,
};
use cotton_os::vga_buffer::{Cell, Color, Console, BUFFER_WIDTH};

fn press(code: u8) -> Poll {
    Poll { status: 0x01, data: code }
}

fn row_string(console: &Console, row: usize) -> String {
    let mut s = String::new();
    for col in 0..BUFFER_WIDTH {
        s.push(console.read_cell(row, col).ch);
    }
    s
}

fn padded(text: &str) -> String {
    let mut s = String::from(text);
    while s.len() < BUFFER_WIDTH {
        s.push(' ');
    }
    s
}

const HELP_LINE: &str = "Available commands: help, clear, about, sysinfo, devices, exit";
const NOT_FOUND_LINE: &str = "Command not found. Type 'help' for available commands.";

fn shell_fixture() -> (Console, BootFlags, KeyboardState) {
    let mut flags = BootFlags::new();
    flags.welcome_shown = true;
    flags.bypass_welcome = true;
    (Console::new(), flags, KeyboardState::new())
}

#[test]
fn typing_help_and_enter_renders_the_help_line() {
    let (mut console, mut flags, mut kb) = shell_fixture();
    // h, e, l, p, enter
    let mut src = PollSource::new(vec![
        press(0x23),
        press(0x12),
        press(0x26),
        press(0x19),
        press(SCAN_ENTER),
    ]);
    run_shell(&mut console, &mut flags, &mut kb, &mut src);
    // the typed characters were echoed from column 9 on line 0,
    // overwriting the prompt's trailing space
    assert_eq!(&row_string(&console, 0)[..13], "cottonos>help");
    assert_eq!(console.read_cell(0, 9).ch, 'h');
    assert_eq!(console.read_cell(0, 12).ch, 'p');
    // the help line went to line 1; the next prompt then overwrote its
    // first ten columns
    let mut expected = padded(HELP_LINE);
    expected.replace_range(..10, "cottonos> ");
    assert_eq!(row_string(&console, 1), expected);
    assert_eq!(console.read_cell(1, 10).fg, Color::Yellow);
}

#[test]
fn unrecognized_input_renders_the_not_found_line() {
    let (mut console, mut flags, mut kb) = shell_fixture();
    // x, y, z, enter
    let mut src = PollSource::new(vec![
        press(0x2D),
        press(0x15),
        press(0x2C),
        press(SCAN_ENTER),
    ]);
    run_shell(&mut console, &mut flags, &mut kb, &mut src);
    let mut expected = padded(NOT_FOUND_LINE);
    expected.replace_range(..10, "cottonos> ");
    assert_eq!(row_string(&console, 1), expected);
    assert_eq!(console.read_cell(1, 10).fg, Color::Red);
}

#[test]
fn backspace_at_buffer_start_changes_nothing() {
    let (mut console, mut flags, mut kb) = shell_fixture();
    // backspace with an empty buffer, then 'a'
    let mut src = PollSource::new(vec![press(SCAN_BACKSPACE), press(0x1E)]);
    run_shell(&mut console, &mut flags, &mut kb, &mut src);
    // the 'a' landed at the first buffer column: the backspace moved nothing
    assert_eq!(console.read_cell(0, 9).ch, 'a');
    assert_eq!(console.read_cell(0, 8).ch, '>');
    assert_eq!(console.read_cell(0, 10).ch, ' ');
}

#[test]
fn backspace_blanks_the_last_typed_cell() {
    let (mut console, mut flags, mut kb) = shell_fixture();
    // 'a', 'b', backspace
    let mut src = PollSource::new(vec![press(0x1E), press(0x30), press(SCAN_BACKSPACE)]);
    run_shell(&mut console, &mut flags, &mut kb, &mut src);
    assert_eq!(console.read_cell(0, 9).ch, 'a');
    assert_eq!(console.read_cell(0, 10).ch, ' ');
}

#[test]
fn help_line_exact_without_prompt_overwrite() {
    let (mut console, mut flags, mut kb) = shell_fixture();
    let mut src = PollSource::new(vec![]);
    process_command(b"help", &mut console, &mut flags, &mut kb, &mut src);
    assert_eq!(row_string(&console, 1), padded(HELP_LINE));
}

#[test]
fn dispatch_is_by_exact_prefix() {
    let (mut console, mut flags, mut kb) = shell_fixture();
    let mut src = PollSource::new(vec![]);
    process_command(b"helpful nonsense", &mut console, &mut flags, &mut kb, &mut src);
    assert_eq!(row_string(&console, 1), padded(HELP_LINE));
}

#[test]
fn empty_line_does_nothing() {
    let (mut console, mut flags, mut kb) = shell_fixture();
    let mut src = PollSource::new(vec![]);
    process_command(b"", &mut console, &mut flags, &mut kb, &mut src);
    assert_eq!(row_string(&console, 1), padded(""));
}

#[test]
fn clear_command_blanks_the_surface() {
    let (mut console, mut flags, mut kb) = shell_fixture();
    console.write_cell(5, 5, '#', Color::Red, Color::Green);
    let mut src = PollSource::new(vec![]);
    process_command(b"clear", &mut console, &mut flags, &mut kb, &mut src);
    assert_eq!(console.read_cell(5, 5), Cell { ch: ' ', fg: Color::White, bg: Color::Black });
}

#[test]
fn about_command_prints_three_lines() {
    let (mut console, mut flags, mut kb) = shell_fixture();
    let mut src = PollSource::new(vec![]);
    process_command(b"about", &mut console, &mut flags, &mut kb, &mut src);
    assert_eq!(row_string(&console, 1), padded("CottonOS - A simple Rust-based OS"));
    assert_eq!(row_string(&console, 2), padded("Created by: Aryan Rao"));
    assert_eq!(row_string(&console, 3), padded("GitHub: github.com/aryansrao/CottonOs"));
    assert_eq!(console.read_cell(3, 0).fg, Color::LightGreen);
}

#[test]
fn sysinfo_shows_its_page_and_returns_on_enter() {
    let (mut console, mut flags, mut kb) = shell_fixture();
    let mut src = PollSource::new(vec![press(0x1E), press(SCAN_ENTER)]);
    process_command(b"sysinfo", &mut console, &mut flags, &mut kb, &mut src);
    // enter arrived: the shell got its clear console back
    assert_eq!(console.read_cell(0, 0).ch, ' ');
    assert!(flags.welcome_shown);
    assert!(flags.bypass_welcome);
    assert_eq!(src.remaining(), 0);
}

#[test]
fn sysinfo_page_stays_when_enter_never_arrives() {
    let (mut console, mut flags, mut kb) = shell_fixture();
    let mut src = PollSource::new(vec![press(0x1E)]);
    process_command(b"sysinfo", &mut console, &mut flags, &mut kb, &mut src);
    assert_eq!(row_string(&console, 0), padded("==== CottonOS System Information ===="));
    assert_eq!(console.read_cell(0, 0).bg, Color::Blue);
    assert_eq!(row_string(&console, 2), padded("System: CottonOS v0.1.0"));
    assert_eq!(row_string(&console, 23), padded("Press Enter to return to shell..."));
}

#[test]
fn devices_page_lists_the_fixed_records() {
    let (mut console, mut flags, mut kb) = shell_fixture();
    let mut src = PollSource::new(vec![]);
    detect_and_display_devices(&mut console, &mut flags, &mut kb, &mut src);
    assert_eq!(row_string(&console, 0), padded("==== CottonOS Device Detection ===="));
    assert_eq!(row_string(&console, 2), padded("--- Input Devices ---"));
    assert_eq!(row_string(&console, 3), padded("  Device: PS/2 Keyboard"));
    assert_eq!(row_string(&console, 9), padded("  Device: VGA Text Mode Display"));
    assert_eq!(row_string(&console, 14), padded("  Device: Boot Medium"));
    assert!(flags.welcome_shown && flags.bypass_welcome);
}

#[test]
fn devices_command_restores_the_shell_on_enter() {
    let (mut console, mut flags, mut kb) = shell_fixture();
    let mut src = PollSource::new(vec![press(SCAN_ENTER)]);
    process_command(b"devices", &mut console, &mut flags, &mut kb, &mut src);
    assert_eq!(console.read_cell(0, 0).ch, ' ');
    assert_eq!(src.remaining(), 0);
}

#[test]
fn exit_command_shows_the_splash_again() {
    let (mut console, mut flags, mut kb) = shell_fixture();
    // exit redraws the splash and waits for space; space never comes
    let mut src = PollSource::new(vec![press(0x1E)]);
    process_command(b"exit", &mut console, &mut flags, &mut kb, &mut src);
    assert_eq!(console.read_cell(12, 20).ch, 'W'); // splash on screen
    assert!(!flags.welcome_shown);
    assert_eq!(flags.attempt_count, 0);
}

#[test]
fn exit_command_returns_to_a_clear_shell_after_space() {
    let (mut console, mut flags, mut kb) = shell_fixture();
    let mut src = PollSource::new(vec![press(SCAN_SPACE)]);
    process_command(b"exit", &mut console, &mut flags, &mut kb, &mut src);
    assert_eq!(console.read_cell(12, 20).ch, ' ');
    assert!(flags.welcome_shown);
    assert!(!flags.bypass_welcome);
}

#[test]
fn line_buffer_drops_characters_beyond_its_working_limit() {
    let (mut console, mut flags, mut kb) = shell_fixture();
    // 75 times 'a': only the first 70 are kept and echoed
    let mut polls = Vec::new();
    for _ in 0..75 {
        polls.push(press(0x1E));
    }
    let mut src = PollSource::new(polls);
    run_shell(&mut console, &mut flags, &mut kb, &mut src);
    assert_eq!(console.read_cell(0, 9 + 69).ch, 'a');
    assert_eq!(console.read_cell(0, 9 + 70).ch, ' ');
}

#[test]
fn starts_with_compares_byte_prefixes() {
    assert!(starts_with(b"help me", b"help"));
    assert!(starts_with(b"help", b"help"));
    assert!(starts_with(b"anything", b""));
    assert!(!starts_with(b"hel", b"help"));
    assert!(!starts_with(b"xhelp", b"help"));
    assert!(!starts_with(b"", b"a"));
}

#[test]
fn current_line_placeholder_is_zero() {
    assert_eq!(get_current_line(), 0);
}
