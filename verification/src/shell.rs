//! The command shell: a line buffer fed by decoded keypresses, and the
//! dispatch of the six built-in commands.
//!
//! The loop accumulates printable characters, handles backspace, and on
//! enter matches the line against the closed command set by exact prefix.
//! Built-ins that take over the console block on a designated return key
//! and then restore a clear console and a fresh prompt.

use crate::animation;
use crate::animation::{splash_view, prompt_text, BootFlags};
use crate::keyboard;
use crate::keyboard::{
    consume_until_press,
    drained_state,
    first_press,
    after_first_press,
    press_of_found,
    spec_char_of,
    KeyboardState,
    Poll,
    PollSource,
    SCAN_BACKSPACE,
    SCAN_ENTER,
    SCAN_SPACE,
};
use crate::vga_buffer::{
    blank_cell,
    cleared_view,
    write_cell_view,
    write_text_view,
    Cell,
    Color,
    Console,
    BUFFER_HEIGHT,
};
use vstd::prelude::*;

verus! {

/// The shell's working limit on the line buffer, leaving a margin inside
/// the 80-byte row.
pub const CMD_CAPACITY: usize = 70;

/// The column where typed characters start, just past the prompt.
pub const CMD_COLUMN: usize = 9;

/// The last line with content. The shell does not track this properly;
/// a fuller shell would have to.
pub fn get_current_line() -> (r: usize)
    ensures
        r == 0,
{
    0
}

/// Whether `input` begins with exactly the bytes of `prefix`.
pub open spec fn spec_starts_with(input: Seq<u8>, prefix: Seq<u8>) -> bool {
    input.len() >= prefix.len() && input.take(prefix.len() as int) == prefix
}

/// Check if a byte slice starts with another byte slice.
pub fn starts_with(input: &[u8], prefix: &[u8]) -> (r: bool)
    ensures
        r == spec_starts_with(input@, prefix@),
{
    if input.len() < prefix.len() {
        return false;
    }
    let n = prefix.len();
    let mut i: usize = 0;
    while i < n
        invariant
            i <= n,
            n == prefix@.len(),
            n <= input@.len(),
            forall|j: int| 0 <= j < i ==> input@[j] == prefix@[j],
        decreases n - i,
    {
        if input[i] != prefix[i] {
            proof {
                assert(input@.take(n as int)[i as int] != prefix@[i as int]);
            }
            return false;
        }
        i = i + 1;
    }
    proof {
        assert(input@.take(n as int) =~= prefix@);
    }
    true
}

/// Whether the typed bytes begin with the keyword's characters. The
/// dispatch is by exact prefix: anything after the keyword is ignored.
pub open spec fn kw_match(cmd: Seq<u8>, kw: Seq<char>) -> bool {
    cmd.len() >= kw.len() && (forall|i: int| 0 <= i < kw.len() ==> cmd[i] == kw[i] as u8)
}

fn cmd_matches(cmd: &[u8], kw: &str) -> (r: bool)
    ensures
        r == kw_match(cmd@, kw@),
{
    let n = kw.unicode_len();
    if cmd.len() < n {
        return false;
    }
    let mut i: usize = 0;
    while i < n
        invariant
            i <= n,
            n == kw@.len(),
            n <= cmd@.len(),
            forall|j: int| 0 <= j < i ==> cmd@[j] == kw@[j] as u8,
        decreases n - i,
    {
        let ch = kw.get_char(i);
        if cmd[i] != ch as u8 {
            return false;
        }
        i = i + 1;
    }
    true
}

/// The fixed line the `help` command prints.
pub open spec fn help_text() -> Seq<char> {
    "Available commands: help, clear, about, sysinfo, devices, exit"@
}

/// The fixed line an unrecognized command prints.
pub open spec fn not_found_text() -> Seq<char> {
    "Command not found. Type 'help' for available commands."@
}

/// The surface after `help` printed its line.
pub open spec fn help_view(s: Seq<Cell>) -> Seq<Cell> {
    write_text_view(s, 1, 0, help_text(), Color::Yellow, Color::Black)
}

/// The surface after `about` printed its three lines.
pub open spec fn about_view(s: Seq<Cell>) -> Seq<Cell> {
    let s1 = write_text_view(
        s,
        1,
        0,
        "CottonOS - A simple Rust-based OS"@,
        Color::LightCyan,
        Color::Black,
    );
    let s2 = write_text_view(s1, 2, 0, "Created by: Aryan Rao"@, Color::LightCyan, Color::Black);
    write_text_view(
        s2,
        3,
        0,
        "GitHub: github.com/aryansrao/CottonOs"@,
        Color::LightGreen,
        Color::Black,
    )
}

/// The surface after an unrecognized command printed its line.
pub open spec fn not_found_view(s: Seq<Cell>) -> Seq<Cell> {
    write_text_view(s, 1, 0, not_found_text(), Color::Red, Color::Black)
}

/// The fixed system information page.
pub open spec fn sysinfo_page() -> Seq<Cell> {
    let s0 = cleared_view();
    let s1 = write_text_view(s0, 0, 0, "==== CottonOS System Information ===="@, Color::White,
        Color::Blue);
    let s2 = write_text_view(s1, 2, 0, "System: CottonOS v0.1.0"@, Color::White, Color::Black);
    let s3 = write_text_view(s2, 3, 0, "Kernel: Rust Bare Metal"@, Color::White, Color::Black);
    let s4 = write_text_view(s3, 4, 0, "Architecture: x86_64"@, Color::White, Color::Black);
    let s5 = write_text_view(s4, 6, 0, "--- CPU Information ---"@, Color::Yellow, Color::Black);
    let s6 = write_text_view(s5, 7, 0, "Model: QEMU Virtual CPU"@, Color::White, Color::Black);
    let s7 = write_text_view(s6, 8, 0, "Features: SSE, SSE2"@, Color::White, Color::Black);
    let s8 = write_text_view(s7, 10, 0, "--- Memory Information ---"@, Color::Yellow, Color::Black);
    let s9 = write_text_view(s8, 11, 0, "Total RAM: 640KB (Fixed allocation)"@, Color::White,
        Color::Black);
    let s10 = write_text_view(s9, 12, 0, "Used: <unknown>"@, Color::White, Color::Black);
    let s11 = write_text_view(s10, 14, 0, "--- Hardware Information ---"@, Color::Yellow,
        Color::Black);
    let s12 = write_text_view(s11, 15, 0, "Video: VGA Text Mode (80x25)"@, Color::White,
        Color::Black);
    let s13 = write_text_view(s12, 16, 0, "Input: PS/2 Keyboard"@, Color::White, Color::Black);
    let s14 = write_text_view(s13, 18, 0, "--- OS Statistics ---"@, Color::Yellow, Color::Black);
    let s15 = write_text_view(s14, 19, 0, "Uptime: N/A"@, Color::White, Color::Black);
    let s16 = write_text_view(s15, 20, 0, "Build: Rust nightly"@, Color::White, Color::Black);
    write_text_view(s16, 23, 0, "Press Enter to return to shell..."@, Color::White, Color::Black)
}

/// The fixed device detection page.
pub open spec fn devices_page() -> Seq<Cell> {
    let s0 = cleared_view();
    let s1 = write_text_view(s0, 0, 0, "==== CottonOS Device Detection ===="@, Color::White,
        Color::Blue);
    let s2 = write_text_view(s1, 2, 0, "--- Input Devices ---"@, Color::Yellow, Color::Black);
    let s3 = write_text_view(s2, 3, 2, "Device: PS/2 Keyboard"@, Color::White, Color::Black);
    let s4 = write_text_view(s3, 4, 4, "Status: Connected"@, Color::LightGreen, Color::Black);
    let s5 = write_text_view(s4, 5, 4, "Connected since boot"@, Color::White, Color::Black);
    let s6 = write_text_view(s5, 6, 4, "Driver: PS/2 Controller"@, Color::White, Color::Black);
    let s7 = write_text_view(s6, 8, 0, "--- Output Devices ---"@, Color::Yellow, Color::Black);
    let s8 = write_text_view(s7, 9, 2, "Device: VGA Text Mode Display"@, Color::White,
        Color::Black);
    let s9 = write_text_view(s8, 10, 4, "Status: Active"@, Color::LightGreen, Color::Black);
    let s10 = write_text_view(s9, 11, 4, "Resolution: 80x25 characters"@, Color::White,
        Color::Black);
    let s11 = write_text_view(s10, 13, 0, "--- Storage Devices ---"@, Color::Yellow, Color::Black);
    let s12 = write_text_view(s11, 14, 2, "Device: Boot Medium"@, Color::White, Color::Black);
    let s13 = write_text_view(s12, 15, 4, "Status: Read-only"@, Color::LightCyan, Color::Black);
    let s14 = write_text_view(s13, 16, 4, "Size: Unknown"@, Color::White, Color::Black);
    write_text_view(s14, 23, 0, "Press Enter to return to shell..."@, Color::White, Color::Black)
}

/// The flags every console-taking built-in leaves behind: welcome both
/// shown and bypassed, the attempt count restarted.
pub open spec fn disabled_flags() -> BootFlags {
    BootFlags { welcome_shown: true, bypass_welcome: true, attempt_count: 0 }
}

/// Everything a command can touch besides the line buffer: the surface,
/// the boot flags, the decoder state, and the pending controller reads.
pub struct IoState {
    pub console: Seq<Cell>,
    pub flags: BootFlags,
    pub kb: KeyboardState,
    pub polls: Seq<Poll>,
}

/// Bundle the four components into one state value.
pub open spec fn io_state(
    console: Seq<Cell>,
    flags: BootFlags,
    kb: KeyboardState,
    polls: Seq<Poll>,
) -> IoState {
    IoState { console, flags, kb, polls }
}

/// What dispatching one submitted line does. Built-ins that block on a
/// return key leave their page on the surface when the key never comes.
pub open spec fn process_command_view(cmd: Seq<u8>, st: IoState) -> IoState {
    if kw_match(cmd, "help"@) {
        io_state(help_view(st.console), st.flags, st.kb, st.polls)
    } else if kw_match(cmd, "clear"@) {
        io_state(cleared_view(), st.flags, st.kb, st.polls)
    } else if kw_match(cmd, "about"@) {
        io_state(about_view(st.console), st.flags, st.kb, st.polls)
    } else if kw_match(cmd, "exit"@) {
        let found = press_of_found(st.polls, SCAN_SPACE);
        io_state(
            if found {
                cleared_view()
            } else {
                splash_view()
            },
            BootFlags { welcome_shown: found, bypass_welcome: false, attempt_count: 0 },
            drained_state(st.kb, st.polls, SCAN_SPACE),
            consume_until_press(st.polls, SCAN_SPACE),
        )
    } else if kw_match(cmd, "devices"@) {
        let found = press_of_found(st.polls, SCAN_ENTER);
        io_state(
            if found {
                cleared_view()
            } else {
                devices_page()
            },
            disabled_flags(),
            drained_state(st.kb, st.polls, SCAN_ENTER),
            consume_until_press(st.polls, SCAN_ENTER),
        )
    } else if kw_match(cmd, "sysinfo"@) {
        let found = press_of_found(st.polls, SCAN_ENTER);
        io_state(
            if found {
                cleared_view()
            } else {
                sysinfo_page()
            },
            disabled_flags(),
            drained_state(st.kb, st.polls, SCAN_ENTER),
            consume_until_press(st.polls, SCAN_ENTER),
        )
    } else if cmd.len() > 0 {
        io_state(not_found_view(st.console), st.flags, st.kb, st.polls)
    } else {
        st
    }
}

/// Detect-and-display: disable the welcome surface, show the fixed device
/// page, block until enter returns to the shell, and restore a clear
/// console.
pub fn detect_and_display_devices(
    console: &mut Console,
    flags: &mut BootFlags,
    kb: &mut KeyboardState,
    src: &mut PollSource,
)
    requires
        old(console).wf(),
    ensures
        final(console).wf(),
        *final(flags) == disabled_flags(),
        final(console)@ == if keyboard::press_of_found(old(src)@, SCAN_ENTER) {
            cleared_view()
        } else {
            devices_page()
        },
        *final(kb) == drained_state(*old(kb), old(src)@, SCAN_ENTER),
        final(src)@ == consume_until_press(old(src)@, SCAN_ENTER),
{
    proof {
        reveal_strlit("==== CottonOS Device Detection ====");
        reveal_strlit("--- Input Devices ---");
        reveal_strlit("Device: PS/2 Keyboard");
        reveal_strlit("Status: Connected");
        reveal_strlit("Connected since boot");
        reveal_strlit("Driver: PS/2 Controller");
        reveal_strlit("--- Output Devices ---");
        reveal_strlit("Device: VGA Text Mode Display");
        reveal_strlit("Status: Active");
        reveal_strlit("Resolution: 80x25 characters");
        reveal_strlit("--- Storage Devices ---");
        reveal_strlit("Device: Boot Medium");
        reveal_strlit("Status: Read-only");
        reveal_strlit("Size: Unknown");
        reveal_strlit("Press Enter to return to shell...");
    }
    animation::disable_welcome_screen(flags);
    console.clear();
    console.write_text(0, 0, "==== CottonOS Device Detection ====", Color::White, Color::Blue);
    console.write_text(2, 0, "--- Input Devices ---", Color::Yellow, Color::Black);
    console.write_text(3, 2, "Device: PS/2 Keyboard", Color::White, Color::Black);
    console.write_text(4, 4, "Status: Connected", Color::LightGreen, Color::Black);
    console.write_text(5, 4, "Connected since boot", Color::White, Color::Black);
    console.write_text(6, 4, "Driver: PS/2 Controller", Color::White, Color::Black);
    console.write_text(8, 0, "--- Output Devices ---", Color::Yellow, Color::Black);
    console.write_text(9, 2, "Device: VGA Text Mode Display", Color::White, Color::Black);
    console.write_text(10, 4, "Status: Active", Color::LightGreen, Color::Black);
    console.write_text(11, 4, "Resolution: 80x25 characters", Color::White, Color::Black);
    console.write_text(13, 0, "--- Storage Devices ---", Color::Yellow, Color::Black);
    console.write_text(14, 2, "Device: Boot Medium", Color::White, Color::Black);
    console.write_text(15, 4, "Status: Read-only", Color::LightCyan, Color::Black);
    console.write_text(16, 4, "Size: Unknown", Color::White, Color::Black);
    console.write_text(
        BUFFER_HEIGHT - 2,
        0,
        "Press Enter to return to shell...",
        Color::White,
        Color::Black,
    );
    animation::disable_welcome_screen(flags);
    let found = keyboard::wait_until_press(kb, src, SCAN_ENTER);
    if found {
        animation::disable_welcome_screen(flags);
        console.clear();
    }
}

/// Process one submitted command line: match it against the closed set of
/// built-ins by exact prefix; unrecognized non-empty input prints an error
/// line; an empty line does nothing.
pub fn process_command(
    cmd: &[u8],
    console: &mut Console,
    flags: &mut BootFlags,
    kb: &mut KeyboardState,
    src: &mut PollSource,
)
    requires
        old(console).wf(),
    ensures
        final(console).wf(),
        io_state(final(console)@, *final(flags), *final(kb), final(src)@) == process_command_view(
            cmd@,
            io_state(old(console)@, *old(flags), *old(kb), old(src)@),
        ),
{
    if cmd_matches(cmd, "help") {
        proof {
            reveal_strlit("Available commands: help, clear, about, sysinfo, devices, exit");
        }
        let row = get_current_line() + 1;
        console.write_text(
            row,
            0,
            "Available commands: help, clear, about, sysinfo, devices, exit",
            Color::Yellow,
            Color::Black,
        );
    } else if cmd_matches(cmd, "clear") {
        console.clear();
    } else if cmd_matches(cmd, "about") {
        proof {
            reveal_strlit("CottonOS - A simple Rust-based OS");
            reveal_strlit("Created by: Aryan Rao");
            reveal_strlit("GitHub: github.com/aryansrao/CottonOs");
        }
        let row = get_current_line();
        console.write_text(
            row + 1,
            0,
            "CottonOS - A simple Rust-based OS",
            Color::LightCyan,
            Color::Black,
        );
        console.write_text(row + 2, 0, "Created by: Aryan Rao", Color::LightCyan, Color::Black);
        console.write_text(
            row + 3,
            0,
            "GitHub: github.com/aryansrao/CottonOs",
            Color::LightGreen,
            Color::Black,
        );
    } else if cmd_matches(cmd, "exit") {
        animation::force_welcome_screen(flags, console, kb, src);
        if flags.welcome_shown {
            console.clear();
        }
    } else if cmd_matches(cmd, "devices") {
        detect_and_display_devices(console, flags, kb, src);
    } else if cmd_matches(cmd, "sysinfo") {
        proof {
            reveal_strlit("==== CottonOS System Information ====");
            reveal_strlit("System: CottonOS v0.1.0");
            reveal_strlit("Kernel: Rust Bare Metal");
            reveal_strlit("Architecture: x86_64");
            reveal_strlit("--- CPU Information ---");
            reveal_strlit("Model: QEMU Virtual CPU");
            reveal_strlit("Features: SSE, SSE2");
            reveal_strlit("--- Memory Information ---");
            reveal_strlit("Total RAM: 640KB (Fixed allocation)");
            reveal_strlit("Used: <unknown>");
            reveal_strlit("--- Hardware Information ---");
            reveal_strlit("Video: VGA Text Mode (80x25)");
            reveal_strlit("Input: PS/2 Keyboard");
            reveal_strlit("--- OS Statistics ---");
            reveal_strlit("Uptime: N/A");
            reveal_strlit("Build: Rust nightly");
            reveal_strlit("Press Enter to return to shell...");
        }
        animation::disable_welcome_screen(flags);
        console.clear();
        console.write_text(0, 0, "==== CottonOS System Information ====", Color::White,
            Color::Blue);
        console.write_text(2, 0, "System: CottonOS v0.1.0", Color::White, Color::Black);
        console.write_text(3, 0, "Kernel: Rust Bare Metal", Color::White, Color::Black);
        console.write_text(4, 0, "Architecture: x86_64", Color::White, Color::Black);
        console.write_text(6, 0, "--- CPU Information ---", Color::Yellow, Color::Black);
        console.write_text(7, 0, "Model: QEMU Virtual CPU", Color::White, Color::Black);
        console.write_text(8, 0, "Features: SSE, SSE2", Color::White, Color::Black);
        console.write_text(10, 0, "--- Memory Information ---", Color::Yellow, Color::Black);
        console.write_text(11, 0, "Total RAM: 640KB (Fixed allocation)", Color::White,
            Color::Black);
        console.write_text(12, 0, "Used: <unknown>", Color::White, Color::Black);
        console.write_text(14, 0, "--- Hardware Information ---", Color::Yellow, Color::Black);
        console.write_text(15, 0, "Video: VGA Text Mode (80x25)", Color::White, Color::Black);
        console.write_text(16, 0, "Input: PS/2 Keyboard", Color::White, Color::Black);
        console.write_text(18, 0, "--- OS Statistics ---", Color::Yellow, Color::Black);
        console.write_text(19, 0, "Uptime: N/A", Color::White, Color::Black);
        console.write_text(20, 0, "Build: Rust nightly", Color::White, Color::Black);
        console.write_text(23, 0, "Press Enter to return to shell...", Color::White, Color::Black);
        animation::disable_welcome_screen(flags);
        let found = keyboard::wait_until_press(kb, src, SCAN_ENTER);
        if found {
            animation::disable_welcome_screen(flags);
            console.clear();
        }
    } else if cmd.len() > 0 {
        proof {
            reveal_strlit("Command not found. Type 'help' for available commands.");
        }
        let row = get_current_line() + 1;
        console.write_text(
            row,
            0,
            "Command not found. Type 'help' for available commands.",
            Color::Red,
            Color::Black,
        );
    }
}

/// The whole shell state: the prompt line, the typed bytes, and the
/// shared machine state.
pub struct ShellModel {
    pub line: int,
    pub cmd: Seq<u8>,
    pub io: IoState,
}

/// What one decoded press does to the shell: enter submits the line and
/// redraws a prompt, backspace blanks the last typed cell, a printable
/// character is echoed and appended while the buffer has room, and
/// anything else does nothing.
pub open spec fn shell_step(m: ShellModel, key: u8) -> ShellModel {
    if key == SCAN_ENTER {
        let io2 = process_command_view(m.cmd, m.io);
        let line2: int = if m.line + 1 == BUFFER_HEIGHT {
            0
        } else {
            m.line + 1
        };
        let con2 = if line2 == 0 {
            cleared_view()
        } else {
            io2.console
        };
        let con3 = write_text_view(con2, line2, 0, prompt_text(), Color::Green, Color::Black);
        ShellModel {
            line: line2,
            cmd: Seq::empty(),
            io: io_state(con3, io2.flags, io2.kb, io2.polls),
        }
    } else if key == SCAN_BACKSPACE && m.cmd.len() > 0 {
        ShellModel {
            line: m.line,
            cmd: m.cmd.drop_last(),
            io: io_state(
                write_cell_view(m.io.console, m.line, CMD_COLUMN + m.cmd.len() - 1, blank_cell()),
                m.io.flags,
                m.io.kb,
                m.io.polls,
            ),
        }
    } else if spec_char_of(key) matches Some(ch) && m.cmd.len() < CMD_CAPACITY {
        ShellModel {
            line: m.line,
            cmd: m.cmd.push(spec_char_of(key)->Some_0 as u8),
            io: io_state(
                write_cell_view(
                    m.io.console,
                    m.line,
                    CMD_COLUMN + m.cmd.len(),
                    Cell {
                        ch: spec_char_of(key)->Some_0,
                        fg: Color::White,
                        bg: Color::Black,
                    },
                ),
                m.io.flags,
                m.io.kb,
                m.io.polls,
            ),
        }
    } else {
        m
    }
}

/// The shell run to exhaustion of the pending reads: each press-class
/// scan code is recorded by the decoder and handed to [`shell_step`];
/// the run ends when no press remains.
pub open spec fn shell_run(m: ShellModel) -> ShellModel
    decreases m.io.polls.len(),
    via shell_run_decreases
{
    match first_press(m.io.polls) {
        None => ShellModel {
            line: m.line,
            cmd: m.cmd,
            io: io_state(m.io.console, m.io.flags, m.io.kb, Seq::empty()),
        },
        Some(p) => shell_run(
            shell_step(
                ShellModel {
                    line: m.line,
                    cmd: m.cmd,
                    io: io_state(
                        m.io.console,
                        m.io.flags,
                        KeyboardState { last_scan_code: p.data, key_pressed: true },
                        after_first_press(m.io.polls),
                    ),
                },
                p.data,
            ),
        ),
    }
}

#[via_fn]
proof fn shell_run_decreases(m: ShellModel) {
    match first_press(m.io.polls) {
        None => {},
        Some(p) => {
            keyboard::lemma_after_first_press_len(m.io.polls);
            let rest = after_first_press(m.io.polls);
            keyboard::lemma_consume_until_len(rest, SCAN_SPACE);
            keyboard::lemma_consume_until_len(rest, SCAN_ENTER);
        },
    }
}

/// The shell's state right after boot, before the first key: line zero,
/// an empty buffer, and the prompt drawn.
pub open spec fn start_model(
    console: Seq<Cell>,
    flags: BootFlags,
    kb: KeyboardState,
    polls: Seq<Poll>,
) -> ShellModel {
    ShellModel {
        line: 0,
        cmd: Seq::empty(),
        io: io_state(
            write_text_view(console, 0, 0, prompt_text(), Color::Green, Color::Black),
            flags,
            kb,
            polls,
        ),
    }
}

/// Run the shell: draw the first prompt, then block on the keyboard and
/// feed every decoded press through [`shell_step`] until the pending
/// reads run out — which, on real hardware, is never.
pub fn run_shell(
    console: &mut Console,
    flags: &mut BootFlags,
    kb: &mut KeyboardState,
    src: &mut PollSource,
)
    requires
        old(console).wf(),
    ensures
        final(console).wf(),
        final(src)@.len() == 0,
        ({
            let end = shell_run(start_model(old(console)@, *old(flags), *old(kb), old(src)@));
            final(console)@ == end.io.console && *final(flags) == end.io.flags && *final(kb)
                == end.io.kb
        }),
{
    animation::display_shell_prompt(console, 0);
    let mut line: usize = 0;
    let mut cmd: Vec<u8> = Vec::new();
    let ghost m0 = start_model(old(console)@, *old(flags), *old(kb), old(src)@);
    proof {
        assert(cmd@ =~= Seq::<u8>::empty());
    }
    loop
        invariant
            console.wf(),
            line < BUFFER_HEIGHT,
            cmd@.len() <= CMD_CAPACITY,
            m0 == start_model(old(console)@, *old(flags), *old(kb), old(src)@),
            shell_run(
                ShellModel { line: line as int, cmd: cmd@, io: io_state(console@, *flags, *kb, src@) },
            ) == shell_run(m0),
        decreases src@.len(),
    {
        let ghost m_pre = ShellModel {
            line: line as int,
            cmd: cmd@,
            io: io_state(console@, *flags, *kb, src@),
        };
        let key_opt = keyboard::wait_for_keypress(kb, src);
        match key_opt {
            None => {
                proof {
                    assert(first_press(m_pre.io.polls) is None);
                    assert(shell_run(m_pre) == ShellModel {
                        line: m_pre.line,
                        cmd: m_pre.cmd,
                        io: io_state(
                            m_pre.io.console,
                            m_pre.io.flags,
                            m_pre.io.kb,
                            Seq::empty(),
                        ),
                    });
                }
                return;
            },
            Some(key) => {
                let ghost m_mid = ShellModel {
                    line: line as int,
                    cmd: cmd@,
                    io: io_state(console@, *flags, *kb, src@),
                };
                proof {
                    keyboard::lemma_after_first_press_len(m_pre.io.polls);
                }
                if key == SCAN_ENTER {
                    process_command(cmd.as_slice(), console, flags, kb, src);
                    proof {
                        keyboard::lemma_consume_until_len(m_mid.io.polls, SCAN_SPACE);
                        keyboard::lemma_consume_until_len(m_mid.io.polls, SCAN_ENTER);
                    }
                    line = line + 1;
                    if line == BUFFER_HEIGHT {
                        line = 0;
                        console.clear();
                    }
                    animation::display_shell_prompt(console, line);
                    cmd.clear();
                    proof {
                        assert(cmd@ =~= Seq::<u8>::empty());
                        assert(ShellModel {
                            line: line as int,
                            cmd: cmd@,
                            io: io_state(console@, *flags, *kb, src@),
                        } == shell_step(m_mid, key));
                    }
                } else if key == SCAN_BACKSPACE && cmd.len() > 0 {
                    let newlen = cmd.len() - 1;
                    cmd.pop();
                    console.write_cell(line, CMD_COLUMN + newlen, ' ', Color::White, Color::Black);
                    proof {
                        assert(ShellModel {
                            line: line as int,
                            cmd: cmd@,
                            io: io_state(console@, *flags, *kb, src@),
                        } == shell_step(m_mid, key));
                    }
                } else {
                    let ch_opt = keyboard::scan_code_to_char(key);
                    match ch_opt {
                        Some(ch) => {
                            if cmd.len() < CMD_CAPACITY {
                                console.write_cell(
                                    line,
                                    CMD_COLUMN + cmd.len(),
                                    ch,
                                    Color::White,
                                    Color::Black,
                                );
                                cmd.push(ch as u8);
                            }
                        },
                        None => {},
                    }
                    proof {
                        assert(ShellModel {
                            line: line as int,
                            cmd: cmd@,
                            io: io_state(console@, *flags, *kb, src@),
                        } == shell_step(m_mid, key));
                    }
                }
            },
        }
    }
}

} // verus!
