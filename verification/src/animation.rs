//! The tick counter, the boot-time one-shot flags, and the splash screens.
//!
//! Process-wide state lives in value objects owned by the boot sequence:
//! a [`Timer`] driven by the outer loop, and [`BootFlags`] gating the
//! one-time welcome surface.

use crate::keyboard;
use crate::keyboard::{KeyboardState, PollSource, SCAN_SPACE};
use crate::vga_buffer;
use crate::vga_buffer::{Cell, Color, Console};
use vstd::prelude::*;

verus! {

/// The monotonically increasing tick counter, advanced once per pass of
/// the outer loop. Wraparound is never expected within a boot session.
#[derive(Debug, Clone, Copy, PartialEq, Eq, Structural)]
pub struct Timer {
    pub count: u64,
}

impl Timer {
    /// The counter at boot.
    pub fn new() -> (t: Timer)
        ensures
            t.count == 0,
    {
        Timer { count: 0 }
    }
}

/// Advance the tick counter by one, wrapping at the limit.
pub fn increment_timer(timer: &mut Timer)
    ensures
        final(timer).count == if old(timer).count == u64::MAX {
            0u64
        } else {
            (old(timer).count + 1) as u64
        },
{
    if timer.count == u64::MAX {
        timer.count = 0;
    } else {
        timer.count = timer.count + 1;
    }
}

/// Read the current tick count.
pub fn get_timer(timer: &Timer) -> (r: u64)
    ensures
        r == timer.count,
{
    timer.count
}

/// Busy-wait until `ms` ticks have elapsed since the call began. The
/// external tick source keeps firing while the processor spins; each
/// unsuccessful poll observes the tick that arrived during it, so the
/// counter advances by exactly `ms`.
pub fn sleep(timer: &mut Timer, ms: u64)
    requires
        old(timer).count + ms <= u64::MAX,
    ensures
        final(timer).count == old(timer).count + ms,
{
    let start = get_timer(timer);
    while timer.count - start < ms
        invariant
            start == old(timer).count,
            start + ms <= u64::MAX,
            start <= timer.count <= start + ms,
        decreases start + ms - timer.count,
    {
        increment_timer(timer);
    }
}

/// The one-shot flags that gate the welcome surface: whether it has been
/// shown this boot, whether it is bypassed outright, and how many times a
/// show has been attempted. When `bypass_welcome` is set the surface is
/// never drawn, whatever `welcome_shown` says.
#[derive(Debug, Clone, Copy, PartialEq, Eq, Structural)]
pub struct BootFlags {
    pub welcome_shown: bool,
    pub bypass_welcome: bool,
    pub attempt_count: u8,
}

impl BootFlags {
    /// The flags at boot: nothing shown, nothing bypassed.
    pub fn new() -> (f: BootFlags)
        ensures
            f == (BootFlags { welcome_shown: false, bypass_welcome: false, attempt_count: 0 }),
    {
        BootFlags { welcome_shown: false, bypass_welcome: false, attempt_count: 0 }
    }
}

/// Report whether the welcome surface has been shown this boot.
pub fn debug_welcome_flag(flags: &BootFlags) -> (r: bool)
    ensures
        r == flags.welcome_shown,
{
    flags.welcome_shown
}

/// Clear `welcome_shown` and `bypass_welcome`, so the next display call
/// draws the surface again. The attempt count is left as it is.
pub fn reset_welcome_screen(flags: &mut BootFlags)
    ensures
        *final(flags) == (BootFlags {
            welcome_shown: false,
            bypass_welcome: false,
            attempt_count: old(flags).attempt_count,
        }),
{
    flags.welcome_shown = false;
    flags.bypass_welcome = false;
}

/// Mark the welcome surface as both shown and bypassed, so no future
/// display call draws it, and restart the attempt count.
pub fn disable_welcome_screen(flags: &mut BootFlags)
    ensures
        *final(flags) == (BootFlags {
            welcome_shown: true,
            bypass_welcome: true,
            attempt_count: 0,
        }),
{
    flags.welcome_shown = true;
    flags.bypass_welcome = true;
    flags.attempt_count = 0;
}

/// How many character columns the logo spans at most.
pub const LOGO_WIDTH: usize = 49;

/// How many rows the logo spans.
pub const LOGO_HEIGHT: usize = 6;

/// The rows of the logo, top to bottom.
pub open spec fn logo_rows() -> Seq<Seq<char>> {
    seq![
        "   _____      _   _                ____   _____ "@,
        "  / ____|    | | | |              / __ \\ / ____|"@,
        " | |     ___ | |_| |_ ___  _ __  | |  | | (___  "@,
        " | |    / _ \\| __| __/ _ \\| '_ \\ | |  | |\\___ \\ "@,
        " | |___| (_) | |_| || (_) | | | || |__| |____) |"@,
        "  \\_____\\___/ \\__|\\__\\___/|_| |_| \\____/|_____/ "@,
    ]
}

/// The color each logo row is drawn in: brightest at the edges.
pub open spec fn logo_color(i: int) -> Color {
    if i == 0 || i == 5 {
        Color::LightCyan
    } else if i == 1 || i == 4 {
        Color::Cyan
    } else {
        Color::Blue
    }
}

/// One logo row laid onto the surface: each non-blank character lands in
/// its cell, blanks leave the cell as it was.
pub open spec fn logo_row_view(
    s: Seq<Cell>,
    row: int,
    col: int,
    text: Seq<char>,
    color: Color,
) -> Seq<Cell>
    decreases text.len(),
{
    if text.len() == 0 {
        s
    } else {
        let s1 = if text[0] == ' ' {
            s
        } else {
            vga_buffer::write_cell_view(
                s,
                row,
                col,
                Cell { ch: text[0], fg: color, bg: Color::Black },
            )
        };
        logo_row_view(s1, row, col + 1, text.skip(1), color)
    }
}

/// The first `k` logo rows laid onto the surface.
pub open spec fn logo_upto_view(s: Seq<Cell>, row: int, col: int, k: int) -> Seq<Cell>
    decreases k,
{
    if k <= 0 {
        s
    } else {
        logo_row_view(logo_upto_view(s, row, col, k - 1), row + (k - 1), col, logo_rows()[k - 1],
            logo_color(k - 1))
    }
}

/// The whole logo laid onto the surface with its top-left at `(row, col)`.
pub open spec fn logo_view(s: Seq<Cell>, row: int, col: int) -> Seq<Cell> {
    logo_upto_view(s, row, col, LOGO_HEIGHT as int)
}

/// The text of one logo row, with its length bounded for the caller.
fn logo_row_text(i: usize) -> (r: &'static str)
    requires
        i < LOGO_HEIGHT,
    ensures
        r@ == logo_rows()[i as int],
        r@.len() <= LOGO_WIDTH,
{
    let r: &'static str = match i {
        0 => "   _____      _   _                ____   _____ ",
        1 => "  / ____|    | | | |              / __ \\ / ____|",
        2 => " | |     ___ | |_| |_ ___  _ __  | |  | | (___  ",
        3 => " | |    / _ \\| __| __/ _ \\| '_ \\ | |  | |\\___ \\ ",
        4 => " | |___| (_) | |_| || (_) | | | || |__| |____) |",
        _ => "  \\_____\\___/ \\__|\\__\\___/|_| |_| \\____/|_____/ ",
    };
    proof {
        reveal_strlit("   _____      _   _                ____   _____ ");
        reveal_strlit("  / ____|    | | | |              / __ \\ / ____|");
        reveal_strlit(" | |     ___ | |_| |_ ___  _ __  | |  | | (___  ");
        reveal_strlit(" | |    / _ \\| __| __/ _ \\| '_ \\ | |  | |\\___ \\ ");
        reveal_strlit(" | |___| (_) | |_| || (_) | | | || |__| |____) |");
        reveal_strlit("  \\_____\\___/ \\__|\\__\\___/|_| |_| \\____/|_____/ ");
    }
    r
}

/// The color each logo row is drawn in.
fn logo_row_color(i: usize) -> (c: Color)
    requires
        i < LOGO_HEIGHT,
    ensures
        c == logo_color(i as int),
{
    if i == 0 || i == 5 {
        Color::LightCyan
    } else if i == 1 || i == 4 {
        Color::Cyan
    } else {
        Color::Blue
    }
}

/// Draw the logo with its top-left corner at `(start_row, start_col)`:
/// every non-blank character of its rows lands in its cell; blanks leave
/// the surface untouched.
pub fn draw_cotton_logo(console: &mut Console, start_row: usize, start_col: usize)
    requires
        old(console).wf(),
        start_row + LOGO_HEIGHT <= vga_buffer::BUFFER_HEIGHT,
        start_col + LOGO_WIDTH <= vga_buffer::BUFFER_WIDTH,
    ensures
        final(console).wf(),
        final(console)@ == logo_view(old(console)@, start_row as int, start_col as int),
{
    let mut i: usize = 0;
    while i < LOGO_HEIGHT
        invariant
            console.wf(),
            i <= LOGO_HEIGHT,
            start_row + LOGO_HEIGHT <= vga_buffer::BUFFER_HEIGHT,
            start_col + LOGO_WIDTH <= vga_buffer::BUFFER_WIDTH,
            console@ == logo_upto_view(old(console)@, start_row as int, start_col as int, i as int),
        decreases LOGO_HEIGHT - i,
    {
        let text = logo_row_text(i);
        let color = logo_row_color(i);
        let n = text.unicode_len();
        let mut j: usize = 0;
        proof {
            assert(text@.skip(0) =~= text@);
        }
        while j < n
            invariant
                console.wf(),
                j <= n,
                n == text@.len(),
                n <= LOGO_WIDTH,
                i < LOGO_HEIGHT,
                start_row + LOGO_HEIGHT <= vga_buffer::BUFFER_HEIGHT,
                start_col + LOGO_WIDTH <= vga_buffer::BUFFER_WIDTH,
                text@ == logo_rows()[i as int],
                color == logo_color(i as int),
                logo_row_view(console@, start_row + i as int, start_col + j as int,
                    text@.skip(j as int), color)
                    == logo_row_view(logo_upto_view(old(console)@, start_row as int,
                        start_col as int, i as int), start_row + i as int, start_col as int,
                        text@, color),
            decreases n - j,
        {
            let ch = text.get_char(j);
            if ch != ' ' {
                console.write_cell(start_row + i, start_col + j, ch, color, Color::Black);
            }
            proof {
                assert(text@.skip(j as int)[0] == ch);
                assert(text@.skip(j as int).skip(1) =~= text@.skip(j as int + 1));
            }
            j = j + 1;
        }
        i = i + 1;
    }
}

/// The splash surface: a cleared screen carrying the logo, the welcome
/// lines, the project address, and the start instruction.
pub open spec fn splash_view() -> Seq<Cell> {
    vga_buffer::write_text_view(
        vga_buffer::write_text_view(
            vga_buffer::write_text_view(
                vga_buffer::write_text_view(
                    logo_view(vga_buffer::cleared_view(), 5, 10),
                    12,
                    20,
                    "Welcome to CottonOS!"@,
                    Color::White,
                    Color::Black,
                ),
                13,
                20,
                "A Rust-based Operating System"@,
                Color::Yellow,
                Color::Black,
            ),
            16,
            10,
            "Contribute at: github.com/aryansrao/CottonOs"@,
            Color::LightGreen,
            Color::Black,
        ),
        19,
        20,
        "Press SPACE to start the shell..."@,
        Color::White,
        Color::Black,
    )
}

/// Clear the surface and draw the splash.
fn draw_splash(console: &mut Console)
    requires
        old(console).wf(),
    ensures
        final(console).wf(),
        final(console)@ == splash_view(),
{
    proof {
        reveal_strlit("Welcome to CottonOS!");
        reveal_strlit("A Rust-based Operating System");
        reveal_strlit("Contribute at: github.com/aryansrao/CottonOs");
        reveal_strlit("Press SPACE to start the shell...");
    }
    console.clear();
    draw_cotton_logo(console, 5, 10);
    console.write_text(12, 20, "Welcome to CottonOS!", Color::White, Color::Black);
    console.write_text(13, 20, "A Rust-based Operating System", Color::Yellow, Color::Black);
    console.write_text(
        16,
        10,
        "Contribute at: github.com/aryansrao/CottonOs",
        Color::LightGreen,
        Color::Black,
    );
    console.write_text(19, 20, "Press SPACE to start the shell...", Color::White, Color::Black);
}

/// Show the welcome surface once per boot: skipped outright when bypassed
/// or already shown; on the second or later attempt the shown flag is
/// forced and nothing is drawn; otherwise the splash is drawn and the call
/// blocks until the space key is pressed, then marks the surface shown.
pub fn display_welcome_screen(
    flags: &mut BootFlags,
    console: &mut Console,
    kb: &mut KeyboardState,
    src: &mut PollSource,
)
    requires
        old(console).wf(),
        old(flags).attempt_count < u8::MAX,
    ensures
        final(console).wf(),
        old(flags).bypass_welcome ==> *final(flags) == *old(flags) && final(console)@ == old(
            console,
        )@ && *final(kb) == *old(kb) && final(src)@ == old(src)@,
        !old(flags).bypass_welcome && old(flags).welcome_shown ==> *final(flags) == *old(flags)
            && final(console)@ == old(console)@ && *final(kb) == *old(kb) && final(src)@ == old(
            src,
        )@,
        !old(flags).bypass_welcome && !old(flags).welcome_shown && old(flags).attempt_count >= 1
            ==> *final(flags) == (BootFlags {
            welcome_shown: true,
            bypass_welcome: false,
            attempt_count: (old(flags).attempt_count + 1) as u8,
        }) && final(console)@ == old(console)@ && *final(kb) == *old(kb) && final(src)@ == old(
            src,
        )@,
        !old(flags).bypass_welcome && !old(flags).welcome_shown && old(flags).attempt_count == 0
            ==> *final(flags) == (BootFlags {
            welcome_shown: keyboard::press_of_found(old(src)@, SCAN_SPACE),
            bypass_welcome: false,
            attempt_count: 1,
        }) && final(console)@ == splash_view() && final(src)@ == keyboard::consume_until_press(
            old(src)@,
            SCAN_SPACE,
        ) && *final(kb) == keyboard::drained_state(*old(kb), old(src)@, SCAN_SPACE),
{
    if flags.bypass_welcome {
        return;
    }
    if flags.welcome_shown {
        return;
    }
    flags.attempt_count = flags.attempt_count + 1;
    if flags.attempt_count > 1 {
        flags.welcome_shown = true;
        return;
    }
    draw_splash(console);
    let found = keyboard::wait_until_press(kb, src, SCAN_SPACE);
    if found {
        flags.welcome_shown = true;
    }
}

/// Show the welcome surface unconditionally: every flag is reset, the
/// splash is drawn, and the call blocks until the space key is pressed,
/// then marks the surface shown.
pub fn force_welcome_screen(
    flags: &mut BootFlags,
    console: &mut Console,
    kb: &mut KeyboardState,
    src: &mut PollSource,
)
    requires
        old(console).wf(),
    ensures
        final(console).wf(),
        *final(flags) == (BootFlags {
            welcome_shown: keyboard::press_of_found(old(src)@, SCAN_SPACE),
            bypass_welcome: false,
            attempt_count: 0,
        }),
        final(console)@ == splash_view(),
        final(src)@ == keyboard::consume_until_press(old(src)@, SCAN_SPACE),
        *final(kb) == keyboard::drained_state(*old(kb), old(src)@, SCAN_SPACE),
{
    flags.welcome_shown = false;
    flags.bypass_welcome = false;
    flags.attempt_count = 0;
    draw_splash(console);
    let found = keyboard::wait_until_press(kb, src, SCAN_SPACE);
    if found {
        flags.welcome_shown = true;
    }
}

/// The shell prompt text.
pub open spec fn prompt_text() -> Seq<char> {
    "cottonos> "@
}

/// Draw the shell prompt at the start of `line`.
pub fn display_shell_prompt(console: &mut Console, line: usize)
    requires
        old(console).wf(),
        line < vga_buffer::BUFFER_HEIGHT,
    ensures
        final(console).wf(),
        final(console)@ == vga_buffer::write_text_view(
            old(console)@,
            line as int,
            0,
            prompt_text(),
            Color::Green,
            Color::Black,
        ),
{
    proof {
        reveal_strlit("cottonos> ");
    }
    console.write_text(line, 0, "cottonos> ", Color::Green, Color::Black);
}

/// Block until the next press-class scan code and return it.
pub fn wait_for_keypress(kb: &mut KeyboardState, src: &mut PollSource) -> (r: Option<u8>)
    ensures
        r matches Some(c) ==> c < 0x80,
        match keyboard::first_press(old(src)@) {
            Some(p) => r == Some(p.data) && final(src)@ == keyboard::after_first_press(old(src)@)
                && *final(kb) == (KeyboardState { last_scan_code: p.data, key_pressed: true }),
            None => r is None && final(src)@.len() == 0 && *final(kb) == *old(kb),
        },
{
    keyboard::wait_for_keypress(kb, src)
}

} // verus!
