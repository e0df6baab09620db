//! The polling keyboard decoder.
//!
//! The hardware is two registers: a status port and a data port. The
//! embedding program reads them and hands the raw bytes in as [`Poll`]
//! values; a [`PollSource`] is the sequence of reads one spin observes,
//! in order. A scan code below `0x80` is a key press; anything else is a
//! release and is discarded.

use vstd::prelude::*;

verus! {

pub const SCAN_ESC: u8 = 0x01;

pub const SCAN_ENTER: u8 = 0x1C;

pub const SCAN_SPACE: u8 = 0x39;

pub const SCAN_BACKSPACE: u8 = 0x0E;

pub const SCAN_UP: u8 = 0x48;

pub const SCAN_DOWN: u8 = 0x50;

pub const SCAN_LEFT: u8 = 0x4B;

pub const SCAN_RIGHT: u8 = 0x4D;

/// One read of the controller: the status register byte and the data
/// register byte that a read of the data port would return.
#[derive(Debug, Clone, Copy, PartialEq, Eq, Structural)]
pub struct Poll {
    pub status: u8,
    pub data: u8,
}

/// The status byte reports a pending keyboard byte when bit 0 (output
/// buffer full) is set and bit 5 (auxiliary source) is clear.
pub open spec fn status_reports_key(status: u8) -> bool {
    status & 0x01 != 0 && status & 0x20 == 0
}

/// A poll that delivers a press-class scan code from the keyboard.
pub open spec fn is_press(p: Poll) -> bool {
    status_reports_key(p.status) && p.data < 0x80
}

/// The first press-class poll in a sequence of reads, if any.
pub open spec fn first_press(s: Seq<Poll>) -> Option<Poll>
    decreases s.len(),
{
    if s.len() == 0 {
        None
    } else if is_press(s[0]) {
        Some(s[0])
    } else {
        first_press(s.skip(1))
    }
}

/// What is left of the sequence once the first press-class poll has been
/// consumed; empty if there is none.
pub open spec fn after_first_press(s: Seq<Poll>) -> Seq<Poll>
    decreases s.len(),
{
    if s.len() == 0 {
        s
    } else if is_press(s[0]) {
        s.skip(1)
    } else {
        after_first_press(s.skip(1))
    }
}

/// Whether draining presses one by one eventually yields a press of
/// exactly `code`.
pub open spec fn press_of_found(s: Seq<Poll>, code: u8) -> bool
    decreases s.len(),
{
    if s.len() == 0 {
        false
    } else if is_press(s[0]) && s[0].data == code {
        true
    } else if is_press(s[0]) {
        press_of_found(s.skip(1), code)
    } else {
        press_of_found(s.skip(1), code)
    }
}

/// What is left of the sequence after draining presses until one of
/// exactly `code` has been consumed; empty if none occurs.
pub open spec fn consume_until_press(s: Seq<Poll>, code: u8) -> Seq<Poll>
    decreases s.len(),
{
    if s.len() == 0 {
        s
    } else if is_press(s[0]) && s[0].data == code {
        s.skip(1)
    } else {
        consume_until_press(s.skip(1), code)
    }
}

/// The decoder's cached bytes: the last scan code read from the data port
/// and whether a press has been seen.
#[derive(Debug, Clone, Copy, PartialEq, Eq, Structural)]
pub struct KeyboardState {
    pub last_scan_code: u8,
    pub key_pressed: bool,
}

/// The decoder state after draining a sequence of reads until a press of
/// `code`: every press seen on the way is recorded as it goes by.
pub open spec fn drained_state(kb: KeyboardState, s: Seq<Poll>, code: u8) -> KeyboardState
    decreases s.len(),
{
    if s.len() == 0 {
        kb
    } else if is_press(s[0]) && s[0].data == code {
        KeyboardState { last_scan_code: code, key_pressed: true }
    } else if is_press(s[0]) {
        drained_state(
            KeyboardState { last_scan_code: s[0].data, key_pressed: true },
            s.skip(1),
            code,
        )
    } else {
        drained_state(kb, s.skip(1), code)
    }
}

impl KeyboardState {
    /// The state at boot: nothing read yet.
    pub fn new() -> (kb: KeyboardState)
        ensures
            kb == (KeyboardState { last_scan_code: 0, key_pressed: false }),
    {
        KeyboardState { last_scan_code: 0, key_pressed: false }
    }
}

/// The ordered sequence of controller reads that the polling loop will
/// observe. The embedding program performs the port reads; in-process the
/// source is a plain queue consumed from the front.
pub struct PollSource {
    events: Vec<Poll>,
    pos: usize,
}

impl View for PollSource {
    type V = Seq<Poll>;

    closed spec fn view(&self) -> Seq<Poll> {
        self.events@.skip(self.pos as int)
    }
}

impl PollSource {
    /// The cursor never runs past the end of the recorded reads.
    #[verifier::type_invariant]
    spec fn inv(&self) -> bool {
        self.pos <= self.events@.len()
    }

    /// A source that will deliver exactly `events`, in order.
    pub fn new(events: Vec<Poll>) -> (src: PollSource)
        ensures
            src@ == events@,
    {
        let src = PollSource { events, pos: 0 };
        proof {
            assert(src@ =~= src.events@);
        }
        src
    }

    /// How many reads are still pending.
    pub fn remaining(&self) -> (n: usize)
        ensures
            n == self@.len(),
    {
        proof {
            use_type_invariant(self);
        }
        self.events.len() - self.pos
    }

    /// Take the next read off the front, if one is pending.
    pub fn next(&mut self) -> (r: Option<Poll>)
        ensures
            old(self)@.len() == 0 ==> r is None && final(self)@ == old(self)@,
            old(self)@.len() > 0 ==> r == Some(old(self)@[0]) && final(self)@ == old(self)@.skip(1),
    {
        proof {
            use_type_invariant(&*self);
        }
        if self.pos < self.events.len() {
            let p = self.events[self.pos];
            self.pos = self.pos + 1;
            proof {
                assert(final(self)@ =~= old(self)@.skip(1));
            }
            Some(p)
        } else {
            None
        }
    }
}

/// Reserved for future controller setup; the polled protocol needs none.
pub fn init() {
}

/// Whether a status byte reports a pending byte from the primary
/// keyboard channel: output buffer full and not from the auxiliary device.
pub fn is_key_available(status: u8) -> (r: bool)
    ensures
        r == status_reports_key(status),
{
    if status & 1 == 0 {
        return false;
    }
    if status & 0x20 != 0 {
        return false;
    }
    true
}

/// Spin over the source until a press-class scan code arrives, discarding
/// releases and empty polls; record the press. Returns `None` only when the
/// source is exhausted, which stands for a wait that never ends.
pub fn wait_for_keypress(kb: &mut KeyboardState, src: &mut PollSource) -> (r: Option<u8>)
    ensures
        r matches Some(c) ==> c < 0x80,
        match first_press(old(src)@) {
            Some(p) => r == Some(p.data) && final(src)@ == after_first_press(old(src)@)
                && *final(kb) == (KeyboardState { last_scan_code: p.data, key_pressed: true }),
            None => r is None && final(src)@.len() == 0 && *final(kb) == *old(kb),
        },
{
    loop
        invariant
            first_press(src@) == first_press(old(src)@),
            first_press(old(src)@) is Some ==> after_first_press(src@) == after_first_press(
                old(src)@,
            ),
            *kb == *old(kb),
        decreases src@.len(),
    {
        let next = src.next();
        match next {
            None => {
                return None;
            },
            Some(p) => {
                let status_ok = is_key_available(p.status);
                if status_ok && p.data < 0x80 {
                    kb.last_scan_code = p.data;
                    kb.key_pressed = true;
                    return Some(p.data);
                }
            },
        }
    }
}

/// Consuming the first press makes the pending sequence strictly shorter.
pub proof fn lemma_after_first_press_len(s: Seq<Poll>)
    requires
        first_press(s) is Some,
    ensures
        after_first_press(s).len() < s.len(),
    decreases s.len(),
{
    if s.len() == 0 {
    } else if is_press(s[0]) {
    } else {
        lemma_after_first_press_len(s.skip(1));
    }
}

/// Draining never makes the pending sequence longer.
pub proof fn lemma_consume_until_len(s: Seq<Poll>, code: u8)
    ensures
        consume_until_press(s, code).len() <= s.len(),
    decreases s.len(),
{
    if s.len() == 0 {
    } else if is_press(s[0]) && s[0].data == code {
    } else {
        lemma_consume_until_len(s.skip(1), code);
    }
}

proof fn lemma_drain_none(s: Seq<Poll>, code: u8, kb: KeyboardState)
    requires
        first_press(s) is None,
    ensures
        consume_until_press(s, code).len() == 0,
        !press_of_found(s, code),
        drained_state(kb, s, code) == kb,
    decreases s.len(),
{
    if s.len() == 0 {
    } else {
        lemma_drain_none(s.skip(1), code, kb);
    }
}

proof fn lemma_drain_found(s: Seq<Poll>, code: u8, kb: KeyboardState)
    requires
        first_press(s) matches Some(p) && p.data == code,
    ensures
        consume_until_press(s, code) == after_first_press(s),
        press_of_found(s, code),
        drained_state(kb, s, code) == (KeyboardState { last_scan_code: code, key_pressed: true }),
    decreases s.len(),
{
    if s.len() == 0 {
    } else if is_press(s[0]) {
    } else {
        lemma_drain_found(s.skip(1), code, kb);
    }
}

proof fn lemma_drain_skip(s: Seq<Poll>, code: u8, kb: KeyboardState)
    requires
        first_press(s) matches Some(p) && p.data != code,
    ensures
        consume_until_press(after_first_press(s), code) == consume_until_press(s, code),
        press_of_found(after_first_press(s), code) == press_of_found(s, code),
        drained_state(
            KeyboardState { last_scan_code: first_press(s)->Some_0.data, key_pressed: true },
            after_first_press(s),
            code,
        ) == drained_state(kb, s, code),
    decreases s.len(),
{
    if s.len() == 0 {
    } else if is_press(s[0]) {
    } else {
        lemma_drain_skip(s.skip(1), code, kb);
    }
}

/// Spin until a press of exactly `code` arrives, discarding every other
/// press on the way (each still recorded by the decoder). Returns whether
/// the press was seen; `false` stands for a wait that never ends.
pub fn wait_until_press(kb: &mut KeyboardState, src: &mut PollSource, code: u8) -> (found: bool)
    ensures
        found == press_of_found(old(src)@, code),
        final(src)@ == consume_until_press(old(src)@, code),
        *final(kb) == drained_state(*old(kb), old(src)@, code),
{
    loop
        invariant
            consume_until_press(src@, code) == consume_until_press(old(src)@, code),
            press_of_found(src@, code) == press_of_found(old(src)@, code),
            drained_state(*kb, src@, code) == drained_state(*old(kb), old(src)@, code),
        decreases src@.len(),
    {
        let ghost prev = src@;
        let ghost kb0 = *kb;
        let r = wait_for_keypress(kb, src);
        match r {
            None => {
                proof {
                    lemma_drain_none(prev, code, kb0);
                    assert(consume_until_press(src@, code) =~= src@);
                    assert(consume_until_press(prev, code) =~= src@);
                }
                return false;
            },
            Some(k) => {
                if k == code {
                    proof {
                        lemma_drain_found(prev, code, kb0);
                    }
                    return true;
                }
                proof {
                    lemma_drain_skip(prev, code, kb0);
                    lemma_after_first_press_len(prev);
                }
            },
        }
    }
}

/// One non-blocking poll: given the status byte and the data byte behind
/// it, record the scan code when the status reports one, and report
/// whether it was a press.
pub fn check_for_keypress(kb: &mut KeyboardState, poll: Poll) -> (r: bool)
    ensures
        r == is_press(poll),
        !status_reports_key(poll.status) ==> *final(kb) == *old(kb),
        status_reports_key(poll.status) ==> final(kb).last_scan_code == poll.data
            && final(kb).key_pressed == (old(kb).key_pressed || poll.data < 0x80),
{
    if is_key_available(poll.status) {
        kb.last_scan_code = poll.data;
        if poll.data < 0x80 {
            kb.key_pressed = true;
            return true;
        }
    }
    false
}

/// The last scan code the decoder read from the data port.
pub fn get_last_scan_code(kb: &KeyboardState) -> (r: u8)
    ensures
        r == kb.last_scan_code,
{
    kb.last_scan_code
}

/// The decode table: the restricted set of press codes with a printable
/// meaning (letters, digits, space, enter); everything else, including
/// every release, modifier, function and arrow code, has none.
pub open spec fn spec_char_of(scan_code: u8) -> Option<char> {
    match scan_code {
        0x1E => Some('a'),
        0x30 => Some('b'),
        0x2E => Some('c'),
        0x20 => Some('d'),
        0x12 => Some('e'),
        0x21 => Some('f'),
        0x22 => Some('g'),
        0x23 => Some('h'),
        0x17 => Some('i'),
        0x24 => Some('j'),
        0x25 => Some('k'),
        0x26 => Some('l'),
        0x32 => Some('m'),
        0x31 => Some('n'),
        0x18 => Some('o'),
        0x19 => Some('p'),
        0x10 => Some('q'),
        0x13 => Some('r'),
        0x1F => Some('s'),
        0x14 => Some('t'),
        0x16 => Some('u'),
        0x2F => Some('v'),
        0x11 => Some('w'),
        0x2D => Some('x'),
        0x15 => Some('y'),
        0x2C => Some('z'),
        0x02 => Some('1'),
        0x03 => Some('2'),
        0x04 => Some('3'),
        0x05 => Some('4'),
        0x06 => Some('5'),
        0x07 => Some('6'),
        0x08 => Some('7'),
        0x09 => Some('8'),
        0x0A => Some('9'),
        0x0B => Some('0'),
        0x39 => Some(' '),
        0x1C => Some('\n'),
        _ => None,
    }
}

/// Map a scan code through the decode table.
pub fn scan_code_to_char(scan_code: u8) -> (r: Option<char>)
    ensures
        r == spec_char_of(scan_code),
{
    match scan_code {
        0x1E => Some('a'),
        0x30 => Some('b'),
        0x2E => Some('c'),
        0x20 => Some('d'),
        0x12 => Some('e'),
        0x21 => Some('f'),
        0x22 => Some('g'),
        0x23 => Some('h'),
        0x17 => Some('i'),
        0x24 => Some('j'),
        0x25 => Some('k'),
        0x26 => Some('l'),
        0x32 => Some('m'),
        0x31 => Some('n'),
        0x18 => Some('o'),
        0x19 => Some('p'),
        0x10 => Some('q'),
        0x13 => Some('r'),
        0x1F => Some('s'),
        0x14 => Some('t'),
        0x16 => Some('u'),
        0x2F => Some('v'),
        0x11 => Some('w'),
        0x2D => Some('x'),
        0x15 => Some('y'),
        0x2C => Some('z'),
        0x02 => Some('1'),
        0x03 => Some('2'),
        0x04 => Some('3'),
        0x05 => Some('4'),
        0x06 => Some('5'),
        0x07 => Some('6'),
        0x08 => Some('7'),
        0x09 => Some('8'),
        0x0A => Some('9'),
        0x0B => Some('0'),
        0x39 => Some(' '),
        0x1C => Some('\n'),
        _ => None,
    }
}

} // verus!
