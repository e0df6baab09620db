//! A small cooperative, interrupt-free kernel core: a character-cell console
//! surface, a polling keyboard decoder, a boot-time bump allocator, a device
//! registry, and the command shell that ties them together.
//!
//! All hardware access (port reads and writes, the video memory itself) is
//! left to the embedding program; this crate holds the state and the rules,
//! stated over plain values and proved.

pub mod animation;
pub mod devices;
pub mod keyboard;
pub mod shell;
pub mod vga_buffer;

use vstd::prelude::*;

verus! {

/// Capacity of the fixed boot-time heap region, in bytes. Sized to the
/// known maximum concurrent allocation set; it is never grown.
pub const HEAP_SIZE: usize = 8192;

/// The cursor rounded up to the next multiple of `align`.
pub open spec fn align_up(pos: int, align: int) -> int
    recommends
        align >= 1,
{
    let r = pos % align;
    if r == 0 {
        pos
    } else {
        pos + align - r
    }
}

/// The boot-time bump allocator: a single cursor into a fixed region.
/// Memory is handed out as offsets into the region — the embedding
/// program adds the region's base address — and is never reclaimed:
/// deallocation is a no-op by design.
pub struct BumpAllocator {
    next_free: usize,
}

impl BumpAllocator {
    /// The cursor never runs past the end of the region.
    #[verifier::type_invariant]
    spec fn inv(&self) -> bool {
        self.next_free <= HEAP_SIZE
    }

    /// How many bytes of the region have been passed over so far.
    pub closed spec fn cursor(&self) -> int {
        self.next_free as int
    }

    /// A fresh allocator over an untouched region.
    pub fn new() -> (a: BumpAllocator)
        ensures
            a.cursor() == 0,
    {
        BumpAllocator { next_free: 0 }
    }

    /// Allocate `size` bytes at alignment `align`: round the cursor up to
    /// the alignment and take the next `size` bytes. Reports exhaustion —
    /// fatal for the caller, since nothing is ever freed — exactly when
    /// the rounded cursor plus `size` would run past the region.
    pub fn allocate(&mut self, size: usize, align: usize) -> (r: Option<usize>)
        requires
            align >= 1,
        ensures
            align_up(old(self).cursor(), align as int) + size <= HEAP_SIZE ==> r == Some(
                align_up(old(self).cursor(), align as int) as usize,
            ) && final(self).cursor() == align_up(old(self).cursor(), align as int) + size,
            align_up(old(self).cursor(), align as int) + size > HEAP_SIZE ==> r is None
                && final(self).cursor() == old(self).cursor(),
            r matches Some(off) ==> off % align == 0 && off + size <= HEAP_SIZE && off
                >= old(self).cursor(),
    {
        proof {
            use_type_invariant(&*self);
        }
        let start = self.next_free;
        let rem = start % align;
        let aligned: usize = if rem == 0 {
            start
        } else {
            let pad = align - rem;
            if pad > HEAP_SIZE - start {
                return None;
            }
            start + pad
        };
        if size > HEAP_SIZE - aligned {
            return None;
        }
        proof {
            let p = start as int;
            let a = align as int;
            let r = rem as int;
            if r != 0 {
                assert((p + a - r) % a == 0) by (nonlinear_arith)
                    requires
                        r == p % a,
                        1 <= a,
                        0 <= p,
                        r != 0,
                ;
            }
        }
        self.next_free = aligned + size;
        Some(aligned)
    }

    /// Deallocation is a no-op: freed memory is never reclaimed. This is
    /// acceptable only because the system's total dynamic allocation is
    /// bounded and small.
    pub fn deallocate(&mut self)
        ensures
            final(self).cursor() == old(self).cursor(),
    {
    }
}

/// A runnable self-test. The embedding program implements this for its
/// test closures and drives them through its own runner.
pub trait Testable {
    fn run(&self);
}

/// Report whether the welcome surface has been shown this boot.
pub fn debug_status(flags: &animation::BootFlags) -> (r: bool)
    ensures
        r == flags.welcome_shown,
{
    animation::debug_welcome_flag(flags)
}

/// Outcome reported to the hosting emulator when a test run finishes.
#[derive(Debug, Clone, Copy, PartialEq, Eq, Structural)]
pub enum QemuExitCode {
    Success,
    Failed,
}

/// The value written to the emulator's exit port for each outcome.
pub fn exit_code_value(code: QemuExitCode) -> (r: u32)
    ensures
        code == QemuExitCode::Success ==> r == 0x10,
        code == QemuExitCode::Failed ==> r == 0x11,
{
    match code {
        QemuExitCode::Success => 0x10,
        QemuExitCode::Failed => 0x11,
    }
}

} // verus!
