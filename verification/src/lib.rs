//! Guest/host memory bridge for a user-mode emulator.
//!
//! The crate models a flat 32-bit guest address space, a typed access layer
//! over it, the register file of the emulated CPU together with the
//! fixed-width memory callbacks the recompiler engine uses, and the
//! marshalling pattern by which host stand-ins for guest library routines
//! (buffered file I/O as the exemplar) read and write guest memory.

use crate::mem::Memory;
use vstd::prelude::*;

pub mod bytes;
pub mod cpu;
pub mod mem;
pub mod ptr;
pub mod stdio;

verus! {

/// The whole emulation environment a host stand-in for a guest library
/// routine receives: the CPU execution unit's state, the guest address
/// space, and the per-library host-side state.
pub struct Environment {
    /// The CPU execution unit's guest-visible state.
    pub cpu: cpu::Cpu,
    /// The guest address space.
    pub mem: Memory,
    /// Host-side state of the buffered file I/O family.
    pub stdio: stdio::State,
}

impl Environment {
    /// Well-formedness: the arena is well-formed, and every open handle is a
    /// non-null guest address that the allocator has already handed out —
    /// so a handle the opening call returns next is always fresh.
    pub open spec fn wf(self) -> bool {
        &&& self.mem.wf()
        &&& forall|h: u32| self.stdio.files@.contains_key(h) ==> 0 < h < self.mem.alloc_next
    }

    /// A fresh environment: zeroed registers, a zeroed arena of `mem_len`
    /// bytes allocating from `alloc_base` up, and an empty handle table.
    pub fn new(mem_len: u32, alloc_base: u32) -> (r: Environment)
        requires
            1 <= alloc_base <= mem_len,
        ensures
            r.wf(),
            r.mem@.len() == mem_len,
            r.mem.alloc_next == alloc_base,
            forall|j: int| 0 <= j < mem_len ==> r.mem@[j] == 0,
            r.stdio.files@ == Map::<u32, u64>::empty(),
            forall|i: int| 0 <= i < 16 ==> r.cpu.regs@[i] == 0,
    {
        Environment {
            cpu: cpu::Cpu::new(),
            mem: Memory::new(mem_len, alloc_base),
            stdio: stdio::State::new(),
        }
    }
}

} // verus!
