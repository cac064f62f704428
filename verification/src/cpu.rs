//! The CPU execution unit's guest-visible state and memory-callback surface.
//!
//! The recompiler engine that actually translates and runs guest code is an
//! opaque external component. It is kept from ever touching host memory by a
//! narrow callback contract: the only way it may access guest memory is
//! through the fixed-width entry points below, one read and one write per
//! access width in {8, 16, 32, 64} bits, each taking the address space and a
//! 32-bit guest address. Every entry point funnels into the typed access
//! layer, so the engine gets bounds-checked arena access and nothing else.
//! An out-of-bounds address arriving here is a fatal condition of the
//! embedding, not a guest-visible fault, so the entry points demand
//! in-bounds ranges outright.
//!
//! The register file the engine and its embedder exchange values through is
//! modeled here as well; driving the engine's run loop needs the engine
//! instance itself and stands outside this core.

use vstd::prelude::*;

use crate::bytes::{GuestBytes, SafeRead};
use crate::mem::Memory;
use crate::ptr::{ConstPtr, MutPtr};

verus! {

/// Number of general-purpose registers in the guest register file.
pub const NUM_REGS: usize = 16;

/// The CPU execution unit's guest-visible state: an ordered file of 16
/// 32-bit registers. Mutating it between runs is how an embedder seeds
/// arguments or a program counter and reads results back out.
pub struct Cpu {
    /// The register file, index = register number.
    pub regs: [u32; 16],
}

impl Cpu {
    /// A fresh unit with every register zeroed.
    pub fn new() -> (r: Cpu)
        ensures
            forall|i: int| 0 <= i < 16 ==> r.regs@[i] == 0,
    {
        Cpu { regs: [0u32; 16] }
    }

    /// Read view of the register file.
    pub fn regs(&self) -> (r: &[u32; 16])
        ensures
            r@ == self.regs@,
    {
        &self.regs
    }

    /// Mutable view of the register file, for seeding arguments or reading
    /// results between runs; exclusive borrowing keeps it from overlapping
    /// an execution.
    pub fn regs_mut(&mut self) -> (r: &mut [u32; 16])
        ensures
            r@ == old(self).regs@,
            final(self).regs@ == final(r)@,
    {
        &mut self.regs
    }
}

/// Generic body of the read callbacks: a typed read at a raw guest address.
pub fn cpu_read<T: SafeRead>(mem: &Memory, addr: u32) -> (r: T)
    requires
        mem.wf(),
        addr + T::gsize_spec() <= mem@.len(),
    ensures
        r == T::of_bytes(mem@.subrange(addr as int, addr + T::gsize_spec())),
{
    let ptr: ConstPtr<T> = ConstPtr::from_bits(addr);
    mem.read(ptr)
}

/// Generic body of the write callbacks: a typed write at a raw guest
/// address.
pub fn cpu_write<T: GuestBytes>(mem: &mut Memory, addr: u32, value: T)
    requires
        old(mem).wf(),
        addr + T::gsize_spec() <= old(mem)@.len(),
    ensures
        final(mem).wf(),
        final(mem)@.len() == old(mem)@.len(),
        final(mem).alloc_next == old(mem).alloc_next,
        final(mem)@.subrange(addr as int, addr + T::gsize_spec()) == value.as_bytes(),
        forall|j: int|
            0 <= j < old(mem)@.len() && !(addr <= j < addr + T::gsize_spec()) ==> final(mem)@[j]
                == old(mem)@[j],
{
    let ptr: MutPtr<T> = MutPtr::from_bits(addr);
    mem.write(ptr, value)
}

/// 8-bit read callback.
pub fn cpu_read_u8(mem: &Memory, addr: u32) -> (r: u8)
    requires
        mem.wf(),
        addr + 1 <= mem@.len(),
    ensures
        r == u8::of_bytes(mem@.subrange(addr as int, addr + 1)),
{
    cpu_read(mem, addr)
}

/// 16-bit read callback.
pub fn cpu_read_u16(mem: &Memory, addr: u32) -> (r: u16)
    requires
        mem.wf(),
        addr + 2 <= mem@.len(),
    ensures
        r == u16::of_bytes(mem@.subrange(addr as int, addr + 2)),
{
    cpu_read(mem, addr)
}

/// 32-bit read callback.
pub fn cpu_read_u32(mem: &Memory, addr: u32) -> (r: u32)
    requires
        mem.wf(),
        addr + 4 <= mem@.len(),
    ensures
        r == u32::of_bytes(mem@.subrange(addr as int, addr + 4)),
{
    cpu_read(mem, addr)
}

/// 64-bit read callback.
pub fn cpu_read_u64(mem: &Memory, addr: u32) -> (r: u64)
    requires
        mem.wf(),
        addr + 8 <= mem@.len(),
    ensures
        r == u64::of_bytes(mem@.subrange(addr as int, addr + 8)),
{
    cpu_read(mem, addr)
}

/// 8-bit write callback.
pub fn cpu_write_u8(mem: &mut Memory, addr: u32, value: u8)
    requires
        old(mem).wf(),
        addr + 1 <= old(mem)@.len(),
    ensures
        final(mem).wf(),
        final(mem)@.len() == old(mem)@.len(),
        final(mem).alloc_next == old(mem).alloc_next,
        final(mem)@.subrange(addr as int, addr + 1) == value.as_bytes(),
        forall|j: int|
            0 <= j < old(mem)@.len() && !(addr <= j < addr + 1) ==> final(mem)@[j] == old(
                mem,
            )@[j],
{
    cpu_write(mem, addr, value)
}

/// 16-bit write callback.
pub fn cpu_write_u16(mem: &mut Memory, addr: u32, value: u16)
    requires
        old(mem).wf(),
        addr + 2 <= old(mem)@.len(),
    ensures
        final(mem).wf(),
        final(mem)@.len() == old(mem)@.len(),
        final(mem).alloc_next == old(mem).alloc_next,
        final(mem)@.subrange(addr as int, addr + 2) == value.as_bytes(),
        forall|j: int|
            0 <= j < old(mem)@.len() && !(addr <= j < addr + 2) ==> final(mem)@[j] == old(
                mem,
            )@[j],
{
    cpu_write(mem, addr, value)
}

/// 32-bit write callback.
pub fn cpu_write_u32(mem: &mut Memory, addr: u32, value: u32)
    requires
        old(mem).wf(),
        addr + 4 <= old(mem)@.len(),
    ensures
        final(mem).wf(),
        final(mem)@.len() == old(mem)@.len(),
        final(mem).alloc_next == old(mem).alloc_next,
        final(mem)@.subrange(addr as int, addr + 4) == value.as_bytes(),
        forall|j: int|
            0 <= j < old(mem)@.len() && !(addr <= j < addr + 4) ==> final(mem)@[j] == old(
                mem,
            )@[j],
{
    cpu_write(mem, addr, value)
}

/// 64-bit write callback.
pub fn cpu_write_u64(mem: &mut Memory, addr: u32, value: u64)
    requires
        old(mem).wf(),
        addr + 8 <= old(mem)@.len(),
    ensures
        final(mem).wf(),
        final(mem)@.len() == old(mem)@.len(),
        final(mem).alloc_next == old(mem).alloc_next,
        final(mem)@.subrange(addr as int, addr + 8) == value.as_bytes(),
        forall|j: int|
            0 <= j < old(mem)@.len() && !(addr <= j < addr + 8) ==> final(mem)@[j] == old(
                mem,
            )@[j],
{
    cpu_write(mem, addr, value)
}

} // verus!
