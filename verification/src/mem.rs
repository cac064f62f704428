//! The guest address space and the typed access layer over it.
//!
//! One contiguous host-owned byte arena stands for the guest's flat 32-bit
//! address range. Every access anybody makes — the recompiler engine through
//! its callbacks, or a host stand-in for a guest library routine — is
//! funneled through the bounds-checked primitives here; no other path to the
//! arena's bytes exists. An address is valid exactly when the whole byte
//! range of the access lies within `[0, arena length)`; out-of-range
//! accesses fail, they never clamp.

use vstd::prelude::*;

use crate::bytes::{GuestBytes, SafeRead};
use crate::ptr::{ConstPtr, MutPtr};

verus! {

/// The guest address space: a byte arena plus a bump mark for the
/// guest-visible allocator ([`Memory::reserve`] hands out fresh ranges above
/// the mark). The arena starts zeroed, so no host memory is ever leaked to
/// the guest through unwritten bytes.
pub struct Memory {
    /// The arena. Index = guest address.
    pub arena: Vec<u8>,
    /// First address the allocator has not handed out yet. Never 0, so an
    /// allocated pointer is never the null sentinel.
    pub alloc_next: u32,
}

impl View for Memory {
    type V = Seq<u8>;

    open spec fn view(&self) -> Seq<u8> {
        self.arena@
    }
}

impl Memory {
    /// Well-formedness: every guest address fits in 32 bits and the
    /// allocation mark lies inside the arena, above the null sentinel.
    pub open spec fn wf(self) -> bool {
        &&& self@.len() <= u32::MAX
        &&& 1 <= self.alloc_next <= self@.len()
    }

    /// A fresh zeroed arena of `len` bytes whose allocator hands out
    /// addresses from `alloc_base` up.
    pub fn new(len: u32, alloc_base: u32) -> (r: Memory)
        requires
            1 <= alloc_base <= len,
        ensures
            r.wf(),
            r@.len() == len,
            r.alloc_next == alloc_base,
            forall|j: int| 0 <= j < len ==> r@[j] == 0,
    {
        let mut arena: Vec<u8> = Vec::new();
        let n: usize = len as usize;
        while arena.len() < n
            invariant
                n == len,
                arena@.len() <= n,
                forall|j: int| 0 <= j < arena@.len() ==> arena@[j] == 0,
            decreases n - arena@.len(),
        {
            arena.push(0);
        }
        Memory { arena, alloc_next: alloc_base }
    }

    /// Length of the arena in bytes: one past the highest valid guest
    /// address.
    pub fn len(&self) -> (r: usize)
        ensures
            r == self@.len(),
    {
        self.arena.len()
    }

    /// One byte of the arena.
    pub fn read_byte(&self, addr: u32) -> (r: u8)
        requires
            addr < self@.len(),
        ensures
            r == self@[addr as int],
    {
        self.arena[addr as usize]
    }

    /// Replaces one byte of the arena.
    pub fn write_byte(&mut self, addr: u32, value: u8)
        requires
            addr < old(self)@.len(),
        ensures
            final(self)@ == old(self)@.update(addr as int, value),
            final(self).alloc_next == old(self).alloc_next,
    {
        self.arena[addr as usize] = value;
        proof {
            assert(self@ =~= old(self)@.update(addr as int, value));
        }
    }

    /// A copy of the `n` arena bytes starting at `addr`, for bulk transfer
    /// out of guest memory.
    pub fn bytes_at(&self, addr: u32, n: u32) -> (r: Vec<u8>)
        requires
            self.wf(),
            addr + n <= self@.len(),
        ensures
            r@ == self@.subrange(addr as int, addr + n),
    {
        let mut r: Vec<u8> = Vec::new();
        let mut i: u32 = 0;
        while i < n
            invariant
                self.wf(),
                i <= n,
                addr + n <= self@.len(),
                r@.len() == i,
                forall|j: int| 0 <= j < i ==> r@[j] == self@[addr + j],
            decreases n - i,
        {
            r.push(self.arena[(addr + i) as usize]);
            i = i + 1;
        }
        proof {
            assert(r@ =~= self@.subrange(addr as int, addr + n));
        }
        r
    }

    /// Replaces the arena bytes starting at `addr` with `data`, for bulk
    /// transfer into guest memory. Bytes outside the range keep their value.
    pub fn write_bytes(&mut self, addr: u32, data: &Vec<u8>)
        requires
            old(self).wf(),
            addr + data@.len() <= old(self)@.len(),
        ensures
            final(self).wf(),
            final(self)@.len() == old(self)@.len(),
            final(self).alloc_next == old(self).alloc_next,
            final(self)@.subrange(addr as int, addr + data@.len()) == data@,
            forall|j: int|
                0 <= j < old(self)@.len() && !(addr <= j < addr + data@.len()) ==> final(self)@[j]
                    == old(self)@[j],
    {
        let mut i: usize = 0;
        while i < data.len()
            invariant
                self.wf(),
                i <= data@.len(),
                addr + data@.len() <= self@.len(),
                self@.len() == old(self)@.len(),
                self.alloc_next == old(self).alloc_next,
                forall|j: int| 0 <= j < i ==> self@[addr + j] == data@[j],
                forall|j: int|
                    0 <= j < self@.len() && !(addr <= j < addr + i) ==> self@[j] == old(self)@[j],
            decreases data@.len() - i,
        {
            self.arena[addr as usize + i] = data[i];
            i = i + 1;
        }
        proof {
            assert(self@.subrange(addr as int, addr + data@.len()) =~= data@);
        }
    }

    /// Typed read: copies the byte range of `T` at the pointee into a newly
    /// built `T`. Only [`SafeRead`] shapes may be read, so no bit pattern the
    /// guest put there can denote an invalid host value; only the range needs
    /// checking, which the precondition pins to the arena.
    pub fn read<T: SafeRead>(&self, ptr: ConstPtr<T>) -> (r: T)
        requires
            self.wf(),
            ptr.addr + T::gsize_spec() <= self@.len(),
        ensures
            r == T::of_bytes(self@.subrange(ptr.addr as int, ptr.addr + T::gsize_spec())),
    {
        let n: usize = T::gsize();
        let buf = self.bytes_at(ptr.addr, n as u32);
        T::from_bytes(&buf)
    }

    /// Typed write: copies the bytes of `value` over the byte range of `T`
    /// at the pointee. Bytes outside the range keep their value.
    pub fn write<T: GuestBytes>(&mut self, ptr: MutPtr<T>, value: T)
        requires
            old(self).wf(),
            ptr.addr + T::gsize_spec() <= old(self)@.len(),
        ensures
            final(self).wf(),
            final(self)@.len() == old(self)@.len(),
            final(self).alloc_next == old(self).alloc_next,
            final(self)@.subrange(ptr.addr as int, ptr.addr + T::gsize_spec())
                == value.as_bytes(),
            forall|j: int|
                0 <= j < old(self)@.len() && !(ptr.addr <= j < ptr.addr + T::gsize_spec())
                    ==> final(self)@[j] == old(self)@[j],
    {
        proof {
            value.as_bytes_len();
        }
        let buf = value.to_bytes();
        self.write_bytes(ptr.addr, &buf);
    }

    /// Fallible typed read: succeeds exactly when the byte range of `T` at
    /// the pointee lies within the arena.
    pub fn try_read<T: SafeRead>(&self, ptr: ConstPtr<T>) -> (r: Option<T>)
        requires
            self.wf(),
        ensures
            match r {
                Some(v) => ptr.addr + T::gsize_spec() <= self@.len() && v == T::of_bytes(
                    self@.subrange(ptr.addr as int, ptr.addr + T::gsize_spec()),
                ),
                None => ptr.addr + T::gsize_spec() > self@.len(),
            },
    {
        let n: usize = T::gsize();
        if (ptr.addr as usize) <= self.arena.len() && n <= self.arena.len() - (ptr.addr as usize) {
            Some(self.read(ptr))
        } else {
            None
        }
    }

    /// Fallible typed write: succeeds, and changes the arena, exactly when
    /// the byte range of `T` at the pointee lies within the arena; an
    /// out-of-range write changes nothing.
    pub fn try_write<T: GuestBytes>(&mut self, ptr: MutPtr<T>, value: T) -> (r: bool)
        requires
            old(self).wf(),
        ensures
            final(self).wf(),
            r == (ptr.addr + T::gsize_spec() <= old(self)@.len()),
            final(self)@.len() == old(self)@.len(),
            final(self).alloc_next == old(self).alloc_next,
            r ==> final(self)@.subrange(ptr.addr as int, ptr.addr + T::gsize_spec())
                == value.as_bytes(),
            forall|j: int|
                0 <= j < old(self)@.len() && !(r && ptr.addr <= j < ptr.addr + T::gsize_spec())
                    ==> final(self)@[j] == old(self)@[j],
    {
        let n: usize = T::gsize();
        if (ptr.addr as usize) <= self.arena.len() && n <= self.arena.len() - (ptr.addr as usize) {
            self.write(ptr, value);
            true
        } else {
            false
        }
    }

    /// The null-terminated byte run starting at `addr`: the bytes strictly
    /// before the first zero byte at or after `addr`. Fails — rather than
    /// running off the arena — when no terminator exists before the boundary.
    pub fn cstr_at(&self, addr: u32) -> (r: Option<Vec<u8>>)
        requires
            self.wf(),
            addr <= self@.len(),
        ensures
            match r {
                Some(s) => {
                    &&& addr + s@.len() < self@.len()
                    &&& s@ == self@.subrange(addr as int, addr + s@.len())
                    &&& self@[addr + s@.len()] == 0
                    &&& forall|j: int| addr <= j < addr + s@.len() ==> self@[j] != 0
                },
                None => forall|j: int| addr <= j < self@.len() ==> self@[j] != 0,
            },
    {
        let mut i: u32 = addr;
        while (i as usize) < self.arena.len()
            invariant
                self.wf(),
                addr <= i <= self@.len(),
                forall|j: int| addr <= j < i ==> self@[j] != 0,
            decreases self@.len() - i,
        {
            if self.arena[i as usize] == 0 {
                let s = self.bytes_at(addr, i - addr);
                return Some(s);
            }
            i = i + 1;
        }
        None
    }

    /// Reserves `size` fresh bytes from the guest-visible allocator and
    /// returns their first address, which is never the null sentinel.
    pub fn reserve(&mut self, size: u32) -> (r: u32)
        requires
            old(self).wf(),
            old(self).alloc_next + size <= old(self)@.len(),
        ensures
            final(self).wf(),
            r == old(self).alloc_next,
            r != 0,
            final(self).alloc_next == old(self).alloc_next + size,
            final(self)@ == old(self)@,
    {
        let r: u32 = self.alloc_next;
        self.alloc_next = self.alloc_next + size;
        r
    }

    /// Reserves the byte range of `T` from the guest-visible allocator,
    /// writes `value` into it, and returns the resulting typed pointer.
    pub fn alloc_and_write<T: SafeRead>(&mut self, value: T) -> (r: MutPtr<T>)
        requires
            old(self).wf(),
            old(self).alloc_next + T::gsize_spec() <= old(self)@.len(),
        ensures
            final(self).wf(),
            r.addr == old(self).alloc_next,
            r.addr != 0,
            final(self).alloc_next == old(self).alloc_next + T::gsize_spec(),
            final(self)@.len() == old(self)@.len(),
            final(self)@.subrange(r.addr as int, r.addr + T::gsize_spec()) == value.as_bytes(),
            forall|j: int|
                0 <= j < old(self)@.len() && !(r.addr <= j < r.addr + T::gsize_spec())
                    ==> final(self)@[j] == old(self)@[j],
    {
        proof {
            value.as_bytes_len();
        }
        let n: usize = T::gsize();
        let a: u32 = self.reserve(n as u32);
        let p = MutPtr::<T>::from_bits(a);
        self.write(p, value);
        p
    }
}

/// Law: a typed write followed by a typed read of the same shape at the same
/// address returns the written value unchanged. The premise is exactly what
/// [`Memory::write`] ensures about the arena; the conclusion is exactly what
/// [`Memory::read`] returns from it.
pub proof fn lemma_write_read_round_trip<T: SafeRead>(m: Seq<u8>, addr: int, v: T)
    requires
        0 <= addr,
        addr + T::gsize_spec() <= m.len(),
        m.subrange(addr, addr + T::gsize_spec()) == v.as_bytes(),
    ensures
        T::of_bytes(m.subrange(addr, addr + T::gsize_spec())) == v,
{
    v.round_trip();
}

} // verus!
