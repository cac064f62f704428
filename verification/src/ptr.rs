//! Typed guest pointers.
//!
//! A typed pointer is a 32-bit guest address tagged with the value shape it
//! is expected to reference. It carries no host pointer and performs no
//! access by itself: it is a capability to request a bounds-checked access
//! from the guest address space, never a dereferenceable host reference.
//! Bit value 0 is the designated null sentinel.

use core::marker::PhantomData;
use vstd::prelude::*;

verus! {

/// A read-only typed guest pointer.
#[verifier::reject_recursive_types(T)]
pub struct ConstPtr<T> {
    /// The guest address the pointer designates.
    pub addr: u32,
    /// Compile-time tag for the shape the address is expected to reference.
    pub shape: PhantomData<T>,
}

/// A read-write typed guest pointer, usable wherever a read-only one is
/// required (see [`MutPtr::as_const`]).
#[verifier::reject_recursive_types(T)]
pub struct MutPtr<T> {
    /// The guest address the pointer designates.
    pub addr: u32,
    /// Compile-time tag for the shape the address is expected to reference.
    pub shape: PhantomData<T>,
}

impl<T> Clone for ConstPtr<T> {
    fn clone(&self) -> (r: Self)
        ensures
            r.addr == self.addr,
    {
        ConstPtr { addr: self.addr, shape: PhantomData }
    }
}

impl<T> Copy for ConstPtr<T> {

}

impl<T> Clone for MutPtr<T> {
    fn clone(&self) -> (r: Self)
        ensures
            r.addr == self.addr,
    {
        MutPtr { addr: self.addr, shape: PhantomData }
    }
}

impl<T> Copy for MutPtr<T> {

}

impl<T> ConstPtr<T> {
    /// Tags a raw 32-bit guest address with a shape.
    pub fn from_bits(bits: u32) -> (r: Self)
        ensures
            r.addr == bits,
    {
        ConstPtr { addr: bits, shape: PhantomData }
    }

    /// The null pointer.
    pub fn null() -> (r: Self)
        ensures
            r.addr == 0,
    {
        ConstPtr { addr: 0, shape: PhantomData }
    }

    /// The raw guest address.
    pub fn to_bits(self) -> (r: u32)
        ensures
            r == self.addr,
    {
        self.addr
    }

    /// Whether the pointer is the null sentinel.
    pub fn is_null(self) -> (r: bool)
        ensures
            r == (self.addr == 0),
    {
        self.addr == 0
    }
}

impl<T> MutPtr<T> {
    /// Tags a raw 32-bit guest address with a shape.
    pub fn from_bits(bits: u32) -> (r: Self)
        ensures
            r.addr == bits,
    {
        MutPtr { addr: bits, shape: PhantomData }
    }

    /// The null pointer.
    pub fn null() -> (r: Self)
        ensures
            r.addr == 0,
    {
        MutPtr { addr: 0, shape: PhantomData }
    }

    /// The raw guest address.
    pub fn to_bits(self) -> (r: u32)
        ensures
            r == self.addr,
    {
        self.addr
    }

    /// Whether the pointer is the null sentinel.
    pub fn is_null(self) -> (r: bool)
        ensures
            r == (self.addr == 0),
    {
        self.addr == 0
    }

    /// Gives up write access: a read-write pointer stands in for a read-only
    /// one.
    pub fn as_const(self) -> (r: ConstPtr<T>)
        ensures
            r.addr == self.addr,
    {
        ConstPtr { addr: self.addr, shape: PhantomData }
    }
}

} // verus!
