//! Value shapes that may cross the guest/host boundary as raw bytes.
//!
//! A direct read out of guest memory materializes a host value from bytes an
//! untrusted guest program controls, so it is gated by the [`SafeRead`]
//! capability: a shape carries it only if every byte pattern of its width is
//! a valid value. Writes need no such capability — going from a host value to
//! raw bytes raises no validity concern — so they are gated by the weaker
//! [`GuestBytes`].

use vstd::prelude::*;

verus! {

/// A value shape with a fixed width and a little-endian byte image, usable
/// as the source of a guest-memory write.
pub trait GuestBytes: Sized {
    /// Width of the shape in bytes.
    spec fn gsize_spec() -> nat;

    /// Little-endian byte image of the value.
    spec fn as_bytes(self) -> Seq<u8>;

    /// Executable width of the shape.
    fn gsize() -> (n: usize)
        ensures
            n == Self::gsize_spec(),
    ;

    /// Executable byte image of the value.
    fn to_bytes(&self) -> (r: Vec<u8>)
        ensures
            r@ == self.as_bytes(),
    ;

    /// The byte image always has exactly `gsize_spec()` bytes.
    proof fn as_bytes_len(self)
        ensures
            self.as_bytes().len() == Self::gsize_spec(),
    ;
}

/// Capability marker: every byte pattern of width `gsize_spec()` denotes a
/// valid value, so one may be built directly from untrusted guest bytes.
pub trait SafeRead: GuestBytes {
    /// The value denoted by a little-endian byte image.
    spec fn of_bytes(b: Seq<u8>) -> Self;

    /// Executable decoding of a byte image.
    fn from_bytes(b: &Vec<u8>) -> (r: Self)
        requires
            b@.len() == Self::gsize_spec(),
        ensures
            r == Self::of_bytes(b@),
    ;

    /// Decoding a value's own byte image gives the value back.
    proof fn round_trip(self)
        ensures
            Self::of_bytes(self.as_bytes()) == self,
    ;
}

impl GuestBytes for u8 {
    open spec fn gsize_spec() -> nat {
        1
    }

    open spec fn as_bytes(self) -> Seq<u8> {
        seq![self]
    }

    fn gsize() -> (n: usize) {
        1
    }

    fn to_bytes(&self) -> (r: Vec<u8>) {
        let mut r: Vec<u8> = Vec::new();
        r.push(*self);
        proof {
            assert(r@ =~= (*self).as_bytes());
        }
        r
    }

    proof fn as_bytes_len(self) {
    }
}

impl SafeRead for u8 {
    open spec fn of_bytes(b: Seq<u8>) -> u8 {
        b[0]
    }

    fn from_bytes(b: &Vec<u8>) -> (r: u8) {
        b[0]
    }

    proof fn round_trip(self) {
    }
}

impl GuestBytes for u16 {
    open spec fn gsize_spec() -> nat {
        2
    }

    open spec fn as_bytes(self) -> Seq<u8> {
        seq![(self & 0xff) as u8, ((self >> 8) & 0xff) as u8]
    }

    fn gsize() -> (n: usize) {
        2
    }

    fn to_bytes(&self) -> (r: Vec<u8>) {
        let x: u16 = *self;
        let mut r: Vec<u8> = Vec::new();
        r.push((x & 0xff) as u8);
        r.push(((x >> 8) & 0xff) as u8);
        proof {
            assert(r@ =~= x.as_bytes());
        }
        r
    }

    proof fn as_bytes_len(self) {
    }
}

impl SafeRead for u16 {
    open spec fn of_bytes(b: Seq<u8>) -> u16 {
        (b[0] as u16) | ((b[1] as u16) << 8)
    }

    fn from_bytes(b: &Vec<u8>) -> (r: u16) {
        (b[0] as u16) | ((b[1] as u16) << 8)
    }

    proof fn round_trip(self) {
        let x: u16 = self;
        let s = x.as_bytes();
        assert(s[0] == (x & 0xff) as u8);
        assert(s[1] == ((x >> 8) & 0xff) as u8);
        assert(((((x & 0xff) as u8) as u16) | ((((x >> 8) & 0xff) as u8) as u16) << 8) == x)
            by (bit_vector);
    }
}

impl GuestBytes for u32 {
    open spec fn gsize_spec() -> nat {
        4
    }

    open spec fn as_bytes(self) -> Seq<u8> {
        seq![
            (self & 0xff) as u8,
            ((self >> 8) & 0xff) as u8,
            ((self >> 16) & 0xff) as u8,
            ((self >> 24) & 0xff) as u8,
        ]
    }

    fn gsize() -> (n: usize) {
        4
    }

    fn to_bytes(&self) -> (r: Vec<u8>) {
        let x: u32 = *self;
        let mut r: Vec<u8> = Vec::new();
        r.push((x & 0xff) as u8);
        r.push(((x >> 8) & 0xff) as u8);
        r.push(((x >> 16) & 0xff) as u8);
        r.push(((x >> 24) & 0xff) as u8);
        proof {
            assert(r@ =~= x.as_bytes());
        }
        r
    }

    proof fn as_bytes_len(self) {
    }
}

impl SafeRead for u32 {
    open spec fn of_bytes(b: Seq<u8>) -> u32 {
        (b[0] as u32) | ((b[1] as u32) << 8) | ((b[2] as u32) << 16) | ((b[3] as u32) << 24)
    }

    fn from_bytes(b: &Vec<u8>) -> (r: u32) {
        (b[0] as u32) | ((b[1] as u32) << 8) | ((b[2] as u32) << 16) | ((b[3] as u32) << 24)
    }

    proof fn round_trip(self) {
        let x: u32 = self;
        let s = x.as_bytes();
        assert(s[0] == (x & 0xff) as u8);
        assert(s[1] == ((x >> 8) & 0xff) as u8);
        assert(s[2] == ((x >> 16) & 0xff) as u8);
        assert(s[3] == ((x >> 24) & 0xff) as u8);
        assert(((((x & 0xff) as u8) as u32) | ((((x >> 8) & 0xff) as u8) as u32) << 8
            | ((((x >> 16) & 0xff) as u8) as u32) << 16 | ((((x >> 24) & 0xff) as u8) as u32) << 24)
            == x) by (bit_vector);
    }
}

impl GuestBytes for u64 {
    open spec fn gsize_spec() -> nat {
        8
    }

    open spec fn as_bytes(self) -> Seq<u8> {
        seq![
            (self & 0xff) as u8,
            ((self >> 8) & 0xff) as u8,
            ((self >> 16) & 0xff) as u8,
            ((self >> 24) & 0xff) as u8,
            ((self >> 32) & 0xff) as u8,
            ((self >> 40) & 0xff) as u8,
            ((self >> 48) & 0xff) as u8,
            ((self >> 56) & 0xff) as u8,
        ]
    }

    fn gsize() -> (n: usize) {
        8
    }

    fn to_bytes(&self) -> (r: Vec<u8>) {
        let x: u64 = *self;
        let mut r: Vec<u8> = Vec::new();
        r.push((x & 0xff) as u8);
        r.push(((x >> 8) & 0xff) as u8);
        r.push(((x >> 16) & 0xff) as u8);
        r.push(((x >> 24) & 0xff) as u8);
        r.push(((x >> 32) & 0xff) as u8);
        r.push(((x >> 40) & 0xff) as u8);
        r.push(((x >> 48) & 0xff) as u8);
        r.push(((x >> 56) & 0xff) as u8);
        proof {
            assert(r@ =~= x.as_bytes());
        }
        r
    }

    proof fn as_bytes_len(self) {
    }
}

impl SafeRead for u64 {
    open spec fn of_bytes(b: Seq<u8>) -> u64 {
        (b[0] as u64) | ((b[1] as u64) << 8) | ((b[2] as u64) << 16) | ((b[3] as u64) << 24)
            | ((b[4] as u64) << 32) | ((b[5] as u64) << 40) | ((b[6] as u64) << 48)
            | ((b[7] as u64) << 56)
    }

    fn from_bytes(b: &Vec<u8>) -> (r: u64) {
        (b[0] as u64) | ((b[1] as u64) << 8) | ((b[2] as u64) << 16) | ((b[3] as u64) << 24)
            | ((b[4] as u64) << 32) | ((b[5] as u64) << 40) | ((b[6] as u64) << 48)
            | ((b[7] as u64) << 56)
    }

    proof fn round_trip(self) {
        let x: u64 = self;
        let s = x.as_bytes();
        assert(s[0] == (x & 0xff) as u8);
        assert(s[1] == ((x >> 8) & 0xff) as u8);
        assert(s[2] == ((x >> 16) & 0xff) as u8);
        assert(s[3] == ((x >> 24) & 0xff) as u8);
        assert(s[4] == ((x >> 32) & 0xff) as u8);
        assert(s[5] == ((x >> 40) & 0xff) as u8);
        assert(s[6] == ((x >> 48) & 0xff) as u8);
        assert(s[7] == ((x >> 56) & 0xff) as u8);
        assert(((((x & 0xff) as u8) as u64) | ((((x >> 8) & 0xff) as u8) as u64) << 8
            | ((((x >> 16) & 0xff) as u8) as u64) << 16 | ((((x >> 24) & 0xff) as u8) as u64) << 24
            | ((((x >> 32) & 0xff) as u8) as u64) << 32 | ((((x >> 40) & 0xff) as u8) as u64) << 40
            | ((((x >> 48) & 0xff) as u8) as u64) << 48 | ((((x >> 56) & 0xff) as u8) as u64) << 56)
            == x) by (bit_vector);
    }
}

} // verus!
