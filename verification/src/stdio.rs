//! Buffered file I/O: the canonical host-function marshalling pattern.
//!
//! Each function here is the guest-visible half of a host stand-in for a
//! guest library routine. The embedder performs the host side — opening,
//! reading, writing, flushing a real file — and exchanges plain values with
//! these functions: what the host call produced comes in as an argument, and
//! the guest-visible effect (guest memory, the handle table, the value
//! returned in the guest ABI's return slot) is computed here. Failures are
//! reported to guest code purely through the guest ABI's own sentinels — a
//! null handle, the `EOF` value, a short item count — never through a host
//! error crossing the boundary.
//!
//! Host-side resource state lives in a table keyed by the guest-visible
//! handle: the guest address of a [`FILE`] object allocated at open time,
//! which guest code treats as an opaque cookie. An entry is present exactly
//! while the host resource is open: it is created by the opening call and
//! removed exactly once by the matching close, whether or not the close
//! itself succeeds.

use std::collections::HashMap;
use vstd::prelude::*;

use crate::bytes::{GuestBytes, SafeRead};
use crate::ptr::{ConstPtr, MutPtr};
use crate::Environment;

verus! {

broadcast use vstd::std_specs::hash::group_hash_axioms;

/// The guest library's end-of-file / failure sentinel, distinct from every
/// valid item count.
pub const EOF: i32 = -1;

/// Byte value of the letter `r` in a mode string.
pub const BYTE_R: u8 = 114;

/// Byte value of the letter `w` in a mode string.
pub const BYTE_W: u8 = 119;

/// Byte value of the letter `a` in a mode string.
pub const BYTE_A: u8 = 97;

/// Byte value of the letter `b` in a mode string.
pub const BYTE_B: u8 = 98;

/// Byte value of the sign `+` in a mode string.
pub const BYTE_PLUS: u8 = 43;

/// The guest-visible file object. Guest code never looks inside it — the
/// pointer to it is the opaque handle — so a single filler byte suffices,
/// and every byte pattern is a valid instance.
pub struct FILE {
    /// Placeholder content; carries no information.
    pub filler: u8,
}

impl GuestBytes for FILE {
    open spec fn gsize_spec() -> nat {
        1
    }

    open spec fn as_bytes(self) -> Seq<u8> {
        seq![self.filler]
    }

    fn gsize() -> (n: usize) {
        1
    }

    fn to_bytes(&self) -> (r: Vec<u8>) {
        let mut r: Vec<u8> = Vec::new();
        r.push(self.filler);
        proof {
            assert(r@ =~= (*self).as_bytes());
        }
        r
    }

    proof fn as_bytes_len(self) {
    }
}

impl SafeRead for FILE {
    open spec fn of_bytes(b: Seq<u8>) -> FILE {
        FILE { filler: b[0] }
    }

    fn from_bytes(b: &Vec<u8>) -> (r: FILE) {
        FILE { filler: b[0] }
    }

    proof fn round_trip(self) {
    }
}

/// Host-side state of the file family: which guest handles name which open
/// host files. The key is the raw guest address of the handle; the value is
/// the token under which the embedder knows the host resource.
pub struct State {
    /// One entry per open file.
    pub files: HashMap<u32, u64>,
}

impl State {
    /// An empty table: nothing is open.
    pub fn new() -> (r: State)
        ensures
            r.files@ == Map::<u32, u64>::empty(),
    {
        State { files: HashMap::new() }
    }
}

/// The open-option combination a mode string denotes, for the filesystem
/// collaborator's "open with options" operation.
#[derive(Clone, Copy, Debug, PartialEq, Eq, Structural)]
pub struct OpenOptions {
    /// Open for reading.
    pub read: bool,
    /// Open for writing.
    pub write: bool,
    /// Open for appending.
    pub append: bool,
    /// Create the file if it does not exist.
    pub create: bool,
    /// Truncate the file to zero length.
    pub truncate: bool,
}

/// The option combination the guest library documents for each mode string,
/// and `None` for every other string — an unsupported mode is a fatal
/// configuration error, not a recoverable one. A trailing or interposed `b`
/// never changes the options.
pub open spec fn mode_options(m: Seq<u8>) -> Option<OpenOptions> {
    if m.len() == 1 {
        mode_letter_options(m[0], false)
    } else if m.len() == 2 && m[1] == BYTE_B {
        mode_letter_options(m[0], false)
    } else if m.len() == 2 && m[1] == BYTE_PLUS {
        mode_letter_options(m[0], true)
    } else if m.len() == 3 && m[1] == BYTE_B && m[2] == BYTE_PLUS {
        mode_letter_options(m[0], true)
    } else if m.len() == 3 && m[1] == BYTE_PLUS && m[2] == BYTE_B {
        mode_letter_options(m[0], true)
    } else {
        None
    }
}

/// The options for a mode whose letter is `letter`, with or without the
/// `+` sign: `r` reads, `r+` reads and appends; `w` writes, creating and
/// truncating, `w+` also reads; `a` appends, creating, `a+` also reads.
pub open spec fn mode_letter_options(letter: u8, plus: bool) -> Option<OpenOptions> {
    if letter == BYTE_R {
        Some(
            OpenOptions {
                read: true,
                write: false,
                append: plus,
                create: false,
                truncate: false,
            },
        )
    } else if letter == BYTE_W {
        Some(
            OpenOptions { read: plus, write: true, append: false, create: true, truncate: true },
        )
    } else if letter == BYTE_A {
        Some(
            OpenOptions { read: plus, write: false, append: true, create: true, truncate: false },
        )
    } else {
        None
    }
}

/// Executable half of [`mode_letter_options`].
fn parse_mode_letter(letter: u8, plus: bool) -> (r: Option<OpenOptions>)
    ensures
        r == mode_letter_options(letter, plus),
{
    if letter == BYTE_R {
        Some(
            OpenOptions {
                read: true,
                write: false,
                append: plus,
                create: false,
                truncate: false,
            },
        )
    } else if letter == BYTE_W {
        Some(
            OpenOptions { read: plus, write: true, append: false, create: true, truncate: true },
        )
    } else if letter == BYTE_A {
        Some(
            OpenOptions { read: plus, write: false, append: true, create: true, truncate: false },
        )
    } else {
        None
    }
}

/// Decodes a mode string into the open options the guest library documents
/// for it; `None` for any other string.
pub fn parse_mode(mode: &Vec<u8>) -> (r: Option<OpenOptions>)
    ensures
        r == mode_options(mode@),
{
    let n: usize = mode.len();
    if n == 1 {
        parse_mode_letter(mode[0], false)
    } else if n == 2 && mode[1] == BYTE_B {
        parse_mode_letter(mode[0], false)
    } else if n == 2 && mode[1] == BYTE_PLUS {
        parse_mode_letter(mode[0], true)
    } else if n == 3 && mode[1] == BYTE_B && mode[2] == BYTE_PLUS {
        parse_mode_letter(mode[0], true)
    } else if n == 3 && mode[1] == BYTE_PLUS && mode[2] == BYTE_B {
        parse_mode_letter(mode[0], true)
    } else {
        None
    }
}

/// Finishes an open. The embedder has already decoded the filename and mode
/// through the typed access layer, asked the filesystem collaborator to
/// open, and hands over the outcome: the token of the opened host resource,
/// or `None` for an ordinary open failure.
///
/// On success, a fresh guest-opaque [`FILE`] allocation becomes the handle
/// and exactly one table entry is added, keyed by it. On failure nothing
/// changes and the guest sees the null handle — open failure is value-based,
/// never a host error crossing the boundary.
pub fn fopen(env: &mut Environment, host_file: Option<u64>) -> (r: MutPtr<FILE>)
    requires
        old(env).wf(),
        host_file.is_some() ==> old(env).mem.alloc_next + 1 <= old(env).mem@.len(),
    ensures
        final(env).wf(),
        final(env).cpu == old(env).cpu,
        final(env).mem@.len() == old(env).mem@.len(),
        match host_file {
            None => {
                &&& r.addr == 0
                &&& final(env).stdio.files@ == old(env).stdio.files@
                &&& final(env).mem@ == old(env).mem@
                &&& final(env).mem.alloc_next == old(env).mem.alloc_next
            },
            Some(id) => {
                &&& r.addr == old(env).mem.alloc_next
                &&& r.addr != 0
                &&& !old(env).stdio.files@.contains_key(r.addr)
                &&& final(env).stdio.files@ == old(env).stdio.files@.insert(r.addr, id)
                &&& final(env).mem.alloc_next == old(env).mem.alloc_next + 1
                &&& forall|j: int|
                    0 <= j < old(env).mem@.len() && j != r.addr ==> final(env).mem@[j] == old(
                        env,
                    ).mem@[j]
            },
        },
{
    match host_file {
        Some(id) => {
            let file_ptr = env.mem.alloc_and_write(FILE { filler: 0 });
            env.stdio.files.insert(file_ptr.to_bits(), id);
            file_ptr
        },
        None => MutPtr::null(),
    }
}

/// The host resource a handle names, or `None` for a handle that is not in
/// the table — an unknown handle is thereby detected, never silently
/// treated as open.
pub fn host_file_of(env: &Environment, file_ptr: MutPtr<FILE>) -> (r: Option<u64>)
    ensures
        match r {
            Some(id) => env.stdio.files@.contains_key(file_ptr.addr) && id
                == env.stdio.files@[file_ptr.addr],
            None => !env.stdio.files@.contains_key(file_ptr.addr),
        },
{
    match env.stdio.files.get(&file_ptr.to_bits()) {
        Some(id) => Some(*id),
        None => None,
    }
}

/// Finishes a read of `n_items` items of `item_size` bytes each. The
/// embedder has read `data` — at most `item_size * n_items` bytes — from the
/// host file; the bytes land at the start of the guest buffer and the guest
/// is told how many *whole* items arrived: the byte count divided by the
/// item size, rounded down. A short host read is not an error and nothing is
/// rewound; a partially transferred item stays in the buffer, and the
/// untransferred tail keeps the guest bytes that were already there — host
/// memory is never leaked into guest space.
pub fn fread(
    env: &mut Environment,
    buffer: MutPtr<u8>,
    item_size: u32,
    n_items: u32,
    file_ptr: MutPtr<FILE>,
    data: &Vec<u8>,
) -> (r: u32)
    requires
        old(env).wf(),
        old(env).stdio.files@.contains_key(file_ptr.addr),
        1 <= item_size,
        item_size * n_items <= u32::MAX,
        buffer.addr + item_size * n_items <= old(env).mem@.len(),
        data@.len() <= item_size * n_items,
    ensures
        final(env).wf(),
        r == data@.len() as int / item_size as int,
        final(env).cpu == old(env).cpu,
        final(env).stdio.files@ == old(env).stdio.files@,
        final(env).mem@.len() == old(env).mem@.len(),
        final(env).mem.alloc_next == old(env).mem.alloc_next,
        final(env).mem@.subrange(buffer.addr as int, buffer.addr + data@.len()) == data@,
        forall|j: int|
            0 <= j < old(env).mem@.len() && !(buffer.addr <= j < buffer.addr + data@.len())
                ==> final(env).mem@[j] == old(env).mem@[j],
{
    env.mem.write_bytes(buffer.addr, data);
    let bytes_read: u32 = data.len() as u32;
    bytes_read / item_size
}

/// First half of a write of `n_items` items of `item_size` bytes each:
/// gathers the full byte run from the guest buffer for the embedder to hand
/// to the host file.
pub fn fwrite_data(
    env: &Environment,
    buffer: ConstPtr<u8>,
    item_size: u32,
    n_items: u32,
    file_ptr: MutPtr<FILE>,
) -> (r: Vec<u8>)
    requires
        env.wf(),
        env.stdio.files@.contains_key(file_ptr.addr),
        1 <= item_size,
        item_size * n_items <= u32::MAX,
        buffer.addr + item_size * n_items <= env.mem@.len(),
    ensures
        r@ == env.mem@.subrange(buffer.addr as int, buffer.addr + item_size * n_items),
{
    let total: u32 = item_size * n_items;
    env.mem.bytes_at(buffer.addr, total)
}

/// Second half of a write: the embedder reports how many bytes the host
/// actually took, and the guest is told how many *whole* items that makes —
/// the byte count divided by the item size, rounded down. A short host
/// write is not an error and the file position is not rewound.
pub fn fwrite(
    env: &Environment,
    item_size: u32,
    n_items: u32,
    file_ptr: MutPtr<FILE>,
    bytes_written: u32,
) -> (r: u32)
    requires
        env.wf(),
        env.stdio.files@.contains_key(file_ptr.addr),
        1 <= item_size,
        item_size * n_items <= u32::MAX,
        bytes_written <= item_size * n_items,
    ensures
        r == bytes_written as int / item_size as int,
{
    bytes_written / item_size
}

/// Closes a handle that is in the table: exactly one entry is removed,
/// whether or not the host-side flush succeeded. The guest sees the close
/// result in its own value convention — 0 for success, [`EOF`] when the
/// embedder reports that flushing the host file failed.
pub fn fclose(env: &mut Environment, file_ptr: MutPtr<FILE>, sync_ok: bool) -> (r: i32)
    requires
        old(env).wf(),
        old(env).stdio.files@.contains_key(file_ptr.addr),
    ensures
        final(env).wf(),
        final(env).cpu == old(env).cpu,
        final(env).mem@ == old(env).mem@,
        final(env).mem.alloc_next == old(env).mem.alloc_next,
        final(env).stdio.files@ == old(env).stdio.files@.remove(file_ptr.addr),
        r == (if sync_ok {
            0i32
        } else {
            EOF
        }),
{
    let key: u32 = file_ptr.to_bits();
    env.stdio.files.remove(&key);
    if sync_ok {
        0
    } else {
        EOF
    }
}

} // verus!
