//! The buffered file I/O marshalling pattern, with the test standing in for
//! the embedder: it plays the host filesystem and hands the outcomes over.

use guest_bridge::ptr::{ConstPtr, MutPtr};
use guest_bridge::stdio::{
    fclose, fopen, fread, fwrite, fwrite_data, host_file_of, parse_mode, OpenOptions, EOF,
};
use guest_bridge::Environment;

fn opts(read: bool, write: bool, append: bool, create: bool, truncate: bool) -> OpenOptions {
    OpenOptions {
        read,
        write,
        append,
        create,
        truncate,
    }
}

#[test]
fn parse_mode_read_family() {
    let ro = opts(true, false, false, false, false);
    let ra = opts(true, false, true, false, false);
    assert_eq!(parse_mode(&b"r".to_vec()), Some(ro));
    assert_eq!(parse_mode(&b"rb".to_vec()), Some(ro));
    assert_eq!(parse_mode(&b"r+".to_vec()), Some(ra));
    assert_eq!(parse_mode(&b"rb+".to_vec()), Some(ra));
    assert_eq!(parse_mode(&b"r+b".to_vec()), Some(ra));
}

#[test]
fn parse_mode_write_family() {
    let w = opts(false, true, false, true, true);
    let wp = opts(true, true, false, true, true);
    assert_eq!(parse_mode(&b"w".to_vec()), Some(w));
    assert_eq!(parse_mode(&b"wb".to_vec()), Some(w));
    assert_eq!(parse_mode(&b"w+".to_vec()), Some(wp));
    assert_eq!(parse_mode(&b"wb+".to_vec()), Some(wp));
    assert_eq!(parse_mode(&b"w+b".to_vec()), Some(wp));
}

#[test]
fn parse_mode_append_family() {
    let a = opts(false, false, true, true, false);
    let ap = opts(true, false, true, true, false);
    assert_eq!(parse_mode(&b"a".to_vec()), Some(a));
    assert_eq!(parse_mode(&b"ab".to_vec()), Some(a));
    assert_eq!(parse_mode(&b"a+".to_vec()), Some(ap));
    assert_eq!(parse_mode(&b"ab+".to_vec()), Some(ap));
    assert_eq!(parse_mode(&b"a+b".to_vec()), Some(ap));
}

#[test]
fn parse_mode_rejects_everything_else() {
    for bad in [
        &b""[..],
        b"x",
        b"rw",
        b"b",
        b"+",
        b"br",
        b"r++",
        b"wbb",
        b"rb+b",
        b"a+x",
    ] {
        assert_eq!(parse_mode(&bad.to_vec()), None, "mode {:?}", bad);
    }
}

/// Scenario: opening a file the host could not open returns the null handle
/// and adds nothing to the handle table.
#[test]
fn open_failure_returns_null_and_no_entry() {
    let mut env = Environment::new(4096, 2048);
    let h = fopen(&mut env, None);
    assert!(h.is_null());
    assert_eq!(host_file_of(&env, h), None);
}

/// Scenario: open for writing, write 10 items of size 4, close. The write
/// reports 10 whole items, the close reports success, and the host file
/// holds exactly the 40 bytes.
#[test]
fn write_ten_items_and_close() {
    let mut env = Environment::new(4096, 2048);

    // Guest-side source buffer: 40 recognizable bytes.
    let payload: Vec<u8> = (0..40u8).collect();
    env.mem.write_bytes(100, &payload);

    // The embedder decodes the mode, opens the host file, and hands over
    // its token for the opened resource.
    assert_eq!(
        parse_mode(&b"w".to_vec()),
        Some(opts(false, true, false, true, true))
    );
    let mut host_file: Vec<u8> = Vec::new();
    let h = fopen(&mut env, Some(1));
    assert!(!h.is_null());

    // The library gathers the bytes; the host takes all of them.
    let data = fwrite_data(&env, ConstPtr::from_bits(100), 4, 10, h);
    assert_eq!(data, payload);
    host_file.extend_from_slice(&data);
    let written = fwrite(&env, 4, 10, h, data.len() as u32);
    assert_eq!(written, 10);

    let rc = fclose(&mut env, h, true);
    assert_eq!(rc, 0);
    assert_eq!(host_file.len(), 40);
    assert_eq!(host_file, payload);
    assert_eq!(host_file_of(&env, h), None);
}

/// Scenario: reopen the 40-byte file for reading and request 20 items of
/// size 4. Only 10 whole items arrive; the first 40 buffer bytes are the
/// file's, and the trailing 40 keep the guest bytes that were already there.
#[test]
fn short_read_reports_whole_items() {
    let mut env = Environment::new(4096, 2048);
    let host_file: Vec<u8> = (0..40u8).collect();

    assert_eq!(
        parse_mode(&b"r".to_vec()),
        Some(opts(true, false, false, false, false))
    );
    let h = fopen(&mut env, Some(1));
    assert!(!h.is_null());

    // The host can supply only 40 of the 80 requested bytes.
    let data = host_file.clone();
    let buffer: MutPtr<u8> = MutPtr::from_bits(200);
    let items = fread(&mut env, buffer, 4, 20, h, &data);
    assert_eq!(items, 10);

    assert_eq!(env.mem.bytes_at(200, 40), host_file);
    // The untransferred tail is previously-existing guest memory (zeroed at
    // construction), never host memory.
    assert_eq!(env.mem.bytes_at(240, 40), vec![0u8; 40]);

    assert_eq!(fclose(&mut env, h, true), 0);
}

/// A partially transferred item counts for nothing, but its bytes stay in
/// the buffer: 39 bytes at item size 4 are 9 items.
#[test]
fn partial_item_is_not_counted_nor_undone() {
    let mut env = Environment::new(4096, 2048);
    let h = fopen(&mut env, Some(9));
    let data: Vec<u8> = vec![7u8; 39];
    let items = fread(&mut env, MutPtr::from_bits(300), 4, 10, h, &data);
    assert_eq!(items, 9);
    assert_eq!(env.mem.bytes_at(300, 39), data);
    assert_eq!(env.mem.read_byte(339), 0);
}

#[test]
fn empty_host_read_is_zero_items() {
    let mut env = Environment::new(4096, 2048);
    let h = fopen(&mut env, Some(3));
    let items = fread(&mut env, MutPtr::from_bits(64), 8, 4, h, &Vec::new());
    assert_eq!(items, 0);
}

#[test]
fn short_write_reports_whole_items() {
    let mut env = Environment::new(4096, 2048);
    env.mem.write_bytes(100, &vec![1u8; 32]);
    let h = fopen(&mut env, Some(5));
    let data = fwrite_data(&env, ConstPtr::from_bits(100), 8, 4, h);
    assert_eq!(data.len(), 32);
    // The host managed only 17 bytes: two whole items.
    assert_eq!(fwrite(&env, 8, 4, h, 17), 2);
    // And none at all: zero items.
    assert_eq!(fwrite(&env, 8, 4, h, 0), 0);
}

#[test]
fn failed_close_still_removes_the_entry() {
    let mut env = Environment::new(4096, 2048);
    let h = fopen(&mut env, Some(11));
    assert_eq!(host_file_of(&env, h), Some(11));
    let rc = fclose(&mut env, h, false);
    assert_eq!(rc, EOF);
    assert_eq!(rc, -1);
    assert_eq!(host_file_of(&env, h), None);
}

/// Each successful open adds exactly one entry under a fresh handle; each
/// close removes exactly that entry and no other.
#[test]
fn handle_table_discipline() {
    let mut env = Environment::new(4096, 2048);
    let h1 = fopen(&mut env, Some(100));
    let h2 = fopen(&mut env, Some(200));
    assert!(!h1.is_null());
    assert!(!h2.is_null());
    assert_ne!(h1.to_bits(), h2.to_bits());
    assert_eq!(host_file_of(&env, h1), Some(100));
    assert_eq!(host_file_of(&env, h2), Some(200));

    assert_eq!(fclose(&mut env, h1, true), 0);
    assert_eq!(host_file_of(&env, h1), None);
    assert_eq!(host_file_of(&env, h2), Some(200));

    // A handle never opened is not in the table: the embedder detects it
    // before any close, rather than silently ignoring it.
    let stray: MutPtr<guest_bridge::stdio::FILE> = MutPtr::from_bits(77);
    assert_eq!(host_file_of(&env, stray), None);
}
