//! The CPU execution unit: register file views and the fixed-width memory
//! callbacks the recompiler engine is confined to.

use guest_bridge::cpu::{
    cpu_read_u16, cpu_read_u32, cpu_read_u64, cpu_read_u8, cpu_write_u16, cpu_write_u32,
    cpu_write_u64, cpu_write_u8, Cpu, NUM_REGS,
};
use guest_bridge::mem::Memory;
use guest_bridge::ptr::ConstPtr;

#[test]
fn registers_start_zeroed() {
    let cpu = Cpu::new();
    assert_eq!(cpu.regs(), &[0u32; 16]);
    assert_eq!(NUM_REGS, 16);
}

#[test]
fn register_file_mutation_between_runs() {
    let mut cpu = Cpu::new();
    cpu.regs_mut()[0] = 0xcafe_babe;
    cpu.regs_mut()[15] = 0x8000;
    assert_eq!(cpu.regs()[0], 0xcafe_babe);
    assert_eq!(cpu.regs()[15], 0x8000);
    assert_eq!(cpu.regs()[7], 0);
}

#[test]
fn callback_round_trip_each_width() {
    let mut m = Memory::new(256, 1);
    cpu_write_u8(&mut m, 10, 0xaa);
    cpu_write_u16(&mut m, 20, 0xbbcc);
    cpu_write_u32(&mut m, 30, 0xdead_beef);
    cpu_write_u64(&mut m, 40, 0x0102_0304_0506_0708);
    assert_eq!(cpu_read_u8(&m, 10), 0xaa);
    assert_eq!(cpu_read_u16(&m, 20), 0xbbcc);
    assert_eq!(cpu_read_u32(&m, 30), 0xdead_beef);
    assert_eq!(cpu_read_u64(&m, 40), 0x0102_0304_0506_0708);
}

/// A store through the engine's 32-bit write entry point lands where a host
/// read through the typed access layer sees it: the callback path and the
/// marshalling path agree on the same arena.
#[test]
fn engine_store_visible_to_typed_read() {
    let mut m = Memory::new(0x1000, 1);
    let addr: u32 = 0x40;
    let value: u32 = 0x1234_5678;
    cpu_write_u32(&mut m, addr, value);
    assert_eq!(m.read(ConstPtr::<u32>::from_bits(addr)), value);
    // And the other way round.
    m.write(guest_bridge::ptr::MutPtr::<u32>::from_bits(0x80), 0x9abc_def0);
    assert_eq!(cpu_read_u32(&m, 0x80), 0x9abc_def0);
}

#[test]
fn callbacks_share_little_endian_layout() {
    let mut m = Memory::new(64, 1);
    cpu_write_u32(&mut m, 8, 0x0102_0304);
    assert_eq!(cpu_read_u8(&m, 8), 0x04);
    assert_eq!(cpu_read_u8(&m, 9), 0x03);
    assert_eq!(cpu_read_u8(&m, 10), 0x02);
    assert_eq!(cpu_read_u8(&m, 11), 0x01);
    assert_eq!(cpu_read_u16(&m, 8), 0x0304);
}
