//! Fixed guest physical addresses and machine constants of the boot layout.

use vstd::prelude::*;

verus! {

/// Guest address of the boot GDT.
pub const BOOT_GDT_OFFSET: u64 = 0x500;

/// Guest address of the boot IDT.
pub const BOOT_IDT_OFFSET: u64 = 0x520;

/// Number of entries in the boot GDT.
pub const BOOT_GDT_MAX: usize = 4;

/// Guest address of the zero page (`boot_params`).
pub const ZEROPG_START: u64 = 0x7000;

/// Initial stack pointer of the boot CPU.
pub const BOOT_STACK_POINTER: u64 = 0x8ff0;

/// Guest address of the PML4 page table.
pub const PML4_START: u64 = 0x9000;

/// Guest address of the page directory pointer table.
pub const PDPTE_START: u64 = 0xa000;

/// Guest address of the page directory.
pub const PDE_START: u64 = 0xb000;

/// Guest address where the kernel command line is written.
pub const CMDLINE_START: u64 = 0x20000;

/// Capacity of the kernel command line, terminator included.
pub const CMDLINE_MAX_SIZE: usize = 4096;

/// Lowest guest address at which kernel segments may be loaded.
pub const HIMEM_START: u64 = 0x100000;

/// Guest address of the MP table (start of the extended BIOS data area).
pub const MPTABLE_START: u64 = 0x9fc00;

/// Size of a guest page.
pub const PAGE_SIZE: u64 = 4096;

/// First I/O port of the serial device.
pub const SERIAL_PORT_BASE: u16 = 0x3f8;

/// Last I/O port of the serial device.
pub const SERIAL_PORT_LAST_REGISTER: u16 = 0x3ff;

/// Interrupt line of the serial device.
pub const SERIAL_IRQ: u32 = 4;

/// Floor of the virtio-net MMIO slot's base: the slot sits at the end of
/// guest memory, but never below this address.
pub const MMIO_BASE: u64 = 0xd000_0000;

/// Size of one MMIO slot.
pub const MMIO_SIZE: u64 = 0x1000;

/// Interrupt line of the virtio-net device.
pub const MMIO_IRQ: u32 = 5;

/// Bytes in one MiB.
pub const MIB: u64 = 0x10_0000;

/// The end of usable conventional low memory, first e820 entry.
pub const EBDA_START: u64 = 0x9fc00;

} // verus!
