//! Global descriptor table entries and the segment registers drawn from them.

use vstd::prelude::*;
use crate::Error;
use crate::layout::{BOOT_GDT_OFFSET, BOOT_IDT_OFFSET};
use crate::mem::GuestRam;

verus! {

/// The 8-byte descriptor packing `flags` (access byte and granularity
/// nibble), a 32-bit `base` and a 20-bit `limit`.
pub open spec fn spec_gdt_entry(flags: u16, base: u32, limit: u32) -> u64 {
    (((base as u64) & 0xff00_0000) << 32) | (((flags as u64) & 0xf0ff) << 40) | (((limit as u64)
        & 0x000f_0000) << 32) | (((base as u64) & 0x00ff_ffff) << 16) | ((limit as u64) & 0xffff)
}

/// The flags packed into a descriptor.
pub open spec fn spec_gdt_flags(e: u64) -> u16 {
    ((e >> 40) & 0xf0ff) as u16
}

/// The base packed into a descriptor.
pub open spec fn spec_gdt_base(e: u64) -> u32 {
    (((e >> 32) & 0xff00_0000) | ((e >> 16) & 0x00ff_ffff)) as u32
}

/// The limit packed into a descriptor.
pub open spec fn spec_gdt_limit(e: u64) -> u32 {
    (((e >> 32) & 0x000f_0000) | (e & 0xffff)) as u32
}

/// Build one descriptor.
pub fn gdt_entry(flags: u16, base: u32, limit: u32) -> (r: u64)
    ensures
        r == spec_gdt_entry(flags, base, limit),
{
    (((base as u64) & 0xff00_0000) << 32) | (((flags as u64) & 0xf0ff) << 40) | (((limit as u64)
        & 0x000f_0000) << 32) | (((base as u64) & 0x00ff_ffff) << 16) | ((limit as u64) & 0xffff)
}

/// Read the flags back out of a descriptor.
pub fn gdt_entry_flags(e: u64) -> (r: u16)
    ensures
        r == spec_gdt_flags(e),
{
    ((e >> 40) & 0xf0ff) as u16
}

/// Read the base back out of a descriptor.
pub fn gdt_entry_base(e: u64) -> (r: u32)
    ensures
        r == spec_gdt_base(e),
{
    (((e >> 32) & 0xff00_0000) | ((e >> 16) & 0x00ff_ffff)) as u32
}

/// Read the limit back out of a descriptor.
pub fn gdt_entry_limit(e: u64) -> (r: u32)
    ensures
        r == spec_gdt_limit(e),
{
    (((e >> 32) & 0x000f_0000) | (e & 0xffff)) as u32
}

/// Packing flags, base and limit into a descriptor loses nothing: decoding
/// gives back exactly the values that went in, for every access/granularity
/// pattern a descriptor can hold and every 20-bit limit.
pub proof fn lemma_gdt_entry_round_trip(flags: u16, base: u32, limit: u32)
    requires
        flags & 0xf0ff == flags,
        limit < 0x10_0000,
    ensures
        spec_gdt_flags(spec_gdt_entry(flags, base, limit)) == flags,
        spec_gdt_base(spec_gdt_entry(flags, base, limit)) == base,
        spec_gdt_limit(spec_gdt_entry(flags, base, limit)) == limit,
{
    let e = spec_gdt_entry(flags, base, limit);
    assert({
        let e = (((base as u64) & 0xff00_0000) << 32) | (((flags as u64) & 0xf0ff) << 40) | (((
        limit as u64) & 0x000f_0000) << 32) | (((base as u64) & 0x00ff_ffff) << 16) | ((limit
            as u64) & 0xffff);
        flags & 0xf0ff == flags && limit < 0x10_0000 ==> (((e >> 40) & 0xf0ff) as u16 == flags && ((
        (e >> 32) & 0xff00_0000) | ((e >> 16) & 0x00ff_ffff)) as u32 == base && (((e >> 32)
            & 0x000f_0000) | (e & 0xffff)) as u32 == limit)
    }) by (bit_vector);
}

/// A segment register image, as the hypervisor takes it.
#[derive(Debug, Clone, Copy, PartialEq, Eq, Structural)]
pub struct SegmentRegister {
    pub base: u64,
    pub limit: u32,
    pub selector: u16,
    pub type_: u8,
    pub present: u8,
    pub dpl: u8,
    pub db: u8,
    pub s: u8,
    pub l: u8,
    pub g: u8,
    pub avl: u8,
    pub unusable: u8,
}

/// The segment register that descriptor `e` at GDT index `idx` describes.
pub open spec fn spec_segment_from_gdt(e: u64, idx: u8) -> SegmentRegister {
    SegmentRegister {
        base: spec_gdt_base(e) as u64,
        limit: spec_gdt_limit(e),
        selector: (idx * 8) as u16,
        type_: ((e >> 40) & 0xf) as u8,
        present: ((e >> 47) & 0x1) as u8,
        dpl: ((e >> 45) & 0x3) as u8,
        db: ((e >> 54) & 0x1) as u8,
        s: ((e >> 44) & 0x1) as u8,
        l: ((e >> 53) & 0x1) as u8,
        g: ((e >> 55) & 0x1) as u8,
        avl: ((e >> 52) & 0x1) as u8,
        unusable: if (e >> 47) & 0x1 == 0 {
            1u8
        } else {
            0u8
        },
    }
}

impl SegmentRegister {
    /// The segment register described by descriptor `e` at GDT index `idx`.
    pub fn from_gdt(e: u64, idx: u8) -> (r: SegmentRegister)
        requires
            idx < 32,
        ensures
            r == spec_segment_from_gdt(e, idx),
    {
        proof {
            assert((e >> 47) & 0x1 < 2 && (e >> 40) & 0xf < 16 && (e >> 45) & 0x3 < 4 && (e >> 54)
                & 0x1 < 2 && (e >> 44) & 0x1 < 2 && (e >> 53) & 0x1 < 2 && (e >> 55) & 0x1 < 2 && (
            e >> 52) & 0x1 < 2) by (bit_vector);
        }
        let present = ((e >> 47) & 0x1) as u8;
        SegmentRegister {
            base: gdt_entry_base(e) as u64,
            limit: gdt_entry_limit(e),
            selector: idx as u16 * 8,
            type_: ((e >> 40) & 0xf) as u8,
            present,
            dpl: ((e >> 45) & 0x3) as u8,
            db: ((e >> 54) & 0x1) as u8,
            s: ((e >> 44) & 0x1) as u8,
            l: ((e >> 53) & 0x1) as u8,
            g: ((e >> 55) & 0x1) as u8,
            avl: ((e >> 52) & 0x1) as u8,
            unusable: if present == 0 { 1u8 } else { 0u8 },
        }
    }
}

/// Write the boot GDT into guest memory at its fixed address, one 8-byte
/// little-endian descriptor per entry.
pub fn write_gdt_table(table: &[u64], ram: &mut GuestRam) -> (r: Result<(), Error>)
    requires
        old(ram).wf(),
        table@.len() == 4,
        BOOT_GDT_OFFSET + 8 * table@.len() <= old(ram)@.len(),
    ensures
        final(ram).wf(),
        final(ram)@.len() == old(ram)@.len(),
        r is Ok,
        forall|k: int, j: int|
            0 <= k < table@.len() && 0 <= j < 8 ==> final(ram)@[BOOT_GDT_OFFSET + 8 * k + j]
                == vstd::bytes::spec_u64_to_le_bytes(table@[k])[j],
        forall|j: int|
            0 <= j < old(ram)@.len() && !(BOOT_GDT_OFFSET <= j < BOOT_GDT_OFFSET + 8
                * table@.len()) ==> final(ram)@[j] == old(ram)@[j],
{
    let mut i: usize = 0;
    while i < 4
        invariant
            ram.wf(),
            ram@.len() == old(ram)@.len(),
            table@.len() == 4,
            i <= 4,
            BOOT_GDT_OFFSET + 8 * table@.len() <= ram@.len(),
            forall|k: int, j: int|
                0 <= k < i && 0 <= j < 8 ==> ram@[BOOT_GDT_OFFSET + 8 * k + j]
                    == vstd::bytes::spec_u64_to_le_bytes(table@[k])[j],
            forall|j: int|
                0 <= j < old(ram)@.len() && !(BOOT_GDT_OFFSET <= j < BOOT_GDT_OFFSET + 8 * i)
                    ==> ram@[j] == old(ram)@[j],
        decreases 4 - i,
    {
        proof {
            vstd::bytes::lemma_auto_spec_u64_to_from_le_bytes();
        }
        let addr: u64 = BOOT_GDT_OFFSET + 8 * (i as u64);
        let res = ram.write_u64(addr, table[i]);
        proof {
            assert(res is Ok);
        }
        i = i + 1;
    }
    Ok(())
}

/// Write the single zero IDT entry at its fixed address.
pub fn write_idt_value(val: u64, ram: &mut GuestRam) -> (r: Result<(), Error>)
    requires
        old(ram).wf(),
        BOOT_IDT_OFFSET + 8 <= old(ram)@.len(),
    ensures
        final(ram).wf(),
        final(ram)@.len() == old(ram)@.len(),
        r is Ok,
        forall|j: int|
            0 <= j < 8 ==> final(ram)@[BOOT_IDT_OFFSET + j] == vstd::bytes::spec_u64_to_le_bytes(
                val,
            )[j],
        forall|j: int|
            0 <= j < old(ram)@.len() && !(BOOT_IDT_OFFSET <= j < BOOT_IDT_OFFSET + 8)
                ==> final(ram)@[j] == old(ram)@[j],
{
    proof {
        vstd::bytes::lemma_auto_spec_u64_to_from_le_bytes();
    }
    let r = ram.write_u64(BOOT_IDT_OFFSET, val);
    proof {
        assert(r is Ok);
    }
    Ok(())
}

} // verus!
