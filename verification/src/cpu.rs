//! vCPU state for entering 64-bit long mode: general registers, special
//! registers with the boot GDT and identity-mapped page tables, FPU
//! defaults, MSR defaults, the local APIC lines, and the CPUID adjustments
//! each CPU gets.

use vstd::prelude::*;
use vstd::bytes::{spec_u32_to_le_bytes, spec_u32_from_le_bytes};
use crate::Error;
use crate::gdt::{gdt_entry, spec_gdt_entry, spec_segment_from_gdt, write_gdt_table,
    write_idt_value, SegmentRegister};
use crate::layout::{BOOT_GDT_OFFSET, BOOT_IDT_OFFSET, BOOT_STACK_POINTER, PDE_START, PDPTE_START,
    PML4_START, ZEROPG_START};
use crate::mem::{u64_at, GuestRam};

verus! {

/// Protected-mode enable bit of CR0.
pub const X86_CR0_PE: u64 = 0x1;

/// Paging bit of CR0.
pub const X86_CR0_PG: u64 = 0x8000_0000;

/// Physical address extension bit of CR4.
pub const X86_CR4_PAE: u64 = 0x20;

/// Long-mode enable bit of EFER.
pub const EFER_LME: u64 = 0x100;

/// Long-mode active bit of EFER.
pub const EFER_LMA: u64 = 0x400;

/// The general registers the boot CPU starts from.
#[derive(Debug, Clone, Copy, PartialEq, Eq, Structural)]
pub struct VcpuRegs {
    pub rflags: u64,
    pub rip: u64,
    pub rsp: u64,
    pub rbp: u64,
    pub rsi: u64,
}

/// The registers that enter the kernel: reserved-flag bit only, the entry
/// point in `rip`, the boot stack, and the zero page address in `rsi`.
pub fn boot_regs(entry: u64) -> (r: VcpuRegs)
    ensures
        r.rflags == 2,
        r.rip == entry,
        r.rsp == BOOT_STACK_POINTER,
        r.rbp == BOOT_STACK_POINTER,
        r.rsi == ZEROPG_START,
{
    VcpuRegs {
        rflags: 0x2,
        rip: entry,
        rsp: BOOT_STACK_POINTER,
        rbp: BOOT_STACK_POINTER,
        rsi: ZEROPG_START,
    }
}

/// The FPU state the boot CPU starts from.
#[derive(Debug, Clone, Copy, PartialEq, Eq, Structural)]
pub struct VcpuFpu {
    pub fcw: u16,
    pub mxcsr: u32,
}

/// Default FPU control word and MXCSR.
pub fn boot_fpu() -> (r: VcpuFpu)
    ensures
        r.fcw == 0x37f,
        r.mxcsr == 0x1f80,
{
    VcpuFpu { fcw: 0x37f, mxcsr: 0x1f80 }
}

/// The special registers this monitor programs.  Fields the hypervisor
/// reports but the monitor leaves alone are not carried here.
#[derive(Debug, Clone, Copy, PartialEq, Eq, Structural)]
pub struct VcpuSregs {
    pub cs: SegmentRegister,
    pub ds: SegmentRegister,
    pub es: SegmentRegister,
    pub fs: SegmentRegister,
    pub gs: SegmentRegister,
    pub ss: SegmentRegister,
    pub tr: SegmentRegister,
    pub gdt_base: u64,
    pub gdt_limit: u16,
    pub idt_base: u64,
    pub idt_limit: u16,
    pub cr0: u64,
    pub cr3: u64,
    pub cr4: u64,
    pub efer: u64,
}

/// Identity-map the first GiB: one PML4 entry to the PDPT, one PDPT entry
/// to the page directory, and 512 two-MiB directory entries, all present
/// and writable.
pub fn setup_page_tables(ram: &mut GuestRam) -> (r: Result<(), Error>)
    requires
        old(ram).wf(),
        old(ram)@.len() >= 0xc000 + 0x1000,
    ensures
        final(ram).wf(),
        final(ram)@.len() == old(ram)@.len(),
        r is Ok,
        u64_at(final(ram)@, PML4_START as int, PDPTE_START | 0x3),
        u64_at(final(ram)@, PDPTE_START as int, PDE_START | 0x3),
        forall|i: u64| i < 512 ==> u64_at(final(ram)@, PDE_START + 8 * i, (i << 21) | 0x83),
        forall|j: int|
            0 <= j < old(ram)@.len() && !(PML4_START <= j < PDE_START + 0x1000) ==> final(ram)@[j]
                == old(ram)@[j],
{
    proof {
        vstd::bytes::lemma_auto_spec_u64_to_from_le_bytes();
    }
    let w1 = ram.write_u64(PML4_START, PDPTE_START | 0x3);
    proof {
        assert(w1 is Ok);
    }
    let w2 = ram.write_u64(PDPTE_START, PDE_START | 0x3);
    proof {
        assert(w2 is Ok);
    }
    let ghost m0 = old(ram)@;
    let ghost m2 = ram@;
    let mut i: u64 = 0;
    while i < 512
        invariant
            ram.wf(),
            ram@.len() == m2.len(),
            m2.len() >= 0xd000,
            i <= 512,
            u64_at(ram@, PML4_START as int, PDPTE_START | 0x3),
            u64_at(ram@, PDPTE_START as int, PDE_START | 0x3),
            u64_at(m2, PML4_START as int, PDPTE_START | 0x3),
            u64_at(m2, PDPTE_START as int, PDE_START | 0x3),
            forall|k: u64| k < i ==> u64_at(ram@, PDE_START + 8 * k, (k << 21) | 0x83),
            forall|j: int|
                0 <= j < m2.len() && !(PDE_START <= j < PDE_START + 8 * i) ==> ram@[j] == m2[j],
        decreases 512 - i,
    {
        proof {
            vstd::bytes::lemma_auto_spec_u64_to_from_le_bytes();
            assert((i << 21) | 0x83 == (i << 21) + 0x83 && (i << 21) <= 0x3fe0_0000u64) by (bit_vector)
                requires
                    i < 512,
            ;
        }
        let entry: u64 = (i << 21) | 0x83;
        let w = ram.write_u64(PDE_START + 8 * i, entry);
        proof {
            assert(w is Ok);
        }
        i = i + 1;
    }
    proof {
        assert forall|j: int|
            0 <= j < m0.len() && !(PML4_START <= j < PDE_START + 0x1000) implies ram@[j]
            == m0[j] by {
            assert(ram@[j] == m2[j]);
        }
    }
    Ok(())
}

/// The boot GDT: null, 64-bit code, data, and TSS descriptors.
pub open spec fn spec_boot_gdt() -> Seq<u64> {
    seq![
        spec_gdt_entry(0, 0, 0),
        spec_gdt_entry(0xa09b, 0, 0xfffff),
        spec_gdt_entry(0xc093, 0, 0xfffff),
        spec_gdt_entry(0x8b, 0, 0xfffff),
    ]
}

/// Write the boot GDT and IDT into guest memory and fill the special
/// registers for 64-bit long mode: segments drawn from the GDT, table
/// bases and limits, CR3 at the PML4, and protected mode, paging, PAE and
/// long mode turned on.
pub fn configure_sregs(base: VcpuSregs, ram: &mut GuestRam) -> (r: Result<VcpuSregs, Error>)
    requires
        old(ram).wf(),
        old(ram)@.len() >= 0xd000,
    ensures
        final(ram).wf(),
        final(ram)@.len() == old(ram)@.len(),
        r is Ok,
        ({
            let s = r->Ok_0;
            &&& s.cs == spec_segment_from_gdt(spec_boot_gdt()[1], 1)
            &&& s.ds == spec_segment_from_gdt(spec_boot_gdt()[2], 2)
            &&& s.es == s.ds
            &&& s.fs == s.ds
            &&& s.gs == s.ds
            &&& s.ss == s.ds
            &&& s.tr == spec_segment_from_gdt(spec_boot_gdt()[3], 3)
            &&& s.gdt_base == BOOT_GDT_OFFSET
            &&& s.gdt_limit == 31
            &&& s.idt_base == BOOT_IDT_OFFSET
            &&& s.idt_limit == 7
            &&& s.cr0 == base.cr0 | X86_CR0_PE | X86_CR0_PG
            &&& s.cr3 == PML4_START
            &&& s.cr4 == base.cr4 | X86_CR4_PAE
            &&& s.efer == base.efer | EFER_LME | EFER_LMA
            &&& s.cr0 & (X86_CR0_PE | X86_CR0_PG) == X86_CR0_PE | X86_CR0_PG
            &&& s.cr4 & X86_CR4_PAE == X86_CR4_PAE
            &&& s.efer & (EFER_LME | EFER_LMA) == EFER_LME | EFER_LMA
        }),
        forall|k: int|
            0 <= k < 4 ==> u64_at(final(ram)@, BOOT_GDT_OFFSET + 8 * k, spec_boot_gdt()[k]),
        u64_at(final(ram)@, BOOT_IDT_OFFSET as int, 0),
        u64_at(final(ram)@, PML4_START as int, PDPTE_START | 0x3),
        u64_at(final(ram)@, PDPTE_START as int, PDE_START | 0x3),
        forall|i: u64| i < 512 ==> u64_at(final(ram)@, PDE_START + 8 * i, (i << 21) | 0x83),
{
    let mut table: Vec<u64> = Vec::new();
    table.push(gdt_entry(0, 0, 0));
    table.push(gdt_entry(0xa09b, 0, 0xfffff));
    table.push(gdt_entry(0xc093, 0, 0xfffff));
    table.push(gdt_entry(0x8b, 0, 0xfffff));
    proof {
        assert(table@ =~= spec_boot_gdt());
    }
    let code_seg = SegmentRegister::from_gdt(table[1], 1);
    let data_seg = SegmentRegister::from_gdt(table[2], 2);
    let tss_seg = SegmentRegister::from_gdt(table[3], 3);
    let wg = write_gdt_table(table.as_slice(), ram);
    proof {
        assert(wg is Ok);
    }
    let wi = write_idt_value(0, ram);
    proof {
        assert(wi is Ok);
    }
    let wp = setup_page_tables(ram);
    proof {
        assert(wp is Ok);
    }
    let b0: u64 = base.cr0;
    let b4: u64 = base.cr4;
    let be: u64 = base.efer;
    let cr0: u64 = b0 | X86_CR0_PE | X86_CR0_PG;
    let cr4: u64 = b4 | X86_CR4_PAE;
    let efer: u64 = be | EFER_LME | EFER_LMA;
    proof {
        assert(((b0 | 0x1u64) | 0x8000_0000u64) & (0x1u64 | 0x8000_0000u64) == (0x1u64
            | 0x8000_0000u64) && (b4 | 0x20u64) & 0x20u64 == 0x20u64 && ((be | 0x100u64)
            | 0x400u64) & (0x100u64 | 0x400u64) == (0x100u64 | 0x400u64)) by (bit_vector);
        vstd::bytes::lemma_auto_spec_u64_to_from_le_bytes();
    }
    Ok(
        VcpuSregs {
            cs: code_seg,
            ds: data_seg,
            es: data_seg,
            fs: data_seg,
            gs: data_seg,
            ss: data_seg,
            tr: tss_seg,
            gdt_base: BOOT_GDT_OFFSET,
            gdt_limit: 31,
            idt_base: BOOT_IDT_OFFSET,
            idt_limit: 7,
            cr0,
            cr3: PML4_START,
            cr4,
            efer,
        },
    )
}

/// The local APIC register file, 1024 bytes as the hypervisor hands it
/// out.
pub struct LapicState {
    pub regs: Vec<u8>,
}

/// Offset of the LVT LINT0 register.
pub const APIC_LVT0: usize = 0x350;

/// Offset of the LVT LINT1 register.
pub const APIC_LVT1: usize = 0x360;

/// External-interrupt delivery mode.
pub const APIC_MODE_EXTINT: u32 = 0x7;

/// Non-maskable-interrupt delivery mode.
pub const APIC_MODE_NMI: u32 = 0x4;

/// `reg` with its delivery-mode bits set to `mode`.
pub open spec fn spec_set_apic_delivery_mode(reg: u32, mode: u32) -> u32 {
    (reg & !0x700) | (mode << 8)
}

/// Set the delivery-mode bits of an LVT register.
pub fn set_apic_delivery_mode(reg: u32, mode: u32) -> (r: u32)
    requires
        mode < 8,
    ensures
        r == spec_set_apic_delivery_mode(reg, mode),
{
    (reg & !0x700) | (mode << 8)
}

impl LapicState {
    /// The register file has its fixed size.
    pub open spec fn wf(&self) -> bool {
        self.regs@.len() == 1024
    }

    /// Wrap a register file read back from the hypervisor.
    pub fn new(regs: Vec<u8>) -> (r: Result<LapicState, Error>)
        ensures
            r is Ok <==> regs@.len() == 1024,
            r is Ok ==> r->Ok_0.wf() && r->Ok_0.regs@ == regs@,
            r is Err ==> r->Err_0 == Error::KvmIoctl,
    {
        if regs.len() != 1024 {
            return Err(Error::KvmIoctl);
        }
        Ok(LapicState { regs })
    }

    /// Read the 32-bit register at byte offset `off`, little endian.
    pub fn get_reg(&self, off: usize) -> (r: u32)
        requires
            self.wf(),
            off + 4 <= 1024,
        ensures
            r == spec_u32_from_le_bytes(self.regs@.subrange(off as int, off + 4)),
    {
        let b: [u8; 4] = [self.regs[off], self.regs[off + 1], self.regs[off + 2], self.regs[off
            + 3]];
        proof {
            assert(b@ =~= self.regs@.subrange(off as int, off + 4));
        }
        vstd::bytes::u32_from_le_bytes(b.as_slice())
    }

    /// Write the 32-bit register at byte offset `off`, little endian.
    pub fn set_reg(&mut self, off: usize, v: u32)
        requires
            old(self).wf(),
            off + 4 <= 1024,
        ensures
            final(self).wf(),
            forall|j: int|
                0 <= j < 1024 && !(off <= j < off + 4) ==> final(self).regs@[j] == old(
                    self,
                ).regs@[j],
            forall|j: int|
                0 <= j < 4 ==> #[trigger] final(self).regs@[off + j] == spec_u32_to_le_bytes(v)[j],
    {
        proof {
            vstd::bytes::lemma_auto_spec_u32_to_from_le_bytes();
        }
        let b = vstd::bytes::u32_to_le_bytes(v);
        let mut j: usize = 0;
        while j < 4
            invariant
                j <= 4,
                self.regs@.len() == 1024,
                off + 4 <= 1024,
                b@ == spec_u32_to_le_bytes(v),
                b@.len() == 4,
                forall|i: int|
                    0 <= i < 1024 && !(off <= i < off + j) ==> self.regs@[i] == old(self).regs@[i],
                forall|i: int| 0 <= i < j ==> self.regs@[off + i] == b@[i],
            decreases 4 - j,
        {
            self.regs.set(off + j, b[j]);
            j = j + 1;
        }
    }

    /// Program LINT0 for external interrupts and LINT1 for NMI, leaving
    /// every other register alone.
    pub fn configure(&mut self)
        requires
            old(self).wf(),
        ensures
            final(self).wf(),
            forall|j: int|
                0 <= j < 1024 && !(APIC_LVT0 <= j < APIC_LVT0 + 4) && !(APIC_LVT1 <= j < APIC_LVT1
                    + 4) ==> final(self).regs@[j] == old(self).regs@[j],
            forall|j: int|
                0 <= j < 4 ==> #[trigger] final(self).regs@[APIC_LVT0 + j] == spec_u32_to_le_bytes(
                    spec_set_apic_delivery_mode(
                        spec_u32_from_le_bytes(
                            old(self).regs@.subrange(APIC_LVT0 as int, APIC_LVT0 + 4),
                        ),
                        APIC_MODE_EXTINT,
                    ),
                )[j],
            forall|j: int|
                0 <= j < 4 ==> #[trigger] final(self).regs@[APIC_LVT1 + j] == spec_u32_to_le_bytes(
                    spec_set_apic_delivery_mode(
                        spec_u32_from_le_bytes(
                            old(self).regs@.subrange(APIC_LVT1 as int, APIC_LVT1 + 4),
                        ),
                        APIC_MODE_NMI,
                    ),
                )[j],
    {
        let lvt0 = self.get_reg(APIC_LVT0);
        self.set_reg(APIC_LVT0, set_apic_delivery_mode(lvt0, APIC_MODE_EXTINT));
        let lvt1 = self.get_reg(APIC_LVT1);
        proof {
            assert(self.regs@.subrange(APIC_LVT1 as int, APIC_LVT1 + 4) =~= old(
                self,
            ).regs@.subrange(APIC_LVT1 as int, APIC_LVT1 + 4));
        }
        self.set_reg(APIC_LVT1, set_apic_delivery_mode(lvt1, APIC_MODE_NMI));
    }
}

/// Programming the local APIC lines twice is the same as programming them
/// once: the delivery-mode write is absorbing, so setting an already
/// configured state changes nothing.
pub proof fn lemma_lapic_configure_idempotent(reg: u32, mode: u32)
    requires
        mode < 8,
    ensures
        spec_set_apic_delivery_mode(spec_set_apic_delivery_mode(reg, mode), mode)
            == spec_set_apic_delivery_mode(reg, mode),
{
    assert(((reg & !0x700) | (mode << 8)) & !0x700 | (mode << 8) == (reg & !0x700) | (mode
        << 8)) by (bit_vector)
        requires
            mode < 8,
    ;
}

/// One CPUID entry, as the hypervisor lists them.
#[derive(Debug, Clone, Copy, PartialEq, Eq, Structural)]
pub struct CpuidEntry {
    pub function: u32,
    pub index: u32,
    pub flags: u32,
    pub eax: u32,
    pub ebx: u32,
    pub ecx: u32,
    pub edx: u32,
}

/// The adjustment of one CPUID entry for CPU `cpu_id` of `num_cpus`: leaf
/// 1 carries the APIC id, the CPU count and the hypervisor bit; the
/// topology leaves are flattened to make every CPU a sibling thread.
pub open spec fn spec_filter_entry(e: CpuidEntry, cpu_id: u8, num_cpus: u8) -> CpuidEntry {
    if e.function == 0x1 {
        CpuidEntry {
            ebx: ((e.ebx & 0x0000ffff) | ((num_cpus as u32) << 16) | ((cpu_id as u32) << 24)) as u32,
            ecx: (e.ecx | 0x8000_0000) as u32,
            ..e
        }
    } else if e.function == 0xb || e.function == 0x1f {
        CpuidEntry { eax: 0, ebx: 0, ecx: e.index, edx: cpu_id as u32, ..e }
    } else {
        e
    }
}

/// Adjust a hypervisor-supplied CPUID list for one CPU.
pub fn filter_cpuid(cpu_id: u8, num_cpus: u8, entries: &mut Vec<CpuidEntry>)
    ensures
        final(entries)@.len() == old(entries)@.len(),
        forall|k: int|
            0 <= k < old(entries)@.len() ==> final(entries)@[k] == spec_filter_entry(
                old(entries)@[k],
                cpu_id,
                num_cpus,
            ),
{
    let mut k: usize = 0;
    while k < entries.len()
        invariant
            k <= entries@.len(),
            entries@.len() == old(entries)@.len(),
            forall|i: int|
                0 <= i < k ==> entries@[i] == spec_filter_entry(old(entries)@[i], cpu_id, num_cpus),
            forall|i: int| k <= i < entries@.len() ==> entries@[i] == old(entries)@[i],
        decreases entries@.len() - k,
    {
        let e = entries[k];
        if e.function == 0x1 {
            let ebx: u32 = (e.ebx & 0x0000ffff) | ((num_cpus as u32) << 16) | ((cpu_id as u32)
                << 24);
            let ecx: u32 = e.ecx | 0x8000_0000;
            proof {
                let nc = num_cpus;
                let ci = cpu_id;
                let x = e.ebx;
                assert((x & 0x0000ffff) | ((nc as u32) << 16) | ((ci as u32) << 24) <= u32::MAX)
                    by (bit_vector);
            }
            entries.set(k, CpuidEntry { ebx, ecx, ..e });
        } else if e.function == 0xb || e.function == 0x1f {
            entries.set(k, CpuidEntry { eax: 0, ebx: 0, ecx: e.index, edx: cpu_id as u32, ..e });
        }
        k = k + 1;
    }
}

/// One model-specific register and its value.
#[derive(Debug, Clone, Copy, PartialEq, Eq, Structural)]
pub struct MsrEntry {
    pub index: u32,
    pub data: u64,
}

/// The MSRs programmed before boot and their values.
pub open spec fn spec_boot_msrs() -> Seq<MsrEntry> {
    seq![
        MsrEntry { index: 0x174, data: 0 },
        MsrEntry { index: 0x175, data: 0 },
        MsrEntry { index: 0x176, data: 0 },
        MsrEntry { index: 0xc000_0081, data: 0 },
        MsrEntry { index: 0xc000_0082, data: 0 },
        MsrEntry { index: 0xc000_0083, data: 0 },
        MsrEntry { index: 0xc000_0102, data: 0 },
        MsrEntry { index: 0xc000_0084, data: 0 },
        MsrEntry { index: 0x10, data: 0 },
        MsrEntry { index: 0x1a0, data: 1 },
    ]
}

/// The boot MSR list: SYSENTER and SYSCALL machinery zeroed, the kernel GS
/// base and TSC zeroed, and fast-string operations enabled.
pub fn create_boot_msr_entries() -> (r: Vec<MsrEntry>)
    ensures
        r@ == spec_boot_msrs(),
{
    let mut v: Vec<MsrEntry> = Vec::new();
    v.push(MsrEntry { index: 0x174, data: 0 });
    v.push(MsrEntry { index: 0x175, data: 0 });
    v.push(MsrEntry { index: 0x176, data: 0 });
    v.push(MsrEntry { index: 0xc000_0081, data: 0 });
    v.push(MsrEntry { index: 0xc000_0082, data: 0 });
    v.push(MsrEntry { index: 0xc000_0083, data: 0 });
    v.push(MsrEntry { index: 0xc000_0102, data: 0 });
    v.push(MsrEntry { index: 0xc000_0084, data: 0 });
    v.push(MsrEntry { index: 0x10, data: 0 });
    v.push(MsrEntry { index: 0x1a0, data: 1 });
    proof {
        assert(v@ =~= spec_boot_msrs());
    }
    v
}

} // verus!
