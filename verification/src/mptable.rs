//! The MP floating pointer and configuration table, describing the CPU
//! topology to the guest, checksummed as the MultiProcessor specification
//! demands.

use vstd::prelude::*;
use vstd::bytes::spec_u32_to_le_bytes;
use crate::Error;
use crate::layout::MPTABLE_START;
use crate::mem::{bytes_at, GuestRam};

verus! {

/// Version byte of a local APIC.
pub const APIC_VERSION: u8 = 0x14;

/// Sum of a byte sequence, as the MP checksum counts it.
pub open spec fn bytes_sum(s: Seq<u8>) -> int
    decreases s.len(),
{
    if s.len() == 0 {
        0
    } else {
        bytes_sum(s.drop_last()) + s.last()
    }
}

proof fn lemma_bytes_sum_update(s: Seq<u8>, i: int, v: u8)
    requires
        0 <= i < s.len(),
    ensures
        bytes_sum(s.update(i, v)) == bytes_sum(s) - s[i] + v,
    decreases s.len(),
{
    if i == s.len() - 1 {
        assert(s.update(i, v).drop_last() =~= s.drop_last());
    } else {
        assert(s.update(i, v).drop_last() =~= s.drop_last().update(i, v));
        lemma_bytes_sum_update(s.drop_last(), i, v);
    }
}

/// Replace the zero placeholder at `at` so that the bytes in
/// `[start, end)` sum to a multiple of 256.
fn fix_checksum(v: &mut Vec<u8>, start: usize, end: usize, at: usize)
    requires
        start <= at < end <= old(v)@.len(),
        end - start <= 0x10000,
        old(v)@[at as int] == 0,
    ensures
        final(v)@.len() == old(v)@.len(),
        forall|j: int| 0 <= j < old(v)@.len() && j != at ==> final(v)@[j] == old(v)@[j],
        bytes_sum(final(v)@.subrange(start as int, end as int)) % 256 == 0,
{
    let ghost s0 = v@;
    let mut acc: u32 = 0;
    let mut k: usize = start;
    while k < end
        invariant
            start <= k <= end <= v@.len(),
            v@ == s0,
            end - start <= 0x10000,
            acc == bytes_sum(v@.subrange(start as int, k as int)),
            acc <= 255 * (k - start),
        decreases end - k,
    {
        proof {
            assert(s0.subrange(start as int, k + 1).drop_last() =~= s0.subrange(
                start as int,
                k as int,
            ));
        }
        acc = acc + v[k] as u32;
        k = k + 1;
    }
    let c: u8 = ((256u32 - (acc % 256)) % 256) as u8;
    v.set(at, c);
    proof {
        let whole = s0.subrange(start as int, end as int);
        assert(v@.subrange(start as int, end as int) =~= whole.update(at - start, c));
        lemma_bytes_sum_update(whole, at - start, c);
        assert(whole[at - start] == 0);
        assert((acc + c) % 256 == 0) by (nonlinear_arith)
            requires
                c == (256u32 - (acc % 256)) % 256,
                acc >= 0,
        ;
    }
}

/// The 20 bytes of one MP processor entry: enabled, bootstrap flag on the
/// first CPU, APIC id equal to the CPU index, family 6, FPU and APIC
/// feature bits.
pub open spec fn cpu_entry_bytes(k: u8) -> Seq<u8> {
    seq![
        0u8,
        k,
        APIC_VERSION,
        (if k == 0 {
            3u8
        } else {
            1u8
        }),
        0u8,
        6u8,
        0u8,
        0u8,
        1u8,
        2u8,
        0u8,
        0u8,
        0u8,
        0u8,
        0u8,
        0u8,
        0u8,
        0u8,
        0u8,
        0u8,
    ]
}

/// Byte length of the MP configuration table for `n` CPUs: the 44-byte
/// header, `n` processor entries, one bus, one I/O APIC, 16 interrupt
/// sources and 2 local interrupt assignments.
pub open spec fn spec_mpc_len(n: u8) -> int {
    44 + 20 * n + 8 + 8 + 16 * 8 + 2 * 8
}

/// An MP table for `n` CPUs stands in `m` at offset `base`: both
/// structures carry their signatures, checksums that bring every byte sum
/// to 0 mod 256, and one processor entry per CPU with its index as APIC
/// id.
pub open spec fn mptable_at(m: Seq<u8>, base: int, n: u8) -> bool {
    &&& bytes_sum(m.subrange(base, base + 16)) % 256 == 0
    &&& bytes_sum(m.subrange(base + 16, base + 16 + spec_mpc_len(n))) % 256 == 0
    &&& bytes_at(m, base, seq![0x5fu8, 0x4du8, 0x50u8, 0x5fu8])
    &&& bytes_at(m, base + 16, seq![0x50u8, 0x43u8, 0x4du8, 0x50u8])
    &&& forall|k: u8| k < n ==> bytes_at(m, base + 60 + 20 * k, cpu_entry_bytes(k))
}

fn push_u32(v: &mut Vec<u8>, x: u32)
    ensures
        final(v)@ == old(v)@ + spec_u32_to_le_bytes(x),
        final(v)@.len() == old(v)@.len() + 4,
{
    proof {
        vstd::bytes::lemma_auto_spec_u32_to_from_le_bytes();
    }
    let b = vstd::bytes::u32_to_le_bytes(x);
    v.push(b[0]);
    v.push(b[1]);
    v.push(b[2]);
    v.push(b[3]);
    proof {
        assert(v@ =~= old(v)@ + spec_u32_to_le_bytes(x));
    }
}

/// Build the MP floating pointer structure and configuration table for
/// `num_cpus` CPUs, as they go into guest memory at the well-known
/// address.
#[verifier::loop_isolation(false)]
#[verifier::rlimit(60)]
#[verifier::spinoff_prover]
pub fn build_mptable(num_cpus: u8) -> (r: Vec<u8>)
    requires
        num_cpus >= 1,
    ensures
        r@.len() == 16 + spec_mpc_len(num_cpus),
        mptable_at(r@, 0, num_cpus),
{
    let mut t: Vec<u8> = Vec::new();
    // MP floating pointer: signature, pointer to the configuration table,
    // length in paragraphs, revision 1.4, checksum placeholder, features.
    t.push(0x5f);
    t.push(0x4d);
    t.push(0x50);
    t.push(0x5f);
    push_u32(&mut t, (MPTABLE_START + 16) as u32);
    t.push(1);
    t.push(4);
    t.push(0);
    t.push(0);
    t.push(0);
    t.push(0);
    t.push(0);
    t.push(0);
    // Configuration table header: signature, length, revision 1.4,
    // checksum placeholder, OEM and product ids, no OEM table, the local
    // APIC address.
    t.push(0x50);
    t.push(0x43);
    t.push(0x4d);
    t.push(0x50);
    let mpc_len: u16 = 204 + 20 * (num_cpus as u16);
    t.push((mpc_len & 0xff) as u8);
    t.push((mpc_len >> 8) as u8);
    t.push(4);
    t.push(0);
    let mut pad: usize = 0;
    let ghost h24 = t@;
    proof {
        assert(t@.subrange(0, 24) =~= h24);
        assert(h24[10] == 0);
        assert(h24[23] == 0);
        assert(bytes_at(h24, 0, seq![0x5fu8, 0x4du8, 0x50u8, 0x5fu8]));
        assert(bytes_at(h24, 16, seq![0x50u8, 0x43u8, 0x4du8, 0x50u8]));
    }
    while pad < 20
        invariant
            t@.len() == 24 + pad,
            pad <= 20,
            t@.subrange(0, 24) == h24,
        decreases 20 - pad,
    {
        t.push(0x20);
        proof {
            assert(t@.subrange(0, 24) =~= h24);
        }
        pad = pad + 1;
    }
    let ghost hpad = t@;
    proof {
        assert(hpad.subrange(0, 24)[10] == h24[10]);
        assert(hpad.subrange(0, 24)[23] == h24[23]);
        assert(hpad.subrange(0, 24)[0] == h24[0]);
        assert(hpad.subrange(0, 24)[1] == h24[1]);
        assert(hpad.subrange(0, 24)[2] == h24[2]);
        assert(hpad.subrange(0, 24)[3] == h24[3]);
        assert(hpad.subrange(0, 24)[16] == h24[16]);
        assert(hpad.subrange(0, 24)[17] == h24[17]);
        assert(hpad.subrange(0, 24)[18] == h24[18]);
        assert(hpad.subrange(0, 24)[19] == h24[19]);
    }
    push_u32(&mut t, 0);
    t.push(0);
    t.push(0);
    t.push(0);
    t.push(0);
    push_u32(&mut t, 0xfee0_0000);
    push_u32(&mut t, 0);
    // One processor entry per CPU.
    let ghost h60 = t@;
    proof {
        assert(t@.len() == 60);
        assert(t@.subrange(0, 60) =~= h60);
        assert(t@[10] == 0);
        assert(t@[23] == 0);
        assert(bytes_at(t@, 0, seq![0x5fu8, 0x4du8, 0x50u8, 0x5fu8]));
        assert(bytes_at(t@, 16, seq![0x50u8, 0x43u8, 0x4du8, 0x50u8]));
    }
    let mut k: u8 = 0;
    while k < num_cpus
        invariant
            t@.len() == 60 + 20 * k,
            k <= num_cpus,
            t@.subrange(0, 60) == h60,
            forall|i: u8| i < k ==> bytes_at(t@, 60 + 20 * i, cpu_entry_bytes(i)),
        decreases num_cpus - k,
    {
        let ghost before = t@;
        t.push(0);
        t.push(k);
        t.push(APIC_VERSION);
        t.push(if k == 0 {
            3
        } else {
            1
        });
        t.push(0);
        t.push(6);
        t.push(0);
        t.push(0);
        t.push(1);
        t.push(2);
        t.push(0);
        t.push(0);
        t.push(0);
        t.push(0);
        t.push(0);
        t.push(0);
        t.push(0);
        t.push(0);
        t.push(0);
        t.push(0);
        proof {
            assert(t@.subrange(0, 60) =~= h60);
            assert(bytes_at(t@, 60 + 20 * (k as int), cpu_entry_bytes(k)));
            assert forall|i: u8| i < k implies bytes_at(
                t@,
                60 + 20 * i,
                cpu_entry_bytes(i),
            ) by {
                assert(bytes_at(before, 60 + 20 * i, cpu_entry_bytes(i)));
                assert forall|j: int| 0 <= j < 20 implies #[trigger] t@[60 + 20 * i + j] == before[60 + 20 * i
                    + j] by {
                    assert(60 + 20 * i + j < before.len());
                }
            }
        }
        k = k + 1;
    }
    let ghost hcpu = t@;
    proof {
        assert(hcpu.subrange(0, 60) == h60);
        assert(hcpu[10] == 0);
        assert(hcpu[23] == 0);
        assert(bytes_at(hcpu, 0, seq![0x5fu8, 0x4du8, 0x50u8, 0x5fu8]));
        assert(bytes_at(hcpu, 16, seq![0x50u8, 0x43u8, 0x4du8, 0x50u8]));
    }
    // One ISA bus.
    t.push(1);
    t.push(0);
    t.push(0x49);
    t.push(0x53);
    t.push(0x41);
    t.push(0x20);
    t.push(0x20);
    t.push(0x20);
    // One I/O APIC, id one past the last CPU's.
    t.push(2);
    t.push(num_cpus);
    t.push(0x11);
    t.push(1);
    push_u32(&mut t, 0xfec0_0000);
    // Sixteen interrupt sources, ISA IRQ i to I/O APIC pin i.
    let mut irq: u8 = 0;
    let ghost hbus = t@;
    proof {
        assert(t@.subrange(0, hbus.len() as int) =~= hbus);
        assert(hbus.subrange(0, hcpu.len() as int) =~= hcpu);
    }
    while irq < 16
        invariant
            t@.len() == hbus.len() + 8 * irq,
            irq <= 16,
            t@.subrange(0, hbus.len() as int) == hbus,
        decreases 16 - irq,
    {
        t.push(3);
        t.push(0);
        t.push(0);
        t.push(0);
        t.push(0);
        t.push(irq);
        t.push(num_cpus);
        t.push(irq);
        proof {
            assert(t@.subrange(0, hbus.len() as int) =~= hbus);
        }
        irq = irq + 1;
    }
    let ghost hirq = t@;
    proof {
        assert(hirq.subrange(0, hcpu.len() as int) =~= hcpu);
    }
    // Two local interrupt assignments: ExtINT on LINT0, NMI on LINT1.
    t.push(4);
    t.push(3);
    t.push(0);
    t.push(0);
    t.push(0);
    t.push(0);
    t.push(0);
    t.push(0);
    t.push(4);
    t.push(1);
    t.push(0);
    t.push(0);
    t.push(0);
    t.push(0);
    t.push(0xff);
    t.push(1);
    proof {
        assert(t@.len() == 16 + spec_mpc_len(num_cpus));
        assert(t@.subrange(0, hcpu.len() as int) =~= hcpu);
        assert(t@[10] == 0);
        assert(t@[23] == 0);
        assert forall|i: u8| i < num_cpus implies bytes_at(
            t@,
            60 + 20 * i,
            cpu_entry_bytes(i),
        ) by {
            assert(bytes_at(hcpu, 60 + 20 * i, cpu_entry_bytes(i)));
            assert forall|j: int| 0 <= j < 20 implies #[trigger] t@[60 + 20 * i + j] == hcpu[60
                + 20 * i + j] by {
                assert(60 + 20 * i + j < hcpu.len());
                assert(t@.subrange(0, hcpu.len() as int)[60 + 20 * i + j] == hcpu[60 + 20 * i + j]);
            }
        }
        assert(bytes_at(t@, 0, seq![0x5fu8, 0x4du8, 0x50u8, 0x5fu8]));
        assert(bytes_at(t@, 16, seq![0x50u8, 0x43u8, 0x4du8, 0x50u8]));
    }
    let total: usize = t.len();
    let ghost built = t@;
    fix_checksum(&mut t, 0, 16, 10);
    let ghost after1 = t@;
    fix_checksum(&mut t, 16, total, 23);
    proof {
        assert(t@.subrange(0, 16) =~= after1.subrange(0, 16));
        assert(bytes_at(t@, 0, seq![0x5fu8, 0x4du8, 0x50u8, 0x5fu8]));
        assert(bytes_at(t@, 16, seq![0x50u8, 0x43u8, 0x4du8, 0x50u8]));
        assert forall|i: u8| i < num_cpus implies bytes_at(
            t@,
            60 + 20 * i,
            cpu_entry_bytes(i),
        ) by {
            assert(bytes_at(built, 60 + 20 * i, cpu_entry_bytes(i)));
            assert forall|j: int| 0 <= j < 20 implies #[trigger] t@[60 + 20 * i + j] == built[60 + 20 * i
                + j] by {
                assert(60 + 20 * i + j != 10 && 60 + 20 * i + j != 23);
            }
        }
    }
    t
}

/// Install the MP table for `num_cpus` CPUs in guest memory at the
/// well-known address below 1 MiB.
pub fn setup_mptable(ram: &mut GuestRam, num_cpus: u8) -> (r: Result<(), Error>)
    requires
        old(ram).wf(),
        num_cpus >= 1,
        old(ram)@.len() >= 0x100000,
    ensures
        final(ram).wf(),
        final(ram)@.len() == old(ram)@.len(),
        r is Ok,
        mptable_at(final(ram)@, MPTABLE_START as int, num_cpus),
        forall|j: int|
            0 <= j < old(ram)@.len() && !(MPTABLE_START <= j < MPTABLE_START + 16 + spec_mpc_len(
                num_cpus,
            )) ==> final(ram)@[j] == old(ram)@[j],
{
    let table = build_mptable(num_cpus);
    let w = ram.write_slice(MPTABLE_START, table.as_slice());
    proof {
        assert(w is Ok);
        let m = ram@;
        let base = MPTABLE_START as int;
        assert(m.subrange(base, base + 16) =~= table@.subrange(0, 16));
        assert(m.subrange(base + 16, base + 16 + spec_mpc_len(num_cpus)) =~= table@.subrange(
            16,
            16 + spec_mpc_len(num_cpus),
        ));
        assert(bytes_sum(m.subrange(base, base + 16)) % 256 == 0);
    }
    Ok(())
}

} // verus!
