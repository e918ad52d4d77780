//! Guest physical memory.
//!
//! The backing is a single anonymous, page-aligned host mapping provided by
//! the `vm-memory` crate, so that the same bytes the library writes can be
//! handed to KVM as the guest's one memory slot.  The mapping is opaque
//! here; `mem_bytes` names its contents, and three trusted wrappers state
//! what `vm-memory` does to them.  Everything else in this module is
//! verified: bounds checks, typed little-endian accessors, and the
//! round-trip and out-of-bounds laws.
//!
//! The contracts describe the monitor's own accesses.  Once vCPUs run,
//! the guest writes this memory concurrently; whatever the device models
//! read from it they treat as untrusted input and bounds-check anew.

use vstd::prelude::*;
use vstd::bytes::*;
use vm_memory::Bytes;
use crate::Error;

verus! {

#[verifier::external_type_specification]
#[verifier::external_body]
#[verifier::reject_recursive_types(R)]
pub struct ExGuestRegionCollection<R>(vm_memory::GuestRegionCollection<R>);

#[verifier::external_type_specification]
#[verifier::external_body]
#[verifier::reject_recursive_types(B)]
pub struct ExGuestRegionMmap<B>(vm_memory::GuestRegionMmap<B>);

/// The bytes held by a guest memory mapping, lowest guest address first.
pub uninterp spec fn mem_bytes(m: &vm_memory::GuestMemoryMmap) -> Seq<u8>;

/// Relies on `vm_memory::GuestMemoryMmap::from_ranges`: one region at guest
/// address 0 is backed by a fresh anonymous private mapping, which the host
/// kernel hands out zero-filled.
#[verifier::external_body]
fn gm_create(size: usize) -> (r: Result<vm_memory::GuestMemoryMmap, ()>)
    requires
        size > 0,
    ensures
        r is Ok ==> mem_bytes(&r->Ok_0) == Seq::new(size as nat, |i: int| 0u8),
{
    match vm_memory::GuestMemoryMmap::from_ranges(&[(vm_memory::GuestAddress(0), size)]) {
        Ok(m) => Ok(m),
        Err(_) => Err(()),
    }
}

/// Relies on `vm_memory::Bytes::write_slice`: within a single region an
/// in-bounds write copies the whole slice to the given guest address and
/// touches nothing else.
#[verifier::external_body]
fn gm_write_slice(m: &mut vm_memory::GuestMemoryMmap, addr: u64, buf: &[u8])
    requires
        addr + buf@.len() <= mem_bytes(&*old(m)).len(),
    ensures
        mem_bytes(&*final(m)) == splice_bytes(mem_bytes(&*old(m)), addr as int, buf@),
{
    m.write_slice(buf, vm_memory::GuestAddress(addr)).expect("in-bounds guest memory write");
}

/// Relies on `vm_memory::Bytes::read_slice`: within a single region an
/// in-bounds read fills the whole slice from the given guest address.
#[verifier::external_body]
fn gm_read_vec(m: &vm_memory::GuestMemoryMmap, addr: u64, len: usize) -> (r: Vec<u8>)
    requires
        addr + len <= mem_bytes(m).len(),
    ensures
        r@ == mem_bytes(m).subrange(addr as int, addr as int + len as int),
{
    let mut buf = vec![0u8; len];
    m.read_slice(&mut buf, vm_memory::GuestAddress(addr)).expect("in-bounds guest memory read");
    buf
}

/// The byte sequence `s` with `b` written at offset `a`.
pub open spec fn splice_bytes(s: Seq<u8>, a: int, b: Seq<u8>) -> Seq<u8> {
    Seq::new(s.len(), |j: int| if a <= j < a + b.len() { b[j - a] } else { s[j] })
}

/// The guest's physical memory: a single region starting at address 0.
pub struct GuestRam {
    mem: vm_memory::GuestMemoryMmap,
    size: usize,
}

impl GuestRam {
    /// The cached size agrees with the mapping.
    pub closed spec fn wf(&self) -> bool {
        self.size == mem_bytes(&self.mem).len() && self.size > 0
    }

    /// The guest memory contents, one byte per guest physical address.
    pub closed spec fn view(&self) -> Seq<u8> {
        mem_bytes(&self.mem)
    }

    /// Allocate `mem_mib` MiB of zeroed guest memory at guest address 0.
    pub fn new(mem_mib: u32) -> (r: Result<GuestRam, Error>)
        ensures
            r is Ok ==> r->Ok_0.wf(),
            r is Ok ==> r->Ok_0@ == Seq::new(mem_mib as nat * 0x100000, |i: int| 0u8),
            r is Err ==> r->Err_0 == Error::MemoryAlloc,
            mem_mib == 0 ==> r is Err,
    {
        if mem_mib == 0 {
            return Err(Error::MemoryAlloc);
        }
        let wide: u64 = (mem_mib as u64) * 0x100000;
        if wide > usize::MAX as u64 {
            return Err(Error::MemoryAlloc);
        }
        let size: usize = wide as usize;
        match gm_create(size) {
            Ok(mem) => Ok(GuestRam { mem, size }),
            Err(()) => Err(Error::MemoryAlloc),
        }
    }

    /// Guest memory is a host allocation: its size fits the host's word.
    pub proof fn lemma_len_bound(&self)
        requires
            self.wf(),
        ensures
            self@.len() <= usize::MAX,
            self@.len() > 0,
    {
    }

    /// Size of guest memory in bytes.
    pub fn len(&self) -> (r: usize)
        requires
            self.wf(),
        ensures
            r == self@.len(),
    {
        self.size
    }

    /// The underlying mapping, for registration with the hypervisor.
    pub fn inner(&self) -> &vm_memory::GuestMemoryMmap {
        &self.mem
    }

    /// Write `buf` at guest address `addr`; out-of-bounds writes fail and
    /// leave memory unchanged.
    pub fn write_slice(&mut self, addr: u64, buf: &[u8]) -> (r: Result<(), Error>)
        requires
            old(self).wf(),
        ensures
            final(self).wf(),
            final(self)@.len() == old(self)@.len(),
            r is Ok <==> addr + buf@.len() <= old(self)@.len(),
            r is Ok ==> final(self)@ == splice_bytes(old(self)@, addr as int, buf@),
            r is Err ==> final(self)@ == old(self)@ && r->Err_0 == Error::MemoryOob,
    {
        if buf.len() as u64 > self.size as u64 || addr > self.size as u64 - buf.len() as u64 {
            return Err(Error::MemoryOob);
        }
        gm_write_slice(&mut self.mem, addr, buf);
        Ok(())
    }

    /// Read `len` bytes at guest address `addr`; out-of-bounds reads fail.
    pub fn read_vec(&self, addr: u64, len: usize) -> (r: Result<Vec<u8>, Error>)
        requires
            self.wf(),
        ensures
            r is Ok <==> addr + len <= self@.len(),
            r is Ok ==> r->Ok_0@ == self@.subrange(addr as int, addr as int + len as int),
            r is Err ==> r->Err_0 == Error::MemoryOob,
    {
        if len as u64 > self.size as u64 || addr > self.size as u64 - len as u64 {
            return Err(Error::MemoryOob);
        }
        Ok(gm_read_vec(&self.mem, addr, len))
    }

    /// Write one byte.
    pub fn write_u8(&mut self, addr: u64, v: u8) -> (r: Result<(), Error>)
        requires
            old(self).wf(),
        ensures
            final(self).wf(),
            final(self)@.len() == old(self)@.len(),
            r is Ok <==> addr + 1 <= old(self)@.len(),
            r is Ok ==> final(self)@ == splice_bytes(old(self)@, addr as int, seq![v]),
            r is Err ==> final(self)@ == old(self)@ && r->Err_0 == Error::MemoryOob,
    {
        let buf: [u8; 1] = [v];
        let r = self.write_slice(addr, buf.as_slice());
        proof {
            assert(buf@ =~= seq![v]);
        }
        r
    }

    /// Write a little-endian 16-bit word.
    pub fn write_u16(&mut self, addr: u64, v: u16) -> (r: Result<(), Error>)
        requires
            old(self).wf(),
        ensures
            final(self).wf(),
            final(self)@.len() == old(self)@.len(),
            r is Ok <==> addr + 2 <= old(self)@.len(),
            r is Ok ==> final(self)@ == splice_bytes(old(self)@, addr as int, spec_u16_to_le_bytes(v)),
            r is Err ==> final(self)@ == old(self)@ && r->Err_0 == Error::MemoryOob,
    {
        proof {
            lemma_auto_spec_u16_to_from_le_bytes();
        }
        let bytes = u16_to_le_bytes(v);
        self.write_slice(addr, bytes.as_slice())
    }

    /// Write a little-endian 32-bit word.
    pub fn write_u32(&mut self, addr: u64, v: u32) -> (r: Result<(), Error>)
        requires
            old(self).wf(),
        ensures
            final(self).wf(),
            final(self)@.len() == old(self)@.len(),
            r is Ok <==> addr + 4 <= old(self)@.len(),
            r is Ok ==> final(self)@ == splice_bytes(old(self)@, addr as int, spec_u32_to_le_bytes(v)),
            r is Err ==> final(self)@ == old(self)@ && r->Err_0 == Error::MemoryOob,
    {
        proof {
            lemma_auto_spec_u32_to_from_le_bytes();
        }
        let bytes = u32_to_le_bytes(v);
        self.write_slice(addr, bytes.as_slice())
    }

    /// Write a little-endian 64-bit word.
    pub fn write_u64(&mut self, addr: u64, v: u64) -> (r: Result<(), Error>)
        requires
            old(self).wf(),
        ensures
            final(self).wf(),
            final(self)@.len() == old(self)@.len(),
            r is Ok <==> addr + 8 <= old(self)@.len(),
            r is Ok ==> final(self)@ == splice_bytes(old(self)@, addr as int, spec_u64_to_le_bytes(v)),
            r is Err ==> final(self)@ == old(self)@ && r->Err_0 == Error::MemoryOob,
    {
        proof {
            lemma_auto_spec_u64_to_from_le_bytes();
        }
        let bytes = u64_to_le_bytes(v);
        self.write_slice(addr, bytes.as_slice())
    }

    /// Read one byte.
    pub fn read_u8(&self, addr: u64) -> (r: Result<u8, Error>)
        requires
            self.wf(),
        ensures
            r is Ok <==> addr + 1 <= self@.len(),
            r is Ok ==> r->Ok_0 == self@[addr as int],
            r is Err ==> r->Err_0 == Error::MemoryOob,
    {
        let v = self.read_vec(addr, 1)?;
        Ok(v[0])
    }

    /// Read a little-endian 16-bit word.
    pub fn read_u16(&self, addr: u64) -> (r: Result<u16, Error>)
        requires
            self.wf(),
        ensures
            r is Ok <==> addr + 2 <= self@.len(),
            r is Ok ==> r->Ok_0 == spec_u16_from_le_bytes(
                self@.subrange(addr as int, addr as int + 2),
            ),
            r is Err ==> r->Err_0 == Error::MemoryOob,
    {
        let v = self.read_vec(addr, 2)?;
        Ok(u16_from_le_bytes(v.as_slice()))
    }

    /// Read a little-endian 32-bit word.
    pub fn read_u32(&self, addr: u64) -> (r: Result<u32, Error>)
        requires
            self.wf(),
        ensures
            r is Ok <==> addr + 4 <= self@.len(),
            r is Ok ==> r->Ok_0 == spec_u32_from_le_bytes(
                self@.subrange(addr as int, addr as int + 4),
            ),
            r is Err ==> r->Err_0 == Error::MemoryOob,
    {
        let v = self.read_vec(addr, 4)?;
        Ok(u32_from_le_bytes(v.as_slice()))
    }

    /// Read a little-endian 64-bit word.
    pub fn read_u64(&self, addr: u64) -> (r: Result<u64, Error>)
        requires
            self.wf(),
        ensures
            r is Ok <==> addr + 8 <= self@.len(),
            r is Ok ==> r->Ok_0 == spec_u64_from_le_bytes(
                self@.subrange(addr as int, addr as int + 8),
            ),
            r is Err ==> r->Err_0 == Error::MemoryOob,
    {
        let v = self.read_vec(addr, 8)?;
        Ok(u64_from_le_bytes(v.as_slice()))
    }
}

/// The bytes `b` stand in `m` at offset `a`.
pub open spec fn bytes_at(m: Seq<u8>, a: int, b: Seq<u8>) -> bool {
    forall|j: int| 0 <= j < b.len() ==> m[a + j] == b[j]
}

/// The byte `v` stands in `m` at offset `a`.
pub open spec fn u8_at(m: Seq<u8>, a: int, v: u8) -> bool {
    bytes_at(m, a, seq![v])
}

/// The little-endian 16-bit word `v` stands in `m` at offset `a`.
pub open spec fn u16_at(m: Seq<u8>, a: int, v: u16) -> bool {
    bytes_at(m, a, spec_u16_to_le_bytes(v))
}

/// The little-endian 32-bit word `v` stands in `m` at offset `a`.
pub open spec fn u32_at(m: Seq<u8>, a: int, v: u32) -> bool {
    bytes_at(m, a, spec_u32_to_le_bytes(v))
}

/// The little-endian 64-bit word `v` stands in `m` at offset `a`.
pub open spec fn u64_at(m: Seq<u8>, a: int, v: u64) -> bool {
    bytes_at(m, a, spec_u64_to_le_bytes(v))
}

/// Bytes already in place survive writes that do not touch them.
pub proof fn lemma_bytes_at_preserved(m1: Seq<u8>, m2: Seq<u8>, a: int, b: Seq<u8>)
    requires
        bytes_at(m1, a, b),
        forall|j: int| a <= j < a + b.len() ==> m2[j] == m1[j],
    ensures
        bytes_at(m2, a, b),
{
}

/// A word written into memory is the word a read at the same address
/// returns: encoding `v`, splicing it in at `a` and decoding that range
/// gives back exactly `v`.
pub proof fn lemma_word_round_trip(s: Seq<u8>, a: int, v: u64)
    requires
        0 <= a,
        a + 8 <= s.len(),
    ensures
        spec_u64_from_le_bytes(
            splice_bytes(s, a, spec_u64_to_le_bytes(v)).subrange(a, a + 8),
        ) == v,
{
    lemma_auto_spec_u64_to_from_le_bytes();
    lemma_splice_round_trip(s, a, spec_u64_to_le_bytes(v));
}

/// Bytes written into memory are the bytes a read at the same address
/// returns: splicing `b` into `s` at `a` and taking that range back yields
/// `b`, and every byte outside the range is untouched.
pub proof fn lemma_splice_round_trip(s: Seq<u8>, a: int, b: Seq<u8>)
    requires
        0 <= a,
        a + b.len() <= s.len(),
    ensures
        splice_bytes(s, a, b).subrange(a, a + b.len() as int) == b,
        forall|j: int|
            0 <= j < s.len() && !(a <= j < a + b.len()) ==> splice_bytes(s, a, b)[j] == s[j],
        splice_bytes(s, a, b).len() == s.len(),
{
    assert(splice_bytes(s, a, b).subrange(a, a + b.len() as int) =~= b);
}

} // verus!
