//! The kernel command line: a bounded byte string built piece by piece and
//! written to guest memory with a terminating NUL.

use vstd::prelude::*;
use vstd::string::StrSliceExecFns;
use vstd::string::StringSliceAdditionalSpecFns;
use crate::Error;

verus! {

/// Whether a byte sequence holds a NUL, which no kernel parameter may.
pub open spec fn has_nul(b: Seq<u8>) -> bool {
    exists|i: int| 0 <= i < b.len() && b[i] == 0
}

/// The ASCII digit for a value below 16, lowercase.
pub open spec fn spec_hex_digit(d: u8) -> u8 {
    if d < 10 {
        (48 + d) as u8
    } else {
        (87 + d) as u8
    }
}

/// The ASCII bytes of `v` in lowercase hexadecimal, no leading zeros.
pub open spec fn spec_hex_bytes(v: u64) -> Seq<u8>
    decreases v,
{
    if v < 16 {
        seq![spec_hex_digit(v as u8)]
    } else {
        spec_hex_bytes(v / 16).push(spec_hex_digit((v % 16) as u8))
    }
}

/// The ASCII bytes of `v` in decimal, no leading zeros.
pub open spec fn spec_dec_bytes(v: u32) -> Seq<u8>
    decreases v,
{
    if v < 10 {
        seq![spec_hex_digit(v as u8)]
    } else {
        spec_dec_bytes(v / 10).push(spec_hex_digit((v % 10) as u8))
    }
}

fn hex_digit(d: u8) -> (r: u8)
    requires
        d < 16,
    ensures
        r == spec_hex_digit(d),
{
    if d < 10 {
        48 + d
    } else {
        87 + d
    }
}

/// Format `v` in lowercase hexadecimal.
pub fn hex_bytes(v: u64) -> (r: Vec<u8>)
    ensures
        r@ == spec_hex_bytes(v),
    decreases v,
{
    if v < 16 {
        let mut r: Vec<u8> = Vec::new();
        r.push(hex_digit(v as u8));
        proof {
            assert(r@ =~= spec_hex_bytes(v));
        }
        r
    } else {
        let mut r = hex_bytes(v / 16);
        r.push(hex_digit((v % 16) as u8));
        r
    }
}

/// Format `v` in decimal.
pub fn dec_bytes(v: u32) -> (r: Vec<u8>)
    ensures
        r@ == spec_dec_bytes(v),
    decreases v,
{
    if v < 10 {
        let mut r: Vec<u8> = Vec::new();
        r.push(hex_digit(v as u8));
        proof {
            assert(r@ =~= spec_dec_bytes(v));
        }
        r
    } else {
        let mut r = dec_bytes(v / 10);
        r.push(hex_digit((v % 10) as u8));
        r
    }
}

/// The guest kernel command line, capacity 4096 bytes with the terminator.
pub struct Cmdline {
    bytes: Vec<u8>,
}

impl Cmdline {
    /// The content never outgrows its capacity, terminator excluded.
    pub closed spec fn wf(&self) -> bool {
        self.bytes@.len() <= 4095
    }

    /// The command-line bytes, terminator excluded.
    pub closed spec fn view(&self) -> Seq<u8> {
        self.bytes@
    }

    /// A well-formed line always fits its capacity with the terminator.
    pub proof fn lemma_wf_len(&self)
        requires
            self.wf(),
        ensures
            self@.len() <= 4095,
    {
    }

    /// An empty command line.
    pub fn new() -> (r: Cmdline)
        ensures
            r.wf(),
            r@ == Seq::<u8>::empty(),
    {
        Cmdline { bytes: Vec::new() }
    }

    /// Length in bytes, terminator excluded.
    pub fn len(&self) -> (r: usize)
        ensures
            r == self@.len(),
    {
        self.bytes.len()
    }

    /// Append `s`, separated from earlier content by one space.  Fails,
    /// leaving the line unchanged, on a NUL byte or when the line would
    /// outgrow its capacity.
    pub fn insert_str(&mut self, s: &str) -> (r: Result<(), Error>)
        requires
            old(self).wf(),
        ensures
            final(self).wf(),
            r is Ok <==> !has_nul(s.spec_bytes()) && spec_appended(old(self)@, s.spec_bytes()).len()
                <= 4095,
            r is Ok ==> final(self)@ == spec_appended(old(self)@, s.spec_bytes()),
            r is Err ==> final(self)@ == old(self)@,
            r is Err ==> (r->Err_0 == Error::CmdlineNotUtf8 <==> has_nul(s.spec_bytes())),
            r is Err && !has_nul(s.spec_bytes()) ==> r->Err_0 == Error::CmdlineTooLong,
    {
        let b = s.as_bytes_vec();
        let mut i: usize = 0;
        while i < b.len()
            invariant
                i <= b.len(),
                forall|j: int| 0 <= j < i ==> b@[j] != 0,
                b@ == s.spec_bytes(),
                self == old(self),
                old(self).wf(),
            decreases b.len() - i,
        {
            if b[i] == 0 {
                return Err(Error::CmdlineNotUtf8);
            }
            i = i + 1;
        }
        let sep: usize = if self.bytes.len() == 0 {
            0
        } else {
            1
        };
        if b.len() > 4095 - sep || self.bytes.len() > 4095 - sep - b.len() {
            return Err(Error::CmdlineTooLong);
        }
        if sep == 1 {
            self.bytes.push(32);
        }
        let mut k: usize = 0;
        while k < b.len()
            invariant
                k <= b.len(),
                self.bytes@ == (if sep == 1 {
                    old(self)@.push(32u8)
                } else {
                    old(self)@
                }) + b@.subrange(0, k as int),
                old(self)@.len() + sep + b@.len() <= 4095,
                sep == 1 <==> old(self)@.len() > 0,
                b@ == s.spec_bytes(),
                !has_nul(s.spec_bytes()),
            decreases b.len() - k,
        {
            self.bytes.push(b[k]);
            proof {
                assert(b@.subrange(0, k + 1) =~= b@.subrange(0, k as int).push(b@[k as int]));
            }
            k = k + 1;
        }
        proof {
            assert(b@.subrange(0, b@.len() as int) =~= b@);
            assert(self.bytes@ =~= spec_appended(old(self)@, s.spec_bytes()));
        }
        Ok(())
    }

    /// Append the virtio-mmio device clause for a 4 KiB slot at `base` on
    /// interrupt `irq`, as the guest kernel parses it.
    pub fn add_virtio_mmio_device(&mut self, base: u64, irq: u32) -> (r: Result<(), Error>)
        requires
            old(self).wf(),
        ensures
            final(self).wf(),
            r is Ok <==> old(self)@.len() + 1 + ("virtio_mmio.device=4K@0x".spec_bytes()
                + spec_hex_bytes(base) + seq![58u8] + spec_dec_bytes(irq)).len() <= 4095,
            r is Ok ==> final(self)@ == old(self)@ + seq![32u8] + "virtio_mmio.device=4K@0x".spec_bytes()
                + spec_hex_bytes(base) + seq![58u8] + spec_dec_bytes(irq),
            r is Err ==> final(self)@ == old(self)@ && r->Err_0 == Error::CmdlineTooLong,
    {
        let mut clause = "virtio_mmio.device=4K@0x".as_bytes_vec();
        let mut hex = hex_bytes(base);
        let mut dec = dec_bytes(irq);
        clause.append(&mut hex);
        clause.push(58);
        clause.append(&mut dec);
        proof {
            assert(clause@ =~= "virtio_mmio.device=4K@0x".spec_bytes() + spec_hex_bytes(base)
                + seq![58u8] + spec_dec_bytes(irq));
        }
        if clause.len() > 4094 || self.bytes.len() > 4094 - clause.len() {
            return Err(Error::CmdlineTooLong);
        }
        self.bytes.push(32);
        let mut k: usize = 0;
        while k < clause.len()
            invariant
                k <= clause.len(),
                self.bytes@ == old(self)@.push(32u8) + clause@.subrange(0, k as int),
                old(self)@.len() + 1 + clause@.len() <= 4095,
                clause@ == "virtio_mmio.device=4K@0x".spec_bytes() + spec_hex_bytes(base)
                    + seq![58u8] + spec_dec_bytes(irq),
            decreases clause.len() - k,
        {
            self.bytes.push(clause[k]);
            proof {
                assert(clause@.subrange(0, k + 1) =~= clause@.subrange(0, k as int).push(
                    clause@[k as int],
                ));
            }
            k = k + 1;
        }
        proof {
            assert(clause@.subrange(0, clause@.len() as int) =~= clause@);
            assert(self.bytes@ =~= old(self)@ + seq![32u8] + "virtio_mmio.device=4K@0x".spec_bytes()
                + spec_hex_bytes(base) + seq![58u8] + spec_dec_bytes(irq));
        }
        Ok(())
    }

    /// The bytes to place in guest memory: the content plus the NUL
    /// terminator.
    pub fn as_bytes_nul(&self) -> (r: Vec<u8>)
        ensures
            r@ == self@.push(0u8),
    {
        let mut r: Vec<u8> = Vec::new();
        let mut k: usize = 0;
        while k < self.bytes.len()
            invariant
                k <= self.bytes@.len(),
                r@ == self.bytes@.subrange(0, k as int),
            decreases self.bytes@.len() - k,
        {
            r.push(self.bytes[k]);
            proof {
                assert(self.bytes@.subrange(0, k + 1) =~= self.bytes@.subrange(0, k as int).push(
                    self.bytes@[k as int],
                ));
            }
            k = k + 1;
        }
        r.push(0);
        proof {
            assert(self.bytes@.subrange(0, self.bytes@.len() as int) =~= self.bytes@);
        }
        r
    }
}

/// `s` extended by `b`, with a single separating space when `s` is not
/// empty.
pub open spec fn spec_appended(s: Seq<u8>, b: Seq<u8>) -> Seq<u8> {
    if s.len() == 0 {
        b
    } else {
        s.push(32u8) + b
    }
}

} // verus!
