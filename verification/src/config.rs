//! The frozen launch configuration: kernel, memory, CPUs, console, and
//! the optional TAP interface whose name must fit the kernel's limit.

use vstd::prelude::*;
use vstd::string::StrSliceExecFns;
use vstd::string::StringSliceAdditionalSpecFns;
use crate::cmdline::{has_nul, Cmdline};

verus! {

/// Interface names hold at most 15 bytes and a terminator.
pub const IFACE_NAME_MAX_LEN: usize = 16;

/// The kernel parameters every guest gets.
pub const KERNEL_CMDLINE_DEFAULT: &'static str = "console=ttyS0 i8042.nokbd reboot=k panic=1 pci=off";

/// Configuration errors, each carrying the offending value.
#[derive(Debug, PartialEq)]
pub enum Error {
    /// The kernel image path or command line cannot be used.
    KernelConfig(String),
    /// The TAP interface name cannot be used.
    TapConfig(String),
}

/// The network configuration: the name of the host TAP interface.
#[derive(Debug, PartialEq)]
pub struct NetConfig {
    pub tap_name: String,
}

impl NetConfig {
    /// Accept a TAP name of at most 15 bytes; the 16th must stay free for
    /// the terminator.
    pub fn try_from(tap_str: String) -> (r: Result<NetConfig, Error>)
        ensures
            r is Ok <==> vstd::utf8::encode_utf8(tap_str@).len() < IFACE_NAME_MAX_LEN,
            r is Ok ==> r->Ok_0.tap_name@ == tap_str@,
            r is Err ==> r->Err_0 == Error::TapConfig(tap_str),
    {
        let b = tap_str.as_str().as_bytes_vec();
        if b.len() >= IFACE_NAME_MAX_LEN {
            return Err(Error::TapConfig(tap_str));
        }
        Ok(NetConfig { tap_name: tap_str })
    }
}

/// The bytes of a C interface name: the name itself, NUL-padded to 16
/// bytes.
pub open spec fn spec_terminated_name(b: Seq<u8>) -> Seq<u8> {
    Seq::new(16, |i: int| if i < b.len() { b[i] } else { 0u8 })
}

/// The NUL-terminated interface name handed to the TAP ioctl.  A name of
/// 16 bytes or more would leave no room for the terminator.
pub fn build_terminated_if_name(if_name: &str) -> (r: Result<Vec<u8>, crate::Error>)
    ensures
        r is Ok <==> if_name.spec_bytes().len() < 16,
        r is Ok ==> r->Ok_0@ == spec_terminated_name(if_name.spec_bytes()),
        r is Err ==> r->Err_0 == crate::Error::TapName,
{
    let b = if_name.as_bytes_vec();
    if b.len() >= 16 {
        return Err(crate::Error::TapName);
    }
    let mut out: Vec<u8> = Vec::new();
    let mut i: usize = 0;
    while i < 16
        invariant
            i <= 16,
            b@.len() < 16,
            b@ == if_name.spec_bytes(),
            out@.len() == i,
            forall|j: int| 0 <= j < i ==> out@[j] == spec_terminated_name(b@)[j],
        decreases 16 - i,
    {
        if i < b.len() {
            out.push(b[i]);
        } else {
            out.push(0);
        }
        i = i + 1;
    }
    proof {
        assert(out@ =~= spec_terminated_name(if_name.spec_bytes()));
    }
    Ok(out)
}

/// As `build_terminated_if_name`: the interface name must leave its
/// sixteenth byte free for the terminator.
pub fn terminated_if_name(if_name: &str) -> (r: Result<Vec<u8>, crate::Error>)
    ensures
        r is Ok <==> if_name.spec_bytes().len() < 16,
        r is Ok ==> r->Ok_0@ == spec_terminated_name(if_name.spec_bytes()),
        r is Err ==> r->Err_0 == crate::Error::TapName,
{
    let b = if_name.as_bytes_vec();
    if b.len() >= 16 {
        return Err(crate::Error::TapName);
    }
    let mut out: Vec<u8> = Vec::new();
    let mut i: usize = 0;
    while i < 16
        invariant
            i <= 16,
            b@.len() < 16,
            b@ == if_name.spec_bytes(),
            out@.len() == i,
            forall|j: int| 0 <= j < i ==> out@[j] == spec_terminated_name(b@)[j],
        decreases 16 - i,
    {
        if i < b.len() {
            out.push(b[i]);
        } else {
            out.push(0);
        }
        i = i + 1;
    }
    proof {
        assert(out@ =~= spec_terminated_name(if_name.spec_bytes()));
    }
    Ok(out)
}

/// An interface request as the TAP ioctl takes it: a 16-byte name and the
/// interface flags.
pub struct IfReq {
    pub ifr_name: Vec<u8>,
    pub flags: i16,
}

/// Builder for an interface request.
pub struct IfReqBuilder(pub IfReq);

impl IfReqBuilder {
    /// An empty request: zero name, zero flags.
    pub fn new() -> (r: IfReqBuilder)
        ensures
            r.0.ifr_name@ == Seq::new(16, |i: int| 0u8),
            r.0.flags == 0,
    {
        let mut name: Vec<u8> = Vec::new();
        let mut i: usize = 0;
        while i < 16
            invariant
                i <= 16,
                name@.len() == i,
                forall|j: int| 0 <= j < i ==> name@[j] == 0u8,
            decreases 16 - i,
        {
            name.push(0);
            i = i + 1;
        }
        proof {
            assert(name@ =~= Seq::new(16, |i: int| 0u8));
        }
        IfReqBuilder(IfReq { ifr_name: name, flags: 0 })
    }

    /// Set the interface name, which must be exactly the 16 padded bytes.
    pub fn if_name(self, if_name: Vec<u8>) -> (r: IfReqBuilder)
        requires
            if_name@.len() == 16,
        ensures
            r.0.ifr_name@ == if_name@,
            r.0.flags == self.0.flags,
    {
        IfReqBuilder(IfReq { ifr_name: if_name, flags: self.0.flags })
    }

    /// Set the interface flags.
    pub fn flags(self, flags: i16) -> (r: IfReqBuilder)
        ensures
            r.0.ifr_name@ == self.0.ifr_name@,
            r.0.flags == flags,
    {
        IfReqBuilder(IfReq { ifr_name: self.0.ifr_name, flags })
    }

    /// The finished request.
    pub fn build(self) -> (r: IfReq)
        ensures
            r.ifr_name@ == self.0.ifr_name@,
            r.flags == self.0.flags,
    {
        self.0
    }
}

/// The kernel image and the command line it boots with.
pub struct KernelConfig {
    pub kernel_path: String,
    pub cmdline: Cmdline,
}

impl KernelConfig {
    /// The default command line.
    pub fn default_cmdline() -> (r: Cmdline)
        ensures
            r.wf(),
            !has_nul(KERNEL_CMDLINE_DEFAULT.spec_bytes()) && KERNEL_CMDLINE_DEFAULT.spec_bytes().len()
                <= 4095 ==> r@ == KERNEL_CMDLINE_DEFAULT.spec_bytes(),
    {
        let mut cmd = Cmdline::new();
        match cmd.insert_str(KERNEL_CMDLINE_DEFAULT) {
            Ok(()) => cmd,
            Err(_) => Cmdline::new(),
        }
    }
}

/// The frozen launch configuration.
pub struct VMMConfig {
    /// The kernel and its command line.
    pub kernel: KernelConfig,
    /// Optional initramfs path.
    pub initramfs: Option<String>,
    /// Number of vCPUs.
    pub cpus: u8,
    /// Guest memory in MiB.
    pub memory: u32,
    /// Verbosity level.
    pub verbose: i32,
    /// Optional console redirect path.
    pub console: Option<String>,
    /// Optional TAP interface.
    pub tap: Option<NetConfig>,
}

impl VMMConfig {
    /// Start building a configuration.
    pub fn builder(num_vcpus: u8, mem_size_mb: u32, kernel: KernelConfig) -> (r: Result<
        VMMConfigBuilder,
        Error,
    >)
        ensures
            r is Ok,
            r->Ok_0.cpus == num_vcpus,
            r->Ok_0.memory == mem_size_mb,
            r->Ok_0.kernel.kernel_path@ == kernel.kernel_path@,
            r->Ok_0.kernel.cmdline@ == kernel.cmdline@,
            r->Ok_0.initramfs is None,
            r->Ok_0.console is None,
            r->Ok_0.tap is None,
            r->Ok_0.verbose == 0,
    {
        VMMConfigBuilder::new(num_vcpus, mem_size_mb, kernel)
    }
}

/// Accumulates a launch configuration field by field.
pub struct VMMConfigBuilder {
    pub kernel: KernelConfig,
    pub initramfs: Option<String>,
    pub cpus: u8,
    pub memory: u32,
    pub verbose: i32,
    pub console: Option<String>,
    pub tap: Option<NetConfig>,
}

impl VMMConfigBuilder {
    /// A builder holding the required pieces and no options.
    pub fn new(num_vcpus: u8, mem_size_mb: u32, kernel: KernelConfig) -> (r: Result<
        VMMConfigBuilder,
        Error,
    >)
        ensures
            r is Ok,
            r->Ok_0.cpus == num_vcpus,
            r->Ok_0.memory == mem_size_mb,
            r->Ok_0.kernel.kernel_path@ == kernel.kernel_path@,
            r->Ok_0.kernel.cmdline@ == kernel.cmdline@,
            r->Ok_0.initramfs is None,
            r->Ok_0.console is None,
            r->Ok_0.tap is None,
            r->Ok_0.verbose == 0,
    {
        Ok(
            VMMConfigBuilder {
                kernel,
                initramfs: None,
                cpus: num_vcpus,
                memory: mem_size_mb,
                verbose: 0,
                console: None,
                tap: None,
            },
        )
    }

    /// The finished configuration.
    pub fn build(self) -> (r: VMMConfig)
        ensures
            r.cpus == self.cpus,
            r.memory == self.memory,
            r.verbose == self.verbose,
            r.initramfs == self.initramfs,
            r.console == self.console,
            r.kernel.kernel_path@ == self.kernel.kernel_path@,
            r.kernel.cmdline@ == self.kernel.cmdline@,
            r.tap == self.tap,
    {
        VMMConfig {
            kernel: self.kernel,
            initramfs: self.initramfs,
            cpus: self.cpus,
            memory: self.memory,
            verbose: self.verbose,
            console: self.console,
            tap: self.tap,
        }
    }

    /// Set the verbosity level.
    pub fn verbose(self, lvl: i32) -> (r: VMMConfigBuilder)
        ensures
            r.verbose == lvl,
            r.cpus == self.cpus,
            r.memory == self.memory,
            r.initramfs == self.initramfs,
            r.console == self.console,
            r.tap == self.tap,
            r.kernel.kernel_path@ == self.kernel.kernel_path@,
            r.kernel.cmdline@ == self.kernel.cmdline@,
    {
        VMMConfigBuilder { verbose: lvl, ..self }
    }

    /// Set the console redirect path.
    pub fn console(self, console: Option<String>) -> (r: VMMConfigBuilder)
        ensures
            r.console == console,
            r.cpus == self.cpus,
            r.memory == self.memory,
            r.verbose == self.verbose,
            r.initramfs == self.initramfs,
            r.tap == self.tap,
            r.kernel.kernel_path@ == self.kernel.kernel_path@,
            r.kernel.cmdline@ == self.kernel.cmdline@,
    {
        VMMConfigBuilder { console, ..self }
    }

    /// Set the initramfs path.
    pub fn initramfs(self, initramfs_path: Option<String>) -> (r: VMMConfigBuilder)
        ensures
            r.initramfs == initramfs_path,
            r.cpus == self.cpus,
            r.memory == self.memory,
            r.verbose == self.verbose,
            r.console == self.console,
            r.tap == self.tap,
            r.kernel.kernel_path@ == self.kernel.kernel_path@,
            r.kernel.cmdline@ == self.kernel.cmdline@,
    {
        VMMConfigBuilder { initramfs: initramfs_path, ..self }
    }

    /// Set the TAP interface, validating its name.
    pub fn tap(self, tap_name: Option<String>) -> (r: Result<VMMConfigBuilder, Error>)
        ensures
            r is Ok ==> r->Ok_0.cpus == self.cpus && r->Ok_0.memory == self.memory
                && r->Ok_0.verbose == self.verbose && r->Ok_0.initramfs == self.initramfs
                && r->Ok_0.console == self.console && r->Ok_0.kernel.kernel_path@
                == self.kernel.kernel_path@ && r->Ok_0.kernel.cmdline@ == self.kernel.cmdline@,
            r is Ok && tap_name is None ==> r->Ok_0.tap is None,
            tap_name matches Some(n) ==> (r is Ok ==> (r->Ok_0.tap matches Some(c)
                && c.tap_name@ == n@)),
            tap_name matches Some(n) ==> (r is Ok <==> vstd::utf8::encode_utf8(n@).len()
                < IFACE_NAME_MAX_LEN),
            tap_name is None ==> r is Ok,
    {
        let tap = match tap_name {
            Some(name) => Some(NetConfig::try_from(name)?),
            None => None,
        };
        Ok(VMMConfigBuilder { tap, ..self })
    }
}

} // verus!
