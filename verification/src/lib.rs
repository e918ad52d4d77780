//! A minimal user-space virtual machine monitor core for x86_64 Linux guests.
//!
//! The library owns everything that can be stated and proved over plain
//! values: construction of the guest's physical memory image (boot
//! parameters, GDT, page tables, command line, MP table, kernel and
//! initramfs payloads), the register values that put a vCPU into 64-bit
//! long mode, a 16550 UART model, a virtio-net MMIO device model with
//! split virtqueues, and the vCPU exit dispatch rules.  The thin layer
//! around it (KVM ioctls, epoll, TAP and eventfd plumbing) stays outside.

use vstd::prelude::*;

pub mod layout;
pub mod mem;
pub mod gdt;
pub mod cmdline;
pub mod bootparams;
pub mod initramfs;
pub mod mptable;
pub mod cpu;
pub mod config;
pub mod kernel;
pub mod serial;
pub mod virtio;
pub mod mmio;
pub mod dispatch;
pub mod vmm;

verus! {

/// Errors of the virtual machine monitor, one tagged sum for every stage.
#[derive(Debug, Clone, Copy, PartialEq, Eq, Structural)]
pub enum Error {
    /// Allocating the guest memory backing failed or a zero size was asked.
    MemoryAlloc,
    /// A guest-memory access fell outside the guest's physical range.
    MemoryOob,
    /// A KVM ioctl failed.
    KvmIoctl,
    /// The kernel image is not a loadable ELF.
    KernelLoadElf,
    /// Reading the kernel image failed.
    KernelLoadIo,
    /// A kernel segment falls outside the allowed guest range.
    KernelLoadRange,
    /// The initramfs does not fit below the end of guest memory.
    InitramfsTooLarge,
    /// The e820 table is full.
    E820Full,
    /// The high-memory start lies past the end of guest memory.
    HimemPastEnd,
    /// Creating the serial device failed.
    SerialCreate,
    /// Writing to the serial sink failed.
    SerialIo,
    /// Registering an interrupt with KVM failed.
    IrqRegister,
    /// An epoll operation failed.
    Epoll,
    /// Reading host standard input failed.
    StdinRead,
    /// Feeding host input into the serial device failed.
    StdinWrite,
    /// Configuring the host terminal failed.
    Terminal,
    /// Opening the TAP device failed.
    TapOpen,
    /// A TAP ioctl failed.
    TapIoctl,
    /// The TAP interface name is too long.
    TapName,
    /// A virtio queue is in a state that cannot be decoded.
    VirtioNetQueue,
    /// A virtio buffer points outside guest memory.
    VirtioNetMemory,
    /// Host-side virtio I/O failed.
    VirtioNetIo,
    /// The command line exceeds its capacity.
    CmdlineTooLong,
    /// The command line holds a byte no kernel parameter may hold.
    CmdlineNotUtf8,
}

impl Error {
    /// A short description, one per variant.
    pub fn describe(&self) -> (r: &'static str)
        ensures
            r@.len() > 0,
    {
        let s = match self {
            Error::MemoryAlloc => "guest memory allocation failed",
            Error::MemoryOob => "guest memory access out of bounds",
            Error::KvmIoctl => "KVM ioctl failed",
            Error::KernelLoadElf => "malformed ELF kernel image",
            Error::KernelLoadIo => "kernel image I/O failed",
            Error::KernelLoadRange => "kernel segment out of range",
            Error::InitramfsTooLarge => "initramfs does not fit in guest memory",
            Error::E820Full => "e820 table is full",
            Error::HimemPastEnd => "high memory start past end of guest memory",
            Error::SerialCreate => "serial device creation failed",
            Error::SerialIo => "serial sink I/O failed",
            Error::IrqRegister => "interrupt registration failed",
            Error::Epoll => "epoll operation failed",
            Error::StdinRead => "stdin read failed",
            Error::StdinWrite => "stdin forward failed",
            Error::Terminal => "terminal configuration failed",
            Error::TapOpen => "TAP open failed",
            Error::TapIoctl => "TAP ioctl failed",
            Error::TapName => "TAP interface name too long",
            Error::VirtioNetQueue => "virtio queue error",
            Error::VirtioNetMemory => "virtio buffer out of guest memory",
            Error::VirtioNetIo => "virtio host I/O failed",
            Error::CmdlineTooLong => "kernel command line too long",
            Error::CmdlineNotUtf8 => "kernel command line holds an invalid byte",
        };
        proof {
            reveal_strlit("guest memory allocation failed");
            reveal_strlit("guest memory access out of bounds");
            reveal_strlit("KVM ioctl failed");
            reveal_strlit("malformed ELF kernel image");
            reveal_strlit("kernel image I/O failed");
            reveal_strlit("kernel segment out of range");
            reveal_strlit("initramfs does not fit in guest memory");
            reveal_strlit("e820 table is full");
            reveal_strlit("high memory start past end of guest memory");
            reveal_strlit("serial device creation failed");
            reveal_strlit("serial sink I/O failed");
            reveal_strlit("interrupt registration failed");
            reveal_strlit("epoll operation failed");
            reveal_strlit("stdin read failed");
            reveal_strlit("stdin forward failed");
            reveal_strlit("terminal configuration failed");
            reveal_strlit("TAP open failed");
            reveal_strlit("TAP ioctl failed");
            reveal_strlit("TAP interface name too long");
            reveal_strlit("virtio queue error");
            reveal_strlit("virtio buffer out of guest memory");
            reveal_strlit("virtio host I/O failed");
            reveal_strlit("kernel command line too long");
            reveal_strlit("kernel command line holds an invalid byte");
        }
        s
    }
}

} // verus!
