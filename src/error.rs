use std::io::Error as IoError;
use event_manager::Error as EvmgrError;
use linux_loader::cmdline::Error as CmdlineError;
use vm_device::bus::Error as BusError;
use vmm_sys_util::errno::Error as Errno;
use vstd::prelude::*;

verus! {

/// Error reported by the MMIO bus manager.
#[verifier::external_type_specification]
pub struct ExBusError(BusError);

/// Error reported by an operating-system call.
#[verifier::external_type_specification]
#[verifier::external_body]
pub struct ExIoError(IoError);

/// Error reported by a hypervisor call.
#[verifier::external_type_specification]
#[verifier::external_body]
pub struct ExErrno(Errno);

/// Error reported by the event-processing subsystem.
#[verifier::external_type_specification]
#[verifier::external_body]
pub struct ExEvmgrError(EvmgrError);

/// Errors of device registration and activation.
#[derive(Debug)]
pub enum Error {
    /// The MMIO bus refused a range.
    Bus(BusError),
    /// An address computation overflowed.
    Overflow,
    /// The tap device could not be opened.
    OpenTun(IoError),
    /// A device control request failed.
    IoctlError(IoError),
    /// The guest kernel command line refused an argument.
    Cmdline(CmdlineError),
    /// An event descriptor could not be created.
    EventFd(IoError),
    /// A doorbell descriptor could not be registered with the hypervisor.
    RegisterIoevent(Errno),
    /// An interrupt descriptor could not be registered with the hypervisor.
    RegisterIrqfd(Errno),
    /// The queues of the device are not valid.
    QueuesNotValid,
    /// The device has already been activated.
    AlreadyActivated,
    /// The call into the event-processing subsystem failed.
    Endpoint(EvmgrError),
}

/// Whether `r` is the error `e`.
pub open spec fn fails_with<T>(r: Result<T, Error>, e: Error) -> bool {
    match r {
        Ok(_) => false,
        Err(x) => x == e,
    }
}

} // verus!
