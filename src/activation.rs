use std::io::Error as IoError;
use std::sync::Arc;
use event_manager::{
    Error as EvmgrError, EventManager, MutEventSubscriber, RemoteEndpoint, SubscriberId, SubscriberOps,
};
use kvm_ioctls::{IoEventAddress, VmFd};
use libc::EFD_NONBLOCK;
use vmm_sys_util::errno::Error as Errno;
use vmm_sys_util::eventfd::EventFd;
use vstd::prelude::*;

use crate::env::Env;
use crate::error::{fails_with, Error};
use crate::mmio::MmioConfig;

verus! {

/// A kernel event descriptor.
#[verifier::external_type_specification]
#[verifier::external_body]
pub struct ExEventFd(EventFd);

/// A handle that runs work on the thread of the event-processing subsystem.
#[verifier::external_type_specification]
#[verifier::external_body]
#[verifier::reject_recursive_types(S)]
pub struct ExRemoteEndpoint<S>(RemoteEndpoint<S>);

/// Offset in the MMIO range of the register the driver writes a queue index
/// to when it has made buffers available on that queue.
pub const QUEUE_NOTIFY_OFFSET: u64 = 0x50;

/// The address of the queue-notify register of a device whose range starts at `base`.
pub open spec fn notify_address(base: u64) -> int {
    base + QUEUE_NOTIFY_OFFSET
}

/// Relies on vmm_sys_util's `EventFd::new`, asked for a non-blocking descriptor.
#[verifier::external_body]
fn new_nonblocking_eventfd() -> (r: Result<EventFd, IoError>) {
    EventFd::new(EFD_NONBLOCK)
}

/// Relies on kvm_ioctls' `VmFd::register_irqfd`: binds `fd` to interrupt line `gsi`.
#[verifier::external_body]
fn register_irqfd(vm: &VmFd, fd: &EventFd, gsi: u32) -> (r: Result<(), Errno>) {
    vm.register_irqfd(fd, gsi)
}

/// Relies on kvm_ioctls' `VmFd::register_ioevent`: binds `fd` to guest writes of
/// `datamatch` at MMIO address `addr`.
#[verifier::external_body]
fn register_ioevent(vm: &VmFd, fd: &EventFd, addr: u64, datamatch: u32) -> (r: Result<(), Errno>) {
    vm.register_ioevent(fd, &IoEventAddress::Mmio(addr), datamatch)
}

/// Relies on event_manager's `EventManager::remote_endpoint`.
#[verifier::external_body]
fn remote_endpoint<S: MutEventSubscriber>(mgr: &EventManager<S>) -> (r: RemoteEndpoint<S>) {
    mgr.remote_endpoint()
}

/// Relies on event_manager's `RemoteEndpoint::call_blocking`: returns once the
/// subsystem's thread has run `add_subscriber` on `handler`, or the call failed.
#[verifier::external_body]
fn add_subscriber_blocking<S: MutEventSubscriber + Send + 'static>(
    endpoint: &RemoteEndpoint<S>,
    handler: S,
) -> (r: Result<(), EvmgrError>) {
    endpoint.call_blocking(move |mgr| -> Result<SubscriberId, EvmgrError> { Ok(mgr.add_subscriber(handler)) }).map(
        |_id| (),
    )
}

/// What activation reads and writes of a device's virtio configuration.
#[derive(Clone, Copy, Debug)]
pub struct VirtioConfig {
    /// Number of queues of the device.
    pub queue_count: u16,
    /// Whether the device has been activated.
    pub device_activated: bool,
}

/// The error with which `prepare_activate` refuses to start, if any: queues
/// are checked first, then the activation flag, then the notify address.
pub open spec fn prepare_refusal(queues_valid: bool, activated: bool, base: u64) -> Option<Error> {
    if !queues_valid {
        Some(Error::QueuesNotValid)
    } else if activated {
        Some(Error::AlreadyActivated)
    } else if notify_address(base) > u64::MAX {
        Some(Error::Overflow)
    } else {
        None
    }
}

/// Once a device is activated, preparing activation again is refused with
/// `AlreadyActivated` whenever its queues are valid, before anything is
/// allocated; with invalid queues it is refused with `QueuesNotValid`.
pub proof fn lemma_activated_device_refused(queues_valid: bool, base: u64)
    ensures
        queues_valid ==> prepare_refusal(queues_valid, true, base) == Some(Error::AlreadyActivated),
        !queues_valid ==> prepare_refusal(queues_valid, true, base) == Some(Error::QueuesNotValid),
{
}

/// Checks the preconditions of activation and returns the address of the
/// queue-notify register.
pub fn check_activation(queues_valid: bool, activated: bool, base: u64) -> (r: Result<u64, Error>)
    ensures
        prepare_refusal(queues_valid, activated, base) matches Some(e) ==> fails_with(r, e),
        prepare_refusal(queues_valid, activated, base) is None ==> r.is_ok(),
        r matches Ok(a) ==> a == notify_address(base),
{
    if !queues_valid {
        return Err(Error::QueuesNotValid);
    }
    if activated {
        return Err(Error::AlreadyActivated);
    }
    match base.checked_add(QUEUE_NOTIFY_OFFSET) {
        Some(addr) => Ok(addr),
        None => Err(Error::Overflow),
    }
}

/// The doorbells of a device with `queue_count` queues whose queue-notify
/// register is at `notify`: the one of index `i` fires on guest writes of
/// value `i` at `notify`.
pub fn doorbell_bindings(notify: u64, queue_count: u16) -> (r: Vec<(u64, u32)>)
    ensures
        r.len() == queue_count,
        forall|i: int| 0 <= i < r.len() ==> #[trigger] r[i] == (notify, i as u32),
{
    let mut r: Vec<(u64, u32)> = Vec::new();
    let mut i: u16 = 0;
    while i < queue_count
        invariant
            i <= queue_count,
            r.len() == i,
            forall|j: int| 0 <= j < r.len() ==> #[trigger] r[j] == (notify, j as u32),
        decreases queue_count - i,
    {
        r.push((notify, i as u32));
        i = i + 1;
    }
    r
}

/// The state every device keeps after construction.
#[verifier::reject_recursive_types(S)]
pub struct CommonConfig<S> {
    /// The virtio configuration of the device.
    pub virtio: VirtioConfig,
    /// The MMIO range and interrupt line of the device.
    pub mmio: MmioConfig,
    /// Runs work on the thread of the event-processing subsystem.
    pub endpoint: RemoteEndpoint<S>,
    /// The virtual machine.
    pub vm_fd: Arc<VmFd>,
    /// The descriptor whose increments inject the device's interrupt.
    pub irqfd: Arc<EventFd>,
}

impl<S: MutEventSubscriber + Send + 'static> CommonConfig<S> {
    /// Allocates the device's interrupt descriptor, binds it to the device's
    /// interrupt line and gathers the handles the device keeps.
    pub fn new<M>(virtio_cfg: VirtioConfig, env: &Env<M, S>) -> (r: Result<Self, Error>)
        ensures
            r matches Ok(c) ==> c.virtio == virtio_cfg && c.mmio == env.mmio_cfg && c.vm_fd == env.vm_fd,
            r.is_err() ==> (r matches Err(Error::EventFd(_))) || (r matches Err(Error::RegisterIrqfd(_))),
    {
        let irqfd = match new_nonblocking_eventfd() {
            Ok(fd) => Arc::new(fd),
            Err(e) => return Err(Error::EventFd(e)),
        };
        if let Err(e) = register_irqfd(&env.vm_fd, &irqfd, env.mmio_cfg.gsi) {
            return Err(Error::RegisterIrqfd(e));
        }
        Ok(CommonConfig {
            virtio: virtio_cfg,
            mmio: env.mmio_cfg,
            endpoint: remote_endpoint(&*env.event_mgr),
            vm_fd: env.vm_fd.clone(),
            irqfd,
        })
    }

    /// Checks that activation may start, then allocates one doorbell
    /// descriptor per queue and binds it as `doorbell_bindings` gives: the
    /// one of index `i` to writes of `i` at the queue-notify register. `queues_valid` is whether the queues are
    /// valid. Descriptors allocated before a failure are not released.
    pub fn prepare_activate(&self, queues_valid: bool) -> (r: Result<Vec<EventFd>, Error>)
        ensures
            prepare_refusal(queues_valid, self.virtio.device_activated, self.mmio.base) matches Some(e)
                ==> fails_with(r, e),
            r matches Ok(v) ==> v.len() == self.virtio.queue_count,
            prepare_refusal(queues_valid, self.virtio.device_activated, self.mmio.base) is None
                && self.virtio.queue_count == 0 ==> r.is_ok(),
            r.is_ok() ==> prepare_refusal(queues_valid, self.virtio.device_activated, self.mmio.base) is None,
            r.is_err() ==> prepare_refusal(queues_valid, self.virtio.device_activated, self.mmio.base) is Some
                || (r matches Err(Error::EventFd(_))) || (r matches Err(Error::RegisterIoevent(_))),
    {
        let addr = check_activation(queues_valid, self.virtio.device_activated, self.mmio.base)?;
        let bindings = doorbell_bindings(addr, self.virtio.queue_count);
        let mut ioevents: Vec<EventFd> = Vec::new();
        let mut i: u16 = 0;
        while i < self.virtio.queue_count
            invariant
                i <= self.virtio.queue_count,
                bindings.len() == self.virtio.queue_count,
                ioevents.len() == i,
                prepare_refusal(queues_valid, self.virtio.device_activated, self.mmio.base) is None,
            decreases self.virtio.queue_count - i,
        {
            let fd = match new_nonblocking_eventfd() {
                Ok(fd) => fd,
                Err(e) => return Err(Error::EventFd(e)),
            };
            let (doorbell_addr, datamatch) = bindings[i as usize];
            if let Err(e) = register_ioevent(&self.vm_fd, &fd, doorbell_addr, datamatch) {
                return Err(Error::RegisterIoevent(e));
            }
            ioevents.push(fd);
            i = i + 1;
        }
        Ok(ioevents)
    }

    /// Records the outcome of registering the queue handler: the device is
    /// activated exactly when registration succeeded.
    pub fn complete_activation(&mut self, outcome: Result<(), EvmgrError>) -> (r: Result<(), Error>)
        ensures
            outcome.is_ok() ==> r.is_ok() && final(self).virtio.device_activated,
            outcome.is_ok() ==> final(self).virtio.queue_count == old(self).virtio.queue_count,
            outcome matches Err(e) ==> fails_with(r, Error::Endpoint(e)),
            outcome.is_err() ==> *final(self) == *old(self),
            final(self).mmio == old(self).mmio,
            final(self).endpoint == old(self).endpoint,
            final(self).vm_fd == old(self).vm_fd,
            final(self).irqfd == old(self).irqfd,
    {
        match outcome {
            Ok(()) => {
                self.virtio.device_activated = true;
                Ok(())
            },
            Err(e) => Err(Error::Endpoint(e)),
        }
    }

    /// Hands `handler` to the event-processing subsystem and waits until it is
    /// registered there; only then is the device marked activated. A device
    /// that is already activated is refused and `handler` is not registered.
    pub fn finalize_activate(&mut self, handler: S) -> (r: Result<(), Error>)
        ensures
            old(self).virtio.device_activated ==> fails_with(r, Error::AlreadyActivated),
            old(self).virtio.device_activated ==> *final(self) == *old(self),
            !old(self).virtio.device_activated ==> (r.is_ok() <==> final(self).virtio.device_activated),
            !old(self).virtio.device_activated && r.is_err() ==> r matches Err(Error::Endpoint(_)),
            r.is_err() ==> *final(self) == *old(self),
            final(self).virtio.queue_count == old(self).virtio.queue_count,
            final(self).mmio == old(self).mmio,
            final(self).endpoint == old(self).endpoint,
            final(self).vm_fd == old(self).vm_fd,
            final(self).irqfd == old(self).irqfd,
    {
        if self.virtio.device_activated {
            return Err(Error::AlreadyActivated);
        }
        let outcome = add_subscriber_blocking(&self.endpoint, handler);
        self.complete_activation(outcome)
    }
}

} // verus!
