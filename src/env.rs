use std::sync::Arc;
use event_manager::EventManager;
use kvm_ioctls::VmFd;
use linux_loader::cmdline::Cmdline;
use vm_device::device_manager::IoManager;
use vm_device::DeviceMmio;
use vstd::prelude::*;

use crate::cmdline::{
    appended, boot_args, cmdline_insert, cmdline_room, has_room_for, lemma_virtio_mmio_arg_plain, plain_arg, stray_char,
    virtio_mmio_arg, virtio_mmio_arg_text,
};
use crate::error::Error;
use crate::mmio::{covers, fits_on_bus, lemma_registered_range_found, mmio_ranges, register_on_bus, MmioConfig};

verus! {

/// A handle to a virtual machine.
#[verifier::external_type_specification]
#[verifier::external_body]
pub struct ExVmFd(VmFd);

/// The event-processing subsystem that device handlers are registered with.
#[verifier::external_type_specification]
#[verifier::external_body]
#[verifier::reject_recursive_types(T)]
pub struct ExEventManager<T>(EventManager<T>);

/// Publishes `device` on the bus of `mgr` over the range of `cfg`, then
/// appends its discovery argument to `cmdline`. The bus registration is kept
/// when the command line refuses the argument.
pub fn register_virtio_mmio<D: DeviceMmio + Send + Sync + 'static>(
    mgr: &mut IoManager,
    cmdline: &mut Cmdline,
    cfg: MmioConfig,
    device: Arc<D>,
) -> (r: Result<(), Error>)
    requires
        cfg.wf(),
    ensures
        fits_on_bus(mmio_ranges(*old(mgr)), cfg.base, cfg.size) ==> mmio_ranges(*final(mgr))
            == mmio_ranges(*old(mgr)).insert(cfg.base, cfg.size),
        !fits_on_bus(mmio_ranges(*old(mgr)), cfg.base, cfg.size) ==> mmio_ranges(*final(mgr))
            == mmio_ranges(*old(mgr)) && boot_args(*final(cmdline)) == boot_args(*old(cmdline)),
        !fits_on_bus(mmio_ranges(*old(mgr)), cfg.base, cfg.size) ==> r matches Err(Error::Bus(_)),
        !fits_on_bus(mmio_ranges(*old(mgr)), cfg.base, cfg.size) ==> cmdline_room(*final(cmdline)) == cmdline_room(
            *old(cmdline),
        ),
        fits_on_bus(mmio_ranges(*old(mgr)), cfg.base, cfg.size) ==> !(r matches Err(Error::Bus(_))),
        r.is_ok() ==> boot_args(*final(cmdline)) == appended(
            boot_args(*old(cmdline)),
            virtio_mmio_arg(cfg.size, cfg.base, cfg.gsi),
        ),
        r.is_ok() <==> fits_on_bus(mmio_ranges(*old(mgr)), cfg.base, cfg.size) && has_room_for(
            *old(cmdline),
            virtio_mmio_arg(cfg.size, cfg.base, cfg.gsi),
        ),
        r matches Err(Error::Cmdline(_)) ==> boot_args(*final(cmdline)) == boot_args(*old(cmdline))
            && cmdline_room(*final(cmdline)) == cmdline_room(*old(cmdline)),
        r.is_err() ==> (r matches Err(Error::Bus(_))) || (r matches Err(Error::Cmdline(_))),
{
    register_on_bus(mgr, cfg.base, cfg.size, device)?;
    let arg = virtio_mmio_arg_text(cfg.size, cfg.base, cfg.gsi);
    proof {
        lemma_virtio_mmio_arg_plain(cfg.size, cfg.base, cfg.gsi);
    }
    match cmdline_insert(cmdline, arg.as_str()) {
        Ok(()) => Ok(()),
        Err(e) => Err(Error::Cmdline(e)),
    }
}

/// Appends `s` to the boot arguments of `cmdline`.
pub fn append_to_cmdline(cmdline: &mut Cmdline, s: &str) -> (r: Result<(), Error>)
    ensures
        plain_arg(s@) ==> (r.is_ok() <==> has_room_for(*old(cmdline), s@)),
        (exists|i: int| 0 <= i < s@.len() && stray_char(#[trigger] s@[i])) ==> r.is_err(),
        r.is_ok() && plain_arg(s@) ==> boot_args(*final(cmdline)) == appended(boot_args(*old(cmdline)), s@),
        r.is_err() ==> boot_args(*final(cmdline)) == boot_args(*old(cmdline)),
        r.is_err() ==> r matches Err(Error::Cmdline(_)),
{
    match cmdline_insert(cmdline, s) {
        Ok(()) => Ok(()),
        Err(e) => Err(Error::Cmdline(e)),
    }
}

/// Whether `s` ends with `t`.
pub open spec fn ends_with(s: Seq<char>, t: Seq<char>) -> bool {
    t.len() <= s.len() && s.subrange(s.len() - t.len(), s.len() as int) == t
}

/// Appending an argument keeps the earlier arguments as a prefix, puts one
/// space between them and the new one when there were any, and leaves the
/// command line ending with the new argument.
pub proof fn lemma_appended(args: Seq<char>, arg: Seq<char>)
    ensures
        ends_with(appended(args, arg), arg),
        appended(args, arg).subrange(0, args.len() as int) == args,
        args.len() > 0 ==> appended(args, arg).len() == args.len() + 1 + arg.len()
            && appended(args, arg)[args.len() as int] == ' ',
{
    let r = appended(args, arg);
    if args.len() == 0 {
        assert(r.subrange(0, 0) =~= args);
        assert(r.subrange(r.len() - arg.len(), r.len() as int) =~= arg);
    } else {
        assert(r.subrange(0, args.len() as int) =~= args);
        assert(r.subrange(r.len() - arg.len(), r.len() as int) =~= arg);
    }
}

/// After a successful registration, a bus lookup at the device's base address
/// finds exactly the device's range, and the command line ends with the
/// device's discovery argument.
pub proof fn lemma_registration_observable(
    bus_before: Map<u64, u64>,
    bus_after: Map<u64, u64>,
    args_before: Seq<char>,
    args_after: Seq<char>,
    cfg: MmioConfig,
)
    requires
        cfg.wf(),
        fits_on_bus(bus_before, cfg.base, cfg.size),
        bus_after == bus_before.insert(cfg.base, cfg.size),
        args_after == appended(args_before, virtio_mmio_arg(cfg.size, cfg.base, cfg.gsi)),
    ensures
        covers(bus_after, cfg.base, cfg.base),
        bus_after[cfg.base] == cfg.size,
        forall|b: u64| #[trigger] covers(bus_after, b, cfg.base) ==> b == cfg.base,
        ends_with(args_after, virtio_mmio_arg(cfg.size, cfg.base, cfg.gsi)),
{
    lemma_registered_range_found(bus_before, bus_after, cfg.base, cfg.size);
    lemma_appended(args_before, virtio_mmio_arg(cfg.size, cfg.base, cfg.gsi));
}

/// What a device constructor needs, borrowed for one construction.
#[verifier::reject_recursive_types(S)]
pub struct Env<'a, M, S> {
    /// Accessor of guest memory.
    pub mem: M,
    /// The virtual machine, used to register doorbells and interrupts.
    pub vm_fd: Arc<VmFd>,
    /// The event-processing subsystem the device registers its handler with.
    pub event_mgr: &'a mut EventManager<S>,
    /// The MMIO bus manager.
    pub mmio_mgr: &'a mut IoManager,
    /// The MMIO range and interrupt line of the device.
    pub mmio_cfg: MmioConfig,
    /// The guest kernel command line, extended with the device's arguments.
    pub kernel_cmdline: &'a mut Cmdline,
}

impl<'a, M, S> Env<'a, M, S> {
    /// Publishes `device` on the bus and on the kernel command line. The bus
    /// registration is kept when the command line refuses the argument.
    pub fn register_mmio_device<D: DeviceMmio + Send + Sync + 'static>(&mut self, device: Arc<D>) -> (r: Result<(), Error>)
        requires
            old(self).mmio_cfg.wf(),
        ensures
            r.is_ok() <==> fits_on_bus(mmio_ranges(*old(self).mmio_mgr), old(self).mmio_cfg.base, old(self).mmio_cfg.size)
                && has_room_for(
                *old(self).kernel_cmdline,
                virtio_mmio_arg(old(self).mmio_cfg.size, old(self).mmio_cfg.base, old(self).mmio_cfg.gsi),
            ),
            fits_on_bus(mmio_ranges(*old(self).mmio_mgr), old(self).mmio_cfg.base, old(self).mmio_cfg.size) ==> mmio_ranges(
                *final(self).mmio_mgr,
            ) == mmio_ranges(*old(self).mmio_mgr).insert(old(self).mmio_cfg.base, old(self).mmio_cfg.size),
            fits_on_bus(mmio_ranges(*old(self).mmio_mgr), old(self).mmio_cfg.base, old(self).mmio_cfg.size) ==> !(r matches Err(
                Error::Bus(_),
            )),
            !fits_on_bus(mmio_ranges(*old(self).mmio_mgr), old(self).mmio_cfg.base, old(self).mmio_cfg.size)
                ==> r matches Err(Error::Bus(_)),
            !fits_on_bus(mmio_ranges(*old(self).mmio_mgr), old(self).mmio_cfg.base, old(self).mmio_cfg.size) ==> mmio_ranges(
                *final(self).mmio_mgr,
            ) == mmio_ranges(*old(self).mmio_mgr),
            r matches Err(Error::Bus(_)) ==> boot_args(*final(self).kernel_cmdline) == boot_args(*old(self).kernel_cmdline)
                && cmdline_room(*final(self).kernel_cmdline) == cmdline_room(*old(self).kernel_cmdline),
            r.is_ok() ==> boot_args(*final(self).kernel_cmdline) == appended(
                boot_args(*old(self).kernel_cmdline),
                virtio_mmio_arg(old(self).mmio_cfg.size, old(self).mmio_cfg.base, old(self).mmio_cfg.gsi),
            ),
            r matches Err(Error::Cmdline(_)) ==> boot_args(*final(self).kernel_cmdline) == boot_args(
                *old(self).kernel_cmdline,
            ) && cmdline_room(*final(self).kernel_cmdline) == cmdline_room(*old(self).kernel_cmdline),
            r.is_err() ==> (r matches Err(Error::Bus(_))) || (r matches Err(Error::Cmdline(_))),
            final(self).mmio_cfg == old(self).mmio_cfg,
            final(self).vm_fd == old(self).vm_fd,
            final(self).mem == old(self).mem,
            *final(self).event_mgr == *old(self).event_mgr,
    {
        register_virtio_mmio(self.mmio_mgr, self.kernel_cmdline, self.mmio_cfg, device)
    }

    /// Appends `t` to the kernel command line.
    pub fn insert_cmdline_str(&mut self, t: &str) -> (r: Result<(), Error>)
        ensures
            plain_arg(t@) ==> (r.is_ok() <==> has_room_for(*old(self).kernel_cmdline, t@)),
            (exists|i: int| 0 <= i < t@.len() && stray_char(#[trigger] t@[i])) ==> r.is_err(),
            r.is_ok() && plain_arg(t@) ==> boot_args(*final(self).kernel_cmdline) == appended(
                boot_args(*old(self).kernel_cmdline),
                t@,
            ),
            r.is_err() ==> boot_args(*final(self).kernel_cmdline) == boot_args(*old(self).kernel_cmdline),
            r.is_err() ==> r matches Err(Error::Cmdline(_)),
            *final(self).mmio_mgr == *old(self).mmio_mgr,
            final(self).mmio_cfg == old(self).mmio_cfg,
            final(self).vm_fd == old(self).vm_fd,
            final(self).mem == old(self).mem,
            *final(self).event_mgr == *old(self).event_mgr,
    {
        append_to_cmdline(self.kernel_cmdline, t)
    }
}

} // verus!
