use std::sync::Arc;
use vm_device::bus::{Error as BusError, MmioAddress, MmioRange};
use vm_device::device_manager::{IoManager, MmioManager};
use vm_device::DeviceMmio;
use vstd::prelude::*;

use crate::error::Error;

verus! {

/// The MMIO bus manager that devices are published on.
#[verifier::external_type_specification]
#[verifier::external_body]
pub struct ExIoManager(IoManager);

/// Whether `[base, base + size)` is a non-empty range of the 64-bit address
/// space (its last address may be `u64::MAX`).
pub open spec fn valid_range(base: u64, size: u64) -> bool {
    size > 0 && base + (size - 1) <= u64::MAX
}

/// Whether the ranges `[b1, b1 + s1)` and `[b2, b2 + s2)` share an address.
pub open spec fn ranges_overlap(b1: u64, s1: u64, b2: u64, s2: u64) -> bool {
    b1 < b2 + s2 && b2 < b1 + s1
}

/// Whether the range registered at `base` in `ranges` holds `addr`.
pub open spec fn covers(ranges: Map<u64, u64>, base: u64, addr: u64) -> bool {
    ranges.contains_key(base) && base <= addr < base + ranges[base]
}

/// Whether `[base, base + size)` overlaps no range of `ranges`.
pub open spec fn fits_on_bus(ranges: Map<u64, u64>, base: u64, size: u64) -> bool {
    forall|b: u64| #[trigger] ranges.contains_key(b) ==> !ranges_overlap(b, ranges[b], base, size)
}

/// The ranges registered on the MMIO bus of a manager, as base address to size.
pub uninterp spec fn mmio_ranges(m: IoManager) -> Map<u64, u64>;

/// Relies on vm_device's `BusRange::new`: a range is accepted when it is not
/// empty and its last address does not overflow.
#[verifier::external_body]
fn check_range(base: u64, size: u64) -> (r: Result<(), BusError>)
    ensures
        r.is_ok() <==> valid_range(base, size),
        r.is_err() ==> r matches Err(BusError::InvalidRange),
{
    MmioRange::new(MmioAddress(base), size).map(|_range| ())
}

/// Relies on vm_device's `IoManager::register_mmio` (through `Bus::register`):
/// the range is added unless it overlaps one already registered, in which
/// case nothing changes. The range is built with `BusRange::new`, which
/// accepts every range that `requires` admits.
#[verifier::external_body]
fn bus_register<D: DeviceMmio + Send + Sync + 'static>(
    mgr: &mut IoManager,
    base: u64,
    size: u64,
    device: Arc<D>,
) -> (r: Result<(), BusError>)
    requires
        valid_range(base, size),
    ensures
        r.is_ok() <==> fits_on_bus(mmio_ranges(*old(mgr)), base, size),
        mmio_ranges(*final(mgr)) == if r.is_ok() {
            mmio_ranges(*old(mgr)).insert(base, size)
        } else {
            mmio_ranges(*old(mgr))
        },
        r.is_err() ==> r matches Err(BusError::DeviceOverlap),
{
    MmioRange::new(MmioAddress(base), size).and_then(|range| mgr.register_mmio(range, device))
}

/// Relies on vm_device's `MmioManager::mmio_device` for `IoManager` (through
/// `Bus::device`): the registered range that holds `addr`, as base and size.
#[verifier::external_body]
fn bus_lookup(mgr: &IoManager, addr: u64) -> (r: Option<(u64, u64)>)
    ensures
        r matches Some((b, s)) ==> covers(mmio_ranges(*mgr), b, addr) && s == mmio_ranges(*mgr)[b],
        r is None ==> forall|b: u64| !#[trigger] covers(mmio_ranges(*mgr), b, addr),
{
    mgr.mmio_device(MmioAddress(addr)).map(|(range, _device)| (range.base().0, range.size()))
}

/// Registers `device` on the bus of `mgr` over `[base, base + size)`.
pub fn register_on_bus<D: DeviceMmio + Send + Sync + 'static>(
    mgr: &mut IoManager,
    base: u64,
    size: u64,
    device: Arc<D>,
) -> (r: Result<(), Error>)
    requires
        valid_range(base, size),
    ensures
        r.is_ok() <==> fits_on_bus(mmio_ranges(*old(mgr)), base, size),
        r.is_ok() ==> mmio_ranges(*final(mgr)) == mmio_ranges(*old(mgr)).insert(base, size),
        r.is_err() ==> mmio_ranges(*final(mgr)) == mmio_ranges(*old(mgr)),
        r.is_err() ==> r matches Err(Error::Bus(BusError::DeviceOverlap)),
{
    match bus_register(mgr, base, size, device) {
        Ok(()) => Ok(()),
        Err(e) => Err(Error::Bus(e)),
    }
}

/// The registered range of the bus of `mgr` that holds `addr`, as base and size.
pub fn mmio_range_at(mgr: &IoManager, addr: u64) -> (r: Option<(u64, u64)>)
    ensures
        r matches Some((b, s)) ==> covers(mmio_ranges(*mgr), b, addr) && s == mmio_ranges(*mgr)[b],
        r is None <==> forall|b: u64| !#[trigger] covers(mmio_ranges(*mgr), b, addr),
{
    bus_lookup(mgr, addr)
}

/// A range registered on a bus where it overlapped no other is the only
/// range that holds its base address, with the size it was registered with.
pub proof fn lemma_registered_range_found(before: Map<u64, u64>, after: Map<u64, u64>, base: u64, size: u64)
    requires
        valid_range(base, size),
        fits_on_bus(before, base, size),
        after == before.insert(base, size),
    ensures
        covers(after, base, base),
        after[base] == size,
        forall|b: u64| #[trigger] covers(after, b, base) ==> b == base,
{
    assert forall|b: u64| #[trigger] covers(after, b, base) implies b == base by {
        if b != base {
            assert(before.contains_key(b));
            assert(ranges_overlap(b, before[b], base, size));
        }
    }
}

/// The MMIO range and the interrupt line assigned to a device.
#[derive(Clone, Copy, Debug)]
pub struct MmioConfig {
    /// First address of the range.
    pub base: u64,
    /// Length of the range in bytes.
    pub size: u64,
    /// Global system interrupt line of the device.
    pub gsi: u32,
}

impl MmioConfig {
    /// Whether the range is a valid bus range.
    pub open spec fn wf(&self) -> bool {
        valid_range(self.base, self.size)
    }

    /// The configuration of a device at `[base, base + size)` with interrupt
    /// line `gsi`; the range must be valid on the bus.
    pub fn new(base: u64, size: u64, gsi: u32) -> (r: Result<MmioConfig, Error>)
        ensures
            r.is_ok() <==> valid_range(base, size),
            r matches Ok(c) ==> c.base == base && c.size == size && c.gsi == gsi,
            r.is_err() ==> r matches Err(Error::Bus(BusError::InvalidRange)),
    {
        match check_range(base, size) {
            Ok(()) => Ok(MmioConfig { base, size, gsi }),
            Err(e) => Err(Error::Bus(e)),
        }
    }
}

} // verus!
