//! Access to the PCI configuration space through the memory-mapped
//! enhanced configuration mechanism.
//!
//! Bus enumeration itself is an external collaborator's job; what the
//! kernel owns is the address arithmetic: which physical address a
//! (segment, bus, device, function) quadruple's configuration space
//! starts at, looked up in the firmware-reported configuration regions.

use vstd::prelude::*;

verus! {

/// One firmware-reported configuration region: a span of buses of one
/// segment group, memory-mapped from `physical_address` on, one
/// megabyte-per-bus stride.
#[derive(Clone, Copy, Debug, PartialEq, Eq, Structural)]
pub struct PciConfigRegion {
    pub segment_group: u16,
    pub bus_start: u8,
    pub bus_end: u8,
    pub physical_address: u64,
}

/// Whether `region` carries the configuration space of `segment`'s
/// `bus`.
pub open spec fn region_matches(region: PciConfigRegion, segment: u16, bus: u8) -> bool {
    region.segment_group == segment && region.bus_start <= bus <= region.bus_end
}

/// The offset of one function's configuration space inside its region:
/// bus, device and function widths as the mechanism fixes them.
pub open spec fn spec_config_offset(region: PciConfigRegion, bus: u8, device: u8, function: u8) -> int {
    (bus - region.bus_start) * 0x10_0000 + device * 0x8000 + function * 0x1000
}

/// The firmware-reported set of configuration regions.
#[derive(Clone)]
pub struct PciConfigRegions {
    pub regions: Vec<PciConfigRegion>,
}

impl PciConfigRegions {
    /// Well-formedness: every region's window stays addressable — its
    /// base leaves room for the largest possible offset.
    pub open spec fn wf(self) -> bool {
        forall|j: int|
            0 <= j < self.regions@.len() ==> (#[trigger] self.regions@[j]).physical_address
                + 0x1000_0000 <= u64::MAX
    }

    /// The physical address of the configuration space of the named
    /// function: the first matching region decides, and `None` means the
    /// firmware reports no configuration space for it.
    pub fn physical_address(&self, segment: u16, bus: u8, device: u8, function: u8) -> (r: Option<
        u64,
    >)
        requires
            self.wf(),
            device < 32,
            function < 8,
        ensures
            r is Some <==> exists|j: int|
                0 <= j < self.regions@.len() && region_matches(
                    #[trigger] self.regions@[j],
                    segment,
                    bus,
                ),
            r matches Some(address) ==> exists|j: int|
                {
                    &&& 0 <= j < self.regions@.len()
                    &&& region_matches(#[trigger] self.regions@[j], segment, bus)
                    &&& forall|k: int|
                        0 <= k < j ==> !region_matches(#[trigger] self.regions@[k], segment, bus)
                    &&& address == self.regions@[j].physical_address + spec_config_offset(
                        self.regions@[j],
                        bus,
                        device,
                        function,
                    )
                },
    {
        let count = self.regions.len();
        let mut j: usize = 0;
        while j < count
            invariant
                self.wf(),
                device < 32,
                function < 8,
                count == self.regions@.len(),
                j <= count,
                forall|k: int|
                    0 <= k < j ==> !region_matches(#[trigger] self.regions@[k], segment, bus),
            decreases count - j,
        {
            let region = self.regions[j];
            if region.segment_group == segment && region.bus_start <= bus && bus <= region.bus_end {
                let offset: u64 = ((bus - region.bus_start) as u64) * 0x10_0000 + (device as u64)
                    * 0x8000 + (function as u64) * 0x1000;
                return Some(region.physical_address + offset);
            }
            j = j + 1;
        }
        None
    }
}

/// Configuration-space access through the memory-mapped mechanism. The
/// volatile reads and writes themselves are machine-edge work; this side
/// owns the lookup.
#[derive(Clone)]
pub struct EcamAccess(pub PciConfigRegions);

impl EcamAccess {
    /// Wraps the firmware-reported regions.
    pub fn new(regions: PciConfigRegions) -> (r: EcamAccess)
        ensures
            r.0 == regions,
    {
        EcamAccess(regions)
    }

    /// Whether the named function has configuration space at all: the
    /// enumeration's existence probe.
    pub fn function_exists(&self, segment: u16, bus: u8, device: u8, function: u8) -> (r: bool)
        requires
            self.0.wf(),
            device < 32,
            function < 8,
        ensures
            r <==> exists|j: int|
                0 <= j < self.0.regions@.len() && region_matches(
                    #[trigger] self.0.regions@[j],
                    segment,
                    bus,
                ),
    {
        self.0.physical_address(segment, bus, device, function).is_some()
    }
}

} // verus!
