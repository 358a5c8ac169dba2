//! The platform bus: one abstract bus that all devices in the system
//! hang off.
//!
//! Bus drivers contribute devices when they enumerate their physical
//! buses; device drivers then register interest in classes of devices.
//! A device is described by named properties carrying both generic and
//! platform-specific information — a PCI bus driver, for one, registers
//! its devices with vendor, device, class and sub-class properties, so a
//! driver can select all devices of one type or one specific device.

use vstd::prelude::*;
use std::collections::BTreeMap;

verus! {

/// One property of a device on the platform bus.
#[derive(Debug, PartialEq, Eq)]
pub enum Property {
    Bool(bool),
    Integer(u64),
    String(String),
}

/// A device on the platform bus: its properties by name.
#[derive(Debug, PartialEq, Eq)]
pub struct Device {
    properties: BTreeMap<String, Property>,
}

impl Device {
    /// The device's properties, as contracts see them.
    pub closed spec fn spec_properties(self) -> BTreeMap<String, Property> {
        self.properties
    }

    /// Describes a device by its properties.
    pub fn new(properties: BTreeMap<String, Property>) -> (r: Device)
        ensures
            r.spec_properties() == properties,
    {
        Device { properties }
    }

    /// The device's properties.
    pub fn properties(&self) -> (r: &BTreeMap<String, Property>)
        ensures
            *r == self.spec_properties(),
    {
        &self.properties
    }
}

/// A message from a bus driver to the platform bus.
#[derive(Debug, PartialEq, Eq)]
pub enum BusDriverMessage {
    RegisterDevice(String, Device),
    AddProperty(String, Property),
    RemoveProperty(String),
}

} // verus!
