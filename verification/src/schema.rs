//! The records of the database and their mathematical values.

use std::collections::HashMap;
use vstd::prelude::*;

verus! {

/// The names found for one device, each present only if the database knows it.
#[derive(Default, Clone, Debug, PartialEq, Eq)]
pub struct DeviceInfo<'a> {
    pub vendor_name: Option<&'a str>,
    pub device_name: Option<&'a str>,
    pub subvendor_name: Option<&'a str>,
    pub subdevice_name: Option<&'a str>,
}

/// A vendor and the devices listed under it.
#[derive(Debug, PartialEq, Eq)]
pub struct Vendor {
    pub name: String,
    pub devices: HashMap<u16, Device>,
}

/// A device and the subsystems listed under it. The subsystems are keyed by
/// [`SubDeviceId::key`].
#[derive(Debug, Clone, PartialEq, Eq)]
pub struct Device {
    pub name: String,
    pub subdevices: HashMap<u32, String>,
}

/// The id of a subsystem: its vendor, which need not be the vendor of the chip, and its own
/// id.
#[derive(Debug, Clone, Copy, PartialEq, Eq, Hash)]
pub struct SubDeviceId {
    pub subvendor: u16,
    pub subdevice: u16,
}

/// A device class and its subclasses.
#[derive(Debug, Clone, PartialEq, Eq)]
pub struct Class {
    pub name: String,
    pub subclasses: HashMap<u8, SubClass>,
}

/// A device subclass and its programming interfaces.
#[derive(Debug, Clone, PartialEq, Eq)]
pub struct SubClass {
    pub name: String,
    pub prog_ifs: HashMap<u8, String>,
}

/// The value of a [`DeviceInfo`].
pub ghost struct DeviceInfoView {
    pub vendor_name: Option<Seq<char>>,
    pub device_name: Option<Seq<char>>,
    pub subvendor_name: Option<Seq<char>>,
    pub subdevice_name: Option<Seq<char>>,
}

/// The value of a [`Device`].
pub ghost struct DeviceView {
    pub name: Seq<char>,
    pub subdevices: Map<SubDeviceId, Seq<char>>,
}

/// The value of a [`Vendor`].
pub ghost struct VendorView {
    pub name: Seq<char>,
    pub devices: Map<u16, DeviceView>,
}

/// The value of a [`SubClass`].
pub ghost struct SubClassView {
    pub name: Seq<char>,
    pub prog_ifs: Map<u8, Seq<char>>,
}

/// The value of a [`Class`].
pub ghost struct ClassView {
    pub name: Seq<char>,
    pub subclasses: Map<u8, SubClassView>,
}

/// The text behind an optional string slice.
pub open spec fn text_of(name: Option<&str>) -> Option<Seq<char>> {
    match name {
        Some(text) => Some(text@),
        None => None,
    }
}

impl<'a> View for DeviceInfo<'a> {
    type V = DeviceInfoView;

    open spec fn view(&self) -> DeviceInfoView {
        DeviceInfoView {
            vendor_name: text_of(self.vendor_name),
            device_name: text_of(self.device_name),
            subvendor_name: text_of(self.subvendor_name),
            subdevice_name: text_of(self.subdevice_name),
        }
    }
}

impl SubDeviceId {
    /// The key under which a device's map holds this subsystem: the two ids side by side,
    /// the subsystem vendor in the upper half. Different ids have different keys.
    pub open spec fn spec_key(self) -> u32 {
        (self.subvendor * 0x10000 + self.subdevice) as u32
    }

    /// The key of this id.
    #[verifier::when_used_as_spec(spec_key)]
    pub fn key(self) -> (key: u32)
        ensures
            key == self.spec_key(),
    {
        let upper: u32 = self.subvendor as u32;
        let lower: u32 = self.subdevice as u32;
        upper * 0x10000 + lower
    }

    /// The id that a key stands for.
    pub fn from_key(key: u32) -> (id: SubDeviceId)
        ensures
            id.subvendor == key / 0x10000,
            id.subdevice == key % 0x10000,
            id.spec_key() == key,
    {
        SubDeviceId { subvendor: (key / 0x10000) as u16, subdevice: (key % 0x10000) as u16 }
    }
}

impl View for Device {
    type V = DeviceView;

    open spec fn view(&self) -> DeviceView {
        DeviceView {
            name: self.name@,
            subdevices: Map::new(
                |id: SubDeviceId| self.subdevices@.contains_key(id.spec_key()),
                |id: SubDeviceId| self.subdevices@[id.spec_key()]@,
            ),
        }
    }
}

impl View for Vendor {
    type V = VendorView;

    open spec fn view(&self) -> VendorView {
        VendorView { name: self.name@, devices: self.devices@.map_values(|d: Device| d@) }
    }
}

impl View for SubClass {
    type V = SubClassView;

    open spec fn view(&self) -> SubClassView {
        SubClassView { name: self.name@, prog_ifs: self.prog_ifs@.map_values(|s: String| s@) }
    }
}

impl View for Class {
    type V = ClassView;

    open spec fn view(&self) -> ClassView {
        ClassView {
            name: self.name@,
            subclasses: self.subclasses@.map_values(|s: SubClass| s@),
        }
    }
}

} // verus!
