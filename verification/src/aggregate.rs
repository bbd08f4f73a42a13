//! Folding a stream of records into the nested maps of the database.

use crate::database::{database_result, Database, DatabaseView};
use crate::error::{Error, ErrorView, ParseFailure};
use crate::event::{Event, EventView};
use crate::parser::Item;
use crate::schema::{
    Class, ClassView, Device, DeviceView, SubClass, SubClassView, SubDeviceId, Vendor, VendorView,
};
use std::collections::HashMap;
use vstd::prelude::*;

verus! {

/// The value of an aggregator: the two maps as far as they are filled, and the records that
/// are open, each with its id. An open record still takes children; it is stored in its
/// parent, or in its map, when a later record closes it.
pub ghost struct AggregateView {
    pub vendors: Map<u16, VendorView>,
    pub classes: Map<u8, ClassView>,
    pub vendor: Option<(u16, VendorView)>,
    pub device: Option<(u16, DeviceView)>,
    pub class: Option<(u8, ClassView)>,
    pub subclass: Option<(u8, SubClassView)>,
}

/// The error for a failure that concerns the order of the records.
pub open spec fn structural(reason: ParseFailure) -> ErrorView {
    ErrorView::Parse { reason, line: Seq::empty(), token: Seq::empty() }
}

impl AggregateView {
    /// Nothing stored and nothing open.
    pub open spec fn start() -> AggregateView {
        AggregateView {
            vendors: Map::empty(),
            classes: Map::empty(),
            vendor: None,
            device: None,
            class: None,
            subclass: None,
        }
    }

    /// Stores the open device, if there is one, in the open vendor. An entry with the same
    /// id is replaced.
    pub open spec fn commit_device(self) -> Result<AggregateView, ErrorView> {
        match self.device {
            None => Ok(self),
            Some((device_id, device)) => match self.vendor {
                None => Err(structural(ParseFailure::NoCurrentVendor)),
                Some((vendor_id, vendor)) => Ok(
                    AggregateView {
                        vendor: Some(
                            (
                                vendor_id,
                                VendorView {
                                    name: vendor.name,
                                    devices: vendor.devices.insert(device_id, device),
                                },
                            ),
                        ),
                        device: None,
                        ..self
                    },
                ),
            },
        }
    }

    /// Stores the open vendor, if there is one, in the map of vendors.
    pub open spec fn commit_vendor(self) -> AggregateView {
        match self.vendor {
            None => self,
            Some((vendor_id, vendor)) => AggregateView {
                vendors: self.vendors.insert(vendor_id, vendor),
                vendor: None,
                ..self
            },
        }
    }

    /// Stores the open subclass, if there is one, in the open class.
    pub open spec fn commit_subclass(self) -> Result<AggregateView, ErrorView> {
        match self.subclass {
            None => Ok(self),
            Some((subclass_id, subclass)) => match self.class {
                None => Err(structural(ParseFailure::NoCurrentClass)),
                Some((class_id, class)) => Ok(
                    AggregateView {
                        class: Some(
                            (
                                class_id,
                                ClassView {
                                    name: class.name,
                                    subclasses: class.subclasses.insert(subclass_id, subclass),
                                },
                            ),
                        ),
                        subclass: None,
                        ..self
                    },
                ),
            },
        }
    }

    /// Stores the open class, if there is one, in the map of classes.
    pub open spec fn commit_class(self) -> AggregateView {
        match self.class {
            None => self,
            Some((class_id, class)) => AggregateView {
                classes: self.classes.insert(class_id, class),
                class: None,
                ..self
            },
        }
    }

    /// The aggregator after one more record.
    ///
    /// A vendor closes the open device and the open vendor and is open from then on; a
    /// device closes the open device and is open from then on; a subdevice goes straight
    /// into the open device. Classes, subclasses and programming interfaces do the same one
    /// level each. The two hierarchies do not touch each other.
    pub open spec fn apply(self, event: EventView) -> Result<AggregateView, ErrorView> {
        match event {
            EventView::Vendor { id, name } => match self.commit_device() {
                Err(error) => Err(error),
                Ok(closed) => Ok(
                    AggregateView {
                        vendor: Some((id, VendorView { name, devices: Map::empty() })),
                        ..closed.commit_vendor()
                    },
                ),
            },
            EventView::Device { id, name } => match self.commit_device() {
                Err(error) => Err(error),
                Ok(closed) => Ok(
                    AggregateView {
                        device: Some((id, DeviceView { name, subdevices: Map::empty() })),
                        ..closed
                    },
                ),
            },
            EventView::Subdevice { subvendor, subdevice, subsystem_name } => match self.device {
                None => Err(structural(ParseFailure::NoCurrentDevice)),
                Some((device_id, device)) => Ok(
                    AggregateView {
                        device: Some(
                            (
                                device_id,
                                DeviceView {
                                    name: device.name,
                                    subdevices: device.subdevices.insert(
                                        SubDeviceId { subvendor, subdevice },
                                        subsystem_name,
                                    ),
                                },
                            ),
                        ),
                        ..self
                    },
                ),
            },
            EventView::Class { id, name } => match self.commit_subclass() {
                Err(error) => Err(error),
                Ok(closed) => Ok(
                    AggregateView {
                        class: Some((id, ClassView { name, subclasses: Map::empty() })),
                        ..closed.commit_class()
                    },
                ),
            },
            EventView::SubClass { id, name } => match self.commit_subclass() {
                Err(error) => Err(error),
                Ok(closed) => Ok(
                    AggregateView {
                        subclass: Some((id, SubClassView { name, prog_ifs: Map::empty() })),
                        ..closed
                    },
                ),
            },
            EventView::ProgIf { id, name } => match self.subclass {
                None => Err(structural(ParseFailure::NoCurrentSubClass)),
                Some((subclass_id, subclass)) => Ok(
                    AggregateView {
                        subclass: Some(
                            (
                                subclass_id,
                                SubClassView {
                                    name: subclass.name,
                                    prog_ifs: subclass.prog_ifs.insert(id, name),
                                },
                            ),
                        ),
                        ..self
                    },
                ),
            },
        }
    }

    /// The database at the end of the stream: what is open is stored, the device in its
    /// vendor, the vendor in the map, then the subclass in its class and the class in the
    /// map.
    pub open spec fn finish(self) -> Result<DatabaseView, ErrorView> {
        match self.commit_device() {
            Err(error) => Err(error),
            Ok(closed) => match closed.commit_vendor().commit_subclass() {
                Err(error) => Err(error),
                Ok(closed) => {
                    let done = closed.commit_class();
                    Ok(DatabaseView { vendors: done.vendors, classes: done.classes })
                },
            },
        }
    }

    /// The database that `stream` gives from this aggregator on: its records are taken one
    /// after the other, and at its end what is open is stored. The first item that is an
    /// error, or that the aggregator cannot take, ends the read with its error.
    pub open spec fn aggregate(self, stream: Seq<Item>) -> Result<DatabaseView, ErrorView>
        decreases stream.len(),
    {
        if stream.len() == 0 {
            self.finish()
        } else {
            match stream[0] {
                Err(error) => Err(error),
                Ok(event) => match self.apply(event) {
                    Err(error) => Err(error),
                    Ok(next) => next.aggregate(stream.drop_first()),
                },
            }
        }
    }

    /// The stream that the read of [`AggregateView::aggregate`] leaves: what stands behind
    /// the item that ended it, or nothing if the read came to the end.
    pub open spec fn unread(self, stream: Seq<Item>) -> Seq<Item>
        decreases stream.len(),
    {
        if stream.len() == 0 {
            stream
        } else {
            match stream[0] {
                Err(_) => stream.drop_first(),
                Ok(event) => match self.apply(event) {
                    Err(_) => stream.drop_first(),
                    Ok(next) => next.unread(stream.drop_first()),
                },
            }
        }
    }
}

/// The database that a whole stream gives.
pub open spec fn database_of(stream: Seq<Item>) -> Result<DatabaseView, ErrorView> {
    AggregateView::start().aggregate(stream)
}

/// The value of an open record with its id.
pub open spec fn open_view<K, T: View>(slot: Option<(K, T)>) -> Option<(K, T::V)> {
    match slot {
        Some((id, record)) => Some((id, record@)),
        None => None,
    }
}

/// Folds records into the maps of the database, one record at a time.
pub struct Aggregator {
    vendors: HashMap<u16, Vendor>,
    classes: HashMap<u8, Class>,
    current_vendor: Option<(u16, Vendor)>,
    current_device: Option<(u16, Device)>,
    current_class: Option<(u8, Class)>,
    current_subclass: Option<(u8, SubClass)>,
}

impl View for Aggregator {
    type V = AggregateView;

    closed spec fn view(&self) -> AggregateView {
        AggregateView {
            vendors: self.vendors@.map_values(|v: Vendor| v@),
            classes: self.classes@.map_values(|c: Class| c@),
            vendor: open_view(self.current_vendor),
            device: open_view(self.current_device),
            class: open_view(self.current_class),
            subclass: open_view(self.current_subclass),
        }
    }
}

impl Aggregator {
    /// An aggregator with nothing stored and nothing open.
    pub fn new() -> (aggregator: Aggregator)
        ensures
            aggregator@ == AggregateView::start(),
    {
        let aggregator = Aggregator {
            vendors: HashMap::with_capacity(2500),
            classes: HashMap::with_capacity(200),
            current_vendor: None,
            current_device: None,
            current_class: None,
            current_subclass: None,
        };
        assert(aggregator.vendors@.map_values(|v: Vendor| v@) =~= Map::empty());
        assert(aggregator.classes@.map_values(|c: Class| c@) =~= Map::empty());
        aggregator
    }

    /// Stores the open device, if there is one, in the open vendor. Without an open vendor
    /// the device stays open.
    fn commit_device(&mut self) -> (result: Result<(), Error>)
        ensures
            match old(self)@.commit_device() {
                Ok(next) => result is Ok && final(self)@ == next,
                Err(error) => result is Err && result.unwrap_err()@ == error && final(self)@
                    == old(self)@,
            },
    {
        broadcast use vstd::std_specs::hash::group_hash_axioms;

        match &mut self.current_vendor {
            None => {
                if self.current_device.is_some() {
                    Err(Error::structural(ParseFailure::NoCurrentVendor))
                } else {
                    Ok(())
                }
            },
            Some((_, vendor)) => {
                if let Some((device_id, device)) = self.current_device.take() {
                    let ghost before = vendor.devices@;
                    vendor.devices.insert(device_id, device);
                    assert(vendor.devices@.map_values(|d: Device| d@) =~= before.map_values(
                        |d: Device| d@,
                    ).insert(device_id, device@));
                }
                Ok(())
            },
        }
    }

    /// Stores the open vendor, if there is one, in the map of vendors.
    fn commit_vendor(&mut self)
        ensures
            final(self)@ == old(self)@.commit_vendor(),
    {
        broadcast use vstd::std_specs::hash::group_hash_axioms;

        match self.current_vendor.take() {
            None => {},
            Some((vendor_id, vendor)) => {
                let ghost before = self.vendors@;
                self.vendors.insert(vendor_id, vendor);
                assert(self.vendors@.map_values(|v: Vendor| v@) =~= before.map_values(
                    |v: Vendor| v@,
                ).insert(vendor_id, vendor@));
            },
        }
    }

    /// Stores the open subclass, if there is one, in the open class. Without an open class
    /// the subclass stays open.
    fn commit_subclass(&mut self) -> (result: Result<(), Error>)
        ensures
            match old(self)@.commit_subclass() {
                Ok(next) => result is Ok && final(self)@ == next,
                Err(error) => result is Err && result.unwrap_err()@ == error && final(self)@
                    == old(self)@,
            },
    {
        broadcast use vstd::std_specs::hash::group_hash_axioms;

        match &mut self.current_class {
            None => {
                if self.current_subclass.is_some() {
                    Err(Error::structural(ParseFailure::NoCurrentClass))
                } else {
                    Ok(())
                }
            },
            Some((_, class)) => {
                if let Some((subclass_id, subclass)) = self.current_subclass.take() {
                    let ghost before = class.subclasses@;
                    class.subclasses.insert(subclass_id, subclass);
                    assert(class.subclasses@.map_values(|s: SubClass| s@) =~= before.map_values(
                        |s: SubClass| s@,
                    ).insert(subclass_id, subclass@));
                }
                Ok(())
            },
        }
    }

    /// Stores the open class, if there is one, in the map of classes.
    fn commit_class(&mut self)
        ensures
            final(self)@ == old(self)@.commit_class(),
    {
        broadcast use vstd::std_specs::hash::group_hash_axioms;

        match self.current_class.take() {
            None => {},
            Some((class_id, class)) => {
                let ghost before = self.classes@;
                self.classes.insert(class_id, class);
                assert(self.classes@.map_values(|c: Class| c@) =~= before.map_values(
                    |c: Class| c@,
                ).insert(class_id, class@));
            },
        }
    }

    /// Ends the stream: stores what is open and hands the database out.
    pub fn finish(self) -> (result: Result<Database, Error>)
        ensures
            database_result(result) == self@.finish(),
    {
        let mut closing = self;
        match closing.commit_device() {
            Err(error) => {
                return Err(error);
            },
            Ok(()) => {},
        }
        closing.commit_vendor();
        match closing.commit_subclass() {
            Err(error) => {
                return Err(error);
            },
            Ok(()) => {},
        }
        closing.commit_class();
        Ok(Database { vendors: closing.vendors, classes: closing.classes })
    }

    /// Takes one more record. A record that cannot be taken leaves the aggregator as it
    /// was.
    pub fn apply(&mut self, event: Event<'_>) -> (result: Result<(), Error>)
        ensures
            match old(self)@.apply(event@) {
                Ok(next) => result is Ok && final(self)@ == next,
                Err(error) => result is Err && result.unwrap_err()@ == error && final(self)@
                    == old(self)@,
            },
    {
        broadcast use vstd::std_specs::hash::group_hash_axioms;

        match event {
            Event::Vendor { id, name } => {
                match self.commit_device() {
                    Err(error) => {
                        return Err(error);
                    },
                    Ok(()) => {},
                }
                self.commit_vendor();
                let vendor = Vendor { name: name.to_owned(), devices: HashMap::new() };
                assert(vendor.devices@.map_values(|d: Device| d@) =~= Map::empty());
                self.current_vendor = Some((id, vendor));
                Ok(())
            },
            Event::Device { id, name } => {
                match self.commit_device() {
                    Err(error) => {
                        return Err(error);
                    },
                    Ok(()) => {},
                }
                let device = Device { name: name.to_owned(), subdevices: HashMap::new() };
                assert(device@.subdevices =~= Map::empty());
                self.current_device = Some((id, device));
                Ok(())
            },
            Event::Subdevice { subvendor, subdevice, subsystem_name } => {
                match &mut self.current_device {
                    None => Err(Error::structural(ParseFailure::NoCurrentDevice)),
                    Some((_, device)) => {
                        let id = SubDeviceId { subvendor, subdevice };
                        let ghost before = device@;
                        device.subdevices.insert(id.key(), subsystem_name.to_owned());
                        assert(device@.subdevices =~= before.subdevices.insert(
                            id,
                            subsystem_name@,
                        ));
                        Ok(())
                    },
                }
            },
            Event::Class { id, name } => {
                match self.commit_subclass() {
                    Err(error) => {
                        return Err(error);
                    },
                    Ok(()) => {},
                }
                self.commit_class();
                let class = Class { name: name.to_owned(), subclasses: HashMap::new() };
                assert(class.subclasses@.map_values(|s: SubClass| s@) =~= Map::empty());
                self.current_class = Some((id, class));
                Ok(())
            },
            Event::SubClass { id, name } => {
                match self.commit_subclass() {
                    Err(error) => {
                        return Err(error);
                    },
                    Ok(()) => {},
                }
                let subclass = SubClass { name: name.to_owned(), prog_ifs: HashMap::new() };
                assert(subclass.prog_ifs@.map_values(|s: String| s@) =~= Map::empty());
                self.current_subclass = Some((id, subclass));
                Ok(())
            },
            Event::ProgIf { id, name } => {
                match &mut self.current_subclass {
                    None => Err(Error::structural(ParseFailure::NoCurrentSubClass)),
                    Some((_, subclass)) => {
                        let ghost before = subclass.prog_ifs@;
                        let owned = name.to_owned();
                        subclass.prog_ifs.insert(id, owned);
                        assert(subclass.prog_ifs@.map_values(|s: String| s@)
                            =~= before.map_values(|s: String| s@).insert(id, name@));
                        Ok(())
                    },
                }
            },
        }
    }
}

} // verus!
