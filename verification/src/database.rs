//! The database: building it from a stream and looking a device up in it.

use crate::aggregate::{database_of, AggregateView, Aggregator};
use crate::error::{Error, ErrorView};
use crate::event::Section;
use crate::parser::{event_stream, Parser};
use crate::schema::{
    Class, ClassView, DeviceInfo, DeviceInfoView, SubDeviceId, Vendor, VendorView,
};
use std::collections::HashMap;
use vstd::prelude::*;

verus! {

/// The vendors and the device classes of one `pci.ids` stream.
#[derive(Debug)]
pub struct Database {
    pub vendors: HashMap<u16, Vendor>,
    pub classes: HashMap<u8, Class>,
}

/// The value of a database: vendors by id and classes by id.
pub ghost struct DatabaseView {
    pub vendors: Map<u16, VendorView>,
    pub classes: Map<u8, ClassView>,
}

impl View for Database {
    type V = DatabaseView;

    open spec fn view(&self) -> DatabaseView {
        DatabaseView {
            vendors: self.vendors@.map_values(|v: Vendor| v@),
            classes: self.classes@.map_values(|c: Class| c@),
        }
    }
}

/// The value of the result of building a database.
pub open spec fn database_result(result: Result<Database, Error>) -> Result<
    DatabaseView,
    ErrorView,
> {
    match result {
        Ok(database) => Ok(database@),
        Err(error) => Err(error@),
    }
}

impl DatabaseView {
    /// The names that the database has for a device and its subsystem.
    ///
    /// Without the vendor nothing is known. Without the device under that vendor only the
    /// vendor's name is. With the device, the subsystem vendor is looked up among all
    /// vendors, and the subsystem among the subsystems of the device, each on its own.
    pub open spec fn device_info(
        self,
        vendor_id: u16,
        model_id: u16,
        subsys_vendor_id: u16,
        subsys_model_id: u16,
    ) -> DeviceInfoView {
        if !self.vendors.contains_key(vendor_id) {
            DeviceInfoView {
                vendor_name: None,
                device_name: None,
                subvendor_name: None,
                subdevice_name: None,
            }
        } else {
            let vendor = self.vendors[vendor_id];
            if !vendor.devices.contains_key(model_id) {
                DeviceInfoView {
                    vendor_name: Some(vendor.name),
                    device_name: None,
                    subvendor_name: None,
                    subdevice_name: None,
                }
            } else {
                let device = vendor.devices[model_id];
                let subdevice_id = SubDeviceId {
                    subvendor: subsys_vendor_id,
                    subdevice: subsys_model_id,
                };
                DeviceInfoView {
                    vendor_name: Some(vendor.name),
                    device_name: Some(device.name),
                    subvendor_name: if self.vendors.contains_key(subsys_vendor_id) {
                        Some(self.vendors[subsys_vendor_id].name)
                    } else {
                        None
                    },
                    subdevice_name: if device.subdevices.contains_key(subdevice_id) {
                        Some(device.subdevices[subdevice_id])
                    } else {
                        None
                    },
                }
            }
        }
    }
}

/// A lookup of a known vendor with a device that the vendor does not list gives the
/// vendor's name and nothing else, whatever subsystem is asked for.
pub proof fn lemma_unknown_device_gives_vendor_only(
    database: DatabaseView,
    vendor_id: u16,
    model_id: u16,
    subsys_vendor_id: u16,
    subsys_model_id: u16,
)
    requires
        database.vendors.contains_key(vendor_id),
        !database.vendors[vendor_id].devices.contains_key(model_id),
    ensures
        database.device_info(vendor_id, model_id, subsys_vendor_id, subsys_model_id) == (
        DeviceInfoView {
            vendor_name: Some(database.vendors[vendor_id].name),
            device_name: None,
            subvendor_name: None,
            subdevice_name: None,
        }),
{
}

/// Parsing is a function of the bytes: whatever two parses of the same bytes return has the
/// same value, which is the same two maps, key for key, or the same error.
pub proof fn lemma_parse_db_repeats(
    reader: Seq<u8>,
    first: Result<Database, Error>,
    second: Result<Database, Error>,
)
    requires
        database_result(first) == database_of(event_stream(reader, Section::Devices)),
        database_result(second) == database_of(event_stream(reader, Section::Devices)),
    ensures
        database_result(first) == database_result(second),
        first matches Ok(one) ==> second matches Ok(other) && one@.vendors == other@.vendors
            && one@.classes == other@.classes,
{
}

impl Database {
    /// Reads the database from a live stream of records: every record that `parser` still
    /// has is folded into the maps. Any error ends the read where it stands, and no database
    /// is returned.
    pub fn read(parser: &mut Parser<'_>) -> (result: Result<Database, Error>)
        ensures
            database_result(result) == database_of(old(parser)@),
            final(parser)@ == AggregateView::start().unread(old(parser)@),
    {
        let mut aggregator = Aggregator::new();
        loop
            invariant
                aggregator@.aggregate(parser@) == database_of(old(parser)@),
                aggregator@.unread(parser@) == AggregateView::start().unread(old(parser)@),
            decreases parser@.len(),
        {
            match parser.next_event() {
                Err(error) => {
                    return Err(error);
                },
                Ok(None) => {
                    return aggregator.finish();
                },
                Ok(Some(event)) => {
                    match aggregator.apply(event) {
                        Err(error) => {
                            return Err(error);
                        },
                        Ok(()) => {},
                    }
                },
            }
        }
    }

    /// Parses a database from the bytes of a `pci.ids` stream.
    pub fn parse_db(reader: &[u8]) -> (result: Result<Database, Error>)
        ensures
            database_result(result) == database_of(event_stream(reader@, Section::Devices)),
    {
        let mut parser = Parser::new(reader);
        Database::read(&mut parser)
    }

    /// Looks up the names of a device and of its subsystem.
    #[must_use]
    pub fn get_device_info(
        &self,
        vendor_id: u16,
        model_id: u16,
        subsys_vendor_id: u16,
        subsys_model_id: u16,
    ) -> (info: DeviceInfo<'_>)
        ensures
            info@ == self@.device_info(vendor_id, model_id, subsys_vendor_id, subsys_model_id),
    {
        broadcast use vstd::std_specs::hash::group_hash_axioms;

        let mut vendor_name = None;
        let mut device_name = None;
        let mut subvendor_name = None;
        let mut subdevice_name = None;

        if let Some(vendor) = self.vendors.get(&vendor_id) {
            vendor_name = Some(vendor.name.as_str());

            if let Some(device) = vendor.devices.get(&model_id) {
                device_name = Some(device.name.as_str());

                if let Some(subvendor) = self.vendors.get(&subsys_vendor_id) {
                    subvendor_name = Some(subvendor.name.as_str());
                }
                let subdevice_id = SubDeviceId {
                    subvendor: subsys_vendor_id,
                    subdevice: subsys_model_id,
                };

                if let Some(name) = device.subdevices.get(&subdevice_id.key()) {
                    subdevice_name = Some(name.as_str());
                }
            }
        }

        DeviceInfo { vendor_name, device_name, subvendor_name, subdevice_name }
    }
}

} // verus!
