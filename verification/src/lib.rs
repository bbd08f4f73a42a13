//! Parser for the `pci.ids` hardware identification database.
//!
//! A `pci.ids` stream lists vendors, their devices and the subsystems of those devices, and
//! after them the device classes, their subclasses and programming interfaces, one record
//! per line. [`Parser`] turns the bytes of such a stream into records, [`Database`] folds the
//! records into nested maps and answers lookups, and the `find_` functions answer one lookup
//! straight from the records, without building the maps.
//!
//! A caller that reads the stream itself, line by line, hands each line to a [`LineReader`]
//! and each record to an [`Aggregator`] or to a [`Search`], and stops reading when the
//! search is done.

pub mod aggregate;
pub mod agreement;
pub mod database;
pub mod error;
pub mod event;
pub mod hex;
pub mod line;
pub mod parser;
pub mod schema;
pub mod search;
pub mod window;

pub use aggregate::Aggregator;
pub use database::Database;
pub use error::{Error, ParseFailure};
pub use event::{Event, Section};
pub use parser::{LineReader, Parser};
pub use search::{
    find_device_name, find_device_name_with_reader, find_subdevice_name,
    find_subdevice_name_with_reader, find_vendor_name, find_vendor_name_with_reader, Progress,
    Search,
};
pub use window::Classifier;

use vstd::prelude::*;

verus! {

/// The failure to find a `pci.ids` file on the machine.
#[derive(Debug)]
pub enum VendorDataError {
    MissingIdsFile,
}

} // verus!
