//! The records that the lines of the stream stand for.

use crate::error::{Error, ErrorView};
use vstd::prelude::*;

verus! {

/// The part of the stream that a line belongs to. A stream starts in the device section; the
/// first class line moves it to the class section, where it stays.
#[derive(Clone, Copy, Debug, PartialEq, Eq, Structural)]
pub enum Section {
    Devices,
    Classes,
}

/// One record, read from one line. The names borrow from the bytes that were read.
#[allow(inconsistent_fields)]
#[derive(Clone, Copy, Debug, PartialEq, Eq)]
pub enum Event<'a> {
    Vendor { id: u16, name: &'a str },
    Device { id: u16, name: &'a str },
    Subdevice { subvendor: u16, subdevice: u16, subsystem_name: &'a str },
    Class { id: u8, name: &'a str },
    SubClass { id: u8, name: &'a str },
    ProgIf { id: u8, name: &'a str },
}

/// The value of an [`Event`].
#[allow(inconsistent_fields)]
pub ghost enum EventView {
    Vendor { id: u16, name: Seq<char> },
    Device { id: u16, name: Seq<char> },
    Subdevice { subvendor: u16, subdevice: u16, subsystem_name: Seq<char> },
    Class { id: u8, name: Seq<char> },
    SubClass { id: u8, name: Seq<char> },
    ProgIf { id: u8, name: Seq<char> },
}

impl<'a> View for Event<'a> {
    type V = EventView;

    open spec fn view(&self) -> EventView {
        match self {
            Event::Vendor { id, name } => EventView::Vendor { id: *id, name: name@ },
            Event::Device { id, name } => EventView::Device { id: *id, name: name@ },
            Event::Subdevice { subvendor, subdevice, subsystem_name } => EventView::Subdevice {
                subvendor: *subvendor,
                subdevice: *subdevice,
                subsystem_name: subsystem_name@,
            },
            Event::Class { id, name } => EventView::Class { id: *id, name: name@ },
            Event::SubClass { id, name } => EventView::SubClass { id: *id, name: name@ },
            Event::ProgIf { id, name } => EventView::ProgIf { id: *id, name: name@ },
        }
    }
}

/// The value of the result of classifying one line.
pub open spec fn event_result(result: Result<Event<'_>, Error>) -> Result<EventView, ErrorView> {
    match result {
        Ok(event) => Ok(event@),
        Err(error) => Err(error@),
    }
}

/// The value of the result of asking a stream for its next record.
pub open spec fn next_result(result: Result<Option<Event<'_>>, Error>) -> Result<
    Option<EventView>,
    ErrorView,
> {
    match result {
        Ok(Some(event)) => Ok(Some(event@)),
        Ok(None) => Ok(None),
        Err(error) => Err(error@),
    }
}

/// The value of the result of a search for a name that borrows from the bytes.
pub open spec fn text_result(result: Result<Option<&str>, Error>) -> Result<
    Option<Seq<char>>,
    ErrorView,
> {
    match result {
        Ok(Some(name)) => Ok(Some(name@)),
        Ok(None) => Ok(None),
        Err(error) => Err(error@),
    }
}

/// The value of the result of a search for a name.
pub open spec fn name_result(result: Result<Option<String>, Error>) -> Result<
    Option<Seq<char>>,
    ErrorView,
> {
    match result {
        Ok(Some(name)) => Ok(Some(name@)),
        Ok(None) => Ok(None),
        Err(error) => Err(error@),
    }
}

} // verus!
