//! Searches that walk a stream of records and stop as soon as the answer is known.

use crate::error::{Error, ErrorView};
use crate::event::{name_result, text_result, Event, EventView, Section};
use crate::parser::{event_stream, Item, Parser};
use crate::schema::SubDeviceId;
use vstd::prelude::*;

verus! {

/// What a search gives: the name, or that there is none, or the error of a malformed line
/// that the search came upon.
pub type Found = Result<Option<Seq<char>>, ErrorView>;

/// The name of the first vendor record with the given id.
pub open spec fn find_vendor(stream: Seq<Item>, vendor_id: u16) -> Found
    decreases stream.len(),
{
    if stream.len() == 0 {
        Ok(None)
    } else {
        match stream[0] {
            Err(error) => Err(error),
            Ok(EventView::Vendor { id, name }) => if id == vendor_id {
                Ok(Some(name))
            } else {
                find_vendor(stream.drop_first(), vendor_id)
            },
            Ok(_) => find_vendor(stream.drop_first(), vendor_id),
        }
    }
}

/// The stream that a search for a vendor leaves: what stands behind the item that ended
/// the search, which is the vendor record that was looked for or an error.
pub open spec fn after_vendor(stream: Seq<Item>, vendor_id: u16) -> Seq<Item>
    decreases stream.len(),
{
    if stream.len() == 0 {
        stream
    } else {
        match stream[0] {
            Err(_) => stream.drop_first(),
            Ok(EventView::Vendor { id, .. }) => if id == vendor_id {
                stream.drop_first()
            } else {
                after_vendor(stream.drop_first(), vendor_id)
            },
            Ok(_) => after_vendor(stream.drop_first(), vendor_id),
        }
    }
}

/// The name of the first device record with the given id among the records of one vendor:
/// the search ends without a name at the next vendor record.
pub open spec fn find_device_in_vendor(stream: Seq<Item>, device_id: u16) -> Found
    decreases stream.len(),
{
    if stream.len() == 0 {
        Ok(None)
    } else {
        match stream[0] {
            Err(error) => Err(error),
            Ok(EventView::Device { id, name }) => if id == device_id {
                Ok(Some(name))
            } else {
                find_device_in_vendor(stream.drop_first(), device_id)
            },
            Ok(EventView::Vendor { .. }) => Ok(None),
            Ok(_) => find_device_in_vendor(stream.drop_first(), device_id),
        }
    }
}

/// The stream that a search among the records of one vendor leaves: what stands behind the
/// item that ended the search, which is the device record that was looked for, the next
/// vendor record or an error.
pub open spec fn after_device_in_vendor(stream: Seq<Item>, device_id: u16) -> Seq<Item>
    decreases stream.len(),
{
    if stream.len() == 0 {
        stream
    } else {
        match stream[0] {
            Err(_) => stream.drop_first(),
            Ok(EventView::Device { id, .. }) => if id == device_id {
                stream.drop_first()
            } else {
                after_device_in_vendor(stream.drop_first(), device_id)
            },
            Ok(EventView::Vendor { .. }) => stream.drop_first(),
            Ok(_) => after_device_in_vendor(stream.drop_first(), device_id),
        }
    }
}

/// The name of the first subdevice record with the given ids among the records of one
/// device: the search ends without a name at the first record that is no subdevice.
pub open spec fn find_subdevice_in_device(
    stream: Seq<Item>,
    subvendor_id: u16,
    subdevice_id: u16,
) -> Found
    decreases stream.len(),
{
    if stream.len() == 0 {
        Ok(None)
    } else {
        match stream[0] {
            Err(error) => Err(error),
            Ok(EventView::Subdevice { subvendor, subdevice, subsystem_name }) => if subvendor
                == subvendor_id && subdevice == subdevice_id {
                Ok(Some(subsystem_name))
            } else {
                find_subdevice_in_device(stream.drop_first(), subvendor_id, subdevice_id)
            },
            Ok(_) => Ok(None),
        }
    }
}

/// The stream that a search among the records of one device leaves: what stands behind the
/// item that ended the search, which is the subdevice record that was looked for, the first
/// record that is no subdevice or an error.
pub open spec fn after_subdevice_in_device(
    stream: Seq<Item>,
    subvendor_id: u16,
    subdevice_id: u16,
) -> Seq<Item>
    decreases stream.len(),
{
    if stream.len() == 0 {
        stream
    } else {
        match stream[0] {
            Err(_) => stream.drop_first(),
            Ok(EventView::Subdevice { subvendor, subdevice, .. }) => if subvendor
                == subvendor_id && subdevice == subdevice_id {
                stream.drop_first()
            } else {
                after_subdevice_in_device(stream.drop_first(), subvendor_id, subdevice_id)
            },
            Ok(_) => stream.drop_first(),
        }
    }
}

/// The name of a device: that of the first device record with `device_id` among the
/// records of the first vendor with `vendor_id`.
pub open spec fn find_device(stream: Seq<Item>, vendor_id: u16, device_id: u16) -> Found {
    match find_vendor(stream, vendor_id) {
        Ok(Some(_)) => find_device_in_vendor(after_vendor(stream, vendor_id), device_id),
        Ok(None) => Ok(None),
        Err(error) => Err(error),
    }
}

/// The stream that a search for a device leaves. The search goes on among the records of
/// the vendor only if it has found the vendor.
pub open spec fn after_device(stream: Seq<Item>, vendor_id: u16, device_id: u16) -> Seq<Item> {
    match find_vendor(stream, vendor_id) {
        Ok(Some(_)) => after_device_in_vendor(after_vendor(stream, vendor_id), device_id),
        _ => after_vendor(stream, vendor_id),
    }
}

/// The name of a subsystem among the records of one vendor: that of the first subdevice
/// record with the two subsystem ids among the records of the device that
/// [`find_device_in_vendor`] finds.
pub open spec fn find_subdevice_in_vendor(
    stream: Seq<Item>,
    device_id: u16,
    subvendor_id: u16,
    subdevice_id: u16,
) -> Found {
    match find_device_in_vendor(stream, device_id) {
        Ok(Some(_)) => find_subdevice_in_device(
            after_device_in_vendor(stream, device_id),
            subvendor_id,
            subdevice_id,
        ),
        Ok(None) => Ok(None),
        Err(error) => Err(error),
    }
}

/// The stream that a search for a subsystem among the records of one vendor leaves. The
/// search goes on among the records of the device only if it has found the device.
pub open spec fn after_subdevice_in_vendor(
    stream: Seq<Item>,
    device_id: u16,
    subvendor_id: u16,
    subdevice_id: u16,
) -> Seq<Item> {
    match find_device_in_vendor(stream, device_id) {
        Ok(Some(_)) => after_subdevice_in_device(
            after_device_in_vendor(stream, device_id),
            subvendor_id,
            subdevice_id,
        ),
        _ => after_device_in_vendor(stream, device_id),
    }
}

/// The name of a subsystem: that of the first subdevice record with the two subsystem ids
/// among the records of the first device with `device_id` among the records of the first
/// vendor with `vendor_id`.
pub open spec fn find_subdevice(
    stream: Seq<Item>,
    vendor_id: u16,
    device_id: u16,
    subvendor_id: u16,
    subdevice_id: u16,
) -> Found {
    match find_vendor(stream, vendor_id) {
        Ok(Some(_)) => find_subdevice_in_vendor(
            after_vendor(stream, vendor_id),
            device_id,
            subvendor_id,
            subdevice_id,
        ),
        Ok(None) => Ok(None),
        Err(error) => Err(error),
    }
}

/// The stream that a search for a subsystem leaves. The search goes on among the records
/// of the vendor only if it has found the vendor.
pub open spec fn after_subdevice(
    stream: Seq<Item>,
    vendor_id: u16,
    device_id: u16,
    subvendor_id: u16,
    subdevice_id: u16,
) -> Seq<Item> {
    match find_vendor(stream, vendor_id) {
        Ok(Some(_)) => after_subdevice_in_vendor(
            after_vendor(stream, vendor_id),
            device_id,
            subvendor_id,
            subdevice_id,
        ),
        _ => after_vendor(stream, vendor_id),
    }
}

/// A search as it stands between two records: what it looks for next, and what it will
/// look for below that.
#[allow(inconsistent_fields)]
#[derive(Clone, Copy, Debug, PartialEq, Eq)]
pub enum Search {
    /// The vendor record has not been seen yet. Without a `device_id` the name of the
    /// vendor is the answer, and `subsystem` counts for nothing.
    Vendor { vendor_id: u16, device_id: Option<u16>, subsystem: Option<SubDeviceId> },
    /// The search is among the records of the vendor. Without a `subsystem` the name of
    /// the device is the answer.
    Device { device_id: u16, subsystem: Option<SubDeviceId> },
    /// The search is among the records of the device.
    Subdevice { subsystem: SubDeviceId },
}

/// What a search does after one record: it goes on, in a new state, or it ends with its
/// answer.
#[derive(Clone, Copy, Debug, PartialEq, Eq)]
pub enum Progress<'a> {
    Continue(Search),
    Done(Option<&'a str>),
}

/// The value of a [`Progress`].
pub ghost enum ProgressView {
    Continue(Search),
    Done(Option<Seq<char>>),
}

impl<'a> View for Progress<'a> {
    type V = ProgressView;

    open spec fn view(&self) -> ProgressView {
        match self {
            Progress::Continue(search) => ProgressView::Continue(*search),
            Progress::Done(Some(name)) => ProgressView::Done(Some(name@)),
            Progress::Done(None) => ProgressView::Done(None),
        }
    }
}

impl Search {
    /// What the search does after `event`.
    ///
    /// Before the vendor, only the vendor record that is looked for counts. Among the
    /// records of the vendor, the device record that is looked for counts, and the next
    /// vendor record ends the search without a name. Among the records of the device, the
    /// first record that is no subdevice ends the search without a name.
    pub open spec fn after(self, event: EventView) -> ProgressView {
        match self {
            Search::Vendor { vendor_id, device_id, subsystem } => match event {
                EventView::Vendor { id, name } => if id == vendor_id {
                    match device_id {
                        None => ProgressView::Done(Some(name)),
                        Some(device_id) => ProgressView::Continue(
                            Search::Device { device_id, subsystem },
                        ),
                    }
                } else {
                    ProgressView::Continue(self)
                },
                _ => ProgressView::Continue(self),
            },
            Search::Device { device_id, subsystem } => match event {
                EventView::Device { id, name } => if id == device_id {
                    match subsystem {
                        None => ProgressView::Done(Some(name)),
                        Some(subsystem) => ProgressView::Continue(Search::Subdevice { subsystem }),
                    }
                } else {
                    ProgressView::Continue(self)
                },
                EventView::Vendor { .. } => ProgressView::Done(None),
                _ => ProgressView::Continue(self),
            },
            Search::Subdevice { subsystem } => match event {
                EventView::Subdevice { subvendor, subdevice, subsystem_name } => if subvendor
                    == subsystem.subvendor && subdevice == subsystem.subdevice {
                    ProgressView::Done(Some(subsystem_name))
                } else {
                    ProgressView::Continue(self)
                },
                _ => ProgressView::Done(None),
            },
        }
    }

    /// What the search gives on `stream`, and the stream that it leaves: it takes the items
    /// one after the other until it ends, at its answer, at an error or at the end of the
    /// stream.
    pub open spec fn run(self, stream: Seq<Item>) -> (Found, Seq<Item>)
        decreases stream.len(),
    {
        if stream.len() == 0 {
            (Ok(None), stream)
        } else {
            match stream[0] {
                Err(error) => (Err(error), stream.drop_first()),
                Ok(event) => match self.after(event) {
                    ProgressView::Done(answer) => (Ok(answer), stream.drop_first()),
                    ProgressView::Continue(next) => next.run(stream.drop_first()),
                },
            }
        }
    }

    /// What the search stands for: the name that it is to give on `stream`, and the stream
    /// that it is to leave.
    pub open spec fn outcome(self, stream: Seq<Item>) -> (Found, Seq<Item>) {
        match self {
            Search::Vendor { vendor_id, device_id: None, .. } => (
                find_vendor(stream, vendor_id),
                after_vendor(stream, vendor_id),
            ),
            Search::Vendor { vendor_id, device_id: Some(device_id), subsystem: None } => (
                find_device(stream, vendor_id, device_id),
                after_device(stream, vendor_id, device_id),
            ),
            Search::Vendor { vendor_id, device_id: Some(device_id), subsystem: Some(id) } => (
                find_subdevice(stream, vendor_id, device_id, id.subvendor, id.subdevice),
                after_subdevice(stream, vendor_id, device_id, id.subvendor, id.subdevice),
            ),
            Search::Device { device_id, subsystem: None } => (
                find_device_in_vendor(stream, device_id),
                after_device_in_vendor(stream, device_id),
            ),
            Search::Device { device_id, subsystem: Some(id) } => (
                find_subdevice_in_vendor(stream, device_id, id.subvendor, id.subdevice),
                after_subdevice_in_vendor(stream, device_id, id.subvendor, id.subdevice),
            ),
            Search::Subdevice { subsystem } => (
                find_subdevice_in_device(stream, subsystem.subvendor, subsystem.subdevice),
                after_subdevice_in_device(stream, subsystem.subvendor, subsystem.subdevice),
            ),
        }
    }

    /// A search for the name of a vendor.
    pub fn vendor(vendor_id: u16) -> (search: Search)
        ensures
            search == (Search::Vendor { vendor_id, device_id: None, subsystem: None }),
    {
        Search::Vendor { vendor_id, device_id: None, subsystem: None }
    }

    /// A search for the name of a device.
    pub fn device(vendor_id: u16, device_id: u16) -> (search: Search)
        ensures
            search == (Search::Vendor { vendor_id, device_id: Some(device_id), subsystem: None }),
    {
        Search::Vendor { vendor_id, device_id: Some(device_id), subsystem: None }
    }

    /// A search for the name of a subsystem of a device.
    pub fn subdevice(vendor_id: u16, device_id: u16, subvendor_id: u16, subdevice_id: u16) -> (search:
        Search)
        ensures
            search == (Search::Vendor {
                vendor_id,
                device_id: Some(device_id),
                subsystem: Some(SubDeviceId { subvendor: subvendor_id, subdevice: subdevice_id }),
            }),
    {
        Search::Vendor {
            vendor_id,
            device_id: Some(device_id),
            subsystem: Some(SubDeviceId { subvendor: subvendor_id, subdevice: subdevice_id }),
        }
    }

    /// Takes one record: the search goes on in the state that is returned, or ends with its
    /// answer.
    pub fn step<'a>(self, event: Event<'a>) -> (progress: Progress<'a>)
        ensures
            progress@ == self.after(event@),
    {
        match self {
            Search::Vendor { vendor_id, device_id, subsystem } => match event {
                Event::Vendor { id, name } => if id == vendor_id {
                    match device_id {
                        None => Progress::Done(Some(name)),
                        Some(device_id) => Progress::Continue(
                            Search::Device { device_id, subsystem },
                        ),
                    }
                } else {
                    Progress::Continue(self)
                },
                _ => Progress::Continue(self),
            },
            Search::Device { device_id, subsystem } => match event {
                Event::Device { id, name } => if id == device_id {
                    match subsystem {
                        None => Progress::Done(Some(name)),
                        Some(subsystem) => Progress::Continue(Search::Subdevice { subsystem }),
                    }
                } else {
                    Progress::Continue(self)
                },
                Event::Vendor { .. } => Progress::Done(None),
                _ => Progress::Continue(self),
            },
            Search::Subdevice { subsystem } => match event {
                Event::Subdevice { subvendor, subdevice, subsystem_name } => if subvendor
                    == subsystem.subvendor && subdevice == subsystem.subdevice {
                    Progress::Done(Some(subsystem_name))
                } else {
                    Progress::Continue(self)
                },
                _ => Progress::Done(None),
            },
        }
    }
}

/// A search that takes the items of a stream one after the other gives what it stands for,
/// and leaves the stream that it is to leave.
pub proof fn lemma_run_gives_outcome(search: Search, stream: Seq<Item>)
    ensures
        search.run(stream) == search.outcome(stream),
    decreases stream.len(),
{
    if stream.len() > 0 {
        if let Ok(event) = stream[0] {
            if let ProgressView::Continue(next) = search.after(event) {
                lemma_run_gives_outcome(next, stream.drop_first());
            }
        }
    }
}

/// Runs a search on the records that `parser` still has.
fn drive<'a>(search: Search, parser: &mut Parser<'a>) -> (result: Result<Option<&'a str>, Error>)
    ensures
        text_result(result) == search.run(old(parser)@).0,
        final(parser)@ == search.run(old(parser)@).1,
{
    let mut state = search;
    loop
        invariant
            state.run(parser@) == search.run(old(parser)@),
        decreases parser@.len(),
    {
        match parser.next_event() {
            Err(error) => {
                return Err(error);
            },
            Ok(None) => {
                return Ok(None);
            },
            Ok(Some(event)) => match state.step(event) {
                Progress::Done(answer) => {
                    return Ok(answer);
                },
                Progress::Continue(next) => {
                    state = next;
                },
            },
        }
    }
}

/// An owned copy of a name that was found.
fn owned(found: Result<Option<&str>, Error>) -> (result: Result<Option<String>, Error>)
    ensures
        name_result(result) == text_result(found),
{
    match found {
        Ok(Some(name)) => Ok(Some(name.to_owned())),
        Ok(None) => Ok(None),
        Err(error) => Err(error),
    }
}

/// Finds the name of a vendor in a live stream of records. The stream is read up to the
/// first vendor record with that id and no further. Not to find one is no error; a
/// malformed line on the way is.
pub fn find_vendor_name(parser: &mut Parser<'_>, vendor_id: u16) -> (result: Result<
    Option<String>,
    Error,
>)
    ensures
        name_result(result) == find_vendor(old(parser)@, vendor_id),
        final(parser)@ == after_vendor(old(parser)@, vendor_id),
{
    let search = Search::vendor(vendor_id);
    proof {
        lemma_run_gives_outcome(search, parser@);
    }
    owned(drive(search, parser))
}

/// Finds the name of a vendor in the bytes of a `pci.ids` stream.
pub fn find_vendor_name_with_reader(reader: &[u8], vendor_id: u16) -> (result: Result<
    Option<String>,
    Error,
>)
    ensures
        name_result(result) == find_vendor(event_stream(reader@, Section::Devices), vendor_id),
{
    let mut parser = Parser::new(reader);
    find_vendor_name(&mut parser, vendor_id)
}

/// Finds the name of a device in a live stream of records: the stream is read up to the
/// first vendor record with `vendor_id`, then up to the first device record with
/// `device_id`, and is given up at the next vendor record.
pub fn find_device_name(parser: &mut Parser<'_>, vendor_id: u16, device_id: u16) -> (result:
    Result<Option<String>, Error>)
    ensures
        name_result(result) == find_device(old(parser)@, vendor_id, device_id),
        final(parser)@ == after_device(old(parser)@, vendor_id, device_id),
{
    let search = Search::device(vendor_id, device_id);
    proof {
        lemma_run_gives_outcome(search, parser@);
    }
    owned(drive(search, parser))
}

/// Finds the name of a device in the bytes of a `pci.ids` stream.
pub fn find_device_name_with_reader(reader: &[u8], vendor_id: u16, device_id: u16) -> (result:
    Result<Option<String>, Error>)
    ensures
        name_result(result) == find_device(
            event_stream(reader@, Section::Devices),
            vendor_id,
            device_id,
        ),
{
    let mut parser = Parser::new(reader);
    find_device_name(&mut parser, vendor_id, device_id)
}

/// Finds the name of a subsystem in a live stream of records: after the device record, the
/// subdevice records that follow it are read up to the first with the two subsystem ids,
/// and the stream is given up at the first record that is no subdevice.
pub fn find_subdevice_name(
    parser: &mut Parser<'_>,
    parent_vendor_id: u16,
    parent_device_id: u16,
    subvendor_id: u16,
    subdevice_id: u16,
) -> (result: Result<Option<String>, Error>)
    ensures
        name_result(result) == find_subdevice(
            old(parser)@,
            parent_vendor_id,
            parent_device_id,
            subvendor_id,
            subdevice_id,
        ),
        final(parser)@ == after_subdevice(
            old(parser)@,
            parent_vendor_id,
            parent_device_id,
            subvendor_id,
            subdevice_id,
        ),
{
    let search = Search::subdevice(parent_vendor_id, parent_device_id, subvendor_id, subdevice_id);
    proof {
        lemma_run_gives_outcome(search, parser@);
    }
    owned(drive(search, parser))
}

/// Finds the name of a subsystem in the bytes of a `pci.ids` stream.
pub fn find_subdevice_name_with_reader(
    reader: &[u8],
    parent_vendor_id: u16,
    parent_device_id: u16,
    subvendor_id: u16,
    subdevice_id: u16,
) -> (result: Result<Option<String>, Error>)
    ensures
        name_result(result) == find_subdevice(
            event_stream(reader@, Section::Devices),
            parent_vendor_id,
            parent_device_id,
            subvendor_id,
            subdevice_id,
        ),
{
    let mut parser = Parser::new(reader);
    find_subdevice_name(
        &mut parser,
        parent_vendor_id,
        parent_device_id,
        subvendor_id,
        subdevice_id,
    )
}

} // verus!
