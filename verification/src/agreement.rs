//! The streaming search and the lookup in the finished database give the same device name.

use crate::aggregate::{database_of, AggregateView};
use crate::database::DatabaseView;
use crate::error::ErrorView;
use crate::event::EventView;
use crate::parser::Item;
use crate::search::{find_device, find_device_in_vendor};
use vstd::prelude::*;

verus! {

/// No vendor record in `events` has the id `vendor_id`.
pub open spec fn no_vendor(events: Seq<Item>, vendor_id: u16) -> bool
    decreases events.len(),
{
    if events.len() == 0 {
        true
    } else {
        match events[0] {
            Ok(EventView::Vendor { id, .. }) => id != vendor_id && no_vendor(
                events.drop_first(),
                vendor_id,
            ),
            _ => no_vendor(events.drop_first(), vendor_id),
        }
    }
}

/// No device record before the first vendor record of `events` has the id `device_id`.
pub open spec fn no_device_in_vendor(events: Seq<Item>, device_id: u16) -> bool
    decreases events.len(),
{
    if events.len() == 0 {
        true
    } else {
        match events[0] {
            Ok(EventView::Vendor { .. }) => true,
            Ok(EventView::Device { id, .. }) => id != device_id && no_device_in_vendor(
                events.drop_first(),
                device_id,
            ),
            _ => no_device_in_vendor(events.drop_first(), device_id),
        }
    }
}

/// At most one device record before the first vendor record of `events` has the id
/// `device_id`.
pub open spec fn device_once_in_vendor(events: Seq<Item>, device_id: u16) -> bool
    decreases events.len(),
{
    if events.len() == 0 {
        true
    } else {
        match events[0] {
            Ok(EventView::Vendor { .. }) => true,
            Ok(EventView::Device { id, .. }) => if id == device_id {
                no_device_in_vendor(events.drop_first(), device_id)
            } else {
                device_once_in_vendor(events.drop_first(), device_id)
            },
            _ => device_once_in_vendor(events.drop_first(), device_id),
        }
    }
}

/// At most one vendor record of `events` has the id `vendor_id`, and at most one of the
/// device records between it and the next vendor record has the id `device_id`.
pub open spec fn listed_once(events: Seq<Item>, vendor_id: u16, device_id: u16) -> bool
    decreases events.len(),
{
    if events.len() == 0 {
        true
    } else {
        match events[0] {
            Ok(EventView::Vendor { id, .. }) => if id == vendor_id {
                no_vendor(events.drop_first(), vendor_id) && device_once_in_vendor(
                    events.drop_first(),
                    device_id,
                )
            } else {
                listed_once(events.drop_first(), vendor_id, device_id)
            },
            _ => listed_once(events.drop_first(), vendor_id, device_id),
        }
    }
}

/// The name that the database has for a device, if it has the device.
pub open spec fn stored_name(database: DatabaseView, vendor_id: u16, device_id: u16) -> Option<
    Seq<char>,
> {
    if database.vendors.contains_key(vendor_id) && database.vendors[vendor_id].devices.contains_key(
        device_id,
    ) {
        Some(database.vendors[vendor_id].devices[device_id].name)
    } else {
        None
    }
}

/// Once a vendor is stored and no later record opens that vendor again, the database holds
/// it as it was stored.
proof fn lemma_stored_vendor_stays(
    state: AggregateView,
    events: Seq<Item>,
    database: DatabaseView,
    vendor_id: u16,
)
    requires
        state.aggregate(events) == Ok::<DatabaseView, ErrorView>(database),
        state.vendors.contains_key(vendor_id),
        state.vendor matches Some(open) ==> open.0 != vendor_id,
        no_vendor(events, vendor_id),
    ensures
        database.vendors.contains_key(vendor_id),
        database.vendors[vendor_id] == state.vendors[vendor_id],
    decreases events.len(),
{
    if events.len() > 0 {
        let next = state.apply(events[0]->Ok_0)->Ok_0;
        lemma_stored_vendor_stays(next, events.drop_first(), database, vendor_id);
    }
}

/// Once a device is stored in the open vendor, and neither that vendor nor that device is
/// opened again, the database holds the device as it was stored.
proof fn lemma_stored_device_stays(
    state: AggregateView,
    events: Seq<Item>,
    database: DatabaseView,
    vendor_id: u16,
    device_id: u16,
)
    requires
        state.aggregate(events) == Ok::<DatabaseView, ErrorView>(database),
        state.vendor matches Some(open) && open.0 == vendor_id && open.1.devices.contains_key(
            device_id,
        ),
        state.device matches Some(open) ==> open.0 != device_id,
        no_vendor(events, vendor_id),
        no_device_in_vendor(events, device_id),
    ensures
        database.vendors.contains_key(vendor_id),
        database.vendors[vendor_id].devices.contains_key(device_id),
        database.vendors[vendor_id].devices[device_id] == state.vendor.unwrap().1.devices[device_id],
    decreases events.len(),
{
    if events.len() > 0 {
        let next = state.apply(events[0]->Ok_0)->Ok_0;
        match events[0] {
            Ok(EventView::Vendor { .. }) => {
                lemma_stored_vendor_stays(next, events.drop_first(), database, vendor_id);
            },
            _ => {
                lemma_stored_device_stays(
                    next,
                    events.drop_first(),
                    database,
                    vendor_id,
                    device_id,
                );
            },
        }
    }
}

/// While a device is open under its vendor, and neither that vendor nor that device is
/// opened again, the database will hold the device under the name it was opened with.
proof fn lemma_open_device_keeps_name(
    state: AggregateView,
    events: Seq<Item>,
    database: DatabaseView,
    vendor_id: u16,
    device_id: u16,
)
    requires
        state.aggregate(events) == Ok::<DatabaseView, ErrorView>(database),
        state.vendor matches Some(open) && open.0 == vendor_id,
        state.device matches Some(open) && open.0 == device_id,
        no_vendor(events, vendor_id),
        no_device_in_vendor(events, device_id),
    ensures
        stored_name(database, vendor_id, device_id) == Some(state.device.unwrap().1.name),
    decreases events.len(),
{
    if events.len() > 0 {
        let next = state.apply(events[0]->Ok_0)->Ok_0;
        match events[0] {
            Ok(EventView::Vendor { .. }) => {
                lemma_stored_vendor_stays(next, events.drop_first(), database, vendor_id);
            },
            Ok(EventView::Device { .. }) => {
                lemma_stored_device_stays(
                    next,
                    events.drop_first(),
                    database,
                    vendor_id,
                    device_id,
                );
            },
            _ => {
                lemma_open_device_keeps_name(
                    next,
                    events.drop_first(),
                    database,
                    vendor_id,
                    device_id,
                );
            },
        }
    }
}

/// While a vendor is open that does not hold the device yet, the search among the records
/// of that vendor finds what the database will hold.
proof fn lemma_search_in_open_vendor(
    state: AggregateView,
    events: Seq<Item>,
    database: DatabaseView,
    vendor_id: u16,
    device_id: u16,
)
    requires
        state.aggregate(events) == Ok::<DatabaseView, ErrorView>(database),
        state.vendor matches Some(open) && open.0 == vendor_id && !open.1.devices.contains_key(
            device_id,
        ),
        state.device matches Some(open) ==> open.0 != device_id,
        no_vendor(events, vendor_id),
        device_once_in_vendor(events, device_id),
    ensures
        find_device_in_vendor(events, device_id) == Ok::<Option<Seq<char>>, ErrorView>(
            stored_name(database, vendor_id, device_id),
        ),
    decreases events.len(),
{
    if events.len() > 0 {
        let next = state.apply(events[0]->Ok_0)->Ok_0;
        let rest = events.drop_first();
        match events[0] {
            Ok(EventView::Vendor { .. }) => {
                lemma_stored_vendor_stays(next, rest, database, vendor_id);
            },
            Ok(EventView::Device { id, .. }) => {
                if id == device_id {
                    lemma_open_device_keeps_name(next, rest, database, vendor_id, device_id);
                } else {
                    lemma_search_in_open_vendor(next, rest, database, vendor_id, device_id);
                }
            },
            _ => {
                lemma_search_in_open_vendor(next, rest, database, vendor_id, device_id);
            },
        }
    }
}

/// Before the vendor has been seen, the search finds what the database will hold.
proof fn lemma_search_from(
    state: AggregateView,
    events: Seq<Item>,
    database: DatabaseView,
    vendor_id: u16,
    device_id: u16,
)
    requires
        state.aggregate(events) == Ok::<DatabaseView, ErrorView>(database),
        !state.vendors.contains_key(vendor_id),
        state.vendor matches Some(open) ==> open.0 != vendor_id,
        listed_once(events, vendor_id, device_id),
    ensures
        find_device(events, vendor_id, device_id) == Ok::<Option<Seq<char>>, ErrorView>(
            stored_name(database, vendor_id, device_id),
        ),
    decreases events.len(),
{
    if events.len() > 0 {
        let next = state.apply(events[0]->Ok_0)->Ok_0;
        let rest = events.drop_first();
        match events[0] {
            Ok(EventView::Vendor { id, .. }) => {
                if id == vendor_id {
                    lemma_search_in_open_vendor(next, rest, database, vendor_id, device_id);
                } else {
                    lemma_search_from(next, rest, database, vendor_id, device_id);
                }
            },
            _ => {
                lemma_search_from(next, rest, database, vendor_id, device_id);
            },
        }
    }
}

/// For a stream that gives a database, the streaming search for a device and the lookup in
/// the database agree: both give the same name, or both give none. This holds of every
/// vendor id that at most one vendor record carries and every device id that at most one
/// device record of that vendor carries; the subsystem that the lookup asks for makes no
/// difference.
pub proof fn lemma_search_agrees_with_lookup(
    stream: Seq<Item>,
    database: DatabaseView,
    vendor_id: u16,
    device_id: u16,
    subsys_vendor_id: u16,
    subsys_model_id: u16,
)
    requires
        database_of(stream) == Ok::<DatabaseView, ErrorView>(database),
        listed_once(stream, vendor_id, device_id),
    ensures
        find_device(stream, vendor_id, device_id) == Ok::<Option<Seq<char>>, ErrorView>(
            database.device_info(
                vendor_id,
                device_id,
                subsys_vendor_id,
                subsys_model_id,
            ).device_name,
        ),
{
    lemma_search_from(AggregateView::start(), stream, database, vendor_id, device_id);
}

} // verus!
