//! What a structured log record may hold.
//!
//! Only constant event names and bounded counters enter records. Pairing URIs, capabilities,
//! tickets, filenames, file IDs, paths, and file bytes must never be passed to this module.
use vstd::prelude::*;

verus! {

/// The name under which the app logs.
pub const APP_NAME: &'static str = "ftnl-desktop-app";

/// The tags of every record.
pub const TAGS: [&'static str; 2] = ["file-tunnel", "desktop"];

/// How every record is classified.
pub const CLASSIFICATION: &'static str = "metadata-free";

/// A record: a constant name and perhaps a count.
#[derive(Clone, Copy, Debug)]
pub struct EventRecord {
    pub name: &'static str,
    pub item_count: Option<usize>,
}

/// The record of an event.
pub fn event(name: &'static str) -> (res: EventRecord)
    ensures
        res.name@ == name@,
        res.item_count is None,
{
    EventRecord { name, item_count: None }
}

/// The record of an event that concerned a number of items.
pub fn event_with_count(name: &'static str, count: usize) -> (res: EventRecord)
    ensures
        res.name@ == name@,
        res.item_count == Some(count),
{
    EventRecord { name, item_count: Some(count) }
}

/// Every record goes out under these labels.
pub proof fn records_carry_constant_labels()
    ensures
        APP_NAME@ == "ftnl-desktop-app"@,
        TAGS@.len() == 2,
        TAGS@[0]@ == "file-tunnel"@,
        TAGS@[1]@ == "desktop"@,
        CLASSIFICATION@ == "metadata-free"@,
{
}

} // verus!
