//! Which scanned endpoints the agent connects to.

use vstd::prelude::*;
use crate::config::Config;
use crate::monitor::StaticInfo;
use crate::registry::{channel_send, ConnectionRegistry, DeviceConnection};
use crate::wire::identity_line;

verus! {

/// How an endpoint is attached, as far as selection cares.
#[derive(Debug, Clone, Copy, PartialEq, Eq, Structural)]
pub enum Transport {
    /// A bus-addressed device with its vendor and product id.
    Usb { vid: u16, pid: u16 },
    Pci,
    Bluetooth,
    Unknown,
}

/// A serial endpoint seen in one scan.
#[derive(Debug, Clone)]
pub struct Endpoint {
    pub port_name: String,
    pub port_type: Transport,
}

/// `name` is one of `names`, compared character by character.
pub open spec fn lists_name(names: Seq<String>, name: Seq<char>) -> bool {
    exists|i: int| 0 <= i < names.len() && (#[trigger] names[i])@ == name
}

/// The selection rule: in monitor-all mode an endpoint is taken when it is
/// bus-addressed and its vendor id is in the filter set; otherwise when its
/// name is on the allow-list.
pub open spec fn selected(port: Endpoint, config: Config) -> bool {
    if config.monitor_all {
        port.port_type matches Transport::Usb { vid, .. } && config.filters@.contains(vid)
    } else {
        lists_name(config.ports@, port.port_name@)
    }
}

/// Whether `vid` occurs in `filters`.
pub fn vendor_allowed(filters: &Vec<u16>, vid: u16) -> (found: bool)
    ensures
        found == filters@.contains(vid),
{
    let mut i: usize = 0;
    while i < filters.len()
        invariant
            i <= filters.len(),
            forall|j: int| 0 <= j < i ==> filters@[j] != vid,
        decreases filters.len() - i,
    {
        if filters[i] == vid {
            return true;
        }
        i += 1;
    }
    false
}

/// Whether `name` occurs in `names`.
pub fn name_listed(names: &Vec<String>, name: &String) -> (found: bool)
    ensures
        found == lists_name(names@, name@),
{
    let mut i: usize = 0;
    while i < names.len()
        invariant
            i <= names.len(),
            forall|j: int| 0 <= j < i ==> (#[trigger] names@[j])@ != name@,
        decreases names.len() - i,
    {
        if names[i] == *name {
            return true;
        }
        i += 1;
    }
    false
}

/// Whether the agent connects to `port` under `config`.
pub fn should_connect(port: &Endpoint, config: &Config) -> (go: bool)
    ensures
        go == selected(*port, *config),
{
    if config.monitor_all {
        match port.port_type {
            Transport::Usb { vid, .. } => vendor_allowed(&config.filters, vid),
            _ => false,
        }
    } else {
        name_listed(&config.ports, &port.port_name)
    }
}

/// In monitor-all mode exactly the bus-addressed endpoints whose vendor id
/// is in the filter set are selected; an endpoint of any other transport
/// is not, whatever the filter set and the allow-list hold.
pub proof fn monitor_all_selects_by_vendor(port: Endpoint, config: Config)
    requires
        config.monitor_all,
    ensures
        selected(port, config) <==> (port.port_type matches Transport::Usb { vid, .. }
            && config.filters@.contains(vid)),
        !(port.port_type is Usb) ==> !selected(port, config),
{
}

/// Outside monitor-all mode exactly the endpoints whose name is on the
/// allow-list are selected, whatever their transport and the filter set.
pub proof fn allow_list_selects_by_name(port: Endpoint, config: Config, transport: Transport)
    requires
        !config.monitor_all,
    ensures
        selected(port, config) <==> lists_name(config.ports@, port.port_name@),
        selected(Endpoint { port_type: transport, ..port }, config) == selected(port, config),
{
}

/// How long the discovery loop rests between two scans, in seconds.
pub const DISCOVERY_INTERVAL_SECS: u64 = 5;

/// How long opening an endpoint may take, in milliseconds.
pub const OPEN_TIMEOUT_MS: u64 = 1000;

/// An endpoint is due for a connection when none is registered under its
/// name and the selection rule takes it.
pub open spec fn due(port: Endpoint, names: Set<Seq<char>>, config: Config) -> bool {
    !names.contains(port.port_name@) && selected(port, config)
}

/// Looks through the scan from position `from` on for the next endpoint
/// that is due for a connection.
pub fn next_candidate(
    scanned: &Vec<Endpoint>,
    from: usize,
    registry: &ConnectionRegistry,
    config: &Config,
) -> (next: Option<usize>)
    ensures
        match next {
            Some(found) => {
                &&& from <= found < scanned@.len()
                &&& due(scanned@[found as int], registry@.dom(), *config)
                &&& forall|i: int|
                    from <= i < found ==> !due(#[trigger] scanned@[i], registry@.dom(), *config)
            },
            None => forall|i: int|
                from <= i < scanned@.len() ==> !due(
                    #[trigger] scanned@[i],
                    registry@.dom(),
                    *config,
                ),
        },
{
    let mut i: usize = from;
    while i < scanned.len()
        invariant
            from <= i,
            forall|j: int|
                from <= j < i && j < scanned@.len() ==> !due(
                    #[trigger] scanned@[j],
                    registry@.dom(),
                    *config,
                ),
        decreases scanned.len() - i,
    {
        if !registry.contains(&scanned[i].port_name) && should_connect(&scanned[i], config) {
            return Some(i);
        }
        i += 1;
    }
    None
}

/// What came of announcing the host on a new connection.
#[derive(Debug, Clone, Copy, PartialEq, Eq, Structural)]
pub enum Announcement {
    /// The identity frame is on the queue.
    Queued,
    /// The identity could not be written as a frame; nothing was sent.
    NotEncoded,
    /// The queue did not take the frame.
    NotQueued,
}

/// What an announcement comes to, given whether the identity could be
/// encoded and, if it could, whether the queue took the frame.
pub fn announcement(encoded: bool, delivered: bool) -> (outcome: Announcement)
    ensures
        outcome == if !encoded {
            Announcement::NotEncoded
        } else if delivered {
            Announcement::Queued
        } else {
            Announcement::NotQueued
        },
{
    if !encoded {
        Announcement::NotEncoded
    } else if delivered {
        Announcement::Queued
    } else {
        Announcement::NotQueued
    }
}

/// Puts the host's identity frame on a new connection's queue. A failure
/// is reported, not raised: the connection is set up all the same. The
/// identity can always be written as a frame, so what is reported is
/// whether the queue took it.
pub fn announce(connection: &DeviceConnection, info: &StaticInfo) -> (outcome: Announcement)
    ensures
        outcome == Announcement::Queued || outcome == Announcement::NotQueued,
{
    match identity_line(info) {
        Ok(line) => announcement(true, channel_send(&connection.sender, line)),
        Err(_) => announcement(false, false),
    }
}

} // verus!
