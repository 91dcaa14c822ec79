//! Garmin radars: the xHD series.
use vstd::prelude::*;

use crate::network::{ipv4, Endpoint};

verus! {

/// Where radars take commands.
pub const GARMIN_SEND_PORT: u16 = 50101;

/// Where radars send reports to.
pub open spec fn garmin_report_address() -> Endpoint {
    Endpoint { ip: ipv4(239, 254, 2, 0) as u32, port: 50100 }
}

/// Where radars send spokes to.
pub open spec fn garmin_data_address() -> Endpoint {
    Endpoint { ip: ipv4(239, 254, 2, 0) as u32, port: 50102 }
}

/// Where radars send reports to.
pub fn report_address() -> (e: Endpoint)
    ensures
        e == garmin_report_address(),
{
    Endpoint::new(239, 254, 2, 0, 50100)
}

/// The addresses of a radar.
#[derive(Clone, Copy, Debug, PartialEq, Eq, Structural)]
pub struct RadarLocation {
    pub addr: Endpoint,
    pub data: Endpoint,
    pub report: Endpoint,
    pub send: Endpoint,
}

/// What a datagram means.
#[derive(Clone, Copy, Debug, PartialEq, Eq, Structural)]
pub enum GarminEvent {
    /// A radar was found.
    Found(RadarLocation),
    /// A report.
    Report,
    /// Too short to mean anything.
    Ignored,
}

/// Looks for a radar. The first datagram from any radar makes it known.
#[derive(Clone, Copy, Debug, PartialEq, Eq, Structural)]
pub struct GarminLocator {
    pub found: bool,
}

/// What a datagram of some length means. The first one makes the radar known that sent it.
pub open spec fn event_of(found: bool, len: int, from: Endpoint) -> GarminEvent {
    if !found {
        GarminEvent::Found(
            RadarLocation {
                addr: from,
                data: garmin_data_address(),
                report: garmin_report_address(),
                send: Endpoint { ip: from.ip, port: GARMIN_SEND_PORT },
            },
        )
    } else if len < 2 {
        GarminEvent::Ignored
    } else {
        GarminEvent::Report
    }
}

impl GarminLocator {
    /// No radar was found yet.
    pub fn new() -> (l: GarminLocator)
        ensures
            !l.found,
    {
        GarminLocator { found: false }
    }

    /// Handles a datagram.
    pub fn process_beacon(&mut self, report: &[u8], from: Endpoint) -> (event: GarminEvent)
        ensures
            final(self).found,
            event == event_of(old(self).found, report@.len() as int, from),
    {
        if !self.found {
            self.found = true;
            return GarminEvent::Found(
                RadarLocation {
                    addr: from,
                    data: Endpoint::new(239, 254, 2, 0, 50102),
                    report: report_address(),
                    send: Endpoint { ip: from.ip, port: GARMIN_SEND_PORT },
                },
            );
        }
        if report.len() < 2 {
            GarminEvent::Ignored
        } else {
            GarminEvent::Report
        }
    }
}

/// A radar is found once, by the first datagram that it sends, and takes commands where that came from.
/// It sends reports and spokes to everyone at one address. The three ports follow each other: reports,
/// commands, spokes. Later datagrams are reports, if they hold the two bytes that tell their kind.
pub proof fn first_datagram_makes_the_radar_known(found: bool, len: int, from: Endpoint)
    ensures
        (event_of(found, len, from) is Found) == !found,
        event_of(found, len, from) matches GarminEvent::Found(radar) ==> {
            &&& radar.addr == from
            &&& radar.send.ip == from.ip
            &&& radar.report.ip == radar.data.ip
            &&& radar.report.ip == 239 * 0x100_0000 + 254 * 0x1_0000 + 2 * 0x100
            &&& radar.report.port == 50100
            &&& radar.send.port == radar.report.port + 1
            &&& radar.data.port == radar.send.port + 1
        },
        found ==> (event_of(found, len, from) is Report) == (len >= 2),
{
}

} // verus!
