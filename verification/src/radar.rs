//! Radars that have been found, and the registry of all of them.
use vstd::prelude::*;

use crate::brand::{Brand, TargetMode};
use crate::config::{recalled, remembered, Persistence};
use crate::control_id::ControlId;
use crate::control::Mapped;
use crate::controls::{set_by_value, set_to_text, Ranges, SetOutcome, SharedControls};
use crate::error::ControlError;
use crate::legend::{default_legend, Legend};
use crate::network::{format_ipv4, ipv4_text, Endpoint};
use crate::text::{chars_of, decimal, format_decimal, joined, same_text, text_of};
use crate::value::{clone_opt_text, opt_text, ValueView};

verus! {

/// The name that a radar gets: its model, then a part of its serial number and which half of a dual
/// radar it is, where these are known.
pub open spec fn default_name(
    model: Seq<char>,
    serial: Option<Seq<char>>,
    which: Option<Seq<char>>,
) -> Seq<char> {
    let with_serial = match serial {
        Some(serial) => model.push(' ') + serial,
        None => model,
    };
    match which {
        Some(which) => with_serial.push(' ') + which,
        None => with_serial,
    }
}

/// The rest of a serial number behind a prefix of some length.
pub open spec fn serial_tail(serial: Option<Seq<char>>, prefix: int) -> Option<Seq<char>> {
    match serial {
        Some(serial) => Some(serial.skip(prefix)),
        None => None,
    }
}

/// What becomes of the controls that name a radar when its model is known. The radar gets a name of
/// its own where it still has the one that it was found under.
pub open spec fn is_introduced(
    before: SharedControls,
    after: SharedControls,
    info: RadarInfo,
    model: Seq<char>,
    prefix: int,
    which: Option<Seq<char>>,
    id: ControlId,
) -> bool {
    let serial = opt_text(info.serial_no);
    match (id, before.slot(id)) {
        (ControlId::ModelName, Some(c)) => after.slot(id) matches Some(d) && set_to_text(
            c,
            d,
            model,
        ),
        (ControlId::SerialNumber, Some(c)) => match serial {
            Some(serial) => after.slot(id) matches Some(d) && set_to_text(c, d, serial),
            None => after.slot(id) == Some(c),
        },
        (ControlId::UserName, Some(c)) => if opt_text(c.description) == Some(info.key@) {
            after.slot(id) matches Some(d) && set_to_text(
                c,
                d,
                default_name(model, serial_tail(serial, prefix), which),
            )
        } else {
            after.slot(id) == Some(c)
        },
        _ => after.slot(id) == before.slot(id),
    }
}

/// Whether a serial number can be shortened by a prefix of some length: it is long enough, and the
/// prefix is plain text.
pub open spec fn can_shorten(serial: Option<Seq<char>>, prefix: int) -> bool {
    serial matches Some(s) ==> s.len() >= prefix && forall|i: int|
        0 <= i < prefix ==> ((#[trigger] s[i]) as u32) < 128
}

/// Counts of what was received.
#[derive(Debug)]
pub struct Statistics {
    /// Broken packets of this revolution.
    pub broken_packets: usize,
    /// Missing spokes of this revolution.
    pub missing_spokes: usize,
    /// Received spokes of this revolution.
    pub received_spokes: usize,
    /// Revolutions.
    pub total_rotations: usize,
}

impl Statistics {
    /// Nothing was received yet.
    pub fn new() -> (s: Statistics)
        ensures
            s.broken_packets == 0,
            s.missing_spokes == 0,
            s.received_spokes == 0,
            s.total_rotations == 0,
    {
        Statistics { broken_packets: 0, missing_spokes: 0, received_spokes: 0, total_rotations: 0 }
    }

    /// A revolution is complete: it is counted, and the counts per revolution start again.
    pub fn full_rotation(&mut self)
        requires
            old(self).total_rotations < usize::MAX,
        ensures
            final(self).total_rotations == old(self).total_rotations + 1,
            final(self).broken_packets == 0,
            final(self).missing_spokes == 0,
            final(self).received_spokes == 0,
    {
        self.total_rotations = self.total_rotations + 1;
        self.received_spokes = 0;
        self.missing_spokes = 0;
        self.broken_packets = 0;
    }
}

/// What is known of a radar.
#[derive(Debug)]
pub struct RadarInfo {
    pub key: String,
    pub targets: TargetMode,
    pub replay: bool,
    /// The number of the radar, or `usize::MAX` before it has one.
    pub id: usize,
    pub brand: Brand,
    pub serial_no: Option<String>,
    /// Which half of a dual radar this is: "A" or "B".
    pub which: Option<String>,
    pub pixel_values: u8,
    pub spokes_per_revolution: u16,
    pub max_spoke_len: u16,
    pub addr: Endpoint,
    /// The address of the interface over which the radar is reached.
    pub nic_addr: u32,
    pub spoke_data_addr: Endpoint,
    pub report_addr: Endpoint,
    pub send_command_addr: Endpoint,
    pub legend: Legend,
    pub controls: SharedControls,
    pub ranges: Ranges,
    pub doppler: bool,
    pub dual_range: bool,
    /// When the antenna last passed its start, in milliseconds.
    pub rotation_timestamp: u64,
}

/// The key of a radar: its brand, its serial number or else its address, and which half it is.
pub open spec fn radar_key(
    brand: Brand,
    serial_no: Option<Seq<char>>,
    which: Option<Seq<char>>,
    addr: Endpoint,
) -> Seq<char> {
    let base = brand.spec_name().push('-') + match serial_no {
        Some(serial) => serial,
        None => addr.text(),
    };
    match which {
        Some(which) => base.push('-') + which,
        None => base,
    }
}

/// The text behind an optional reference.
pub open spec fn opt_str(s: Option<&str>) -> Option<Seq<char>> {
    match s {
        Some(s) => Some(s@),
        None => None,
    }
}

/// What is known of a radar that was just found. It has no number yet, its ranges are not known, and
/// its legend does not tell moving targets apart.
pub open spec fn is_new_radar(
    info: RadarInfo,
    targets: TargetMode,
    replay: bool,
    brand: Brand,
    serial_no: Option<Seq<char>>,
    which: Option<Seq<char>>,
    pixel_values: u8,
    spokes_per_revolution: int,
    max_spoke_len: int,
    addr: Endpoint,
    nic_addr: u32,
    spoke_data_addr: Endpoint,
    report_addr: Endpoint,
    send_command_addr: Endpoint,
    doppler: bool,
    now: u64,
) -> bool {
    &&& info.key@ == radar_key(brand, serial_no, which, addr)
    &&& info.targets == targets
    &&& info.replay == replay
    &&& info.id == usize::MAX
    &&& info.brand == brand
    &&& opt_text(info.serial_no) == serial_no
    &&& opt_text(info.which) == which
    &&& info.pixel_values == pixel_values
    &&& info.spokes_per_revolution == spokes_per_revolution as u16
    &&& info.max_spoke_len == max_spoke_len as u16
    &&& info.addr == addr
    &&& info.nic_addr == nic_addr
    &&& info.spoke_data_addr == spoke_data_addr
    &&& info.report_addr == report_addr
    &&& info.send_command_addr == send_command_addr
    &&& info.legend.is_default(targets, false, pixel_values as int)
    &&& info.ranges.all@.len() == 0
    &&& info.doppler == doppler
    &&& !info.dual_range
    &&& info.rotation_timestamp == if now >= 2000 {
        (now - 2000) as u64
    } else {
        0
    }
}

/// A rotation time that makes sense, in milliseconds.
pub open spec fn is_rotation_time(millis: int) -> bool {
    300 < millis < 10000
}

/// The quotient rounded to the nearest whole number, and to the even one where two are as near.
pub open spec fn rounded_quotient(n: int, d: int) -> int {
    let q = n / d;
    let r = n % d;
    if 2 * r > d || (2 * r == d && q % 2 == 1) {
        q + 1
    } else {
        q
    }
}

/// The speed of rotation that goes with a rotation time, in tenths of a rotation per minute.
pub open spec fn speed_of(millis: int) -> Option<int> {
    if is_rotation_time(millis) {
        Some(rounded_quotient(600_000, millis))
    } else {
        None
    }
}

/// The speed of rotation that goes with a rotation time, in tenths of a rotation per minute.
pub fn rotation_speed(millis: u32) -> (r: Option<u32>)
    ensures
        match r {
            Some(speed) => speed_of(millis as int) == Some(speed as int),
            None => speed_of(millis as int) is None,
        },
{
    if millis <= 300 || millis >= 10000 {
        return None;
    }
    let q: u32 = 600_000 / millis;
    let r: u32 = 600_000 % millis;
    if 2 * r > millis || (2 * r == millis && q % 2 == 1) {
        Some(q + 1)
    } else {
        Some(q)
    }
}

/// What becomes of the controls when a rotation time is shown.
pub open spec fn shows_rotation(
    before: SharedControls,
    after: SharedControls,
    millis: int,
    mapped: Mapped,
) -> bool {
    if speed_of(millis) is Some {
        &&& after.same_but(&before, ControlId::RotationSpeed)
        &&& match before.slot(ControlId::RotationSpeed) {
            Some(c) => after.slot(ControlId::RotationSpeed) matches Some(shown) && exists|
                r: Result<SetOutcome, ControlError>,
            | #[trigger]
                set_by_value(
                    c,
                    shown,
                    ValueView::String(decimal(speed_of(millis)->0 as nat)),
                    mapped,
                    r,
                ),
            None => after.slot(ControlId::RotationSpeed) is None,
        }
    } else {
        after == before
    }
}

/// A radar whose ranges became known: they are the values of its range control, and nothing else
/// changed.
pub open spec fn knows_ranges(before: RadarInfo, after: RadarInfo) -> bool {
    &&& after == (RadarInfo { ranges: after.ranges, controls: after.controls, ..before })
    &&& after.controls.all_ranges.same_ranges(after.ranges)
    &&& after.controls == (SharedControls {
        slots: after.controls.slots,
        all_ranges: after.controls.all_ranges,
        ..before.controls
    })
    &&& forall|id: ControlId|
        id != ControlId::Range ==> #[trigger] after.controls.slot(id) == before.controls.slot(id)
    &&& (SharedControls { all_ranges: after.controls.all_ranges, ..before.controls }).ranges_applied(
        after.controls.slot(ControlId::Range)->0,
    )
}

impl RadarInfo {
    /// The controls that name the radar are there.
    pub open spec fn well_formed(&self) -> bool {
        &&& self.controls.well_formed()
        &&& self.controls.slot(ControlId::UserName) is Some
        &&& self.controls.slot(ControlId::ModelName) is Some
        &&& self.controls.slot(ControlId::Range) is Some
    }

    /// Which half of a dual radar it is, and its serial number, as far as they are known.
    pub open spec fn identity_text(&self) -> Seq<char> {
        let half = match self.which {
            Some(which) => " "@ + which@,
            None => Seq::empty(),
        };
        match self.serial_no {
            Some(serial_no) => half + " ["@ + serial_no@ + "]"@,
            None => half,
        }
    }

    /// Which half of a dual radar it is, and its serial number, as far as they are known.
    fn identity(&self) -> (s: String)
        ensures
            s@ == self.identity_text(),
    {
        let mut s: String = match &self.which {
            Some(which) => {
                let mut half: String = " ".to_owned();
                half.append(which.as_str());
                half
            },
            None => String::new(),
        };
        match &self.serial_no {
            Some(serial_no) => {
                s.append(" [");
                s.append(serial_no.as_str());
                s.append("]");
            },
            None => {},
        }
        s
    }

    /// A line about the radar: its number and brand, what is known of its identity, and where it is
    /// reached.
    pub open spec fn text(&self) -> Seq<char> {
        "Radar "@ + decimal(self.id as nat) + " brand "@ + self.brand.spec_name()
            + self.identity_text() + " at "@ + ipv4_text(self.addr.ip as int) + " via "@ + ipv4_text(
            self.nic_addr as int,
        ) + " data "@ + self.spoke_data_addr.text() + " report "@ + self.report_addr.text()
            + " send "@ + self.send_command_addr.text()
    }

    /// A line about the radar: its number and brand, what is known of its identity, and where it is
    /// reached.
    pub fn to_text(&self) -> (s: String)
        ensures
            s@ == self.text(),
    {
        let mut s: String = "Radar ".to_owned();
        s.append(format_decimal(self.id as u64).as_str());
        s.append(" brand ");
        s.append(self.brand.to_str());
        s.append(self.identity().as_str());
        s.append(" at ");
        s.append(format_ipv4(self.addr.ip).as_str());
        s.append(" via ");
        s.append(format_ipv4(self.nic_addr).as_str());
        s.append(" data ");
        s.append(self.spoke_data_addr.to_text().as_str());
        s.append(" report ");
        s.append(self.report_addr.to_text().as_str());
        s.append(" send ");
        s.append(self.send_command_addr.to_text().as_str());
        s
    }

    /// A radar that was just found. It has no number yet, its ranges are not known, and its legend
    /// does not tell moving targets apart.
    pub fn new(
        targets: TargetMode,
        replay: bool,
        brand: Brand,
        serial_no: Option<&str>,
        which: Option<&str>,
        pixel_values: u8,
        spokes_per_revolution: usize,
        max_spoke_len: usize,
        addr: Endpoint,
        nic_addr: u32,
        spoke_data_addr: Endpoint,
        report_addr: Endpoint,
        send_command_addr: Endpoint,
        controls: SharedControls,
        doppler: bool,
        now: u64,
    ) -> (info: RadarInfo)
        ensures
            info.controls == controls,
            is_new_radar(
                info,
                targets,
                replay,
                brand,
                opt_str(serial_no),
                opt_str(which),
                pixel_values,
                spokes_per_revolution as int,
                max_spoke_len as int,
                addr,
                nic_addr,
                spoke_data_addr,
                report_addr,
                send_command_addr,
                doppler,
                now,
            ),
    {
        let mut key: String = String::from_str(brand.to_str());
        key.push('-');
        match serial_no {
            Some(serial) => {
                key.append(serial);
            },
            None => {
                key.append(addr.to_text().as_str());
            },
        }
        match which {
            Some(which) => {
                key.push('-');
                key.append(which);
            },
            None => {},
        }
        RadarInfo {
            key,
            targets,
            replay,
            id: usize::MAX,
            brand,
            serial_no: match serial_no {
                Some(s) => Some(s.to_owned()),
                None => None,
            },
            which: match which {
                Some(s) => Some(s.to_owned()),
                None => None,
            },
            pixel_values,
            spokes_per_revolution: spokes_per_revolution as u16,
            max_spoke_len: max_spoke_len as u16,
            addr,
            nic_addr,
            spoke_data_addr,
            report_addr,
            send_command_addr,
            legend: default_legend(&targets, false, pixel_values),
            controls,
            ranges: Ranges::empty(),
            doppler,
            dual_range: false,
            rotation_timestamp: if now >= 2000 {
                now - 2000
            } else {
                0
            },
        }
    }

    /// The model of the radar is known: the controls that name the radar are set. A serial number is
    /// shortened by a prefix in the name of the radar. `which` tells which half of a dual radar it is.
    pub fn introduce(&mut self, model: &str, prefix: usize, which: Option<&str>)
        requires
            old(self).well_formed(),
            old(self).controls.text_of(ControlId::UserName) is Some,
            old(self).serial_no is Some ==> old(self).controls.slot(ControlId::SerialNumber) is Some,
            can_shorten(opt_text(old(self).serial_no), prefix as int),
        ensures
            final(self).well_formed(),
            *final(self) == (RadarInfo { controls: final(self).controls, ..*old(self) }),
            final(self).controls == (SharedControls {
                slots: final(self).controls.slots,
                ..old(self).controls
            }),
            forall|id: ControlId| #[trigger]
                is_introduced(
                    old(self).controls,
                    final(self).controls,
                    *old(self),
                    model@,
                    prefix as int,
                    opt_str(which),
                    id,
                ),
    {
        let ghost start = self.controls;
        self.controls.set_model_name(model.to_owned());
        let ghost named = self.controls;
        match &self.serial_no {
            Some(serial) => {
                let _ = self.controls.set_text(&ControlId::SerialNumber, serial.clone());
            },
            None => {},
        }
        let ghost numbered = self.controls;
        assert(start.slot(ControlId::UserName) == numbered.slot(ControlId::UserName));
        if same_text(self.controls.user_name().as_str(), self.key.as_str()) {
            let mut name: String = model.to_owned();
            match &self.serial_no {
                Some(serial) => {
                    name.push(' ');
                    let chars = chars_of(serial.as_str());
                    let tail = text_of(vstd::slice::slice_subrange(chars.as_slice(), prefix, chars.len()));
                    name.append(tail.as_str());
                    assert(tail@ =~= serial@.skip(prefix as int));
                },
                None => {},
            }
            match which {
                Some(which) => {
                    name.push(' ');
                    name.append(which);
                },
                None => {},
            }
            self.controls.set_user_name(name);
        }
        proof {
            assert forall|id: ControlId| #[trigger]
                is_introduced(
                    start,
                    self.controls,
                    *old(self),
                    model@,
                    prefix as int,
                    opt_str(which),
                    id,
                ) by {
                assert(named.slot(id) == start.slot(id) || id == ControlId::ModelName);
                assert(numbered.slot(id) == named.slot(id) || id == ControlId::SerialNumber);
                assert(self.controls.slot(id) == numbered.slot(id) || id == ControlId::UserName);
            }
        }
    }

    /// The model of the radar is known: as `introduce` does, with the half of a dual radar that this
    /// one is.
    pub fn introduce_half(&mut self, model: &str, prefix: usize)
        requires
            old(self).well_formed(),
            old(self).controls.text_of(ControlId::UserName) is Some,
            old(self).serial_no is Some ==> old(self).controls.slot(ControlId::SerialNumber) is Some,
            can_shorten(opt_text(old(self).serial_no), prefix as int),
        ensures
            final(self).well_formed(),
            *final(self) == (RadarInfo { controls: final(self).controls, ..*old(self) }),
            final(self).controls == (SharedControls {
                slots: final(self).controls.slots,
                ..old(self).controls
            }),
            forall|id: ControlId| #[trigger]
                is_introduced(
                    old(self).controls,
                    final(self).controls,
                    *old(self),
                    model@,
                    prefix as int,
                    opt_text(old(self).which),
                    id,
                ),
    {
        let which = clone_opt_text(&self.which);
        match &which {
            Some(which) => self.introduce(model, prefix, Some(which.as_str())),
            None => self.introduce(model, prefix, None),
        }
    }

    /// Whether the serial number, where there is one, can be shortened by a prefix.
    pub fn can_shorten_serial(&self, prefix: usize) -> (r: bool)
        ensures
            r == can_shorten(opt_text(self.serial_no), prefix as int),
    {
        match &self.serial_no {
            Some(serial) => {
                let chars = chars_of(serial.as_str());
                if chars.len() < prefix {
                    return false;
                }
                let mut i: usize = 0;
                while i < prefix
                    invariant
                        i <= prefix <= chars.len(),
                        chars@ == serial@,
                        opt_text(self.serial_no) == Some(serial@),
                        forall|j: int| 0 <= j < i ==> ((#[trigger] serial@[j]) as u32) < 128,
                    decreases prefix - i,
                {
                    if (chars[i] as u32) >= 128 {
                        assert(!(((serial@[i as int]) as u32) < 128));
                        return false;
                    }
                    i = i + 1;
                }
                true
            },
            None => true,
        }
    }

    /// The radar is named by its key, until it gets another name.
    pub fn name_by_key(&mut self)
        requires
            old(self).well_formed(),
        ensures
            final(self).well_formed(),
            is_named_by_key(*old(self), *final(self)),
    {
        let name = self.key.clone();
        self.controls.set_user_name(name);
    }

    /// The key of the radar.
    pub fn key(&self) -> (key: String)
        ensures
            key@ == self.key@,
    {
        self.key.clone()
    }

    /// Whether the radar tells moving targets apart. A change makes a new legend.
    pub fn set_doppler(&mut self, doppler: bool)
        ensures
            final(self).doppler == doppler,
            if old(self).doppler == doppler {
                *final(self) == *old(self)
            } else {
                &&& final(self).legend.is_default(
                    old(self).targets,
                    doppler,
                    old(self).pixel_values as int,
                )
                &&& *final(self) == (RadarInfo {
                    doppler,
                    legend: final(self).legend,
                    ..*old(self)
                })
            },
    {
        if doppler != self.doppler {
            self.legend = default_legend(&self.targets, doppler, self.pixel_values);
            self.doppler = doppler;
        }
    }

    /// How many echo strengths the radar has. A change makes a new legend.
    pub fn set_pixel_values(&mut self, pixel_values: u8)
        ensures
            final(self).pixel_values == pixel_values,
            if old(self).pixel_values == pixel_values {
                *final(self) == *old(self)
            } else {
                &&& final(self).legend.is_default(
                    old(self).targets,
                    old(self).doppler,
                    pixel_values as int,
                )
                &&& *final(self) == (RadarInfo {
                    pixel_values,
                    legend: final(self).legend,
                    ..*old(self)
                })
            },
    {
        if pixel_values != self.pixel_values {
            self.legend = default_legend(&self.targets, self.doppler, pixel_values);
        }
        self.pixel_values = pixel_values;
    }

    /// Shows a rotation time that makes sense, as a speed, and returns it, or else zero. `mapped` is
    /// what comes out of the arithmetic of the control for the speed.
    pub fn set_rotation_length(&mut self, millis: u32, mapped: &Mapped) -> (r: u32)
        requires
            old(self).controls.well_formed(),
            old(self).controls.limits_known(ControlId::RotationSpeed),
        ensures
            final(self).controls.well_formed(),
            *final(self) == (RadarInfo { controls: final(self).controls, ..*old(self) }),
            shows_rotation(old(self).controls, final(self).controls, millis as int, *mapped),
            r == if is_rotation_time(millis as int) {
                millis
            } else {
                0
            },
    {
        match rotation_speed(millis) {
            Some(speed) => {
                assert(speed as u64 as nat == speed_of(millis as int)->0 as nat);
                let _ = self.controls.set_string(
                    &ControlId::RotationSpeed,
                    format_decimal(speed as u64),
                    mapped,
                );
                millis
            },
            None => 0,
        }
    }

    /// The time since the antenna last passed its start.
    pub fn rotation_time(&self, now: u64) -> (millis: u64)
        requires
            self.rotation_timestamp <= now,
        ensures
            millis == now - self.rotation_timestamp,
    {
        now - self.rotation_timestamp
    }

    /// The antenna passed its start: the time of the rotation is shown as `set_rotation_length` does.
    pub fn full_rotation(&mut self, now: u64, mapped: &Mapped) -> (r: u32)
        requires
            old(self).rotation_timestamp <= now,
            old(self).controls.well_formed(),
            old(self).controls.limits_known(ControlId::RotationSpeed),
        ensures
            final(self).controls.well_formed(),
            *final(self) == (RadarInfo {
                rotation_timestamp: now,
                controls: final(self).controls,
                ..*old(self)
            }),
            shows_rotation(
                old(self).controls,
                final(self).controls,
                now - old(self).rotation_timestamp,
                *mapped,
            ),
            r == if is_rotation_time(now - old(self).rotation_timestamp) {
                now - old(self).rotation_timestamp
            } else {
                0
            },
    {
        let millis: u64 = self.rotation_time(now);
        self.rotation_timestamp = now;
        if millis > 10000 {
            return 0;
        }
        self.set_rotation_length(millis as u32, mapped)
    }

    /// The ranges of the radar are known: they become the values of the range control.
    pub fn set_ranges(&mut self, ranges: Ranges)
        requires
            old(self).well_formed(),
        ensures
            final(self).well_formed(),
            final(self).ranges == ranges,
            knows_ranges(*old(self), *final(self)),
    {
        self.controls.set_valid_ranges(ranges.copy());
        self.ranges = ranges;
    }

    /// Whether the radar can be used: its ranges are known.
    pub fn is_active(&self) -> (r: bool)
        ensures
            r == (self.ranges.all@.len() > 0),
    {
        self.ranges.len() > 0
    }
}

/// Whether one of the radars has a key.
pub open spec fn has_key(info: Seq<RadarInfo>, key: Seq<char>) -> bool {
    exists|i: int| 0 <= i < info.len() && (#[trigger] info[i]).key@ == key
}

/// All radars that have been found, and what is remembered of them.
#[derive(Debug)]
pub struct SharedRadars {
    pub info: Vec<RadarInfo>,
    pub persistent_data: Persistence,
}

/// Whether a text ends with another one.
pub open spec fn has_suffix(s: Seq<char>, suffix: Seq<char>) -> bool {
    suffix.len() <= s.len() && s.skip(s.len() - suffix.len()) == suffix
}

fn is_second_radar(key: &str) -> (r: bool)
    ensures
        r == has_suffix(key@, "-B"@),
{
    let n: usize = key.unicode_len();
    proof {
        reveal_strlit("-B");
    }
    if n < 2 {
        return false;
    }
    let r = key.get_char(n - 2) == '-' && key.get_char(n - 1) == 'B';
    proof {
        if r {
            assert(key@.skip(n - 2) =~= "-B"@);
        } else {
            assert(key@.skip(n - 2)[0] == key@[n - 2]);
            assert(key@.skip(n - 2)[1] == key@[n - 1]);
        }
    }
    r
}

/// The id of a radar in the first version of the client interface.
pub open spec fn numbered_id(id: int) -> Seq<char> {
    "radar-"@ + decimal(id as nat)
}

impl SharedRadars {
    /// No two radars have the same key, and the controls of every radar are in order.
    pub open spec fn well_formed(&self) -> bool {
        &&& forall|i: int, j: int|
            0 <= i < j < self.info@.len() ==> (#[trigger] self.info@[i]).key@ != (
            #[trigger] self.info@[j]).key@
        &&& forall|i: int|
            0 <= i < self.info@.len() ==> (#[trigger] self.info@[i]).well_formed()
        &&& self.persistent_data.config.well_formed()
    }

    /// Whether there is a radar with a key.
    pub open spec fn has(&self, key: Seq<char>) -> bool {
        has_key(self.info@, key)
    }

    /// No radar has an id above this one.
    pub open spec fn ids_up_to(&self, id: int) -> bool {
        forall|i: int| 0 <= i < self.info@.len() ==> (#[trigger] self.info@[i]).id <= id
    }

    /// No radars, but what is remembered of some.
    pub fn new(persistent_data: Persistence) -> (r: SharedRadars)
        requires
            persistent_data.config.well_formed(),
        ensures
            r.well_formed(),
            r.info@.len() == 0,
            r.persistent_data == persistent_data,
    {
        SharedRadars { info: Vec::new(), persistent_data }
    }

    /// The place of the radar with a key.
    pub fn find(&self, key: &str) -> (r: Option<usize>)
        ensures
            match r {
                Some(i) => i < self.info@.len() && self.info@[i as int].key@ == key@,
                None => !self.has(key@),
            },
    {
        let mut i: usize = 0;
        while i < self.info.len()
            invariant
                i <= self.info.len(),
                forall|j: int| 0 <= j < i ==> (#[trigger] self.info@[j]).key@ != key@,
            decreases self.info.len() - i,
        {
            if same_text(self.info[i].key.as_str(), key) {
                return Some(i);
            }
            i = i + 1;
        }
        None
    }

    /// The radar with a key.
    pub fn get_by_key(&self, key: &str) -> (r: Option<&RadarInfo>)
        ensures
            match r {
                Some(info) => info.key@ == key@ && self.info@.contains(*info),
                None => !self.has(key@),
            },
    {
        match self.find(key) {
            Some(i) => {
                assert(self.info@.contains(self.info@[i as int]));
                Some(&self.info[i])
            },
            None => None,
        }
    }

    /// The first radar with an id of the first version of the client interface.
    pub fn get_by_id(&self, key: &str) -> (r: Option<&RadarInfo>)
        ensures
            match r {
                Some(info) => numbered_id(info.id as int) == key@ && self.info@.contains(*info),
                None => forall|i: int|
                    0 <= i < self.info@.len() ==> numbered_id((#[trigger] self.info@[i]).id as int)
                        != key@,
            },
    {
        let mut i: usize = 0;
        while i < self.info.len()
            invariant
                i <= self.info.len(),
                forall|j: int|
                    0 <= j < i ==> numbered_id((#[trigger] self.info@[j]).id as int) != key@,
            decreases self.info.len() - i,
        {
            let id = String::from_str("radar-").concat(
                format_decimal(self.info[i].id as u64).as_str(),
            );
            if same_text(id.as_str(), key) {
                assert(self.info@.contains(self.info@[i as int]));
                return Some(&self.info[i]);
            }
            i = i + 1;
        }
        None
    }

    fn max_radar_id(&self) -> (id: usize)
        ensures
            self.ids_up_to(id as int),
            id == 0 || exists|i: int|
                0 <= i < self.info@.len() && (#[trigger] self.info@[i]).id == id,
    {
        let mut id: usize = 0;
        let mut i: usize = 0;
        while i < self.info.len()
            invariant
                i <= self.info.len(),
                forall|j: int| 0 <= j < i ==> (#[trigger] self.info@[j]).id <= id,
                id == 0 || exists|j: int| 0 <= j < i && (#[trigger] self.info@[j]).id == id,
            decreases self.info.len() - i,
        {
            if self.info[i].id > id {
                id = self.info[i].id;
            }
            i = i + 1;
        }
        id
    }

    /// The highest id of all radars and of all that is remembered of radars, or zero.
    pub open spec fn is_highest_id(&self, id: int) -> bool {
        let radars = self.persistent_data.config.radars@;
        &&& self.ids_up_to(id)
        &&& forall|i: int| 0 <= i < radars.len() ==> (#[trigger] radars[i]).1.id <= id
        &&& {
            ||| id == 0
            ||| exists|i: int| 0 <= i < self.info@.len() && (#[trigger] self.info@[i]).id == id
            ||| exists|i: int| 0 <= i < radars.len() && (#[trigger] radars[i]).1.id == id
        }
    }

    /// Whether a found radar is taken into the registry: it is not known yet, and it is not the
    /// second half of a dual radar in recorded data.
    pub open spec fn takes(&self, info: RadarInfo) -> bool {
        !self.has(info.key@) && !(info.replay && has_suffix(info.key@, "-B"@))
    }

    /// A radar was found. Where it is taken into the registry, it gets what is remembered of it
    /// (`ranges` are those of the remembered distances), and, unless it has one, the number after
    /// the highest one. The result is its place.
    pub fn located(&mut self, new_info: RadarInfo, ranges: Ranges) -> (r: Option<usize>)
        requires
            old(self).well_formed(),
            new_info.well_formed(),
            forall|i: int|
                0 <= i < old(self).info@.len() ==> (#[trigger] old(self).info@[i]).id < usize::MAX,
            forall|i: int|
                0 <= i < old(self).persistent_data.config.radars@.len() ==> (
                #[trigger] old(self).persistent_data.config.radars@[i]).1.id < usize::MAX,
        ensures
            final(self).well_formed(),
            final(self).persistent_data == old(self).persistent_data,
            r is Some <==> old(self).takes(new_info),
            match r {
                None => final(self).info@ == old(self).info@,
                Some(at) => {
                    let info = final(self).info@[at as int];
                    &&& at == old(self).info@.len()
                    &&& final(self).info@ == old(self).info@.push(info)
                    &&& is_located(*old(self), ranges, new_info, info)
                },
            },
    {
        if new_info.replay && is_second_radar(new_info.key.as_str()) {
            return None;
        }
        if self.find(new_info.key.as_str()).is_some() {
            return None;
        }
        let max_radar_id: usize = self.max_radar_id();
        let max_persist_id: usize = self.persistent_data.config.max_id();
        let max_id: usize = if max_radar_id > max_persist_id {
            max_radar_id
        } else {
            max_persist_id
        };
        let mut info = new_info;
        self.persistent_data.update_info_from_persistence(&mut info, ranges);
        if info.id == usize::MAX {
            info.id = max_id + 1;
        }
        let at: usize = self.info.len();
        self.info.push(info);
        Some(at)
    }

    /// Records what is known of a radar by now, and what is to be remembered of it. Tells whether the
    /// configuration has to be written to disk.
    pub fn update(&mut self, radar_info: RadarInfo) -> (modified: bool)
        requires
            old(self).well_formed(),
            radar_info.well_formed(),
            radar_info.controls.text_of(ControlId::UserName) is Some,
        ensures
            final(self).well_formed(),
            exists|info: RadarInfo| #[trigger]
                is_identified(radar_info, info) && final(self).info@ == if old(self).has(
                    radar_info.key@,
                ) {
                    old(self).info@.update(index_of_key(old(self).info@, radar_info.key@), info)
                } else {
                    old(self).info@.push(info)
                },
            final(self).persistent_data.config.record(radar_info.key@) == remembered(
                old(self).persistent_data.config.record(radar_info.key@),
                radar_info,
            ),
            forall|other: Seq<char>|
                other != radar_info.key@ ==> #[trigger] final(self).persistent_data.config.has(other) == old(self).persistent_data.config.has(other) && final(self).persistent_data.config.record(other) == old(self).persistent_data.config.record(other),
            modified == (final(self).persistent_data.config.record(radar_info.key@) != old(self).persistent_data.config.record(radar_info.key@)),
    {
        let mut info = radar_info;
        info.controls.radar_id = info.key.clone();
        proof {
            assert forall|id: ControlId| #[trigger] info.controls.slot(id)
                == radar_info.controls.slot(id) by {}
        }
        let modified = self.persistent_data.store(&info);
        let ghost before = self.info@;
        assert(is_identified(radar_info, info));
        match self.find(info.key.as_str()) {
            Some(i) => {
                proof {
                    index_of_key_is(before, info.key@, i as int);
                }
                let ghost added = info;
                self.info.set(i, info);
                assert(self.info@ =~= before.update(i as int, added));
                proof {
                    assert forall|a: int, b: int| 0 <= a < b < self.info@.len() implies (
                    #[trigger] self.info@[a]).key@ != (#[trigger] self.info@[b]).key@ by {
                        assert(before[a].key@ != before[b].key@);
                    }
                }
            },
            None => {
                self.info.push(info);
            },
        }
        modified
    }

    /// The places of the radars that can be used.
    pub fn get_active(&self) -> (places: Vec<usize>)
        ensures
            forall|k: int|
                0 <= k < places@.len() ==> (#[trigger] places@[k]) < self.info@.len()
                    && self.info@[places@[k] as int].ranges.all@.len() > 0,
            forall|i: int|
                0 <= i < self.info@.len() && (
                #[trigger] self.info@[i]).ranges.all@.len() > 0 ==> places@.contains(i as usize),
            forall|k: int, l: int| 0 <= k < l < places@.len() ==> places@[k] < places@[l],
    {
        let mut places: Vec<usize> = Vec::new();
        let mut i: usize = 0;
        while i < self.info.len()
            invariant
                i <= self.info.len(),
                forall|k: int|
                    0 <= k < places@.len() ==> (#[trigger] places@[k]) < i && self.info@[places@[k] as int].ranges.all@.len()
                        > 0,
                forall|j: int|
                    0 <= j < i && (
                    #[trigger] self.info@[j]).ranges.all@.len() > 0 ==> places@.contains(
                        j as usize,
                    ),
                forall|k: int, l: int| 0 <= k < l < places@.len() ==> places@[k] < places@[l],
            decreases self.info.len() - i,
        {
            let ghost before = places@;
            if self.info[i].is_active() {
                places.push(i);
                proof {
                    assert(places@.contains(i)) by {
                        assert(places@[places@.len() - 1] == i);
                    }
                    assert forall|j: int|
                        0 <= j < i && (
                        #[trigger] self.info@[j]).ranges.all@.len() > 0 implies places@.contains(
                        j as usize,
                    ) by {
                        let k = choose|k: int| 0 <= k < before.len() && before[k] == j as usize;
                        assert(places@[k] == j as usize);
                    }
                }
            }
            i = i + 1;
        }
        places
    }

    /// Whether any radar can be used.
    pub fn have_active(&self) -> (r: bool)
        ensures
            r == exists|i: int|
                0 <= i < self.info@.len() && (#[trigger] self.info@[i]).ranges.all@.len() > 0,
    {
        let mut i: usize = 0;
        while i < self.info.len()
            invariant
                i <= self.info.len(),
                forall|j: int| 0 <= j < i ==> (#[trigger] self.info@[j]).ranges.all@.len() == 0,
            decreases self.info.len() - i,
        {
            if self.info[i].is_active() {
                return true;
            }
            i = i + 1;
        }
        false
    }

    /// Takes a radar out of the registry.
    pub fn take(&mut self, at: usize) -> (info: RadarInfo)
        requires
            old(self).well_formed(),
            at < old(self).info@.len(),
        ensures
            final(self).well_formed(),
            info == old(self).info@[at as int],
            final(self).info@ == old(self).info@.remove(at as int),
            final(self).persistent_data == old(self).persistent_data,
            !final(self).has(info.key@),
    {
        let ghost before = self.info@;
        let info = self.info.remove(at);
        proof {
            removed_keys(before, self.info@, at as int, info.key@);
        }
        info
    }

    /// Forgets the radar with a key. What is remembered of it stays.
    pub fn remove(&mut self, key: &str)
        requires
            old(self).well_formed(),
        ensures
            final(self).well_formed(),
            final(self).persistent_data == old(self).persistent_data,
            !final(self).has(key@),
            forall|other: Seq<char>|
                other != key@ ==> #[trigger] final(self).has(other) == old(self).has(other),
            final(self).info@ == if old(self).has(key@) {
                old(self).info@.remove(index_of_key(old(self).info@, key@))
            } else {
                old(self).info@
            },
    {
        match self.find(key) {
            Some(i) => {
                let ghost before = self.info@;
                proof {
                    index_of_key_is(before, key@, i as int);
                }
                let _ = self.info.remove(i);
                proof {
                    removed_keys(before, self.info@, i as int, key@);
                }
            },
            None => {},
        }
    }

    /// Whether a radar of a brand was found over an interface.
    pub fn is_active_radar(&self, brand: &Brand, ip: u32) -> (r: bool)
        ensures
            r == exists|i: int|
                0 <= i < self.info@.len() && (#[trigger] self.info@[i]).brand == *brand
                    && self.info@[i].nic_addr == ip,
    {
        let mut i: usize = 0;
        while i < self.info.len()
            invariant
                i <= self.info.len(),
                forall|j: int|
                    0 <= j < i ==> !((#[trigger] self.info@[j]).brand == *brand
                        && self.info@[j].nic_addr == ip),
            decreases self.info.len() - i,
        {
            if self.info[i].brand == *brand && self.info[i].nic_addr == ip {
                return true;
            }
            i = i + 1;
        }
        false
    }

    /// Records the serial number of the radar with a key. Where it changed, what is remembered of the
    /// radar is brought up to date. Tells whether the configuration has to be written to disk.
    pub fn update_serial_no(&mut self, key: &str, serial_no: String) -> (modified: bool)
        requires
            old(self).well_formed(),
            forall|i: int|
                0 <= i < old(self).info@.len() ==> (
                #[trigger] old(self).info@[i]).controls.text_of(ControlId::UserName) is Some,
        ensures
            final(self).well_formed(),
            if old(self).has(key@) {
                let at = index_of_key(old(self).info@, key@);
                let before = old(self).info@[at];
                let after = final(self).info@[at];
                let config = old(self).persistent_data.config;
                let new_config = final(self).persistent_data.config;
                if opt_text(before.serial_no) == Some(serial_no@) {
                    *final(self) == *old(self) && !modified
                } else {
                    &&& final(self).info@ == old(self).info@.update(at, after)
                    &&& opt_text(after.serial_no) == Some(serial_no@)
                    &&& after == RadarInfo { serial_no: after.serial_no, ..before }
                    &&& new_config.record(key@) == remembered(config.record(key@), before)
                    &&& forall|other: Seq<char>|
                        other != key@ ==> #[trigger] new_config.has(other) == config.has(other)
                            && new_config.record(other) == config.record(other)
                    &&& modified == (new_config.record(key@) != config.record(key@))
                }
            } else {
                *final(self) == *old(self) && !modified
            },
    {
        match self.find(key) {
            Some(at) => {
                proof {
                    index_of_key_is(self.info@, key@, at as int);
                }
                let same = match &self.info[at].serial_no {
                    Some(s) => *s == serial_no,
                    None => false,
                };
                if same {
                    return false;
                }
                let ghost before = self.info@;
                self.info[at].serial_no = Some(serial_no);
                proof {
                    assert forall|i: int, j: int| 0 <= i < j < self.info@.len() implies (
                    #[trigger] self.info@[i]).key@ != (#[trigger] self.info@[j]).key@ by {
                        assert(before[i].key@ != before[j].key@);
                    }
                }
                let modified = self.persistent_data.store(&self.info[at]);
                modified
            },
            None => false,
        }
    }
}

/// A radar that is named by its key.
pub open spec fn is_named_by_key(before: RadarInfo, after: RadarInfo) -> bool {
    &&& after == RadarInfo { controls: after.controls, ..before }
    &&& after.controls.same_but(&before.controls, ControlId::UserName)
    &&& after.controls.slot(ControlId::UserName) matches Some(c) && set_to_text(
        before.controls.slot(ControlId::UserName)->0,
        c,
        before.key@,
    )
}

/// A radar that was taken into the registry: it has what is remembered of it (`ranges` are those of
/// the remembered distances), and, unless it had one, the number after the highest one.
pub open spec fn is_located(
    radars: SharedRadars,
    ranges: Ranges,
    before: RadarInfo,
    after: RadarInfo,
) -> bool {
    &&& after == RadarInfo {
        id: after.id,
        controls: after.controls,
        ranges: after.ranges,
        ..before
    }
    &&& if before.id == usize::MAX {
        radars.is_highest_id(after.id - 1)
    } else {
        after.id == before.id
    }
    &&& recalled(
        radars.persistent_data.config,
        RadarInfo { id: after.id, ..before },
        after,
        ranges,
    )
}

/// A radar whose controls know its key.
pub open spec fn is_identified(before: RadarInfo, after: RadarInfo) -> bool {
    &&& after == RadarInfo { controls: after.controls, ..before }
    &&& after.controls == SharedControls { radar_id: after.controls.radar_id, ..before.controls }
    &&& after.controls.radar_id@ == before.key@
}

/// The place of the first radar with a key.
pub open spec fn index_of_key(info: Seq<RadarInfo>, key: Seq<char>) -> int
    decreases info.len(),
{
    if info.len() == 0 || info[0].key@ == key {
        0
    } else {
        1 + index_of_key(info.skip(1), key)
    }
}

proof fn index_of_key_is(info: Seq<RadarInfo>, key: Seq<char>, i: int)
    requires
        0 <= i < info.len(),
        info[i].key@ == key,
        forall|a: int, b: int|
            0 <= a < b < info.len() ==> (#[trigger] info[a]).key@ != (#[trigger] info[b]).key@,
    ensures
        index_of_key(info, key) == i,
    decreases i,
{
    if i > 0 {
        assert(info[0].key@ != info[i].key@);
        let rest = info.skip(1);
        assert forall|a: int, b: int| 0 <= a < b < rest.len() implies (#[trigger] rest[a]).key@ != (
        #[trigger] rest[b]).key@ by {
            assert(info[a + 1].key@ != info[b + 1].key@);
        }
        index_of_key_is(rest, key, i - 1);
    }
}

proof fn removed_keys(before: Seq<RadarInfo>, after: Seq<RadarInfo>, at: int, key: Seq<char>)
    requires
        0 <= at < before.len(),
        before[at].key@ == key,
        after == before.remove(at),
        forall|a: int, b: int|
            0 <= a < b < before.len() ==> (#[trigger] before[a]).key@ != (
            #[trigger] before[b]).key@,
    ensures
        forall|a: int, b: int|
            0 <= a < b < after.len() ==> (#[trigger] after[a]).key@ != (#[trigger] after[b]).key@,
        !has_key(after, key),
        forall|other: Seq<char>|
            other != key ==> #[trigger] has_key(after, other) == has_key(before, other),
        forall|i: int| 0 <= i < after.len() ==> before.contains(#[trigger] after[i]),
{
    assert forall|a: int, b: int| 0 <= a < b < after.len() implies (#[trigger] after[a]).key@ != (
    #[trigger] after[b]).key@ by {
        let x = if a < at {
            a
        } else {
            a + 1
        };
        let y = if b < at {
            b
        } else {
            b + 1
        };
        assert(after[a] == before[x] && after[b] == before[y]);
        assert(before[x].key@ != before[y].key@);
    }
    assert forall|i: int| 0 <= i < after.len() implies (#[trigger] after[i]).key@ != key by {
        let x = if i < at {
            i
        } else {
            i + 1
        };
        assert(after[i] == before[x]);
        if x < at {
            assert(before[x].key@ != before[at].key@);
        } else {
            assert(before[at].key@ != before[x].key@);
        }
    }
    assert forall|other: Seq<char>| other != key implies #[trigger] has_key(after, other)
        == has_key(before, other) by {
        if has_key(before, other) {
            let i = choose|i: int| 0 <= i < before.len() && (#[trigger] before[i]).key@ == other;
            let x = if i < at {
                i
            } else {
                i - 1
            };
            assert(after[x] == before[i]);
        }
        if has_key(after, other) {
            let i = choose|i: int| 0 <= i < after.len() && (#[trigger] after[i]).key@ == other;
            let x = if i < at {
                i
            } else {
                i + 1
            };
            assert(before[x] == after[i]);
        }
    }
    assert forall|i: int| 0 <= i < after.len() implies before.contains(#[trigger] after[i]) by {
        let x = if i < at {
            i
        } else {
            i + 1
        };
        assert(after[i] == before[x]);
    }
}

/// The number that a radar gets when it is found is not that of another radar, nor one that is
/// remembered of another radar.
pub proof fn new_number_is_unused(radars: SharedRadars, id: int, i: int)
    requires
        radars.is_highest_id(id - 1),
    ensures
        0 <= i < radars.info@.len() ==> radars.info@[i].id != id,
        0 <= i < radars.persistent_data.config.radars@.len()
            ==> radars.persistent_data.config.radars@[i].1.id != id,
{
}

/// A radar that is found again is not taken into the registry again.
pub proof fn located_only_once(before: SharedRadars, after: SharedRadars, info: RadarInfo, again: RadarInfo)
    requires
        after.info@.len() == before.info@.len() + 1,
        after.info@.last().key@ == info.key@,
        again.key@ == info.key@,
    ensures
        !after.takes(again),
{
    assert(after.info@[after.info@.len() - 1].key@ == again.key@);
}

/// A rotation takes more than 300 milliseconds and less than ten seconds, or is not shown.
/// The speed is shown in tenths of a rotation per minute: in a minute, which has 60000 milliseconds,
/// the antenna turns so often to the nearest tenth.
pub proof fn speed_follows_the_time(millis: int)
    ensures
        (speed_of(millis) is Some) == (301 <= millis <= 9999),
        speed_of(millis) matches Some(tenths) ==> {
            &&& 0 <= 2 * (tenths * millis - 10 * 60_000) + millis
            &&& 2 * (tenths * millis - 10 * 60_000) <= millis
        },
{
    if 301 <= millis <= 9999 {
        let q: int = 600_000int / millis;
        vstd::arithmetic::div_mod::lemma_fundamental_div_mod(600_000, millis);
        assert((q + 1) * millis == q * millis + millis) by (nonlinear_arith);
        assert(millis * q == q * millis) by (nonlinear_arith);
    }
}

/// Radars that turn faster are not shown with a lower speed.
pub proof fn faster_antennas_show_higher_speeds(faster: int, slower: int)
    requires
        301 <= faster <= slower <= 9999,
    ensures
        speed_of(faster)->0 >= speed_of(slower)->0,
{
    speed_follows_the_time(faster);
    speed_follows_the_time(slower);
    let a = speed_of(faster)->0;
    let b = speed_of(slower)->0;
    if a < b && faster < slower {
        assert((2 * b - 1) * faster >= 2 * 600_000) by (nonlinear_arith)
            requires
                a <= b - 1,
                faster > 0,
                0 <= 2 * (a * faster - 600_000) + faster,
        ;
        assert((2 * b - 1) * slower <= 2 * 600_000) by (nonlinear_arith)
            requires
                2 * (b * slower - 600_000) <= slower,
        ;
        assert((2 * b - 1) * faster < (2 * b - 1) * slower) by (nonlinear_arith)
            requires
                (2 * b - 1) * faster >= 2 * 600_000,
                0 < faster < slower,
        ;
    }
}

/// Where the serial number is known, it decides the key of a radar, and the address does not matter.
/// Where it is not, the address decides. The halves of a dual radar have different keys.
pub proof fn keys_tell_radars_apart(
    brand: Brand,
    a: Seq<char>,
    b: Seq<char>,
    which: Option<Seq<char>>,
    x: Seq<char>,
    y: Seq<char>,
    serial_no: Option<Seq<char>>,
    here: Endpoint,
    there: Endpoint,
)
    ensures
        radar_key(brand, Some(a), which, here) == radar_key(brand, Some(a), which, there),
        a != b ==> radar_key(brand, Some(a), which, here) != radar_key(brand, Some(b), which, here),
        here.text() != there.text() ==> radar_key(brand, None, which, here) != radar_key(
            brand,
            None,
            which,
            there,
        ),
        x != y ==> radar_key(brand, serial_no, Some(x), here) != radar_key(
            brand,
            serial_no,
            Some(y),
            here,
        ),
{
    let name = brand.spec_name().push('-');
    let end = match which {
        Some(w) => seq!['-'] + w,
        None => Seq::empty(),
    };
    assert(radar_key(brand, Some(a), which, here) =~= name + a + end);
    assert(radar_key(brand, Some(b), which, here) =~= name + b + end);
    assert(radar_key(brand, None, which, here) =~= name + here.text() + end);
    assert(radar_key(brand, None, which, there) =~= name + there.text() + end);
    middle_is(name, a, b, end);
    middle_is(name, here.text(), there.text(), end);
    let base = radar_key(brand, serial_no, None, here).push('-');
    assert(radar_key(brand, serial_no, Some(x), here) =~= base + x + Seq::<char>::empty());
    assert(radar_key(brand, serial_no, Some(y), here) =~= base + y + Seq::<char>::empty());
    middle_is(base, x, y, Seq::empty());
}

proof fn middle_is(front: Seq<char>, a: Seq<char>, b: Seq<char>, end: Seq<char>)
    ensures
        front + a + end == front + b + end ==> a == b,
{
    let s = front + a + end;
    let t = front + b + end;
    if s == t {
        assert(s.len() == t.len());
        assert(s.subrange(front.len() as int, (front.len() + a.len()) as int) =~= a);
        assert(t.subrange(front.len() as int, (front.len() + b.len()) as int) =~= b);
    }
}

/// The parts of a key stand behind each other with dashes between them.
pub proof fn keys_are_made_of_their_parts(
    brand: Brand,
    serial: Seq<char>,
    which: Seq<char>,
    addr: Endpoint,
)
    ensures
        radar_key(brand, Some(serial), None, addr) == joined(seq![brand.spec_name(), serial], '-'),
        radar_key(brand, Some(serial), Some(which), addr) == joined(
            seq![brand.spec_name(), serial, which],
            '-',
        ),
        radar_key(brand, None, Some(which), addr) == joined(
            seq![brand.spec_name(), addr.text(), which],
            '-',
        ),
{
    two_are_joined(brand.spec_name(), serial, '-');
    three_are_joined(brand.spec_name(), serial, which, '-');
    three_are_joined(brand.spec_name(), addr.text(), which, '-');
    assert(radar_key(brand, Some(serial), None, addr) =~= brand.spec_name() + seq!['-'] + serial);
    assert(radar_key(brand, Some(serial), Some(which), addr) =~= brand.spec_name() + seq!['-']
        + serial + seq!['-'] + which);
    assert(radar_key(brand, None, Some(which), addr) =~= brand.spec_name() + seq!['-']
        + addr.text() + seq!['-'] + which);
}

proof fn two_are_joined(a: Seq<char>, b: Seq<char>, c: char)
    ensures
        joined(seq![a, b], c) == a + seq![c] + b,
{
    assert(seq![a, b].skip(1) =~= seq![b]);
    assert(joined(seq![b], c) == b);
    assert(joined(seq![a, b], c) =~= a + seq![c] + b);
}

proof fn three_are_joined(a: Seq<char>, b: Seq<char>, d: Seq<char>, c: char)
    ensures
        joined(seq![a, b, d], c) == a + seq![c] + b + seq![c] + d,
{
    two_are_joined(b, d, c);
    assert(seq![a, b, d].skip(1) =~= seq![b, d]);
    assert(joined(seq![a, b, d], c) =~= a + seq![c] + b + seq![c] + d);
}

/// A radar is named after its model, then the rest of its serial number, then its half, with spaces
/// between them. What is not known is left out.
pub proof fn names_are_made_of_their_parts(model: Seq<char>, serial: Seq<char>, which: Seq<char>)
    ensures
        default_name(model, None, None) == model,
        default_name(model, Some(serial), None) == joined(seq![model, serial], ' '),
        default_name(model, None, Some(which)) == joined(seq![model, which], ' '),
        default_name(model, Some(serial), Some(which)) == joined(seq![model, serial, which], ' '),
{
    two_are_joined(model, serial, ' ');
    two_are_joined(model, which, ' ');
    three_are_joined(model, serial, which, ' ');
    assert(default_name(model, Some(serial), None) =~= model + seq![' '] + serial);
    assert(default_name(model, None, Some(which)) =~= model + seq![' '] + which);
    assert(default_name(model, Some(serial), Some(which)) =~= model + seq![' '] + serial + seq![' ']
        + which);
}

/// The rest of a serial number is what the prefix leaves of it.
pub proof fn rest_of_the_serial_number(prefix: Seq<char>, rest: Seq<char>)
    ensures
        serial_tail(Some(prefix + rest), prefix.len() as int) == Some(rest),
        serial_tail(None, prefix.len() as int) is None,
{
    assert((prefix + rest).skip(prefix.len() as int) =~= rest);
}

/// The second half of a dual radar is left out of recorded data, and only there. Every other radar that
/// is not known yet is taken.
pub proof fn second_halves_are_not_replayed(
    radars: SharedRadars,
    info: RadarInfo,
    serial_no: Option<Seq<char>>,
    which: Seq<char>,
)
    requires
        !radars.has(info.key@),
        info.key@ == radar_key(info.brand, serial_no, Some(which), info.addr),
    ensures
        which == "B"@ ==> radars.takes(info) == !info.replay,
        which == "A"@ ==> radars.takes(info),
{
    reveal_strlit("A");
    reveal_strlit("B");
    reveal_strlit("-B");
    let key = info.key@;
    let base = radar_key(info.brand, serial_no, None, info.addr);
    assert(key =~= base + seq!['-'] + which);
    if which == "B"@ {
        assert(key.skip(key.len() - 2) =~= "-B"@);
    }
    if which == "A"@ {
        assert(key.skip(key.len() - 2)[1] == 'A');
        assert("-B"@[1] == 'B');
    }
}

/// A radar without a number gets one that is larger than those of all others, known or remembered, by
/// one. The first radar of all gets the number one. A radar that has a number keeps it.
pub proof fn numbers_are_given_in_order(
    radars: SharedRadars,
    ranges: Ranges,
    before: RadarInfo,
    after: RadarInfo,
    i: int,
)
    requires
        is_located(radars, ranges, before, after),
    ensures
        before.id != usize::MAX ==> after.id == before.id,
        before.id == usize::MAX && 0 <= i < radars.info@.len() ==> radars.info@[i].id < after.id,
        before.id == usize::MAX && 0 <= i < radars.persistent_data.config.radars@.len()
            ==> radars.persistent_data.config.radars@[i].1.id < after.id,
        before.id == usize::MAX && radars.info@.len() == 0
            && radars.persistent_data.config.radars@.len() == 0 ==> after.id == 1,
        before.id == usize::MAX && after.id != 1 ==> {
            ||| exists|j: int|
                0 <= j < radars.info@.len() && (#[trigger] radars.info@[j]).id + 1 == after.id
            ||| exists|j: int|
                0 <= j < radars.persistent_data.config.radars@.len() && (
                #[trigger] radars.persistent_data.config.radars@[j]).1.id + 1 == after.id
        },
        after.key@ == before.key@,
        after.brand == before.brand,
        after.addr == before.addr,
        after.report_addr == before.report_addr,
        after.send_command_addr == before.send_command_addr,
        after.spoke_data_addr == before.spoke_data_addr,
{
    if before.id == usize::MAX {
        assert(radars.is_highest_id(after.id - 1));
    }
}

/// A radar is introduced under the name of its model and its serial number. The name that its user gave
/// it stays, but not the key that it was found under.
pub proof fn given_names_stay(
    before: SharedControls,
    after: SharedControls,
    info: RadarInfo,
    model: Seq<char>,
    prefix: int,
    which: Option<Seq<char>>,
    id: ControlId,
)
    requires
        forall|i: ControlId|
            #[trigger] is_introduced(before, after, info, model, prefix, which, i),
        before.slot(ControlId::ModelName) is Some,
        before.slot(ControlId::SerialNumber) is Some,
        before.slot(ControlId::UserName) is Some,
    ensures
        after.text_of(ControlId::ModelName) == Some(model),
        info.serial_no matches Some(serial) ==> after.text_of(ControlId::SerialNumber) == Some(
            serial@,
        ),
        info.serial_no is None ==> after.text_of(ControlId::SerialNumber) == before.text_of(
            ControlId::SerialNumber,
        ),
        before.text_of(ControlId::UserName) != Some(info.key@) ==> after.text_of(
            ControlId::UserName,
        ) == before.text_of(ControlId::UserName),
        before.text_of(ControlId::UserName) == Some(info.key@) ==> after.text_of(
            ControlId::UserName,
        ) == Some(default_name(model, serial_tail(opt_text(info.serial_no), prefix), which)),
        id != ControlId::ModelName && id != ControlId::SerialNumber && id != ControlId::UserName
            ==> after.slot(id) == before.slot(id),
{
    assert(is_introduced(before, after, info, model, prefix, which, ControlId::ModelName));
    assert(is_introduced(before, after, info, model, prefix, which, ControlId::SerialNumber));
    assert(is_introduced(before, after, info, model, prefix, which, ControlId::UserName));
    assert(is_introduced(before, after, info, model, prefix, which, id));
}

/// A radar that was found under its key is known to users by this key, until it is introduced.
pub proof fn new_radars_are_named_by_their_keys(before: RadarInfo, after: RadarInfo)
    requires
        is_named_by_key(before, after),
    ensures
        after.controls.text_of(ControlId::UserName) == Some(after.key@),
        after.key@ == before.key@,
        after.controls.text_of(ControlId::ModelName) == before.controls.text_of(
            ControlId::ModelName,
        ),
{
}

/// The values of the range control are the ranges of the radar in the units that are in use.
pub proof fn known_ranges_can_be_chosen(before: RadarInfo, after: RadarInfo, i: int)
    requires
        knows_ranges(before, after),
        0 <= i < after.controls.all_ranges.in_units(
            before.controls.spec_range_units() as int,
        ).len(),
    ensures
        after.controls.slot(ControlId::Range)->0.item@.valid_values matches Some(values)
            && values.len() == after.controls.all_ranges.in_units(
            before.controls.spec_range_units() as int,
        ).len() && values[i] == after.controls.all_ranges.in_units(
            before.controls.spec_range_units() as int,
        )[i].0,
        after.controls.all_ranges.same_ranges(after.ranges),
{
}

/// When the ranges of a radar become known, no control changes but the range control, and nothing else
/// about the radar.
pub proof fn known_ranges_change_nothing_else(before: RadarInfo, after: RadarInfo, id: ControlId)
    requires
        knows_ranges(before, after),
    ensures
        id != ControlId::Range ==> after.controls.slot(id) == before.controls.slot(id),
        after.key == before.key,
        after.addr == before.addr,
        after.doppler == before.doppler,
        after.legend == before.legend,
        after.controls.radar_id == before.controls.radar_id,
        after.controls.replay == before.controls.replay,
{
}

/// A radar that was just found is known by what its beacon told, and each address is used for its own
/// purpose. It has no number and no ranges, and is not dual.
pub proof fn new_radars_are_as_they_were_found(
    info: RadarInfo,
    targets: TargetMode,
    replay: bool,
    brand: Brand,
    serial_no: Option<Seq<char>>,
    which: Option<Seq<char>>,
    pixel_values: u8,
    spokes_per_revolution: u16,
    max_spoke_len: u16,
    addr: Endpoint,
    nic_addr: u32,
    spoke_data_addr: Endpoint,
    report_addr: Endpoint,
    send_command_addr: Endpoint,
    doppler: bool,
    now: u64,
)
    requires
        is_new_radar(
            info,
            targets,
            replay,
            brand,
            serial_no,
            which,
            pixel_values,
            spokes_per_revolution as int,
            max_spoke_len as int,
            addr,
            nic_addr,
            spoke_data_addr,
            report_addr,
            send_command_addr,
            doppler,
            now,
        ),
    ensures
        info.key@ == radar_key(info.brand, opt_text(info.serial_no), opt_text(info.which), info.addr),
        info.brand == brand && info.targets == targets && info.replay == replay,
        opt_text(info.serial_no) == serial_no && opt_text(info.which) == which,
        info.addr == addr && info.nic_addr == nic_addr,
        info.spoke_data_addr == spoke_data_addr && info.report_addr == report_addr
            && info.send_command_addr == send_command_addr,
        info.spokes_per_revolution == spokes_per_revolution && info.max_spoke_len == max_spoke_len,
        info.pixel_values == pixel_values,
        info.doppler == doppler && !info.dual_range,
        info.id == usize::MAX && info.ranges.all@.len() == 0,
        now >= 2000 ==> info.rotation_timestamp + 2000 == now,
        info.legend.is_default(info.targets, false, info.pixel_values as int),
{
}

} // verus!
