//! What the web server answers.
use vstd::prelude::*;

use crate::control_id::ControlId;
use crate::control_value::{control_view, BareControlValue, BareView, ControlValue};
use crate::controls::SharedControls;
use crate::error::RadarError;
use crate::legend::Legend;
use crate::network::{format_ipv4, ipv4_text};
use crate::radar::{numbered_id, opt_str, RadarInfo, SharedRadars};
use crate::request::{answers, is_refused, needs_persistence, ClientAction, RequestNumbers};
use crate::text::{decimal, format_decimal};
use crate::value::opt_text;

verus! {

/// Why the web server stopped.
#[derive(Clone, Copy, Debug, PartialEq, Eq, Structural)]
pub enum WebError {
    /// A socket failed.
    Io,
}

/// The host that `http::Uri::from_str` and `http::Uri::host` find in a text, or nothing where the text
/// is no URI or has no host.
pub uninterp spec fn host_of_uri(uri: Seq<char>) -> Option<Seq<char>>;

/// `http::Uri::from_str` reads a URI, and `http::Uri::host` returns its host. Nothing more is claimed
/// of the host than that the text determines it.
#[verifier::external_body]
fn uri_host(uri: &str) -> (r: Option<String>)
    ensures
        opt_text(r) == host_of_uri(uri@),
{
    match <http::Uri as std::str::FromStr>::from_str(uri) {
        Ok(uri) => match uri.host() {
            Some(host) => Some(String::from(host)),
            None => None,
        },
        Err(_) => None,
    }
}

/// A host with a port.
pub open spec fn host_and_port(host: Option<Seq<char>>, port: int) -> Seq<char> {
    (match host {
        Some(host) => host,
        None => "localhost"@,
    }).push(':') + decimal(port as nat)
}

/// A host with a port. Where the host is not known it is the local one.
pub fn with_port(host: Option<&str>, port: u16) -> (s: String)
    ensures
        s@ == host_and_port(opt_str(host), port as int),
{
    let mut s: String = match host {
        Some(host) => host.to_owned(),
        None => String::from_str("localhost"),
    };
    s.push(':');
    s.append(format_decimal(port as u64).as_str());
    s
}

/// The host and the port under which a client reaches the server: the host is the one that the
/// client asked for, by the header of its request.
pub fn target_host(header: Option<&str>, port: u16) -> (s: String)
    ensures
        s@ == host_and_port(
            host_of_uri(
                match header {
                    Some(h) => h@,
                    None => "localhost"@,
                },
            ),
            port as int,
        ),
{
    let host = match header {
        Some(h) => uri_host(h),
        None => uri_host("localhost"),
    };
    match &host {
        Some(host) => with_port(Some(host.as_str()), port),
        None => with_port(None, port),
    }
}

/// Where a version of the interface is found.
#[derive(Debug)]
pub struct ApiEndpoint {
    pub name: &'static str,
    pub version: &'static str,
    pub http: String,
    pub ws: String,
}

fn text3(a: &str, b: &str, c: &str) -> (s: String)
    ensures
        s@ == a@ + b@ + c@,
{
    let mut s: String = a.to_owned();
    s.append(b);
    s.append(c);
    s
}

/// The versions of the interface, for clients that reach the server at a host.
pub open spec fn are_endpoints(r: Seq<ApiEndpoint>, host: Seq<char>) -> bool {
    &&& r.len() == 2
    &&& r[0].name@ == "v1"@
    &&& r[0].version@ == "1.0.0"@
    &&& r[0].http@ == "http://"@ + host + "/v1/api/"@
    &&& r[0].ws@ == "ws://"@ + host + "/v1/api/stream"@
    &&& r[1].name@ == "v3"@
    &&& r[1].version@ == "3.0.0"@
    &&& r[1].http@ == "http://"@ + host + "/v3/api/"@
    &&& r[1].ws@ == "ws://"@ + host + "/v3/api/stream"@
}

/// The versions of the interface, for clients that reach the server at a host.
pub fn endpoints(host: &str) -> (r: [ApiEndpoint; 2])
    ensures
        are_endpoints(r@, host@),
{
    [
        ApiEndpoint {
            name: "v1",
            version: "1.0.0",
            http: text3("http://", host, "/v1/api/"),
            ws: text3("ws://", host, "/v1/api/stream"),
        },
        ApiEndpoint {
            name: "v3",
            version: "3.0.0",
            http: text3("http://", host, "/v3/api/"),
            ws: text3("ws://", host, "/v3/api/stream"),
        },
    ]
}

/// What clients are told of a radar in the list of all radars.
#[derive(Debug)]
pub struct RadarApi {
    pub name: String,
    pub brand: &'static str,
    pub model: Option<String>,
    pub spoke_data_url: String,
    pub stream_url: String,
    pub radar_ip_address: String,
}

/// What clients that reach the server at a host are told of a radar.
pub open spec fn tells_of_radar(api: RadarApi, info: RadarInfo, host: Seq<char>) -> bool {
    &&& info.controls.text_of(ControlId::UserName) == Some(api.name@)
    &&& api.brand@ == info.brand.spec_name()
    &&& opt_text(api.model) == info.controls.text_of(ControlId::ModelName)
    &&& api.spoke_data_url@ == "ws://"@ + host + "/signalk/v2/api/vessels/self/radars/"@ + info.key@
        + "/spokes"@
    &&& api.stream_url@ == "ws://"@ + host + "/signalk/v1/stream"@
    &&& api.radar_ip_address@ == ipv4_text(info.addr.ip as int)
}

/// What clients that reach the server at a host are told of a radar.
pub fn radar_api(info: &RadarInfo, host: &str) -> (api: RadarApi)
    requires
        info.well_formed(),
        info.controls.text_of(ControlId::UserName) is Some,
    ensures
        tells_of_radar(api, *info, host@),
{
    let mut spoke_data_url: String = text3("ws://", host, "/signalk/v2/api/vessels/self/radars/");
    spoke_data_url.append(info.key.as_str());
    spoke_data_url.append("/spokes");
    RadarApi {
        name: info.controls.user_name(),
        brand: info.brand.to_str(),
        model: info.controls.model_name(),
        spoke_data_url,
        stream_url: text3("ws://", host, "/signalk/v1/stream"),
        radar_ip_address: format_ipv4(info.addr.ip),
    }
}

/// What clients of the first version of the interface are told of a radar.
#[derive(Debug)]
pub struct RadarApiV1 {
    pub id: String,
    pub name: String,
    pub spokes_per_revolution: u16,
    pub max_spoke_len: u16,
    pub stream_url: String,
    pub control_url: String,
}

/// What clients of the first version of the interface, that reach the server at a host, are told of a
/// radar.
pub open spec fn tells_of_numbered_radar(api: RadarApiV1, info: RadarInfo, host: Seq<char>) -> bool {
    &&& api.id@ == numbered_id(info.id as int)
    &&& info.controls.text_of(ControlId::UserName) == Some(api.name@)
    &&& api.spokes_per_revolution == info.spokes_per_revolution
    &&& api.max_spoke_len == info.max_spoke_len
    &&& api.stream_url@ == "ws://"@ + host + "/v1/api/spokes/"@ + numbered_id(info.id as int)
    &&& api.control_url@ == "ws://"@ + host + "/v1/api/control/"@ + numbered_id(info.id as int)
}

/// What clients of the first version of the interface, that reach the server at a host, are told of a
/// radar.
pub fn radar_api_v1(info: &RadarInfo, host: &str) -> (api: RadarApiV1)
    requires
        info.well_formed(),
        info.controls.text_of(ControlId::UserName) is Some,
    ensures
        tells_of_numbered_radar(api, *info, host@),
{
    let id = String::from_str("radar-").concat(format_decimal(info.id as u64).as_str());
    let mut stream_url: String = text3("ws://", host, "/v1/api/spokes/");
    stream_url.append(id.as_str());
    let mut control_url: String = text3("ws://", host, "/v1/api/control/");
    control_url.append(id.as_str());
    RadarApiV1 {
        id,
        name: info.controls.user_name(),
        spokes_per_revolution: info.spokes_per_revolution,
        max_spoke_len: info.max_spoke_len,
        stream_url,
        control_url,
    }
}

/// What does not change about a radar.
#[derive(Debug)]
pub struct Capabilities {
    pub max_range: u32,
    pub min_range: u32,
    pub supported_ranges: Vec<u32>,
    pub spokes_per_revolution: u16,
    pub max_spoke_length: u16,
    pub pixel_values: u8,
    pub legend: Legend,
    pub has_doppler: bool,
    pub has_dual_range: bool,
    pub has_dual_radar: bool,
    pub no_transmit_sectors: u8,
}

/// One where there is a control, else zero.
pub open spec fn count_control(controls: SharedControls, id: ControlId) -> int {
    if controls.slot(id) is Some {
        1
    } else {
        0
    }
}

fn count_if(controls: &SharedControls, id: ControlId) -> (n: u8)
    requires
        controls.well_formed(),
    ensures
        n == count_control(*controls, id),
{
    if controls.contains_key(&id) {
        1
    } else {
        0
    }
}

/// What does not change about a radar, as clients are told.
pub open spec fn are_capabilities(c: Capabilities, info: RadarInfo) -> bool {
    &&& c.supported_ranges@.len() == info.ranges.all@.len()
    &&& forall|i: int|
        0 <= i < c.supported_ranges@.len() ==> (#[trigger] c.supported_ranges@[i])
            == info.ranges.all@[i].0 as u32
    &&& c.max_range == if info.ranges.all@.len() == 0 {
        0
    } else {
        info.ranges.all@.last().0 as u32
    }
    &&& c.min_range == if info.ranges.all@.len() == 0 {
        0
    } else {
        info.ranges.all@[0].0 as u32
    }
    &&& c.spokes_per_revolution == info.spokes_per_revolution
    &&& c.max_spoke_length == info.max_spoke_len
    &&& c.pixel_values == info.pixel_values
    &&& c.legend.is_same(info.legend)
    &&& c.has_doppler == info.doppler
    &&& c.has_dual_range == info.dual_range
    &&& c.has_dual_radar == info.which is Some
    &&& c.no_transmit_sectors == count_control(info.controls, ControlId::NoTransmitSector1)
        + count_control(info.controls, ControlId::NoTransmitSector2) + count_control(
        info.controls,
        ControlId::NoTransmitSector3,
    ) + count_control(info.controls, ControlId::NoTransmitSector4)
}

impl Capabilities {
    /// What does not change about a radar.
    pub fn new(info: &RadarInfo) -> (c: Capabilities)
        requires
            info.well_formed(),
        ensures
            are_capabilities(c, *info),
    {
        let n: usize = info.ranges.all.len();
        let mut supported_ranges: Vec<u32> = Vec::with_capacity(n);
        let mut i: usize = 0;
        while i < n
            invariant
                n == info.ranges.all@.len(),
                i <= n,
                supported_ranges@.len() == i,
                forall|j: int|
                    0 <= j < i ==> (#[trigger] supported_ranges@[j]) == info.ranges.all@[j].0
                        as u32,
            decreases n - i,
        {
            supported_ranges.push(info.ranges.all[i].0 as u32);
            i = i + 1;
        }
        let (min_range, max_range): (u32, u32) = if n == 0 {
            (0, 0)
        } else {
            (info.ranges.all[0].0 as u32, info.ranges.all[n - 1].0 as u32)
        };
        let controls = &info.controls;
        let no_transmit_sectors: u8 = count_if(controls, ControlId::NoTransmitSector1) + count_if(
            controls,
            ControlId::NoTransmitSector2,
        ) + count_if(controls, ControlId::NoTransmitSector3) + count_if(
            controls,
            ControlId::NoTransmitSector4,
        );
        Capabilities {
            max_range,
            min_range,
            supported_ranges,
            spokes_per_revolution: info.spokes_per_revolution,
            max_spoke_length: info.max_spoke_len,
            pixel_values: info.pixel_values,
            legend: info.legend.copy(),
            has_doppler: info.doppler,
            has_dual_range: info.dual_range,
            has_dual_radar: info.which.is_some(),
            no_transmit_sectors,
        }
    }
}

/// Names in quotes, with commas between them.
pub open spec fn quoted_names(ids: Seq<ControlId>) -> Seq<char>
    decreases ids.len(),
{
    if ids.len() == 0 {
        Seq::empty()
    } else {
        let last = "\""@ + ids.last().spec_name() + "\""@;
        if ids.len() == 1 {
            last
        } else {
            quoted_names(ids.drop_last()) + ", "@ + last
        }
    }
}

/// The message that tells that a radar has no control of some name, and which it has.
pub open spec fn unknown_control(control: Seq<char>, ids: Seq<ControlId>) -> Seq<char> {
    "Unknown control '"@ + control + "' -- use ["@ + quoted_names(ids) + "] instead"@
}

/// The message that tells that a radar has no control of some name, and which it has.
pub fn unknown_control_message(control: &str, ids: &Vec<ControlId>) -> (s: String)
    ensures
        s@ == unknown_control(control@, ids@),
{
    let mut s: String = text3("Unknown control '", control, "' -- use [");
    let ghost start = s@;
    let mut i: usize = 0;
    assert(ids@.take(0) =~= Seq::empty());
    assert(start + quoted_names(ids@.take(0)) =~= start);
    while i < ids.len()
        invariant
            i <= ids.len(),
            s@ == start + quoted_names(ids@.take(i as int)),
        decreases ids.len() - i,
    {
        let ghost before = s@;
        if i > 0 {
            s.append(", ");
        }
        let name = text3("\"", ids[i].to_str(), "\"");
        s.append(name.as_str());
        proof {
            let next = ids@.take(i + 1);
            assert(next.drop_last() =~= ids@.take(i as int));
            assert(s@ =~= start + quoted_names(next));
        }
        i = i + 1;
    }
    assert(ids@.take(i as int) =~= ids@);
    s.append("] instead");
    assert(s@ =~= unknown_control(control@, ids@));
    s
}

/// The answer to a request that fails, or to one that is done.
#[derive(Debug)]
pub struct Answer {
    pub status: u16,
    pub message: String,
}

pub const STATUS_OK: u16 = 200;

pub const STATUS_BAD_REQUEST: u16 = 400;

pub const STATUS_NOT_FOUND: u16 = 404;

/// What follows from a request to change a control.
#[derive(Debug)]
pub enum SetControl {
    /// The request is answered.
    Answered(Answer),
    /// The value of the request cannot be used: the request is bad, and the message is that of the
    /// error.
    Refused(RadarError),
    /// The request is carried out: for the radar at a place, with an action, and with what is
    /// remembered of the radar brought up to date or not.
    Accepted(usize, ClientAction, bool),
}

/// The message that there is no radar with a key.
pub open spec fn no_such_radar(key: Seq<char>) -> Seq<char> {
    "No such radar with key '"@ + key + "'"@
}

/// The message that a control cannot be set.
pub open spec fn cannot_set(id: ControlId) -> Seq<char> {
    "Cannot set value for control '"@ + id.spec_name() + "'"@
}

/// Whether a request to change a control of a radar has the right consequence.
pub open spec fn decides(
    info: RadarInfo,
    control_id: Seq<char>,
    request: BareView,
    numbers: RequestNumbers,
    r: SetControl,
) -> bool {
    match named_control(info.controls, control_id) {
        None => r matches SetControl::Answered(answer) && answer.status == STATUS_BAD_REQUEST
            && answer.message@ == unknown_control(
            control_id,
            info.controls.ids_below(crate::control_id::CONTROL_COUNT as int),
        ),
        Some(id) => exists|result: Result<ClientAction, RadarError>|
            {
                &&& #[trigger] answers(info.controls, id, request, numbers, result)
                &&& match (result, r) {
                    (Ok(action), SetControl::Accepted(_, a, save)) => a == action && save == (id
                        == ControlId::GuardZone1 || id == ControlId::GuardZone2 || id
                        == ControlId::UserName),
                    (Err(e), SetControl::Answered(answer)) => is_refused(id, result)
                        && answer.status == STATUS_BAD_REQUEST && answer.message@ == cannot_set(id),
                    (Err(e), SetControl::Refused(told)) => !is_refused(id, result) && told == e,
                    _ => false,
                }
            },
    }
}

/// Decides on a request to change a control of a radar.
pub fn set_control_value(
    radars: &SharedRadars,
    radar_id: &str,
    control_id: &str,
    request: BareControlValue,
    numbers: &RequestNumbers,
) -> (r: SetControl)
    requires
        radars.well_formed(),
    ensures
        if radars.has(radar_id@) {
            exists|i: int|
                {
                    &&& 0 <= i < radars.info@.len()
                    &&& (#[trigger] radars.info@[i]).key@ == radar_id@
                    &&& decides(radars.info@[i], control_id@, request@, *numbers, r)
                    &&& r matches SetControl::Accepted(at, _, _) ==> at == i
                }
        } else {
            r matches SetControl::Answered(answer) && answer.status == STATUS_NOT_FOUND
                && answer.message@ == no_such_radar(radar_id@)
        },
{
    let at: usize = match radars.find(radar_id) {
        Some(at) => at,
        None => {
            return SetControl::Answered(
                Answer {
                    status: STATUS_NOT_FOUND,
                    message: text3("No such radar with key '", radar_id, "'"),
                },
            );
        },
    };
    assert(radars.info@[at as int].well_formed());
    let controls = &radars.info[at].controls;
    let ghost info = radars.info@[at as int];
    assert(info.key@ == radar_id@);
    let id = match controls.get_by_id(control_id) {
        Some(control) => control.item.control_id,
        None => {
            let ids = controls.get_control_keys();
            return SetControl::Answered(
                Answer {
                    status: STATUS_BAD_REQUEST,
                    message: unknown_control_message(control_id, &ids),
                },
            );
        },
    };
    let cv = ControlValue::from_request(id, request);
    let result = controls.process_client_request(cv, numbers);
    assert(answers(info.controls, id, request@, *numbers, result));
    match result {
        Ok(action) => SetControl::Accepted(at, action, needs_persistence(id)),
        Err(e) => match e {
            RadarError::CannotSetControlId(_) => SetControl::Answered(
                Answer {
                    status: STATUS_BAD_REQUEST,
                    message: text3("Cannot set value for control '", id.to_str(), "'"),
                },
            ),
            _ => SetControl::Refused(e),
        },
    }
}

/// The answer to a request that was carried out: what the radar objected to, or that all is well.
pub fn answer_reply(error: Option<String>) -> (answer: Answer)
    ensures
        match error {
            Some(e) => answer.status == STATUS_BAD_REQUEST && answer.message@ == e@,
            None => answer.status == STATUS_OK && answer.message@ == Seq::<char>::empty(),
        },
{
    match error {
        Some(message) => Answer { status: STATUS_BAD_REQUEST, message },
        None => {
            let message = String::new();
            assert(message@ =~= Seq::empty());
            Answer { status: STATUS_OK, message }
        },
    }
}

/// The control of a radar that a text names, by its number or its name.
pub open spec fn named_control(controls: SharedControls, name: Seq<char>) -> Option<ControlId> {
    match crate::control_id::control_of_text(name) {
        Some(id) => if controls.slot(id) is Some {
            Some(id)
        } else {
            None
        },
        None => None,
    }
}

/// The value of a control of a radar, or the answer that there is none.
pub fn get_control_value(radars: &SharedRadars, radar_id: &str, control_id: &str) -> (r: Result<
    BareControlValue,
    Answer,
>)
    requires
        radars.well_formed(),
    ensures
        match r {
            Ok(value) => exists|i: int|
                0 <= i < radars.info@.len() && (#[trigger] radars.info@[i]).key@ == radar_id@
                    && named_control(radars.info@[i].controls, control_id@) is Some && value@
                    == control_view(
                    radars.info@[i].controls.slot(
                        named_control(radars.info@[i].controls, control_id@)->0,
                    )->0,
                    None,
                ),
            Err(answer) => {
                ||| !radars.has(radar_id@) && answer.status == STATUS_NOT_FOUND && answer.message@
                    == no_such_radar(radar_id@)
                ||| exists|i: int|
                    0 <= i < radars.info@.len() && (#[trigger] radars.info@[i]).key@ == radar_id@
                        && answer.status == STATUS_BAD_REQUEST && named_control(
                        radars.info@[i].controls,
                        control_id@,
                    ) is None && answer.message@ == unknown_control(
                        control_id@,
                        radars.info@[i].controls.ids_below(
                            crate::control_id::CONTROL_COUNT as int,
                        ),
                    )
            },
        },
{
    let at: usize = match radars.find(radar_id) {
        Some(at) => at,
        None => {
            return Err(
                Answer {
                    status: STATUS_NOT_FOUND,
                    message: text3("No such radar with key '", radar_id, "'"),
                },
            );
        },
    };
    assert(radars.info@[at as int].well_formed());
    let controls = &radars.info[at].controls;
    match controls.get_by_id(control_id) {
        Some(control) => {
            assert(radars.info@[at as int].key@ == radar_id@);
            Ok(BareControlValue::from_control_value(ControlValue::from(control, None)))
        },
        None => {
            let ids = controls.get_control_keys();
            assert(radars.info@[at as int].key@ == radar_id@);
            Err(
                Answer {
                    status: STATUS_BAD_REQUEST,
                    message: unknown_control_message(control_id, &ids),
                },
            )
        },
    }
}

/// The message that a parameter of a request for a stream is not known.
pub open spec fn unknown_parameter(name: Seq<char>, value: Seq<char>, choices: Seq<char>) -> Seq<
    char,
> {
    "Unknown "@ + name + " value '"@ + value + "' -- use "@ + choices + " instead"@
}

/// The message that the mode of a subscription is not known.
pub fn unknown_subscribe_message(value: &str) -> (s: String)
    ensures
        s@ == unknown_parameter("subscribe"@, value@, "'none', 'self' or 'all'"@),
{
    let mut s: String = text3("Unknown ", "subscribe", " value '");
    s.append(value);
    s.append("' -- use ");
    s.append("'none', 'self' or 'all'");
    s.append(" instead");
    s
}

/// The message that the wish for the values that are known is not known.
pub fn unknown_cached_message(value: &str) -> (s: String)
    ensures
        s@ == unknown_parameter("sendCachedValues"@, value@, "'false' or 'true'"@),
{
    let mut s: String = text3("Unknown ", "sendCachedValues", " value '");
    s.append(value);
    s.append("' -- use ");
    s.append("'false' or 'true'");
    s.append(" instead");
    s
}

/// Each version of the interface is found under its name, over HTTP and as a stream of WebSocket
/// messages, at the host that the client reaches. The name and the version start with the same digit.
pub proof fn endpoints_have_their_names(r: Seq<ApiEndpoint>, host: Seq<char>, i: int)
    requires
        are_endpoints(r, host),
        0 <= i < r.len(),
    ensures
        r[i].http@ == "http"@ + "://"@ + host + "/"@ + r[i].name@ + "/api/"@,
        r[i].ws@ == "ws"@ + "://"@ + host + "/"@ + r[i].name@ + "/api/"@ + "stream"@,
        r[i].name@.len() == 2,
        r[i].name@[0] == 'v',
        r[i].version@[0] == r[i].name@[1],
        r[0].version@[0] == '1',
        r[1].version@[0] == '3',
{
    reveal_strlit("v1");
    reveal_strlit("v3");
    reveal_strlit("1.0.0");
    reveal_strlit("3.0.0");
    reveal_strlit("http://");
    reveal_strlit("ws://");
    reveal_strlit("http");
    reveal_strlit("ws");
    reveal_strlit("://");
    reveal_strlit("/");
    reveal_strlit("/api/");
    reveal_strlit("stream");
    reveal_strlit("/v1/api/");
    reveal_strlit("/v1/api/stream");
    reveal_strlit("/v3/api/");
    reveal_strlit("/v3/api/stream");
    assert("http://"@ =~= "http"@ + "://"@);
    assert("ws://"@ =~= "ws"@ + "://"@);
    assert("/v1/api/"@ =~= "/"@ + "v1"@ + "/api/"@);
    assert("/v3/api/"@ =~= "/"@ + "v3"@ + "/api/"@);
    assert("/v1/api/stream"@ =~= "/"@ + "v1"@ + "/api/"@ + "stream"@);
    assert("/v3/api/stream"@ =~= "/"@ + "v3"@ + "/api/"@ + "stream"@);
    assert(r[i].http@ =~= "http"@ + "://"@ + host + "/"@ + r[i].name@ + "/api/"@);
    assert(r[i].ws@ =~= "ws"@ + "://"@ + host + "/"@ + r[i].name@ + "/api/"@ + "stream"@);
}

/// The ranges that a radar supports go from the shortest to the longest one that clients are told of.
/// A radar is one of two where it is half of a dual one.
pub proof fn capabilities_fit_together(c: Capabilities, info: RadarInfo, i: int)
    requires
        are_capabilities(c, info),
        forall|j: int|
            0 <= j < info.ranges.all@.len() ==> 0 <= (#[trigger] info.ranges.all@[j]).0,
    ensures
        c.supported_ranges@.len() == info.ranges.all@.len(),
        0 <= i < info.ranges.all@.len() ==> c.supported_ranges@[i] == info.ranges.all@[i].0,
        c.supported_ranges@.len() > 0 ==> c.min_range == c.supported_ranges@.first() && c.max_range
            == c.supported_ranges@.last(),
        c.supported_ranges@.len() == 0 ==> c.min_range == 0 && c.max_range == 0,
        c.spokes_per_revolution == info.spokes_per_revolution,
        c.max_spoke_length == info.max_spoke_len,
        c.pixel_values == info.pixel_values,
        c.has_doppler == info.doppler,
        c.has_dual_range == info.dual_range,
        c.has_dual_radar == info.which is Some,
        c.no_transmit_sectors <= 4,
        c.no_transmit_sectors == 0 <==> info.controls.slot(ControlId::NoTransmitSector1) is None
            && info.controls.slot(ControlId::NoTransmitSector2) is None && info.controls.slot(
            ControlId::NoTransmitSector3,
        ) is None && info.controls.slot(ControlId::NoTransmitSector4) is None,
        c.no_transmit_sectors == 4 <==> info.controls.slot(ControlId::NoTransmitSector1) is Some
            && info.controls.slot(ControlId::NoTransmitSector2) is Some && info.controls.slot(
            ControlId::NoTransmitSector3,
        ) is Some && info.controls.slot(ControlId::NoTransmitSector4) is Some,
        c.no_transmit_sectors == 1 && info.controls.slot(ControlId::NoTransmitSector1) is Some
            ==> info.controls.slot(ControlId::NoTransmitSector2) is None,
{
}

/// A control of a radar is found by its name and by its number, where the radar has it.
pub proof fn controls_are_found_by_name_and_number(
    controls: SharedControls,
    id: ControlId,
    version: crate::control_id::ApiVersion,
)
    ensures
        controls.slot(id) is Some ==> named_control(controls, id.serialized(version)) == Some(id),
        controls.slot(id) is None ==> named_control(controls, id.serialized(version)) is None,
{
    crate::control_id::serialized_is_read_back(id, version);
}

/// A request for a control that the radar does not have is a bad one. Any other request is carried out
/// where it can be used, and what the user is to find again later is remembered.
pub proof fn requests_are_decided(
    info: RadarInfo,
    control_id: Seq<char>,
    request: BareView,
    numbers: RequestNumbers,
    r: SetControl,
)
    requires
        decides(info, control_id, request, numbers, r),
    ensures
        named_control(info.controls, control_id) is None ==> {
            &&& r matches SetControl::Answered(answer)
            &&& answer.message@ == unknown_control(
                control_id,
                info.controls.ids_below(crate::control_id::CONTROL_COUNT as int),
            )
        },
        r is Answered ==> named_control(info.controls, control_id) is None || (r
            matches SetControl::Answered(answer) && answer.message@ == cannot_set(
            named_control(info.controls, control_id)->0,
        )),
        r matches SetControl::Answered(answer) ==> answer.status == 400,
        r matches SetControl::Accepted(_, _, save) ==> {
            &&& named_control(info.controls, control_id) matches Some(id)
            &&& save ==> id == ControlId::UserName || id == ControlId::GuardZone1 || id
                == ControlId::GuardZone2
            &&& !save ==> id != ControlId::UserName && id != ControlId::GuardZone1 && id
                != ControlId::GuardZone2
        },
        r matches SetControl::Accepted(_, action, _) ==> answers(
            info.controls,
            named_control(info.controls, control_id)->0,
            request,
            numbers,
            Ok(action),
        ),
{
}

/// A host and a port are told apart by the last colon. Without a host it is the local one.
pub proof fn host_stands_before_the_port(host: Seq<char>, port: u16)
    ensures
        host_and_port(Some(host), port as int) == host + seq![':'] + decimal(port as nat),
        host_and_port(None, port as int) == host_and_port(Some("localhost"@), port as int),
        crate::text::after_last(host_and_port(Some(host), port as int), ':') == host.len() + 1,
{
    assert(host_and_port(Some(host), port as int) =~= host + seq![':'] + decimal(port as nat));
    crate::text::decimal_is_read_back(port as nat);
    colon_is_last(host, decimal(port as nat), decimal(port as nat).len() as int);
}

proof fn colon_is_last(host: Seq<char>, digits: Seq<char>, n: int)
    requires
        0 <= n <= digits.len(),
        forall|i: int| 0 <= i < digits.len() ==> crate::text::is_digit(#[trigger] digits[i]),
    ensures
        crate::text::after_last((host + seq![':'] + digits).take(host.len() + 1 + n), ':')
            == host.len() + 1,
        n == digits.len() ==> (host + seq![':'] + digits).take(host.len() + 1 + n) == host
            + seq![':'] + digits,
    decreases n,
{
    let s = (host + seq![':'] + digits).take(host.len() + 1 + n);
    if n > 0 {
        colon_is_last(host, digits, n - 1);
        assert(s.last() == digits[n - 1]);
        assert(s.drop_last() =~= (host + seq![':'] + digits).take(host.len() + n));
    } else {
        assert(s.last() == ':');
    }
    if n == digits.len() {
        assert(s =~= host + seq![':'] + digits);
    }
}

/// A radar is listed under the name that its user gave it, with its model, its brand and its address.
/// Radars with different keys send their spokes from different places.
pub proof fn radars_are_told_apart(
    api: RadarApi,
    other: RadarApi,
    info: RadarInfo,
    second: RadarInfo,
    host: Seq<char>,
)
    requires
        tells_of_radar(api, info, host),
        tells_of_radar(other, second, host),
    ensures
        Some(api.name@) == info.controls.text_of(ControlId::UserName),
        opt_text(api.model) == info.controls.text_of(ControlId::ModelName),
        api.brand@ == info.brand.spec_name(),
        api.radar_ip_address@ == ipv4_text(info.addr.ip as int),
        info.key@ != second.key@ ==> api.spoke_data_url@ != other.spoke_data_url@,
        info.key@ == second.key@ ==> api.spoke_data_url@ == other.spoke_data_url@,
        api.stream_url@ == other.stream_url@,
{
    let front = "ws://"@ + host + "/signalk/v2/api/vessels/self/radars/"@;
    let end = "/spokes"@;
    let a = front + info.key@ + end;
    let b = front + second.key@ + end;
    if a == b {
        assert(a.len() == b.len());
        assert(a.subrange(front.len() as int, (front.len() + info.key@.len()) as int) =~= info.key@);
        assert(b.subrange(front.len() as int, (front.len() + second.key@.len()) as int)
            =~= second.key@);
    }
}

/// The first version of the interface knows a radar by its number: the spokes and the controls of a radar
/// are found at places that end in it.
pub proof fn numbered_radars_are_found(api: RadarApiV1, info: RadarInfo, host: Seq<char>)
    requires
        tells_of_numbered_radar(api, info, host),
    ensures
        api.id@ == "radar-"@ + decimal(info.id as nat),
        crate::radar::has_suffix(api.stream_url@, "/spokes/"@ + api.id@),
        crate::radar::has_suffix(api.control_url@, "/control/"@ + api.id@),
        Some(api.name@) == info.controls.text_of(ControlId::UserName),
        api.spokes_per_revolution == info.spokes_per_revolution,
        api.max_spoke_len == info.max_spoke_len,
{
    reveal_strlit("/spokes/");
    reveal_strlit("/control/");
    reveal_strlit("/v1/api/spokes/");
    reveal_strlit("/v1/api/control/");
    let stream = "/spokes/"@ + api.id@;
    let control = "/control/"@ + api.id@;
    let s = api.stream_url@;
    let c = api.control_url@;
    assert(s.skip(s.len() - stream.len()) =~= stream);
    assert(c.skip(c.len() - control.len()) =~= control);
}

} // verus!
