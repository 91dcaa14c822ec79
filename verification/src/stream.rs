//! The streams of control values to clients.
use vstd::prelude::*;

use crate::control_id::{ApiVersion, ControlId};
use crate::control_value::{path_target, ControlValue, RadarControlValue};
use crate::error::RadarError;
use crate::metadata::{are_of, DeltaMeta, SentMetadata};
use crate::radar::SharedRadars;
use crate::request::{answers, needs_persistence, ClientAction, RequestNumbers};
use crate::subscription::{any_leading, leads_to, ActiveSubscriptions, PathSubscribe, Subscribe};
use crate::value::{opt_text, opt_value, Value};

verus! {

/// The value under a path in a message to a client.
#[derive(Debug)]
pub struct DeltaValue {
    pub path: String,
    pub value: Option<Value>,
}

/// A message to a client with values of the controls of one radar.
#[derive(Debug)]
pub struct SignalKDelta {
    pub context: &'static str,
    pub label: String,
    pub src: &'static str,
    pub source_type: &'static str,
    pub values: Vec<DeltaValue>,
}

impl SignalKDelta {
    /// Makes a message of values. All of them are values of the radar of the first one.
    pub fn from(radar_control_values: Vec<RadarControlValue>) -> (r: Option<SignalKDelta>)
        requires
            radar_control_values@.len() > 0 ==> radar_control_values@[0].radar_id is Some,
        ensures
            r is None <==> radar_control_values@.len() == 0,
            r matches Some(delta) ==> {
                &&& delta.context@ == "self"@
                &&& Some(delta.label@) == opt_text(radar_control_values@[0].radar_id)
                &&& delta.src@ == "mayara"@
                &&& delta.source_type@ == "radar"@
                &&& delta.values@.len() == radar_control_values@.len()
                &&& forall|i: int|
                    0 <= i < delta.values@.len() ==> (#[trigger] delta.values@[i]).path@
                        == radar_control_values@[i].path@ && opt_value(delta.values@[i].value)
                        == opt_value(radar_control_values@[i].value)
            },
    {
        if radar_control_values.len() == 0 {
            return None;
        }
        let label = match &radar_control_values[0].radar_id {
            Some(id) => id.clone(),
            None => String::new(),
        };
        let mut values: Vec<DeltaValue> = Vec::with_capacity(radar_control_values.len());
        let mut i: usize = 0;
        while i < radar_control_values.len()
            invariant
                i <= radar_control_values.len(),
                values@.len() == i,
                forall|j: int|
                    0 <= j < i ==> (#[trigger] values@[j]).path@ == radar_control_values@[j].path@
                        && opt_value(values@[j].value) == opt_value(
                        radar_control_values@[j].value,
                    ),
            decreases radar_control_values.len() - i,
        {
            let rcv = &radar_control_values[i];
            values.push(
                DeltaValue {
                    path: rcv.path.clone(),
                    value: crate::value::clone_opt_value(&rcv.value),
                },
            );
            i = i + 1;
        }
        Some(
            SignalKDelta {
                context: "self",
                label,
                src: "mayara",
                source_type: "radar",
                values,
            },
        )
    }
}

/// The radar and the control of a value that the server made itself.
pub open spec fn is_internal(rcv: RadarControlValue) -> bool {
    rcv.radar_id is Some && rcv.control_id is Some
}

/// The subscriptions while a list of values is looked at, and which of the values are sent.
pub open spec fn is_retaining(
    states: Seq<ActiveSubscriptions>,
    kept: Seq<bool>,
    rcvs: Seq<RadarControlValue>,
    now: u64,
) -> bool {
    &&& states.len() == rcvs.len() + 1
    &&& kept.len() == rcvs.len()
    &&& forall|i: int|
        0 <= i < rcvs.len() ==> {
            let radar = (#[trigger] rcvs[i]).radar_id->0@;
            let id = rcvs[i].control_id->0;
            &&& kept[i] == states[i].sends(radar, id, true, now as int)
            &&& states[i].looked_at(&states[i + 1], radar, id, true, now)
        }
}

/// The values that are kept, in their order.
pub open spec fn kept_values(rcvs: Seq<RadarControlValue>, kept: Seq<bool>, n: int) -> Seq<
    RadarControlValue,
>
    decreases n,
{
    if n <= 0 {
        Seq::empty()
    } else if kept[n - 1] {
        kept_values(rcvs, kept, n - 1).push(rcvs[n - 1])
    } else {
        kept_values(rcvs, kept, n - 1)
    }
}

/// Picks the values that are sent to a client when all values are looked at.
pub fn retain_subscribed(
    subscriptions: &mut ActiveSubscriptions,
    rcvs: Vec<RadarControlValue>,
    now: u64,
) -> (r: Vec<RadarControlValue>)
    requires
        old(subscriptions).well_formed(),
        forall|i: int| 0 <= i < rcvs@.len() ==> is_internal(#[trigger] rcvs@[i]),
    ensures
        final(subscriptions).well_formed(),
        exists|states: Seq<ActiveSubscriptions>, kept: Seq<bool>|
            {
                &&& #[trigger] is_retaining(states, kept, rcvs@, now)
                &&& states[0] == *old(subscriptions)
                &&& states.last() == *final(subscriptions)
                &&& r@ == kept_values(rcvs@, kept, rcvs@.len() as int)
            },
{
    let mut rest = rcvs;
    let mut r: Vec<RadarControlValue> = Vec::new();
    let ghost all = rcvs@;
    let ghost mut states: Seq<ActiveSubscriptions> = seq![*subscriptions];
    let ghost mut kept: Seq<bool> = Seq::empty();
    let mut i: usize = 0;
    let len: usize = rest.len();
    assert(rest@ =~= all.skip(0));
    while i < len
        invariant
            i <= len,
            len == all.len(),
            rest@ == all.skip(i as int),
            subscriptions.well_formed(),
            forall|j: int| 0 <= j < all.len() ==> is_internal(#[trigger] all[j]),
            is_retaining(states, kept, all.take(i as int), now),
            states[0] == *old(subscriptions),
            states.last() == *subscriptions,
            r@ == kept_values(all, kept, i as int),
        decreases len - i,
    {
        let rcv = rest.remove(0);
        assert(rcv == all[i as int]);
        assert(is_internal(all[i as int]));
        let sent = match (&rcv.radar_id, rcv.control_id) {
            (Some(radar), Some(id)) => subscriptions.is_subscribed(radar.as_str(), id, true, now),
            _ => false,
        };
        let ghost before_kept = kept;
        proof {
            let old_states = states;
            states = states.push(*subscriptions);
            kept = kept.push(sent);
            assert(is_retaining(states, kept, all.take(i + 1), now)) by {
                let some = all.take(i + 1);
                assert forall|j: int| 0 <= j < some.len() implies {
                    let radar = (#[trigger] some[j]).radar_id->0@;
                    let id = some[j].control_id->0;
                    &&& kept[j] == states[j].sends(radar, id, true, now as int)
                    &&& states[j].looked_at(&states[j + 1], radar, id, true, now)
                } by {
                    if j < i {
                        assert(all.take(i as int)[j] == some[j]);
                        assert(states[j] == old_states[j] && states[j + 1] == old_states[j + 1]);
                        assert(kept[j] == before_kept[j]);
                    } else {
                        assert(states[j] == old_states.last());
                    }
                }
            }
            same_kept(all, before_kept, kept, i as int);
        }
        if sent {
            r.push(rcv);
        }
        i = i + 1;
        assert(rest@ =~= all.skip(i as int));
    }
    assert(all.take(i as int) =~= all);
    r
}

proof fn same_kept(rcvs: Seq<RadarControlValue>, a: Seq<bool>, b: Seq<bool>, n: int)
    requires
        n <= a.len(),
        n <= b.len(),
        forall|i: int| 0 <= i < n ==> a[i] == b[i],
    ensures
        kept_values(rcvs, a, n) == kept_values(rcvs, b, n),
    decreases n,
{
    if n > 0 {
        same_kept(rcvs, a, b, n - 1);
    }
}

/// What became of a request to change a control.
#[derive(Debug)]
pub struct ControlRequest {
    /// The place of the radar in the registry.
    pub radar: usize,
    /// What has to be done.
    pub action: ClientAction,
    /// Whether what is remembered of the radar has to be brought up to date.
    pub save: bool,
}

/// Handles a request to change the control that a path names.
pub fn handle_control_request(
    radars: &SharedRadars,
    rcv: RadarControlValue,
    numbers: &RequestNumbers,
) -> (r: Result<ControlRequest, RadarError>)
    requires
        radars.well_formed(),
    ensures
        match path_target(rcv.path@) {
            None => r matches Err(RadarError::CannotParseControlId(path)) && path@ == rcv.path@,
            Some((radar, id)) => if radars.has(radar) {
                match r {
                    Ok(request) => {
                        &&& request.radar < radars.info@.len()
                        &&& radars.info@[request.radar as int].key@ == radar
                        &&& request.save == (id == ControlId::GuardZone1 || id
                            == ControlId::GuardZone2 || id == ControlId::UserName)
                        &&& answers(
                            radars.info@[request.radar as int].controls,
                            id,
                            rcv.bare(),
                            *numbers,
                            Ok(request.action),
                        )
                    },
                    Err(e) => exists|i: int|
                        0 <= i < radars.info@.len() && (#[trigger] radars.info@[i]).key@ == radar
                            && answers(
                            radars.info@[i].controls,
                            id,
                            rcv.bare(),
                            *numbers,
                            Err(e),
                        ),
                }
            } else {
                r matches Err(RadarError::NoSuchRadar(e)) && e@ == radar
            },
        },
{
    let mut rcv = rcv;
    let path = rcv.path.clone();
    match rcv.parse_path() {
        Some(radar_id) => match radars.find(radar_id.as_str()) {
            Some(at) => {
                assert(radars.info@[at as int].well_formed());
                let cv = rcv.into_control_value();
                let id = cv.id;
                match radars.info[at].controls.process_client_request(cv, numbers) {
                    Ok(action) => Ok(
                        ControlRequest { radar: at, action, save: needs_persistence(id) },
                    ),
                    Err(e) => {
                        assert(radars.info@[at as int].key@ == radar_id@);
                        Err(e)
                    },
                }
            },
            None => Err(RadarError::NoSuchRadar(radar_id)),
        },
        None => Err(RadarError::CannotParseControlId(path)),
    }
}

/// What happens on a stream.
#[derive(Debug)]
pub enum StreamEvent {
    /// The server is shut down.
    Shutdown,
    /// An answer that is meant for this client alone.
    Reply(ControlValue),
    /// No answers can come any more.
    ReplyClosed,
    /// A control changed.
    Changed(RadarControlValue),
    /// No changes can come any more.
    ChangesClosed,
    /// The client subscribes to paths.
    Subscription(Vec<PathSubscribe>),
    /// The client takes back subscriptions.
    Desubscription(Vec<PathSubscribe>),
    /// The client asks for a change.
    Request(RadarControlValue),
    /// The client sent what means nothing.
    Noise,
    /// The client cannot be read from. It went away without a word, or something else is wrong.
    ReadFailed { reset: bool },
    /// The client closed the stream.
    Closed,
    /// It is time to look at all values.
    Timeout,
}

/// What is done about it.
#[derive(Debug)]
pub enum StreamAction {
    /// Nothing.
    Wait,
    /// Send an answer to the client.
    SendReply(ControlValue),
    /// Send a change to the client, after the descriptions that go along with it.
    SendChange(RadarControlValue, Vec<DeltaMeta>),
    /// Send descriptions of controls to the client.
    SendMetadata(Vec<DeltaMeta>),
    /// Look at all values, and send those that the client is subscribed to.
    SendSubscribed,
    /// Handle the request.
    Handle(RadarControlValue),
    /// End the stream.
    Finish,
    /// End the stream, as something went wrong.
    Fail(RadarError),
}

/// What is done when something happens on a stream, and what becomes of the subscriptions and of the
/// descriptions that the client got.
pub open spec fn is_step(
    before: ActiveSubscriptions,
    after: ActiveSubscriptions,
    described_before: SentMetadata,
    described: SentMetadata,
    event: StreamEvent,
    now: u64,
    action: StreamAction,
) -> bool {
    &&& match event {
        StreamEvent::Shutdown => action is Finish,
        StreamEvent::Reply(cv) => action matches StreamAction::SendReply(sent) && sent == cv,
        StreamEvent::ReplyClosed => action matches StreamAction::Fail(e) && e is NotConnected,
        StreamEvent::Changed(rcv) => {
            let radar = rcv.radar_id->0@;
            let id = rcv.control_id->0;
            let sends = before.sends(radar, id, false, now as int);
            let due = described_before.due_with(radar, id, sends);
            &&& before.looked_at(&after, radar, id, false, now)
            &&& described_before.sent_also(&described, radar, due)
            &&& if sends {
                action matches StreamAction::SendChange(sent, meta) && sent == rcv && are_of(
                    meta@,
                    radar,
                    due,
                )
            } else if due.len() > 0 {
                action matches StreamAction::SendMetadata(meta) && are_of(meta@, radar, due)
            } else {
                action is Wait
            }
        },
        StreamEvent::ChangesClosed => action is Finish,
        StreamEvent::Subscription(paths) => {
            &&& action is SendSubscribed
            &&& after.mode == Subscribe::Paths
            &&& forall|radar: Seq<char>, id: ControlId|
                #[trigger] after.entry(radar, id)
                    == crate::subscription::last_leading(
                    before.entry(radar, id),
                    paths@,
                    paths@.len() as int,
                    radar,
                    id,
                )
            &&& after.timeout == crate::subscription::shortest_period(
                before.timeout as int,
                paths@,
                paths@.len() as int,
            )
        },
        StreamEvent::Desubscription(paths) => {
            &&& action is Wait
            &&& after.mode == Subscribe::Paths
            &&& after.timeout == before.timeout
            &&& forall|radar: Seq<char>, id: ControlId|
                #[trigger] after.entry(radar, id)
                    == if crate::subscription::any_leading(
                    paths@,
                    paths@.len() as int,
                    radar,
                    id,
                ) {
                    None
                } else {
                    before.entry(radar, id)
                }
        },
        StreamEvent::Request(rcv) => action matches StreamAction::Handle(r) && r == rcv,
        StreamEvent::Noise => action is Wait,
        StreamEvent::ReadFailed { reset } => if reset {
            action is Finish
        } else {
            action matches StreamAction::Fail(e) && e is Io
        },
        StreamEvent::Closed => action is Finish,
        StreamEvent::Timeout => action is SendSubscribed,
    }
    &&& !(event is Changed || event is Subscription || event is Desubscription) ==> after == before
    &&& !(event is Changed) ==> described == described_before
}

/// One step of a stream: what is done when something happens.
pub fn ws_signalk_delta(
    subscriptions: &mut ActiveSubscriptions,
    metadata: &mut SentMetadata,
    event: StreamEvent,
    now: u64,
) -> (action: StreamAction)
    requires
        old(subscriptions).well_formed(),
        event matches StreamEvent::Changed(rcv) ==> is_internal(rcv),
    ensures
        final(subscriptions).well_formed(),
        is_step(
            *old(subscriptions),
            *final(subscriptions),
            *old(metadata),
            *final(metadata),
            event,
            now,
            action,
        ),
{
    match event {
        StreamEvent::Shutdown => StreamAction::Finish,
        StreamEvent::Reply(cv) => StreamAction::SendReply(cv),
        StreamEvent::ReplyClosed => StreamAction::Fail(RadarError::NotConnected),
        StreamEvent::Changed(rcv) => {
            let (sends, meta) = match (&rcv.radar_id, rcv.control_id) {
                (Some(radar), Some(id)) => {
                    let sends = subscriptions.is_subscribed(radar.as_str(), id, false, now);
                    (sends, metadata.add_meta_from_update(radar.as_str(), id, sends))
                },
                _ => (false, Vec::new()),
            };
            if sends {
                StreamAction::SendChange(rcv, meta)
            } else if meta.len() > 0 {
                StreamAction::SendMetadata(meta)
            } else {
                StreamAction::Wait
            }
        },
        StreamEvent::ChangesClosed => StreamAction::Finish,
        StreamEvent::Subscription(paths) => {
            subscriptions.subscribe(paths);
            StreamAction::SendSubscribed
        },
        StreamEvent::Desubscription(paths) => {
            subscriptions.desubscribe(paths);
            StreamAction::Wait
        },
        StreamEvent::Request(rcv) => StreamAction::Handle(rcv),
        StreamEvent::Noise => StreamAction::Wait,
        StreamEvent::ReadFailed { reset } => {
            if reset {
                StreamAction::Finish
            } else {
                StreamAction::Fail(RadarError::Io)
            }
        },
        StreamEvent::Closed => StreamAction::Finish,
        StreamEvent::Timeout => StreamAction::SendSubscribed,
    }
}

/// Whether the values that are known are sent when a stream starts.
pub fn sends_cached_values(subscribe: Subscribe, send_cached_values: bool) -> (r: bool)
    ensures
        r == (send_cached_values && subscribe == Subscribe::All),
{
    send_cached_values && subscribe == Subscribe::All
}

/// What happens on the control stream of the first version of the interface.
#[derive(Debug)]
pub enum ControlEvent {
    Shutdown,
    /// An answer that is meant for this client alone, or a change of a control.
    Value(ControlValue),
    /// No values can come any more.
    ValuesClosed,
    /// The client asks for a change.
    Request(ControlValue),
    /// The client sent what means nothing.
    Noise,
    /// The client cannot be read from, or closed the stream.
    Closed,
}

/// What is done about it.
#[derive(Debug)]
pub enum ControlAction {
    Wait,
    /// Send the value to the client, written as the version of the interface asks for.
    Send(ControlValue, ApiVersion),
    /// Handle the request.
    Handle(ControlValue),
    Finish,
}

/// What is done when something happens on a control stream.
pub open spec fn control_step(event: ControlEvent, api_version: ApiVersion) -> ControlAction {
    match event {
        ControlEvent::Shutdown => ControlAction::Finish,
        ControlEvent::Value(cv) => ControlAction::Send(cv, api_version),
        ControlEvent::ValuesClosed => ControlAction::Finish,
        ControlEvent::Request(cv) => ControlAction::Handle(cv),
        ControlEvent::Noise => ControlAction::Wait,
        ControlEvent::Closed => ControlAction::Finish,
    }
}

/// One step of a control stream: what is done when something happens.
pub fn control_stream(event: ControlEvent, api_version: ApiVersion) -> (action: ControlAction)
    ensures
        action == control_step(event, api_version),
{
    match event {
        ControlEvent::Shutdown => ControlAction::Finish,
        ControlEvent::Value(cv) => ControlAction::Send(cv, api_version),
        ControlEvent::ValuesClosed => ControlAction::Finish,
        ControlEvent::Request(cv) => ControlAction::Handle(cv),
        ControlEvent::Noise => ControlAction::Wait,
        ControlEvent::Closed => ControlAction::Finish,
    }
}

/// A stream ends when the server or the client ends it, and when no changes can come any more. It fails
/// when no answers can come any more, and when the client cannot be read from and did not just go away.
pub proof fn streams_end_for_a_reason(
    before: ActiveSubscriptions,
    after: ActiveSubscriptions,
    described_before: SentMetadata,
    described: SentMetadata,
    event: StreamEvent,
    now: u64,
    action: StreamAction,
)
    requires
        is_step(before, after, described_before, described, event, now, action),
    ensures
        action is Finish <==> event is Shutdown || event is Closed || event is ChangesClosed
            || event == (StreamEvent::ReadFailed { reset: true }),
        action is Fail <==> event is ReplyClosed || event == (StreamEvent::ReadFailed {
            reset: false,
        }),
        action is SendSubscribed <==> event is Timeout || event is Subscription,
        event is Noise ==> action is Wait,
{
}

/// What a client asks for is handled as it was asked for, and what is meant for this client alone
/// reaches it as it is. Neither has to do with the subscriptions.
pub proof fn requests_and_replies_are_passed_on(
    before: ActiveSubscriptions,
    after: ActiveSubscriptions,
    described_before: SentMetadata,
    described: SentMetadata,
    event: StreamEvent,
    now: u64,
    action: StreamAction,
)
    requires
        is_step(before, after, described_before, described, event, now, action),
    ensures
        event matches StreamEvent::Request(asked) ==> action == StreamAction::Handle(asked),
        event matches StreamEvent::Reply(told) ==> action == StreamAction::SendReply(told),
        action matches StreamAction::Handle(asked) ==> event == StreamEvent::Request(asked),
        action matches StreamAction::SendReply(told) ==> event == StreamEvent::Reply(told),
        event is Request || event is Reply || event is Noise || event is Timeout ==> after == before
            && described == described_before,
{
}

/// A change is sent where the client is subscribed to it, as it is, and never to a client that did not
/// get the description of the control.
pub proof fn subscribed_changes_are_sent(
    before: ActiveSubscriptions,
    after: ActiveSubscriptions,
    described_before: SentMetadata,
    described: SentMetadata,
    rcv: RadarControlValue,
    now: u64,
    action: StreamAction,
)
    requires
        is_internal(rcv),
        is_step(
            before,
            after,
            described_before,
            described,
            StreamEvent::Changed(rcv),
            now,
            action,
        ),
    ensures
        action is SendChange <==> before.sends(
            rcv.radar_id->0@,
            rcv.control_id->0,
            false,
            now as int,
        ),
        action matches StreamAction::SendChange(sent, _) ==> sent == rcv && described.has(
            rcv.radar_id->0@,
            rcv.control_id->0,
        ),
        before.mode == Subscribe::Nothing ==> !(action is SendChange),
        before.mode == Subscribe::All ==> action is SendChange,
        rcv.control_id == Some(ControlId::RangeUnits) ==> !(action is Wait),
{
    if action is SendChange {
        crate::metadata::no_change_without_metadata(
            described_before,
            described,
            rcv.radar_id->0@,
            rcv.control_id->0,
        );
    }
}

/// A client that takes back a subscription does not get the value any more, unless it subscribed to it
/// for all radars as well. Other subscriptions stay.
pub proof fn desubscribed_values_are_not_sent(
    before: ActiveSubscriptions,
    after: ActiveSubscriptions,
    described_before: SentMetadata,
    described: SentMetadata,
    paths: Vec<PathSubscribe>,
    k: int,
    radar: Seq<char>,
    id: ControlId,
    now: u64,
    action: StreamAction,
)
    requires
        is_step(
            before,
            after,
            described_before,
            described,
            StreamEvent::Desubscription(paths),
            now,
            action,
        ),
    ensures
        0 <= k < paths@.len() && leads_to(paths@[k].path@, radar, id) ==> after.entry(
            radar,
            id,
        ) is None,
        (forall|j: int|
            0 <= j < paths@.len() ==> !leads_to((#[trigger] paths@[j]).path@, radar, id))
            ==> after.entry(radar, id) == before.entry(radar, id),
        after.mode == Subscribe::Paths,
        action is Wait,
{
    leading_is_found(paths@, paths@.len() as int, k, radar, id);
}

proof fn leading_is_found(
    paths: Seq<PathSubscribe>,
    n: int,
    k: int,
    radar: Seq<char>,
    id: ControlId,
)
    requires
        n <= paths.len(),
    ensures
        0 <= k < n && leads_to(paths[k].path@, radar, id) ==> any_leading(paths, n, radar, id),
        (forall|j: int| 0 <= j < n ==> !leads_to((#[trigger] paths[j]).path@, radar, id))
            ==> !any_leading(paths, n, radar, id),
    decreases n,
{
    if n > 0 {
        leading_is_found(paths, n - 1, k, radar, id);
    }
}

/// A client that subscribes to a path gets the values that the path leads to, beginning at once, as
/// often as it asked for.
pub proof fn subscribed_paths_are_recorded(
    before: ActiveSubscriptions,
    after: ActiveSubscriptions,
    described_before: SentMetadata,
    described: SentMetadata,
    paths: Vec<PathSubscribe>,
    k: int,
    radar: Seq<char>,
    id: ControlId,
    now: u64,
    action: StreamAction,
)
    requires
        is_step(
            before,
            after,
            described_before,
            described,
            StreamEvent::Subscription(paths),
            now,
            action,
        ),
        0 <= k < paths@.len(),
        leads_to(paths@[k].path@, radar, id),
        forall|j: int|
            k < j < paths@.len() ==> !leads_to((#[trigger] paths@[j]).path@, radar, id),
    ensures
        after.entry(radar, id) == Some(paths@[k]@),
        after.mode == Subscribe::Paths,
        action is SendSubscribed,
{
    crate::subscription::last_subscription_counts(before.entry(radar, id), paths@, k, radar, id);
}

/// The values that are kept are some of all values, in the same order: those that are marked.
pub proof fn kept_values_are_subscribed_values(
    rcvs: Seq<RadarControlValue>,
    kept: Seq<bool>,
    n: int,
    i: int,
)
    requires
        0 <= i < n <= rcvs.len(),
        kept.len() == rcvs.len(),
        kept[i],
    ensures
        kept_values(rcvs, kept, n).contains(rcvs[i]),
        kept_values(rcvs, kept, n).len() <= n,
        (forall|j: int| 0 <= j < n ==> kept[j]) ==> kept_values(rcvs, kept, n) == rcvs.take(n),
    decreases n,
{
    kept_are_some(rcvs, kept, n);
    let all = kept_values(rcvs, kept, n);
    let less = kept_values(rcvs, kept, n - 1);
    if i == n - 1 {
        assert(all[all.len() - 1] == rcvs[i]);
    } else {
        kept_values_are_subscribed_values(rcvs, kept, n - 1, i);
        let at = choose|at: int| 0 <= at < less.len() && less[at] == rcvs[i];
        assert(all[at] == rcvs[i]);
    }
}

proof fn kept_are_some(rcvs: Seq<RadarControlValue>, kept: Seq<bool>, n: int)
    requires
        0 <= n <= rcvs.len(),
        kept.len() == rcvs.len(),
    ensures
        kept_values(rcvs, kept, n).len() <= n,
        (forall|j: int| 0 <= j < n ==> kept[j]) ==> kept_values(rcvs, kept, n) == rcvs.take(n),
    decreases n,
{
    if n > 0 {
        kept_are_some(rcvs, kept, n - 1);
        assert(rcvs.take(n) =~= rcvs.take(n - 1).push(rcvs[n - 1]));
    } else {
        assert(kept_values(rcvs, kept, n) =~= rcvs.take(n));
    }
}

/// A control stream ends when the server or the client ends it, or no values can come any more. Until
/// then values are sent as they are, in the version of the interface that the client uses, and requests
/// are handled as they were made.
pub proof fn control_streams_pass_on_values(event: ControlEvent, api_version: ApiVersion)
    ensures
        control_step(event, api_version) is Finish <==> event is Shutdown || event is ValuesClosed
            || event is Closed,
        event matches ControlEvent::Value(told) ==> control_step(event, api_version)
            == ControlAction::Send(told, api_version),
        event matches ControlEvent::Request(asked) ==> control_step(event, api_version)
            == ControlAction::Handle(asked),
        event is Noise ==> control_step(event, api_version) is Wait,
{
}

/// Of a list of values, a client gets those that it is subscribed to at the time. A client that is
/// subscribed to everything gets all of them, and one that is subscribed to nothing gets none.
pub proof fn subscribed_values_are_kept(
    states: Seq<ActiveSubscriptions>,
    kept: Seq<bool>,
    rcvs: Seq<RadarControlValue>,
    now: u64,
    i: int,
)
    requires
        is_retaining(states, kept, rcvs, now),
        0 <= i < rcvs.len(),
    ensures
        states[i].mode == states[0].mode,
        kept[i] == states[i].sends(rcvs[i].radar_id->0@, rcvs[i].control_id->0, true, now as int),
        states[0].mode == Subscribe::All ==> kept[i],
        states[0].mode == Subscribe::Nothing ==> !kept[i],
    decreases i,
{
    if i > 0 {
        subscribed_values_are_kept(states, kept, rcvs, now, i - 1);
        let before = rcvs[i - 1];
        assert(states[i - 1].looked_at(
            &states[i - 1 + 1],
            before.radar_id->0@,
            before.control_id->0,
            true,
            now,
        ));
    }
}

} // verus!
