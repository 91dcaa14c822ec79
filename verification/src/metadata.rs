//! The descriptions of controls that Signal K clients get before the values.
use vstd::prelude::*;

use crate::control_id::{ControlId, CONTROL_COUNT};
use crate::control_value::control_path;
use crate::controls::SharedControls;
use crate::radar::SharedRadars;
use crate::text::same_text;

verus! {

/// A description of a control that is sent to a client.
#[derive(Debug)]
pub struct DeltaMeta {
    pub radar_id: String,
    pub control_id: ControlId,
    pub path: String,
}

impl DeltaMeta {
    /// It is the description of a control of a radar.
    pub open spec fn is_of(&self, radar: Seq<char>, id: ControlId) -> bool {
        &&& self.radar_id@ == radar
        &&& self.control_id == id
        &&& self.path@ == control_path(radar, id)
    }

    /// The description of a control of a radar.
    pub fn new(radar: &str, id: ControlId) -> (m: DeltaMeta)
        ensures
            m.is_of(radar@, id),
    {
        let mut path: String = String::from_str("radars.");
        path.append(radar);
        path.append(".controls.");
        path.append(id.to_str());
        DeltaMeta { radar_id: radar.to_owned(), control_id: id, path }
    }
}

/// The descriptions are those of given controls of a radar, in that order.
pub open spec fn are_of(meta: Seq<DeltaMeta>, radar: Seq<char>, ids: Seq<ControlId>) -> bool {
    &&& meta.len() == ids.len()
    &&& forall|i: int| 0 <= i < meta.len() ==> (#[trigger] meta[i]).is_of(radar, ids[i])
}

/// The controls whose descriptions a client got.
#[derive(Debug)]
pub struct SentMetadata {
    pub sent: Vec<(String, ControlId)>,
}

impl SentMetadata {
    /// The client got the description of a control of a radar.
    pub open spec fn has(&self, radar: Seq<char>, id: ControlId) -> bool {
        exists|i: int|
            0 <= i < self.sent@.len() && (#[trigger] self.sent@[i]).0@ == radar && self.sent@[i].1
                == id
    }

    /// Those of some controls of a radar whose descriptions the client did not get yet.
    pub open spec fn missing(&self, radar: Seq<char>, ids: Seq<ControlId>) -> Seq<ControlId>
        decreases ids.len(),
    {
        if ids.len() == 0 {
            Seq::empty()
        } else if self.has(radar, ids.last()) {
            self.missing(radar, ids.drop_last())
        } else {
            self.missing(radar, ids.drop_last()).push(ids.last())
        }
    }

    /// The client also got the descriptions of some controls of a radar.
    pub open spec fn sent_also(
        &self,
        after: &SentMetadata,
        radar: Seq<char>,
        ids: Seq<ControlId>,
    ) -> bool {
        forall|r: Seq<char>, i: ControlId| #[trigger]
            after.has(r, i) == (self.has(r, i) || (r == radar && ids.contains(i)))
    }

    /// The client got nothing yet.
    pub fn new() -> (s: SentMetadata)
        ensures
            forall|r: Seq<char>, i: ControlId| !#[trigger] s.has(r, i),
    {
        SentMetadata { sent: Vec::new() }
    }

    /// Whether the client got the description of a control of a radar.
    pub fn contains(&self, radar: &str, id: ControlId) -> (r: bool)
        ensures
            r == self.has(radar@, id),
    {
        let mut i: usize = 0;
        while i < self.sent.len()
            invariant
                i <= self.sent.len(),
                forall|j: int|
                    0 <= j < i ==> !((#[trigger] self.sent@[j]).0@ == radar@ && self.sent@[j].1
                        == id),
            decreases self.sent.len() - i,
        {
            if self.sent[i].1 == id && same_text(self.sent[i].0.as_str(), radar) {
                return true;
            }
            i = i + 1;
        }
        false
    }

    fn list_missing(&self, radar: &str, ids: &Vec<ControlId>) -> (r: Vec<ControlId>)
        ensures
            r@ == self.missing(radar@, ids@),
    {
        let mut r: Vec<ControlId> = Vec::new();
        let mut i: usize = 0;
        while i < ids.len()
            invariant
                i <= ids.len(),
                r@ == self.missing(radar@, ids@.take(i as int)),
            decreases ids.len() - i,
        {
            proof {
                assert(ids@.take(i + 1).drop_last() =~= ids@.take(i as int));
                assert(ids@.take(i + 1).last() == ids@[i as int]);
            }
            if !self.contains(radar, ids[i]) {
                r.push(ids[i]);
            }
            i = i + 1;
        }
        assert(ids@.take(i as int) =~= ids@);
        r
    }

    /// Records that the descriptions of some controls of a radar are sent, and makes them.
    pub fn send(&mut self, radar: &str, ids: &Vec<ControlId>) -> (meta: Vec<DeltaMeta>)
        ensures
            are_of(meta@, radar@, ids@),
            old(self).sent_also(final(self), radar@, ids@),
    {
        let mut meta: Vec<DeltaMeta> = Vec::with_capacity(ids.len());
        let ghost before = *self;
        let mut i: usize = 0;
        assert(before.sent_also(self, radar@, ids@.take(0)));
        while i < ids.len()
            invariant
                i <= ids.len(),
                are_of(meta@, radar@, ids@.take(i as int)),
                before.sent_also(self, radar@, ids@.take(i as int)),
            decreases ids.len() - i,
        {
            let id = ids[i];
            let ghost earlier = *self;
            if !self.contains(radar, id) {
                self.sent.push((radar.to_owned(), id));
                proof {
                    assert forall|r: Seq<char>, x: ControlId| #[trigger]
                        self.has(r, x) == (earlier.has(r, x) || (r == radar@ && x == id)) by {
                        if earlier.has(r, x) {
                            let j = choose|j: int|
                                0 <= j < earlier.sent@.len() && (#[trigger] earlier.sent@[j]).0@ == r
                                    && earlier.sent@[j].1 == x;
                            assert(self.sent@[j] == earlier.sent@[j]);
                        }
                        if r == radar@ && x == id {
                            assert(self.sent@[earlier.sent@.len() as int].0@ == r);
                        }
                        if self.has(r, x) {
                            let j = choose|j: int|
                                0 <= j < self.sent@.len() && (#[trigger] self.sent@[j]).0@ == r
                                    && self.sent@[j].1 == x;
                            if j < earlier.sent@.len() {
                                assert(earlier.sent@[j] == self.sent@[j]);
                            }
                        }
                    }
                }
            }
            meta.push(DeltaMeta::new(radar, id));
            proof {
                let now = ids@.take(i + 1);
                assert(now =~= ids@.take(i as int).push(id));
                assert forall|x: ControlId| #[trigger]
                    now.contains(x) == (ids@.take(i as int).contains(x) || x == id) by {
                    assert(now[i as int] == id);
                    if ids@.take(i as int).contains(x) {
                        let j = choose|j: int| 0 <= j < i && ids@.take(i as int)[j] == x;
                        assert(now[j] == x);
                    }
                }
                assert forall|r: Seq<char>, x: ControlId| #[trigger]
                    self.has(r, x) == (before.has(r, x) || (r == radar@ && now.contains(x))) by {
                    assert(earlier.has(r, x) == (before.has(r, x) || (r == radar@ && ids@.take(
                        i as int,
                    ).contains(x))));
                    assert(now.contains(x) == (ids@.take(i as int).contains(x) || x == id));
                }
            }
            i = i + 1;
        }
        assert(ids@.take(i as int) =~= ids@);
        meta
    }

    /// What the client still has to get of a radar: the descriptions of all controls that it did not
    /// get yet.
    pub open spec fn completes(
        &self,
        after: &SentMetadata,
        controls: SharedControls,
        meta: Seq<DeltaMeta>,
    ) -> bool {
        let radar = controls.radar_id@;
        let ids = self.missing(radar, controls.ids_below(CONTROL_COUNT as int));
        &&& are_of(meta, radar, ids)
        &&& self.sent_also(after, radar, ids)
    }

    /// Sends the descriptions of all controls of a radar that the client did not get yet.
    pub fn add_meta_for_radar(&mut self, controls: &SharedControls) -> (meta: Vec<DeltaMeta>)
        requires
            controls.well_formed(),
        ensures
            old(self).completes(final(self), *controls, meta@),
    {
        let ids = controls.get_control_keys();
        let missing = self.list_missing(controls.radar_id.as_str(), &ids);
        self.send(controls.radar_id.as_str(), &missing)
    }

    /// Sends the descriptions of all controls of all radars that can be used, as far as the client did
    /// not get them yet. The result has a list for each radar.
    pub fn add_meta_updates(&mut self, radars: &SharedRadars) -> (meta: Vec<Vec<DeltaMeta>>)
        requires
            radars.well_formed(),
        ensures
            exists|states: Seq<SentMetadata>|
                {
                    &&& #[trigger] are_completing(states, *radars, meta@)
                    &&& states[0] == *old(self)
                    &&& states.last() == *final(self)
                },
    {
        let mut meta: Vec<Vec<DeltaMeta>> = Vec::with_capacity(radars.info.len());
        let ghost mut states: Seq<SentMetadata> = seq![*self];
        let mut i: usize = 0;
        while i < radars.info.len()
            invariant
                i <= radars.info.len(),
                radars.well_formed(),
                meta@.len() == i,
                states.len() == i + 1,
                states[0] == *old(self),
                states[i as int] == *self,
                forall|k: int|
                    0 <= k < i ==> #[trigger] is_completing(
                        states[k],
                        states[k + 1],
                        *radars,
                        k,
                        meta@[k]@,
                    ),
            decreases radars.info.len() - i,
        {
            let ghost earlier = meta@;
            let ghost before = states;
            assert(radars.info@[i as int].well_formed());
            let list: Vec<DeltaMeta> = if radars.info[i].is_active() {
                self.add_meta_for_radar(&radars.info[i].controls)
            } else {
                Vec::new()
            };
            let ghost listed = list@;
            meta.push(list);
            proof {
                states = states.push(*self);
                assert(is_completing(before[i as int], *self, *radars, i as int, listed));
                assert forall|k: int| 0 <= k < i + 1 implies #[trigger] is_completing(
                    states[k],
                    states[k + 1],
                    *radars,
                    k,
                    meta@[k]@,
                ) by {
                    if k < i {
                        assert(is_completing(
                            before[k],
                            before[k + 1],
                            *radars,
                            k,
                            earlier[k]@,
                        ));
                    }
                }
            }
            i = i + 1;
        }
        assert(are_completing(states, *radars, meta@));
        meta
    }

    /// The controls whose descriptions go along with a change of a control: the control itself, where
    /// the change is sent and the client did not get its description yet, and the range control, whose
    /// values are other ones, where the unit system changed.
    pub open spec fn due_with(&self, radar: Seq<char>, id: ControlId, sends: bool) -> Seq<ControlId> {
        (if sends && !self.has(radar, id) {
            seq![id]
        } else {
            Seq::empty()
        }) + (if id == ControlId::RangeUnits {
            seq![ControlId::Range]
        } else {
            Seq::empty()
        })
    }

    /// Sends the descriptions that go along with a change of a control. `sends` tells whether the change
    /// is sent to the client.
    pub fn add_meta_from_update(&mut self, radar: &str, id: ControlId, sends: bool) -> (meta: Vec<
        DeltaMeta,
    >)
        ensures
            are_of(meta@, radar@, old(self).due_with(radar@, id, sends)),
            old(self).sent_also(final(self), radar@, old(self).due_with(radar@, id, sends)),
    {
        let mut ids: Vec<ControlId> = Vec::new();
        if sends && !self.contains(radar, id) {
            ids.push(id);
        }
        if id == ControlId::RangeUnits {
            ids.push(ControlId::Range);
        }
        assert(ids@ =~= self.due_with(radar@, id, sends));
        self.send(radar, &ids)
    }
}

/// What is sent of the radar in a place: the missing descriptions where it can be used, else nothing.
pub open spec fn is_completing(
    before: SentMetadata,
    after: SentMetadata,
    radars: SharedRadars,
    k: int,
    meta: Seq<DeltaMeta>,
) -> bool {
    if radars.info@[k].ranges.all@.len() > 0 {
        before.completes(&after, radars.info@[k].controls, meta)
    } else {
        meta.len() == 0 && after == before
    }
}

/// What is sent of each radar, one after the other.
pub open spec fn are_completing(
    states: Seq<SentMetadata>,
    radars: SharedRadars,
    meta: Seq<Vec<DeltaMeta>>,
) -> bool {
    &&& states.len() == radars.info@.len() + 1
    &&& meta.len() == radars.info@.len()
    &&& forall|k: int|
        0 <= k < meta.len() ==> #[trigger] is_completing(
            states[k],
            states[k + 1],
            radars,
            k,
            meta[k]@,
        )
}

proof fn missing_is(s: SentMetadata, radar: Seq<char>, ids: Seq<ControlId>, id: ControlId)
    ensures
        s.missing(radar, ids).contains(id) == (ids.contains(id) && !s.has(radar, id)),
    decreases ids.len(),
{
    if ids.len() > 0 {
        let rest = ids.drop_last();
        missing_is(s, radar, rest, id);
        assert(ids =~= rest.push(ids.last()));
        assert(ids.contains(id) == (rest.contains(id) || id == ids.last())) by {
            assert(ids[ids.len() - 1] == ids.last());
            if rest.contains(id) {
                let j = choose|j: int| 0 <= j < rest.len() && rest[j] == id;
                assert(ids[j] == id);
            }
        }
        if !s.has(radar, ids.last()) {
            let m = s.missing(radar, rest);
            let all = m.push(ids.last());
            assert(s.missing(radar, ids) == all);
            assert(all[m.len() as int] == ids.last());
            if m.contains(id) {
                let j = choose|j: int| 0 <= j < m.len() && m[j] == id;
                assert(all[j] == id);
            }
        }
    }
}

proof fn nothing_missing(s: SentMetadata, radar: Seq<char>, ids: Seq<ControlId>)
    requires
        forall|id: ControlId| #[trigger] ids.contains(id) ==> s.has(radar, id),
    ensures
        s.missing(radar, ids).len() == 0,
    decreases ids.len(),
{
    if ids.len() > 0 {
        let rest = ids.drop_last();
        assert(ids[ids.len() - 1] == ids.last());
        assert(ids.contains(ids.last()));
        assert forall|id: ControlId| #[trigger] rest.contains(id) implies s.has(radar, id) by {
            let j = choose|j: int| 0 <= j < rest.len() && rest[j] == id;
            assert(ids[j] == id);
            assert(ids.contains(id));
        }
        nothing_missing(s, radar, rest);
    }
}

/// Once a client got what was missing of a radar, it has the descriptions of all its controls, and
/// nothing is missing any more: every description is sent once.
pub proof fn metadata_is_complete(
    before: SentMetadata,
    after: SentMetadata,
    controls: SharedControls,
    meta: Seq<DeltaMeta>,
)
    requires
        before.completes(&after, controls, meta),
    ensures
        forall|id: ControlId| #[trigger]
            controls.ids_below(CONTROL_COUNT as int).contains(id) ==> after.has(
                controls.radar_id@,
                id,
            ),
        after.missing(controls.radar_id@, controls.ids_below(CONTROL_COUNT as int)).len() == 0,
{
    let radar = controls.radar_id@;
    let ids = controls.ids_below(CONTROL_COUNT as int);
    assert forall|id: ControlId| #[trigger] ids.contains(id) implies after.has(radar, id) by {
        missing_is(before, radar, ids, id);
    }
    nothing_missing(after, radar, ids);
}

/// A change goes along with a description that the client already has in one case only: the
/// description of the range control is sent again when the unit system changes.
pub proof fn metadata_comes_once(
    sent: SentMetadata,
    radar: Seq<char>,
    id: ControlId,
    sends: bool,
    described: ControlId,
)
    requires
        sent.has(radar, described),
        sent.due_with(radar, id, sends).contains(described),
    ensures
        id == ControlId::RangeUnits && described == ControlId::Range,
{
}

/// A client that is sent a change has the description of the control, at the latest with the change.
pub proof fn no_change_without_metadata(
    before: SentMetadata,
    after: SentMetadata,
    radar: Seq<char>,
    id: ControlId,
)
    requires
        before.sent_also(&after, radar, before.due_with(radar, id, true)),
    ensures
        after.has(radar, id),
{
    if !before.has(radar, id) {
        assert(before.due_with(radar, id, true)[0] == id);
        assert(before.due_with(radar, id, true).contains(id));
    }
    assert(after.has(radar, id) == (before.has(radar, id) || before.due_with(
        radar,
        id,
        true,
    ).contains(id)));
}

/// A change of the unit system brings a new description of the range control, whether the change itself
/// is sent or not. Otherwise nothing is described but the control that changed, where the change is sent.
pub proof fn descriptions_go_along_with_changes(
    sent: SentMetadata,
    radar: Seq<char>,
    id: ControlId,
    sends: bool,
    described: ControlId,
)
    ensures
        sent.due_with(radar, id, sends).contains(described) == {
            ||| described == ControlId::Range && id == ControlId::RangeUnits
            ||| described == id && sends && !sent.has(radar, id)
        },
        id != ControlId::RangeUnits && (!sends || sent.has(radar, id)) ==> sent.due_with(
            radar,
            id,
            sends,
        ).len() == 0,
{
    let due = sent.due_with(radar, id, sends);
    if sends && !sent.has(radar, id) {
        assert(due[0] == id);
    }
    if id == ControlId::RangeUnits {
        assert(due.last() == ControlId::Range);
        assert(due[due.len() - 1] == ControlId::Range);
    }
}

/// A description is that of the control that its path leads to.
pub proof fn descriptions_are_found_by_their_paths(meta: DeltaMeta, radar: Seq<char>, id: ControlId)
    requires
        meta.is_of(radar, id),
    ensures
        crate::control_value::path_target(meta.path@) == Some((meta.radar_id@, meta.control_id)),
        meta.control_id == id,
        meta.radar_id@ == radar,
{
    crate::control_value::path_leads_back(radar, id);
}

/// There is a description for each of the controls, in their order, and no other one.
pub proof fn every_control_is_described(
    meta: Seq<DeltaMeta>,
    radar: Seq<char>,
    ids: Seq<ControlId>,
    i: int,
)
    requires
        are_of(meta, radar, ids),
        0 <= i < ids.len(),
    ensures
        meta.len() == ids.len(),
        meta[i].control_id == ids[i],
        meta[i].radar_id@ == radar,
        crate::control_value::path_target(meta[i].path@) == Some((radar, ids[i])),
{
    crate::control_value::path_leads_back(radar, ids[i]);
}

} // verus!
