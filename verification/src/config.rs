//! What is remembered of a radar between runs.
use vstd::prelude::*;

use crate::control_id::ControlId;
use crate::controls::Ranges;
use crate::radar::RadarInfo;
use crate::text::same_text;
use crate::value::opt_text;

verus! {

/// What is remembered of a radar.
#[derive(Debug)]
pub struct Radar {
    pub id: usize,
    pub user_name: String,
    /// The name of the model, once it is known.
    pub model_name: Option<String>,
    /// The distances of the ranges, once they are known.
    pub ranges: Option<Vec<i32>>,
}

/// What is remembered of a radar, as a mathematical value.
pub struct RadarView {
    pub id: int,
    pub user_name: Seq<char>,
    pub model_name: Option<Seq<char>>,
    pub ranges: Option<Seq<i32>>,
}

/// The contents of an optional list of distances.
pub open spec fn opt_ranges(ranges: Option<Vec<i32>>) -> Option<Seq<i32>> {
    match ranges {
        Some(r) => Some(r@),
        None => None,
    }
}

impl View for Radar {
    type V = RadarView;

    open spec fn view(&self) -> RadarView {
        RadarView {
            id: self.id as int,
            user_name: self.user_name@,
            model_name: opt_text(self.model_name),
            ranges: opt_ranges(self.ranges),
        }
    }
}

/// What is remembered of a radar that has not been seen yet.
pub open spec fn unknown_radar() -> RadarView {
    RadarView { id: 0, user_name: Seq::empty(), model_name: None, ranges: None }
}

impl Default for Radar {
    fn default() -> (r: Radar)
        ensures
            r@ == unknown_radar(),
    {
        let r = Radar { id: 0, user_name: String::new(), model_name: None, ranges: None };
        assert(r@.user_name =~= Seq::<char>::empty());
        r
    }
}

/// What is remembered of all radars, by their keys.
#[derive(Debug)]
pub struct Config {
    pub radars: Vec<(String, Radar)>,
}

impl Config {
    /// No two records have the same key.
    pub open spec fn well_formed(&self) -> bool {
        forall|i: int, j: int|
            0 <= i < j < self.radars@.len() ==> (#[trigger] self.radars@[i]).0@ != (
            #[trigger] self.radars@[j]).0@
    }

    /// Whether there is a record under a key.
    pub open spec fn has(&self, key: Seq<char>) -> bool {
        exists|i: int| 0 <= i < self.radars@.len() && (#[trigger] self.radars@[i]).0@ == key
    }

    /// The record under a key, or that of a radar that has not been seen yet.
    pub open spec fn record(&self, key: Seq<char>) -> RadarView {
        if self.has(key) {
            let i = choose|i: int|
                0 <= i < self.radars@.len() && (#[trigger] self.radars@[i]).0@ == key;
            self.radars@[i].1@
        } else {
            unknown_radar()
        }
    }

    /// Nothing is remembered.
    pub fn new() -> (c: Config)
        ensures
            c.well_formed(),
            forall|key: Seq<char>| !(#[trigger] c.has(key)),
    {
        Config { radars: Vec::new() }
    }

    /// The place of the record under a key.
    pub fn find(&self, key: &str) -> (r: Option<usize>)
        ensures
            match r {
                Some(i) => i < self.radars@.len() && self.radars@[i as int].0@ == key@ && self.has(
                    key@,
                ),
                None => !self.has(key@),
            },
    {
        let mut i: usize = 0;
        while i < self.radars.len()
            invariant
                i <= self.radars.len(),
                forall|j: int| 0 <= j < i ==> (#[trigger] self.radars@[j]).0@ != key@,
            decreases self.radars.len() - i,
        {
            if same_text(self.radars[i].0.as_str(), key) {
                return Some(i);
            }
            i = i + 1;
        }
        None
    }

    /// The highest id of all records, or zero.
    pub open spec fn is_max_id(&self, id: int) -> bool {
        &&& forall|i: int| 0 <= i < self.radars@.len() ==> (#[trigger] self.radars@[i]).1.id <= id
        &&& id == 0 || exists|i: int|
            0 <= i < self.radars@.len() && (#[trigger] self.radars@[i]).1.id == id
    }

    /// The highest id of all records, or zero.
    pub fn max_id(&self) -> (id: usize)
        ensures
            self.is_max_id(id as int),
    {
        let mut id: usize = 0;
        let mut i: usize = 0;
        while i < self.radars.len()
            invariant
                i <= self.radars.len(),
                forall|j: int| 0 <= j < i ==> (#[trigger] self.radars@[j]).1.id <= id,
                id == 0 || exists|j: int| 0 <= j < i && (#[trigger] self.radars@[j]).1.id == id,
            decreases self.radars.len() - i,
        {
            if self.radars[i].1.id > id {
                id = self.radars[i].1.id;
            }
            i = i + 1;
        }
        id
    }

    /// Brings the record of a radar up to date: its name, its model, and its ranges where they are
    /// known. Tells whether the record changed, and has to be written to disk.
    pub fn store(
        &mut self,
        key: &str,
        user_name: String,
        model_name: Option<String>,
        ranges: Option<Vec<i32>>,
    ) -> (modified: bool)
        requires
            old(self).well_formed(),
        ensures
            final(self).well_formed(),
            final(self).has(key@),
            final(self).record(key@) == (RadarView {
                id: old(self).record(key@).id,
                user_name: user_name@,
                model_name: opt_text(model_name),
                ranges: match ranges {
                    Some(r) => Some(r@),
                    None => old(self).record(key@).ranges,
                },
            }),
            forall|other: Seq<char>|
                other != key@ ==> #[trigger] final(self).has(other) == old(self).has(other) && final(self).record(other) == old(self).record(other),
            modified == (final(self).record(key@) != old(self).record(key@)),
    {
        let at: usize = match self.find(key) {
            Some(i) => i,
            None => {
                let ghost before = *self;
                self.radars.push((key.to_owned(), Radar::default()));
                proof {
                    assert forall|other: Seq<char>| other != key@ implies #[trigger] self.has(other)
                        == before.has(other) && self.record(other) == before.record(other) by {
                        same_records(before, *self, other);
                    }
                    assert(self.radars@[self.radars@.len() - 1].0@ == key@);
                    record_is(*self, key@, self.radars@.len() - 1);
                    assert forall|i: int, j: int| 0 <= i < j < self.radars@.len() implies (
                    #[trigger] self.radars@[i]).0@ != (#[trigger] self.radars@[j]).0@ by {
                        if j == self.radars@.len() - 1 {
                            assert(before.radars@[i].0@ != key@);
                        }
                    }
                }
                self.radars.len() - 1
            },
        };
        let ghost middle = *self;
        proof {
            record_is(middle, key@, at as int);
        }
        let old_record = &self.radars[at].1;
        let same_ranges = match (&ranges, &old_record.ranges) {
            (Some(a), Some(b)) => same_ints(a, b),
            (Some(_), None) => false,
            (None, _) => true,
        };
        let modified = !(old_record.user_name == user_name) || !same_opt_text(
            &old_record.model_name,
            &model_name,
        ) || !same_ranges;
        let id: usize = old_record.id;
        let ranges = match ranges {
            Some(r) => Some(r),
            None => match &old_record.ranges {
                Some(r) => Some(vstd::slice::slice_to_vec(r.as_slice())),
                None => None,
            },
        };
        self.radars[at].1 = Radar { id, user_name, model_name, ranges };
        proof {
            assert forall|i: int| 0 <= i < self.radars@.len() implies (
            #[trigger] self.radars@[i]).0@ == middle.radars@[i].0@ by {}
            assert(self.well_formed());
            record_is(*self, key@, at as int);
            assert forall|other: Seq<char>| other != key@ implies #[trigger] self.has(other)
                == middle.has(other) && self.record(other) == middle.record(other) by {
                updated_records(middle, *self, other, at as int);
            }
        }
        modified
    }
}

/// What is remembered of all radars, and brought up to date when a radar changes.
#[derive(Debug)]
pub struct Persistence {
    pub config: Config,
}

impl Persistence {
    /// Remembers the name, the model and the ranges of a radar. Tells whether anything changed, and
    /// the configuration has to be written to disk.
    pub fn store(&mut self, radar_info: &RadarInfo) -> (modified: bool)
        requires
            old(self).config.well_formed(),
            radar_info.well_formed(),
            radar_info.controls.text_of(ControlId::UserName) is Some,
        ensures
            final(self).config.well_formed(),
            final(self).config.has(radar_info.key@),
            final(self).config.record(radar_info.key@) == remembered(
                old(self).config.record(radar_info.key@),
                *radar_info,
            ),
            forall|other: Seq<char>|
                other != radar_info.key@ ==> #[trigger] final(self).config.has(other) == old(self).config.has(other) && final(self).config.record(other) == old(self).config.record(other),
            modified == (final(self).config.record(radar_info.key@) != old(self).config.record(
                radar_info.key@,
            )),
    {
        let user_name = radar_info.controls.user_name();
        let model_name = radar_info.controls.model_name();
        let ranges = match radar_info.controls.get(&ControlId::Range) {
            Some(c) => match &c.item.valid_values {
                Some(v) => Some(vstd::slice::slice_to_vec(v.as_slice())),
                None => None,
            },
            None => None,
        };
        self.config.store(radar_info.key.as_str(), user_name, model_name, ranges)
    }

    /// Gives a radar that was found again the model and the name that are remembered of it, and,
    /// where any are remembered, its ranges: `ranges` are those of the remembered distances.
    pub fn update_info_from_persistence(&self, info: &mut RadarInfo, ranges: Ranges)
        requires
            self.config.well_formed(),
            old(info).well_formed(),
        ensures
            final(info).well_formed(),
            *final(info) == (RadarInfo {
                controls: final(info).controls,
                ranges: final(info).ranges,
                ..*old(info)
            }),
            recalled(self.config, *old(info), *final(info), ranges),
    {
        match self.config.find(info.key.as_str()) {
            Some(i) => {
                proof {
                    record_is(self.config, info.key@, i as int);
                }
                let record = &self.config.radars[i].1;
                match &record.model_name {
                    Some(name) => {
                        info.controls.set_model_name(name.clone());
                    },
                    None => {},
                }
                match &record.ranges {
                    Some(distances) => {
                        if distances.len() > 0 {
                            info.ranges = ranges;
                        }
                    },
                    None => {},
                }
                info.controls.set_user_name(record.user_name.clone());
            },
            None => {},
        }
    }
}

/// The record of a radar after it was brought up to date.
pub open spec fn remembered(before: RadarView, info: RadarInfo) -> RadarView {
    RadarView {
        id: before.id,
        user_name: info.controls.text_of(ControlId::UserName)->0,
        model_name: info.controls.text_of(ControlId::ModelName),
        ranges: match info.controls.slot(ControlId::Range)->0.item@.valid_values {
            Some(values) => Some(values),
            None => before.ranges,
        },
    }
}

/// What becomes of a radar that is given what is remembered of it.
pub open spec fn recalled(config: Config, before: RadarInfo, after: RadarInfo, ranges: Ranges) -> bool {
    if config.has(before.key@) {
        let record = config.record(before.key@);
        &&& after.controls.text_of(ControlId::UserName) == Some(record.user_name)
        &&& after.controls.text_of(ControlId::ModelName) == match record.model_name {
            Some(name) => Some(name),
            None => before.controls.text_of(ControlId::ModelName),
        }
        &&& forall|id: ControlId|
            id != ControlId::UserName && id != ControlId::ModelName ==> (
            #[trigger] after.controls.slot(id)) == before.controls.slot(id)
        &&& after.controls.replay == before.controls.replay
        &&& after.controls.radar_id == before.controls.radar_id
        &&& after.controls.all_ranges == before.controls.all_ranges
        &&& after.controls.default_range_units == before.controls.default_range_units
        &&& after.ranges == match record.ranges {
            Some(distances) => if distances.len() > 0 {
                ranges
            } else {
                before.ranges
            },
            None => before.ranges,
        }
    } else {
        after == before
    }
}

/// A radar that is found again has the name and the model that it had when it was remembered.
pub proof fn names_are_recalled(
    before: Config,
    config: Config,
    info: RadarInfo,
    again: RadarInfo,
    after: RadarInfo,
    ranges: Ranges,
)
    requires
        info.controls.text_of(ControlId::UserName) is Some,
        config.has(info.key@),
        config.record(info.key@) == remembered(before.record(info.key@), info),
        again.key@ == info.key@,
        recalled(config, again, after, ranges),
    ensures
        after.controls.text_of(ControlId::UserName) == info.controls.text_of(ControlId::UserName),
        info.controls.text_of(ControlId::ModelName) is Some ==> after.controls.text_of(
            ControlId::ModelName,
        ) == info.controls.text_of(ControlId::ModelName),
{
}

/// To remember a radar again, when nothing about it changed, changes nothing.
pub proof fn remembering_twice_changes_nothing(before: RadarView, info: RadarInfo)
    ensures
        remembered(remembered(before, info), info) == remembered(before, info),
{
}

fn same_ints(a: &Vec<i32>, b: &Vec<i32>) -> (r: bool)
    ensures
        r == (a@ == b@),
{
    if a.len() != b.len() {
        return false;
    }
    let mut i: usize = 0;
    while i < a.len()
        invariant
            i <= a.len() == b.len(),
            forall|j: int| 0 <= j < i ==> a[j] == b[j],
        decreases a.len() - i,
    {
        if a[i] != b[i] {
            return false;
        }
        i = i + 1;
    }
    assert(a@ =~= b@);
    true
}

fn same_opt_text(a: &Option<String>, b: &Option<String>) -> (r: bool)
    ensures
        r == (opt_text(*a) == opt_text(*b)),
{
    match (a, b) {
        (Some(a), Some(b)) => *a == *b,
        (None, None) => true,
        _ => false,
    }
}

proof fn record_is(c: Config, key: Seq<char>, i: int)
    requires
        c.well_formed(),
        0 <= i < c.radars@.len(),
        c.radars@[i].0@ == key,
    ensures
        c.has(key),
        c.record(key) == c.radars@[i].1@,
{
    let k = choose|k: int| 0 <= k < c.radars@.len() && (#[trigger] c.radars@[k]).0@ == key;
    if k != i {
        if k < i {
            assert(c.radars@[k].0@ != c.radars@[i].0@);
        } else {
            assert(c.radars@[i].0@ != c.radars@[k].0@);
        }
    }
}

proof fn same_records(before: Config, after: Config, other: Seq<char>)
    requires
        before.well_formed(),
        after.radars@.len() == before.radars@.len() + 1,
        after.radars@.last().0@ != other,
        forall|i: int| 0 <= i < before.radars@.len() ==> #[trigger] after.radars@[i] == before.radars@[i],
        after.well_formed(),
    ensures
        after.has(other) == before.has(other),
        after.record(other) == before.record(other),
{
    if before.has(other) {
        let k = choose|k: int| 0 <= k < before.radars@.len() && (#[trigger] before.radars@[k]).0@ == other;
        assert(after.radars@[k].0@ == other);
        record_is(before, other, k);
        record_is(after, other, k);
    } else if after.has(other) {
        let k = choose|k: int| 0 <= k < after.radars@.len() && (#[trigger] after.radars@[k]).0@ == other;
        assert(k < before.radars@.len());
        assert(before.radars@[k].0@ == other);
    }
}

proof fn updated_records(before: Config, after: Config, other: Seq<char>, at: int)
    requires
        before.well_formed(),
        after.well_formed(),
        0 <= at < before.radars@.len(),
        after.radars@.len() == before.radars@.len(),
        after.radars@[at].0@ == before.radars@[at].0@,
        after.radars@[at].0@ != other,
        forall|i: int|
            0 <= i < before.radars@.len() && i != at ==> #[trigger] after.radars@[i]
                == before.radars@[i],
    ensures
        after.has(other) == before.has(other),
        after.record(other) == before.record(other),
{
    if before.has(other) {
        let k = choose|k: int| 0 <= k < before.radars@.len() && (#[trigger] before.radars@[k]).0@ == other;
        assert(after.radars@[k].0@ == other);
        record_is(before, other, k);
        record_is(after, other, k);
    } else if after.has(other) {
        let k = choose|k: int| 0 <= k < after.radars@.len() && (#[trigger] after.radars@[k]).0@ == other;
        assert(before.radars@[k].0@ == other);
    }
}

/// A record holds what users call the radar, what its makers call it, and the distances that its range
/// control takes. Where the distances are not known, the earlier ones stay.
pub proof fn records_hold_what_is_known(before: RadarView, info: RadarInfo, again: RadarInfo)
    requires
        info.controls.text_of(ControlId::UserName) is Some,
        again.controls.text_of(ControlId::UserName) is Some,
    ensures
        Some(remembered(before, info).user_name) == info.controls.text_of(ControlId::UserName),
        remembered(before, info).model_name == info.controls.text_of(ControlId::ModelName),
        remembered(before, info).id == before.id,
        info.controls.slot(ControlId::Range)->0.item@.valid_values matches Some(values)
            ==> remembered(before, info).ranges == Some(values),
        again.controls.slot(ControlId::Range)->0.item@.valid_values is None ==> remembered(
            remembered(before, info),
            again,
        ).ranges == remembered(before, info).ranges,
        remembered(remembered(before, info), again).user_name == remembered(before, again).user_name,
{
}

/// The ranges of a radar that is found again are the remembered ones, where any are remembered.
pub proof fn ranges_are_recalled(
    before: Config,
    config: Config,
    info: RadarInfo,
    again: RadarInfo,
    after: RadarInfo,
    ranges: Ranges,
)
    requires
        info.controls.text_of(ControlId::UserName) is Some,
        config.has(info.key@),
        config.record(info.key@) == remembered(before.record(info.key@), info),
        again.key@ == info.key@,
        recalled(config, again, after, ranges),
    ensures
        info.controls.slot(ControlId::Range)->0.item@.valid_values matches Some(values)
            && values.len() > 0 ==> after.ranges == ranges,
        before.record(info.key@).ranges is None && info.controls.slot(
            ControlId::Range,
        )->0.item@.valid_values is None ==> after.ranges == again.ranges,
{
}

/// A radar that nothing is remembered of stays as it was found. Of any other radar, only the names and
/// the ranges are recalled.
pub proof fn nothing_else_is_recalled(
    config: Config,
    before: RadarInfo,
    after: RadarInfo,
    ranges: Ranges,
    id: ControlId,
)
    requires
        recalled(config, before, after, ranges),
    ensures
        !config.has(before.key@) ==> after == before,
        id != ControlId::UserName && id != ControlId::ModelName ==> after.controls.slot(id)
            == before.controls.slot(id),
        config.has(before.key@) && config.record(before.key@).model_name is None
            ==> after.controls.text_of(ControlId::ModelName) == before.controls.text_of(
            ControlId::ModelName,
        ),
{
}

/// The highest number is that of a record, and no record has a higher one. Without records it is zero.
pub proof fn highest_number_is_in_use(config: Config, id: int, i: int)
    requires
        config.is_max_id(id),
    ensures
        0 <= i < config.radars@.len() ==> config.radars@[i].1.id <= id,
        id > 0 ==> exists|j: int|
            0 <= j < config.radars@.len() && (#[trigger] config.radars@[j]).1.id == id,
        config.radars@.len() == 0 ==> id == 0,
{
}

} // verus!
