//! What clients of the Signal K stream subscribe to.
use vstd::prelude::*;

use crate::control_id::{
    control_of_name, is_alphanumeric, names_are_alphanumeric, names_differ, number_in_range,
    number_is_inverse, ControlId, CONTROL_COUNT,
};
use crate::text::{
    chars_of, contains_char, eq_ignore_case, find_first, first_index, first_index_is, has_prefix, lower,
    lower_all, same_ignoring_case, same_text, starts_with, text_of,
};

verus! {

/// Whether a text matches a pattern as a whole: a star in the pattern stands for any number of
/// characters, a question mark for one, and any other character for itself.
pub open spec fn wild(pattern: Seq<char>, text: Seq<char>) -> bool
    decreases pattern.len(), text.len(),
{
    if pattern.len() == 0 {
        text.len() == 0
    } else if pattern[0] == '*' {
        wild(pattern.skip(1), text) || (text.len() > 0 && wild(pattern, text.skip(1)))
    } else {
        text.len() > 0 && (pattern[0] == '?' || pattern[0] == text[0]) && wild(
            pattern.skip(1),
            text.skip(1),
        )
    }
}

/// `WildMatch::new` and `WildMatch::matches` of the crate wildmatch tell whether a text matches a
/// pattern as a whole, with stars and question marks as wildcards, case and all.
#[verifier::external_body]
fn wild_match(pattern: &str, text: &str) -> (r: bool)
    ensures
        r == wild(pattern@, text@),
{
    wildmatch::WildMatch::new(pattern).matches(text)
}

/// What a client is subscribed to: nothing, some paths, or everything.
#[derive(Clone, Copy, Debug, PartialEq, Eq, Structural)]
pub enum Subscribe {
    Nothing,
    Paths,
    All,
}

/// The mode that a parameter of a request for a stream stands for.
pub open spec fn subscribe_mode(param: Option<Seq<char>>) -> Option<Subscribe> {
    match param {
        None => Some(Subscribe::All),
        Some(s) => if s == "self"@ || s == "all"@ {
            Some(Subscribe::All)
        } else if s == "none"@ {
            Some(Subscribe::Nothing)
        } else {
            None
        },
    }
}

/// Reads the mode of a subscription. Without one a client gets everything.
pub fn parse_subscribe(param: Option<&str>) -> (r: Option<Subscribe>)
    ensures
        r == subscribe_mode(crate::radar::opt_str(param)),
{
    match param {
        None => Some(Subscribe::All),
        Some(s) => {
            if same_text(s, "self") || same_text(s, "all") {
                Some(Subscribe::All)
            } else if same_text(s, "none") {
                Some(Subscribe::Nothing)
            } else {
                None
            }
        },
    }
}

/// Whether a parameter of a request for a stream asks for the values that are known already.
pub open spec fn cached_mode(param: Option<Seq<char>>) -> Option<bool> {
    match param {
        None => Some(true),
        Some(s) => if s == "true"@ {
            Some(true)
        } else if s == "false"@ {
            Some(false)
        } else {
            None
        },
    }
}

/// Reads whether a client asks for the values that are known already.
pub fn parse_send_cached_values(param: Option<&str>) -> (r: Option<bool>)
    ensures
        r == cached_mode(crate::radar::opt_str(param)),
{
    match param {
        None => Some(true),
        Some(s) => {
            if same_text(s, "true") {
                Some(true)
            } else if same_text(s, "false") {
                Some(false)
            } else {
                None
            }
        },
    }
}

/// When values are delivered.
#[derive(Clone, Copy, Debug, PartialEq, Eq, Structural)]
pub enum Policy {
    /// When they change.
    Instant,
    /// When they change, but not too often.
    Ideal,
    /// At fixed intervals.
    Fixed,
}

/// The policy that a name stands for, whatever its case.
pub open spec fn policy_of(s: Seq<char>) -> Option<Policy> {
    if same_ignoring_case(s, "instant"@) {
        Some(Policy::Instant)
    } else if same_ignoring_case(s, "ideal"@) {
        Some(Policy::Ideal)
    } else if same_ignoring_case(s, "fixed"@) {
        Some(Policy::Fixed)
    } else {
        None
    }
}

impl Policy {
    /// Reads the name of a policy, whatever its case.
    pub fn parse(s: &str) -> (r: Option<Policy>)
        ensures
            r == policy_of(s@),
    {
        if eq_ignore_case(s, "instant") {
            Some(Policy::Instant)
        } else if eq_ignore_case(s, "ideal") {
            Some(Policy::Ideal)
        } else if eq_ignore_case(s, "fixed") {
            Some(Policy::Fixed)
        } else {
            None
        }
    }

    /// The name of the policy.
    pub fn to_str(&self) -> (s: &'static str)
        ensures
            s@ == match self {
                Policy::Instant => "instant"@,
                Policy::Ideal => "ideal"@,
                Policy::Fixed => "fixed"@,
            },
    {
        match self {
            Policy::Instant => "instant",
            Policy::Ideal => "ideal",
            Policy::Fixed => "fixed",
        }
    }
}

/// A subscription to the values under a path. All times are in milliseconds.
#[derive(Debug)]
pub struct PathSubscribe {
    pub path: String,
    /// The interval of fixed delivery.
    pub period: Option<u64>,
    pub policy: Option<Policy>,
    /// The least time between two deliveries.
    pub min_period: Option<u64>,
    pub last_sent: Option<u64>,
}

/// A subscription, as a mathematical value.
pub struct PathView {
    pub path: Seq<char>,
    pub period: Option<u64>,
    pub policy: Option<Policy>,
    pub min_period: Option<u64>,
    pub last_sent: Option<u64>,
}

impl View for PathSubscribe {
    type V = PathView;

    open spec fn view(&self) -> PathView {
        PathView {
            path: self.path@,
            period: self.period,
            policy: self.policy,
            min_period: self.min_period,
            last_sent: self.last_sent,
        }
    }
}

impl PathSubscribe {
    fn copy(&self) -> (r: PathSubscribe)
        ensures
            r@ == self@,
    {
        PathSubscribe {
            path: self.path.clone(),
            period: self.period,
            policy: self.policy,
            min_period: self.min_period,
            last_sent: self.last_sent,
        }
    }
}

/// A text without a prefix, where it starts with it.
pub open spec fn without_prefix(s: Seq<char>, prefix: Seq<char>) -> Seq<char> {
    if has_prefix(s, prefix) {
        s.skip(prefix.len() as int)
    } else {
        s
    }
}

/// The radar and the control in a path. A path names a radar and a control, or only a control of all
/// radars. It may start with "radars", and name the controls of a radar as such.
pub open spec fn path_parts(path: Seq<char>) -> (Seq<char>, Seq<char>) {
    let path = without_prefix(path, "radars."@);
    let dot = first_index(path, '.');
    if dot < path.len() {
        (path.take(dot), without_prefix(path.skip(dot + 1), "controls."@))
    } else {
        ("*"@, path)
    }
}

fn strip_prefix(v: Vec<char>, prefix: &str) -> (r: Vec<char>)
    ensures
        r@ == without_prefix(v@, prefix@),
{
    if starts_with(&v, prefix) {
        let n: usize = prefix.unicode_len();
        let r = vstd::slice::slice_to_vec(
            vstd::slice::slice_subrange(v.as_slice(), n, v.len()),
        );
        assert(r@ =~= v@.skip(n as int));
        r
    } else {
        v
    }
}

/// Takes a path apart into a radar and a control, either of which may be a pattern.
pub fn extract_path(path: &str) -> (r: (String, Vec<char>))
    ensures
        (r.0@, r.1@) == path_parts(path@),
{
    let path = strip_prefix(chars_of(path), "radars.");
    let dot: usize = find_first(&path, '.');
    if dot < path.len() {
        let radar = text_of(vstd::slice::slice_subrange(path.as_slice(), 0, dot));
        assert(radar@ =~= path@.take(dot as int));
        let rest = vstd::slice::slice_to_vec(
            vstd::slice::slice_subrange(path.as_slice(), dot + 1, path.len()),
        );
        assert(rest@ =~= path@.skip(dot + 1));
        (radar, strip_prefix(rest, "controls."))
    } else {
        (String::from_str("*"), path)
    }
}

/// Whether the part of a path that names a control is a pattern.
pub open spec fn is_pattern(control: Seq<char>) -> bool {
    control.contains('*')
}

/// Whether the part of a path that names a control names a given one.
pub open spec fn names_control(control: Seq<char>, id: ControlId) -> bool {
    if is_pattern(control) {
        wild(control, id.spec_name())
    } else {
        control_of_name(control) == Some(id)
    }
}

/// Whether a path leads to a control of a radar, or of all radars where that is a star.
pub open spec fn leads_to(path: Seq<char>, radar: Seq<char>, id: ControlId) -> bool {
    path_parts(path).0 == radar && names_control(path_parts(path).1, id)
}

/// Whether a path leads anywhere: it is a pattern, or it names a control.
pub open spec fn is_valid(path: Seq<char>) -> bool {
    is_pattern(path_parts(path).1) || control_of_name(path_parts(path).1) is Some
}

/// The last of the first `n` subscriptions whose path leads to a control, or else the one that was
/// there before.
pub open spec fn last_leading(
    before: Option<PathView>,
    subscribe: Seq<PathSubscribe>,
    n: int,
    radar: Seq<char>,
    id: ControlId,
) -> Option<PathView>
    decreases n,
{
    if n <= 0 {
        before
    } else if leads_to(subscribe[n - 1].path@, radar, id) {
        Some(subscribe[n - 1]@)
    } else {
        last_leading(before, subscribe, n - 1, radar, id)
    }
}

/// Whether the path of any of the first `n` subscriptions leads to a control.
pub open spec fn any_leading(
    paths: Seq<PathSubscribe>,
    n: int,
    radar: Seq<char>,
    id: ControlId,
) -> bool
    decreases n,
{
    n > 0 && (leads_to(paths[n - 1].path@, radar, id) || any_leading(paths, n - 1, radar, id))
}

/// The smaller of a time and an optional one.
pub open spec fn shorter(time: int, other: Option<u64>) -> int {
    match other {
        Some(t) => if t < time {
            t as int
        } else {
            time
        },
        None => time,
    }
}

/// The shortest time in the first `n` subscriptions whose path leads anywhere, and in a given one.
pub open spec fn shortest_period(start: int, subscribe: Seq<PathSubscribe>, n: int) -> int
    decreases n,
{
    if n <= 0 {
        start
    } else {
        let before = shortest_period(start, subscribe, n - 1);
        if is_valid(subscribe[n - 1].path@) {
            shorter(shorter(before, subscribe[n - 1].min_period), subscribe[n - 1].period)
        } else {
            before
        }
    }
}

/// What a client is subscribed to.
#[derive(Debug)]
pub struct ActiveSubscriptions {
    pub mode: Subscribe,
    /// How often all values that a client is subscribed to are looked at, in milliseconds.
    pub timeout: u64,
    /// The subscriptions by radar, where a star stands for all radars, and by the number of the
    /// control.
    pub paths: Vec<(String, Vec<Option<PathSubscribe>>)>,
}

/// Whether enough time has passed since something was sent.
pub open spec fn has_elapsed(last_sent: Option<u64>, period: Option<u64>, now: int) -> bool {
    match (last_sent, period) {
        (Some(last), Some(period)) => last + period <= now,
        _ => true,
    }
}

/// Whether a value is sent under a subscription. With fixed delivery it is sent only when all values
/// are looked at (`full`) and its interval is over; it is never sent again too soon.
pub open spec fn is_due(path: PathView, full: bool, now: int) -> bool {
    &&& path.policy == Some(Policy::Fixed) ==> full && has_elapsed(path.last_sent, path.period, now)
    &&& has_elapsed(path.last_sent, path.min_period, now)
}

fn check_elapsed(last_sent: Option<u64>, period: Option<u64>, now: u64) -> (r: bool)
    ensures
        r == has_elapsed(last_sent, period, now as int),
{
    match (last_sent, period) {
        (Some(last), Some(period)) => last <= now && period <= now - last,
        _ => true,
    }
}

fn check_due(path: &PathSubscribe, full: bool, now: u64) -> (r: bool)
    ensures
        r == is_due(path@, full, now as int),
{
    let fixed = match path.policy {
        Some(Policy::Fixed) => true,
        _ => false,
    };
    if fixed && !(full && check_elapsed(path.last_sent, path.period, now)) {
        return false;
    }
    check_elapsed(path.last_sent, path.min_period, now)
}

/// The places of the radars in the subscriptions are different.
pub open spec fn radars_differ(paths: Seq<(String, Vec<Option<PathSubscribe>>)>) -> bool {
    forall|i: int, j: int|
        0 <= i < j < paths.len() ==> (#[trigger] paths[i]).0@ != (#[trigger] paths[j]).0@
}

/// Whether there are subscriptions for a radar.
pub open spec fn has_radar(
    paths: Seq<(String, Vec<Option<PathSubscribe>>)>,
    radar: Seq<char>,
) -> bool {
    exists|i: int| 0 <= i < paths.len() && (#[trigger] paths[i]).0@ == radar
}

/// The subscription to a control of a radar.
pub open spec fn entry_of(
    paths: Seq<(String, Vec<Option<PathSubscribe>>)>,
    radar: Seq<char>,
    id: ControlId,
) -> Option<PathView> {
    if has_radar(paths, radar) {
        let i = choose|i: int| 0 <= i < paths.len() && (#[trigger] paths[i]).0@ == radar;
        match paths[i].1@[id.number()] {
            Some(p) => Some(p@),
            None => None,
        }
    } else {
        None
    }
}

proof fn entry_is(
    paths: Seq<(String, Vec<Option<PathSubscribe>>)>,
    radar: Seq<char>,
    id: ControlId,
    i: int,
)
    requires
        radars_differ(paths),
        0 <= i < paths.len(),
        paths[i].0@ == radar,
    ensures
        has_radar(paths, radar),
        entry_of(paths, radar, id) == match paths[i].1@[id.number()] {
            Some(p) => Some(p@),
            None => None,
        },
{
    let k = choose|k: int| 0 <= k < paths.len() && (#[trigger] paths[k]).0@ == radar;
    if k < i {
        assert(paths[k].0@ != paths[i].0@);
    } else if i < k {
        assert(paths[i].0@ != paths[k].0@);
    }
}

/// Changing the subscriptions of one radar leaves those of all others as they are.
proof fn others_stay(
    before: Seq<(String, Vec<Option<PathSubscribe>>)>,
    after: Seq<(String, Vec<Option<PathSubscribe>>)>,
    at: int,
    radar: Seq<char>,
    id: ControlId,
)
    requires
        radars_differ(before),
        radars_differ(after),
        after.len() == before.len(),
        0 <= at < before.len(),
        after[at].0@ == before[at].0@,
        before[at].0@ != radar,
        forall|i: int| 0 <= i < before.len() && i != at ==> #[trigger] after[i] == before[i],
    ensures
        entry_of(after, radar, id) == entry_of(before, radar, id),
{
    if has_radar(before, radar) {
        let k = choose|k: int| 0 <= k < before.len() && (#[trigger] before[k]).0@ == radar;
        assert(after[k] == before[k]);
        entry_is(before, radar, id, k);
        entry_is(after, radar, id, k);
    } else if has_radar(after, radar) {
        let k = choose|k: int| 0 <= k < after.len() && (#[trigger] after[k]).0@ == radar;
        assert(before[k].0@ == radar);
    }
}

impl ActiveSubscriptions {
    /// No radar occurs twice, and every radar has a place for each control.
    pub open spec fn well_formed(&self) -> bool {
        &&& radars_differ(self.paths@)
        &&& forall|i: int|
            0 <= i < self.paths@.len() ==> (#[trigger] self.paths@[i]).1@.len() == CONTROL_COUNT
    }

    /// The subscription to a control of a radar, or of all radars where that is a star.
    pub open spec fn entry(&self, radar: Seq<char>, id: ControlId) -> Option<PathView> {
        entry_of(self.paths@, radar, id)
    }

    /// A client without paths.
    pub fn new(mode: Subscribe) -> (s: ActiveSubscriptions)
        ensures
            s.well_formed(),
            s.mode == mode,
            s.timeout == 60000,
            forall|radar: Seq<char>, id: ControlId| (#[trigger] s.entry(radar, id)) is None,
    {
        ActiveSubscriptions { mode, timeout: 60000, paths: Vec::new() }
    }

    /// Looks at all values at least as often as some time tells.
    pub fn set_timeout(&mut self, timeout: u64)
        ensures
            final(self).mode == old(self).mode,
            final(self).paths == old(self).paths,
            final(self).timeout == if timeout < old(self).timeout {
                timeout
            } else {
                old(self).timeout
            },
    {
        if timeout < self.timeout {
            self.timeout = timeout;
        }
    }

    fn find(&self, radar: &str) -> (r: Option<usize>)
        ensures
            match r {
                Some(i) => i < self.paths@.len() && self.paths@[i as int].0@ == radar@,
                None => !has_radar(self.paths@, radar@),
            },
    {
        let mut i: usize = 0;
        while i < self.paths.len()
            invariant
                i <= self.paths.len(),
                forall|j: int| 0 <= j < i ==> (#[trigger] self.paths@[j]).0@ != radar@,
            decreases self.paths.len() - i,
        {
            if same_text(self.paths[i].0.as_str(), radar) {
                return Some(i);
            }
            i = i + 1;
        }
        None
    }

    fn find_or_add(&mut self, radar: &str) -> (at: usize)
        requires
            old(self).well_formed(),
        ensures
            final(self).well_formed(),
            final(self).mode == old(self).mode,
            final(self).timeout == old(self).timeout,
            at < final(self).paths@.len(),
            final(self).paths@[at as int].0@ == radar@,
            forall|r: Seq<char>, id: ControlId|
                #[trigger] final(self).entry(r, id) == old(self).entry(r, id),
    {
        match self.find(radar) {
            Some(i) => i,
            None => {
                let mut slots: Vec<Option<PathSubscribe>> = Vec::with_capacity(
                    CONTROL_COUNT as usize,
                );
                let mut n: u8 = 0;
                while n < CONTROL_COUNT
                    invariant
                        n <= CONTROL_COUNT,
                        slots@.len() == n,
                        forall|i: int| 0 <= i < n ==> (#[trigger] slots@[i]) is None,
                    decreases CONTROL_COUNT - n,
                {
                    slots.push(None);
                    n = n + 1;
                }
                let ghost before = self.paths@;
                let at: usize = self.paths.len();
                self.paths.push((radar.to_owned(), slots));
                proof {
                    let after = self.paths@;
                    assert(radars_differ(after)) by {
                        assert forall|i: int, j: int| 0 <= i < j < after.len() implies (
                        #[trigger] after[i]).0@ != (#[trigger] after[j]).0@ by {
                            if j == at {
                                assert(before[i].0@ != radar@);
                            } else {
                                assert(before[i].0@ != before[j].0@);
                            }
                        }
                    }
                    assert forall|r: Seq<char>, id: ControlId|
                        #[trigger] self.entry(r, id) == old(self).entry(r, id) by {
                        number_in_range(id);
                        if r == radar@ {
                            entry_is(after, r, id, at as int);
                        } else if has_radar(before, r) {
                            let k = choose|k: int|
                                0 <= k < before.len() && (#[trigger] before[k]).0@ == r;
                            assert(after[k] == before[k]);
                            entry_is(before, r, id, k);
                            entry_is(after, r, id, k);
                        } else if has_radar(after, r) {
                            let k = choose|k: int|
                                0 <= k < after.len() && (#[trigger] after[k]).0@ == r;
                            assert(k != at);
                            assert(before[k].0@ == r);
                        }
                    }
                }
                at
            },
        }
    }

    /// Puts a subscription, or none, in the place of a control of the radar at a place.
    fn put(&mut self, at: usize, id: ControlId, path: Option<PathSubscribe>)
        requires
            old(self).well_formed(),
            at < old(self).paths@.len(),
        ensures
            final(self).well_formed(),
            final(self).mode == old(self).mode,
            final(self).timeout == old(self).timeout,
            final(self).paths@.len() == old(self).paths@.len(),
            final(self).paths@[at as int].0@ == old(self).paths@[at as int].0@,
            forall|r: Seq<char>, i: ControlId|
                #[trigger] final(self).entry(r, i) == if r == old(self).paths@[at as int].0@ && i
                    == id {
                    match path {
                        Some(p) => Some(p@),
                        None => None,
                    }
                } else {
                    old(self).entry(r, i)
                },
    {
        let n: usize = id.as_u8() as usize;
        proof {
            number_in_range(id);
        }
        let ghost before = self.paths@;
        self.paths[at].1[n] = path;
        proof {
            let after = self.paths@;
            let radar = before[at as int].0@;
            assert(radars_differ(after)) by {
                assert forall|i: int, j: int| 0 <= i < j < after.len() implies (
                #[trigger] after[i]).0@ != (#[trigger] after[j]).0@ by {
                    assert(before[i].0@ != before[j].0@);
                }
            }
            assert forall|r: Seq<char>, i: ControlId|
                #[trigger] self.entry(r, i) == if r == radar && i == id {
                    match path {
                        Some(p) => Some(p@),
                        None => None,
                    }
                } else {
                    old(self).entry(r, i)
                } by {
                if r == radar {
                    entry_is(after, r, i, at as int);
                    entry_is(before, r, i, at as int);
                    number_in_range(i);
                    if i != id {
                        number_is_inverse(i, id.number());
                        number_is_inverse(id, id.number());
                        assert(i.number() != id.number());
                    }
                } else {
                    others_stay(before, after, at as int, r, i);
                }
            }
        }
    }

    /// Subscribes a client to paths. From then on it gets what it is subscribed to and nothing else.
    /// Paths that lead nowhere are left out.
    pub fn subscribe(&mut self, subscribe: Vec<PathSubscribe>)
        requires
            old(self).well_formed(),
        ensures
            final(self).well_formed(),
            final(self).mode == Subscribe::Paths,
            final(self).timeout == shortest_period(
                old(self).timeout as int,
                subscribe@,
                subscribe@.len() as int,
            ),
            forall|radar: Seq<char>, id: ControlId|
                #[trigger] final(self).entry(radar, id) == last_leading(
                    old(self).entry(radar, id),
                    subscribe@,
                    subscribe@.len() as int,
                    radar,
                    id,
                ),
    {
        self.mode = Subscribe::Paths;
        let mut period: u64 = self.timeout;
        let mut k: usize = 0;
        while k < subscribe.len()
            invariant
                k <= subscribe.len(),
                self.well_formed(),
                self.mode == Subscribe::Paths,
                self.timeout == old(self).timeout,
                period == shortest_period(old(self).timeout as int, subscribe@, k as int),
                period <= self.timeout,
                forall|radar: Seq<char>, id: ControlId|
                    #[trigger] self.entry(radar, id) == last_leading(
                        old(self).entry(radar, id),
                        subscribe@,
                        k as int,
                        radar,
                        id,
                    ),
            decreases subscribe.len() - k,
        {
            let path = &subscribe[k];
            let (radar, control) = extract_path(path.path.as_str());
            let at: usize = self.find_or_add(radar.as_str());
            let name = text_of(control.as_slice());
            let valid;
            if contains_char(&control, '*') {
                valid = true;
                let ghost start = *self;
                let mut n: u8 = 0;
                while n < CONTROL_COUNT
                    invariant
                        n <= CONTROL_COUNT,
                        self.well_formed(),
                        self.mode == Subscribe::Paths,
                        self.timeout == start.timeout,
                        at < self.paths@.len(),
                        self.paths@[at as int].0@ == radar@,
                        name@ == control@,
                        forall|r: Seq<char>, id: ControlId|
                            #[trigger] self.entry(r, id) == if r == radar@ && id.number() < n
                                && wild(control@, id.spec_name()) {
                                Some(path@)
                            } else {
                                start.entry(r, id)
                            },
                    decreases CONTROL_COUNT - n,
                {
                    let id = ControlId::from_u8(n);
                    proof {
                        number_is_inverse(id, n as int);
                    }
                    if wild_match(name.as_str(), id.to_str()) {
                        self.put(at, id, Some(path.copy()));
                    }
                    proof {
                        assert forall|r: Seq<char>, i: ControlId|
                            #[trigger] self.entry(r, i) == if r == radar@ && i.number() < n + 1
                                && wild(control@, i.spec_name()) {
                                Some(path@)
                            } else {
                                start.entry(r, i)
                            } by {
                            number_is_inverse(i, n as int);
                        }
                    }
                    n = n + 1;
                }
                proof {
                    assert forall|r: Seq<char>, id: ControlId|
                        #[trigger] self.entry(r, id) == last_leading(
                            old(self).entry(r, id),
                            subscribe@,
                            k + 1,
                            r,
                            id,
                        ) by {
                        number_in_range(id);
                        assert(start.entry(r, id) == last_leading(
                            old(self).entry(r, id),
                            subscribe@,
                            k as int,
                            r,
                            id,
                        ));
                    }
                }
            } else {
                match ControlId::from_name(name.as_str()) {
                    Some(id) => {
                        valid = true;
                        self.put(at, id, Some(path.copy()));
                    },
                    None => {
                        valid = false;
                    },
                }
            }
            if valid {
                match path.min_period {
                    Some(p) => {
                        if p < period {
                            period = p;
                        }
                    },
                    None => {},
                }
                match path.period {
                    Some(p) => {
                        if p < period {
                            period = p;
                        }
                    },
                    None => {},
                }
            }
            k = k + 1;
        }
        let ghost done = *self;
        self.set_timeout(period);
        proof {
            assert forall|radar: Seq<char>, id: ControlId|
                #[trigger] self.entry(radar, id) == last_leading(
                    old(self).entry(radar, id),
                    subscribe@,
                    subscribe@.len() as int,
                    radar,
                    id,
                ) by {
                assert(self.entry(radar, id) == done.entry(radar, id));
            }
        }
    }

    /// Takes back subscriptions to paths.
    pub fn desubscribe(&mut self, desubscribe: Vec<PathSubscribe>)
        requires
            old(self).well_formed(),
        ensures
            final(self).well_formed(),
            final(self).mode == Subscribe::Paths,
            final(self).timeout == old(self).timeout,
            forall|radar: Seq<char>, id: ControlId|
                #[trigger] final(self).entry(radar, id) == if any_leading(
                    desubscribe@,
                    desubscribe@.len() as int,
                    radar,
                    id,
                ) {
                    None
                } else {
                    old(self).entry(radar, id)
                },
    {
        self.mode = Subscribe::Paths;
        let mut k: usize = 0;
        while k < desubscribe.len()
            invariant
                k <= desubscribe.len(),
                self.well_formed(),
                self.mode == Subscribe::Paths,
                self.timeout == old(self).timeout,
                forall|radar: Seq<char>, id: ControlId|
                    #[trigger] self.entry(radar, id) == if any_leading(
                        desubscribe@,
                        k as int,
                        radar,
                        id,
                    ) {
                        None
                    } else {
                        old(self).entry(radar, id)
                    },
            decreases desubscribe.len() - k,
        {
            let path = &desubscribe[k];
            let (radar, control) = extract_path(path.path.as_str());
            let name = text_of(control.as_slice());
            match self.find(radar.as_str()) {
                None => {
                    proof {
                        assert forall|r: Seq<char>, id: ControlId|
                            #[trigger] self.entry(r, id) == if any_leading(
                                desubscribe@,
                                k + 1,
                                r,
                                id,
                            ) {
                                None
                            } else {
                                old(self).entry(r, id)
                            } by {
                            assert(r == radar@ ==> self.entry(r, id) is None);
                        }
                    }
                },
                Some(at) => {
                    if contains_char(&control, '*') {
                        let ghost start = *self;
                        let mut n: u8 = 0;
                        while n < CONTROL_COUNT
                            invariant
                                n <= CONTROL_COUNT,
                                self.well_formed(),
                                self.mode == Subscribe::Paths,
                                self.timeout == start.timeout,
                                at < self.paths@.len(),
                                self.paths@[at as int].0@ == radar@,
                                name@ == control@,
                                forall|r: Seq<char>, id: ControlId|
                                    #[trigger] self.entry(r, id) == if r == radar@ && id.number()
                                        < n && wild(control@, id.spec_name()) {
                                        None
                                    } else {
                                        start.entry(r, id)
                                    },
                            decreases CONTROL_COUNT - n,
                        {
                            let id = ControlId::from_u8(n);
                            proof {
                                number_is_inverse(id, n as int);
                            }
                            if wild_match(name.as_str(), id.to_str()) {
                                self.put(at, id, None);
                            }
                            proof {
                                assert forall|r: Seq<char>, i: ControlId|
                                    #[trigger] self.entry(r, i) == if r == radar@ && i.number() < n
                                        + 1 && wild(control@, i.spec_name()) {
                                        None
                                    } else {
                                        start.entry(r, i)
                                    } by {
                                    number_is_inverse(i, n as int);
                                }
                            }
                            n = n + 1;
                        }
                        proof {
                            assert forall|r: Seq<char>, id: ControlId|
                                #[trigger] self.entry(r, id) == if any_leading(
                                    desubscribe@,
                                    k + 1,
                                    r,
                                    id,
                                ) {
                                    None
                                } else {
                                    old(self).entry(r, id)
                                } by {
                                number_in_range(id);
                                assert(start.entry(r, id) == start.entry(r, id));
                            }
                        }
                    } else {
                        match ControlId::from_name(name.as_str()) {
                            Some(id) => {
                                self.put(at, id, None);
                            },
                            None => {},
                        }
                    }
                },
            }
            k = k + 1;
        }
    }

    /// The subscription that decides on a control of a radar: the one to the radar itself, or else the
    /// one to all radars. The result is the radar under which it is found.
    pub open spec fn deciding(&self, radar: Seq<char>, id: ControlId) -> Option<Seq<char>> {
        if self.entry(radar, id) is Some {
            Some(radar)
        } else if self.entry("*"@, id) is Some {
            Some("*"@)
        } else {
            None
        }
    }

    /// Whether the value of a control of a radar is sent to the client.
    pub open spec fn sends(&self, radar: Seq<char>, id: ControlId, full: bool, now: int) -> bool {
        match self.mode {
            Subscribe::All => true,
            Subscribe::Nothing => false,
            Subscribe::Paths => match self.deciding(radar, id) {
                Some(key) => is_due(self.entry(key, id)->0, full, now),
                None => false,
            },
        }
    }

    /// What becomes of the subscriptions when the value of a control of a radar is looked at: where it
    /// is sent, the time is recorded.
    pub open spec fn looked_at(
        &self,
        after: &ActiveSubscriptions,
        radar: Seq<char>,
        id: ControlId,
        full: bool,
        now: u64,
    ) -> bool {
        &&& after.mode == self.mode
        &&& after.timeout == self.timeout
        &&& forall|r: Seq<char>, i: ControlId|
            #[trigger] after.entry(r, i) == if self.mode == Subscribe::Paths && i == id
                && self.deciding(radar, id) == Some(r) && self.sends(radar, id, full, now as int) {
                Some(PathView { last_sent: Some(now), ..self.entry(r, i)->0 })
            } else {
                self.entry(r, i)
            }
    }

    /// Decides whether the value of a control of a radar is sent to the client. `full` tells whether
    /// all values are looked at, and not only one that changed.
    pub fn is_subscribed(&mut self, radar: &str, id: ControlId, full: bool, now: u64) -> (r: bool)
        requires
            old(self).well_formed(),
        ensures
            final(self).well_formed(),
            r == old(self).sends(radar@, id, full, now as int),
            old(self).looked_at(final(self), radar@, id, full, now),
    {
        match self.mode {
            Subscribe::All => {
                return true;
            },
            Subscribe::Nothing => {
                return false;
            },
            Subscribe::Paths => {},
        }
        let n: usize = id.as_u8() as usize;
        proof {
            number_in_range(id);
        }
        let mut place: Option<usize> = None;
        match self.find(radar) {
            Some(at) => {
                proof {
                    entry_is(self.paths@, radar@, id, at as int);
                }
                if self.paths[at].1[n].is_some() {
                    place = Some(at);
                }
            },
            None => {},
        }
        if place.is_none() {
            match self.find("*") {
                Some(at) => {
                    proof {
                        entry_is(self.paths@, "*"@, id, at as int);
                    }
                    if self.paths[at].1[n].is_some() {
                        place = Some(at);
                    }
                },
                None => {},
            }
        }
        match place {
            Some(at) => {
                let ghost key = self.paths@[at as int].0@;
                proof {
                    entry_is(self.paths@, key, id, at as int);
                }
                let sent = match &self.paths[at].1[n] {
                    Some(path) => {
                        if check_due(path, full, now) {
                            let mut path = path.copy();
                            path.last_sent = Some(now);
                            Some(path)
                        } else {
                            None
                        }
                    },
                    None => None,
                };
                match sent {
                    Some(path) => {
                        self.put(at, id, Some(path));
                        true
                    },
                    None => false,
                }
            },
            None => false,
        }
    }
}

/// A client that gets everything gets every value.
pub proof fn everything_is_sent(
    s: ActiveSubscriptions,
    radar: Seq<char>,
    id: ControlId,
    full: bool,
    now: int,
)
    requires
        s.mode == Subscribe::All,
    ensures
        s.sends(radar, id, full, now),
{
}

/// A client that is subscribed to paths gets no value that none of them leads to.
pub proof fn nothing_else_is_sent(
    before: ActiveSubscriptions,
    subscribe: Seq<PathSubscribe>,
    after: ActiveSubscriptions,
    radar: Seq<char>,
    id: ControlId,
    full: bool,
    now: int,
)
    requires
        after.mode == Subscribe::Paths,
        forall|r: Seq<char>, i: ControlId|
            #[trigger] after.entry(r, i) == last_leading(
                before.entry(r, i),
                subscribe,
                subscribe.len() as int,
                r,
                i,
            ),
        before.entry(radar, id) is None,
        before.entry("*"@, id) is None,
        forall|k: int|
            0 <= k < subscribe.len() ==> !leads_to((#[trigger] subscribe[k]).path@, radar, id)
                && !leads_to(subscribe[k].path@, "*"@, id),
    ensures
        !after.sends(radar, id, full, now),
{
    none_leading(None, subscribe, subscribe.len() as int, radar, id);
    none_leading(None, subscribe, subscribe.len() as int, "*"@, id);
    assert(after.entry(radar, id) is None);
    assert(after.entry("*"@, id) is None);
}

proof fn none_leading(
    before: Option<PathView>,
    subscribe: Seq<PathSubscribe>,
    n: int,
    radar: Seq<char>,
    id: ControlId,
)
    requires
        0 <= n <= subscribe.len(),
        forall|k: int|
            0 <= k < n ==> !leads_to((#[trigger] subscribe[k]).path@, radar, id),
    ensures
        last_leading(before, subscribe, n, radar, id) == before,
    decreases n,
{
    if n > 0 {
        none_leading(before, subscribe, n - 1, radar, id);
    }
}

/// A client gets no value of a control once it took back every path to it: the one to the control of
/// the radar itself and the one to the control of all radars, as far as it had them.
pub proof fn nothing_is_sent_after_desubscribing(
    before: ActiveSubscriptions,
    desubscribe: Seq<PathSubscribe>,
    after: ActiveSubscriptions,
    radar: Seq<char>,
    id: ControlId,
    full: bool,
    now: int,
)
    requires
        after.mode == Subscribe::Paths,
        forall|r: Seq<char>, i: ControlId|
            #[trigger] after.entry(r, i) == if any_leading(
                desubscribe,
                desubscribe.len() as int,
                r,
                i,
            ) {
                None
            } else {
                before.entry(r, i)
            },
        before.entry(radar, id) is None || exists|k: int|
            0 <= k < desubscribe.len() && leads_to(
                (#[trigger] desubscribe[k]).path@,
                radar,
                id,
            ),
        before.entry("*"@, id) is None || exists|k: int|
            0 <= k < desubscribe.len() && leads_to((#[trigger] desubscribe[k]).path@, "*"@, id),
    ensures
        !after.sends(radar, id, full, now),
{
    if before.entry(radar, id) is Some {
        let k = choose|k: int|
            0 <= k < desubscribe.len() && leads_to(
                (#[trigger] desubscribe[k]).path@,
                radar,
                id,
            );
        some_leading(desubscribe, desubscribe.len() as int, k, radar, id);
    }
    if before.entry("*"@, id) is Some {
        let k = choose|k: int|
            0 <= k < desubscribe.len() && leads_to((#[trigger] desubscribe[k]).path@, "*"@, id);
        some_leading(desubscribe, desubscribe.len() as int, k, "*"@, id);
    }
    assert(after.entry("*"@, id) is None);
    assert(after.entry(radar, id) is None);
}

/// Taking back the paths that a client just subscribed to leaves nothing of them behind: what they
/// lead to is gone, and everything else is as it was before.
pub proof fn desubscribing_undoes_subscribing(
    before: ActiveSubscriptions,
    paths: Seq<PathSubscribe>,
    subscribed: ActiveSubscriptions,
    after: ActiveSubscriptions,
    radar: Seq<char>,
    id: ControlId,
)
    requires
        subscribed.entry(radar, id) == last_leading(
            before.entry(radar, id),
            paths,
            paths.len() as int,
            radar,
            id,
        ),
        after.entry(radar, id) == if any_leading(paths, paths.len() as int, radar, id) {
            None
        } else {
            subscribed.entry(radar, id)
        },
    ensures
        after.entry(radar, id) == if any_leading(paths, paths.len() as int, radar, id) {
            None
        } else {
            before.entry(radar, id)
        },
{
    no_leading(before.entry(radar, id), paths, paths.len() as int, radar, id);
}

proof fn no_leading(
    before: Option<PathView>,
    paths: Seq<PathSubscribe>,
    n: int,
    radar: Seq<char>,
    id: ControlId,
)
    requires
        0 <= n <= paths.len(),
    ensures
        !any_leading(paths, n, radar, id) ==> last_leading(before, paths, n, radar, id) == before,
        any_leading(paths, n, radar, id) ==> exists|k: int|
            0 <= k < n && leads_to((#[trigger] paths[k]).path@, radar, id) && last_leading(
                before,
                paths,
                n,
                radar,
                id,
            ) == Some(paths[k]@),
    decreases n,
{
    if n > 0 {
        no_leading(before, paths, n - 1, radar, id);
        if leads_to(paths[n - 1].path@, radar, id) {
            assert(last_leading(before, paths, n, radar, id) == Some(paths[n - 1]@));
        }
    }
}

/// A client that subscribed to a control of a radar, or to that control of all radars where it has
/// nothing for the radar itself, gets the next value. With fixed delivery it comes when all values are
/// looked at.
pub proof fn subscribed_is_sent(
    before: ActiveSubscriptions,
    subscribe: Seq<PathSubscribe>,
    after: ActiveSubscriptions,
    radar: Seq<char>,
    id: ControlId,
    full: bool,
    now: int,
)
    requires
        after.mode == Subscribe::Paths,
        forall|r: Seq<char>, i: ControlId|
            #[trigger] after.entry(r, i) == last_leading(
                before.entry(r, i),
                subscribe,
                subscribe.len() as int,
                r,
                i,
            ),
        forall|k: int|
            0 <= k < subscribe.len() ==> (#[trigger] subscribe[k]).last_sent is None && (full
                || subscribe[k].policy != Some(Policy::Fixed)),
        any_leading(subscribe, subscribe.len() as int, radar, id) || (any_leading(
            subscribe,
            subscribe.len() as int,
            "*"@,
            id,
        ) && before.entry(radar, id) is None),
    ensures
        after.sends(radar, id, full, now),
{
    no_leading(before.entry(radar, id), subscribe, subscribe.len() as int, radar, id);
    no_leading(before.entry("*"@, id), subscribe, subscribe.len() as int, "*"@, id);
    assert(after.entry(radar, id) is Some || after.entry("*"@, id) is Some);
}

proof fn some_leading(paths: Seq<PathSubscribe>, n: int, k: int, radar: Seq<char>, id: ControlId)
    requires
        0 <= k < n <= paths.len(),
        leads_to(paths[k].path@, radar, id),
    ensures
        any_leading(paths, n, radar, id),
    decreases n,
{
    if k < n - 1 {
        some_leading(paths, n - 1, k, radar, id);
    }
}

/// A value that was just sent is not sent again before its least time is over.
pub proof fn not_sent_too_soon(
    before: ActiveSubscriptions,
    after: ActiveSubscriptions,
    radar: Seq<char>,
    id: ControlId,
    full: bool,
    again: bool,
    then: u64,
    now: u64,
)
    requires
        before.mode == Subscribe::Paths,
        before.sends(radar, id, full, then as int),
        before.looked_at(&after, radar, id, full, then),
        before.entry(before.deciding(radar, id)->0, id)->0.min_period matches Some(p) && then + p
            > now,
    ensures
        !after.sends(radar, id, again, now as int),
{
    let key = before.deciding(radar, id)->0;
    assert(after.entry(key, id) is Some);
    if key != radar {
        assert(after.entry(radar, id) == before.entry(radar, id));
    }
}

/// A star alone stands for every text.
pub proof fn star_matches_all(text: Seq<char>)
    ensures
        wild("*"@, text),
    decreases text.len(),
{
    reveal_strlit("*");
    assert("*"@.skip(1) =~= Seq::empty());
    if text.len() > 0 {
        star_matches_all(text.skip(1));
    } else {
        assert(wild("*"@.skip(1), text));
    }
}

/// A subscription to a star is one to all controls of all radars.
pub proof fn star_leads_everywhere(id: ControlId)
    ensures
        leads_to("*"@, "*"@, id),
{
    reveal_strlit("*");
    reveal_strlit("radars.");
    let s = "*"@;
    assert(without_prefix(s, "radars."@) == s);
    crate::text::first_index_is(s, '.', 1);
    assert(s[0] == '*');
    assert(s.contains('*'));
    star_matches_all(id.spec_name());
}

/// Whether nothing was sent yet, or a period, where there is one, has gone by since.
pub open spec fn is_over(last_sent: Option<u64>, period: Option<u64>, now: int) -> bool {
    last_sent is None || period is None || last_sent->0 + period->0 <= now
}

/// A subscribed value keeps coming: unless delivery is fixed, a value is sent exactly if no least time is
/// set, or nothing was sent yet, or the least time is over since something was sent.
pub proof fn subscribed_values_keep_coming(
    s: ActiveSubscriptions,
    radar: Seq<char>,
    id: ControlId,
    full: bool,
    now: int,
)
    requires
        s.mode == Subscribe::Paths,
        s.deciding(radar, id) is Some,
        s.entry(s.deciding(radar, id)->0, id) matches Some(path) && path.policy != Some(Policy::Fixed),
    ensures
        ({
            let path = s.entry(s.deciding(radar, id)->0, id)->0;
            s.sends(radar, id, full, now) <==> is_over(path.last_sent, path.min_period, now)
        }),
{
}

/// With fixed delivery a value is sent when all values are looked at, and not before its interval and
/// its least time are over.
pub proof fn fixed_values_come_at_their_intervals(
    s: ActiveSubscriptions,
    radar: Seq<char>,
    id: ControlId,
    full: bool,
    now: int,
)
    requires
        s.mode == Subscribe::Paths,
        s.deciding(radar, id) is Some,
        s.entry(s.deciding(radar, id)->0, id) matches Some(path) && path.policy == Some(Policy::Fixed),
    ensures
        ({
            let path = s.entry(s.deciding(radar, id)->0, id)->0;
            s.sends(radar, id, full, now) <==> full && is_over(path.last_sent, path.period, now)
                && is_over(path.last_sent, path.min_period, now)
        }),
{
}

/// The subscription to a radar itself decides on its controls; only without one does that to all radars.
/// Without either nothing is sent.
pub proof fn own_subscription_goes_first(
    s: ActiveSubscriptions,
    radar: Seq<char>,
    id: ControlId,
    full: bool,
    now: int,
)
    ensures
        s.entry(radar, id) is Some ==> s.deciding(radar, id) == Some(radar),
        s.entry(radar, id) is None && s.entry("*"@, id) is Some ==> s.deciding(radar, id) == Some("*"@),
        s.deciding(radar, id) is None <==> s.entry(radar, id) is None && s.entry("*"@, id) is None,
        s.mode == Subscribe::Paths && s.deciding(radar, id) is None ==> !s.sends(radar, id, full, now),
        s.mode == Subscribe::Nothing ==> !s.sends(radar, id, full, now),
{
}

/// That a value was sent is recorded with its subscription and changes nothing else; where it was not
/// sent nothing changes.
pub proof fn sending_is_recorded(
    before: ActiveSubscriptions,
    after: ActiveSubscriptions,
    radar: Seq<char>,
    id: ControlId,
    full: bool,
    now: u64,
    r: Seq<char>,
    i: ControlId,
)
    requires
        before.mode == Subscribe::Paths,
        before.looked_at(&after, radar, id, full, now),
    ensures
        after.mode == before.mode,
        after.timeout == before.timeout,
        !before.sends(radar, id, full, now as int) ==> after.entry(r, i) == before.entry(r, i),
        i != id || Some(r) != before.deciding(radar, id) ==> after.entry(r, i) == before.entry(r, i),
        before.sends(radar, id, full, now as int) ==> (after.entry(
            before.deciding(radar, id)->0,
            id,
        ) matches Some(path) && path.last_sent == Some(now) && {
            let old_path = before.entry(before.deciding(radar, id)->0, id)->0;
            &&& path.path == old_path.path
            &&& path.period == old_path.period
            &&& path.policy == old_path.policy
            &&& path.min_period == old_path.min_period
        }),
        after.deciding(radar, id) == before.deciding(radar, id),
{
    let key = before.deciding(radar, id);
    assert(after.entry(r, i) is Some || after.entry(r, i) is None);
    assert(after.entry(radar, id) is Some == before.entry(radar, id) is Some);
    assert(after.entry("*"@, id) is Some == before.entry("*"@, id) is Some);
}

/// A client that wants a value whenever it changes gets every change, one after the other.
pub proof fn every_change_is_sent(
    before: ActiveSubscriptions,
    after: ActiveSubscriptions,
    radar: Seq<char>,
    id: ControlId,
    full: bool,
    again: bool,
    then: u64,
    now: int,
)
    requires
        before.mode == Subscribe::Paths,
        before.deciding(radar, id) is Some,
        before.entry(before.deciding(radar, id)->0, id) matches Some(path) && path.policy != Some(
            Policy::Fixed,
        ) && path.min_period is None,
        before.looked_at(&after, radar, id, full, then),
    ensures
        before.sends(radar, id, full, then as int),
        after.sends(radar, id, again, now),
{
    let key = before.deciding(radar, id)->0;
    sending_is_recorded(before, after, radar, id, full, then, key, id);
}

/// All values are looked at at least as often as any subscription that leads somewhere asks for, and no
/// more often than the most impatient of them.
pub proof fn most_impatient_decides(start: int, subscribe: Seq<PathSubscribe>, n: int)
    requires
        0 <= n <= subscribe.len(),
    ensures
        ({
            let t = shortest_period(start, subscribe, n);
            &&& t <= start
            &&& forall|k: int|
                0 <= k < n && is_valid((#[trigger] subscribe[k]).path@) ==> {
                    &&& subscribe[k].period matches Some(p) ==> t <= p
                    &&& subscribe[k].min_period matches Some(p) ==> t <= p
                }
            &&& t == start || exists|k: int|
                0 <= k < n && is_valid((#[trigger] subscribe[k]).path@) && (subscribe[k].period
                    == Some(t as u64) || subscribe[k].min_period == Some(t as u64))
        }),
    decreases n,
{
    if n > 0 {
        most_impatient_decides(start, subscribe, n - 1);
        let before = shortest_period(start, subscribe, n - 1);
        let t = shortest_period(start, subscribe, n);
        let last = subscribe[n - 1];
        if t == before && t != start {
            let k = choose|k: int|
                0 <= k < n - 1 && is_valid((#[trigger] subscribe[k]).path@) && (subscribe[k].period
                    == Some(before as u64) || subscribe[k].min_period == Some(before as u64));
            assert(is_valid(subscribe[k].path@));
        }
        if t != before {
            assert(is_valid(last.path@));
            assert(last.period == Some(t as u64) || last.min_period == Some(t as u64));
        }
        assert forall|k: int| 0 <= k < n && is_valid((#[trigger] subscribe[k]).path@) implies {
            &&& subscribe[k].period matches Some(p) ==> t <= p
            &&& subscribe[k].min_period matches Some(p) ==> t <= p
        } by {
            if k < n - 1 {
                assert(is_valid(subscribe[k].path@));
            }
        }
    }
}

proof fn name_is_plain(name: Seq<char>, id: ControlId)
    requires
        same_ignoring_case(name, id.spec_name()),
    ensures
        !name.contains('.'),
        !name.contains('*'),
        control_of_name(name) == Some(id),
{
    names_are_alphanumeric(id);
    let full = id.spec_name();
    assert(lower_all(name).len() == lower_all(full).len());
    assert forall|i: int| 0 <= i < name.len() implies name[i] != '.' && name[i] != '*' by {
        assert(lower_all(name)[i] == lower(name[i]));
        assert(lower_all(full)[i] == lower(full[i]));
        assert(is_alphanumeric(full[i]));
    }
    let chosen = choose|c: ControlId| same_ignoring_case(name, #[trigger] c.spec_name());
    names_differ(id, chosen);
}

/// The name of a control is the path to that control of all radars, and to nothing else.
pub proof fn name_leads_to_all_radars(name: Seq<char>, id: ControlId, r: Seq<char>, i: ControlId)
    requires
        same_ignoring_case(name, id.spec_name()),
    ensures
        leads_to(name, r, i) <==> r == "*"@ && i == id,
        is_valid(name),
{
    name_is_plain(name, id);
    reveal_strlit("radars.");
    assert(!has_prefix(name, "radars."@)) by {
        if has_prefix(name, "radars."@) {
            assert(name.take(7)[6] == "radars."@[6]);
            assert(name[6] == '.');
            assert(name.contains(name[6]));
        }
    }
    assert forall|j: int| 0 <= j < name.len() implies name[j] != '.' by {
        assert(name.contains(name[j]));
    }
    first_index_is(name, '.', name.len() as int);
}

/// The path of a control under its radar leads to that control of that radar, and to nothing else, with
/// or without naming the controls of the radar as such.
pub proof fn path_leads_to_one_radar(
    radar: Seq<char>,
    name: Seq<char>,
    id: ControlId,
    r: Seq<char>,
    i: ControlId,
)
    requires
        !radar.contains('.'),
        same_ignoring_case(name, id.spec_name()),
    ensures
        leads_to("radars."@ + radar + seq!['.'] + name, r, i) <==> r == radar && i == id,
        leads_to("radars."@ + radar + seq!['.'] + "controls."@ + name, r, i) <==> r == radar && i == id,
{
    name_is_plain(name, id);
    reveal_strlit("radars.");
    reveal_strlit("controls.");
    assert(!has_prefix(name, "controls."@)) by {
        if has_prefix(name, "controls."@) {
            assert(name.take(9)[8] == "controls."@[8]);
            assert(name[8] == '.');
            assert(name.contains(name[8]));
        }
    }
    let n = radar.len() as int;
    assert forall|j: int| 0 <= j < n implies radar[j] != '.' by {
        assert(radar.contains(radar[j]));
    }
    let short = "radars."@ + radar + seq!['.'] + name;
    let rest = radar + seq!['.'] + name;
    assert(short.take(7) =~= "radars."@);
    assert(short.skip(7) =~= rest);
    first_index_is(rest, '.', n);
    assert(rest.take(n) =~= radar);
    assert(rest.skip(n + 1) =~= name);
    let long = "radars."@ + radar + seq!['.'] + "controls."@ + name;
    let long_rest = radar + seq!['.'] + "controls."@ + name;
    assert(long.take(7) =~= "radars."@);
    assert(long.skip(7) =~= long_rest);
    first_index_is(long_rest, '.', n);
    assert(long_rest.take(n) =~= radar);
    let tail = "controls."@ + name;
    assert(long_rest.skip(n + 1) =~= tail);
    assert(tail.take(9) =~= "controls."@);
    assert(tail.skip(9) =~= name);
}

/// A pattern without wildcards stands for itself alone.
pub proof fn plain_pattern_matches_itself(pattern: Seq<char>, text: Seq<char>)
    requires
        !pattern.contains('*'),
        !pattern.contains('?'),
    ensures
        wild(pattern, text) <==> pattern == text,
    decreases pattern.len(),
{
    if pattern.len() > 0 {
        assert(pattern.contains(pattern[0]));
        if text.len() > 0 {
            let rest = pattern.skip(1);
            assert forall|c: char| rest.contains(c) implies pattern.contains(c) by {
                let j = choose|j: int| 0 <= j < rest.len() && rest[j] == c;
                assert(pattern[j + 1] == c);
            }
            plain_pattern_matches_itself(rest, text.skip(1));
            if pattern[0] == text[0] && rest == text.skip(1) {
                assert(pattern =~= seq![pattern[0]] + rest);
                assert(text =~= seq![text[0]] + text.skip(1));
            }
            if pattern == text {
                assert(rest == text.skip(1));
            }
        }
    } else {
        assert(text.len() == 0 ==> pattern =~= text);
    }
}

/// A text with a star behind it stands for everything that starts with it.
pub proof fn star_completes_a_text(pattern: Seq<char>, text: Seq<char>)
    requires
        !pattern.contains('*'),
        !pattern.contains('?'),
    ensures
        wild(pattern + "*"@, text) <==> text.len() >= pattern.len() && text.take(pattern.len() as int)
            == pattern,
    decreases pattern.len(),
{
    reveal_strlit("*");
    let all = pattern + "*"@;
    if pattern.len() == 0 {
        assert(all =~= "*"@);
        star_matches_all(text);
        assert(text.take(0) =~= pattern);
    } else {
        assert(pattern.contains(pattern[0]));
        let rest = pattern.skip(1);
        assert forall|c: char| rest.contains(c) implies pattern.contains(c) by {
            let j = choose|j: int| 0 <= j < rest.len() && rest[j] == c;
            assert(pattern[j + 1] == c);
        }
        assert(all[0] == pattern[0]);
        assert(all.skip(1) =~= rest + "*"@);
        if text.len() > 0 {
            star_completes_a_text(rest, text.skip(1));
            let n = pattern.len() as int;
            if text.len() >= n {
                assert(text.take(n).skip(1) =~= text.skip(1).take(n - 1));
                if text[0] == pattern[0] && text.skip(1).take(n - 1) == rest {
                    assert(text.take(n) =~= seq![text[0]] + text.skip(1).take(n - 1));
                    assert(pattern =~= seq![pattern[0]] + rest);
                }
                if text.take(n) == pattern {
                    assert(text.take(n)[0] == text[0]);
                }
            }
        }
    }
}

/// The names of the policies are read back, in any case.
pub proof fn policy_names_are_read_back(s: Seq<char>)
    ensures
        same_ignoring_case(s, "instant"@) ==> policy_of(s) == Some(Policy::Instant),
        same_ignoring_case(s, "ideal"@) ==> policy_of(s) == Some(Policy::Ideal),
        same_ignoring_case(s, "fixed"@) ==> policy_of(s) == Some(Policy::Fixed),
        policy_of(s) is Some ==> same_ignoring_case(s, "instant"@) || same_ignoring_case(s, "ideal"@)
            || same_ignoring_case(s, "fixed"@),
{
    reveal_strlit("instant");
    reveal_strlit("ideal");
    reveal_strlit("fixed");
    assert(lower_all("ideal"@)[0] == 'i');
    assert(lower_all("fixed"@)[0] == 'f');
    assert(lower_all("instant"@).len() == 7 && lower_all("ideal"@).len() == 5);
}

/// Without a word on it a client gets everything, from the values known already; it can ask for nothing.
pub proof fn stream_parameters_are_read(s: Seq<char>)
    ensures
        subscribe_mode(None) == Some(Subscribe::All),
        subscribe_mode(Some("none"@)) == Some(Subscribe::Nothing),
        subscribe_mode(Some("all"@)) == Some(Subscribe::All),
        subscribe_mode(Some("self"@)) == Some(Subscribe::All),
        s != "none"@ && s != "all"@ && s != "self"@ ==> subscribe_mode(Some(s)) is None,
        cached_mode(None) == Some(true),
        cached_mode(Some("true"@)) == Some(true),
        cached_mode(Some("false"@)) == Some(false),
        s != "true"@ && s != "false"@ ==> cached_mode(Some(s)) is None,
{
    reveal_strlit("none");
    reveal_strlit("all");
    reveal_strlit("self");
    reveal_strlit("true");
    reveal_strlit("false");
    assert("none"@[0] == 'n' && "self"@[0] == 's' && "all"@.len() == 3);
    assert("true"@.len() == 4 && "false"@.len() == 5);
}

/// What a client subscribed to last counts: where several of its paths lead to a control, the last of
/// them decides how its values are delivered.
pub proof fn last_subscription_counts(
    before: Option<PathView>,
    subscribe: Seq<PathSubscribe>,
    k: int,
    radar: Seq<char>,
    id: ControlId,
)
    requires
        0 <= k < subscribe.len(),
        leads_to(subscribe[k].path@, radar, id),
        forall|j: int|
            k < j < subscribe.len() ==> !leads_to((#[trigger] subscribe[j]).path@, radar, id),
    ensures
        last_leading(before, subscribe, subscribe.len() as int, radar, id) == Some(subscribe[k]@),
{
    last_from(before, subscribe, subscribe.len() as int, k, radar, id);
}

proof fn last_from(
    before: Option<PathView>,
    subscribe: Seq<PathSubscribe>,
    n: int,
    k: int,
    radar: Seq<char>,
    id: ControlId,
)
    requires
        0 <= k < n <= subscribe.len(),
        leads_to(subscribe[k].path@, radar, id),
        forall|j: int| k < j < n ==> !leads_to((#[trigger] subscribe[j]).path@, radar, id),
    ensures
        last_leading(before, subscribe, n, radar, id) == Some(subscribe[k]@),
    decreases n,
{
    if k < n - 1 {
        last_from(before, subscribe, n - 1, k, radar, id);
    }
}

/// All values are looked at as often as the most impatient subscription asks for: the time between two
/// looks is not longer than any of the times of the subscriptions whose paths lead anywhere, nor than it
/// was, and it is one of them.
pub proof fn values_are_looked_at_often_enough(
    start: int,
    subscribe: Seq<PathSubscribe>,
    n: int,
    k: int,
)
    requires
        0 <= n <= subscribe.len(),
    ensures
        shortest_period(start, subscribe, n) <= start,
        0 <= k < n && is_valid(subscribe[k].path@) ==> {
            &&& subscribe[k].period matches Some(t) ==> shortest_period(start, subscribe, n) <= t
            &&& subscribe[k].min_period matches Some(t) ==> shortest_period(start, subscribe, n) <= t
        },
        shortest_period(start, subscribe, n) == start || exists|j: int|
            0 <= j < n && is_valid((#[trigger] subscribe[j]).path@) && {
                ||| subscribe[j].period matches Some(t) && shortest_period(start, subscribe, n) == t
                ||| subscribe[j].min_period matches Some(t) && shortest_period(start, subscribe, n)
                    == t
            },
    decreases n,
{
    if n > 0 {
        values_are_looked_at_often_enough(start, subscribe, n - 1, k);
        let before = shortest_period(start, subscribe, n - 1);
        let now = shortest_period(start, subscribe, n);
        if now != before {
            assert(is_valid(subscribe[n - 1].path@));
        }
    }
}

} // verus!
