//! The ranges of a radar, by their distances.
use vstd::prelude::*;

use crate::controls::Ranges;
use crate::definition::descriptions_view;
use crate::text::{decimal, digits_value, format_decimal};

verus! {

/// A metric range is a multiple of this distance; all others are nautical.
pub const METRIC_STEP: i32 = 25;

/// A number of thousandths, without zeros at the end of the fraction.
pub open spec fn thousandths(n: nat) -> Seq<char> {
    let f = n % 1000;
    let tenths = "."@ + decimal(f / 100);
    let hundredths = tenths + decimal(f / 10 % 10);
    decimal(n / 1000) + if f == 0 {
        Seq::empty()
    } else if f % 100 == 0 {
        tenths
    } else if f % 10 == 0 {
        hundredths
    } else {
        hundredths + decimal(f % 10)
    }
}

/// The name of a range: metric ranges are told in meters or kilometers, all others in nautical miles,
/// rounded to a thousandth.
pub open spec fn range_name(distance: int) -> Seq<char> {
    if distance % METRIC_STEP as int != 0 {
        thousandths(((distance * 1000 + 926) / 1852) as nat) + " nm"@
    } else if distance >= 1000 {
        thousandths(distance as nat) + " km"@
    } else {
        decimal(distance as nat) + " m"@
    }
}

/// Those of some ranges that are metric, or those that are not.
pub open spec fn of_system(ranges: Seq<(i32, Seq<char>)>, metric: bool) -> Seq<(i32, Seq<char>)>
    decreases ranges.len(),
{
    if ranges.len() == 0 {
        Seq::empty()
    } else if (ranges.last().0 as int % METRIC_STEP as int == 0) == metric {
        of_system(ranges.drop_last(), metric).push(ranges.last())
    } else {
        of_system(ranges.drop_last(), metric)
    }
}

/// The ranges with given distances, each once, from the shortest to the longest, with their names.
/// What is no distance is left out.
pub open spec fn are_ranges_of(ranges: Seq<(i32, Seq<char>)>, distances: Seq<i32>) -> bool {
    &&& forall|i: int, j: int| 0 <= i < j < ranges.len() ==> ranges[i].0 < ranges[j].0
    &&& forall|i: int|
        0 <= i < ranges.len() ==> 0 < (#[trigger] ranges[i]).0 && distances.contains(ranges[i].0)
            && ranges[i].1 == range_name(ranges[i].0 as int)
    &&& forall|d: i32| #[trigger]
        distances.contains(d) && d > 0 ==> exists|i: int|
            0 <= i < ranges.len() && (#[trigger] ranges[i]).0 == d
}

fn format_thousandths(n: u64) -> (s: String)
    ensures
        s@ == thousandths(n as nat),
{
    let f: u64 = n % 1000;
    let mut s = format_decimal(n / 1000);
    if f != 0 {
        let mut fraction: String = String::from_str(".");
        fraction.append(format_decimal(f / 100).as_str());
        if f % 100 != 0 {
            fraction.append(format_decimal(f / 10 % 10).as_str());
            if f % 10 != 0 {
                fraction.append(format_decimal(f % 10).as_str());
            }
        }
        s.append(fraction.as_str());
    }
    s
}

fn format_range(distance: i32) -> (s: String)
    requires
        distance > 0,
    ensures
        s@ == range_name(distance as int),
{
    let d: u64 = distance as u64;
    if distance % METRIC_STEP != 0 {
        let mut s = format_thousandths((d * 1000 + 926) / 1852);
        s.append(" nm");
        s
    } else if distance >= 1000 {
        let mut s = format_thousandths(d);
        s.append(" km");
        s
    } else {
        let mut s = format_decimal(d);
        s.append(" m");
        s
    }
}

/// Distances that go up.
pub open spec fn going_up(distances: Seq<i32>) -> bool {
    forall|i: int, j: int| 0 <= i < j < distances.len() ==> distances[i] < distances[j]
}

/// Puts a distance in its place, unless it is there.
fn put(distances: &mut Vec<i32>, d: i32)
    requires
        going_up(old(distances)@),
    ensures
        going_up(final(distances)@),
        forall|x: i32| #[trigger]
            final(distances)@.contains(x) == (old(distances)@.contains(x) || x == d),
{
    let ghost before = distances@;
    let mut i: usize = 0;
    while i < distances.len() && distances[i] < d
        invariant
            i <= distances.len(),
            distances@ == before,
            forall|j: int| 0 <= j < i ==> before[j] < d,
        decreases distances.len() - i,
    {
        i = i + 1;
    }
    if i < distances.len() && distances[i] == d {
        assert(before[i as int] == d);
        return;
    }
    distances.insert(i, d);
    proof {
        let after = distances@;
        assert(after =~= before.insert(i as int, d));
        assert(after[i as int] == d);
        assert forall|x: i32| #[trigger] after.contains(x) == (before.contains(x) || x == d) by {
            if before.contains(x) {
                let j = choose|j: int| 0 <= j < before.len() && before[j] == x;
                if j < i {
                    assert(after[j] == x);
                } else {
                    assert(after[j + 1] == x);
                }
            }
            if after.contains(x) {
                let j = choose|j: int| 0 <= j < after.len() && after[j] == x;
                if j < i {
                    assert(before[j] == x);
                } else if j > i {
                    assert(before[j - 1] == x);
                }
            }
        }
    }
}

impl Ranges {
    /// The ranges with given distances, all of them and by unit system.
    pub open spec fn are_by_distance(&self, distances: Seq<i32>) -> bool {
        &&& are_ranges_of(descriptions_view(self.all@), distances)
        &&& descriptions_view(self.metric@) == of_system(descriptions_view(self.all@), true)
        &&& descriptions_view(self.nautical@) == of_system(descriptions_view(self.all@), false)
        &&& descriptions_view(self.mixed@) == descriptions_view(self.all@)
    }

    /// Makes the ranges with given distances.
    pub fn new_by_distance(distances: &Vec<i32>) -> (r: Ranges)
        ensures
            r.are_by_distance(distances@),
    {
        let mut sorted: Vec<i32> = Vec::new();
        let mut i: usize = 0;
        while i < distances.len()
            invariant
                i <= distances.len(),
                going_up(sorted@),
                forall|x: i32| #[trigger]
                    sorted@.contains(x) == (distances@.take(i as int).contains(x) && x > 0),
            decreases distances.len() - i,
        {
            let d: i32 = distances[i];
            let ghost earlier = sorted@;
            if d > 0 {
                put(&mut sorted, d);
            }
            proof {
                let now = distances@.take(i + 1);
                assert(now =~= distances@.take(i as int).push(d));
                assert forall|x: i32| #[trigger]
                    sorted@.contains(x) == (now.contains(x) && x > 0) by {
                    assert(earlier.contains(x) == (distances@.take(i as int).contains(x) && x > 0));
                    assert(now[i as int] == d);
                    if distances@.take(i as int).contains(x) {
                        let j = choose|j: int| 0 <= j < i && distances@.take(i as int)[j] == x;
                        assert(now[j] == x);
                    }
                }
            }
            i = i + 1;
        }
        assert(distances@.take(i as int) =~= distances@);
        assert forall|i: int| 0 <= i < sorted@.len() implies (#[trigger] sorted@[i]) > 0 by {
            assert(sorted@.contains(sorted@[i]));
        }
        let mut r = Ranges::empty();
        let mut k: usize = 0;
        assert(descriptions_view(r.all@) =~= Seq::empty());
        assert(descriptions_view(r.metric@) =~= Seq::empty());
        assert(descriptions_view(r.nautical@) =~= Seq::empty());
        assert(descriptions_view(r.mixed@) =~= Seq::empty());
        while k < sorted.len()
            invariant
                k <= sorted.len(),
                forall|i: int| 0 <= i < sorted@.len() ==> (#[trigger] sorted@[i]) > 0,
                r.all@.len() == k,
                forall|i: int|
                    0 <= i < k ==> (#[trigger] descriptions_view(r.all@)[i]).0 == sorted@[i]
                        && descriptions_view(r.all@)[i].1 == range_name(sorted@[i] as int),
                descriptions_view(r.metric@) == of_system(descriptions_view(r.all@), true),
                descriptions_view(r.nautical@) == of_system(descriptions_view(r.all@), false),
                descriptions_view(r.mixed@) == descriptions_view(r.all@),
            decreases sorted.len() - k,
        {
            let d: i32 = sorted[k];
            let ghost before = r;
            let name = format_range(d);
            let ghost entry = (d, name@);
            if d % METRIC_STEP == 0 {
                r.metric.push((d, name.clone()));
                assert(descriptions_view(r.metric@) =~= descriptions_view(before.metric@).push(entry));
            } else {
                r.nautical.push((d, name.clone()));
                assert(descriptions_view(r.nautical@) =~= descriptions_view(
                    before.nautical@,
                ).push(entry));
            }
            r.mixed.push((d, name.clone()));
            r.all.push((d, name));
            proof {
                assert(descriptions_view(r.mixed@) =~= descriptions_view(before.mixed@).push(entry));
                let all = descriptions_view(r.all@);
                assert(all =~= descriptions_view(before.all@).push(entry));
                assert(all.drop_last() =~= descriptions_view(before.all@));
                assert(all.last() == entry);
                assert forall|i: int| 0 <= i < k + 1 implies (#[trigger] all[i]).0 == sorted@[i]
                    && all[i].1 == range_name(sorted@[i] as int) by {
                    if i < k {
                        assert(all[i] == descriptions_view(before.all@)[i]);
                    }
                }
            }
            k = k + 1;
        }
        proof {
            let all = descriptions_view(r.all@);
            assert forall|i: int| 0 <= i < all.len() implies 0 < (#[trigger] all[i]).0
                && distances@.contains(all[i].0) && all[i].1 == range_name(all[i].0 as int) by {
                assert(sorted@.contains(sorted@[i]));
            }
            assert forall|d: i32| #[trigger] distances@.contains(d) && d > 0 implies exists|i: int|
                0 <= i < all.len() && (#[trigger] all[i]).0 == d by {
                assert(sorted@.contains(d));
                let i = choose|i: int| 0 <= i < sorted@.len() && sorted@[i] == d;
                assert(all[i].0 == d);
            }
        }
        r
    }
}

/// Every range is either metric or nautical.
pub proof fn systems_divide_the_ranges(ranges: Seq<(i32, Seq<char>)>, range: (i32, Seq<char>))
    requires
        ranges.contains(range),
    ensures
        of_system(ranges, true).contains(range) != of_system(ranges, false).contains(range),
{
    system_is(ranges, true, range);
    system_is(ranges, false, range);
}

proof fn system_is(ranges: Seq<(i32, Seq<char>)>, metric: bool, range: (i32, Seq<char>))
    ensures
        of_system(ranges, metric).contains(range) == (ranges.contains(range) && (range.0 as int
            % METRIC_STEP as int == 0) == metric),
    decreases ranges.len(),
{
    if ranges.len() > 0 {
        let rest = ranges.drop_last();
        let last = ranges.last();
        system_is(rest, metric, range);
        assert(ranges[ranges.len() - 1] == last);
        assert(ranges.contains(range) == (rest.contains(range) || range == last)) by {
            if rest.contains(range) {
                let j = choose|j: int| 0 <= j < rest.len() && rest[j] == range;
                assert(ranges[j] == range);
            }
            if ranges.contains(range) && range != last {
                let j = choose|j: int| 0 <= j < ranges.len() && ranges[j] == range;
                assert(rest[j] == range);
            }
        }
        let some = of_system(rest, metric);
        let all = some.push(last);
        assert(all[some.len() as int] == last);
        assert(all.contains(range) == (some.contains(range) || range == last)) by {
            if some.contains(range) {
                let j = choose|j: int| 0 <= j < some.len() && some[j] == range;
                assert(all[j] == range);
            }
            if all.contains(range) && range != last {
                let j = choose|j: int| 0 <= j < all.len() && all[j] == range;
                assert(some[j] == range);
            }
        }
    }
}

/// A range is metric exactly if its distance is a multiple of 25 meters, and is listed with those of its
/// system.
pub proof fn metric_ranges_are_multiples(ranges: Seq<(i32, Seq<char>)>, range: (i32, Seq<char>))
    ensures
        of_system(ranges, true).contains(range) <==> ranges.contains(range) && range.0 as int % 25 == 0,
        of_system(ranges, false).contains(range) <==> ranges.contains(range) && range.0 as int % 25 != 0,
{
    system_is(ranges, true, range);
    system_is(ranges, false, range);
}

/// The ranges of a system keep the order that they have among all ranges.
pub proof fn systems_keep_the_order(ranges: Seq<(i32, Seq<char>)>, metric: bool)
    requires
        forall|i: int, j: int| 0 <= i < j < ranges.len() ==> ranges[i].0 < ranges[j].0,
    ensures
        forall|i: int, j: int|
            0 <= i < j < of_system(ranges, metric).len() ==> of_system(ranges, metric)[i].0
                < of_system(ranges, metric)[j].0,
    decreases ranges.len(),
{
    if ranges.len() > 0 {
        let rest = ranges.drop_last();
        let last = ranges.last();
        let some = of_system(rest, metric);
        systems_keep_the_order(rest, metric);
        assert forall|i: int| 0 <= i < some.len() implies some[i].0 < last.0 by {
            assert(some.contains(some[i]));
            system_is(rest, metric, some[i]);
            let k = choose|k: int| 0 <= k < rest.len() && rest[k] == some[i];
            assert(ranges[k].0 < ranges[ranges.len() - 1].0);
        }
    }
}

/// A number of thousandths reads as it is written: the whole part, and behind a point as many digits of
/// the fraction as there are, without zeros at the end.
pub proof fn thousandths_are_read_back(n: nat)
    ensures
        n % 1000 == 0 ==> thousandths(n) == decimal(n / 1000),
        n % 1000 != 0 ==> ({
            let s = thousandths(n);
            let k = decimal(n / 1000).len() as int;
            let fraction = s.skip(k + 1);
            &&& s.len() > k + 1
            &&& s.take(k) == decimal(n / 1000)
            &&& s[k] == '.'
            &&& fraction.last() != '0'
            &&& 1 <= fraction.len() <= 3
            &&& fraction.len() == 1 ==> digits_value(fraction) * 100 == n % 1000
            &&& fraction.len() == 2 ==> digits_value(fraction) * 10 == n % 1000
            &&& fraction.len() == 3 ==> digits_value(fraction) == n % 1000
        }),
{
    reveal_strlit(".");
    let f = n % 1000;
    let whole = decimal(n / 1000);
    let k = whole.len() as int;
    if f == 0 {
        assert(thousandths(n) =~= whole);
    } else {
        let a = decimal(f / 100);
        let b = decimal(f / 10 % 10);
        let c = decimal(f % 10);
        reveal_with_fuel(digits_value, 4);
        let s = thousandths(n);
        assert(s.take(k) =~= whole);
        assert(s[k] == '.');
        let fraction = s.skip(k + 1);
        if f % 100 == 0 {
            assert(fraction =~= a);
            assert(fraction.drop_last() =~= Seq::empty());
        } else if f % 10 == 0 {
            assert(fraction =~= a + b);
            assert(fraction.drop_last() =~= a);
            assert(fraction.drop_last().drop_last() =~= Seq::empty());
        } else {
            assert(fraction =~= a + b + c);
            assert(fraction.drop_last() =~= a + b);
            assert(fraction.drop_last().drop_last() =~= a);
            assert(fraction.drop_last().drop_last().drop_last() =~= Seq::empty());
        }
    }
}

/// The name of a range tells its distance: a metric one in meters, or in kilometers from one on, and a
/// nautical one in miles of 1852 meters, to the nearest thousandth.
pub proof fn names_tell_the_distance(distance: int, t: nat)
    requires
        0 < distance <= i32::MAX,
    ensures
        distance % 25 == 0 && distance < 1000 ==> range_name(distance) == decimal(distance as nat)
            + " m"@,
        distance % 25 == 0 && distance >= 1000 ==> range_name(distance) == thousandths(
            distance as nat,
        ) + " km"@,
        distance % 25 != 0 && 1852 * t - 926 <= 1000 * distance < 1852 * t + 926 ==> range_name(distance)
            == thousandths(t) + " nm"@,
{
}

/// Every positive distance becomes a range, with its name, and nothing else does.
pub proof fn distances_become_ranges(
    ranges: Seq<(i32, Seq<char>)>,
    distances: Seq<i32>,
    d: i32,
)
    requires
        are_ranges_of(ranges, distances),
    ensures
        ranges.contains((d, range_name(d as int))) == (distances.contains(d) && d >= 1),
{
    if distances.contains(d) && d >= 1 {
        let i = choose|i: int| 0 <= i < ranges.len() && (#[trigger] ranges[i]).0 == d;
        assert(ranges[i] == (d, range_name(d as int)));
    }
    if ranges.contains((d, range_name(d as int))) {
        let i = choose|i: int| 0 <= i < ranges.len() && ranges[i] == (d, range_name(d as int));
        assert(ranges[i].0 == d);
    }
}

/// A range belongs to the metric system where its distance is a multiple of 25 meters, and else to the
/// nautical one. Mixed ranges are all ranges.
pub proof fn every_range_has_its_system(ranges: Ranges, distances: Seq<i32>, i: int)
    requires
        ranges.are_by_distance(distances),
        0 <= i < ranges.all@.len(),
    ensures
        descriptions_view(ranges.metric@).contains(descriptions_view(ranges.all@)[i]) == (
        ranges.all@[i].0 % 25 == 0),
        descriptions_view(ranges.nautical@).contains(descriptions_view(ranges.all@)[i]) == (
        ranges.all@[i].0 % 25 != 0),
        descriptions_view(ranges.mixed@) == descriptions_view(ranges.all@),
        are_ranges_of(descriptions_view(ranges.all@), distances),
{
    let all = descriptions_view(ranges.all@);
    assert(all[i].0 == ranges.all@[i].0);
    picked_by_distance(all, true, all[i]);
    picked_by_distance(all, false, all[i]);
    assert(all.contains(all[i]));
}

proof fn picked_by_distance(ranges: Seq<(i32, Seq<char>)>, metric: bool, range: (i32, Seq<char>))
    ensures
        of_system(ranges, metric).contains(range) == (ranges.contains(range) && (range.0 % 25 == 0)
            == metric),
    decreases ranges.len(),
{
    if ranges.len() > 0 {
        let rest = ranges.drop_last();
        let last = ranges.last();
        picked_by_distance(rest, metric, range);
        assert(ranges =~= rest.push(last));
        assert(ranges.contains(range) == (rest.contains(range) || range == last)) by {
            assert(ranges[ranges.len() - 1] == last);
            if rest.contains(range) {
                let j = choose|j: int| 0 <= j < rest.len() && rest[j] == range;
                assert(ranges[j] == range);
            }
        }
        let picked = of_system(rest, metric);
        let with = picked.push(last);
        assert(with.contains(range) == (picked.contains(range) || range == last)) by {
            assert(with[picked.len() as int] == last);
            if picked.contains(range) {
                let j = choose|j: int| 0 <= j < picked.len() && picked[j] == range;
                assert(with[j] == range);
            }
        }
    }
}

} // verus!
