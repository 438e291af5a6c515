//! Clinical days: a record's date once the wake-up time is taken off its
//! timestamp, and the grouping of records by that day.

use vstd::prelude::*;
use crate::record::{DexcomRecord, Record};
use crate::time::{previous_date, Date, DateTime, TimeOfDay};

verus! {

/// The date of `ts` less the time from midnight to `wake_up`: the same date
/// from the wake-up time on, the day before until then, leap seconds counted
/// as chrono counts them; absent where that day
/// would fall before the first day that chrono can represent.
pub open spec fn shifted_date(ts: DateTime, wake_up: TimeOfDay) -> Option<Date> {
    if ts.time.nanos() >= wake_up.nanos() {
        Some(ts.date)
    } else if ts.date.is_first() {
        None
    } else {
        Some(ts.date.previous())
    }
}

/// The clinical day of a record: defined for the timestamped kinds only.
pub open spec fn clinical_day(r: Record, wake_up: TimeOfDay) -> Option<Date> {
    match r.timestamp() {
        Some(ts) => shifted_date(ts, wake_up),
        None => None,
    }
}

/// The clinical day of each record, in order.
pub open spec fn record_days(records: Seq<DexcomRecord>, wake_up: TimeOfDay) -> Seq<Option<Date>> {
    records.map_values(|r: DexcomRecord| clinical_day(r@, wake_up))
}

/// The positions, in increasing order, whose day is `d`.
pub open spec fn positions_of(days: Seq<Option<Date>>, d: Date) -> Seq<usize>
    decreases days.len(),
{
    if days.len() == 0 {
        Seq::empty()
    } else {
        let earlier = positions_of(days.drop_last(), d);
        if days.last() == Some(d) {
            earlier.push((days.len() - 1) as usize)
        } else {
            earlier
        }
    }
}

proof fn lemma_positions_absent(days: Seq<Option<Date>>, d: Date)
    requires
        forall|j: int| 0 <= j < days.len() ==> days[j] != Some(d),
    ensures
        positions_of(days, d).len() == 0,
    decreases days.len(),
{
    if days.len() > 0 {
        lemma_positions_absent(days.drop_last(), d);
    }
}

/// The first position whose day is `d` comes first among those positions.
proof fn lemma_positions_first(days: Seq<Option<Date>>, d: Date, o: int)
    requires
        0 <= o < days.len() <= usize::MAX,
        days[o] == Some(d),
        forall|j: int| 0 <= j < o ==> days[j] != Some(d),
    ensures
        positions_of(days, d).len() > 0,
        positions_of(days, d)[0] == o,
    decreases days.len(),
{
    if o == days.len() - 1 {
        lemma_positions_absent(days.drop_last(), d);
    } else {
        lemma_positions_first(days.drop_last(), d, o);
    }
}

/// Whatever the wake-up time, a record has a clinical day exactly when it is a
/// glucose reading, an insulin dose, a carbohydrate entry or a calibration,
/// leaving out the one case where that day would precede chrono's first date.
pub proof fn lemma_day_defined_for_timestamped(r: Record, wake_up: TimeOfDay)
    requires
        r.wf(),
        wake_up.wf(),
        r.timestamp() matches Some(ts) ==> !(ts.date.is_first() && ts.time.nanos()
            < wake_up.nanos()),
    ensures
        clinical_day(r, wake_up) is Some <==> (r is EGV || r is Insulin || r is Carbs
            || r is Calibration),
{
}

/// The records of one clinical day, by their positions in the input.
pub struct DayGroup {
    pub day: Date,
    pub members: Vec<usize>,
}

impl DexcomRecord {
    /// The clinical day of this record for the given wake-up time.
    pub fn day(&self, wake_up: TimeOfDay) -> (r: Option<Date>)
        requires
            self@.wf(),
            wake_up.wf(),
        ensures
            r == clinical_day(self@, wake_up),
    {
        match self.timestamp() {
            None => None,
            Some(ts) => {
                if ts.time.nanos_since_midnight() >= wake_up.nanos_since_midnight() {
                    Some(ts.date)
                } else {
                    previous_date(ts.date)
                }
            },
        }
    }
}

/// Groups the timestamped records by clinical day. Each group holds, in input
/// order, the positions of all records of its day, and at least one; no two
/// groups share a day; records without a day are in no group; the groups come
/// in the order in which their days first occur.
pub fn group_by_day(records: &Vec<DexcomRecord>, wake_up: TimeOfDay) -> (groups: Vec<DayGroup>)
    requires
        forall|i: int| 0 <= i < records@.len() ==> (#[trigger] records@[i])@.wf(),
        wake_up.wf(),
    ensures
        forall|g: int|
            0 <= g < groups@.len() ==> (#[trigger] groups@[g]).members@ == positions_of(
                record_days(records@, wake_up),
                groups@[g].day,
            ),
        forall|g: int, h: int|
            0 <= g < groups@.len() && 0 <= h < groups@.len() && g != h ==> groups@[g].day
                != groups@[h].day,
        forall|i: int|
            0 <= i < records@.len() && (#[trigger] record_days(records@, wake_up)[i]) is Some
                ==> exists|g: int|
                0 <= g < groups@.len() && Some(#[trigger] groups@[g].day) == record_days(
                    records@,
                    wake_up,
                )[i],
        forall|g: int|
            0 <= g < groups@.len() ==> record_days(records@, wake_up).contains(
                Some(#[trigger] groups@[g].day),
            ),
        forall|g: int| 0 <= g < groups@.len() ==> (#[trigger] groups@[g]).members@.len() > 0,
        forall|g: int, h: int|
            0 <= g < h < groups@.len() ==> (#[trigger] groups@[g]).members@[0]
                < (#[trigger] groups@[h]).members@[0],
{
    let ghost all = record_days(records@, wake_up);
    let n = records.len();
    let mut days: Vec<Option<Date>> = Vec::new();
    let mut i: usize = 0;
    while i < n
        invariant
            n == records@.len(),
            i <= n,
            all == record_days(records@, wake_up),
            wake_up.wf(),
            forall|j: int| 0 <= j < n ==> (#[trigger] records@[j])@.wf(),
            days@ == all.subrange(0, i as int),
        decreases n - i,
    {
        let d = records[i].day(wake_up);
        days.push(d);
        assert(days@ =~= all.subrange(0, i + 1));
        i = i + 1;
    }
    assert(days@ =~= all);
    let keys = distinct_days(&days);
    let mut groups: Vec<DayGroup> = Vec::new();
    let mut g: usize = 0;
    while g < keys.len()
        invariant
            g <= keys@.len(),
            days@ == all,
            all == record_days(records@, wake_up),
            all.len() == records@.len(),
            groups@.len() == g,
            forall|a: int| 0 <= a < g ==> (#[trigger] groups@[a]).day == keys@[a],
            forall|a: int|
                0 <= a < g ==> (#[trigger] groups@[a]).members@ == positions_of(all, keys@[a]),
        decreases keys@.len() - g,
    {
        let key = keys[g];
        let members = positions_of_day(&days, key);
        groups.push(DayGroup { day: key, members });
        g = g + 1;
    }
    assert forall|j: int|
        0 <= j < records@.len() && (#[trigger] record_days(records@, wake_up)[j]) is Some
            implies exists|h: int|
            0 <= h < groups@.len() && Some(#[trigger] groups@[h].day) == record_days(
                records@,
                wake_up,
            )[j] by {
        assert(keys@.contains(all[j]->0));
        let k = choose|k: int| 0 <= k < keys@.len() && keys@[k] == all[j]->0;
        assert(groups@[k].day == keys@[k]);
    }
    assert forall|g: int, h: int| 0 <= g < h < groups@.len() implies (
    #[trigger] groups@[g]).members@[0] < (#[trigger] groups@[h]).members@[0] by {
        assert(positions_of(all, keys@[g])[0] < positions_of(all, keys@[h])[0]);
    }
    assert forall|h: int| 0 <= h < groups@.len() implies all.contains(
        Some(#[trigger] groups@[h].day),
    ) by {
        assert(groups@[h].day == keys@[h]);
    }
    groups
}

/// The distinct days among `days`, each once.
fn distinct_days(days: &Vec<Option<Date>>) -> (keys: Vec<Date>)
    ensures
        forall|a: int, b: int|
            0 <= a < keys@.len() && 0 <= b < keys@.len() && a != b ==> keys@[a] != keys@[b],
        forall|j: int|
            0 <= j < days@.len() && (#[trigger] days@[j]) is Some ==> keys@.contains(
                days@[j]->0,
            ),
        forall|k: int| 0 <= k < keys@.len() ==> days@.contains(Some(#[trigger] keys@[k])),
        forall|k: int|
            0 <= k < keys@.len() ==> (#[trigger] positions_of(days@, keys@[k])).len() > 0,
        forall|a: int, b: int|
            0 <= a < b < keys@.len() ==> (#[trigger] positions_of(days@, keys@[a]))[0]
                < (#[trigger] positions_of(days@, keys@[b]))[0],
{
    let mut keys: Vec<Date> = Vec::new();
    let ghost mut origin: Seq<int> = Seq::empty();
    let mut i: usize = 0;
    while i < days.len()
        invariant
            i <= days@.len(),
            origin.len() == keys@.len(),
            forall|a: int, b: int|
                0 <= a < keys@.len() && 0 <= b < keys@.len() && a != b ==> keys@[a] != keys@[b],
            forall|j: int|
                0 <= j < i && (#[trigger] days@[j]) is Some ==> keys@.contains(days@[j]->0),
            forall|k: int|
                0 <= k < keys@.len() ==> 0 <= #[trigger] origin[k] < i && days@[origin[k]]
                    == Some(keys@[k]),
            forall|a: int, b: int| 0 <= a < b < origin.len() ==> origin[a] < origin[b],
            forall|k: int, j: int|
                0 <= k < keys@.len() && 0 <= j < origin[k] ==> #[trigger] days@[j] != Some(
                    #[trigger] keys@[k],
                ),
        decreases days@.len() - i,
    {
        let ghost old_keys = keys@;
        let ghost old_origin = origin;
        if let Some(day) = days[i] {
            if !holds_date(&keys, day) {
                assert forall|j: int| 0 <= j < i implies days@[j] != Some(day) by {
                    if days@[j] == Some(day) {
                        assert(keys@.contains(days@[j]->0));
                    }
                }
                keys.push(day);
                proof {
                    origin = origin.push(i as int);
                }
                assert(keys@[keys@.len() - 1] == day);
            }
            assert(keys@.contains(day));
        }
        assert forall|x: Date| old_keys.contains(x) implies keys@.contains(x) by {
            let k = choose|k: int| 0 <= k < old_keys.len() && old_keys[k] == x;
            assert(keys@[k] == x);
        }
        i = i + 1;
    }
    assert forall|k: int| 0 <= k < keys@.len() implies days@.contains(Some(#[trigger] keys@[k])) by {
        assert(days@[origin[k]] == Some(keys@[k]));
    }
    assert forall|k: int| 0 <= k < keys@.len() implies (#[trigger] positions_of(
        days@,
        keys@[k],
    )).len() > 0 && positions_of(days@, keys@[k])[0] == origin[k] by {
        lemma_positions_first(days@, keys@[k], origin[k]);
    }
    assert forall|a: int, b: int| 0 <= a < b < keys@.len() implies (#[trigger] positions_of(
        days@,
        keys@[a],
    ))[0] < (#[trigger] positions_of(days@, keys@[b]))[0] by {
        assert(positions_of(days@, keys@[a])[0] == origin[a]);
        assert(positions_of(days@, keys@[b])[0] == origin[b]);
    }
    keys
}

/// Whether `d` is among `keys`.
fn holds_date(keys: &Vec<Date>, d: Date) -> (r: bool)
    ensures
        r == keys@.contains(d),
{
    let mut k: usize = 0;
    while k < keys.len()
        invariant
            k <= keys@.len(),
            forall|a: int| 0 <= a < k ==> keys@[a] != d,
        decreases keys@.len() - k,
    {
        if keys[k] == d {
            assert(keys@[k as int] == d);
            return true;
        }
        k = k + 1;
    }
    false
}

/// The positions, in increasing order, whose day is `key`.
fn positions_of_day(days: &Vec<Option<Date>>, key: Date) -> (r: Vec<usize>)
    ensures
        r@ == positions_of(days@, key),
{
    let mut members: Vec<usize> = Vec::new();
    let mut j: usize = 0;
    while j < days.len()
        invariant
            j <= days@.len(),
            members@ == positions_of(days@.subrange(0, j as int), key),
        decreases days@.len() - j,
    {
        proof {
            assert(days@.subrange(0, j + 1).drop_last() =~= days@.subrange(0, j as int));
        }
        match days[j] {
            Some(d) => {
                if d == key {
                    members.push(j);
                }
            },
            None => {},
        }
        j = j + 1;
    }
    assert(days@.subrange(0, j as int) =~= days@);
    members
}

} // verus!
