//! Per-person best-ever records: force, velocity and acceleration maxima.
//!
//! One record exists per person identifier; it is created zero-initialised
//! on that person's first event and each maximum only ever increases, until
//! an explicit reset clears the whole table.

use vstd::prelude::*;

use crate::detect::SimpleCombatEvent;

verus! {

/// The best-ever values observed for one person. Force in millinewtons,
/// velocity in mm/s, acceleration in mm/s^2.
#[derive(Debug, Clone)]
pub struct CompetitorMaxStats {
    pub fighter_id: u8,
    pub competitor_name: String,
    pub max_force: u64,
    pub max_velocity: u64,
    pub max_acceleration: u64,
}

/// A metric whose stored maximum was just exceeded.
#[derive(Debug, Clone, Copy, PartialEq, Eq, Structural)]
pub enum Metric {
    Force,
    Velocity,
    Acceleration,
}

/// What a recorded event changed: the updated record and the metrics on
/// which it set a new best, in the fixed order force, velocity,
/// acceleration.
#[derive(Debug, Clone)]
pub struct StatsUpdate {
    pub stats: CompetitorMaxStats,
    pub new_records: Vec<Metric>,
}

/// The process-wide table of per-person records.
pub struct MaxStatsStore {
    pub records: Vec<CompetitorMaxStats>,
}

/// The first record with the given person identifier, if any.
pub open spec fn spec_lookup(records: Seq<CompetitorMaxStats>, id: u8) -> Option<
    CompetitorMaxStats,
>
    decreases records.len(),
{
    if records.len() == 0 {
        None
    } else if records[0].fighter_id == id {
        Some(records[0])
    } else {
        spec_lookup(records.subrange(1, records.len() as int), id)
    }
}

/// Each person identifier occurs at most once in the table.
pub open spec fn store_wf(s: MaxStatsStore) -> bool {
    forall|i: int, j: int|
        0 <= i < j < s.records@.len() ==> s.records@[i].fighter_id != s.records@[j].fighter_id
}

/// The stored maximum force for a person, zero when no record exists yet.
pub open spec fn spec_stored_force(records: Seq<CompetitorMaxStats>, id: u8) -> int {
    match spec_lookup(records, id) {
        Some(r) => r.max_force as int,
        None => 0,
    }
}

/// The stored maximum velocity for a person, zero when no record exists.
pub open spec fn spec_stored_velocity(records: Seq<CompetitorMaxStats>, id: u8) -> int {
    match spec_lookup(records, id) {
        Some(r) => r.max_velocity as int,
        None => 0,
    }
}

/// The stored maximum acceleration for a person, zero when no record
/// exists.
pub open spec fn spec_stored_acceleration(records: Seq<CompetitorMaxStats>, id: u8) -> int {
    match spec_lookup(records, id) {
        Some(r) => r.max_acceleration as int,
        None => 0,
    }
}

/// The event strictly exceeds the stored maximum force.
pub open spec fn spec_force_exceeded(records: Seq<CompetitorMaxStats>, ev: SimpleCombatEvent) -> bool {
    ev.force_mn matches Some(f) && f as int > spec_stored_force(records, ev.fighter_id)
}

/// The event strictly exceeds the stored maximum velocity.
pub open spec fn spec_velocity_exceeded(
    records: Seq<CompetitorMaxStats>,
    ev: SimpleCombatEvent,
) -> bool {
    ev.velocity_mm_s matches Some(v) && v as int > spec_stored_velocity(records, ev.fighter_id)
}

/// The event strictly exceeds the stored maximum acceleration.
pub open spec fn spec_acceleration_exceeded(
    records: Seq<CompetitorMaxStats>,
    ev: SimpleCombatEvent,
) -> bool {
    ev.acceleration_mm_s2 matches Some(a) && a as int > spec_stored_acceleration(
        records,
        ev.fighter_id,
    )
}

/// The force stored after recording the event.
pub open spec fn spec_new_force(records: Seq<CompetitorMaxStats>, ev: SimpleCombatEvent) -> int {
    if spec_force_exceeded(records, ev) {
        ev.force_mn->Some_0 as int
    } else {
        spec_stored_force(records, ev.fighter_id)
    }
}

/// The velocity stored after recording the event.
pub open spec fn spec_new_velocity(records: Seq<CompetitorMaxStats>, ev: SimpleCombatEvent) -> int {
    if spec_velocity_exceeded(records, ev) {
        ev.velocity_mm_s->Some_0 as int
    } else {
        spec_stored_velocity(records, ev.fighter_id)
    }
}

/// The acceleration stored after recording the event.
pub open spec fn spec_new_acceleration(
    records: Seq<CompetitorMaxStats>,
    ev: SimpleCombatEvent,
) -> int {
    if spec_acceleration_exceeded(records, ev) {
        ev.acceleration_mm_s2->Some_0 as int
    } else {
        spec_stored_acceleration(records, ev.fighter_id)
    }
}

/// The exceeded-metric names reported for one recorded event, in the
/// fixed order force, velocity, acceleration.
pub open spec fn spec_exceeded_list(fe: bool, ve: bool, ae: bool) -> Seq<Metric> {
    (if fe {
        seq![Metric::Force]
    } else {
        Seq::empty()
    }) + (if ve {
        seq![Metric::Velocity]
    } else {
        Seq::empty()
    }) + (if ae {
        seq![Metric::Acceleration]
    } else {
        Seq::empty()
    })
}

/// A record found at index `i`, with no earlier record for the same
/// person, is what `spec_lookup` denotes.
proof fn lemma_lookup_at_index(records: Seq<CompetitorMaxStats>, id: u8, i: int)
    requires
        0 <= i < records.len(),
        records[i].fighter_id == id,
        forall|j: int| 0 <= j < i ==> records[j].fighter_id != id,
    ensures
        spec_lookup(records, id) == Some(records[i]),
    decreases records.len(),
{
    if i > 0 {
        let tail = records.subrange(1, records.len() as int);
        lemma_lookup_at_index(tail, id, i - 1);
    }
}

/// When no record carries the identifier, `spec_lookup` finds none.
proof fn lemma_lookup_absent(records: Seq<CompetitorMaxStats>, id: u8)
    requires
        forall|j: int| 0 <= j < records.len() ==> records[j].fighter_id != id,
    ensures
        spec_lookup(records, id) is None,
    decreases records.len(),
{
    if records.len() > 0 {
        let tail = records.subrange(1, records.len() as int);
        lemma_lookup_absent(tail, id);
    }
}

/// Replacing the record at `i` by one with the same identifier leaves
/// every other identifier's lookup unchanged.
proof fn lemma_lookup_update_other(
    records: Seq<CompetitorMaxStats>,
    i: int,
    r: CompetitorMaxStats,
    id2: u8,
)
    requires
        0 <= i < records.len(),
        records[i].fighter_id == r.fighter_id,
        id2 != r.fighter_id,
    ensures
        spec_lookup(records.update(i, r), id2) == spec_lookup(records, id2),
    decreases records.len(),
{
    let updated = records.update(i, r);
    if records.len() > 0 {
        if i == 0 {
            assert(updated.subrange(1, updated.len() as int) =~= records.subrange(
                1,
                records.len() as int,
            ));
        } else {
            let tail = records.subrange(1, records.len() as int);
            lemma_lookup_update_other(tail, i - 1, r, id2);
            assert(updated.subrange(1, updated.len() as int) =~= tail.update(i - 1, r));
        }
    }
}

/// Appending a record for one person leaves every other identifier's
/// lookup unchanged.
proof fn lemma_lookup_push_other(records: Seq<CompetitorMaxStats>, r: CompetitorMaxStats, id2: u8)
    requires
        id2 != r.fighter_id,
    ensures
        spec_lookup(records.push(r), id2) == spec_lookup(records, id2),
    decreases records.len(),
{
    let pushed = records.push(r);
    if records.len() == 0 {
        assert(pushed[0] == r);
        assert(pushed.subrange(1, pushed.len() as int) =~= Seq::<CompetitorMaxStats>::empty());
        lemma_lookup_empty(id2);
        assert(spec_lookup(pushed, id2) is None);
        assert(spec_lookup(records, id2) is None);
    } else {
        assert(pushed[0] == records[0]);
        let tail = records.subrange(1, records.len() as int);
        lemma_lookup_push_other(tail, r, id2);
        assert(pushed.subrange(1, pushed.len() as int) =~= tail.push(r));
    }
}

/// In an empty table every lookup finds nothing: after a reset every
/// query reports "not found".
pub proof fn lemma_lookup_empty(id: u8)
    ensures
        spec_lookup(Seq::<CompetitorMaxStats>::empty(), id) is None,
{
}

impl MaxStatsStore {
    /// An empty table.
    pub fn new() -> (s: Self)
        ensures
            s.records@ == Seq::<CompetitorMaxStats>::empty(),
            store_wf(s),
    {
        MaxStatsStore { records: Vec::new() }
    }

    /// The index of the record for `id`, when one exists.
    fn find_index(&self, id: u8) -> (r: Option<usize>)
        ensures
            r matches Some(i) ==> i < self.records@.len() && self.records@[i as int].fighter_id
                == id && spec_lookup(self.records@, id) == Some(self.records@[i as int]) && (
            forall|j: int| 0 <= j < i ==> self.records@[j].fighter_id != id),
            r is None ==> spec_lookup(self.records@, id) is None && (forall|j: int|
                0 <= j < self.records@.len() ==> self.records@[j].fighter_id != id),
    {
        let n = self.records.len();
        let mut i: usize = 0;
        while i < n
            invariant
                n == self.records@.len(),
                i <= n,
                forall|j: int| 0 <= j < i ==> self.records@[j].fighter_id != id,
            decreases n - i,
        {
            if self.records[i].fighter_id == id {
                proof {
                    lemma_lookup_at_index(self.records@, id, i as int);
                }
                return Some(i);
            }
            i += 1;
        }
        proof {
            lemma_lookup_absent(self.records@, id);
        }
        None
    }

    /// Copies the record at `idx`.
    fn snapshot_at(&self, idx: usize) -> (r: CompetitorMaxStats)
        requires
            idx < self.records@.len(),
        ensures
            r == self.records@[idx as int],
    {
        let rec = &self.records[idx];
        CompetitorMaxStats {
            fighter_id: rec.fighter_id,
            competitor_name: rec.competitor_name.clone(),
            max_force: rec.max_force,
            max_velocity: rec.max_velocity,
            max_acceleration: rec.max_acceleration,
        }
    }

    /// Records one event: looks up (or creates, zero-initialised) the
    /// record for the event's person, raises each stored maximum that the
    /// event strictly exceeds, and reports the updated record together
    /// with the exceeded metrics — or nothing when no maximum moved.
    /// Every stored maximum is monotonically non-decreasing across calls,
    /// and records of other persons are untouched.
    pub fn record(&mut self, event: &SimpleCombatEvent) -> (r: Option<StatsUpdate>)
        requires
            store_wf(*old(self)),
        ensures
            store_wf(*final(self)),
            spec_lookup(final(self).records@, event.fighter_id) matches Some(rec) && {
                &&& rec.fighter_id == event.fighter_id
                &&& rec.competitor_name@ == (match spec_lookup(
                    old(self).records@,
                    event.fighter_id,
                ) {
                    Some(r0) => r0.competitor_name@,
                    None => event.competitor_name@,
                })
                &&& rec.max_force as int == spec_new_force(old(self).records@, *event)
                &&& rec.max_velocity as int == spec_new_velocity(old(self).records@, *event)
                &&& rec.max_acceleration as int == spec_new_acceleration(
                    old(self).records@,
                    *event,
                )
            },
            forall|id2: u8|
                id2 != event.fighter_id ==> spec_lookup(final(self).records@, id2) == spec_lookup(
                    old(self).records@,
                    id2,
                ),
            spec_stored_force(final(self).records@, event.fighter_id) >= spec_stored_force(
                old(self).records@,
                event.fighter_id,
            ),
            spec_stored_velocity(final(self).records@, event.fighter_id) >= spec_stored_velocity(
                old(self).records@,
                event.fighter_id,
            ),
            spec_stored_acceleration(final(self).records@, event.fighter_id)
                >= spec_stored_acceleration(old(self).records@, event.fighter_id),
            (r is Some) == (spec_force_exceeded(old(self).records@, *event) || spec_velocity_exceeded(
                old(self).records@,
                *event,
            ) || spec_acceleration_exceeded(old(self).records@, *event)),
            r matches Some(u) ==> (spec_lookup(final(self).records@, event.fighter_id) matches Some(
                rec,
            ) && u.stats == rec && u.new_records@ == spec_exceeded_list(
                spec_force_exceeded(old(self).records@, *event),
                spec_velocity_exceeded(old(self).records@, *event),
                spec_acceleration_exceeded(old(self).records@, *event),
            )),
    {
        let ghost old_records = self.records@;
        let idx: usize = match self.find_index(event.fighter_id) {
            Some(i) => i,
            None => {
                let fresh = CompetitorMaxStats {
                    fighter_id: event.fighter_id,
                    competitor_name: event.competitor_name.clone(),
                    max_force: 0,
                    max_velocity: 0,
                    max_acceleration: 0,
                };
                self.records.push(fresh);
                self.records.len() - 1
            },
        };
        let ghost base_records = self.records@;
        let cur = self.snapshot_at(idx);

        let mut new_records: Vec<Metric> = Vec::new();
        let (new_force, fe): (u64, bool) = match event.force_mn {
            Some(f) if f > cur.max_force => (f, true),
            _ => (cur.max_force, false),
        };
        if fe {
            new_records.push(Metric::Force);
        }
        let (new_velocity, ve): (u64, bool) = match event.velocity_mm_s {
            Some(v) if v > cur.max_velocity => (v, true),
            _ => (cur.max_velocity, false),
        };
        if ve {
            new_records.push(Metric::Velocity);
        }
        let (new_acceleration, ae): (u64, bool) = match event.acceleration_mm_s2 {
            Some(a) if a > cur.max_acceleration => (a, true),
            _ => (cur.max_acceleration, false),
        };
        if ae {
            new_records.push(Metric::Acceleration);
        }

        let updated = CompetitorMaxStats {
            fighter_id: cur.fighter_id,
            competitor_name: cur.competitor_name.clone(),
            max_force: new_force,
            max_velocity: new_velocity,
            max_acceleration: new_acceleration,
        };
        let result_stats = CompetitorMaxStats {
            fighter_id: updated.fighter_id,
            competitor_name: updated.competitor_name.clone(),
            max_force: updated.max_force,
            max_velocity: updated.max_velocity,
            max_acceleration: updated.max_acceleration,
        };
        self.records.set(idx, updated);

        proof {
            let id = event.fighter_id;
            // The prefix before `idx` never holds `id`, in both branches.
            assert(forall|j: int| 0 <= j < idx ==> base_records[j].fighter_id != id);
            lemma_lookup_at_index(self.records@, id, idx as int);
            // Lookups of other identifiers are unchanged.
            assert forall|id2: u8| id2 != id implies spec_lookup(self.records@, id2) == spec_lookup(
                old_records,
                id2,
            ) by {
                if old_records.len() == base_records.len() {
                    lemma_lookup_update_other(base_records, idx as int, self.records@[idx as int], id2);
                    assert(self.records@ =~= base_records.update(
                        idx as int,
                        self.records@[idx as int],
                    ));
                } else {
                    assert(self.records@ =~= old_records.push(self.records@[idx as int]));
                    lemma_lookup_push_other(old_records, self.records@[idx as int], id2);
                }
            }
            // The stored values the contract compares against.
            if old_records.len() == base_records.len() {
                assert(spec_lookup(old_records, id) == Some(old_records[idx as int]));
            }
        }

        if fe || ve || ae {
            proof {
                assert(new_records@ =~= spec_exceeded_list(fe, ve, ae));
            }
            Some(StatsUpdate { stats: result_stats, new_records })
        } else {
            None
        }
    }

    /// A snapshot copy: all records, or just the one for `fighter_id`;
    /// `None` when that person has no record yet.
    pub fn get_current_max_stats(&self, fighter_id: Option<u8>) -> (r: Option<
        Vec<CompetitorMaxStats>,
    >)
        ensures
            match fighter_id {
                Some(id) => match spec_lookup(self.records@, id) {
                    Some(rec) => r matches Some(v) && v@.len() == 1 && v@[0] == rec,
                    None => r is None,
                },
                None => r matches Some(v) && v@ == self.records@,
            },
    {
        match fighter_id {
            Some(id) => {
                match self.find_index(id) {
                    Some(i) => {
                        let mut v: Vec<CompetitorMaxStats> = Vec::new();
                        v.push(self.snapshot_at(i));
                        Some(v)
                    },
                    None => None,
                }
            },
            None => {
                let n = self.records.len();
                let mut v: Vec<CompetitorMaxStats> = Vec::new();
                let mut i: usize = 0;
                while i < n
                    invariant
                        n == self.records@.len(),
                        i <= n,
                        v@.len() == i,
                        forall|j: int| 0 <= j < i ==> v@[j] == self.records@[j],
                    decreases n - i,
                {
                    v.push(self.snapshot_at(i));
                    i += 1;
                }
                proof {
                    assert(v@ =~= self.records@);
                }
                Some(v)
            },
        }
    }

    /// Clears the whole table unconditionally; afterwards every person's
    /// query reports "not found".
    pub fn reset_max_stats(&mut self)
        ensures
            final(self).records@ == Seq::<CompetitorMaxStats>::empty(),
            store_wf(*final(self)),
    {
        self.records.clear();
        proof {
            assert(self.records@ =~= Seq::<CompetitorMaxStats>::empty());
        }
    }
}

} // verus!
