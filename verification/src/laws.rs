//! The guarantees the driver gives across calls, stated and proved once.
//!
//! Each law is phrased over the same spec functions the drivers' own
//! contracts use, with premises that are exactly the contracts of the calls
//! it relates, so it applies to every run the shell can produce.

use vstd::prelude::*;

use crate::connectivity::partition_pairs;
use crate::connectivity::recovery_pairs;
use crate::driver::FuzzyDriver;
use crate::event::DeliveryRecord;
use crate::event::EventView;
use crate::scheduler::DeliveryStep;
use crate::scheduler::Plan;
use crate::scheduler::plan_ok;

verus! {

/// A partition start followed by a recovery over the same two groups
/// restores connectivity: afterwards no cross pair `(i, j)` with `i` in
/// the first group, `j` in the second and `i != j` is blocked, whatever
/// was blocked before and whatever the recovery's wait was.
///
/// `d0 -> d1` is a `partition_start(g1, g2)` call and `d1 -> d2` a
/// `partition_end(g1, g2)` call, given by their postconditions.
pub proof fn lemma_partition_recovery_restores(
    d0: FuzzyDriver,
    d1: FuzzyDriver,
    d2: FuzzyDriver,
    g1: Seq<u64>,
    g2: Seq<u64>,
    i: u64,
    j: u64,
)
    requires
        d1.blocked() == d0.blocked().union(partition_pairs(g1, g2)),
        d2.blocked() == d1.blocked().difference(recovery_pairs(g1, g2)),
        g1.contains(i),
        g2.contains(j),
        i != j,
    ensures
        !d2.blocked().contains((i, j)),
{
    assert(recovery_pairs(g1, g2).contains((i, j)));
}

/// Partition blocking is directional: blocking `(a, b)` leaves delivery
/// from `b` to `a` exactly as it was.
///
/// `d0 -> d1` is a `partition_start` call over the singleton groups
/// `[a]`, `[b]`, given by its postcondition.
pub proof fn lemma_partition_directional(d0: FuzzyDriver, d1: FuzzyDriver, a: u64, b: u64)
    requires
        a != b,
        d1.blocked() == d0.blocked().union(partition_pairs(seq![a], seq![b])),
    ensures
        d1.blocked().contains((b, a)) == d0.blocked().contains((b, a)),
{
    assert(!partition_pairs(seq![a], seq![b]).contains((b, a)));
}

/// A lost message schedules nothing: every plan correct for `Lost` holds
/// an empty list of delivery attempts, so no delivery record is ever
/// appended and no transport send ever asked for.
pub proof fn lemma_lost_plans_nothing(p: Plan)
    requires
        plan_ok(EventView::Lost, p),
    ensures
        p matches Plan::Deliveries(steps) && steps@.len() == 0,
{
    let steps = p->Deliveries_0;
    assert(steps@.map_values(|s: DeliveryStep| s@).len() == 0);
}

/// Two delivery attempts of one duplication that both pass the
/// connectivity check append two records with distinct ids, both linked
/// to the unit's action id.
///
/// `d0 -> d1` and `d1 -> d2` are two unblocked `attempt_delivery`
/// calls for `action_id`, given by their postconditions.
pub proof fn lemma_duplicate_ids_distinct(
    d0: FuzzyDriver,
    d1: FuzzyDriver,
    d2: FuzzyDriver,
    action_id: u64,
    id1: u64,
    id2: u64,
)
    requires
        id1 == d0.next_id(),
        d1.next_id() == d0.next_id() + 1,
        d1.deliveries_log() == d0.deliveries_log().push(DeliveryRecord { id: id1, action_id }),
        id2 == d1.next_id(),
        d2.next_id() == d1.next_id() + 1,
        d2.deliveries_log() == d1.deliveries_log().push(DeliveryRecord { id: id2, action_id }),
    ensures
        id1 != id2,
        d2.deliveries_log().len() == d0.deliveries_log().len() + 2,
        d2.deliveries_log()[d2.deliveries_log().len() - 2] == (DeliveryRecord {
            id: id1,
            action_id,
        }),
        d2.deliveries_log()[d2.deliveries_log().len() - 1] == (DeliveryRecord {
            id: id2,
            action_id,
        }),
{
}

/// Sequence ids are strictly increasing and never reused: an id drawn
/// later is strictly greater than one drawn earlier, however many other
/// units drew ids in between (no operation ever moves the sequence
/// backward).
///
/// `id1` is drawn at `d0` (leaving `d1`), `id2` later at `d2`, with the
/// sequence having only grown between `d1` and `d2`.
pub proof fn lemma_sequence_strictly_increasing(
    d0: FuzzyDriver,
    d1: FuzzyDriver,
    d2: FuzzyDriver,
    id1: u64,
    id2: u64,
)
    requires
        id1 == d0.next_id(),
        d1.next_id() == d0.next_id() + 1,
        d1.next_id() <= d2.next_id(),
        id2 == d2.next_id(),
    ensures
        id2 > id1,
{
}

/// The total of a run's per-command event counts.
pub open spec fn total(counts: Seq<nat>) -> nat
    decreases counts.len(),
{
    if counts.len() == 0 {
        0
    } else {
        total(counts.drop_last()) + counts.last()
    }
}

/// After any number of ingested commands the action log holds exactly one
/// record per fault event the generator produced: `ds` is the chain of
/// driver states of a run, `counts[k]` the number of events the
/// generator returned for command `k`, and each step is an
/// `incoming_command` call given by its postcondition.
pub proof fn lemma_action_count_over_run(ds: Seq<FuzzyDriver>, counts: Seq<nat>)
    requires
        ds.len() == counts.len() + 1,
        forall|k: int|
            0 <= k < counts.len() ==> #[trigger] ds[k + 1].actions_log().len()
                == ds[k].actions_log().len() + counts[k],
    ensures
        ds[ds.len() - 1].actions_log().len() == ds[0].actions_log().len() + total(counts),
    decreases counts.len(),
{
    if counts.len() > 0 {
        let dsp = ds.drop_last();
        let cp = counts.drop_last();
        assert forall|k: int| 0 <= k < cp.len() implies #[trigger] dsp[k + 1].actions_log().len()
            == dsp[k].actions_log().len() + cp[k] by {
            assert(dsp[k + 1] == ds[k + 1]);
            assert(dsp[k] == ds[k]);
        }
        lemma_action_count_over_run(dsp, cp);
        assert(ds[ds.len() - 2].actions_log().len() == ds[0].actions_log().len() + total(cp));
    }
}

/// Every id in the decision log is unique: no action id repeats, no
/// delivery id repeats, and no id is shared between the two tables (they
/// draw from one shared sequence).
pub proof fn lemma_log_ids_unique(d: FuzzyDriver)
    requires
        d.wf(),
    ensures
        forall|i: int, j: int|
            0 <= i < j < d.actions_log().len() ==> d.actions_log()[i].id != d.actions_log()[j].id,
        forall|i: int, j: int|
            0 <= i < j < d.deliveries_log().len() ==> d.deliveries_log()[i].id
                != d.deliveries_log()[j].id,
        forall|i: int, j: int|
            0 <= i < d.actions_log().len() && 0 <= j < d.deliveries_log().len()
                ==> d.actions_log()[i].id != d.deliveries_log()[j].id,
{
}

} // verus!
