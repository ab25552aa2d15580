//! The fault-injection driver core: sequence generator, decision-log
//! bookkeeping, connectivity handling and command ingestion.
//!
//! The driver is the single shared state of a test run.  The asynchronous
//! shell around the crate feeds it inbound commands (together with the
//! fault events the external decision generator derived from them), runs
//! one scheduling unit per returned `(id, event)` pair, and mirrors every
//! log record the driver appends into the persistent store.

use vstd::prelude::*;

use crate::connectivity::DisconnectSet;
use crate::connectivity::blocked_pairs;
use crate::connectivity::partition_pairs;
use crate::connectivity::recovery_pairs;
use crate::event::ActionRecord;
use crate::event::ActionView;
use crate::event::DeliveryRecord;
use crate::event::FuzzyCommand;
use crate::event::FuzzyEvent;
use crate::event::Message;
use crate::event::SchedUnit;
use crate::event::UnitView;

verus! {

/// What a delivery attempt decided: `Blocked` when the message's ordered
/// `(source, dest)` pair is partitioned (nothing is recorded, nothing is
/// sent), `Deliver(id)` when the attempt passed the connectivity check and
/// a delivery record with that fresh id was appended (the shell must now
/// perform the transport send).
#[derive(Debug, PartialEq, Eq, Clone, Copy)]
pub enum DeliveryOutcome {
    Blocked,
    Deliver(u64),
}

/// What one ingested command produced: the scheduling units to run, one
/// per fault event and in event order, and the generator's continuation
/// flag (`false` is the end-of-input signal: the message loop must stop
/// after this command's own units are dispatched).
pub struct IngestResult {
    pub units: Vec<SchedUnit>,
    pub cont: bool,
}

/// The fault-injection driver: partition state, the shared id sequence,
/// and the append-only decision log (actions and deliveries).
pub struct FuzzyDriver {
    pub path_store: String,
    pub dis_connect: DisconnectSet,
    pub sequence: u64,
    pub actions: Vec<ActionRecord>,
    pub deliveries: Vec<DeliveryRecord>,
}

impl FuzzyDriver {
    /// The ordered node pairs currently blocked by a partition.
    pub open spec fn blocked(self) -> Set<(u64, u64)> {
        blocked_pairs(self.dis_connect)
    }

    /// The next id the shared sequence will hand out.
    pub open spec fn next_id(self) -> u64 {
        self.sequence
    }

    /// The action records appended so far, in append order.
    pub open spec fn actions_log(self) -> Seq<ActionView> {
        self.actions@.map_values(|a: ActionRecord| a@)
    }

    /// The delivery records appended so far, in append order.
    pub open spec fn deliveries_log(self) -> Seq<DeliveryRecord> {
        self.deliveries@
    }

    /// The path of the persistent store the shell mirrors the log into.
    pub open spec fn path(self) -> Seq<char> {
        self.path_store@
    }

    /// Log integrity: every recorded id was drawn from the shared
    /// sequence (so it is below the next id), and no id appears twice,
    /// neither within one table nor across the two (actions and
    /// deliveries share one numeric namespace).
    pub open spec fn wf(self) -> bool {
        &&& forall|i: int|
            0 <= i < self.actions_log().len() ==> (#[trigger] self.actions_log()[i].id)
                < self.next_id()
        &&& forall|i: int|
            0 <= i < self.deliveries_log().len() ==> (#[trigger] self.deliveries_log()[i].id)
                < self.next_id()
        &&& forall|i: int, j: int|
            0 <= i < j < self.actions_log().len() ==> (#[trigger] self.actions_log()[i].id) != (
            #[trigger] self.actions_log()[j].id)
        &&& forall|i: int, j: int|
            0 <= i < j < self.deliveries_log().len() ==> (#[trigger] self.deliveries_log()[i].id)
                != (#[trigger] self.deliveries_log()[j].id)
        &&& forall|i: int, j: int|
            0 <= i < self.actions_log().len() && 0 <= j < self.deliveries_log().len() ==> (
            #[trigger] self.actions_log()[i].id) != (#[trigger] self.deliveries_log()[j].id)
    }

    /// A fresh driver: nothing blocked, nothing logged, ids start at 0.
    pub fn new(path: String) -> (r: FuzzyDriver)
        ensures
            r.wf(),
            r.blocked() == Set::<(u64, u64)>::empty(),
            r.next_id() == 0,
            r.actions_log() == Seq::<ActionView>::empty(),
            r.deliveries_log() == Seq::<DeliveryRecord>::empty(),
            r.path() == path@,
    {
        let r = FuzzyDriver {
            path_store: path,
            dis_connect: DisconnectSet::new(),
            sequence: 0,
            actions: Vec::new(),
            deliveries: Vec::new(),
        };
        proof {
            assert(r.actions_log() =~= Seq::<ActionView>::empty());
        }
        r
    }

    /// Draw the next id from the shared sequence: strictly increasing,
    /// never reused, shared by action and delivery records.
    pub fn gen_id(&mut self) -> (id: u64)
        requires
            old(self).next_id() < u64::MAX,
        ensures
            id == old(self).next_id(),
            final(self).next_id() == old(self).next_id() + 1,
            final(self).blocked() == old(self).blocked(),
            final(self).actions_log() == old(self).actions_log(),
            final(self).deliveries_log() == old(self).deliveries_log(),
            final(self).path() == old(self).path(),
            old(self).wf() ==> final(self).wf(),
    {
        let id = self.sequence;
        self.sequence = self.sequence + 1;
        id
    }

    /// Whether messages from `id1` to `id2` currently pass: exactly when
    /// the ordered pair is not blocked.
    pub fn can_connect(&self, id1: u64, id2: u64) -> (r: bool)
        ensures
            r == !self.blocked().contains((id1, id2)),
    {
        !self.dis_connect.contains(id1, id2)
    }

    /// Apply a partition start: block every ordered cross pair of the two
    /// groups (skipping the diagonal).  Log and sequence are untouched.
    pub fn partition_start(&mut self, ids1: &Vec<u64>, ids2: &Vec<u64>)
        ensures
            final(self).blocked() == old(self).blocked().union(partition_pairs(ids1@, ids2@)),
            final(self).next_id() == old(self).next_id(),
            final(self).actions_log() == old(self).actions_log(),
            final(self).deliveries_log() == old(self).deliveries_log(),
            final(self).path() == old(self).path(),
            old(self).wf() ==> final(self).wf(),
    {
        self.dis_connect.block_partition(ids1, ids2);
    }

    /// Apply a partition recovery: unblock every ordered cross pair of the
    /// two groups.  Log and sequence are untouched.
    pub fn partition_end(&mut self, ids1: &Vec<u64>, ids2: &Vec<u64>)
        ensures
            final(self).blocked() == old(self).blocked().difference(recovery_pairs(ids1@, ids2@)),
            final(self).next_id() == old(self).next_id(),
            final(self).actions_log() == old(self).actions_log(),
            final(self).deliveries_log() == old(self).deliveries_log(),
            final(self).path() == old(self).path(),
            old(self).wf() ==> final(self).wf(),
    {
        self.dis_connect.unblock_partition(ids1, ids2);
    }

    /// Attempt one delivery for the unit `action_id`: consult connectivity
    /// for the message's ordered `(source, dest)` pair; if blocked, decide
    /// `Blocked` and change nothing; otherwise draw a fresh id, append the
    /// delivery record linked to `action_id`, and decide `Deliver(id)` so
    /// the shell performs the transport send.
    pub fn attempt_delivery(&mut self, action_id: u64, message: &Message) -> (r: DeliveryOutcome)
        requires
            old(self).wf(),
            old(self).next_id() < u64::MAX,
        ensures
            final(self).wf(),
            final(self).blocked() == old(self).blocked(),
            final(self).actions_log() == old(self).actions_log(),
            final(self).path() == old(self).path(),
            old(self).blocked().contains((message.source, message.dest)) ==> {
                &&& r == DeliveryOutcome::Blocked
                &&& final(self).deliveries_log() == old(self).deliveries_log()
                &&& final(self).next_id() == old(self).next_id()
            },
            !old(self).blocked().contains((message.source, message.dest)) ==> {
                &&& r == DeliveryOutcome::Deliver(old(self).next_id())
                &&& final(self).next_id() == old(self).next_id() + 1
                &&& final(self).deliveries_log() == old(self).deliveries_log().push(
                    DeliveryRecord { id: old(self).next_id(), action_id },
                )
            },
    {
        if !self.can_connect(message.source, message.dest) {
            return DeliveryOutcome::Blocked;
        }
        let id = self.gen_id();
        self.deliveries.push(DeliveryRecord { id, action_id });
        DeliveryOutcome::Deliver(id)
    }

    /// Ingest one inbound command, given the fault events the external
    /// decision generator derived from it and its continuation flag.  For
    /// every event, in order: draw a fresh id, append the action record,
    /// and emit the `(id, event)` scheduling unit.  The units come back in
    /// event order with consecutive ids; `cont` is passed through as the
    /// end-of-input signal.
    pub fn incoming_command(
        &mut self,
        command: FuzzyCommand,
        events: Vec<FuzzyEvent>,
        cont: bool,
    ) -> (r: IngestResult)
        requires
            old(self).wf(),
            old(self).next_id() + events@.len() <= u64::MAX,
        ensures
            final(self).wf(),
            final(self).blocked() == old(self).blocked(),
            final(self).deliveries_log() == old(self).deliveries_log(),
            final(self).path() == old(self).path(),
            final(self).next_id() == old(self).next_id() + events@.len(),
            r.cont == cont,
            r.units@.len() == events@.len(),
            forall|i: int|
                0 <= i < events@.len() ==> (#[trigger] r.units@[i]@) == (UnitView {
                    id: (old(self).next_id() + i) as u64,
                    event: events@[i]@,
                }),
            final(self).actions_log().len() == old(self).actions_log().len() + events@.len(),
            forall|i: int|
                0 <= i < old(self).actions_log().len()
                    ==> (#[trigger] final(self).actions_log()[i]) == old(self).actions_log()[i],
            forall|i: int|
                0 <= i < events@.len()
                    ==> (#[trigger] final(self).actions_log()[old(self).actions_log().len() + i])
                    == (ActionView {
                    id: (old(self).next_id() + i) as u64,
                    event: events@[i]@,
                }),
    {
        match command {
            FuzzyCommand::MessageReq(_) => {},
        }
        let mut units: Vec<SchedUnit> = Vec::new();
        let mut k: usize = 0;
        while k < events.len()
            invariant
                k <= events@.len(),
                old(self).wf(),
                old(self).next_id() + events@.len() <= u64::MAX,
                self.wf(),
                self.next_id() == old(self).next_id() + k,
                self.blocked() == old(self).blocked(),
                self.deliveries_log() == old(self).deliveries_log(),
                self.path() == old(self).path(),
                self.actions_log().len() == old(self).actions_log().len() + k,
                forall|i: int|
                    0 <= i < old(self).actions_log().len() ==> (#[trigger] self.actions_log()[i])
                        == old(self).actions_log()[i],
                forall|i: int|
                    0 <= i < k ==> (#[trigger] self.actions_log()[old(self).actions_log().len()
                        + i]) == (ActionView {
                        id: (old(self).next_id() + i) as u64,
                        event: events@[i]@,
                    }),
                units@.len() == k,
                forall|i: int|
                    0 <= i < k ==> (#[trigger] units@[i]@) == (UnitView {
                        id: (old(self).next_id() + i) as u64,
                        event: events@[i]@,
                    }),
            decreases events@.len() - k,
        {
            let ev = events[k].dup();
            let id = self.gen_id();
            let ghost pre = *self;
            self.actions.push(ActionRecord { id, event: ev });
            proof {
                assert(self.actions_log() =~= pre.actions_log().push(
                    ActionView { id, event: events@[k as int]@ },
                ));
            }
            units.push(SchedUnit { id, event: events[k].dup() });
            k += 1;
        }
        IngestResult { units, cont }
    }

    /// The persistent-store path handed in at construction, for the shell
    /// that opens the store.
    pub fn path_store(&self) -> (r: String)
        ensures
            r@ == self.path(),
    {
        self.path_store.clone()
    }
}

} // verus!
