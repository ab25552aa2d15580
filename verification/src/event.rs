//! Messages, fault events and inbound commands.

use vstd::prelude::*;

verus! {

/// An outbound message of the system under test: a payload travelling from
/// one node to another.
#[derive(Debug, PartialEq, Eq, Clone)]
pub struct Message {
    pub source: u64,
    pub dest: u64,
    pub payload: String,
}

/// Mathematical image of a [`Message`].
pub struct MessageView {
    pub source: u64,
    pub dest: u64,
    pub payload: Seq<char>,
}

impl View for Message {
    type V = MessageView;

    open spec fn view(&self) -> MessageView {
        MessageView { source: self.source, dest: self.dest, payload: self.payload@ }
    }
}

impl Message {
    /// An exact copy of the message.
    pub fn dup(&self) -> (r: Message)
        ensures
            r@ == self@,
    {
        Message { source: self.source, dest: self.dest, payload: self.payload.clone() }
    }
}

/// One injected fault, produced by the external decision generator.
///
/// Wait offsets are in milliseconds.  The two partition variants carry the
/// two node groups whose ordered cross pairs are blocked or unblocked.
#[derive(Debug, PartialEq, Eq, Clone)]
pub enum FuzzyEvent {
    Delay(u64, Message),
    Duplicate(Vec<u64>, Message),
    Lost,
    Restart(u64, Message),
    Crash(Message),
    PartitionStart(Vec<u64>, Vec<u64>),
    PartitionRecovery(u64, Vec<u64>, Vec<u64>),
}

/// Mathematical image of a [`FuzzyEvent`].
pub enum EventView {
    Delay(u64, MessageView),
    Duplicate(Seq<u64>, MessageView),
    Lost,
    Restart(u64, MessageView),
    Crash(MessageView),
    PartitionStart(Seq<u64>, Seq<u64>),
    PartitionRecovery(u64, Seq<u64>, Seq<u64>),
}

impl View for FuzzyEvent {
    type V = EventView;

    open spec fn view(&self) -> EventView {
        match *self {
            FuzzyEvent::Delay(ms, m) => EventView::Delay(ms, m@),
            FuzzyEvent::Duplicate(v, m) => EventView::Duplicate(v@, m@),
            FuzzyEvent::Lost => EventView::Lost,
            FuzzyEvent::Restart(ms, m) => EventView::Restart(ms, m@),
            FuzzyEvent::Crash(m) => EventView::Crash(m@),
            FuzzyEvent::PartitionStart(g1, g2) => EventView::PartitionStart(g1@, g2@),
            FuzzyEvent::PartitionRecovery(ms, g1, g2) => EventView::PartitionRecovery(
                ms,
                g1@,
                g2@,
            ),
        }
    }
}

/// An exact copy of a list of node ids or wait offsets.
pub fn copy_ids(v: &Vec<u64>) -> (r: Vec<u64>)
    ensures
        r@ == v@,
{
    let mut r: Vec<u64> = Vec::new();
    let mut i: usize = 0;
    while i < v.len()
        invariant
            i <= v.len(),
            r@ == v@.take(i as int),
        decreases v.len() - i,
    {
        r.push(v[i]);
        proof {
            assert(v@.take(i + 1 as int) =~= v@.take(i as int).push(v@[i as int]));
        }
        i += 1;
    }
    proof {
        assert(v@.take(v@.len() as int) =~= v@);
    }
    r
}

impl FuzzyEvent {
    /// An exact copy of the event.
    pub fn dup(&self) -> (r: FuzzyEvent)
        ensures
            r@ == self@,
    {
        match self {
            FuzzyEvent::Delay(ms, m) => FuzzyEvent::Delay(*ms, m.dup()),
            FuzzyEvent::Duplicate(v, m) => FuzzyEvent::Duplicate(copy_ids(v), m.dup()),
            FuzzyEvent::Lost => FuzzyEvent::Lost,
            FuzzyEvent::Restart(ms, m) => FuzzyEvent::Restart(*ms, m.dup()),
            FuzzyEvent::Crash(m) => FuzzyEvent::Crash(m.dup()),
            FuzzyEvent::PartitionStart(g1, g2) => FuzzyEvent::PartitionStart(
                copy_ids(g1),
                copy_ids(g2),
            ),
            FuzzyEvent::PartitionRecovery(ms, g1, g2) => FuzzyEvent::PartitionRecovery(
                *ms,
                copy_ids(g1),
                copy_ids(g2),
            ),
        }
    }
}

/// One row of the `action` table: the persisted record of a fault event's
/// existence, written before the event begins executing and never changed.
pub struct ActionRecord {
    pub id: u64,
    pub event: FuzzyEvent,
}

/// Mathematical image of an [`ActionRecord`].
pub struct ActionView {
    pub id: u64,
    pub event: EventView,
}

impl View for ActionRecord {
    type V = ActionView;

    open spec fn view(&self) -> ActionView {
        ActionView { id: self.id, event: self.event@ }
    }
}

/// One row of the `delivery` table: the persisted record of an actual
/// transport send, drawn from the same id sequence as the actions and
/// linked to the action it came from.
#[derive(Debug, PartialEq, Eq, Clone, Copy)]
pub struct DeliveryRecord {
    pub id: u64,
    pub action_id: u64,
}

/// One independently executing unit of scheduling work: a fault event and
/// the action id it was logged under.
pub struct SchedUnit {
    pub id: u64,
    pub event: FuzzyEvent,
}

/// Mathematical image of a [`SchedUnit`].
pub struct UnitView {
    pub id: u64,
    pub event: EventView,
}

impl View for SchedUnit {
    type V = UnitView;

    open spec fn view(&self) -> UnitView {
        UnitView { id: self.id, event: self.event@ }
    }
}

/// An inbound protocol command from the test driver's transport.
///
/// Today the driver understands a single variant; the ingestion contract is
/// written per variant so further commands can be added without touching the
/// scheduling rules.
#[derive(Debug, PartialEq, Eq, Clone)]
pub enum FuzzyCommand {
    MessageReq(Message),
}

} // verus!
