//! The fault scheduler: the timing and repetition semantics of one
//! scheduling unit.
//!
//! A unit's behaviour is a pure function of its fault event.  `schedule_plan`
//! turns the event into the unit's plan: either a list of timed delivery
//! attempts (each wait measured from the previous delivery), or a partition
//! toggle.  The shell executes the plan in order — it suspends for each
//! wait, then calls the driver's `attempt_delivery`, and it applies
//! partition toggles through `partition_start` / `partition_end` — so all
//! decisions stay here while the waits and transport sends stay outside.

use vstd::prelude::*;

use crate::event::EventView;
use crate::event::FuzzyEvent;
use crate::event::Message;
use crate::event::MessageView;

verus! {

/// One timed delivery attempt: suspend `wait_ms` milliseconds (no
/// suspension when 0), then attempt to deliver the message once.
pub struct DeliveryStep {
    pub wait_ms: u64,
    pub message: Message,
}

/// Mathematical image of a [`DeliveryStep`].
pub struct StepView {
    pub wait_ms: u64,
    pub message: MessageView,
}

impl View for DeliveryStep {
    type V = StepView;

    open spec fn view(&self) -> StepView {
        StepView { wait_ms: self.wait_ms, message: self.message@ }
    }
}

/// The plan of one scheduling unit: timed delivery attempts, or a
/// partition toggle (a start is instantaneous; a recovery waits first).
pub enum Plan {
    Deliveries(Vec<DeliveryStep>),
    PartitionStart(Vec<u64>, Vec<u64>),
    PartitionRecovery(u64, Vec<u64>, Vec<u64>),
}

/// The delivery attempts an event calls for, in order: one for a delay,
/// restart (after its wait) or crash (immediately), one per offset for a
/// duplication, none for a loss or a partition toggle.
pub open spec fn steps_of(e: EventView) -> Seq<StepView> {
    match e {
        EventView::Delay(ms, m) => seq![StepView { wait_ms: ms, message: m }],
        EventView::Duplicate(v, m) => Seq::new(
            v.len(),
            |i: int| StepView { wait_ms: v[i], message: m },
        ),
        EventView::Lost => seq![],
        EventView::Restart(ms, m) => seq![StepView { wait_ms: ms, message: m }],
        EventView::Crash(m) => seq![StepView { wait_ms: 0, message: m }],
        EventView::PartitionStart(_, _) => seq![],
        EventView::PartitionRecovery(_, _, _) => seq![],
    }
}

/// What a correct plan for `e` is: the delivery events map to exactly
/// `steps_of(e)`, and the partition events map to the toggle carrying the
/// same groups (and wait, for a recovery).
pub open spec fn plan_ok(e: EventView, p: Plan) -> bool {
    match e {
        EventView::PartitionStart(g1, g2) => p matches Plan::PartitionStart(h1, h2) && h1@ == g1
            && h2@ == g2,
        EventView::PartitionRecovery(ms, g1, g2) => p matches Plan::PartitionRecovery(
            ms2,
            h1,
            h2,
        ) && ms2 == ms && h1@ == g1 && h2@ == g2,
        _ => p matches Plan::Deliveries(steps) && steps@.map_values(|s: DeliveryStep| s@)
            == steps_of(e),
    }
}

/// Turn one fault event into its unit's plan.
pub fn schedule_plan(event: FuzzyEvent) -> (p: Plan)
    ensures
        plan_ok(event@, p),
{
    match event {
        FuzzyEvent::Delay(ms, m) => {
            let mut steps: Vec<DeliveryStep> = Vec::new();
            steps.push(DeliveryStep { wait_ms: ms, message: m });
            proof {
                assert(steps@.map_values(|s: DeliveryStep| s@) =~= steps_of(
                    EventView::Delay(ms, m@),
                ));
            }
            Plan::Deliveries(steps)
        },
        FuzzyEvent::Duplicate(v, m) => {
            let ghost gv = v@;
            let ghost gm = m@;
            let mut steps: Vec<DeliveryStep> = Vec::new();
            let mut i: usize = 0;
            while i < v.len()
                invariant
                    i <= gv.len(),
                    v@ == gv,
                    m@ == gm,
                    steps@.len() == i,
                    forall|k: int|
                        0 <= k < i ==> (#[trigger] steps@[k]@) == (StepView {
                            wait_ms: gv[k],
                            message: gm,
                        }),
                decreases v@.len() - i,
            {
                steps.push(DeliveryStep { wait_ms: v[i], message: m.dup() });
                i += 1;
            }
            proof {
                assert(steps@.map_values(|s: DeliveryStep| s@) =~= steps_of(
                    EventView::Duplicate(gv, gm),
                ));
            }
            Plan::Deliveries(steps)
        },
        FuzzyEvent::Lost => {
            let steps: Vec<DeliveryStep> = Vec::new();
            proof {
                assert(steps@.map_values(|s: DeliveryStep| s@) =~= steps_of(EventView::Lost));
            }
            Plan::Deliveries(steps)
        },
        FuzzyEvent::Restart(ms, m) => {
            let mut steps: Vec<DeliveryStep> = Vec::new();
            steps.push(DeliveryStep { wait_ms: ms, message: m });
            proof {
                assert(steps@.map_values(|s: DeliveryStep| s@) =~= steps_of(
                    EventView::Restart(ms, m@),
                ));
            }
            Plan::Deliveries(steps)
        },
        FuzzyEvent::Crash(m) => {
            let mut steps: Vec<DeliveryStep> = Vec::new();
            steps.push(DeliveryStep { wait_ms: 0, message: m });
            proof {
                assert(steps@.map_values(|s: DeliveryStep| s@) =~= steps_of(
                    EventView::Crash(m@),
                ));
            }
            Plan::Deliveries(steps)
        },
        FuzzyEvent::PartitionStart(g1, g2) => Plan::PartitionStart(g1, g2),
        FuzzyEvent::PartitionRecovery(ms, g1, g2) => Plan::PartitionRecovery(ms, g1, g2),
    }
}

} // verus!
