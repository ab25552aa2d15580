use fuzzy_driver::driver::DeliveryOutcome;
use fuzzy_driver::driver::FuzzyDriver;
use fuzzy_driver::event::FuzzyCommand;
use fuzzy_driver::event::FuzzyEvent;
use fuzzy_driver::event::Message;
use fuzzy_driver::scheduler::schedule_plan;
use fuzzy_driver::scheduler::Plan;

fn msg(source: u64, dest: u64, payload: &str) -> Message {
    Message { source, dest, payload: payload.to_string() }
}

/// Run one scheduling unit the way the asynchronous shell does, except
/// that waits elapse immediately: apply partition toggles, and for each
/// delivery step consult the driver; a `Deliver` outcome stands for one
/// transport send.  Returns the performed sends as `(delivery_id, message)`.
fn run_unit(d: &mut FuzzyDriver, id: u64, event: FuzzyEvent) -> Vec<(u64, Message)> {
    let mut sends = Vec::new();
    match schedule_plan(event) {
        Plan::Deliveries(steps) => {
            for step in steps {
                match d.attempt_delivery(id, &step.message) {
                    DeliveryOutcome::Blocked => {}
                    DeliveryOutcome::Deliver(did) => sends.push((did, step.message)),
                }
            }
        }
        Plan::PartitionStart(g1, g2) => d.partition_start(&g1, &g2),
        Plan::PartitionRecovery(_ms, g1, g2) => d.partition_end(&g1, &g2),
    }
    sends
}

#[test]
fn partition_start_then_recovery_restores_connectivity() {
    let mut d = FuzzyDriver::new("log.db".to_string());
    d.partition_start(&vec![1, 2], &vec![3, 4]);
    assert!(!d.can_connect(1, 3));
    assert!(!d.can_connect(1, 4));
    assert!(!d.can_connect(2, 3));
    assert!(!d.can_connect(2, 4));
    d.partition_end(&vec![1, 2], &vec![3, 4]);
    assert!(d.can_connect(1, 3));
    assert!(d.can_connect(1, 4));
    assert!(d.can_connect(2, 3));
    assert!(d.can_connect(2, 4));
}

#[test]
fn partition_recovery_as_events_restores_connectivity() {
    let mut d = FuzzyDriver::new("log.db".to_string());
    run_unit(&mut d, 0, FuzzyEvent::PartitionStart(vec![1], vec![2]));
    assert!(!d.can_connect(1, 2));
    run_unit(&mut d, 1, FuzzyEvent::PartitionRecovery(5, vec![1], vec![2]));
    assert!(d.can_connect(1, 2));
}

#[test]
fn partition_blocking_is_directional() {
    let mut d = FuzzyDriver::new("log.db".to_string());
    d.partition_start(&vec![1], &vec![2]);
    assert!(!d.can_connect(1, 2));
    assert!(d.can_connect(2, 1));
    // Delivery in the unblocked direction still happens.
    let sends = run_unit(&mut d, 0, FuzzyEvent::Crash(msg(2, 1, "back")));
    assert_eq!(sends.len(), 1);
}

#[test]
fn partition_skips_the_diagonal() {
    let mut d = FuzzyDriver::new("log.db".to_string());
    d.partition_start(&vec![1, 2], &vec![2, 3]);
    assert!(d.can_connect(2, 2));
    assert!(!d.can_connect(1, 2));
    assert!(!d.can_connect(2, 3));
}

#[test]
fn lost_writes_no_delivery_and_sends_nothing() {
    let mut d = FuzzyDriver::new("log.db".to_string());
    let sends = run_unit(&mut d, 7, FuzzyEvent::Lost);
    assert_eq!(sends.len(), 0);
    assert_eq!(d.deliveries.len(), 0);
}

#[test]
fn lost_plan_is_empty() {
    match schedule_plan(FuzzyEvent::Lost) {
        Plan::Deliveries(steps) => assert_eq!(steps.len(), 0),
        _ => panic!("a loss must plan an (empty) list of deliveries"),
    }
}

#[test]
fn duplicate_plans_one_step_per_offset() {
    let m = msg(1, 2, "dup");
    match schedule_plan(FuzzyEvent::Duplicate(vec![5, 7, 9], m.clone())) {
        Plan::Deliveries(steps) => {
            assert_eq!(steps.len(), 3);
            assert_eq!(steps[0].wait_ms, 5);
            assert_eq!(steps[1].wait_ms, 7);
            assert_eq!(steps[2].wait_ms, 9);
            for step in &steps {
                assert_eq!(step.message, m);
            }
        }
        _ => panic!("a duplication must plan deliveries"),
    }
}

#[test]
fn duplicate_delivers_once_per_offset_with_distinct_ids() {
    let mut d = FuzzyDriver::new("log.db".to_string());
    let action_id = d.gen_id();
    let sends = run_unit(&mut d, action_id, FuzzyEvent::Duplicate(vec![0, 1, 2], msg(1, 2, "m")));
    assert_eq!(sends.len(), 3);
    assert_eq!(d.deliveries.len(), 3);
    for rec in &d.deliveries {
        assert_eq!(rec.action_id, action_id);
    }
    assert!(d.deliveries[0].id < d.deliveries[1].id);
    assert!(d.deliveries[1].id < d.deliveries[2].id);
}

#[test]
fn delay_restart_and_crash_deliver_once() {
    let mut d = FuzzyDriver::new("log.db".to_string());
    for event in [
        FuzzyEvent::Delay(0, msg(1, 2, "a")),
        FuzzyEvent::Restart(3, msg(1, 2, "b")),
        FuzzyEvent::Crash(msg(1, 2, "c")),
    ] {
        let before = d.deliveries.len();
        let sends = run_unit(&mut d, 0, event);
        assert_eq!(sends.len(), 1);
        assert_eq!(d.deliveries.len(), before + 1);
    }
}

#[test]
fn sequence_ids_are_unique_and_strictly_increasing() {
    let mut d = FuzzyDriver::new("log.db".to_string());
    let mut last = d.gen_id();
    for _ in 0..5 {
        let id = d.gen_id();
        assert!(id > last);
        last = id;
    }
    // Ids drawn by delivery attempts come from the same sequence.
    let r = d.attempt_delivery(0, &msg(1, 2, "x"));
    match r {
        DeliveryOutcome::Deliver(id) => assert!(id > last),
        DeliveryOutcome::Blocked => panic!("nothing is partitioned"),
    }
}

#[test]
fn action_count_matches_generated_events() {
    let mut d = FuzzyDriver::new("log.db".to_string());
    let events1 = vec![FuzzyEvent::Lost, FuzzyEvent::Delay(0, msg(1, 2, "a"))];
    let r1 = d.incoming_command(FuzzyCommand::MessageReq(msg(1, 2, "a")), events1, true);
    assert_eq!(r1.units.len(), 2);
    let events2 = vec![
        FuzzyEvent::Crash(msg(2, 1, "b")),
        FuzzyEvent::Lost,
        FuzzyEvent::Restart(1, msg(1, 2, "c")),
    ];
    let r2 = d.incoming_command(FuzzyCommand::MessageReq(msg(2, 1, "b")), events2, true);
    assert_eq!(r2.units.len(), 3);
    // A command may also yield zero events.
    let r3 = d.incoming_command(FuzzyCommand::MessageReq(msg(1, 2, "d")), vec![], true);
    assert_eq!(r3.units.len(), 0);
    assert_eq!(d.actions.len(), 5);
    // Every persisted action id is unique.
    for i in 0..d.actions.len() {
        for j in (i + 1)..d.actions.len() {
            assert_ne!(d.actions[i].id, d.actions[j].id);
        }
    }
}

#[test]
fn end_to_end_delay_delivers_and_logs() {
    let mut d = FuzzyDriver::new("log.db".to_string());
    let m = msg(1, 2, "x");
    let events = vec![FuzzyEvent::Delay(0, m.clone())];
    let r = d.incoming_command(FuzzyCommand::MessageReq(m.clone()), events, true);
    assert!(r.cont);
    assert_eq!(r.units.len(), 1);
    let action_id = r.units[0].id;
    assert_eq!(d.actions.len(), 1);
    assert_eq!(d.actions[0].id, action_id);
    assert_eq!(d.actions[0].event, FuzzyEvent::Delay(0, m.clone()));
    let unit_event = r.units.into_iter().next().unwrap().event;
    let sends = run_unit(&mut d, action_id, unit_event);
    assert_eq!(d.deliveries.len(), 1);
    assert_eq!(d.deliveries[0].action_id, action_id);
    assert_eq!(sends.len(), 1);
    assert_eq!(sends[0].0, d.deliveries[0].id);
    assert_eq!(sends[0].1, m);
}

#[test]
fn end_to_end_partition_blocks_the_send() {
    let mut d = FuzzyDriver::new("log.db".to_string());
    run_unit(&mut d, 0, FuzzyEvent::PartitionStart(vec![1], vec![2]));
    let m = msg(1, 2, "x");
    let events = vec![FuzzyEvent::Delay(0, m.clone())];
    let r = d.incoming_command(FuzzyCommand::MessageReq(m.clone()), events, true);
    assert_eq!(d.actions.len(), 1);
    let action_id = r.units[0].id;
    let unit_event = r.units.into_iter().next().unwrap().event;
    let sends = run_unit(&mut d, action_id, unit_event);
    // The action is logged, but nothing is delivered and nothing sent.
    assert_eq!(sends.len(), 0);
    assert_eq!(d.deliveries.len(), 0);
}

#[test]
fn ingestion_stops_on_the_third_command() {
    let mut d = FuzzyDriver::new("log.db".to_string());
    // The generator declines to continue on the third command.
    let feed = [true, true, false];
    let mut receives = 0;
    for cont in feed {
        receives += 1;
        let m = msg(1, 2, "cmd");
        let events = vec![FuzzyEvent::Lost];
        let r = d.incoming_command(FuzzyCommand::MessageReq(m), events, cont);
        if !r.cont {
            break;
        }
    }
    // The third command's own events were processed, and no fourth
    // receive was attempted.
    assert_eq!(receives, 3);
    assert_eq!(d.actions.len(), 3);
}
