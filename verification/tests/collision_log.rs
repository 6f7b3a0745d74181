use physics_sandbox::collision_event_log::event_participants;
use physics_sandbox::collision_event_log::pair_key;
use physics_sandbox::collision_event_log::CollisionEventLog;
use physics_sandbox::collision_event_log::CollisionEventType;
use physics_sandbox::collision_event_log::CollisionLogEntry;
use physics_sandbox::collision_event_log::TouchingPair;
use physics_sandbox::collision_event_log::MAX_LOG_ENTRIES;

fn entry(event_type: CollisionEventType, a: u64, b: u64) -> CollisionLogEntry {
    CollisionLogEntry { event_type, entities: [a, b] }
}

fn touching(a: u64, b: u64) -> TouchingPair {
    TouchingPair { participants: [a, b], sensor: false }
}

#[test]
fn falling_body_records_enter_contact_and_exit_events() {
    let mut log = CollisionEventLog::new();
    log.process_events(&vec![[1, 2]], &vec![], &vec![touching(1, 2)]);
    assert_eq!(
        log.history(),
        &vec![entry(CollisionEventType::Enter, 1, 2), entry(CollisionEventType::Contact, 1, 2)]
    );
    log.process_events(&vec![], &vec![], &vec![touching(2, 1)]);
    assert_eq!(log.history().len(), 2);
    log.process_events(&vec![], &vec![], &vec![]);
    assert_eq!(log.history().last(), Some(&entry(CollisionEventType::Exit, 1, 2)));
    assert_eq!(log.history().len(), 3);
}

#[test]
fn clearing_history_does_not_stop_new_collision_events() {
    let mut log = CollisionEventLog::new();
    log.process_events(&vec![[1, 2]], &vec![], &vec![touching(1, 2)]);
    assert!(!log.history().is_empty());
    log.clear();
    assert!(log.history().is_empty());
    log.process_events(&vec![], &vec![[1, 2]], &vec![]);
    log.process_events(&vec![[1, 2]], &vec![], &vec![touching(1, 2)]);
    assert!(!log.history().is_empty());
    assert!(log
        .history()
        .iter()
        .any(|entry| entry.event_type == CollisionEventType::Enter));
}

#[test]
fn sensor_overlaps_never_count_as_contact() {
    let mut log = CollisionEventLog::new();
    let sensor = TouchingPair { participants: [3, 4], sensor: true };
    log.process_events(&vec![[3, 4]], &vec![], &vec![sensor]);
    assert_eq!(log.history(), &vec![entry(CollisionEventType::Enter, 3, 4)]);
}

#[test]
fn an_entered_pair_is_not_logged_twice() {
    let mut log = CollisionEventLog::new();
    log.start([5, 6]);
    log.start([6, 5]);
    assert_eq!(log.history(), &vec![entry(CollisionEventType::Enter, 5, 6)]);
    log.end([6, 5]);
    log.start([5, 6]);
    assert_eq!(log.history().len(), 3);
}

#[test]
fn history_keeps_only_the_newest_entries() {
    let mut log = CollisionEventLog::new();
    for i in 0..20u64 {
        log.record(CollisionEventType::Contact, i, i + 100);
    }
    assert_eq!(log.history().len(), MAX_LOG_ENTRIES);
    assert_eq!(log.history()[0], entry(CollisionEventType::Contact, 4, 104));
    assert_eq!(log.history()[MAX_LOG_ENTRIES - 1], entry(CollisionEventType::Contact, 19, 119));
}

#[test]
fn pair_keys_ignore_order_and_bodies_stand_for_colliders() {
    assert_eq!(pair_key(9, 2), pair_key(2, 9));
    assert_eq!(pair_key(9, 2).low, 2);
    assert_eq!(event_participants(10, 11, Some(1), None), [1, 11]);
    assert_eq!(event_participants(10, 11, None, Some(2)), [10, 2]);
}
