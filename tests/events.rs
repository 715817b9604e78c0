use fks_master::events::{EventHistory, HISTORY_CAP, bucket_key};
use fks_master::models::{EventType, MonitorEvent};

fn numbered(i: i64) -> MonitorEvent {
    MonitorEvent {
        event_type: EventType::ServiceDown,
        service_id: Some("svc".into()),
        message: format!("event {}", i),
        timestamp: i,
        data: None,
    }
}

#[test]
fn history_keeps_the_last_hundred() {
    let mut h = EventHistory::new();
    for i in 0..100 {
        h.record(numbered(i));
    }
    assert_eq!(h.len(), 100);
    assert_eq!(h.events()[0].timestamp, 0);
    h.record(numbered(100));
    assert_eq!(h.len(), HISTORY_CAP);
    assert!(h.events().iter().all(|e| e.timestamp != 0));
    assert_eq!(h.events()[0].timestamp, 1);
    assert_eq!(h.events()[99].timestamp, 100);
}

#[test]
fn history_below_cap_keeps_everything() {
    let mut h = EventHistory::new();
    h.record(numbered(1));
    h.record(numbered(2));
    assert_eq!(h.len(), 2);
    assert_eq!(h.events()[1].timestamp, 2);
}

#[test]
fn history_counts_by_type() {
    let mut h = EventHistory::new();
    h.record(numbered(1));
    let mut up = numbered(2);
    up.event_type = EventType::ServiceUp;
    h.record(up);
    h.record(numbered(3));
    assert_eq!(h.count_of(EventType::ServiceDown), 2);
    assert_eq!(h.count_of(EventType::ServiceUp), 1);
    assert_eq!(h.count_of(EventType::HighLatency), 0);
}

#[test]
fn bucket_of_service_less_event_is_system() {
    let mut e = numbered(1);
    assert_eq!(bucket_key(&e), "svc");
    e.service_id = None;
    assert_eq!(bucket_key(&e), "system");
}
