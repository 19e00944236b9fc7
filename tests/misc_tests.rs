use mqtt_ranger::mqtt::{event_from_notification, probe_outcome, Notification, ProbeEvent};
use mqtt_ranger::screen::{
    centered_rect, handle_activity_key, remaining_budget, shows_splash_art, Area, Key,
};
use mqtt_ranger::stamp::{arrival_stamp, current_stamp, format_timestamp, Stamp};
use mqtt_ranger::store::{MessageActivity, TopicActivityMenuState};

fn stamp(year: i32, month: u8, day: u8, hour: u8, minute: u8, second: u8) -> Stamp {
    Stamp { year, month, day, hour, minute, second }
}

#[test]
fn timestamps_format_with_padding() {
    assert_eq!(format_timestamp(&stamp(2024, 1, 2, 3, 4, 5)), "2024-01-02 03:04:05");
    assert_eq!(format_timestamp(&stamp(5, 12, 31, 23, 59, 59)), "0005-12-31 23:59:59");
    assert_eq!(format_timestamp(&stamp(-44, 3, 15, 12, 0, 0)), "-0044-03-15 12:00:00");
}

#[test]
fn stamp_validity() {
    assert!(stamp(2024, 2, 29, 0, 0, 0).is_valid());
    assert!(!stamp(2023, 2, 29, 0, 0, 0).is_valid());
    assert!(!stamp(1900, 2, 29, 0, 0, 0).is_valid());
    assert!(stamp(2000, 2, 29, 0, 0, 0).is_valid());
    assert!(!stamp(2024, 4, 31, 0, 0, 0).is_valid());
    assert!(!stamp(2024, 13, 1, 0, 0, 0).is_valid());
    assert!(!stamp(2024, 1, 1, 24, 0, 0).is_valid());
    assert!(!stamp(10000, 1, 1, 0, 0, 0).is_valid());
    assert!(current_stamp().is_valid());
}

#[test]
fn publish_notification_becomes_event() {
    let now = stamp(2024, 6, 1, 10, 0, 0);
    let ev = event_from_notification(
        Notification::Publish { topic: "home/door".to_string(), payload: b"open".to_vec() },
        now,
    )
    .expect("event");
    assert_eq!(ev.topic, "home/door");
    assert_eq!(ev.payload, "open");
    assert_eq!(ev.timestamp, now);
}

#[test]
fn invalid_utf8_payload_is_replaced() {
    let ev = event_from_notification(
        Notification::Publish { topic: "t".to_string(), payload: vec![b'a', 0xff, b'b'] },
        stamp(2024, 6, 1, 10, 0, 0),
    )
    .expect("event");
    assert_eq!(ev.payload, "a\u{FFFD}b");
}

#[test]
fn other_notifications_are_dropped() {
    assert!(event_from_notification(Notification::Other, stamp(2024, 6, 1, 10, 0, 0)).is_none());
}

#[test]
fn probe_outcomes() {
    assert_eq!(
        probe_outcome(ProbeEvent::ConnAck { accepted: true, reason: String::new() }),
        Some(Ok(()))
    );
    assert_eq!(
        probe_outcome(ProbeEvent::ConnAck { accepted: false, reason: "bad id".to_string() }),
        Some(Err("bad id".to_string()))
    );
    assert_eq!(probe_outcome(ProbeEvent::OtherPacket), None);
    assert_eq!(
        probe_outcome(ProbeEvent::ConnectionError("refused".to_string())),
        Some(Err("refused".to_string()))
    );
    assert_eq!(
        probe_outcome(ProbeEvent::TimedOut),
        Some(Err("no answer before the timeout".to_string()))
    );
}

#[test]
fn activity_keys() {
    let mut s = TopicActivityMenuState::new();
    for n in ["a", "b", "c"] {
        s.upsert(
            n.to_string(),
            MessageActivity { payload: "p".to_string(), timestamp: "t".to_string() },
        );
    }
    assert!(!handle_activity_key(&mut s, Key::Down));
    assert_eq!(s.selected_index, 1);
    assert!(!handle_activity_key(&mut s, Key::Up));
    assert!(!handle_activity_key(&mut s, Key::Up));
    assert_eq!(s.selected_index, 2);
    assert!(!handle_activity_key(&mut s, Key::Char('x')));
    assert_eq!(s.selected_index, 2);
    assert!(handle_activity_key(&mut s, Key::Char('q')));
}

#[test]
fn tick_budget() {
    assert_eq!(remaining_budget(250, 0), 250);
    assert_eq!(remaining_budget(250, 100), 150);
    assert_eq!(remaining_budget(250, 250), 0);
    assert_eq!(remaining_budget(250, 400), 0);
}

#[test]
fn centered_rect_sums() {
    let r = Area { x: 0, y: 0, width: 100, height: 50 };
    assert_eq!(centered_rect(40, 17, r), Area { x: 30, y: 16, width: 40, height: 17 });
    let small = Area { x: 5, y: 2, width: 30, height: 10 };
    assert_eq!(centered_rect(40, 17, small), Area { x: 5, y: 2, width: 30, height: 10 });
    let odd = Area { x: 1, y: 1, width: 41, height: 18 };
    assert_eq!(centered_rect(40, 17, odd), Area { x: 1, y: 1, width: 40, height: 17 });
}

#[test]
fn splash_art_threshold() {
    assert!(shows_splash_art(80, 20));
    assert!(!shows_splash_art(79, 20));
    assert!(!shows_splash_art(80, 19));
}

#[test]
fn arrival_prefers_local_time() {
    let local = stamp(2024, 6, 1, 12, 0, 0);
    let utc = stamp(2024, 6, 1, 10, 0, 0);
    assert_eq!(arrival_stamp(Some(local), utc), local);
    assert_eq!(arrival_stamp(None, utc), utc);
}
