use std::sync::{Arc, Mutex};

use mqtt_ranger::mqtt::{push_message_into_topic, MQTTEvent};
use mqtt_ranger::stamp::{current_stamp, Stamp};
use mqtt_ranger::store::{
    ActivityLine, MessageActivity, TopicActivity, TopicActivityMenuState,
};

fn message(payload: &str) -> MessageActivity {
    MessageActivity { payload: payload.to_string(), timestamp: "2024-05-06 07:08:09".to_string() }
}

fn store_with(names: &[&str]) -> TopicActivityMenuState {
    let mut s = TopicActivityMenuState::new();
    for n in names {
        s.upsert(n.to_string(), message("x"));
    }
    s
}

#[test]
fn test_app_state_next() {
    let mut menu_state = TopicActivityMenuState::new();

    menu_state.topics.push(TopicActivity { name: "topic1".into(), messages: vec![] });

    menu_state.topics.push(TopicActivity { name: "topic2".into(), messages: vec![] });

    assert_eq!(menu_state.selected_index, 0);
    menu_state.next();
    assert_eq!(menu_state.selected_index, 1);
    menu_state.next();
    assert_eq!(menu_state.selected_index, 0);
}

#[test]
fn test_app_state_previous() {
    let mut menu_state = TopicActivityMenuState::new();

    menu_state.topics.push(TopicActivity { name: "topic1".into(), messages: vec![] });

    menu_state.topics.push(TopicActivity { name: "topic2".into(), messages: vec![] });

    assert_eq!(menu_state.selected_index, 0);
    menu_state.previous();
    assert_eq!(menu_state.selected_index, 1);
    menu_state.previous();
    assert_eq!(menu_state.selected_index, 0);
}

#[test]
fn test_add_topic_inserts_into_topics() {
    let topic_menu_state = Arc::new(Mutex::new(TopicActivityMenuState {
        topics: Vec::new(),
        selected_index: 0,
    }));

    let menu_guard = topic_menu_state.lock().unwrap();
    assert_eq!(menu_guard.topics.len(), 0);
    drop(menu_guard);

    let mqtt_event = MQTTEvent {
        topic: "Topic1".into(),
        payload: "Payload 1".into(),
        timestamp: current_stamp(),
    };

    push_message_into_topic(&mut topic_menu_state.lock().unwrap(), mqtt_event);
    let menu_guard = topic_menu_state.lock().unwrap();

    assert_eq!(menu_guard.topics.len(), 1);
}

#[test]
fn test_message_is_stored_in_correct_topic() {
    let topic_menu_state = Arc::new(Mutex::new(TopicActivityMenuState {
        topics: Vec::new(),
        selected_index: 0,
    }));

    let mqtt_event_1 = MQTTEvent {
        topic: "test/topic1".into(),
        payload: "Payload 1!".into(),
        timestamp: current_stamp(),
    };

    let mqtt_event_2 = MQTTEvent {
        topic: "test/topic2".into(),
        payload: "Payload 2!".into(),
        timestamp: current_stamp(),
    };

    let mqtt_event_3 = MQTTEvent {
        topic: "topic3".into(),
        payload: "Payload 3!".into(),
        timestamp: current_stamp(),
    };

    let mqtt_event_4 = MQTTEvent {
        topic: "topic3".into(),
        payload: "Payload 4!".into(),
        timestamp: current_stamp(),
    };

    push_message_into_topic(&mut topic_menu_state.lock().unwrap(), mqtt_event_1);
    push_message_into_topic(&mut topic_menu_state.lock().unwrap(), mqtt_event_2);
    push_message_into_topic(&mut topic_menu_state.lock().unwrap(), mqtt_event_3);
    push_message_into_topic(&mut topic_menu_state.lock().unwrap(), mqtt_event_4);

    let menu_guard = topic_menu_state.lock().unwrap();

    assert_eq!(menu_guard.topics[0].messages.len(), 1);
    assert_eq!(menu_guard.topics[1].messages.len(), 1);
    assert_eq!(menu_guard.topics[2].messages.len(), 2);

    assert_eq!(menu_guard.topics[0].messages[0].payload, "Payload 1!");
    assert_eq!(menu_guard.topics[1].messages[0].payload, "Payload 2!");
    assert_eq!(menu_guard.topics[2].messages[0].payload, "Payload 3!");
    assert_eq!(menu_guard.topics[2].messages[1].payload, "Payload 4!");
}

#[test]
fn events_a_b_a_group_into_two_topics() {
    let mut s = TopicActivityMenuState::new();
    s.upsert("a".to_string(), message("1"));
    s.upsert("b".to_string(), message("2"));
    s.upsert("a".to_string(), message("3"));
    assert_eq!(s.topics.len(), 2);
    assert_eq!(s.topics[0].name, "a");
    let a: Vec<&str> = s.topics[0].messages.iter().map(|m| m.payload.as_str()).collect();
    assert_eq!(a, vec!["1", "3"]);
    assert_eq!(s.topics[1].name, "b");
    let b: Vec<&str> = s.topics[1].messages.iter().map(|m| m.payload.as_str()).collect();
    assert_eq!(b, vec!["2"]);
    assert_eq!(s.selected_index, 0);
}

#[test]
fn upserts_keep_first_seen_order_and_arrival_order() {
    let mut s = TopicActivityMenuState::new();
    let events = [("x", "1"), ("y", "2"), ("z", "3"), ("y", "4"), ("x", "5"), ("y", "6")];
    for (t, p) in events {
        s.upsert(t.to_string(), message(p));
    }
    let names: Vec<&str> = s.topics.iter().map(|t| t.name.as_str()).collect();
    assert_eq!(names, vec!["x", "y", "z"]);
    let logs: Vec<Vec<&str>> = s
        .topics
        .iter()
        .map(|t| t.messages.iter().map(|m| m.payload.as_str()).collect())
        .collect();
    assert_eq!(logs, vec![vec!["1", "5"], vec!["2", "4", "6"], vec!["3"]]);
}

#[test]
fn upsert_keeps_the_selection() {
    let mut s = store_with(&["a", "b", "c"]);
    s.next();
    s.next();
    s.upsert("d".to_string(), message("new"));
    s.upsert("a".to_string(), message("again"));
    assert_eq!(s.selected_index, 2);
}

#[test]
fn next_n_times_returns_to_start() {
    let mut s = store_with(&["a", "b", "c", "d", "e"]);
    s.next();
    s.next();
    let start = s.selected_index;
    for _ in 0..s.topics.len() {
        s.next();
    }
    assert_eq!(s.selected_index, start);
}

#[test]
fn previous_n_times_returns_to_start() {
    let mut s = store_with(&["a", "b", "c"]);
    s.next();
    let start = s.selected_index;
    for _ in 0..s.topics.len() {
        s.previous();
    }
    assert_eq!(s.selected_index, start);
}

#[test]
fn previous_from_first_wraps_to_last() {
    let mut s = store_with(&["a", "b", "c", "d"]);
    s.previous();
    assert_eq!(s.selected_index, 3);
    s.next();
    assert_eq!(s.selected_index, 0);
}

#[test]
fn navigation_on_empty_store_is_a_no_op() {
    let mut s = TopicActivityMenuState::new();
    s.next();
    assert_eq!(s.selected_index, 0);
    s.previous();
    assert_eq!(s.selected_index, 0);
    assert!(s.topics.is_empty());
}

#[test]
fn snapshot_twice_is_equal() {
    let mut s = store_with(&["a", "b"]);
    s.upsert("a".to_string(), message("more"));
    s.next();
    let first = s.snapshot();
    let second = s.snapshot();
    assert_eq!(first, second);
}

#[test]
fn snapshot_shows_selected_topic_messages() {
    let mut s = TopicActivityMenuState::new();
    s.upsert("a".to_string(), message("1"));
    s.upsert("b".to_string(), message("2"));
    s.upsert("a".to_string(), message("3"));
    let snap = s.snapshot();
    assert_eq!(snap.topic_names, vec!["a".to_string(), "b".to_string()]);
    assert_eq!(snap.selected_index, 0);
    assert_eq!(
        snap.activity,
        vec![
            ActivityLine::Heading("a".to_string()),
            ActivityLine::Blank,
            ActivityLine::Message {
                timestamp: "2024-05-06 07:08:09".to_string(),
                payload: "1".to_string()
            },
            ActivityLine::Message {
                timestamp: "2024-05-06 07:08:09".to_string(),
                payload: "3".to_string()
            },
        ]
    );
}

#[test]
fn snapshot_of_empty_store_and_of_topic_without_messages() {
    let s = TopicActivityMenuState::new();
    let snap = s.snapshot();
    assert!(snap.topic_names.is_empty());
    assert_eq!(snap.activity, vec![ActivityLine::NoTopics]);

    let mut t = TopicActivityMenuState::new();
    t.topics.push(TopicActivity { name: "quiet".into(), messages: vec![] });
    let snap = t.snapshot();
    assert_eq!(
        snap.activity,
        vec![ActivityLine::Heading("quiet".to_string()), ActivityLine::Blank, ActivityLine::NoMessages]
    );
}

#[test]
fn pushed_event_stores_formatted_time() {
    let mut s = TopicActivityMenuState::new();
    let ev = MQTTEvent {
        topic: "sensors/t".to_string(),
        payload: "21.5".to_string(),
        timestamp: Stamp { year: 2023, month: 11, day: 3, hour: 9, minute: 5, second: 7 },
    };
    push_message_into_topic(&mut s, ev);
    assert_eq!(s.topics[0].name, "sensors/t");
    assert_eq!(s.topics[0].messages[0].payload, "21.5");
    assert_eq!(s.topics[0].messages[0].timestamp, "2023-11-03 09:05:07");
}
