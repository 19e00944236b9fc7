//! Broker events: the connection settings, the normalized event that the
//! ingestion side queues, the choice of which notifications become events,
//! and how an event is folded into the store.

use vstd::prelude::*;
use vstd::utf8::{decode_utf8, valid_utf8};
use crate::stamp::{format_timestamp, stamp_text, Stamp};
use crate::store::{upsert_topics, MessageActivity, MessageView, TopicActivityMenuState};

verus! {

/// Where the broker is.
#[derive(Debug)]
pub struct MQTTConfig {
    pub host: String,
    pub port: u16,
}

/// A publish notification, normalized: topic, payload as text, and when it
/// arrived.
#[derive(Debug)]
pub struct MQTTEvent {
    pub topic: String,
    pub payload: String,
    pub timestamp: Stamp,
}

/// What the broker connection delivered, as far as ingestion cares.
pub enum Notification {
    /// An incoming publish: its topic and raw payload bytes.
    Publish { topic: String, payload: Vec<u8> },
    /// Anything else: acknowledgements, pings, outgoing packets.
    Other,
}

/// The text that lossy UTF-8 decoding makes of these bytes.
pub uninterp spec fn utf8_lossy(b: Seq<u8>) -> Seq<char>;

/// Relies on std's `String::from_utf8_lossy`: the bytes decoded as UTF-8,
/// each invalid sequence replaced by U+FFFD; valid UTF-8 decodes exactly.
#[verifier::external_body]
fn lossy_text(b: &[u8]) -> (r: String)
    ensures
        r@ == utf8_lossy(b@),
        valid_utf8(b@) ==> r@ == decode_utf8(b@),
{
    String::from_utf8_lossy(b).into_owned()
}

/// The event that a notification yields, stamped `now`: one for each
/// incoming publish, none for anything else.
pub fn event_from_notification(notification: Notification, now: Stamp) -> (r: Option<MQTTEvent>)
    ensures
        match notification {
            Notification::Publish { topic, payload } => r matches Some(e) && e.topic@ == topic@
                && e.payload@ == utf8_lossy(payload@) && e.timestamp == now,
            Notification::Other => r is None,
        },
{
    match notification {
        Notification::Publish { topic, payload } => {
            let text = lossy_text(payload.as_slice());
            Some(MQTTEvent { topic, payload: text, timestamp: now })
        },
        Notification::Other => None,
    }
}

/// What the probe's connection attempt delivered.
pub enum ProbeEvent {
    /// The broker answered the connect request, accepting it or not; when
    /// not, with its reason.
    ConnAck { accepted: bool, reason: String },
    /// Any other packet: keep waiting.
    OtherPacket,
    /// The connection failed, for this reason.
    ConnectionError(String),
    /// The probe's time ran out.
    TimedOut,
}

pub open spec fn timed_out_text() -> Seq<char> {
    "no answer before the timeout"@
}

/// The probe's result once an event settles it: the broker accepting the
/// connection is success; a refusal, a connection error or the timeout is
/// failure with its reason; any other packet settles nothing yet.
pub fn probe_outcome(event: ProbeEvent) -> (r: Option<Result<(), String>>)
    ensures
        match event {
            ProbeEvent::ConnAck { accepted, reason } => if accepted {
                r == Some(Ok::<(), String>(()))
            } else {
                r matches Some(Err(e)) && e@ == reason@
            },
            ProbeEvent::OtherPacket => r is None,
            ProbeEvent::ConnectionError(reason) => r matches Some(Err(e)) && e@ == reason@,
            ProbeEvent::TimedOut => r matches Some(Err(e)) && e@ == timed_out_text(),
        },
{
    match event {
        ProbeEvent::ConnAck { accepted, reason } => {
            if accepted {
                Some(Ok(()))
            } else {
                Some(Err(reason))
            }
        },
        ProbeEvent::OtherPacket => None,
        ProbeEvent::ConnectionError(reason) => Some(Err(reason)),
        ProbeEvent::TimedOut => Some(Err(String::from_str("no answer before the timeout"))),
    }
}

/// Fold one event into the store: its payload and formatted arrival time
/// go to the end of its topic's log, or to a new topic at the end.
pub fn push_message_into_topic(menu_state: &mut TopicActivityMenuState, mqtt_event: MQTTEvent)
    requires
        mqtt_event.timestamp.valid(),
    ensures
        final(menu_state).topics_view() == upsert_topics(
            old(menu_state).topics_view(),
            mqtt_event.topic@,
            MessageView {
                payload: mqtt_event.payload@,
                timestamp: stamp_text(mqtt_event.timestamp),
            },
        ),
        final(menu_state).selected_index == old(menu_state).selected_index,
        old(menu_state).wf() ==> final(menu_state).wf(),
{
    let timestamp = format_timestamp(&mqtt_event.timestamp);
    let message = MessageActivity { payload: mqtt_event.payload, timestamp };
    menu_state.upsert(mqtt_event.topic, message);
}

} // verus!
