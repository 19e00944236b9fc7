//! Verified core of a terminal client that subscribes to every topic of a
//! message broker and shows what arrives, grouped by topic.
//!
//! The library holds the topic activity store, the rules of the
//! configuration form and of the topic screen, and the steps that turn
//! broker notifications into stored messages. Terminal drawing, the broker
//! connection and the task plumbing live outside it and hand it plain values.

pub mod store;
pub mod stamp;
pub mod mqtt;
pub mod form;
pub mod screen;
