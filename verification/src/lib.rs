//! A CANopen node core: a typed parameter store (object dictionary), the
//! NMT state machine, heartbeat production, and classification of inbound
//! frames by COB-ID, together with the bounded frame queues that connect
//! the node to its bus driver.
//!
//! The crate holds the node's decision logic; the surrounding program owns
//! the bus peripheral, timers and task scheduling, and drives these
//! functions from its event loops.

pub mod frame;
pub mod heartbeat;
pub mod nmt;
pub mod node;
pub mod object_dictionary;
