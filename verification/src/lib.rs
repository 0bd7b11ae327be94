//! Protocol layer for querying an HDA audio codec through a hardware
//! dependent device handle: the verb codec that packs and unpacks the 32-bit
//! command and response words, the fixed-record decoder that turns raw
//! identity buffers into text, the declarative table of device-control
//! operations, and the node enumerator that discovers a codec's widget
//! node-id range from two sub-node-count queries.
//!
//! The device exchanges themselves are left to the caller: every function
//! here is a pure decision or transformation on the words and buffers that
//! cross the device boundary.

pub mod enumerate;
pub mod error;
pub mod ops;
pub mod record;
pub mod verb;
