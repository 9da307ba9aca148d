//! A verified core for a poll-mode-driver packet pipeline: packet buffer
//! descriptors, a bounded packet batch, a port abstraction over a driver
//! interface, and the combinator nodes (receive, filter, transform,
//! reset-parse, send) that form a processing chain.

pub mod batch;
pub mod driver;
pub mod filter_batch;
pub mod interface;
pub mod mbuf;
pub mod packet_batch;
pub mod pmd;
pub mod receive_batch;
pub mod reset_parse;
pub mod send_batch;
pub mod transform_batch;
pub mod vdev;
