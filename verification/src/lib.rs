//! The decision core of a multi-protocol network probe: address resolution,
//! request planning, per-job sequencing and response reporting, each with a
//! contract that Verus proves.

pub mod address;
pub mod cli;
pub mod dispatch;
pub mod job;
pub mod request;
pub mod sink;
pub mod text;
pub mod transport;
