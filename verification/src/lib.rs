//! Firmware self-update sequencing for a network-connected device.
//!
//! The crate holds the decisions of an over-the-air update: which published
//! releases are eligible, which of their assets are firmware images, how a
//! download follows one redirect, in which order the inactive partition is
//! written and selected for boot, and when a freshly installed image is
//! confirmed. Network and flash I/O are performed by the caller, which feeds
//! what it observed to the state machines defined here.

pub mod error;
pub mod release;
pub mod version;
pub mod redirect;
pub mod flash;
pub mod rollback;
pub mod sequencer;
