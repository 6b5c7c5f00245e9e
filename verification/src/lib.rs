//! Model of a one-button BLE HID media remote.
//!
//! The crate holds the logic of such a device: the consumer-control
//! input report and the key pulses built from it, the HID report
//! descriptor together with a parser that checks its shape, the fixed
//! device identity, and the decision rule of the polling loop that
//! drives the remote.  The radio itself — advertising, notifying,
//! sleeping — is left to the embedding program, which feeds peer
//! counts in and carries reports out.

pub mod config;
pub mod control;
pub mod descriptor;
pub mod pulse;
pub mod report;
