//! Core logic of an MQTT desktop client: broker records and their
//! conversions, subscribe/publish histories, payload encoding, the storage
//! ledger of broker ids, and the events sent to the user interface.

pub mod util;
pub mod data;
pub mod mqtt;
pub mod command;
pub mod config;
