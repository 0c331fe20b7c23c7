//! Selection, fetch and multiplexing logic for turning a described media asset
//! into one container file fed through live pipes.

pub mod hashing;
pub mod text;
pub mod descriptor;
pub mod pick;
pub mod track;
pub mod selector;
pub mod mux;
pub mod language;
pub mod fetch;
pub mod job;
