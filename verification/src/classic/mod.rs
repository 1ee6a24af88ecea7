//! The first-generation controller: its sync packets carry a run status and a
//! split sequence number, it answers start, stop and status requests itself,
//! and it shows the Fill, Ramp and Simplex content.

pub mod app_state;
pub mod command;
pub mod content;
pub mod driver;

pub mod protocol;
