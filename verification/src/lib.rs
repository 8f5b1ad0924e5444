//! Verified core of the Powerflow power monitor: the live chart recorder,
//! chart history snapshots, history clean-up outcomes, battery registry
//! records and the status-bar and sampler decisions.

pub mod database;
pub mod history;
pub mod ioreg;
pub mod laws;
pub mod local;
pub mod provider;
pub mod recorder;
pub mod text;
