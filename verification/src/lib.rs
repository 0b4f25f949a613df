//! Matrix, catalog, scenario and hop-layout logic of the Valence test kit.

pub mod text;
pub mod matrix;
pub mod hops;
pub mod fixtures;
pub mod scenario;
pub mod on_delete;
pub mod ttl;
pub mod catalog;
pub mod bootstrap;
pub mod runner;
pub mod iter_scan;
pub mod checks;
pub mod verdicts;
