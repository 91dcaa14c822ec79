//! Furuno radars: the DRS and FAR series.
pub mod command;
pub mod locator;
pub mod report;
pub mod settings;
