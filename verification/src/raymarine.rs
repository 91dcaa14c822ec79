//! Raymarine radars: the RD, HD and E series domes and the Quantum series.
pub mod command;
pub mod data;
pub mod locator;
pub mod quantum;
pub mod rd;
pub mod record;
pub mod report;
pub mod settings;
pub mod unpack;
