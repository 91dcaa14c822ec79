//! Verified core of a marine radar server.
//!
//! The crate holds the parts of the server that decide and compute: the wire formats of the
//! supported radars, the control model, the pixel legend, the registry of detected radars and the
//! Signal K subscription rules. Sockets, clocks, files and floating point arithmetic stay with the
//! program that uses the crate; it hands plain values in and takes plain values back.
#![allow(unused_imports)]

pub mod brand;
pub mod cartesian;
pub mod config;
pub mod control;
pub mod control_id;
pub mod control_value;
pub mod controls;
pub mod definition;
pub mod error;
pub mod furuno;
pub mod garmin;
pub mod layout;
pub mod legend;
pub mod metadata;
pub mod navico;
pub mod network;
pub mod number;
pub mod power;
pub mod radar;
pub mod range;
pub mod raymarine;
pub mod request;
pub mod setting;
pub mod spoke;
pub mod stream;
pub mod subscription;
pub mod text;
pub mod units;
pub mod value;
pub mod web;
pub mod wire;
