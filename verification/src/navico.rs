//! Navico radars: BR24, 3G, 4G and HALO.
pub mod locator;
pub mod model;
pub mod record;
pub mod report;
pub mod settings;
pub mod spoke;
