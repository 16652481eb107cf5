//! A morning weather summary: statistics over hourly "feels-like" readings,
//! a comparison with yesterday, and the sentence that reports it.
//!
//! Temperatures are held as whole hundredths of a degree Fahrenheit
//! (`5531` stands for 55.31°F), so every computation here is exact.

pub mod diff;
pub mod stats;
pub mod text;
pub mod time;
pub mod model;
pub mod report;
pub mod client;
