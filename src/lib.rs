//! Month-close and financial-summary engine of a personal budgeting service.
//!
//! Amounts are whole numbers of cents. The aggregator, the month lifecycle,
//! the report layout and the statistics are computed here; storage, HTTP and
//! document encoding live around this crate.

pub mod auth;
mod clock;
pub mod config;
pub mod error;
pub mod lifecycle;
pub mod model;
pub mod money;
pub mod report;
pub mod stats;
pub mod summary;
pub mod text;
