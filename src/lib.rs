//! Navigation and card layout core of a desktop mentoring client.
//!
//! The library keeps the panel registry, the navigation state and the
//! record-to-card rendering as plain values with verified contracts; the
//! widget toolkit only ever sees the results.

pub mod registry;
pub mod navigation;
pub mod cards;
