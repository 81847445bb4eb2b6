//! Metrics acquisition and bounded time-series engine for a terminal
//! resource dashboard.

pub mod application;
pub mod config;
pub mod error;
pub mod menu;
pub mod metrics;
pub mod number;
pub mod text;
pub mod ui;
