//! A typing-speed test: a session that compares what the user types against a
//! passage, and the projection of that session into what a screen shows.

pub mod app;
pub mod clock;
pub mod counting;
pub mod decimal;
pub mod metrics;
pub mod passages;
pub mod session;
pub mod text;
pub mod typing;
pub mod ui;
