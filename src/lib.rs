//! Supervision of a headless GUI application: the decisions behind launching
//! it, probing for its window, and serving still frames of its display.
pub mod capture;
pub mod cli;
pub mod http;
pub mod launch;
pub mod probe;
