//! Uptime monitoring core: duration strings, probe classification, the scan
//! state machine and the scan scheduler.

pub mod config;
pub mod duration;
pub mod probe;
pub mod request;
pub mod scan;
pub mod scheduler;
pub mod status;
pub mod time;
pub mod timeline;
pub mod trace;
