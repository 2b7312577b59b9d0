//! Lifecycle management for companion services: named units that are started
//! before a program's own logic runs, stopped after it ends, and can be
//! started, stopped or restarted by name in between.

pub mod counter;
pub mod laws;
pub mod registry;
pub mod service;

pub use counter::Counter;
pub use registry::{deinit, init, restart, start, stop, Action, Registry};
pub use service::Service;
