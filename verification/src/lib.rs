//! A download manager core: resumable, cancellable, progress-reporting
//! transfers over HTTP, with a task store, a cooperative transfer executor,
//! a bounded progress channel, and a task controller.

pub mod channel;
pub mod clock;
pub mod config;
pub mod decimal;
pub mod errors;
pub mod executor;
pub mod manager;
pub mod nav;
pub mod repository;
pub mod store;
pub mod strutil;
pub mod task;
pub mod theme;
