//! Supervision of a local backend process by a desktop shell.
//!
//! The shell starts a bundled backend executable, waits until the backend
//! answers on its loopback address, and stops it when the window goes away.
//! This crate holds every decision of that lifecycle and none of its effects:
//! the caller looks up paths, spawns, probes, sleeps and kills, and tells the
//! [`Supervisor`] what happened; the supervisor answers with what to do next.

pub mod config;
pub mod error;
pub mod laws;
pub mod lifecycle;
pub mod process;
pub mod supervisor;

pub use config::{backend_name, BACKEND_URL, MAX_RETRIES, RETRY_DELAY_MS};
pub use error::StartupError;
pub use lifecycle::{Action, Event, LaunchEvent, Phase, ProbeEvent, State};
pub use process::{cleanup_backend, BackendProcess};
pub use supervisor::{start_backend, wait_for_backend, window_destroyed, Supervisor};
