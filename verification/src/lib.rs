//! Client-side runtime for controllers over watched cluster objects.
//!
//! Per-resource watch notifications are normalised into identity-only
//! reconcile requests, multiplexed onto one channel and exposed to the caller
//! through a debounced first-in-first-out queue.

pub mod api;
pub mod config;
pub mod error;
pub mod runtime;

pub use api::{ErrorResponse, ListParams, Meta, NotUsed, ObjectMeta, Resource, WatchEvent};
pub use error::{ConfigError, PipelineError};
pub use runtime::channel::{Message, Received};
pub use runtime::controller::{Controller, ControllerState, Polled, ReconcileEvent, SourceError};
pub use runtime::listener::Listener;
pub use runtime::queue::ReconcileQueue;
