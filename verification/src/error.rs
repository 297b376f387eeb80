//! Failures that the pipeline and the configuration loaders report.

use vstd::prelude::*;
use crate::api::ErrorResponse;

verus! {

/// A failure of the event pipeline.
#[derive(Debug)]
pub enum PipelineError {
    /// A watch source reported a failure of its stream.
    Source(ErrorResponse),
    /// The shared channel was closed while the controller was running.
    ChannelClosed,
}

/// A failure to load the configuration.
#[derive(Debug)]
pub enum ConfigError {
    /// In-cluster configuration could not be loaded, with the reason.
    KubeConfig(String),
}

} // verus!
