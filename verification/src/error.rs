//! The error kinds the pipeline core can surface.

use crate::timestamp::Timestamp;
use vstd::prelude::*;

verus! {

/// A fault surfaced by the pipeline core.
///
/// Setup failures abort construction; a downstream rejection or a runtime
/// fault terminates the main loop; an unsupported stream type is merely
/// diagnostic and terminates nothing.
#[derive(Debug)]
pub enum PipelineError {
    /// A required component could not be constructed or connected.
    SetupFailure { component: String },
    /// The demultiplexer exposed an output whose classification is
    /// unrecognized; the connection is left unused.
    UnsupportedStreamType { output_name: String },
    /// A push of a frame or metadata record was refused by the receiving
    /// path. Metadata loss breaks the correlation invariant for that frame,
    /// so this is surfaced, never silently swallowed.
    DownstreamRejection { frame_ts: Timestamp },
    /// The underlying streaming runtime reported an error message.
    RuntimeFault { source: String, message: String, debug_detail: Option<String> },
}

impl PipelineError {
    /// A short name for the error kind, for diagnostic lines.
    pub fn kind_name(&self) -> (r: &'static str)
        ensures
            (match self {
                PipelineError::SetupFailure { .. } => r@ == "setup failure"@,
                PipelineError::UnsupportedStreamType { .. } => r@ == "unsupported stream type"@,
                PipelineError::DownstreamRejection { .. } => r@ == "downstream rejection"@,
                PipelineError::RuntimeFault { .. } => r@ == "runtime fault"@,
            }),
    {
        match self {
            PipelineError::SetupFailure { .. } => "setup failure",
            PipelineError::UnsupportedStreamType { .. } => "unsupported stream type",
            PipelineError::DownstreamRejection { .. } => "downstream rejection",
            PipelineError::RuntimeFault { .. } => "runtime fault",
        }
    }
}

} // verus!
