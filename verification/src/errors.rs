//! The error taxonomy of the pipeline.

use vstd::prelude::*;
use vstd::string::StringExecFns;

verus! {

/// Everything that can go wrong in the capture-to-transcription pipeline.
///
/// Nothing here terminates the host process: ingestion errors are returned
/// synchronously with no state mutated, engine errors degrade to an emitted
/// `transcript-error` event, and a missing capture device is surfaced to the
/// caller before capture starts.
#[derive(Debug, Clone, PartialEq, Eq)]
pub enum PipelineError {
    /// Rejected synchronously at the ingestion boundary: an odd-length PCM
    /// byte chunk, an unsupported device sample format, or a frame with no
    /// channels. No state is mutated.
    MalformedInput,
    /// The transcription engine was asked to work before a model was loaded.
    EngineNotInitialized,
    /// The engine failed while decoding an utterance; the reason it gave is
    /// kept verbatim.
    EngineFailure(String),
    /// No input device was found when starting pull-mode capture; capture
    /// never starts.
    DeviceUnavailable,
}

impl PipelineError {
    /// The human-readable reason published with `transcript-error` events.
    pub open spec fn spec_message(self) -> Seq<char> {
        match self {
            PipelineError::MalformedInput => "malformed input: expected an even number of PCM16LE bytes"@,
            PipelineError::EngineNotInitialized => "Whisper not initialized"@,
            PipelineError::EngineFailure(reason) => "transcription failed: "@ + reason@,
            PipelineError::DeviceUnavailable => "no input device available"@,
        }
    }

    /// Renders the error as the reason string carried by error events.
    pub fn message(&self) -> (r: String)
        ensures
            r@ == self.spec_message(),
    {
        match self {
            PipelineError::MalformedInput => {
                String::from_str("malformed input: expected an even number of PCM16LE bytes")
            }
            PipelineError::EngineNotInitialized => String::from_str("Whisper not initialized"),
            PipelineError::EngineFailure(reason) => {
                let mut r = String::from_str("transcription failed: ");
                r.append(reason.as_str());
                r
            }
            PipelineError::DeviceUnavailable => String::from_str("no input device available"),
        }
    }
}

} // verus!
