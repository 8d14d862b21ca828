//! The named events the pipeline publishes to its observers.
//!
//! Delivery is the host's concern (fire-and-forget, never failing the
//! caller); this module fixes which events exist, their names on the wire,
//! and what they carry.

use vstd::prelude::*;
use vstd::string::StringExecFns;

verus! {

/// One published event with its payload.
#[derive(Debug, Clone, PartialEq, Eq)]
pub enum PipelineEvent {
    /// A change of the capture status, as text.
    RecordingStatus(String),
    /// The final transcript of one utterance.
    Transcript(String),
    /// A human-readable reason a transcription failed.
    TranscriptError(String),
    /// The derived downstream hand-off for the next pipeline stage.
    LlmResponse(String),
}

impl PipelineEvent {
    /// The event's name on the wire.
    pub open spec fn spec_name(self) -> Seq<char> {
        match self {
            PipelineEvent::RecordingStatus(_) => "recording-status"@,
            PipelineEvent::Transcript(_) => "transcript"@,
            PipelineEvent::TranscriptError(_) => "transcript-error"@,
            PipelineEvent::LlmResponse(_) => "llm-response"@,
        }
    }

    /// The payload carried with the event.
    pub open spec fn spec_payload(self) -> Seq<char> {
        match self {
            PipelineEvent::RecordingStatus(s) => s@,
            PipelineEvent::Transcript(s) => s@,
            PipelineEvent::TranscriptError(s) => s@,
            PipelineEvent::LlmResponse(s) => s@,
        }
    }

    /// The event's name on the wire, for the host's emitter.
    pub fn name(&self) -> (r: String)
        ensures
            r@ == self.spec_name(),
    {
        match self {
            PipelineEvent::RecordingStatus(_) => String::from_str("recording-status"),
            PipelineEvent::Transcript(_) => String::from_str("transcript"),
            PipelineEvent::TranscriptError(_) => String::from_str("transcript-error"),
            PipelineEvent::LlmResponse(_) => String::from_str("llm-response"),
        }
    }

    /// Borrows the payload, for the host's emitter.
    pub fn payload(&self) -> (r: &String)
        ensures
            r@ == self.spec_payload(),
    {
        match self {
            PipelineEvent::RecordingStatus(s) => s,
            PipelineEvent::Transcript(s) => s,
            PipelineEvent::TranscriptError(s) => s,
            PipelineEvent::LlmResponse(s) => s,
        }
    }
}

/// How many `transcript` events a batch holds.
pub open spec fn count_transcripts(events: Seq<PipelineEvent>) -> int
    decreases events.len(),
{
    if events.len() == 0 {
        0
    } else {
        count_transcripts(events.drop_last()) + if events.last() is Transcript {
            1int
        } else {
            0int
        }
    }
}

/// How many `transcript-error` events a batch holds.
pub open spec fn count_transcript_errors(events: Seq<PipelineEvent>) -> int
    decreases events.len(),
{
    if events.len() == 0 {
        0
    } else {
        count_transcript_errors(events.drop_last()) + if events.last() is TranscriptError {
            1int
        } else {
            0int
        }
    }
}

} // verus!
