//! The pipeline core: ingestion, trigger bookkeeping, and the worker's
//! dispatch protocol, as one state machine over plain values.
//!
//! The host wraps a `Pipeline` in a mutual-exclusion lock and keeps every
//! access a short critical section: the real-time producer calls the ingest
//! methods, the single background worker alternates `worker_poll` — and,
//! when a snapshot comes back, the engine call off the audio thread followed
//! by `finish_transcription`. Nothing here blocks, performs input or
//! output, or calls the engine; those stay outside the lock, in the host.

use vstd::prelude::*;
use crate::buffer::SegmentBuffer;
use crate::config::TRIGGER_SAMPLES;
use crate::config::VAD_WINDOW_SAMPLES;
use crate::errors::PipelineError;
use crate::events::PipelineEvent;
use crate::events::count_transcript_errors;
use crate::events::count_transcripts;
use crate::respond::echo_reply;
use crate::respond::spec_echo;
use crate::sample::decode_pcm16le;
use crate::sample::decoded_samples;
use crate::sample::downmix_first_channel;
use crate::sample::downmixed;
use crate::trigger::raised;
use crate::trigger::silence_should_fire;
use crate::trigger::silence_trigger_fires;
use crate::trigger::threshold_trigger_fires;
use crate::vad::VoiceActivityState;
use crate::vad::classify_window;
use crate::vad::vad_after_ingest;
use crate::vad::latest_window;

verus! {

/// The mathematical state of a pipeline: the accumulated samples of the
/// in-progress utterance, the detector state, the trigger signal, and
/// whether the worker is in its transcribing phase.
#[verifier::ext_equal]
pub struct PipelineModel {
    /// Contents of the segment buffer, oldest first.
    pub samples: Seq<i16>,
    /// The voice-activity detector's rolling state.
    pub vad: VoiceActivityState,
    /// The idempotent utterance-complete signal, consumed by the worker.
    pub trigger: bool,
    /// Whether the worker holds a snapshot it has not finished with:
    /// at most one transcription is in flight at a time.
    pub transcribing: bool,
}

/// One capture-to-transcription pipeline instance.
pub struct Pipeline {
    buffer: SegmentBuffer,
    vad: VoiceActivityState,
    trigger: bool,
    transcribing: bool,
}

impl View for Pipeline {
    type V = PipelineModel;

    closed spec fn view(&self) -> PipelineModel {
        PipelineModel {
            samples: self.buffer@,
            vad: self.vad,
            trigger: self.trigger,
            transcribing: self.transcribing,
        }
    }
}

/// The model after a push-mode chunk decoded to `samples` was appended: the
/// buffer grows, and the threshold policy raises the (idempotent) trigger
/// once the accumulated count reaches the trigger size.
pub open spec fn spec_push_ingest(m: PipelineModel, samples: Seq<i16>) -> PipelineModel {
    let grown = m.samples + samples;
    PipelineModel {
        samples: grown,
        vad: m.vad,
        trigger: if threshold_trigger_fires(grown.len() as int) {
            raised(m.trigger)
        } else {
            m.trigger
        },
        transcribing: m.transcribing,
    }
}

/// The model after a pull-mode frame was downmixed to `mono` and appended
/// at instant `now`: the buffer grows, the detector advances (classifying
/// the trailing window once a check interval of new samples is pending),
/// and the silence-debounce policy — which takes precedence on this path —
/// raises the trigger when its condition holds.
pub open spec fn spec_pull_ingest(m: PipelineModel, mono: Seq<i16>, now: u64) -> PipelineModel {
    let grown = m.samples + mono;
    let vad = vad_after_ingest(m.vad, grown, mono.len() as int, now);
    PipelineModel {
        samples: grown,
        vad,
        trigger: if silence_trigger_fires(vad, now as int) {
            raised(m.trigger)
        } else {
            m.trigger
        },
        transcribing: m.transcribing,
    }
}

/// The model and the snapshot a worker poll produces: a set trigger is
/// consumed; a non-empty buffer is snapshotted and cleared in one step and
/// the worker enters its transcribing phase.
pub open spec fn spec_worker_poll(m: PipelineModel) -> (PipelineModel, Option<Seq<i16>>) {
    if !m.trigger {
        (m, None)
    } else if m.samples.len() == 0 {
        (
            PipelineModel {
                samples: m.samples,
                vad: m.vad,
                trigger: false,
                transcribing: m.transcribing,
            },
            None,
        )
    } else {
        (
            PipelineModel {
                samples: Seq::<i16>::empty(),
                vad: m.vad,
                trigger: false,
                transcribing: true,
            },
            Some(m.samples),
        )
    }
}

impl Pipeline {
    /// A fresh pipeline at instant `now_ms`: empty buffer, detector anchored
    /// at `now_ms`, no trigger pending, worker idle.
    pub fn new(now_ms: u64) -> (p: Pipeline)
        ensures
            p@ == (PipelineModel {
                samples: Seq::<i16>::empty(),
                vad: VoiceActivityState {
                    capture_start_ms: now_ms,
                    last_voiced_ms: None,
                    samples_since_check: 0,
                },
                trigger: false,
                transcribing: false,
            }),
            p@.vad.wf(now_ms as int),
    {
        Pipeline {
            buffer: SegmentBuffer::new(),
            vad: VoiceActivityState::begin(now_ms),
            trigger: false,
            transcribing: false,
        }
    }

    /// Restarts capture at instant `now_ms` after a dispatched utterance:
    /// the detector is re-anchored; buffer, trigger and worker phase keep
    /// their state.
    pub fn begin_capture(&mut self, now_ms: u64)
        ensures
            final(self)@ == (PipelineModel {
                samples: old(self)@.samples,
                vad: VoiceActivityState {
                    capture_start_ms: now_ms,
                    last_voiced_ms: None,
                    samples_since_check: 0,
                },
                trigger: old(self)@.trigger,
                transcribing: old(self)@.transcribing,
            }),
            final(self)@.vad.wf(now_ms as int),
    {
        self.vad = VoiceActivityState::begin(now_ms);
    }

    /// Push-mode ingestion: accepts one chunk of interleaved little-endian
    /// 16-bit mono PCM bytes. An odd-length chunk is rejected as malformed
    /// with nothing mutated; an even-length chunk of `2 * n` bytes appends
    /// exactly `n` decoded samples under one critical section and leaves
    /// the trigger raised exactly if it already was or the accumulated
    /// count has reached the trigger size.
    pub fn push_pcm_chunk(&mut self, chunk: &[u8]) -> (r: Result<(), PipelineError>)
        ensures
            chunk@.len() % 2 != 0 ==> (r matches Err(e) && e == PipelineError::MalformedInput
                && final(self)@ == old(self)@),
            chunk@.len() % 2 == 0 ==> r is Ok && final(self)@ == spec_push_ingest(
                old(self)@,
                decoded_samples(chunk@),
            ),
    {
        let decoded = match decode_pcm16le(chunk) {
            Ok(v) => v,
            Err(e) => {
                return Err(e);
            },
        };
        self.buffer.append(decoded.as_slice());
        if self.buffer.len() >= TRIGGER_SAMPLES {
            self.trigger = true;
        }
        Ok(())
    }

    /// Pull-mode ingestion: accepts one interleaved hardware frame already
    /// normalized to fixed-point samples, downmixes it to mono by taking
    /// the first channel, appends under one critical section, advances the
    /// detector, and lets the silence-debounce policy raise the trigger. A
    /// frame with no channels is rejected as malformed with nothing
    /// mutated.
    pub fn ingest_frame(&mut self, frame: &[i16], channels: usize, now_ms: u64) -> (r: Result<
        (),
        PipelineError,
    >)
        requires
            old(self)@.vad.wf(now_ms as int),
        ensures
            channels == 0 ==> (r matches Err(e) && e == PipelineError::MalformedInput
                && final(self)@ == old(self)@),
            channels >= 1 ==> r is Ok && final(self)@ == spec_pull_ingest(
                old(self)@,
                downmixed(frame@, channels as int),
                now_ms,
            ) && final(self)@.vad.wf(now_ms as int),
    {
        if channels == 0 {
            return Err(PipelineError::MalformedInput);
        }
        let mono = downmix_first_channel(frame, channels);
        self.buffer.append(mono.as_slice());
        let pending: usize = self.vad.samples_since_check.saturating_add(mono.len());
        if pending >= VAD_WINDOW_SAMPLES && self.buffer.len() >= VAD_WINDOW_SAMPLES {
            let window = self.buffer.tail(VAD_WINDOW_SAMPLES);
            proof {
                assert(window@ =~= latest_window(self.buffer@));
            }
            let voiced = classify_window(window);
            if voiced {
                self.vad.last_voiced_ms = Some(now_ms);
            }
            self.vad.samples_since_check = 0;
        } else {
            self.vad.samples_since_check = pending;
        }
        if silence_should_fire(&self.vad, now_ms) {
            self.trigger = true;
        }
        proof {
            assert(self@ =~= spec_pull_ingest(
                old(self)@,
                downmixed(frame@, channels as int),
                now_ms,
            ));
        }
        Ok(())
    }

    /// How many samples the in-progress utterance has accumulated.
    pub fn buffered_samples(&self) -> (n: usize)
        ensures
            n == self@.samples.len(),
    {
        self.buffer.len()
    }

    /// Whether the utterance-complete signal is raised and not yet consumed.
    pub fn trigger_pending(&self) -> (b: bool)
        ensures
            b == self@.trigger,
    {
        self.trigger
    }

    /// Whether the worker is in its transcribing phase.
    pub fn is_transcribing(&self) -> (b: bool)
        ensures
            b == self@.transcribing,
    {
        self.transcribing
    }

    /// The worker's poll: consumes a set trigger; when the buffer is
    /// non-empty it is snapshotted and cleared as one atomic step and the
    /// worker enters its transcribing phase with exactly the accumulated
    /// samples. Without a set trigger nothing changes; a set trigger over
    /// an empty buffer is consumed with nothing dispatched.
    pub fn worker_poll(&mut self) -> (snapshot: Option<Vec<i16>>)
        requires
            !old(self)@.transcribing,
        ensures
            final(self)@ == spec_worker_poll(old(self)@).0,
            (snapshot is Some) == (spec_worker_poll(old(self)@).1 is Some),
            snapshot matches Some(v) ==> spec_worker_poll(old(self)@).1 == Some(v@),
    {
        if self.trigger {
            self.trigger = false;
            if self.buffer.len() > 0 {
                let snap = self.buffer.snapshot_and_clear();
                self.transcribing = true;
                return Some(snap);
            }
        }
        None
    }

    /// Ends the transcribing phase with the engine's outcome and returns
    /// the events to publish, in order: a successful text yields exactly
    /// one `transcript` event carrying it and one `llm-response` hand-off
    /// echoing it; a failure yields exactly one `transcript-error` event
    /// carrying the reason, and no `transcript` — the pipeline returns to
    /// idle either way, buffer and trigger untouched, ready for the next
    /// utterance.
    pub fn finish_transcription(&mut self, outcome: Result<String, PipelineError>) -> (events: Vec<
        PipelineEvent,
    >)
        requires
            old(self)@.transcribing,
        ensures
            final(self)@ == (PipelineModel {
                samples: old(self)@.samples,
                vad: old(self)@.vad,
                trigger: old(self)@.trigger,
                transcribing: false,
            }),
            outcome matches Ok(text) ==> {
                &&& events@.len() == 2
                &&& (events@[0] matches PipelineEvent::Transcript(t) && t@ == text@)
                &&& (events@[1] matches PipelineEvent::LlmResponse(resp) && resp@ == spec_echo(
                    text@,
                ))
            },
            outcome matches Err(e) ==> {
                &&& events@.len() == 1
                &&& (events@[0] matches PipelineEvent::TranscriptError(m) && m@
                    == e.spec_message())
            },
    {
        self.transcribing = false;
        let mut events: Vec<PipelineEvent> = Vec::new();
        match outcome {
            Ok(text) => {
                let reply = echo_reply(text.as_str());
                events.push(PipelineEvent::Transcript(text));
                events.push(PipelineEvent::LlmResponse(reply));
            },
            Err(e) => {
                events.push(PipelineEvent::TranscriptError(e.message()));
            },
        }
        events
    }
}

/// Starting pull-mode capture needs an input device: reports
/// `DeviceUnavailable` — fatal to starting, surfaced synchronously — when
/// the host found none, and succeeds exactly when one is there.
pub fn confirm_input_device(device_available: bool) -> (r: Result<(), PipelineError>)
    ensures
        device_available ==> r is Ok,
        !device_available ==> (r matches Err(e) && e == PipelineError::DeviceUnavailable),
{
    if device_available {
        Ok(())
    } else {
        Err(PipelineError::DeviceUnavailable)
    }
}

/// A successful dispatch publishes exactly one `transcript` event and no
/// `transcript-error`: the batch a finished transcription returns on
/// success — the transcript followed by its downstream hand-off — counts
/// one transcript, so one utterance never yields two.
pub proof fn lemma_successful_dispatch_single_transcript(events: Seq<PipelineEvent>)
    requires
        events.len() == 2,
        events[0] is Transcript,
        events[1] is LlmResponse,
    ensures
        count_transcripts(events) == 1,
        count_transcript_errors(events) == 0,
{
    let rest = events.drop_last();
    assert(rest.len() == 1);
    assert(rest.drop_last().len() == 0);
    assert(count_transcripts(rest.drop_last()) == 0);
    assert(count_transcript_errors(rest.drop_last()) == 0);
    assert(rest.last() == events[0]);
    assert(events.last() == events[1]);
    assert(count_transcripts(rest) == 1);
    assert(count_transcript_errors(rest) == 0);
}

/// An unready engine after a trigger: the poll hands the worker a snapshot,
/// the readiness check comes back `EngineNotInitialized`, and the dispatch
/// publishes exactly one `transcript-error` event and no `transcript` —
/// the worker returns to idle and keeps accepting audio.
pub proof fn lemma_uninitialized_engine_single_error(
    m: PipelineModel,
    engine_loaded: bool,
    events: Seq<PipelineEvent>,
)
    requires
        m.trigger,
        !m.transcribing,
        m.samples.len() > 0,
        !engine_loaded,
        events.len() == 1,
        events[0] is TranscriptError,
    ensures
        spec_worker_poll(m).1 == Some(m.samples),
        spec_worker_poll(m).0.transcribing,
        count_transcripts(events) == 0,
        count_transcript_errors(events) == 1,
{
    let rest = events.drop_last();
    assert(rest.len() == 0);
    assert(count_transcripts(rest) == 0);
    assert(count_transcript_errors(rest) == 0);
    assert(events.last() == events[0]);
    assert(count_transcripts(events) == count_transcripts(rest));
    assert(count_transcript_errors(events) == count_transcript_errors(rest) + 1);
}

} // verus!
