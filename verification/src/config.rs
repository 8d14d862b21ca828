//! Fixed configuration of the pipeline: the canonical audio format and the
//! constants of the voice-activity and trigger policies.

use vstd::prelude::*;

verus! {

/// Canonical sample rate: all samples entering the segment buffer are mono
/// at this rate.
pub const SAMPLE_RATE_HZ: usize = 16000;

/// Push-mode threshold policy: the trigger fires once this many samples have
/// accumulated (one second at the canonical rate).
pub const TRIGGER_SAMPLES: usize = SAMPLE_RATE_HZ;

/// Length of the window the voice-activity detector evaluates (about 100 ms
/// at the canonical rate).
pub const VAD_WINDOW_SAMPLES: usize = SAMPLE_RATE_HZ / 10;

/// The silence threshold on root-mean-square energy is the fraction
/// `SILENCE_THRESHOLD_NUM / SILENCE_THRESHOLD_DEN` of full scale.
pub const SILENCE_THRESHOLD_NUM: u64 = 1;

/// Denominator of the silence threshold fraction.
pub const SILENCE_THRESHOLD_DEN: u64 = 100;

/// Pull-mode silence-debounce policy: no trigger may fire before this much
/// time has passed since capture started.
pub const MIN_RECORDING_MS: u64 = 500;

/// Pull-mode silence-debounce policy: the trigger fires once this much time
/// has passed since the last voiced window (or since capture start, when no
/// voice was ever heard).
pub const MAX_SILENCE_MS: u64 = 1000;

/// Interval at which the background worker re-reads the trigger signal.
pub const WORKER_POLL_INTERVAL_MS: u64 = 50;

/// Full scale of a fixed-point sample: a raw value `r` stands for the
/// amplitude `r / 32768` in `[-1.0, 1.0)`.
pub const SAMPLE_FULL_SCALE: u64 = 32768;

} // verus!
