//! Voice-activity detection: short-window energy, classified against the
//! silence threshold, and the rolling state the trigger policy reads.
//!
//! The root-mean-square test `rms > threshold` is stated exactly over fixed
//! point integers: with samples at full scale `F = 32768` and a threshold of
//! `N / D` of full scale,
//! `sqrt(sum / (n * F * F)) > N / D  <==>  sum * D * D > n * N * N * F * F`,
//! so no square root and no floating point is ever needed.

use vstd::prelude::*;
use crate::config::SILENCE_THRESHOLD_DEN;
use crate::config::SILENCE_THRESHOLD_NUM;
use crate::config::VAD_WINDOW_SAMPLES;

verus! {

/// The sum of squared raw sample values over a window.
pub open spec fn sum_squares(s: Seq<i16>) -> int
    decreases s.len(),
{
    if s.len() == 0 {
        0
    } else {
        sum_squares(s.drop_last()) + (s.last() as int) * (s.last() as int)
    }
}

/// Every square is in `[0, 2^30]`, so the sum lies in `[0, n * 2^30]`.
pub proof fn lemma_sum_squares_bounds(s: Seq<i16>)
    ensures
        0 <= sum_squares(s) <= s.len() * 0x4000_0000,
    decreases s.len(),
{
    if s.len() > 0 {
        lemma_sum_squares_bounds(s.drop_last());
        let x = s.last() as int;
        assert(0 <= x * x <= 0x4000_0000) by (nonlinear_arith)
            requires
                -0x8000 <= x <= 0x7FFF,
        ;
        assert((s.len() - 1) * 0x4000_0000 + 0x4000_0000 == s.len() * 0x4000_0000)
            by (nonlinear_arith);
    }
}

/// A window counts as voiced when its root-mean-square energy exceeds the
/// silence threshold, stated exactly over the squared fixed-point values.
pub open spec fn is_voiced(window: Seq<i16>) -> bool {
    sum_squares(window) * (SILENCE_THRESHOLD_DEN * SILENCE_THRESHOLD_DEN) > window.len() * (
    SILENCE_THRESHOLD_NUM * SILENCE_THRESHOLD_NUM) * 0x4000_0000
}

/// Adds up the squared raw values of a window.
pub fn sum_of_squares(window: &[i16]) -> (total: u64)
    requires
        window@.len() <= 0x1_0000_0000,
    ensures
        total as int == sum_squares(window@),
{
    let len: usize = window.len();
    let mut total: u64 = 0;
    let mut i: usize = 0;
    while i < len
        invariant
            len == window@.len(),
            window@.len() <= 0x1_0000_0000,
            i <= len,
            total as int == sum_squares(window@.take(i as int)),
            total as int <= i as int * 0x4000_0000,
        decreases len - i,
    {
        let v: i64 = window[i] as i64;
        proof {
            assert(0 <= (v as int) * (v as int) <= 0x4000_0000) by (nonlinear_arith)
                requires
                    -0x8000 <= v as int <= 0x7FFF,
            ;
        }
        let sq: u64 = (v * v) as u64;
        proof {
            let prefix = window@.take(i as int + 1);
            assert(prefix.drop_last() =~= window@.take(i as int));
        }
        total = total + sq;
        i = i + 1;
    }
    proof {
        assert(window@.take(len as int) =~= window@);
    }
    total
}

/// Classifies one window of samples as voiced or silent.
///
/// A streaming, stateless-per-call computation: it never blocks and does no
/// allocation, so it is safe on the real-time ingestion path.
pub fn classify_window(window: &[i16]) -> (voiced: bool)
    requires
        window@.len() <= 0x1_0000_0000,
    ensures
        voiced == is_voiced(window@),
{
    let total: u64 = sum_of_squares(window);
    proof {
        lemma_sum_squares_bounds(window@);
    }
    let den2: u64 = SILENCE_THRESHOLD_DEN * SILENCE_THRESHOLD_DEN;
    let num2: u64 = SILENCE_THRESHOLD_NUM * SILENCE_THRESHOLD_NUM;
    proof {
        assert((total as int) * (den2 as int) <= 0x4000_0000_0000_0000 * 10000)
            by (nonlinear_arith)
            requires
                0 <= total as int <= 0x4000_0000_0000_0000,
                den2 == 10000,
        ;
        assert((window@.len() as int) * (num2 as int) <= 0x1_0000_0000) by (nonlinear_arith)
            requires
                0 <= window@.len() <= 0x1_0000_0000,
                num2 == 1,
        ;
    }
    let lhs: u128 = (total as u128) * (den2 as u128);
    let rhs: u128 = (window.len() as u128) * (num2 as u128) * 0x4000_0000;
    lhs > rhs
}

/// The rolling state of the detector: when capture started, when a voiced
/// window was last heard (if ever), and how many samples have arrived since
/// the window was last evaluated. Mutated only by the ingestion path; read
/// by the trigger policy.
#[derive(Clone, Copy, Debug)]
pub struct VoiceActivityState {
    /// When the current capture began, in host milliseconds.
    pub capture_start_ms: u64,
    /// When the last voiced window was classified, if any voice was heard.
    pub last_voiced_ms: Option<u64>,
    /// Samples accumulated since the last window evaluation.
    pub samples_since_check: usize,
}

impl VoiceActivityState {
    /// Timestamps never run ahead of the clock, and a voiced mark never
    /// precedes the start of capture.
    pub open spec fn wf(self, now: int) -> bool {
        &&& self.capture_start_ms <= now
        &&& (self.last_voiced_ms matches Some(t) ==> self.capture_start_ms <= t <= now)
    }

    /// A fresh state at the moment capture begins.
    pub fn begin(now_ms: u64) -> (v: VoiceActivityState)
        ensures
            v == (VoiceActivityState {
                capture_start_ms: now_ms,
                last_voiced_ms: None,
                samples_since_check: 0,
            }),
            v.wf(now_ms as int),
    {
        VoiceActivityState { capture_start_ms: now_ms, last_voiced_ms: None, samples_since_check: 0 }
    }
}

/// The trailing check-interval window of a buffer.
pub open spec fn latest_window(buf: Seq<i16>) -> Seq<i16>
    recommends
        buf.len() >= VAD_WINDOW_SAMPLES,
{
    buf.subrange(buf.len() - VAD_WINDOW_SAMPLES, buf.len() as int)
}

/// How the detector state advances when `added` new samples have just been
/// appended, leaving the buffer contents at `buf`: once a full check
/// interval of new samples is pending and the buffer holds a whole window,
/// the trailing window is classified and, if voiced, the last-voiced mark
/// moves to `now`.
pub open spec fn vad_after_ingest(
    v: VoiceActivityState,
    buf: Seq<i16>,
    added: int,
    now: u64,
) -> VoiceActivityState {
    let pending = v.samples_since_check + added;
    if pending >= VAD_WINDOW_SAMPLES && buf.len() >= VAD_WINDOW_SAMPLES {
        VoiceActivityState {
            capture_start_ms: v.capture_start_ms,
            last_voiced_ms: if is_voiced(latest_window(buf)) {
                Some(now)
            } else {
                v.last_voiced_ms
            },
            samples_since_check: 0,
        }
    } else {
        VoiceActivityState {
            capture_start_ms: v.capture_start_ms,
            last_voiced_ms: v.last_voiced_ms,
            samples_since_check: if pending > usize::MAX {
                usize::MAX
            } else {
                pending as usize
            },
        }
    }
}

} // verus!
