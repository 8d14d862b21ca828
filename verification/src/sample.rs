//! Normalizing raw input into canonical samples.
//!
//! A sample is kept in fixed point as the signed 16-bit raw value `r`,
//! standing for the amplitude `r / 32768` of full scale in `[-1.0, 1.0)`.
//! Push-mode byte chunks carry exactly these raw values as interleaved
//! little-endian pairs, so the decoding below is exact; a host that needs
//! floating-point samples divides by full scale at the boundary.

use vstd::prelude::*;
use crate::errors::PipelineError;

verus! {

/// The sample encoded by one little-endian byte pair.
pub open spec fn sample_of_bytes(lo: u8, hi: u8) -> i16 {
    (((hi as u16) << 8) | (lo as u16)) as i16
}

/// The byte pair decodes to its two's-complement little-endian value:
/// `lo + 256 * hi`, wrapped from `[0, 65535]` into `[-32768, 32767]`.
pub proof fn lemma_sample_of_bytes_value(lo: u8, hi: u8)
    ensures
        (lo as int) + 256 * (hi as int) < 32768 ==> sample_of_bytes(lo, hi) as int == (lo as int)
            + 256 * (hi as int),
        (lo as int) + 256 * (hi as int) >= 32768 ==> sample_of_bytes(lo, hi) as int == (lo as int)
            + 256 * (hi as int) - 65536,
{
    assert((((hi as u16) << 8) | (lo as u16)) == (hi as u16) * 256 + (lo as u16))
        by (bit_vector);
    assert(((((hi as u16) << 8) | (lo as u16)) as i16) == ((((((hi as u16) << 8) | (lo
        as u16)) as i32) - 65536) as i16)) by (bit_vector);
}

/// All samples of an interleaved little-endian 16-bit PCM chunk, in order.
pub open spec fn decoded_samples(chunk: Seq<u8>) -> Seq<i16> {
    Seq::new((chunk.len() / 2) as nat, |i: int| sample_of_bytes(chunk[2 * i], chunk[2 * i + 1]))
}

/// Push-mode decoding is exact: an even-length chunk of `2 * n` bytes
/// yields `n` samples, and the `i`-th is the two's-complement value of the
/// `i`-th little-endian byte pair.
pub proof fn lemma_decoded_samples_values(chunk: Seq<u8>)
    ensures
        decoded_samples(chunk).len() == chunk.len() / 2,
        forall|i: int|
            0 <= i < chunk.len() / 2 ==> #[trigger] (decoded_samples(chunk)[i] as int) == (
            if (chunk[2 * i] as int) + 256 * (chunk[2 * i + 1] as int) < 32768 {
                (chunk[2 * i] as int) + 256 * (chunk[2 * i + 1] as int)
            } else {
                (chunk[2 * i] as int) + 256 * (chunk[2 * i + 1] as int) - 65536
            }),
{
    assert forall|i: int| 0 <= i < chunk.len() / 2 implies #[trigger] (decoded_samples(
        chunk,
    )[i] as int) == (if (chunk[2 * i] as int) + 256 * (chunk[2 * i + 1] as int) < 32768 {
        (chunk[2 * i] as int) + 256 * (chunk[2 * i + 1] as int)
    } else {
        (chunk[2 * i] as int) + 256 * (chunk[2 * i + 1] as int) - 65536
    }) by {
        lemma_sample_of_bytes_value(chunk[2 * i], chunk[2 * i + 1]);
    }
}

/// Decodes a pushed chunk of interleaved little-endian 16-bit mono PCM.
///
/// A chunk of odd byte length is rejected as malformed; an even-length chunk
/// of `2 * n` bytes yields exactly `n` samples, the `i`-th read from the
/// `i`-th byte pair.
pub fn decode_pcm16le(chunk: &[u8]) -> (r: Result<Vec<i16>, PipelineError>)
    ensures
        chunk@.len() % 2 != 0 ==> (r matches Err(e) && e == PipelineError::MalformedInput),
        chunk@.len() % 2 == 0 ==> (r matches Ok(samples) && samples@ == decoded_samples(chunk@)),
{
    if chunk.len() % 2 != 0 {
        return Err(PipelineError::MalformedInput);
    }
    let len: usize = chunk.len();
    let half: usize = len / 2;
    let mut samples: Vec<i16> = Vec::new();
    let mut j: usize = 0;
    while j < half
        invariant
            len == chunk@.len(),
            chunk@.len() % 2 == 0,
            half == chunk@.len() / 2,
            j <= half,
            samples@.len() == j as int,
            forall|k: int|
                0 <= k < j ==> samples@[k] == sample_of_bytes(chunk@[2 * k], chunk@[2 * k + 1]),
        decreases half - j,
    {
        assert(2 * j + 1 < chunk@.len());
        let lo = chunk[2 * j];
        let hi = chunk[2 * j + 1];
        let s: i16 = (((hi as u16) << 8) | (lo as u16)) as i16;
        samples.push(s);
        j += 1;
    }
    proof {
        assert(samples@ =~= decoded_samples(chunk@));
    }
    Ok(samples)
}

/// Recenters one unsigned 16-bit device sample to the signed fixed-point
/// form: silence sits at 32768 on such devices.
pub fn center_u16_sample(raw: u16) -> (s: i16)
    ensures
        s as int == raw as int - 32768,
{
    ((raw as i32) - 32768) as i16
}

/// A multi-channel frame reduced to mono: the first channel of each frame,
/// one sample per `channels` interleaved values.
pub open spec fn downmixed(frame: Seq<i16>, channels: int) -> Seq<i16>
    recommends
        channels >= 1,
{
    Seq::new((frame.len() as int / channels) as nat, |i: int| frame[i * channels])
}

/// Downmixes an interleaved multi-channel frame to mono by selecting the
/// first channel of each frame; a trailing partial frame is dropped.
pub fn downmix_first_channel(frame: &[i16], channels: usize) -> (mono: Vec<i16>)
    requires
        channels >= 1,
    ensures
        mono@ == downmixed(frame@, channels as int),
{
    let mut mono: Vec<i16> = Vec::new();
    let mut idx: usize = 0;
    proof {
        assert(mono@.len() * (channels as int) == 0) by (nonlinear_arith)
            requires
                mono@.len() == 0,
        ;
    }
    while frame.len() - idx >= channels
        invariant
            channels >= 1,
            idx as int == mono@.len() * (channels as int),
            idx <= frame@.len(),
            forall|k: int| 0 <= k < mono@.len() ==> mono@[k] == frame@[k * channels],
        decreases frame@.len() - idx,
    {
        mono.push(frame[idx]);
        proof {
            assert((mono@.len() - 1) * (channels as int) + (channels as int)
                == mono@.len() * (channels as int)) by (nonlinear_arith);
        }
        idx += channels;
    }
    proof {
        let n = mono@.len() as int;
        let len = frame@.len() as int;
        let c = channels as int;
        assert(n * c <= len < n * c + c);
        assert(len / c == n) by (nonlinear_arith)
            requires
                c >= 1,
                n >= 0,
                n * c <= len < n * c + c,
        ;
        assert(mono@ =~= downmixed(frame@, channels as int));
    }
    mono
}

} // verus!
