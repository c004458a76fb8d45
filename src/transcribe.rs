use vstd::prelude::*;

use crate::level::I16_FULL_SCALE;
use crate::resample::{resample_linear, resampled_of};
use crate::wav::{read_wav_header, read_wav_int_samples, wav_header_of, wav_int_samples_of, WavHeader};

verus! {

/// Sample rate the inference engine expects.
pub const ENGINE_SAMPLE_RATE_HZ: u32 = 16000;

/// Beam width of the decoder.
pub const BEAM_SIZE: i32 = 5;

/// Largest magnitude of a 32-bit signed sample: deep integer samples are normalized by it.
pub const I32_FULL_SCALE: u64 = 2147483647;

/// Failures of one transcription request; none is retried.
#[derive(Clone, Copy, Debug, PartialEq, Eq)]
pub enum TranscribeError {
    /// A malformed container, zero channels, a zero sample rate or a corrupt sample stream.
    InvalidAudioFormat,
    /// The engine failed to create its state or to decode.
    InferenceFailure,
}

impl TranscribeError {
    /// What the error says to a user.
    pub fn message(&self) -> (s: String)
        ensures
            s@ == match self {
                TranscribeError::InvalidAudioFormat => "invalid WAV data"@,
                TranscribeError::InferenceFailure => "whisper inference failed"@,
            },
    {
        match self {
            TranscribeError::InvalidAudioFormat => String::from_str("invalid WAV data"),
            TranscribeError::InferenceFailure => String::from_str("whisper inference failed"),
        }
    }
}

/// A mono signal at the engine's rate: sample `i` is `samples[i] / denominator`, about
/// within [-1, 1].
pub struct MonoSignal {
    pub samples: Vec<i128>,
    pub denominator: u128,
}

/// Decoded audio: integer PCM is mixed and resampled here; float PCM keeps only its header,
/// and its samples are mixed by the caller and resampled along `resample_plan`.
pub enum PreparedAudio {
    Int(MonoSignal),
    Float(WavHeader),
}

pub open spec fn int_sum(s: Seq<i32>) -> int
    decreases s.len(),
{
    if s.len() == 0 {
        0
    } else {
        int_sum(s.drop_last()) + s.last() as int
    }
}

/// Channel sums of each whole frame of interleaved integer samples.
pub open spec fn int_frame_sums_of(s: Seq<i32>, c: nat) -> Seq<i64> {
    Seq::new(s.len() / c, |f: int| int_sum(s.subrange(f * c, f * c + c)) as i64)
}

/// Normalization scale of integer samples of a bit depth.
pub open spec fn full_scale_of(bits: u16) -> u64 {
    if bits <= 16 {
        I16_FULL_SCALE
    } else {
        I32_FULL_SCALE
    }
}

proof fn lemma_int_sum_bound(s: Seq<i32>)
    ensures
        -0x8000_0000 * s.len() <= int_sum(s) <= 0x7fff_ffff * s.len(),
    decreases s.len(),
{
    if s.len() > 0 {
        lemma_int_sum_bound(s.drop_last());
    }
}

/// Sums the channels of each whole frame of interleaved integer samples.
pub fn int_frame_sums(samples: &Vec<i32>, channels: u16) -> (r: Vec<i64>)
    requires
        channels > 0,
    ensures
        r@ == int_frame_sums_of(samples@, channels as nat),
{
    let c = channels as usize;
    let frames = samples.len() / c;
    let mut r: Vec<i64> = Vec::with_capacity(frames);
    let mut f: usize = 0;
    while f < frames
        invariant
            c == channels as usize,
            c > 0,
            c <= 65535,
            frames == samples@.len() / (c as nat),
            samples@.len() <= usize::MAX,
            f <= frames,
            r@.len() == f,
            forall|g: int| 0 <= g < f ==> #[trigger] r@[g] == int_frame_sums_of(samples@, channels as nat)[g],
        decreases frames - f,
    {
        proof {
            crate::level::lemma_frame_in_bounds(samples@.len() as int, c as int, f as int);
        }
        let base = f * c;
        let mut acc: i64 = 0;
        let mut j: usize = 0;
        while j < c
            invariant
                c == channels as usize,
                c > 0,
                c <= 65535,
                base == f * c,
                base + c <= samples@.len(),
                samples@.len() <= usize::MAX,
                j <= c,
                acc as int == int_sum(samples@.subrange(base as int, base + j)),
                -0x8000_0000 * j <= acc <= 0x7fff_ffff * j,
            decreases c - j,
        {
            proof {
                let s = samples@;
                assert(s.subrange(base as int, base + j + 1).drop_last() =~= s.subrange(base as int, base + j));
            }
            acc = acc + samples[base + j] as i64;
            j = j + 1;
        }
        proof {
            assert(-0x8000_0000 * c <= acc <= 0x7fff_ffff * c);
        }
        r.push(acc);
        f = f + 1;
    }
    proof {
        assert(r@ =~= int_frame_sums_of(samples@, channels as nat));
    }
    r
}

/// Normalization scale of integer samples: the 16-bit maximum up to 16 bits, the 32-bit
/// maximum above.
pub fn full_scale_for_bits(bits: u16) -> (s: u64)
    ensures
        s == full_scale_of(bits),
{
    if bits <= 16 {
        I16_FULL_SCALE
    } else {
        I32_FULL_SCALE
    }
}

/// What decoding yields, in mathematical terms: a refusal, a float header, or integer
/// samples over a denominator.
pub enum PreparedView {
    Invalid,
    Failed,
    Float(WavHeader),
    Int { samples: Seq<int>, denominator: int },
}

pub open spec fn prepared_view(r: Result<PreparedAudio, TranscribeError>) -> PreparedView {
    match r {
        Err(TranscribeError::InvalidAudioFormat) => PreparedView::Invalid,
        Err(TranscribeError::InferenceFailure) => PreparedView::Failed,
        Ok(PreparedAudio::Float(h)) => PreparedView::Float(h),
        Ok(PreparedAudio::Int(m)) => signal_view(&m),
    }
}

/// A mono signal in mathematical terms.
pub open spec fn signal_view(m: &MonoSignal) -> PreparedView {
    PreparedView::Int { samples: m.samples@.map_values(|v: i128| v as int), denominator: m.denominator as int }
}

/// The engine-rate signal of mono frame sums `mono` decoded under header `h`.
pub open spec fn engine_signal(h: WavHeader, mono: Seq<i64>) -> PreparedView {
    PreparedView::Int {
        samples: resampled_of(mono, h.sample_rate as nat, ENGINE_SAMPLE_RATE_HZ as nat),
        denominator: h.channels * full_scale_of(h.bits_per_sample) * (if mono.len() == 0
            || h.sample_rate == ENGINE_SAMPLE_RATE_HZ {
            1
        } else {
            ENGINE_SAMPLE_RATE_HZ as int
        }),
    }
}

/// Decoded but not yet resampled audio: integer PCM as per-frame channel sums at the
/// container's rate, or a float header.
pub enum DecodedAudio {
    Int { header: WavHeader, mono: Vec<i64> },
    Float(WavHeader),
}

/// What the decoding step yields, in mathematical terms.
pub enum DecodedView {
    Invalid,
    Failed,
    Float(WavHeader),
    Int { header: WavHeader, mono: Seq<i64> },
}

pub open spec fn decoded_view(r: Result<DecodedAudio, TranscribeError>) -> DecodedView {
    match r {
        Err(TranscribeError::InvalidAudioFormat) => DecodedView::Invalid,
        Err(TranscribeError::InferenceFailure) => DecodedView::Failed,
        Ok(DecodedAudio::Float(h)) => DecodedView::Float(h),
        Ok(DecodedAudio::Int { header, mono }) => DecodedView::Int { header, mono: mono@ },
    }
}

/// The decoding of a container whose header is `h` and whose integer samples, read as
/// such, are `samples`.
pub open spec fn decoded_from(h: WavHeader, samples: Option<Seq<i32>>) -> DecodedView {
    if h.channels == 0 || h.sample_rate == 0 {
        DecodedView::Invalid
    } else if h.is_float {
        DecodedView::Float(h)
    } else {
        match samples {
            None => DecodedView::Invalid,
            Some(s) => DecodedView::Int { header: h, mono: int_frame_sums_of(s, h.channels as nat) },
        }
    }
}

/// The outcome of decoding a container whose header is `h` and whose integer samples, read
/// as such, are `samples`.
pub open spec fn prepared_from(h: WavHeader, samples: Option<Seq<i32>>) -> PreparedView {
    match decoded_from(h, samples) {
        DecodedView::Invalid => PreparedView::Invalid,
        DecodedView::Failed => PreparedView::Failed,
        DecodedView::Float(g) => PreparedView::Float(g),
        DecodedView::Int { header, mono } => engine_signal(header, mono),
    }
}

/// Decodes WAV bytes: the header, and for integer PCM the channel sums of each frame.
pub fn decode_wav(bytes: &[u8]) -> (r: Result<DecodedAudio, TranscribeError>)
    ensures
        wav_header_of(bytes@) is None ==> decoded_view(r) == DecodedView::Invalid,
        wav_header_of(bytes@) is Some ==> decoded_view(r) == decoded_from(
            wav_header_of(bytes@).unwrap(),
            wav_int_samples_of(bytes@),
        ),
{
    let header = match read_wav_header(bytes) {
        Ok(h) => h,
        Err(_) => {
            return Err(TranscribeError::InvalidAudioFormat);
        },
    };
    if header.channels == 0 || header.sample_rate == 0 {
        return Err(TranscribeError::InvalidAudioFormat);
    }
    if header.is_float {
        return Ok(DecodedAudio::Float(header));
    }
    let samples = match read_wav_int_samples(bytes) {
        Ok(s) => s,
        Err(_) => {
            return Err(TranscribeError::InvalidAudioFormat);
        },
    };
    let mono = int_frame_sums(&samples, header.channels);
    Ok(DecodedAudio::Int { header, mono })
}

/// Brings mono frame sums to the engine's rate: resampled linearly from the header's rate
/// and put over the denominator that normalizes them.
pub fn to_engine_rate(header: WavHeader, mono: &Vec<i64>) -> (m: MonoSignal)
    requires
        header.channels > 0,
        header.sample_rate > 0,
    ensures
        signal_view(&m) == engine_signal(header, mono@),
{
    let resampled = resample_linear(mono, header.sample_rate, ENGINE_SAMPLE_RATE_HZ);
    let scale = full_scale_for_bits(header.bits_per_sample);
    proof {
        assert(header.channels * scale <= 0xffff * 0xffff_ffff) by (nonlinear_arith)
            requires
                header.channels <= 0xffff,
                scale <= 0xffff_ffff,
        ;
        assert(header.channels * scale * resampled.scale <= 0xffff * 0xffff_ffff * 0xffff_ffff_ffff_ffff)
            by (nonlinear_arith)
            requires
                header.channels <= 0xffff,
                scale <= 0xffff_ffff,
                resampled.scale <= 0xffff_ffff_ffff_ffff,
        ;
    }
    let denominator = header.channels as u128 * scale as u128 * resampled.scale as u128;
    proof {
        assert(resampled.samples@.map_values(|v: i128| v as int) =~= resampled_of(
            mono@,
            header.sample_rate as nat,
            ENGINE_SAMPLE_RATE_HZ as nat,
        ));
    }
    MonoSignal { samples: resampled.samples, denominator }
}

/// Decodes WAV bytes into a mono signal at the engine's rate. Integer PCM is averaged over
/// the channels of each frame, normalized by its bit depth's full scale and resampled
/// linearly from its own rate.
pub fn prepare_wav(bytes: &[u8]) -> (r: Result<PreparedAudio, TranscribeError>)
    ensures
        wav_header_of(bytes@) is None ==> prepared_view(r) == PreparedView::Invalid,
        wav_header_of(bytes@) is Some ==> prepared_view(r) == prepared_from(
            wav_header_of(bytes@).unwrap(),
            wav_int_samples_of(bytes@),
        ),
{
    match decode_wav(bytes) {
        Err(e) => Err(e),
        Ok(DecodedAudio::Float(h)) => Ok(PreparedAudio::Float(h)),
        Ok(DecodedAudio::Int { header, mono }) => Ok(PreparedAudio::Int(to_engine_rate(header, &mono))),
    }
}

} // verus!
