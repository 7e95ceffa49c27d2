use crate::codec::{read_format, read_samples, wav_bytes_of, wav_header_of, wav_samples_of,
    write_wav, MAX_SAMPLES};
use crate::sample::{normalize_all, normalize_buffer, quantize_all, quantize_buffer, Norm};
use crate::stretch::{len_close, stretch_fits, stretch_samples, Stretcher};
use crate::tempo::Tempo;
use vstd::prelude::*;

verus! {

/// Why processing one file failed. Every failure is local to its file:
/// a batch reports it and goes on with the next file.
#[derive(Clone, Copy, PartialEq, Eq, Structural, Debug)]
pub enum PipelineError {
    /// The byte stream is not a well-formed WAV container, or the output
    /// would not fit a well-formed one.
    IoError,
    /// The container is well formed but its format is not mono 16 kHz
    /// 16-bit integer PCM.
    FormatError,
    /// The sample stream inside a well-formed container is malformed.
    DecodeError,
    /// The stretch request cannot yield a usable buffer: the scaled
    /// length would overflow the encoder's capacity.
    EngineError,
}

/// Whether the byte stream parses to a header carrying the supported
/// profile: mono, 16 kHz, 16-bit, integer-encoded.
pub open spec fn header_supported(input: Seq<u8>) -> bool {
    wav_header_of(input) == Some((1u16, 16000u32, 16u16, true))
}

/// What processing one byte stream at one tempo yields: exactly which
/// error comes on which inputs and, on success, the bytes of the
/// container emitted for the quantized stretched buffer.
pub open spec fn process_outcome(
    input: Seq<u8>,
    tempo: Tempo,
    r: Result<Vec<u8>, PipelineError>,
) -> bool {
    match r {
        Result::Err(e) => match e {
            PipelineError::IoError => {
                ||| wav_header_of(input) is None
                ||| {
                    &&& header_supported(input)
                    &&& wav_samples_of(input) matches Some(s)
                    &&& tempo.is_identity()
                    &&& s.len() > MAX_SAMPLES
                }
            },
            PipelineError::FormatError => wav_header_of(input) is Some && !header_supported(
                input,
            ),
            PipelineError::DecodeError => header_supported(input) && wav_samples_of(input)
                is None,
            PipelineError::EngineError => {
                &&& header_supported(input)
                &&& wav_samples_of(input) matches Some(s)
                &&& !tempo.is_identity()
                &&& s.len() * tempo.den > (MAX_SAMPLES - 2) * tempo.num
            },
        },
        Result::Ok(out) => {
            &&& header_supported(input)
            &&& wav_samples_of(input) matches Some(s)
            &&& if tempo.is_identity() {
                s.len() <= MAX_SAMPLES && out@ == wav_bytes_of(
                    16000,
                    quantize_all(normalize_all(s)),
                )
            } else {
                s.len() * tempo.den <= (MAX_SAMPLES - 2) * tempo.num && (exists|m: Seq<Norm>|
                    len_close(s.len() as int, tempo, m.len() as int) && out@
                        == #[trigger] wav_bytes_of(16000, quantize_all(m)))
            }
        },
    }
}

/// Runs the whole per-file pipeline on one in-memory container: parse
/// and validate the format, decode and normalize the samples, stretch by
/// the inverse tempo (bypassing the engine at the identity tempo),
/// quantize, and encode with the input's own format fields. Returns the
/// encoded output, or says exactly why this file was refused.
pub fn process_wav<S: Stretcher>(engine: &mut S, input: &Vec<u8>, tempo: Tempo) -> (r: Result<
    Vec<u8>,
    PipelineError,
>)
    requires
        tempo.wf(),
    ensures
        process_outcome(input@, tempo, r),
{
    let fmt = match read_format(input) {
        Some(f) => f,
        None => { return Err(PipelineError::IoError) },
    };
    if !fmt.is_supported() {
        return Err(PipelineError::FormatError);
    }
    let samples = match read_samples(input) {
        Some(s) => s,
        None => { return Err(PipelineError::DecodeError) },
    };
    if tempo.is_one() {
        if samples.len() > MAX_SAMPLES {
            return Err(PipelineError::IoError);
        }
    } else {
        if !stretch_fits(samples.len(), &tempo) {
            return Err(PipelineError::EngineError);
        }
    }
    let norm = normalize_buffer(&samples);
    let stretched = stretch_samples(engine, &norm, fmt.sample_rate, tempo);
    let quantized = quantize_buffer(&stretched);
    let out = write_wav(fmt.sample_rate, &quantized);
    proof {
        if !tempo.is_identity() {
            assert(len_close(samples@.len() as int, tempo, stretched@.len() as int)
                && out@ == wav_bytes_of(16000, quantize_all(stretched@)));
        }
    }
    Ok(out)
}

} // verus!
