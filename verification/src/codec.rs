use crate::format::AudioFormat;
use vstd::prelude::*;

verus! {

/// The most samples one encoded file may carry. It keeps the container's
/// 32-bit data-length field and the writer's byte counter (two bytes per
/// sample) well clear of overflow.
pub const MAX_SAMPLES: usize = 0x4000_0000;

/// What hound's container parser makes of a byte stream: the format
/// fields (channels, sample rate, bits per sample, integer encoding), or
/// nothing where the stream is not a well-formed WAV container.
pub uninterp spec fn wav_header_of(bytes: Seq<u8>) -> Option<(u16, u32, u16, bool)>;

/// What hound's sample decoder makes of a byte stream, reading every
/// frame as a signed 16-bit value: the full sample sequence in file
/// order, or nothing where the container or a sample is malformed.
pub uninterp spec fn wav_samples_of(bytes: Seq<u8>) -> Option<Seq<i16>>;

/// The container hound emits for a mono, 16-bit integer PCM stream at the
/// given rate holding the given samples: a function of those two alone.
pub uninterp spec fn wav_bytes_of(sample_rate: u32, samples: Seq<i16>) -> Seq<u8>;

/// Relies on hound::WavReader::new and WavReader::spec: parsing the
/// header of an in-memory byte stream succeeds or fails, and yields the
/// format fields it yields, as a function of the bytes alone.
#[verifier::external_body]
pub(crate) fn read_format(bytes: &Vec<u8>) -> (r: Option<AudioFormat>)
    ensures
        match r {
            Some(f) => wav_header_of(bytes@) == Some(
                (f.channels, f.sample_rate, f.bits_per_sample, f.is_integer),
            ),
            None => wav_header_of(bytes@) is None,
        },
{
    match hound::WavReader::new(std::io::Cursor::new(bytes.as_slice())) {
        Ok(reader) => {
            let ws = reader.spec();
            Some(AudioFormat {
                channels: ws.channels,
                sample_rate: ws.sample_rate,
                bits_per_sample: ws.bits_per_sample,
                is_integer: matches!(ws.sample_format, hound::SampleFormat::Int),
            })
        },
        Err(_) => None,
    }
}

/// Relies on hound::WavReader::samples::<i16>: decoding the sample stream
/// of an in-memory byte stream is a function of the bytes alone, and
/// fails as a whole when any sample is malformed.
#[verifier::external_body]
pub(crate) fn read_samples(bytes: &Vec<u8>) -> (r: Option<Vec<i16>>)
    ensures
        match r {
            Some(v) => wav_samples_of(bytes@) == Some(v@),
            None => wav_samples_of(bytes@) is None,
        },
{
    match hound::WavReader::new(std::io::Cursor::new(bytes.as_slice())) {
        Ok(mut reader) => reader.samples::<i16>().collect::<Result<Vec<i16>, _>>().ok(),
        Err(_) => None,
    }
}

/// Relies on hound::WavWriter (new, write_sample, finalize) over an
/// in-memory cursor: the emitted container is a function of the sample
/// rate and the samples alone. The bounds keep the writer's 32-bit byte
/// counter and byte-rate header field from overflowing, and 16-bit
/// integer mono is a profile the writer accepts, so none of the calls in
/// the body can fail on an in-memory stream.
#[verifier::external_body]
pub(crate) fn write_wav(sample_rate: u32, samples: &Vec<i16>) -> (r: Vec<u8>)
    requires
        0 < sample_rate <= 0x7FFF_FFFF,
        samples@.len() <= MAX_SAMPLES,
    ensures
        r@ == wav_bytes_of(sample_rate, samples@),
{
    let ws = hound::WavSpec {
        channels: 1,
        sample_rate,
        bits_per_sample: 16,
        sample_format: hound::SampleFormat::Int,
    };
    let mut cursor = std::io::Cursor::new(Vec::new());
    let mut writer = hound::WavWriter::new(&mut cursor, ws).unwrap();
    for s in samples.iter() {
        writer.write_sample(*s).unwrap();
    }
    writer.finalize().unwrap();
    cursor.into_inner()
}

} // verus!
