use vstd::prelude::*;

verus! {

#[verifier::external_type_specification]
#[verifier::external_body]
pub struct ExHoundError(hound::Error);

/// The format fields of a WAV container.
#[derive(Clone, Copy, Debug, PartialEq, Eq)]
pub struct WavHeader {
    pub channels: u16,
    pub sample_rate: u32,
    pub bits_per_sample: u16,
    pub is_float: bool,
}

/// The header that hound reads from a byte buffer, or `None` where it refuses the buffer.
pub uninterp spec fn wav_header_of(bytes: Seq<u8>) -> Option<WavHeader>;

/// The interleaved integer samples that hound reads from a byte buffer, or `None` where a
/// sample cannot be read.
pub uninterp spec fn wav_int_samples_of(bytes: Seq<u8>) -> Option<Seq<i32>>;

/// Relies on `hound::WavReader::new` and `WavReader::spec`: the header is parsed from the
/// bytes alone, and a header with zero channels is refused.
#[verifier::external_body]
pub(crate) fn read_wav_header(bytes: &[u8]) -> (r: Result<WavHeader, hound::Error>)
    ensures
        r is Ok <==> wav_header_of(bytes@) is Some,
        r matches Ok(h) ==> wav_header_of(bytes@) == Some(h) && h.channels > 0,
{
    hound::WavReader::new(std::io::Cursor::new(bytes)).map(|reader| {
        let spec = reader.spec();
        WavHeader {
            channels: spec.channels,
            sample_rate: spec.sample_rate,
            bits_per_sample: spec.bits_per_sample,
            is_float: spec.sample_format == hound::SampleFormat::Float,
        }
    })
}

/// Relies on `hound::WavReader::samples::<i32>`: every integer sample of the data chunk,
/// interleaved, in order; an error for a corrupt or truncated stream or a float format.
#[verifier::external_body]
pub(crate) fn read_wav_int_samples(bytes: &[u8]) -> (r: Result<Vec<i32>, hound::Error>)
    ensures
        r is Ok <==> wav_int_samples_of(bytes@) is Some,
        r matches Ok(s) ==> wav_int_samples_of(bytes@) == Some(s@),
{
    let mut reader = hound::WavReader::new(std::io::Cursor::new(bytes))?;
    reader.samples::<i32>().collect()
}

} // verus!
