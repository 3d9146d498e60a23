//! Checks on the header of the intermediate WAV file before its samples
//! are decoded: the export expects stereo audio at the export sample rate,
//! stored either as floats or as integers.

use vstd::prelude::*;

use crate::export::{AUDIO_CHANNELS, AUDIO_SAMPLE_RATE};
use crate::text::{decimal, decimal_text};

verus! {

/// Declares `hound::WavReader`, an opened WAV stream, to Verus as an opaque
/// type; nothing is claimed about its contents.
#[verifier::external_type_specification]
#[verifier::external_body]
#[verifier::reject_recursive_types(R)]
pub struct ExWavReader<R>(hound::WavReader<R>);

/// How the samples of a WAV file are stored.
#[derive(Clone, Copy, Debug, PartialEq, Eq, Structural)]
pub enum WavSampleFormat {
    /// IEEE floating point samples.
    Float,
    /// Integer (PCM) samples.
    Int,
}

/// The properties of a WAV file given by its header.
#[derive(Clone, Copy, Debug, PartialEq, Eq, Structural)]
pub struct WavHeader {
    /// Number of interleaved channels.
    pub channels: u16,
    /// Samples per second and channel.
    pub sample_rate: u32,
    /// Bits per sample.
    pub bits_per_sample: u16,
    /// How samples are stored.
    pub sample_format: WavSampleFormat,
}

/// Why a WAV file is refused.
#[derive(Clone, Copy, Debug, PartialEq, Eq, Structural)]
pub enum WavFormatError {
    /// The sample rate (given) is not the export sample rate.
    SampleRate(u32),
    /// The channel count (given) is not two.
    Channels(u16),
}

/// The verdict on a WAV header: the sample rate is checked first, then the
/// channel count; an accepted file is decoded according to its format.
pub open spec fn spec_check_header(header: WavHeader) -> Result<WavSampleFormat, WavFormatError> {
    if header.sample_rate != AUDIO_SAMPLE_RATE {
        Err(WavFormatError::SampleRate(header.sample_rate))
    } else if header.channels != AUDIO_CHANNELS {
        Err(WavFormatError::Channels(header.channels))
    } else {
        Ok(header.sample_format)
    }
}

/// The text of an error on the WAV header.
pub open spec fn spec_wav_error_message(e: WavFormatError) -> Seq<char> {
    match e {
        WavFormatError::SampleRate(found) => "Unexpected sample rate in temp WAV: expected "@
            + decimal(AUDIO_SAMPLE_RATE as nat) + ", got "@ + decimal(found as nat),
        WavFormatError::Channels(found) => "Unexpected channel count in temp WAV: "@ + decimal(
            found as nat,
        ),
    }
}

impl WavFormatError {
    /// The message reported for this error.
    pub fn message(&self) -> (s: String)
        ensures
            s@ == spec_wav_error_message(*self),
    {
        match self {
            WavFormatError::SampleRate(found) => {
                let mut s = String::from_str("Unexpected sample rate in temp WAV: expected ");
                s.append(decimal_text(AUDIO_SAMPLE_RATE as u128).as_str());
                s.append(", got ");
                s.append(decimal_text(*found as u128).as_str());
                s
            },
            WavFormatError::Channels(found) => {
                let mut s = String::from_str("Unexpected channel count in temp WAV: ");
                s.append(decimal_text(*found as u128).as_str());
                s
            },
        }
    }
}

/// A WAV header is accepted exactly when it announces 48000 Hz and two
/// channels, and then the answer is its own sample format; a header with
/// any other rate is refused for its rate (given back), and a 48000 Hz
/// header with another channel count is refused for its channels (given
/// back).
pub proof fn lemma_wav_header_verdict(header: WavHeader)
    ensures
        spec_check_header(header) is Ok <==> (header.sample_rate == 48000 && header.channels == 2),
        spec_check_header(header) is Ok ==> spec_check_header(header) == Ok::<
            WavSampleFormat,
            WavFormatError,
        >(header.sample_format),
        header.sample_rate != 48000 ==> spec_check_header(header) == Err::<
            WavSampleFormat,
            WavFormatError,
        >(WavFormatError::SampleRate(header.sample_rate)),
        header.sample_rate == 48000 && header.channels != 2 ==> spec_check_header(header) == Err::<
            WavSampleFormat,
            WavFormatError,
        >(WavFormatError::Channels(header.channels)),
{
}

/// Checks a WAV header: it must announce the export sample rate and two
/// channels. The answer is the sample format to decode.
pub fn check_wav_header(header: &WavHeader) -> (r: Result<WavSampleFormat, WavFormatError>)
    ensures
        r == spec_check_header(*header),
        r is Ok <==> (header.sample_rate == 48000 && header.channels == 2),
        r is Ok ==> r == Ok::<WavSampleFormat, WavFormatError>(header.sample_format),
        header.sample_rate != 48000 ==> r == Err::<WavSampleFormat, WavFormatError>(
            WavFormatError::SampleRate(header.sample_rate),
        ),
        header.sample_rate == 48000 && header.channels != 2 ==> r == Err::<
            WavSampleFormat,
            WavFormatError,
        >(WavFormatError::Channels(header.channels)),
{
    proof {
        lemma_wav_header_verdict(*header);
    }
    if header.sample_rate as usize != AUDIO_SAMPLE_RATE {
        Err(WavFormatError::SampleRate(header.sample_rate))
    } else if header.channels as usize != AUDIO_CHANNELS {
        Err(WavFormatError::Channels(header.channels))
    } else {
        Ok(header.sample_format)
    }
}

/// Calls `hound::WavReader::spec`, which gives the specification read from
/// the file's fmt chunk when the reader was created, and copies it into a
/// `WavHeader`. Nothing is stated of the result: it comes from the file.
#[verifier::external_body]
fn reader_header<R: std::io::Read>(reader: &hound::WavReader<R>) -> (header: WavHeader) {
    let spec = reader.spec();
    let sample_format = match spec.sample_format {
        hound::SampleFormat::Float => WavSampleFormat::Float,
        hound::SampleFormat::Int => WavSampleFormat::Int,
    };
    WavHeader {
        channels: spec.channels,
        sample_rate: spec.sample_rate,
        bits_per_sample: spec.bits_per_sample,
        sample_format,
    }
}

/// Reads the header of an opened WAV file and checks it. The answer holds
/// the header and the verdict on it.
pub fn check_wav_reader<R: std::io::Read>(reader: &hound::WavReader<R>) -> (r: (
    WavHeader,
    Result<WavSampleFormat, WavFormatError>,
))
    ensures
        r.1 == spec_check_header(r.0),
        r.1 is Ok <==> (r.0.sample_rate == 48000 && r.0.channels == 2),
        r.1 is Ok ==> r.1 == Ok::<WavSampleFormat, WavFormatError>(r.0.sample_format),
        r.0.sample_rate != 48000 ==> r.1 == Err::<WavSampleFormat, WavFormatError>(
            WavFormatError::SampleRate(r.0.sample_rate),
        ),
        r.0.sample_rate == 48000 && r.0.channels != 2 ==> r.1 == Err::<
            WavSampleFormat,
            WavFormatError,
        >(WavFormatError::Channels(r.0.channels)),
{
    let header = reader_header(reader);
    let verdict = check_wav_header(&header);
    (header, verdict)
}

} // verus!
