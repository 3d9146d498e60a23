use std::io::Cursor;

use hound::{SampleFormat, WavReader, WavSpec, WavWriter};
use yue::wav::{check_wav_header, check_wav_reader, WavFormatError, WavHeader, WavSampleFormat};

fn wav_bytes(spec: WavSpec, float_samples: &[f32], int_samples: &[i32]) -> Vec<u8> {
    let mut cursor = Cursor::new(Vec::new());
    {
        let mut writer = WavWriter::new(&mut cursor, spec).expect("create wav");
        for s in float_samples {
            writer.write_sample(*s).expect("write sample");
        }
        for s in int_samples {
            writer.write_sample(*s).expect("write sample");
        }
        writer.finalize().expect("finalize wav");
    }
    cursor.into_inner()
}

#[test]
fn test_read_wav_samples_rejects_wrong_sample_rate() {
    let spec = WavSpec {
        channels: 2,
        sample_rate: 44_100,
        bits_per_sample: 32,
        sample_format: SampleFormat::Float,
    };
    let bytes = wav_bytes(spec, &[0.0, 0.0], &[]);
    let reader = WavReader::new(Cursor::new(bytes)).expect("open wav");
    let (header, verdict) = check_wav_reader(&reader);
    assert_eq!(header.sample_rate, 44_100);
    let err = verdict.expect_err("wrong sample rate should fail");
    assert_eq!(err, WavFormatError::SampleRate(44_100));
    assert!(err.message().contains("Unexpected sample rate"));
    assert_eq!(
        err.message(),
        "Unexpected sample rate in temp WAV: expected 48000, got 44100"
    );
}

#[test]
fn mono_wav_is_refused() {
    let spec = WavSpec {
        channels: 1,
        sample_rate: 48_000,
        bits_per_sample: 32,
        sample_format: SampleFormat::Float,
    };
    let bytes = wav_bytes(spec, &[0.5], &[]);
    let reader = WavReader::new(Cursor::new(bytes)).expect("open wav");
    let (_, verdict) = check_wav_reader(&reader);
    let err = verdict.unwrap_err();
    assert_eq!(err, WavFormatError::Channels(1));
    assert_eq!(err.message(), "Unexpected channel count in temp WAV: 1");
}

#[test]
fn stereo_float_and_int_wavs_are_accepted_with_their_format() {
    let spec = WavSpec {
        channels: 2,
        sample_rate: 48_000,
        bits_per_sample: 32,
        sample_format: SampleFormat::Float,
    };
    let bytes = wav_bytes(spec, &[0.25, -0.25, 0.5, -0.5], &[]);
    let reader = WavReader::new(Cursor::new(bytes)).expect("open wav");
    let (header, verdict) = check_wav_reader(&reader);
    assert_eq!(
        header,
        WavHeader {
            channels: 2,
            sample_rate: 48_000,
            bits_per_sample: 32,
            sample_format: WavSampleFormat::Float
        }
    );
    assert_eq!(verdict, Ok(WavSampleFormat::Float));

    let spec = WavSpec {
        channels: 2,
        sample_rate: 48_000,
        bits_per_sample: 16,
        sample_format: SampleFormat::Int,
    };
    let bytes = wav_bytes(spec, &[], &[0, 100, -100, 7]);
    let reader = WavReader::new(Cursor::new(bytes)).expect("open wav");
    let (header, verdict) = check_wav_reader(&reader);
    assert_eq!(header.bits_per_sample, 16);
    assert_eq!(header.sample_format, WavSampleFormat::Int);
    assert_eq!(verdict, Ok(WavSampleFormat::Int));
}

#[test]
fn sample_rate_is_checked_before_channels() {
    let header = WavHeader {
        channels: 6,
        sample_rate: 22_050,
        bits_per_sample: 8,
        sample_format: WavSampleFormat::Int,
    };
    assert_eq!(check_wav_header(&header), Err(WavFormatError::SampleRate(22_050)));
}
