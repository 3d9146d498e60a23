//! The arithmetic of the offline export: how the decoded stereo samples are
//! cut into video frames, which window of samples feeds the spectrum of each
//! frame, and the checks made on the rendered image before it is encoded.

use vstd::prelude::*;

use crate::text::{decimal, decimal_text, signed_decimal, signed_text};

verus! {

/// Width of the exported video, in logical pixels.
pub const EXPORT_WIDTH: i32 = 1920;
/// Height of the exported video, in logical pixels.
pub const EXPORT_HEIGHT: i32 = 1080;
/// Supersampling factor of the internal render target.
pub const EXPORT_SUPERSAMPLE: i32 = 2;
/// Width of the internal render target.
pub const RENDER_WIDTH: i32 = EXPORT_WIDTH * EXPORT_SUPERSAMPLE;
/// Height of the internal render target.
pub const RENDER_HEIGHT: i32 = EXPORT_HEIGHT * EXPORT_SUPERSAMPLE;
/// Frames per second of the exported video.
pub const EXPORT_FPS: usize = 60;
/// Sample rate of the intermediate WAV file.
pub const AUDIO_SAMPLE_RATE: usize = 48_000;
/// Channels of the intermediate WAV file.
pub const AUDIO_CHANNELS: usize = 2;
/// Silence put before the track, in milliseconds.
pub const LEAD_IN_MILLIS: u64 = 300;
/// Silence put after the track, in milliseconds.
pub const TAIL_PAD_MILLIS: u64 = 700;
/// At most this many frames are rendered per tick of the export job.
pub const MAX_FRAMES_PER_TICK: usize = 4;
/// Number of samples of the analysis window (a window of `FFT_SIZE` stereo frames).
pub const FFT_WINDOW_SAMPLES: usize = 2048;

/// `a / b` rounded up.
pub open spec fn ceil_div(a: nat, b: nat) -> nat
    recommends
        b > 0,
{
    ((a + b - 1) as nat) / b
}

/// Audio frames (one sample per channel) that make up one video frame.
pub open spec fn spec_samples_per_frame() -> nat {
    ceil_div(AUDIO_SAMPLE_RATE as nat, EXPORT_FPS as nat)
}

/// Interleaved stereo samples that make up one video frame.
pub open spec fn spec_stereo_samples_per_frame() -> nat {
    spec_samples_per_frame() * 2
}

/// Video frames exported for `sample_count` interleaved samples: enough
/// frames to hold every sample, and at least one.
pub open spec fn spec_total_frames(sample_count: nat) -> nat {
    let frames = ceil_div(sample_count, spec_stereo_samples_per_frame());
    if frames == 0 { 1 } else { frames }
}

/// One video frame lasts 800 audio frames, that is 1600 interleaved stereo
/// samples.
pub proof fn lemma_frame_size()
    ensures
        spec_samples_per_frame() == 800,
        spec_stereo_samples_per_frame() == 1600,
{
}

/// Audio frames per video frame: the sample rate divided by the frame rate,
/// rounded up.
pub fn samples_per_frame() -> (n: usize)
    ensures
        n == spec_samples_per_frame(),
        n == 800,
{
    (AUDIO_SAMPLE_RATE + EXPORT_FPS - 1) / EXPORT_FPS
}

/// Interleaved stereo samples per video frame.
pub fn stereo_samples_per_frame() -> (n: usize)
    ensures
        n == spec_stereo_samples_per_frame(),
        n == 1600,
{
    samples_per_frame() * 2
}

/// Number of video frames exported for `sample_count` interleaved samples.
pub fn total_frames_for_sample_count(sample_count: usize) -> (frames: usize)
    ensures
        frames == spec_total_frames(sample_count as nat),
        frames >= 1,
{
    let per_frame = stereo_samples_per_frame();
    let whole = sample_count / per_frame;
    let frames = if sample_count % per_frame == 0 { whole } else { whole + 1 };
    proof {
        lemma_ceil_div_1600(sample_count as nat);
    }
    if frames == 0 { 1 } else { frames }
}

proof fn lemma_ceil_div_1600(n: nat)
    ensures
        ceil_div(n, 1600) == if n % 1600 == 0 { n / 1600 } else { n / 1600 + 1 },
{
    assert(((n + 1599) as nat) / 1600 == if n % 1600 == 0 { n / 1600 } else { n / 1600 + 1 })
        by (nonlinear_arith);
}

/// First interleaved sample of video frame `frame`.
pub open spec fn spec_frame_start(frame: nat) -> nat {
    frame * spec_stereo_samples_per_frame()
}

/// One past the last interleaved sample of video frame `frame`: the start of
/// the next frame, or the end of the audio if that comes first.
pub open spec fn spec_frame_end(frame: nat, sample_count: nat) -> nat {
    let next = (frame + 1) * spec_stereo_samples_per_frame();
    if next < sample_count { next } else { sample_count }
}

/// First sample of the analysis window that ends where frame `frame` ends:
/// `FFT_WINDOW_SAMPLES` before that end, or the first sample.
pub open spec fn spec_window_start(frame: nat, sample_count: nat) -> nat {
    let end = spec_frame_end(frame, sample_count);
    if end > FFT_WINDOW_SAMPLES { (end - FFT_WINDOW_SAMPLES) as nat } else { 0 }
}

/// Where the samples of one video frame lie in the interleaved sample buffer.
#[derive(Clone, Copy, Debug, PartialEq, Eq)]
pub struct FrameBounds {
    /// First sample of the frame (the volume is measured from here).
    pub frame_start: usize,
    /// One past the last sample of the frame.
    pub end: usize,
    /// First sample of the analysis window, which ends at `end`.
    pub window_start: usize,
}

proof fn lemma_frame_start_within(frame: nat, sample_count: nat)
    requires
        frame < spec_total_frames(sample_count),
    ensures
        spec_frame_start(frame) <= sample_count,
        sample_count > 0 ==> spec_frame_start(frame) < sample_count,
{
    lemma_ceil_div_1600(sample_count);
    if sample_count > 0 {
        assert(frame * 1600 < sample_count) by (nonlinear_arith)
            requires
                frame < (if sample_count % 1600 == 0 { sample_count / 1600 } else { sample_count / 1600 + 1 }),
                sample_count > 0,
        ;
    }
}

/// The sample ranges of video frame `frame_idx` for an audio buffer of
/// `sample_count` interleaved samples.
pub fn frame_bounds(frame_idx: usize, sample_count: usize) -> (b: FrameBounds)
    requires
        frame_idx < spec_total_frames(sample_count as nat),
    ensures
        b.frame_start == spec_frame_start(frame_idx as nat),
        b.end == spec_frame_end(frame_idx as nat, sample_count as nat),
        b.window_start == spec_window_start(frame_idx as nat, sample_count as nat),
        b.frame_start <= b.end <= sample_count,
        b.window_start <= b.end,
        b.end - b.window_start <= FFT_WINDOW_SAMPLES,
{
    proof {
        lemma_frame_start_within(frame_idx as nat, sample_count as nat);
    }
    let per_frame = stereo_samples_per_frame();
    let frame_start = frame_idx * per_frame;
    let end = if sample_count - frame_start > per_frame { frame_start + per_frame } else { sample_count };
    proof {
        assert((frame_idx as nat + 1) * 1600 == frame_idx as nat * 1600 + 1600) by (nonlinear_arith);
    }
    let window_start = if end > FFT_WINDOW_SAMPLES { end - FFT_WINDOW_SAMPLES } else { 0 };
    FrameBounds { frame_start, end, window_start }
}

/// Every sample of the audio belongs to exactly one video frame: the frame
/// `sample / 1600`, which is one of the exported frames, and no other
/// exported frame's range holds it.
pub proof fn lemma_each_sample_in_one_frame(sample_count: nat, sample: nat, frame: nat)
    requires
        sample < sample_count,
    ensures
        sample / spec_stereo_samples_per_frame() < spec_total_frames(sample_count),
        spec_frame_start(sample / spec_stereo_samples_per_frame()) <= sample,
        sample < spec_frame_end(sample / spec_stereo_samples_per_frame(), sample_count),
        (frame < spec_total_frames(sample_count) && spec_frame_start(frame) <= sample
            && sample < spec_frame_end(frame, sample_count))
            ==> frame == sample / spec_stereo_samples_per_frame(),
{
    lemma_ceil_div_1600(sample_count);
    let q = sample / 1600;
    assert(q * 1600 <= sample < q * 1600 + 1600) by (nonlinear_arith)
        requires
            q == sample / 1600,
    ;
    assert(q < (if sample_count % 1600 == 0 { sample_count / 1600 } else { sample_count / 1600 + 1 }))
        by (nonlinear_arith)
        requires
            sample < sample_count,
            q == sample / 1600,
    ;
    assert((q + 1) * 1600 == q * 1600 + 1600) by (nonlinear_arith);
    if frame * 1600 <= sample && sample < (frame + 1) * 1600 {
        assert(frame == q) by (nonlinear_arith)
            requires
                frame * 1600 <= sample,
                sample < (frame + 1) * 1600,
                q == sample / 1600,
        ;
    }
}

/// Every exported frame ends no later than the audio, and the last exported
/// frame ends exactly at the end of the audio: the frames together cover
/// the whole buffer.
pub proof fn lemma_frames_cover_samples(sample_count: nat, frame: nat)
    requires
        frame < spec_total_frames(sample_count),
    ensures
        spec_frame_start(frame) <= spec_frame_end(frame, sample_count) <= sample_count,
        frame + 1 == spec_total_frames(sample_count) ==> spec_frame_end(frame, sample_count) == sample_count,
{
    lemma_frame_start_within(frame, sample_count);
    lemma_ceil_div_1600(sample_count);
    assert((frame + 1) * 1600 == frame * 1600 + 1600) by (nonlinear_arith);
    if frame + 1 == spec_total_frames(sample_count) {
        assert(sample_count <= (frame + 1) * 1600) by (nonlinear_arith)
            requires
                frame + 1 == (if sample_count % 1600 == 0 { sample_count / 1600 } else { sample_count / 1600 + 1 })
                    || (sample_count == 0 && frame == 0),
        ;
    }
}

/// The analysis window of frame `frame`: the `FFT_WINDOW_SAMPLES` samples
/// that end where the frame ends, right-aligned, with `zero` before them
/// where the audio starts later than the window.
pub open spec fn spec_frame_window<T>(samples: Seq<T>, frame: nat, zero: T) -> Seq<T> {
    let end = spec_frame_end(frame, samples.len());
    let start = spec_window_start(frame, samples.len());
    let pad = FFT_WINDOW_SAMPLES - (end - start);
    Seq::new(
        FFT_WINDOW_SAMPLES as nat,
        |k: int| if k < pad { zero } else { samples[start + k - pad] },
    )
}

/// Builds the analysis window of video frame `frame_idx` from the
/// interleaved samples, padding with `zero` in front.
pub fn frame_window<T: Copy>(samples: &[T], frame_idx: usize, zero: T) -> (window: Vec<T>)
    requires
        frame_idx < spec_total_frames(samples@.len()),
    ensures
        window@ == spec_frame_window(samples@, frame_idx as nat, zero),
        window@.len() == FFT_WINDOW_SAMPLES,
{
    let bounds = frame_bounds(frame_idx, samples.len());
    let available = bounds.end - bounds.window_start;
    let pad = FFT_WINDOW_SAMPLES - available;
    let ghost target = spec_frame_window(samples@, frame_idx as nat, zero);
    let mut window: Vec<T> = Vec::new();
    let mut k: usize = 0;
    while k < FFT_WINDOW_SAMPLES
        invariant
            k <= FFT_WINDOW_SAMPLES,
            window@.len() == k,
            pad + available == FFT_WINDOW_SAMPLES,
            bounds.window_start + available == bounds.end,
            bounds.end <= samples@.len(),
            bounds.end == spec_frame_end(frame_idx as nat, samples@.len()),
            bounds.window_start == spec_window_start(frame_idx as nat, samples@.len()),
            target == spec_frame_window(samples@, frame_idx as nat, zero),
            forall|j: int| 0 <= j < k ==> window@[j] == target[j],
        decreases FFT_WINDOW_SAMPLES - k,
    {
        if k < pad {
            window.push(zero);
        } else {
            window.push(samples[bounds.window_start + (k - pad)]);
        }
        k = k + 1;
    }
    assert(window@ =~= target);
    window
}

/// Name of the intermediate WAV file of an export started by process
/// `process_id` at `millis` milliseconds after the Unix epoch:
/// "yue_export_{process_id}_{millis}.wav".
pub open spec fn spec_temp_wav_name(process_id: nat, millis: nat) -> Seq<char> {
    "yue_export_"@ + decimal(process_id) + "_"@ + decimal(millis) + ".wav"@
}

/// The file name of the intermediate WAV file, unique per process and
/// start time.
pub fn temp_wav_file_name(process_id: u32, millis: u128) -> (s: String)
    ensures
        s@ == spec_temp_wav_name(process_id as nat, millis as nat),
{
    let mut s = String::from_str("yue_export_");
    s.append(decimal_text(process_id as u128).as_str());
    s.append("_");
    s.append(decimal_text(millis).as_str());
    s.append(".wav");
    s
}

/// The image read back from the render target was smaller than the render
/// target itself.
#[derive(Clone, Copy, Debug, PartialEq, Eq)]
pub struct ReadbackTooSmall {
    /// Width of the image that was read back.
    pub width: i32,
    /// Height of the image that was read back.
    pub height: i32,
}

/// The text of the readback error: "Render target readback was smaller than
/// expected: {width}x{height}".
pub open spec fn readback_message(width: int, height: int) -> Seq<char> {
    "Render target readback was smaller than expected: "@ + signed_decimal(width) + "x"@
        + signed_decimal(height)
}

impl ReadbackTooSmall {
    /// The message reported for this error.
    pub fn message(&self) -> (s: String)
        ensures
            s@ == readback_message(self.width as int, self.height as int),
    {
        let mut s = String::from_str("Render target readback was smaller than expected: ");
        s.append(signed_text(self.width as i64).as_str());
        s.append("x");
        s.append(signed_text(self.height as i64).as_str());
        s
    }
}

/// Checks the size of the image read back from the render target: an image
/// smaller than the render target in either direction is an error;
/// otherwise the answer says whether it must be cropped to the render
/// target's size.
pub fn check_readback(width: i32, height: i32) -> (r: Result<bool, ReadbackTooSmall>)
    ensures
        r is Err <==> (width < RENDER_WIDTH || height < RENDER_HEIGHT),
        r matches Err(e) ==> e == (ReadbackTooSmall { width, height }),
        r matches Ok(crop) ==> crop == (width != RENDER_WIDTH || height != RENDER_HEIGHT),
{
    if width < RENDER_WIDTH || height < RENDER_HEIGHT {
        Err(ReadbackTooSmall { width, height })
    } else {
        Ok(width != RENDER_WIDTH || height != RENDER_HEIGHT)
    }
}

} // verus!
