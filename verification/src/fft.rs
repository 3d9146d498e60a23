//! The integer layout of the spectrum analysis: how many frames of an
//! interleaved buffer are folded down to mono and fed to the FFT, and what
//! the magnitudes are divided by.

use vstd::prelude::*;

verus! {

/// Size of the FFT used for the spectrum (frames per analysis).
pub const FFT_SIZE: usize = 1024;

/// Number of magnitude bins kept from an FFT of `fft_size` points (up to
/// the Nyquist frequency).
pub open spec fn spec_spectrum_len(fft_size: nat) -> nat {
    fft_size / 2
}

/// How an interleaved buffer is folded down to mono for one analysis.
#[derive(Clone, Copy, Debug, PartialEq, Eq)]
pub struct MonoLayout {
    /// Channels per frame (at least one).
    pub channels: usize,
    /// Frames taken from the buffer; the rest of the FFT input is zero.
    pub sample_count: usize,
    /// What the magnitudes are divided by (the frames taken, at least one).
    pub normalizer: usize,
}

/// The layout of an analysis of `input_len` interleaved samples with
/// `channels` channels by an FFT of `fft_size` points: a channel count of
/// zero counts as one, the whole frames of the buffer are taken up to the
/// FFT size, and the magnitudes are divided by the frames taken (or one).
pub fn mono_layout(input_len: usize, channels: u32, fft_size: usize) -> (l: MonoLayout)
    ensures
        l.channels == if channels == 0 { 1 } else { channels as nat },
        l.sample_count == if fft_size < input_len / l.channels { fft_size as nat } else {
            (input_len / l.channels) as nat
        },
        l.normalizer == if l.sample_count == 0 { 1 } else { l.sample_count as nat },
        l.sample_count <= fft_size,
        l.sample_count * l.channels <= input_len,
{
    let channels: usize = if channels == 0 { 1 } else { channels as usize };
    let frames = input_len / channels;
    let sample_count = if fft_size < frames { fft_size } else { frames };
    let normalizer = if sample_count == 0 { 1 } else { sample_count };
    proof {
        assert((input_len as nat / channels as nat) * channels as nat <= input_len as nat)
            by (nonlinear_arith)
            requires
                channels > 0,
        ;
        assert(sample_count as nat * channels as nat <= (input_len as nat / channels as nat)
            * channels as nat) by (nonlinear_arith)
            requires
                sample_count <= input_len as nat / channels as nat,
        ;
    }
    MonoLayout { channels, sample_count, normalizer }
}

/// Every sample the fold-down reads lies in the buffer: frame `frame` below
/// the frames taken and channel `channel` below the channel count give the
/// index `frame * channels + channel`, which is below the buffer's length.
pub proof fn lemma_mono_index_in_bounds(layout: MonoLayout, input_len: nat, frame: nat, channel: nat)
    requires
        layout.sample_count * layout.channels <= input_len,
        frame < layout.sample_count,
        channel < layout.channels,
    ensures
        frame * layout.channels + channel < input_len,
{
    assert(frame * layout.channels + channel < layout.sample_count * layout.channels)
        by (nonlinear_arith)
        requires
            frame < layout.sample_count,
            channel < layout.channels,
    ;
}

} // verus!
