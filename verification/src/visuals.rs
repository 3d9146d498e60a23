//! The integer decisions of the visualizer: which FFT bins each point of
//! the circular spectrum averages over.

use vstd::prelude::*;

verus! {

/// Points on the circular spectrum.
pub const NUM_POINTS: usize = 120;
/// Highest FFT bin (exclusive) the circular spectrum looks at.
pub const MAX_SPECTRUM_BIN: usize = 300;
/// Points on each side of the seam that are blended together.
pub const SEAM_BLEND_WIDTH: usize = 15;

/// The bins a spectrum point averages over, from the bounds computed on the
/// logarithmic scale: the start is kept below the last bin, the end is kept
/// after the start and within the spectrum. The range is never empty.
pub fn bin_range(bin_start: usize, bin_end: usize, spectrum_len: usize) -> (r: (usize, usize))
    requires
        spectrum_len >= 1,
    ensures
        r.0 == if bin_start < spectrum_len - 1 { bin_start as int } else { spectrum_len - 1 },
        r.1 == if bin_end < r.0 + 1 { r.0 + 1 } else if bin_end > spectrum_len {
            spectrum_len as int
        } else {
            bin_end as int
        },
        r.0 < r.1 <= spectrum_len,
{
    let last = spectrum_len - 1;
    let start = if bin_start < last { bin_start } else { last };
    let end = if bin_end < start + 1 {
        start + 1
    } else if bin_end > spectrum_len {
        spectrum_len
    } else {
        bin_end
    };
    (start, end)
}

/// Number of bins the spectrum's points range over: at most
/// `MAX_SPECTRUM_BIN`.
pub fn spectrum_bins(spectrum_len: usize) -> (n: usize)
    ensures
        n == if spectrum_len < MAX_SPECTRUM_BIN { spectrum_len } else { MAX_SPECTRUM_BIN },
{
    if spectrum_len < MAX_SPECTRUM_BIN { spectrum_len } else { MAX_SPECTRUM_BIN }
}

/// The pair of points blended together at distance `i` from the seam: the
/// `i`-th point and the `i`-th from the end. The two are distinct and on
/// opposite halves of the circle.
pub fn seam_pair(i: usize) -> (r: (usize, usize))
    requires
        i < SEAM_BLEND_WIDTH,
    ensures
        r.0 == i,
        r.1 == NUM_POINTS - 1 - i,
        r.0 < NUM_POINTS / 2 <= r.1 < NUM_POINTS,
{
    (i, NUM_POINTS - 1 - i)
}

} // verus!
