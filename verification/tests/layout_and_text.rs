use yue::fft::{mono_layout, MonoLayout, FFT_SIZE};
use yue::player::{next_theme, track_time_label};
use yue::text::{decimal_text, seconds_text, signed_text, two_digit_text};
use yue::visuals::{bin_range, seam_pair, spectrum_bins, NUM_POINTS};

#[test]
fn decimal_rendering_matches_display() {
    for n in [0u128, 7, 10, 99, 100, 48_000, u64::MAX as u128, u128::MAX] {
        assert_eq!(decimal_text(n), n.to_string());
    }
    for i in [0i64, -1, 42, -300, i64::MIN, i64::MAX] {
        assert_eq!(signed_text(i), i.to_string());
    }
    for n in [0u64, 5, 9, 10, 59, 123] {
        assert_eq!(two_digit_text(n), format!("{:02}", n));
    }
}

#[test]
fn seconds_are_written_without_trailing_zeros() {
    assert_eq!(seconds_text(700), "0.7");
    assert_eq!(seconds_text(300), "0.3");
    assert_eq!(seconds_text(1500), "1.5");
    assert_eq!(seconds_text(2000), "2");
    assert_eq!(seconds_text(50), "0.05");
    assert_eq!(seconds_text(1234), "1.234");
    assert_eq!(seconds_text(0), "0");
}

#[test]
fn mono_layout_takes_whole_frames_up_to_fft_size() {
    assert_eq!(
        mono_layout(2048, 2, FFT_SIZE),
        MonoLayout { channels: 2, sample_count: 1024, normalizer: 1024 }
    );
    assert_eq!(
        mono_layout(4096, 2, FFT_SIZE),
        MonoLayout { channels: 2, sample_count: 1024, normalizer: 1024 }
    );
    assert_eq!(
        mono_layout(7, 2, FFT_SIZE),
        MonoLayout { channels: 2, sample_count: 3, normalizer: 3 }
    );
    assert_eq!(
        mono_layout(5, 0, FFT_SIZE),
        MonoLayout { channels: 1, sample_count: 5, normalizer: 5 }
    );
    assert_eq!(
        mono_layout(1, 2, FFT_SIZE),
        MonoLayout { channels: 2, sample_count: 0, normalizer: 1 }
    );
}

#[test]
fn spectrum_bin_ranges_are_never_empty() {
    assert_eq!(bin_range(0, 1, 512), (0, 1));
    assert_eq!(bin_range(3, 9, 512), (3, 9));
    assert_eq!(bin_range(5, 3, 512), (5, 6));
    assert_eq!(bin_range(600, 700, 512), (511, 512));
    assert_eq!(bin_range(0, 0, 1), (0, 1));
    assert_eq!(spectrum_bins(512), 300);
    assert_eq!(spectrum_bins(100), 100);
    assert_eq!(seam_pair(0), (0, NUM_POINTS - 1));
    assert_eq!(seam_pair(14), (14, 105));
}

#[test]
fn track_length_label_and_theme_cycle() {
    assert_eq!(track_time_label(185), "3:05");
    assert_eq!(track_time_label(0), "0:00");
    assert_eq!(track_time_label(3600), "60:00");
    assert_eq!(track_time_label(59), "0:59");
    let mut idx = 0;
    for _ in 0..6 {
        idx = next_theme(idx, 6);
    }
    assert_eq!(idx, 0);
    assert_eq!(next_theme(2, 6), 3);
    assert_eq!(next_theme(5, 6), 0);
}
