use yue::export::{
    check_readback, frame_bounds, frame_window, samples_per_frame, stereo_samples_per_frame,
    temp_wav_file_name, total_frames_for_sample_count, ReadbackTooSmall, EXPORT_HEIGHT,
    EXPORT_WIDTH, FFT_WINDOW_SAMPLES, RENDER_HEIGHT, RENDER_WIDTH,
};
use yue::ffmpeg::{build_audio_filter, export_scale_filter};

#[test]
fn test_total_frames_for_empty_and_partial_audio() {
    assert_eq!(total_frames_for_sample_count(0), 1);
    assert_eq!(total_frames_for_sample_count(stereo_samples_per_frame()), 1);
    assert_eq!(
        total_frames_for_sample_count(stereo_samples_per_frame() + 1),
        2
    );
}

#[test]
fn test_build_audio_filter() {
    assert_eq!(build_audio_filter(), "adelay=300|300,apad=pad_dur=0.7");
}

#[test]
fn test_export_scale_filter() {
    assert_eq!(export_scale_filter(), "scale=1920:1080:flags=lanczos");
}

#[test]
fn frame_size_is_sample_rate_over_fps_rounded_up() {
    assert_eq!(samples_per_frame(), 800);
    assert_eq!(stereo_samples_per_frame(), 1600);
}

#[test]
fn render_target_is_twice_the_export_size() {
    assert_eq!(RENDER_WIDTH, 2 * EXPORT_WIDTH);
    assert_eq!(RENDER_HEIGHT, 2 * EXPORT_HEIGHT);
    assert_eq!((RENDER_WIDTH, RENDER_HEIGHT), (3840, 2160));
}

#[test]
fn total_frames_rounds_up() {
    assert_eq!(total_frames_for_sample_count(3200), 2);
    assert_eq!(total_frames_for_sample_count(3201), 3);
    assert_eq!(total_frames_for_sample_count(1), 1);
    assert_eq!(total_frames_for_sample_count(48_000 * 2 * 10), 600);
}

#[test]
fn frame_bounds_of_first_middle_and_last_frame() {
    let b = frame_bounds(0, 5000);
    assert_eq!((b.frame_start, b.end, b.window_start), (0, 1600, 0));
    let b = frame_bounds(1, 5000);
    assert_eq!((b.frame_start, b.end, b.window_start), (1600, 3200, 1152));
    let b = frame_bounds(3, 5000);
    assert_eq!((b.frame_start, b.end, b.window_start), (4800, 5000, 2952));
    let b = frame_bounds(0, 0);
    assert_eq!((b.frame_start, b.end, b.window_start), (0, 0, 0));
}

#[test]
fn every_sample_lies_in_exactly_one_frame() {
    for len in [0usize, 1, 1599, 1600, 1601, 4800, 5000] {
        let total = total_frames_for_sample_count(len);
        let mut owners = vec![0u32; len];
        let mut last_end = 0;
        for frame in 0..total {
            let b = frame_bounds(frame, len);
            assert!(b.frame_start <= b.end && b.end <= len);
            for k in b.frame_start..b.end {
                owners[k] += 1;
            }
            last_end = b.end;
        }
        assert_eq!(last_end, len);
        assert!(owners.iter().all(|&n| n == 1));
    }
}

#[test]
fn frame_window_is_right_aligned_and_zero_padded() {
    let samples: Vec<i32> = (1..=3000).collect();
    let w = frame_window(&samples, 0, 0);
    assert_eq!(w.len(), FFT_WINDOW_SAMPLES);
    assert!(w[..448].iter().all(|&x| x == 0));
    assert_eq!(w[448], 1);
    assert_eq!(w[2047], 1600);

    let w = frame_window(&samples, 1, 0);
    assert_eq!(w.len(), FFT_WINDOW_SAMPLES);
    assert_eq!(w[0], 953);
    assert_eq!(w[2047], 3000);

    let empty: Vec<i32> = Vec::new();
    let w = frame_window(&empty, 0, -7);
    assert_eq!(w, vec![-7; FFT_WINDOW_SAMPLES]);
}

#[test]
fn readback_smaller_than_target_is_refused() {
    assert_eq!(check_readback(3840, 2160), Ok(false));
    assert_eq!(check_readback(4096, 2160), Ok(true));
    assert_eq!(check_readback(3840, 2200), Ok(true));
    let err = check_readback(3839, 2160).unwrap_err();
    assert_eq!(err, ReadbackTooSmall { width: 3839, height: 2160 });
    assert_eq!(
        err.message(),
        "Render target readback was smaller than expected: 3839x2160"
    );
    let err = check_readback(4000, -1).unwrap_err();
    assert_eq!(
        err.message(),
        "Render target readback was smaller than expected: 4000x-1"
    );
}

#[test]
fn temp_wav_name_holds_process_and_time() {
    assert_eq!(temp_wav_file_name(4321, 1_700_000_000_123), "yue_export_4321_1700000000123.wav");
    assert_eq!(temp_wav_file_name(0, 0), "yue_export_0_0.wav");
}
