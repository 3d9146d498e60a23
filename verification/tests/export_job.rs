use yue::export::MAX_FRAMES_PER_TICK;
use yue::job::{EncoderPoll, ExportState, TickPlan};

fn progress(s: &ExportState) -> f64 {
    let (n, d) = s.progress_fraction();
    n as f64 / d as f64
}

#[test]
fn new_job_counts_frames_of_the_audio() {
    let s = ExportState::new(3201);
    assert_eq!(s.total_frames(), 3);
    assert_eq!(s.next_frame(), 0);
    assert!(!s.is_finalizing());
    assert!(!s.is_completed());
    assert_eq!(s.progress_fraction(), (0, 3));
    assert_eq!(s.status_text(), "Rendering frame 0 / 3");
}

#[test]
fn full_export_runs_render_finalize_complete() {
    let mut s = ExportState::new(3200);
    let mut last = progress(&s);
    assert_eq!(s.start_tick(), TickPlan::Render);
    let mut processed = 0;
    while s.may_render(processed, true) {
        s.frame_rendered();
        processed += 1;
        assert!(progress(&s) >= last);
        last = progress(&s);
    }
    assert_eq!(processed, 2);
    assert_eq!(s.status_text(), "Rendering frame 2 / 2");
    assert_eq!(s.start_tick(), TickPlan::AwaitEncoder { close_input: true });
    assert!(s.is_finalizing());
    assert_eq!(s.status_text(), "Finalizing MP4...");
    assert_eq!(s.progress_fraction(), (1, 1));
    assert_eq!(s.encoder_exited(None), EncoderPoll::Running);
    assert_eq!(s.start_tick(), TickPlan::AwaitEncoder { close_input: false });
    assert_eq!(s.encoder_exited(Some(true)), EncoderPoll::Finished);
    assert!(s.is_completed());
    for _ in 0..3 {
        assert_eq!(s.start_tick(), TickPlan::Finished);
        assert!(s.is_completed());
        assert_eq!(s.progress_fraction(), (1, 1));
    }
}

#[test]
fn a_tick_renders_at_most_four_frames() {
    let mut s = ExportState::new(1600 * 10);
    assert_eq!(s.start_tick(), TickPlan::Render);
    let mut processed = 0;
    while s.may_render(processed, true) {
        s.frame_rendered();
        processed += 1;
    }
    assert_eq!(processed, MAX_FRAMES_PER_TICK);
    assert_eq!(s.next_frame(), 4);
    assert!(!s.may_render(0, false));
    assert!(s.may_render(0, true));
}

#[test]
fn failed_encoder_is_reported_and_job_not_completed() {
    let mut s = ExportState::new(0);
    assert_eq!(s.total_frames(), 1);
    assert_eq!(s.start_tick(), TickPlan::Render);
    s.frame_rendered();
    assert_eq!(s.start_tick(), TickPlan::AwaitEncoder { close_input: true });
    assert_eq!(s.encoder_exited(Some(false)), EncoderPoll::Failed);
    assert!(!s.is_completed());
    assert!(s.is_finalizing());
}
