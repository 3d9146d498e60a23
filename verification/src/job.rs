//! The decisions of the export job, one tick at a time: whether frames are
//! still to be rendered, when the encoder's input is closed, and what the
//! encoder's exit means. The job's resources (render target, encoder
//! process) are driven by the caller, which reports back what happened.

use vstd::prelude::*;

use crate::export::{spec_total_frames, total_frames_for_sample_count, MAX_FRAMES_PER_TICK};
use crate::text::{decimal, decimal_text};

verus! {

/// The abstract state of an export job.
pub struct ExportProgress {
    /// Number of video frames the export produces.
    pub total_frames: nat,
    /// Index of the next frame to render (equivalently, frames rendered so far).
    pub next_frame: nat,
    /// All frames are rendered and the encoder's input has been closed.
    pub finalizing: bool,
    /// The encoder exited successfully.
    pub completed: bool,
}

impl ExportProgress {
    /// The states an export job can be in: at least one frame, never more
    /// rendered than there are, finalizing only once every frame is
    /// rendered, completed only after finalizing.
    pub open spec fn wf(self) -> bool {
        &&& self.total_frames >= 1
        &&& self.next_frame <= self.total_frames
        &&& self.finalizing ==> self.next_frame == self.total_frames
        &&& self.completed ==> self.finalizing
    }

    /// Numerator of the progress shown to the user.
    pub open spec fn progress_numerator(self) -> nat {
        if self.finalizing { 1 } else { self.next_frame }
    }

    /// Denominator of the progress shown to the user.
    pub open spec fn progress_denominator(self) -> nat {
        if self.finalizing { 1 } else if self.total_frames == 0 { 1 } else { self.total_frames }
    }

    /// The progress of `self` is at most that of `other`.
    pub open spec fn progress_le(self, other: Self) -> bool {
        self.progress_numerator() * other.progress_denominator()
            <= other.progress_numerator() * self.progress_denominator()
    }

    /// The status line shown while the job runs.
    pub open spec fn status_text(self) -> Seq<char> {
        if self.finalizing {
            "Finalizing MP4..."@
        } else {
            let shown = if self.next_frame < self.total_frames { self.next_frame } else { self.total_frames };
            "Rendering frame "@ + decimal(shown) + " / "@ + decimal(self.total_frames)
        }
    }

    /// One frame was rendered and written to the encoder.
    pub open spec fn frame_step(self, next: Self) -> bool {
        &&& !self.finalizing
        &&& self.next_frame < self.total_frames
        &&& next == Self { next_frame: self.next_frame + 1, ..self }
    }

    /// The last frame was rendered: the encoder's input is closed.
    pub open spec fn finalize_step(self, next: Self) -> bool {
        &&& !self.finalizing
        &&& self.next_frame == self.total_frames
        &&& next == Self { finalizing: true, ..self }
    }

    /// The encoder exited successfully.
    pub open spec fn complete_step(self, next: Self) -> bool {
        &&& self.finalizing
        &&& !self.completed
        &&& next == Self { completed: true, ..self }
    }

    /// The state changes an export job can make in one operation.
    pub open spec fn step(self, next: Self) -> bool {
        ||| next == self
        ||| self.frame_step(next)
        ||| self.finalize_step(next)
        ||| self.complete_step(next)
    }
}

/// What a tick of the export job has to do.
#[derive(Clone, Copy, Debug, PartialEq, Eq)]
pub enum TickPlan {
    /// The export already completed: report the finished file.
    Finished,
    /// Frames remain: render some of them.
    Render,
    /// Every frame is rendered: close the encoder's input if `close_input`,
    /// then poll the encoder.
    AwaitEncoder { close_input: bool },
}

/// What the encoder's exit (or its absence) means for the job.
#[derive(Clone, Copy, Debug, PartialEq, Eq)]
pub enum EncoderPoll {
    /// The encoder exited successfully: the export is complete.
    Finished,
    /// The encoder exited with a failure.
    Failed,
    /// The encoder is still running.
    Running,
}

/// The state of an export job.
pub struct ExportState {
    total_frames: usize,
    next_frame: usize,
    finalizing: bool,
    completed: bool,
}

impl View for ExportState {
    type V = ExportProgress;

    closed spec fn view(&self) -> ExportProgress {
        ExportProgress {
            total_frames: self.total_frames as nat,
            next_frame: self.next_frame as nat,
            finalizing: self.finalizing,
            completed: self.completed,
        }
    }
}

impl ExportState {
    /// Every `ExportState` is in a valid state (see `ExportProgress::wf`).
    #[verifier::type_invariant]
    spec fn inv(self) -> bool {
        self@.wf()
    }

    /// A new job for an audio buffer of `sample_count` interleaved samples:
    /// no frame rendered yet.
    pub fn new(sample_count: usize) -> (s: Self)
        ensures
            s@ == (ExportProgress {
                total_frames: spec_total_frames(sample_count as nat),
                next_frame: 0,
                finalizing: false,
                completed: false,
            }),
            s@.wf(),
    {
        ExportState {
            total_frames: total_frames_for_sample_count(sample_count),
            next_frame: 0,
            finalizing: false,
            completed: false,
        }
    }

    /// Number of video frames the job produces.
    pub fn total_frames(&self) -> (n: usize)
        ensures
            n == self@.total_frames,
            self@.wf(),
    {
        proof { use_type_invariant(self); }
        self.total_frames
    }

    /// Index of the next frame to render.
    pub fn next_frame(&self) -> (n: usize)
        ensures
            n == self@.next_frame,
            self@.wf(),
    {
        proof { use_type_invariant(self); }
        self.next_frame
    }

    /// Whether all frames are rendered and the encoder is being waited for.
    pub fn is_finalizing(&self) -> (b: bool)
        ensures
            b == self@.finalizing,
            self@.wf(),
    {
        proof { use_type_invariant(self); }
        self.finalizing
    }

    /// Whether the encoder finished successfully.
    pub fn is_completed(&self) -> (b: bool)
        ensures
            b == self@.completed,
            self@.wf(),
    {
        proof { use_type_invariant(self); }
        self.completed
    }

    /// The progress of the job as a fraction `(numerator, denominator)`:
    /// 1 while finalizing, otherwise frames rendered over total frames.
    pub fn progress_fraction(&self) -> (r: (usize, usize))
        ensures
            self@.wf(),
            r.0 == self@.progress_numerator(),
            r.1 == self@.progress_denominator(),
            1 <= r.1,
            r.0 <= r.1,
    {
        proof { use_type_invariant(self); }
        if self.finalizing {
            (1, 1)
        } else {
            let denominator = if self.total_frames == 0 { 1 } else { self.total_frames };
            (self.next_frame, denominator)
        }
    }

    /// The status line shown while the job runs.
    pub fn status_text(&self) -> (s: String)
        ensures
            self@.wf(),
            s@ == self@.status_text(),
    {
        proof { use_type_invariant(self); }
        if self.finalizing {
            String::from_str("Finalizing MP4...")
        } else {
            let shown = if self.next_frame < self.total_frames { self.next_frame } else { self.total_frames };
            let mut s = String::from_str("Rendering frame ");
            s.append(decimal_text(shown as u128).as_str());
            s.append(" / ");
            s.append(decimal_text(self.total_frames as u128).as_str());
            s
        }
    }

    /// Starts a tick: decides whether the job is finished, must render
    /// frames, or must wait for the encoder. When every frame is rendered
    /// for the first time, the job starts finalizing and asks the caller to
    /// close the encoder's input.
    pub fn start_tick(&mut self) -> (plan: TickPlan)
        ensures
            old(self)@.wf(),
            final(self)@.wf(),
            old(self)@.step(final(self)@),
            old(self)@.progress_le(final(self)@),
            old(self)@.completed ==> plan == TickPlan::Finished && final(self)@ == old(self)@,
            !old(self)@.completed && old(self)@.next_frame < old(self)@.total_frames ==> plan
                == TickPlan::Render && final(self)@ == old(self)@,
            !old(self)@.completed && old(self)@.next_frame == old(self)@.total_frames ==> plan
                == (TickPlan::AwaitEncoder { close_input: !old(self)@.finalizing })
                && final(self)@ == (ExportProgress { finalizing: true, ..old(self)@ }),
    {
        proof { use_type_invariant(&*self); }
        if self.completed {
            return TickPlan::Finished;
        }
        if self.next_frame < self.total_frames {
            return TickPlan::Render;
        }
        let close_input = !self.finalizing;
        self.finalizing = true;
        TickPlan::AwaitEncoder { close_input }
    }

    /// Whether the rendering loop of a tick renders another frame, after
    /// `processed` frames in this tick and with `within_budget` telling
    /// whether the tick's time budget is not yet spent.
    pub fn may_render(&self, processed: usize, within_budget: bool) -> (b: bool)
        ensures
            self@.wf(),
            b == (self@.next_frame < self@.total_frames && processed < MAX_FRAMES_PER_TICK
                && within_budget),
    {
        proof { use_type_invariant(self); }
        self.next_frame < self.total_frames && processed < MAX_FRAMES_PER_TICK && within_budget
    }

    /// Records that the next frame was rendered and written to the encoder.
    pub fn frame_rendered(&mut self)
        requires
            old(self)@.next_frame < old(self)@.total_frames,
        ensures
            old(self)@.wf(),
            final(self)@.wf(),
            old(self)@.frame_step(final(self)@),
            old(self)@.step(final(self)@),
            old(self)@.progress_le(final(self)@),
    {
        proof { use_type_invariant(&*self); }
        self.next_frame = self.next_frame + 1;
        proof {
            let n = old(self)@.next_frame;
            let t = old(self)@.total_frames;
            assert(n * t <= (n + 1) * t) by (nonlinear_arith);
        }
    }

    /// Records what polling the encoder gave: `None` while it runs,
    /// `Some(success)` once it exited.
    pub fn encoder_exited(&mut self, exit: Option<bool>) -> (poll: EncoderPoll)
        requires
            old(self)@.finalizing,
            !old(self)@.completed,
        ensures
            old(self)@.wf(),
            final(self)@.wf(),
            old(self)@.step(final(self)@),
            old(self)@.progress_le(final(self)@),
            exit == Some(true) ==> poll == EncoderPoll::Finished && old(self)@.complete_step(final(self)@),
            exit == Some(false) ==> poll == EncoderPoll::Failed && final(self)@ == old(self)@,
            exit is None ==> poll == EncoderPoll::Running && final(self)@ == old(self)@,
    {
        proof { use_type_invariant(&*self); }
        match exit {
            Some(true) => {
                self.completed = true;
                EncoderPoll::Finished
            },
            Some(false) => EncoderPoll::Failed,
            None => EncoderPoll::Running,
        }
    }
}

/// Every operation of an export job keeps it in a valid state, never
/// lowers its progress, never lets the progress exceed one, and leaves a
/// completed job unchanged.
pub proof fn lemma_step_preserves_job(before: ExportProgress, after: ExportProgress)
    requires
        before.wf(),
        before.step(after),
    ensures
        after.wf(),
        before.progress_le(after),
        after.progress_numerator() <= after.progress_denominator(),
        before.completed ==> after == before,
        after.next_frame >= before.next_frame,
{
    if before.frame_step(after) {
        let n = before.next_frame;
        let t = before.total_frames;
        assert(n * t <= (n + 1) * t) by (nonlinear_arith);
        assert(before.progress_numerator() == n);
        assert(after.progress_numerator() == n + 1);
        assert(after.progress_denominator() == t);
        assert(before.progress_denominator() == t);
        assert(before.progress_le(after));
    } else if before.finalize_step(after) || before.complete_step(after) {
        assert(after.progress_numerator() == 1 && after.progress_denominator() == 1);
        assert(before.progress_numerator() == before.progress_denominator());
        assert(before.progress_le(after));
    } else {
        assert(after == before);
        assert(before.progress_le(after));
    }
}

/// The progress order is transitive among valid states.
pub proof fn lemma_progress_le_transitive(a: ExportProgress, b: ExportProgress, c: ExportProgress)
    requires
        b.wf(),
        a.progress_le(b),
        b.progress_le(c),
    ensures
        a.progress_le(c),
{
    let an = a.progress_numerator();
    let ad = a.progress_denominator();
    let bn = b.progress_numerator();
    let bd = b.progress_denominator();
    let cn = c.progress_numerator();
    let cd = c.progress_denominator();
    assert(bd >= 1);
    assert(an * cd <= cn * ad) by (nonlinear_arith)
        requires
            an * bd <= bn * ad,
            bn * cd <= cn * bd,
            bd >= 1,
    ;
}

/// A run of an export job: a sequence of states, each reached from the one
/// before by one operation of the job.
pub open spec fn is_run(states: Seq<ExportProgress>) -> bool {
    &&& states.len() >= 1
    &&& forall|i: int| 0 <= i < states.len() - 1 ==> #[trigger] states[i].step(states[i + 1])
}

/// The frames rendered during a run, in the order they were rendered: the
/// index of the frame of each frame step.
pub open spec fn frames_emitted(states: Seq<ExportProgress>) -> Seq<nat>
    decreases states.len(),
{
    if states.len() < 2 {
        Seq::empty()
    } else {
        let k = states.len() - 2;
        let earlier = frames_emitted(states.drop_last());
        if states[k].frame_step(states[k + 1]) {
            earlier.push(states[k].next_frame)
        } else {
            earlier
        }
    }
}

/// The frames `0, 1, ..., n - 1`, in order.
pub open spec fn first_frames(n: nat) -> Seq<nat> {
    Seq::new(n, |i: int| i as nat)
}

/// Along a run that starts valid, every state is valid, the progress never
/// decreases from an earlier state to a later one, the number of frames
/// rendered never decreases, the total number of frames never changes, and
/// once the job is completed it stays as it is.
pub proof fn lemma_run_preserves_job(states: Seq<ExportProgress>, i: int, j: int)
    requires
        is_run(states),
        states[0].wf(),
        0 <= i <= j < states.len(),
    ensures
        states[j].wf(),
        states[i].progress_le(states[j]),
        states[i].next_frame <= states[j].next_frame,
        states[i].total_frames == states[j].total_frames,
        states[i].completed ==> states[j] == states[i],
    decreases j,
{
    if j == 0 {
        assert(states[0].progress_le(states[0]));
    } else {
        lemma_run_preserves_job(states, 0, j - 1);
        let p = j - 1;
        assert(states[p].step(states[p + 1]));
        lemma_step_preserves_job(states[j - 1], states[j]);
        if i == j {
            assert(states[j].progress_le(states[j]));
        } else {
            lemma_run_preserves_job(states, i, j - 1);
            lemma_progress_le_transitive(states[i], states[j - 1], states[j]);
        }
    }
}

/// A run that starts from a job with no frame rendered renders exactly the
/// frames `0, 1, ..., n - 1`, once each and in that order, where `n` is the
/// number of frames rendered by its last state.
pub proof fn lemma_run_emits_frames_in_order(states: Seq<ExportProgress>)
    requires
        is_run(states),
        states[0].wf(),
        states[0].next_frame == 0,
        !states[0].finalizing,
    ensures
        frames_emitted(states) == first_frames(states.last().next_frame),
    decreases states.len(),
{
    if states.len() == 1 {
        assert(first_frames(0) =~= Seq::<nat>::empty());
    } else {
        let prefix = states.drop_last();
        let k = states.len() - 2;
        assert(is_run(prefix)) by {
            assert forall|i: int| 0 <= i < prefix.len() - 1 implies #[trigger] prefix[i].step(
                prefix[i + 1],
            ) by {
                assert(states[i].step(states[i + 1]));
            }
        }
        lemma_run_emits_frames_in_order(prefix);
        assert(prefix.last() == states[k]);
        assert(states[k].step(states[k + 1]));
        if states[k].frame_step(states[k + 1]) {
            assert(first_frames(states[k].next_frame).push(states[k].next_frame) =~= first_frames(
                states[k + 1].next_frame,
            ));
        } else {
            assert(states[k + 1].next_frame == states[k].next_frame);
        }
    }
}

/// A whole export: a run from a new job for `sample_count` samples to a
/// completed job renders exactly the frames `0, 1, ..., total - 1`, once
/// each and in order, with `total` the frame count of the audio; and all of
/// them are rendered before the step at which the encoder is found done.
pub proof fn lemma_completed_export_emits_every_frame(
    states: Seq<ExportProgress>,
    sample_count: nat,
    k: int,
)
    requires
        is_run(states),
        states[0] == (ExportProgress {
            total_frames: spec_total_frames(sample_count),
            next_frame: 0,
            finalizing: false,
            completed: false,
        }),
        states.last().completed,
    ensures
        frames_emitted(states) == first_frames(spec_total_frames(sample_count)),
        0 <= k < states.len() - 1 && states[k].complete_step(states[k + 1]) ==> frames_emitted(
            states.take(k + 1),
        ) == first_frames(spec_total_frames(sample_count)),
{
    crate::export::lemma_frame_size();
    assert(spec_total_frames(sample_count) >= 1);
    assert(states[0].wf());
    lemma_run_emits_frames_in_order(states);
    lemma_run_preserves_job(states, 0, states.len() - 1);
    if 0 <= k < states.len() - 1 && states[k].complete_step(states[k + 1]) {
        let prefix = states.take(k + 1);
        assert(is_run(prefix)) by {
            assert forall|i: int| 0 <= i < prefix.len() - 1 implies #[trigger] prefix[i].step(
                prefix[i + 1],
            ) by {
                assert(states[i].step(states[i + 1]));
            }
        }
        assert(prefix[0] == states[0]);
        lemma_run_emits_frames_in_order(prefix);
        lemma_run_preserves_job(states, 0, k);
        assert(prefix.last() == states[k]);
    }
}

} // verus!
