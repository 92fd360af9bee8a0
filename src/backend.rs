//! The backend state the GUI library queries each frame: its run mode, a quit
//! request, and the frame-time statistics.
use crate::frame_times::{average_of, fps_milli_of, retained, FrameTimes, Sample, MILLI_FPS_NANOS, NANOS_PER_SECOND};
use egui::app::RunMode;
use vstd::prelude::*;

verus! {

#[verifier::external_type_specification]
#[verifier::external_body]
pub struct ExRunMode(RunMode);

/// How many frames the statistics window keeps.
pub const FRAME_WINDOW_LEN: usize = 1000;

/// How old, in nanoseconds, a frame may be and still count: one second.
pub const FRAME_WINDOW_AGE: u64 = NANOS_PER_SECOND;

/// Backend state: the frame-time window, whether quitting was asked for, and
/// the run mode.
pub struct EguiBevyBackend {
    pub frame_times: FrameTimes,
    quit: bool,
    run_mode: RunMode,
}

/// The mean frame time a window of samples reports: zero when empty.
pub open spec fn cpu_time_of(s: Seq<Sample>) -> int {
    average_of(s)
}

impl EguiBevyBackend {
    /// The run mode last set.
    pub closed spec fn spec_run_mode(&self) -> RunMode {
        self.run_mode
    }

    /// The frame-time window.
    pub closed spec fn spec_frame_times(&self) -> FrameTimes {
        self.frame_times
    }

    /// Whether quitting has been asked for.
    pub closed spec fn spec_quit(&self) -> bool {
        self.quit
    }

    /// A backend in `run_mode`, with an empty window of at most
    /// `FRAME_WINDOW_LEN` frames no older than `FRAME_WINDOW_AGE`.
    pub fn new(run_mode: RunMode) -> (r: Self)
        ensures
            r.spec_run_mode() == run_mode,
            !r.spec_quit(),
            r.spec_frame_times()@ == Seq::<Sample>::empty(),
            r.spec_frame_times().max_len() == FRAME_WINDOW_LEN,
            r.spec_frame_times().max_age() == FRAME_WINDOW_AGE,
            r.spec_frame_times().wf(),
    {
        EguiBevyBackend {
            frame_times: FrameTimes::new(FRAME_WINDOW_LEN, FRAME_WINDOW_AGE),
            quit: false,
            run_mode,
        }
    }

    pub fn run_mode(&self) -> (r: RunMode)
        ensures
            r == self.spec_run_mode(),
    {
        self.run_mode
    }

    pub fn set_run_mode(&mut self, run_mode: RunMode)
        ensures
            final(self).spec_run_mode() == run_mode,
            final(self).spec_quit() == old(self).spec_quit(),
            final(self).spec_frame_times() == old(self).spec_frame_times(),
    {
        self.run_mode = run_mode;
    }

    /// The mean frame time in nanoseconds, rounded down; zero with no
    /// frames recorded.
    pub fn cpu_time_nanos(&self) -> (r: u64)
        ensures
            r == cpu_time_of(self.spec_frame_times()@),
    {
        match self.frame_times.average() {
            Some(t) => t,
            None => 0,
        }
    }

    /// The frame rate in thousandths of a frame per second: the reciprocal
    /// of the mean interval between recorded frames; zero with fewer than
    /// two frames, or a mean interval of zero.
    pub fn fps_milli(&self) -> (r: u64)
        ensures
            r == fps_milli_of(self.spec_frame_times()@),
    {
        match self.frame_times.mean_time_interval() {
            Some(d) => if d > 0 {
                MILLI_FPS_NANOS / d
            } else {
                0
            },
            None => 0,
        }
    }

    /// Records a frame of `duration` nanoseconds at time `now` in the
    /// frame-time window.
    pub fn add_frame(&mut self, now: u64, duration: u64)
        ensures
            final(self).spec_frame_times()@ == retained(
                old(self).spec_frame_times()@.push((now, duration)),
                old(self).spec_frame_times().max_len(),
                old(self).spec_frame_times().max_age(),
                now as int,
            ),
            final(self).spec_frame_times().max_len() == old(self).spec_frame_times().max_len(),
            final(self).spec_frame_times().max_age() == old(self).spec_frame_times().max_age(),
            final(self).spec_frame_times().wf(),
            final(self).spec_run_mode() == old(self).spec_run_mode(),
            final(self).spec_quit() == old(self).spec_quit(),
    {
        self.frame_times.add(now, duration);
    }

    /// Asks the application to quit.
    pub fn quit(&mut self)
        ensures
            final(self).spec_quit(),
            final(self).spec_run_mode() == old(self).spec_run_mode(),
            final(self).spec_frame_times() == old(self).spec_frame_times(),
    {
        self.quit = true;
    }

    /// Whether quitting has been asked for.
    pub fn quit_requested(&self) -> (r: bool)
        ensures
            r == self.spec_quit(),
    {
        self.quit
    }
}

/// With no frames recorded, the reported frame time and frame rate are both
/// zero.
pub proof fn lemma_empty_window_reports_zero(b: EguiBevyBackend)
    requires
        b.spec_frame_times()@.len() == 0,
    ensures
        cpu_time_of(b.spec_frame_times()@) == 0,
        fps_milli_of(b.spec_frame_times()@) == 0,
{
}

} // verus!
