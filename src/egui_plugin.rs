//! The per-frame state of the GUI integration and the decisions taken at each
//! stage of a frame: filling the input snapshot once the window is known,
//! stamping it at the start of a frame, and recording the frame's duration
//! at its end. Times are nanoseconds since the integration started.
use crate::backend::EguiBevyBackend;
use crate::frame_times::{retained, NANOS_PER_SECOND};
use chrono::Timelike;
use egui::app::RunMode;
use vstd::prelude::*;

verus! {

/// Seconds in a day, leap seconds aside.
pub const SECONDS_PER_DAY: u64 = 86_400;

/// The per-frame input handed to the GUI library.
#[derive(Clone, Copy, Debug, PartialEq, Eq)]
pub struct RawInputSnapshot {
    /// Screen size in pixels.
    pub screen_width: u32,
    pub screen_height: u32,
    /// Time of the frame.
    pub time: u64,
    /// Local wall-clock time of day in nanoseconds since midnight, if known.
    pub nanos_since_midnight: Option<u64>,
}

/// An input snapshot for a window of the given size, at time zero and with
/// no time of day.
pub fn make_raw_input(width: u32, height: u32) -> (r: RawInputSnapshot)
    ensures
        r == (RawInputSnapshot {
            screen_width: width,
            screen_height: height,
            time: 0,
            nanos_since_midnight: None,
        }),
{
    RawInputSnapshot { screen_width: width, screen_height: height, time: 0, nanos_since_midnight: None }
}

/// Nanoseconds since midnight for whole seconds `secs` and nanoseconds
/// `nanos` into the current second.
pub open spec fn time_of_day_of(secs: u32, nanos: u32) -> int {
    secs * (NANOS_PER_SECOND as int) + nanos
}

/// Nanoseconds since midnight for whole seconds `secs` and nanoseconds
/// `nanos` into the current second.
pub fn time_of_day_nanos(secs: u32, nanos: u32) -> (r: u64)
    ensures
        r == time_of_day_of(secs, nanos),
{
    assert(secs * (NANOS_PER_SECOND as int) <= u32::MAX * (NANOS_PER_SECOND as int))
        by (nonlinear_arith)
        requires secs <= u32::MAX;
    secs as u64 * NANOS_PER_SECOND + nanos as u64
}

/// Relies on chrono::Local::now, and on the Timelike accessors of the
/// NaiveTime it gives: the local time of day as whole non-leap seconds since
/// midnight, below 86 400, and the nanosecond within the second, below
/// 2 000 000 000 (the upper half marks a leap second).
#[verifier::external_body]
fn local_clock() -> (r: (u32, u32))
    ensures
        r.0 < SECONDS_PER_DAY,
        r.1 < 2 * NANOS_PER_SECOND,
{
    let time = chrono::Local::now().time();
    (time.num_seconds_from_midnight(), time.nanosecond())
}

/// The local wall-clock time of day, in nanoseconds since midnight.
pub fn local_time_of_day() -> (r: u64)
    ensures
        r < (SECONDS_PER_DAY + 2) * NANOS_PER_SECOND,
{
    let (secs, nanos) = local_clock();
    time_of_day_nanos(secs, nanos)
}

/// The state the integration keeps across frames: when the current frame
/// started, the input snapshot once the window is known, and the backend.
pub struct EguiPluginState {
    pub frame_start: u64,
    pub raw_input: Option<RawInputSnapshot>,
    pub runner: EguiBevyBackend,
}

impl EguiPluginState {
    /// State at start-up: no frame begun, no input yet.
    pub fn new(run_mode: RunMode) -> (r: Self)
        ensures
            r.frame_start == 0,
            r.raw_input is None,
            r.runner.spec_run_mode() == run_mode,
            !r.runner.spec_quit(),
            r.runner.spec_frame_times()@.len() == 0,
    {
        EguiPluginState { frame_start: 0, raw_input: None, runner: EguiBevyBackend::new(run_mode) }
    }

    /// Whether the input snapshot still waits for the window's size.
    pub fn needs_window(&self) -> (r: bool)
        ensures
            r == self.raw_input is None,
    {
        self.raw_input.is_none()
    }

    /// Fills the input snapshot from the window's size, unless it is already
    /// there.
    pub fn check_windows(&mut self, width: u32, height: u32)
        ensures
            old(self).raw_input is None ==> final(self).raw_input == Some(
                RawInputSnapshot {
                    screen_width: width,
                    screen_height: height,
                    time: 0,
                    nanos_since_midnight: None,
                },
            ),
            old(self).raw_input is Some ==> final(self).raw_input == old(self).raw_input,
            final(self).frame_start == old(self).frame_start,
            final(self).runner == old(self).runner,
    {
        if self.raw_input.is_none() {
            self.raw_input = Some(make_raw_input(width, height));
        }
    }

    /// Starts a frame at `now`, with the local time of day `time_of_day`:
    /// stamps the input snapshot, if there is one, and returns it for the
    /// GUI library.
    pub fn begin_frame(&mut self, now: u64, time_of_day: u64) -> (r: Option<RawInputSnapshot>)
        ensures
            final(self).frame_start == now,
            final(self).runner == old(self).runner,
            old(self).raw_input is None ==> r is None && final(self).raw_input is None,
            old(self).raw_input matches Some(inp) ==> r == Some(
                RawInputSnapshot { time: now, nanos_since_midnight: Some(time_of_day), ..inp },
            ),
            final(self).raw_input == r,
    {
        self.frame_start = now;
        match self.raw_input {
            Some(inp) => {
                let stamped = RawInputSnapshot {
                    time: now,
                    nanos_since_midnight: Some(time_of_day),
                    ..inp
                };
                self.raw_input = Some(stamped);
                Some(stamped)
            },
            None => None,
        }
    }

    /// Ends a frame at `now`: where there is an input snapshot, records the
    /// time since the frame started (zero if `now` is earlier) at the
    /// snapshot's time.
    pub fn end_frame(&mut self, now: u64)
        ensures
            final(self).frame_start == old(self).frame_start,
            final(self).raw_input == old(self).raw_input,
            final(self).runner.spec_run_mode() == old(self).runner.spec_run_mode(),
            final(self).runner.spec_quit() == old(self).runner.spec_quit(),
            final(self).runner.spec_frame_times().max_len() == old(self).runner.spec_frame_times().max_len(),
            final(self).runner.spec_frame_times().max_age() == old(self).runner.spec_frame_times().max_age(),
            old(self).raw_input is None ==> final(self).runner == old(self).runner,
            old(self).raw_input matches Some(inp) ==> final(self).runner.spec_frame_times()@ == retained(
                old(self).runner.spec_frame_times()@.push(
                    (inp.time, if now >= old(self).frame_start { (now - old(self).frame_start) as u64 } else { 0 }),
                ),
                old(self).runner.spec_frame_times().max_len(),
                old(self).runner.spec_frame_times().max_age(),
                inp.time as int,
            ),
    {
        let frame_time = now.saturating_sub(self.frame_start);
        if let Some(inp) = self.raw_input {
            self.runner.add_frame(inp.time, frame_time);
        }
    }
}

} // verus!
