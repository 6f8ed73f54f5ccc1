//! A stopwatch in milliseconds.

use vstd::prelude::*;
use std::time::{Duration, Instant};

verus! {

#[verifier::external_type_specification]
#[verifier::external_body]
pub struct ExInstant(std::time::Instant);

/// `Instant::now`: the present moment. Nothing is claimed of it.
#[verifier::external_body]
fn now() -> Instant {
    Instant::now()
}

/// `Instant::elapsed`: the time gone by since `instant`. Nothing is claimed of it.
#[verifier::external_body]
fn since(instant: &Instant) -> Duration {
    instant.elapsed()
}

/// `Duration::as_millis`: the whole milliseconds in `duration`. Nothing is
/// claimed of their number.
#[verifier::external_body]
fn whole_millis(duration: &Duration) -> u128 {
    duration.as_millis()
}

/// The milliseconds to wait before the next frame so that `target_fps` frames
/// fill a second, when `dt` milliseconds of the frame are gone; `None` where
/// the frame has used up its time, or all of it but `threshold`.
pub open spec fn frame_wait_spec(target_fps: u64, dt: u64, threshold: u64) -> Option<u64> {
    let per_frame = 1000int / (target_fps as int);
    if dt < per_frame && per_frame - dt > threshold {
        Some((per_frame - dt - 1) as u64)
    } else {
        None
    }
}

/// How long to wait before the next frame: one millisecond less than what is
/// left of the frame, since waiting is never exact.
pub fn frame_wait(target_fps: u64, dt: u64, threshold: u64) -> (wait: Option<u64>)
    requires
        target_fps > 0,
    ensures
        wait == frame_wait_spec(target_fps, dt, threshold),
{
    let ms_per_frame: u64 = 1000 / target_fps;
    if dt < ms_per_frame && ms_per_frame - dt > threshold {
        Some(ms_per_frame - dt - 1)
    } else {
        None
    }
}

/// What a timer has counted.
pub struct TimerState {
    /// The clock's reading when it was last looked at, in milliseconds since
    /// the timer was made.
    pub last_reading: u64,
    /// The time that went by while the timer was not paused.
    pub elapsed: u64,
    /// Whether the timer is paused.
    pub paused: bool,
}

impl TimerState {
    /// Whether the timer can take in the reading `reading`: the clock did not
    /// run backwards, and the time counted still fits.
    pub open spec fn admits(self, reading: u64) -> bool {
        &&& reading >= self.last_reading
        &&& !self.paused ==> self.elapsed + (reading - self.last_reading) <= u64::MAX
    }

    /// The timer after the clock was read as `reading`.
    pub open spec fn after_reading(self, reading: u64) -> TimerState {
        TimerState {
            last_reading: reading,
            elapsed: if self.paused {
                self.elapsed
            } else {
                (self.elapsed + (reading - self.last_reading)) as u64
            },
            paused: self.paused,
        }
    }

    /// How long to wait before the next frame when the clock reads
    /// `reading`: see [`frame_wait_spec`]. There is no waiting where the
    /// clock ran backwards.
    pub open spec fn wait_at(self, reading: u64, target_fps: u64, threshold: u64) -> Option<u64> {
        if reading >= self.last_reading {
            frame_wait_spec(target_fps, (reading - self.last_reading) as u64, threshold)
        } else {
            None
        }
    }

    /// The timer after a tick on which the clock was read as `reading`, and
    /// the time that the tick reports: the reading is taken in where the timer
    /// admits it and is passed over where it does not.
    pub open spec fn after_tick(self, reading: u64) -> (TimerState, u64) {
        if self.admits(reading) {
            (self.after_reading(reading), (reading - self.last_reading) as u64)
        } else {
            (self, 0)
        }
    }
}

/// A timer in milliseconds, paused when it is made.
pub struct Timer {
    /// When the timer was made.
    instant: Instant,
    /// The clock's reading when it was last looked at.
    previous_time: u64,
    /// The time that went by while the timer was not paused.
    pub elapsed: u64,
    /// Whether the timer is paused.
    pub paused: bool,
}

impl Timer {
    /// What the timer has counted.
    pub closed spec fn view(&self) -> TimerState {
        TimerState { last_reading: self.previous_time, elapsed: self.elapsed, paused: self.paused }
    }

    /// Creates a timer. It is paused and has counted nothing.
    pub fn new() -> (timer: Self)
        ensures
            timer@ == (TimerState { last_reading: 0, elapsed: 0, paused: true }),
    {
        Timer { instant: now(), previous_time: 0, elapsed: 0, paused: true }
    }

    /// The clock's reading: the milliseconds since the timer was made, as far
    /// as they fit into 64 bits.
    fn read_clock(&self) -> u64 {
        let gone = since(&self.instant);
        let millis: u128 = whole_millis(&gone);
        #[verifier::truncate]
        let reading = millis as u64;
        reading
    }

    /// Begins to keep track of time, from now on.
    pub fn start(&mut self)
        ensures
            !final(self)@.paused,
            final(self)@.elapsed == old(self)@.elapsed,
    {
        self.previous_time = self.read_clock();
        self.paused = false;
    }

    /// Pauses the timer. A paused timer stays paused.
    pub fn pause(&mut self)
        ensures
            final(self)@ == (TimerState { paused: true, ..old(self)@ }),
    {
        self.paused = true;
    }

    /// Lets the timer run again. A running timer keeps running.
    pub fn resume(&mut self)
        ensures
            final(self)@ == (TimerState { paused: false, ..old(self)@ }),
    {
        self.paused = false;
    }

    /// Takes in a reading of the clock: counts the time since the last one,
    /// unless the timer is paused, and returns that time.
    pub fn record(&mut self, reading: u64) -> (delta_time: u64)
        requires
            old(self)@.admits(reading),
        ensures
            delta_time == reading - old(self)@.last_reading,
            final(self)@ == old(self)@.after_reading(reading),
    {
        let delta_time: u64 = reading - self.previous_time;
        self.previous_time = reading;
        if !self.paused {
            self.elapsed = self.elapsed + delta_time;
        }
        delta_time
    }

    /// Reads the clock and counts the time since it was last read. Returns that
    /// time. Where the reading cannot be taken in, the timer stays as it was
    /// and the time returned is 0.
    pub fn tick(&mut self) -> (delta_time: u64)
        ensures
            exists|reading: u64| (final(self)@, delta_time) == #[trigger] old(self)@.after_tick(reading),
    {
        let reading = self.read_clock();
        let fits = reading >= self.previous_time && (self.paused || reading - self.previous_time
            <= u64::MAX - self.elapsed);
        let delta_time = if fits {
            self.record(reading)
        } else {
            0
        };
        assert((self@, delta_time) == old(self)@.after_tick(reading));
        delta_time
    }

    /// Sets the time counted back to 0.
    pub fn reset_elapsed(&mut self)
        ensures
            final(self)@ == (TimerState { elapsed: 0, ..old(self)@ }),
    {
        self.elapsed = 0;
    }

    /// How long to wait before the next frame, by the clock's reading now: see
    /// [`frame_wait`]. `None` too where the clock ran backwards.
    pub fn frame_wait(&self, target_fps: u64, threshold: u64) -> (wait: Option<u64>)
        requires
            target_fps > 0,
        ensures
            exists|reading: u64| wait == #[trigger] self@.wait_at(reading, target_fps, threshold),
    {
        let reading = self.read_clock();
        let wait = if reading >= self.previous_time {
            frame_wait(target_fps, reading - self.previous_time, threshold)
        } else {
            None
        };
        assert(wait == self@.wait_at(reading, target_fps, threshold));
        wait
    }
}

} // verus!
