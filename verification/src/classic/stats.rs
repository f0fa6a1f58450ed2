//! Frame statistics of the first generation, with a frame rate sampled at
//! most twice a second.
//!
//! Points in time and spans are nanoseconds of a monotonic clock, as in
//! `crate::manager::stats`.

use vstd::prelude::*;
use crate::manager::stats::{span, elapsed};

verus! {

/// The shortest span between two frame rate samples: half a second.
pub const FPS_UPDATE_INTERVAL_NANOS: u64 = 500_000_000;

/// Frames counted over a span, from which the frame rate is computed.
#[derive(Clone, Copy, Debug, PartialEq, Eq, Structural)]
pub struct FpsSample {
    pub frames: u64,
    pub elapsed_nanos: u64,
}

#[derive(Clone, Copy, Debug, PartialEq, Eq, Structural)]
pub struct Stats {
    pub frame_start: u64,
    pub ui_end: u64,
    pub frame_end: u64,
    pub frametime: u64,
    pub ui_time: u64,
    pub present_time: u64,
    pub total_frames: u64,
    pub frames_since_last_fps_update: u64,
    pub last_update: Option<u64>,
    pub start_time: u64,
}

/// Statistics started at `now`.
pub open spec fn stats_new(now: u64) -> Stats {
    Stats {
        frame_start: now,
        ui_end: now,
        frame_end: now,
        frametime: 0,
        ui_time: 0,
        present_time: 0,
        total_frames: 0,
        frames_since_last_fps_update: 0,
        last_update: None,
        start_time: now,
    }
}

/// A frame begins at `now`.
pub open spec fn stats_frame_start(s: Stats, now: u64) -> Stats {
    Stats {
        total_frames: (s.total_frames + 1) as u64,
        frames_since_last_fps_update: (s.frames_since_last_fps_update + 1) as u64,
        frame_start: now,
        ..s
    }
}

/// The overlay finished its work at `now`.
pub open spec fn stats_ui_end(s: Stats, now: u64) -> Stats {
    Stats { ui_end: now, ui_time: span(now, s.frame_start), ..s }
}

/// The frame ended at `now`.
pub open spec fn stats_frame_end(s: Stats, now: u64) -> Stats {
    Stats {
        frametime: span(now, s.frame_end),
        frame_end: now,
        present_time: span(now, s.frame_start),
        ..s
    }
}

/// Whether an update at `now` is too early to take a sample.
pub open spec fn update_too_early(s: Stats, now: u64) -> bool {
    s.last_update is Some && span(now, s.last_update->0) < FPS_UPDATE_INTERVAL_NANOS
}

/// The statistics after an update at `now`.
pub open spec fn stats_update(s: Stats, now: u64) -> Stats {
    if update_too_early(s, now) {
        s
    } else {
        Stats { last_update: Some(now), frames_since_last_fps_update: 0, ..s }
    }
}

/// The sample an update at `now` takes.
pub open spec fn update_sample(s: Stats, now: u64) -> Option<FpsSample> {
    match s.last_update {
        Some(last) => if span(now, last) < FPS_UPDATE_INTERVAL_NANOS {
            None
        } else {
            Some(FpsSample { frames: s.frames_since_last_fps_update, elapsed_nanos: span(now, last) })
        },
        None => None,
    }
}

impl Stats {
    /// Statistics started at `now`.
    pub fn new(now: u64) -> (s: Self)
        ensures
            s == stats_new(now),
    {
        Stats {
            frame_start: now,
            ui_end: now,
            frame_end: now,
            frametime: 0,
            ui_time: 0,
            present_time: 0,
            total_frames: 0,
            frames_since_last_fps_update: 0,
            last_update: None,
            start_time: now,
        }
    }

    /// A frame begins at `now`.
    pub fn frame_start(&mut self, now: u64)
        requires
            old(self).total_frames < u64::MAX,
            old(self).frames_since_last_fps_update < u64::MAX,
        ensures
            *final(self) == stats_frame_start(*old(self), now),
    {
        self.total_frames = self.total_frames + 1;
        self.frames_since_last_fps_update = self.frames_since_last_fps_update + 1;
        self.frame_start = now;
    }

    /// The overlay finished its work at `now`.
    pub fn ui_end(&mut self, now: u64)
        ensures
            *final(self) == stats_ui_end(*old(self), now),
    {
        self.ui_end = now;
        self.ui_time = elapsed(now, self.frame_start);
    }

    /// The frame ended at `now`.
    pub fn frame_end(&mut self, now: u64)
        ensures
            *final(self) == stats_frame_end(*old(self), now),
    {
        self.frametime = elapsed(now, self.frame_end);
        self.frame_end = now;
        self.present_time = elapsed(now, self.frame_start);
    }

    /// Updates at `now`. Less than half a second after the last update
    /// nothing happens. Otherwise the frame counter restarts, and when there
    /// was a last update, the frames counted since and the span since come
    /// back, to compute the frame rate from.
    pub fn update(&mut self, now: u64) -> (r: Option<FpsSample>)
        ensures
            *final(self) == stats_update(*old(self), now),
            r == update_sample(*old(self), now),
    {
        let mut sample: Option<FpsSample> = None;
        match self.last_update {
            Some(last) => {
                let since: u64 = elapsed(now, last);
                if since < FPS_UPDATE_INTERVAL_NANOS {
                    return None;
                }
                sample = Some(FpsSample { frames: self.frames_since_last_fps_update, elapsed_nanos: since });
            },
            None => {},
        }
        self.last_update = Some(now);
        self.frames_since_last_fps_update = 0;
        sample
    }

    /// The number of frames begun.
    pub fn lifetime_frames(&self) -> (r: u64)
        ensures
            r == self.total_frames,
    {
        self.total_frames
    }

    /// When the statistics were started.
    pub fn start_time(&self) -> (r: u64)
        ensures
            r == self.start_time,
    {
        self.start_time
    }

    /// The overlay's share of the last frame.
    pub fn ui_time(&self) -> (r: u64)
        ensures
            r == self.ui_time,
    {
        self.ui_time
    }

    /// The game's share of the last frame, up to its present: the span up to
    /// the frame's end less the overlay's share, which must not exceed it.
    pub fn game_present_time(&self) -> (r: u64)
        requires
            self.ui_time <= self.present_time,
        ensures
            r == self.present_time - self.ui_time,
    {
        self.present_time - self.ui_time
    }

    /// The span between the ends of the last two frames.
    pub fn frametime(&self) -> (r: u64)
        ensures
            r == self.frametime,
    {
        self.frametime
    }
}

/// Samples are at least half a second apart: right after an update that
/// took a sample, an update earlier than half a second later takes none and
/// changes nothing, and the frames of a sample are those begun since the
/// previous update.
pub proof fn lemma_samples_spaced(s: Stats, t1: u64, t2: u64)
    requires
        t1 <= t2,
        t2 - t1 < FPS_UPDATE_INTERVAL_NANOS,
    ensures
        update_sample(stats_update(s, t1), t2) is None || update_too_early(s, t1),
        !update_too_early(s, t1) ==> stats_update(stats_update(s, t1), t2) == stats_update(s, t1),
        !update_too_early(s, t1) ==> stats_update(s, t1).frames_since_last_fps_update == 0,
{
}

/// In a frame measured in order, the overlay's share never exceeds the span
/// up to the frame's end, so the game's share is defined.
pub proof fn lemma_present_covers_ui(s: Stats, t0: u64, t1: u64, t2: u64)
    requires
        s.total_frames < u64::MAX,
        s.frames_since_last_fps_update < u64::MAX,
        t0 <= t1 <= t2,
    ensures
        ({
            let r = stats_frame_end(stats_ui_end(stats_frame_start(s, t0), t1), t2);
            &&& r.ui_time <= r.present_time
            &&& r.present_time - r.ui_time == t2 - t1
        }),
{
}

} // verus!
