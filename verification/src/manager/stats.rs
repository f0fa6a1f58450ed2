//! Frame and plugin timings.
//!
//! Points in time are nanoseconds read from a monotonic clock; spans are
//! nanoseconds too. A span between two points is never negative: when the
//! later point precedes the earlier one it is zero, as for `Instant`.

use vstd::prelude::*;

verus! {

/// Nanoseconds in one thirtieth of a second, the frame time assumed before
/// the first frame is measured.
pub const INITIAL_FRAMETIME_NANOS: u64 = 33_333_333;

/// The span from `earlier` to `later`, zero when `later` comes first.
pub open spec fn span(later: u64, earlier: u64) -> u64 {
    if later >= earlier {
        (later - earlier) as u64
    } else {
        0
    }
}

/// The span from `earlier` to `later`, zero when `later` comes first.
pub fn elapsed(later: u64, earlier: u64) -> (r: u64)
    ensures
        r == span(later, earlier),
{
    later.saturating_sub(earlier)
}

/// Three points in the handling of one plugin call: its start, the moment
/// its drawing began and its end.
#[derive(Clone, Copy, Debug, PartialEq, Eq, Structural)]
pub struct Timings {
    pub start: u64,
    pub pre_paint: u64,
    pub end: u64,
}

impl Timings {
    /// All three points at `now`.
    pub fn new(now: u64) -> (t: Self)
        ensures
            t == (Timings { start: now, pre_paint: now, end: now }),
    {
        Timings { start: now, pre_paint: now, end: now }
    }

    /// Records the start of a call.
    pub fn start(&mut self, now: u64)
        ensures
            *final(self) == (Timings { start: now, ..*old(self) }),
    {
        self.start = now;
    }

    /// Records the moment drawing began.
    pub fn pre_paint(&mut self, now: u64)
        ensures
            *final(self) == (Timings { pre_paint: now, ..*old(self) }),
    {
        self.pre_paint = now;
    }

    /// Records the end of a call.
    pub fn end(&mut self, now: u64)
        ensures
            *final(self) == (Timings { end: now, ..*old(self) }),
    {
        self.end = now;
    }
}

/// The spans of the last measured call: before drawing, drawing, and in all.
#[derive(Clone, Copy, Debug, PartialEq, Eq, Structural)]
pub struct Durations {
    pub pre_paint: u64,
    pub paint: u64,
    pub total: u64,
}

/// The spans that a set of timings gives.
pub open spec fn durations_of(t: Timings) -> Durations {
    Durations {
        pre_paint: span(t.pre_paint, t.start),
        paint: span(t.end, t.pre_paint),
        total: span(t.end, t.start),
    }
}

impl Durations {
    /// All spans zero.
    pub fn new() -> (d: Self)
        ensures
            d == (Durations { pre_paint: 0, paint: 0, total: 0 }),
    {
        Durations { pre_paint: 0, paint: 0, total: 0 }
    }

    /// Takes the spans of `timings`.
    pub fn update(&mut self, timings: Timings)
        ensures
            *final(self) == durations_of(timings),
    {
        self.pre_paint = elapsed(timings.pre_paint, timings.start);
        self.paint = elapsed(timings.end, timings.pre_paint);
        self.total = elapsed(timings.end, timings.start);
    }
}

/// When the points of a call come in order, the whole call lasts as long as
/// its part before drawing and its drawing together.
pub proof fn lemma_ordered_spans_add_up(t: Timings)
    requires
        t.start <= t.pre_paint <= t.end,
    ensures
        durations_of(t).total == durations_of(t).pre_paint + durations_of(t).paint,
{
}

/// Timings of a plugin's menu and of its free-floating interface.
#[derive(Clone, Copy, Debug, PartialEq, Eq, Structural)]
pub struct PluginStats {
    pub menu_timings: Timings,
    pub menu_durations: Durations,
    pub ui_timings: Timings,
    pub ui_durations: Durations,
}

impl PluginStats {
    /// Timings at `now`, spans zero.
    pub fn new(now: u64) -> (s: Self)
        ensures
            s == PluginStats::new_spec(now),
    {
        PluginStats {
            menu_timings: Timings::new(now),
            menu_durations: Durations::new(),
            ui_timings: Timings::new(now),
            ui_durations: Durations::new(),
        }
    }

    /// The timings of the menu, for recording.
    pub fn menu_timings(&mut self) -> (t: &mut Timings)
        ensures
            *t == old(self).menu_timings,
            *final(self) == (PluginStats { menu_timings: *final(t), ..*old(self) }),
    {
        &mut self.menu_timings
    }

    /// The timings of the free-floating interface, for recording.
    pub fn ui_timings(&mut self) -> (t: &mut Timings)
        ensures
            *t == old(self).ui_timings,
            *final(self) == (PluginStats { ui_timings: *final(t), ..*old(self) }),
    {
        &mut self.ui_timings
    }

    /// Takes the spans of both sets of timings.
    pub fn update(&mut self)
        ensures
            *final(self) == (PluginStats {
                menu_durations: durations_of(old(self).menu_timings),
                ui_durations: durations_of(old(self).ui_timings),
                ..*old(self)
            }),
    {
        let menu: Timings = self.menu_timings;
        let ui: Timings = self.ui_timings;
        self.menu_durations.update(menu);
        self.ui_durations.update(ui);
    }
}

impl PluginStats {
    /// The statistics that `new` gives.
    pub open spec fn new_spec(now: u64) -> PluginStats {
        PluginStats {
            menu_timings: Timings::new_spec(now),
            menu_durations: Durations { pre_paint: 0, paint: 0, total: 0 },
            ui_timings: Timings::new_spec(now),
            ui_durations: Durations { pre_paint: 0, paint: 0, total: 0 },
        }
    }
}

impl Timings {
    /// The timings that `new` gives.
    pub open spec fn new_spec(now: u64) -> Timings {
        Timings { start: now, pre_paint: now, end: now }
    }
}

/// Frame statistics of the overlay: how many frames were drawn, how long the
/// last frame took, how long the overlay took within it and how long the
/// frame took up to the game's present.
#[derive(Clone, Copy, Debug, PartialEq, Eq, Structural)]
pub struct Stats {
    pub frame_start: u64,
    pub ui_end: u64,
    pub frame_end: u64,
    pub frametime: u64,
    pub ui_time: u64,
    pub present_time: u64,
    pub total_frames: u64,
    pub start_time: u64,
}

/// Statistics started at `now`, before any frame.
pub open spec fn stats_new(now: u64) -> Stats {
    Stats {
        frame_start: now,
        ui_end: now,
        frame_end: now,
        frametime: INITIAL_FRAMETIME_NANOS,
        ui_time: 0,
        present_time: 0,
        total_frames: 0,
        start_time: now,
    }
}

/// A frame begins at `now`.
pub open spec fn stats_frame_start(s: Stats, now: u64) -> Stats {
    Stats { total_frames: (s.total_frames + 1) as u64, frame_start: now, ..s }
}

/// The overlay finished its work at `now`.
pub open spec fn stats_ui_end(s: Stats, now: u64) -> Stats {
    Stats { ui_end: now, ui_time: span(now, s.frame_start), ..s }
}

/// The frame ended at `now`.
pub open spec fn stats_frame_end(s: Stats, now: u64) -> Stats {
    Stats {
        frametime: span(now, s.frame_end),
        frame_end: now,
        present_time: span(now, s.frame_start),
        ..s
    }
}

impl Stats {
    /// Statistics started at `now`.
    pub fn new(now: u64) -> (s: Self)
        ensures
            s == stats_new(now),
    {
        Stats {
            frame_start: now,
            ui_end: now,
            frame_end: now,
            frametime: INITIAL_FRAMETIME_NANOS,
            ui_time: 0,
            present_time: 0,
            total_frames: 0,
            start_time: now,
        }
    }

    /// A frame begins at `now`: one more frame is counted.
    pub fn frame_start(&mut self, now: u64)
        requires
            old(self).total_frames < u64::MAX,
        ensures
            *final(self) == stats_frame_start(*old(self), now),
    {
        self.total_frames = self.total_frames + 1;
        self.frame_start = now;
    }

    /// The overlay finished its work at `now`.
    pub fn ui_end(&mut self, now: u64)
        ensures
            *final(self) == stats_ui_end(*old(self), now),
    {
        self.ui_end = now;
        self.ui_time = elapsed(now, self.frame_start);
    }

    /// The frame ended at `now`.
    pub fn frame_end(&mut self, now: u64)
        ensures
            *final(self) == stats_frame_end(*old(self), now),
    {
        self.frametime = elapsed(now, self.frame_end);
        self.frame_end = now;
        self.present_time = elapsed(now, self.frame_start);
    }

    /// The number of frames begun.
    pub fn lifetime_frames(&self) -> (r: u64)
        ensures
            r == self.total_frames,
    {
        self.total_frames
    }

    /// When the statistics were started.
    pub fn start_time(&self) -> (r: u64)
        ensures
            r == self.start_time,
    {
        self.start_time
    }

    /// The overlay's share of the last frame.
    pub fn ui_time(&self) -> (r: u64)
        ensures
            r == self.ui_time,
    {
        self.ui_time
    }

    /// The span between the ends of the last two frames.
    pub fn frametime(&self) -> (r: u64)
        ensures
            r == self.frametime,
    {
        self.frametime
    }
}

/// One frame measured in order (start, end of the overlay, end of the frame)
/// counts one frame, gives the overlay its share and a frame time from the
/// previous frame's end, and the overlay's share never exceeds the span up to
/// the frame's end.
pub proof fn lemma_frame_in_order(s: Stats, t0: u64, t1: u64, t2: u64)
    requires
        s.total_frames < u64::MAX,
        s.frame_end <= t0 <= t1 <= t2,
    ensures
        ({
            let r = stats_frame_end(stats_ui_end(stats_frame_start(s, t0), t1), t2);
            &&& r.total_frames == s.total_frames + 1
            &&& r.ui_time == t1 - t0
            &&& r.present_time == t2 - t0
            &&& r.frametime == t2 - s.frame_end
            &&& r.ui_time <= r.present_time
        }),
{
}

} // verus!
