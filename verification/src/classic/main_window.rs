//! The overlay window's state: shown or hidden, and its background opacity.

use vstd::prelude::*;
use crate::classic::stats::{Stats, stats_new};

verus! {

/// The alpha of the window background for an opacity in percent: the
/// opacity's share of 255, rounded down, and 255 above 100 percent. This is
/// what `(opacity as f32 / 100.0 * 255.0) as u8` computes for every `u8`.
pub open spec fn alpha_for_opacity(opacity: u8) -> u8 {
    if opacity >= 100 {
        255
    } else {
        (opacity * 255 / 100) as u8
    }
}

/// The alpha of the window background for an opacity in percent.
pub fn background_alpha(opacity: u8) -> (r: u8)
    ensures
        r == alpha_for_opacity(opacity),
{
    if opacity >= 100 {
        255
    } else {
        ((opacity as u32) * 255 / 100) as u8
    }
}

pub struct MainWindow {
    pub display: bool,
    pub stats: Stats,
    /// Background opacity in percent.
    pub opacity: u8,
}

impl MainWindow {
    /// A shown window at 80 percent opacity, with statistics started at `now`.
    pub fn new(now: u64) -> (w: Self)
        ensures
            w.display,
            w.opacity == 80,
            w.stats == stats_new(now),
    {
        MainWindow { display: true, stats: Stats::new(now), opacity: 80 }
    }

    /// Handles one frame's input: a press of the toggle key shows a hidden
    /// window and hides a shown one. Whether to draw the window comes back.
    pub fn handle_toggle(&mut self, toggle_pressed: bool) -> (draw: bool)
        ensures
            final(self).display == (old(self).display != toggle_pressed),
            draw == final(self).display,
            final(self).stats == old(self).stats,
            final(self).opacity == old(self).opacity,
    {
        if toggle_pressed {
            self.display = !self.display;
        }
        self.display
    }

    /// The close button hides the window.
    pub fn close(&mut self)
        ensures
            !final(self).display,
            final(self).stats == old(self).stats,
            final(self).opacity == old(self).opacity,
    {
        self.display = false;
    }
}

} // verus!
