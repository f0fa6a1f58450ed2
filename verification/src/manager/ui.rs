//! The overlay window's state and the cursor rule.

use vstd::prelude::*;

verus! {

/// The manager's window.
#[derive(Clone, Copy, Debug, PartialEq, Eq, Structural)]
pub struct MainWindow {
    pub open: bool,
}

impl MainWindow {
    /// The window, open if the configuration says to open it on startup.
    pub fn new(open_on_startup: bool) -> (w: Self)
        ensures
            w.open == open_on_startup,
    {
        MainWindow { open: open_on_startup }
    }

    /// The toggle shortcut opens a closed window and closes an open one.
    pub fn toggle(&mut self)
        ensures
            final(self).open == !old(self).open,
    {
        self.open = !self.open;
    }

    /// The close button closes the window.
    pub fn close(&mut self)
        ensures
            !final(self).open,
    {
        self.open = false;
    }
}

/// Whether the manager draws its own cursor this frame: only while its
/// window is open, and, when the cursor is to be hidden outside the window,
/// only while the pointer is over the window.
pub open spec fn paints_cursor(window_open: bool, hide_outside: bool, pointer_in_window: bool) -> bool {
    window_open && (!hide_outside || pointer_in_window)
}

/// Whether the manager draws its own cursor this frame.
pub fn cursor_painted(window_open: bool, hide_outside: bool, pointer_in_window: bool) -> (r: bool)
    ensures
        r == paints_cursor(window_open, hide_outside, pointer_in_window),
{
    window_open && (!hide_outside || pointer_in_window)
}

/// The state of a shortcut button after one frame, and the shortcut it
/// captured, if any.
pub struct CaptureStep<K> {
    pub expecting: bool,
    pub captured: Option<K>,
}

/// One frame of a shortcut button that captures the next key press: a click
/// starts or stops waiting for a key; while waiting, a click elsewhere stops
/// waiting, and otherwise the first key pressed (`key`) becomes the new
/// shortcut and waiting stops.
pub open spec fn capture_step<K>(expecting: bool, clicked: bool, clicked_elsewhere: bool, key: Option<K>) -> CaptureStep<K> {
    let waiting = if clicked { !expecting } else { expecting };
    if !waiting {
        CaptureStep { expecting: false, captured: None }
    } else if clicked_elsewhere {
        CaptureStep { expecting: false, captured: None }
    } else {
        match key {
            Some(k) => CaptureStep { expecting: false, captured: Some(k) },
            None => CaptureStep { expecting: true, captured: None },
        }
    }
}

/// One frame of a shortcut button that captures the next key press.
pub fn shortcut_capture_step<K>(expecting: bool, clicked: bool, clicked_elsewhere: bool, key: Option<K>) -> (r: CaptureStep<K>)
    ensures
        r == capture_step(expecting, clicked, clicked_elsewhere, key),
{
    let waiting: bool = if clicked { !expecting } else { expecting };
    if !waiting {
        CaptureStep { expecting: false, captured: None }
    } else if clicked_elsewhere {
        CaptureStep { expecting: false, captured: None }
    } else {
        match key {
            Some(k) => CaptureStep { expecting: false, captured: Some(k) },
            None => CaptureStep { expecting: true, captured: None },
        }
    }
}

/// A shortcut is captured only by a button that was waiting or was just
/// clicked to wait, and capturing one ends the wait.
pub proof fn lemma_capture_ends_wait<K>(expecting: bool, clicked: bool, clicked_elsewhere: bool, key: Option<K>)
    ensures
        capture_step(expecting, clicked, clicked_elsewhere, key).captured is Some ==> {
            &&& !capture_step(expecting, clicked, clicked_elsewhere, key).expecting
            &&& (expecting != clicked)
            &&& !clicked_elsewhere
            &&& capture_step(expecting, clicked, clicked_elsewhere, key).captured == key
        },
{
}

/// A button that is waiting for a key, whether since a click on an earlier
/// frame or since a click this frame, and is not clicked elsewhere takes the
/// key pressed this frame as the new shortcut and stops waiting; with no key
/// pressed it goes on waiting. A button that is not waiting, or is clicked
/// elsewhere, captures nothing and does not wait.
pub proof fn lemma_waiting_button_captures_key<K>(expecting: bool, clicked: bool, clicked_elsewhere: bool, key: Option<K>)
    ensures
        (expecting != clicked) && !clicked_elsewhere && key is Some ==> {
            &&& capture_step(expecting, clicked, clicked_elsewhere, key).captured == key
            &&& !capture_step(expecting, clicked, clicked_elsewhere, key).expecting
        },
        (expecting != clicked) && !clicked_elsewhere && key is None ==> {
            &&& capture_step(expecting, clicked, clicked_elsewhere, key).captured is None
            &&& capture_step(expecting, clicked, clicked_elsewhere, key).expecting
        },
        (expecting == clicked || clicked_elsewhere) ==> {
            &&& capture_step(expecting, clicked, clicked_elsewhere, key).captured is None
            &&& !capture_step(expecting, clicked, clicked_elsewhere, key).expecting
        },
{
}

/// Toggling twice leaves the window as it was.
pub proof fn lemma_toggle_twice(w: MainWindow)
    ensures
        (MainWindow { open: !(MainWindow { open: !w.open }).open }) == w,
{
}

} // verus!
