use vstd::prelude::*;

verus! {

/// How the platform holds the cursor.
#[derive(Clone, Copy, Debug, PartialEq, Eq, Structural)]
pub enum GrabMode {
    /// The cursor moves freely.
    Free,
    /// The cursor cannot leave the window.
    Confined,
    /// The cursor is held in place.
    Locked,
}

/// What the camera reads of the primary window, and the cursor settings it
/// writes.
#[derive(Clone, Copy, Debug, PartialEq, Eq, Structural)]
pub struct Window {
    /// Width in pixels.
    pub width: u32,
    /// Height in pixels.
    pub height: u32,
    pub grab_mode: GrabMode,
    pub cursor_visible: bool,
}

/// Whether the cursor is captured: camera control is active.
pub open spec fn grabbed(w: Window) -> bool {
    w.grab_mode != GrabMode::Free
}

/// The window after a toggle: a free cursor is confined and hidden, a captured
/// one is freed and shown.
pub open spec fn toggled(w: Window) -> Window {
    if w.grab_mode == GrabMode::Free {
        Window { grab_mode: GrabMode::Confined, cursor_visible: false, ..w }
    } else {
        Window { grab_mode: GrabMode::Free, cursor_visible: true, ..w }
    }
}

/// The smaller side of the window, which scales mouse motion alike on both
/// axes.
pub open spec fn scale_of(w: Window) -> nat {
    if w.height <= w.width {
        w.height as nat
    } else {
        w.width as nat
    }
}

impl Window {
    pub fn is_grabbed(&self) -> (r: bool)
        ensures
            r == grabbed(*self),
    {
        self.grab_mode != GrabMode::Free
    }

    pub fn window_scale(&self) -> (r: u32)
        ensures
            r == scale_of(*self),
    {
        if self.height <= self.width {
            self.height
        } else {
            self.width
        }
    }
}

/// Grabs a free cursor, frees a grabbed one.
pub fn toggle_grab_cursor(window: &mut Window)
    ensures
        *final(window) == toggled(*old(window)),
{
    match window.grab_mode {
        GrabMode::Free => {
            window.grab_mode = GrabMode::Confined;
            window.cursor_visible = false;
        },
        _ => {
            window.grab_mode = GrabMode::Free;
            window.cursor_visible = true;
        },
    }
}

/// The window after the startup grab: the cursor is captured and hidden. A
/// free cursor is confined; one already captured keeps its mode.
pub open spec fn grabbed_at_start(w: Window) -> Window {
    if w.grab_mode == GrabMode::Free {
        Window { grab_mode: GrabMode::Confined, cursor_visible: false, ..w }
    } else {
        Window { cursor_visible: false, ..w }
    }
}

/// Grabs the cursor when the game starts. Returns whether there was a window.
pub fn initial_grab_cursor(window: &mut Option<Window>) -> (found: bool)
    ensures
        found == old(window).is_some(),
        *final(window) == (match *old(window) {
            Some(w) => Some(grabbed_at_start(w)),
            None => None,
        }),
        match *final(window) {
            Some(w) => grabbed(w) && !w.cursor_visible,
            None => true,
        },
{
    match window {
        Some(w) => {
            if w.grab_mode == GrabMode::Free {
                w.grab_mode = GrabMode::Confined;
            }
            w.cursor_visible = false;
            true
        },
        None => false,
    }
}

/// Toggles the cursor when the toggle key was pressed at this frame, as the
/// input source reports it (once per press, not while the key is held).
/// Returns whether there was a window.
pub fn cursor_grab(window: &mut Option<Window>, toggle_pressed: bool) -> (found: bool)
    ensures
        found == old(window).is_some(),
        *final(window) == (match *old(window) {
            Some(w) => Some(
                if toggle_pressed {
                    toggled(w)
                } else {
                    w
                },
            ),
            None => None,
        }),
{
    match window {
        Some(w) => {
            if toggle_pressed {
                toggle_grab_cursor(w);
            }
            true
        },
        None => false,
    }
}

/// The window after frames that each report whether the toggle key was
/// pressed.
pub open spec fn grab_over(w: Window, presses: Seq<bool>) -> Window
    decreases presses.len(),
{
    if presses.len() == 0 {
        w
    } else {
        let before = grab_over(w, presses.drop_last());
        if presses.last() {
            toggled(before)
        } else {
            before
        }
    }
}

/// A key held down over any number of frames is reported pressed at the first
/// only; over those frames the cursor is toggled exactly once.
pub proof fn lemma_held_key_toggles_once(w: Window, presses: Seq<bool>)
    requires
        presses.len() > 0,
        presses[0],
        forall|i: int| 1 <= i < presses.len() ==> !presses[i],
    ensures
        grab_over(w, presses) == toggled(w),
    decreases presses.len(),
{
    let rest = presses.drop_last();
    if presses.len() > 1 {
        assert(forall|i: int| 0 <= i < rest.len() ==> rest[i] == presses[i]);
        lemma_held_key_toggles_once(w, rest);
        assert(!presses.last());
    } else {
        assert(rest.len() == 0);
        assert(grab_over(w, rest) == w);
        assert(presses.last() == presses[0]);
    }
}

} // verus!
