//! Which browser touch drives the pointer: the first touch that starts while no other
//! does, until it ends or is cancelled.
use vstd::prelude::*;

verus! {

/// The touch that currently drives the pointer, if any.
#[derive(Clone, Copy, Debug, PartialEq, Eq, Structural)]
pub struct TouchTracker {
    active_touch_id: Option<i32>,
}

/// Where a touch event was heard: on the app root, or on the window while a widget
/// holds the pointer.
#[derive(Clone, Copy, Debug, PartialEq, Eq, Structural)]
pub enum TouchListener {
    Root,
    CapturedWindow,
}

impl TouchTracker {
    /// The touch that drives the pointer.
    pub closed spec fn spec_active(&self) -> Option<i32> {
        self.active_touch_id
    }

    /// No touch drives the pointer.
    pub fn new() -> (r: Self)
        ensures
            r.spec_active() is None,
    {
        TouchTracker { active_touch_id: None }
    }

    /// The touch that drives the pointer.
    pub fn active(&self) -> (r: Option<i32>)
        ensures
            r == self.spec_active(),
    {
        self.active_touch_id
    }

    /// A touch started; `changed` is the first touch the event changed. It takes the
    /// pointer (and a pointer press is dispatched, `true`) only when no touch drives it yet.
    pub fn start(&mut self, changed: Option<i32>) -> (r: bool)
        ensures
            (final(self).spec_active(), r) == spec_touch_start(old(self).spec_active(), changed),
    {
        match changed {
            Some(id) => {
                if self.active_touch_id.is_some() {
                    false
                } else {
                    self.active_touch_id = Some(id);
                    true
                }
            },
            None => false,
        }
    }

    /// Whether a touch move on the root moves the pointer: the driving touch moved and
    /// no widget holds the pointer.
    pub fn follows_move(&self, active_touch_changed: bool, pointer_captured: bool) -> (r: bool)
        ensures
            r == (self.spec_active() is Some && !pointer_captured && active_touch_changed),
    {
        self.active_touch_id.is_some() && !pointer_captured && active_touch_changed
    }

    /// A touch ended. The root handles it while no widget holds the pointer, the window
    /// while one does; when the driving touch ended there, it lets go of the pointer and a
    /// pointer release is dispatched (`true`).
    pub fn end(&mut self, listener: TouchListener, pointer_captured: bool, active_touch_changed: bool) -> (r: bool)
        ensures
            (final(self).spec_active(), r) == spec_touch_end(
                old(self).spec_active(),
                listener,
                pointer_captured,
                active_touch_changed,
            ),
    {
        let heard_here = match listener {
            TouchListener::Root => !pointer_captured,
            TouchListener::CapturedWindow => pointer_captured,
        };
        if self.active_touch_id.is_some() && active_touch_changed && heard_here {
            self.active_touch_id = None;
            true
        } else {
            false
        }
    }

    /// A touch was cancelled; when it was the driving one, it lets go of the pointer and a
    /// pointer release outside the app is dispatched (`true`).
    pub fn cancel(&mut self, active_touch_changed: bool) -> (r: bool)
        ensures
            r == (old(self).spec_active() is Some && active_touch_changed),
            r ==> final(self).spec_active() is None,
            !r ==> final(self).spec_active() == old(self).spec_active(),
    {
        if self.active_touch_id.is_some() && active_touch_changed {
            self.active_touch_id = None;
            true
        } else {
            false
        }
    }
}

/// The driving touch and whether a press is dispatched after a touch start.
pub open spec fn spec_touch_start(active: Option<i32>, changed: Option<i32>) -> (Option<i32>, bool) {
    if changed is Some && active is None {
        (changed, true)
    } else {
        (active, false)
    }
}

/// The driving touch and whether a release is dispatched after a touch end.
pub open spec fn spec_touch_end(
    active: Option<i32>,
    listener: TouchListener,
    pointer_captured: bool,
    active_touch_changed: bool,
) -> (Option<i32>, bool) {
    if active is Some && active_touch_changed && pointer_captured == (listener
        == TouchListener::CapturedWindow) {
        (None, true)
    } else {
        (active, false)
    }
}

/// One touch at a time drives the pointer: a second touch that starts while the first
/// drives it is ignored, and once the first ended on the listener that hears it, the
/// next touch takes over.
pub proof fn lemma_one_touch_drives_the_pointer(first: i32, second: i32, listener: TouchListener, captured: bool)
    requires
        captured == (listener == TouchListener::CapturedWindow),
    ensures
        ({
            let (a1, pressed1) = spec_touch_start(None, Some(first));
            let (a2, pressed2) = spec_touch_start(a1, Some(second));
            let (a3, released) = spec_touch_end(a2, listener, captured, true);
            let (a4, pressed3) = spec_touch_start(a3, Some(second));
            &&& pressed1 && a1 == Some(first)
            &&& !pressed2 && a2 == Some(first)
            &&& released && a3 is None
            &&& pressed3 && a4 == Some(second)
        }),
{
}

} // verus!
