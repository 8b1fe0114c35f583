//! Decisions a window takes on incoming events before the terminal sees them.

use vstd::prelude::*;

use crate::tab::TabBarHit;

verus! {

/// The kinds of window events the tab-aware router tells apart.
#[derive(Debug, Clone, Copy, PartialEq, Eq)]
pub enum EventKind {
    /// The event loop is about to wait, or a redraw was requested.
    Idle,
    /// The mouse cursor moved.
    CursorMoved,
    /// The left mouse button was pressed; `hit` is what it hit on the tab bar.
    LeftPress { hit: Option<TabBarHit> },
    /// Anything else.
    Other,
}

/// What to do with an incoming event.
#[derive(Debug, Clone, Copy, PartialEq, Eq)]
pub enum EventRoute {
    /// Nothing is queued: skip processing.
    Skip,
    /// Hand the queued events to the terminal input processor.
    Process,
    /// Queue the event for the terminal input processor.
    Queue,
    /// The click landed on the tab bar: handle it there.
    Click(TabBarHit),
}

/// Idle events process the queue when it holds anything; clicks on the tab bar
/// go to the bar; every other event is queued for the terminal.
pub open spec fn route_of(kind: EventKind, queue_empty: bool) -> EventRoute {
    match kind {
        EventKind::Idle => if queue_empty {
            EventRoute::Skip
        } else {
            EventRoute::Process
        },
        EventKind::LeftPress { hit: Some(h) } => EventRoute::Click(h),
        _ => EventRoute::Queue,
    }
}

/// Route an incoming window event.
pub fn route_event(kind: EventKind, queue_empty: bool) -> (route: EventRoute)
    ensures
        route == route_of(kind, queue_empty),
        // A click on the tab bar never reaches the terminal.
        kind matches EventKind::LeftPress { hit: Some(h) } ==> route == EventRoute::Click(h),
{
    match kind {
        EventKind::Idle => {
            if queue_empty {
                EventRoute::Skip
            } else {
                EventRoute::Process
            }
        },
        EventKind::CursorMoved => EventRoute::Queue,
        EventKind::LeftPress { hit } => match hit {
            Some(h) => EventRoute::Click(h),
            None => EventRoute::Queue,
        },
        EventKind::Other => EventRoute::Queue,
    }
}

/// After handling events, a redraw is requested when something changed, the
/// window has drawn a frame and is visible, and the event was not itself a
/// redraw request.
pub fn needs_redraw_request(dirty: bool, has_frame: bool, occluded: bool, was_redraw: bool) -> (request: bool)
    ensures
        request == (dirty && has_frame && !occluded && !was_redraw),
{
    dirty && has_frame && !occluded && !was_redraw
}

/// What drawing a frame involves.
#[derive(Debug, Clone, Copy, PartialEq, Eq)]
pub struct FramePlan {
    /// Whether to draw at all.
    pub draw: bool,
    /// Whether to ask the window for another frame right away.
    pub request_redraw: bool,
    /// The window's dirty flag afterwards.
    pub dirty: bool,
}

/// An occluded window draws nothing and keeps its dirty flag. Otherwise it
/// draws and is clean, unless the visual bell is still animating: then it asks
/// for the next frame when it has drawn one before, and stays dirty otherwise.
pub open spec fn frame_plan_of(dirty: bool, occluded: bool, bell_completed: bool, has_frame: bool) -> FramePlan {
    if occluded {
        FramePlan { draw: false, request_redraw: false, dirty }
    } else {
        FramePlan {
            draw: true,
            request_redraw: !bell_completed && has_frame,
            dirty: !bell_completed && !has_frame,
        }
    }
}

/// Plan the drawing of a frame.
pub fn plan_frame(dirty: bool, occluded: bool, bell_completed: bool, has_frame: bool) -> (plan: FramePlan)
    ensures
        plan == frame_plan_of(dirty, occluded, bell_completed, has_frame),
{
    if occluded {
        return FramePlan { draw: false, request_redraw: false, dirty };
    }
    let mut plan = FramePlan { draw: true, request_redraw: false, dirty: false };
    if !bell_completed {
        if has_frame {
            plan.request_redraw = true;
        } else {
            plan.dirty = true;
        }
    }
    plan
}

/// When a search has just started, the view scrolls by one line so that the
/// search origin stays visible: down (`1`) when the view is at the bottom with
/// the cursor on the last line and the origin not at the bottom, up (`-1`) when
/// the view is scrolled and the origin is at the bottom.
pub open spec fn search_scroll_of(
    was_searching: bool,
    is_searching: bool,
    display_offset: usize,
    cursor_at_bottom: bool,
    origin_at_bottom: bool,
) -> Option<i32> {
    if !was_searching && is_searching {
        if display_offset == 0 && cursor_at_bottom && !origin_at_bottom {
            Some(1i32)
        } else if display_offset != 0 && origin_at_bottom {
            Some(-1i32)
        } else {
            None
        }
    } else {
        None
    }
}

/// The scroll to apply after a display update that may have started a search.
pub fn search_scroll(
    was_searching: bool,
    is_searching: bool,
    display_offset: usize,
    cursor_at_bottom: bool,
    origin_at_bottom: bool,
) -> (delta: Option<i32>)
    ensures
        delta == search_scroll_of(
            was_searching,
            is_searching,
            display_offset,
            cursor_at_bottom,
            origin_at_bottom,
        ),
{
    if !was_searching && is_searching {
        if display_offset == 0 && cursor_at_bottom && !origin_at_bottom {
            return Some(1);
        } else if display_offset != 0 && origin_at_bottom {
            return Some(-1);
        }
    }
    None
}

} // verus!
