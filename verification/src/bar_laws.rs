//! Laws of the tab bar: what a click hits, how events are routed, how frames
//! are planned, and how the bar's colours relate to the background.

use vstd::prelude::*;

use crate::color::Rgb;
use crate::config::TabBarConfig;
use crate::events::{frame_plan_of, route_of, search_scroll_of, EventKind, EventRoute};
use crate::tab::{colors_for, is_dark, weighted_luminance, HitProbe, TabBar, TabBarHit};

verus! {

/// A disabled or empty bar, or a pointer outside it, hits nothing.
pub proof fn lemma_no_hit_off_the_bar(bar: TabBar, probe: HitProbe)
    ensures
        !bar.config.enabled ==> bar.hit_of(probe) is None,
        bar.titles@.len() == 0 ==> bar.hit_of(probe) is None,
        !probe.within_bar ==> bar.hit_of(probe) is None,
{
}

/// On an enabled, non-empty bar with the pointer inside it: a shown "+" button
/// under the pointer is hit; otherwise the tab under the pointer is hit, as its
/// close button when close buttons are shown and the pointer is in the close
/// zone, as the tab itself otherwise, whichever tab is active. With no tab
/// under the pointer nothing is hit.
pub proof fn lemma_hit_on_the_bar(bar: TabBar, probe: HitProbe, i: usize)
    requires
        bar.config.enabled,
        bar.titles@.len() > 0,
        probe.within_bar,
    ensures
        bar.config.show_new_button && probe.over_new_button ==> bar.hit_of(probe) == Some(
            TabBarHit::NewButton,
        ),
        !(bar.config.show_new_button && probe.over_new_button) && probe.over_tab == Some(i) && (i as int)
            < bar.titles@.len() && bar.config.show_close_button && probe.over_close_button
            ==> bar.hit_of(probe) == Some(TabBarHit::CloseButton(i)),
        !(bar.config.show_new_button && probe.over_new_button) && probe.over_tab == Some(i) && (i as int)
            < bar.titles@.len() && !(bar.config.show_close_button && probe.over_close_button)
            ==> bar.hit_of(probe) == Some(TabBarHit::Tab(i)),
        !(bar.config.show_new_button && probe.over_new_button) && probe.over_tab is None
            ==> bar.hit_of(probe) is None,
{
}

/// What a click hits never depends on which tab is active, and a tab it hits
/// always exists.
pub proof fn lemma_hit_independent_of_active(bar: TabBar, probe: HitProbe, active: usize)
    ensures
        (TabBar { active_index: active, ..bar }).hit_of(probe) == bar.hit_of(probe),
        bar.hit_of(probe) matches Some(TabBarHit::Tab(i)) ==> (i as int) < bar.titles@.len(),
        bar.hit_of(probe) matches Some(TabBarHit::CloseButton(i)) ==> (i as int) < bar.titles@.len(),
        bar.hit_of(probe) == Some(TabBarHit::NewButton) ==> bar.config.show_new_button,
        bar.hit_of(probe) matches Some(TabBarHit::CloseButton(_)) ==> bar.config.show_close_button,
{
}

/// Every event other than an idle one or a left press on the bar is queued
/// for the terminal, whether or not the queue holds anything; a left press on
/// the bar goes to the bar; an idle event processes a non-empty queue and
/// skips an empty one. Nothing but an idle event with an empty queue is
/// skipped, and nothing but a press on the bar becomes a click.
pub proof fn lemma_event_routes(q: bool, h: TabBarHit)
    ensures
        route_of(EventKind::Other, q) == EventRoute::Queue,
        route_of(EventKind::CursorMoved, q) == EventRoute::Queue,
        route_of(EventKind::LeftPress { hit: None }, q) == EventRoute::Queue,
        route_of(EventKind::LeftPress { hit: Some(h) }, q) == EventRoute::Click(h),
        route_of(EventKind::Idle, true) == EventRoute::Skip,
        route_of(EventKind::Idle, false) == EventRoute::Process,
        forall|k: EventKind, e: bool| route_of(k, e) == EventRoute::Skip ==> k == EventKind::Idle && e,
        forall|k: EventKind, e: bool, g: TabBarHit| route_of(k, e) == EventRoute::Click(g) ==> k == (EventKind::LeftPress { hit: Some(g) }),
{
}

/// An occluded window draws nothing, asks for nothing and keeps its dirty
/// flag. A visible one always draws; once the bell has finished it is clean and
/// asks for no further frame; while the bell animates it asks for the next
/// frame if it has drawn one before and stays dirty otherwise, never both.
pub proof fn lemma_frame_plans(dirty: bool, occluded: bool, bell_completed: bool, has_frame: bool)
    ensures
        occluded ==> !frame_plan_of(dirty, occluded, bell_completed, has_frame).draw
            && !frame_plan_of(dirty, occluded, bell_completed, has_frame).request_redraw
            && frame_plan_of(dirty, occluded, bell_completed, has_frame).dirty == dirty,
        !occluded ==> frame_plan_of(dirty, occluded, bell_completed, has_frame).draw,
        !occluded && bell_completed ==> !frame_plan_of(dirty, occluded, bell_completed, has_frame).dirty
            && !frame_plan_of(dirty, occluded, bell_completed, has_frame).request_redraw,
        !occluded && !bell_completed ==> frame_plan_of(dirty, occluded, bell_completed, has_frame).request_redraw
            == has_frame && frame_plan_of(dirty, occluded, bell_completed, has_frame).dirty == !has_frame,
{
}

/// The view scrolls only right after a search starts, and then by one line:
/// down when it is at the bottom with the cursor on the last line and the
/// origin elsewhere, up when it is scrolled back and the origin is at the
/// bottom.
pub proof fn lemma_search_scroll(was: bool, is: bool, offset: usize, cursor_at_bottom: bool, origin_at_bottom: bool)
    ensures
        !(!was && is) ==> search_scroll_of(was, is, offset, cursor_at_bottom, origin_at_bottom) is None,
        search_scroll_of(was, is, offset, cursor_at_bottom, origin_at_bottom) matches Some(d) ==> d == 1 || d == -1,
        search_scroll_of(was, is, offset, cursor_at_bottom, origin_at_bottom) == Some(1i32) <==> (!was && is
            && offset == 0 && cursor_at_bottom && !origin_at_bottom),
        search_scroll_of(was, is, offset, cursor_at_bottom, origin_at_bottom) == Some(-1i32) <==> (!was && is
            && offset != 0 && origin_at_bottom),
{
}

/// The bar's colours against a background: the active tab keeps the
/// background and the close button is a fixed red. Backgrounds darker than
/// luminance 128 count as dark and lighter ones as light. On a dark one every
/// channel of an inactive tab is 25 brighter and of the bar 12 brighter (capped
/// at 255), with light grey text and white active text; on a light one they
/// are 25 and 13 darker (floored at 0), with dark grey text and black active
/// text.
pub proof fn lemma_colors(bg: Rgb)
    ensures
        colors_for(bg).active_bg == bg,
        colors_for(bg).close_button == (Rgb { r: 180, g: 60, b: 60 }),
        weighted_luminance(bg) < 128000 ==> is_dark(bg),
        weighted_luminance(bg) > 128000 ==> !is_dark(bg),
        is_dark(bg) ==> colors_for(bg).active_text == (Rgb { r: 255, g: 255, b: 255 })
            && colors_for(bg).text == (Rgb { r: 200, g: 200, b: 200 }),
        !is_dark(bg) ==> colors_for(bg).active_text == (Rgb { r: 0, g: 0, b: 0 })
            && colors_for(bg).text == (Rgb { r: 55, g: 55, b: 55 }),
        is_dark(bg) ==> {
            &&& colors_for(bg).inactive_bg.r == min_int(bg.r + 25, 255)
            &&& colors_for(bg).inactive_bg.g == min_int(bg.g + 25, 255)
            &&& colors_for(bg).inactive_bg.b == min_int(bg.b + 25, 255)
            &&& colors_for(bg).bar_bg.r == min_int(bg.r + 12, 255)
            &&& colors_for(bg).bar_bg.g == min_int(bg.g + 12, 255)
            &&& colors_for(bg).bar_bg.b == min_int(bg.b + 12, 255)
        },
        !is_dark(bg) ==> {
            &&& colors_for(bg).inactive_bg.r == max_int(bg.r - 25, 0)
            &&& colors_for(bg).inactive_bg.g == max_int(bg.g - 25, 0)
            &&& colors_for(bg).inactive_bg.b == max_int(bg.b - 25, 0)
            &&& colors_for(bg).bar_bg.r == max_int(bg.r - 13, 0)
            &&& colors_for(bg).bar_bg.g == max_int(bg.g - 13, 0)
            &&& colors_for(bg).bar_bg.b == max_int(bg.b - 13, 0)
        },
{
}

/// The smaller of two integers.
pub open spec fn min_int(a: int, b: int) -> int {
    if a < b { a } else { b }
}

/// The larger of two integers.
pub open spec fn max_int(a: int, b: int) -> int {
    if a > b { a } else { b }
}

/// The documented defaults: the bar enabled at automatic height with automatic
/// tab widths, both buttons shown, a 500 ms double-click timeout, and closing
/// the last tab closes the window.
pub proof fn lemma_documented_defaults()
    ensures
        TabBarConfig::default_spec().enabled,
        TabBarConfig::default_spec().height == 0,
        TabBarConfig::default_spec().show_new_button,
        TabBarConfig::default_spec().show_close_button,
        TabBarConfig::default_spec().max_tab_width == 0,
        TabBarConfig::default_spec().min_tab_width == 0,
        TabBarConfig::default_spec().double_click_timeout == 500,
        TabBarConfig::default_spec().close_on_last_tab,
{
}

} // verus!
