use alacritty_tabs::color::Rgb;
use alacritty_tabs::config::TabBarConfig;
use alacritty_tabs::events::{
    needs_redraw_request, plan_frame, route_event, search_scroll, EventKind, EventRoute, FramePlan,
};
use alacritty_tabs::tab::{HitProbe, TabBar, TabBarColors, TabBarHit};

fn bar_with(titles: &[&str], config: TabBarConfig) -> TabBar {
    let mut bar = TabBar::new(config);
    for t in titles {
        bar.titles.push(t.to_string());
    }
    bar
}

fn probe(within_bar: bool, over_new_button: bool, over_tab: Option<usize>, over_close_button: bool) -> HitProbe {
    HitProbe { within_bar, over_new_button, over_tab, over_close_button }
}

#[test]
fn default_config_matches_documented_defaults() {
    let c = TabBarConfig::default();
    assert!(c.enabled);
    assert_eq!(c.height, 0);
    assert!(c.show_new_button);
    assert!(c.show_close_button);
    assert_eq!(c.max_tab_width, 0);
    assert_eq!(c.min_tab_width, 0);
    assert_eq!(c.double_click_timeout, 500);
    assert!(c.close_on_last_tab);
}

#[test]
fn new_bar_is_empty() {
    let bar = TabBar::new(TabBarConfig::default());
    assert_eq!(bar.len(), 0);
    assert_eq!(bar.active_index, 0);
    assert_eq!(bar.config, TabBarConfig::default());
}

#[test]
fn len_counts_titles() {
    let bar = bar_with(&["a", "b", "c"], TabBarConfig::default());
    assert_eq!(bar.len(), 3);
}

#[test]
fn disabled_or_empty_bar_hits_nothing() {
    let mut config = TabBarConfig::default();
    config.enabled = false;
    let bar = bar_with(&["a"], config);
    assert_eq!(bar.resolve_hit(probe(true, true, Some(0), true)), None);
    let empty = TabBar::new(TabBarConfig::default());
    assert_eq!(empty.resolve_hit(probe(true, true, Some(0), true)), None);
}

#[test]
fn pointer_outside_the_bar_hits_nothing() {
    let bar = bar_with(&["a", "b"], TabBarConfig::default());
    assert_eq!(bar.resolve_hit(probe(false, true, Some(1), false)), None);
}

#[test]
fn new_button_takes_precedence_when_shown() {
    let bar = bar_with(&["a", "b"], TabBarConfig::default());
    assert_eq!(bar.resolve_hit(probe(true, true, Some(1), true)), Some(TabBarHit::NewButton));
    let mut config = TabBarConfig::default();
    config.show_new_button = false;
    let bar = bar_with(&["a", "b"], config);
    assert_eq!(bar.resolve_hit(probe(true, true, Some(1), false)), Some(TabBarHit::Tab(1)));
}

#[test]
fn close_zone_hits_close_button_only_when_shown() {
    let bar = bar_with(&["a", "b"], TabBarConfig::default());
    assert_eq!(bar.resolve_hit(probe(true, false, Some(0), true)), Some(TabBarHit::CloseButton(0)));
    assert_eq!(bar.resolve_hit(probe(true, false, Some(0), false)), Some(TabBarHit::Tab(0)));
    let mut config = TabBarConfig::default();
    config.show_close_button = false;
    let bar = bar_with(&["a", "b"], config);
    assert_eq!(bar.resolve_hit(probe(true, false, Some(0), true)), Some(TabBarHit::Tab(0)));
}

#[test]
fn no_tab_under_pointer_hits_nothing() {
    let bar = bar_with(&["a", "b"], TabBarConfig::default());
    assert_eq!(bar.resolve_hit(probe(true, false, None, false)), None);
    assert_eq!(bar.resolve_hit(probe(true, false, Some(2), false)), None);
}

#[test]
fn colors_on_dark_background() {
    let bg = Rgb::new(30, 30, 30);
    let c = TabBarColors::from_background(bg);
    assert_eq!(c.bar_bg, Rgb::new(42, 42, 42));
    assert_eq!(c.inactive_bg, Rgb::new(55, 55, 55));
    assert_eq!(c.active_bg, bg);
    assert_eq!(c.text, Rgb::new(200, 200, 200));
    assert_eq!(c.active_text, Rgb::new(255, 255, 255));
    assert_eq!(c.close_button, Rgb::new(180, 60, 60));
}

#[test]
fn colors_on_light_background() {
    let bg = Rgb::new(250, 240, 10);
    let c = TabBarColors::from_background(bg);
    assert_eq!(c.bar_bg, Rgb::new(237, 227, 0));
    assert_eq!(c.inactive_bg, Rgb::new(225, 215, 0));
    assert_eq!(c.active_bg, bg);
    assert_eq!(c.text, Rgb::new(55, 55, 55));
    assert_eq!(c.active_text, Rgb::new(0, 0, 0));
}

#[test]
fn lightening_clamps_at_white() {
    let c = TabBarColors::from_background(Rgb::new(250, 0, 0));
    assert_eq!(c.inactive_bg, Rgb::new(255, 25, 25));
    assert_eq!(c.bar_bg, Rgb::new(255, 12, 12));
}

#[test]
fn luminance_threshold_is_exclusive() {
    // Luminance exactly 128 is light ...
    let c = TabBarColors::from_background(Rgb::new(128, 128, 128));
    assert_eq!(c.active_text, Rgb::new(0, 0, 0));
    // ... except where single precision rounds the sum just below 128.
    let c = TabBarColors::from_background(Rgb::new(75, 175, 25));
    assert_eq!(c.active_text, Rgb::new(255, 255, 255));
    let c = TabBarColors::from_background(Rgb::new(127, 127, 127));
    assert_eq!(c.active_text, Rgb::new(255, 255, 255));
}

#[test]
fn tab_bar_clicks_never_reach_the_terminal() {
    assert_eq!(
        route_event(EventKind::LeftPress { hit: Some(TabBarHit::Tab(2)) }, false),
        EventRoute::Click(TabBarHit::Tab(2))
    );
    assert_eq!(route_event(EventKind::LeftPress { hit: None }, true), EventRoute::Queue);
}

#[test]
fn idle_events_process_only_a_non_empty_queue() {
    assert_eq!(route_event(EventKind::Idle, true), EventRoute::Skip);
    assert_eq!(route_event(EventKind::Idle, false), EventRoute::Process);
    assert_eq!(route_event(EventKind::CursorMoved, true), EventRoute::Queue);
    assert_eq!(route_event(EventKind::Other, false), EventRoute::Queue);
}

#[test]
fn search_start_scrolls_to_keep_origin_visible() {
    assert_eq!(search_scroll(false, true, 0, true, false), Some(1));
    assert_eq!(search_scroll(false, true, 3, false, true), Some(-1));
    assert_eq!(search_scroll(false, true, 0, false, false), None);
    assert_eq!(search_scroll(true, true, 0, true, false), None);
    assert_eq!(search_scroll(false, false, 3, true, true), None);
}

#[test]
fn redraw_requested_only_for_visible_changes() {
    assert!(needs_redraw_request(true, true, false, false));
    assert!(!needs_redraw_request(false, true, false, false));
    assert!(!needs_redraw_request(true, false, false, false));
    assert!(!needs_redraw_request(true, true, true, false));
    assert!(!needs_redraw_request(true, true, false, true));
}

#[test]
fn frame_plan_follows_occlusion_and_bell() {
    assert_eq!(plan_frame(true, true, false, true), FramePlan { draw: false, request_redraw: false, dirty: true });
    assert_eq!(plan_frame(true, false, true, true), FramePlan { draw: true, request_redraw: false, dirty: false });
    assert_eq!(plan_frame(false, false, false, true), FramePlan { draw: true, request_redraw: true, dirty: false });
    assert_eq!(plan_frame(false, false, false, false), FramePlan { draw: true, request_redraw: false, dirty: true });
}
