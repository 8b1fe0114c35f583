use alacritty_tabs::config::TabBarConfig;
use alacritty_tabs::tab::{TabBarHit, TabId};
use alacritty_tabs::window_context::{ClickAction, WindowContext};

/// A session stands for the terminal state a tab owns; here just a number.
type Session = u32;

fn built(title: &str, session: Session) -> Result<(String, bool, Session), String> {
    Ok((title.to_string(), false, session))
}

/// A window with tabs "t0".."t{n-1}" holding sessions 0..n, built the way new
/// tabs are: each appended and switched to.
fn window(n: u32) -> WindowContext<Session> {
    let mut ctx = WindowContext::new("t0".to_string(), false, 0, TabBarConfig::default());
    for i in 1..n {
        ctx.create_new_tab(built(&format!("t{i}"), i)).unwrap();
    }
    ctx
}

fn titles(ctx: &WindowContext<Session>) -> Vec<String> {
    ctx.tab_bar().titles.clone()
}

/// The logical tab list as (id, title, session).
fn list(ctx: &WindowContext<Session>) -> Vec<(usize, String, Session)> {
    let mut all: Vec<(usize, String, Session)> =
        ctx.inactive_tabs().iter().map(|t| (t.id.0, t.title.clone(), t.session)).collect();
    let active = ctx.tab_bar().active_index;
    all.insert(active, (ctx.active_id().0, ctx.active_title().to_string(), *ctx.session()));
    all
}

fn strings(v: &[&str]) -> Vec<String> {
    v.iter().map(|s| s.to_string()).collect()
}

/// Every bar title is the title of the tab at its position.
fn assert_in_step(ctx: &WindowContext<Session>) {
    let l = list(ctx);
    let t = titles(ctx);
    assert_eq!(l.len(), t.len());
    for (i, entry) in l.iter().enumerate() {
        assert_eq!(entry.1, t[i]);
    }
}

#[test]
fn new_window_has_one_tab() {
    let ctx = WindowContext::new("shell".to_string(), false, 5, TabBarConfig::default());
    assert_eq!(ctx.tab_count(), 1);
    assert_eq!(ctx.active_title(), "shell");
    assert_eq!(*ctx.session(), 5);
    assert_eq!(ctx.active_id(), TabId(0));
    assert_eq!(ctx.tab_bar().active_index, 0);
    assert_eq!(ctx.next_tab_id(), 1);
    assert!(ctx.dirty);
}

#[test]
fn new_tabs_get_fresh_ids_even_when_building_fails() {
    let mut ctx = window(2);
    assert_eq!(ctx.active_id(), TabId(1));
    let failed: Result<(String, bool, Session), String> = Err("no pty".to_string());
    assert_eq!(ctx.create_new_tab(failed), Err("no pty".to_string()));
    assert_eq!(ctx.tab_count(), 2);
    assert_eq!(ctx.next_tab_id(), 3);
    ctx.create_new_tab(built("t2", 2)).unwrap();
    assert_eq!(ctx.active_id(), TabId(3));
    let ids: Vec<usize> = list(&ctx).iter().map(|e| e.0).collect();
    assert_eq!(ids, vec![0, 1, 3]);
}

#[test]
fn new_tab_is_appended_and_becomes_active() {
    let mut ctx = window(2);
    ctx.switch_tab(0);
    ctx.dirty = false;
    ctx.create_new_tab(built("third", 9)).unwrap();
    assert_eq!(ctx.tab_count(), 3);
    assert_eq!(ctx.tab_bar().active_index, 2);
    assert_eq!(*ctx.session(), 9);
    assert_eq!(ctx.active_title(), "third");
    assert!(ctx.dirty);
    assert_eq!(titles(&ctx), strings(&["t0", "t1", "third"]));
    let sessions: Vec<Session> = list(&ctx).iter().map(|e| e.2).collect();
    assert_eq!(sessions, vec![0, 1, 9]);
    assert_in_step(&ctx);
}

#[test]
fn switch_to_active_or_out_of_range_changes_nothing() {
    let mut ctx = window(3);
    let before = list(&ctx);
    ctx.dirty = false;
    ctx.switch_tab(2);
    ctx.switch_tab(3);
    ctx.switch_tab(usize::MAX);
    assert_eq!(list(&ctx), before);
    assert_eq!(ctx.tab_bar().active_index, 2);
    assert!(!ctx.dirty);
}

#[test]
fn switch_keeps_every_tab_in_place() {
    let mut ctx = window(4);
    let before = list(&ctx);
    let bar_before = titles(&ctx);
    ctx.switch_tab(0);
    assert_eq!(ctx.tab_bar().active_index, 0);
    assert_eq!(list(&ctx), before);
    assert_eq!(titles(&ctx), bar_before);
    assert_eq!(*ctx.session(), 0);
    assert_eq!(ctx.active_title(), "t0");
    ctx.switch_tab(2);
    assert_eq!(list(&ctx), before);
    assert_eq!(*ctx.session(), 2);
    assert_in_step(&ctx);
}

#[test]
fn next_tab_wraps_to_first() {
    let mut ctx = window(3);
    assert_eq!(ctx.tab_bar().active_index, 2);
    ctx.next_tab();
    assert_eq!(ctx.tab_bar().active_index, 0);
    assert_eq!(*ctx.session(), 0);
    ctx.next_tab();
    assert_eq!(ctx.tab_bar().active_index, 1);
    assert_eq!(*ctx.session(), 1);
}

#[test]
fn prev_tab_wraps_to_last() {
    let mut ctx = window(3);
    ctx.switch_tab(0);
    ctx.prev_tab();
    assert_eq!(ctx.tab_bar().active_index, 2);
    assert_eq!(*ctx.session(), 2);
    ctx.prev_tab();
    assert_eq!(ctx.tab_bar().active_index, 1);
    assert_eq!(*ctx.session(), 1);
}

#[test]
fn single_tab_next_and_prev_stay() {
    let mut ctx = window(1);
    ctx.dirty = false;
    ctx.next_tab();
    ctx.prev_tab();
    assert_eq!(ctx.tab_bar().active_index, 0);
    assert!(!ctx.dirty);
}

#[test]
fn prev_undoes_next_everywhere() {
    for start in 0..3 {
        let mut ctx = window(3);
        ctx.switch_tab(start);
        let before = list(&ctx);
        let bar = titles(&ctx);
        ctx.next_tab();
        ctx.prev_tab();
        assert_eq!(list(&ctx), before);
        assert_eq!(titles(&ctx), bar);
        assert_eq!(ctx.tab_bar().active_index, start);
        ctx.prev_tab();
        ctx.next_tab();
        assert_eq!(list(&ctx), before);
        assert_eq!(ctx.tab_bar().active_index, start);
    }
}

#[test]
fn cycling_through_all_tabs_comes_back() {
    let mut ctx = window(3);
    ctx.switch_tab(0);
    let before = list(&ctx);
    for _ in 0..3 {
        ctx.next_tab();
    }
    assert_eq!(list(&ctx), before);
    assert_eq!(ctx.tab_bar().active_index, 0);
    assert_eq!(*ctx.session(), 0);
}

#[test]
fn last_tab_cannot_be_closed() {
    let mut ctx = window(1);
    ctx.dirty = false;
    assert!(ctx.close_active_tab().is_none());
    assert_eq!(ctx.tab_count(), 1);
    assert!(!ctx.dirty);
}

#[test]
fn closing_active_tab_removes_it_in_place() {
    let mut ctx = window(4);
    ctx.switch_tab(1);
    let closed = ctx.close_active_tab().expect("closable");
    assert_eq!(closed.session, 1);
    assert_eq!(closed.id, TabId(1));
    assert_eq!(ctx.tab_count(), 3);
    assert_eq!(ctx.tab_bar().active_index, 1);
    assert_eq!(*ctx.session(), 2);
    assert_eq!(ctx.active_title(), "t2");
    assert_eq!(titles(&ctx), strings(&["t0", "t2", "t3"]));
    let sessions: Vec<Session> = list(&ctx).iter().map(|e| e.2).collect();
    assert_eq!(sessions, vec![0, 2, 3]);
    assert_in_step(&ctx);
}

#[test]
fn closing_the_last_position_moves_active_back() {
    let mut ctx = window(3);
    assert_eq!(ctx.tab_bar().active_index, 2);
    ctx.close_active_tab().expect("closable");
    assert_eq!(ctx.tab_bar().active_index, 1);
    assert_eq!(*ctx.session(), 1);
    assert_eq!(titles(&ctx), strings(&["t0", "t1"]));
    assert_in_step(&ctx);
}

#[test]
fn click_on_tab_switches() {
    let mut ctx = window(3);
    assert!(matches!(ctx.handle_tab_bar_click(TabBarHit::Tab(0)), ClickAction::Selected));
    assert_eq!(ctx.tab_bar().active_index, 0);
    assert_eq!(*ctx.session(), 0);
}

#[test]
fn click_on_background_close_keeps_foreground() {
    let mut ctx = window(3);
    ctx.switch_tab(1);
    match ctx.handle_tab_bar_click(TabBarHit::CloseButton(0)) {
        ClickAction::ClosedBackground(t) => assert_eq!(t.session, 0),
        _ => panic!("expected a closed background tab"),
    }
    assert_eq!(ctx.tab_count(), 2);
    assert_eq!(ctx.tab_bar().active_index, 0);
    assert_eq!(*ctx.session(), 1);
    assert_eq!(ctx.active_title(), "t1");
    assert_eq!(titles(&ctx), strings(&["t1", "t2"]));
    assert_in_step(&ctx);
}

#[test]
fn click_close_on_missing_tab_is_ignored() {
    let mut ctx = window(2);
    assert!(matches!(ctx.handle_tab_bar_click(TabBarHit::CloseButton(5)), ClickAction::Ignored));
    assert_eq!(ctx.tab_count(), 2);
}

#[test]
fn click_close_on_active_tab_closes_it() {
    let mut ctx = window(2);
    match ctx.handle_tab_bar_click(TabBarHit::CloseButton(1)) {
        ClickAction::ClosedActive(t) => assert_eq!(t.session, 1),
        _ => panic!("expected the active tab to close"),
    }
    assert_eq!(ctx.tab_count(), 1);
    assert_eq!(*ctx.session(), 0);
}

#[test]
fn closing_the_last_tab_closes_the_window_when_configured() {
    let mut ctx = window(1);
    assert!(matches!(ctx.handle_tab_bar_click(TabBarHit::CloseButton(0)), ClickAction::CloseWindow));
    let mut config = TabBarConfig::default();
    config.close_on_last_tab = false;
    let mut ctx = WindowContext::new("only".to_string(), false, 0, config);
    assert!(matches!(ctx.handle_tab_bar_click(TabBarHit::CloseButton(0)), ClickAction::Ignored));
    assert_eq!(ctx.tab_count(), 1);
}

#[test]
fn new_button_requests_a_tab() {
    let mut ctx = window(1);
    assert!(matches!(ctx.handle_tab_bar_click(TabBarHit::NewButton), ClickAction::NewTabRequested));
    assert_eq!(ctx.tab_count(), 1);
}

#[test]
fn set_active_title_reads_back() {
    let mut ctx = window(2);
    ctx.set_active_title("vim".to_string());
    assert_eq!(ctx.active_title(), "vim");
    assert_eq!(ctx.tab_bar().titles[1], "vim");
    assert_in_step(&ctx);
}

#[test]
fn window_title_is_followed_only_when_changed() {
    let mut ctx = window(2);
    ctx.tab_bar_mut().titles[1] = "stale".to_string();
    ctx.follow_window_title("t1".to_string());
    assert_eq!(ctx.tab_bar().titles[1], "stale");
    ctx.follow_window_title("htop".to_string());
    assert_eq!(ctx.active_title(), "htop");
    assert_eq!(ctx.tab_bar().titles[1], "htop");
}

#[test]
fn config_title_adopted_unless_preserved() {
    let mut ctx = window(1);
    assert!(ctx.adopt_config_title("Alacritty".to_string(), false, false));
    assert_eq!(ctx.active_title(), "Alacritty");
    // The bar keeps its titles; only the active title follows the configuration.
    assert_eq!(ctx.tab_bar().titles[0], "t0");
    assert_eq!(ctx.tab_count(), 1);
    assert!(!ctx.adopt_config_title("X".to_string(), true, false));
    assert!(ctx.adopt_config_title("Y".to_string(), true, true));
    assert_eq!(ctx.active_title(), "Y");
    let mut ctx = WindowContext::new("fixed".to_string(), true, 0, TabBarConfig::default());
    assert!(ctx.preserve_title());
    assert!(!ctx.adopt_config_title("Z".to_string(), false, false));
    assert_eq!(ctx.active_title(), "fixed");
}

#[test]
fn session_mut_updates_the_active_session() {
    let mut ctx = window(2);
    *ctx.session_mut() = 42;
    assert_eq!(*ctx.session(), 42);
}
