//! Laws of the tab lifecycle, stated over the abstract state of a window.

use vstd::prelude::*;

use crate::config::TabBarConfig;
use crate::tab::{Tab, TabBarHit, TabId};
use crate::window_context::ClickAction;
use crate::window_context::{
    lemma_add_tab_wf, lemma_bring_forward_self, lemma_bring_forward_tabs, lemma_close_active_wf,
    lemma_close_background_wf, lemma_retitle_wf, lemma_switch_wf, TabsView,
};

verus! {

/// Switching to a tab keeps every tab in its place and every bar title as it
/// is; the tab at the chosen position becomes active and highlighted.
pub proof fn lemma_switch_keeps_tabs_in_place<S>(v: TabsView<S>, index: int)
    requires
        v.wf(),
        0 <= index < v.titles.len(),
    ensures
        v.switch_to(index).tabs() == v.tabs(),
        v.switch_to(index).titles == v.titles,
        v.switch_to(index).active == index,
        v.switch_to(index).bar_active == index || index == v.active,
        v.switch_to(index).active_tab() == v.tabs()[index],
{
    lemma_switch_wf(v, index);
    if index == v.active {
        assert(v.tabs()[index] == v.active_tab());
    }
}

/// Going to the previous tab undoes going to the next one: every tab, title
/// and the active position are restored (and the bar highlights the active
/// tab).
pub proof fn lemma_prev_undoes_next<S>(v: TabsView<S>)
    requires
        v.wf(),
    ensures
        v.next().prev() == (if v.titles.len() > 1 {
            TabsView { dirty: true, bar_active: v.active, ..v }
        } else {
            v
        }),
{
    if v.titles.len() > 1 {
        let n = v.titles.len() as int;
        assert(v.next_index() == if v.active < n - 1 { v.active + 1 } else { 0 }) by {
            if v.active < n - 1 {
                assert((v.active + 1) % n == v.active + 1) by (nonlinear_arith)
                    requires 0 <= v.active + 1 < n;
            } else {
                assert((v.active + 1) % n == 0) by (nonlinear_arith)
                    requires v.active + 1 == n, n > 0;
            }
        }
        let w = v.next();
        lemma_switch_wf(v, v.next_index());
        assert(w.prev_index() == v.active);
        lemma_switch_wf(w, v.active);
        let u = TabsView { dirty: true, ..v };
        lemma_bring_forward_self(u);
        assert(u.tabs() == v.tabs());
    }
}

/// Going to the next tab undoes going to the previous one.
pub proof fn lemma_next_undoes_prev<S>(v: TabsView<S>)
    requires
        v.wf(),
    ensures
        v.prev().next() == (if v.titles.len() > 1 {
            TabsView { dirty: true, bar_active: v.active, ..v }
        } else {
            v
        }),
{
    if v.titles.len() > 1 {
        let n = v.titles.len() as int;
        let w = v.prev();
        lemma_switch_wf(v, v.prev_index());
        assert(w.next_index() == v.active) by {
            if v.active == 0 {
                assert((n - 1 + 1) % n == 0) by (nonlinear_arith)
                    requires n > 1;
            } else {
                assert((v.active - 1 + 1) % n == v.active) by (nonlinear_arith)
                    requires 0 < v.active < n;
            }
        }
        lemma_switch_wf(w, v.active);
        let u = TabsView { dirty: true, ..v };
        lemma_bring_forward_self(u);
        assert(u.tabs() == v.tabs());
    }
}

/// `m` successive steps to the next tab.
pub open spec fn next_times<S>(v: TabsView<S>, m: nat) -> TabsView<S>
    decreases m,
{
    if m == 0 {
        v
    } else {
        next_times(v, (m - 1) as nat).next()
    }
}

proof fn lemma_next_times_position<S>(v: TabsView<S>, m: nat)
    requires
        v.wf(),
        v.titles.len() > 1,
        m >= 1,
    ensures
        next_times(v, m) == (TabsView { dirty: true, ..v }).bring_forward(
            v.tabs(),
            (v.active + m) % (v.titles.len() as int),
        ),
    decreases m,
{
    let n = v.titles.len() as int;
    let u = TabsView { dirty: true, ..v };
    assert(u.tabs() == v.tabs());
    if m == 1 {
        let j = v.next_index();
        assert(0 <= j < n && j != v.active) by (nonlinear_arith)
            requires n > 1, 0 <= v.active < n, j == (v.active + 1) % n;
        assert(next_times(v, 0) == v);
        assert(next_times(v, 1) == next_times(v, 0).next());
    } else {
        lemma_next_times_position(v, (m - 1) as nat);
        let k = (v.active + m - 1) % n;
        let w = next_times(v, (m - 1) as nat);
        assert(0 <= k < n) by (nonlinear_arith)
            requires n > 1, k == (v.active + m - 1) % n;
        lemma_bring_forward_tabs(u, v.tabs(), k);
        assert(w.wf());
        assert(w.next_index() == (v.active + m) % n) by {
            assert((k + 1) % n == (v.active + m) % n) by {
                vstd::arithmetic::div_mod::lemma_add_mod_noop(v.active + m - 1, 1, n);
                vstd::arithmetic::div_mod::lemma_small_mod(1, n as nat);
                vstd::arithmetic::div_mod::lemma_mod_twice(v.active + m - 1, n);
            }
        }
        assert(w.next_index() != w.active) by {
            assert((k + 1) % n != k) by (nonlinear_arith)
                requires n > 1, 0 <= k < n;
        }
        assert(0 <= w.next_index() < n) by (nonlinear_arith)
            requires n > 1, w.next_index() == (v.active + m) % n;
    }
}

/// Stepping to the next tab once per tab comes back to where it started:
/// the same tab active, every tab and title in its place.
pub proof fn lemma_next_cycles<S>(v: TabsView<S>)
    requires
        v.wf(),
        v.titles.len() > 1,
    ensures
        next_times(v, v.titles.len()) == (TabsView { dirty: true, bar_active: v.active, ..v }),
{
    let n = v.titles.len() as int;
    lemma_next_times_position(v, v.titles.len());
    assert((v.active + n) % n == v.active) by {
        vstd::arithmetic::div_mod::lemma_mod_add_multiples_vanish(v.active, n);
        vstd::arithmetic::div_mod::lemma_small_mod(v.active as nat, n as nat);
    }
    let u = TabsView { dirty: true, ..v };
    lemma_bring_forward_self(u);
    assert(u.tabs() == v.tabs());
}

/// Closing the active tab removes it and its bar title in place, keeping the
/// order of the rest; the tab now at the active position (or the new last
/// one) becomes active and highlighted, and the closed tab is handed back.
pub proof fn lemma_close_active_keeps_order<S>(v: TabsView<S>)
    requires
        v.wf(),
        v.titles.len() > 1,
    ensures
        v.close_active().tabs() == v.tabs().remove(v.active),
        v.close_active().titles == v.titles.remove(v.active),
        v.close_active().active == if v.active < v.titles.len() - 1 {
            v.active
        } else {
            v.titles.len() - 2
        },
        v.close_active().bar_active == v.close_active().active,
        v.close_active().active_tab() == v.close_active().tabs()[v.close_active().active],
        v.closed_tab() == v.tabs()[v.active],
{
    lemma_close_active_wf(v);
    let w = v.close_active();
    assert(w.tabs()[w.active] == w.active_tab());
    assert(v.tabs()[v.active] == v.active_tab());
}

/// The last remaining tab is never closed: closing it changes nothing.
pub proof fn lemma_last_tab_stays<S>(v: TabsView<S>)
    requires
        v.wf(),
        v.titles.len() == 1,
    ensures
        v.close_active() == v,
{
}

/// Closing a background tab removes it and its bar title in place, keeping
/// the order of the rest, and leaves the active tab active.
pub proof fn lemma_close_background_keeps_foreground<S>(v: TabsView<S>, index: int)
    requires
        v.wf(),
        v.can_close_background(index),
    ensures
        v.close_background(index).tabs() == v.tabs().remove(index),
        v.close_background(index).titles == v.titles.remove(index),
        v.close_background(index).active_tab() == v.active_tab(),
        v.close_background(index).active == if v.active > index {
            v.active - 1
        } else {
            v.active
        },
{
    lemma_close_background_wf(v, index);
}

/// A new tab receives the next identifier, is appended to the list and the
/// bar after all existing tabs, and becomes active and highlighted.
pub proof fn lemma_new_tab_becomes_active<S>(v: TabsView<S>, title: String, preserve_title: bool, session: S)
    requires
        v.wf(),
        0 <= v.next_tab_id <= usize::MAX,
    ensures
        v.add_tab(title, preserve_title, session).tabs() == v.tabs().push(
            v.new_tab(title, preserve_title, session),
        ),
        v.add_tab(title, preserve_title, session).titles == v.titles.push(title),
        v.add_tab(title, preserve_title, session).active == v.titles.len(),
        v.add_tab(title, preserve_title, session).bar_active == v.titles.len(),
        v.add_tab(title, preserve_title, session).active_tab() == v.new_tab(title, preserve_title, session),
        v.new_tab(title, preserve_title, session).id == TabId(v.next_tab_id as usize),
        v.add_tab(title, preserve_title, session).next_tab_id == v.next_tab_id + 1,
{
    lemma_add_tab_wf(v, title, preserve_title, session);
    let w = v.add_tab(title, preserve_title, session);
    assert(w.tabs()[w.active] == w.active_tab());
}

/// Identifiers are never reused: a new tab's identifier differs from every
/// tab the window holds, and afterwards all identifiers are still distinct
/// and below the next one to be issued.
pub proof fn lemma_ids_never_reused<S>(v: TabsView<S>, title: String, preserve_title: bool, session: S)
    requires
        v.wf(),
        v.coherent(),
        0 <= v.next_tab_id <= usize::MAX,
    ensures
        forall|i: int| 0 <= i < v.tabs().len() ==> (#[trigger] v.tabs()[i]).id != v.new_tab(title, preserve_title, session).id,
        v.add_tab(title, preserve_title, session).ids_fresh(),
{
    lemma_add_tab_wf(v, title, preserve_title, session);
    assert forall|i: int| 0 <= i < v.tabs().len() implies (#[trigger] v.tabs()[i]).id != v.new_tab(
        title,
        preserve_title,
        session,
    ).id by {
        assert(v.tabs()[i].id.0 < v.next_tab_id);
    }
}

/// Switching, closing, adding and retitling keep the bar in step with the tabs (the highlight on the
/// active tab, each title over its tab) and identifiers unique.
pub proof fn lemma_operations_keep_coherence<S>(v: TabsView<S>, index: int, title: String, preserve_title: bool, session: S)
    requires
        v.wf(),
        v.coherent(),
        0 <= v.next_tab_id <= usize::MAX,
    ensures
        v.switch_to(index).coherent(),
        v.next().coherent(),
        v.prev().coherent(),
        v.close_active().coherent(),
        v.close_background(index).coherent(),
        v.add_tab(title, preserve_title, session).coherent(),
        v.with_active_title(title).coherent(),
        v.follow_title(title).coherent(),
{
    lemma_switch_wf(v, index);
    lemma_switch_wf(v, v.next_index());
    lemma_switch_wf(v, v.prev_index());
    lemma_close_active_wf(v);
    lemma_close_background_wf(v, index);
    lemma_add_tab_wf(v, title, preserve_title, session);
    lemma_retitle_wf(v, title);
}

/// Reading the active title gives back what was last written, and the bar
/// shows it at the active position.
pub proof fn lemma_title_read_after_write<S>(v: TabsView<S>, title: String)
    requires
        v.wf(),
    ensures
        v.with_active_title(title).active_title == title,
        v.with_active_title(title).titles[v.active] == title,
        v.with_active_title(title).follow_title(title) == v.with_active_title(title),
{
}

/// A click on the close button of any background tab, before or after the
/// active one, closes that tab: it is handed back, it and its title leave the
/// list in place, and the active tab stays active.
pub proof fn lemma_click_closes_background_tab<S>(v: TabsView<S>, i: usize)
    requires
        v.wf(),
        i != v.active,
        (i as int) < v.titles.len(),
    ensures
        v.click(TabBarHit::CloseButton(i)).1 == ClickAction::ClosedBackground(v.tabs()[i as int]),
        v.click(TabBarHit::CloseButton(i)).0.tabs() == v.tabs().remove(i as int),
        v.click(TabBarHit::CloseButton(i)).0.titles == v.titles.remove(i as int),
        v.click(TabBarHit::CloseButton(i)).0.active_tab() == v.active_tab(),
        v.click(TabBarHit::CloseButton(i)).0.wf(),
{
    lemma_close_background_wf(v, i as int);
}

/// A click on the active tab's close button closes it when other tabs remain:
/// it is handed back and it and its title leave the list in place. On the last
/// tab nothing changes, and the window is asked to close exactly when the
/// configuration says closing the last tab closes the window.
pub proof fn lemma_click_closes_active_tab<S>(v: TabsView<S>, i: usize)
    requires
        v.wf(),
        i == v.active,
    ensures
        v.titles.len() > 1 ==> {
            &&& v.click(TabBarHit::CloseButton(i)).1 == ClickAction::ClosedActive(
                v.tabs()[v.active],
            )
            &&& v.click(TabBarHit::CloseButton(i)).0.tabs() == v.tabs().remove(v.active)
            &&& v.click(TabBarHit::CloseButton(i)).0.titles == v.titles.remove(v.active)
        },
        v.titles.len() == 1 ==> {
            &&& v.click(TabBarHit::CloseButton(i)).0 == v
            &&& (v.click(TabBarHit::CloseButton(i)).1 == ClickAction::<S>::CloseWindow
                <==> v.config.close_on_last_tab)
            &&& (v.click(TabBarHit::CloseButton(i)).1 == ClickAction::<S>::Ignored
                <==> !v.config.close_on_last_tab)
        },
{
    lemma_close_active_wf(v);
    assert(v.tabs()[v.active] == v.active_tab());
}

/// A click on a close button past the last tab changes nothing.
pub proof fn lemma_click_past_the_end_is_ignored<S>(v: TabsView<S>, i: usize)
    requires
        v.wf(),
        (i as int) >= v.titles.len(),
    ensures
        v.click(TabBarHit::CloseButton(i)) == (v, ClickAction::<S>::Ignored),
{
}

/// A click on a tab selects it: the tab at that position becomes active and
/// highlighted, with every tab and title left in place; a click on "+" only
/// asks for a new tab.
pub proof fn lemma_click_selects_tab<S>(v: TabsView<S>, i: usize)
    requires
        v.wf(),
        (i as int) < v.titles.len(),
    ensures
        v.click(TabBarHit::Tab(i)).1 == ClickAction::<S>::Selected,
        v.click(TabBarHit::Tab(i)).0.active == i,
        v.click(TabBarHit::Tab(i)).0.active_tab() == v.tabs()[i as int],
        v.click(TabBarHit::Tab(i)).0.tabs() == v.tabs(),
        v.click(TabBarHit::Tab(i)).0.titles == v.titles,
        v.click(TabBarHit::NewButton) == (v, ClickAction::<S>::NewTabRequested),
{
    lemma_switch_keeps_tabs_in_place(v, i as int);
}

/// Switching to the active position, or to a position at or past the number
/// of tabs, leaves the whole state unchanged (not even marking it dirty).
pub proof fn lemma_switch_elsewhere_changes_nothing<S>(v: TabsView<S>, index: int)
    requires
        v.wf(),
        index >= v.titles.len() || index == v.active || index < 0,
    ensures
        v.switch_to(index) == v,
{
}

/// Switching to another tab that exists marks the window dirty and highlights
/// that tab.
pub proof fn lemma_switch_to_other_tab<S>(v: TabsView<S>, index: int)
    requires
        v.wf(),
        0 <= index < v.titles.len(),
        index != v.active,
    ensures
        v.switch_to(index).dirty,
        v.switch_to(index).active == index,
        v.switch_to(index).bar_active == index,
        v.switch_to(index).active_tab() == v.tabs()[index],
        v.switch_to(index).next_tab_id == v.next_tab_id,
        v.switch_to(index).config == v.config,
{
    lemma_switch_keeps_tabs_in_place(v, index);
}

/// Next goes one position right, wrapping from the last tab to the first;
/// previous goes one left, wrapping from the first to the last. The tabs and
/// titles stay in place, and a single tab stays put.
pub proof fn lemma_next_prev_positions<S>(v: TabsView<S>)
    requires
        v.wf(),
    ensures
        v.titles.len() > 1 ==> v.next().active == (if v.active == v.titles.len() - 1 { 0 } else { v.active + 1 }),
        v.titles.len() > 1 ==> v.prev().active == (if v.active == 0 { v.titles.len() - 1 } else { v.active - 1 }),
        v.titles.len() > 1 ==> v.next().active_tab() == v.tabs()[v.next().active],
        v.titles.len() > 1 ==> v.prev().active_tab() == v.tabs()[v.prev().active],
        v.next().tabs() == v.tabs() && v.next().titles == v.titles,
        v.prev().tabs() == v.tabs() && v.prev().titles == v.titles,
        v.titles.len() == 1 ==> v.next() == v && v.prev() == v,
{
    let n = v.titles.len() as int;
    if n > 1 {
        assert(v.next_index() == if v.active == n - 1 { 0 } else { v.active + 1 }) by {
            if v.active < n - 1 {
                assert((v.active + 1) % n == v.active + 1) by (nonlinear_arith)
                    requires 0 <= v.active + 1 < n;
            } else {
                assert((v.active + 1) % n == 0) by (nonlinear_arith)
                    requires v.active + 1 == n, n > 0;
            }
        }
        lemma_switch_keeps_tabs_in_place(v, v.next_index());
        lemma_switch_keeps_tabs_in_place(v, v.prev_index());
    }
}

/// Setting the active title changes that title and its bar entry only: every
/// other bar title and every other tab stays as it was.
pub proof fn lemma_set_title_touches_only_active<S>(v: TabsView<S>, title: String)
    requires
        v.wf(),
    ensures
        v.with_active_title(title).active_title == title,
        v.with_active_title(title).titles[v.active] == title,
        v.with_active_title(title).titles.len() == v.titles.len(),
        forall|i: int| 0 <= i < v.titles.len() && i != v.active ==> #[trigger] v.with_active_title(title).titles[i] == v.titles[i],
        forall|i: int| 0 <= i < v.titles.len() && i != v.active ==> #[trigger] v.with_active_title(title).tabs()[i] == v.tabs()[i],
        v.with_active_title(title).active == v.active,
        v.with_active_title(title).session == v.session,
{
    lemma_retitle_wf(v, title);
}

/// The window title is followed exactly when it reads differently from the
/// active title; then it becomes the active title and its bar entry.
pub proof fn lemma_follow_title<S>(v: TabsView<S>, current: String)
    requires
        v.wf(),
    ensures
        current@ == v.active_title@ ==> v.follow_title(current) == v,
        current@ != v.active_title@ ==> v.follow_title(current).active_title == current
            && v.follow_title(current).titles[v.active] == current
            && v.follow_title(current).tabs().len() == v.tabs().len(),
{
    lemma_retitle_wf(v, current);
}

/// A session that keeps its own title never adopts the configured one. One
/// that does not adopts it whenever titles are not dynamic, whatever the
/// window shows, and with dynamic titles exactly when the window still shows
/// the previously configured title.
pub proof fn lemma_config_title_adoption<S>(v: TabsView<S>, dynamic_title: bool, shows_old_title: bool)
    ensures
        v.preserve_title ==> !v.takes_config_title(dynamic_title, shows_old_title),
        !v.preserve_title && !dynamic_title ==> v.takes_config_title(dynamic_title, shows_old_title),
        !v.preserve_title && dynamic_title ==> (v.takes_config_title(dynamic_title, shows_old_title)
            <==> shows_old_title),
{
}

/// A new window holds exactly one tab, active and highlighted, with the given
/// title and session and identifier `0`; the next tab gets identifier `1`,
/// and the bar is in step with the tabs.
pub proof fn lemma_new_window<S>(title: String, preserve_title: bool, session: S, config: TabBarConfig)
    ensures
        TabsView::initial(title, preserve_title, session, config).tabs() == seq![
            Tab { id: TabId(0), title, preserve_title, session },
        ],
        TabsView::initial(title, preserve_title, session, config).titles == seq![title],
        TabsView::initial(title, preserve_title, session, config).active == 0,
        TabsView::initial(title, preserve_title, session, config).bar_active == 0,
        TabsView::initial(title, preserve_title, session, config).next_tab_id == 1,
        TabsView::initial(title, preserve_title, session, config).config == config,
        TabsView::initial(title, preserve_title, session, config).wf(),
        TabsView::initial(title, preserve_title, session, config).coherent(),
{
    let v = TabsView::initial(title, preserve_title, session, config);
    assert(v.tabs() =~= seq![Tab { id: TabId(0), title, preserve_title, session }]);
}

/// Every change to the tabs marks the window for redrawing and leaves the
/// configuration and the identifier counter alone (adding a tab advances the
/// counter by one).
pub proof fn lemma_changes_mark_dirty<S>(v: TabsView<S>, index: int, title: String, preserve_title: bool, session: S)
    requires
        v.wf(),
    ensures
        v.titles.len() > 1 ==> v.close_active().dirty && v.close_active().config == v.config
            && v.close_active().next_tab_id == v.next_tab_id,
        v.can_close_background(index) ==> v.close_background(index).dirty
            && v.close_background(index).config == v.config
            && v.close_background(index).next_tab_id == v.next_tab_id,
        v.add_tab(title, preserve_title, session).dirty,
        v.add_tab(title, preserve_title, session).config == v.config,
        v.add_tab(title, preserve_title, session).next_tab_id == v.next_tab_id + 1,
{
}

} // verus!
