//! The tab lifecycle of one terminal window: creating, switching and closing
//! tabs, and keeping the tab bar's titles and highlight in step.
//!
//! The window holds a logical list of tabs, one bar title per position. The
//! active tab's state lives inline in the window; background tabs are kept in
//! list order, skipping the active position. Switching swaps state in place,
//! so no session is rebuilt and no tab moves.

use vstd::prelude::*;

use crate::config::TabBarConfig;
use crate::tab::{Tab, TabBar, TabBarHit, TabId};

verus! {

/// What a click on the tab bar asks of the surrounding window.
pub enum ClickAction<S> {
    /// A tab was selected (switched to, unless it was already active or absent).
    Selected,
    /// The active tab was closed; its session is handed back to be shut down.
    ClosedActive(Tab<S>),
    /// A background tab was closed; its session is handed back to be shut down.
    ClosedBackground(Tab<S>),
    /// The last tab's close button was clicked: the window should close.
    CloseWindow,
    /// Nothing to do.
    Ignored,
    /// The "+" button was clicked: a new tab should be created.
    NewTabRequested,
}

/// The abstract state of a window's tabs.
///
/// The window holds a logical list of tabs (see `tabs`): the active tab's
/// state is kept in the window itself, the others in `inactive`, in list order
/// without the active position. The bar shows one title per list position.
pub struct TabsView<S> {
    /// Configuration of the tab bar.
    pub config: TabBarConfig,
    /// Titles shown on the tab bar, one per list position.
    pub titles: Seq<String>,
    /// Position the tab bar highlights as active.
    pub bar_active: int,
    /// Position of the active tab in the list.
    pub active: int,
    /// Identifier of the active tab.
    pub active_id: TabId,
    /// Title of the active tab's session.
    pub active_title: String,
    /// Whether the active session keeps its title against terminal updates.
    pub preserve_title: bool,
    /// The active tab's session.
    pub session: S,
    /// Background tabs, in list order without the active position.
    pub inactive: Seq<Tab<S>>,
    /// The identifier the next new tab receives.
    pub next_tab_id: int,
    /// Whether the window needs redrawing.
    pub dirty: bool,
}

impl<S> TabsView<S> {
    /// One title per tab, one background entry for every tab but the active
    /// one, and the active position inside the list.
    pub open spec fn wf(self) -> bool {
        &&& self.titles.len() == self.inactive.len() + 1
        &&& 0 <= self.active < self.titles.len()
    }

    /// The active tab as a tab.
    pub open spec fn active_tab(self) -> Tab<S> {
        Tab {
            id: self.active_id,
            title: self.active_title,
            preserve_title: self.preserve_title,
            session: self.session,
        }
    }

    /// The logical tab list: the background tabs with the active tab at its
    /// position.
    pub open spec fn tabs(self) -> Seq<Tab<S>> {
        self.inactive.insert(self.active, self.active_tab())
    }

    /// The tab bar highlights the active tab.
    pub open spec fn synced(self) -> bool {
        self.bar_active == self.active
    }

    /// Every bar title is the title of the tab at its position.
    pub open spec fn titled(self) -> bool {
        forall|i: int| 0 <= i < self.titles.len() ==> #[trigger] self.titles[i] == self.tabs()[i].title
    }

    /// Tab identifiers are distinct and were all issued before `next_tab_id`.
    pub open spec fn ids_fresh(self) -> bool {
        &&& forall|i: int| 0 <= i < self.tabs().len() ==> (#[trigger] self.tabs()[i]).id.0 < self.next_tab_id
        &&& forall|i: int, j: int|
            0 <= i < j < self.tabs().len() ==> (#[trigger] self.tabs()[i]).id != (#[trigger] self.tabs()[j]).id
    }

    /// The bar is in step with the tabs and identifiers are never reused.
    pub open spec fn coherent(self) -> bool {
        &&& self.synced()
        &&& self.titled()
        &&& self.ids_fresh()
    }

    /// A window holding just one tab, with identifier `0`.
    pub open spec fn initial(title: String, preserve_title: bool, session: S, config: TabBarConfig) -> TabsView<S> {
        TabsView {
            config,
            titles: seq![title],
            bar_active: 0,
            active: 0,
            active_id: TabId(0),
            active_title: title,
            preserve_title,
            session,
            inactive: Seq::empty(),
            next_tab_id: 1,
            dirty: true,
        }
    }

    /// The list `tabs` with its tab at position `k` in the foreground (and
    /// highlighted on the bar), the others in the background.
    pub open spec fn bring_forward(self, tabs: Seq<Tab<S>>, k: int) -> TabsView<S> {
        TabsView {
            active: k,
            bar_active: k,
            active_id: tabs[k].id,
            active_title: tabs[k].title,
            preserve_title: tabs[k].preserve_title,
            session: tabs[k].session,
            inactive: tabs.remove(k),
            ..self
        }
    }

    /// Bring the tab at position `index` to the foreground. Out-of-range
    /// positions and the active position change nothing. The list and the bar
    /// titles stay as they are; only which tab is active changes.
    pub open spec fn switch_to(self, index: int) -> TabsView<S> {
        if index < 0 || index >= self.titles.len() || index == self.active {
            self
        } else {
            TabsView { dirty: true, ..self.bring_forward(self.tabs(), index) }
        }
    }

    /// The position after the active one, wrapping to the first.
    pub open spec fn next_index(self) -> int {
        (self.active + 1) % (self.titles.len() as int)
    }

    /// The position before the active one, wrapping to the last.
    pub open spec fn prev_index(self) -> int {
        if self.active == 0 {
            self.titles.len() - 1
        } else {
            self.active - 1
        }
    }

    /// Switch to the next tab, wrapping around; a single tab stays put.
    pub open spec fn next(self) -> TabsView<S> {
        if self.titles.len() > 1 {
            self.switch_to(self.next_index())
        } else {
            self
        }
    }

    /// Switch to the previous tab, wrapping around; a single tab stays put.
    pub open spec fn prev(self) -> TabsView<S> {
        if self.titles.len() > 1 {
            self.switch_to(self.prev_index())
        } else {
            self
        }
    }

    /// The tab handed back when the active tab closes: the active tab itself.
    pub open spec fn closed_tab(self) -> Tab<S> {
        self.active_tab()
    }

    /// Close the active tab. The last remaining tab is never closed. Otherwise
    /// the tab and its bar title leave the list, the order of the rest is kept,
    /// and the tab now at the active position comes forward (the new last tab
    /// when the closed one was last).
    pub open spec fn close_active(self) -> TabsView<S> {
        if self.inactive.len() == 0 {
            self
        } else {
            let rest = self.tabs().remove(self.active);
            let k = if self.active >= rest.len() {
                rest.len() - 1
            } else {
                self.active
            };
            TabsView { titles: self.titles.remove(self.active), dirty: true, ..self.bring_forward(rest, k) }
        }
    }

    /// A background tab at position `index` exists to be closed.
    pub open spec fn can_close_background(self, index: int) -> bool {
        &&& index != self.active
        &&& 0 <= index < self.titles.len()
    }

    /// Close the background tab at position `index`: it and its bar title
    /// leave the list, the order of the rest is kept, and the active tab stays
    /// active (its position shifts down when it lay after the closed one).
    pub open spec fn close_background(self, index: int) -> TabsView<S> {
        if !self.can_close_background(index) {
            self
        } else {
            let rest = self.tabs().remove(index);
            let k = if self.active > index {
                self.active - 1
            } else {
                self.active
            };
            TabsView { titles: self.titles.remove(index), dirty: true, ..self.bring_forward(rest, k) }
        }
    }

    /// The tab a new session becomes: it receives the next identifier.
    pub open spec fn new_tab(self, title: String, preserve_title: bool, session: S) -> Tab<S> {
        Tab { id: TabId(self.next_tab_id as usize), title, preserve_title, session }
    }

    /// Append a new tab at the end of the list and the bar, and switch to it.
    pub open spec fn add_tab(self, title: String, preserve_title: bool, session: S) -> TabsView<S> {
        let all = self.tabs().push(self.new_tab(title, preserve_title, session));
        TabsView {
            titles: self.titles.push(title),
            next_tab_id: self.next_tab_id + 1,
            dirty: true,
            ..self.bring_forward(all, self.titles.len() as int)
        }
    }

    /// Set the active title and its bar entry.
    pub open spec fn with_active_title(self, title: String) -> TabsView<S> {
        TabsView {
            active_title: title,
            titles: self.titles.update(self.active, title),
            ..self
        }
    }

    /// Follow the window title: when it differs from the active title, it
    /// becomes the active title and its bar entry.
    pub open spec fn follow_title(self, current: String) -> TabsView<S> {
        if current@ == self.active_title@ {
            self
        } else {
            self.with_active_title(current)
        }
    }

    /// The active session adopts the configured title unless it preserves its
    /// own, and only when titles are not dynamic or the window still shows the
    /// previously configured title.
    pub open spec fn takes_config_title(self, dynamic_title: bool, shows_old_title: bool) -> bool {
        !self.preserve_title && (!dynamic_title || shows_old_title)
    }

    /// The effect of a click on the tab bar, and what it asks of the window.
    pub open spec fn click(self, hit: TabBarHit) -> (TabsView<S>, ClickAction<S>) {
        match hit {
            TabBarHit::Tab(i) => (self.switch_to(i as int), ClickAction::Selected),
            TabBarHit::CloseButton(i) => {
                if i == self.active {
                    if self.inactive.len() == 0 {
                        (
                            self,
                            if self.config.close_on_last_tab {
                                ClickAction::CloseWindow
                            } else {
                                ClickAction::Ignored
                            },
                        )
                    } else {
                        (self.close_active(), ClickAction::ClosedActive(self.closed_tab()))
                    }
                } else if self.can_close_background(i as int) {
                    (
                        self.close_background(i as int),
                        ClickAction::ClosedBackground(self.tabs()[i as int]),
                    )
                } else {
                    (self, ClickAction::Ignored)
                }
            },
            TabBarHit::NewButton => (self, ClickAction::NewTabRequested),
        }
    }
}

/// Bringing forward a tab of a list leaves that list as the window's list.
pub proof fn lemma_bring_forward_tabs<S>(v: TabsView<S>, tabs: Seq<Tab<S>>, k: int)
    requires
        0 <= k < tabs.len(),
    ensures
        v.bring_forward(tabs, k).tabs() == tabs,
{
    assert(v.bring_forward(tabs, k).tabs() =~= tabs);
}

/// Bringing forward the active tab of the window's own list changes nothing
/// but the bar highlight.
pub proof fn lemma_bring_forward_self<S>(v: TabsView<S>)
    requires
        v.wf(),
    ensures
        v.bring_forward(v.tabs(), v.active) == (TabsView { bar_active: v.active, ..v }),
{
    assert(v.tabs().remove(v.active) =~= v.inactive);
}

/// Moving the active position over a list with the same length and titles
/// keeps the window well formed and its bar in step.
proof fn lemma_bring_forward_coherent<S>(v: TabsView<S>, tabs: Seq<Tab<S>>, titles: Seq<String>, k: int, next: int)
    requires
        0 <= k < tabs.len(),
        titles.len() == tabs.len(),
        forall|i: int| 0 <= i < titles.len() ==> #[trigger] titles[i] == tabs[i].title,
        forall|i: int| 0 <= i < tabs.len() ==> (#[trigger] tabs[i]).id.0 < next,
        forall|i: int, j: int| 0 <= i < j < tabs.len() ==> (#[trigger] tabs[i]).id != (#[trigger] tabs[j]).id,
    ensures
        (TabsView { titles, next_tab_id: next, ..v.bring_forward(tabs, k) }).wf(),
        (TabsView { titles, next_tab_id: next, ..v.bring_forward(tabs, k) }).coherent(),
        (TabsView { titles, next_tab_id: next, ..v.bring_forward(tabs, k) }).tabs() == tabs,
{
    let w = TabsView { titles, next_tab_id: next, ..v.bring_forward(tabs, k) };
    assert(w.tabs() =~= tabs);
}

/// Switching keeps the state well formed, keeps the tab list and the bar
/// titles, and keeps the bar in step with the tabs.
pub proof fn lemma_switch_wf<S>(v: TabsView<S>, index: int)
    requires
        v.wf(),
    ensures
        v.switch_to(index).wf(),
        v.switch_to(index).tabs() == v.tabs(),
        v.switch_to(index).titles == v.titles,
        v.coherent() ==> v.switch_to(index).coherent(),
{
    if 0 <= index < v.titles.len() && index != v.active {
        lemma_bring_forward_tabs(v, v.tabs(), index);
        if v.coherent() {
            lemma_bring_forward_coherent(v, v.tabs(), v.titles, index, v.next_tab_id);
        }
    }
}

/// Closing the active tab keeps the state well formed and the bar in step; a
/// closed tab leaves the list and the bar in order, and the tab now at the
/// active position (or the new last one) becomes active.
pub proof fn lemma_close_active_wf<S>(v: TabsView<S>)
    requires
        v.wf(),
    ensures
        v.close_active().wf(),
        v.coherent() ==> v.close_active().coherent(),
        v.inactive.len() > 0 ==> {
            &&& v.close_active().tabs() == v.tabs().remove(v.active)
            &&& v.close_active().titles == v.titles.remove(v.active)
            &&& v.close_active().active == if v.active < v.titles.len() - 1 {
                v.active
            } else {
                v.titles.len() - 2
            }
        },
{
    if v.inactive.len() > 0 {
        let rest = v.tabs().remove(v.active);
        let k = if v.active >= rest.len() { rest.len() - 1 } else { v.active };
        lemma_bring_forward_tabs(v, rest, k);
        if v.coherent() {
            let titles = v.titles.remove(v.active);
            assert forall|i: int| 0 <= i < titles.len() implies #[trigger] titles[i] == rest[i].title by {
                if i < v.active {
                    assert(titles[i] == v.titles[i]);
                } else {
                    assert(titles[i] == v.titles[i + 1]);
                }
            }
            assert forall|i: int, j: int| 0 <= i < j < rest.len() implies (#[trigger] rest[i]).id != (#[trigger] rest[j]).id by {
                let ii = if i < v.active { i } else { i + 1 };
                let jj = if j < v.active { j } else { j + 1 };
                assert(rest[i] == v.tabs()[ii]);
                assert(rest[j] == v.tabs()[jj]);
            }
            assert forall|i: int| 0 <= i < rest.len() implies (#[trigger] rest[i]).id.0 < v.next_tab_id by {
                let ii = if i < v.active { i } else { i + 1 };
                assert(rest[i] == v.tabs()[ii]);
            }
            lemma_bring_forward_coherent(v, rest, titles, k, v.next_tab_id);
        }
    }
}

/// Closing a background tab keeps the state well formed and the bar in step;
/// the closed tab leaves the list and the bar in order, and the active tab
/// stays active.
pub proof fn lemma_close_background_wf<S>(v: TabsView<S>, index: int)
    requires
        v.wf(),
    ensures
        v.close_background(index).wf(),
        v.coherent() ==> v.close_background(index).coherent(),
        v.can_close_background(index) ==> {
            &&& v.close_background(index).tabs() == v.tabs().remove(index)
            &&& v.close_background(index).titles == v.titles.remove(index)
            &&& v.close_background(index).active_tab() == v.active_tab()
        },
{
    if v.can_close_background(index) {
        let rest = v.tabs().remove(index);
        let k = if v.active > index { v.active - 1 } else { v.active };
        lemma_bring_forward_tabs(v, rest, k);
        assert(rest[k] == v.tabs()[v.active]);
        if v.coherent() {
            let titles = v.titles.remove(index);
            assert forall|i: int| 0 <= i < titles.len() implies #[trigger] titles[i] == rest[i].title by {
                if i < index {
                    assert(titles[i] == v.titles[i]);
                } else {
                    assert(titles[i] == v.titles[i + 1]);
                }
            }
            assert forall|i: int, j: int| 0 <= i < j < rest.len() implies (#[trigger] rest[i]).id != (#[trigger] rest[j]).id by {
                let ii = if i < index { i } else { i + 1 };
                let jj = if j < index { j } else { j + 1 };
                assert(rest[i] == v.tabs()[ii]);
                assert(rest[j] == v.tabs()[jj]);
            }
            assert forall|i: int| 0 <= i < rest.len() implies (#[trigger] rest[i]).id.0 < v.next_tab_id by {
                let ii = if i < index { i } else { i + 1 };
                assert(rest[i] == v.tabs()[ii]);
            }
            lemma_bring_forward_coherent(v, rest, titles, k, v.next_tab_id);
        }
    }
}

/// Adding a tab keeps the state well formed and the bar in step; the new tab,
/// with a fresh identifier, is appended to the list and the bar and becomes
/// active.
pub proof fn lemma_add_tab_wf<S>(v: TabsView<S>, title: String, preserve_title: bool, session: S)
    requires
        v.wf(),
        0 <= v.next_tab_id <= usize::MAX,
    ensures
        v.add_tab(title, preserve_title, session).wf(),
        v.add_tab(title, preserve_title, session).tabs() == v.tabs().push(v.new_tab(title, preserve_title, session)),
        v.add_tab(title, preserve_title, session).titles == v.titles.push(title),
        v.add_tab(title, preserve_title, session).active == v.titles.len(),
        v.coherent() ==> v.add_tab(title, preserve_title, session).coherent(),
{
    let t = v.new_tab(title, preserve_title, session);
    let all = v.tabs().push(t);
    lemma_bring_forward_tabs(v, all, v.titles.len() as int);
    if v.coherent() {
        let titles = v.titles.push(title);
        assert forall|i: int| 0 <= i < titles.len() implies #[trigger] titles[i] == all[i].title by {
            if i < v.titles.len() {
                assert(titles[i] == v.titles[i]);
            }
        }
        assert forall|i: int| 0 <= i < all.len() implies (#[trigger] all[i]).id.0 < v.next_tab_id + 1 by {
            if i < v.tabs().len() {
                assert(all[i] == v.tabs()[i]);
            }
        }
        assert forall|i: int, j: int| 0 <= i < j < all.len() implies (#[trigger] all[i]).id != (#[trigger] all[j]).id by {
            assert(all[i] == v.tabs()[i]);
            if j < v.tabs().len() {
                assert(all[j] == v.tabs()[j]);
            }
        }
        lemma_bring_forward_coherent(v, all, titles, v.titles.len() as int, v.next_tab_id + 1);
    }
}

/// Retitling the active tab keeps the state well formed and the bar in step;
/// only the active tab's title changes in the list.
pub proof fn lemma_retitle_wf<S>(v: TabsView<S>, title: String)
    requires
        v.wf(),
    ensures
        v.with_active_title(title).wf(),
        v.with_active_title(title).tabs() == v.tabs().update(v.active, Tab { title, ..v.active_tab() }),
        v.coherent() ==> v.with_active_title(title).coherent(),
{
    let w = v.with_active_title(title);
    assert(w.tabs() =~= v.tabs().update(v.active, Tab { title, ..v.active_tab() }));
    if v.coherent() {
        assert forall|i: int| 0 <= i < w.titles.len() implies #[trigger] w.titles[i] == w.tabs()[i].title by {
            if i != v.active {
                assert(w.titles[i] == v.titles[i]);
                assert(w.tabs()[i] == v.tabs()[i]);
            }
        }
        assert forall|i: int| 0 <= i < w.tabs().len() implies (#[trigger] w.tabs()[i]).id.0 < w.next_tab_id by {
            assert(w.tabs()[i].id == v.tabs()[i].id);
        }
        assert forall|i: int, j: int| 0 <= i < j < w.tabs().len() implies (#[trigger] w.tabs()[i]).id != (#[trigger] w.tabs()[j]).id by {
            assert(w.tabs()[i].id == v.tabs()[i].id);
            assert(w.tabs()[j].id == v.tabs()[j].id);
        }
    }
}

/// Tab-management state of one terminal window.
pub struct WindowContext<S> {
    pub dirty: bool,
    pub tab_bar: TabBar,
    /// Per-tab state for the currently active tab.
    active_id: TabId,
    session: S,
    preserve_title: bool,
    active_title: String,
    /// Inactive tabs (background sessions), in list order without the active
    /// position.
    inactive_tabs: Vec<Tab<S>>,
    /// Index of the active tab in the logical tab list.
    active_tab_index: usize,
    next_tab_id: usize,
}

impl<S> View for WindowContext<S> {
    type V = TabsView<S>;

    closed spec fn view(&self) -> TabsView<S> {
        TabsView {
            config: self.tab_bar.config,
            titles: self.tab_bar.titles@,
            bar_active: self.tab_bar.active_index as int,
            active: self.active_tab_index as int,
            active_id: self.active_id,
            active_title: self.active_title,
            preserve_title: self.preserve_title,
            session: self.session,
            inactive: self.inactive_tabs@,
            next_tab_id: self.next_tab_id as int,
            dirty: self.dirty,
        }
    }
}

impl<S> WindowContext<S> {
    /// Create the tab state of a new window around its first tab's session,
    /// which receives identifier `0`.
    pub fn new(title: String, preserve_title: bool, session: S, config: TabBarConfig) -> (ctx: Self)
        ensures
            ctx@ == TabsView::initial(title, preserve_title, session, config),
            ctx@.wf(),
            ctx@.coherent(),
    {
        let mut tab_bar = TabBar::new(config);
        tab_bar.titles.push(title.clone());
        let ctx = WindowContext {
            dirty: true,
            tab_bar,
            active_id: TabId(0),
            session,
            preserve_title,
            active_title: title,
            inactive_tabs: Vec::new(),
            active_tab_index: 0,
            next_tab_id: 1,
        };
        assert(ctx@.titles =~= seq![title]);
        assert(ctx@.tabs() =~= seq![ctx@.active_tab()]);
        ctx
    }

    /// Switch to the tab at the given logical index.
    pub fn switch_tab(&mut self, index: usize)
        requires
            old(self)@.wf(),
        ensures
            final(self)@ == old(self)@.switch_to(index as int),
            final(self)@.wf(),
            old(self)@.coherent() ==> final(self)@.coherent(),
    {
        proof {
            lemma_switch_wf(self@, index as int);
        }
        let total = self.tab_bar.titles.len();
        if index >= total || index == self.active_tab_index {
            return;
        }
        let active = self.active_tab_index;
        let vec_index = if index > active {
            index - 1
        } else {
            index
        };
        let ghost pre = self@;
        let ghost list = pre.tabs();

        let mut target = self.inactive_tabs.remove(vec_index);
        std::mem::swap(&mut self.active_id, &mut target.id);
        std::mem::swap(&mut self.session, &mut target.session);
        std::mem::swap(&mut self.preserve_title, &mut target.preserve_title);
        std::mem::swap(&mut self.active_title, &mut target.title);
        // The outgoing tab returns to its own place in the list.
        let back = if active < index {
            active
        } else {
            active - 1
        };
        self.inactive_tabs.insert(back, target);

        self.active_tab_index = index;
        self.tab_bar.active_index = index;
        self.dirty = true;
        assert(list[index as int] == pre.inactive[vec_index as int]);
        assert(self.inactive_tabs@ =~= list.remove(index as int));
    }

    /// Switch to the next tab (wraps around).
    pub fn next_tab(&mut self)
        requires
            old(self)@.wf(),
        ensures
            final(self)@ == old(self)@.next(),
            final(self)@.wf(),
            old(self)@.coherent() ==> final(self)@.coherent(),
    {
        let total = self.tab_bar.titles.len();
        if total > 1 {
            let next = (self.active_tab_index + 1) % total;
            self.switch_tab(next);
        }
    }

    /// Switch to the previous tab (wraps around).
    pub fn prev_tab(&mut self)
        requires
            old(self)@.wf(),
        ensures
            final(self)@ == old(self)@.prev(),
            final(self)@.wf(),
            old(self)@.coherent() ==> final(self)@.coherent(),
    {
        let total = self.tab_bar.titles.len();
        if total > 1 {
            let prev = if self.active_tab_index == 0 {
                total - 1
            } else {
                self.active_tab_index - 1
            };
            self.switch_tab(prev);
        }
    }

    /// Swap the active tab's state with an incoming tab; the outgoing tab is
    /// returned.
    fn swap_active_with(&mut self, incoming: Tab<S>) -> (outgoing: Tab<S>)
        ensures
            outgoing == old(self)@.active_tab(),
            final(self)@ == (TabsView {
                active_id: incoming.id,
                session: incoming.session,
                active_title: incoming.title,
                preserve_title: incoming.preserve_title,
                ..old(self)@
            }),
    {
        let mut incoming = incoming;
        std::mem::swap(&mut self.active_id, &mut incoming.id);
        std::mem::swap(&mut self.session, &mut incoming.session);
        std::mem::swap(&mut self.preserve_title, &mut incoming.preserve_title);
        std::mem::swap(&mut self.active_title, &mut incoming.title);
        incoming
    }

    /// Close the currently active tab.
    ///
    /// Returns the closed tab (for its session to be shut down), or `None`
    /// when it is the last remaining tab, which cannot be closed.
    pub fn close_active_tab(&mut self) -> (closed: Option<Tab<S>>)
        requires
            old(self)@.wf(),
        ensures
            final(self)@ == old(self)@.close_active(),
            closed == if old(self)@.inactive.len() == 0 {
                None
            } else {
                Some(old(self)@.closed_tab())
            },
            final(self)@.wf(),
            old(self)@.coherent() ==> final(self)@.coherent(),
    {
        proof {
            lemma_close_active_wf(self@);
        }
        if self.inactive_tabs.len() == 0 && self.tab_bar.titles.len() <= 1 {
            return None;
        }
        let ghost pre = self@;
        let removed_index = self.active_tab_index;
        self.tab_bar.titles.remove(removed_index);
        if self.active_tab_index >= self.tab_bar.titles.len() {
            self.active_tab_index = self.tab_bar.titles.len().saturating_sub(1);
        }
        // The background list is the tab list without the closed tab; the tab
        // now at the active position comes forward.
        assert(pre.tabs().remove(removed_index as int) =~= pre.inactive);
        let incoming = self.inactive_tabs.remove(self.active_tab_index);
        let outgoing = self.swap_active_with(incoming);
        self.tab_bar.active_index = self.active_tab_index;
        self.dirty = true;
        Some(outgoing)
    }

    /// Close the background tab at position `index`, returning it.
    fn close_background_tab(&mut self, index: usize) -> (closed: Option<Tab<S>>)
        requires
            old(self)@.wf(),
            index != old(self)@.active,
        ensures
            final(self)@ == old(self)@.close_background(index as int),
            closed == if old(self)@.can_close_background(index as int) {
                Some(old(self)@.tabs()[index as int])
            } else {
                None
            },
            final(self)@.wf(),
            old(self)@.coherent() ==> final(self)@.coherent(),
    {
        proof {
            lemma_close_background_wf(self@, index as int);
        }
        let ghost pre = self@;
        let vec_index = if index > self.active_tab_index {
            index - 1
        } else {
            index
        };
        if vec_index < self.inactive_tabs.len() {
            let tab = self.inactive_tabs.remove(vec_index);
            self.tab_bar.titles.remove(index);
            if self.active_tab_index > index {
                self.active_tab_index -= 1;
            }
            self.tab_bar.active_index = self.active_tab_index;
            self.dirty = true;
            proof {
                let rest = pre.tabs().remove(index as int);
                assert(self.inactive_tabs@ =~= rest.remove(self.active_tab_index as int));
                assert(rest[self.active_tab_index as int] == pre.active_tab());
            }
            Some(tab)
        } else {
            None
        }
    }

    /// Handle a click on the tab bar: switch to a clicked tab, close a tab
    /// whose close button was clicked (asking for the window to close when it
    /// is the last tab and the configuration says so), or ask for a new tab.
    pub fn handle_tab_bar_click(&mut self, hit: TabBarHit) -> (action: ClickAction<S>)
        requires
            old(self)@.wf(),
        ensures
            (final(self)@, action) == old(self)@.click(hit),
            final(self)@.wf(),
            old(self)@.coherent() ==> final(self)@.coherent(),
    {
        match hit {
            TabBarHit::Tab(index) => {
                self.switch_tab(index);
                ClickAction::Selected
            },
            TabBarHit::CloseButton(index) => {
                if index == self.active_tab_index {
                    match self.close_active_tab() {
                        Some(tab) => ClickAction::ClosedActive(tab),
                        None => {
                            if self.tab_bar.config.close_on_last_tab {
                                ClickAction::CloseWindow
                            } else {
                                ClickAction::Ignored
                            }
                        },
                    }
                } else {
                    match self.close_background_tab(index) {
                        Some(tab) => ClickAction::ClosedBackground(tab),
                        None => ClickAction::Ignored,
                    }
                }
            },
            TabBarHit::NewButton => ClickAction::NewTabRequested,
        }
    }

    /// The identifier the next new tab receives.
    pub fn next_tab_id(&self) -> (id: usize)
        ensures
            id == self@.next_tab_id,
    {
        self.next_tab_id
    }

    /// Create a new tab in this window from a freshly built session (its
    /// title, whether it preserves its title, and its state), append it to the
    /// list and the bar, and switch to it. An identifier is used up whether or
    /// not the session could be built; a build error is handed back.
    pub fn create_new_tab<E>(&mut self, built: Result<(String, bool, S), E>) -> (result: Result<(), E>)
        requires
            old(self)@.wf(),
            old(self)@.next_tab_id < usize::MAX,
        ensures
            final(self)@.wf(),
            old(self)@.coherent() ==> final(self)@.coherent(),
            match built {
                Ok(b) => final(self)@ == old(self)@.add_tab(b.0, b.1, b.2) && result is Ok,
                Err(e) => final(self)@ == (TabsView { next_tab_id: old(self)@.next_tab_id + 1, ..old(self)@ })
                    && result == Err::<(), E>(e),
            },
    {
        let tab_id = TabId(self.next_tab_id);
        self.next_tab_id += 1;
        let (title, preserve_title, session) = match built {
            Ok(b) => b,
            Err(e) => return Err(e),
        };
        proof {
            lemma_add_tab_wf(old(self)@, title, preserve_title, session);
        }
        let ghost pre = self@;
        let target_index = self.tab_bar.titles.len();
        self.tab_bar.titles.push(title.clone());
        self.inactive_tabs.push(Tab { id: tab_id, title, preserve_title, session });
        assert(self@.tabs() =~= pre.tabs().push(old(self)@.new_tab(title, preserve_title, session)));
        self.switch_tab(target_index);
        self.dirty = true;
        Ok(())
    }

    pub fn active_title(&self) -> (title: &str)
        ensures
            title@ == self@.active_title@,
    {
        self.active_title.as_str()
    }

    pub fn tab_count(&self) -> (count: usize)
        ensures
            count == self@.titles.len(),
    {
        self.tab_bar.titles.len()
    }

    pub fn set_active_title(&mut self, title: String)
        requires
            old(self)@.wf(),
        ensures
            final(self)@ == old(self)@.with_active_title(title),
            final(self)@.wf(),
            old(self)@.coherent() ==> final(self)@.coherent(),
    {
        proof {
            lemma_retitle_wf(self@, title);
        }
        self.active_title = title.clone();
        self.tab_bar.titles[self.active_tab_index] = title;
    }

    /// Make the window title the active tab's title when it changed.
    pub fn follow_window_title(&mut self, current_title: String)
        requires
            old(self)@.wf(),
        ensures
            final(self)@ == old(self)@.follow_title(current_title),
            final(self)@.wf(),
            old(self)@.coherent() ==> final(self)@.coherent(),
    {
        proof {
            lemma_retitle_wf(self@, current_title);
        }
        if current_title != self.active_title {
            self.tab_bar.titles[self.active_tab_index] = current_title.clone();
            self.active_title = current_title;
        }
    }

    /// Adopt the configured window title after a configuration change, unless
    /// the active session preserves its own title or titles are dynamic and the
    /// window no longer shows the previously configured one. Only the active
    /// title changes; the bar titles stay as they are. Returns whether the
    /// title was adopted (and the window should show it).
    pub fn adopt_config_title(
        &mut self,
        config_title: String,
        dynamic_title: bool,
        shows_old_title: bool,
    ) -> (adopted: bool)
        ensures
            adopted == old(self)@.takes_config_title(dynamic_title, shows_old_title),
            final(self)@ == if adopted {
                TabsView { active_title: config_title, ..old(self)@ }
            } else {
                old(self)@
            },
    {
        if !self.preserve_title && (!dynamic_title || shows_old_title) {
            self.active_title = config_title;
            true
        } else {
            false
        }
    }

    pub fn tab_bar(&self) -> (bar: &TabBar)
        ensures
            bar.config == self@.config,
            bar.titles@ == self@.titles,
            bar.active_index == self@.bar_active,
    {
        &self.tab_bar
    }

    pub fn tab_bar_mut(&mut self) -> (bar: &mut TabBar)
        ensures
            bar.config == old(self)@.config,
            bar.titles@ == old(self)@.titles,
            bar.active_index == old(self)@.bar_active,
            final(self)@ == (TabsView {
                config: final(bar).config,
                titles: final(bar).titles@,
                bar_active: final(bar).active_index as int,
                ..old(self)@
            }),
    {
        &mut self.tab_bar
    }

    /// The active tab's identifier.
    pub fn active_id(&self) -> (id: TabId)
        ensures
            id == self@.active_id,
    {
        self.active_id
    }

    /// The active tab's session.
    pub fn session(&self) -> (session: &S)
        ensures
            *session == self@.session,
    {
        &self.session
    }

    /// The active tab's session, for updating in place.
    pub fn session_mut(&mut self) -> (session: &mut S)
        ensures
            *session == old(self)@.session,
            final(self)@ == (TabsView { session: *final(session), ..old(self)@ }),
    {
        &mut self.session
    }

    /// Whether the active session keeps its title against terminal updates.
    pub fn preserve_title(&self) -> (preserve: bool)
        ensures
            preserve == self@.preserve_title,
    {
        self.preserve_title
    }

    /// The background tabs, in list order without the active position.
    pub fn inactive_tabs(&self) -> (tabs: &Vec<Tab<S>>)
        ensures
            tabs@ == self@.inactive,
    {
        &self.inactive_tabs
    }
}

} // verus!
