use vstd::prelude::*;

verus! {

/// One tab: an owned rendering surface, the URL it last asked for, and the
/// fencing counter of its navigations.
pub struct Tab<S> {
    pub id: usize,
    pub surface: S,
    pub url: String,
    pub generation: u64,
}

/// What a caller needs to start the content pipeline for a navigation and to
/// recognise its result later.
pub struct NavigationRequest {
    pub tab_id: usize,
    pub url: String,
    pub generation: u64,
}

/// `switch_active` was given an index past the last tab.
#[derive(Debug, Clone, Copy, PartialEq, Eq, Structural)]
pub struct IndexError {
    pub index: usize,
    pub len: usize,
}

/// No tab carries the given id.
#[derive(Debug, Clone, Copy, PartialEq, Eq, Structural)]
pub struct LookupError {
    pub tab_id: usize,
}

/// The abstract state of a session: its tabs in creation order and the index
/// of the active one.
pub struct SessionView<S> {
    pub tabs: Seq<Tab<S>>,
    pub active: int,
}

impl<S> SessionView<S> {
    /// Tabs exist, the active index points at one of them, and each tab's id
    /// is its position (tabs are only ever appended).
    pub open spec fn wf(self) -> bool {
        &&& 0 < self.tabs.len()
        &&& 0 <= self.active < self.tabs.len()
        &&& forall|i: int| 0 <= i < self.tabs.len() ==> (#[trigger] self.tabs[i]).id == i
    }

    pub open spec fn has_tab(self, tab_id: int) -> bool {
        0 <= tab_id < self.tabs.len()
    }

    /// The staleness guard: a result tagged `(tab_id, generation)` is current
    /// only while that tab exists and has issued no later navigation.
    pub open spec fn is_current(self, tab_id: int, generation: u64) -> bool {
        self.has_tab(tab_id) && self.tabs[tab_id].generation == generation
    }

    /// The tab after one more navigation to `url`.
    pub open spec fn navigated(tab: Tab<S>, url: String) -> Tab<S> {
        Tab { id: tab.id, surface: tab.surface, url: url, generation: (tab.generation + 1) as u64 }
    }

    /// `after` and `req` are what a navigation of tab `tab_id` to `url` makes
    /// of this session.
    pub open spec fn navigation_step(
        self,
        tab_id: int,
        url: String,
        after: Self,
        req: NavigationRequest,
    ) -> bool {
        &&& self.has_tab(tab_id)
        &&& req.tab_id == tab_id
        &&& req.url == url
        &&& req.generation == self.tabs[tab_id].generation + 1
        &&& after.tabs == self.tabs.update(tab_id, Self::navigated(self.tabs[tab_id], url))
        &&& after.active == self.active
    }

    /// This session after tab `tab_id` took `url` as the URL its page came from.
    pub open spec fn with_url(self, tab_id: int, url: String) -> Self {
        SessionView {
            tabs: self.tabs.update(tab_id, Tab { url: url, ..self.tabs[tab_id] }),
            active: self.active,
        }
    }

    /// This session after a new tab was appended and made active.
    pub open spec fn with_new_tab(self, surface: S, url: String) -> Self {
        SessionView {
            tabs: self.tabs.push(
                Tab { id: self.tabs.len() as usize, surface: surface, url: url, generation: 0 },
            ),
            active: self.tabs.len() as int,
        }
    }

    /// The active index after `k` presses of Ctrl+Tab.
    pub open spec fn active_after_cycles(self, k: nat) -> int
        decreases k,
    {
        if k == 0 {
            self.active
        } else {
            (self.active_after_cycles((k - 1) as nat) + 1) % (self.tabs.len() as int)
        }
    }

    /// The index that Ctrl+Tab moves to.
    pub open spec fn next_active(self) -> int {
        (self.active + 1) % (self.tabs.len() as int)
    }
}

/// The ordered set of tabs and the active index, owned by the UI thread.
pub struct SessionState<S> {
    tabs: Vec<Tab<S>>,
    active: usize,
}

impl<S> View for SessionState<S> {
    type V = SessionView<S>;

    closed spec fn view(&self) -> SessionView<S> {
        SessionView { tabs: self.tabs@, active: self.active as int }
    }
}

impl<S> SessionState<S> {
    pub open spec fn wf(&self) -> bool {
        self@.wf()
    }

    /// Starts a session with its one initial tab, which is active.
    pub fn with_initial_tab(surface: S, url: String) -> (r: Self)
        ensures
            r.wf(),
            r@.tabs == seq![Tab { id: 0usize, surface: surface, url: url, generation: 0u64 }],
            r@.active == 0,
    {
        let mut tabs: Vec<Tab<S>> = Vec::new();
        tabs.push(Tab { id: 0, surface, url, generation: 0 });
        let r = SessionState { tabs, active: 0 };
        assert(r@.tabs =~= seq![Tab { id: 0usize, surface: surface, url: url, generation: 0u64 }]);
        r
    }

    pub fn len(&self) -> (r: usize)
        ensures
            r == self@.tabs.len(),
    {
        self.tabs.len()
    }

    pub fn active_index(&self) -> (r: usize)
        ensures
            r == self@.active,
    {
        self.active
    }

    /// The tab at position `index` (which is also its id).
    pub fn tab(&self, index: usize) -> (r: &Tab<S>)
        requires
            index < self@.tabs.len(),
        ensures
            *r == self@.tabs[index as int],
    {
        &self.tabs[index]
    }

    pub fn active_tab(&self) -> (r: &Tab<S>)
        requires
            self.wf(),
        ensures
            *r == self@.tabs[self@.active],
    {
        &self.tabs[self.active]
    }

    /// Looks a tab up by id.
    pub fn get(&self, tab_id: usize) -> (r: Option<&Tab<S>>)
        requires
            self.wf(),
        ensures
            self@.has_tab(tab_id as int) ==> r == Some(&self@.tabs[tab_id as int]),
            !self@.has_tab(tab_id as int) ==> r is None,
    {
        if tab_id < self.tabs.len() {
            Some(&self.tabs[tab_id])
        } else {
            None
        }
    }

    /// Appends a tab with generation 0 and makes it active; returns its id.
    pub fn create_tab(&mut self, surface: S, url: String) -> (r: usize)
        requires
            old(self).wf(),
            old(self)@.tabs.len() < usize::MAX,
        ensures
            final(self).wf(),
            r == old(self)@.tabs.len(),
            final(self)@ == old(self)@.with_new_tab(surface, url),
    {
        let id = self.tabs.len();
        self.tabs.push(Tab { id, surface, url, generation: 0 });
        self.active = id;
        assert(self@.tabs =~= old(self)@.with_new_tab(surface, url).tabs);
        id
    }

    /// Moves the focus to the tab at `index`; no tab is changed.
    pub fn switch_active(&mut self, index: usize) -> (r: Result<(), IndexError>)
        requires
            old(self).wf(),
        ensures
            final(self).wf(),
            final(self)@.tabs == old(self)@.tabs,
            index < old(self)@.tabs.len() ==> r is Ok && final(self)@.active == index,
            index >= old(self)@.tabs.len() ==> r == Err::<(), IndexError>(
                IndexError { index: index, len: old(self)@.tabs.len() as usize },
            ) && final(self)@.active == old(self)@.active,
    {
        if index < self.tabs.len() {
            self.active = index;
            Ok(())
        } else {
            Err(IndexError { index, len: self.tabs.len() })
        }
    }

    /// Moves the focus to the next tab, wrapping round after the last.
    pub fn cycle_active(&mut self)
        requires
            old(self).wf(),
        ensures
            final(self).wf(),
            final(self)@.tabs == old(self)@.tabs,
            final(self)@.active == old(self)@.next_active(),
    {
        let ghost n = self.tabs.len() as int;
        let ghost a = self.active as int;
        assert(a < n);
        let next = self.active + 1;
        if next == self.tabs.len() {
            assert((a + 1) % n == 0) by (nonlinear_arith)
                requires
                    a + 1 == n,
                    0 < n,
            ;
            self.active = 0;
        } else {
            assert((a + 1) % n == a + 1) by (nonlinear_arith)
                requires
                    0 <= a + 1 < n,
            ;
            self.active = next;
        }
    }

    /// Issues a navigation of tab `tab_id` to `url`: its generation goes up by
    /// one, its URL becomes `url`, and the request carries the new generation.
    pub fn begin_navigation(&mut self, tab_id: usize, url: String) -> (r: Result<
        NavigationRequest,
        LookupError,
    >)
        requires
            old(self).wf(),
            old(self)@.has_tab(tab_id as int) ==> old(self)@.tabs[tab_id as int].generation
                < u64::MAX,
        ensures
            final(self).wf(),
            final(self)@.active == old(self)@.active,
            old(self)@.has_tab(tab_id as int) ==> (r matches Ok(req) && old(self)@.navigation_step(
                tab_id as int,
                url,
                final(self)@,
                req,
            )),
            !old(self)@.has_tab(tab_id as int) ==> r == Err::<NavigationRequest, LookupError>(
                LookupError { tab_id: tab_id },
            ) && final(self)@.tabs == old(self)@.tabs,
    {
        if tab_id >= self.tabs.len() {
            return Err(LookupError { tab_id });
        }
        let generation = self.tabs[tab_id].generation + 1;
        let request_url = url.clone();
        let ghost before = self@.tabs;
        let mut t = self.tabs.remove(tab_id);
        t.generation = generation;
        t.url = url;
        self.tabs.insert(tab_id, t);
        assert(self@.tabs =~= before.update(tab_id as int, SessionView::navigated(before[tab_id as int], url)));
        let req = NavigationRequest { tab_id, url: request_url, generation };
        assert(req.url == url);
        Ok(req)
    }

    /// Whether a result tagged `(tab_id, generation)` still belongs to the
    /// tab's latest navigation.
    pub fn is_current(&self, tab_id: usize, generation: u64) -> (r: bool)
        requires
            self.wf(),
        ensures
            r == self@.is_current(tab_id as int, generation),
    {
        tab_id < self.tabs.len() && self.tabs[tab_id].generation == generation
    }

    /// Records the URL a tab's page was finally loaded from.
    pub fn set_url(&mut self, tab_id: usize, url: String)
        requires
            old(self).wf(),
            old(self)@.has_tab(tab_id as int),
        ensures
            final(self).wf(),
            final(self)@ == old(self)@.with_url(tab_id as int, url),
    {
        let ghost before = self@.tabs;
        let mut t = self.tabs.remove(tab_id);
        t.url = url;
        self.tabs.insert(tab_id, t);
        assert(self@.tabs =~= old(self)@.with_url(tab_id as int, url).tabs);
    }
}

/// Every navigation of a tab gets a generation above all earlier ones: along
/// any run of steps in which some steps navigate the tab and the others leave
/// its generation as it was (focus changes, new tabs, navigations of other
/// tabs, applied results), the generations handed out to the tab strictly
/// increase, so no two are equal, and the tab holds the last one handed out.
pub proof fn lemma_generations_increase<S>(
    states: Seq<SessionView<S>>,
    navigates: Seq<bool>,
    requests: Seq<NavigationRequest>,
    urls: Seq<String>,
    tab_id: int,
)
    requires
        states.len() == navigates.len() + 1,
        requests.len() == navigates.len(),
        urls.len() == navigates.len(),
        states[0].has_tab(tab_id),
        forall|k: int|
            0 <= k < navigates.len() && #[trigger] navigates[k] ==> states[k].navigation_step(
                tab_id,
                urls[k],
                states[k + 1],
                requests[k],
            ),
        forall|k: int|
            0 <= k < navigates.len() && !#[trigger] navigates[k] ==> states[k + 1].has_tab(tab_id)
                && states[k + 1].tabs[tab_id].generation == states[k].tabs[tab_id].generation,
    ensures
        forall|i: int, j: int|
            0 <= i < j < navigates.len() && navigates[i] && navigates[j] ==> #[trigger] requests[i].generation
                < #[trigger] requests[j].generation,
        forall|i: int|
            0 <= i < navigates.len() && #[trigger] navigates[i] ==> requests[i].generation
                == states[i + 1].tabs[tab_id].generation,
{
    assert forall|i: int, j: int|
        0 <= i < j < navigates.len() && navigates[i] && navigates[j] implies #[trigger] requests[i].generation
        < #[trigger] requests[j].generation by {
        lemma_generation_monotone(states, navigates, requests, urls, tab_id, i + 1, j);
        assert(states[i].navigation_step(tab_id, urls[i], states[i + 1], requests[i]));
        assert(states[j].navigation_step(tab_id, urls[j], states[j + 1], requests[j]));
    }
    assert forall|i: int| 0 <= i < navigates.len() && #[trigger] navigates[i] implies requests[i].generation
        == states[i + 1].tabs[tab_id].generation by {
        assert(states[i].navigation_step(tab_id, urls[i], states[i + 1], requests[i]));
    }
}

proof fn lemma_generation_monotone<S>(
    states: Seq<SessionView<S>>,
    navigates: Seq<bool>,
    requests: Seq<NavigationRequest>,
    urls: Seq<String>,
    tab_id: int,
    i: int,
    j: int,
)
    requires
        states.len() == navigates.len() + 1,
        requests.len() == navigates.len(),
        urls.len() == navigates.len(),
        states[0].has_tab(tab_id),
        forall|k: int|
            0 <= k < navigates.len() && #[trigger] navigates[k] ==> states[k].navigation_step(
                tab_id,
                urls[k],
                states[k + 1],
                requests[k],
            ),
        forall|k: int|
            0 <= k < navigates.len() && !#[trigger] navigates[k] ==> states[k + 1].has_tab(tab_id)
                && states[k + 1].tabs[tab_id].generation == states[k].tabs[tab_id].generation,
        0 <= i <= j < states.len(),
    ensures
        states[j].has_tab(tab_id),
        states[i].tabs[tab_id].generation <= states[j].tabs[tab_id].generation,
    decreases j,
{
    if j > 0 {
        if i < j {
            lemma_generation_monotone(states, navigates, requests, urls, tab_id, i, j - 1);
        } else {
            lemma_generation_monotone(states, navigates, requests, urls, tab_id, 0, j - 1);
        }
        if navigates[j - 1] {
            assert(states[j - 1].navigation_step(tab_id, urls[j - 1], states[j], requests[j - 1]));
        }
    }
}

/// Focusing the last tab right after creating one leaves the new tab active:
/// the switch succeeds and the active index is the last position.
pub proof fn lemma_create_then_focus_last<S>(s: SessionView<S>, surface: S, url: String)
    requires
        s.wf(),
        s.tabs.len() < usize::MAX,
    ensures
        ({
            let created = s.with_new_tab(surface, url);
            &&& created.wf()
            &&& created.has_tab(created.tabs.len() - 1)
            &&& created.active == created.tabs.len() - 1
        }),
{
}

/// Pressing Ctrl+Tab once per tab brings the focus back to where it started,
/// and no fewer presses do: along a run of `n + 1` states over `n` tabs, each
/// reached from the one before by moving to `next_active` with the tabs
/// unchanged, the last active index is the first and none between is.
pub proof fn lemma_full_cycle_returns<S>(states: Seq<SessionView<S>>)
    requires
        states.len() == states[0].tabs.len() + 1,
        states[0].wf(),
        forall|k: int|
            0 <= k < states.len() - 1 ==> #[trigger] states[k + 1] == (SessionView {
                tabs: states[k].tabs,
                active: states[k].next_active(),
            }),
    ensures
        states[states.len() - 1].active == states[0].active,
        forall|k: int|
            0 < k < states.len() - 1 ==> (#[trigger] states[k]).active != states[0].active,
{
    let s = states[0];
    let n = s.tabs.len() as int;
    assert forall|k: int| 0 <= k < states.len() implies (#[trigger] states[k]).tabs == s.tabs
        && states[k].active == s.active_after_cycles(k as nat) by {
        lemma_cycle_run(states, k);
    }
    lemma_cycles_offset(s, n as nat);
    vstd::arithmetic::div_mod::lemma_mod_add_multiples_vanish(s.active, n);
    vstd::arithmetic::div_mod::lemma_small_mod(s.active as nat, n as nat);
    assert(states[n] == states[states.len() - 1]);
    assert forall|k: int| 0 < k < states.len() - 1 implies (#[trigger] states[k]).active
        != s.active by {
        lemma_cycles_offset(s, k as nat);
        if s.active + k < n {
            vstd::arithmetic::div_mod::lemma_small_mod((s.active + k) as nat, n as nat);
        } else {
            vstd::arithmetic::div_mod::lemma_mod_add_multiples_vanish(s.active + k - n, n);
            vstd::arithmetic::div_mod::lemma_small_mod((s.active + k - n) as nat, n as nat);
        }
    }
}

proof fn lemma_cycle_run<S>(states: Seq<SessionView<S>>, k: int)
    requires
        states.len() == states[0].tabs.len() + 1,
        forall|k: int|
            0 <= k < states.len() - 1 ==> #[trigger] states[k + 1] == (SessionView {
                tabs: states[k].tabs,
                active: states[k].next_active(),
            }),
        0 <= k < states.len(),
    ensures
        states[k].tabs == states[0].tabs,
        states[k].active == states[0].active_after_cycles(k as nat),
    decreases k,
{
    if k > 0 {
        lemma_cycle_run(states, k - 1);
        assert(states[k] == states[(k - 1) + 1]);
    }
}

proof fn lemma_cycles_offset<S>(s: SessionView<S>, k: nat)
    requires
        s.wf(),
    ensures
        s.active_after_cycles(k) == (s.active + k) % (s.tabs.len() as int),
    decreases k,
{
    let n = s.tabs.len() as int;
    if k == 0 {
        vstd::arithmetic::div_mod::lemma_small_mod(s.active as nat, n as nat);
    } else {
        lemma_cycles_offset(s, (k - 1) as nat);
        vstd::arithmetic::div_mod::lemma_add_mod_noop_right(1, s.active + k - 1, n);
        assert(1 + (s.active + k - 1) % n == (s.active + k - 1) % n + 1);
    }
}

/// Two navigations of one tab whose results come back in reverse order: the
/// later result is current and may be applied, and the earlier one is stale
/// both before and after the later one was applied.
pub proof fn lemma_out_of_order_completions<S>(
    s0: SessionView<S>,
    s1: SessionView<S>,
    s2: SessionView<S>,
    tab_id: int,
    first_url: String,
    second_url: String,
    first: NavigationRequest,
    second: NavigationRequest,
    final_url: String,
)
    requires
        s0.navigation_step(tab_id, first_url, s1, first),
        s1.navigation_step(tab_id, second_url, s2, second),
    ensures
        s2.is_current(tab_id, second.generation),
        !s2.is_current(tab_id, first.generation),
        !s2.with_url(tab_id, final_url).is_current(tab_id, first.generation),
        s2.with_url(tab_id, final_url).tabs[tab_id].url == final_url,
{
}

} // verus!
