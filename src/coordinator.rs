use vstd::prelude::*;
use crate::message::PageMessage;
use crate::pipeline::{BrowserResponse, ProcessError};
use crate::session::{NavigationRequest, SessionState, SessionView};

verus! {

/// The keys the coordinator reacts to; every other key is `Other`.
#[derive(Debug, Clone, Copy, PartialEq, Eq, Structural)]
pub enum Key {
    Enter,
    T,
    Tab,
    Other,
}

/// One input of the serialized event stream.
pub enum Event {
    CloseRequested,
    /// A key went down.
    KeyPress(Key),
    ModifiersChanged { ctrl: bool },
    /// A message from a page script, already decoded.
    Page(PageMessage),
    /// The address field of tab `tab_id` held `url` when Enter was pressed.
    AddressEntered { tab_id: usize, url: String },
    /// The content pipeline finished the navigation `(tab_id, generation)`.
    PipelineCompleted {
        tab_id: usize,
        generation: u64,
        result: Result<BrowserResponse, ProcessError>,
    },
}

/// What the host must carry out after an event.
pub enum Command {
    Idle,
    /// Stop the event loop.
    Exit,
    /// Read the address field of the tab and report it as `AddressEntered`.
    ReadAddress { tab_id: usize },
    /// Build a new surface showing `url` and hand it to `tab_opened`.
    OpenTab { url: String },
    /// Have the tab's page load the URL, start the content pipeline tagged
    /// with the request, and refresh the tab bar.
    Navigate(NavigationRequest),
    /// Refresh the tab bar and address field of the active tab.
    Refresh,
    /// Show the pipeline result on the tab's surface and refresh.
    Show { tab_id: usize, result: Result<BrowserResponse, ProcessError> },
}

/// The single owner of the session, which applies events one at a time.
pub struct Coordinator<S> {
    pub session: SessionState<S>,
    /// Whether Ctrl is held, as last reported.
    pub ctrl: bool,
    pub running: bool,
    /// The URL a new tab opens with.
    pub default_url: String,
}

/// What a navigation of tab `tab_id` to `url` does: where the tab exists and
/// its counter can go up, the session takes the navigation step and the
/// command issues it; otherwise nothing changes.
pub open spec fn navigation_outcome<S>(
    before: SessionView<S>,
    tab_id: int,
    url: String,
    after: SessionView<S>,
    r: Command,
) -> bool {
    if before.has_tab(tab_id) && before.tabs[tab_id].generation < u64::MAX {
        r matches Command::Navigate(req) && before.navigation_step(tab_id, url, after, req)
    } else {
        after == before && r is Idle
    }
}

impl<S> Coordinator<S> {
    pub open spec fn wf(&self) -> bool {
        self.session.wf()
    }

    /// `self` with only the session replaced by one whose view is `v`.
    pub open spec fn only_session_changed(&self, after: &Self, v: SessionView<S>) -> bool {
        &&& after.session@ == v
        &&& after.ctrl == self.ctrl
        &&& after.running == self.running
        &&& after.default_url == self.default_url
    }

    /// What handling `ev` does to the coordinator and which command it gives.
    pub open spec fn handle_spec(&self, ev: Event, after: &Self, r: Command) -> bool {
        let s = self.session@;
        match ev {
            Event::CloseRequested => {
                &&& r is Exit
                &&& after.session@ == s && !after.running
                &&& after.ctrl == self.ctrl && after.default_url == self.default_url
            },
            Event::ModifiersChanged { ctrl } => {
                &&& r is Idle
                &&& after.session@ == s && after.ctrl == ctrl
                &&& after.running == self.running && after.default_url == self.default_url
            },
            Event::KeyPress(key) => match key {
                Key::Enter => self.only_session_changed(after, s) && r == Command::ReadAddress {
                    tab_id: s.active as usize,
                },
                Key::T => self.only_session_changed(after, s) && if self.ctrl {
                    r == Command::OpenTab { url: self.default_url }
                } else {
                    r is Idle
                },
                Key::Tab => if self.ctrl {
                    self.only_session_changed(
                        after,
                        SessionView { tabs: s.tabs, active: s.next_active() },
                    ) && r is Refresh
                } else {
                    self.only_session_changed(after, s) && r is Idle
                },
                Key::Other => self.only_session_changed(after, s) && r is Idle,
            },
            Event::Page(msg) => match msg {
                PageMessage::LoadUrl(url) => {
                    &&& self.only_session_changed(after, after.session@)
                    &&& navigation_outcome(s, s.active, url, after.session@, r)
                },
                PageMessage::CreateTab => self.only_session_changed(after, s) && r
                    == Command::OpenTab { url: self.default_url },
                PageMessage::SwitchTab(index) => if index < s.tabs.len() {
                    self.only_session_changed(
                        after,
                        SessionView { tabs: s.tabs, active: index as int },
                    ) && r is Refresh
                } else {
                    self.only_session_changed(after, s) && r is Idle
                },
                PageMessage::Unrecognized => self.only_session_changed(after, s) && r is Idle,
            },
            Event::AddressEntered { tab_id, url } => {
                &&& self.only_session_changed(after, after.session@)
                &&& navigation_outcome(s, tab_id as int, url, after.session@, r)
            },
            Event::PipelineCompleted { tab_id, generation, result } => if s.is_current(
                tab_id as int,
                generation,
            ) {
                &&& r == Command::Show { tab_id, result }
                &&& self.only_session_changed(
                    after,
                    match result {
                        Ok(page) => s.with_url(tab_id as int, page.url),
                        Err(_) => s,
                    },
                )
            } else {
                self.only_session_changed(after, s) && r is Idle
            },
        }
    }

    /// Starts with one tab, showing `initial_url`, which is active.
    pub fn new(surface: S, initial_url: String, default_url: String) -> (r: Self)
        ensures
            r.wf(),
            r.session@.tabs.len() == 1,
            r.session@.tabs[0].surface == surface,
            r.session@.tabs[0].url == initial_url,
            r.session@.tabs[0].generation == 0,
            r.session@.active == 0,
            !r.ctrl,
            r.running,
            r.default_url == default_url,
    {
        Coordinator {
            session: SessionState::with_initial_tab(surface, initial_url),
            ctrl: false,
            running: true,
            default_url,
        }
    }

    /// Issues a navigation, dropping it where the tab is unknown or its
    /// counter is exhausted.
    fn navigate(&mut self, tab_id: usize, url: String) -> (r: Command)
        requires
            old(self).wf(),
        ensures
            final(self).wf(),
            old(self).only_session_changed(final(self), final(self).session@),
            navigation_outcome(old(self).session@, tab_id as int, url, final(self).session@, r),
    {
        match self.session.get(tab_id) {
            None => Command::Idle,
            Some(tab) => {
                if tab.generation == u64::MAX {
                    Command::Idle
                } else {
                    match self.session.begin_navigation(tab_id, url) {
                        Ok(req) => Command::Navigate(req),
                        Err(_) => Command::Idle,
                    }
                }
            },
        }
    }

    /// Applies one event and says what the host must do.
    pub fn handle(&mut self, ev: Event) -> (r: Command)
        requires
            old(self).wf(),
        ensures
            final(self).wf(),
            old(self).handle_spec(ev, final(self), r),
    {
        match ev {
            Event::CloseRequested => {
                self.running = false;
                Command::Exit
            },
            Event::ModifiersChanged { ctrl } => {
                self.ctrl = ctrl;
                Command::Idle
            },
            Event::KeyPress(key) => match key {
                Key::Enter => Command::ReadAddress { tab_id: self.session.active_index() },
                Key::T => {
                    if self.ctrl {
                        Command::OpenTab { url: self.default_url.clone() }
                    } else {
                        Command::Idle
                    }
                },
                Key::Tab => {
                    if self.ctrl {
                        self.session.cycle_active();
                        Command::Refresh
                    } else {
                        Command::Idle
                    }
                },
                Key::Other => Command::Idle,
            },
            Event::Page(msg) => match msg {
                PageMessage::LoadUrl(url) => {
                    let active = self.session.active_index();
                    self.navigate(active, url)
                },
                PageMessage::CreateTab => Command::OpenTab { url: self.default_url.clone() },
                PageMessage::SwitchTab(index) => match self.session.switch_active(index) {
                    Ok(()) => Command::Refresh,
                    Err(_) => Command::Idle,
                },
                PageMessage::Unrecognized => Command::Idle,
            },
            Event::AddressEntered { tab_id, url } => self.navigate(tab_id, url),
            Event::PipelineCompleted { tab_id, generation, result } => {
                if !self.session.is_current(tab_id, generation) {
                    return Command::Idle;
                }
                match &result {
                    Ok(page) => self.session.set_url(tab_id, page.url.clone()),
                    Err(_) => {},
                }
                Command::Show { tab_id, result }
            },
        }
    }

    /// Adds the surface that an `OpenTab` command built as a new, active tab
    /// and issues its first navigation, to `url`. With no room for another
    /// tab the surface is dropped and nothing changes.
    pub fn tab_opened(&mut self, surface: S, url: String) -> (r: Command)
        requires
            old(self).wf(),
        ensures
            final(self).wf(),
            old(self).session@.tabs.len() < usize::MAX ==> {
                let created = old(self).session@.with_new_tab(surface, url);
                &&& old(self).only_session_changed(final(self), final(self).session@)
                &&& navigation_outcome(
                    created,
                    created.tabs.len() - 1,
                    url,
                    final(self).session@,
                    r,
                )
            },
            old(self).session@.tabs.len() == usize::MAX ==> old(self).only_session_changed(
                final(self),
                old(self).session@,
            ) && r is Idle,
    {
        if self.session.len() == usize::MAX {
            return Command::Idle;
        }
        let target = url.clone();
        let id = self.session.create_tab(surface, url);
        self.navigate(id, target)
    }
}

/// A result for a navigation that a later one of the same tab has superseded
/// is dropped: the session, and so every tab's URL, stays as it was, and the
/// host is told to do nothing.
pub proof fn lemma_stale_result_dropped<S>(
    c: Coordinator<S>,
    after: Coordinator<S>,
    tab_id: usize,
    generation: u64,
    result: Result<BrowserResponse, ProcessError>,
    r: Command,
)
    requires
        c.handle_spec((Event::PipelineCompleted { tab_id, generation, result }), &after, r),
        !c.session@.is_current(tab_id as int, generation),
    ensures
        after.session@ == c.session@,
        (r is Idle),
{
}

/// Two loads of one URL in the active tab, whose results come back in
/// reverse order: both loads are issued, the later result is shown, and the
/// earlier one, arriving afterwards, changes nothing.
pub proof fn lemma_latest_result_wins<S>(
    c0: Coordinator<S>,
    c1: Coordinator<S>,
    c2: Coordinator<S>,
    c3: Coordinator<S>,
    c4: Coordinator<S>,
    url: String,
    first: Result<BrowserResponse, ProcessError>,
    second: Result<BrowserResponse, ProcessError>,
    r1: Command,
    r2: Command,
    r3: Command,
    r4: Command,
)
    requires
        c0.wf(),
        c0.session@.tabs[c0.session@.active].generation < u64::MAX - 1,
        c0.handle_spec(Event::Page(PageMessage::LoadUrl(url)), &c1, r1),
        c1.handle_spec(Event::Page(PageMessage::LoadUrl(url)), &c2, r2),
        c2.handle_spec(
            (Event::PipelineCompleted {
                tab_id: c0.session@.active as usize,
                generation: (r2->Navigate_0).generation,
                result: second,
            }),
            &c3,
            r3,
        ),
        c3.handle_spec(
            (Event::PipelineCompleted {
                tab_id: c0.session@.active as usize,
                generation: (r1->Navigate_0).generation,
                result: first,
            }),
            &c4,
            r4,
        ),
    ensures
        (r1 is Navigate) && (r1->Navigate_0).tab_id == c0.session@.active,
        (r2 is Navigate) && (r2->Navigate_0).tab_id == c0.session@.active,
        r3 == (Command::Show { tab_id: c0.session@.active as usize, result: second }),
        (r4 is Idle),
        c4.session@ == c3.session@,
{
    let t = c0.session@.active;
    assert(c1.session@.active == t);
    assert(c1.session@.tabs.len() == c0.session@.tabs.len());
    assert(c2.session@.tabs[t].generation == (r2->Navigate_0).generation);
    assert(c3.session@.tabs[t].generation == c2.session@.tabs[t].generation);
}

} // verus!
