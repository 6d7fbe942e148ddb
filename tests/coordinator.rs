use web4::coordinator::{Command, Coordinator, Event, Key};
use web4::message::{decode_message, PageMessage};
use web4::pipeline::{BrowserResponse, FailureKind, ProcessError};
use web4::session::NavigationRequest;

fn coordinator() -> Coordinator<u32> {
    Coordinator::new(0, "https://start".to_string(), "http://home".to_string())
}

fn page(url: &str, summary: &str) -> BrowserResponse {
    BrowserResponse {
        content: "c".to_string(),
        summary: summary.to_string(),
        analysis: "a".to_string(),
        url: url.to_string(),
    }
}

fn navigate(c: &mut Coordinator<u32>, url: &str) -> NavigationRequest {
    match c.handle(Event::Page(PageMessage::LoadUrl(url.to_string()))) {
        Command::Navigate(req) => req,
        _ => panic!("expected a navigation"),
    }
}

fn open_tab(c: &mut Coordinator<u32>, surface: u32) -> NavigationRequest {
    let url = match c.handle(Event::Page(PageMessage::CreateTab)) {
        Command::OpenTab { url } => url,
        _ => panic!("expected a new tab"),
    };
    assert_eq!(url, "http://home");
    match c.tab_opened(surface, url) {
        Command::Navigate(req) => req,
        _ => panic!("expected a navigation"),
    }
}

#[test]
fn close_stops() {
    let mut c = coordinator();
    assert!(matches!(c.handle(Event::CloseRequested), Command::Exit));
    assert!(!c.running);
}

#[test]
fn enter_reads_active_address() {
    let mut c = coordinator();
    assert!(matches!(c.handle(Event::KeyPress(Key::Enter)), Command::ReadAddress { tab_id: 0 }));
    match c.handle(Event::AddressEntered { tab_id: 0, url: "http://typed".to_string() }) {
        Command::Navigate(req) => {
            assert_eq!(req.tab_id, 0);
            assert_eq!(req.url, "http://typed");
            assert_eq!(req.generation, 1);
        }
        _ => panic!("expected a navigation"),
    }
    assert_eq!(c.session.tab(0).url, "http://typed");
}

#[test]
fn ctrl_t_opens_tab_only_with_ctrl() {
    let mut c = coordinator();
    assert!(matches!(c.handle(Event::KeyPress(Key::T)), Command::Idle));
    c.handle(Event::ModifiersChanged { ctrl: true });
    match c.handle(Event::KeyPress(Key::T)) {
        Command::OpenTab { url } => assert_eq!(url, "http://home"),
        _ => panic!("expected a new tab"),
    }
    let req = c.tab_opened(5, "http://home".to_string());
    match req {
        Command::Navigate(r) => {
            assert_eq!(r.tab_id, 1);
            assert_eq!(r.generation, 1);
        }
        _ => panic!("expected a navigation"),
    }
    assert_eq!(c.session.len(), 2);
    assert_eq!(c.session.active_index(), 1);
    assert_eq!(c.session.tab(1).surface, 5);
}

#[test]
fn ctrl_tab_cycles_back_after_n_presses() {
    let mut c = coordinator();
    open_tab(&mut c, 1);
    open_tab(&mut c, 2);
    c.handle(Event::Page(PageMessage::SwitchTab(1)));
    c.handle(Event::ModifiersChanged { ctrl: true });
    let n = c.session.len();
    for k in 0..n {
        assert!(matches!(c.handle(Event::KeyPress(Key::Tab)), Command::Refresh));
        assert_eq!(c.session.active_index(), (1 + k + 1) % n);
    }
    assert_eq!(c.session.active_index(), 1);
    c.handle(Event::ModifiersChanged { ctrl: false });
    assert!(matches!(c.handle(Event::KeyPress(Key::Tab)), Command::Idle));
    assert_eq!(c.session.active_index(), 1);
}

#[test]
fn switch_tab_message() {
    let mut c = coordinator();
    open_tab(&mut c, 1);
    assert!(matches!(c.handle(Event::Page(decode_message("switchTab:0"))), Command::Refresh));
    assert_eq!(c.session.active_index(), 0);
    assert!(matches!(c.handle(Event::Page(decode_message("switchTab:2"))), Command::Idle));
    assert_eq!(c.session.active_index(), 0);
    assert!(matches!(c.handle(Event::Page(decode_message("switchTab:-1"))), Command::Idle));
    assert!(matches!(c.handle(Event::Page(decode_message("bogus"))), Command::Idle));
    assert_eq!(c.session.active_index(), 0);
}

#[test]
fn out_of_order_completions_keep_latest() {
    let mut c = coordinator();
    c.handle(Event::AddressEntered { tab_id: 0, url: "http://a".to_string() });
    let first = navigate(&mut c, "http://a");
    let second = navigate(&mut c, "http://a");
    assert!(second.generation > first.generation);
    let shown = c.handle(Event::PipelineCompleted {
        tab_id: 0,
        generation: second.generation,
        result: Ok(page("http://a/second", "second")),
    });
    match shown {
        Command::Show { tab_id, result } => {
            assert_eq!(tab_id, 0);
            assert_eq!(result.ok().unwrap().summary, "second");
        }
        _ => panic!("expected the result to be shown"),
    }
    assert_eq!(c.session.tab(0).url, "http://a/second");
    let late = c.handle(Event::PipelineCompleted {
        tab_id: 0,
        generation: first.generation,
        result: Ok(page("http://a/first", "first")),
    });
    assert!(matches!(late, Command::Idle));
    assert_eq!(c.session.tab(0).url, "http://a/second");
    assert_eq!(c.session.tab(0).generation, second.generation);
}

#[test]
fn stale_result_for_other_tab_generation_dropped() {
    let mut c = coordinator();
    let req = navigate(&mut c, "http://a");
    let r = c.handle(Event::PipelineCompleted {
        tab_id: 0,
        generation: req.generation + 1,
        result: Ok(page("http://z", "z")),
    });
    assert!(matches!(r, Command::Idle));
    assert_eq!(c.session.tab(0).url, "http://a");
    let r = c.handle(Event::PipelineCompleted {
        tab_id: 3,
        generation: req.generation,
        result: Ok(page("http://z", "z")),
    });
    assert!(matches!(r, Command::Idle));
}

#[test]
fn current_error_is_shown_without_url_change() {
    let mut c = coordinator();
    let req = navigate(&mut c, "http://a");
    let r = c.handle(Event::PipelineCompleted {
        tab_id: 0,
        generation: req.generation,
        result: Err(ProcessError {
            kind: FailureKind::Fetch,
            message: "down".to_string(),
            redirected: false,
        }),
    });
    assert!(matches!(r, Command::Show { tab_id: 0, result: Err(_) }));
    assert_eq!(c.session.tab(0).url, "http://a");
}

#[test]
fn load_url_targets_active_tab() {
    let mut c = coordinator();
    open_tab(&mut c, 1);
    c.handle(Event::Page(PageMessage::SwitchTab(0)));
    let req = navigate(&mut c, "http://x");
    assert_eq!(req.tab_id, 0);
    assert_eq!(c.session.tab(1).url, "http://home");
}

#[test]
fn unknown_tab_address_is_dropped() {
    let mut c = coordinator();
    let r = c.handle(Event::AddressEntered { tab_id: 4, url: "http://x".to_string() });
    assert!(matches!(r, Command::Idle));
    assert_eq!(c.session.tab(0).generation, 0);
}
