use web4::pipeline::{
    BrowserResponse, FailureKind, Pipeline, PipelineAction, PipelineEvent, ProcessError, Stage,
};

fn fetched(resolved: &str, content: &str) -> PipelineEvent {
    PipelineEvent::Fetched { resolved_url: resolved.to_string(), content: content.to_string() }
}

fn expect_fetch(a: PipelineAction) -> String {
    match a {
        PipelineAction::Fetch(u) => u,
        _ => panic!("expected a fetch"),
    }
}

fn expect_finish(a: PipelineAction) -> Result<BrowserResponse, ProcessError> {
    match a {
        PipelineAction::Finish(r) => r,
        _ => panic!("expected the end of the run"),
    }
}

/// Runs one round and returns the action that follows the analysis.
fn round(p: &mut Pipeline, resolved: &str, content: &str, summary: &str, analysis: &str) -> PipelineAction {
    match p.step(fetched(resolved, content)) {
        PipelineAction::Summarize(c) => assert_eq!(c, content),
        _ => panic!("expected a summary request"),
    }
    match p.step(PipelineEvent::Summarized(summary.to_string())) {
        PipelineAction::Analyze(c) => assert_eq!(c, content),
        _ => panic!("expected an analysis request"),
    }
    p.step(PipelineEvent::Analyzed(analysis.to_string()))
}

#[test]
fn no_redirect_single_round() {
    let (mut p, first) = Pipeline::start("http://a".to_string());
    assert_eq!(expect_fetch(first), "http://a");
    let r = expect_finish(round(&mut p, "http://a", "body", "sum", "ana"));
    let page = r.ok().unwrap();
    assert_eq!(page.url, "http://a");
    assert_eq!(page.content, "body");
    assert_eq!(page.summary, "sum");
    assert_eq!(page.analysis, "ana");
    assert_eq!(p.stage, Stage::Finished);
}

#[test]
fn redirect_followed_exactly_once() {
    let (mut p, first) = Pipeline::start("http://a".to_string());
    assert_eq!(expect_fetch(first), "http://a");
    let next = round(&mut p, "http://b", "b1", "s1", "a1");
    assert_eq!(expect_fetch(next), "http://b");
    // The second fetch redirects again; it is not followed.
    let r = expect_finish(round(&mut p, "http://c", "b2", "s2", "a2"));
    let page = r.ok().unwrap();
    assert_eq!(page.url, "http://b");
    assert_eq!(page.content, "b2");
    assert_eq!(page.summary, "s2");
    assert_eq!(page.analysis, "a2");
}

#[test]
fn fetch_failure_is_fetch_error() {
    let (mut p, _) = Pipeline::start("http://a".to_string());
    let e = expect_finish(p.step(PipelineEvent::Failed("refused".to_string()))).err().unwrap();
    assert_eq!(e.kind, FailureKind::Fetch);
    assert_eq!(e.message, "refused");
    assert!(!e.redirected);
}

#[test]
fn service_failure_is_service_error() {
    let (mut p, _) = Pipeline::start("http://a".to_string());
    p.step(fetched("http://a", "x"));
    let e = expect_finish(p.step(PipelineEvent::Failed("bad reply".to_string()))).err().unwrap();
    assert_eq!(e.kind, FailureKind::Service);
    assert!(!e.redirected);
}

#[test]
fn failure_after_redirect_is_marked() {
    let (mut p, _) = Pipeline::start("http://a".to_string());
    let next = round(&mut p, "http://b", "b1", "s1", "a1");
    assert_eq!(expect_fetch(next), "http://b");
    p.step(fetched("http://b", "b2"));
    p.step(PipelineEvent::Summarized("s2".to_string()));
    let e = expect_finish(p.step(PipelineEvent::Failed("timeout".to_string()))).err().unwrap();
    assert_eq!(e.kind, FailureKind::Service);
    assert!(e.redirected);
}

#[test]
fn empty_summary_is_service_error() {
    let (mut p, _) = Pipeline::start("http://a".to_string());
    p.step(fetched("http://a", "x"));
    let e = expect_finish(p.step(PipelineEvent::Summarized(String::new()))).err().unwrap();
    assert_eq!(e.kind, FailureKind::Service);
    assert_eq!(e.message, "the service returned an empty summary");
    assert!(!e.redirected);
    assert_eq!(p.stage, Stage::Finished);
}

#[test]
fn empty_analysis_is_service_error() {
    let (mut p, _) = Pipeline::start("http://a".to_string());
    let next = round(&mut p, "http://b", "b1", "s1", "a1");
    assert_eq!(expect_fetch(next), "http://b");
    p.step(fetched("http://b", "b2"));
    p.step(PipelineEvent::Summarized("s2".to_string()));
    let e = expect_finish(p.step(PipelineEvent::Analyzed(String::new()))).err().unwrap();
    assert_eq!(e.kind, FailureKind::Service);
    assert_eq!(e.message, "the service returned an empty analysis");
    assert!(e.redirected);
}
