use vstd::prelude::*;

verus! {

/// What the content pipeline produced for a page.
pub struct BrowserResponse {
    pub content: String,
    pub summary: String,
    pub analysis: String,
    pub url: String,
}

/// Which part of the pipeline failed.
#[derive(Debug, Clone, Copy, PartialEq, Eq, Structural)]
pub enum FailureKind {
    /// Fetching the page failed.
    Fetch,
    /// The summarization or analysis service failed.
    Service,
}

/// A failed `process` call.
pub struct ProcessError {
    pub kind: FailureKind,
    pub message: String,
    /// Whether the failure came in the round that followed a redirect.
    pub redirected: bool,
}

/// Where a pipeline run stands.
#[derive(Debug, Clone, Copy, PartialEq, Eq, Structural)]
pub enum Stage {
    Fetching,
    Summarizing,
    Analyzing,
    Finished,
}

/// What the caller reports back after carrying out an action.
pub enum PipelineEvent {
    Fetched { resolved_url: String, content: String },
    Summarized(String),
    Analyzed(String),
    Failed(String),
}

/// What the caller must do next.
pub enum PipelineAction {
    Fetch(String),
    Summarize(String),
    Analyze(String),
    Finish(Result<BrowserResponse, ProcessError>),
}

/// One run of `process(url)`: fetch, summarize and analyze, and once more
/// against the resolved URL if the fetch reported a different one.
pub struct Pipeline {
    /// The URL of the current round.
    pub url: String,
    /// Whether the current round is the one that follows a redirect.
    pub redirected: bool,
    pub stage: Stage,
    /// The URL that this round's fetch resolved to.
    pub resolved: String,
    pub content: String,
    pub summary: String,
}

impl Pipeline {
    /// A run of `url` that has not yet heard from its first fetch.
    pub open spec fn is_start(self, url: String) -> bool {
        &&& self.url == url
        &&& !self.redirected
        &&& self.stage == Stage::Fetching
    }

    /// Whether `ev` answers the action this state asked for.
    pub open spec fn accepts(self, ev: PipelineEvent) -> bool {
        match ev {
            PipelineEvent::Fetched { .. } => self.stage == Stage::Fetching,
            PipelineEvent::Summarized(_) => self.stage == Stage::Summarizing,
            PipelineEvent::Analyzed(_) => self.stage == Stage::Analyzing,
            PipelineEvent::Failed(_) => self.stage != Stage::Finished,
        }
    }

    /// Whether a round that has just been analyzed is followed by another:
    /// only the first, and only where its fetch resolved elsewhere.
    pub open spec fn follows_redirect(self) -> bool {
        !self.redirected && self.resolved@ != self.url@
    }

    /// The next state and action after `ev`.
    pub open spec fn step_spec(self, ev: PipelineEvent) -> (Pipeline, PipelineAction) {
        match ev {
            PipelineEvent::Failed(m) => (
                Pipeline { stage: Stage::Finished, ..self },
                PipelineAction::Finish(
                    Err(
                        ProcessError {
                            kind: if self.stage == Stage::Fetching {
                                FailureKind::Fetch
                            } else {
                                FailureKind::Service
                            },
                            message: m,
                            redirected: self.redirected,
                        },
                    ),
                ),
            ),
            PipelineEvent::Fetched { resolved_url, content } => (
                Pipeline { stage: Stage::Summarizing, resolved: resolved_url, content: content, ..self },
                PipelineAction::Summarize(content),
            ),
            PipelineEvent::Summarized(s) => (
                Pipeline { stage: Stage::Analyzing, summary: s, ..self },
                PipelineAction::Analyze(self.content),
            ),
            PipelineEvent::Analyzed(a) => if self.follows_redirect() {
                (
                    Pipeline {
                        url: self.resolved,
                        redirected: true,
                        stage: Stage::Fetching,
                        ..self
                    },
                    PipelineAction::Fetch(self.resolved),
                )
            } else {
                (
                    Pipeline { stage: Stage::Finished, ..self },
                    PipelineAction::Finish(
                        Ok(
                            BrowserResponse {
                                content: self.content,
                                summary: self.summary,
                                analysis: a,
                                url: self.url,
                            },
                        ),
                    ),
                )
            },
        }
    }

    /// Starts a run for `url`; the first action fetches it.
    pub fn start(url: String) -> (r: (Pipeline, PipelineAction))
        ensures
            r.0.is_start(url),
            r.0.consistent(),
            r.1 == PipelineAction::Fetch(url),
    {
        let first = url.clone();
        (
            Pipeline {
                url,
                redirected: false,
                stage: Stage::Fetching,
                resolved: String::new(),
                content: String::new(),
                summary: String::new(),
            },
            PipelineAction::Fetch(first),
        )
    }

    /// Whether `ev` is a summary or an analysis with no text, which the
    /// service owes on success.
    pub open spec fn is_empty_reply(ev: PipelineEvent) -> bool {
        match ev {
            PipelineEvent::Summarized(s) => s@.len() == 0,
            PipelineEvent::Analyzed(a) => a@.len() == 0,
            _ => false,
        }
    }

    /// The message of the failure that an empty reply ends the run with.
    pub open spec fn empty_reply_text(ev: PipelineEvent) -> Seq<char> {
        match ev {
            PipelineEvent::Summarized(_) => "the service returned an empty summary"@,
            _ => "the service returned an empty analysis"@,
        }
    }

    /// What one step does: an empty summary or analysis ends the run with a
    /// service failure; any other answer moves on as `step_spec` says.
    pub open spec fn step_rel(self, ev: PipelineEvent, after: Pipeline, r: PipelineAction) -> bool {
        if Self::is_empty_reply(ev) {
            &&& after == Pipeline { stage: Stage::Finished, ..self }
            &&& r matches PipelineAction::Finish(Err(e))
            &&& e.kind == FailureKind::Service
            &&& e.redirected == self.redirected
            &&& e.message@ == Self::empty_reply_text(ev)
        } else {
            (after, r) == self.step_spec(ev)
        }
    }

    /// A state that the steps keep: while the analysis is awaited, the
    /// summary already received is not empty.
    pub open spec fn consistent(self) -> bool {
        self.stage == Stage::Analyzing ==> self.summary@.len() > 0
    }

    /// Takes in the outcome of the last action and says what to do next.
    pub fn step(&mut self, ev: PipelineEvent) -> (r: PipelineAction)
        requires
            old(self).accepts(ev),
        ensures
            old(self).step_rel(ev, *final(self), r),
    {
        match ev {
            PipelineEvent::Failed(message) => {
                let kind = if self.stage == Stage::Fetching {
                    FailureKind::Fetch
                } else {
                    FailureKind::Service
                };
                self.stage = Stage::Finished;
                PipelineAction::Finish(Err(ProcessError { kind, message, redirected: self.redirected }))
            },
            PipelineEvent::Fetched { resolved_url, content } => {
                let next = content.clone();
                self.stage = Stage::Summarizing;
                self.resolved = resolved_url;
                self.content = content;
                PipelineAction::Summarize(next)
            },
            PipelineEvent::Summarized(summary) => {
                if summary.as_str().is_empty() {
                    self.stage = Stage::Finished;
                    let message = String::from_str("the service returned an empty summary");
                    return PipelineAction::Finish(
                        Err(ProcessError { kind: FailureKind::Service, message, redirected: self.redirected }),
                    );
                }
                self.stage = Stage::Analyzing;
                self.summary = summary;
                PipelineAction::Analyze(self.content.clone())
            },
            PipelineEvent::Analyzed(analysis) => {
                if analysis.as_str().is_empty() {
                    self.stage = Stage::Finished;
                    let message = String::from_str("the service returned an empty analysis");
                    return PipelineAction::Finish(
                        Err(ProcessError { kind: FailureKind::Service, message, redirected: self.redirected }),
                    );
                }
                if !self.redirected && self.resolved != self.url {
                    let target = self.resolved.clone();
                    self.url = self.resolved.clone();
                    self.redirected = true;
                    self.stage = Stage::Fetching;
                    PipelineAction::Fetch(target)
                } else {
                    self.stage = Stage::Finished;
                    PipelineAction::Finish(
                        Ok(
                            BrowserResponse {
                                content: self.content.clone(),
                                summary: self.summary.clone(),
                                analysis,
                                url: self.url.clone(),
                            },
                        ),
                    )
                }
            },
        }
    }
}

/// The state and action after the three answers of one round: a fetch that
/// resolved to `resolved` with `content`, then `summary`, then `analysis`,
/// both of them non-empty (an empty one ends the run, see `step_rel`).
pub open spec fn after_round(
    p: Pipeline,
    resolved: String,
    content: String,
    summary: String,
    analysis: String,
) -> (Pipeline, PipelineAction) {
    let p1 = p.step_spec(PipelineEvent::Fetched { resolved_url: resolved, content: content }).0;
    let p2 = p1.step_spec(PipelineEvent::Summarized(summary)).0;
    p2.step_spec(PipelineEvent::Analyzed(analysis))
}

/// A redirect is followed exactly once: when the first fetch of `url`
/// resolves to another URL, the run fetches that URL once more, summarizes and
/// analyzes it, and then finishes with it as the final URL, even where the
/// second fetch resolves elsewhere again.
pub proof fn lemma_single_redirect_hop(
    p: Pipeline,
    url: String,
    resolved1: String,
    content1: String,
    summary1: String,
    analysis1: String,
    resolved2: String,
    content2: String,
    summary2: String,
    analysis2: String,
)
    requires
        p.is_start(url),
        resolved1@ != url@,
        summary1@.len() > 0,
        analysis1@.len() > 0,
        summary2@.len() > 0,
        analysis2@.len() > 0,
    ensures
        ({
            let (q, first) = after_round(p, resolved1, content1, summary1, analysis1);
            let (r, second) = after_round(q, resolved2, content2, summary2, analysis2);
            &&& first == PipelineAction::Fetch(resolved1)
            &&& q.url == resolved1 && q.redirected && q.stage == Stage::Fetching
            &&& second == PipelineAction::Finish(
                Ok(
                    BrowserResponse {
                        content: content2,
                        summary: summary2,
                        analysis: analysis2,
                        url: resolved1,
                    },
                ),
            )
            &&& r.stage == Stage::Finished
        }),
{
}

/// Without a redirect a run is one round: when the fetch of `url` resolves to
/// `url` itself, the run finishes after the analysis with `url` as final URL.
pub proof fn lemma_no_redirect(
    p: Pipeline,
    url: String,
    content: String,
    summary: String,
    analysis: String,
)
    requires
        p.is_start(url),
        summary@.len() > 0,
        analysis@.len() > 0,
    ensures
        ({
            let (q, action) = after_round(p, url, content, summary, analysis);
            &&& action == PipelineAction::Finish(
                Ok(BrowserResponse { content: content, summary: summary, analysis: analysis, url: url }),
            )
            &&& q.stage == Stage::Finished
        }),
{
}

/// A run fetches at most twice: a step that asks for another fetch is taken
/// only in the first round, and puts the run in its second round, whose steps
/// never ask for a fetch, whatever the answers (failures and redirects
/// included).
pub proof fn lemma_at_most_one_more_fetch(
    p: Pipeline,
    ev: PipelineEvent,
    q: Pipeline,
    r: PipelineAction,
)
    requires
        p.accepts(ev),
        p.step_rel(ev, q, r),
    ensures
        p.redirected ==> q.redirected && !(r is Fetch),
        r is Fetch ==> !p.redirected && q.redirected && q.stage == Stage::Fetching,
{
}

/// A run that ends well carries a summary and an analysis that are not
/// empty, and every step keeps the state consistent.
pub proof fn lemma_success_has_texts(p: Pipeline, ev: PipelineEvent, q: Pipeline, r: PipelineAction)
    requires
        p.consistent(),
        p.accepts(ev),
        p.step_rel(ev, q, r),
    ensures
        q.consistent(),
        r matches PipelineAction::Finish(Ok(b)) ==> b.summary@.len() > 0 && b.analysis@.len() > 0,
{
}

} // verus!
