use vstd::prelude::*;
use crate::pipeline::{BrowserResponse, ProcessError};
use crate::text::{json_text, quote_json};

verus! {

/// The JSON object sent for a loaded page, from the already quoted values;
/// the keys are in sorted order and `baseUrl` repeats the final URL.
pub open spec fn success_layout(
    analysis: Seq<char>,
    url: Seq<char>,
    content: Seq<char>,
    summary: Seq<char>,
) -> Seq<char> {
    "{\"analysis\":"@ + analysis + ",\"baseUrl\":"@ + url + ",\"content\":"@ + content
        + ",\"summary\":"@ + summary + ",\"url\":"@ + url + "}"@
}

/// The JSON object sent for a failure, from the already quoted message.
pub open spec fn error_layout(message: Seq<char>) -> Seq<char> {
    "{\"error\":"@ + message + "}"@
}

/// The text of the error reported for a failed run; a failure in the round
/// after a redirect says so.
pub open spec fn error_text(e: ProcessError) -> Seq<char> {
    if e.redirected {
        "Error following redirect: "@ + e.message@
    } else {
        "Error loading URL: "@ + e.message@
    }
}

/// The body for a successful load.
pub open spec fn success_body_text(r: BrowserResponse) -> Seq<char> {
    success_layout(
        json_text(r.analysis@),
        json_text(r.url@),
        json_text(r.content@),
        json_text(r.summary@),
    )
}

/// The body for a failed load.
pub open spec fn error_body_text(e: ProcessError) -> Seq<char> {
    error_layout(json_text(error_text(e)))
}

/// Lays out the body of a successful load from JSON-quoted values.
pub fn assemble_success(analysis: &str, url: &str, content: &str, summary: &str) -> (r: String)
    ensures
        r@ == success_layout(analysis@, url@, content@, summary@),
{
    let mut out = String::new();
    out.append("{\"analysis\":");
    out.append(analysis);
    out.append(",\"baseUrl\":");
    out.append(url);
    out.append(",\"content\":");
    out.append(content);
    out.append(",\"summary\":");
    out.append(summary);
    out.append(",\"url\":");
    out.append(url);
    out.append("}");
    assert(out@ =~= success_layout(analysis@, url@, content@, summary@));
    out
}

/// Lays out the body of a failure from a JSON-quoted message.
pub fn assemble_error(message: &str) -> (r: String)
    ensures
        r@ == error_layout(message@),
{
    let mut out = String::new();
    out.append("{\"error\":");
    out.append(message);
    out.append("}");
    assert(out@ =~= error_layout(message@));
    out
}

/// The message reported for a failed run.
pub fn error_message(e: &ProcessError) -> (r: String)
    ensures
        r@ == error_text(*e),
{
    let mut out = if e.redirected {
        String::from_str("Error following redirect: ")
    } else {
        String::from_str("Error loading URL: ")
    };
    out.append(e.message.as_str());
    out
}

/// The JSON body answering a load request: the page's fields on success, an
/// `error` field on failure.
pub fn response_body(result: &Result<BrowserResponse, ProcessError>) -> (r: Option<String>)
    ensures
        *result matches Ok(p) ==> (r matches Some(t) && t@ == success_body_text(p)),
        *result matches Err(e) ==> (r matches Some(t) && t@ == error_body_text(e)),
{
    match result {
        Ok(p) => {
            let analysis = quote_json(p.analysis.as_str())?;
            let url = quote_json(p.url.as_str())?;
            let content = quote_json(p.content.as_str())?;
            let summary = quote_json(p.summary.as_str())?;
            Some(assemble_success(analysis.as_str(), url.as_str(), content.as_str(), summary.as_str()))
        },
        Err(e) => {
            let text = error_message(e);
            let message = quote_json(text.as_str())?;
            Some(assemble_error(message.as_str()))
        },
    }
}

} // verus!
