use vstd::prelude::*;
use crate::session::SessionState;
use crate::text::{
    decimal,
    decimal_text,
    json_string_in,
    json_text,
    quote_json,
    trim,
    trimmed,
    unquote_json,
};

verus! {

/// The markup of the tab at position `i` in the tab bar.
pub open spec fn tab_entry(i: nat, active: bool) -> Seq<char> {
    "<div class='tab"@ + (if active {
        " active"@
    } else {
        Seq::<char>::empty()
    }) + "' onclick='switchTab("@ + decimal_text(i) + ")'>Tab "@ + decimal_text(i + 1)
        + "</div>"@
}

/// The markup of the first `count` tabs, the one at `active` highlighted.
pub open spec fn tab_bar(count: nat, active: nat) -> Seq<char>
    decreases count,
{
    if count == 0 {
        Seq::<char>::empty()
    } else {
        tab_bar((count - 1) as nat, active) + tab_entry((count - 1) as nat, count - 1 == active)
    }
}

/// The script that redraws the tab bar and the address field, from the
/// JSON-quoted markup and URL.
pub open spec fn refresh_layout(bar: Seq<char>, url: Seq<char>) -> Seq<char> {
    "document.getElementById('tab-bar').innerHTML = "@ + bar
        + ";\ndocument.getElementById('url-input').value = "@ + url + ";"@
}

/// The script that has a page load `url`, from the JSON-quoted URL.
pub open spec fn load_layout(url: Seq<char>) -> Seq<char> {
    "loadUrl("@ + url + ");"@
}

/// The script that shows a pipeline result, from its JSON body.
pub open spec fn display_layout(body: Seq<char>) -> Seq<char> {
    "displayResult("@ + body + ");"@
}

/// The markup of a tab bar of `count` tabs with `active` highlighted.
pub fn tab_bar_html(count: usize, active: usize) -> (r: String)
    ensures
        r@ == tab_bar(count as nat, active as nat),
{
    let mut out = String::new();
    let mut i: usize = 0;
    while i < count
        invariant
            i <= count,
            out@ == tab_bar(i as nat, active as nat),
        decreases count - i,
    {
        let ghost before = out@;
        out.append("<div class='tab");
        if i == active {
            out.append(" active");
        }
        out.append("' onclick='switchTab(");
        let index = decimal(i);
        out.append(index.as_str());
        out.append(")'>Tab ");
        let number = decimal(i + 1);
        out.append(number.as_str());
        out.append("</div>");
        assert(out@ =~= before + tab_entry(i as nat, i == active));
        i = i + 1;
    }
    out
}

/// Lays out the refresh script from the JSON-quoted tab bar and URL.
pub fn assemble_refresh(bar: &str, url: &str) -> (r: String)
    ensures
        r@ == refresh_layout(bar@, url@),
{
    let mut out = String::new();
    out.append("document.getElementById('tab-bar').innerHTML = ");
    out.append(bar);
    out.append(";\ndocument.getElementById('url-input').value = ");
    out.append(url);
    out.append(";");
    assert(out@ =~= refresh_layout(bar@, url@));
    out
}

/// The script that shows the session on the active tab's surface: every tab
/// in the bar, the active one highlighted, and the active tab's URL in the
/// address field.
pub fn refresh_script<S>(session: &SessionState<S>) -> (r: Option<String>)
    requires
        session.wf(),
    ensures
        r matches Some(t) && t@ == refresh_layout(
            json_text(tab_bar(session@.tabs.len(), session@.active as nat)),
            json_text(session@.tabs[session@.active].url@),
        ),
{
    let bar = tab_bar_html(session.len(), session.active_index());
    let bar_quoted = quote_json(bar.as_str())?;
    let url_quoted = quote_json(session.active_tab().url.as_str())?;
    Some(assemble_refresh(bar_quoted.as_str(), url_quoted.as_str()))
}

/// The script that has a page load `url`.
pub fn load_script(url: &str) -> (r: Option<String>)
    ensures
        r matches Some(t) && t@ == load_layout(json_text(url@)),
{
    let quoted = quote_json(url)?;
    let mut out = String::from_str("loadUrl(");
    out.append(quoted.as_str());
    out.append(");");
    assert(out@ =~= load_layout(json_text(url@)));
    Some(out)
}

/// The script that shows a pipeline result given as its JSON body.
pub fn display_script(body: &str) -> (r: String)
    ensures
        r@ == display_layout(body@),
{
    let mut out = String::from_str("displayResult(");
    out.append(body);
    out.append(");");
    assert(out@ =~= display_layout(body@));
    out
}

/// The address typed in a tab, from the JSON value that the surface returned
/// for the address field: the string it holds, trimmed; `None` where the
/// reply is no JSON string.
pub fn address_from_reply(reply: &str) -> (r: Option<String>)
    ensures
        json_string_in(reply@) is None ==> r is None,
        json_string_in(reply@) matches Some(v) ==> (r matches Some(u) && u@ == trimmed(v)),
{
    let value = unquote_json(reply)?;
    Some(trim(value.as_str()).to_owned())
}

} // verus!
