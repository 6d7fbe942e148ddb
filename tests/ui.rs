use web4::session::SessionState;
use web4::ui::{address_from_reply, display_script, load_script, refresh_script, tab_bar_html};

#[test]
fn tab_bar_markup() {
    assert_eq!(
        tab_bar_html(2, 1),
        "<div class='tab' onclick='switchTab(0)'>Tab 1</div><div class='tab active' onclick='switchTab(1)'>Tab 2</div>"
    );
    assert_eq!(tab_bar_html(0, 0), "");
}

#[test]
fn tab_bar_two_digit_numbers() {
    let bar = tab_bar_html(11, 10);
    assert!(bar.ends_with("<div class='tab active' onclick='switchTab(10)'>Tab 11</div>"));
}

#[test]
fn refresh_script_shows_active_url() {
    let mut s = SessionState::with_initial_tab((), "http://a".to_string());
    s.create_tab((), "http://b".to_string());
    let script = refresh_script(&s).unwrap();
    let bar = tab_bar_html(2, 1);
    assert_eq!(
        script,
        format!(
            "document.getElementById('tab-bar').innerHTML = {};\ndocument.getElementById('url-input').value = \"http://b\";",
            serde_json::to_string(&bar).unwrap()
        )
    );
}

#[test]
fn load_and_display_scripts() {
    assert_eq!(load_script("http://x/'y'").unwrap(), "loadUrl(\"http://x/'y'\");");
    assert_eq!(display_script("{\"a\":1}"), "displayResult({\"a\":1});");
}

#[test]
fn address_reply_is_decoded_and_trimmed() {
    assert_eq!(address_from_reply("\"  http://x \\n\""), Some("http://x".to_string()));
    assert_eq!(address_from_reply("\"\""), Some(String::new()));
    assert_eq!(address_from_reply("null"), None);
    assert_eq!(address_from_reply("not json"), None);
}

#[test]
fn decimal_numerals() {
    assert_eq!(web4::text::decimal(0), "0");
    assert_eq!(web4::text::decimal(7), "7");
    assert_eq!(web4::text::decimal(10), "10");
    assert_eq!(web4::text::decimal(305), "305");
    assert_eq!(web4::text::decimal(usize::MAX), usize::MAX.to_string());
}

#[test]
fn load_script_escapes_control_characters() {
    assert_eq!(
        load_script("a\u{1}\u{1f}\t\"\\b").unwrap(),
        "loadUrl(\"a\\u0001\\u001f\\t\\\"\\\\b\");"
    );
}
