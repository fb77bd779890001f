use isobrowse::host::{pipeline_request_of, render_frame, render_call, render_script, FALLBACK_CSS, SAFE_SCRIPT};
use isobrowse::notices::terminal_script;
use isobrowse::pages::{error_page, get_error_page, rhai_page};

#[test]
fn ipc_messages_carry_pipeline_requests() {
    assert_eq!(pipeline_request_of("RUN_PIPELINE:/echo hi"), Some("/echo hi".to_string()));
    assert_eq!(pipeline_request_of("RUN_PIPELINE:/echo RUN_PIPELINE:x"), Some("/echo x".to_string()));
    assert_eq!(pipeline_request_of("OTHER:/echo hi"), None);
}

#[test]
fn render_frame_wraps_the_page() {
    let url = "isobrowse://sandbox/help";
    let expected = format!("{}\n{}\n{}\n{}", format!("<base href=\"{}\" target=\"_self\">", url), FALLBACK_CSS, SAFE_SCRIPT, "<p>x</p>");
    assert_eq!(render_frame(url, "<p>x</p>"), expected);
}

#[test]
fn render_script_encodes_the_frame_as_json() {
    let html = "<p title=\"q\">tab\there\\ \u{1} é</p>";
    let url = "https://example.com/";
    let frame = render_frame(url, html);
    let expected = format!(
        "window.renderSurfMode({}, '{}', {}, {}, {})",
        serde_json::to_string(&frame).unwrap(),
        url,
        1500u128,
        42usize,
        3usize
    );
    assert_eq!(render_script(html, url, 1500, 42, 3), expected);
    assert_eq!(render_call("\"x\"", "u", 0, 0, 0), "window.renderSurfMode(\"x\", 'u', 0, 0, 0)");
}

#[test]
fn terminal_script_calls_the_terminal() {
    assert_eq!(terminal_script("> hi"), "if(window.updateTerminal) window.updateTerminal('> hi');");
}

#[test]
fn pages_frame_their_data() {
    assert_eq!(
        error_page("boom"),
        "<div style='color:#ff3366; font-family:monospace; text-align:center; padding:50px;'><h2>🚨 PIPELINE ERROR</h2><p>boom</p></div>"
    );
    assert_eq!(
        get_error_page("x"),
        "<div style='color:#ff3366; font-family:monospace; text-align:center; padding:50px;'><h2>🚨 PIPELINE ERROR</h2><p>Download Failed:<br>x</p></div>"
    );
    let page = rhai_page(17, "1 + 1", "2");
    assert!(page.contains("<span style='color:#ffcc00;'>17 ms</span>"));
    assert!(page.contains("[INPUT SCRIPT]"));
}

/// The JSON string literal of a text, escaped character by character as
/// the library's contract describes it.
fn json_literal(s: &str) -> String {
    let mut out = String::from("\"");
    for c in s.chars() {
        match c {
            '"' => out.push_str("\\\""),
            '\\' => out.push_str("\\\\"),
            '\u{8}' => out.push_str("\\b"),
            '\t' => out.push_str("\\t"),
            '\n' => out.push_str("\\n"),
            '\u{c}' => out.push_str("\\f"),
            '\r' => out.push_str("\\r"),
            c if (c as u32) < 0x20 => out.push_str(&format!("\\u{:04x}", c as u32)),
            c => out.push(c),
        }
    }
    out.push('"');
    out
}

#[test]
fn render_script_escapes_the_frame_character_by_character() {
    let html = "<p a=\"q\">\\ \u{8}\u{c}\r\n\t\u{1}\u{1f}\u{7f} é ✓</p>";
    let url = "u";
    let frame = render_frame(url, html);
    let expected = format!("window.renderSurfMode({}, 'u', 1, 2, 3)", json_literal(&frame));
    assert_eq!(render_script(html, url, 1, 2, 3), expected);
    assert_eq!(json_literal("\u{1b}"), "\"\\u001b\"");
}
