use isobrowse::engine_ghost;
use isobrowse::runtime_standard;
use isobrowse::runtime_surf;
use isobrowse::markup::decode_or_empty;
use isobrowse::nojs::{strip_active_content, tracker_count, nojs_render};

const SAMPLE: &str = "<html><head><SCRIPT src=x></SCRIPT><script>alert(1)</script></head>\
<body><a href='/a' target=\"_blank\" onclick=\"go()\">A</a><a target='_blank'>B</a>\
<iframe src=ad></iframe><IFRAME src=ad2></IFRAME><noscript>nojs</noscript>\
<p>google-analytics G\u{130}\u{212A}</p></body></html>";

/// Replaces every occurrence of `pat`, ASCII letter case aside, left to
/// right (ASCII lowercasing keeps every byte offset).
fn replace_ci(s: &str, pat: &str, rep: &str) -> String {
    let lower = s.to_ascii_lowercase();
    let pat = pat.to_ascii_lowercase();
    let mut out = String::new();
    let mut last = 0;
    for (i, _) in lower.match_indices(pat.as_str()) {
        out.push_str(&s[last..i]);
        out.push_str(rep);
        last = i + pat.len();
    }
    out.push_str(&s[last..]);
    out
}

fn ghost_expected(raw: &str) -> (String, String) {
    let script_count = raw.to_lowercase().matches("<script").count();
    let iframe_count = raw.to_lowercase().matches("<iframe").count();
    let s = replace_ci(raw, "target=\"_blank\"", "");
    let s = replace_ci(&s, "target='_blank'", "");
    let s = replace_ci(&s, "<script", "<script type='application/ghost' style='display:none;'");
    let s = replace_ci(&s, "onclick", "data-blocked-click");
    let ghost_html = replace_ci(&s, "<iframe", "<iframe sandbox='' style='opacity: 0.3; pointer-events: none;' ");
    let html = format!(
        "{}{}{}{}",
        engine_ghost::SAFE_CSS,
        ghost_html,
        engine_ghost::INTERCEPTOR_JS,
        engine_ghost::INFO_BADGE
    );
    let log = format!("GHOST_MODE // {} script, {} iframe kilitlendi.", script_count, iframe_count);
    (log, html)
}

fn surf_expected(raw: &str) -> (String, String) {
    let script_count = raw.to_lowercase().matches("<script").count();
    let iframe_count = raw.to_lowercase().matches("<iframe").count();
    let s = replace_ci(raw, "target=\"_blank\"", "");
    let s = replace_ci(&s, "target='_blank'", "");
    let s = replace_ci(&s, "<script", "<template");
    let s = replace_ci(&s, "</script>", "</template>");
    let s = replace_ci(&s, "onclick", "data-blocked-click");
    let ghost_html = replace_ci(&s, "<iframe", "<iframe sandbox='' style='opacity: 0.3; pointer-events: none;' ");
    let html = format!("{}{}", ghost_html, runtime_surf::INTERCEPTOR_JS);
    let log = format!("SURF_MODE // {} scripts, {} iframes locked down.", script_count, iframe_count);
    (log, html)
}

#[test]
fn ghost_engine_rewrites_and_counts() {
    let out = engine_ghost::on_data_received(SAMPLE.as_bytes());
    let (log, html) = ghost_expected(SAMPLE);
    assert_eq!(out.log, log);
    assert_eq!(out.html, html);
    assert_eq!(out.log, "GHOST_MODE // 2 script, 2 iframe kilitlendi.");
}

#[test]
fn standard_engine_keeps_links_in_place() {
    let out = runtime_standard::on_data_received(SAMPLE.as_bytes());
    let standard_html = SAMPLE
        .replace("target=\"_blank\"", "target=\"_self\"")
        .replace("target='_blank'", "target='_self'");
    let expected = format!(
        "{}{}{}{}",
        runtime_standard::ADBLOCK_CSS,
        standard_html,
        runtime_standard::INTERCEPTOR_JS,
        runtime_standard::INFO_BADGE
    );
    assert_eq!(out.html, expected);
    assert_eq!(out.log, "STANDARD_MODE // Agresif AdBlocker ve Host Kalkanı Aktif.");
    let body = runtime_standard::standard_html(SAMPLE);
    assert!(!body.contains("target=\"_blank\""));
    assert!(!body.contains("target='_blank'"));
}

#[test]
fn surf_engine_rewrites_and_counts() {
    let out = runtime_surf::on_data_received(SAMPLE.as_bytes());
    let (log, html) = surf_expected(SAMPLE);
    assert_eq!(out.log, log);
    assert_eq!(out.html, html);
}

#[test]
fn surf_engine_leaves_no_script_tag_in_any_case() {
    let pages = [
        "<script>a</script><div onclick=x><iframe></iframe><scr<script>ipt>",
        "<SCRIPT>a</SCRIPT><ScRiPt src=x><IFRAME></IFRAME>",
        "<scrtarget=\"_blank\"ipt>alert(1)</script>",
        "<SCRtarget='_blank'IPT>x",
    ];
    for page in pages {
        let body = runtime_surf::surf_html(page).to_lowercase();
        assert!(!body.contains("<script"), "{}", page);
    }
    assert_eq!(runtime_surf::surf_html("<scrtarget=\"_blank\"ipt>"), "<template>");
}

#[test]
fn ghost_engine_hides_every_script_in_any_case() {
    let page = "<script>a</script><div onclick=x><iframe></iframe><scr<SCRIPT>ipt><ScRiPt src=y>\
<scrtarget='_blank'ipt>";
    let body = engine_ghost::ghost_html(page).to_lowercase();
    let tag = engine_ghost::GHOST_SCRIPT;
    let mut seen = 0;
    for (i, _) in body.match_indices("<script") {
        assert!(body[i..].starts_with(tag));
        seen += 1;
    }
    assert_eq!(seen, 4);
}

#[test]
fn ghost_engine_sandboxes_frames_in_any_case() {
    let body = engine_ghost::ghost_html("<IFRAME src=a></IFRAME><iFrAmE>").to_lowercase();
    let sandboxed = "<iframe sandbox='' style='opacity: 0.3; pointer-events: none;' ";
    assert_eq!(body.matches("<iframe").count(), 2);
    for (i, _) in body.match_indices("<iframe") {
        assert!(body[i..].starts_with(sandboxed));
    }
}

#[test]
fn engines_read_invalid_utf8_as_empty_text() {
    let bytes: [u8; 3] = [0x3c, 0xff, 0x3e];
    assert_eq!(decode_or_empty(&bytes), "");
    let out = runtime_surf::on_data_received(&bytes);
    assert_eq!(out.html, runtime_surf::INTERCEPTOR_JS);
    assert_eq!(out.log, "SURF_MODE // 0 scripts, 0 iframes locked down.");
    let ghost = engine_ghost::on_data_received(&bytes);
    assert_eq!(ghost.log, "GHOST_MODE // 0 script, 0 iframe kilitlendi.");
}

#[test]
fn engines_decode_multibyte_text() {
    let text = "ölçü — ✓ <script>";
    assert_eq!(decode_or_empty(text.as_bytes()), text);
}

fn nojs_expected(pipe_data: &str) -> (usize, String) {
    let lower_html = pipe_data.to_lowercase();
    let blocked = lower_html.matches("<script").count()
        + lower_html.matches("<iframe").count()
        + lower_html.matches("google-analytics").count();
    let s = replace_ci(pipe_data, "<script", "<template");
    let s = replace_ci(&s, "</script>", "</template>");
    let s = replace_ci(&s, "<iframe", "<template");
    let s = replace_ci(&s, "</iframe>", "</template>");
    let s = replace_ci(&s, "<noscript", "<div class=\"iso-noscript\"");
    let html = replace_ci(&s, "</noscript>", "</div>");
    (blocked, html)
}

#[test]
fn nojs_rewrite_matches_the_replacement_chain() {
    let (blocked, html) = nojs_expected(SAMPLE);
    assert_eq!(strip_active_content(SAMPLE), html);
    assert_eq!(tracker_count(&SAMPLE.to_lowercase()), blocked);
    assert_eq!(blocked, 5);
    let shown = nojs_render(SAMPLE);
    assert_eq!(shown.blocked, blocked);
    let (_, surf) = surf_expected(&html);
    assert_eq!(shown.html, surf);
}

#[test]
fn nojs_rewrite_removes_script_and_frame_tags() {
    for page in [SAMPLE, "<<scriptscript<IFRAME<iframe<SCRIPT", "<Script>x</ScRiPt><iFrame>"] {
        let out = strip_active_content(page).to_lowercase();
        assert!(!out.contains("<script") && !out.contains("<iframe"), "{}", page);
    }
    assert_eq!(strip_active_content("<Script>x</Script>"), "<template>x</template>");
}

#[test]
fn every_frame_of_a_rewritten_page_is_sandboxed() {
    let sandboxed = "<iframe sandbox='' style='opacity: 0.3; pointer-events: none;' ";
    for body in [runtime_surf::surf_html(SAMPLE), engine_ghost::ghost_html(SAMPLE),
        runtime_surf::surf_html("<iframe<iframe x><<IFRAME")] {
        let body = body.to_lowercase();
        let mut from = 0;
        while let Some(i) = body[from..].find("<iframe") {
            assert!(body[from + i..].starts_with(sandboxed));
            from += i + 1;
        }
    }
}

#[test]
fn engines_read_back_the_bytes_of_any_text() {
    for s in ["", "plain", "çok güzel ✓ 🚀", "<script>"] {
        assert_eq!(decode_or_empty(s.as_bytes()), s);
    }
}

#[test]
fn standard_engine_keeps_a_page_without_blank_targets() {
    let page = "<a href='/x' target=\"_top\">x</a><script>run()</script><iframe src=y></iframe>";
    assert_eq!(runtime_standard::standard_html(page), page);
}
