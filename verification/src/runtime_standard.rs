//! The standard-mode page engine: keeps scripts running but opens every
//! link in place, hides advertising frames and boxes, and turns pop-up
//! windows into navigation requests to the host.
use vstd::prelude::*;
use crate::text::{replace_all, contains_pat, chars_of, string_of, safe_replacement,
    cannot_begin, cannot_continue, diverge, lemma_replace_removes, lemma_replace_keeps_free,
    lemma_replace_absent};
use crate::markup::{
    EngineOutput, decoded_or_empty, decode_or_empty, replace_in, append, TARGET_BLANK_DQ,
    TARGET_BLANK_SQ, TARGET_SELF_DQ, TARGET_SELF_SQ,
};

verus! {

/// The style sheet placed before the page: hides advertising frames and boxes.
pub const ADBLOCK_CSS: &'static str = r#"
        <style>
            iframe[src*="doubleclick"], iframe[src*="ads"], iframe[src*="syndication"], iframe[src*="taboola"],
            .ad, .ads, .advertisement, [id*="google_ads"], [class*="banner"], [class*="ad-container"] {
                display: none !important;
                pointer-events: none !important;
                width: 0 !important;
                height: 0 !important;
                opacity: 0 !important;
            }
        </style>
    "#;

/// The script placed after the page: turns `window.open` into a navigation request to the host.
pub const INTERCEPTOR_JS: &'static str = r#"
        <script>
            window.open = function(url) {
                if (url && url.startsWith('http')) {
                    window.parent.postMessage({ type: 'NAVIGATE', url: url }, '*');
                }
                return null;
            };
        </script>
    "#;

/// The standard-mode badge placed at the end of the page.
pub const INFO_BADGE: &'static str = r#"
        <div id="iso-standard-badge" style="position: fixed; bottom: 50px; right: 20px; background: rgba(0, 20, 50, 0.95); color: #00ccff; border: 1px solid #00ccff; padding: 12px 18px; font-family: monospace; font-size: 11px; border-radius: 4px; z-index: 2147483647; box-shadow: 0 0 10px rgba(0, 204, 255, 0.2);">
            <div style="display: flex; justify-content: space-between; align-items: center; margin-bottom: 8px;">
                <strong style="font-size: 13px;">[*] STANDARD MODE (MOD 2)</strong>
                <button onclick="document.getElementById('iso-standard-badge').style.display='none'" style="background: none; border: none; color: #00ccff; cursor: pointer; font-weight: bold; font-size: 14px; margin-left: 20px;">X</button>
            </div>
            <span style="color: #aaa; line-height: 1.5;">Dinamik JS Kum Havuzu Aktif.<br>İşlem ve formlar kullanılabilir.</span>
        </div>
    "#;

/// The fixed log line of the standard mode.
pub const LOG_LINE: &'static str = "STANDARD_MODE // Agresif AdBlocker ve Host Kalkanı Aktif.";

/// The standard rewriting of the page text: every link that would open a
/// new window opens in place.
pub open spec fn standard_rewrite(raw: Seq<char>) -> Seq<char> {
    replace_all(replace_all(raw, TARGET_BLANK_DQ@, TARGET_SELF_DQ@), TARGET_BLANK_SQ@, TARGET_SELF_SQ@)
}

/// The page that the engine renders for the page text `raw`.
pub open spec fn standard_page(raw: Seq<char>) -> Seq<char> {
    ADBLOCK_CSS@ + standard_rewrite(raw) + INTERCEPTOR_JS@ + INFO_BADGE@
}

/// The standard rewriting of a page text.
pub fn standard_html(raw: &str) -> (out: String)
    ensures
        out@ == standard_rewrite(raw@),
{
    let mut cs = chars_of(raw);
    replace_in(&mut cs, TARGET_BLANK_DQ, TARGET_SELF_DQ);
    replace_in(&mut cs, TARGET_BLANK_SQ, TARGET_SELF_SQ);
    string_of(cs.as_slice())
}

/// Rewrites the page held by `input` in standard mode: a fixed log line,
/// and the rewritten text between the style sheet and the interceptor and
/// badge.
pub fn on_data_received(input: &[u8]) -> (out: EngineOutput)
    ensures
        out.log@ == LOG_LINE@,
        out.html@ == standard_page(decoded_or_empty(input@)),
{
    let raw = decode_or_empty(input);
    let body = standard_html(raw.as_str());
    let mut html = String::from_str(ADBLOCK_CSS);
    append(&mut html, body.as_str());
    append(&mut html, INTERCEPTOR_JS);
    append(&mut html, INFO_BADGE);
    EngineOutput { log: String::from_str(LOG_LINE), html }
}

proof fn lemma_target_replacements_safe()
    ensures
        safe_replacement(TARGET_SELF_DQ@, TARGET_BLANK_DQ@),
        safe_replacement(TARGET_SELF_SQ@, TARGET_BLANK_DQ@),
        safe_replacement(TARGET_SELF_SQ@, TARGET_BLANK_SQ@),
{
    reveal_strlit("target=\"_blank\"");
    reveal_strlit("target='_blank'");
    reveal_strlit("target=\"_self\"");
    reveal_strlit("target='_self'");
    reveal_with_fuel(cannot_begin, 16);
    reveal_with_fuel(cannot_continue, 16);
    reveal_with_fuel(diverge, 12);
}

/// In standard mode no link of the rewritten page asks for a new window:
/// neither `target="_blank"` nor `target='_blank'` occurs in it.
pub proof fn standard_rewrite_opens_links_in_place(raw: Seq<char>)
    ensures
        !contains_pat(standard_rewrite(raw), TARGET_BLANK_DQ@),
        !contains_pat(standard_rewrite(raw), TARGET_BLANK_SQ@),
{
    reveal_strlit("target=\"_blank\"");
    reveal_strlit("target='_blank'");
    lemma_target_replacements_safe();
    let s1 = replace_all(raw, TARGET_BLANK_DQ@, TARGET_SELF_DQ@);
    lemma_replace_removes(raw, TARGET_BLANK_DQ@, TARGET_SELF_DQ@);
    lemma_replace_keeps_free(s1, TARGET_BLANK_SQ@, TARGET_SELF_SQ@, TARGET_BLANK_DQ@);
    lemma_replace_removes(s1, TARGET_BLANK_SQ@, TARGET_SELF_SQ@);
}

/// Standard mode changes nothing else: a page without blank link targets
/// passes through unchanged.
pub proof fn standard_rewrite_keeps_pages_without_blank_targets(raw: Seq<char>)
    requires
        !contains_pat(raw, TARGET_BLANK_DQ@),
        !contains_pat(raw, TARGET_BLANK_SQ@),
    ensures
        standard_rewrite(raw) == raw,
{
    lemma_replace_absent(raw, TARGET_BLANK_DQ@, TARGET_SELF_DQ@);
    lemma_replace_absent(raw, TARGET_BLANK_SQ@, TARGET_SELF_SQ@);
}

} // verus!
