//! The ghost-mode page engine: hides scripts, disables click handlers,
//! keeps links in place and freezes frames, then frames the page with a
//! style sheet, a navigation interceptor and a mode badge.
use vstd::prelude::*;
use crate::text::{
    occurs_at, marks, lemma_replace_marks, lemma_replace_keeps_marked, safe_replacement,
    cannot_begin, cannot_continue, diverge, count_matches, decimal, count, decimal_string,
    replace_all, replace_all_ci, chars_of, string_of, ascii_lower, no_capitals_from,
    lemma_lower_replace_ci, lemma_lower_of_lowercase,
};
use crate::markup::{
    EngineOutput, decoded_or_empty, decode_or_empty, unicode_lowercase, lowercase, replace_in_ci,
    append, SCRIPT_OPEN, IFRAME_OPEN, ONCLICK, BLOCKED_CLICK, TARGET_BLANK_DQ, TARGET_BLANK_SQ,
    SANDBOXED_IFRAME, EMPTY,
};

verus! {

/// The replacement that turns a script into an inert, hidden data block.
pub const GHOST_SCRIPT: &'static str = "<script type='application/ghost' style='display:none;'";

/// The style sheet placed before the page: hides advertising boxes.
pub const SAFE_CSS: &'static str = r#"
        <style>
            .ad, .advertisement, [id*="ad-"], [class*="ad-"], [id*="banner"], [class*="banner"] { display: none !important; }
            body { margin: 0; padding: 0; background-color: #fff; }
        </style>
    "#;

/// The script placed after the page: turns link clicks into navigation requests to the host and blocks form submission.
pub const INTERCEPTOR_JS: &'static str = r#"
        <script>
            document.addEventListener('click', function(e) {
                const target = e.target.closest('a');
                if (target && target.href) {
                    e.preventDefault();
                    e.stopPropagation();
                    window.parent.postMessage({ type: 'NAVIGATE', url: target.href }, '*');
                }
            }, true);
            
            document.addEventListener('submit', function(e) {
                e.preventDefault();
                e.stopPropagation();
            }, true);
        </script>
    "#;

/// The ghost-mode badge placed at the end of the page.
pub const INFO_BADGE: &'static str = r#"
        <div id="iso-warning-badge" style="position: fixed; bottom: 50px; right: 20px; background: rgba(0, 20, 0, 0.95); color: #00ff41; border: 1px solid #00ff41; padding: 12px 18px; font-family: monospace; font-size: 11px; border-radius: 4px; z-index: 2147483647; box-shadow: 0 0 10px rgba(0, 255, 65, 0.2);">
            <div style="display: flex; justify-content: space-between; align-items: center; margin-bottom: 8px;">
                <strong style="font-size: 13px;">[!] GHOST MODE AKTİF</strong>
                <button onclick="document.getElementById('iso-warning-badge').style.display='none'" style="background: none; border: none; color: #00ff41; cursor: pointer; font-weight: bold; font-size: 14px; margin-left: 20px;">X</button>
            </div>
            <span style="color: #aaa; line-height: 1.5;">JS ve İframe'ler kilitlendi.<br>Site boş veya hatalıysa, bu site<br>Mod 2'ye (Standart) ihtiyaç duyar.</span>
        </div>
    "#;

pub const LOG_PREFIX: &'static str = "GHOST_MODE // ";
pub const LOG_SCRIPTS: &'static str = " script, ";
pub const LOG_IFRAMES: &'static str = " iframe kilitlendi.";

/// The ghost rewriting of the page text, step by step as the engine
/// applies it. Tag and attribute names are matched regardless of ASCII
/// letter case, and the blank link targets go first, so that their removal
/// cannot join the pieces of a tag that the later steps would miss.
pub open spec fn ghost_rewrite(raw: Seq<char>) -> Seq<char> {
    let s1 = replace_all_ci(raw, TARGET_BLANK_DQ@, EMPTY@);
    let s2 = replace_all_ci(s1, TARGET_BLANK_SQ@, EMPTY@);
    let s3 = replace_all_ci(s2, SCRIPT_OPEN@, GHOST_SCRIPT@);
    let s4 = replace_all_ci(s3, ONCLICK@, BLOCKED_CLICK@);
    replace_all_ci(s4, IFRAME_OPEN@, SANDBOXED_IFRAME@)
}

/// The log line that reports how many scripts and frames were counted in
/// the lowercased page text.
pub open spec fn lockdown_log_spec(lowered: Seq<char>) -> Seq<char> {
    LOG_PREFIX@ + decimal(count_matches(lowered, SCRIPT_OPEN@)) + LOG_SCRIPTS@
        + decimal(count_matches(lowered, IFRAME_OPEN@)) + LOG_IFRAMES@
}

/// The page that the engine renders for the page text `raw`.
pub open spec fn ghost_page(raw: Seq<char>) -> Seq<char> {
    SAFE_CSS@ + ghost_rewrite(raw) + INTERCEPTOR_JS@ + INFO_BADGE@
}

/// The ghost rewriting of a page text.
pub fn ghost_html(raw: &str) -> (out: String)
    ensures
        out@ == ghost_rewrite(raw@),
{
    let mut cs = chars_of(raw);
    replace_in_ci(&mut cs, TARGET_BLANK_DQ, EMPTY);
    replace_in_ci(&mut cs, TARGET_BLANK_SQ, EMPTY);
    replace_in_ci(&mut cs, SCRIPT_OPEN, GHOST_SCRIPT);
    replace_in_ci(&mut cs, ONCLICK, BLOCKED_CLICK);
    replace_in_ci(&mut cs, IFRAME_OPEN, SANDBOXED_IFRAME);
    string_of(cs.as_slice())
}

/// The lockdown log line for the lowercased page text `lowered`.
pub fn lockdown_log(lowered: &str) -> (out: String)
    ensures
        out@ == lockdown_log_spec(lowered@),
{
    proof {
        reveal_strlit("<script");
        reveal_strlit("<iframe");
    }
    let scripts = count(lowered, SCRIPT_OPEN);
    let iframes = count(lowered, IFRAME_OPEN);
    let mut out = String::from_str(LOG_PREFIX);
    let n1 = decimal_string(scripts as u128);
    append(&mut out, n1.as_str());
    append(&mut out, LOG_SCRIPTS);
    let n2 = decimal_string(iframes as u128);
    append(&mut out, n2.as_str());
    append(&mut out, LOG_IFRAMES);
    out
}

/// Rewrites the page held by `input` in ghost mode: the log line counts the
/// scripts and frames of the lowercased text, and the page is the rewritten
/// text between the style sheet and the interceptor and badge.
pub fn on_data_received(input: &[u8]) -> (out: EngineOutput)
    ensures
        out.log@ == lockdown_log_spec(unicode_lowercase(decoded_or_empty(input@))),
        out.html@ == ghost_page(decoded_or_empty(input@)),
{
    let raw = decode_or_empty(input);
    let lowered = lowercase(raw.as_str());
    let log = lockdown_log(lowered.as_str());
    let body = ghost_html(raw.as_str());
    let mut html = String::from_str(SAFE_CSS);
    append(&mut html, body.as_str());
    append(&mut html, INTERCEPTOR_JS);
    append(&mut html, INFO_BADGE);
    EngineOutput { log, html }
}


/// The lowercase form of the ghost rewriting: the same steps, replacing
/// exactly, on the lowercase form of the page text.
pub open spec fn lowered_ghost_rewrite(raw: Seq<char>) -> Seq<char> {
    let s1 = replace_all(ascii_lower(raw), TARGET_BLANK_DQ@, EMPTY@);
    let s2 = replace_all(s1, TARGET_BLANK_SQ@, EMPTY@);
    let s3 = replace_all(s2, SCRIPT_OPEN@, GHOST_SCRIPT@);
    let s4 = replace_all(s3, ONCLICK@, BLOCKED_CLICK@);
    replace_all(s4, IFRAME_OPEN@, SANDBOXED_IFRAME@)
}

/// Every pattern and replacement of the ghost rewriting is lowercase, so
/// lowering the rewritten page is rewriting the lowered page.
proof fn lemma_ghost_lowered(raw: Seq<char>)
    ensures
        ascii_lower(ghost_rewrite(raw)) == lowered_ghost_rewrite(raw),
{
    reveal_strlit("target=\"_blank\"");
    reveal_strlit("target='_blank'");
    reveal_strlit("<script");
    reveal_strlit("onclick");
    reveal_strlit("<iframe");
    reveal_strlit("<script type='application/ghost' style='display:none;'");
    reveal_strlit("data-blocked-click");
    reveal_strlit("");
    reveal_with_fuel(no_capitals_from, 60);
    lemma_lower_of_lowercase(TARGET_BLANK_DQ@);
    lemma_lower_of_lowercase(TARGET_BLANK_SQ@);
    lemma_lower_of_lowercase(SCRIPT_OPEN@);
    lemma_lower_of_lowercase(ONCLICK@);
    lemma_lower_of_lowercase(IFRAME_OPEN@);
    lemma_lower_of_lowercase(GHOST_SCRIPT@);
    lemma_lower_of_lowercase(BLOCKED_CLICK@);
    crate::markup::lemma_sandboxed_iframe_lowercase();
    lemma_lower_of_lowercase(EMPTY@);
    let s1 = replace_all_ci(raw, TARGET_BLANK_DQ@, EMPTY@);
    let s2 = replace_all_ci(s1, TARGET_BLANK_SQ@, EMPTY@);
    let s3 = replace_all_ci(s2, SCRIPT_OPEN@, GHOST_SCRIPT@);
    let s4 = replace_all_ci(s3, ONCLICK@, BLOCKED_CLICK@);
    lemma_lower_replace_ci(raw, TARGET_BLANK_DQ@, EMPTY@);
    lemma_lower_replace_ci(s1, TARGET_BLANK_SQ@, EMPTY@);
    lemma_lower_replace_ci(s2, SCRIPT_OPEN@, GHOST_SCRIPT@);
    lemma_lower_replace_ci(s3, ONCLICK@, BLOCKED_CLICK@);
    lemma_lower_replace_ci(s4, IFRAME_OPEN@, SANDBOXED_IFRAME@);
}

/// Every frame of the rewritten page is sandboxed and faded out, in any
/// ASCII letter case: each `<iframe` in its lowercase form opens the
/// sandboxed frame tag.
pub proof fn ghost_rewrite_sandboxes_every_frame(raw: Seq<char>)
    ensures
        forall|a: int|
            occurs_at(ascii_lower(ghost_rewrite(raw)), IFRAME_OPEN@, a) ==> occurs_at(
                ascii_lower(ghost_rewrite(raw)),
                SANDBOXED_IFRAME@,
                a,
            ),
{
    reveal_strlit("<iframe");
    reveal_strlit("<iframe sandbox='' style='opacity: 0.3; pointer-events: none;' ");
    reveal_with_fuel(cannot_begin, 70);
    reveal_with_fuel(cannot_continue, 10);
    reveal_with_fuel(diverge, 3);
    assert(marks(SANDBOXED_IFRAME@, IFRAME_OPEN@));
    lemma_ghost_lowered(raw);
    let s1 = replace_all(ascii_lower(raw), TARGET_BLANK_DQ@, EMPTY@);
    let s2 = replace_all(s1, TARGET_BLANK_SQ@, EMPTY@);
    let s3 = replace_all(s2, SCRIPT_OPEN@, GHOST_SCRIPT@);
    let s4 = replace_all(s3, ONCLICK@, BLOCKED_CLICK@);
    lemma_replace_marks(s4, IFRAME_OPEN@, SANDBOXED_IFRAME@);
}

/// Every script of the rewritten page is hidden, in any ASCII letter case:
/// each `<script` in its lowercase form opens the inert, hidden ghost
/// script tag.
pub proof fn ghost_rewrite_hides_every_script(raw: Seq<char>)
    ensures
        forall|a: int|
            occurs_at(ascii_lower(ghost_rewrite(raw)), SCRIPT_OPEN@, a) ==> occurs_at(
                ascii_lower(ghost_rewrite(raw)),
                GHOST_SCRIPT@,
                a,
            ),
{
    reveal_strlit("<script");
    reveal_strlit("<script type='application/ghost' style='display:none;'");
    reveal_strlit("onclick");
    reveal_strlit("data-blocked-click");
    reveal_strlit("<iframe");
    reveal_strlit("<iframe sandbox='' style='opacity: 0.3; pointer-events: none;' ");
    reveal_with_fuel(cannot_begin, 70);
    reveal_with_fuel(cannot_continue, 20);
    reveal_with_fuel(diverge, 4);
    assert(marks(GHOST_SCRIPT@, SCRIPT_OPEN@));
    assert(safe_replacement(BLOCKED_CLICK@, SCRIPT_OPEN@));
    assert(safe_replacement(GHOST_SCRIPT@, ONCLICK@));
    assert(safe_replacement(SANDBOXED_IFRAME@, SCRIPT_OPEN@));
    assert(safe_replacement(GHOST_SCRIPT@, IFRAME_OPEN@));
    lemma_ghost_lowered(raw);
    let s1 = replace_all(ascii_lower(raw), TARGET_BLANK_DQ@, EMPTY@);
    let s2 = replace_all(s1, TARGET_BLANK_SQ@, EMPTY@);
    let s3 = replace_all(s2, SCRIPT_OPEN@, GHOST_SCRIPT@);
    let s4 = replace_all(s3, ONCLICK@, BLOCKED_CLICK@);
    lemma_replace_marks(s2, SCRIPT_OPEN@, GHOST_SCRIPT@);
    lemma_replace_keeps_marked(s3, ONCLICK@, BLOCKED_CLICK@, SCRIPT_OPEN@, GHOST_SCRIPT@);
    lemma_replace_keeps_marked(s4, IFRAME_OPEN@, SANDBOXED_IFRAME@, SCRIPT_OPEN@, GHOST_SCRIPT@);
}

/// The ghost log line reports the scripts first and the frames second: after
/// `GHOST_MODE //` comes the number of `<script` openings of the lowercased page,
/// then `script,`, then the number of its `<iframe` openings, then `iframe kilitlendi.`.
pub proof fn ghost_log_counts_scripts_then_frames(lowered: Seq<char>)
    ensures
        lockdown_log_spec(lowered) == "GHOST_MODE // "@ + decimal(count_matches(lowered, "<script"@))
            + " script, "@ + decimal(count_matches(lowered, "<iframe"@)) + " iframe kilitlendi."@,
{
    reveal_strlit("GHOST_MODE // ");
    reveal_strlit(" script, ");
    reveal_strlit(" iframe kilitlendi.");
    reveal_strlit("<script");
    reveal_strlit("<iframe");
}

} // verus!
