//! The surf-mode page engine, the one the host runs on fetched pages:
//! turns scripts into inert templates, disables click handlers, keeps links
//! in place and freezes frames, then appends a navigation interceptor.
use vstd::prelude::*;
use crate::text::{
    occurs_at, marks, lemma_replace_marks, replace_all, replace_all_ci, contains_pat, count_matches,
    decimal, count, decimal_string, chars_of, string_of, safe_replacement, cannot_begin,
    cannot_continue, diverge, lemma_replace_removes, lemma_replace_keeps_free, ascii_lower,
    no_capitals_from, lemma_lower_replace_ci, lemma_lower_of_lowercase,
};
use crate::markup::{
    EngineOutput, decoded_or_empty, decode_or_empty, unicode_lowercase, lowercase, replace_in_ci,
    append, SCRIPT_OPEN, SCRIPT_CLOSE, IFRAME_OPEN, TEMPLATE_OPEN, TEMPLATE_CLOSE, ONCLICK,
    BLOCKED_CLICK, TARGET_BLANK_DQ, TARGET_BLANK_SQ, SANDBOXED_IFRAME, EMPTY,
};

verus! {

/// The script appended to the page: turns link clicks into navigation requests to the host and blocks form submission.
pub const INTERCEPTOR_JS: &'static str = r#"
        <script>
            document.addEventListener('click', function(e) {
                const target = e.target.closest('a');
                if (target && target.href) {
                    e.preventDefault();
                    e.stopPropagation();
                    window.parent.postMessage({ type: 'SURF_NAVIGATE', url: target.href }, '*');
                }
            }, true);
            
            document.addEventListener('submit', function(e) {
                e.preventDefault();
                e.stopPropagation();
            }, true);
        </script>
    "#;

pub const LOG_PREFIX: &'static str = "SURF_MODE // ";
pub const LOG_SCRIPTS: &'static str = " scripts, ";
pub const LOG_IFRAMES: &'static str = " iframes locked down.";

/// The surf rewriting of the page text, step by step as the engine applies
/// it. Tag and attribute names are matched regardless of ASCII letter case,
/// and the blank link targets go first, so that their removal cannot join
/// the pieces of a tag that the later steps would miss.
pub open spec fn surf_rewrite(raw: Seq<char>) -> Seq<char> {
    let s1 = replace_all_ci(raw, TARGET_BLANK_DQ@, EMPTY@);
    let s2 = replace_all_ci(s1, TARGET_BLANK_SQ@, EMPTY@);
    let s3 = replace_all_ci(s2, SCRIPT_OPEN@, TEMPLATE_OPEN@);
    let s4 = replace_all_ci(s3, SCRIPT_CLOSE@, TEMPLATE_CLOSE@);
    let s5 = replace_all_ci(s4, ONCLICK@, BLOCKED_CLICK@);
    replace_all_ci(s5, IFRAME_OPEN@, SANDBOXED_IFRAME@)
}

/// The log line that reports how many scripts and frames were counted in
/// the lowercased page text.
pub open spec fn lockdown_log_spec(lowered: Seq<char>) -> Seq<char> {
    LOG_PREFIX@ + decimal(count_matches(lowered, SCRIPT_OPEN@)) + LOG_SCRIPTS@
        + decimal(count_matches(lowered, IFRAME_OPEN@)) + LOG_IFRAMES@
}

/// The page that the engine renders for the page text `raw`.
pub open spec fn surf_page(raw: Seq<char>) -> Seq<char> {
    surf_rewrite(raw) + INTERCEPTOR_JS@
}

/// The surf rewriting of a page text.
pub fn surf_html(raw: &str) -> (out: String)
    ensures
        out@ == surf_rewrite(raw@),
{
    let mut cs = chars_of(raw);
    replace_in_ci(&mut cs, TARGET_BLANK_DQ, EMPTY);
    replace_in_ci(&mut cs, TARGET_BLANK_SQ, EMPTY);
    replace_in_ci(&mut cs, SCRIPT_OPEN, TEMPLATE_OPEN);
    replace_in_ci(&mut cs, SCRIPT_CLOSE, TEMPLATE_CLOSE);
    replace_in_ci(&mut cs, ONCLICK, BLOCKED_CLICK);
    replace_in_ci(&mut cs, IFRAME_OPEN, SANDBOXED_IFRAME);
    string_of(cs.as_slice())
}

/// The lockdown log line for the lowercased page text `lowered`.
pub fn lockdown_log(lowered: &str) -> (out: String)
    ensures
        out@ == lockdown_log_spec(lowered@),
{
    proof {
        reveal_strlit("<script");
        reveal_strlit("<iframe");
    }
    let scripts = count(lowered, SCRIPT_OPEN);
    let iframes = count(lowered, IFRAME_OPEN);
    let mut out = String::from_str(LOG_PREFIX);
    let n1 = decimal_string(scripts as u128);
    append(&mut out, n1.as_str());
    append(&mut out, LOG_SCRIPTS);
    let n2 = decimal_string(iframes as u128);
    append(&mut out, n2.as_str());
    append(&mut out, LOG_IFRAMES);
    out
}

/// Rewrites the page held by `input` in surf mode: the log line counts the
/// scripts and frames of the lowercased text, and the page is the rewritten
/// text followed by the interceptor.
pub fn on_data_received(input: &[u8]) -> (out: EngineOutput)
    ensures
        out.log@ == lockdown_log_spec(unicode_lowercase(decoded_or_empty(input@))),
        out.html@ == surf_page(decoded_or_empty(input@)),
{
    let raw = decode_or_empty(input);
    let lowered = lowercase(raw.as_str());
    let log = lockdown_log(lowered.as_str());
    let mut html = surf_html(raw.as_str());
    append(&mut html, INTERCEPTOR_JS);
    EngineOutput { log, html }
}

/// The lowercase form of the surf rewriting: the same steps, replacing
/// exactly, on the lowercase form of the page text.
pub open spec fn lowered_surf_rewrite(raw: Seq<char>) -> Seq<char> {
    let s1 = replace_all(ascii_lower(raw), TARGET_BLANK_DQ@, EMPTY@);
    let s2 = replace_all(s1, TARGET_BLANK_SQ@, EMPTY@);
    let s3 = replace_all(s2, SCRIPT_OPEN@, TEMPLATE_OPEN@);
    let s4 = replace_all(s3, SCRIPT_CLOSE@, TEMPLATE_CLOSE@);
    let s5 = replace_all(s4, ONCLICK@, BLOCKED_CLICK@);
    replace_all(s5, IFRAME_OPEN@, SANDBOXED_IFRAME@)
}

/// Every pattern and replacement of the surf rewriting is lowercase, so
/// lowering the rewritten page is rewriting the lowered page.
proof fn lemma_surf_lowered(raw: Seq<char>)
    ensures
        ascii_lower(surf_rewrite(raw)) == lowered_surf_rewrite(raw),
{
    reveal_strlit("target=\"_blank\"");
    reveal_strlit("target='_blank'");
    reveal_strlit("<script");
    reveal_strlit("</script>");
    reveal_strlit("onclick");
    reveal_strlit("<iframe");
    reveal_strlit("<template");
    reveal_strlit("</template>");
    reveal_strlit("data-blocked-click");
    reveal_strlit("<iframe sandbox='' style='opacity: 0.3; pointer-events: none;' ");
    reveal_strlit("");
    reveal_with_fuel(no_capitals_from, 70);
    lemma_lower_of_lowercase(TARGET_BLANK_DQ@);
    lemma_lower_of_lowercase(TARGET_BLANK_SQ@);
    lemma_lower_of_lowercase(SCRIPT_OPEN@);
    lemma_lower_of_lowercase(SCRIPT_CLOSE@);
    lemma_lower_of_lowercase(ONCLICK@);
    lemma_lower_of_lowercase(IFRAME_OPEN@);
    lemma_lower_of_lowercase(TEMPLATE_OPEN@);
    lemma_lower_of_lowercase(TEMPLATE_CLOSE@);
    lemma_lower_of_lowercase(BLOCKED_CLICK@);
    crate::markup::lemma_sandboxed_iframe_lowercase();
    lemma_lower_of_lowercase(EMPTY@);
    let s1 = replace_all_ci(raw, TARGET_BLANK_DQ@, EMPTY@);
    let s2 = replace_all_ci(s1, TARGET_BLANK_SQ@, EMPTY@);
    let s3 = replace_all_ci(s2, SCRIPT_OPEN@, TEMPLATE_OPEN@);
    let s4 = replace_all_ci(s3, SCRIPT_CLOSE@, TEMPLATE_CLOSE@);
    let s5 = replace_all_ci(s4, ONCLICK@, BLOCKED_CLICK@);
    lemma_lower_replace_ci(raw, TARGET_BLANK_DQ@, EMPTY@);
    lemma_lower_replace_ci(s1, TARGET_BLANK_SQ@, EMPTY@);
    lemma_lower_replace_ci(s2, SCRIPT_OPEN@, TEMPLATE_OPEN@);
    lemma_lower_replace_ci(s3, SCRIPT_CLOSE@, TEMPLATE_CLOSE@);
    lemma_lower_replace_ci(s4, ONCLICK@, BLOCKED_CLICK@);
    lemma_lower_replace_ci(s5, IFRAME_OPEN@, SANDBOXED_IFRAME@);
}

proof fn lemma_surf_replacements_safe()
    ensures
        safe_replacement(TEMPLATE_OPEN@, SCRIPT_OPEN@),
        safe_replacement(TEMPLATE_CLOSE@, SCRIPT_OPEN@),
        safe_replacement(BLOCKED_CLICK@, SCRIPT_OPEN@),
        safe_replacement(SANDBOXED_IFRAME@, SCRIPT_OPEN@),
{
    reveal_strlit("<script");
    reveal_strlit("<template");
    reveal_strlit("</template>");
    reveal_strlit("data-blocked-click");
    reveal_strlit("<iframe sandbox='' style='opacity: 0.3; pointer-events: none;' ");
    reveal_with_fuel(cannot_begin, 70);
    reveal_with_fuel(cannot_continue, 16);
    reveal_with_fuel(diverge, 8);
}

/// Surf mode leaves no script tag in the rewritten page, in any ASCII
/// letter case: `<script` does not occur in its lowercase form.
pub proof fn surf_rewrite_leaves_no_script_tag(raw: Seq<char>)
    ensures
        !contains_pat(ascii_lower(surf_rewrite(raw)), SCRIPT_OPEN@),
{
    reveal_strlit("<script");
    reveal_strlit("</script>");
    reveal_strlit("onclick");
    reveal_strlit("<iframe");
    lemma_surf_lowered(raw);
    lemma_surf_replacements_safe();
    let s1 = replace_all(ascii_lower(raw), TARGET_BLANK_DQ@, EMPTY@);
    let s2 = replace_all(s1, TARGET_BLANK_SQ@, EMPTY@);
    let s3 = replace_all(s2, SCRIPT_OPEN@, TEMPLATE_OPEN@);
    let s4 = replace_all(s3, SCRIPT_CLOSE@, TEMPLATE_CLOSE@);
    let s5 = replace_all(s4, ONCLICK@, BLOCKED_CLICK@);
    lemma_replace_removes(s2, SCRIPT_OPEN@, TEMPLATE_OPEN@);
    lemma_replace_keeps_free(s3, SCRIPT_CLOSE@, TEMPLATE_CLOSE@, SCRIPT_OPEN@);
    lemma_replace_keeps_free(s4, ONCLICK@, BLOCKED_CLICK@, SCRIPT_OPEN@);
    lemma_replace_keeps_free(s5, IFRAME_OPEN@, SANDBOXED_IFRAME@, SCRIPT_OPEN@);
}

/// Every frame of the rewritten page is sandboxed and faded out, in any
/// ASCII letter case: each `<iframe` in its lowercase form opens the
/// sandboxed frame tag.
pub proof fn surf_rewrite_sandboxes_every_frame(raw: Seq<char>)
    ensures
        forall|a: int|
            occurs_at(ascii_lower(surf_rewrite(raw)), IFRAME_OPEN@, a) ==> occurs_at(
                ascii_lower(surf_rewrite(raw)),
                SANDBOXED_IFRAME@,
                a,
            ),
{
    reveal_strlit("<iframe");
    reveal_strlit("<iframe sandbox='' style='opacity: 0.3; pointer-events: none;' ");
    reveal_with_fuel(cannot_begin, 70);
    reveal_with_fuel(cannot_continue, 10);
    reveal_with_fuel(diverge, 3);
    assert(marks(SANDBOXED_IFRAME@, IFRAME_OPEN@));
    lemma_surf_lowered(raw);
    let s1 = replace_all(ascii_lower(raw), TARGET_BLANK_DQ@, EMPTY@);
    let s2 = replace_all(s1, TARGET_BLANK_SQ@, EMPTY@);
    let s3 = replace_all(s2, SCRIPT_OPEN@, TEMPLATE_OPEN@);
    let s4 = replace_all(s3, SCRIPT_CLOSE@, TEMPLATE_CLOSE@);
    let s5 = replace_all(s4, ONCLICK@, BLOCKED_CLICK@);
    lemma_replace_marks(s5, IFRAME_OPEN@, SANDBOXED_IFRAME@);
}

/// The surf log line reports the scripts first and the frames second: after
/// `SURF_MODE //` comes the number of `<script` openings of the lowercased page,
/// then `scripts,`, then the number of its `<iframe` openings, then `iframes locked down.`.
pub proof fn surf_log_counts_scripts_then_frames(lowered: Seq<char>)
    ensures
        lockdown_log_spec(lowered) == "SURF_MODE // "@ + decimal(count_matches(lowered, "<script"@))
            + " scripts, "@ + decimal(count_matches(lowered, "<iframe"@)) + " iframes locked down."@,
{
    reveal_strlit("SURF_MODE // ");
    reveal_strlit(" scripts, ");
    reveal_strlit(" iframes locked down.");
    reveal_strlit("<script");
    reveal_strlit("<iframe");
}

} // verus!
