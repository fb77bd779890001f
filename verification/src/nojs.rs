//! The `/nojs` page treatment: scripts and frames become inert templates,
//! `<noscript>` content becomes visible, trackers are counted, and the
//! result goes through the surf engine.
use vstd::prelude::*;
use crate::text::{
    replace_all, replace_all_ci, contains_pat, count_matches, count, chars_of, string_of,
    safe_replacement, cannot_begin, cannot_continue, diverge, lemma_replace_removes,
    lemma_replace_keeps_free, lemma_count_matches_bound, ascii_lower, no_capitals_from,
    lemma_lower_replace_ci, lemma_lower_of_lowercase,
};
use crate::markup::{
    unicode_lowercase, lowercase, replace_in_ci, append, SCRIPT_OPEN, SCRIPT_CLOSE, IFRAME_OPEN,
    IFRAME_CLOSE, NOSCRIPT_OPEN, NOSCRIPT_CLOSE, TEMPLATE_OPEN, TEMPLATE_CLOSE, NOSCRIPT_DIV_OPEN,
    DIV_CLOSE, GOOGLE_ANALYTICS,
};
use crate::runtime_surf::{surf_page, surf_html, INTERCEPTOR_JS};

verus! {

/// The `/nojs` rewriting of a fetched page, step by step. Tag names are
/// matched regardless of ASCII letter case: the blocked-tracker count that
/// `/nojs` reports counts the tags of the lowercased page, so each tag it
/// reports as blocked, in whatever case it was written, is made inert.
pub open spec fn nojs_rewrite(raw: Seq<char>) -> Seq<char> {
    let s1 = replace_all_ci(raw, SCRIPT_OPEN@, TEMPLATE_OPEN@);
    let s2 = replace_all_ci(s1, SCRIPT_CLOSE@, TEMPLATE_CLOSE@);
    let s3 = replace_all_ci(s2, IFRAME_OPEN@, TEMPLATE_OPEN@);
    let s4 = replace_all_ci(s3, IFRAME_CLOSE@, TEMPLATE_CLOSE@);
    let s5 = replace_all_ci(s4, NOSCRIPT_OPEN@, NOSCRIPT_DIV_OPEN@);
    replace_all_ci(s5, NOSCRIPT_CLOSE@, DIV_CLOSE@)
}

/// The number of blocked trackers reported for a lowercased page: its
/// scripts, frames and `google-analytics` mentions.
pub open spec fn tracker_total(lowered: Seq<char>) -> nat {
    count_matches(lowered, SCRIPT_OPEN@) + count_matches(lowered, IFRAME_OPEN@) + count_matches(
        lowered,
        GOOGLE_ANALYTICS@,
    )
}


/// The `/nojs` rewriting of a page text.
pub fn strip_active_content(raw: &str) -> (out: String)
    ensures
        out@ == nojs_rewrite(raw@),
{
    let mut cs = chars_of(raw);
    replace_in_ci(&mut cs, SCRIPT_OPEN, TEMPLATE_OPEN);
    replace_in_ci(&mut cs, SCRIPT_CLOSE, TEMPLATE_CLOSE);
    replace_in_ci(&mut cs, IFRAME_OPEN, TEMPLATE_OPEN);
    replace_in_ci(&mut cs, IFRAME_CLOSE, TEMPLATE_CLOSE);
    replace_in_ci(&mut cs, NOSCRIPT_OPEN, NOSCRIPT_DIV_OPEN);
    replace_in_ci(&mut cs, NOSCRIPT_CLOSE, DIV_CLOSE);
    string_of(cs.as_slice())
}

/// The blocked-tracker count of a lowercased page text.
pub fn tracker_count(lowered: &str) -> (n: usize)
    ensures
        n == tracker_total(lowered@),
{
    proof {
        reveal_strlit("<script");
        reveal_strlit("<iframe");
        reveal_strlit("google-analytics");
        lemma_count_matches_bound(lowered@, SCRIPT_OPEN@);
        lemma_count_matches_bound(lowered@, IFRAME_OPEN@);
        lemma_count_matches_bound(lowered@, GOOGLE_ANALYTICS@);
    }
    let lowered_chars = chars_of(lowered);
    let a = count(lowered, SCRIPT_OPEN);
    let b = count(lowered, IFRAME_OPEN);
    let c = count(lowered, GOOGLE_ANALYTICS);
    let total_len = lowered_chars.len();
    assert(a * 7 <= total_len && b * 7 <= total_len && c * 16 <= total_len);
    assert(a + b + c <= total_len) by (nonlinear_arith)
        requires
            a * 7 <= total_len,
            b * 7 <= total_len,
            c * 16 <= total_len,
    ;
    a + b + c
}

/// What `/nojs` shows for a fetched page: the blocked-tracker count and the
/// page after the `/nojs` rewriting and the surf engine.
pub struct NojsRender {
    pub blocked: usize,
    pub html: String,
}

/// Treats a fetched page for `/nojs`: trackers are counted on the
/// lowercased text, and the page is rewritten, then passed through the surf
/// engine.
pub fn nojs_render(page: &str) -> (out: NojsRender)
    ensures
        out.blocked == tracker_total(unicode_lowercase(page@)),
        out.html@ == surf_page(nojs_rewrite(page@)),
{
    let lowered = lowercase(page);
    let blocked = tracker_count(lowered.as_str());
    let stripped = strip_active_content(page);
    let mut html = surf_html(stripped.as_str());
    append(&mut html, INTERCEPTOR_JS);
    NojsRender { blocked, html }
}

proof fn lemma_nojs_replacements_safe(q: Seq<char>)
    requires
        q == SCRIPT_OPEN@ || q == IFRAME_OPEN@,
    ensures
        safe_replacement(TEMPLATE_OPEN@, q),
        safe_replacement(TEMPLATE_CLOSE@, q),
        safe_replacement(NOSCRIPT_DIV_OPEN@, q),
        safe_replacement(DIV_CLOSE@, q),
{
    reveal_strlit("<script");
    reveal_strlit("<iframe");
    reveal_strlit("<template");
    reveal_strlit("</template>");
    reveal_strlit("<div class=\"iso-noscript\"");
    reveal_strlit("</div>");
    reveal_with_fuel(cannot_begin, 30);
    reveal_with_fuel(cannot_continue, 10);
    reveal_with_fuel(diverge, 4);
}

/// The lowercase form of the `/nojs` rewriting: the same steps, replacing
/// exactly, on the lowercase form of the page text.
pub open spec fn lowered_nojs_rewrite(raw: Seq<char>) -> Seq<char> {
    let s1 = replace_all(ascii_lower(raw), SCRIPT_OPEN@, TEMPLATE_OPEN@);
    let s2 = replace_all(s1, SCRIPT_CLOSE@, TEMPLATE_CLOSE@);
    let s3 = replace_all(s2, IFRAME_OPEN@, TEMPLATE_OPEN@);
    let s4 = replace_all(s3, IFRAME_CLOSE@, TEMPLATE_CLOSE@);
    let s5 = replace_all(s4, NOSCRIPT_OPEN@, NOSCRIPT_DIV_OPEN@);
    replace_all(s5, NOSCRIPT_CLOSE@, DIV_CLOSE@)
}

/// Every pattern and replacement of the `/nojs` rewriting is lowercase, so
/// lowering the rewritten page is rewriting the lowered page.
proof fn lemma_nojs_lowered(raw: Seq<char>)
    ensures
        ascii_lower(nojs_rewrite(raw)) == lowered_nojs_rewrite(raw),
{
    reveal_strlit("<script");
    reveal_strlit("</script>");
    reveal_strlit("<iframe");
    reveal_strlit("</iframe>");
    reveal_strlit("<noscript");
    reveal_strlit("</noscript>");
    reveal_strlit("<template");
    reveal_strlit("</template>");
    reveal_strlit("<div class=\"iso-noscript\"");
    reveal_strlit("</div>");
    reveal_with_fuel(no_capitals_from, 30);
    lemma_lower_of_lowercase(SCRIPT_OPEN@);
    lemma_lower_of_lowercase(SCRIPT_CLOSE@);
    lemma_lower_of_lowercase(IFRAME_OPEN@);
    lemma_lower_of_lowercase(IFRAME_CLOSE@);
    lemma_lower_of_lowercase(NOSCRIPT_OPEN@);
    lemma_lower_of_lowercase(NOSCRIPT_CLOSE@);
    lemma_lower_of_lowercase(TEMPLATE_OPEN@);
    lemma_lower_of_lowercase(TEMPLATE_CLOSE@);
    lemma_lower_of_lowercase(NOSCRIPT_DIV_OPEN@);
    lemma_lower_of_lowercase(DIV_CLOSE@);
    let s1 = replace_all_ci(raw, SCRIPT_OPEN@, TEMPLATE_OPEN@);
    let s2 = replace_all_ci(s1, SCRIPT_CLOSE@, TEMPLATE_CLOSE@);
    let s3 = replace_all_ci(s2, IFRAME_OPEN@, TEMPLATE_OPEN@);
    let s4 = replace_all_ci(s3, IFRAME_CLOSE@, TEMPLATE_CLOSE@);
    let s5 = replace_all_ci(s4, NOSCRIPT_OPEN@, NOSCRIPT_DIV_OPEN@);
    lemma_lower_replace_ci(raw, SCRIPT_OPEN@, TEMPLATE_OPEN@);
    lemma_lower_replace_ci(s1, SCRIPT_CLOSE@, TEMPLATE_CLOSE@);
    lemma_lower_replace_ci(s2, IFRAME_OPEN@, TEMPLATE_OPEN@);
    lemma_lower_replace_ci(s3, IFRAME_CLOSE@, TEMPLATE_CLOSE@);
    lemma_lower_replace_ci(s4, NOSCRIPT_OPEN@, NOSCRIPT_DIV_OPEN@);
    lemma_lower_replace_ci(s5, NOSCRIPT_CLOSE@, DIV_CLOSE@);
}

/// The `/nojs` rewriting leaves no script or frame opening tag, in any
/// ASCII letter case: neither `<script` nor `<iframe` occurs in the
/// lowercase form of its result.
pub proof fn nojs_rewrite_removes_scripts_and_frames(raw: Seq<char>)
    ensures
        !contains_pat(ascii_lower(nojs_rewrite(raw)), SCRIPT_OPEN@),
        !contains_pat(ascii_lower(nojs_rewrite(raw)), IFRAME_OPEN@),
{
    reveal_strlit("<script");
    reveal_strlit("</script>");
    reveal_strlit("<iframe");
    reveal_strlit("</iframe>");
    reveal_strlit("<noscript");
    reveal_strlit("</noscript>");
    lemma_nojs_lowered(raw);
    let q1 = SCRIPT_OPEN@;
    let q2 = IFRAME_OPEN@;
    lemma_nojs_replacements_safe(q1);
    lemma_nojs_replacements_safe(q2);
    let s1 = replace_all(ascii_lower(raw), SCRIPT_OPEN@, TEMPLATE_OPEN@);
    let s2 = replace_all(s1, SCRIPT_CLOSE@, TEMPLATE_CLOSE@);
    let s3 = replace_all(s2, IFRAME_OPEN@, TEMPLATE_OPEN@);
    let s4 = replace_all(s3, IFRAME_CLOSE@, TEMPLATE_CLOSE@);
    let s5 = replace_all(s4, NOSCRIPT_OPEN@, NOSCRIPT_DIV_OPEN@);
    lemma_replace_removes(ascii_lower(raw), q1, TEMPLATE_OPEN@);
    lemma_replace_keeps_free(s1, SCRIPT_CLOSE@, TEMPLATE_CLOSE@, q1);
    lemma_replace_keeps_free(s2, q2, TEMPLATE_OPEN@, q1);
    lemma_replace_removes(s2, q2, TEMPLATE_OPEN@);
    lemma_replace_keeps_free(s3, IFRAME_CLOSE@, TEMPLATE_CLOSE@, q1);
    lemma_replace_keeps_free(s3, IFRAME_CLOSE@, TEMPLATE_CLOSE@, q2);
    lemma_replace_keeps_free(s4, NOSCRIPT_OPEN@, NOSCRIPT_DIV_OPEN@, q1);
    lemma_replace_keeps_free(s4, NOSCRIPT_OPEN@, NOSCRIPT_DIV_OPEN@, q2);
    lemma_replace_keeps_free(s5, NOSCRIPT_CLOSE@, DIV_CLOSE@, q1);
    lemma_replace_keeps_free(s5, NOSCRIPT_CLOSE@, DIV_CLOSE@, q2);
}

} // verus!
