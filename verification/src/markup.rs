//! Markup shared by the page-rewriting engines: the patterns they look for,
//! their replacements, decoding of the raw page bytes, and the engine result.
use vstd::prelude::*;
use vstd::utf8::{valid_utf8, decode_utf8};
use crate::text::{chars_of, replace_chars, replace_all, replace_ci_chars, replace_all_ci};

verus! {

pub const SCRIPT_OPEN: &'static str = "<script";
pub const SCRIPT_CLOSE: &'static str = "</script>";
pub const IFRAME_OPEN: &'static str = "<iframe";
pub const IFRAME_CLOSE: &'static str = "</iframe>";
pub const NOSCRIPT_OPEN: &'static str = "<noscript";
pub const NOSCRIPT_CLOSE: &'static str = "</noscript>";
pub const TEMPLATE_OPEN: &'static str = "<template";
pub const TEMPLATE_CLOSE: &'static str = "</template>";
pub const NOSCRIPT_DIV_OPEN: &'static str = "<div class=\"iso-noscript\"";
pub const DIV_CLOSE: &'static str = "</div>";
pub const GOOGLE_ANALYTICS: &'static str = "google-analytics";
pub const ONCLICK: &'static str = "onclick";
pub const BLOCKED_CLICK: &'static str = "data-blocked-click";
pub const TARGET_BLANK_DQ: &'static str = "target=\"_blank\"";
pub const TARGET_BLANK_SQ: &'static str = "target='_blank'";
pub const TARGET_SELF_DQ: &'static str = "target=\"_self\"";
pub const TARGET_SELF_SQ: &'static str = "target='_self'";
pub const SANDBOXED_IFRAME: &'static str = "<iframe sandbox='' style='opacity: 0.3; pointer-events: none;' ";
pub const EMPTY: &'static str = "";

/// What an engine hands back to its host: first a log line for the
/// terminal, then the page to render.
pub struct EngineOutput {
    pub log: String,
    pub html: String,
}

/// The text that the engines read from the raw page bytes: their UTF-8
/// decoding, or nothing when they are not valid UTF-8.
pub open spec fn decoded_or_empty(bytes: Seq<u8>) -> Seq<char> {
    if valid_utf8(bytes) {
        decode_utf8(bytes)
    } else {
        Seq::empty()
    }
}

/// `std::str::from_utf8`, keeping only the success case: it succeeds exactly
/// on valid UTF-8 and then yields the decoded characters.
#[verifier::external_body]
fn utf8_text(bytes: &[u8]) -> (r: Option<&str>)
    ensures
        r is Some <==> valid_utf8(bytes@),
        r matches Some(s) ==> s@ == decode_utf8(bytes@),
{
    std::str::from_utf8(bytes).ok()
}

/// The page text held by `bytes`: their UTF-8 decoding, or the empty text
/// when they are not valid UTF-8 (`from_utf8(..).unwrap_or("")`).
pub fn decode_or_empty(bytes: &[u8]) -> (out: String)
    ensures
        out@ == decoded_or_empty(bytes@),
{
    match utf8_text(bytes) {
        Some(s) => String::from_str(s),
        None => String::new(),
    }
}

/// An engine reads back exactly the text whose UTF-8 bytes the host wrote
/// into its memory.
pub proof fn engine_reads_what_the_host_writes(s: Seq<char>)
    ensures
        decoded_or_empty(vstd::utf8::encode_utf8(s)) == s,
{
    vstd::utf8::encode_utf8_valid_utf8(s);
    vstd::utf8::encode_utf8_decode_utf8(s);
}

/// The text that `String::from_utf8_lossy` reads from bytes, invalid
/// sequences replaced by U+FFFD.
pub uninterp spec fn utf8_lossy(bytes: Seq<u8>) -> Seq<char>;

/// `String::from_utf8_lossy`: the bytes read as UTF-8, each invalid sequence
/// replaced by U+FFFD; valid UTF-8 is decoded unchanged.
#[verifier::external_body]
fn lossy_text(bytes: &[u8]) -> (out: String)
    ensures
        out@ == utf8_lossy(bytes@),
        valid_utf8(bytes@) ==> out@ == decode_utf8(bytes@),
{
    String::from_utf8_lossy(bytes).to_string()
}

/// The text of a worker's output bytes: their UTF-8 reading with invalid
/// sequences replaced.
pub fn decode_lossy(bytes: &[u8]) -> (out: String)
    ensures
        out@ == utf8_lossy(bytes@),
        valid_utf8(bytes@) ==> out@ == decode_utf8(bytes@),
{
    lossy_text(bytes)
}

/// The lowercase form of a text, as `str::to_lowercase` computes it under
/// the Unicode case mapping of the standard library.
pub uninterp spec fn unicode_lowercase(s: Seq<char>) -> Seq<char>;

/// `str::to_lowercase`.
#[verifier::external_body]
pub(crate) fn lowercase(s: &str) -> (out: String)
    ensures
        out@ == unicode_lowercase(s@),
{
    s.to_lowercase()
}

/// Replaces, in place, every occurrence of `pat` by `rep`.
pub(crate) fn replace_in(cs: &mut Vec<char>, pat: &str, rep: &str)
    ensures
        final(cs)@ == replace_all(old(cs)@, pat@, rep@),
{
    let pc = chars_of(pat);
    let rc = chars_of(rep);
    let out = replace_chars(cs.as_slice(), pc.as_slice(), rc.as_slice());
    *cs = out;
}

/// Replaces, in place, every occurrence of `pat` by `rep`, ASCII letter
/// case aside.
pub(crate) fn replace_in_ci(cs: &mut Vec<char>, pat: &str, rep: &str)
    ensures
        final(cs)@ == replace_all_ci(old(cs)@, pat@, rep@),
{
    let pc = chars_of(pat);
    let rc = chars_of(rep);
    let out = replace_ci_chars(cs.as_slice(), pc.as_slice(), rc.as_slice());
    *cs = out;
}

/// Appends a string slice to a string.
pub(crate) fn append(out: &mut String, s: &str)
    ensures
        final(out)@ == old(out)@ + s@,
{
    out.append(s);
}

/// The sandboxed frame tag holds no ASCII capital.
pub proof fn lemma_sandboxed_iframe_lowercase()
    ensures
        crate::text::ascii_lower(SANDBOXED_IFRAME@) == SANDBOXED_IFRAME@,
{
    reveal_strlit("<iframe sandbox='' style='opacity: 0.3; pointer-events: none;' ");
    reveal_with_fuel(crate::text::no_capitals_from, 80);
    crate::text::lemma_lower_of_lowercase(SANDBOXED_IFRAME@);
}

} // verus!
