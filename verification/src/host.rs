//! The host's part in showing results: the IPC request that starts a
//! pipeline, and the script that hands a rendered page to the front end.
use vstd::prelude::*;
use crate::text::{starts_with, replace_all, decimal, decimal_string, has_prefix, replace, trimmed, trim};
use crate::command::{is_pipeline_request, pipeline_commands, pipeline_request, split_pipeline,
    escape_angle_brackets, escape_html};
use crate::notices::UNRECOGNIZED_NOTICE;
use crate::pages::{unrecognized_page_spec, unrecognized_page};
use crate::pipeline::{Effect, EffectView, terminal, failure, URL_ERROR, effects_view};

verus! {

/// The prefix of an IPC message that asks for a pipeline run.
pub const RUN_PIPELINE: &'static str = "RUN_PIPELINE:";
pub const EMPTY: &'static str = "";

/// The style sheet put in front of every rendered page: hides advertising,
/// pop-ups, consent banners and the content of inert elements.
pub const FALLBACK_CSS: &'static str = r#"<style>
                    .ad, .ads, .ad-slot, .ad-container, [id^='ad-'], [class^='ad-'],
                    [class*='taboola'], [class*='outbrain'],
                    [class*='popup'], [id*='popup'], [class*='modal'], [id*='modal'],
                    [class*='overlay'], [id*='overlay'], [class*='cookie'], [id*='cookie'],
                    [class*='consent'], [id*='consent'], [class*='newsletter'], [id*='newsletter'],
                    .fc-consent-root, #cmpbox,
                    .sp_veil, [id^='sp_message'], .fc-ab-root, .privacy-prompt, #privacy-prompt,
                    .veil, .backdrop, .dialog-backdrop, [class*='backdrop'] {
                        display: none !important; visibility: hidden !important; opacity: 0 !important;
                    }
                    html, body { overflow: auto !important; position: static !important; }
                    template, style, script, title, link, meta { display: none !important; opacity: 0 !important; visibility: hidden !important; }
                    .iso-noscript { display: block !important; opacity: 1 !important; visibility: visible !important; }
                </style>"#;

/// The script put in front of every rendered page: guards the keyboard
/// inside the page frame.
pub const SAFE_SCRIPT: &'static str = r#"<script>
                document.addEventListener('keydown', function(e) {
                    let activeEl = document.activeElement;
                    let isInput = (activeEl && (activeEl.tagName === 'TEXTAREA' || activeEl.tagName === 'INPUT'));
                    
                    // ZIRH 1: Ok Tuşları Koruması
                    if (isInput && (e.key === 'ArrowLeft' || e.key === 'ArrowRight' || e.key === 'ArrowUp' || e.key === 'ArrowDown')) {
                        if (e.key === 'ArrowLeft' && activeEl.selectionStart === 0) { e.preventDefault(); return; }
                        if (e.key === 'ArrowRight' && activeEl.selectionStart === activeEl.value.length) { e.preventDefault(); return; }
                    }

                    // ZIRH 2: Harf Tuşları Koruması
                    if (!isInput) {
                        if (e.key === 'Backspace' || (e.key.length === 1 && e.key !== ' ' && !e.metaKey && !e.ctrlKey)) {
                            e.preventDefault();
                            return;
                        }
                    }
                    
                    // 🛡️ ZIRH 3: MACOS KOPYALA ÇÖKME ENGELLEYİCİSİ (Iframe İçi)
                    if (e.metaKey || e.ctrlKey) {
                        let k = e.key.toLowerCase();
                        if (k === 'c' || k === 'v' || k === 'x' || k === 'a') {
                            e.preventDefault(); // macOS, bu tuşları GÖREMEZSİN!
                            
                            if (k === 'c') {
                                let text = isInput ? activeEl.value.substring(activeEl.selectionStart, activeEl.selectionEnd) : window.getSelection().toString();
                                if (text) {
                                    navigator.clipboard.writeText(text).catch(() => {
                                        // Fallback Copy
                                        let ta = document.createElement('textarea'); ta.value = text;
                                        document.body.appendChild(ta); ta.select(); document.execCommand('copy'); ta.remove();
                                    });
                                }
                            } else if (k === 'a') {
                                if (isInput) activeEl.select();
                                else {
                                    let s = window.getSelection(); let r = document.createRange();
                                    r.selectNodeContents(document.body); s.removeAllRanges(); s.addRange(r);
                                }
                            }
                        }
                    }
                }, { capture: true, passive: false });
            </script>"#;

pub const BASE_OPEN: &'static str = "<base href=\"";
pub const BASE_CLOSE: &'static str = "\" target=\"_self\">";
pub const LINE_BREAK: &'static str = "\n";
pub const RENDER_CALL: &'static str = "window.renderSurfMode(";
pub const URL_OPEN: &'static str = ", '";
pub const URL_CLOSE: &'static str = "', ";
pub const ARG_SEPARATOR: &'static str = ", ";
pub const CALL_CLOSE: &'static str = ")";
/// What stands in for the page when it could not be encoded as JSON.
pub const EMPTY_JSON_STRING: &'static str = "\"\"";


/// The pipeline an IPC message asks for: present when the message starts
/// with `RUN_PIPELINE:`, and then the message with every `RUN_PIPELINE:`
/// removed.
pub open spec fn pipeline_request_spec(msg: Seq<char>) -> Option<Seq<char>> {
    if starts_with(msg, RUN_PIPELINE@) {
        Some(replace_all(msg, RUN_PIPELINE@, EMPTY@))
    } else {
        None
    }
}

/// Reads the pipeline request out of an IPC message.
pub fn pipeline_request_of(msg: &str) -> (out: Option<String>)
    ensures
        out matches Some(r) ==> pipeline_request_spec(msg@) == Some(r@),
        out is None ==> pipeline_request_spec(msg@) is None,
{
    proof {
        reveal_strlit("RUN_PIPELINE:");
    }
    if has_prefix(msg, RUN_PIPELINE) {
        Some(replace(msg, RUN_PIPELINE, EMPTY))
    } else {
        None
    }
}

/// What a pipeline request leads to: its commands, or, when the (trimmed)
/// request starts no pipeline, the messages that reject it.
pub enum Plan {
    Commands { commands: Vec<String> },
    Rejected { effects: Vec<Effect> },
}

/// The commands of a request that starts a pipeline.
pub open spec fn planned_commands(request: Seq<char>) -> Option<Seq<Seq<char>>> {
    let raw = trimmed(request);
    if is_pipeline_request(raw) {
        Some(pipeline_commands(raw))
    } else {
        None
    }
}

/// The messages that reject a request that starts no pipeline: a terminal
/// line, and a page that shows the escaped request.
pub open spec fn rejection(request: Seq<char>) -> Seq<EffectView> {
    seq![
        terminal(UNRECOGNIZED_NOTICE@),
        failure(unrecognized_page_spec(escape_angle_brackets(trimmed(request)))),
    ]
}

/// Splits a pipeline request into commands, or rejects it.
pub fn plan_pipeline(request: &str) -> (out: Plan)
    ensures
        planned_commands(request@) matches Some(cs) ==> (out matches Plan::Commands { commands }
            && commands@.len() == cs.len() && forall|i: int|
            0 <= i < cs.len() ==> #[trigger] commands@[i]@ == cs[i]),
        planned_commands(request@) is None ==> (out matches Plan::Rejected { effects }
            && effects_view(effects@) == rejection(request@)),
{
    let raw = trim(request);
    if pipeline_request(raw.as_str()) {
        Plan::Commands { commands: split_pipeline(raw.as_str()) }
    } else {
        let escaped = escape_html(raw.as_str());
        let mut effects: Vec<Effect> = Vec::new();
        effects.push(Effect::Terminal { line: String::from_str(UNRECOGNIZED_NOTICE) });
        effects.push(
            Effect::Render {
                html: unrecognized_page(escaped.as_str()),
                url: String::from_str(URL_ERROR),
                timed: false,
                ram_kb: 0,
                blocked: 0,
            },
        );
        assert(effects_view(effects@) =~= rejection(request@));
        Plan::Rejected { effects }
    }
}

/// The document placed in the page frame: a base address that keeps links
/// in the frame, the fallback style sheet, the keyboard guard, then the page.
pub open spec fn render_frame_spec(url: Seq<char>, html: Seq<char>) -> Seq<char> {
    BASE_OPEN@ + url + BASE_CLOSE@ + LINE_BREAK@ + FALLBACK_CSS@ + LINE_BREAK@ + SAFE_SCRIPT@
        + LINE_BREAK@ + html
}

/// Frames a rendered page for the page frame.
pub fn render_frame(url: &str, html: &str) -> (out: String)
    ensures
        out@ == render_frame_spec(url@, html@),
{
    let mut out = String::from_str(BASE_OPEN);
    out.append(url);
    out.append(BASE_CLOSE);
    out.append(LINE_BREAK);
    out.append(FALLBACK_CSS);
    out.append(LINE_BREAK);
    out.append(SAFE_SCRIPT);
    out.append(LINE_BREAK);
    out.append(html);
    out
}

/// The call that hands a framed page, already encoded as a JSON string, to
/// the front end together with its address and its time, memory and
/// blocked-tracker figures.
pub open spec fn render_call_spec(json: Seq<char>, url: Seq<char>, cpu_ms: nat, ram_kb: nat, blocked: nat) -> Seq<char> {
    RENDER_CALL@ + json + URL_OPEN@ + url + URL_CLOSE@ + decimal(cpu_ms) + ARG_SEPARATOR@
        + decimal(ram_kb) + ARG_SEPARATOR@ + decimal(blocked) + CALL_CLOSE@
}

/// Builds the front-end call for a page already encoded as a JSON string.
pub fn render_call(json: &str, url: &str, cpu_ms: u128, ram_kb: usize, blocked: usize) -> (out: String)
    ensures
        out@ == render_call_spec(json@, url@, cpu_ms as nat, ram_kb as nat, blocked as nat),
{
    let mut out = String::from_str(RENDER_CALL);
    out.append(json);
    out.append(URL_OPEN);
    out.append(url);
    out.append(URL_CLOSE);
    let cpu = decimal_string(cpu_ms);
    out.append(cpu.as_str());
    out.append(ARG_SEPARATOR);
    let ram = decimal_string(ram_kb as u128);
    out.append(ram.as_str());
    out.append(ARG_SEPARATOR);
    let blk = decimal_string(blocked as u128);
    out.append(blk.as_str());
    out.append(CALL_CLOSE);
    out
}

#[verifier::external_type_specification]
#[verifier::external_body]
pub struct ExJsonError(serde_json::Error);

/// A lowercase hexadecimal digit.
pub open spec fn hex_digit(n: int) -> char {
    if n < 10 {
        (48 + n) as char
    } else {
        (87 + n) as char
    }
}

/// How a character appears inside a JSON string literal as `serde_json`
/// writes it: `"` and `\` and the control characters below U+0020 are
/// escaped (the short forms `\b`, `\t`, `\n`, `\f`, `\r` where they exist,
/// else `\u00` and two lowercase hexadecimal digits); every other character
/// stands for itself.
pub open spec fn json_char(c: char) -> Seq<char> {
    let u = c as int;
    if c == '"' {
        seq!['\\', '"']
    } else if c == '\\' {
        seq!['\\', '\\']
    } else if u == 8 {
        seq!['\\', 'b']
    } else if u == 9 {
        seq!['\\', 't']
    } else if u == 10 {
        seq!['\\', 'n']
    } else if u == 12 {
        seq!['\\', 'f']
    } else if u == 13 {
        seq!['\\', 'r']
    } else if u < 32 {
        seq!['\\', 'u', '0', '0', hex_digit(u / 16), hex_digit(u % 16)]
    } else {
        seq![c]
    }
}

/// The escaped characters of a text, in order.
pub open spec fn json_chars(s: Seq<char>) -> Seq<char>
    decreases s.len(),
{
    if s.len() == 0 {
        Seq::empty()
    } else {
        json_chars(s.drop_last()) + json_char(s.last())
    }
}

/// The JSON string literal that `serde_json` writes for a text: the escaped
/// characters between double quotes.
pub open spec fn json_string(s: Seq<char>) -> Seq<char> {
    seq!['"'] + json_chars(s) + seq!['"']
}

/// `serde_json::to_string` on a string: the JSON string literal of the text,
/// escaped as `json_char` says. Serializing a string only writes into an
/// in-memory buffer, which cannot fail, so the result is always `Ok`.
#[verifier::external_body]
fn json_encode(s: &String) -> (r: Result<String, serde_json::Error>)
    ensures
        r is Ok,
        r matches Ok(j) ==> j@ == json_string(s@),
{
    serde_json::to_string(s)
}

/// Builds the front-end call that renders a page: the page is framed,
/// encoded as a JSON string and passed with its figures
/// (`serde_json::to_string(..).unwrap_or_else(|_| "\"\"")` for the encoding).
pub fn render_script(html: &str, url: &str, cpu_ms: u128, ram_kb: usize, blocked: usize) -> (out: String)
    ensures
        out@ == render_call_spec(
            json_string(render_frame_spec(url@, html@)),
            url@,
            cpu_ms as nat,
            ram_kb as nat,
            blocked as nat,
        ),
{
    let frame = render_frame(url, html);
    let json = match json_encode(&frame) {
        Ok(j) => j,
        Err(_) => String::from_str(EMPTY_JSON_STRING),
    };
    render_call(json.as_str(), url, cpu_ms, ram_kb, blocked)
}

} // verus!
