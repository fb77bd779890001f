//! The pipeline runner's decisions. A pipeline is a list of commands run in
//! order; each command first announces itself and names the outside work it
//! needs (a file read, a download, a file choice, a script evaluation or a
//! worker run), and once the host has done that work, decides from its
//! outcome what data flows on, what the terminal and the page show, and
//! whether the pipeline stops.
use vstd::prelude::*;
use vstd::utf8::encode_utf8;
use crate::text::{trimmed, trim, replace_all};
use crate::command::{
    Command, CommandView, expand_home_spec, expand_home, echo_payload_spec, echo_payload, lone_quote,
    escape_angle_brackets, escape_html, worker_source_spec, worker_source, is_catalog_alias,
    worker_args_spec, worker_args, worker_output_spec, worker_output, is_chart_spec, is_chart,
};
use crate::pages::{
    help_page_spec, help_page, read_page_spec, read_page, error_page_spec, error_page,
    get_page_spec, get_page, get_error_page_spec, get_error_page, upload_page_spec, upload_page,
    CANCEL_PAGE, echo_page_spec, echo_page, rhai_page_spec, rhai_page, chart_page_spec, chart_page,
    pipeline_page_spec, pipeline_page, compile_error_page_spec, compile_error_page,
    worker_download_error_page_spec, worker_download_error_page, not_found_page_spec,
    not_found_page,
};
use crate::notices::{
    HELP_NOTICE, CATALOG_NOTICE, read_notice_spec, read_notice, read_failed_notice_spec,
    read_failed_notice, get_notice_spec, get_notice, get_failed_notice_spec, get_failed_notice,
    nojs_notice_spec, nojs_notice, nojs_failed_notice_spec, nojs_failed_notice, RHAI_NOTICE,
    rhai_failed_notice_spec, rhai_failed_notice, alias_notice_spec, alias_notice,
    worker_notice_spec, worker_notice, wasm_loaded_notice_spec, wasm_loaded_notice,
    compile_failed_notice_spec, compile_failed_notice, worker_download_failed_notice_spec,
    worker_download_failed_notice, INVALID_COMMAND_NOTICE, UPLOAD_NOTICE,
    UPLOAD_CANCELLED_NOTICE,
};
use crate::nojs::{nojs_rewrite, tracker_total, nojs_render};
use crate::runtime_surf::surf_page;
use crate::markup::unicode_lowercase;

verus! {

/// The variable that holds the pipeline data in a script.
pub const PIPE_DATA: &'static str = "pipe_data";
/// The data that `/help` puts into the pipeline.
pub const HELP_TEXT: &'static str = "IsoBrowse Commands\n\n/read <file>\n/cat <file>\n/get <url>\n/echo <text>\n/upload\n/nojs <url>\n/catalog\n/run <name_or_url>\n/rhai <script>";
pub const URL_HELP: &'static str = "isobrowse://sandbox/help";
pub const URL_CATALOG: &'static str = "isobrowse://sandbox/catalog_native";
pub const URL_READ: &'static str = "isobrowse://sandbox/read";
pub const URL_GET: &'static str = "isobrowse://sandbox/get";
pub const URL_UPLOAD: &'static str = "isobrowse://sandbox/upload";
pub const URL_PIPELINE: &'static str = "isobrowse://sandbox/pipeline";
pub const URL_RHAI: &'static str = "isobrowse://sandbox/rhai";
pub const URL_CHART: &'static str = "isobrowse://sandbox/chart";
pub const URL_ERROR: &'static str = "isobrowse://sandbox/error";
pub const EMPTY_PAGE: &'static str = "";
/// The memory figure that the catalog page reports.
pub const CATALOG_RAM_KB: usize = 5;
/// The memory figure that a script page reports.
pub const SCRIPT_RAM_KB: usize = 12;

/// The number of bytes of the UTF-8 encoding of a text, as `str::len`
/// counts them in a `usize` (a text held in memory never has more bytes
/// than a `usize` counts).
pub open spec fn utf8_len(s: Seq<char>) -> nat {
    (encode_utf8(s).len() as usize) as nat
}

/// What flows between the commands of a pipeline: the current data and the
/// memory figure, in KiB, accumulated so far.
pub struct PipelineState {
    pub data: String,
    pub ram_kb: usize,
}

pub struct StateView {
    pub data: Seq<char>,
    pub ram_kb: nat,
}

impl View for PipelineState {
    type V = StateView;

    open spec fn view(&self) -> StateView {
        StateView { data: self.data@, ram_kb: self.ram_kb as nat }
    }
}

/// A message to the page: a terminal line, or a page to render with its
/// address, whether its time figure is the elapsed pipeline time (or 0),
/// its memory figure and its blocked-tracker count.
pub enum Effect {
    Terminal { line: String },
    Render { html: String, url: String, timed: bool, ram_kb: usize, blocked: usize },
}

pub enum EffectView {
    Terminal { line: Seq<char> },
    Render { html: Seq<char>, url: Seq<char>, timed: bool, ram_kb: nat, blocked: nat },
}

impl View for Effect {
    type V = EffectView;

    open spec fn view(&self) -> EffectView {
        match self {
            Effect::Terminal { line } => EffectView::Terminal { line: line@ },
            Effect::Render { html, url, timed, ram_kb, blocked } => EffectView::Render {
                html: html@,
                url: url@,
                timed: *timed,
                ram_kb: *ram_kb as nat,
                blocked: *blocked as nat,
            },
        }
    }
}

/// The outside work a command needs.
pub enum Work {
    /// Nothing: the command only computes.
    Nothing,
    /// Read the text of a local file.
    ReadFile { path: String },
    /// Download the text at a URL.
    FetchText { url: String },
    /// Download the web page at a URL, noting the address it ends at.
    FetchPage { url: String },
    /// Ask the user for a file and read its text.
    PickFile,
    /// Evaluate a script in a fresh scope that holds these variables, each
    /// a name and its text.
    Evaluate { script: String, bindings: Vec<(String, String)> },
    /// Load the worker named `name` from `source` and run it with these
    /// arguments and this standard input.
    RunWorker { name: String, source: String, args: Vec<String>, stdin: String },
}

pub enum WorkView {
    Nothing,
    ReadFile { path: Seq<char> },
    FetchText { url: Seq<char> },
    FetchPage { url: Seq<char> },
    PickFile,
    Evaluate { script: Seq<char>, bindings: Seq<(Seq<char>, Seq<char>)> },
    RunWorker { name: Seq<char>, source: Seq<char>, args: Seq<Seq<char>>, stdin: Seq<char> },
}

impl View for Work {
    type V = WorkView;

    open spec fn view(&self) -> WorkView {
        match self {
            Work::Nothing => WorkView::Nothing,
            Work::ReadFile { path } => WorkView::ReadFile { path: path@ },
            Work::FetchText { url } => WorkView::FetchText { url: url@ },
            Work::FetchPage { url } => WorkView::FetchPage { url: url@ },
            Work::PickFile => WorkView::PickFile,
            Work::Evaluate { script, bindings } => WorkView::Evaluate {
                script: script@,
                bindings: bindings@.map_values(|b: (String, String)| (b.0@, b.1@)),
            },
            Work::RunWorker { name, source, args, stdin } => WorkView::RunWorker {
                name: name@,
                source: source@,
                args: args@.map_values(|a: String| a@),
                stdin: stdin@,
            },
        }
    }
}

/// How the outside work of a worker run ended once the worker was loaded.
pub enum WorkerRun {
    /// The worker did not compile.
    CompileFailed { detail: String },
    /// The worker compiled but did not start.
    NotStarted,
    /// The worker ran; its standard output, decoded.
    Output { text: String },
}

/// How the outside work of a command ended.
pub enum Outcome {
    /// The command needed no outside work.
    Done,
    /// A file read or text download delivered this text.
    Loaded { content: String },
    /// A page download ended at `final_url` and delivered this text.
    Fetched { final_url: String, content: String },
    /// A download answered but its text could not be read.
    NoText,
    /// The outside work failed, for this reason.
    Failed { detail: String },
    /// The user picked `path`, and it was read.
    PickedRead { path: String, content: String },
    /// The user picked `path`, and reading it failed.
    PickedFailed { path: String, detail: String },
    /// The user aborted the file choice.
    Cancelled,
    /// The script evaluated to `result` in `millis` milliseconds.
    Evaluated { result: String, millis: u128 },
    /// The worker, `size` bytes, was loaded, and then ran as `run` says.
    WorkerLoaded { size: usize, run: WorkerRun },
}

pub enum WorkerRunView {
    CompileFailed { detail: Seq<char> },
    NotStarted,
    Output { text: Seq<char> },
}

pub enum OutcomeView {
    Done,
    Loaded { content: Seq<char> },
    Fetched { final_url: Seq<char>, content: Seq<char> },
    NoText,
    Failed { detail: Seq<char> },
    PickedRead { path: Seq<char>, content: Seq<char> },
    PickedFailed { path: Seq<char>, detail: Seq<char> },
    Cancelled,
    Evaluated { result: Seq<char>, millis: nat },
    WorkerLoaded { size: nat, run: WorkerRunView },
}

impl View for WorkerRun {
    type V = WorkerRunView;

    open spec fn view(&self) -> WorkerRunView {
        match self {
            WorkerRun::CompileFailed { detail } => WorkerRunView::CompileFailed { detail: detail@ },
            WorkerRun::NotStarted => WorkerRunView::NotStarted,
            WorkerRun::Output { text } => WorkerRunView::Output { text: text@ },
        }
    }
}

impl View for Outcome {
    type V = OutcomeView;

    open spec fn view(&self) -> OutcomeView {
        match self {
            Outcome::Done => OutcomeView::Done,
            Outcome::Loaded { content } => OutcomeView::Loaded { content: content@ },
            Outcome::Fetched { final_url, content } => OutcomeView::Fetched {
                final_url: final_url@,
                content: content@,
            },
            Outcome::NoText => OutcomeView::NoText,
            Outcome::Failed { detail } => OutcomeView::Failed { detail: detail@ },
            Outcome::PickedRead { path, content } => OutcomeView::PickedRead {
                path: path@,
                content: content@,
            },
            Outcome::PickedFailed { path, detail } => OutcomeView::PickedFailed {
                path: path@,
                detail: detail@,
            },
            Outcome::Cancelled => OutcomeView::Cancelled,
            Outcome::Evaluated { result, millis } => OutcomeView::Evaluated {
                result: result@,
                millis: *millis as nat,
            },
            Outcome::WorkerLoaded { size, run } => OutcomeView::WorkerLoaded {
                size: *size as nat,
                run: run@,
            },
        }
    }
}

/// The announcements of a command and the outside work it needs.
pub struct StepStart {
    pub notices: Vec<String>,
    pub work: Work,
}

/// The result of a command: the state that flows on, the messages to the
/// page in order, and whether the pipeline stops here.
pub struct StepFinish {
    pub state: PipelineState,
    pub effects: Vec<Effect>,
    pub stop: bool,
}

pub struct FinishView {
    pub state: StateView,
    pub effects: Seq<EffectView>,
    pub stop: bool,
}

impl View for StepFinish {
    type V = FinishView;

    open spec fn view(&self) -> FinishView {
        FinishView {
            state: self.state@,
            effects: self.effects@.map_values(|e: Effect| e@),
            stop: self.stop,
        }
    }
}

/// A terminal line.
pub open spec fn terminal(line: Seq<char>) -> EffectView {
    EffectView::Terminal { line }
}

/// A page to render.
pub open spec fn render(html: Seq<char>, url: Seq<char>, timed: bool, ram_kb: nat, blocked: nat) -> EffectView {
    EffectView::Render { html, url, timed, ram_kb, blocked }
}

/// The failure page of a step, shown with no time or memory figure.
pub open spec fn failure(html: Seq<char>) -> EffectView {
    render(html, URL_ERROR@, false, 0, 0)
}

/// A single page when the command is the last of the pipeline, else nothing.
pub open spec fn when_last(last: bool, e: EffectView) -> Seq<EffectView> {
    if last {
        seq![e]
    } else {
        seq![]
    }
}

/// A step that changes nothing.
pub open spec fn unchanged(st: StateView) -> FinishView {
    FinishView { state: st, effects: seq![], stop: false }
}

/// The name of the worker of a `/run` command: its first token, or nothing.
pub open spec fn worker_name(tokens: Seq<Seq<char>>) -> Seq<char> {
    if tokens.len() > 0 {
        tokens[0]
    } else {
        Seq::empty()
    }
}

/// The pipeline data handed to a command as input: present only after the
/// first command, and only when it is not empty.
pub open spec fn piped_input(data: Seq<char>, index: int) -> Option<Seq<char>> {
    if index > 0 && data.len() > 0 {
        Some(data)
    } else {
        None
    }
}

/// The variables a script runs with: the pipeline data as `pipe_data`,
/// when a command before it left any, and nothing else.
pub open spec fn script_bindings(data: Seq<char>, index: int) -> Seq<(Seq<char>, Seq<char>)> {
    match piped_input(data, index) {
        Some(d) => seq![(PIPE_DATA@, d)],
        None => seq![],
    }
}

/// What a command announces and which outside work it needs, given the
/// pipeline data, its position and the home directory.
pub open spec fn start_spec(data: Seq<char>, index: int, cmd: CommandView, home: Seq<char>) -> (
    Seq<Seq<char>>,
    WorkView,
) {
    match cmd {
        CommandView::Help => (seq![HELP_NOTICE@], WorkView::Nothing),
        CommandView::Catalog => (seq![CATALOG_NOTICE@], WorkView::Nothing),
        CommandView::Read { path } => {
            let p = expand_home_spec(path, home);
            (seq![read_notice_spec(p)], WorkView::ReadFile { path: p })
        },
        CommandView::Get { url } => (seq![get_notice_spec(url)], WorkView::FetchText { url }),
        CommandView::NoJs { url } => (seq![nojs_notice_spec(url)], WorkView::FetchPage { url }),
        CommandView::Upload => (seq![UPLOAD_NOTICE@], WorkView::PickFile),
        CommandView::Echo { text } => (seq![], WorkView::Nothing),
        CommandView::Rhai { script } => (
            seq![RHAI_NOTICE@],
            WorkView::Evaluate { script, bindings: script_bindings(data, index) },
        ),
        CommandView::Run { tokens } => {
            let name = worker_name(tokens);
            let source = worker_source_spec(name);
            let announce = if is_catalog_alias(name) {
                seq![alias_notice_spec(name), worker_notice_spec(source)]
            } else {
                seq![worker_notice_spec(source)]
            };
            let stdin = match piped_input(data, index) {
                Some(d) => d,
                None => Seq::empty(),
            };
            (
                announce,
                WorkView::RunWorker { name, source, args: worker_args_spec(tokens), stdin },
            )
        },
        CommandView::Unknown { text } => (seq![], WorkView::Nothing),
    }
}

/// The memory, in KiB, that the outcome of a command adds to the pipeline's
/// figure.
pub open spec fn added_ram(cmd: CommandView, out: OutcomeView) -> nat {
    match (cmd, out) {
        (CommandView::Help, OutcomeView::Done) => 1,
        (CommandView::Read { .. }, OutcomeView::Loaded { content }) => utf8_len(trimmed(content))
            / 1024,
        (CommandView::Get { .. }, OutcomeView::Loaded { content }) => utf8_len(trimmed(content))
            / 1024,
        (CommandView::NoJs { .. }, OutcomeView::Fetched { content, .. }) => utf8_len(content)
            / 1024,
        (CommandView::Upload, OutcomeView::PickedRead { content, .. }) => utf8_len(
            trimmed(content),
        ) / 1024,
        (CommandView::Run { .. }, OutcomeView::WorkerLoaded { size, .. }) => size / 1024,
        _ => 0,
    }
}

/// What a command's outcome does to the pipeline: `index` is its position
/// among `total` commands, `home` the home directory. An outcome that does
/// not belong to the command changes nothing.
pub open spec fn finish_spec(
    st: StateView,
    index: int,
    total: int,
    cmd: CommandView,
    home: Seq<char>,
    out: OutcomeView,
) -> FinishView {
    let last = index == total - 1;
    let ram = st.ram_kb + added_ram(cmd, out);
    match cmd {
        CommandView::Help => match out {
            OutcomeView::Done => FinishView {
                state: StateView { data: HELP_TEXT@, ram_kb: ram },
                effects: when_last(last, render(help_page_spec(HELP_TEXT@), URL_HELP@, true, ram, 0)),
                stop: false,
            },
            _ => unchanged(st),
        },
        CommandView::Catalog => match out {
            OutcomeView::Done => FinishView {
                state: st,
                effects: when_last(last, render(EMPTY_PAGE@, URL_CATALOG@, true, 5, 0)),
                stop: false,
            },
            _ => unchanged(st),
        },
        CommandView::Read { path } => {
            let p = expand_home_spec(path, home);
            match out {
                OutcomeView::Loaded { content } => FinishView {
                    state: StateView { data: trimmed(content), ram_kb: ram },
                    effects: when_last(
                        last,
                        render(read_page_spec(p, trimmed(content)), URL_READ@, true, ram, 0),
                    ),
                    stop: false,
                },
                OutcomeView::Failed { detail } => FinishView {
                    state: st,
                    effects: seq![
                        terminal(read_failed_notice_spec(detail)),
                        failure(error_page_spec(detail)),
                    ],
                    stop: true,
                },
                _ => unchanged(st),
            }
        },
        CommandView::Get { url } => match out {
            OutcomeView::Loaded { content } => FinishView {
                state: StateView { data: trimmed(content), ram_kb: ram },
                effects: when_last(
                    last,
                    render(get_page_spec(url, trimmed(content)), URL_GET@, true, ram, 0),
                ),
                stop: false,
            },
            OutcomeView::Failed { detail } => FinishView {
                state: st,
                effects: seq![
                    terminal(get_failed_notice_spec(detail)),
                    failure(get_error_page_spec(detail)),
                ],
                stop: true,
            },
            _ => unchanged(st),
        },
        CommandView::NoJs { url } => match out {
            OutcomeView::Fetched { final_url, content } => FinishView {
                state: StateView { data: content, ram_kb: ram },
                effects: when_last(
                    last,
                    render(
                        surf_page(nojs_rewrite(content)),
                        final_url,
                        true,
                        ram,
                        tracker_total(unicode_lowercase(content)),
                    ),
                ),
                stop: false,
            },
            OutcomeView::Failed { detail } => FinishView {
                state: st,
                effects: seq![
                    terminal(nojs_failed_notice_spec(detail)),
                    failure(error_page_spec(detail)),
                ],
                stop: true,
            },
            _ => unchanged(st),
        },
        CommandView::Upload => match out {
            OutcomeView::PickedRead { path, content } => FinishView {
                state: StateView { data: trimmed(content), ram_kb: ram },
                effects: seq![terminal(read_notice_spec(path))] + when_last(
                    last,
                    render(upload_page_spec(path, trimmed(content)), URL_UPLOAD@, true, ram, 0),
                ),
                stop: false,
            },
            OutcomeView::PickedFailed { path, detail } => FinishView {
                state: st,
                effects: seq![
                    terminal(read_notice_spec(path)),
                    terminal(read_failed_notice_spec(detail)),
                    failure(error_page_spec(detail)),
                ],
                stop: true,
            },
            OutcomeView::Cancelled => FinishView {
                state: st,
                effects: seq![terminal(UPLOAD_CANCELLED_NOTICE@), failure(CANCEL_PAGE@)],
                stop: true,
            },
            _ => unchanged(st),
        },
        CommandView::Echo { text } => match out {
            OutcomeView::Done => {
                let data = echo_payload_spec(text);
                FinishView {
                    state: StateView { data, ram_kb: st.ram_kb },
                    effects: when_last(
                        last,
                        render(
                            echo_page_spec(escape_angle_brackets(data)),
                            URL_PIPELINE@,
                            true,
                            utf8_len(data) / 1024,
                            0,
                        ),
                    ),
                    stop: false,
                }
            },
            _ => unchanged(st),
        },
        CommandView::Rhai { script } => match out {
            OutcomeView::Evaluated { result, millis } => FinishView {
                state: StateView { data: result, ram_kb: st.ram_kb },
                effects: when_last(
                    last,
                    render(rhai_page_spec(millis as u128, script, result), URL_RHAI@, true, 12, 0),
                ),
                stop: false,
            },
            OutcomeView::Failed { detail } => FinishView {
                state: st,
                effects: seq![
                    terminal(rhai_failed_notice_spec(detail)),
                    failure(error_page_spec(detail)),
                ],
                stop: true,
            },
            _ => unchanged(st),
        },
        CommandView::Run { tokens } => match out {
            OutcomeView::Failed { detail } => FinishView {
                state: st,
                effects: seq![
                    terminal(worker_download_failed_notice_spec(detail)),
                    failure(worker_download_error_page_spec(detail)),
                ],
                stop: true,
            },
            OutcomeView::WorkerLoaded { size, run } => {
                let loaded = terminal(wasm_loaded_notice_spec(size as u128));
                match run {
                    WorkerRunView::CompileFailed { detail } => FinishView {
                        state: StateView { data: st.data, ram_kb: ram },
                        effects: seq![
                            loaded,
                            terminal(compile_failed_notice_spec(detail)),
                            failure(compile_error_page_spec(detail)),
                        ],
                        stop: true,
                    },
                    WorkerRunView::NotStarted => FinishView {
                        state: StateView { data: st.data, ram_kb: ram },
                        effects: seq![loaded],
                        stop: false,
                    },
                    WorkerRunView::Output { text } => {
                        let data = worker_output_spec(text);
                        let page = if is_chart_spec(data) {
                            render(chart_page_spec(data), URL_CHART@, true, ram, 0)
                        } else {
                            render(
                                pipeline_page_spec(escape_angle_brackets(data)),
                                URL_PIPELINE@,
                                true,
                                ram,
                                0,
                            )
                        };
                        FinishView {
                            state: StateView { data, ram_kb: ram },
                            effects: seq![loaded] + when_last(last, page),
                            stop: false,
                        }
                    },
                }
            },
            _ => unchanged(st),
        },
        CommandView::Unknown { text } => match out {
            OutcomeView::Done => FinishView {
                state: st,
                effects: seq![
                    terminal(INVALID_COMMAND_NOTICE@),
                    failure(not_found_page_spec(text)),
                ],
                stop: true,
            },
            _ => unchanged(st),
        },
    }
}


/// The view of a list of page messages.
pub open spec fn effects_view(v: Seq<Effect>) -> Seq<EffectView> {
    v.map_values(|e: Effect| e@)
}

fn none() -> (v: Vec<Effect>)
    ensures
        effects_view(v@) == Seq::<EffectView>::empty(),
{
    let v: Vec<Effect> = Vec::new();
    assert(effects_view(v@) =~= Seq::<EffectView>::empty());
    v
}

fn one(a: Effect) -> (v: Vec<Effect>)
    ensures
        effects_view(v@) == seq![a@],
{
    let mut v: Vec<Effect> = Vec::new();
    v.push(a);
    assert(effects_view(v@) =~= seq![a@]);
    v
}

fn two(a: Effect, b: Effect) -> (v: Vec<Effect>)
    ensures
        effects_view(v@) == seq![a@, b@],
{
    let mut v: Vec<Effect> = Vec::new();
    v.push(a);
    v.push(b);
    assert(effects_view(v@) =~= seq![a@, b@]);
    v
}

fn three(a: Effect, b: Effect, c: Effect) -> (v: Vec<Effect>)
    ensures
        effects_view(v@) == seq![a@, b@, c@],
{
    let mut v: Vec<Effect> = Vec::new();
    v.push(a);
    v.push(b);
    v.push(c);
    assert(effects_view(v@) =~= seq![a@, b@, c@]);
    v
}

fn if_last(last: bool, a: Effect) -> (v: Vec<Effect>)
    ensures
        effects_view(v@) == when_last(last, a@),
{
    if last {
        one(a)
    } else {
        none()
    }
}

fn then_if_last(first: Effect, last: bool, a: Effect) -> (v: Vec<Effect>)
    ensures
        effects_view(v@) == seq![first@] + when_last(last, a@),
{
    if last {
        let v = two(first, a);
        assert(seq![first@, a@] =~= seq![first@] + seq![a@]);
        v
    } else {
        let v = one(first);
        assert(seq![first@] =~= seq![first@] + Seq::<EffectView>::empty());
        v
    }
}

fn line(s: String) -> (e: Effect)
    ensures
        e@ == terminal(s@),
{
    Effect::Terminal { line: s }
}

fn line_of(s: &str) -> (e: Effect)
    ensures
        e@ == terminal(s@),
{
    Effect::Terminal { line: String::from_str(s) }
}

fn show(html: String, url: &str, timed: bool, ram_kb: usize, blocked: usize) -> (e: Effect)
    ensures
        e@ == render(html@, url@, timed, ram_kb as nat, blocked as nat),
{
    Effect::Render { html, url: String::from_str(url), timed, ram_kb, blocked }
}

fn fail(html: String) -> (e: Effect)
    ensures
        e@ == failure(html@),
{
    show(html, URL_ERROR, false, 0, 0)
}

fn finish(state: PipelineState, effects: Vec<Effect>, stop: bool) -> (out: StepFinish)
    ensures
        out@ == (FinishView { state: state@, effects: effects_view(effects@), stop }),
{
    StepFinish { state, effects, stop }
}

fn keep(state: PipelineState) -> (out: StepFinish)
    ensures
        out@ == unchanged(state@),
{
    finish(state, none(), false)
}

/// The number of bytes of the string's UTF-8 encoding.
fn byte_len(s: &String) -> (n: usize)
    ensures
        n == utf8_len(s@),
{
    s.as_str().len()
}

/// The memory, in KiB, that a command's outcome adds to the pipeline's
/// figure; the host checks that the sum fits before deciding the step.
pub fn ram_added(cmd: &Command, out: &Outcome) -> (n: usize)
    ensures
        n == added_ram(cmd@, out@),
{
    match (cmd, out) {
        (Command::Help, Outcome::Done) => 1,
        (Command::Read { .. }, Outcome::Loaded { content }) => byte_len(&trim(content.as_str())) / 1024,
        (Command::Get { .. }, Outcome::Loaded { content }) => byte_len(&trim(content.as_str())) / 1024,
        (Command::NoJs { .. }, Outcome::Fetched { content, .. }) => byte_len(content) / 1024,
        (Command::Upload, Outcome::PickedRead { content, .. }) => byte_len(&trim(content.as_str())) / 1024,
        (Command::Run { .. }, Outcome::WorkerLoaded { size, .. }) => *size / 1024,
        _ => 0,
    }
}

/// Announces a command and names the outside work it needs, given the
/// pipeline data, the command's position and the home directory.
pub fn step_start(data: &str, index: usize, cmd: &Command, home: &str) -> (out: StepStart)
    ensures
        out.notices@.map_values(|s: String| s@) == start_spec(data@, index as int, cmd@, home@).0,
        out.work@ == start_spec(data@, index as int, cmd@, home@).1,
{
    let mut notices: Vec<String> = Vec::new();
    let work = match cmd {
        Command::Help => {
            notices.push(String::from_str(HELP_NOTICE));
            Work::Nothing
        },
        Command::Catalog => {
            notices.push(String::from_str(CATALOG_NOTICE));
            Work::Nothing
        },
        Command::Read { path } => {
            let p = expand_home(path.as_str(), home);
            notices.push(read_notice(p.as_str()));
            Work::ReadFile { path: p }
        },
        Command::Get { url } => {
            notices.push(get_notice(url.as_str()));
            Work::FetchText { url: url.clone() }
        },
        Command::NoJs { url } => {
            notices.push(nojs_notice(url.as_str()));
            Work::FetchPage { url: url.clone() }
        },
        Command::Upload => {
            notices.push(String::from_str(UPLOAD_NOTICE));
            Work::PickFile
        },
        Command::Echo { .. } => Work::Nothing,
        Command::Rhai { script } => {
            notices.push(String::from_str(RHAI_NOTICE));
            let mut bindings: Vec<(String, String)> = Vec::new();
            if index > 0 && !data.is_empty() {
                bindings.push((String::from_str(PIPE_DATA), String::from_str(data)));
            }
            proof {
                assert(bindings@.map_values(|b: (String, String)| (b.0@, b.1@)) =~= script_bindings(
                    data@,
                    index as int,
                ));
            }
            Work::Evaluate { script: script.clone(), bindings }
        },
        Command::Run { tokens } => {
            let name = if tokens.len() > 0 {
                tokens[0].clone()
            } else {
                String::new()
            };
            let (source, alias) = worker_source(name.as_str());
            if alias {
                notices.push(alias_notice(name.as_str()));
            }
            notices.push(worker_notice(source.as_str()));
            let stdin = if index > 0 && !data.is_empty() {
                String::from_str(data)
            } else {
                String::new()
            };
            let args = worker_args(tokens);
            proof {
                let spec_args = worker_args_spec(tokens@.map_values(|t: String| t@));
                assert(args@.map_values(|a: String| a@) =~= spec_args);
            }
            Work::RunWorker { name, source, args, stdin }
        },
        Command::Unknown { .. } => Work::Nothing,
    };
    proof {
        let expected = start_spec(data@, index as int, cmd@, home@).0;
        assert(notices@.map_values(|s: String| s@) =~= expected);
    }
    StepStart { notices, work }
}


/// Decides what a command's outcome does to the pipeline: `index` is the
/// command's position among `total` commands, `home` the home directory.
pub fn step_finish(
    st: PipelineState,
    index: usize,
    total: usize,
    cmd: &Command,
    home: &str,
    out: Outcome,
) -> (res: StepFinish)
    requires
        st.ram_kb + added_ram(cmd@, out@) <= usize::MAX,
        cmd@ is Echo ==> !lone_quote(cmd@->Echo_text),
    ensures
        res@ == finish_spec(st@, index as int, total as int, cmd@, home@, out@),
{
    let last = total > 0 && index == total - 1;
    let extra = ram_added(cmd, &out);
    let ram = st.ram_kb + extra;
    match cmd {
        Command::Help => match out {
            Outcome::Done => {
                let data = String::from_str(HELP_TEXT);
                let page = help_page(HELP_TEXT);
                finish(
                    PipelineState { data, ram_kb: ram },
                    if_last(last, show(page, URL_HELP, true, ram, 0)),
                    false,
                )
            },
            _ => keep(st),
        },
        Command::Catalog => match out {
            Outcome::Done => finish(
                st,
                if_last(last, show(String::from_str(EMPTY_PAGE), URL_CATALOG, true, CATALOG_RAM_KB, 0)),
                false,
            ),
            _ => keep(st),
        },
        Command::Read { path } => match out {
            Outcome::Loaded { content } => {
                let p = expand_home(path.as_str(), home);
                let data = trim(content.as_str());
                let page = read_page(p.as_str(), data.as_str());
                finish(
                    PipelineState { data, ram_kb: ram },
                    if_last(last, show(page, URL_READ, true, ram, 0)),
                    false,
                )
            },
            Outcome::Failed { detail } => {
                let effects = two(
                    line(read_failed_notice(detail.as_str())),
                    fail(error_page(detail.as_str())),
                );
                finish(st, effects, true)
            },
            _ => keep(st),
        },
        Command::Get { url } => match out {
            Outcome::Loaded { content } => {
                let data = trim(content.as_str());
                let page = get_page(url.as_str(), data.as_str());
                finish(
                    PipelineState { data, ram_kb: ram },
                    if_last(last, show(page, URL_GET, true, ram, 0)),
                    false,
                )
            },
            Outcome::Failed { detail } => {
                let effects = two(
                    line(get_failed_notice(detail.as_str())),
                    fail(get_error_page(detail.as_str())),
                );
                finish(st, effects, true)
            },
            _ => keep(st),
        },
        Command::NoJs { .. } => match out {
            Outcome::Fetched { final_url, content } => {
                let effects = if last {
                    let shown = nojs_render(content.as_str());
                    one(show(shown.html, final_url.as_str(), true, ram, shown.blocked))
                } else {
                    none()
                };
                finish(PipelineState { data: content, ram_kb: ram }, effects, false)
            },
            Outcome::Failed { detail } => {
                let effects = two(
                    line(nojs_failed_notice(detail.as_str())),
                    fail(error_page(detail.as_str())),
                );
                finish(st, effects, true)
            },
            _ => keep(st),
        },
        Command::Upload => match out {
            Outcome::PickedRead { path, content } => {
                let data = trim(content.as_str());
                let page = upload_page(path.as_str(), data.as_str());
                let effects = then_if_last(
                    line(read_notice(path.as_str())),
                    last,
                    show(page, URL_UPLOAD, true, ram, 0),
                );
                finish(PipelineState { data, ram_kb: ram }, effects, false)
            },
            Outcome::PickedFailed { path, detail } => {
                let effects = three(
                    line(read_notice(path.as_str())),
                    line(read_failed_notice(detail.as_str())),
                    fail(error_page(detail.as_str())),
                );
                finish(st, effects, true)
            },
            Outcome::Cancelled => {
                let effects = two(
                    line_of(UPLOAD_CANCELLED_NOTICE),
                    fail(String::from_str(CANCEL_PAGE)),
                );
                finish(st, effects, true)
            },
            _ => keep(st),
        },
        Command::Echo { text } => match out {
            Outcome::Done => {
                let data = echo_payload(text.as_str());
                let size = byte_len(&data) / 1024;
                let escaped = escape_html(data.as_str());
                let page = echo_page(escaped.as_str());
                finish(
                    PipelineState { data, ram_kb: st.ram_kb },
                    if_last(last, show(page, URL_PIPELINE, true, size, 0)),
                    false,
                )
            },
            _ => keep(st),
        },
        Command::Rhai { script } => match out {
            Outcome::Evaluated { result, millis } => {
                let page = rhai_page(millis, script.as_str(), result.as_str());
                finish(
                    PipelineState { data: result, ram_kb: st.ram_kb },
                    if_last(last, show(page, URL_RHAI, true, SCRIPT_RAM_KB, 0)),
                    false,
                )
            },
            Outcome::Failed { detail } => {
                let effects = two(
                    line(rhai_failed_notice(detail.as_str())),
                    fail(error_page(detail.as_str())),
                );
                finish(st, effects, true)
            },
            _ => keep(st),
        },
        Command::Run { .. } => match out {
            Outcome::Failed { detail } => {
                let effects = two(
                    line(worker_download_failed_notice(detail.as_str())),
                    fail(worker_download_error_page(detail.as_str())),
                );
                finish(st, effects, true)
            },
            Outcome::WorkerLoaded { size, run } => {
                let loaded = line(wasm_loaded_notice(size as u128));
                match run {
                    WorkerRun::CompileFailed { detail } => {
                        let effects = three(
                            loaded,
                            line(compile_failed_notice(detail.as_str())),
                            fail(compile_error_page(detail.as_str())),
                        );
                        finish(PipelineState { data: st.data, ram_kb: ram }, effects, true)
                    },
                    WorkerRun::NotStarted => {
                        finish(PipelineState { data: st.data, ram_kb: ram }, one(loaded), false)
                    },
                    WorkerRun::Output { text } => {
                        let data = worker_output(text.as_str());
                        let page = if is_chart(data.as_str()) {
                            show(chart_page(data.as_str()), URL_CHART, true, ram, 0)
                        } else {
                            let escaped = escape_html(data.as_str());
                            show(pipeline_page(escaped.as_str()), URL_PIPELINE, true, ram, 0)
                        };
                        let effects = then_if_last(loaded, last, page);
                        finish(PipelineState { data, ram_kb: ram }, effects, false)
                    },
                }
            },
            _ => keep(st),
        },
        Command::Unknown { text } => match out {
            Outcome::Done => {
                let effects = two(
                    line_of(INVALID_COMMAND_NOTICE),
                    fail(not_found_page(text.as_str())),
                );
                finish(st, effects, true)
            },
            _ => keep(st),
        },
    }
}


/// A page message that is not a failure page.
pub open spec fn is_result_page(e: EffectView) -> bool {
    e matches EffectView::Render { url, .. } && url != URL_ERROR@
}

/// Only the last command of a pipeline renders a result: an earlier command
/// renders a page only when it fails, that page is a failure page, and the
/// pipeline stops there.
pub proof fn only_last_command_renders_a_result(
    st: StateView,
    index: int,
    total: int,
    cmd: CommandView,
    home: Seq<char>,
    out: OutcomeView,
)
    requires
        index != total - 1,
    ensures
        forall|i: int|
            0 <= i < finish_spec(st, index, total, cmd, home, out).effects.len() ==> !is_result_page(
                #[trigger] finish_spec(st, index, total, cmd, home, out).effects[i],
            ),
        forall|i: int|
            0 <= i < finish_spec(st, index, total, cmd, home, out).effects.len() && (
            #[trigger] finish_spec(st, index, total, cmd, home, out).effects[i]) is Render
                ==> finish_spec(st, index, total, cmd, home, out).stop,
{
    reveal_strlit("isobrowse://sandbox/error");
    reveal_strlit("isobrowse://sandbox/help");
}

/// A pipeline stops exactly on a failure, and the last message it then
/// shows is a failure page.
pub proof fn a_stop_ends_with_a_failure_page(
    st: StateView,
    index: int,
    total: int,
    cmd: CommandView,
    home: Seq<char>,
    out: OutcomeView,
)
    ensures
        finish_spec(st, index, total, cmd, home, out).stop ==> ({
            let effects = finish_spec(st, index, total, cmd, home, out).effects;
            &&& effects.len() > 0
            &&& effects.last() matches EffectView::Render { url, .. }
            &&& effects.last()->Render_url == URL_ERROR@
        }),
{
}

/// Data flows down the pipeline: a command after the first reads exactly
/// the data that the command before it left, when there is any. A worker
/// gets it as its standard input, a script as its only variable, `pipe_data`.
pub proof fn a_command_reads_what_the_one_before_left(
    st: StateView,
    index: int,
    total: int,
    cmd: CommandView,
    home: Seq<char>,
    out: OutcomeView,
    next: CommandView,
)
    requires
        0 <= index,
        finish_spec(st, index, total, cmd, home, out).state.data.len() > 0,
    ensures
        ({
            let data = finish_spec(st, index, total, cmd, home, out).state.data;
            let work = start_spec(data, index + 1, next, home).1;
            &&& next is Run ==> (work matches WorkView::RunWorker { stdin, .. } && stdin == data)
            &&& next is Rhai ==> (work matches WorkView::Evaluate { bindings, .. } && bindings == seq![(PIPE_DATA@, data)])
        }),
{
}

/// The pipeline's memory figure never goes down, and a command that stops
/// the pipeline leaves its data as it found it.
pub proof fn memory_grows_and_a_stop_keeps_the_data(
    st: StateView,
    index: int,
    total: int,
    cmd: CommandView,
    home: Seq<char>,
    out: OutcomeView,
)
    ensures
        finish_spec(st, index, total, cmd, home, out).state.ram_kb >= st.ram_kb,
        finish_spec(st, index, total, cmd, home, out).stop ==> finish_spec(
            st,
            index,
            total,
            cmd,
            home,
            out,
        ).state.data == st.data,
{
}

/// What a command passes on is what its outside work delivered, whatever
/// the data before it: a read, download or upload passes on the trimmed
/// text; a `/nojs` page passes on as fetched; a script passes on its
/// result; a worker passes on its trimmed output, or a placeholder when
/// that is empty.
pub proof fn a_command_passes_on_what_its_work_delivered(
    st: StateView,
    index: int,
    total: int,
    home: Seq<char>,
    path: Seq<char>,
    url: Seq<char>,
    content: Seq<char>,
    final_url: Seq<char>,
    script: Seq<char>,
    millis: nat,
    tokens: Seq<Seq<char>>,
    size: nat,
    text: Seq<char>,
)
    ensures
        finish_spec(st, index, total, CommandView::Read { path }, home, OutcomeView::Loaded { content }).state.data
            == trimmed(content),
        finish_spec(st, index, total, CommandView::Get { url }, home, OutcomeView::Loaded { content }).state.data
            == trimmed(content),
        finish_spec(
            st,
            index,
            total,
            CommandView::NoJs { url },
            home,
            OutcomeView::Fetched { final_url, content },
        ).state.data == content,
        finish_spec(
            st,
            index,
            total,
            CommandView::Upload,
            home,
            OutcomeView::PickedRead { path, content },
        ).state.data == trimmed(content),
        finish_spec(
            st,
            index,
            total,
            CommandView::Rhai { script },
            home,
            OutcomeView::Evaluated { result: content, millis },
        ).state.data == content,
        trimmed(text).len() > 0 ==> finish_spec(
            st,
            index,
            total,
            CommandView::Run { tokens },
            home,
            OutcomeView::WorkerLoaded { size, run: WorkerRunView::Output { text } },
        ).state.data == trimmed(text),
        trimmed(text).len() == 0 ==> finish_spec(
            st,
            index,
            total,
            CommandView::Run { tokens },
            home,
            OutcomeView::WorkerLoaded { size, run: WorkerRunView::Output { text } },
        ).state.data == "[No Output Generated]"@,
{
    reveal_strlit("[No Output Generated]");
}

/// Each command asks for the outside work it needs: a read of the path with
/// `~` as the home directory, a download of the text at a `/get` address,
/// a download of the page at a `/nojs` address, a file choice, a script
/// evaluation, or a worker run; the other commands ask for nothing.
pub proof fn each_command_asks_for_its_work(
    data: Seq<char>,
    index: int,
    home: Seq<char>,
    path: Seq<char>,
    url: Seq<char>,
    text: Seq<char>,
    tokens: Seq<Seq<char>>,
)
    ensures
        start_spec(data, index, CommandView::Read { path }, home).1 == (WorkView::ReadFile {
            path: replace_all(path, "~"@, home),
        }),
        start_spec(data, index, CommandView::Get { url }, home).1 == (WorkView::FetchText { url }),
        start_spec(data, index, CommandView::NoJs { url }, home).1 == (WorkView::FetchPage { url }),
        start_spec(data, index, CommandView::Upload, home).1 == WorkView::PickFile,
        (start_spec(data, index, CommandView::Rhai { script: text }, home).1 matches WorkView::Evaluate {
            script,
            ..
        } && script == text),
        (start_spec(data, index, CommandView::Run { tokens }, home).1 is RunWorker),
        start_spec(data, index, CommandView::Help, home).1 == WorkView::Nothing,
        start_spec(data, index, CommandView::Catalog, home).1 == WorkView::Nothing,
        start_spec(data, index, CommandView::Echo { text }, home).1 == WorkView::Nothing,
        start_spec(data, index, CommandView::Unknown { text }, home).1 == WorkView::Nothing,
{
    reveal_strlit("~");
}

/// The outcomes that the host can report for a piece of outside work.
pub open spec fn answers(work: WorkView, out: OutcomeView) -> bool {
    match work {
        WorkView::Nothing => out is Done,
        WorkView::ReadFile { .. } => out is Loaded || out is Failed,
        WorkView::FetchText { .. } => out is Loaded || out is Failed || out is NoText,
        WorkView::FetchPage { .. } => out is Fetched || out is Failed || out is NoText,
        WorkView::PickFile => out is PickedRead || out is PickedFailed || out is Cancelled,
        WorkView::Evaluate { .. } => out is Evaluated || out is Failed,
        WorkView::RunWorker { .. } => out is Failed || out is WorkerLoaded,
    }
}

/// Every readable outcome of the work a command asks for is acted upon:
/// as the last command of its pipeline, the command then shows something
/// (a page or a terminal line). Only a download whose text could not be
/// read passes without a trace.
pub proof fn every_readable_outcome_is_acted_upon(
    st: StateView,
    index: int,
    total: int,
    cmd: CommandView,
    home: Seq<char>,
    out: OutcomeView,
)
    requires
        index == total - 1,
        answers(start_spec(st.data, index, cmd, home).1, out),
        !(out is NoText),
    ensures
        finish_spec(st, index, total, cmd, home, out).effects.len() > 0,
{
}

} // verus!
