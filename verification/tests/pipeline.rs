use isobrowse::command::{parse_command, Command};
use isobrowse::host::{plan_pipeline, Plan};
use isobrowse::pipeline::{
    step_start, step_finish, PipelineState, Work, Outcome, WorkerRun, Effect, HELP_TEXT,
};
use isobrowse::pages::{error_page, echo_page, help_page, unrecognized_page, pipeline_page};
use isobrowse::notices::{worker_notice, alias_notice};

fn state(data: &str, ram_kb: usize) -> PipelineState {
    PipelineState { data: data.to_string(), ram_kb }
}

fn commands_of(request: &str) -> Vec<String> {
    match plan_pipeline(request) {
        Plan::Commands { commands } => commands,
        Plan::Rejected { .. } => panic!("expected a pipeline"),
    }
}

#[test]
fn readme_pipelines_split_into_commands() {
    assert_eq!(commands_of("/echo \"hello world\" | /run uppercase"), vec!["/echo \"hello world\"", "/run uppercase"]);
    assert_eq!(
        commands_of(" /get news.ycombinator.com | /run htmlclean | /run linkextract | /run sort "),
        vec!["/get news.ycombinator.com", "/run htmlclean", "/run linkextract", "/run sort"]
    );
    match parse_command("/get https://api.example.com") {
        Command::Get { url } => assert_eq!(url, "https://api.example.com"),
        _ => panic!(),
    }
    match parse_command("/run jq \"name\"") {
        Command::Run { tokens } => assert_eq!(tokens, vec!["jq", "name"]),
        _ => panic!(),
    }
    match parse_command("/echo \"print('hello')\"") {
        Command::Echo { text } => assert_eq!(isobrowse::command::echo_payload(&text), "print('hello')"),
        _ => panic!(),
    }
}

#[test]
fn unknown_input_is_rejected_with_an_escaped_page() {
    match plan_pipeline("  hello <b>world</b> ") {
        Plan::Rejected { effects } => {
            assert_eq!(effects.len(), 2);
            match &effects[0] {
                Effect::Terminal { line } => assert_eq!(line, "> [ERROR]: Command not recognized. Please check the Examples menu."),
                _ => panic!(),
            }
            match &effects[1] {
                Effect::Render { html, url, timed, ram_kb, blocked } => {
                    assert_eq!(html, &unrecognized_page("hello &lt;b&gt;world&lt;/b&gt;"));
                    assert_eq!(url, "isobrowse://sandbox/error");
                    assert!(!timed);
                    assert_eq!((*ram_kb, *blocked), (0, 0));
                }
                _ => panic!(),
            }
        }
        Plan::Commands { .. } => panic!("expected a rejection"),
    }
}

#[test]
fn run_step_announces_alias_and_source() {
    let cmd = parse_command("/run uppercase -x");
    let start = step_start("hello", 1, &cmd, "/home/u");
    let src = "https://raw.githubusercontent.com/igtumt/isomodules/main/uppercase.wasm";
    assert_eq!(start.notices, vec![alias_notice("uppercase"), worker_notice(src)]);
    match start.work {
        Work::RunWorker { name, source, args, stdin } => {
            assert_eq!(name, "uppercase");
            assert_eq!(source, src);
            assert_eq!(args, vec!["isobrowse_worker.wasm", "-x"]);
            assert_eq!(stdin, "hello");
        }
        _ => panic!(),
    }
    let first = step_start("hello", 0, &cmd, "/home/u");
    match first.work {
        Work::RunWorker { stdin, .. } => assert_eq!(stdin, ""),
        _ => panic!(),
    }
}

#[test]
fn read_step_expands_home() {
    let cmd = parse_command("/read ~/a.txt");
    let start = step_start("", 0, &cmd, "/home/u");
    assert_eq!(start.notices, vec!["> [LOCAL READ]: Accessing /home/u/a.txt..."]);
    match start.work {
        Work::ReadFile { path } => assert_eq!(path, "/home/u/a.txt"),
        _ => panic!(),
    }
}

#[test]
fn script_step_passes_data_after_the_first_command() {
    let cmd = parse_command("/rhai pipe_data.len()");
    match step_start("abc", 1, &cmd, "").work {
        Work::Evaluate { script, bindings } => {
            assert_eq!(script, "pipe_data.len()");
            assert_eq!(bindings, vec![("pipe_data".to_string(), "abc".to_string())]);
        }
        _ => panic!(),
    }
    match step_start("", 1, &cmd, "").work {
        Work::Evaluate { bindings, .. } => assert!(bindings.is_empty()),
        _ => panic!(),
    }
    match step_start("abc", 0, &cmd, "").work {
        Work::Evaluate { bindings, .. } => assert!(bindings.is_empty()),
        _ => panic!(),
    }
}

#[test]
fn help_as_last_command_renders_the_codex() {
    let cmd = parse_command("/help");
    let done = step_finish(state("", 0), 0, 1, &cmd, "", Outcome::Done);
    assert_eq!(done.state.data, HELP_TEXT);
    assert_eq!(done.state.ram_kb, 1);
    assert!(!done.stop);
    match &done.effects[..] {
        [Effect::Render { html, url, timed, ram_kb, blocked }] => {
            assert_eq!(html, &help_page(HELP_TEXT));
            assert_eq!(url, "isobrowse://sandbox/help");
            assert!(*timed);
            assert_eq!((*ram_kb, *blocked), (1, 0));
        }
        _ => panic!(),
    }
}

#[test]
fn echo_in_the_middle_only_passes_data_on() {
    let cmd = parse_command("/echo \"a<b\"");
    let done = step_finish(state("old", 3), 0, 2, &cmd, "", Outcome::Done);
    assert_eq!(done.state.data, "a<b");
    assert_eq!(done.state.ram_kb, 3);
    assert!(done.effects.is_empty());
    let last = step_finish(state("old", 3), 1, 2, &cmd, "", Outcome::Done);
    match &last.effects[..] {
        [Effect::Render { html, url, ram_kb, .. }] => {
            assert_eq!(html, &echo_page("a&lt;b"));
            assert_eq!(url, "isobrowse://sandbox/pipeline");
            assert_eq!(*ram_kb, 0);
        }
        _ => panic!(),
    }
}

#[test]
fn failed_read_stops_with_an_error_page() {
    let cmd = parse_command("/read missing.txt");
    let done = step_finish(state("x", 2), 0, 3, &cmd, "", Outcome::Failed { detail: "No such file".to_string() });
    assert!(done.stop);
    assert_eq!(done.state.data, "x");
    match &done.effects[..] {
        [Effect::Terminal { line }, Effect::Render { html, url, timed, .. }] => {
            assert_eq!(line, "> [ERROR]: Read failed: No such file");
            assert_eq!(html, &error_page("No such file"));
            assert_eq!(url, "isobrowse://sandbox/error");
            assert!(!timed);
        }
        _ => panic!(),
    }
}

#[test]
fn loaded_read_trims_and_counts_memory() {
    let cmd = parse_command("/cat big.txt");
    let content = format!("  {}  ", "x".repeat(5000));
    let done = step_finish(state("", 1), 0, 2, &cmd, "", Outcome::Loaded { content });
    assert_eq!(done.state.data.len(), 5000);
    assert_eq!(done.state.ram_kb, 1 + 5000 / 1024);
    assert!(done.effects.is_empty());
}

#[test]
fn worker_output_becomes_data_and_a_page() {
    let cmd = parse_command("/run uppercase");
    let done = step_finish(
        state("hello", 0),
        1,
        2,
        &cmd,
        "",
        Outcome::WorkerLoaded { size: 4096, run: WorkerRun::Output { text: " HELLO <X>\n".to_string() } },
    );
    assert_eq!(done.state.data, "HELLO <X>");
    assert_eq!(done.state.ram_kb, 4);
    match &done.effects[..] {
        [Effect::Terminal { line }, Effect::Render { html, url, ram_kb, .. }] => {
            assert_eq!(line, "> [WASM]: 4096 bytes loaded. Compiling VM sandbox...");
            assert_eq!(html, &pipeline_page("HELLO &lt;X&gt;"));
            assert_eq!(url, "isobrowse://sandbox/pipeline");
            assert_eq!(*ram_kb, 4);
        }
        _ => panic!(),
    }
}

#[test]
fn chart_output_renders_the_chart_page() {
    let cmd = parse_command("/run chart");
    let text = "{\"iso_chart\": true, \"labels\": [\"a\"], \"data\": [1]}".to_string();
    let done = step_finish(state("", 0), 0, 1, &cmd, "", Outcome::WorkerLoaded { size: 10, run: WorkerRun::Output { text: text.clone() } });
    match &done.effects[..] {
        [_, Effect::Render { html, url, .. }] => {
            assert_eq!(html, &isobrowse::pages::chart_page(&text));
            assert_eq!(url, "isobrowse://sandbox/chart");
        }
        _ => panic!(),
    }
}

#[test]
fn compile_failure_stops() {
    let cmd = parse_command("/run ./bad.wasm");
    let done = step_finish(state("d", 0), 0, 2, &cmd, "", Outcome::WorkerLoaded { size: 2048, run: WorkerRun::CompileFailed { detail: "bad magic".to_string() } });
    assert!(done.stop);
    assert_eq!(done.state.ram_kb, 2);
    assert_eq!(done.state.data, "d");
    assert_eq!(done.effects.len(), 3);
}

#[test]
fn unknown_command_inside_a_pipeline_stops() {
    let cmd = parse_command("/nonsense <x>");
    let done = step_finish(state("", 0), 1, 3, &cmd, "", Outcome::Done);
    assert!(done.stop);
    match &done.effects[..] {
        [Effect::Terminal { line }, Effect::Render { html, .. }] => {
            assert_eq!(line, "> [ERROR]: Invalid command. Use /nojs, /run, /get, etc.");
            assert_eq!(html, &isobrowse::pages::not_found_page("/nonsense <x>"));
        }
        _ => panic!(),
    }
}

#[test]
fn cancelled_upload_stops_with_the_cancel_page() {
    let done = step_finish(state("", 0), 0, 1, &Command::Upload, "", Outcome::Cancelled);
    assert!(done.stop);
    match &done.effects[..] {
        [Effect::Terminal { line }, Effect::Render { html, .. }] => {
            assert_eq!(line, "> [SYSTEM]: File selection cancelled.");
            assert_eq!(html, isobrowse::pages::CANCEL_PAGE);
        }
        _ => panic!(),
    }
}

#[test]
fn nojs_last_step_renders_the_treated_page() {
    let cmd = parse_command("/nojs example.com");
    let page = "<script>x</script><p>hi</p>".to_string();
    let done = step_finish(state("", 0), 0, 1, &cmd, "", Outcome::Fetched { final_url: "https://example.com/".to_string(), content: page.clone() });
    let shown = isobrowse::nojs::nojs_render(&page);
    match &done.effects[..] {
        [Effect::Render { html, url, blocked, timed, .. }] => {
            assert_eq!(html, &shown.html);
            assert_eq!(url, "https://example.com/");
            assert_eq!(*blocked, 1);
            assert!(*timed);
        }
        _ => panic!(),
    }
}

#[test]
fn mismatched_outcome_changes_nothing() {
    let done = step_finish(state("keep", 7), 0, 1, &Command::Help, "", Outcome::Cancelled);
    assert_eq!(done.state.data, "keep");
    assert_eq!(done.state.ram_kb, 7);
    assert!(done.effects.is_empty());
    assert!(!done.stop);
}

#[test]
fn echoed_text_becomes_the_next_workers_input() {
    let commands = commands_of("/echo \"hello world\" | /run uppercase");
    let echo = parse_command(&commands[0]);
    let done = step_finish(state("", 0), 0, 2, &echo, "", Outcome::Done);
    assert!(done.effects.is_empty());
    let run = parse_command(&commands[1]);
    match step_start(&done.state.data, 1, &run, "").work {
        Work::RunWorker { name, stdin, .. } => {
            assert_eq!(name, "uppercase");
            assert_eq!(stdin, "hello world");
        }
        _ => panic!(),
    }
}
