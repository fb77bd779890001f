use isobrowse::command::{
    pipeline_request, split_pipeline, parse_command, tokenize_args, echo_payload, escape_html,
    expand_home, worker_source, worker_args, worker_output, is_chart, Command, fetched_over_http,
    models_dir,
};
use isobrowse::markup::decode_lossy;
use isobrowse::text::chars_of;

fn tokens(s: &str) -> Vec<String> {
    tokenize_args(&chars_of(s))
}

#[test]
fn known_prefixes_start_a_pipeline() {
    for s in ["/help", "/helpme", "/catalog", "/explore", "/run x", "/fetch x", "/get x", "/rhai 1",
        "/read f", "/cat f", "/echo hi", "/upload", "/nojs x"] {
        assert!(pipeline_request(s), "{}", s);
    }
    for s in ["/run", "/get", "hello", "", " /help", "/ECHO x", "/echox"] {
        assert!(!pipeline_request(s), "{}", s);
    }
}

#[test]
fn split_pipeline_matches_std_split_and_trim() {
    let cases = ["/echo a | /run b", "a||b", "|", "", "  x  ", "/get x |/run y| /run z "];
    for s in cases {
        let expected: Vec<String> = s.split('|').map(|p| p.trim().to_string()).collect();
        assert_eq!(split_pipeline(s), expected);
    }
}

#[test]
fn parse_command_reads_each_kind() {
    assert!(matches!(parse_command("/help"), Command::Help));
    assert!(matches!(parse_command("/helpme"), Command::Help));
    assert!(matches!(parse_command("/catalog"), Command::Catalog));
    assert!(matches!(parse_command("/explore now"), Command::Catalog));
    assert!(matches!(parse_command("/upload"), Command::Upload));
    match parse_command("/read  \"~/notes.txt\" ") {
        Command::Read { path } => assert_eq!(path, "~/notes.txt"),
        _ => panic!("expected a read"),
    }
    match parse_command("/cat log.txt") {
        Command::Read { path } => assert_eq!(path, "log.txt"),
        _ => panic!("expected a read"),
    }
    match parse_command("/get example.com") {
        Command::Get { url } => assert_eq!(url, "https://example.com"),
        _ => panic!("expected a get"),
    }
    match parse_command("/get http://example.com/x") {
        Command::Get { url } => assert_eq!(url, "http://example.com/x"),
        _ => panic!("expected a get"),
    }
    match parse_command("/nojs news.ycombinator.com") {
        Command::NoJs { url } => assert_eq!(url, "https://news.ycombinator.com"),
        _ => panic!("expected a nojs"),
    }
    match parse_command("/echo  'hello isobrowse' ") {
        Command::Echo { text } => assert_eq!(text, "'hello isobrowse'"),
        _ => panic!("expected an echo"),
    }
    match parse_command("/rhai 40 + 2") {
        Command::Rhai { script } => assert_eq!(script, "40 + 2"),
        _ => panic!("expected a script"),
    }
    match parse_command("/run jq '.'") {
        Command::Run { tokens } => assert_eq!(tokens, vec!["jq".to_string(), ".".to_string()]),
        _ => panic!("expected a run"),
    }
    match parse_command("/fetch ./tool.wasm a b") {
        Command::Run { tokens } => assert_eq!(tokens, vec!["./tool.wasm", "a", "b"]),
        _ => panic!("expected a run"),
    }
    match parse_command("/bogus") {
        Command::Unknown { text } => assert_eq!(text, "/bogus"),
        _ => panic!("expected an unknown command"),
    }
}

#[test]
fn tokenizer_handles_quotes_and_white_space() {
    assert_eq!(tokens("  a  b\tc "), vec!["a", "b", "c"]);
    assert_eq!(tokens("grep \"two words\" x"), vec!["grep", "two words", "x"]);
    assert_eq!(tokens("a'b c'd"), vec!["ab cd"]);
    assert_eq!(tokens("\"\""), Vec::<String>::new());
    assert_eq!(tokens(""), Vec::<String>::new());
    assert_eq!(tokens("x \"unterminated y"), vec!["x", "unterminated y"]);
}

#[test]
fn echo_payload_unquotes_and_unescapes() {
    assert_eq!(echo_payload("\"hello world\""), "hello world");
    assert_eq!(echo_payload("'a'"), "a");
    assert_eq!(echo_payload("\"a'"), "\"a'");
    assert_eq!(echo_payload("line1\\nline2\\tx"), "line1\nline2\tx");
    assert_eq!(echo_payload("\"\""), "");
    assert_eq!(echo_payload(""), "");
}

#[test]
fn escape_html_writes_entities() {
    assert_eq!(escape_html("<b>x</b> & y"), "&lt;b&gt;x&lt;/b&gt; & y");
    let out = escape_html("<<>>");
    assert!(!out.contains('<') && !out.contains('>'));
}

#[test]
fn home_expansion_replaces_every_tilde() {
    assert_eq!(expand_home("~/Desktop/server.log", "/home/u"), "/home/u/Desktop/server.log");
    assert_eq!(expand_home("a~b~", "H"), "aHbH");
    assert_eq!(expand_home("/abs/path", "/home/u"), "/abs/path");
}

#[test]
fn worker_names_resolve_to_sources() {
    assert_eq!(
        worker_source("uppercase"),
        ("https://raw.githubusercontent.com/igtumt/isomodules/main/uppercase.wasm".to_string(), true)
    );
    for name in ["", "https://your-tool.wasm", "http://x/y", "/abs/tool", "./mytool.wasm", "~/t",
        "C:\\tools\\t", "tool.wasm"] {
        assert_eq!(worker_source(name), (name.to_string(), false), "{}", name);
    }
}

#[test]
fn worker_args_replace_the_name_by_the_program() {
    let toks = vec!["jq".to_string(), ".a".to_string(), "-r".to_string()];
    assert_eq!(worker_args(&toks), vec!["isobrowse_worker.wasm", ".a", "-r"]);
    assert_eq!(worker_args(&vec!["sort".to_string()]), vec!["isobrowse_worker.wasm"]);
    assert_eq!(worker_args(&Vec::new()), vec!["isobrowse_worker.wasm"]);
}

#[test]
fn worker_output_is_trimmed_or_a_placeholder() {
    assert_eq!(worker_output("  HELLO \n"), "HELLO");
    assert_eq!(worker_output(" \n\t"), "[No Output Generated]");
    assert!(is_chart("{\"iso_chart\": true, \"data\": [1]}"));
    assert!(!is_chart("{\"iso_chart\":true}"));
}

#[test]
fn worker_sources_and_directories() {
    assert!(fetched_over_http("https://x/y.wasm"));
    assert!(fetched_over_http("http://x"));
    assert!(!fetched_over_http("./tool.wasm"));
    assert_eq!(models_dir("/home/u"), "/home/u/.isobrowse_models");
}

#[test]
fn worker_output_bytes_are_read_lossily() {
    let bytes: Vec<u8> = vec![b'o', b'k', 0xff, 0xc3, 0xa9, 0xe2, 0x82];
    assert_eq!(decode_lossy(&bytes), String::from_utf8_lossy(&bytes));
    assert_eq!(decode_lossy("plain é".as_bytes()), "plain é");
}

#[test]
fn a_pipeline_has_one_command_more_than_separators() {
    for s in ["/echo a | /run b | /run c", "a||b", "|", "", "x"] {
        let commands = split_pipeline(s);
        assert_eq!(commands.len(), s.matches('|').count() + 1);
        assert!(commands.iter().all(|c| !c.contains('|')));
    }
}

#[test]
fn tokens_are_never_empty_nor_quoted() {
    for s in ["a \"\" b", "'x y' \"z\"", "\"''\"  q", "'\"'"] {
        for t in tokens(s) {
            assert!(!t.is_empty());
            assert!(!t.contains('"') && !t.contains('\''));
        }
    }
    assert_eq!(tokens("a \"\" b"), vec!["a", "b"]);
}
