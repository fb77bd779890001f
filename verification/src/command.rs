//! The pipeline command language: which inputs start a pipeline, how a
//! pipeline splits into commands, and what each command asks for.
use vstd::prelude::*;
use crate::text::{
    starts_with, ends_with, contains_pat, replace_all, trimmed, trimmed_of, is_white_space,
    chars_of, string_of, has_prefix, has_suffix, has_substring, slice_chars, trim_chars,
    trim_char_chars, replace_chars, white_space, replace, lemma_replace_removes,
    lemma_replace_keeps_free, safe_replacement, cannot_begin, diverge, lacks_char,
    lemma_trimmed_keeps_lacking,
};

verus! {

pub const HELP: &'static str = "/help";
pub const CATALOG: &'static str = "/catalog";
pub const EXPLORE: &'static str = "/explore";
pub const RUN: &'static str = "/run ";
pub const FETCH: &'static str = "/fetch ";
pub const GET: &'static str = "/get ";
pub const RHAI: &'static str = "/rhai ";
pub const READ: &'static str = "/read ";
pub const CAT: &'static str = "/cat ";
pub const ECHO: &'static str = "/echo ";
pub const UPLOAD: &'static str = "/upload";
pub const NOJS: &'static str = "/nojs ";
pub const HTTP: &'static str = "http";
pub const HTTPS_SCHEME: &'static str = "https://";
pub const HOME_MARK: &'static str = "~";
pub const LT: &'static str = "<";
pub const GT: &'static str = ">";
pub const LT_ENTITY: &'static str = "&lt;";
pub const GT_ENTITY: &'static str = "&gt;";
pub const ESCAPED_NEWLINE: &'static str = "\\n";
pub const NEWLINE: &'static str = "\n";
pub const ESCAPED_TAB: &'static str = "\\t";
pub const TAB: &'static str = "\t";
pub const MODULE_REPOSITORY: &'static str = "https://raw.githubusercontent.com/igtumt/isomodules/main/";
pub const WASM_SUFFIX: &'static str = ".wasm";
pub const SLASH: &'static str = "/";
pub const DOT: &'static str = ".";
pub const DRIVE_SEPARATOR: &'static str = ":\\";
pub const WORKER_PROGRAM: &'static str = "isobrowse_worker.wasm";
pub const NO_OUTPUT: &'static str = "[No Output Generated]";
pub const MODELS_DIR: &'static str = "/.isobrowse_models";
pub const CHART_MARKER: &'static str = "\"iso_chart\": true";

/// An input starts a pipeline when it begins with one of the known command
/// prefixes.
pub open spec fn is_pipeline_request(s: Seq<char>) -> bool {
    ||| starts_with(s, HELP@)
    ||| starts_with(s, CATALOG@)
    ||| starts_with(s, EXPLORE@)
    ||| starts_with(s, RUN@)
    ||| starts_with(s, FETCH@)
    ||| starts_with(s, GET@)
    ||| starts_with(s, RHAI@)
    ||| starts_with(s, READ@)
    ||| starts_with(s, CAT@)
    ||| starts_with(s, ECHO@)
    ||| starts_with(s, UPLOAD@)
    ||| starts_with(s, NOJS@)
}

/// Whether the (already trimmed) input starts a pipeline.
pub fn pipeline_request(s: &str) -> (b: bool)
    ensures
        b == is_pipeline_request(s@),
{
    has_prefix(s, HELP) || has_prefix(s, CATALOG) || has_prefix(s, EXPLORE) || has_prefix(s, RUN)
        || has_prefix(s, FETCH) || has_prefix(s, GET) || has_prefix(s, RHAI) || has_prefix(s, READ)
        || has_prefix(s, CAT) || has_prefix(s, ECHO) || has_prefix(s, UPLOAD) || has_prefix(s, NOJS)
}

/// The fields of `s` between the separators `sep` (`str::split(sep)`): one
/// more field than there are separators.
pub open spec fn split_fields(s: Seq<char>, sep: char) -> Seq<Seq<char>>
    decreases s.len(),
{
    if s.len() == 0 {
        seq![Seq::empty()]
    } else {
        let init = split_fields(s.drop_last(), sep);
        if s.last() == sep {
            init.push(Seq::empty())
        } else {
            init.update(init.len() - 1, init.last().push(s.last()))
        }
    }
}

proof fn lemma_split_fields_nonempty(s: Seq<char>, sep: char)
    ensures
        split_fields(s, sep).len() >= 1,
    decreases s.len(),
{
    if s.len() > 0 {
        lemma_split_fields_nonempty(s.drop_last(), sep);
    }
}

/// The commands of a pipeline: the fields between `|`, each trimmed.
pub open spec fn pipeline_commands(s: Seq<char>) -> Seq<Seq<char>> {
    split_fields(s, '|').map_values(|f: Seq<char>| trimmed(f))
}

/// The number of copies of the character `c` in `s`.
pub open spec fn char_count(s: Seq<char>, c: char) -> nat
    decreases s.len(),
{
    if s.len() == 0 {
        0
    } else {
        char_count(s.drop_last(), c) + if s.last() == c {
            1nat
        } else {
            0nat
        }
    }
}

proof fn lemma_split_fields_shape(s: Seq<char>, sep: char)
    ensures
        split_fields(s, sep).len() == char_count(s, sep) + 1,
        forall|i: int| 0 <= i < split_fields(s, sep).len() ==> lacks_char(#[trigger] split_fields(s, sep)[i], sep),
    decreases s.len(),
{
    if s.len() > 0 {
        lemma_split_fields_shape(s.drop_last(), sep);
        let init = split_fields(s.drop_last(), sep);
        if s.last() != sep {
            let f = init.last().push(s.last());
            assert(lacks_char(init[init.len() - 1], sep));
            assert(lacks_char(f, sep)) by {
                assert forall|k: int| 0 <= k < f.len() implies #[trigger] f[k] != sep by {
                    if k < init.last().len() {
                        assert(f[k] == init.last()[k]);
                    }
                }
            }
        }
    }
}

/// A pipeline has one command more than it has separators `|`, and no
/// command holds a `|`.
pub proof fn commands_hold_no_separator(s: Seq<char>)
    ensures
        pipeline_commands(s).len() == char_count(s, '|') + 1,
        forall|i: int| 0 <= i < pipeline_commands(s).len() ==> lacks_char(#[trigger] pipeline_commands(s)[i], '|'),
{
    lemma_split_fields_shape(s, '|');
    let fields = split_fields(s, '|');
    assert forall|i: int| 0 <= i < pipeline_commands(s).len() implies lacks_char(#[trigger] pipeline_commands(s)[i], '|') by {
        assert(lacks_char(fields[i], '|'));
        lemma_trimmed_keeps_lacking(fields[i], '|');
    }
}

/// Splits a pipeline into its trimmed commands.
pub fn split_pipeline(s: &str) -> (out: Vec<String>)
    ensures
        out@.len() == pipeline_commands(s@).len(),
        forall|i: int| 0 <= i < out@.len() ==> #[trigger] out@[i]@ == pipeline_commands(s@)[i],
{
    let cs = chars_of(s);
    let mut done: Vec<Vec<char>> = Vec::new();
    let mut cur: Vec<char> = Vec::new();
    let mut i: usize = 0;
    assert(cs@.take(0) == Seq::<char>::empty());
    while i < cs.len()
        invariant
            i <= cs@.len(),
            ({
                let f = split_fields(cs@.take(i as int), '|');
                &&& f.len() == done@.len() + 1
                &&& forall|k: int| 0 <= k < done@.len() ==> #[trigger] done@[k]@ == f[k]
                &&& cur@ == f.last()
            }),
        decreases cs@.len() - i,
    {
        let c = cs[i];
        let ghost before = split_fields(cs@.take(i as int), '|');
        assert(cs@.take(i + 1).drop_last() == cs@.take(i as int));
        if c == '|' {
            let finished = cur;
            done.push(finished);
            cur = Vec::new();
        } else {
            cur.push(c);
        }
        i = i + 1;
    }
    assert(cs@.take(cs@.len() as int) == cs@);
    let ghost fields = split_fields(cs@, '|');
    done.push(cur);
    let mut out: Vec<String> = Vec::new();
    let mut k: usize = 0;
    while k < done.len()
        invariant
            k <= done@.len(),
            fields.len() == done@.len(),
            forall|j: int| 0 <= j < done@.len() ==> #[trigger] done@[j]@ == fields[j],
            out@.len() == k,
            forall|j: int| 0 <= j < k ==> #[trigger] out@[j]@ == trimmed(fields[j]),
        decreases done@.len() - k,
    {
        let t = trim_chars(done[k].as_slice());
        out.push(string_of(t.as_slice()));
        k = k + 1;
    }
    out
}

/// The text after a command prefix of `n` characters, trimmed.
pub open spec fn argument(c: Seq<char>, n: int) -> Seq<char> {
    trimmed(c.skip(n))
}

/// The trimmed text of `c` after its first `n` characters.
fn argument_exec(cs: &Vec<char>, n: usize) -> (out: Vec<char>)
    requires
        n <= cs@.len(),
    ensures
        out@ == argument(cs@, n as int),
{
    let rest = slice_chars(cs.as_slice(), n, cs.len());
    assert(cs@.subrange(n as int, cs@.len() as int) == cs@.skip(n as int));
    trim_chars(rest.as_slice())
}

/// A fetch target as a URL: kept when it starts with `http`, otherwise
/// given the `https://` scheme.
pub open spec fn web_url(target: Seq<char>) -> Seq<char> {
    if starts_with(target, HTTP@) {
        target
    } else {
        HTTPS_SCHEME@ + target
    }
}

fn web_url_exec(target: Vec<char>) -> (out: Vec<char>)
    ensures
        out@ == web_url(target@),
{
    let h = chars_of(HTTP);
    if crate::text::occurs_at_exec(target.as_slice(), h.as_slice(), 0) {
        target
    } else {
        let mut out = chars_of(HTTPS_SCHEME);
        crate::text::push_all(&mut out, target.as_slice());
        out
    }
}

/// The path of a `/read` or `/cat` argument: trimmed, without surrounding
/// double quotes.
pub open spec fn read_path(arg: Seq<char>) -> Seq<char> {
    trimmed_of(arg, '"')
}

/// One step of the `/run` argument tokenizer: a quote toggles quoting, white
/// space outside quotes ends the current token, any other character joins it.
pub open spec fn token_step(st: (Seq<Seq<char>>, Seq<char>, bool), c: char) -> (
    Seq<Seq<char>>,
    Seq<char>,
    bool,
) {
    if c == '"' || c == '\'' {
        (st.0, st.1, !st.2)
    } else if is_white_space(c) && !st.2 {
        if st.1.len() > 0 {
            (st.0.push(st.1), Seq::empty(), st.2)
        } else {
            st
        }
    } else {
        (st.0, st.1.push(c), st.2)
    }
}

/// The tokenizer state after reading all of `s`.
pub open spec fn token_scan(s: Seq<char>) -> (Seq<Seq<char>>, Seq<char>, bool)
    decreases s.len(),
{
    if s.len() == 0 {
        (Seq::empty(), Seq::empty(), false)
    } else {
        token_step(token_scan(s.drop_last()), s.last())
    }
}

/// The tokens of a `/run` argument string.
pub open spec fn tokenize(s: Seq<char>) -> Seq<Seq<char>> {
    let st = token_scan(s);
    if st.1.len() > 0 {
        st.0.push(st.1)
    } else {
        st.0
    }
}

/// A token holds no quote character.
pub open spec fn unquoted_token(t: Seq<char>) -> bool {
    lacks_char(t, '"') && lacks_char(t, '\'')
}

proof fn lemma_token_scan_clean(s: Seq<char>)
    ensures
        forall|i: int| 0 <= i < token_scan(s).0.len() ==> #[trigger] token_scan(s).0[i].len() > 0
            && unquoted_token(token_scan(s).0[i]),
        unquoted_token(token_scan(s).1),
    decreases s.len(),
{
    if s.len() > 0 {
        lemma_token_scan_clean(s.drop_last());
        let st = token_scan(s.drop_last());
        let c = s.last();
        if !(c == '"' || c == '\'') && !(is_white_space(c) && !st.2) {
            let t = st.1.push(c);
            assert(unquoted_token(t)) by {
                assert forall|k: int| 0 <= k < t.len() implies #[trigger] t[k] != '"' && t[k] != '\'' by {
                    if k < st.1.len() {
                        assert(t[k] == st.1[k]);
                    }
                }
            }
        }
    }
}

/// No token of a `/run` argument string is empty or holds a quote
/// character: quotes only group, they never reach the worker.
pub proof fn tokens_are_nonempty_and_unquoted(s: Seq<char>)
    ensures
        forall|i: int| 0 <= i < tokenize(s).len() ==> #[trigger] tokenize(s)[i].len() > 0
            && unquoted_token(tokenize(s)[i]),
{
    lemma_token_scan_clean(s);
}

/// Splits a `/run` argument string into tokens.
pub fn tokenize_args(s: &[char]) -> (out: Vec<String>)
    ensures
        out@.len() == tokenize(s@).len(),
        forall|i: int| 0 <= i < out@.len() ==> #[trigger] out@[i]@ == tokenize(s@)[i],
{
    let mut done: Vec<Vec<char>> = Vec::new();
    let mut cur: Vec<char> = Vec::new();
    let mut quoted = false;
    let mut i: usize = 0;
    assert(s@.take(0) == Seq::<char>::empty());
    while i < s.len()
        invariant
            i <= s@.len(),
            ({
                let st = token_scan(s@.take(i as int));
                &&& st.0.len() == done@.len()
                &&& forall|k: int| 0 <= k < done@.len() ==> #[trigger] done@[k]@ == st.0[k]
                &&& cur@ == st.1
                &&& quoted == st.2
            }),
        decreases s@.len() - i,
    {
        let c = s[i];
        assert(s@.take(i + 1).drop_last() == s@.take(i as int));
        assert(s@.take(i + 1).last() == c);
        if c == '"' || c == '\'' {
            quoted = !quoted;
        } else if white_space(c) && !quoted {
            if cur.len() > 0 {
                let finished = cur;
                done.push(finished);
                cur = Vec::new();
            }
        } else {
            cur.push(c);
        }
        i = i + 1;
    }
    assert(s@.take(s@.len() as int) == s@);
    if cur.len() > 0 {
        done.push(cur);
    }
    let mut out: Vec<String> = Vec::new();
    let mut k: usize = 0;
    while k < done.len()
        invariant
            k <= done@.len(),
            done@.len() == tokenize(s@).len(),
            forall|j: int| 0 <= j < done@.len() ==> #[trigger] done@[j]@ == tokenize(s@)[j],
            out@.len() == k,
            forall|j: int| 0 <= j < k ==> #[trigger] out@[j]@ == tokenize(s@)[j],
        decreases done@.len() - k,
    {
        out.push(string_of(done[k].as_slice()));
        k = k + 1;
    }
    out
}

/// A pipeline command, with the argument it carries.
pub enum Command {
    /// `/help`: show the command codex.
    Help,
    /// `/catalog` or `/explore`: open the module catalog.
    Catalog,
    /// `/read <file>` or `/cat <file>`: read a local file.
    Read { path: String },
    /// `/get <url>`: download raw data.
    Get { url: String },
    /// `/nojs <url>`: fetch a web page and render it without scripts.
    NoJs { url: String },
    /// `/upload`: read a file that the user picks.
    Upload,
    /// `/echo <text>`: pass text into the pipeline.
    Echo { text: String },
    /// `/rhai <script>`: evaluate a script.
    Rhai { script: String },
    /// `/run <name_or_url> <args>` or `/fetch ...`: run a WebAssembly worker.
    Run { tokens: Vec<String> },
    /// Anything else, with its text.
    Unknown { text: String },
}

/// The mathematical form of a command.
pub enum CommandView {
    Help,
    Catalog,
    Read { path: Seq<char> },
    Get { url: Seq<char> },
    NoJs { url: Seq<char> },
    Upload,
    Echo { text: Seq<char> },
    Rhai { script: Seq<char> },
    Run { tokens: Seq<Seq<char>> },
    Unknown { text: Seq<char> },
}

impl View for Command {
    type V = CommandView;

    open spec fn view(&self) -> CommandView {
        match self {
            Command::Help => CommandView::Help,
            Command::Catalog => CommandView::Catalog,
            Command::Read { path } => CommandView::Read { path: path@ },
            Command::Get { url } => CommandView::Get { url: url@ },
            Command::NoJs { url } => CommandView::NoJs { url: url@ },
            Command::Upload => CommandView::Upload,
            Command::Echo { text } => CommandView::Echo { text: text@ },
            Command::Rhai { script } => CommandView::Rhai { script: script@ },
            Command::Run { tokens } => CommandView::Run {
                tokens: tokens@.map_values(|t: String| t@),
            },
            Command::Unknown { text } => CommandView::Unknown { text: text@ },
        }
    }
}

/// What a (trimmed) command text means; the prefixes are tried in this order.
pub open spec fn parse_command_spec(c: Seq<char>) -> CommandView {
    if starts_with(c, HELP@) {
        CommandView::Help
    } else if starts_with(c, CATALOG@) || starts_with(c, EXPLORE@) {
        CommandView::Catalog
    } else if starts_with(c, READ@) {
        CommandView::Read { path: read_path(argument(c, READ@.len() as int)) }
    } else if starts_with(c, CAT@) {
        CommandView::Read { path: read_path(argument(c, CAT@.len() as int)) }
    } else if starts_with(c, GET@) {
        CommandView::Get { url: web_url(argument(c, GET@.len() as int)) }
    } else if starts_with(c, NOJS@) {
        CommandView::NoJs { url: web_url(argument(c, NOJS@.len() as int)) }
    } else if starts_with(c, UPLOAD@) {
        CommandView::Upload
    } else if starts_with(c, ECHO@) {
        CommandView::Echo { text: argument(c, ECHO@.len() as int) }
    } else if starts_with(c, RHAI@) {
        CommandView::Rhai { script: argument(c, RHAI@.len() as int) }
    } else if starts_with(c, RUN@) {
        CommandView::Run { tokens: tokenize(argument(c, RUN@.len() as int)) }
    } else if starts_with(c, FETCH@) {
        CommandView::Run { tokens: tokenize(argument(c, FETCH@.len() as int)) }
    } else {
        CommandView::Unknown { text: c }
    }
}

fn starts_exec(cs: &Vec<char>, pat: &str) -> (b: bool)
    ensures
        b == starts_with(cs@, pat@),
{
    let pc = chars_of(pat);
    crate::text::occurs_at_exec(cs.as_slice(), pc.as_slice(), 0)
}

/// Reads a (trimmed) command text.
pub fn parse_command(c: &str) -> (out: Command)
    ensures
        out@ == parse_command_spec(c@),
{
    let cs = chars_of(c);
    proof {
        reveal_strlit("/read ");
        reveal_strlit("/cat ");
        reveal_strlit("/get ");
        reveal_strlit("/nojs ");
        reveal_strlit("/echo ");
        reveal_strlit("/rhai ");
        reveal_strlit("/run ");
        reveal_strlit("/fetch ");
    }
    if starts_exec(&cs, HELP) {
        Command::Help
    } else if starts_exec(&cs, CATALOG) || starts_exec(&cs, EXPLORE) {
        Command::Catalog
    } else if starts_exec(&cs, READ) {
        let a = argument_exec(&cs, 6);
        let p = trim_char_chars(a.as_slice(), '"');
        Command::Read { path: string_of(p.as_slice()) }
    } else if starts_exec(&cs, CAT) {
        let a = argument_exec(&cs, 5);
        let p = trim_char_chars(a.as_slice(), '"');
        Command::Read { path: string_of(p.as_slice()) }
    } else if starts_exec(&cs, GET) {
        let a = argument_exec(&cs, 5);
        let u = web_url_exec(a);
        Command::Get { url: string_of(u.as_slice()) }
    } else if starts_exec(&cs, NOJS) {
        let a = argument_exec(&cs, 6);
        let u = web_url_exec(a);
        Command::NoJs { url: string_of(u.as_slice()) }
    } else if starts_exec(&cs, UPLOAD) {
        Command::Upload
    } else if starts_exec(&cs, ECHO) {
        let a = argument_exec(&cs, 6);
        Command::Echo { text: string_of(a.as_slice()) }
    } else if starts_exec(&cs, RHAI) {
        let a = argument_exec(&cs, 6);
        Command::Rhai { script: string_of(a.as_slice()) }
    } else if starts_exec(&cs, RUN) {
        let a = argument_exec(&cs, 5);
        let tokens = tokenize_args(a.as_slice());
        proof {
            assert(tokens@.map_values(|t: String| t@) == tokenize(a@));
        }
        Command::Run { tokens }
    } else if starts_exec(&cs, FETCH) {
        let a = argument_exec(&cs, 7);
        let tokens = tokenize_args(a.as_slice());
        proof {
            assert(tokens@.map_values(|t: String| t@) == tokenize(a@));
        }
        Command::Run { tokens }
    } else {
        Command::Unknown { text: String::from_str(c) }
    }
}


/// A `/echo` text that is a single quote character: taking the text between
/// its (coinciding) quotes is an empty range that starts after it ends, on
/// which slicing panics.
pub open spec fn lone_quote(t: Seq<char>) -> bool {
    t.len() == 1 && (t[0] == '"' || t[0] == '\'')
}

/// Whether a `/echo` text is a single quote character.
pub fn lone_quote_text(t: &str) -> (b: bool)
    ensures
        b == lone_quote(t@),
{
    let cs = chars_of(t);
    cs.len() == 1 && (cs[0] == '"' || cs[0] == '\'')
}

/// The `/echo` text without one pair of matching surrounding quotes.
pub open spec fn unquote(t: Seq<char>) -> Seq<char> {
    if t.len() > 0 && ((t[0] == '"' && t.last() == '"') || (t[0] == '\'' && t.last() == '\'')) {
        t.subrange(1, t.len() - 1)
    } else {
        t
    }
}

/// The data that `/echo` puts into the pipeline: the unquoted text with the
/// escapes `\n` and `\t` turned into a newline and a tab.
pub open spec fn echo_payload_spec(t: Seq<char>) -> Seq<char> {
    replace_all(replace_all(unquote(t), ESCAPED_NEWLINE@, NEWLINE@), ESCAPED_TAB@, TAB@)
}

/// The data that `/echo` puts into the pipeline.
pub fn echo_payload(text: &str) -> (out: String)
    requires
        !lone_quote(text@),
    ensures
        out@ == echo_payload_spec(text@),
{
    proof {
        reveal_strlit("\\n");
        reveal_strlit("\\t");
    }
    let cs = chars_of(text);
    let n = cs.len();
    let unquoted = if n > 0 && ((cs[0] == '"' && cs[n - 1] == '"') || (cs[0] == '\'' && cs[n
        - 1] == '\'')) {
        slice_chars(cs.as_slice(), 1, n - 1)
    } else {
        cs
    };
    let nl_from = chars_of(ESCAPED_NEWLINE);
    let nl_to = chars_of(NEWLINE);
    let tab_from = chars_of(ESCAPED_TAB);
    let tab_to = chars_of(TAB);
    let step = replace_chars(unquoted.as_slice(), nl_from.as_slice(), nl_to.as_slice());
    let done = replace_chars(step.as_slice(), tab_from.as_slice(), tab_to.as_slice());
    string_of(done.as_slice())
}

/// `s` with `<` and `>` written as the entities `&lt;` and `&gt;`.
pub open spec fn escape_angle_brackets(s: Seq<char>) -> Seq<char> {
    replace_all(replace_all(s, LT@, LT_ENTITY@), GT@, GT_ENTITY@)
}

/// Escapes the angle brackets of a text that is shown inside a page.
pub fn escape_html(s: &str) -> (out: String)
    ensures
        out@ == escape_angle_brackets(s@),
{
    proof {
        reveal_strlit("<");
        reveal_strlit(">");
    }
    let step = replace(s, LT, LT_ENTITY);
    replace(step.as_str(), GT, GT_ENTITY)
}

/// Text escaped for display holds no tag: neither `<` nor `>` occurs in it.
pub proof fn escaped_text_has_no_angle_brackets(s: Seq<char>)
    ensures
        !contains_pat(escape_angle_brackets(s), LT@),
        !contains_pat(escape_angle_brackets(s), GT@),
{
    reveal_strlit("<");
    reveal_strlit(">");
    reveal_strlit("&lt;");
    reveal_strlit("&gt;");
    reveal_with_fuel(cannot_begin, 6);
    reveal_with_fuel(diverge, 2);
    assert(safe_replacement(LT_ENTITY@, LT@));
    assert(safe_replacement(GT_ENTITY@, LT@));
    assert(safe_replacement(GT_ENTITY@, GT@));
    let s1 = replace_all(s, LT@, LT_ENTITY@);
    lemma_replace_removes(s, LT@, LT_ENTITY@);
    lemma_replace_keeps_free(s1, GT@, GT_ENTITY@, LT@);
    lemma_replace_removes(s1, GT@, GT_ENTITY@);
}

/// A local path with every `~` replaced by the home directory.
pub open spec fn expand_home_spec(path: Seq<char>, home: Seq<char>) -> Seq<char> {
    replace_all(path, HOME_MARK@, home)
}

/// Replaces every `~` of a path by the home directory.
pub fn expand_home(path: &str, home: &str) -> (out: String)
    ensures
        out@ == expand_home_spec(path@, home@),
{
    proof {
        reveal_strlit("~");
    }
    replace(path, HOME_MARK, home)
}

/// A worker name is a catalog alias unless it is empty or looks like a URL
/// or a path: a leading `http`, `/`, `.` or `~`, a drive separator `:\`, or
/// a `.wasm` ending.
pub open spec fn is_catalog_alias(name: Seq<char>) -> bool {
    &&& name.len() > 0
    &&& !starts_with(name, HTTP@)
    &&& !starts_with(name, SLASH@)
    &&& !starts_with(name, DOT@)
    &&& !starts_with(name, HOME_MARK@)
    &&& !contains_pat(name, DRIVE_SEPARATOR@)
    &&& !ends_with(name, WASM_SUFFIX@)
}

/// Where a worker is loaded from: a catalog alias names a module of the
/// official repository, anything else is used as given.
pub open spec fn worker_source_spec(name: Seq<char>) -> Seq<char> {
    if is_catalog_alias(name) {
        MODULE_REPOSITORY@ + name + WASM_SUFFIX@
    } else {
        name
    }
}

/// Resolves a worker name to the URL or path it is loaded from, and tells
/// whether it was a catalog alias.
pub fn worker_source(name: &str) -> (out: (String, bool))
    ensures
        out.0@ == worker_source_spec(name@),
        out.1 == is_catalog_alias(name@),
{
    let alias = !name.is_empty() && !has_prefix(name, HTTP) && !has_prefix(name, SLASH) && !has_prefix(
        name,
        DOT,
    ) && !has_prefix(name, HOME_MARK) && !has_substring(name, DRIVE_SEPARATOR) && !has_suffix(
        name,
        WASM_SUFFIX,
    );
    if alias {
        let mut url = String::from_str(MODULE_REPOSITORY);
        url.append(name);
        url.append(WASM_SUFFIX);
        (url, true)
    } else {
        (String::from_str(name), false)
    }
}

/// The argument list a worker runs with: the program name, then every token
/// after the worker name.
pub open spec fn worker_args_spec(tokens: Seq<Seq<char>>) -> Seq<Seq<char>> {
    if tokens.len() > 1 {
        seq![WORKER_PROGRAM@] + tokens.skip(1)
    } else {
        seq![WORKER_PROGRAM@]
    }
}

/// The argument list of a worker run.
pub fn worker_args(tokens: &Vec<String>) -> (out: Vec<String>)
    ensures
        out@.len() == worker_args_spec(tokens@.map_values(|t: String| t@)).len(),
        forall|i: int| 0 <= i < out@.len() ==> #[trigger] out@[i]@ == worker_args_spec(
            tokens@.map_values(|t: String| t@),
        )[i],
{
    let ghost spec_tokens = tokens@.map_values(|t: String| t@);
    let mut out: Vec<String> = Vec::new();
    out.push(String::from_str(WORKER_PROGRAM));
    let mut k: usize = 1;
    while k < tokens.len()
        invariant
            1 <= k,
            tokens@.len() > 1 ==> k <= tokens@.len(),
            tokens@.len() <= 1 ==> k == 1,
            spec_tokens == tokens@.map_values(|t: String| t@),
            out@.len() == k,
            out@[0]@ == WORKER_PROGRAM@,
            forall|j: int| 1 <= j < k ==> #[trigger] out@[j]@ == tokens@[j]@,
        decreases tokens@.len() - k,
    {
        out.push(tokens[k].clone());
        k = k + 1;
    }
    proof {
        let w = worker_args_spec(spec_tokens);
        if tokens@.len() > 1 {
            assert(k == tokens@.len());
            assert forall|i: int| 0 <= i < out@.len() implies #[trigger] out@[i]@ == w[i] by {
                if i > 0 {
                    assert(w[i] == spec_tokens.skip(1)[i - 1]);
                }
            }
        } else {
            assert(k == 1);
        }
    }
    out
}

/// What a worker run leaves in the pipeline: its trimmed output, or a
/// placeholder when that is empty.
pub open spec fn worker_output_spec(raw: Seq<char>) -> Seq<char> {
    if trimmed(raw).len() == 0 {
        NO_OUTPUT@
    } else {
        trimmed(raw)
    }
}

/// The pipeline data left by a worker's (decoded) output.
pub fn worker_output(raw: &str) -> (out: String)
    ensures
        out@ == worker_output_spec(raw@),
{
    let t = crate::text::trim(raw);
    if t.as_str().unicode_len() == 0 {
        String::from_str(NO_OUTPUT)
    } else {
        t
    }
}

/// A worker is downloaded when its source starts with `http`, and read
/// from the local disk otherwise.
pub fn fetched_over_http(source: &str) -> (b: bool)
    ensures
        b == starts_with(source@, HTTP@),
{
    has_prefix(source, HTTP)
}

/// The directory that a worker may use for its models: `.isobrowse_models`
/// in the home directory.
pub open spec fn models_dir_spec(home: Seq<char>) -> Seq<char> {
    home + MODELS_DIR@
}

/// The models directory under the home directory.
pub fn models_dir(home: &str) -> (out: String)
    ensures
        out@ == models_dir_spec(home@),
{
    let mut out = String::from_str(home);
    out.append(MODELS_DIR);
    out
}

/// A worker output is a chart description when it holds `"iso_chart": true`.
pub open spec fn is_chart_spec(data: Seq<char>) -> bool {
    contains_pat(data, CHART_MARKER@)
}

/// Whether a worker output is a chart description.
pub fn is_chart(data: &str) -> (b: bool)
    ensures
        b == is_chart_spec(data@),
{
    has_substring(data, CHART_MARKER)
}

/// A `/get` or `/nojs` target becomes a web address: the trimmed argument
/// as given when it already starts with `http`, and otherwise the argument
/// behind `https://`. Either way the address starts with `http`.
pub proof fn fetch_targets_become_web_addresses(c: Seq<char>)
    ensures
        starts_with(c, "/get "@) ==> ({
            let a = trimmed(c.skip(5));
            &&& starts_with(a, "http"@) ==> parse_command_spec(c) == CommandView::Get { url: a }
            &&& !starts_with(a, "http"@) ==> parse_command_spec(c) == CommandView::Get {
                url: "https://"@ + a,
            }
            &&& parse_command_spec(c) matches CommandView::Get { url } && starts_with(url, "http"@)
        }),
        starts_with(c, "/nojs "@) ==> ({
            let a = trimmed(c.skip(6));
            &&& starts_with(a, "http"@) ==> parse_command_spec(c) == CommandView::NoJs { url: a }
            &&& !starts_with(a, "http"@) ==> parse_command_spec(c) == CommandView::NoJs {
                url: "https://"@ + a,
            }
            &&& parse_command_spec(c) matches CommandView::NoJs { url } && starts_with(url, "http"@)
        }),
{
    reveal_strlit("/help");
    reveal_strlit("/catalog");
    reveal_strlit("/explore");
    reveal_strlit("/read ");
    reveal_strlit("/cat ");
    reveal_strlit("/get ");
    reveal_strlit("/nojs ");
    reveal_strlit("http");
    reveal_strlit("https://");
    if starts_with(c, "/get "@) {
        assert(c[0int + 1] == "/get "@[1]);
        let a = trimmed(c.skip(5));
        if !starts_with(a, "http"@) {
            let u = "https://"@ + a;
            assert forall|j: int| 0 <= j < 4 implies #[trigger] u[0 + j] == "http"@[j] by {
                assert(u[j] == "https://"@[j]);
            }
        }
    }
    if starts_with(c, "/nojs "@) {
        assert(c[0int + 1] == "/nojs "@[1]);
        let a = trimmed(c.skip(6));
        if !starts_with(a, "http"@) {
            let u = "https://"@ + a;
            assert forall|j: int| 0 <= j < 4 implies #[trigger] u[0 + j] == "http"@[j] by {
                assert(u[j] == "https://"@[j]);
            }
        }
    }
}

} // verus!
