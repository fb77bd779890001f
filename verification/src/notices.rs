//! The lines that the pipeline writes to the terminal, and the failure
//! texts of worker downloads.
use vstd::prelude::*;
use crate::text::{decimal, decimal_string};

verus! {

/// Announces the codex.
pub const HELP_NOTICE: &'static str = "> [SYSTEM]: Loading IsoBrowse Codex...";

/// Announces the catalog.
pub const CATALOG_NOTICE: &'static str = "> [SYSTEM]: Connecting to GitHub and fetching live catalog...";

pub const READ_NOTICE_0: &'static str = "> [LOCAL READ]: Accessing ";
pub const READ_NOTICE_1: &'static str = "...";

/// Announces a local file read.
pub open spec fn read_notice_spec(path: Seq<char>) -> Seq<char> {
    READ_NOTICE_0@ + path + READ_NOTICE_1@
}

/// Announces a local file read.
pub fn read_notice(path: &str) -> (out: String)
    ensures
        out@ == read_notice_spec(path@),
{
    let mut out = String::from_str(READ_NOTICE_0);
    out.append(path);
    out.append(READ_NOTICE_1);
    out
}

pub const READ_FAILED_NOTICE_0: &'static str = "> [ERROR]: Read failed: ";
pub const READ_FAILED_NOTICE_1: &'static str = "";

/// Reports a failed file read.
pub open spec fn read_failed_notice_spec(detail: Seq<char>) -> Seq<char> {
    READ_FAILED_NOTICE_0@ + detail + READ_FAILED_NOTICE_1@
}

/// Reports a failed file read.
pub fn read_failed_notice(detail: &str) -> (out: String)
    ensures
        out@ == read_failed_notice_spec(detail@),
{
    let mut out = String::from_str(READ_FAILED_NOTICE_0);
    out.append(detail);
    out.append(READ_FAILED_NOTICE_1);
    out
}

pub const GET_NOTICE_0: &'static str = "> [PIPELINE GET]: Downloading raw data from ";
pub const GET_NOTICE_1: &'static str = "...";

/// Announces a raw download.
pub open spec fn get_notice_spec(url: Seq<char>) -> Seq<char> {
    GET_NOTICE_0@ + url + GET_NOTICE_1@
}

/// Announces a raw download.
pub fn get_notice(url: &str) -> (out: String)
    ensures
        out@ == get_notice_spec(url@),
{
    let mut out = String::from_str(GET_NOTICE_0);
    out.append(url);
    out.append(GET_NOTICE_1);
    out
}

pub const GET_FAILED_NOTICE_0: &'static str = "> [ERROR]: Get failed: ";
pub const GET_FAILED_NOTICE_1: &'static str = "";

/// Reports a failed raw download.
pub open spec fn get_failed_notice_spec(detail: Seq<char>) -> Seq<char> {
    GET_FAILED_NOTICE_0@ + detail + GET_FAILED_NOTICE_1@
}

/// Reports a failed raw download.
pub fn get_failed_notice(detail: &str) -> (out: String)
    ensures
        out@ == get_failed_notice_spec(detail@),
{
    let mut out = String::from_str(GET_FAILED_NOTICE_0);
    out.append(detail);
    out.append(GET_FAILED_NOTICE_1);
    out
}

pub const NOJS_NOTICE_0: &'static str = "> [PIPELINE GET]: Pulling raw DOM from ";
pub const NOJS_NOTICE_1: &'static str = "...";

/// Announces a page download.
pub open spec fn nojs_notice_spec(url: Seq<char>) -> Seq<char> {
    NOJS_NOTICE_0@ + url + NOJS_NOTICE_1@
}

/// Announces a page download.
pub fn nojs_notice(url: &str) -> (out: String)
    ensures
        out@ == nojs_notice_spec(url@),
{
    let mut out = String::from_str(NOJS_NOTICE_0);
    out.append(url);
    out.append(NOJS_NOTICE_1);
    out
}

pub const NOJS_FAILED_NOTICE_0: &'static str = "> [ERROR]: Download failed: ";
pub const NOJS_FAILED_NOTICE_1: &'static str = "";

/// Reports a failed page download.
pub open spec fn nojs_failed_notice_spec(detail: Seq<char>) -> Seq<char> {
    NOJS_FAILED_NOTICE_0@ + detail + NOJS_FAILED_NOTICE_1@
}

/// Reports a failed page download.
pub fn nojs_failed_notice(detail: &str) -> (out: String)
    ensures
        out@ == nojs_failed_notice_spec(detail@),
{
    let mut out = String::from_str(NOJS_FAILED_NOTICE_0);
    out.append(detail);
    out.append(NOJS_FAILED_NOTICE_1);
    out
}

/// Announces a script evaluation.
pub const RHAI_NOTICE: &'static str = "> [RHAI ENGINE]: Executing sandbox script...";

pub const RHAI_FAILED_NOTICE_0: &'static str = "> [RHAI ERROR]: ";
pub const RHAI_FAILED_NOTICE_1: &'static str = "";

/// Reports a failed script evaluation.
pub open spec fn rhai_failed_notice_spec(detail: Seq<char>) -> Seq<char> {
    RHAI_FAILED_NOTICE_0@ + detail + RHAI_FAILED_NOTICE_1@
}

/// Reports a failed script evaluation.
pub fn rhai_failed_notice(detail: &str) -> (out: String)
    ensures
        out@ == rhai_failed_notice_spec(detail@),
{
    let mut out = String::from_str(RHAI_FAILED_NOTICE_0);
    out.append(detail);
    out.append(RHAI_FAILED_NOTICE_1);
    out
}

pub const ALIAS_NOTICE_0: &'static str = "> [CATALOG]: Alias '";
pub const ALIAS_NOTICE_1: &'static str = "' detected. Routing to official repository...";

/// Announces that a worker name is a catalog alias.
pub open spec fn alias_notice_spec(name: Seq<char>) -> Seq<char> {
    ALIAS_NOTICE_0@ + name + ALIAS_NOTICE_1@
}

/// Announces that a worker name is a catalog alias.
pub fn alias_notice(name: &str) -> (out: String)
    ensures
        out@ == alias_notice_spec(name@),
{
    let mut out = String::from_str(ALIAS_NOTICE_0);
    out.append(name);
    out.append(ALIAS_NOTICE_1);
    out
}

pub const WORKER_NOTICE_0: &'static str = "> [WORKER ENGINE]: Running worker from ";
pub const WORKER_NOTICE_1: &'static str = "...";

/// Announces where a worker is loaded from.
pub open spec fn worker_notice_spec(source: Seq<char>) -> Seq<char> {
    WORKER_NOTICE_0@ + source + WORKER_NOTICE_1@
}

/// Announces where a worker is loaded from.
pub fn worker_notice(source: &str) -> (out: String)
    ensures
        out@ == worker_notice_spec(source@),
{
    let mut out = String::from_str(WORKER_NOTICE_0);
    out.append(source);
    out.append(WORKER_NOTICE_1);
    out
}

pub const MODULE_NOT_FOUND_MESSAGE_0: &'static str = "Module not found (404). Please verify the name: '";
pub const MODULE_NOT_FOUND_MESSAGE_1: &'static str = "'";

/// The download failure for a worker that the repository does not have.
pub open spec fn module_not_found_message_spec(name: Seq<char>) -> Seq<char> {
    MODULE_NOT_FOUND_MESSAGE_0@ + name + MODULE_NOT_FOUND_MESSAGE_1@
}

/// The download failure for a worker that the repository does not have.
pub fn module_not_found_message(name: &str) -> (out: String)
    ensures
        out@ == module_not_found_message_spec(name@),
{
    let mut out = String::from_str(MODULE_NOT_FOUND_MESSAGE_0);
    out.append(name);
    out.append(MODULE_NOT_FOUND_MESSAGE_1);
    out
}

pub const HTTP_ERROR_MESSAGE_0: &'static str = "HTTP Error: ";
pub const HTTP_ERROR_MESSAGE_1: &'static str = "";

/// The download failure for any other unsuccessful answer.
pub open spec fn http_error_message_spec(status: Seq<char>) -> Seq<char> {
    HTTP_ERROR_MESSAGE_0@ + status + HTTP_ERROR_MESSAGE_1@
}

/// The download failure for any other unsuccessful answer.
pub fn http_error_message(status: &str) -> (out: String)
    ensures
        out@ == http_error_message_spec(status@),
{
    let mut out = String::from_str(HTTP_ERROR_MESSAGE_0);
    out.append(status);
    out.append(HTTP_ERROR_MESSAGE_1);
    out
}

pub const WASM_LOADED_NOTICE_0: &'static str = "> [WASM]: ";
pub const WASM_LOADED_NOTICE_1: &'static str = " bytes loaded. Compiling VM sandbox...";

/// Reports the size of a loaded worker.
pub open spec fn wasm_loaded_notice_spec(size: u128) -> Seq<char> {
    WASM_LOADED_NOTICE_0@ + decimal(size as nat) + WASM_LOADED_NOTICE_1@
}

/// Reports the size of a loaded worker.
pub fn wasm_loaded_notice(size: u128) -> (out: String)
    ensures
        out@ == wasm_loaded_notice_spec(size),
{
    let mut out = String::from_str(WASM_LOADED_NOTICE_0);
    let digits = decimal_string(size);
    out.append(digits.as_str());
    out.append(WASM_LOADED_NOTICE_1);
    out
}

pub const COMPILE_FAILED_NOTICE_0: &'static str = "> [ERROR]: WASM Compilation failed: ";
pub const COMPILE_FAILED_NOTICE_1: &'static str = "";

/// Reports a worker that failed to compile.
pub open spec fn compile_failed_notice_spec(detail: Seq<char>) -> Seq<char> {
    COMPILE_FAILED_NOTICE_0@ + detail + COMPILE_FAILED_NOTICE_1@
}

/// Reports a worker that failed to compile.
pub fn compile_failed_notice(detail: &str) -> (out: String)
    ensures
        out@ == compile_failed_notice_spec(detail@),
{
    let mut out = String::from_str(COMPILE_FAILED_NOTICE_0);
    out.append(detail);
    out.append(COMPILE_FAILED_NOTICE_1);
    out
}

pub const WORKER_DOWNLOAD_FAILED_NOTICE_0: &'static str = "> [ERROR]: Worker Download failed: ";
pub const WORKER_DOWNLOAD_FAILED_NOTICE_1: &'static str = "";

/// Reports a worker that failed to download.
pub open spec fn worker_download_failed_notice_spec(detail: Seq<char>) -> Seq<char> {
    WORKER_DOWNLOAD_FAILED_NOTICE_0@ + detail + WORKER_DOWNLOAD_FAILED_NOTICE_1@
}

/// Reports a worker that failed to download.
pub fn worker_download_failed_notice(detail: &str) -> (out: String)
    ensures
        out@ == worker_download_failed_notice_spec(detail@),
{
    let mut out = String::from_str(WORKER_DOWNLOAD_FAILED_NOTICE_0);
    out.append(detail);
    out.append(WORKER_DOWNLOAD_FAILED_NOTICE_1);
    out
}

/// Reports a command of a pipeline that is not known.
pub const INVALID_COMMAND_NOTICE: &'static str = "> [ERROR]: Invalid command. Use /nojs, /run, /get, etc.";

/// Reports an input that starts no pipeline.
pub const UNRECOGNIZED_NOTICE: &'static str = "> [ERROR]: Command not recognized. Please check the Examples menu.";

pub const TERMINAL_SCRIPT_0: &'static str = "if(window.updateTerminal) window.updateTerminal('";
pub const TERMINAL_SCRIPT_1: &'static str = "');";

/// The script that shows a line in the terminal of the page.
pub open spec fn terminal_script_spec(message: Seq<char>) -> Seq<char> {
    TERMINAL_SCRIPT_0@ + message + TERMINAL_SCRIPT_1@
}

/// The script that shows a line in the terminal of the page.
pub fn terminal_script(message: &str) -> (out: String)
    ensures
        out@ == terminal_script_spec(message@),
{
    let mut out = String::from_str(TERMINAL_SCRIPT_0);
    out.append(message);
    out.append(TERMINAL_SCRIPT_1);
    out
}

/// Announces that the user is asked for a file.
pub const UPLOAD_NOTICE: &'static str = "> [SYSTEM]: Waiting for user to select a file...";
/// Reports that the user aborted the file selection.
pub const UPLOAD_CANCELLED_NOTICE: &'static str = "> [SYSTEM]: File selection cancelled.";
} // verus!
