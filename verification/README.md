# IsoBrowse

A local data-pipeline runtime: a terminal inside a web view runs pipelines such as

    /get news.ycombinator.com | /run htmlclean | /run linkextract | /run sort

where each `/run` step is a WebAssembly worker, and `/nojs` shows a fetched web
page with its scripts and frames made inert.

## Layout

- `src/` — the library, with its contracts and proofs:
  - `text` — search, replacement, counting, trimming and decimal rendering over
    character sequences, and the laws of replacement (what a safe replacement
    removes, keeps absent, or marks);
  - `markup`, `engine_ghost`, `runtime_standard`, `runtime_surf`, `nojs` — the
    page engines and the `/nojs` treatment, with their sandboxing laws;
  - `command` — the pipeline command language;
  - `pipeline` — the runner's decision for each step, from command and outcome
    to data, terminal lines, pages and stopping;
  - `pages`, `notices` — the texts the runner shows;
  - `host` — the IPC request and the front-end render call.
- `app/` — the program: window, web view, network, files, worker sandbox,
  `/rhai` script engine, telemetry, and the engines' WebAssembly exports.
- `tests/` — tests of the library on concrete values.
