//! IsoBrowse, a local data-pipeline runtime: the page engines that make
//! fetched web pages inert, the pipeline command language, and the runner's
//! decisions for each pipeline step, each with its contract.
pub mod text;
pub mod markup;
pub mod engine_ghost;
pub mod runtime_standard;
pub mod runtime_surf;
pub mod command;
pub mod nojs;
pub mod pages;
pub mod notices;
pub mod pipeline;
pub mod host;
