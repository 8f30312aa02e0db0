//! Engine of a validation pipeline for OpenAPI documents: it plans the lint,
//! generate and compile stages, keeps the ledger of task outcomes, and renders
//! the dashboard. Running processes and touching files is left to the caller;
//! every function here maps plain values to plain values.

pub mod cli;
pub mod config;
pub mod docker;
pub mod output;
pub mod pipeline;
pub mod steps;
pub mod text;
pub mod util;
pub mod yaml;
