//! Verified core of a GitHub Action that creates signed commits through the
//! GitHub REST API: ref naming, input parsing, file selection, request
//! retries and the decisions of the commit workflow.

pub mod text;
pub mod refs;
pub mod inputs;
pub mod git;
pub mod api;
pub mod patterns;
pub mod workflow;
