//! Summarises the history of a repository: finds the commits that a log
//! mentions, prepares the requests that ask a text-generation endpoint for
//! summaries, and lays the answers out as a markdown report.

pub mod client;
pub mod commits;
pub mod machine;
pub mod orchestrator;
pub mod process;
pub mod prompts;
pub mod report;
pub mod text;
