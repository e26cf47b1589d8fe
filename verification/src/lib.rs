//! Verified core of an IRIS development assistant: connection addressing,
//! discovery decisions, session-output cleanup, source-text transforms,
//! manifests, class generation checks, and the decision logic of the tools.

pub mod text;
pub mod cli;
pub mod iris;
pub mod manifest;
pub mod generate;
pub mod skills;
pub mod tools;
pub mod matching;
