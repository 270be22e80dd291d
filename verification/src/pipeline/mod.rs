//! The workflow pipeline: which steps a request asks for, and what is done as the answers come in.

pub mod messages;
pub mod plan;
pub mod requests;
pub mod run;
pub mod service;
pub mod laws;
