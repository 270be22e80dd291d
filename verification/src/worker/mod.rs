//! The worker: what it does for each command of the interface, as the answers come in.

pub mod builds;
pub mod call;
pub mod command;
pub mod courses;
pub mod group;
pub mod jobs;
pub mod lists;
pub mod observe;
pub mod outcomes;
pub mod pages;
pub mod parse;
pub mod phase;
pub mod projects;
pub mod reply;
pub mod requests;
pub mod shown;
pub mod state;
pub mod steps;
pub mod streams;
pub mod targets;
pub mod toolchains;
pub mod turn;
