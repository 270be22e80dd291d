//! How each command begins, and how it goes on with each answer.

pub mod builds;
pub mod jobs;
pub mod observe;
pub mod projects;
pub mod state;
pub mod targets;
pub mod toolchains;
