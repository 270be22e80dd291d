//! What the pages ask of the worker: each button, with what is typed on its page.

pub mod builds;
pub mod evidence;
pub mod home;
pub mod jobs;
pub mod projects;
pub mod settings;
pub mod shared;
pub mod targets;
pub mod toolchains;
pub mod workflow;
