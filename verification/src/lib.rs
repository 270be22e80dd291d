//! The decision-making core of an Android development kit: addresses and paths, configuration,
//! saved interface state, the command worker, the workflow pipeline and the text it all produces.

pub mod commands;
pub mod config;
pub mod context;
pub mod forms;
pub mod job_events;
pub mod model;
pub mod pipeline;
pub mod project;
pub mod routing;
pub mod screen;
pub mod text;
pub mod ui_events;
pub mod ui_state;
pub mod util;
pub mod worker;
