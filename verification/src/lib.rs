//! Media acquisition pipeline: provider registries and selection rules, the
//! extraction / download / fix composition, the task queue, and the packing of
//! produced files into delivery batches.

pub mod actions;
pub mod bot;
pub mod bot_config;
pub mod commands;
pub mod config;
pub mod file_id;
pub mod fixers;
pub mod grouping;
pub mod hub;
pub mod instagram;
pub mod music;
pub mod options;
pub mod pipeline;
pub mod queue;
pub mod registry;
pub mod tasks;
pub mod text;
