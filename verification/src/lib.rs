//! Audio feedback for the command line: the decisions behind `ting`.
pub mod args;
pub mod cmds;
pub mod config;
pub mod cue_map;
pub mod input;
pub mod order;
pub mod paths;
pub mod play;
pub mod text;
pub mod validate;
