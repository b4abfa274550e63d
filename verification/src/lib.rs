pub mod remap_rules;
pub mod remapper;
pub mod schedule;
pub mod names;
mod text;
pub mod cli;
pub mod image_layout;
pub mod checkpoint;
pub mod config;
