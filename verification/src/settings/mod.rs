//! The configuration: its types, its defaults, and how command-line values
//! override what a configuration file holds.

pub mod app_settings;
pub mod settings_resolver;
