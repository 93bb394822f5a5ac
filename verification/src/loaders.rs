//! Loaders of configurations, one for each format in which a configuration
//! can be written.
pub mod toml;
