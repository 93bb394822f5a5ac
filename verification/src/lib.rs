//! Configuration of a Witnet node.
//!
//! A configuration is written as TOML text in which every section and every
//! setting may be left out.  Loading it yields a partial configuration
//! ([`config::partial::Config`]) that records which settings were given;
//! resolving the partial configuration against the defaults of
//! [`defaults`] yields the configuration that the node runs with
//! ([`config::Config`]).
//!
//! [`loaders::toml`] loads a partial configuration from text, and
//! [`config::Config::from_text`] loads and resolves in one step.  On the way,
//! [`nesting`] measures the text, [`document`] parses it into a tree, and
//! [`decode`] reads the tree against the [`schema`].  [`encode`] and
//! [`render`] go the other way, from a configuration to a tree and to text.
//! [`environment`], [`address`], [`duration`] and [`path`] hold the kinds of
//! value that a setting takes, and [`error`] what can be wrong with a text.
pub mod address;
pub mod config;
pub mod decode;
pub mod defaults;
pub mod document;
pub mod duration;
pub mod encode;
pub mod environment;
pub mod error;
pub mod loaders;
pub mod nesting;
pub mod path;
pub mod render;
pub mod schema;
pub mod text;
