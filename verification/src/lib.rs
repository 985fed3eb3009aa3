//! Backend library for a stamp-composition workspace manager.
//!
//! A *workspace* is an isolated directory holding one in-progress stamp
//! project: a declarative specification document plus `images/` and `fonts/`
//! asset folders. This crate holds the verified core: the specification
//! model with its canonicalization rules, the workspace registry, the
//! path logic of the asset manager and the archive packer, and the
//! decision logic of the renderer bridge.

pub mod archive;
pub mod codec;
pub mod doc;
pub mod errors;
pub mod fsplan;
pub mod preview;
pub mod registry;
pub mod schema;
pub mod spec_model;
pub mod textops;
pub mod toml_codec;
