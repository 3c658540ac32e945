//! Versioned configuration schemas for TOML documents.
//!
//! A configuration format changes over time. Each shape it ever had is a
//! schema with its own version number, and a document says in one of its
//! fields for which version it was written. This crate reads such a document
//! in the shape it was written for and upgrades the value, one schema at a
//! time, to the newest shape.
//!
//! A schema is a type that can be decoded from TOML ([`FromToml`]) and built
//! from the schema before it (`From`). The schemas form a chain ([`Root`],
//! [`Link`]). [`migrate_config`] checks the text, takes the version field
//! out of the document ([`Version`]) and hands the version and the rest of
//! the document to the chain, whose [`Migrate::migrate_from_str`] finds the
//! matching schema, decodes there and converts forward.
pub mod chain;
pub mod decode;
pub mod depth;
pub mod error;
pub mod link;
pub mod resolver;
pub mod root;
pub mod syntax;
pub mod version;

pub use crate::chain::Migrate;
pub use crate::decode::FromToml;
pub use crate::depth::{is_shallow, DEPTH_LIMIT};
pub use crate::error::{MigrateError, ParseError};
pub use crate::link::Link;
pub use crate::resolver::{migrate_config, migrate_tagged, migrate_taken};
pub use crate::root::Root;
pub use crate::syntax::check_syntax;
pub use crate::version::{version_tag, Version};
