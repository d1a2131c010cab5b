//! A local code search library: it models file-system repositories, decides
//! which files an indexing pass must (re)index, builds the indexable records,
//! drives a full-text index and a small metadata store behind narrow trusted
//! interfaces, and answers ranked queries over the committed snapshot.

pub mod api_models;
pub mod builder;
pub mod config;
pub mod engine;
pub mod error;
pub mod laws;
pub mod metadata;
pub mod numcodec;
pub mod schema;
pub mod simple_text;
pub mod store;
pub mod strutil;
pub mod utils;
