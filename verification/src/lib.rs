//! Maps chat messages onto flat, typed documents for a full-text search
//! index, and classifies each message by the kinds of media it carries.
//!
//! The schema definition and the document mapper are verified; the calls
//! into the tantivy search engine stand behind the trusted declarations in
//! [`engine`].

pub mod engine;
pub mod mapping;
pub mod media;
pub mod message;
pub mod schema;
pub mod text;
